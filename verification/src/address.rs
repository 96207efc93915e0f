//! Account addresses in the text form that the completion store keeps.
//!
//! An address is a Starknet field element. A request may write it in hexadecimal behind
//! `0x` or in decimal; the store keeps the decimal digits of its value.

use vstd::prelude::*;
use std::str::FromStr;

verus! {

/// The decimal text of the field element that `text` denotes, or `None` where `text`
/// denotes none. This names what `FieldElement::from_str` followed by the element's
/// `Display` gives; nothing more is assumed of it.
pub uninterp spec fn felt_decimal(text: Seq<char>) -> Option<Seq<char>>;

/// Calls `FieldElement::from_str` of the `starknet` crate on `text` and, where that
/// succeeds, formats the element through its `Display` impl. Both depend on the text
/// alone and neither panics, so the result is the one that [`felt_decimal`] names.
#[verifier::external_body]
fn felt_to_decimal(text: &str) -> (r: Option<String>)
    ensures
        r.deep_view() == felt_decimal(text@),
{
    match starknet::core::types::FieldElement::from_str(text) {
        Ok(felt) => Some(felt.to_string()),
        Err(_) => None,
    }
}

/// Whether `text` is the stored form of an address: the decimal text of a field
/// element that some text denotes.
pub open spec fn is_stored_form(text: Seq<char>) -> bool {
    exists|raw: Seq<char>| #[trigger] felt_decimal(raw) == Some(text)
}

/// An address, held as the text under which the completion store files it.
#[derive(Debug, PartialEq, Eq)]
pub struct Address {
    text: String,
}

impl View for Address {
    type V = Seq<char>;

    closed spec fn view(&self) -> Seq<char> {
        self.text@
    }
}

impl Clone for Address {
    fn clone(&self) -> (copy: Self)
        ensures
            copy@ == self@,
    {
        proof {
            use_type_invariant(self);
        }
        Address { text: self.text.clone() }
    }
}

impl Address {
    /// Every address holds a stored form.
    #[verifier::type_invariant]
    spec fn holds_stored_form(self) -> bool {
        is_stored_form(self.text@)
    }

    /// Reads an address as a request writes it. `None` where the text denotes no field
    /// element.
    pub fn parse(raw: &str) -> (r: Option<Address>)
        ensures
            match felt_decimal(raw@) {
                Some(text) => r matches Some(a) && a@ == text,
                None => r is None,
            },
    {
        match felt_to_decimal(raw) {
            Some(text) => {
                assert(felt_decimal(raw@) == Some(text@));
                Some(Address { text })
            },
            None => None,
        }
    }

    /// The text under which the store files this address.
    pub fn as_str(&self) -> (s: &str)
        ensures
            s@ == self@,
            is_stored_form(s@),
    {
        proof {
            use_type_invariant(self);
        }
        self.text.as_str()
    }

    /// Whether `stored` is this address, as the store writes it.
    pub fn is_stored_as(&self, stored: &String) -> (same: bool)
        ensures
            same == (stored@ == self@),
    {
        *stored == self.text
    }
}

} // verus!
