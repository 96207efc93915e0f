//! Updating the boost of a quest.
//!
//! A request names a quest and any of the attributes of its boost. Only the attributes
//! that the request carries are changed. The changes are handed to the store as a BSON
//! document, which this module fills through the `bson` crate that `mongodb` re-exports.

use vstd::prelude::*;
use mongodb::bson::Document;

verus! {

/// The BSON document type, opaque to the verifier.
#[verifier::external_type_specification]
#[verifier::external_body]
pub struct ExDocument(mongodb::bson::Document);

/// What a field of a document holds, as far as this module writes fields.
pub enum FieldModel {
    Int32(i32),
    Int64(i64),
    Text(Seq<char>),
    /// Any other kind of BSON value.
    Other,
}

/// The fields of a document, in the order in which the document keeps them.
pub uninterp spec fn document_fields(doc: Document) -> Seq<(Seq<char>, FieldModel)>;

/// Whether `fields` holds a field under `key`.
pub open spec fn has_field(fields: Seq<(Seq<char>, FieldModel)>, key: Seq<char>) -> bool {
    exists|i: int| 0 <= i < fields.len() && (#[trigger] fields[i]).0 == key
}

/// `fields` after `value` is written under `key`: a field that is there keeps its place
/// and takes the value, a new field goes last.
pub open spec fn with_field(
    fields: Seq<(Seq<char>, FieldModel)>,
    key: Seq<char>,
    value: FieldModel,
) -> Seq<(Seq<char>, FieldModel)> {
    if has_field(fields, key) {
        let at = choose|i: int| 0 <= i < fields.len() && (#[trigger] fields[i]).0 == key;
        fields.update(at, (key, value))
    } else {
        fields.push((key, value))
    }
}

/// `Document::new` of `bson` gives a document without fields.
pub assume_specification[ Document::new ]() -> (doc: Document)
    ensures
        document_fields(doc) == Seq::<(Seq<char>, FieldModel)>::empty(),
;

/// Calls `Document::insert` of `bson` with an `i32`, which `bson` stores as
/// `Bson::Int32`. The document is an `IndexMap`: inserting replaces the value of a key
/// that is there, in place, and appends a key that is not.
#[verifier::external_body]
fn insert_int32(doc: &mut Document, key: &str, value: i32)
    ensures
        document_fields(*final(doc)) == with_field(
            document_fields(*old(doc)),
            key@,
            FieldModel::Int32(value),
        ),
{
    doc.insert(key, value);
}

/// Calls `Document::insert` of `bson` with an `i64`, which `bson` stores as
/// `Bson::Int64`; the document changes as for [`insert_int32`].
#[verifier::external_body]
fn insert_int64(doc: &mut Document, key: &str, value: i64)
    ensures
        document_fields(*final(doc)) == with_field(
            document_fields(*old(doc)),
            key@,
            FieldModel::Int64(value),
        ),
{
    doc.insert(key, value);
}

/// Calls `Document::insert` of `bson` with a string slice, which `bson` copies into a
/// `Bson::String`; the document changes as for [`insert_int32`].
#[verifier::external_body]
fn insert_text(doc: &mut Document, key: &str, value: &str)
    ensures
        document_fields(*final(doc)) == with_field(
            document_fields(*old(doc)),
            key@,
            FieldModel::Text(value@),
        ),
{
    doc.insert(key, value);
}

/// A request to update the boost of the quest `quest_id`. An attribute that is `None`
/// is left as the store has it.
#[derive(Debug, Clone, PartialEq, Eq)]
pub struct UpdateBoostQuery {
    pub amount: Option<i32>,
    pub token: Option<String>,
    pub num_of_winners: Option<i64>,
    pub token_decimals: Option<i64>,
    pub expiry: Option<i64>,
    pub name: Option<String>,
    pub img_url: Option<String>,
    pub remove_boost: Option<bool>,
    pub quest_id: i32,
}

/// The model of an [`UpdateBoostQuery`].
pub struct UpdateBoostModel {
    pub amount: Option<i32>,
    pub token: Option<Seq<char>>,
    pub num_of_winners: Option<i64>,
    pub token_decimals: Option<i64>,
    pub expiry: Option<i64>,
    pub name: Option<Seq<char>>,
    pub img_url: Option<Seq<char>>,
    pub remove_boost: Option<bool>,
    pub quest_id: i32,
}

impl View for UpdateBoostQuery {
    type V = UpdateBoostModel;

    open spec fn view(&self) -> UpdateBoostModel {
        UpdateBoostModel {
            amount: self.amount,
            token: self.token.deep_view(),
            num_of_winners: self.num_of_winners,
            token_decimals: self.token_decimals,
            expiry: self.expiry,
            name: self.name.deep_view(),
            img_url: self.img_url.deep_view(),
            remove_boost: self.remove_boost,
            quest_id: self.quest_id,
        }
    }
}

/// The field that a 32-bit attribute contributes to the changes: one where it is given.
pub open spec fn int32_change(key: Seq<char>, value: Option<i32>) -> Seq<(Seq<char>, FieldModel)> {
    match value {
        Some(v) => seq![(key, FieldModel::Int32(v))],
        None => Seq::empty(),
    }
}

/// The field that a 64-bit attribute contributes to the changes: one where it is given.
pub open spec fn int64_change(key: Seq<char>, value: Option<i64>) -> Seq<(Seq<char>, FieldModel)> {
    match value {
        Some(v) => seq![(key, FieldModel::Int64(v))],
        None => Seq::empty(),
    }
}

/// The field that a text attribute contributes to the changes: one where it is given.
pub open spec fn text_change(key: Seq<char>, value: Option<Seq<char>>) -> Seq<(Seq<char>, FieldModel)> {
    match value {
        Some(v) => seq![(key, FieldModel::Text(v))],
        None => Seq::empty(),
    }
}

/// The fields that a request changes: one for each attribute that it carries, and none
/// for `remove_boost`, which changes nothing.
pub open spec fn boost_changes(body: UpdateBoostModel) -> Seq<(Seq<char>, FieldModel)> {
    int32_change("amount"@, body.amount) + text_change("token"@, body.token) + int64_change(
        "expiry"@,
        body.expiry,
    ) + int64_change("num_of_winners"@, body.num_of_winners) + int64_change(
        "token_decimals"@,
        body.token_decimals,
    ) + text_change("name"@, body.name) + text_change("img_url"@, body.img_url)
}

/// The field by which the store finds the boost of a quest.
pub open spec fn boost_filter(body: UpdateBoostModel) -> Seq<(Seq<char>, FieldModel)> {
    seq![("quests"@, FieldModel::Int32(body.quest_id))]
}

/// The place of an attribute name in the order in which changes are written, from 1;
/// 0 for any other text.
#[verifier::opaque]
spec fn attribute_rank(key: Seq<char>) -> int {
    if key == "amount"@ {
        1
    } else if key == "token"@ {
        2
    } else if key == "expiry"@ {
        3
    } else if key == "num_of_winners"@ {
        4
    } else if key == "token_decimals"@ {
        5
    } else if key == "name"@ {
        6
    } else if key == "img_url"@ {
        7
    } else {
        0
    }
}

/// The seven attribute names differ from one another, so each has its own rank.
proof fn attribute_ranks()
    ensures
        attribute_rank("amount"@) == 1,
        attribute_rank("token"@) == 2,
        attribute_rank("expiry"@) == 3,
        attribute_rank("num_of_winners"@) == 4,
        attribute_rank("token_decimals"@) == 5,
        attribute_rank("name"@) == 6,
        attribute_rank("img_url"@) == 7,
{
    reveal(attribute_rank);
    reveal_strlit("amount");
    reveal_strlit("token");
    reveal_strlit("expiry");
    reveal_strlit("num_of_winners");
    reveal_strlit("token_decimals");
    reveal_strlit("name");
    reveal_strlit("img_url");
    assert("amount"@[0] == 'a' && "token"@[0] == 't' && "expiry"@[0] == 'e');
    assert("num_of_winners"@[0] == 'n' && "num_of_winners"@[1] == 'u');
    assert("token_decimals"@[0] == 't' && "token_decimals"@.len() == 14 && "token"@.len() == 5);
    assert("name"@[0] == 'n' && "name"@[1] == 'a' && "img_url"@[0] == 'i');
}

/// Whether every key of `fields` is an attribute name of rank `count` or lower.
spec fn keys_within(fields: Seq<(Seq<char>, FieldModel)>, count: int) -> bool {
    forall|i: int| 0 <= i < fields.len() ==> 1 <= attribute_rank((#[trigger] fields[i]).0) <= count
}

/// Fields written under one name of a higher rank leave the keys within that rank.
proof fn keys_stay_within(
    before: Seq<(Seq<char>, FieldModel)>,
    added: Seq<(Seq<char>, FieldModel)>,
    key: Seq<char>,
    count: int,
)
    requires
        keys_within(before, count),
        0 <= count < attribute_rank(key),
        forall|i: int| 0 <= i < added.len() ==> (#[trigger] added[i]).0 == key,
    ensures
        keys_within(before + added, attribute_rank(key)),
{
    let after = before + added;
    assert forall|i: int| 0 <= i < after.len() implies 1 <= attribute_rank(
        (#[trigger] after[i]).0,
    ) <= attribute_rank(key) by {
        if i < before.len() {
            assert(after[i] == before[i]);
        } else {
            assert(after[i] == added[i - before.len()]);
        }
    }
}

/// Writes a 32-bit attribute under a name that the document does not hold yet.
fn put_int32(doc: &mut Document, key: &str, value: Option<i32>, Ghost(count): Ghost<int>)
    requires
        keys_within(document_fields(*old(doc)), count),
        0 <= count < attribute_rank(key@),
    ensures
        document_fields(*final(doc)) == document_fields(*old(doc)) + int32_change(key@, value),
        keys_within(document_fields(*final(doc)), attribute_rank(key@)),
{
    let ghost before = document_fields(*doc);
    proof {
        keys_stay_within(before, int32_change(key@, value), key@, count);
    }
    if let Some(v) = value {
        assert(!has_field(before, key@));
        insert_int32(doc, key, v);
        assert(document_fields(*doc) =~= before + int32_change(key@, value));
    } else {
        assert(document_fields(*doc) =~= before + int32_change(key@, value));
    }
}

/// Writes a 64-bit attribute under a name that the document does not hold yet.
fn put_int64(doc: &mut Document, key: &str, value: Option<i64>, Ghost(count): Ghost<int>)
    requires
        keys_within(document_fields(*old(doc)), count),
        0 <= count < attribute_rank(key@),
    ensures
        document_fields(*final(doc)) == document_fields(*old(doc)) + int64_change(key@, value),
        keys_within(document_fields(*final(doc)), attribute_rank(key@)),
{
    let ghost before = document_fields(*doc);
    proof {
        keys_stay_within(before, int64_change(key@, value), key@, count);
    }
    if let Some(v) = value {
        assert(!has_field(before, key@));
        insert_int64(doc, key, v);
        assert(document_fields(*doc) =~= before + int64_change(key@, value));
    } else {
        assert(document_fields(*doc) =~= before + int64_change(key@, value));
    }
}

/// Writes a text attribute under a name that the document does not hold yet.
fn put_text(doc: &mut Document, key: &str, value: &Option<String>, Ghost(count): Ghost<int>)
    requires
        keys_within(document_fields(*old(doc)), count),
        0 <= count < attribute_rank(key@),
    ensures
        document_fields(*final(doc)) == document_fields(*old(doc)) + text_change(
            key@,
            value.deep_view(),
        ),
        keys_within(document_fields(*final(doc)), attribute_rank(key@)),
{
    let ghost before = document_fields(*doc);
    proof {
        keys_stay_within(before, text_change(key@, value.deep_view()), key@, count);
    }
    if let Some(v) = value {
        assert(!has_field(before, key@));
        insert_text(doc, key, v.as_str());
        assert(document_fields(*doc) =~= before + text_change(key@, value.deep_view()));
    } else {
        assert(document_fields(*doc) =~= before + text_change(key@, value.deep_view()));
    }
}

/// The document that tells the store which boost a request is about.
pub fn filter_document(body: &UpdateBoostQuery) -> (doc: Document)
    ensures
        document_fields(doc) == boost_filter(body@),
{
    let mut doc = Document::new();
    insert_int32(&mut doc, "quests", body.quest_id);
    assert(document_fields(doc) =~= boost_filter(body@));
    doc
}

/// The document of the changes that a request asks for.
pub fn update_document(body: &UpdateBoostQuery) -> (doc: Document)
    ensures
        document_fields(doc) == boost_changes(body@),
{
    let mut doc = Document::new();
    proof {
        attribute_ranks();
    }
    put_int32(&mut doc, "amount", body.amount, Ghost(0));
    put_text(&mut doc, "token", &body.token, Ghost(1));
    put_int64(&mut doc, "expiry", body.expiry, Ghost(2));
    put_int64(&mut doc, "num_of_winners", body.num_of_winners, Ghost(3));
    put_int64(&mut doc, "token_decimals", body.token_decimals, Ghost(4));
    put_text(&mut doc, "name", &body.name, Ghost(5));
    put_text(&mut doc, "img_url", &body.img_url, Ghost(6));
    doc
}

/// Why a request to update a boost was not carried out.
#[derive(Debug, Clone, Copy, PartialEq, Eq, Structural)]
pub enum BoostError {
    /// The store holds no boost for the quest.
    Missing,
    /// The store did not take the update.
    UpdateFailed,
}

impl BoostError {
    /// The text that a caller is shown for this error.
    pub open spec fn message_text(self) -> Seq<char> {
        match self {
            BoostError::Missing => "Error creating boosts"@,
            BoostError::UpdateFailed => "error updating boost"@,
        }
    }

    /// The text that a caller is shown for this error.
    pub fn message(&self) -> (text: String)
        ensures
            text@ == self.message_text(),
    {
        match self {
            BoostError::Missing => "Error creating boosts".to_owned(),
            BoostError::UpdateFailed => "error updating boost".to_owned(),
        }
    }
}

/// Decides what becomes of a request once the store has said whether the quest has a
/// boost: without one the request is refused, with one the store is to apply the
/// returned changes.
pub fn handler(body: &UpdateBoostQuery, existing: bool) -> (step: Result<Document, BoostError>)
    ensures
        match step {
            Ok(changes) => existing && document_fields(changes) == boost_changes(body@),
            Err(error) => !existing && error == BoostError::Missing,
        },
{
    if !existing {
        return Err(BoostError::Missing);
    }
    Ok(update_document(body))
}

/// The answer to a request once the store has said whether it took the update.
pub fn conclude(updated: bool) -> (answer: Result<String, BoostError>)
    ensures
        match answer {
            Ok(message) => updated && message@ == "updated successfully"@,
            Err(error) => !updated && error == BoostError::UpdateFailed,
        },
{
    if updated {
        Ok("updated successfully".to_owned())
    } else {
        Err(BoostError::UpdateFailed)
    }
}

} // verus!
