//! What can go wrong while a request is served.

use vstd::prelude::*;

verus! {

/// The ways in which a request for tasks does not end in a list of tasks.
#[derive(Debug, Clone, Copy, PartialEq, Eq, Structural)]
pub enum ErrorKind {
    /// A store read failed. Nothing of the aggregation is returned; the caller may retry.
    StoreUnavailable,
    /// The aggregation completed and nothing is left to show.
    NoMatch,
    /// One joined record lacks an attribute that a shown task needs. The record is left
    /// out and the request goes on.
    RecordProjectionSkipped,
}

impl ErrorKind {
    /// Whether the same request may succeed when it is sent again.
    pub fn is_retryable(&self) -> (retry: bool)
        ensures
            retry == (*self == ErrorKind::StoreUnavailable),
    {
        match self {
            ErrorKind::StoreUnavailable => true,
            _ => false,
        }
    }

    /// The text that a caller is shown for this error.
    pub open spec fn message_text(self) -> Seq<char> {
        match self {
            ErrorKind::StoreUnavailable => "Error querying tasks"@,
            ErrorKind::NoMatch => "No tasks found for this quest_id"@,
            ErrorKind::RecordProjectionSkipped => "Task record is incomplete"@,
        }
    }

    /// The text that a caller is shown for this error.
    pub fn message(&self) -> (text: String)
        ensures
            text@ == self.message_text(),
    {
        match self {
            ErrorKind::StoreUnavailable => "Error querying tasks".to_owned(),
            ErrorKind::NoMatch => "No tasks found for this quest_id".to_owned(),
            ErrorKind::RecordProjectionSkipped => "Task record is incomplete".to_owned(),
        }
    }
}

} // verus!
