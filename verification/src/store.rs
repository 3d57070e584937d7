//! What the store answers to a statement, and the error that an answer
//! stands for.

use vstd::prelude::*;
use crate::error::{classify_rejection, rejection, WorkflowError};

verus! {

/// What the store answered to a statement.
pub enum StoreReply {
    /// The statement was carried out.
    Accepted,
    /// The statement was rejected, with this condition code if the store
    /// gave one.
    Rejected(Option<String>),
    /// The session is gone: the statement never reached the store.
    Disconnected,
}

impl StoreReply {
    /// The condition code of a rejection.
    pub open spec fn code(&self) -> Option<Seq<char>> {
        match self {
            StoreReply::Rejected(Some(c)) => Some(c@),
            _ => None,
        }
    }

    /// The error that the answer to a row statement stands for: none for an
    /// accepted statement, a connection error for a lost session, and for a
    /// rejection a constraint error where a uniqueness or reference rule was
    /// broken and a query error otherwise.
    pub open spec fn failure(&self) -> Option<WorkflowError> {
        match self {
            StoreReply::Accepted => None,
            StoreReply::Rejected(_) => Some(rejection(self.code())),
            StoreReply::Disconnected => Some(WorkflowError::Connection),
        }
    }

    /// Whether the statement was carried out.
    pub fn is_accepted(&self) -> (r: bool)
        ensures
            r == (self is Accepted),
    {
        match self {
            StoreReply::Accepted => true,
            _ => false,
        }
    }

    /// The error that the answer to a row statement stands for.
    pub fn row_failure(&self) -> (e: Option<WorkflowError>)
        ensures
            e == self.failure(),
    {
        match self {
            StoreReply::Accepted => None,
            StoreReply::Rejected(Some(code)) => Some(classify_rejection(Some(code.as_str()))),
            StoreReply::Rejected(None) => Some(classify_rejection(None)),
            StoreReply::Disconnected => Some(WorkflowError::Connection),
        }
    }
}

} // verus!
