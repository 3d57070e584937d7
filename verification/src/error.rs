//! The ways in which the workflow can fail.

use vstd::prelude::*;

verus! {

/// Why the workflow stopped.
#[derive(Clone, Copy, Debug, PartialEq, Eq, Structural)]
pub enum WorkflowError {
    /// The store could not be reached, or refused the credentials.
    Connection,
    /// The store rejected a statement that lays out a table.
    Schema,
    /// The fixture is not a JSON document.
    Parse,
    /// The fixture file does not exist.
    NotFound,
    /// A row broke a uniqueness or a foreign-key rule.
    Constraint,
    /// The store rejected a statement for any other reason.
    Query,
}

/// The condition code with which a store reports a repeated unique value.
pub open spec fn unique_violation() -> Seq<char> {
    "23505"@
}

/// The condition code with which a store reports a dangling reference.
pub open spec fn foreign_key_violation() -> Seq<char> {
    "23503"@
}

/// The error that a rejected row statement stands for, given the condition
/// code that the store attached to the rejection, if it attached one.
pub open spec fn rejection(code: Option<Seq<char>>) -> WorkflowError {
    match code {
        Some(c) => if c == unique_violation() || c == foreign_key_violation() {
            WorkflowError::Constraint
        } else {
            WorkflowError::Query
        },
        None => WorkflowError::Query,
    }
}

/// Whether two texts hold the same characters.
pub fn same_text(a: &str, b: &str) -> (r: bool)
    ensures
        r == (a@ == b@),
{
    let left = String::from_str(a);
    let right = String::from_str(b);
    left == right
}

/// Classifies the rejection of a row statement: a uniqueness or foreign-key
/// condition code gives `Constraint`, anything else `Query`.
pub fn classify_rejection(code: Option<&str>) -> (e: WorkflowError)
    ensures
        e == rejection(
            match code {
                Some(c) => Some(c@),
                None => None,
            },
        ),
{
    match code {
        Some(c) => {
            if same_text(c, "23505") || same_text(c, "23503") {
                WorkflowError::Constraint
            } else {
                WorkflowError::Query
            }
        },
        None => WorkflowError::Query,
    }
}

/// The name of an error, as shown to a user.
pub fn describe(e: WorkflowError) -> (s: &'static str)
    ensures
        s@ == match e {
            WorkflowError::Connection => "ConnectionError"@,
            WorkflowError::Schema => "SchemaError"@,
            WorkflowError::Parse => "ParseError"@,
            WorkflowError::NotFound => "NotFoundError"@,
            WorkflowError::Constraint => "ConstraintError"@,
            WorkflowError::Query => "QueryError"@,
        },
{
    match e {
        WorkflowError::Connection => "ConnectionError",
        WorkflowError::Schema => "SchemaError",
        WorkflowError::Parse => "ParseError",
        WorkflowError::NotFound => "NotFoundError",
        WorkflowError::Constraint => "ConstraintError",
        WorkflowError::Query => "QueryError",
    }
}

} // verus!
