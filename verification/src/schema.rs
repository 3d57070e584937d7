//! Laying out the two tables: which statement comes when, and which failures
//! end the run.

use vstd::prelude::*;
use crate::error::WorkflowError;
use crate::store::StoreReply;

verus! {

/// One step of the initializer, in the order in which the steps are taken.
#[derive(Clone, Copy, Debug, PartialEq, Eq, Structural)]
pub enum SchemaStep {
    /// Open the session.
    Connect,
    /// Remove the sales table, which refers to the products table.
    DropSales,
    /// Remove the products table.
    DropProducts,
    /// Create the products table.
    CreateProducts,
    /// Make product identifiers start at one again.
    ResetSequence,
    /// Create the sales table.
    CreateSales,
}

/// Where the initializer stands after a step.
#[derive(Clone, Copy, Debug, PartialEq, Eq, Structural)]
pub enum SchemaProgress {
    /// This step is to be taken next.
    Next(SchemaStep),
    /// Both tables exist and are empty; the session is ready.
    Ready,
    /// The run has ended with this error.
    Failed(WorkflowError),
}

/// Whether the step removes a table. Such a step may fail harmlessly: the
/// table need not exist.
pub open spec fn is_drop(step: SchemaStep) -> bool {
    step == SchemaStep::DropSales || step == SchemaStep::DropProducts
}

/// What follows a step that did not end the run.
pub open spec fn following(step: SchemaStep) -> SchemaProgress {
    match step {
        SchemaStep::Connect => SchemaProgress::Next(SchemaStep::DropSales),
        SchemaStep::DropSales => SchemaProgress::Next(SchemaStep::DropProducts),
        SchemaStep::DropProducts => SchemaProgress::Next(SchemaStep::CreateProducts),
        SchemaStep::CreateProducts => SchemaProgress::Next(SchemaStep::ResetSequence),
        SchemaStep::ResetSequence => SchemaProgress::Next(SchemaStep::CreateSales),
        SchemaStep::CreateSales => SchemaProgress::Ready,
    }
}

/// Where the initializer stands after `step`, given the store's answer. A
/// drop that was not carried out is passed over. Otherwise a session that
/// could not be opened, or that is gone, is a connection error, and a
/// rejected statement is a schema error.
pub open spec fn after(step: SchemaStep, reply: StoreReply) -> SchemaProgress {
    if reply is Accepted || is_drop(step) {
        following(step)
    } else if step == SchemaStep::Connect || reply is Disconnected {
        SchemaProgress::Failed(WorkflowError::Connection)
    } else {
        SchemaProgress::Failed(WorkflowError::Schema)
    }
}

/// The step with which the initializer begins.
pub fn first_step() -> (step: SchemaStep)
    ensures
        step == SchemaStep::Connect,
{
    SchemaStep::Connect
}

/// Decides what the initializer does after `step`.
pub fn advance(step: SchemaStep, reply: &StoreReply) -> (progress: SchemaProgress)
    ensures
        progress == after(step, *reply),
{
    let drop = match step {
        SchemaStep::DropSales => true,
        SchemaStep::DropProducts => true,
        _ => false,
    };
    if reply.is_accepted() || drop {
        match step {
            SchemaStep::Connect => SchemaProgress::Next(SchemaStep::DropSales),
            SchemaStep::DropSales => SchemaProgress::Next(SchemaStep::DropProducts),
            SchemaStep::DropProducts => SchemaProgress::Next(SchemaStep::CreateProducts),
            SchemaStep::CreateProducts => SchemaProgress::Next(SchemaStep::ResetSequence),
            SchemaStep::ResetSequence => SchemaProgress::Next(SchemaStep::CreateSales),
            SchemaStep::CreateSales => SchemaProgress::Ready,
        }
    } else {
        match (step, reply) {
            (SchemaStep::Connect, _) => SchemaProgress::Failed(WorkflowError::Connection),
            (_, StoreReply::Disconnected) => SchemaProgress::Failed(WorkflowError::Connection),
            _ => SchemaProgress::Failed(WorkflowError::Schema),
        }
    }
}

/// The statement of a step. With `jsonb_only` the products table carries the
/// fixture in one JSON column; without it, in a text column and a JSON column.
/// Opening the session takes no statement.
pub open spec fn statement_text(step: SchemaStep, jsonb_only: bool) -> Option<Seq<char>> {
    match step {
        SchemaStep::Connect => None,
        SchemaStep::DropSales => Some("DROP TABLE Sales"@),
        SchemaStep::DropProducts => Some("DROP TABLE Products"@),
        SchemaStep::CreateProducts => if jsonb_only {
            Some(
                "CREATE TABLE Products (
                id SERIAL PRIMARY KEY,
                category TEXT NOT NULL,
                name TEXT NOT NULL UNIQUE,
                sales jsonb null)"@,
            )
        } else {
            Some(
                "CREATE TABLE Products (
                id SERIAL PRIMARY KEY,
                category TEXT NOT NULL,
                name TEXT NOT NULL UNIQUE,
                sales_text text null,
                sales_jsonb jsonb null)"@,
            )
        },
        SchemaStep::ResetSequence => Some("alter sequence products_id_seq start with 1"@),
        SchemaStep::CreateSales => Some(
            "CREATE TABLE Sales (
            id TEXT PRIMARY KEY,
            product_id INTEGER NOT NULL REFERENCES Products,
            sale_date BIGINT NOT NULL,
            quantity DOUBLE PRECISION NOT NULL,
            unit TEXT NOT NULL)"@,
        ),
    }
}

/// The statement to execute for `step`, if it takes one.
pub fn statement(step: SchemaStep, jsonb_only: bool) -> (text: Option<&'static str>)
    ensures
        match text {
            Some(t) => statement_text(step, jsonb_only) == Some(t@),
            None => statement_text(step, jsonb_only) is None,
        },
{
    match step {
        SchemaStep::Connect => None,
        SchemaStep::DropSales => Some("DROP TABLE Sales"),
        SchemaStep::DropProducts => Some("DROP TABLE Products"),
        SchemaStep::CreateProducts => if jsonb_only {
            Some(
                "CREATE TABLE Products (
                id SERIAL PRIMARY KEY,
                category TEXT NOT NULL,
                name TEXT NOT NULL UNIQUE,
                sales jsonb null)",
            )
        } else {
            Some(
                "CREATE TABLE Products (
                id SERIAL PRIMARY KEY,
                category TEXT NOT NULL,
                name TEXT NOT NULL UNIQUE,
                sales_text text null,
                sales_jsonb jsonb null)",
            )
        },
        SchemaStep::ResetSequence => Some("alter sequence products_id_seq start with 1"),
        SchemaStep::CreateSales => Some(
            "CREATE TABLE Sales (
            id TEXT PRIMARY KEY,
            product_id INTEGER NOT NULL REFERENCES Products,
            sale_date BIGINT NOT NULL,
            quantity DOUBLE PRECISION NOT NULL,
            unit TEXT NOT NULL)",
        ),
    }
}

/// Where a run stands that started at `progress` and met the store's answers
/// `replies[from..]`, one answer per step taken.
pub open spec fn run(progress: SchemaProgress, replies: Seq<StoreReply>, from: int) -> SchemaProgress
    decreases replies.len() - from,
{
    if 0 <= from < replies.len() {
        match progress {
            SchemaProgress::Next(step) => run(after(step, replies[from]), replies, from + 1),
            _ => progress,
        }
    } else {
        progress
    }
}

/// Runs the initializer against recorded answers of the store, one per step
/// taken, and says where it stands when the answers or the steps run out.
pub fn replay(replies: &Vec<StoreReply>) -> (progress: SchemaProgress)
    ensures
        progress == run(SchemaProgress::Next(SchemaStep::Connect), replies@, 0),
{
    let mut progress = SchemaProgress::Next(first_step());
    let mut i: usize = 0;
    while i < replies.len()
        invariant
            i <= replies.len(),
            run(SchemaProgress::Next(SchemaStep::Connect), replies@, 0) == run(
                progress,
                replies@,
                i as int,
            ),
        decreases replies.len() - i,
    {
        match progress {
            SchemaProgress::Next(step) => {
                progress = advance(step, &replies[i]);
            },
            _ => {
                return progress;
            },
        }
        i += 1;
    }
    progress
}

/// Tables left behind by an earlier run never make the initializer fail: both
/// drops come before the first create, the sales table (which refers to the
/// products table) is dropped first, and whatever the store answers to the two
/// drops, a run whose session opens and whose creating statements are accepted
/// ends ready.
pub proof fn leftover_tables_never_fail(replies: Seq<StoreReply>)
    requires
        replies.len() == 6,
        replies[0] is Accepted,
        replies[3] is Accepted,
        replies[4] is Accepted,
        replies[5] is Accepted,
    ensures
        run(SchemaProgress::Next(SchemaStep::Connect), replies, 0) == SchemaProgress::Ready,
        following(SchemaStep::Connect) == SchemaProgress::Next(SchemaStep::DropSales),
        following(SchemaStep::DropSales) == SchemaProgress::Next(SchemaStep::DropProducts),
        following(SchemaStep::DropProducts) == SchemaProgress::Next(SchemaStep::CreateProducts),
{
    reveal_with_fuel(run, 8);
}

/// A drop that was not carried out never ends a run, and never changes which
/// step comes next.
pub proof fn refused_drop_is_passed_over(step: SchemaStep, reply: StoreReply)
    requires
        is_drop(step),
    ensures
        after(step, reply) == after(step, StoreReply::Accepted),
        !(after(step, reply) is Failed),
{
}

/// A run that has ended stays where it is, whatever answers follow.
pub proof fn ended_run_stays(progress: SchemaProgress, replies: Seq<StoreReply>, from: int)
    requires
        !(progress is Next),
    ensures
        run(progress, replies, from) == progress,
{
}

} // verus!
