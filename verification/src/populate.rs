//! Filling the tables: one product that carries the fixture, and one sale of
//! that product.

use vstd::prelude::*;
use crate::error::WorkflowError;
use crate::store::StoreReply;

verus! {

/// One step of the populator.
#[derive(Clone, Copy, Debug, PartialEq, Eq, Structural)]
pub enum PopulateStep {
    /// Insert the product with the fixture, and ask for its identifier.
    InsertProduct,
    /// Fill the JSON column from the text column where it is still empty.
    Backfill,
    /// Insert the sale.
    InsertSale,
}

/// Where the populator stands after a step.
#[derive(Clone, Copy, Debug, PartialEq, Eq, Structural)]
pub enum PopulateProgress {
    /// This step is to be taken next.
    Next(PopulateStep),
    /// Both rows are stored.
    Done,
    /// The run has ended with this error.
    Failed(WorkflowError),
}

/// What follows an accepted step. The backfill is taken only where the
/// products table has both a text and a JSON column.
pub open spec fn following(step: PopulateStep, jsonb_only: bool) -> PopulateProgress {
    match step {
        PopulateStep::InsertProduct => if jsonb_only {
            PopulateProgress::Next(PopulateStep::InsertSale)
        } else {
            PopulateProgress::Next(PopulateStep::Backfill)
        },
        PopulateStep::Backfill => PopulateProgress::Next(PopulateStep::InsertSale),
        PopulateStep::InsertSale => PopulateProgress::Done,
    }
}

/// Where the populator stands after `step`: on, where the store accepted the
/// statement; ended, where it did not, with a connection error for a lost
/// session, a constraint error for a broken uniqueness or reference rule and
/// a query error otherwise.
pub open spec fn after(step: PopulateStep, jsonb_only: bool, reply: StoreReply) -> PopulateProgress {
    match reply.failure() {
        None => following(step, jsonb_only),
        Some(e) => PopulateProgress::Failed(e),
    }
}

/// The step with which the populator begins.
pub fn first_step() -> (step: PopulateStep)
    ensures
        step == PopulateStep::InsertProduct,
{
    PopulateStep::InsertProduct
}

/// Decides what the populator does after `step`.
pub fn advance(step: PopulateStep, jsonb_only: bool, reply: &StoreReply) -> (progress: PopulateProgress)
    ensures
        progress == after(step, jsonb_only, *reply),
{
    match reply.row_failure() {
        Some(e) => PopulateProgress::Failed(e),
        None => match step {
            PopulateStep::InsertProduct => if jsonb_only {
                PopulateProgress::Next(PopulateStep::InsertSale)
            } else {
                PopulateProgress::Next(PopulateStep::Backfill)
            },
            PopulateStep::Backfill => PopulateProgress::Next(PopulateStep::InsertSale),
            PopulateStep::InsertSale => PopulateProgress::Done,
        },
    }
}

/// The statement of a step. The product's fixture goes to the JSON column
/// with `jsonb_only`, and to the text column without it.
pub open spec fn statement_text(step: PopulateStep, jsonb_only: bool) -> Seq<char> {
    match step {
        PopulateStep::InsertProduct => if jsonb_only {
            "INSERT INTO Products (
                    category, name, sales
                    ) VALUES ($1, $2, $3)
                 RETURNING id"@
        } else {
            "INSERT INTO Products (
                category, name, sales_text
                ) VALUES ($1, $2, $3)
             RETURNING id"@
        },
        PopulateStep::Backfill => "UPDATE Products 
                SET sales_jsonb = cast (sales_text as jsonb)
              WHERE sales_jsonb is null"@,
        PopulateStep::InsertSale => "INSERT INTO Sales (
            id, product_id, sale_date, quantity, unit
            ) VALUES ($1, $2, $3, $4, $5)"@,
    }
}

/// The statement to execute for `step`.
pub fn statement(step: PopulateStep, jsonb_only: bool) -> (text: &'static str)
    ensures
        text@ == statement_text(step, jsonb_only),
{
    match step {
        PopulateStep::InsertProduct => if jsonb_only {
            "INSERT INTO Products (
                    category, name, sales
                    ) VALUES ($1, $2, $3)
                 RETURNING id"
        } else {
            "INSERT INTO Products (
                category, name, sales_text
                ) VALUES ($1, $2, $3)
             RETURNING id"
        },
        PopulateStep::Backfill => "UPDATE Products 
                SET sales_jsonb = cast (sales_text as jsonb)
              WHERE sales_jsonb is null",
        PopulateStep::InsertSale => "INSERT INTO Sales (
            id, product_id, sale_date, quantity, unit
            ) VALUES ($1, $2, $3, $4, $5)",
    }
}

/// The product that is inserted, without its fixture.
pub struct ProductRow {
    pub category: String,
    pub name: String,
}

/// The sale that is inserted. The quantity is carried as its decimal text.
pub struct SaleRow {
    pub id: String,
    pub product_id: i32,
    pub sale_date: i64,
    pub quantity: String,
    pub unit: String,
}

/// The identifier of the first product of a freshly laid out table.
pub open spec fn first_product_id() -> int {
    1
}

/// The product that is inserted: pears, a fruit.
pub fn sample_product() -> (row: ProductRow)
    ensures
        row.category@ == "fruit"@,
        row.name@ == "pears"@,
{
    ProductRow { category: String::from_str("fruit"), name: String::from_str("pears") }
}

/// The sale that is inserted. It refers to the product whose identifier the
/// store returned, or to the first product where the store returned none.
pub fn sample_sale(returned: Option<i32>) -> (row: SaleRow)
    ensures
        row.id@ == "2020-183"@,
        row.product_id == match returned {
            Some(id) => id as int,
            None => first_product_id(),
        },
        row.sale_date == 1_234_567_890,
        row.quantity@ == "7.439"@,
        row.unit@ == "Kg"@,
{
    let product_id: i32 = match returned {
        Some(id) => id,
        None => 1,
    };
    SaleRow {
        id: String::from_str("2020-183"),
        product_id,
        sale_date: 1_234_567_890,
        quantity: String::from_str("7.439"),
        unit: String::from_str("Kg"),
    }
}

/// How many steps are left from `step` on, at most.
pub open spec fn steps_left(step: PopulateStep) -> nat {
    match step {
        PopulateStep::InsertProduct => 3,
        PopulateStep::Backfill => 2,
        PopulateStep::InsertSale => 1,
    }
}

/// The steps that a run takes from `step` on when the store accepts each.
pub open spec fn accepted_path(step: PopulateStep, jsonb_only: bool) -> Seq<PopulateStep>
    decreases steps_left(step),
{
    match following(step, jsonb_only) {
        PopulateProgress::Next(next) => seq![step] + accepted_path(next, jsonb_only),
        _ => seq![step],
    }
}

/// In either mode a run that the store accepts begins with the product and
/// inserts the sale exactly once, as its last step; the modes differ only in
/// the backfill.
pub proof fn each_mode_inserts_one_sale(jsonb_only: bool)
    ensures
        ({
            let path = accepted_path(PopulateStep::InsertProduct, jsonb_only);
            &&& path.len() == if jsonb_only { 2int } else { 3int }
            &&& path[0] == PopulateStep::InsertProduct
            &&& forall|i: int|
                0 <= i < path.len() ==> (path[i] == PopulateStep::InsertSale <==> i == path.len()
                    - 1)
            &&& forall|i: int|
                0 <= i < path.len() ==> (path[i] == PopulateStep::Backfill ==> !jsonb_only)
        }),
{
    reveal_with_fuel(accepted_path, 4);
    let path = accepted_path(PopulateStep::InsertProduct, jsonb_only);
    if jsonb_only {
        assert(path =~= seq![PopulateStep::InsertProduct, PopulateStep::InsertSale]);
    } else {
        assert(path =~= seq![
            PopulateStep::InsertProduct,
            PopulateStep::Backfill,
            PopulateStep::InsertSale,
        ]);
    }
}

/// A sale that refers to no product, or a product whose name is taken, ends
/// the run with a constraint error, at whatever step and in either mode.
pub proof fn broken_rule_is_constraint_error(step: PopulateStep, jsonb_only: bool, reply: StoreReply)
    requires
        reply is Rejected,
        reply.code() == Some(crate::error::foreign_key_violation()) || reply.code() == Some(
            crate::error::unique_violation(),
        ),
    ensures
        after(step, jsonb_only, reply) == PopulateProgress::Failed(WorkflowError::Constraint),
{
}

/// Every statement that the store does not carry out ends the run, and none
/// that it carries out does.
pub proof fn first_failure_ends_the_run(step: PopulateStep, jsonb_only: bool, reply: StoreReply)
    ensures
        after(step, jsonb_only, reply) is Failed <==> !(reply is Accepted),
        reply is Disconnected ==> after(step, jsonb_only, reply) == PopulateProgress::Failed(
            WorkflowError::Connection,
        ),
{
}

} // verus!
