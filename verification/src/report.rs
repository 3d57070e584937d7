//! The wording of the sales report.

use vstd::prelude::*;
use crate::text::{decimal, decimal_of_int};

verus! {

/// One sale joined to its product, as the report query yields it. The
/// quantity is carried as the text in which it will be shown.
pub struct SaleWithProduct {
    pub category: String,
    pub name: String,
    pub quantity: String,
    pub unit: String,
    pub date: i64,
}

/// The statement that the report reads: every sale with the name of its
/// product, oldest sale first.
pub open spec fn report_query_text() -> Seq<char> {
    "SELECT p.name, s.unit, s.quantity, s.sale_date
        FROM Sales s
        LEFT JOIN Products p
        ON p.id = s.product_id
        ORDER BY s.sale_date"@
}

/// The statement that the report reads.
pub fn report_query() -> (q: &'static str)
    ensures
        q@ == report_query_text(),
{
    "SELECT p.name, s.unit, s.quantity, s.sale_date
        FROM Sales s
        LEFT JOIN Products p
        ON p.id = s.product_id
        ORDER BY s.sale_date"
}

/// The report's sentence for one sale.
pub open spec fn sale_line(
    date: int,
    quantity: Seq<char>,
    unit: Seq<char>,
    name: Seq<char>,
) -> Seq<char> {
    "At instant "@ + decimal_of_int(date) + ", "@ + quantity + " "@ + unit + " of "@ + name
        + " were sold."@
}

impl SaleWithProduct {
    /// The report's sentence for this sale.
    pub open spec fn line(&self) -> Seq<char> {
        sale_line(self.date as int, self.quantity@, self.unit@, self.name@)
    }

    /// Writes the report's sentence for this sale.
    pub fn report_line(&self) -> (s: String)
        ensures
            s@ == self.line(),
    {
        let mut s = String::from_str("At instant ");
        let date = decimal(self.date);
        s.append(date.as_str());
        s.append(", ");
        s.append(self.quantity.as_str());
        s.append(" ");
        s.append(self.unit.as_str());
        s.append(" of ");
        s.append(self.name.as_str());
        s.append(" were sold.");
        s
    }
}

/// The lines of the report for `rows`: `lines[i]` is the line of `rows[i]`.
pub open spec fn lines_of(rows: Seq<SaleWithProduct>, lines: Seq<String>) -> bool {
    &&& lines.len() == rows.len()
    &&& forall|i: int| 0 <= i < rows.len() ==> (#[trigger] lines[i])@ == rows[i].line()
}

/// Writes one line per row, in the order of the rows. No row gives no line.
pub fn report_lines(rows: &Vec<SaleWithProduct>) -> (lines: Vec<String>)
    ensures
        lines_of(rows@, lines@),
{
    let mut lines: Vec<String> = Vec::new();
    let mut i: usize = 0;
    while i < rows.len()
        invariant
            i <= rows.len(),
            lines_of(rows@.take(i as int), lines@),
        decreases rows.len() - i,
    {
        let line = rows[i].report_line();
        lines.push(line);
        i += 1;
    }
    assert(rows@.take(i as int) =~= rows@);
    lines
}

/// Whether the rows come oldest sale first.
pub open spec fn oldest_first(rows: Seq<SaleWithProduct>) -> bool {
    forall|i: int, j: int| 0 <= i <= j < rows.len() ==> rows[i].date <= rows[j].date
}

/// The report never reorders: where the rows come oldest sale first, so do
/// the lines, each being the sentence of the row at its position.
pub proof fn report_keeps_order(rows: Seq<SaleWithProduct>, lines: Seq<String>)
    requires
        lines_of(rows, lines),
        oldest_first(rows),
    ensures
        forall|i: int, j: int|
            0 <= i <= j < lines.len() ==> {
                &&& (#[trigger] lines[i])@ == rows[i].line()
                &&& (#[trigger] lines[j])@ == rows[j].line()
                &&& rows[i].date <= rows[j].date
            },
{
}

/// The diagnostic line on the identity of the server.
pub open spec fn server_line_text(id: Option<int>) -> Seq<char> {
    match id {
        Some(n) => "server = Some(Server { server_id: "@ + decimal_of_int(n) + " })"@,
        None => "server = None"@,
    }
}

/// Writes the diagnostic line on the identity of the server: the identifier
/// where the store holds one, and a marker of its absence where it holds none.
pub fn server_line(id: Option<i32>) -> (s: String)
    ensures
        s@ == server_line_text(
            match id {
                Some(n) => Some(n as int),
                None => None,
            },
        ),
{
    match id {
        Some(n) => {
            let mut s = String::from_str("server = Some(Server { server_id: ");
            let number = decimal(n as i64);
            s.append(number.as_str());
            s.append(" })");
            s
        },
        None => String::from_str("server = None"),
    }
}

} // verus!
