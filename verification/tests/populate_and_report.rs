use sales_report::error::WorkflowError;
use sales_report::populate::{
    advance, first_step, sample_product, sample_sale, statement, PopulateProgress, PopulateStep,
};
use sales_report::store::StoreReply;
use sales_report::report::{report_lines, report_query, server_line, SaleWithProduct};

fn row(name: &str, quantity: &str, unit: &str, date: i64) -> SaleWithProduct {
    SaleWithProduct {
        category: String::new(),
        name: name.to_string(),
        quantity: quantity.to_string(),
        unit: unit.to_string(),
        date,
    }
}

/// The steps of a run in which the store accepts every statement.
fn accepted_run(jsonb_only: bool) -> Vec<PopulateStep> {
    let mut steps = vec![first_step()];
    loop {
        match advance(*steps.last().unwrap(), jsonb_only, &StoreReply::Accepted) {
            PopulateProgress::Next(step) => steps.push(step),
            PopulateProgress::Done => return steps,
            PopulateProgress::Failed(e) => panic!("an accepted run failed: {:?}", e),
        }
    }
}

#[test]
fn json_only_run_has_no_backfill() {
    assert_eq!(accepted_run(true), vec![PopulateStep::InsertProduct, PopulateStep::InsertSale]);
}

#[test]
fn dual_run_backfills_before_the_sale() {
    assert_eq!(
        accepted_run(false),
        vec![PopulateStep::InsertProduct, PopulateStep::Backfill, PopulateStep::InsertSale]
    );
}

#[test]
fn dangling_product_reference_is_a_constraint_error() {
    let reply = StoreReply::Rejected(Some("23503".to_string()));
    for mode in [true, false] {
        assert_eq!(
            advance(PopulateStep::InsertSale, mode, &reply),
            PopulateProgress::Failed(WorkflowError::Constraint)
        );
    }
}

#[test]
fn repeated_product_name_is_a_constraint_error() {
    let reply = StoreReply::Rejected(Some("23505".to_string()));
    for mode in [true, false] {
        assert_eq!(
            advance(PopulateStep::InsertProduct, mode, &reply),
            PopulateProgress::Failed(WorkflowError::Constraint)
        );
    }
}

#[test]
fn other_rejections_end_the_run_with_a_query_error() {
    for step in [PopulateStep::InsertProduct, PopulateStep::Backfill, PopulateStep::InsertSale] {
        assert_eq!(
            advance(step, false, &StoreReply::Rejected(Some("42601".to_string()))),
            PopulateProgress::Failed(WorkflowError::Query)
        );
        assert_eq!(
            advance(step, true, &StoreReply::Rejected(None)),
            PopulateProgress::Failed(WorkflowError::Query)
        );
    }
}

#[test]
fn product_statement_names_the_column_of_the_mode() {
    let json = statement(PopulateStep::InsertProduct, true);
    assert!(json.contains("category, name, sales\n"));
    assert!(json.ends_with("RETURNING id"));
    let dual = statement(PopulateStep::InsertProduct, false);
    assert!(dual.contains("category, name, sales_text\n"));
    assert!(dual.ends_with("RETURNING id"));
}

#[test]
fn backfill_casts_the_text_where_the_json_is_empty() {
    let text = statement(PopulateStep::Backfill, false);
    assert!(text.starts_with("UPDATE Products"));
    assert!(text.contains("SET sales_jsonb = cast (sales_text as jsonb)"));
    assert!(text.ends_with("WHERE sales_jsonb is null"));
}

#[test]
fn sale_statement_takes_five_values() {
    for mode in [true, false] {
        let text = statement(PopulateStep::InsertSale, mode);
        assert!(text.starts_with("INSERT INTO Sales ("));
        assert!(text.contains("id, product_id, sale_date, quantity, unit"));
        assert!(text.ends_with("VALUES ($1, $2, $3, $4, $5)"));
    }
}

#[test]
fn the_product_is_pears() {
    let product = sample_product();
    assert_eq!(product.category, "fruit");
    assert_eq!(product.name, "pears");
}

#[test]
fn the_sale_has_its_fixed_values() {
    let sale = sample_sale(Some(7));
    assert_eq!(sale.id, "2020-183");
    assert_eq!(sale.product_id, 7);
    assert_eq!(sale.sale_date, 1_234_567_890);
    assert_eq!(sale.quantity, "7.439");
    assert_eq!(sale.quantity.parse::<f64>().unwrap(), 7.439);
    assert_eq!(sale.unit, "Kg");
}

#[test]
fn the_sale_refers_to_the_first_product_where_none_was_returned() {
    assert_eq!(sample_sale(None).product_id, 1);
    assert_eq!(sample_sale(Some(1)).product_id, 1);
}

#[test]
fn report_line_of_the_inserted_sale() {
    let sale = sample_sale(Some(1));
    let product = sample_product();
    let joined = SaleWithProduct {
        category: product.category,
        name: product.name,
        quantity: format!("{}", sale.quantity.parse::<f64>().unwrap()),
        unit: sale.unit,
        date: sale.sale_date,
    };
    assert_eq!(joined.report_line(), "At instant 1234567890, 7.439 Kg of pears were sold.");
    let lines = report_lines(&vec![joined]);
    assert_eq!(lines, vec!["At instant 1234567890, 7.439 Kg of pears were sold.".to_string()]);
}

#[test]
fn report_line_with_a_negative_instant() {
    assert_eq!(
        row("apples", "0.5", "t", -42).report_line(),
        "At instant -42, 0.5 t of apples were sold."
    );
}

#[test]
fn no_rows_no_lines() {
    assert!(report_lines(&vec![]).is_empty());
}

#[test]
fn lines_come_in_the_order_of_the_rows() {
    let rows = vec![row("pears", "1", "Kg", 10), row("plums", "2", "Kg", 20), row("figs", "3", "g", 30)];
    assert_eq!(
        report_lines(&rows),
        vec![
            "At instant 10, 1 Kg of pears were sold.".to_string(),
            "At instant 20, 2 Kg of plums were sold.".to_string(),
            "At instant 30, 3 g of figs were sold.".to_string(),
        ]
    );
}

#[test]
fn report_query_orders_by_sale_date() {
    let q = report_query();
    assert!(q.starts_with("SELECT p.name, s.unit, s.quantity, s.sale_date"));
    assert!(q.contains("LEFT JOIN Products p"));
    assert!(q.ends_with("ORDER BY s.sale_date"));
}

#[test]
fn server_line_shows_the_identifier_or_its_absence() {
    assert_eq!(server_line(None), "server = None");
    assert_eq!(server_line(Some(3)), "server = Some(Server { server_id: 3 })");
    assert_eq!(server_line(Some(-12)), "server = Some(Server { server_id: -12 })");
    assert_eq!(server_line(Some(i32::MIN)), "server = Some(Server { server_id: -2147483648 })");
}

#[test]
fn lost_session_ends_the_populator_with_a_connection_error() {
    for step in [PopulateStep::InsertProduct, PopulateStep::Backfill, PopulateStep::InsertSale] {
        for mode in [true, false] {
            assert_eq!(
                advance(step, mode, &StoreReply::Disconnected),
                PopulateProgress::Failed(WorkflowError::Connection)
            );
        }
    }
}

#[test]
fn reply_failures() {
    assert_eq!(StoreReply::Accepted.row_failure(), None);
    assert!(StoreReply::Accepted.is_accepted());
    assert!(!StoreReply::Disconnected.is_accepted());
    assert!(!StoreReply::Rejected(None).is_accepted());
    assert_eq!(StoreReply::Disconnected.row_failure(), Some(WorkflowError::Connection));
    assert_eq!(StoreReply::Rejected(None).row_failure(), Some(WorkflowError::Query));
    assert_eq!(
        StoreReply::Rejected(Some("23503".to_string())).row_failure(),
        Some(WorkflowError::Constraint)
    );
    assert_eq!(
        StoreReply::Rejected(Some("22P02".to_string())).row_failure(),
        Some(WorkflowError::Query)
    );
}
