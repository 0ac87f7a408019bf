use invoice_doc::{
    assemble, Align, Block, InvItem, InvUser, Invoice, InvoiceExporter, StyleRegistry, TableGrid,
    Text, Trx, TrxItem,
};

fn user(name: &str) -> InvUser {
    InvUser { name: name.to_string(), address: None, phone: None, email: None }
}

fn item(description: &str, quantity: u8, price: i64, amount: i64) -> InvItem {
    InvItem { description: description.to_string(), quantity, price, amount }
}

fn trx(id: &str, date: &str, amount: u64) -> TrxItem {
    TrxItem { id: id.to_string(), date: date.to_string(), amount }
}

fn scenario_a() -> Invoice {
    Invoice {
        number: "INV-1".to_string(),
        status: "PAID".to_string(),
        issuedate: "2024-01-01".to_string(),
        duedate: "2024-01-31".to_string(),
        paiddate: None,
        subtotal: 1000,
        tax: 0,
        total: 1000,
        items: vec![item("Widget", 2, 500, 1000)],
        transactions: Trx { balance: 1000, items: vec![] },
        invto: user("Alice"),
        invfrom: user("Bob"),
        notes: None,
    }
}

fn table(b: &Block) -> &TableGrid {
    match b {
        Block::Table(t) => t,
        Block::Stack(_) => panic!("expected a table"),
    }
}

fn stack(b: &Block) -> &Vec<Text> {
    match b {
        Block::Stack(v) => v,
        Block::Table(_) => panic!("expected a stack"),
    }
}

fn cell_text(t: &TableGrid, row: usize, col: usize) -> Vec<String> {
    t.row(row).cells[col].lines.iter().map(|l| l.content.clone()).collect()
}

fn lines(v: &Vec<Text>) -> Vec<String> {
    v.iter().map(|l| l.content.clone()).collect()
}

#[test]
fn scenario_a_paid_invoice() {
    let st = StyleRegistry::new();
    let doc = assemble(&scenario_a(), &st);
    assert_eq!(doc.len(), 6);

    let header = table(&doc[0]);
    assert_eq!(header.column_count(), 2);
    assert!(header.is_frameless());
    assert_eq!(cell_text(header, 0, 0), vec!["INVOICE", "No. INV-1"]);
    assert_eq!(cell_text(header, 0, 1), vec!["PAID"]);
    assert_eq!(header.row(0).cells[1].lines[0].style, st.status_paid);
    assert_eq!(header.row(0).cells[1].align, Align::Right);

    let items = table(&doc[3]);
    assert_eq!(items.row_count(), 1 + 1 + 3);
    assert_eq!(items.weights(), &vec![3u8, 1, 1, 1]);
    assert_eq!(cell_text(items, 0, 0), vec!["Description"]);
    assert_eq!(cell_text(items, 1, 0), vec!["- Widget"]);
    assert_eq!(cell_text(items, 1, 1), vec!["2"]);
    assert_eq!(cell_text(items, 1, 2), vec!["$500"]);
    assert_eq!(cell_text(items, 1, 3), vec!["$1000"]);
    assert_eq!(cell_text(items, 2, 2), vec!["Sub-total"]);
    assert_eq!(cell_text(items, 2, 3), vec!["$1000"]);
    assert_eq!(cell_text(items, 3, 2), vec!["Tax"]);
    assert_eq!(cell_text(items, 3, 3), vec!["$0"]);
    assert_eq!(cell_text(items, 4, 2), vec!["Total"]);
    assert_eq!(cell_text(items, 4, 3), vec!["$1000"]);

    let trxs = table(&doc[4]);
    assert_eq!(trxs.row_count(), 1 + 0 + 1);
    assert_eq!(cell_text(trxs, 1, 0), vec!["Balance"]);
    assert_eq!(cell_text(trxs, 1, 2), vec!["0"]);

    let notes = stack(&doc[5]);
    assert_eq!(lines(notes), vec!["Notes"]);
    assert_eq!(notes[0].style, st.section_title);
}

#[test]
fn scenario_b_missing_address_renders_dash() {
    let st = StyleRegistry::new();
    let mut inv = scenario_a();
    inv.invto.address = None;
    inv.invto.phone = Some("555-0100".to_string());
    let doc = assemble(&inv, &st);
    let parties = table(&doc[2]);
    assert_eq!(cell_text(parties, 0, 0), vec!["Bill To:", "Alice", "-", "555-0100", "-"]);
    assert_eq!(cell_text(parties, 0, 1), vec!["Bill From:", "Bob", "-", "-", "-"]);
}

#[test]
fn absent_optional_fields_render_dash() {
    let st = StyleRegistry::new();
    let doc = assemble(&scenario_a(), &st);
    let dates = stack(&doc[1]);
    assert_eq!(lines(dates), vec!["Issue Date: 2024-01-01", "Due Date: 2024-01-31", "Paid Date: -"]);
}

#[test]
fn present_optional_fields_render_their_value() {
    let st = StyleRegistry::new();
    let mut inv = scenario_a();
    inv.paiddate = Some("2024-01-15".to_string());
    inv.invfrom.address = Some("1 Main St".to_string());
    inv.invfrom.email = Some("bob@example.com".to_string());
    let doc = assemble(&inv, &st);
    assert_eq!(lines(stack(&doc[1]))[2], "Paid Date: 2024-01-15");
    assert_eq!(
        cell_text(table(&doc[2]), 0, 1),
        vec!["Bill From:", "Bob", "1 Main St", "-", "bob@example.com"]
    );
}

#[test]
fn items_and_transactions_keep_stored_order() {
    let st = StyleRegistry::new();
    let mut inv = scenario_a();
    inv.items = vec![item("A", 1, 1, 1), item("B", 0, 7, 0), item("C", 3, -2, -6)];
    inv.transactions.items = vec![trx("t1", "d1", 10), trx("t2", "d2", 20)];
    let doc = assemble(&inv, &st);
    let items = table(&doc[3]);
    assert_eq!(items.row_count(), 1 + 3 + 3);
    assert_eq!(cell_text(items, 1, 0), vec!["- A"]);
    assert_eq!(cell_text(items, 2, 0), vec!["- B"]);
    assert_eq!(cell_text(items, 2, 1), vec!["0"]);
    assert_eq!(cell_text(items, 3, 0), vec!["- C"]);
    assert_eq!(cell_text(items, 3, 2), vec!["$-2"]);
    assert_eq!(cell_text(items, 3, 3), vec!["$-6"]);
    let trxs = table(&doc[4]);
    assert_eq!(trxs.row_count(), 1 + 2 + 1);
    assert_eq!(cell_text(trxs, 1, 0), vec!["d1"]);
    assert_eq!(cell_text(trxs, 1, 1), vec!["t1"]);
    assert_eq!(cell_text(trxs, 1, 2), vec!["10"]);
    assert_eq!(cell_text(trxs, 2, 1), vec!["t2"]);

    inv.items.reverse();
    inv.transactions.items.reverse();
    let doc = assemble(&inv, &st);
    let items = table(&doc[3]);
    assert_eq!(cell_text(items, 1, 0), vec!["- C"]);
    assert_eq!(cell_text(items, 2, 0), vec!["- B"]);
    assert_eq!(cell_text(items, 3, 0), vec!["- A"]);
    let trxs = table(&doc[4]);
    assert_eq!(cell_text(trxs, 1, 1), vec!["t2"]);
    assert_eq!(cell_text(trxs, 2, 1), vec!["t1"]);
}

#[test]
fn summary_rows_read_stored_totals() {
    let st = StyleRegistry::new();
    let mut inv = scenario_a();
    inv.subtotal = 7;
    inv.tax = 3;
    inv.total = 18446744073709551615;
    let doc = assemble(&inv, &st);
    let items = table(&doc[3]);
    assert_eq!(cell_text(items, 2, 3), vec!["$7"]);
    assert_eq!(cell_text(items, 3, 3), vec!["$3"]);
    assert_eq!(cell_text(items, 4, 3), vec!["$18446744073709551615"]);
    assert_eq!(items.row(2).cells[0].lines.len(), 0);
}

#[test]
fn extreme_item_values_render_exactly() {
    let st = StyleRegistry::new();
    let mut inv = scenario_a();
    inv.items = vec![item("Max", 255, i64::MIN, i64::MAX)];
    let doc = assemble(&inv, &st);
    let items = table(&doc[3]);
    assert_eq!(cell_text(items, 1, 1), vec!["255"]);
    assert_eq!(cell_text(items, 1, 2), vec!["$-9223372036854775808"]);
    assert_eq!(cell_text(items, 1, 3), vec!["$9223372036854775807"]);
}

#[test]
fn status_style_requires_exact_paid() {
    let st = StyleRegistry::new();
    for s in ["Paid", "paid", "", "UNPAID", "PAID "] {
        let mut inv = scenario_a();
        inv.status = s.to_string();
        let doc = assemble(&inv, &st);
        let header = table(&doc[0]);
        assert_eq!(header.row(0).cells[1].lines[0].style, st.status_unpaid, "status {:?}", s);
        assert_eq!(cell_text(header, 0, 1), vec![s.to_string()]);
    }
}

#[test]
fn balance_row_ignores_stored_balance() {
    let st = StyleRegistry::new();
    let mut inv = scenario_a();
    inv.transactions = Trx { balance: 12345, items: vec![trx("t1", "d1", 5)] };
    let doc = assemble(&inv, &st);
    let trxs = table(&doc[4]);
    assert_eq!(trxs.row_count(), 3);
    assert_eq!(cell_text(trxs, 2, 0), vec!["Balance"]);
    assert_eq!(cell_text(trxs, 2, 2), vec!["0"]);
}

#[test]
fn notes_render_as_bullets_in_order() {
    let st = StyleRegistry::new();
    let mut inv = scenario_a();
    inv.notes = Some(vec!["Thanks".to_string(), "Pay on time".to_string()]);
    let doc = assemble(&inv, &st);
    assert_eq!(lines(stack(&doc[5])), vec!["Notes", "- Thanks", "- Pay on time"]);
    inv.notes = Some(vec![]);
    let doc = assemble(&inv, &st);
    assert_eq!(lines(stack(&doc[5])), vec!["Notes"]);
}

#[test]
fn exporter_builds_document_and_file_name() {
    let exporter = InvoiceExporter::new(scenario_a());
    assert_eq!(exporter.file_name(), "invoice_INV-1.pdf");
    assert_eq!(exporter.styles, StyleRegistry::new());
    assert_eq!(exporter.document().len(), 6);
}
