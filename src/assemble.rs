use vstd::prelude::*;
use crate::grid::{
    cells_m, text_m, texts_m, Align, Cell, CellModel, Padding, TableGrid, TableModel, Text,
    TextModel,
};
use crate::model::{status_of, InvItem, InvUser, Invoice, Status, TrxItem};
use crate::style::{Style, StyleRegistry};
use crate::text::{decimal, decimal_i64, decimal_u64, or_dash, prefixed, signed_decimal, text_or_dash};

verus! {

/// One top-level block of the document.
#[derive(Clone, Debug)]
pub enum Block {
    Table(TableGrid),
    Stack(Vec<Text>),
}

/// The mathematical value of a `Block`.
pub enum BlockModel {
    Table(TableModel),
    Stack(Seq<TextModel>),
}

impl View for Block {
    type V = BlockModel;

    open spec fn view(&self) -> BlockModel {
        match self {
            Block::Table(t) => BlockModel::Table(t@),
            Block::Stack(v) => BlockModel::Stack(texts_m(v@)),
        }
    }
}

/// The values of a sequence of blocks.
pub open spec fn blocks_m(blocks: Seq<Block>) -> Seq<BlockModel> {
    blocks.map_values(|b: Block| b@)
}

/// Padding of the cells of the panels (header and parties).
pub open spec fn panel_padding() -> Padding {
    Padding { top: 0, right: 0, bottom: 0, left: 0 }
}

/// Padding of the cells of the items and transactions tables.
pub open spec fn cell_padding() -> Padding {
    Padding { top: 1, right: 2, bottom: 1, left: 2 }
}

/// A cell of the given lines, alignment and padding.
pub open spec fn cell_m(lines: Seq<TextModel>, align: Align, padding: Padding) -> CellModel {
    CellModel { lines, align, padding }
}

/// A table cell holding a single line.
pub open spec fn line_cell_m(content: Seq<char>, style: Style, align: Align) -> CellModel {
    cell_m(seq![text_m(content, style)], align, cell_padding())
}

/// A table cell holding nothing.
pub open spec fn empty_cell_m() -> CellModel {
    cell_m(Seq::empty(), Align::Left, cell_padding())
}

/// The style of the status text.
pub open spec fn status_style_m(status: Status, st: StyleRegistry) -> Style {
    match status {
        Status::Paid => st.status_paid,
        Status::Unpaid => st.status_unpaid,
    }
}

/// The header panel: the title and the number on the left, the status on the right.
pub open spec fn header_m(inv: Invoice, st: StyleRegistry) -> TableModel {
    TableModel {
        weights: seq![1u8, 1u8],
        frameless: true,
        rows: seq![
            seq![
                cell_m(
                    seq![
                        text_m("INVOICE"@, st.header_title),
                        text_m("No. "@ + inv.number@, st.invoice_number),
                    ],
                    Align::Left,
                    panel_padding(),
                ),
                cell_m(
                    seq![text_m(inv.status@, status_style_m(status_of(inv.status@), st))],
                    Align::Right,
                    panel_padding(),
                ),
            ],
        ],
    }
}

/// The lines of the date panel.
pub open spec fn dates_m(inv: Invoice, st: StyleRegistry) -> Seq<TextModel> {
    seq![
        text_m("Issue Date: "@ + inv.issuedate@, st.body),
        text_m("Due Date: "@ + inv.duedate@, st.body),
        text_m("Paid Date: "@ + or_dash(inv.paiddate), st.body),
    ]
}

/// A party's cell: label, name, address, phone and email.
pub open spec fn party_cell_m(label: Seq<char>, u: InvUser, st: StyleRegistry) -> CellModel {
    cell_m(
        seq![
            text_m(label, st.emphasis),
            text_m(u.name@, st.body),
            text_m(or_dash(u.address), st.body),
            text_m(or_dash(u.phone), st.body),
            text_m(or_dash(u.email), st.body),
        ],
        Align::Left,
        panel_padding(),
    )
}

/// The bill-to / bill-from panel.
pub open spec fn parties_m(inv: Invoice, st: StyleRegistry) -> TableModel {
    TableModel {
        weights: seq![1u8, 1u8],
        frameless: true,
        rows: seq![
            seq![
                party_cell_m("Bill To:"@, inv.invto, st),
                party_cell_m("Bill From:"@, inv.invfrom, st),
            ],
        ],
    }
}

/// The header row of the items table.
pub open spec fn items_header_m(st: StyleRegistry) -> Seq<CellModel> {
    seq![
        line_cell_m("Description"@, st.table_header, Align::Left),
        line_cell_m("Quantity"@, st.table_header, Align::Center),
        line_cell_m("Price"@, st.table_header, Align::Right),
        line_cell_m("Amount"@, st.table_header, Align::Right),
    ]
}

/// The row of one item: bulleted description, quantity, price and amount.
pub open spec fn item_row_m(it: InvItem, st: StyleRegistry) -> Seq<CellModel> {
    seq![
        line_cell_m("- "@ + it.description@, st.body, Align::Left),
        line_cell_m(decimal(it.quantity as nat), st.body, Align::Center),
        line_cell_m("$"@ + signed_decimal(it.price as int), st.body, Align::Right),
        line_cell_m("$"@ + signed_decimal(it.amount as int), st.body, Align::Right),
    ]
}

/// The rows of the items, in stored order.
pub open spec fn item_rows_m(items: Seq<InvItem>, st: StyleRegistry) -> Seq<Seq<CellModel>> {
    items.map_values(|it: InvItem| item_row_m(it, st))
}

/// A summary row: two empty cells, the label and the amount.
pub open spec fn summary_row_m(
    label: Seq<char>,
    value: u64,
    label_style: Style,
    value_style: Style,
) -> Seq<CellModel> {
    seq![
        empty_cell_m(),
        empty_cell_m(),
        line_cell_m(label, label_style, Align::Right),
        line_cell_m("$"@ + decimal(value as nat), value_style, Align::Right),
    ]
}

/// The Sub-total, Tax and Total rows, read from the invoice as stored.
pub open spec fn summary_rows_m(inv: Invoice, st: StyleRegistry) -> Seq<Seq<CellModel>> {
    seq![
        summary_row_m("Sub-total"@, inv.subtotal, st.emphasis, st.body),
        summary_row_m("Tax"@, inv.tax, st.emphasis, st.body),
        summary_row_m("Total"@, inv.total, st.emphasis_total, st.emphasis_total),
    ]
}

/// The items table.
pub open spec fn items_m(inv: Invoice, st: StyleRegistry) -> TableModel {
    TableModel {
        weights: seq![3u8, 1u8, 1u8, 1u8],
        frameless: true,
        rows: seq![items_header_m(st)] + item_rows_m(inv.items@, st) + summary_rows_m(inv, st),
    }
}

/// The header row of the transactions table.
pub open spec fn trx_header_m(st: StyleRegistry) -> Seq<CellModel> {
    seq![
        line_cell_m("Date Transaction"@, st.table_header, Align::Left),
        line_cell_m("ID Transaction"@, st.table_header, Align::Left),
        line_cell_m("Amount"@, st.table_header, Align::Right),
    ]
}

/// The row of one transaction: date, id and amount.
pub open spec fn trx_row_m(t: TrxItem, st: StyleRegistry) -> Seq<CellModel> {
    seq![
        line_cell_m(t.date@, st.body, Align::Left),
        line_cell_m(t.id@, st.body, Align::Left),
        line_cell_m(decimal(t.amount as nat), st.body, Align::Right),
    ]
}

/// The rows of the transactions, in stored order.
pub open spec fn trx_rows_m(items: Seq<TrxItem>, st: StyleRegistry) -> Seq<Seq<CellModel>> {
    items.map_values(|t: TrxItem| trx_row_m(t, st))
}

/// The closing row of the transactions table. Its amount is the literal "0",
/// whatever balance the record stores.
pub open spec fn balance_row_m(st: StyleRegistry) -> Seq<CellModel> {
    seq![
        line_cell_m("Balance"@, st.emphasis, Align::Left),
        empty_cell_m(),
        line_cell_m("0"@, st.emphasis, Align::Right),
    ]
}

/// The transactions table.
pub open spec fn trx_m(inv: Invoice, st: StyleRegistry) -> TableModel {
    TableModel {
        weights: seq![2u8, 2u8, 1u8],
        frameless: true,
        rows: seq![trx_header_m(st)] + trx_rows_m(inv.transactions.items@, st) + seq![
            balance_row_m(st),
        ],
    }
}

/// One bulleted line per note, in stored order.
pub open spec fn note_lines_m(notes: Seq<String>, st: StyleRegistry) -> Seq<TextModel> {
    notes.map_values(|n: String| text_m("- "@ + n@, st.body))
}

/// The notes block: the title, then the bulleted notes, if any.
pub open spec fn notes_m(inv: Invoice, st: StyleRegistry) -> Seq<TextModel> {
    seq![text_m("Notes"@, st.section_title)] + match inv.notes {
        Some(v) => note_lines_m(v@, st),
        None => Seq::empty(),
    }
}

/// The whole document: header, dates, parties, items, transactions, notes.
pub open spec fn document_m(inv: Invoice, st: StyleRegistry) -> Seq<BlockModel> {
    seq![
        BlockModel::Table(header_m(inv, st)),
        BlockModel::Stack(dates_m(inv, st)),
        BlockModel::Table(parties_m(inv, st)),
        BlockModel::Table(items_m(inv, st)),
        BlockModel::Table(trx_m(inv, st)),
        BlockModel::Stack(notes_m(inv, st)),
    ]
}

fn panel_pad() -> (r: Padding)
    ensures
        r == panel_padding(),
{
    Padding { top: 0, right: 0, bottom: 0, left: 0 }
}

fn cell_pad() -> (r: Padding)
    ensures
        r == cell_padding(),
{
    Padding { top: 1, right: 2, bottom: 1, left: 2 }
}

/// A table cell holding the single line `content`.
fn line_cell(content: String, style: Style, align: Align) -> (r: Cell)
    ensures
        r@ == line_cell_m(content@, style, align),
{
    let mut lines: Vec<Text> = Vec::new();
    lines.push(Text { content, style });
    let r = Cell { lines, align, padding: cell_pad() };
    assert(r@.lines =~= seq![text_m(content@, style)]);
    r
}

/// A table cell holding the literal `label`.
fn label_cell(label: &str, style: Style, align: Align) -> (r: Cell)
    ensures
        r@ == line_cell_m(label@, style, align),
{
    line_cell(String::from_str(label), style, align)
}

/// A table cell holding nothing.
fn empty_cell() -> (r: Cell)
    ensures
        r@ == empty_cell_m(),
{
    let r = Cell { lines: Vec::new(), align: Align::Left, padding: cell_pad() };
    assert(r@.lines =~= Seq::<TextModel>::empty());
    r
}

/// The style of a status text: the paid style exactly for "PAID".
pub fn status_style(status: &String, st: &StyleRegistry) -> (r: Style)
    ensures
        r == status_style_m(status_of(status@), *st),
{
    match Status::from_text(status) {
        Status::Paid => st.status_paid,
        Status::Unpaid => st.status_unpaid,
    }
}

/// The header panel: title and number on the left, the status on the right.
pub fn header_panel(inv: &Invoice, st: &StyleRegistry) -> (r: TableGrid)
    ensures
        r.wf(),
        r@ == header_m(*inv, *st),
{
    let mut t = TableGrid::new(vec![1u8, 1u8]);
    t.set_frameless(true);
    let mut left: Vec<Text> = Vec::new();
    left.push(Text { content: String::from_str("INVOICE"), style: st.header_title });
    left.push(Text { content: prefixed("No. ", &inv.number), style: st.invoice_number });
    let mut right: Vec<Text> = Vec::new();
    right.push(Text { content: inv.status.clone(), style: status_style(&inv.status, st) });
    let mut cells: Vec<Cell> = Vec::new();
    cells.push(Cell { lines: left, align: Align::Left, padding: panel_pad() });
    cells.push(Cell { lines: right, align: Align::Right, padding: panel_pad() });
    let ghost hm = header_m(*inv, *st);
    assert(texts_m(left@) =~= hm.rows[0][0].lines);
    assert(texts_m(right@) =~= hm.rows[0][1].lines);
    assert(cells_m(cells@) =~= hm.rows[0]);
    let _ = t.push_row(cells);
    assert(t@.rows =~= hm.rows);
    assert(t@.weights =~= hm.weights);
    t
}

/// The date panel: issue, due and paid dates, one line each.
pub fn date_panel(inv: &Invoice, st: &StyleRegistry) -> (r: Vec<Text>)
    ensures
        texts_m(r@) == dates_m(*inv, *st),
{
    let mut v: Vec<Text> = Vec::new();
    v.push(Text { content: prefixed("Issue Date: ", &inv.issuedate), style: st.body });
    v.push(Text { content: prefixed("Due Date: ", &inv.duedate), style: st.body });
    let paid = text_or_dash(&inv.paiddate);
    v.push(Text { content: prefixed("Paid Date: ", &paid), style: st.body });
    assert(texts_m(v@) =~= dates_m(*inv, *st));
    v
}

/// One party's cell: label, name, address, phone and email, a dash for each
/// absent field.
pub fn party_cell(label: &str, u: &InvUser, st: &StyleRegistry) -> (r: Cell)
    ensures
        r@ == party_cell_m(label@, *u, *st),
{
    let mut v: Vec<Text> = Vec::new();
    v.push(Text { content: String::from_str(label), style: st.emphasis });
    v.push(Text { content: u.name.clone(), style: st.body });
    v.push(Text { content: text_or_dash(&u.address), style: st.body });
    v.push(Text { content: text_or_dash(&u.phone), style: st.body });
    v.push(Text { content: text_or_dash(&u.email), style: st.body });
    let r = Cell { lines: v, align: Align::Left, padding: panel_pad() };
    assert(r@.lines =~= party_cell_m(label@, *u, *st).lines);
    r
}

/// The bill-to / bill-from panel.
pub fn parties_panel(inv: &Invoice, st: &StyleRegistry) -> (r: TableGrid)
    ensures
        r.wf(),
        r@ == parties_m(*inv, *st),
{
    let mut t = TableGrid::new(vec![1u8, 1u8]);
    t.set_frameless(true);
    let mut cells: Vec<Cell> = Vec::new();
    cells.push(party_cell("Bill To:", &inv.invto, st));
    cells.push(party_cell("Bill From:", &inv.invfrom, st));
    let ghost pm = parties_m(*inv, *st);
    assert(cells_m(cells@) =~= pm.rows[0]);
    let _ = t.push_row(cells);
    assert(t@.rows =~= pm.rows);
    assert(t@.weights =~= pm.weights);
    t
}

/// The cells of one item row.
pub fn item_row(it: &InvItem, st: &StyleRegistry) -> (r: Vec<Cell>)
    ensures
        cells_m(r@) == item_row_m(*it, *st),
        r@.len() == 4,
{
    let mut v: Vec<Cell> = Vec::new();
    v.push(line_cell(prefixed("- ", &it.description), st.body, Align::Left));
    v.push(line_cell(decimal_u64(it.quantity as u64), st.body, Align::Center));
    v.push(line_cell(prefixed("$", &decimal_i64(it.price)), st.body, Align::Right));
    v.push(line_cell(prefixed("$", &decimal_i64(it.amount)), st.body, Align::Right));
    assert(cells_m(v@) =~= item_row_m(*it, *st));
    v
}

fn summary_row(label: &str, value: u64, label_style: Style, value_style: Style) -> (r: Vec<Cell>)
    ensures
        cells_m(r@) == summary_row_m(label@, value, label_style, value_style),
        r@.len() == 4,
{
    let mut v: Vec<Cell> = Vec::new();
    v.push(empty_cell());
    v.push(empty_cell());
    v.push(label_cell(label, label_style, Align::Right));
    v.push(line_cell(prefixed("$", &decimal_u64(value)), value_style, Align::Right));
    assert(cells_m(v@) =~= summary_row_m(label@, value, label_style, value_style));
    v
}

/// The items table: a header row, one row per item in stored order, then the
/// Sub-total, Tax and Total rows read from the invoice.
pub fn items_table(inv: &Invoice, st: &StyleRegistry) -> (r: TableGrid)
    ensures
        r.wf(),
        r@ == items_m(*inv, *st),
{
    let mut t = TableGrid::new(vec![3u8, 1u8, 1u8, 1u8]);
    t.set_frameless(true);
    let mut header: Vec<Cell> = Vec::new();
    header.push(label_cell("Description", st.table_header, Align::Left));
    header.push(label_cell("Quantity", st.table_header, Align::Center));
    header.push(label_cell("Price", st.table_header, Align::Right));
    header.push(label_cell("Amount", st.table_header, Align::Right));
    assert(cells_m(header@) =~= items_header_m(*st));
    let _ = t.push_row(header);
    assert(t@.weights =~= seq![3u8, 1u8, 1u8, 1u8]);
    let n = inv.items.len();
    let mut i: usize = 0;
    while i < n
        invariant
            n == inv.items@.len(),
            i <= n,
            t.wf(),
            t@.weights == seq![3u8, 1u8, 1u8, 1u8],
            t@.frameless,
            t@.rows == seq![items_header_m(*st)] + item_rows_m(inv.items@.subrange(0, i as int), *st),
        decreases n - i,
    {
        let row = item_row(&inv.items[i], st);
        let _ = t.push_row(row);
        let ghost done = item_rows_m(inv.items@.subrange(0, i as int), *st);
        assert(item_rows_m(inv.items@.subrange(0, i + 1), *st) =~= done.push(
            item_row_m(inv.items@[i as int], *st),
        ));
        assert(t@.rows =~= seq![items_header_m(*st)] + done.push(
            item_row_m(inv.items@[i as int], *st),
        ));
        i = i + 1;
    }
    assert(inv.items@.subrange(0, n as int) =~= inv.items@);
    let ghost body = t@.rows;
    let _ = t.push_row(summary_row("Sub-total", inv.subtotal, st.emphasis, st.body));
    let _ = t.push_row(summary_row("Tax", inv.tax, st.emphasis, st.body));
    let _ = t.push_row(summary_row("Total", inv.total, st.emphasis_total, st.emphasis_total));
    assert(t@.rows =~= body + summary_rows_m(*inv, *st));
    assert(t@.rows =~= items_m(*inv, *st).rows);
    t
}

/// The cells of one transaction row.
pub fn transaction_row(t: &TrxItem, st: &StyleRegistry) -> (r: Vec<Cell>)
    ensures
        cells_m(r@) == trx_row_m(*t, *st),
        r@.len() == 3,
{
    let mut v: Vec<Cell> = Vec::new();
    v.push(line_cell(t.date.clone(), st.body, Align::Left));
    v.push(line_cell(t.id.clone(), st.body, Align::Left));
    v.push(line_cell(decimal_u64(t.amount), st.body, Align::Right));
    assert(cells_m(v@) =~= trx_row_m(*t, *st));
    v
}

/// The transactions table: a header row, one row per transaction in stored
/// order, then a Balance row whose amount is always the literal "0".
pub fn transactions_table(inv: &Invoice, st: &StyleRegistry) -> (r: TableGrid)
    ensures
        r.wf(),
        r@ == trx_m(*inv, *st),
{
    let mut t = TableGrid::new(vec![2u8, 2u8, 1u8]);
    t.set_frameless(true);
    let mut header: Vec<Cell> = Vec::new();
    header.push(label_cell("Date Transaction", st.table_header, Align::Left));
    header.push(label_cell("ID Transaction", st.table_header, Align::Left));
    header.push(label_cell("Amount", st.table_header, Align::Right));
    assert(cells_m(header@) =~= trx_header_m(*st));
    let _ = t.push_row(header);
    assert(t@.weights =~= seq![2u8, 2u8, 1u8]);
    let items = &inv.transactions.items;
    let n = items.len();
    let mut i: usize = 0;
    while i < n
        invariant
            n == items@.len(),
            items == &inv.transactions.items,
            i <= n,
            t.wf(),
            t@.weights == seq![2u8, 2u8, 1u8],
            t@.frameless,
            t@.rows == seq![trx_header_m(*st)] + trx_rows_m(items@.subrange(0, i as int), *st),
        decreases n - i,
    {
        let row = transaction_row(&items[i], st);
        let _ = t.push_row(row);
        let ghost done = trx_rows_m(items@.subrange(0, i as int), *st);
        assert(trx_rows_m(items@.subrange(0, i + 1), *st) =~= done.push(
            trx_row_m(items@[i as int], *st),
        ));
        assert(t@.rows =~= seq![trx_header_m(*st)] + done.push(trx_row_m(items@[i as int], *st)));
        i = i + 1;
    }
    assert(items@.subrange(0, n as int) =~= items@);
    let mut balance: Vec<Cell> = Vec::new();
    balance.push(label_cell("Balance", st.emphasis, Align::Left));
    balance.push(empty_cell());
    balance.push(label_cell("0", st.emphasis, Align::Right));
    assert(cells_m(balance@) =~= balance_row_m(*st));
    let _ = t.push_row(balance);
    assert(t@.rows =~= trx_m(*inv, *st).rows);
    t
}

/// The notes block: the section title, then one bulleted line per note.
pub fn notes_block(inv: &Invoice, st: &StyleRegistry) -> (r: Vec<Text>)
    ensures
        texts_m(r@) == notes_m(*inv, *st),
{
    let mut v: Vec<Text> = Vec::new();
    v.push(Text { content: String::from_str("Notes"), style: st.section_title });
    match &inv.notes {
        Some(notes) => {
            let n = notes.len();
            let mut i: usize = 0;
            while i < n
                invariant
                    n == notes@.len(),
                    i <= n,
                    texts_m(v@) == seq![text_m("Notes"@, st.section_title)] + note_lines_m(
                        notes@.subrange(0, i as int),
                        *st,
                    ),
                decreases n - i,
            {
                let ghost before = v@;
                v.push(Text { content: prefixed("- ", &notes[i]), style: st.body });
                let ghost done = note_lines_m(notes@.subrange(0, i as int), *st);
                assert(note_lines_m(notes@.subrange(0, i + 1), *st) =~= done.push(
                    text_m("- "@ + notes@[i as int]@, st.body),
                ));
                assert(texts_m(v@) =~= texts_m(before).push(v@[i + 1]@));
                assert(texts_m(v@) =~= seq![text_m("Notes"@, st.section_title)] + done.push(
                    text_m("- "@ + notes@[i as int]@, st.body),
                ));
                i = i + 1;
            }
            assert(notes@.subrange(0, n as int) =~= notes@);
        },
        None => {},
    }
    assert(texts_m(v@) =~= notes_m(*inv, *st));
    v
}

/// Assembles the document for `inv`: header panel, date panel, parties panel,
/// items table, transactions table and notes block, in this order.
pub fn assemble(inv: &Invoice, st: &StyleRegistry) -> (r: Vec<Block>)
    ensures
        blocks_m(r@) == document_m(*inv, *st),
{
    let mut v: Vec<Block> = Vec::new();
    v.push(Block::Table(header_panel(inv, st)));
    v.push(Block::Stack(date_panel(inv, st)));
    v.push(Block::Table(parties_panel(inv, st)));
    v.push(Block::Table(items_table(inv, st)));
    v.push(Block::Table(transactions_table(inv, st)));
    v.push(Block::Stack(notes_block(inv, st)));
    assert(blocks_m(v@) =~= document_m(*inv, *st));
    v
}

} // verus!
