use vstd::prelude::*;
use crate::style::Style;

verus! {

/// Horizontal alignment of a cell's content.
#[derive(Clone, Copy, Debug, PartialEq, Eq, Structural)]
pub enum Align {
    Left,
    Center,
    Right,
}

/// Cell padding in relative units.
#[derive(Clone, Copy, Debug, PartialEq, Eq, Structural)]
pub struct Padding {
    pub top: u8,
    pub right: u8,
    pub bottom: u8,
    pub left: u8,
}

/// A styled run of text.
#[derive(Clone, Debug)]
pub struct Text {
    pub content: String,
    pub style: Style,
}

/// The mathematical value of a `Text`.
pub struct TextModel {
    pub content: Seq<char>,
    pub style: Style,
}

impl View for Text {
    type V = TextModel;

    open spec fn view(&self) -> TextModel {
        TextModel { content: self.content@, style: self.style }
    }
}

/// The text `content` in `style`.
pub open spec fn text_m(content: Seq<char>, style: Style) -> TextModel {
    TextModel { content, style }
}

/// The values of a sequence of texts.
pub open spec fn texts_m(lines: Seq<Text>) -> Seq<TextModel> {
    lines.map_values(|t: Text| t@)
}

/// One grid cell: a vertical stack of text lines with alignment and padding.
#[derive(Clone, Debug)]
pub struct Cell {
    pub lines: Vec<Text>,
    pub align: Align,
    pub padding: Padding,
}

/// The mathematical value of a `Cell`.
pub struct CellModel {
    pub lines: Seq<TextModel>,
    pub align: Align,
    pub padding: Padding,
}

impl View for Cell {
    type V = CellModel;

    open spec fn view(&self) -> CellModel {
        CellModel { lines: texts_m(self.lines@), align: self.align, padding: self.padding }
    }
}

/// The values of a sequence of cells.
pub open spec fn cells_m(cells: Seq<Cell>) -> Seq<CellModel> {
    cells.map_values(|c: Cell| c@)
}

/// A completed row of a table.
#[derive(Clone, Debug)]
pub struct Row {
    pub cells: Vec<Cell>,
}

impl View for Row {
    type V = Seq<CellModel>;

    open spec fn view(&self) -> Seq<CellModel> {
        cells_m(self.cells@)
    }
}

/// A row was offered with a number of cells other than the declared column count.
#[derive(Clone, Copy, Debug, PartialEq, Eq, Structural)]
pub struct RowArityError {
    pub expected: usize,
    pub found: usize,
}

/// A grid of rows over columns with relative width weights.
#[derive(Clone, Debug)]
pub struct TableGrid {
    weights: Vec<u8>,
    frameless: bool,
    rows: Vec<Row>,
}

/// The mathematical value of a `TableGrid`: weights, decoration and rows of cells.
pub struct TableModel {
    pub weights: Seq<u8>,
    pub frameless: bool,
    pub rows: Seq<Seq<CellModel>>,
}

impl View for TableGrid {
    type V = TableModel;

    closed spec fn view(&self) -> TableModel {
        TableModel {
            weights: self.weights@,
            frameless: self.frameless,
            rows: self.rows@.map_values(|r: Row| r@),
        }
    }
}

impl TableGrid {
    /// Every row has exactly one cell per declared column.
    pub open spec fn wf(&self) -> bool {
        forall|i: int| 0 <= i < self@.rows.len() ==> #[trigger] self@.rows[i].len()
            == self@.weights.len()
    }

    /// An empty, framed table whose columns have the given relative widths.
    pub fn new(weights: Vec<u8>) -> (r: TableGrid)
        ensures
            r.wf(),
            r@ == (TableModel { weights: weights@, frameless: false, rows: Seq::empty() }),
    {
        let r = TableGrid { weights, frameless: false, rows: Vec::new() };
        assert(r@.rows =~= Seq::empty());
        r
    }

    /// Switches the frameless decoration (no grid borders) on or off.
    pub fn set_frameless(&mut self, frameless: bool)
        requires
            old(self).wf(),
        ensures
            final(self).wf(),
            final(self)@ == (TableModel { frameless, ..old(self)@ }),
    {
        self.frameless = frameless;
    }

    /// Appends a row; fails, leaving the table unchanged, when the number of
    /// cells differs from the number of columns.
    pub fn push_row(&mut self, cells: Vec<Cell>) -> (r: Result<(), RowArityError>)
        requires
            old(self).wf(),
        ensures
            final(self).wf(),
            r is Ok <==> cells@.len() == old(self)@.weights.len(),
            r is Ok ==> final(self)@ == (TableModel {
                rows: old(self)@.rows.push(cells_m(cells@)),
                ..old(self)@
            }),
            r matches Err(e) ==> e == (RowArityError {
                expected: old(self)@.weights.len() as usize,
                found: cells@.len() as usize,
            }) && *final(self) == *old(self),
    {
        let expected = self.weights.len();
        let found = cells.len();
        if found != expected {
            return Err(RowArityError { expected, found });
        }
        let ghost old_rows = self.rows@;
        self.rows.push(Row { cells });
        assert(self@.rows =~= old(self)@.rows.push(cells_m(cells@)));
        Ok(())
    }

    /// The number of columns.
    pub fn column_count(&self) -> (r: usize)
        ensures
            r == self@.weights.len(),
    {
        self.weights.len()
    }

    /// The relative column widths.
    pub fn weights(&self) -> (r: &Vec<u8>)
        ensures
            r@ == self@.weights,
    {
        &self.weights
    }

    /// Whether grid borders are omitted.
    pub fn is_frameless(&self) -> (r: bool)
        ensures
            r == self@.frameless,
    {
        self.frameless
    }

    /// The number of rows.
    pub fn row_count(&self) -> (r: usize)
        ensures
            r == self@.rows.len(),
    {
        self.rows.len()
    }

    /// The row at `i`.
    pub fn row(&self, i: usize) -> (r: &Row)
        requires
            i < self@.rows.len(),
        ensures
            r@ == self@.rows[i as int],
    {
        &self.rows[i]
    }
}

} // verus!
