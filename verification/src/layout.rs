//! The layout of the widget tree that displays a table.
//!
//! A table is shown as a padded container around a column of rows; a row is a
//! line of cells; a cell is a bordered, padded container around one text
//! label. The types here describe that tree completely, so that a host
//! toolkit can turn it into its own widgets one for one. The host's colour
//! type `C` and width type `W` are carried through and never looked into.

use vstd::prelude::*;

verus! {

/// Text size of a cell when none is asked for.
pub const DEFAULT_TEXT_SIZE: u16 = 16;

/// Padding inside a cell, on all four sides, when none is asked for.
pub const DEFAULT_PADDING: u16 = 2;

/// The greatest height of a cell; taller content is clipped.
pub const CELL_MAX_HEIGHT: u16 = 22;

/// Width of the border drawn around a cell.
pub const CELL_BORDER_WIDTH: u16 = 1;

/// Padding between the outer container and the column of rows, on all four
/// sides.
pub const TABLE_PADDING: u16 = 10;

/// The colour of a cell's text and border.
#[derive(Debug, Clone, Copy, PartialEq)]
pub enum Ink<C> {
    /// Opaque black: red, green and blue all zero.
    Black,
    /// A colour of the host toolkit.
    Custom(C),
}

/// How a cell takes room along one axis.
#[derive(Debug, Clone, Copy, PartialEq, Eq)]
pub enum Extent {
    /// Takes an equal share of the room that is left.
    Fill,
    /// Takes no more room than its content needs.
    Shrink,
}

/// How wide the outer container is.
#[derive(Debug, Clone, Copy, PartialEq)]
pub enum Width<W> {
    /// As wide as its parent lets it be.
    Fill,
    /// Exactly this wide.
    Fixed(W),
}

/// How a cell is drawn.
#[derive(Debug, Clone, Copy, PartialEq)]
pub struct CellStyle<C> {
    pub text_color: Ink<C>,
    /// The fill behind the text; `None` leaves the cell unfilled.
    pub background: Option<Ink<C>>,
    pub border_color: Ink<C>,
    pub border_width: u16,
}

/// One cell: a text label inside a bordered, padded container.
#[derive(Debug, Clone, PartialEq)]
pub struct CellLayout<C> {
    pub text: String,
    pub text_size: u16,
    pub padding: u16,
    pub width: Extent,
    pub height: Extent,
    pub max_height: u16,
    pub style: CellStyle<C>,
}

/// A cell with its text as a sequence of characters.
pub struct CellView<C> {
    pub text: Seq<char>,
    pub text_size: u16,
    pub padding: u16,
    pub width: Extent,
    pub height: Extent,
    pub max_height: u16,
    pub style: CellStyle<C>,
}

impl<C> View for CellLayout<C> {
    type V = CellView<C>;

    open spec fn view(&self) -> CellView<C> {
        CellView {
            text: self.text@,
            text_size: self.text_size,
            padding: self.padding,
            width: self.width,
            height: self.height,
            max_height: self.max_height,
            style: self.style,
        }
    }
}

/// One row: its cells from left to right.
#[derive(Debug, Clone, PartialEq)]
pub struct RowLayout<C> {
    pub cells: Vec<CellLayout<C>>,
}

impl<C> View for RowLayout<C> {
    type V = Seq<CellView<C>>;

    open spec fn view(&self) -> Seq<CellView<C>> {
        Seq::new(self.cells@.len(), |j: int| self.cells@[j]@)
    }
}

/// The whole tree: the rows from top to bottom inside the outer container.
#[derive(Debug, Clone, PartialEq)]
pub struct TableLayout<C, W> {
    pub rows: Vec<RowLayout<C>>,
    pub padding: u16,
    pub width: Width<W>,
}

/// The whole tree with every row as a sequence of cell views.
pub struct TableLayoutView<C, W> {
    pub rows: Seq<Seq<CellView<C>>>,
    pub padding: u16,
    pub width: Width<W>,
}

impl<C, W> View for TableLayout<C, W> {
    type V = TableLayoutView<C, W>;

    open spec fn view(&self) -> TableLayoutView<C, W> {
        TableLayoutView {
            rows: Seq::new(self.rows@.len(), |i: int| self.rows@[i]@),
            padding: self.padding,
            width: self.width,
        }
    }
}

/// The colour used for a cell: the one asked for, black when none is.
pub open spec fn resolved_ink<C>(color: Option<C>) -> Ink<C> {
    match color {
        Some(c) => Ink::Custom(c),
        None => Ink::Black,
    }
}

/// The text size used for a cell: the one asked for, the default when none is.
pub open spec fn resolved_text_size(text_size: Option<u16>) -> u16 {
    match text_size {
        Some(size) => size,
        None => DEFAULT_TEXT_SIZE,
    }
}

/// The padding used inside a cell: the one asked for, the default when none is.
pub open spec fn resolved_padding(padding: Option<u16>) -> u16 {
    match padding {
        Some(p) => p,
        None => DEFAULT_PADDING,
    }
}

/// The width of the outer container: fixed to the width asked for, filling
/// when none is.
pub open spec fn resolved_width<W>(width: Option<W>) -> Width<W> {
    match width {
        Some(w) => Width::Fixed(w),
        None => Width::Fill,
    }
}

/// The style of a cell drawn in `ink`: text and border in that colour, the
/// border one unit wide, nothing behind the text.
pub open spec fn cell_style<C>(ink: Ink<C>) -> CellStyle<C> {
    CellStyle {
        text_color: ink,
        background: None,
        border_color: ink,
        border_width: CELL_BORDER_WIDTH,
    }
}

/// The cell that shows `text` under the given options.
pub open spec fn cell_layout<C>(
    text: Seq<char>,
    color: Option<C>,
    text_size: Option<u16>,
    padding: Option<u16>,
) -> CellView<C> {
    CellView {
        text,
        text_size: resolved_text_size(text_size),
        padding: resolved_padding(padding),
        width: Extent::Fill,
        height: Extent::Shrink,
        max_height: CELL_MAX_HEIGHT,
        style: cell_style(resolved_ink(color)),
    }
}

/// The row that shows `row` under the given options: one cell for each text,
/// in the same order.
pub open spec fn row_layout<C>(
    row: Seq<Seq<char>>,
    color: Option<C>,
    text_size: Option<u16>,
    padding: Option<u16>,
) -> Seq<CellView<C>> {
    Seq::new(row.len(), |j: int| cell_layout(row[j], color, text_size, padding))
}

/// The tree that shows `rows` under the given options: one row for each row
/// of the table, in the same order, inside the outer container.
pub open spec fn table_layout<C, W>(
    rows: Seq<Seq<Seq<char>>>,
    color: Option<C>,
    width: Option<W>,
    text_size: Option<u16>,
    padding: Option<u16>,
) -> TableLayoutView<C, W> {
    TableLayoutView {
        rows: Seq::new(rows.len(), |i: int| row_layout(rows[i], color, text_size, padding)),
        padding: TABLE_PADDING,
        width: resolved_width(width),
    }
}

/// The tree has one row for each row of the table and, in each, one cell
/// for each text, whatever the lengths of the rows are: nothing is added,
/// dropped or moved, and each cell carries the text it stands for.
pub proof fn lemma_layout_keeps_shape<C, W>(
    rows: Seq<Seq<Seq<char>>>,
    color: Option<C>,
    width: Option<W>,
    text_size: Option<u16>,
    padding: Option<u16>,
)
    ensures
        table_layout(rows, color, width, text_size, padding).rows.len() == rows.len(),
        forall|i: int|
            0 <= i < rows.len() ==> (#[trigger] table_layout(
                rows,
                color,
                width,
                text_size,
                padding,
            ).rows[i]).len() == rows[i].len(),
        forall|i: int, j: int|
            0 <= i < rows.len() && 0 <= j < rows[i].len() ==> (#[trigger] table_layout(
                rows,
                color,
                width,
                text_size,
                padding,
            ).rows[i][j]).text == rows[i][j],
{
}

/// Every cell of the tree is drawn with the options as they resolve once for
/// the whole table: text and border in the same colour, the border one unit
/// wide and nothing behind the text, the cell filling its share of the row,
/// shrinking to its content in height and never taller than the limit. The
/// outer container is padded by ten units and has the resolved width.
pub proof fn lemma_layout_styles_every_cell<C, W>(
    rows: Seq<Seq<Seq<char>>>,
    color: Option<C>,
    width: Option<W>,
    text_size: Option<u16>,
    padding: Option<u16>,
)
    ensures
        table_layout(rows, color, width, text_size, padding).padding == 10,
        table_layout(rows, color, width, text_size, padding).width == resolved_width(width),
        forall|i: int, j: int|
            0 <= i < rows.len() && 0 <= j < rows[i].len() ==> {
                let cell = #[trigger] table_layout(rows, color, width, text_size, padding).rows[i][j];
                &&& cell.text_size == resolved_text_size(text_size)
                &&& cell.padding == resolved_padding(padding)
                &&& cell.width == Extent::Fill
                &&& cell.height == Extent::Shrink
                &&& cell.max_height == 22
                &&& cell.style.text_color == resolved_ink(color)
                &&& cell.style.border_color == resolved_ink(color)
                &&& cell.style.border_width == 1
                &&& cell.style.background == None::<Ink<C>>
            },
{
}

/// With no option given, every cell has black text and a black border, text
/// of size 16 and a padding of 2, and the outer container fills the room it
/// is given. With only a width given, the outer container is exactly that
/// wide and the cells are as with no option given.
pub proof fn lemma_layout_defaults<C, W>(rows: Seq<Seq<Seq<char>>>, fixed: W)
    ensures
        table_layout::<C, W>(rows, None, None, None, None).width == Width::<W>::Fill,
        table_layout::<C, W>(rows, None, Some(fixed), None, None).width == Width::Fixed(fixed),
        table_layout::<C, W>(rows, None, Some(fixed), None, None).rows == table_layout::<C, W>(
            rows,
            None,
            None,
            None,
            None,
        ).rows,
        forall|i: int, j: int|
            0 <= i < rows.len() && 0 <= j < rows[i].len() ==> {
                let cell = #[trigger] table_layout::<C, W>(rows, None, None, None, None).rows[i][j];
                &&& cell.text_size == 16
                &&& cell.padding == 2
                &&& cell.style.text_color == Ink::<C>::Black
                &&& cell.style.border_color == Ink::<C>::Black
            },
{
}

/// The tree depends on nothing but the texts of the table and the options:
/// two layouts made from tables with the same texts under the same options
/// are the same tree.
pub proof fn lemma_build_is_repeatable<C, W>(
    first: TableLayout<C, W>,
    second: TableLayout<C, W>,
    rows: Seq<Seq<Seq<char>>>,
    color: Option<C>,
    width: Option<W>,
    text_size: Option<u16>,
    padding: Option<u16>,
)
    requires
        first@ == table_layout(rows, color, width, text_size, padding),
        second@ == table_layout(rows, color, width, text_size, padding),
    ensures
        first@ == second@,
        first@.rows.len() == second@.rows.len(),
        forall|i: int, j: int|
            0 <= i < first@.rows.len() && 0 <= j < first@.rows[i].len() ==> #[trigger] first@.rows[i][j]
                == second@.rows[i][j],
{
}

} // verus!
