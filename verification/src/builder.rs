//! Building the layout of a table from its rows and the style options.
//!
//! Building reads the table and the options and returns a new tree; it keeps
//! nothing between calls, and it cannot fail: every option has a default, and
//! empty tables, empty rows and rows of different lengths are laid out as
//! they are.

use crate::layout::{
    cell_layout, cell_style, resolved_ink, resolved_padding, resolved_text_size, row_layout,
    table_layout, CellLayout, CellStyle, Extent, Ink, RowLayout, TableLayout, Width,
    CELL_BORDER_WIDTH, CELL_MAX_HEIGHT, DEFAULT_PADDING, DEFAULT_TEXT_SIZE, TABLE_PADDING,
};
use crate::table::Table;
use vstd::prelude::*;

verus! {

broadcast use vstd::string::to_string_from_display_ensures_for_str;

/// The style of a cell drawn in `color`: text and border in that colour, the
/// border one unit wide, nothing behind the text.
pub fn table_theme<C: Copy>(color: Ink<C>) -> (style: CellStyle<C>)
    ensures
        style == cell_style(color),
{
    CellStyle {
        text_color: color,
        background: None,
        border_color: color,
        border_width: CELL_BORDER_WIDTH,
    }
}

/// An owned copy of every text of a row, in order.
pub fn owned_row(row: Vec<&str>) -> (texts: Vec<String>)
    ensures
        texts.deep_view() == row.deep_view(),
{
    let mut texts: Vec<String> = Vec::new();
    let mut i: usize = 0;
    while i < row.len()
        invariant
            i <= row.len(),
            texts@.len() == i,
            forall|k: int| 0 <= k < i ==> (#[trigger] texts@[k])@ == row@[k]@,
        decreases row.len() - i,
    {
        texts.push(row[i].to_string());
        i += 1;
    }
    texts
}

/// A borrowed view of every text of a row, in order.
pub fn referenced_row(row: &[String]) -> (cells: Vec<&str>)
    ensures
        cells.deep_view() == row.deep_view(),
{
    let mut cells: Vec<&str> = Vec::new();
    let mut i: usize = 0;
    while i < row.len()
        invariant
            i <= row.len(),
            cells@.len() == i,
            forall|k: int| 0 <= k < i ==> (#[trigger] cells@[k])@ == row@[k]@,
        decreases row.len() - i,
    {
        cells.push(row[i].as_str());
        i += 1;
    }
    cells
}

impl Table {
    /// The layout of the whole table under the given options.
    ///
    /// There is one row per row of the table, top to bottom, and in each one
    /// cell per text, left to right. A `color` of `None` draws text and
    /// borders in black, a `text_size` of `None` means
    /// [`DEFAULT_TEXT_SIZE`], a `padding` of `None` means
    /// [`DEFAULT_PADDING`]. A `width` fixes the outer container to exactly
    /// that width; without one the container fills the room it is given.
    pub fn build<C: Copy, W>(
        table_data: Table,
        color: Option<C>,
        width: Option<W>,
        text_size: Option<u16>,
        padding: Option<u16>,
    ) -> (layout: TableLayout<C, W>)
        ensures
            layout@ == table_layout(table_data@, color, width, text_size, padding),
            layout@.rows.len() == table_data@.len(),
            forall|i: int|
                0 <= i < table_data@.len() ==> (#[trigger] layout@.rows[i]).len()
                    == table_data@[i].len(),
            forall|i: int, j: int|
                0 <= i < table_data@.len() && 0 <= j < table_data@[i].len()
                    ==> #[trigger] layout@.rows[i][j] == cell_layout(
                    table_data@[i][j],
                    color,
                    text_size,
                    padding,
                ),
    {
        let mut table: Vec<RowLayout<C>> = Vec::new();
        let mut i: usize = 0;
        while i < table_data.rows.len()
            invariant
                i <= table_data.rows.len(),
                table@.len() == i,
                forall|k: int|
                    0 <= k < i ==> (#[trigger] table@[k])@ == row_layout(
                        table_data@[k],
                        color,
                        text_size,
                        padding,
                    ),
            decreases table_data.rows.len() - i,
        {
            let row = Table::with_row(
                referenced_row(table_data.rows[i].as_slice()),
                color,
                text_size,
                padding,
            );
            table.push(row);
            i += 1;
        }
        let layout = match width {
            Some(width) => TableLayout {
                rows: table,
                padding: TABLE_PADDING,
                width: Width::Fixed(width),
            },
            None => TableLayout { rows: table, padding: TABLE_PADDING, width: Width::Fill },
        };
        assert(layout@.rows =~= table_layout(
            table_data@,
            color,
            width,
            text_size,
            padding,
        ).rows);
        layout
    }

    /// The layout of one row under the given options: one cell per text of
    /// `rows`, left to right, each with the options resolved to their
    /// defaults where they are `None`.
    pub fn with_row<C: Copy>(
        rows: Vec<&str>,
        color: Option<C>,
        text_size: Option<u16>,
        padding: Option<u16>,
    ) -> (data_row: RowLayout<C>)
        ensures
            data_row@ == row_layout(rows.deep_view(), color, text_size, padding),
            data_row@.len() == rows@.len(),
    {
        let mut cells: Vec<CellLayout<C>> = Vec::new();
        let texts = owned_row(rows);

        let ink = match color {
            Some(color) => Ink::Custom(color),
            None => Ink::Black,
        };

        let size = text_size.unwrap_or(DEFAULT_TEXT_SIZE);

        let pad = padding.unwrap_or(DEFAULT_PADDING);

        let mut i: usize = 0;
        while i < texts.len()
            invariant
                i <= texts.len(),
                cells@.len() == i,
                texts.deep_view() == rows.deep_view(),
                ink == resolved_ink(color),
                size == resolved_text_size(text_size),
                pad == resolved_padding(padding),
                forall|k: int|
                    0 <= k < i ==> (#[trigger] cells@[k])@ == cell_layout(
                        rows.deep_view()[k],
                        color,
                        text_size,
                        padding,
                    ),
            decreases texts.len() - i,
        {
            cells.push(
                CellLayout {
                    text: texts[i].clone(),
                    text_size: size,
                    padding: pad,
                    width: Extent::Fill,
                    height: Extent::Shrink,
                    max_height: CELL_MAX_HEIGHT,
                    style: table_theme(ink),
                },
            );
            i += 1;
        }
        let data_row = RowLayout { cells };
        assert(data_row@ =~= row_layout(rows.deep_view(), color, text_size, padding));
        data_row
    }
}

} // verus!
