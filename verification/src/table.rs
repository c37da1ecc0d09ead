//! The table model: an ordered list of rows, each an ordered list of text cells.
//!
//! Rows are stored as text only. Values of any displayable type are accepted
//! by the mutators and rendered to text when they are inserted. Nothing is
//! checked about the number of cells per row: ragged rows are kept as they are.

use std::fmt::Display;
use vstd::prelude::*;
use vstd::string::to_string_from_display_ensures;

verus! {

/// Rows of text cells. When there is a header row it is the first one; only
/// its position tells it from the data rows.
#[derive(Debug)]
pub struct Table {
    pub rows: Vec<Vec<String>>,
}

impl View for Table {
    type V = Seq<Seq<Seq<char>>>;

    /// The text of every cell, row by row.
    open spec fn view(&self) -> Seq<Seq<Seq<char>>> {
        self.rows.deep_view()
    }
}

/// The rows of a table made from a header row followed by data rows.
pub open spec fn created(headers: Seq<Seq<char>>, rows: Seq<Seq<Seq<char>>>) -> Seq<
    Seq<Seq<char>>,
> {
    seq![headers] + rows
}

/// The rows after `headers` has been put in front of `rows`.
pub open spec fn prepended(rows: Seq<Seq<Seq<char>>>, headers: Seq<Seq<char>>) -> Seq<
    Seq<Seq<char>>,
> {
    rows.insert(0, headers)
}

/// The rows after `row` has been put behind `rows`.
pub open spec fn appended(rows: Seq<Seq<Seq<char>>>, row: Seq<Seq<char>>) -> Seq<Seq<Seq<char>>> {
    rows.push(row)
}

/// The rows after all of `more` have been put behind `rows`, in their order.
pub open spec fn extended(rows: Seq<Seq<Seq<char>>>, more: Seq<Seq<Seq<char>>>) -> Seq<
    Seq<Seq<char>>,
> {
    rows + more
}

/// A table made in one step has one row more than the data rows it was given:
/// the header row stands first and the data rows follow in their order. It is
/// the table that an empty one becomes when the header row is put in front
/// and the data rows are put behind.
pub proof fn lemma_created_rows(headers: Seq<Seq<char>>, rows: Seq<Seq<Seq<char>>>)
    ensures
        created(headers, rows).len() == 1 + rows.len(),
        created(headers, rows)[0] == headers,
        created(headers, rows).skip(1) == rows,
        created(headers, rows) == extended(prepended(Seq::empty(), headers), rows),
{
}

/// A header row put in front stands first whatever the table held, and what
/// the table held follows unchanged. After two such steps the later row
/// stands first and the earlier one second.
pub proof fn lemma_headers_stack(
    rows: Seq<Seq<Seq<char>>>,
    first: Seq<Seq<char>>,
    second: Seq<Seq<char>>,
)
    ensures
        prepended(rows, first)[0] == first,
        prepended(rows, first).skip(1) == rows,
        prepended(prepended(rows, first), second)[0] == second,
        prepended(prepended(rows, first), second)[1] == first,
        prepended(prepended(rows, first), second).skip(2) == rows,
{
}

/// A row put behind stands last, after everything the table held. Of two
/// rows put behind one after the other, the second follows the first
/// directly.
pub proof fn lemma_appended_rows_follow(
    rows: Seq<Seq<Seq<char>>>,
    first: Seq<Seq<char>>,
    second: Seq<Seq<char>>,
)
    ensures
        appended(rows, first).len() == rows.len() + 1,
        appended(rows, first).take(rows.len() as int) == rows,
        appended(rows, first).last() == first,
        appended(appended(rows, first), second) == rows + seq![first, second],
{
}

/// Rows put behind in bulk follow everything the table held and keep their
/// own order. Putting them behind in bulk gives the same table as putting
/// the first of them behind alone and then the others in bulk.
pub proof fn lemma_extended_keeps_order(rows: Seq<Seq<Seq<char>>>, more: Seq<Seq<Seq<char>>>)
    ensures
        extended(rows, more).len() == rows.len() + more.len(),
        extended(rows, more).take(rows.len() as int) == rows,
        extended(rows, more).skip(rows.len() as int) == more,
        forall|i: int|
            0 <= i < more.len() ==> #[trigger] extended(rows, more)[rows.len() + i] == more[i],
        more.len() > 0 ==> extended(rows, more) == extended(appended(rows, more[0]), more.skip(1)),
{
}

/// `text` is a rendering of `cell` through its `Display` implementation.
pub open spec fn shown_as<T: Display>(cell: T, text: Seq<char>) -> bool {
    exists|s: String| #[trigger] to_string_from_display_ensures::<T>(&cell, s) && s@ == text
}

/// `texts` holds, cell for cell and in the same order, a rendering of `cells`.
pub open spec fn row_shown<T: Display>(cells: Seq<T>, texts: Seq<Seq<char>>) -> bool {
    &&& texts.len() == cells.len()
    &&& forall|i: int| 0 <= i < cells.len() ==> shown_as(cells[i], #[trigger] texts[i])
}

/// `texts` holds, row for row and in the same order, a rendering of `rows`.
pub open spec fn rows_shown<T: Display>(rows: Seq<Vec<T>>, texts: Seq<Seq<Seq<char>>>) -> bool {
    &&& texts.len() == rows.len()
    &&& forall|i: int| 0 <= i < rows.len() ==> row_shown(rows[i]@, #[trigger] texts[i])
}

/// Renders every cell of a row to text, in order.
pub fn own_row_generic<T>(row: Vec<T>) -> (texts: Vec<String>) where T: Display
    ensures
        row_shown(row@, texts.deep_view()),
{
    let mut texts: Vec<String> = Vec::new();
    let mut i: usize = 0;
    while i < row.len()
        invariant
            i <= row.len(),
            texts@.len() == i,
            forall|k: int|
                0 <= k < i ==> to_string_from_display_ensures::<T>(&row@[k], #[trigger] texts@[k]),
        decreases row.len() - i,
    {
        texts.push(row[i].to_string());
        i += 1;
    }
    texts
}

/// Renders every row to text, keeping the order of the rows and of their cells.
pub fn own_rows_generic<T>(rows: Vec<Vec<T>>) -> (texts: Vec<Vec<String>>) where T: Display
    ensures
        rows_shown(rows@, texts.deep_view()),
{
    let mut texts: Vec<Vec<String>> = Vec::new();
    for row in it: rows.into_iter()
        invariant
            it.seq() == rows@,
            texts@.len() == it.index(),
            forall|k: int|
                0 <= k < it.index() ==> row_shown(rows@[k]@, #[trigger] texts@[k].deep_view()),
    {
        texts.push(own_row_generic(row));
    }
    texts
}

impl Clone for Table {
    /// A table with the same rows; the two share nothing afterwards.
    fn clone(&self) -> (table: Table)
        ensures
            table@ == self@,
    {
        Table { rows: self.rows.clone() }
    }
}

impl Default for Table {
    /// The empty table.
    fn default() -> (table: Table)
        ensures
            table@ == Seq::<Seq<Seq<char>>>::empty(),
    {
        Table { rows: Vec::new() }
    }
}

impl Table {
    /// A table whose first row renders `headers` and whose other rows render
    /// `rows`, in their order. An empty `rows` gives a table of one row.
    pub fn new<T>(headers: Vec<T>, rows: Vec<Vec<T>>) -> (table: Table) where T: Display
        ensures
            table@.len() == 1 + rows@.len(),
            row_shown(headers@, table@[0]),
            rows_shown(rows@, table@.skip(1)),
    {
        let headers = own_row_generic(headers);
        let rows = own_rows_generic(rows);
        Table::from_text(headers, rows)
    }

    /// Renders `headers` and puts the new row in front of all rows. Rows that
    /// were there, an earlier header row among them, move down by one.
    pub fn add_headers<T>(&mut self, headers: Vec<T>) where T: Display
        ensures
            row_shown(headers@, final(self)@[0]),
            final(self)@ == prepended(old(self)@, final(self)@[0]),
    {
        self.add_text_headers(own_row_generic(headers));
    }

    /// Renders `row` and puts the new row behind all rows.
    pub fn add_row<T>(&mut self, row: Vec<T>) where T: Display
        ensures
            row_shown(row@, final(self)@.last()),
            final(self)@ == appended(old(self)@, final(self)@.last()),
    {
        self.add_text_row(own_row_generic(row));
    }

    /// Renders every row of `rows` and puts the new rows behind all rows, in
    /// their order.
    pub fn add_rows<T>(&mut self, rows: Vec<Vec<T>>) where T: Display
        ensures
            rows_shown(rows@, final(self)@.skip(old(self)@.len() as int)),
            final(self)@ == extended(old(self)@, final(self)@.skip(old(self)@.len() as int)),
    {
        self.add_text_rows(own_rows_generic(rows));
    }

    /// A table whose first row is `headers` and whose other rows are `rows`,
    /// in their order.
    pub fn from_text(headers: Vec<String>, rows: Vec<Vec<String>>) -> (table: Table)
        ensures
            table@ == created(headers.deep_view(), rows.deep_view()),
    {
        let mut table = Table { rows: rows };
        table.add_text_headers(headers);
        table
    }

    /// Puts `headers` in front of all rows.
    pub fn add_text_headers(&mut self, headers: Vec<String>)
        ensures
            final(self)@ == prepended(old(self)@, headers.deep_view()),
    {
        self.rows.insert(0, headers);
    }

    /// Puts `row` behind all rows.
    pub fn add_text_row(&mut self, row: Vec<String>)
        ensures
            final(self)@ == appended(old(self)@, row.deep_view()),
    {
        self.rows.push(row);
    }

    /// Puts every row of `rows` behind all rows, in their order.
    pub fn add_text_rows(&mut self, rows: Vec<Vec<String>>)
        ensures
            final(self)@ == extended(old(self)@, rows.deep_view()),
    {
        let mut rows = rows;
        self.rows.append(&mut rows);
    }
}

} // verus!
