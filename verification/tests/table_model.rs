use iced_table::builder::{owned_row, referenced_row};
use iced_table::table::{own_row_generic, own_rows_generic};
use iced_table::Table;

fn texts(row: &[&str]) -> Vec<String> {
    row.iter().map(|cell| cell.to_string()).collect()
}

#[test]
fn default_table_has_no_rows() {
    let table = Table::default();
    assert!(table.rows.is_empty());
}

#[test]
fn new_puts_headers_first_and_counts_them_as_a_row() {
    let table = Table::new(
        vec!["Name", "Age"],
        vec![vec!["Ann", "30"], vec!["Bo", "41"]],
    );
    assert_eq!(table.rows.len(), 3);
    assert_eq!(table.rows[0], texts(&["Name", "Age"]));
    assert_eq!(table.rows[1], texts(&["Ann", "30"]));
    assert_eq!(table.rows[2], texts(&["Bo", "41"]));
}

#[test]
fn new_without_data_rows_has_one_row() {
    let table = Table::new(vec!["Only", "Headers"], vec![]);
    assert_eq!(table.rows.len(), 1);
    assert_eq!(table.rows[0], texts(&["Only", "Headers"]));
}

#[test]
fn new_with_empty_headers_keeps_an_empty_first_row() {
    let table = Table::new(Vec::<&str>::new(), vec![vec!["a"], vec!["b", "c"]]);
    assert_eq!(table.rows.len(), 3);
    assert!(table.rows[0].is_empty());
    assert_eq!(table.rows[1], texts(&["a"]));
    assert_eq!(table.rows[2], texts(&["b", "c"]));
}

#[test]
fn new_with_nothing_has_one_empty_row() {
    let table = Table::new(Vec::<String>::new(), Vec::new());
    assert_eq!(table.rows.len(), 1);
    assert!(table.rows[0].is_empty());
}

#[test]
fn new_renders_numbers() {
    let table = Table::new(vec![1, 2, 3], vec![vec![-4, 50], vec![600]]);
    assert_eq!(table.rows[0], texts(&["1", "2", "3"]));
    assert_eq!(table.rows[1], texts(&["-4", "50"]));
    assert_eq!(table.rows[2], texts(&["600"]));
}

#[test]
fn mutators_render_any_displayable_value() {
    let mut table = Table::default();
    table.add_row(vec![true, false]);
    table.add_row(vec![1.5f64, 0.25]);
    table.add_row(vec!['x', 'y']);
    table.add_row(vec![String::from("owned")]);
    table.add_headers(vec![7u8]);
    assert_eq!(table.rows.len(), 5);
    assert_eq!(table.rows[0], texts(&["7"]));
    assert_eq!(table.rows[1], texts(&["true", "false"]));
    assert_eq!(table.rows[2], texts(&["1.5", "0.25"]));
    assert_eq!(table.rows[3], texts(&["x", "y"]));
    assert_eq!(table.rows[4], texts(&["owned"]));
}

#[test]
fn add_headers_goes_in_front_of_what_is_there() {
    let mut table = Table::default();
    table.add_row(vec!["Ann", "30"]);
    table.add_row(vec!["Bo", "41"]);
    table.add_headers(vec!["Name", "Age"]);
    assert_eq!(table.rows.len(), 3);
    assert_eq!(table.rows[0], texts(&["Name", "Age"]));
    assert_eq!(table.rows[1], texts(&["Ann", "30"]));
    assert_eq!(table.rows[2], texts(&["Bo", "41"]));
}

#[test]
fn add_headers_on_an_empty_table_makes_the_only_row() {
    let mut table = Table::default();
    table.add_headers(vec!["Name"]);
    assert_eq!(table.rows, vec![texts(&["Name"])]);
}

#[test]
fn add_headers_twice_stacks_the_later_row_on_top() {
    let mut table = Table::new(vec!["old"], vec![vec!["data"]]);
    table.add_headers(vec!["first"]);
    table.add_headers(vec!["second"]);
    assert_eq!(table.rows.len(), 4);
    assert_eq!(table.rows[0], texts(&["second"]));
    assert_eq!(table.rows[1], texts(&["first"]));
    assert_eq!(table.rows[2], texts(&["old"]));
    assert_eq!(table.rows[3], texts(&["data"]));
}

#[test]
fn add_row_puts_each_row_behind_the_one_before() {
    let mut table = Table::new(vec!["h"], vec![vec!["a"]]);
    table.add_row(vec!["b"]);
    table.add_row(vec!["c"]);
    table.add_row(vec!["d"]);
    assert_eq!(
        table.rows,
        vec![texts(&["h"]), texts(&["a"]), texts(&["b"]), texts(&["c"]), texts(&["d"])]
    );
}

#[test]
fn add_rows_keeps_the_order_of_the_rows_given() {
    let mut table = Table::new(vec!["h"], vec![vec!["a"]]);
    table.add_rows(vec![vec!["b", "1"], vec!["c", "2"], vec!["d", "3"]]);
    table.add_row(vec!["e", "4"]);
    assert_eq!(
        table.rows,
        vec![
            texts(&["h"]),
            texts(&["a"]),
            texts(&["b", "1"]),
            texts(&["c", "2"]),
            texts(&["d", "3"]),
            texts(&["e", "4"]),
        ]
    );
}

#[test]
fn add_rows_with_no_rows_changes_nothing() {
    let mut table = Table::new(vec!["h"], vec![vec!["a"]]);
    table.add_rows(Vec::<Vec<&str>>::new());
    assert_eq!(table.rows, vec![texts(&["h"]), texts(&["a"])]);
}

#[test]
fn add_rows_is_the_same_as_adding_one_by_one() {
    let mut bulk = Table::default();
    bulk.add_rows(vec![vec![1, 2], vec![3], vec![]]);
    let mut single = Table::default();
    single.add_row(vec![1, 2]);
    single.add_row(vec![3]);
    single.add_row(Vec::<i32>::new());
    assert_eq!(bulk.rows, single.rows);
}

#[test]
fn new_is_the_same_as_filling_an_empty_table() {
    let made = Table::new(vec!["h1", "h2"], vec![vec!["a", "b"], vec!["c", "d"]]);
    let mut filled = Table::default();
    filled.add_headers(vec!["h1", "h2"]);
    filled.add_rows(vec![vec!["a", "b"], vec!["c", "d"]]);
    assert_eq!(made.rows, filled.rows);
}

#[test]
fn ragged_rows_are_kept_as_they_are() {
    let mut table = Table::new(vec!["a", "b"], vec![vec![], vec!["c", "d", "e"]]);
    table.add_row(vec!["f"]);
    let lengths: Vec<usize> = table.rows.iter().map(|row| row.len()).collect();
    assert_eq!(lengths, vec![2, 0, 3, 1]);
}

#[test]
fn cells_need_not_be_distinct() {
    let table = Table::new(vec!["x", "x"], vec![vec!["x", "x"], vec!["x", "x"]]);
    assert_eq!(table.rows, vec![texts(&["x", "x"]); 3]);
}

#[test]
fn from_text_puts_headers_first() {
    let table = Table::from_text(
        texts(&["Name", "Age"]),
        vec![texts(&["Ann", "30"]), texts(&["Bo", "41"])],
    );
    assert_eq!(
        table.rows,
        vec![texts(&["Name", "Age"]), texts(&["Ann", "30"]), texts(&["Bo", "41"])]
    );
}

#[test]
fn from_text_without_data_rows_has_one_row() {
    let table = Table::from_text(texts(&["h"]), Vec::new());
    assert_eq!(table.rows, vec![texts(&["h"])]);
}

#[test]
fn add_text_headers_goes_in_front() {
    let mut table = Table::from_text(texts(&["old"]), vec![texts(&["data"])]);
    table.add_text_headers(texts(&["first"]));
    table.add_text_headers(texts(&["second"]));
    assert_eq!(
        table.rows,
        vec![texts(&["second"]), texts(&["first"]), texts(&["old"]), texts(&["data"])]
    );
}

#[test]
fn add_text_row_goes_behind() {
    let mut table = Table::default();
    table.add_text_row(texts(&["a", "b"]));
    table.add_text_row(texts(&[]));
    table.add_text_row(texts(&["c"]));
    assert_eq!(table.rows, vec![texts(&["a", "b"]), texts(&[]), texts(&["c"])]);
}

#[test]
fn add_text_rows_goes_behind_in_order() {
    let mut table = Table::from_text(texts(&["h"]), Vec::new());
    table.add_text_rows(vec![texts(&["a"]), texts(&["b"])]);
    table.add_text_rows(Vec::new());
    table.add_text_rows(vec![texts(&["c"])]);
    assert_eq!(
        table.rows,
        vec![texts(&["h"]), texts(&["a"]), texts(&["b"]), texts(&["c"])]
    );
}

#[test]
fn clone_has_the_same_rows_and_shares_none() {
    let mut table = Table::new(vec!["h"], vec![vec!["a"]]);
    let copy = table.clone();
    table.add_row(vec!["b"]);
    assert_eq!(copy.rows, vec![texts(&["h"]), texts(&["a"])]);
    assert_eq!(table.rows.len(), 3);
}

#[test]
fn own_row_generic_renders_in_order() {
    assert_eq!(own_row_generic(vec![10u32, 2, 33]), texts(&["10", "2", "33"]));
    assert_eq!(own_row_generic(vec!["b", "a"]), texts(&["b", "a"]));
    assert!(own_row_generic(Vec::<bool>::new()).is_empty());
}

#[test]
fn own_rows_generic_renders_row_by_row() {
    assert_eq!(
        own_rows_generic(vec![vec![1, 2], vec![], vec![3]]),
        vec![texts(&["1", "2"]), texts(&[]), texts(&["3"])]
    );
    assert!(own_rows_generic(Vec::<Vec<char>>::new()).is_empty());
}

#[test]
fn owned_row_copies_every_text() {
    assert_eq!(owned_row(vec!["Ann", "", "30"]), texts(&["Ann", "", "30"]));
    assert!(owned_row(Vec::new()).is_empty());
}

#[test]
fn referenced_row_borrows_every_text() {
    let row = texts(&["Bo", "41", "\u{e9}t\u{e9}"]);
    assert_eq!(referenced_row(&row), vec!["Bo", "41", "\u{e9}t\u{e9}"]);
    assert!(referenced_row(&[]).is_empty());
}
