//! Delimited text tables, as the kernel writes them under `/proc`.
//!
//! Splitting a table into rows and fields, with quoting and line endings,
//! is the work of the `csv` crate. This module hands it the bytes and gets
//! back rows of strings.

use vstd::prelude::*;

verus! {

/// One row of a table: its fields, or `None` where the reader rejected the
/// row.
pub type Row = Option<Vec<String>>;

/// The rows that a `csv` reader yields for `data`: fields separated by
/// `delimiter`, no header row, every other setting at its default. A row
/// that the reader reports as an error (its fields are not UTF-8, or their
/// number differs from that of the first row) stands as `None`.
pub uninterp spec fn csv_rows(data: Seq<u8>, delimiter: u8) -> Seq<Option<Seq<Seq<char>>>>;

/// Reads `data` as a table with `csv::ReaderBuilder`, `delimiter` and
/// `has_headers(false)` set, and collects what the reader's record iterator
/// yields. Not proved: that the rows are those of [`csv_rows`], which names
/// the reader's result for these two arguments.
#[verifier::external_body]
pub(crate) fn read_rows(data: &[u8], delimiter: u8) -> (rows: Vec<Row>)
    ensures
        rows.deep_view() == csv_rows(data@, delimiter),
{
    let mut builder = csv::ReaderBuilder::new();
    builder.delimiter(delimiter).has_headers(false);
    let mut rows: Vec<Row> = Vec::new();
    for record in builder.from_reader(data).into_records() {
        rows.push(
            match record {
                Ok(fields) => Some(fields.iter().map(String::from).collect()),
                Err(_) => None,
            },
        );
    }
    rows
}

/// A field that may be left empty: `None` if it is.
pub open spec fn optional(text: Seq<char>) -> Option<Seq<char>> {
    if text.len() == 0 {
        None
    } else {
        Some(text)
    }
}

/// A copy of `text`, or `None` if it is empty.
pub fn optional_field(text: &String) -> (out: Option<String>)
    ensures
        out.deep_view() == optional(text@),
{
    if text.as_str().unicode_len() == 0 {
        None
    } else {
        Some(text.clone())
    }
}

} // verus!
