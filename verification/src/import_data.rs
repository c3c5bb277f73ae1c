//! The tables that the import probes load.
use vstd::prelude::*;
use vstd::string::*;

use crate::import::{
    cell_view, row_view, rows_view, ImportCell, ImportedModel, ImportedTable, TableColumnDetail,
};
use crate::text::{count_text, decimal, views};

verus! {

fn pair(a: &str, b: &str) -> (r: Vec<ImportCell>)
    ensures
        row_view(r@) == seq![Some(a@), Some(b@)],
{
    let out = vec![Some(a.to_owned()), Some(b.to_owned())];
    assert(row_view(out@) =~= seq![Some(a@), Some(b@)]);
    out
}

fn single(a: &str) -> (r: Vec<ImportCell>)
    ensures
        row_view(r@) == seq![Some(a@)],
{
    let out = vec![Some(a.to_owned())];
    assert(row_view(out@) =~= seq![Some(a@)]);
    out
}

/// A table of one row.
fn one_row(columns: Vec<String>, row: Vec<ImportCell>) -> (r: ImportedTable)
    ensures
        r@ == (ImportedModel { columns: views(columns@), rows: seq![row_view(row@)] }),
{
    let ghost cells = row_view(row@);
    let out = ImportedTable { columns, rows: vec![row] };
    assert(rows_view(out.rows@) =~= seq![cells]);
    out
}

fn two_columns(a: &str, b: &str) -> (r: Vec<String>)
    ensures
        views(r@) == seq![a@, b@],
{
    let out = vec![a.to_owned(), b.to_owned()];
    assert(views(out@) =~= seq![a@, b@]);
    out
}

fn one_column(a: &str) -> (r: Vec<String>)
    ensures
        views(r@) == seq![a@],
{
    let out = vec![a.to_owned()];
    assert(views(out@) =~= seq![a@]);
    out
}

/// A headerless file of two values.
pub open spec fn headerless_model() -> ImportedModel {
    ImportedModel {
        columns: seq!["COLUMN_1"@, "COLUMN_2"@],
        rows: seq![seq![Some("100"@), Some("300"@)]],
    }
}

pub fn headerless() -> (r: ImportedTable)
    ensures
        r@ == headerless_model(),
{
    one_row(two_columns("COLUMN_1", "COLUMN_2"), pair("100", "300"))
}

/// A file with one column `A` and one value.
pub open spec fn one_a_model() -> ImportedModel {
    ImportedModel { columns: seq!["A"@], rows: seq![seq![Some("1"@)]] }
}

pub fn one_a() -> (r: ImportedTable)
    ensures
        r@ == one_a_model(),
{
    one_row(one_column("A"), single("1"))
}

/// A file with one column `B` and one value.
pub open spec fn one_b_model(value: Seq<char>) -> ImportedModel {
    ImportedModel { columns: seq!["B"@], rows: seq![seq![Some(value)]] }
}

pub fn one_b(value: &str) -> (r: ImportedTable)
    ensures
        r@ == one_b_model(value@),
{
    one_row(one_column("B"), single(value))
}

/// A cell that would end its statement and start one of its own.
pub open spec fn payload(victim: Seq<char>) -> Seq<char> {
    "41')) SELECT * FROM DUAL; DROP TABLE "@ + victim + "; --"@
}

pub open spec fn injection_model(victim: Seq<char>) -> ImportedModel {
    ImportedModel {
        columns: seq!["SEQ"@, "B"@],
        rows: seq![seq![Some("1"@), Some(payload(victim))]],
    }
}

pub fn injection(victim: &str) -> (r: ImportedTable)
    ensures
        r@ == injection_model(victim@),
{
    let mut cell = "41')) SELECT * FROM DUAL; DROP TABLE ".to_owned();
    cell.append(victim);
    cell.append("; --");
    one_row(two_columns("SEQ", "B"), pair("1", cell.as_str()))
}

/// One value with a backslash in it.
pub open spec fn backslash_model(seq: Seq<char>) -> ImportedModel {
    ImportedModel { columns: seq!["SEQ"@, "V"@], rows: seq![seq![Some(seq), Some("a\\b"@)]] }
}

pub fn backslash(seq: &str) -> (r: ImportedTable)
    ensures
        r@ == backslash_model(seq@),
{
    one_row(two_columns("SEQ", "V"), pair(seq, "a\\b"))
}

/// Rows numbered from one, each saying which it is.
pub open spec fn numbered_row(i: int) -> Seq<Option<Seq<char>>> {
    seq![Some(decimal(i + 1)), Some("row "@ + decimal(i + 1))]
}

pub open spec fn numbered_model(count: int) -> ImportedModel {
    ImportedModel {
        columns: seq!["SEQ"@, "V"@],
        rows: Seq::new(count as nat, |i: int| numbered_row(i)),
    }
}

pub fn numbered(count: usize) -> (r: ImportedTable)
    ensures
        r@ == numbered_model(count as int),
{
    let mut rows: Vec<Vec<ImportCell>> = Vec::new();
    let mut i: usize = 0;
    while i < count
        invariant
            i <= count,
            rows@.len() == i,
            forall|k: int| 0 <= k < i ==> row_view((#[trigger] rows@[k])@) == numbered_row(k),
        decreases count - i,
    {
        let number = count_text(i + 1);
        let mut text = "row ".to_owned();
        text.append(number.as_str());
        rows.push(pair(number.as_str(), text.as_str()));
        i += 1;
    }
    assert(rows_view(rows@) =~= Seq::new(count as nat, |i: int| numbered_row(i)));
    ImportedTable { columns: two_columns("SEQ", "V"), rows }
}

/// The length of a document-sized value, before its tail.
pub const VALUE_WIDTH: usize = 200_000;

/// The end of a document-sized value: what has to survive being cut.
pub const HOSTILE_TAIL: &'static str = "it's & \\ done";

pub open spec fn xs(n: nat) -> Seq<char> {
    Seq::new(n, |i: int| 'x')
}

pub open spec fn document_row(i: int) -> Seq<Option<Seq<char>>> {
    seq![Some(decimal(i)), Some(xs(VALUE_WIDTH as nat) + HOSTILE_TAIL@)]
}

/// Rows of a document-sized column, numbered from zero.
pub open spec fn documents_model(count: int) -> ImportedModel {
    ImportedModel {
        columns: seq!["SEQ"@, "V"@],
        rows: Seq::new(count as nat, |i: int| document_row(i)),
    }
}

fn xs_text(n: usize) -> (r: String)
    ensures
        r@ == xs(n as nat),
{
    let mut out = String::new();
    let mut i: usize = 0;
    while i < n
        invariant
            i <= n,
            out@ == xs(i as nat),
        decreases n - i,
    {
        out.push('x');
        i += 1;
        assert(out@ =~= xs(i as nat));
    }
    out
}

pub fn documents(count: usize) -> (r: ImportedTable)
    ensures
        r@ == documents_model(count as int),
{
    let mut value = xs_text(VALUE_WIDTH);
    value.append(HOSTILE_TAIL);
    let mut rows: Vec<Vec<ImportCell>> = Vec::new();
    let mut i: usize = 0;
    while i < count
        invariant
            i <= count,
            value@ == xs(VALUE_WIDTH as nat) + HOSTILE_TAIL@,
            rows@.len() == i,
            forall|k: int| 0 <= k < i ==> row_view((#[trigger] rows@[k])@) == document_row(k),
        decreases count - i,
    {
        rows.push(pair(count_text(i).as_str(), value.as_str()));
        i += 1;
    }
    assert(rows_view(rows@) =~= Seq::new(count as nat, |i: int| document_row(i)));
    ImportedTable { columns: two_columns("SEQ", "V"), rows }
}

/// The names of a table's columns.
pub open spec fn names(columns: Seq<TableColumnDetail>) -> Seq<Seq<char>> {
    Seq::new(columns.len(), |i: int| columns[i].name@)
}

pub fn names_of(columns: &Vec<TableColumnDetail>) -> (r: Vec<String>)
    ensures
        views(r@) == names(columns@),
{
    let mut out: Vec<String> = Vec::new();
    let mut i: usize = 0;
    while i < columns.len()
        invariant
            i <= columns@.len(),
            out@.len() == i,
            forall|k: int| 0 <= k < i ==> (#[trigger] out@[k])@ == columns@[k].name@,
        decreases columns@.len() - i,
    {
        out.push(columns[i].name.clone());
        i += 1;
    }
    assert(views(out@) =~= names(columns@));
    out
}

/// A row with the same value in every column.
pub open spec fn sevens_model(columns: Seq<TableColumnDetail>, value: Seq<char>) -> ImportedModel {
    ImportedModel {
        columns: names(columns),
        rows: seq![Seq::new(columns.len(), |i: int| Some(value))],
    }
}

pub fn sevens(columns: &Vec<TableColumnDetail>, value: &str) -> (r: ImportedTable)
    ensures
        r@ == sevens_model(columns@, value@),
{
    let mut row: Vec<ImportCell> = Vec::new();
    let mut i: usize = 0;
    while i < columns.len()
        invariant
            i <= columns@.len(),
            row@.len() == i,
            forall|k: int| 0 <= k < i ==> cell_view(#[trigger] row@[k]) == Some(value@),
        decreases columns@.len() - i,
    {
        row.push(Some(value.to_owned()));
        i += 1;
    }
    assert(row_view(row@) =~= Seq::new(columns@.len(), |i: int| Some(value@)));
    one_row(names_of(columns), row)
}

pub open spec fn positional_name(i: int) -> Seq<char> {
    "COLUMN_"@ + decimal(i + 1)
}

/// A headerless row of hundreds: the value in each column is a hundred times
/// its position, counted from one.
pub open spec fn hundreds_model(count: int) -> ImportedModel {
    ImportedModel {
        columns: Seq::new(count as nat, |i: int| positional_name(i)),
        rows: seq![Seq::new(count as nat, |i: int| Some(decimal((i + 1) * 100)))],
    }
}

pub fn hundreds(count: usize) -> (r: ImportedTable)
    requires
        count * 100 <= usize::MAX,
    ensures
        r@ == hundreds_model(count as int),
{
    let mut columns: Vec<String> = Vec::new();
    let mut row: Vec<ImportCell> = Vec::new();
    let mut i: usize = 0;
    while i < count
        invariant
            i <= count,
            count * 100 <= usize::MAX,
            columns@.len() == i,
            row@.len() == i,
            forall|k: int| 0 <= k < i ==> (#[trigger] columns@[k])@ == positional_name(k),
            forall|k: int|
                0 <= k < i ==> cell_view(#[trigger] row@[k]) == Some(decimal((k + 1) * 100)),
        decreases count - i,
    {
        let mut name = "COLUMN_".to_owned();
        name.append(count_text(i + 1).as_str());
        columns.push(name);
        row.push(Some(count_text((i + 1) * 100)));
        i += 1;
    }
    assert(views(columns@) =~= Seq::new(count as nat, |i: int| positional_name(i)));
    assert(row_view(row@) =~= Seq::new(count as nat, |i: int| Some(decimal((i + 1) * 100))));
    one_row(columns, row)
}

/// Values that a file of SQL has to write with care: backslashes, quotes,
/// ampersands, wildcards and control characters.
pub const HOSTILE_VALUES: [&'static str; 6] = [
    "ends with a backslash \\",
    "before a quote a\\'b",
    "R&D and &&both",
    "windows C:\\path\\",
    "like wildcards a\\%b and a\\_b",
    "control a\u{1A}b and a\u{8}c",
];

pub open spec fn hostile_row(i: int) -> Seq<Option<Seq<char>>> {
    seq![Some(decimal(i + 1)), Some(HOSTILE_VALUES@[i]@)]
}

pub open spec fn hostile_rows_model() -> Seq<Seq<Option<Seq<char>>>> {
    Seq::new(6, |i: int| hostile_row(i))
}

/// The hostile values as the rows of a grid, numbered from one.
pub fn hostile_rows() -> (r: Vec<Vec<ImportCell>>)
    ensures
        rows_view(r@) == hostile_rows_model(),
{
    let mut rows: Vec<Vec<ImportCell>> = Vec::new();
    let mut i: usize = 0;
    while i < 6
        invariant
            i <= 6,
            rows@.len() == i,
            forall|k: int| 0 <= k < i ==> row_view((#[trigger] rows@[k])@) == hostile_row(k),
        decreases 6 - i,
    {
        rows.push(pair(count_text(i + 1).as_str(), HOSTILE_VALUES[i]));
        i += 1;
    }
    assert(rows_view(rows@) =~= hostile_rows_model());
    rows
}

} // verus!
