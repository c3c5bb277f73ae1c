//! Imported tables: cells that may be absent, what a file must give back for
//! the rows of a grid, and the tables that the import probes load.
use vstd::prelude::*;
use vstd::string::*;
use vstd::utf8::*;

use crate::grid::table;
use crate::progress::SqlValueKind;
use crate::text::{
    chars_of, is_digit, same, same_but_case, same_ignoring_case, text_of, trim_end, trimmed_end,
    views,
};

verus! {

/// How a grid shows SQL NULL.
pub const NULL_TEXT: &'static str = "NULL";

/// A cell of an import file; absent for SQL NULL.
pub type ImportCell = Option<String>;

pub open spec fn cell_view(cell: ImportCell) -> Option<Seq<char>> {
    match cell {
        Some(text) => Some(text@),
        None => None,
    }
}

pub open spec fn row_view(row: Seq<ImportCell>) -> Seq<Option<Seq<char>>> {
    Seq::new(row.len(), |i: int| cell_view(row[i]))
}

pub open spec fn rows_view(rows: Seq<Vec<ImportCell>>) -> Seq<Seq<Option<Seq<char>>>> {
    Seq::new(rows.len(), |i: int| row_view(rows[i]@))
}

/// What an import reads from a file.
#[derive(Debug)]
pub struct ImportedTable {
    pub columns: Vec<String>,
    pub rows: Vec<Vec<ImportCell>>,
}

/// An imported table as sequences.
#[verifier::ext_equal]
pub struct ImportedModel {
    pub columns: Seq<Seq<char>>,
    pub rows: Seq<Seq<Option<Seq<char>>>>,
}

impl View for ImportedTable {
    type V = ImportedModel;

    open spec fn view(&self) -> ImportedModel {
        ImportedModel { columns: views(self.columns@), rows: rows_view(self.rows@) }
    }
}

/// A column as the catalog describes it.
#[derive(Debug)]
pub struct TableColumnDetail {
    pub name: String,
    pub is_generated: bool,
    pub is_invisible: bool,
}

/// The columns an import offers, and those the server computes.
#[derive(Debug)]
pub struct ImportTargets {
    pub writable: Vec<String>,
    pub generated: Vec<String>,
}

/// How a column's values are written as literals, row by row: once by its
/// declared type, once by the type the driver reported.
#[derive(Debug)]
pub struct LiteralColumn {
    pub name: String,
    pub by_catalog: Vec<String>,
    pub by_driver: Vec<String>,
}

/// What the object browser reads of a table: the catalog's columns, and the
/// columns and rows of the query, with the cells that are the driver's own NULL.
#[derive(Debug)]
pub struct ExportRead {
    pub catalog: Vec<String>,
    pub columns: Vec<String>,
    pub rows: Vec<Vec<String>>,
    pub nulls: Vec<Vec<bool>>,
}

/// Whether the grid's text for a cell means SQL NULL.
pub open spec fn null_text(value: Seq<char>) -> bool {
    value.len() == 0 || same_ignoring_case(value, NULL_TEXT@)
}

/// Whether the grid's text for a cell means SQL NULL.
pub fn is_null(value: &str) -> (r: bool)
    ensures
        r == null_text(value@),
{
    value.is_empty() || same_but_case(value, NULL_TEXT)
}

/// A sign, two digits, a colon and two digits.
pub open spec fn zone(s: Seq<char>) -> bool {
    &&& s.len() == 6
    &&& s[0] == '+' || s[0] == '-'
    &&& is_digit(s[1])
    &&& is_digit(s[2])
    &&& s[3] == ':'
    &&& is_digit(s[4])
    &&& is_digit(s[5])
}

/// A text that ends in blanks and a zone offset, without those blanks; any other
/// text as it is.
pub open spec fn zone_joined(s: Seq<char>) -> Seq<char> {
    let n = s.len() - 6;
    if n >= 1 && zone(s.skip(n)) && s[n - 1] == ' ' {
        trim_end(s.take(n)) + s.skip(n)
    } else {
        s
    }
}

/// The last six bytes of a text of seven or more start a character.
pub open spec fn six_bytes_apart(s: Seq<char>) -> bool {
    encode_utf8(s).len() >= 7 ==> is_char_boundary(
        encode_utf8(s),
        encode_utf8(s).len() - 6,
    )
}

fn is_zone_digit(c: char) -> (r: bool)
    ensures
        r == is_digit(c),
{
    '0' <= c && c <= '9'
}

pub fn join_zone(s: &str) -> (r: String)
    ensures
        r@ == zone_joined(s@),
{
    let x = chars_of(s);
    let size: usize = x.len();
    if size >= 7 {
        let n: usize = size - 6;
        let ghost tail = x@.skip(n as int);
        let shaped = (x[n] == '+' || x[n] == '-') && is_zone_digit(x[n + 1]) && is_zone_digit(
            x[n + 2],
        ) && x[n + 3] == ':' && is_zone_digit(x[n + 4]) && is_zone_digit(x[n + 5]);
        assert(shaped == zone(tail));
        if shaped && x[n - 1] == ' ' {
            let head = text_of(&x, 0, n);
            let end = text_of(&x, n, size);
            assert(head@ =~= s@.take(n as int));
            assert(end@ =~= s@.skip(n as int));
            let mut out = trimmed_end(head.as_str());
            out.append(end.as_str());
            return out;
        }
    }
    s.to_owned()
}

/// Collapses the blanks between a timestamp and its zone offset. A text of
/// seven bytes or more must be splittable six bytes before its end.
pub fn normalize_zone_space(cell: &ImportCell) -> (r: ImportCell)
    requires
        *cell matches Some(text) ==> six_bytes_apart(text@),
    ensures
        r is Some <==> *cell is Some,
        r matches Some(text) ==> text@ == zone_joined((*cell)->0@),
{
    match cell {
        Some(text) => Some(join_zone(text.as_str())),
        None => None,
    }
}

proof fn lemma_trim_end_shape(s: Seq<char>)
    ensures
        trim_end(s).len() <= s.len(),
        trim_end(s) == s.take(trim_end(s).len() as int),
        trim_end(s).len() > 0 ==> !crate::text::white_space(trim_end(s).last()),
    decreases s.len(),
{
    if s.len() > 0 && crate::text::white_space(s.last()) {
        lemma_trim_end_shape(s.drop_last());
        assert(s.drop_last().take(trim_end(s).len() as int) =~= s.take(trim_end(s).len() as int));
    } else {
        assert(s.take(s.len() as int) =~= s);
    }
}

/// Joining a zone offset twice is joining it once.
pub proof fn zone_joining_is_idempotent(s: Seq<char>)
    ensures
        zone_joined(zone_joined(s)) == zone_joined(s),
{
    let n = s.len() - 6;
    if n >= 1 && zone(s.skip(n)) && s[n - 1] == ' ' {
        let head = trim_end(s.take(n));
        let joined = head + s.skip(n);
        lemma_trim_end_shape(s.take(n));
        let m = joined.len() - 6;
        assert(m == head.len());
        assert(joined.skip(m) =~= s.skip(n));
        if m >= 1 {
            assert(joined[m - 1] == head.last());
        }
    }
}

/// A text that does not end in a blank, and a zone offset: with a blank between
/// them or without one, they are joined to the same text.
pub proof fn a_zone_is_joined_either_way(head: Seq<char>, offset: Seq<char>)
    requires
        trim_end(head) == head,
        zone(offset),
    ensures
        zone_joined(head + " "@ + offset) == head + offset,
        zone_joined(head + offset) == head + offset,
{
    reveal_strlit(" ");
    let apart = head + " "@ + offset;
    let n = apart.len() - 6;
    assert(apart.skip(n) =~= offset);
    assert(apart.take(n) =~= head.push(' '));
    assert(apart[n - 1] == ' ');
    assert(head.push(' ').drop_last() =~= head);
    assert(crate::text::white_space(' '));
    assert(trim_end(head.push(' ')) == trim_end(head));
    let close = head + offset;
    let m = close.len() - 6;
    assert(close.skip(m) =~= offset);
    if m >= 1 {
        assert(close[m - 1] == head.last());
        lemma_trim_end_shape(head);
        assert(!crate::text::white_space(head.last()));
    }
}

/// What a file must give back for a cell of the grid.
pub open spec fn expected_cell(value: Seq<char>) -> Option<Seq<char>> {
    if null_text(value) { None } else { Some(zone_joined(value)) }
}

pub open spec fn expected_table(t: Seq<Seq<Seq<char>>>) -> Seq<Seq<Option<Seq<char>>>> {
    Seq::new(t.len(), |i: int| Seq::new(t[i].len(), |j: int| expected_cell(t[i][j])))
}

fn expected_row(row: &Vec<String>) -> (r: Vec<ImportCell>)
    ensures
        row_view(r@) == Seq::new(row@.len(), |j: int| expected_cell(row@[j]@)),
{
    let mut out: Vec<ImportCell> = Vec::new();
    let mut i: usize = 0;
    while i < row.len()
        invariant
            i <= row@.len(),
            out@.len() == i,
            forall|k: int|
                0 <= k < i ==> cell_view(#[trigger] out@[k]) == expected_cell(row@[k]@),
        decreases row@.len() - i,
    {
        if is_null(row[i].as_str()) {
            out.push(None);
        } else {
            out.push(Some(join_zone(row[i].as_str())));
        }
        i += 1;
    }
    assert(row_view(out@) =~= Seq::new(row@.len(), |j: int| expected_cell(row@[j]@)));
    out
}

/// What every format must give back for the source rows.
pub fn expected_cells(rows: &Vec<Vec<String>>) -> (r: Vec<Vec<ImportCell>>)
    ensures
        rows_view(r@) == expected_table(table(rows@)),
{
    let mut out: Vec<Vec<ImportCell>> = Vec::new();
    let mut i: usize = 0;
    while i < rows.len()
        invariant
            i <= rows@.len(),
            out@.len() == i,
            forall|k: int|
                0 <= k < i ==> row_view((#[trigger] out@[k])@) == expected_table(table(rows@))[k],
        decreases rows@.len() - i,
    {
        let row = expected_row(&rows[i]);
        assert(row_view(row@) =~= expected_table(table(rows@))[i as int]);
        out.push(row);
        i += 1;
    }
    assert(rows_view(out@) =~= expected_table(table(rows@)));
    out
}

/// Cells with their zone offsets joined.
pub open spec fn joined_rows(rows: Seq<Seq<Option<Seq<char>>>>) -> Seq<Seq<Option<Seq<char>>>> {
    Seq::new(
        rows.len(),
        |i: int|
            Seq::new(
                rows[i].len(),
                |j: int|
                    match rows[i][j] {
                        Some(text) => Some(zone_joined(text)),
                        None => None,
                    },
            ),
    )
}

pub fn join_rows(rows: &Vec<Vec<ImportCell>>) -> (r: Vec<Vec<ImportCell>>)
    ensures
        rows_view(r@) == joined_rows(rows_view(rows@)),
{
    let ghost wanted = joined_rows(rows_view(rows@));
    let mut out: Vec<Vec<ImportCell>> = Vec::new();
    let mut i: usize = 0;
    while i < rows.len()
        invariant
            i <= rows@.len(),
            out@.len() == i,
            wanted == joined_rows(rows_view(rows@)),
            forall|k: int| 0 <= k < i ==> row_view((#[trigger] out@[k])@) == wanted[k],
        decreases rows@.len() - i,
    {
        let row = &rows[i];
        let mut cells: Vec<ImportCell> = Vec::new();
        let mut j: usize = 0;
        while j < row.len()
            invariant
                j <= row@.len(),
                cells@.len() == j,
                i < rows@.len(),
                *row == rows@[i as int],
                wanted == joined_rows(rows_view(rows@)),
                forall|k: int| 0 <= k < j ==> cell_view(#[trigger] cells@[k]) == wanted[i as int][k],
            decreases row@.len() - j,
        {
            match &row[j] {
                Some(text) => cells.push(Some(join_zone(text.as_str()))),
                None => cells.push(None),
            }
            j += 1;
        }
        assert(row_view(cells@) =~= wanted[i as int]);
        out.push(cells);
        i += 1;
    }
    assert(rows_view(out@) =~= wanted);
    out
}

fn same_cell(a: &ImportCell, b: &ImportCell) -> (r: bool)
    ensures
        r == (cell_view(*a) == cell_view(*b)),
{
    match (a, b) {
        (Some(x), Some(y)) => same(x.as_str(), y.as_str()),
        (None, None) => true,
        _ => false,
    }
}

/// Whether two lists of rows hold the same cells.
pub fn same_rows(a: &Vec<Vec<ImportCell>>, b: &Vec<Vec<ImportCell>>) -> (r: bool)
    ensures
        r == (rows_view(a@) == rows_view(b@)),
{
    assert(rows_view(a@).len() == a@.len());
    assert(rows_view(b@).len() == b@.len());
    if a.len() != b.len() {
        return false;
    }
    let mut i: usize = 0;
    while i < a.len()
        invariant
            i <= a@.len() == b@.len(),
            forall|k: int| 0 <= k < i ==> row_view(a@[k]@) == row_view((#[trigger] b@[k])@),
        decreases a@.len() - i,
    {
        let x = &a[i];
        let y = &b[i];
        assert(rows_view(a@)[i as int] == row_view(x@));
        assert(rows_view(b@)[i as int] == row_view(y@));
        assert(row_view(x@).len() == x@.len());
        assert(row_view(y@).len() == y@.len());
        if x.len() != y.len() {
            return false;
        }
        let mut j: usize = 0;
        while j < x.len()
            invariant
                j <= x@.len() == y@.len(),
                i < a@.len() == b@.len(),
                *x == a@[i as int],
                *y == b@[i as int],
                rows_view(a@)[i as int] == row_view(x@),
                rows_view(b@)[i as int] == row_view(y@),
                forall|k: int| 0 <= k < j ==> cell_view(x@[k]) == cell_view(#[trigger] y@[k]),
            decreases x@.len() - j,
        {
            if !same_cell(&x[j], &y[j]) {
                assert(row_view(x@)[j as int] != row_view(y@)[j as int]);
                return false;
            }
            j += 1;
        }
        assert(row_view(x@) =~= row_view(y@));
        i += 1;
    }
    assert(rows_view(a@) =~= rows_view(b@));
    true
}

/// The snapshot of a grid that an export writes: a cell that shows the NULL text
/// is absent.
#[derive(Debug)]
pub struct ExportGrid {
    pub columns: Vec<String>,
    pub column_kinds: Vec<SqlValueKind>,
    pub rows: Vec<Vec<ImportCell>>,
    pub null_text: String,
}

pub open spec fn snapshot_table(t: Seq<Seq<Seq<char>>>) -> Seq<Seq<Option<Seq<char>>>> {
    Seq::new(
        t.len(),
        |i: int|
            Seq::new(t[i].len(), |j: int| if t[i][j] == NULL_TEXT@ { None } else { Some(t[i][j]) }),
    )
}

fn snapshot_rows(rows: &Vec<Vec<String>>) -> (r: Vec<Vec<ImportCell>>)
    ensures
        rows_view(r@) == snapshot_table(table(rows@)),
{
    let ghost wanted = snapshot_table(table(rows@));
    let mut out: Vec<Vec<ImportCell>> = Vec::new();
    let mut i: usize = 0;
    while i < rows.len()
        invariant
            i <= rows@.len(),
            out@.len() == i,
            wanted == snapshot_table(table(rows@)),
            forall|k: int| 0 <= k < i ==> row_view((#[trigger] out@[k])@) == wanted[k],
        decreases rows@.len() - i,
    {
        let row = &rows[i];
        let mut cells: Vec<ImportCell> = Vec::new();
        let mut j: usize = 0;
        while j < row.len()
            invariant
                j <= row@.len(),
                cells@.len() == j,
                i < rows@.len(),
                *row == rows@[i as int],
                wanted == snapshot_table(table(rows@)),
                forall|k: int| 0 <= k < j ==> cell_view(#[trigger] cells@[k]) == wanted[i as int][k],
            decreases row@.len() - j,
        {
            if same(row[j].as_str(), NULL_TEXT) {
                cells.push(None);
            } else {
                cells.push(Some(row[j].clone()));
            }
            j += 1;
        }
        assert(row_view(cells@) =~= wanted[i as int]);
        out.push(cells);
        i += 1;
    }
    assert(rows_view(out@) =~= wanted);
    out
}

/// The grid that the exports write, from the grid's own columns and rows.
pub fn export_grid(
    columns: Vec<String>,
    kinds: Vec<SqlValueKind>,
    rows: &Vec<Vec<String>>,
) -> (r: ExportGrid)
    ensures
        r.columns == columns,
        r.column_kinds == kinds,
        rows_view(r.rows@) == snapshot_table(table(rows@)),
        r.null_text@ == NULL_TEXT@,
{
    ExportGrid {
        columns,
        column_kinds: kinds,
        rows: snapshot_rows(rows),
        null_text: NULL_TEXT.to_owned(),
    }
}

} // verus!
