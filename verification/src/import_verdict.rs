//! The tests of the import probes.
use vstd::prelude::*;
use vstd::string::*;
use vstd::utf8::encode_utf8;

use crate::grid::{
    cell_or_empty, count_text_spec, grid_columns, grid_count, grid_rows, grid_rows_of, grid_view,
    pairs, pairs_spec, table,
};
use crate::import::{
    cell_view, expected_cells, expected_table, is_null, join_rows, joined_rows, null_text, row_view,
    rows_view, same_rows, ExportRead, ImportCell, LiteralColumn, TableColumnDetail,
};
use crate::import_data::{
    hostile_rows, hostile_rows_model, names, names_of, numbered, numbered_model, HOSTILE_VALUES,
};
use crate::op::Op;
use crate::progress::{first_error, first_error_spec, rows, QueryProgress};
use crate::seen::{at, events, optional, optional_text, words, words_of, Seen};
use crate::text::{
    contains, count_text, debug_form, decimal, finds, mentions, mentions_any, occurrences,
    occurrences_of, quoted, same, same_but_case, same_ignoring_case, same_texts, split, split_on,
    strings, texts, to_upper, trim, trimmed, upper, views,
};
use crate::verdict::{events_in, look};

verus! {

/// The last cell of the first row of a run's grid; empty where there is none.
pub open spec fn grid_scalar(run: Seq<QueryProgress>) -> Seq<char> {
    let t = grid_rows(run);
    if t.len() > 0 && t[0].len() > 0 { t[0].last() } else { Seq::empty() }
}

pub fn grid_scalar_of(run: &Vec<QueryProgress>) -> (r: String)
    ensures
        r@ == grid_scalar(run@),
{
    let t = grid_rows_of(run);
    assert(table(t@).len() == t@.len());
    if t.len() > 0 {
        let row = &t[0];
        assert(table(t@)[0] == views(row@));
        assert(views(row@).len() == row@.len());
        if row.len() > 0 {
            return row[row.len() - 1].clone();
        }
    }
    String::new()
}

/// A cell of the first row of a run's grid; empty where there is none.
pub open spec fn grid_cell(run: Seq<QueryProgress>, column: int) -> Seq<char> {
    let t = grid_rows(run);
    if t.len() > 0 && 0 <= column < t[0].len() { t[0][column] } else { Seq::empty() }
}

pub fn grid_cell_of(run: &Vec<QueryProgress>, column: usize) -> (r: String)
    ensures
        r@ == grid_cell(run@, column as int),
{
    let t = grid_rows_of(run);
    assert(table(t@).len() == t@.len());
    if t.len() > 0 {
        let row = &t[0];
        assert(table(t@)[0] == views(row@));
        assert(views(row@).len() == row@.len());
        if column < row.len() {
            return row[column].clone();
        }
    }
    String::new()
}

/// The second cells of a run's grid.
pub open spec fn stored(run: Seq<QueryProgress>) -> Seq<Seq<char>> {
    let t = grid_rows(run);
    Seq::new(t.len(), |i: int| if t[i].len() > 1 { t[i][1] } else { Seq::empty() })
}

pub fn stored_of(run: &Vec<QueryProgress>) -> (r: Vec<String>)
    ensures
        views(r@) == stored(run@),
{
    let t = grid_rows_of(run);
    assert(table(t@).len() == t@.len());
    let mut out: Vec<String> = Vec::new();
    let mut i: usize = 0;
    while i < t.len()
        invariant
            i <= t@.len(),
            table(t@) == grid_rows(run@),
            out@.len() == i,
            forall|k: int| 0 <= k < i ==> (#[trigger] out@[k])@ == stored(run@)[k],
        decreases t@.len() - i,
    {
        let row = &t[i];
        assert(table(t@)[i as int] == views(row@));
        assert(views(row@).len() == row@.len());
        if row.len() > 1 {
            out.push(row[1].clone());
        } else {
            out.push(String::new());
        }
        i += 1;
    }
    assert(views(out@) =~= stored(run@));
    out
}

/// The first cells of a run's grid, trimmed and in upper case, of the rows that
/// have one.
pub open spec fn first_cells(t: Seq<Seq<Seq<char>>>) -> Seq<Seq<char>>
    decreases t.len(),
{
    if t.len() == 0 {
        Seq::empty()
    } else {
        let before = first_cells(t.drop_last());
        if t.last().len() > 0 { before.push(upper(trim(t.last()[0]))) } else { before }
    }
}

pub fn first_cells_of(run: &Vec<QueryProgress>) -> (r: Vec<String>)
    ensures
        views(r@) == first_cells(grid_rows(run@)),
{
    let t = grid_rows_of(run);
    let ghost all = grid_rows(run@);
    assert(table(t@).len() == t@.len());
    let mut out: Vec<String> = Vec::new();
    let mut i: usize = 0;
    assert(views(out@) =~= first_cells(all.take(0)));
    while i < t.len()
        invariant
            i <= t@.len() == all.len(),
            table(t@) == all,
            views(out@) == first_cells(all.take(i as int)),
        decreases t@.len() - i,
    {
        let ghost before = out@;
        let row = &t[i];
        assert(all[i as int] == views(row@));
        assert(views(row@).len() == row@.len());
        assert(all.take(i + 1).drop_last() =~= all.take(i as int));
        if row.len() > 0 {
            let bare = trimmed(row[0].as_str());
            let name = to_upper(bare.as_str());
            let ghost text = name@;
            out.push(name);
            assert(views(out@) =~= views(before).push(text));
        }
        i += 1;
    }
    assert(all.take(i as int) =~= all);
    out
}

/// Whether a list of texts holds one.
pub open spec fn holds_text(list: Seq<Seq<char>>, text: Seq<char>) -> bool {
    exists|i: int| 0 <= i < list.len() && #[trigger] list[i] == text
}

pub fn does_hold_text(list: &Vec<String>, text: &str) -> (r: bool)
    ensures
        r == holds_text(views(list@), text@),
{
    let mut i: usize = 0;
    while i < list.len()
        invariant
            i <= list@.len(),
            forall|k: int| 0 <= k < i ==> #[trigger] views(list@)[k] != text@,
        decreases list@.len() - i,
    {
        if same(list[i].as_str(), text) {
            assert(views(list@)[i as int] == text@);
            return true;
        }
        i += 1;
    }
    assert(views(list@).len() == list@.len());
    false
}

/// Whether a list of texts holds one, whatever its case.
pub open spec fn holds_named(list: Seq<Seq<char>>, name: Seq<char>) -> bool {
    exists|i: int| 0 <= i < list.len() && same_ignoring_case(#[trigger] list[i], name)
}

pub fn does_hold_named(list: &Vec<String>, name: &str) -> (r: bool)
    ensures
        r == holds_named(views(list@), name@),
{
    let mut i: usize = 0;
    while i < list.len()
        invariant
            i <= list@.len(),
            forall|k: int| 0 <= k < i ==> !same_ignoring_case(#[trigger] views(list@)[k], name@),
        decreases list@.len() - i,
    {
        if same_but_case(list[i].as_str(), name) {
            assert(same_ignoring_case(views(list@)[i as int], name@));
            return true;
        }
        i += 1;
    }
    assert(views(list@).len() == list@.len());
    false
}

/// The position of the first text that names a column, whatever its case.
pub open spec fn named_at(list: Seq<Seq<char>>, name: Seq<char>) -> Option<int>
    decreases list.len(),
{
    if list.len() == 0 {
        None
    } else {
        match named_at(list.drop_last(), name) {
            Some(i) => Some(i),
            None => if same_ignoring_case(list.last(), name) {
                Some(list.len() - 1)
            } else {
                None
            },
        }
    }
}

pub fn named_at_of(list: &Vec<String>, name: &str) -> (r: Option<usize>)
    ensures
        r is Some <==> named_at(views(list@), name@) is Some,
        r matches Some(i) ==> named_at(views(list@), name@) == Some(i as int) && i < list@.len(),
{
    let ghost all = views(list@);
    let mut found: Option<usize> = None;
    let mut i: usize = 0;
    while i < list.len()
        invariant
            i <= list@.len(),
            all == views(list@),
            found is Some <==> named_at(all.take(i as int), name@) is Some,
            found matches Some(k) ==> named_at(all.take(i as int), name@) == Some(k as int) && k
                < i,
        decreases list@.len() - i,
    {
        assert(all.take(i + 1).drop_last() =~= all.take(i as int));
        assert(all[i as int] == list@[i as int]@);
        if found.is_none() && same_but_case(list[i].as_str(), name) {
            found = Some(i);
        }
        i += 1;
    }
    assert(all.take(i as int) =~= all);
    found
}

/// A cell of what the object browser read, by column name; empty where there is
/// none.
pub open spec fn read_cell(read: ExportRead, row: int, name: Seq<char>) -> Seq<char> {
    match named_at(views(read.columns@), name) {
        Some(i) => if 0 <= row < read.rows@.len() && i < read.rows@[row]@.len() {
            read.rows@[row]@[i]@
        } else {
            Seq::empty()
        },
        None => Seq::empty(),
    }
}

pub fn read_cell_of(read: &ExportRead, row: usize, name: &str) -> (r: String)
    ensures
        r@ == read_cell(*read, row as int, name@),
{
    match named_at_of(&read.columns, name) {
        Some(i) => {
            if row < read.rows.len() && i < read.rows[row].len() {
                read.rows[row][i].clone()
            } else {
                String::new()
            }
        },
        None => String::new(),
    }
}

/// Whether a cell that was read is the driver's own NULL. A cell that is not
/// there reads as the empty text, which is not.
pub open spec fn read_null(read: ExportRead, row: int, column: int) -> bool {
    0 <= row < read.nulls@.len() && 0 <= column < read.nulls@[row]@.len()
        && read.nulls@[row]@[column]
}

pub fn is_read_null(read: &ExportRead, row: usize, column: usize) -> (r: bool)
    ensures
        r == read_null(*read, row as int, column as int),
{
    row < read.nulls.len() && column < read.nulls[row].len() && read.nulls[row][column]
}

/// The first row whose first cell is `2`: the mostly-NULL row.
pub open spec fn null_row(t: Seq<Vec<String>>) -> Option<int>
    decreases t.len(),
{
    if t.len() == 0 {
        None
    } else {
        match null_row(t.drop_last()) {
            Some(i) => Some(i),
            None => if t.last()@.len() > 0 && t.last()@[0]@ == "2"@ {
                Some(t.len() - 1)
            } else {
                None
            },
        }
    }
}

pub fn null_row_of(t: &Vec<Vec<String>>) -> (r: Option<usize>)
    ensures
        r is Some <==> null_row(t@) is Some,
        r matches Some(i) ==> null_row(t@) == Some(i as int) && i < t@.len(),
{
    let mut found: Option<usize> = None;
    let mut i: usize = 0;
    while i < t.len()
        invariant
            i <= t@.len(),
            found is Some <==> null_row(t@.take(i as int)) is Some,
            found matches Some(k) ==> null_row(t@.take(i as int)) == Some(k as int) && k < i,
        decreases t@.len() - i,
    {
        assert(t@.take(i + 1).drop_last() =~= t@.take(i as int));
        if found.is_none() && t[i].len() > 0 && same(t[i][0].as_str(), "2") {
            found = Some(i);
        }
        i += 1;
    }
    assert(t@.take(i as int) =~= t@);
    found
}

/// Whether a column of the mostly-NULL row holds a value: its key and its code.
pub open spec fn holds_value(column: Seq<char>) -> bool {
    upper(column) == "SEQ"@ || upper(column) == "CODE"@
}

/// Whether a column's cell in the mostly-NULL row is missing its NULL: the cell
/// is looked up by name, as every cell is.
pub open spec fn lost_null(read: ExportRead, row: int, name: Seq<char>) -> bool {
    &&& !holds_value(name)
    &&& match named_at(views(read.columns@), name) {
        Some(i) => !read_null(read, row, i),
        None => true,
    }
}

/// The first column, from some position on, whose NULL was lost.
pub open spec fn lost_column(read: ExportRead, row: int, from: int) -> Option<int>
    decreases read.columns@.len() - from,
{
    if from < 0 || from >= read.columns@.len() {
        None
    } else if lost_null(read, row, read.columns@[from]@) {
        Some(from)
    } else {
        lost_column(read, row, from + 1)
    }
}

pub fn lost_column_of(read: &ExportRead, row: usize) -> (r: Option<usize>)
    ensures
        r is Some <==> lost_column(*read, row as int, 0) is Some,
        r matches Some(i) ==> lost_column(*read, row as int, 0) == Some(i as int) && i
            < read.columns@.len(),
{
    let mut i: usize = 0;
    while i < read.columns.len()
        invariant
            i <= read.columns@.len(),
            lost_column(*read, row as int, 0) == lost_column(*read, row as int, i as int),
        decreases read.columns@.len() - i,
    {
        let name = &read.columns[i];
        let raised = to_upper(name.as_str());
        let keeps = same(raised.as_str(), "SEQ") || same(raised.as_str(), "CODE");
        let lost = !keeps && match named_at_of(&read.columns, name.as_str()) {
            Some(k) => !is_read_null(read, row, k),
            None => true,
        };
        assert(lost == lost_null(*read, row as int, name@));
        if lost {
            return Some(i);
        }
        i += 1;
    }
    None
}

pub open spec fn lost_words(read: ExportRead) -> Seq<char> {
    match null_row(read.rows@) {
        Some(row) => match lost_column(read, row, 0) {
            Some(i) => read.columns@[i]@ + ": a SQL NULL reached the exporter as "@ + debug_form(
                read_cell(read, row, read.columns@[i]@),
            )
                + ", not as the driver's own marker — every format would then write it as a value"@,
            None => Seq::empty(),
        },
        None => Seq::empty(),
    }
}

fn lost_text(read: &ExportRead) -> (r: String)
    ensures
        r@ == lost_words(*read),
{
    match null_row_of(&read.rows) {
        Some(row) => match lost_column_of(read, row) {
            Some(i) => {
                let mut out = read.columns[i].clone();
                out.append(": a SQL NULL reached the exporter as ");
                let cell = read_cell_of(read, row, read.columns[i].as_str());
                out.append(quoted(cell.as_str()).as_str());
                out.append(
                    ", not as the driver's own marker — every format would then write it as a value",
                );
                out
            },
            None => String::new(),
        },
        None => String::new(),
    }
}

/// Where the two ways of writing a literal differ, in a column and from a row
/// on: only cells that hold a value are compared.
pub open spec fn unlike_row(t: Seq<Seq<Seq<char>>>, c: LiteralColumn, column: int, from: int) -> Option<
    int,
>
    decreases t.len() - from,
{
    if from < 0 || from >= t.len() {
        None
    } else if column < t[from].len() && !null_text(t[from][column]) && literal_at(
        c.by_catalog@,
        from,
    ) != literal_at(c.by_driver@, from) {
        Some(from)
    } else {
        unlike_row(t, c, column, from + 1)
    }
}

pub open spec fn literal_at(list: Seq<String>, i: int) -> Seq<char> {
    cell_or_empty(list, i)
}

fn literal_at_of(list: &Vec<String>, i: usize) -> (r: String)
    ensures
        r@ == literal_at(list@, i as int),
{
    if i < list.len() {
        list[i].clone()
    } else {
        String::new()
    }
}

fn unlike_row_of(t: &Vec<Vec<String>>, c: &LiteralColumn, column: usize) -> (r: Option<usize>)
    ensures
        r is Some <==> unlike_row(table(t@), *c, column as int, 0) is Some,
        r matches Some(i) ==> unlike_row(table(t@), *c, column as int, 0) == Some(i as int),
{
    let ghost all = table(t@);
    assert(all.len() == t@.len());
    let mut i: usize = 0;
    while i < t.len()
        invariant
            i <= t@.len() == all.len(),
            all == table(t@),
            unlike_row(all, *c, column as int, 0) == unlike_row(all, *c, column as int, i as int),
        decreases t@.len() - i,
    {
        let row = &t[i];
        assert(all[i as int] == views(row@));
        assert(views(row@).len() == row@.len());
        let differs = column < row.len() && !is_null(row[column].as_str()) && !same(
            literal_at_of(&c.by_catalog, i).as_str(),
            literal_at_of(&c.by_driver, i).as_str(),
        );
        if differs {
            return Some(i);
        }
        i += 1;
    }
    None
}

/// The first column, from some position on, whose literals differ.
pub open spec fn unlike_column(t: Seq<Seq<Seq<char>>>, cs: Seq<LiteralColumn>, from: int) -> Option<
    int,
>
    decreases cs.len() - from,
{
    if from < 0 || from >= cs.len() {
        None
    } else if unlike_row(t, cs[from], from, 0) is Some {
        Some(from)
    } else {
        unlike_column(t, cs, from + 1)
    }
}

fn unlike_column_of(t: &Vec<Vec<String>>, cs: &Vec<LiteralColumn>) -> (r: Option<usize>)
    ensures
        r is Some <==> unlike_column(table(t@), cs@, 0) is Some,
        r matches Some(i) ==> unlike_column(table(t@), cs@, 0) == Some(i as int) && i < cs@.len(),
{
    let mut i: usize = 0;
    while i < cs.len()
        invariant
            i <= cs@.len(),
            unlike_column(table(t@), cs@, 0) == unlike_column(table(t@), cs@, i as int),
        decreases cs@.len() - i,
    {
        if unlike_row_of(t, &cs[i], i).is_some() {
            return Some(i);
        }
        i += 1;
    }
    None
}

pub open spec fn unlike_words(t: Seq<Seq<Seq<char>>>, cs: Seq<LiteralColumn>) -> Seq<char> {
    match unlike_column(t, cs, 0) {
        Some(i) => {
            let row = unlike_row(t, cs[i], i, 0)->0;
            "column "@ + cs[i].name@ + ": the declared type gives "@ + literal_at(
                cs[i].by_catalog@,
                row,
            ) + " but the driver type gives "@ + literal_at(cs[i].by_driver@, row)
        },
        None => Seq::empty(),
    }
}

fn unlike_text(t: &Vec<Vec<String>>, cs: &Vec<LiteralColumn>) -> (r: String)
    ensures
        r@ == unlike_words(table(t@), cs@),
{
    match unlike_column_of(t, cs) {
        Some(i) => {
            proof {
                lemma_unlike_column(table(t@), cs@, 0);
            }
            let row: usize = match unlike_row_of(t, &cs[i], i) {
                Some(k) => k,
                None => 0,
            };
            let mut out = "column ".to_owned();
            out.append(cs[i].name.as_str());
            out.append(": the declared type gives ");
            out.append(literal_at_of(&cs[i].by_catalog, row).as_str());
            out.append(" but the driver type gives ");
            out.append(literal_at_of(&cs[i].by_driver, row).as_str());
            out
        },
        None => String::new(),
    }
}

proof fn lemma_unlike_column(t: Seq<Seq<Seq<char>>>, cs: Seq<LiteralColumn>, from: int)
    ensures
        unlike_column(t, cs, from) matches Some(i) ==> 0 <= i < cs.len() && unlike_row(
            t,
            cs[i],
            i,
            0,
        ) is Some,
    decreases cs.len() - from,
{
    if !(from < 0 || from >= cs.len()) && unlike_row(t, cs[from], from, 0) is None {
        lemma_unlike_column(t, cs, from + 1);
    }
}

/// The names of the columns that the server computes.
pub open spec fn computed(columns: Seq<TableColumnDetail>) -> Seq<Seq<char>>
    decreases columns.len(),
{
    if columns.len() == 0 {
        Seq::empty()
    } else {
        let before = computed(columns.drop_last());
        if columns.last().is_generated { before.push(columns.last().name@) } else { before }
    }
}

pub fn computed_of(columns: &Vec<TableColumnDetail>) -> (r: Vec<String>)
    ensures
        views(r@) == computed(columns@),
{
    let mut out: Vec<String> = Vec::new();
    let mut i: usize = 0;
    assert(views(out@) =~= computed(columns@.take(0)));
    while i < columns.len()
        invariant
            i <= columns@.len(),
            views(out@) == computed(columns@.take(i as int)),
        decreases columns@.len() - i,
    {
        let ghost before = out@;
        assert(columns@.take(i + 1).drop_last() =~= columns@.take(i as int));
        if columns[i].is_generated {
            out.push(columns[i].name.clone());
            assert(views(out@) =~= views(before).push(columns@[i as int].name@));
        }
        i += 1;
    }
    assert(columns@.take(i as int) =~= columns@);
    out
}

/// The position of the first text that is exactly this one.
pub open spec fn exactly_at(list: Seq<Seq<char>>, text: Seq<char>, from: int) -> Option<int>
    decreases list.len() - from,
{
    if from < 0 || from >= list.len() {
        None
    } else if list[from] == text {
        Some(from)
    } else {
        exactly_at(list, text, from + 1)
    }
}

fn exactly_at_of(list: &Vec<String>, text: &str) -> (r: Option<usize>)
    ensures
        r is Some <==> exactly_at(views(list@), text@, 0) is Some,
        r matches Some(i) ==> exactly_at(views(list@), text@, 0) == Some(i as int),
{
    let ghost all = views(list@);
    assert(all.len() == list@.len());
    let mut i: usize = 0;
    while i < list.len()
        invariant
            i <= list@.len() == all.len(),
            all == views(list@),
            exactly_at(all, text@, 0) == exactly_at(all, text@, i as int),
        decreases list@.len() - i,
    {
        assert(all[i as int] == list@[i as int]@);
        if same(list[i].as_str(), text) {
            return Some(i);
        }
        i += 1;
    }
    None
}

/// The target a file position must map to: none for a computed column, else the
/// target of the column's name.
pub open spec fn right_target(column: TableColumnDetail, targets: Seq<Seq<char>>) -> Option<int> {
    if column.is_generated { None } else { exactly_at(targets, column.name@, 0) }
}

pub open spec fn mapped(mapping: Seq<Option<usize>>, i: int) -> Option<int> {
    if 0 <= i < mapping.len() {
        match mapping[i] {
            Some(k) => Some(k as int),
            None => None,
        }
    } else {
        None
    }
}

/// The first position, from one on, that maps elsewhere than it must.
pub open spec fn wrong_position(
    columns: Seq<TableColumnDetail>,
    targets: Seq<Seq<char>>,
    mapping: Seq<Option<usize>>,
    from: int,
) -> Option<int>
    decreases columns.len() - from,
{
    if from < 0 || from >= columns.len() {
        None
    } else if mapped(mapping, from) != right_target(columns[from], targets) {
        Some(from)
    } else {
        wrong_position(columns, targets, mapping, from + 1)
    }
}

fn right_target_of(column: &TableColumnDetail, targets: &Vec<String>) -> (r: Option<usize>)
    ensures
        r is Some <==> right_target(*column, views(targets@)) is Some,
        r matches Some(i) ==> right_target(*column, views(targets@)) == Some(i as int),
{
    if column.is_generated {
        None
    } else {
        exactly_at_of(targets, column.name.as_str())
    }
}

fn mapped_of(mapping: &Vec<Option<usize>>, i: usize) -> (r: Option<usize>)
    ensures
        r is Some <==> mapped(mapping@, i as int) is Some,
        r matches Some(k) ==> mapped(mapping@, i as int) == Some(k as int),
{
    if i < mapping.len() {
        mapping[i]
    } else {
        None
    }
}

fn wrong_position_of(
    columns: &Vec<TableColumnDetail>,
    targets: &Vec<String>,
    mapping: &Vec<Option<usize>>,
) -> (r: Option<usize>)
    ensures
        r is Some <==> wrong_position(columns@, views(targets@), mapping@, 0) is Some,
        r matches Some(i) ==> wrong_position(columns@, views(targets@), mapping@, 0) == Some(
            i as int,
        ) && i < columns@.len(),
{
    let mut i: usize = 0;
    while i < columns.len()
        invariant
            i <= columns@.len(),
            wrong_position(columns@, views(targets@), mapping@, 0) == wrong_position(
                columns@,
                views(targets@),
                mapping@,
                i as int,
            ),
        decreases columns@.len() - i,
    {
        let agree = match (mapped_of(mapping, i), right_target_of(&columns[i], targets)) {
            (Some(a), Some(b)) => a == b,
            (None, None) => true,
            _ => false,
        };
        if !agree {
            return Some(i);
        }
        i += 1;
    }
    None
}

pub open spec fn optional_number(n: Option<int>) -> Seq<char> {
    match n {
        Some(k) => optional(Some(decimal(k))),
        None => optional(None),
    }
}

fn optional_number_text(n: Option<usize>) -> (r: String)
    ensures
        n matches Some(k) ==> r@ == optional_number(Some(k as int)),
        n is None ==> r@ == optional_number(None),
{
    match n {
        Some(k) => optional_text(Some(count_text(k))),
        None => optional_text(None),
    }
}

pub open spec fn position_words(
    columns: Seq<TableColumnDetail>,
    targets: Seq<Seq<char>>,
    mapping: Seq<Option<usize>>,
) -> Seq<char> {
    match wrong_position(columns, targets, mapping, 0) {
        Some(i) => "position "@ + decimal(i) + " ("@ + columns[i].name@ + ") maps to "@
            + optional_number(mapped(mapping, i)) + ", expected "@ + optional_number(
            right_target(columns[i], targets),
        ),
        None => Seq::empty(),
    }
}

fn position_text(
    columns: &Vec<TableColumnDetail>,
    targets: &Vec<String>,
    mapping: &Vec<Option<usize>>,
) -> (r: String)
    ensures
        r@ == position_words(columns@, views(targets@), mapping@),
{
    match wrong_position_of(columns, targets, mapping) {
        Some(i) => {
            let mut out = "position ".to_owned();
            out.append(count_text(i).as_str());
            out.append(" (");
            out.append(columns[i].name.as_str());
            out.append(") maps to ");
            out.append(optional_number_text(mapped_of(mapping, i)).as_str());
            out.append(", expected ");
            out.append(optional_number_text(right_target_of(&columns[i], targets)).as_str());
            out
        },
        None => String::new(),
    }
}

/// The first of some names, from one on, that a script holds.
pub open spec fn named_in(list: Seq<Seq<char>>, script: Seq<char>, from: int) -> Option<int>
    decreases list.len() - from,
{
    if from < 0 || from >= list.len() {
        None
    } else if contains(script, list[from]) {
        Some(from)
    } else {
        named_in(list, script, from + 1)
    }
}

fn named_in_of(list: &Vec<String>, script: &str) -> (r: Option<usize>)
    ensures
        r is Some <==> named_in(views(list@), script@, 0) is Some,
        r matches Some(i) ==> named_in(views(list@), script@, 0) == Some(i as int) && i
            < list@.len(),
{
    let ghost all = views(list@);
    assert(all.len() == list@.len());
    let mut i: usize = 0;
    while i < list.len()
        invariant
            i <= list@.len() == all.len(),
            all == views(list@),
            named_in(all, script@, 0) == named_in(all, script@, i as int),
        decreases list@.len() - i,
    {
        assert(all[i as int] == list@[i as int]@);
        if finds(script, list[i].as_str()) {
            return Some(i);
        }
        i += 1;
    }
    None
}

/// The slot of the columns that an import offers.
pub const TARGETS_SLOT: usize = 17;

pub open spec fn structure(seen: Seen) -> Seq<TableColumnDetail> {
    match seen {
        Seen::Structure(columns) => columns@,
        _ => Seq::empty(),
    }
}

pub open spec fn writable(seen: Seen) -> Seq<Seq<char>> {
    match seen {
        Seen::Targets(targets) => views(targets.writable@),
        _ => Seq::empty(),
    }
}

pub open spec fn left_out(seen: Seen) -> Seq<Seq<char>> {
    match seen {
        Seen::Targets(targets) => views(targets.generated@),
        _ => Seq::empty(),
    }
}

pub open spec fn mapping(seen: Seen) -> Seq<Option<usize>> {
    match seen {
        Seen::Mapping(m) => m@,
        _ => Seq::empty(),
    }
}

pub open spec fn imported_rows(seen: Seen) -> Seq<Seq<Option<Seq<char>>>> {
    match seen {
        Seen::Imported(t) => t@.rows,
        _ => Seq::empty(),
    }
}

/// A cell of an imported table; none where it is absent or not there.
pub open spec fn imported_cell(seen: Seen, row: int, column: int) -> Option<Seq<char>> {
    let t = imported_rows(seen);
    if 0 <= row < t.len() && 0 <= column < t[row].len() { t[row][column] } else { None }
}

pub fn imported_cell_of(seen: &Seen, row: usize, column: usize) -> (r: ImportCell)
    ensures
        cell_view(r) == imported_cell(*seen, row as int, column as int),
{
    match seen {
        Seen::Imported(t) => {
            assert(rows_view(t.rows@).len() == t.rows@.len());
            if row < t.rows.len() {
                let cells = &t.rows[row];
                assert(rows_view(t.rows@)[row as int] == row_view(cells@));
                assert(row_view(cells@).len() == cells@.len());
                if column < cells.len() {
                    assert(row_view(cells@)[column as int] == cell_view(cells@[column as int]));
                    return match &cells[column] {
                        Some(text) => Some(text.clone()),
                        None => None,
                    };
                }
            }
            None
        },
        _ => None,
    }
}

/// The length of a text in bytes.
pub open spec fn byte_length(s: Seq<char>) -> int {
    encode_utf8(s).len() as usize as int
}

/// Tests on import files, scripts and their runs.
pub open spec fn import_holds(
    op: Op,
    slot: int,
    other: int,
    arg: Seq<char>,
    memory: Seq<Seen>,
) -> bool {
    let seen = at(memory, slot);
    let second = at(memory, other);
    let run = events(seen);
    match op {
        Op::CatalogWidth => pairs_spec(rows(run)).len() == grid_columns(events(second)).len(),
        Op::LiteralsAgree => seen matches Seen::Literals(cs) && unlike_column(
            grid_rows(events(second)),
            cs@,
            0,
        ) is None,
        Op::ParsedAsExpected => seen is Imported && joined_rows(imported_rows(seen))
            == expected_table(grid_rows(events(second))),
        Op::AllMapped => seen is Mapping && forall|i: int|
            0 <= i < mapping(seen).len() ==> (#[trigger] mapping(seen)[i]) is Some,
        Op::AtLeastParts => occurrences(words(seen), arg) >= other,
        Op::SomethingRefused => first_error_spec(run) is Some,
        Op::ErrorSays => first_error_spec(run) matches Some(e) && mentions_any(e, arg),
        Op::GridScalarIs => trim(grid_scalar(run)) == arg,
        Op::GridScalarIsNot => trim(grid_scalar(run)) != arg,
        Op::GridCellIs => trim(grid_cell(run, other)) == arg,
        Op::GridCellWidth => byte_length(grid_cell(run, 1)) == other,
        Op::Did => seen is Run && first_error_spec(run) is None,
        Op::CountTextIs => count_text_spec(run) == Some(arg),
        Op::FirstColumnHas => holds_text(first_cells(grid_rows(run)), arg),
        Op::StoredHostile => stored(run) == texts(HOSTILE_VALUES@),
        Op::StoredCount => stored(run).len() == other,
        Op::StoredIs => 0 <= other < stored(run).len() && stored(run)[other] == arg,
        Op::ParsedRowsAre => imported_rows(seen).len() == other,
        Op::ParsedCellIs => imported_cell(seen, other / 10, other % 10) == Some(arg),
        Op::ParsedCellAbsent => imported_cell(seen, other / 10, other % 10) is None,
        Op::ParsedHostile => seen is Imported && imported_rows(seen) == hostile_rows_model(),
        Op::ParsedNumbered => seen is Imported && imported_rows(seen) == numbered_model(
            other,
        ).rows,
        Op::NotInterpolated => !(contains(words(seen), "HEXTORAW"@) && !contains(
            words(seen),
            "HEXTORAW('DEADBEEF')"@,
        )),
        Op::IsFailed => seen is Failed,
        _ => false,
    }
}

fn all_mapped(m: &Vec<Option<usize>>) -> (r: bool)
    ensures
        r == forall|i: int| 0 <= i < m@.len() ==> (#[trigger] m@[i]) is Some,
{
    let mut i: usize = 0;
    while i < m.len()
        invariant
            i <= m@.len(),
            forall|k: int| 0 <= k < i ==> (#[trigger] m@[k]) is Some,
        decreases m@.len() - i,
    {
        if m[i].is_none() {
            return false;
        }
        i += 1;
    }
    true
}

fn parts_in(s: &str, arg: &str) -> (r: usize)
    ensures
        r == occurrences(s@, arg@),
{
    if arg.is_empty() {
        0
    } else {
        occurrences_of(s, arg)
    }
}

pub fn byte_length_of(s: &str) -> (r: usize)
    ensures
        r as int == byte_length(s@),
{
    s.len()
}

pub fn import_test(op: Op, slot: usize, other: usize, arg: &str, memory: &Vec<Seen>) -> (r: bool)
    ensures
        r == import_holds(op, slot as int, other as int, arg@, memory@),
{
    let nothing = Seen::Nothing;
    let none: Vec<QueryProgress> = Vec::new();
    let seen = look(memory, slot, &nothing);
    let second = look(memory, other, &nothing);
    let run = events_in(seen, &none);
    match op {
        Op::CatalogWidth => {
            let listed = pairs(run);
            let width: usize = columns_in(events_in(second, &none));
            listed.len() == width
        },
        Op::LiteralsAgree => match seen {
            Seen::Literals(cs) => {
                let t = grid_rows_of(events_in(second, &none));
                unlike_column_of(&t, cs).is_none()
            },
            _ => false,
        },
        Op::ParsedAsExpected => match seen {
            Seen::Imported(t) => {
                let parsed = join_rows(&t.rows);
                let source = grid_rows_of(events_in(second, &none));
                let expected = expected_cells(&source);
                same_rows(&parsed, &expected)
            },
            _ => false,
        },
        Op::AllMapped => match seen {
            Seen::Mapping(m) => all_mapped(m),
            _ => false,
        },
        Op::AtLeastParts => parts_in(words_of(seen).as_str(), arg) >= other,
        Op::SomethingRefused => first_error(run).is_some(),
        Op::ErrorSays => match first_error(run) {
            Some(e) => mentions(e.as_str(), arg),
            None => false,
        },
        Op::GridScalarIs => same(trimmed(grid_scalar_of(run).as_str()).as_str(), arg),
        Op::GridScalarIsNot => !same(trimmed(grid_scalar_of(run).as_str()).as_str(), arg),
        Op::GridCellIs => same(trimmed(grid_cell_of(run, other).as_str()).as_str(), arg),
        Op::GridCellWidth => byte_length_of(grid_cell_of(run, 1).as_str()) == other,
        Op::Did => match seen {
            Seen::Run(events) => first_error(events).is_none(),
            _ => false,
        },
        Op::CountTextIs => match grid_count(run) {
            Some(text) => same(text.as_str(), arg),
            None => false,
        },
        Op::FirstColumnHas => does_hold_text(&first_cells_of(run), arg),
        Op::StoredHostile => {
            let held = strings(&HOSTILE_VALUES);
            same_texts(&stored_of(run), &held)
        },
        Op::StoredCount => {
            let cells = stored_of(run);
            assert(views(cells@).len() == cells@.len());
            cells.len() == other
        },
        Op::StoredIs => {
            let cells = stored_of(run);
            assert(views(cells@).len() == cells@.len());
            if other < cells.len() {
                assert(views(cells@)[other as int] == cells@[other as int]@);
                same(cells[other].as_str(), arg)
            } else {
                false
            }
        },
        Op::ParsedRowsAre => match seen {
            Seen::Imported(t) => {
                assert(rows_view(t.rows@).len() == t.rows@.len());
                t.rows.len() == other
            },
            _ => other == 0,
        },
        Op::ParsedCellIs => match imported_cell_of(seen, other / 10, other % 10) {
            Some(text) => same(text.as_str(), arg),
            None => false,
        },
        Op::ParsedCellAbsent => imported_cell_of(seen, other / 10, other % 10).is_none(),
        Op::ParsedHostile => match seen {
            Seen::Imported(t) => {
                let held = hostile_rows();
                same_rows(&t.rows, &held)
            },
            _ => false,
        },
        Op::ParsedNumbered => match seen {
            Seen::Imported(t) => {
                let held = numbered(other);
                same_rows(&t.rows, &held.rows)
            },
            _ => false,
        },
        Op::NotInterpolated => {
            let script = words_of(seen);
            !(finds(script.as_str(), "HEXTORAW") && !finds(
                script.as_str(),
                "HEXTORAW('DEADBEEF')",
            ))
        },
        Op::IsFailed => match seen {
            Seen::Failed(_) => true,
            _ => false,
        },
        _ => false,
    }
}

fn columns_in(run: &Vec<QueryProgress>) -> (r: usize)
    ensures
        r == grid_columns(run@).len(),
{
    match grid_view(run) {
        Some(view) => {
            assert(views(view.columns@).len() == view.columns@.len());
            view.columns.len()
        },
        None => 0,
    }
}

/// Tests on a table's columns as the catalog and the object browser see them.
pub open spec fn table_holds(
    op: Op,
    slot: int,
    other: int,
    arg: Seq<char>,
    memory: Seq<Seen>,
) -> bool {
    let seen = at(memory, slot);
    match op {
        Op::SomeColumns => structure(seen).len() > 0,
        Op::GeneratedAre => computed(structure(seen)) == split_on(arg, '|'),
        Op::OfferedAre => writable(seen) == split_on(arg, '|'),
        Op::LeftOutAre => left_out(seen) == split_on(arg, '|'),
        Op::Offers => holds_named(writable(seen), arg),
        Op::PositionsRight => wrong_position(
            structure(at(memory, other)),
            writable(at(memory, TARGETS_SLOT as int)),
            mapping(seen),
            0,
        ) is None,
        Op::HasColumnA => named_at(names(structure(seen)), "A"@) is Some,
        Op::NamesNoComputed => named_in(
            left_out(at(memory, TARGETS_SLOT as int)),
            words(seen),
            0,
        ) is None,
        Op::ReadWidths => seen matches Seen::Export(read) && read.catalog@.len()
            == read.columns@.len(),
        Op::HasNullRow => seen matches Seen::Export(read) && null_row(read.rows@) is Some,
        Op::NullsArrive => seen matches Seen::Export(read) && null_row(read.rows@) matches Some(row)
            && lost_column(read, row, 0) is None,
        Op::ReadCellIs => seen matches Seen::Export(read) && split_on(arg, '|').len() == 2
            && read_cell(read, 0, split_on(arg, '|')[0]) == split_on(arg, '|')[1],
        Op::ReadCellHolds => seen matches Seen::Export(read) && split_on(arg, '|').len() == 2
            && contains(read_cell(read, 0, split_on(arg, '|')[0]), split_on(arg, '|')[1]),
        Op::ReadRowsAre => seen matches Seen::Export(read) && read.rows@.len() == other,
        Op::NullTold => seen matches Seen::Export(read) && null_told(read),
        Op::ReadColumnsAre => seen matches Seen::Export(read) && bare_uppers(read.columns@)
            == split_on(arg, '|'),
        _ => false,
    }
}

/// Whether the text `NULL` in the first row and the NULL in the third are told
/// apart.
pub open spec fn null_told(read: ExportRead) -> bool {
    &&& read.rows@.len() > 0 && read.rows@[0]@.len() > 1
    &&& !read_null(read, 0, 1)
    &&& read.rows@[0]@[1]@ == "NULL"@
    &&& (read.rows@.len() > 2 && read.rows@[2]@.len() > 1 ==> read_null(read, 2, 1))
}

fn is_null_told(read: &ExportRead) -> (r: bool)
    ensures
        r == null_told(*read),
{
    read.rows.len() > 0 && read.rows[0].len() > 1 && !is_read_null(read, 0, 1) && same(
        read.rows[0][1].as_str(),
        "NULL",
    ) && (!(read.rows.len() > 2 && read.rows[2].len() > 1) || is_read_null(read, 2, 1))
}

/// Texts trimmed and in upper case.
pub open spec fn bare_uppers(list: Seq<String>) -> Seq<Seq<char>> {
    Seq::new(list.len(), |i: int| upper(trim(list[i]@)))
}

pub fn bare_uppers_of(list: &Vec<String>) -> (r: Vec<String>)
    ensures
        views(r@) == bare_uppers(list@),
{
    let mut out: Vec<String> = Vec::new();
    let mut i: usize = 0;
    while i < list.len()
        invariant
            i <= list@.len(),
            out@.len() == i,
            forall|k: int| 0 <= k < i ==> (#[trigger] out@[k])@ == upper(trim(list@[k]@)),
        decreases list@.len() - i,
    {
        let bare = trimmed(list[i].as_str());
        out.push(to_upper(bare.as_str()));
        i += 1;
    }
    assert(views(out@) =~= bare_uppers(list@));
    out
}

fn two_parts(arg: &str) -> (r: Option<(String, String)>)
    ensures
        r is Some <==> split_on(arg@, '|').len() == 2,
        r matches Some((a, b)) ==> a@ == split_on(arg@, '|')[0] && b@ == split_on(arg@, '|')[1],
{
    let parts = split(arg, '|');
    let ghost pieces = split_on(arg@, '|');
    assert(views(parts@) == pieces);
    assert(views(parts@).len() == parts@.len());
    if parts.len() == 2 {
        assert(parts@[0]@ == pieces[0]);
        assert(parts@[1]@ == pieces[1]);
        Some((parts[0].clone(), parts[1].clone()))
    } else {
        None
    }
}

fn structure_in<'a>(seen: &'a Seen, none: &'a Vec<TableColumnDetail>) -> (r: &'a Vec<
    TableColumnDetail,
>)
    requires
        none@.len() == 0,
    ensures
        r@ == structure(*seen),
{
    match seen {
        Seen::Structure(columns) => columns,
        _ => {
            assert(none@ =~= Seq::empty());
            none
        },
    }
}

fn writable_in<'a>(seen: &'a Seen, none: &'a Vec<String>) -> (r: &'a Vec<String>)
    requires
        none@.len() == 0,
    ensures
        views(r@) == writable(*seen),
{
    match seen {
        Seen::Targets(targets) => &targets.writable,
        _ => {
            assert(views(none@) =~= Seq::empty());
            none
        },
    }
}

fn left_out_in<'a>(seen: &'a Seen, none: &'a Vec<String>) -> (r: &'a Vec<String>)
    requires
        none@.len() == 0,
    ensures
        views(r@) == left_out(*seen),
{
    match seen {
        Seen::Targets(targets) => &targets.generated,
        _ => {
            assert(views(none@) =~= Seq::empty());
            none
        },
    }
}

fn mapping_in<'a>(seen: &'a Seen, none: &'a Vec<Option<usize>>) -> (r: &'a Vec<Option<usize>>)
    requires
        none@.len() == 0,
    ensures
        r@ == mapping(*seen),
{
    match seen {
        Seen::Mapping(m) => m,
        _ => {
            assert(none@ =~= Seq::empty());
            none
        },
    }
}

pub fn table_test(op: Op, slot: usize, other: usize, arg: &str, memory: &Vec<Seen>) -> (r: bool)
    ensures
        r == table_holds(op, slot as int, other as int, arg@, memory@),
{
    let nothing = Seen::Nothing;
    let no_columns: Vec<TableColumnDetail> = Vec::new();
    let no_names: Vec<String> = Vec::new();
    let no_mapping: Vec<Option<usize>> = Vec::new();
    let seen = look(memory, slot, &nothing);
    match op {
        Op::SomeColumns => structure_in(seen, &no_columns).len() > 0,
        Op::GeneratedAre => {
            let wanted = split(arg, '|');
            same_texts(&computed_of(structure_in(seen, &no_columns)), &wanted)
        },
        Op::OfferedAre => {
            let wanted = split(arg, '|');
            same_texts(writable_in(seen, &no_names), &wanted)
        },
        Op::LeftOutAre => {
            let wanted = split(arg, '|');
            same_texts(left_out_in(seen, &no_names), &wanted)
        },
        Op::Offers => does_hold_named(writable_in(seen, &no_names), arg),
        Op::PositionsRight => wrong_position_of(
            structure_in(look(memory, other, &nothing), &no_columns),
            writable_in(look(memory, TARGETS_SLOT, &nothing), &no_names),
            mapping_in(seen, &no_mapping),
        ).is_none(),
        Op::HasColumnA => {
            let list = names_of(structure_in(seen, &no_columns));
            named_at_of(&list, "A").is_some()
        },
        Op::NamesNoComputed => named_in_of(
            left_out_in(look(memory, TARGETS_SLOT, &nothing), &no_names),
            words_of(seen).as_str(),
        ).is_none(),
        Op::ReadWidths => match seen {
            Seen::Export(read) => read.catalog.len() == read.columns.len(),
            _ => false,
        },
        Op::HasNullRow => match seen {
            Seen::Export(read) => null_row_of(&read.rows).is_some(),
            _ => false,
        },
        Op::NullsArrive => match seen {
            Seen::Export(read) => match null_row_of(&read.rows) {
                Some(row) => lost_column_of(read, row).is_none(),
                None => false,
            },
            _ => false,
        },
        Op::ReadCellIs => match (seen, two_parts(arg)) {
            (Seen::Export(read), Some((name, value))) => same(
                read_cell_of(read, 0, name.as_str()).as_str(),
                value.as_str(),
            ),
            _ => false,
        },
        Op::ReadCellHolds => match (seen, two_parts(arg)) {
            (Seen::Export(read), Some((name, value))) => finds(
                read_cell_of(read, 0, name.as_str()).as_str(),
                value.as_str(),
            ),
            _ => false,
        },
        Op::ReadRowsAre => match seen {
            Seen::Export(read) => read.rows.len() == other,
            _ => false,
        },
        Op::NullTold => match seen {
            Seen::Export(read) => is_null_told(read),
            _ => false,
        },
        Op::ReadColumnsAre => match seen {
            Seen::Export(read) => {
                let wanted = split(arg, '|');
                same_texts(&bare_uppers_of(&read.columns), &wanted)
            },
            _ => false,
        },
        _ => false,
    }
}

/// What a test of the import probes that does not hold says of itself.
pub open spec fn import_own_words(
    op: Op,
    slot: int,
    other: int,
    arg: Seq<char>,
    memory: Seq<Seen>,
) -> Seq<char> {
    let seen = at(memory, slot);
    let second = at(memory, other);
    match op {
        Op::CatalogWidth => "catalog reported "@ + decimal(
            pairs_spec(rows(events(seen))).len() as int,
        ) + " columns, the driver reported "@ + decimal(
            grid_columns(events(second)).len() as int,
        ),
        Op::LiteralsAgree => match seen {
            Seen::Literals(cs) => unlike_words(grid_rows(events(second)), cs@),
            _ => Seq::empty(),
        },
        Op::NullsArrive => match seen {
            Seen::Export(read) => lost_words(read),
            _ => Seq::empty(),
        },
        Op::PositionsRight => position_words(
            structure(second),
            writable(at(memory, TARGETS_SLOT as int)),
            mapping(seen),
        ),
        Op::NamesNoComputed => match named_in(
            left_out(at(memory, TARGETS_SLOT as int)),
            words(seen),
            0,
        ) {
            Some(i) => "the SQL Inserts export named the computed column "@ + left_out(
                at(memory, TARGETS_SLOT as int),
            )[i] + ": "@ + words(seen),
            None => Seq::empty(),
        },
        Op::ReadCellIs => match seen {
            Seen::Export(read) => if split_on(arg, '|').len() == 2 {
                split_on(arg, '|')[0] + " read as "@ + debug_form(
                    read_cell(read, 0, split_on(arg, '|')[0]),
                ) + ", expected "@ + debug_form(split_on(arg, '|')[1])
            } else {
                Seq::empty()
            },
            _ => Seq::empty(),
        },
        Op::ReadCellHolds => match seen {
            Seen::Export(read) => if split_on(arg, '|').len() == 2 {
                split_on(arg, '|')[0] + " read as "@ + debug_form(
                    read_cell(read, 0, split_on(arg, '|')[0]),
                )
                    + " — the fractional seconds are gone, so the exported value is not the stored one"@
            } else {
                Seq::empty()
            },
            _ => Seq::empty(),
        },
        Op::GridCellWidth => "the grid holds "@ + decimal(byte_length(grid_cell(events(seen), 1)))
            + " characters ("@ + first_forty(grid_cell(events(seen), 1))
            + ") for a 3000-byte BLOB, expected "@ + decimal(other),
        _ => Seq::empty(),
    }
}

/// The first forty characters of a text.
pub open spec fn first_forty(s: Seq<char>) -> Seq<char> {
    if s.len() <= 40 { s } else { s.take(40) }
}

fn first_forty_of(s: &str) -> (r: String)
    ensures
        r@ == first_forty(s@),
{
    let x = crate::text::chars_of(s);
    if x.len() <= 40 {
        s.to_owned()
    } else {
        let out = crate::text::text_of(&x, 0, 40);
        assert(out@ =~= s@.take(40));
        out
    }
}

pub fn import_own_text(op: Op, slot: usize, other: usize, arg: &str, memory: &Vec<Seen>) -> (r:
    String)
    ensures
        r@ == import_own_words(op, slot as int, other as int, arg@, memory@),
{
    let nothing = Seen::Nothing;
    let none: Vec<QueryProgress> = Vec::new();
    let no_columns: Vec<TableColumnDetail> = Vec::new();
    let no_names: Vec<String> = Vec::new();
    let no_mapping: Vec<Option<usize>> = Vec::new();
    let seen = look(memory, slot, &nothing);
    let second = look(memory, other, &nothing);
    match op {
        Op::CatalogWidth => {
            let mut out = "catalog reported ".to_owned();
            out.append(count_text(pairs(events_in(seen, &none)).len()).as_str());
            out.append(" columns, the driver reported ");
            out.append(count_text(columns_in(events_in(second, &none))).as_str());
            out
        },
        Op::LiteralsAgree => match seen {
            Seen::Literals(cs) => {
                let t = grid_rows_of(events_in(second, &none));
                unlike_text(&t, cs)
            },
            _ => String::new(),
        },
        Op::NullsArrive => match seen {
            Seen::Export(read) => lost_text(read),
            _ => String::new(),
        },
        Op::PositionsRight => position_text(
            structure_in(second, &no_columns),
            writable_in(look(memory, TARGETS_SLOT, &nothing), &no_names),
            mapping_in(seen, &no_mapping),
        ),
        Op::NamesNoComputed => {
            let list = left_out_in(look(memory, TARGETS_SLOT, &nothing), &no_names);
            let script = words_of(seen);
            match named_in_of(list, script.as_str()) {
                Some(i) => {
                    assert(views(list@)[i as int] == list@[i as int]@);
                    let mut out = "the SQL Inserts export named the computed column ".to_owned();
                    out.append(list[i].as_str());
                    out.append(": ");
                    out.append(script.as_str());
                    out
                },
                None => String::new(),
            }
        },
        Op::ReadCellIs => match (seen, two_parts(arg)) {
            (Seen::Export(read), Some((name, value))) => {
                let cell = read_cell_of(read, 0, name.as_str());
                let mut out = name;
                out.append(" read as ");
                out.append(quoted(cell.as_str()).as_str());
                out.append(", expected ");
                out.append(quoted(value.as_str()).as_str());
                out
            },
            _ => String::new(),
        },
        Op::ReadCellHolds => match (seen, two_parts(arg)) {
            (Seen::Export(read), Some((name, value))) => {
                let cell = read_cell_of(read, 0, name.as_str());
                let mut out = name;
                out.append(" read as ");
                out.append(quoted(cell.as_str()).as_str());
                out.append(
                    " — the fractional seconds are gone, so the exported value is not the stored one",
                );
                out
            },
            _ => String::new(),
        },
        Op::GridCellWidth => {
            let cell = grid_cell_of(events_in(seen, &none), 1);
            let mut out = "the grid holds ".to_owned();
            out.append(count_text(byte_length_of(cell.as_str())).as_str());
            out.append(" characters (");
            out.append(first_forty_of(cell.as_str()).as_str());
            out.append(") for a 3000-byte BLOB, expected ");
            out.append(count_text(other).as_str());
            out
        },
        _ => String::new(),
    }
}

} // verus!
