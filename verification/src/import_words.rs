//! How the observations of the import probes are written.
use vstd::prelude::*;
use vstd::string::*;

use crate::grid::{
    count_text_spec, grid_columns, grid_count, grid_model, grid_rows, grid_rows_of, grid_view,
    kind_label, kind_name, pairs, pairs_spec, table, GridView,
};
use crate::import::{
    cell_view, expected_cells, expected_table, join_rows, joined_rows, rows_view, ExportRead,
    ImportCell, ImportTargets, ImportedTable, TableColumnDetail,
};
use crate::import_data::{names, names_of};
use crate::import_verdict::{
    bare_uppers, bare_uppers_of, byte_length, byte_length_of, computed, computed_of, first_cells,
    first_cells_of, grid_cell, grid_cell_of, grid_scalar, grid_scalar_of, imported_cell,
    imported_cell_of, named_at, named_at_of, read_cell, read_cell_of, stored, stored_of,
};
use crate::progress::{first_error, first_error_spec, rows, QueryProgress, SqlValueKind};
use crate::seen::{bracketed, bracketed_text, optional, optional_text, Seen};
use crate::template::{debug_all, names_text, table_form, table_text};
use crate::text::{
    chars_of, count_text, debug_form, decimal, occurrences, occurrences_of, quoted, views,
};

verus! {

pub open spec fn cell_form(cell: Option<Seq<char>>) -> Seq<char> {
    match cell {
        Some(text) => optional(Some(debug_form(text))),
        None => optional(None),
    }
}

pub fn cell_text(cell: &ImportCell) -> (r: String)
    ensures
        r@ == cell_form(cell_view(*cell)),
{
    match cell {
        Some(text) => optional_text(Some(quoted(text.as_str()))),
        None => optional_text(None),
    }
}

/// Rows of cells that may be absent, in `Debug` form.
pub open spec fn cells_form(t: Seq<Seq<Option<Seq<char>>>>) -> Seq<char> {
    bracketed(
        Seq::new(
            t.len(),
            |i: int| bracketed(Seq::new(t[i].len(), |j: int| cell_form(t[i][j]))),
        ),
    )
}

fn cell_row_text(row: &Vec<ImportCell>) -> (r: String)
    ensures
        r@ == bracketed(Seq::new(row@.len(), |j: int| cell_form(cell_view(row@[j])))),
{
    let mut out: Vec<String> = Vec::new();
    let mut i: usize = 0;
    while i < row.len()
        invariant
            i <= row@.len(),
            out@.len() == i,
            forall|k: int| 0 <= k < i ==> (#[trigger] out@[k])@ == cell_form(cell_view(row@[k])),
        decreases row@.len() - i,
    {
        out.push(cell_text(&row[i]));
        i += 1;
    }
    assert(views(out@) =~= Seq::new(row@.len(), |j: int| cell_form(cell_view(row@[j]))));
    bracketed_text(&out)
}

pub fn cells_text(t: &Vec<Vec<ImportCell>>) -> (r: String)
    ensures
        r@ == cells_form(rows_view(t@)),
{
    let ghost all = rows_view(t@);
    let mut out: Vec<String> = Vec::new();
    let mut i: usize = 0;
    while i < t.len()
        invariant
            i <= t@.len(),
            all == rows_view(t@),
            out@.len() == i,
            forall|k: int|
                0 <= k < i ==> (#[trigger] out@[k])@ == bracketed(
                    Seq::new(all[k].len(), |j: int| cell_form(all[k][j])),
                ),
        decreases t@.len() - i,
    {
        let text = cell_row_text(&t[i]);
        assert(Seq::new(t@[i as int]@.len(), |j: int| cell_form(cell_view(t@[i as int]@[j])))
            =~= Seq::new(all[i as int].len(), |j: int| cell_form(all[i as int][j])));
        out.push(text);
        i += 1;
    }
    assert(views(out@) =~= Seq::new(
        all.len(),
        |i: int| bracketed(Seq::new(all[i].len(), |j: int| cell_form(all[i][j]))),
    ));
    bracketed_text(&out)
}

/// Blanks up to a width of six.
pub open spec fn padded(s: Seq<char>) -> Seq<char>
    decreases 6 - s.len(),
{
    if s.len() < 6 { padded(s.push(' ')) } else { s }
}

fn padded_text(s: &str) -> (r: String)
    ensures
        r@ == padded(s@),
{
    let mut out = s.to_owned();
    let mut width: usize = chars_of(s).len();
    while width < 6
        invariant
            width == out@.len(),
            padded(out@) == padded(s@),
        decreases 6 - width,
    {
        out.push(' ');
        width += 1;
    }
    out
}

/// The columns of a grid with their kinds, a line each.
pub open spec fn kind_lines(columns: Seq<Seq<char>>, kinds: Seq<SqlValueKind>) -> Seq<char>
    decreases columns.len(),
{
    if columns.len() == 0 || columns.len() != kinds.len() {
        Seq::empty()
    } else {
        kind_lines(columns.drop_last(), kinds.drop_last()) + "\n  "@ + padded(columns.last()) + " "@
            + kind_name(kinds.last())
    }
}

fn kind_lines_text(view: &GridView) -> (r: String)
    ensures
        view.columns@.len() == view.kinds@.len() ==> r@ == kind_lines(
            views(view.columns@),
            view.kinds@,
        ),
{
    let ghost all = views(view.columns@);
    let mut out = String::new();
    if view.columns.len() != view.kinds.len() {
        return out;
    }
    let mut i: usize = 0;
    while i < view.columns.len()
        invariant
            i <= view.columns@.len() == view.kinds@.len(),
            all == views(view.columns@),
            out@ == kind_lines(all.take(i as int), view.kinds@.take(i as int)),
        decreases view.columns@.len() - i,
    {
        assert(all.take(i + 1).drop_last() =~= all.take(i as int));
        assert(view.kinds@.take(i + 1).drop_last() =~= view.kinds@.take(i as int));
        assert(all[i as int] == view.columns@[i as int]@);
        out.append("\n  ");
        out.append(padded_text(view.columns[i].as_str()).as_str());
        out.append(" ");
        out.append(kind_label(view.kinds[i]));
        i += 1;
    }
    assert(all.take(i as int) =~= all);
    assert(view.kinds@.take(i as int) =~= view.kinds@);
    out
}

/// The columns and kinds of a run's grid, a line each.
pub open spec fn run_kind_lines(run: Seq<QueryProgress>) -> Seq<char> {
    match grid_model(run) {
        Some(view) => kind_lines(view.columns, view.kinds),
        None => Seq::empty(),
    }
}

fn run_kind_lines_text(run: &Vec<QueryProgress>) -> (r: String)
    ensures
        r@ == run_kind_lines(run@),
{
    match grid_view(run) {
        Some(view) => {
            proof {
                crate::grid::grid_holds_only_exported_columns(run@, 0);
            }
            assert(views(view.columns@).len() == view.columns@.len());
            kind_lines_text(&view)
        },
        None => String::new(),
    }
}

/// The names of the pairs that a run read.
pub open spec fn pair_names(list: Seq<(Seq<char>, Seq<char>)>) -> Seq<Seq<char>> {
    Seq::new(list.len(), |i: int| list[i].0)
}

fn pair_names_of(run: &Vec<QueryProgress>) -> (r: Vec<String>)
    ensures
        views(r@) == pair_names(pairs_spec(rows(run@))),
{
    let list = pairs(run);
    let ghost all = pairs_spec(rows(run@));
    let mut out: Vec<String> = Vec::new();
    let mut i: usize = 0;
    while i < list.len()
        invariant
            i <= list@.len() == all.len(),
            forall|k: int| 0 <= k < list@.len() ==> ((#[trigger] list@[k]).0@, list@[k].1@) == all[k],
            out@.len() == i,
            forall|k: int| 0 <= k < i ==> (#[trigger] out@[k])@ == all[k].0,
        decreases list@.len() - i,
    {
        assert((list@[i as int].0@, list@[i as int].1@) == all[i as int]);
        out.push(list[i].0.clone());
        i += 1;
    }
    assert(views(out@) =~= pair_names(all));
    out
}

pub open spec fn stored_form(run: Seq<QueryProgress>, i: int) -> Seq<char> {
    if 0 <= i < stored(run).len() { debug_form(stored(run)[i]) } else { Seq::empty() }
}

fn stored_form_text(run: &Vec<QueryProgress>, i: usize) -> (r: String)
    ensures
        r@ == stored_form(run@, i as int),
{
    let cells = stored_of(run);
    assert(views(cells@).len() == cells@.len());
    if i < cells.len() {
        assert(views(cells@)[i as int] == cells@[i as int]@);
        quoted(cells[i].as_str())
    } else {
        String::new()
    }
}

/// How a run is written in the import probes: `A` and `B` the one cell it holds,
/// quoted and plain, `D` and `E` the first two cells, `F` its second cells, `H`
/// what a file must give back, `I` its count, `J` and `L` the pairs it read,
/// their number and their names, `K` its number of columns, `M` its first cells,
/// `O` its first error, `P` and `Q` its first two second cells, `S` its rows if
/// it has a grid, `8` its columns and kinds.
pub open spec fn import_hole(kind: char, run: Seq<QueryProgress>) -> Seq<char> {
    if kind == 'A' {
        debug_form(grid_scalar(run))
    } else if kind == 'B' {
        grid_scalar(run)
    } else if kind == 'D' {
        grid_cell(run, 0)
    } else if kind == 'E' {
        debug_form(grid_cell(run, 1))
    } else if kind == 'F' {
        bracketed(debug_all(stored(run)))
    } else if kind == 'H' {
        cells_form(expected_table(grid_rows(run)))
    } else if kind == 'I' {
        cell_form(count_text_spec(run))
    } else if kind == 'J' {
        decimal(pairs_spec(rows(run)).len() as int)
    } else if kind == 'K' {
        decimal(grid_columns(run).len() as int)
    } else if kind == 'L' {
        bracketed(debug_all(pair_names(pairs_spec(rows(run)))))
    } else if kind == 'M' {
        bracketed(debug_all(first_cells(grid_rows(run))))
    } else if kind == 'O' {
        cell_form(first_error_spec(run))
    } else if kind == 'P' {
        stored_form(run, 0)
    } else if kind == 'Q' {
        stored_form(run, 1)
    } else if kind == 'S' {
        match grid_model(run) {
            Some(view) => optional(Some(table_form(view.rows))),
            None => optional(None),
        }
    } else if kind == '8' {
        run_kind_lines(run)
    } else {
        Seq::empty()
    }
}

pub fn import_hole_text(kind: char, run: &Vec<QueryProgress>) -> (r: String)
    ensures
        r@ == import_hole(kind, run@),
{
    if kind == 'A' {
        quoted(grid_scalar_of(run).as_str())
    } else if kind == 'B' {
        grid_scalar_of(run)
    } else if kind == 'D' {
        grid_cell_of(run, 0)
    } else if kind == 'E' {
        quoted(grid_cell_of(run, 1).as_str())
    } else if kind == 'F' {
        names_text(&stored_of(run))
    } else if kind == 'H' {
        let source = grid_rows_of(run);
        cells_text(&expected_cells(&source))
    } else if kind == 'I' {
        cell_text(&grid_count(run))
    } else if kind == 'J' {
        count_text(pairs(run).len())
    } else if kind == 'K' {
        match grid_view(run) {
            Some(view) => {
                assert(views(view.columns@).len() == view.columns@.len());
                count_text(view.columns.len())
            },
            None => count_text(0),
        }
    } else if kind == 'L' {
        names_text(&pair_names_of(run))
    } else if kind == 'M' {
        names_text(&first_cells_of(run))
    } else if kind == 'O' {
        cell_text(&first_error(run))
    } else if kind == 'P' {
        stored_form_text(run, 0)
    } else if kind == 'Q' {
        stored_form_text(run, 1)
    } else if kind == 'S' {
        match grid_view(run) {
            Some(view) => optional_text(Some(table_text(&view.rows))),
            None => optional_text(None),
        }
    } else if kind == '8' {
        run_kind_lines_text(run)
    } else {
        String::new()
    }
}

/// How an imported table is written: `F` its rows with zone offsets joined, `R`
/// its rows, `Z` their number, `L` its columns, `a` and `b` the second cells of
/// its first and third rows.
pub open spec fn imported_hole(kind: char, t: ImportedTable) -> Seq<char> {
    if kind == 'F' {
        cells_form(joined_rows(t@.rows))
    } else if kind == 'R' {
        cells_form(t@.rows)
    } else if kind == 'Z' {
        decimal(t@.rows.len() as int)
    } else if kind == 'L' {
        bracketed(debug_all(t@.columns))
    } else if kind == 'a' {
        cell_form(imported_cell(Seen::Imported(t), 0, 1))
    } else if kind == 'b' {
        cell_form(imported_cell(Seen::Imported(t), 2, 1))
    } else {
        Seq::empty()
    }
}

pub fn imported_hole_text(kind: char, seen: &Seen, t: &ImportedTable) -> (r: String)
    requires
        *seen == Seen::Imported(*t),
    ensures
        r@ == imported_hole(kind, *t),
{
    if kind == 'F' {
        cells_text(&join_rows(&t.rows))
    } else if kind == 'R' {
        cells_text(&t.rows)
    } else if kind == 'Z' {
        assert(rows_view(t.rows@).len() == t.rows@.len());
        count_text(t.rows.len())
    } else if kind == 'L' {
        names_text(&t.columns)
    } else if kind == 'a' {
        cell_text(&imported_cell_of(seen, 0, 1))
    } else if kind == 'b' {
        cell_text(&imported_cell_of(seen, 2, 1))
    } else {
        String::new()
    }
}

/// The position of the column `A`, counted from one; zero where there is none.
pub open spec fn place_of_a(columns: Seq<TableColumnDetail>) -> int {
    match named_at(names(columns), "A"@) {
        Some(i) => i + 1,
        None => 0,
    }
}

fn place_of_a_in(columns: &Vec<TableColumnDetail>) -> (r: usize)
    ensures
        r as int == place_of_a(columns@),
        r <= columns@.len(),
{
    let list = names_of(columns);
    assert(views(list@).len() == list@.len());
    let size: usize = columns.len();
    match named_at_of(&list, "A") {
        Some(i) => i + 1,
        None => 0,
    }
}

pub open spec fn visibility(columns: Seq<TableColumnDetail>) -> Seq<Seq<char>> {
    Seq::new(
        columns.len(),
        |i: int|
            "("@ + debug_form(columns[i].name@) + ", "@ + crate::text::truth(
                columns[i].is_invisible,
            ) + ")"@,
    )
}

fn visibility_of(columns: &Vec<TableColumnDetail>) -> (r: Vec<String>)
    ensures
        views(r@) == visibility(columns@),
{
    let mut out: Vec<String> = Vec::new();
    let mut i: usize = 0;
    while i < columns.len()
        invariant
            i <= columns@.len(),
            out@.len() == i,
            forall|k: int| 0 <= k < i ==> (#[trigger] out@[k])@ == visibility(columns@)[k],
        decreases columns@.len() - i,
    {
        let mut pair = "(".to_owned();
        pair.append(quoted(columns[i].name.as_str()).as_str());
        pair.append(", ");
        pair.append(crate::text::truth_text(columns[i].is_invisible));
        pair.append(")");
        out.push(pair);
        i += 1;
    }
    assert(views(out@) =~= visibility(columns@));
    out
}

/// How a table's columns are written: `L` their names, `I` their names and
/// whether they are invisible, `C` the computed ones, `P` the place of `A`, `A`
/// a hundred times that.
pub open spec fn structure_hole(kind: char, columns: Seq<TableColumnDetail>) -> Seq<char> {
    if kind == 'L' {
        bracketed(debug_all(names(columns)))
    } else if kind == 'I' {
        bracketed(visibility(columns))
    } else if kind == 'C' {
        bracketed(debug_all(computed(columns)))
    } else if kind == 'P' {
        decimal(place_of_a(columns))
    } else if kind == 'A' {
        decimal(place_of_a(columns) * 100)
    } else {
        Seq::empty()
    }
}

pub fn structure_hole_text(kind: char, columns: &Vec<TableColumnDetail>) -> (r: String)
    ensures
        r@ == structure_hole(kind, columns@),
{
    if kind == 'L' {
        names_text(&names_of(columns))
    } else if kind == 'I' {
        bracketed_text(&visibility_of(columns))
    } else if kind == 'C' {
        names_text(&computed_of(columns))
    } else if kind == 'P' {
        count_text(place_of_a_in(columns))
    } else if kind == 'A' {
        let place: usize = place_of_a_in(columns);
        crate::text::very_wide_text(place as u128 * 100)
    } else {
        String::new()
    }
}

/// How the columns an import offers are written: `L` those, `C` the computed
/// ones.
pub open spec fn targets_hole(kind: char, targets: ImportTargets) -> Seq<char> {
    if kind == 'L' {
        bracketed(debug_all(views(targets.writable@)))
    } else if kind == 'C' {
        bracketed(debug_all(views(targets.generated@)))
    } else {
        Seq::empty()
    }
}

pub fn targets_hole_text(kind: char, targets: &ImportTargets) -> (r: String)
    ensures
        r@ == targets_hole(kind, *targets),
{
    if kind == 'L' {
        names_text(&targets.writable)
    } else if kind == 'C' {
        names_text(&targets.generated)
    } else {
        String::new()
    }
}

/// How what the object browser read is written: `N` and `M` the columns of the
/// catalog and of the query, by number, `L` the query's names, `Z` and `R` its
/// rows, their number and their cells, `W`, `X` and `S` the first `RAWC`, `BINC`
/// and `TS` cells.
pub open spec fn export_hole(kind: char, read: ExportRead) -> Seq<char> {
    if kind == 'N' {
        decimal(read.catalog@.len() as int)
    } else if kind == 'M' {
        decimal(read.columns@.len() as int)
    } else if kind == 'L' {
        bracketed(debug_all(bare_uppers(read.columns@)))
    } else if kind == 'Z' {
        decimal(read.rows@.len() as int)
    } else if kind == 'R' {
        table_form(table(read.rows@))
    } else if kind == 'W' {
        read_cell(read, 0, "RAWC"@)
    } else if kind == 'X' {
        read_cell(read, 0, "BINC"@)
    } else if kind == 'S' {
        read_cell(read, 0, "TS"@)
    } else {
        Seq::empty()
    }
}

pub fn export_hole_text(kind: char, read: &ExportRead) -> (r: String)
    ensures
        r@ == export_hole(kind, *read),
{
    if kind == 'N' {
        count_text(read.catalog.len())
    } else if kind == 'M' {
        count_text(read.columns.len())
    } else if kind == 'L' {
        names_text(&bare_uppers_of(&read.columns))
    } else if kind == 'Z' {
        count_text(read.rows.len())
    } else if kind == 'R' {
        table_text(&read.rows)
    } else if kind == 'W' {
        read_cell_of(read, 0, "RAWC")
    } else if kind == 'X' {
        read_cell_of(read, 0, "BINC")
    } else if kind == 'S' {
        read_cell_of(read, 0, "TS")
    } else {
        String::new()
    }
}

/// How a script is measured: `9` its semicolons, `a` and `b` its `INSERT ALL` and
/// `INSERT INTO`, `c` its bytes.
pub open spec fn measure_hole(kind: char, script: Seq<char>) -> Seq<char> {
    if kind == '9' {
        decimal(occurrences(script, ";"@) as int)
    } else if kind == 'a' {
        decimal(occurrences(script, "INSERT ALL"@) as int)
    } else if kind == 'b' {
        decimal(occurrences(script, "INSERT INTO"@) as int)
    } else if kind == 'c' {
        decimal(byte_length(script))
    } else {
        Seq::empty()
    }
}

pub fn measure_hole_text(kind: char, script: &str) -> (r: String)
    ensures
        r@ == measure_hole(kind, script@),
{
    proof {
        reveal_strlit(";");
        reveal_strlit("INSERT ALL");
        reveal_strlit("INSERT INTO");
    }
    if kind == '9' {
        count_text(occurrences_of(script, ";"))
    } else if kind == 'a' {
        count_text(occurrences_of(script, "INSERT ALL"))
    } else if kind == 'b' {
        count_text(occurrences_of(script, "INSERT INTO"))
    } else if kind == 'c' {
        count_text(byte_length_of(script))
    } else {
        String::new()
    }
}

} // verus!
