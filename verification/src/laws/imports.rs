//! The tests on files that were read back, on scripts and on tables, cell by cell.
use vstd::prelude::*;
use vstd::string::*;
use vstd::utf8::encode_utf8;

use crate::grid::{grid_columns, grid_rows, pairs_spec};
use crate::import::{
    cell_view, expected_table, joined_rows, null_text, row_view, rows_view, snapshot_table, zone,
    zone_joined, ExportRead, ImportCell, ImportedTable, LiteralColumn, TableColumnDetail,
};
use crate::import_data::{hostile_rows_model, names, numbered_model, HOSTILE_VALUES};
use crate::import_verdict::{
    bare_uppers, computed, exactly_at, first_cells, holds_named, holds_text, left_out, literal_at,
    lost_column, lost_null, mapped, mapping, named_at, named_in, null_row, read_null, right_target,
    stored, structure, unlike_column, unlike_row, writable, wrong_position, TARGETS_SLOT,
};
use crate::laws::events::{finished, is_first_failure, the_error_is_the_first_failure};
use crate::laws::runs::ran;
use crate::laws::texts::{blank, texts_are_the_same_but_for_case, trimming_takes_the_blanks_around};
use crate::op::Op;
use crate::progress::{rows, QueryProgress};
use crate::seen::{at, events, words, Seen};
use crate::text::{
    contains, decimal, occurrences, same_ignoring_case, split_on, texts, trim, trim_end, upper,
    views,
};
use crate::verdict::holds;

verus! {

/// A cell of the grid means NULL where it is empty or spells the word, in any case;
/// any other text does not.
pub proof fn null_is_empty_or_spelled(value: Seq<char>)
    ensures
        null_text(value) <==> value.len() == 0 || upper(value) == "NULL"@,
{
    reveal_strlit("NULL");
    texts_are_the_same_but_for_case(value, "NULL"@);
    assert(upper("NULL"@) =~= "NULL"@);
}

/// A zone offset loses the blanks before it where a blank stands right before it;
/// any other text is left as it is.
pub proof fn only_a_zone_offset_is_joined(s: Seq<char>, head: Seq<char>, offset: Seq<char>)
    ensures
        zone(offset) && s == head + seq![' '] + offset ==> zone_joined(s) == trim_end(
            head + seq![' '],
        ) + offset,
        s.len() < 7 || !zone(s.skip(s.len() - 6)) || s[s.len() - 7] != ' ' ==> zone_joined(s) == s,
        zone(offset) ==> offset.len() == 6 && (offset[0] == '+' || offset[0] == '-') && offset[3]
            == ':' && '0' <= offset[1] <= '9' && '0' <= offset[2] <= '9' && '0' <= offset[4] <= '9'
            && '0' <= offset[5] <= '9',
        offset.len() == 6 && (offset[0] == '+' || offset[0] == '-') && offset[3] == ':' && '0'
            <= offset[1] <= '9' && '0' <= offset[2] <= '9' && '0' <= offset[4] <= '9' && '0'
            <= offset[5] <= '9' ==> zone(offset),
{
    if zone(offset) && s == head + seq![' '] + offset {
        let n = s.len() - 6;
        assert(s.skip(n) =~= offset);
        assert(s.take(n) =~= head + seq![' ']);
        assert(s[n - 1] == ' ');
    }
}

/// Whether a cell that was read back is what the grid showed: absent where the grid
/// showed NULL, and else the grid's text, blanks before a zone offset aside.
pub open spec fn read_back(cell: ImportCell, value: Seq<char>) -> bool {
    match cell {
        None => value.len() == 0 || upper(value) == "NULL"@,
        Some(text) => !(value.len() == 0 || upper(value) == "NULL"@) && zone_joined(text@)
            == zone_joined(value),
    }
}

/// Whether a file was read back as the grid showed it: as many rows, as many cells
/// in each, and every cell what the grid showed.
pub open spec fn file_read_back(t: ImportedTable, grid: Seq<Seq<Seq<char>>>) -> bool {
    &&& t.rows@.len() == grid.len()
    &&& forall|i: int| 0 <= i < grid.len() ==> (#[trigger] t.rows@[i])@.len() == grid[i].len()
    &&& forall|i: int, j: int|
        0 <= i < grid.len() && 0 <= j < grid[i].len() ==> read_back(
            #[trigger] t.rows@[i]@[j],
            grid[i][j],
        )
}

/// A file passes as read back exactly where every cell of it came back.
pub proof fn a_file_is_read_back_cell_by_cell(
    memory: Seq<Seen>,
    slot: int,
    other: int,
    arg: Seq<char>,
    t: ImportedTable,
    run: Seq<QueryProgress>,
)
    requires
        0 <= slot < memory.len(),
        memory[slot] == Seen::Imported(t),
        events(at(memory, other)) == run,
    ensures
        holds(Op::ParsedAsExpected, slot, other, arg, memory) <==> file_read_back(
            t,
            grid_rows(run),
        ),
{
    let grid = grid_rows(run);
    let parsed = rows_view(t.rows@);
    let x = joined_rows(parsed);
    let y = expected_table(grid);
    assert forall|i: int, j: int|
        0 <= i < t.rows@.len() && i < grid.len() && 0 <= j < t.rows@[i]@.len() && j
            < grid[i].len() implies (x[i][j] == y[i][j]) == read_back(
        #[trigger] t.rows@[i]@[j],
        grid[i][j],
    ) by {
        assert(parsed[i] == row_view(t.rows@[i]@));
        assert(parsed[i][j] == cell_view(t.rows@[i]@[j]));
        null_is_empty_or_spelled(grid[i][j]);
    }
    assert forall|i: int| 0 <= i < t.rows@.len() implies (#[trigger] x[i]).len()
        == t.rows@[i]@.len() by {
        assert(parsed[i] == row_view(t.rows@[i]@));
    }
    if x == y {
        assert(x.len() == y.len());
        assert forall|i: int| 0 <= i < grid.len() implies (#[trigger] t.rows@[i])@.len()
            == grid[i].len() by {
            assert(x[i].len() == y[i].len());
        }
        assert forall|i: int, j: int| 0 <= i < grid.len() && 0 <= j < grid[i].len() implies read_back(
            #[trigger] t.rows@[i]@[j],
            grid[i][j],
        ) by {
            assert(x[i].len() == y[i].len());
            assert(x[i][j] == y[i][j]);
        }
    }
    if file_read_back(t, grid) {
        assert forall|i: int| 0 <= i < x.len() implies #[trigger] x[i] == y[i] by {
            assert(t.rows@[i]@.len() == grid[i].len());
            assert forall|j: int| 0 <= j < x[i].len() implies #[trigger] x[i][j] == y[i][j] by {
                assert(read_back(t.rows@[i]@[j], grid[i][j]));
            }
            assert(x[i] =~= y[i]);
        }
        assert(x =~= y);
    }
}

/// What is no file does not pass as one.
pub proof fn only_a_file_is_read_back(memory: Seq<Seen>, slot: int, other: int, arg: Seq<char>)
    requires
        0 <= slot < memory.len(),
        !(memory[slot] is Imported),
    ensures
        !holds(Op::ParsedAsExpected, slot, other, arg, memory),
        !holds(Op::ParsedHostile, slot, other, arg, memory),
        !holds(Op::ParsedNumbered, slot, other, arg, memory),
        !holds(Op::ParsedCellIs, slot, other, arg, memory),
        holds(Op::ParsedRowsAre, slot, other, arg, memory) <==> other == 0,
{
}

/// What every file must give back, and what an export writes: the first leaves out
/// NULL in either spelling and joins zone offsets, the second leaves out the NULL
/// text alone and keeps every other cell to the letter.
pub proof fn cells_are_expected_and_exported(t: Seq<Seq<Seq<char>>>, i: int, j: int)
    requires
        0 <= i < t.len(),
        0 <= j < t[i].len(),
    ensures
        expected_table(t).len() == t.len() && expected_table(t)[i].len() == t[i].len(),
        snapshot_table(t).len() == t.len() && snapshot_table(t)[i].len() == t[i].len(),
        expected_table(t)[i][j] == (if t[i][j].len() == 0 || upper(t[i][j]) == "NULL"@ {
            None
        } else {
            Some(zone_joined(t[i][j]))
        }),
        snapshot_table(t)[i][j] is None <==> t[i][j] == "NULL"@,
        snapshot_table(t)[i][j] matches Some(text) ==> text == t[i][j],
{
    null_is_empty_or_spelled(t[i][j]);
}

/// The tests on a file that was read back: how many rows it has, and what stands in
/// a cell. A place is numbered by ten times its row and its column.
pub proof fn a_file_is_tested(
    memory: Seq<Seen>,
    slot: int,
    other: int,
    arg: Seq<char>,
    t: ImportedTable,
    row: int,
    column: int,
)
    requires
        0 <= slot < memory.len(),
        memory[slot] == Seen::Imported(t),
    ensures
        holds(Op::ParsedRowsAre, slot, other, arg, memory) <==> t.rows@.len() == other,
        0 <= row < t.rows@.len() && 0 <= column < t.rows@[row]@.len() && column < 10 ==> {
            let cell = t.rows@[row]@[column];
            &&& holds(Op::ParsedCellIs, slot, 10 * row + column, arg, memory) <==> (cell matches
                Some(text) && text@ == arg)
            &&& holds(Op::ParsedCellAbsent, slot, 10 * row + column, arg, memory) <==> cell is None
        },
{
    if 0 <= row < t.rows@.len() && 0 <= column < t.rows@[row]@.len() && column < 10 {
        assert((10 * row + column) / 10 == row && (10 * row + column) % 10 == column)
            by (nonlinear_arith)
            requires
                0 <= row,
                0 <= column < 10,
        ;
        let parsed = rows_view(t.rows@);
        assert(parsed[row] == row_view(t.rows@[row]@));
        assert(parsed[row][column] == cell_view(t.rows@[row]@[column]));
    }
}

/// Whether a file holds these values in its second column, numbered from one in its
/// first, and nothing else.
pub open spec fn holds_numbered(t: ImportedTable, values: Seq<Seq<char>>) -> bool {
    &&& t.rows@.len() == values.len()
    &&& forall|i: int|
        0 <= i < values.len() ==> {
            &&& (#[trigger] t.rows@[i])@.len() == 2
            &&& t.rows@[i]@[0] matches Some(n) && n@ == decimal(i + 1)
            &&& t.rows@[i]@[1] matches Some(v) && v@ == values[i]
        }
}

proof fn lemma_numbered(t: ImportedTable, values: Seq<Seq<char>>, model: Seq<Seq<Option<Seq<char>>>>)
    requires
        model.len() == values.len(),
        forall|i: int|
            0 <= i < values.len() ==> #[trigger] model[i] == seq![
                Some(decimal(i + 1)),
                Some(values[i]),
            ],
    ensures
        rows_view(t.rows@) == model <==> holds_numbered(t, values),
{
    let parsed = rows_view(t.rows@);
    if parsed == model {
        assert(parsed.len() == t.rows@.len());
        assert forall|i: int| 0 <= i < values.len() implies {
            &&& (#[trigger] t.rows@[i])@.len() == 2
            &&& t.rows@[i]@[0] matches Some(n) && n@ == decimal(i + 1)
            &&& t.rows@[i]@[1] matches Some(v) && v@ == values[i]
        } by {
            assert(parsed[i] == row_view(t.rows@[i]@));
            assert(model[i].len() == 2);
            assert(row_view(t.rows@[i]@)[0] == cell_view(t.rows@[i]@[0]));
            assert(row_view(t.rows@[i]@)[1] == cell_view(t.rows@[i]@[1]));
            assert(model[i][0] == Some(decimal(i + 1)));
            assert(model[i][1] == Some(values[i]));
        }
    }
    if holds_numbered(t, values) {
        assert forall|i: int| 0 <= i < parsed.len() implies #[trigger] parsed[i] == model[i] by {
            assert(t.rows@[i]@.len() == 2);
            assert(parsed[i] =~= model[i]);
        }
        assert(parsed =~= model);
    }
}

/// The hostile values and the numbered rows came back exactly where each of them
/// stands in its row, under its number.
pub proof fn hostile_values_come_back(
    memory: Seq<Seen>,
    slot: int,
    other: int,
    arg: Seq<char>,
    t: ImportedTable,
    count: int,
)
    requires
        0 <= slot < memory.len(),
        memory[slot] == Seen::Imported(t),
        0 <= count,
    ensures
        holds(Op::ParsedHostile, slot, other, arg, memory) <==> holds_numbered(
            t,
            texts(HOSTILE_VALUES@),
        ),
        holds(Op::ParsedNumbered, slot, count, arg, memory) <==> holds_numbered(
            t,
            Seq::new(count as nat, |i: int| "row "@ + decimal(i + 1)),
        ),
{
    lemma_numbered(t, texts(HOSTILE_VALUES@), hostile_rows_model());
    lemma_numbered(
        t,
        Seq::new(count as nat, |i: int| "row "@ + decimal(i + 1)),
        numbered_model(count).rows,
    );
}

/// The hostile values hold what a file of SQL has to write with care: a backslash at
/// the end, one before a quote, an ampersand, wildcards behind backslashes, and
/// control characters.
pub proof fn hostile_values_are_hostile()
    ensures
        HOSTILE_VALUES@[0]@.last() == '\\',
        contains(HOSTILE_VALUES@[1]@, "\\'"@),
        contains(HOSTILE_VALUES@[2]@, "&"@),
        HOSTILE_VALUES@[3]@.last() == '\\',
        contains(HOSTILE_VALUES@[4]@, "\\%"@) && contains(HOSTILE_VALUES@[4]@, "\\_"@),
        exists|i: int| 0 <= i < HOSTILE_VALUES@[5]@.len() && HOSTILE_VALUES@[5]@[i] == '\u{1A}',
        exists|i: int| 0 <= i < HOSTILE_VALUES@[5]@.len() && HOSTILE_VALUES@[5]@[i] == '\u{8}',
{
    reveal_strlit("ends with a backslash \\");
    reveal_strlit("before a quote a\\'b");
    reveal_strlit("R&D and &&both");
    reveal_strlit("windows C:\\path\\");
    reveal_strlit("like wildcards a\\%b and a\\_b");
    reveal_strlit("control a\u{1A}b and a\u{8}c");
    reveal_strlit("\\'");
    reveal_strlit("&");
    reveal_strlit("\\%");
    reveal_strlit("\\_");
    let b = HOSTILE_VALUES@[1]@;
    assert(b.subrange(16, 18) =~= "\\'"@);
    assert(crate::text::stands_at(b, "\\'"@, 16));
    let c = HOSTILE_VALUES@[2]@;
    assert(c.subrange(1, 2) =~= "&"@);
    assert(crate::text::stands_at(c, "&"@, 1));
    let e = HOSTILE_VALUES@[4]@;
    assert(e.subrange(16, 18) =~= "\\%"@);
    assert(crate::text::stands_at(e, "\\%"@, 16));
    assert(e.subrange(25, 27) =~= "\\_"@);
    assert(crate::text::stands_at(e, "\\_"@, 25));
    let f = HOSTILE_VALUES@[5]@;
    assert(f[9] == '\u{1A}');
    assert(f[17] == '\u{8}');
}

/// The tests on what a server stored: the second cell of every row of the grid.
pub proof fn what_was_stored_is_tested(
    memory: Seq<Seen>,
    slot: int,
    other: int,
    arg: Seq<char>,
    run: Seq<QueryProgress>,
)
    requires
        ran(memory, slot, run),
        forall|i: int| 0 <= i < grid_rows(run).len() ==> (#[trigger] grid_rows(run)[i]).len() >= 2,
    ensures
        holds(Op::StoredCount, slot, other, arg, memory) <==> grid_rows(run).len() == other,
        holds(Op::StoredIs, slot, other, arg, memory) <==> 0 <= other < grid_rows(run).len()
            && grid_rows(run)[other][1] == arg,
        holds(Op::StoredHostile, slot, other, arg, memory) <==> grid_rows(run).len()
            == HOSTILE_VALUES@.len() && forall|i: int|
            0 <= i < HOSTILE_VALUES@.len() ==> (#[trigger] grid_rows(run)[i])[1]
                == HOSTILE_VALUES@[i]@,
{
    let g = grid_rows(run);
    let s = stored(run);
    let w = texts(HOSTILE_VALUES@);
    assert forall|i: int| 0 <= i < g.len() implies #[trigger] s[i] == g[i][1] by {
        assert(g[i].len() >= 2);
    }
    assert(s.len() == g.len());
    if s == w {
        assert(g.len() == HOSTILE_VALUES@.len());
        assert forall|i: int| 0 <= i < HOSTILE_VALUES@.len() implies (#[trigger] g[i])[1]
            == HOSTILE_VALUES@[i]@ by {
            assert(s[i] == g[i][1]);
            assert(w[i] == HOSTILE_VALUES@[i]@);
        }
    }
    if g.len() == HOSTILE_VALUES@.len() && (forall|i: int|
        0 <= i < HOSTILE_VALUES@.len() ==> (#[trigger] g[i])[1] == HOSTILE_VALUES@[i]@) {
        assert forall|i: int| 0 <= i < s.len() implies #[trigger] s[i] == w[i] by {
            assert(g[i][1] == HOSTILE_VALUES@[i]@);
        }
        assert(s =~= w);
    }
}

/// The tests on the first row of a grid: its last cell, or one by number.
pub proof fn the_first_row_of_a_grid_is_tested(
    memory: Seq<Seen>,
    slot: int,
    other: int,
    arg: Seq<char>,
    run: Seq<QueryProgress>,
)
    requires
        ran(memory, slot, run),
        grid_rows(run).len() > 0,
        grid_rows(run)[0].len() > 0,
    ensures
        holds(Op::GridScalarIs, slot, other, arg, memory) <==> trim(grid_rows(run)[0].last())
            == arg,
        holds(Op::GridScalarIsNot, slot, other, arg, memory) <==> trim(grid_rows(run)[0].last())
            != arg,
        holds(Op::CountTextIs, slot, other, arg, memory) <==> trim(grid_rows(run)[0].last())
            == arg,
        0 <= other < grid_rows(run)[0].len() ==> (holds(Op::GridCellIs, slot, other, arg, memory)
            <==> trim(grid_rows(run)[0][other]) == arg),
        grid_rows(run)[0].len() > 1 ==> (holds(Op::GridCellWidth, slot, other, arg, memory)
            <==> encode_utf8(grid_rows(run)[0][1]).len() as usize == other),
{
}

/// A grid without a cell has no count, and no number stands in it.
pub proof fn an_empty_grid_has_no_count(
    memory: Seq<Seen>,
    slot: int,
    other: int,
    arg: Seq<char>,
    run: Seq<QueryProgress>,
)
    requires
        ran(memory, slot, run),
        grid_rows(run).len() == 0 || grid_rows(run)[0].len() == 0,
        arg.len() > 0,
    ensures
        !holds(Op::CountTextIs, slot, other, arg, memory),
        !holds(Op::GridScalarIs, slot, other, arg, memory),
        holds(Op::GridScalarIsNot, slot, other, arg, memory),
        !holds(Op::GridCellIs, slot, other, arg, memory),
{
    let e = Seq::<char>::empty();
    trimming_takes_the_blanks_around(e);
    let (before, after) = choose|before: Seq<char>, after: Seq<char>|
        e == #[trigger] (before + trim(e) + after) && blank(before) && blank(after);
    assert(e.len() == before.len() + trim(e).len() + after.len());
}

/// The first column of a grid has a name where some row's first cell is it, blanks
/// and case aside.
pub proof fn the_first_column_is_searched(
    memory: Seq<Seen>,
    slot: int,
    other: int,
    arg: Seq<char>,
    run: Seq<QueryProgress>,
)
    requires
        ran(memory, slot, run),
    ensures
        holds(Op::FirstColumnHas, slot, other, arg, memory) <==> exists|i: int|
            0 <= i < grid_rows(run).len() && (#[trigger] grid_rows(run)[i]).len() > 0 && upper(
                trim(grid_rows(run)[i][0]),
            ) == arg,
{
    lemma_first_cells(grid_rows(run), arg);
}

proof fn lemma_first_cells(t: Seq<Seq<Seq<char>>>, arg: Seq<char>)
    ensures
        holds_text(first_cells(t), arg) <==> exists|i: int|
            0 <= i < t.len() && (#[trigger] t[i]).len() > 0 && upper(trim(t[i][0])) == arg,
    decreases t.len(),
{
    if t.len() > 0 {
        let front = t.drop_last();
        let a = first_cells(front);
        let all = first_cells(t);
        lemma_first_cells(front, arg);
        if holds_text(all, arg) {
            let k = choose|k: int| 0 <= k < all.len() && #[trigger] all[k] == arg;
            if k < a.len() {
                assert(a[k] == arg);
                let i = choose|i: int|
                    0 <= i < front.len() && (#[trigger] front[i]).len() > 0 && upper(
                        trim(front[i][0]),
                    ) == arg;
                assert(t[i] == front[i]);
            } else {
                assert(t[t.len() - 1].len() > 0);
            }
        }
        if exists|i: int|
            0 <= i < t.len() && (#[trigger] t[i]).len() > 0 && upper(trim(t[i][0])) == arg {
            let i = choose|i: int|
                0 <= i < t.len() && (#[trigger] t[i]).len() > 0 && upper(trim(t[i][0])) == arg;
            if i < front.len() {
                assert(front[i] == t[i]);
                let k = choose|k: int| 0 <= k < a.len() && #[trigger] a[k] == arg;
                assert(all[k] == arg);
            } else {
                assert(all[all.len() - 1] == arg);
            }
        }
    }
}

/// The two ways of writing literals agree exactly where they write every cell that
/// is not NULL alike.
pub proof fn literals_agree_cell_by_cell(
    memory: Seq<Seen>,
    slot: int,
    other: int,
    arg: Seq<char>,
    columns: Seq<LiteralColumn>,
    run: Seq<QueryProgress>,
)
    requires
        0 <= slot < memory.len(),
        memory[slot] matches Seen::Literals(cs) && cs@ == columns,
        ran(memory, other, run),
    ensures
        holds(Op::LiteralsAgree, slot, other, arg, memory) <==> forall|c: int, r: int|
            0 <= c < columns.len() && 0 <= r < grid_rows(run).len() && c < grid_rows(run)[r].len()
                && !(grid_rows(run)[r][c].len() == 0 || upper(grid_rows(run)[r][c]) == "NULL"@)
                ==> #[trigger] literal_at(columns[c].by_catalog@, r) == #[trigger] literal_at(
                columns[c].by_driver@,
                r,
            ),
{
    let t = grid_rows(run);
    lemma_unlike_column(t, columns, 0);
    if unlike_column(t, columns, 0) is None {
        assert forall|c: int, r: int|
            0 <= c < columns.len() && 0 <= r < t.len() && c < t[r].len() && !(t[r][c].len() == 0
                || upper(t[r][c]) == "NULL"@) implies #[trigger] literal_at(
            columns[c].by_catalog@,
            r,
        ) == #[trigger] literal_at(columns[c].by_driver@, r) by {
            null_is_empty_or_spelled(t[r][c]);
            assert(alike(t, columns[c], c, r));
        }
    }
    if forall|c: int, r: int|
        0 <= c < columns.len() && 0 <= r < t.len() && c < t[r].len() && !(t[r][c].len() == 0
            || upper(t[r][c]) == "NULL"@) ==> #[trigger] literal_at(columns[c].by_catalog@, r)
            == #[trigger] literal_at(columns[c].by_driver@, r) {
        assert forall|c: int, r: int|
            0 <= c < columns.len() && 0 <= r < t.len() implies #[trigger] alike(
            t,
            columns[c],
            c,
            r,
        ) by {
            if c < t[r].len() {
                null_is_empty_or_spelled(t[r][c]);
            }
        }
    }
}

spec fn alike(t: Seq<Seq<Seq<char>>>, column: LiteralColumn, c: int, r: int) -> bool {
    c < t[r].len() && !null_text(t[r][c]) ==> literal_at(column.by_catalog@, r) == literal_at(
        column.by_driver@,
        r,
    )
}

proof fn lemma_unlike_row(t: Seq<Seq<Seq<char>>>, column: LiteralColumn, c: int, from: int)
    requires
        0 <= from,
    ensures
        unlike_row(t, column, c, from) is None <==> forall|r: int|
            from <= r < t.len() ==> #[trigger] alike(t, column, c, r),
    decreases t.len() - from,
{
    if from < t.len() {
        lemma_unlike_row(t, column, c, from + 1);
        assert((unlike_row(t, column, c, from) is None) == (alike(t, column, c, from)
            && unlike_row(t, column, c, from + 1) is None));
    }
}

proof fn lemma_unlike_column(t: Seq<Seq<Seq<char>>>, columns: Seq<LiteralColumn>, from: int)
    requires
        0 <= from,
    ensures
        unlike_column(t, columns, from) is None <==> forall|c: int, r: int|
            from <= c < columns.len() && 0 <= r < t.len() ==> #[trigger] alike(
                t,
                columns[c],
                c,
                r,
            ),
    decreases columns.len() - from,
{
    if from < columns.len() {
        lemma_unlike_column(t, columns, from + 1);
        lemma_unlike_row(t, columns[from], from, 0);
        if unlike_column(t, columns, from) is None {
            assert forall|c: int, r: int|
                from <= c < columns.len() && 0 <= r < t.len() implies #[trigger] alike(
                t,
                columns[c],
                c,
                r,
            ) by {}
        }
    }
}

/// The tests on scripts and their runs: every column is mapped, a text occurs so
/// often, an error says a phrase, and no value stands unproved in a conversion.
pub proof fn scripts_are_tested(
    memory: Seq<Seen>,
    slot: int,
    other: int,
    arg: Seq<char>,
    run: Seq<QueryProgress>,
    map: Seq<Option<usize>>,
    i: int,
)
    requires
        0 <= slot < memory.len(),
    ensures
        (memory[slot] matches Seen::Mapping(m) && m@ == map) ==> (holds(
            Op::AllMapped,
            slot,
            other,
            arg,
            memory,
        ) <==> forall|k: int| 0 <= k < map.len() ==> (#[trigger] map[k]) is Some),
        !(memory[slot] is Mapping) ==> !holds(Op::AllMapped, slot, other, arg, memory),
        holds(Op::AtLeastParts, slot, other, arg, memory) <==> occurrences(
            words(memory[slot]),
            arg,
        ) >= other,
        contains(words(memory[slot]), "HEXTORAW"@) && !contains(
            words(memory[slot]),
            "HEXTORAW('DEADBEEF')"@,
        ) <==> !holds(Op::NotInterpolated, slot, other, arg, memory),
        ran(memory, slot, run) && is_first_failure(run, i) ==> (holds(
            Op::ErrorSays,
            slot,
            other,
            arg,
            memory,
        ) <==> crate::text::mentions_any((finished(run[i])->0).message@, arg)),
        !holds(Op::Never, slot, other, arg, memory),
{
    the_error_is_the_first_failure(run);
}

/// The catalog and the driver report as many columns.
pub proof fn the_catalog_is_as_wide_as_the_grid(
    memory: Seq<Seen>,
    slot: int,
    other: int,
    arg: Seq<char>,
    a: Seq<QueryProgress>,
    b: Seq<QueryProgress>,
)
    requires
        ran(memory, slot, a),
        ran(memory, other, b),
    ensures
        holds(Op::CatalogWidth, slot, other, arg, memory) <==> pairs_spec(rows(a)).len()
            == grid_columns(b).len(),
{
}

/// The columns that the server computes are those that the catalog says it does, in
/// their order.
pub proof fn computed_columns_are_listed_in_order(
    a: Seq<TableColumnDetail>,
    b: Seq<TableColumnDetail>,
    column: TableColumnDetail,
)
    ensures
        computed(a + b) == computed(a) + computed(b),
        column.is_generated ==> computed(seq![column]) == seq![column.name@],
        !column.is_generated ==> computed(seq![column]).len() == 0,
    decreases b.len(),
{
    if b.len() == 0 {
        assert(a + b =~= a);
        assert(computed(a) + computed(b) =~= computed(a));
    } else {
        computed_columns_are_listed_in_order(a, b.drop_last(), column);
        assert((a + b).drop_last() =~= a + b.drop_last());
        assert((a + b).last() == b.last());
        assert(computed(a + b) =~= computed(a) + computed(b));
    }
    let one = seq![column];
    assert(one.drop_last() =~= Seq::<TableColumnDetail>::empty());
    assert(computed(one.drop_last()) =~= Seq::<Seq<char>>::empty());
    assert(one.last() == column);
    if column.is_generated {
        assert(computed(one) =~= seq![column.name@]);
    }
}

/// The tests on a table's columns and on what an import offers of them.
pub proof fn a_table_is_tested(
    memory: Seq<Seen>,
    slot: int,
    other: int,
    arg: Seq<char>,
    columns: Seq<TableColumnDetail>,
    offered: Seq<String>,
    hidden: Seq<String>,
)
    requires
        0 <= slot < memory.len(),
    ensures
        (memory[slot] matches Seen::Structure(cs) && cs@ == columns) ==> {
            &&& holds(Op::SomeColumns, slot, other, arg, memory) <==> columns.len() > 0
            &&& holds(Op::GeneratedAre, slot, other, arg, memory) <==> computed(columns)
                == split_on(arg, '|')
            &&& holds(Op::HasColumnA, slot, other, arg, memory) <==> exists|i: int|
                0 <= i < columns.len() && upper((#[trigger] columns[i]).name@) == "A"@
        },
        (memory[slot] matches Seen::Targets(t) && t.writable@ == offered && t.generated@ == hidden)
            ==> {
            &&& holds(Op::OfferedAre, slot, other, arg, memory) <==> views(offered) == split_on(
                arg,
                '|',
            )
            &&& holds(Op::LeftOutAre, slot, other, arg, memory) <==> views(hidden) == split_on(
                arg,
                '|',
            )
            &&& holds(Op::Offers, slot, other, arg, memory) <==> exists|i: int|
                0 <= i < offered.len() && upper((#[trigger] offered[i])@) == upper(arg)
        },
{
    if memory[slot] matches Seen::Structure(cs) && cs@ == columns {
        reveal_strlit("A");
        assert(upper("A"@) =~= "A"@);
        let list = names(columns);
        named_at_is_first(list, "A"@);
        if named_at(list, "A"@) is Some {
            let at = named_at(list, "A"@)->0;
            texts_are_the_same_but_for_case(list[at], "A"@);
            assert(upper(columns[at].name@) == "A"@);
        }
        if exists|i: int| 0 <= i < columns.len() && upper((#[trigger] columns[i]).name@) == "A"@ {
            let i = choose|i: int|
                0 <= i < columns.len() && upper((#[trigger] columns[i]).name@) == "A"@;
            texts_are_the_same_but_for_case(list[i], "A"@);
            assert(same_ignoring_case(list[i], "A"@));
        }
    }
    if memory[slot] matches Seen::Targets(t) && t.writable@ == offered && t.generated@ == hidden {
        let list = views(offered);
        if holds_named(list, arg) {
            let i = choose|i: int| 0 <= i < list.len() && same_ignoring_case(#[trigger] list[i], arg);
            texts_are_the_same_but_for_case(list[i], arg);
            assert(upper(offered[i]@) == upper(arg));
        }
        if exists|i: int| 0 <= i < offered.len() && upper((#[trigger] offered[i])@) == upper(arg) {
            let i = choose|i: int|
                0 <= i < offered.len() && upper((#[trigger] offered[i])@) == upper(arg);
            texts_are_the_same_but_for_case(list[i], arg);
            assert(same_ignoring_case(list[i], arg));
        }
    }
}

/// The place of a name in a list is the first that bears it, in any case; there is
/// none exactly where no text does.
pub proof fn named_at_is_first(list: Seq<Seq<char>>, name: Seq<char>)
    ensures
        named_at(list, name) matches Some(at) ==> 0 <= at < list.len() && same_ignoring_case(
            list[at],
            name,
        ) && forall|k: int| 0 <= k < at ==> !same_ignoring_case(#[trigger] list[k], name),
        named_at(list, name) is None <==> forall|k: int|
            0 <= k < list.len() ==> !same_ignoring_case(#[trigger] list[k], name),
    decreases list.len(),
{
    if list.len() > 0 {
        let front = list.drop_last();
        named_at_is_first(front, name);
        assert forall|k: int| 0 <= k < front.len() implies #[trigger] list[k] == front[k] by {}
        match named_at(list, name) {
            Some(at) => {
                assert forall|k: int| 0 <= k < at implies !same_ignoring_case(
                    #[trigger] list[k],
                    name,
                ) by {
                    assert(list[k] == front[k]);
                }
                assert(same_ignoring_case(list[at], name)) by {
                    if at < front.len() {
                        assert(list[at] == front[at]);
                    }
                }
            },
            None => {
                assert forall|k: int| 0 <= k < list.len() implies !same_ignoring_case(
                    #[trigger] list[k],
                    name,
                ) by {
                    if k < front.len() {
                        assert(list[k] == front[k]);
                    }
                }
            },
        }
    }
}

proof fn lemma_exactly_at(list: Seq<Seq<char>>, text: Seq<char>, from: int)
    requires
        0 <= from,
    ensures
        exactly_at(list, text, from) matches Some(at) ==> from <= at < list.len() && list[at] == text
            && forall|k: int| from <= k < at ==> #[trigger] list[k] != text,
        exactly_at(list, text, from) is None <==> forall|k: int|
            from <= k < list.len() ==> #[trigger] list[k] != text,
    decreases list.len() - from,
{
    if from < list.len() && list[from] != text {
        lemma_exactly_at(list, text, from + 1);
    }
}

/// Whether a place of a file maps where it must: a computed column to nothing, any
/// other to the first target of exactly its name, or to nothing where there is none.
pub open spec fn maps_right(
    column: TableColumnDetail,
    targets: Seq<Seq<char>>,
    target: Option<int>,
) -> bool {
    match target {
        None => column.is_generated || forall|k: int|
            0 <= k < targets.len() ==> #[trigger] targets[k] != column.name@,
        Some(at) => !column.is_generated && 0 <= at < targets.len() && targets[at] == column.name@
            && forall|k: int| 0 <= k < at ==> #[trigger] targets[k] != column.name@,
    }
}

/// The places of a headerless file are right exactly where each maps where it must.
pub proof fn places_map_to_their_columns(
    memory: Seq<Seen>,
    slot: int,
    other: int,
    arg: Seq<char>,
)
    requires
        0 <= slot < memory.len(),
        0 <= other < memory.len(),
        TARGETS_SLOT < memory.len(),
    ensures
        holds(Op::PositionsRight, slot, other, arg, memory) <==> forall|i: int|
            0 <= i < structure(memory[other]).len() ==> maps_right(
                structure(memory[other])[i],
                writable(memory[TARGETS_SLOT as int]),
                #[trigger] mapped(mapping(memory[slot]), i),
            ),
{
    let columns = structure(memory[other]);
    let targets = writable(memory[TARGETS_SLOT as int]);
    let map = mapping(memory[slot]);
    lemma_wrong_position(columns, targets, map, 0);
    assert forall|i: int| 0 <= i < columns.len() implies (mapped(map, i) == right_target(
        columns[i],
        targets,
    )) == maps_right(columns[i], targets, #[trigger] mapped(map, i)) by {
        lemma_exactly_at(targets, columns[i].name@, 0);
        lemma_maps_right(columns[i], targets, mapped(map, i));
    }
}

proof fn lemma_maps_right(column: TableColumnDetail, targets: Seq<Seq<char>>, target: Option<int>)
    ensures
        (target == right_target(column, targets)) == maps_right(column, targets, target),
{
    lemma_exactly_at(targets, column.name@, 0);
    if !column.is_generated {
        match (target, right_target(column, targets)) {
            (Some(a), Some(b)) => {
                if maps_right(column, targets, target) {
                    if a < b {
                        assert(targets[a] != column.name@);
                    } else if b < a {
                        assert(targets[b] != column.name@);
                    }
                }
            },
            (Some(a), None) => {
                if 0 <= a < targets.len() {
                    assert(targets[a] != column.name@);
                }
            },
            (None, Some(b)) => {
                assert(targets[b] == column.name@);
            },
            (None, None) => {},
        }
    }
}

proof fn lemma_wrong_position(
    columns: Seq<TableColumnDetail>,
    targets: Seq<Seq<char>>,
    map: Seq<Option<usize>>,
    from: int,
)
    requires
        0 <= from,
    ensures
        wrong_position(columns, targets, map, from) is None <==> forall|i: int|
            from <= i < columns.len() ==> #[trigger] mapped(map, i) == right_target(
                columns[i],
                targets,
            ),
    decreases columns.len() - from,
{
    if from < columns.len() {
        lemma_wrong_position(columns, targets, map, from + 1);
        assert((wrong_position(columns, targets, map, from) is None) == (mapped(map, from)
            == right_target(columns[from], targets) && wrong_position(
            columns,
            targets,
            map,
            from + 1,
        ) is None));
    }
}

/// A place that a mapping does not reach is mapped to nothing; one that it does, as
/// it says.
pub proof fn a_mapping_says_where_a_place_goes(map: Seq<Option<usize>>, i: int)
    ensures
        0 <= i < map.len() ==> (mapped(map, i) is Some <==> map[i] is Some),
        0 <= i < map.len() ==> (map[i] matches Some(k) ==> mapped(map, i) == Some(k as int)),
        !(0 <= i < map.len()) ==> mapped(map, i) is None,
{
}

/// A script names no computed column exactly where none of their names stands in it.
pub proof fn no_computed_column_is_named(memory: Seq<Seen>, slot: int, other: int, arg: Seq<char>)
    requires
        0 <= slot < memory.len(),
        TARGETS_SLOT < memory.len(),
    ensures
        holds(Op::NamesNoComputed, slot, other, arg, memory) <==> forall|k: int|
            0 <= k < left_out(memory[TARGETS_SLOT as int]).len() ==> !contains(
                words(memory[slot]),
                #[trigger] left_out(memory[TARGETS_SLOT as int])[k],
            ),
{
    lemma_named_in(left_out(memory[TARGETS_SLOT as int]), words(memory[slot]), 0);
}

proof fn lemma_named_in(list: Seq<Seq<char>>, script: Seq<char>, from: int)
    requires
        0 <= from,
    ensures
        named_in(list, script, from) is None <==> forall|k: int|
            from <= k < list.len() ==> !contains(script, #[trigger] list[k]),
    decreases list.len() - from,
{
    if from < list.len() && !contains(script, list[from]) {
        lemma_named_in(list, script, from + 1);
    }
}

/// Whether a row is the mostly-NULL one: the first whose first cell is `2`.
pub open spec fn is_null_row(t: Seq<Vec<String>>, i: int) -> bool {
    &&& 0 <= i < t.len()
    &&& t[i]@.len() > 0 && t[i]@[0]@ == "2"@
    &&& forall|k: int| 0 <= k < i ==> !((#[trigger] t[k])@.len() > 0 && t[k]@[0]@ == "2"@)
}

proof fn lemma_null_row(t: Seq<Vec<String>>)
    ensures
        null_row(t) matches Some(i) ==> is_null_row(t, i),
        null_row(t) is None <==> forall|k: int|
            0 <= k < t.len() ==> !((#[trigger] t[k])@.len() > 0 && t[k]@[0]@ == "2"@),
    decreases t.len(),
{
    if t.len() > 0 {
        let front = t.drop_last();
        lemma_null_row(front);
        assert forall|k: int| 0 <= k < front.len() implies #[trigger] t[k] == front[k] by {}
        match null_row(t) {
            Some(i) => {
                assert forall|k: int| 0 <= k < i implies !((#[trigger] t[k])@.len() > 0
                    && t[k]@[0]@ == "2"@) by {
                    assert(t[k] == front[k]);
                }
                if i < front.len() {
                    assert(t[i] == front[i]);
                }
            },
            None => {
                assert forall|k: int| 0 <= k < t.len() implies !((#[trigger] t[k])@.len() > 0
                    && t[k]@[0]@ == "2"@) by {
                    if k < front.len() {
                        assert(t[k] == front[k]);
                    }
                }
            },
        }
    }
}

/// Whether a column of the mostly-NULL row arrived as it should: its key and its code
/// hold values, and every other column the driver's own NULL, under the first column
/// of that name.
pub open spec fn null_arrived(read: ExportRead, row: int, column: Seq<char>) -> bool {
    upper(column) == "SEQ"@ || upper(column) == "CODE"@ || exists|c: int|
        0 <= c < read.columns@.len() && same_ignoring_case(read.columns@[c]@, column) && (forall|
            k: int,
        |
            0 <= k < c ==> !same_ignoring_case((#[trigger] read.columns@[k])@, column))
            && #[trigger] read_null(read, row, c)
}

/// A NULL reaches the exporter as one exactly where it does in every column of the
/// mostly-NULL row that is to hold one; a read without that row shows nothing.
pub proof fn nulls_arrive_in_every_column(
    memory: Seq<Seen>,
    slot: int,
    other: int,
    arg: Seq<char>,
    read: ExportRead,
    row: int,
)
    requires
        0 <= slot < memory.len(),
        memory[slot] == Seen::Export(read),
    ensures
        is_null_row(read.rows@, row) ==> holds(Op::HasNullRow, slot, other, arg, memory) && (holds(
            Op::NullsArrive,
            slot,
            other,
            arg,
            memory,
        ) <==> forall|i: int|
            0 <= i < read.columns@.len() ==> null_arrived(
                read,
                row,
                (#[trigger] read.columns@[i])@,
            )),
        (forall|k: int|
            0 <= k < read.rows@.len() ==> !((#[trigger] read.rows@[k])@.len() > 0
                && read.rows@[k]@[0]@ == "2"@)) ==> !holds(Op::HasNullRow, slot, other, arg, memory)
            && !holds(Op::NullsArrive, slot, other, arg, memory),
{
    lemma_null_row(read.rows@);
    if is_null_row(read.rows@, row) {
        assert(null_row(read.rows@) is Some) by {
            assert(read.rows@[row]@.len() > 0 && read.rows@[row]@[0]@ == "2"@);
        }
        let at = null_row(read.rows@)->0;
        if at < row {
            assert(!(read.rows@[at]@.len() > 0 && read.rows@[at]@[0]@ == "2"@));
        } else if row < at {
            assert(!(read.rows@[row]@.len() > 0 && read.rows@[row]@[0]@ == "2"@));
        }
        lemma_lost_column(read, row, 0);
        assert forall|i: int| 0 <= i < read.columns@.len() implies null_arrived(
            read,
            row,
            (#[trigger] read.columns@[i])@,
        ) == !lost_null(read, row, read.columns@[i]@) by {
            lemma_null_arrived(read, row, read.columns@[i]@);
        }
    }
}

proof fn lemma_null_arrived(read: ExportRead, row: int, column: Seq<char>)
    ensures
        null_arrived(read, row, column) == !lost_null(read, row, column),
{
    let list = views(read.columns@);
    named_at_is_first(list, column);
    if !(upper(column) == "SEQ"@ || upper(column) == "CODE"@) {
        if null_arrived(read, row, column) {
            let c = choose|c: int|
                0 <= c < read.columns@.len() && same_ignoring_case(read.columns@[c]@, column) && (
                forall|k: int|
                    0 <= k < c ==> !same_ignoring_case((#[trigger] read.columns@[k])@, column))
                    && #[trigger] read_null(read, row, c);
            assert(same_ignoring_case(list[c], column));
            let at = named_at(list, column)->0;
            if at < c {
                assert(!same_ignoring_case(read.columns@[at]@, column));
            } else if c < at {
                assert(!same_ignoring_case(list[c], column));
            }
        }
        if !lost_null(read, row, column) {
            let c = named_at(list, column)->0;
            assert forall|k: int| 0 <= k < c implies !same_ignoring_case(
                (#[trigger] read.columns@[k])@,
                column,
            ) by {
                assert(!same_ignoring_case(list[k], column));
            }
            assert(read_null(read, row, c));
        }
    }
}

proof fn lemma_lost_column(read: ExportRead, row: int, from: int)
    requires
        0 <= from,
    ensures
        lost_column(read, row, from) is None <==> forall|i: int|
            from <= i < read.columns@.len() ==> !lost_null(
                read,
                row,
                (#[trigger] read.columns@[i])@,
            ),
    decreases read.columns@.len() - from,
{
    if from < read.columns@.len() && !lost_null(read, row, read.columns@[from]@) {
        lemma_lost_column(read, row, from + 1);
    }
}

/// A cell of what was read is the driver's own NULL where the driver says so of that
/// row and column; a cell that it says nothing of is not.
pub proof fn a_null_is_the_drivers_own(read: ExportRead, row: int, column: int)
    ensures
        0 <= row < read.nulls@.len() && 0 <= column < read.nulls@[row]@.len() ==> read_null(
            read,
            row,
            column,
        ) == read.nulls@[row]@[column],
        row < 0 || row >= read.nulls@.len() || column < 0 || column >= read.nulls@[row]@.len()
            ==> !read_null(read, row, column),
{
}

/// The tests on what the object browser read.
pub proof fn a_read_is_tested(
    memory: Seq<Seen>,
    slot: int,
    other: int,
    arg: Seq<char>,
    read: ExportRead,
    column: Seq<char>,
    wanted: Seq<char>,
    at: int,
)
    requires
        0 <= slot < memory.len(),
        memory[slot] == Seen::Export(read),
    ensures
        holds(Op::ReadWidths, slot, other, arg, memory) <==> read.catalog@.len()
            == read.columns@.len(),
        holds(Op::ReadRowsAre, slot, other, arg, memory) <==> read.rows@.len() == other,
        holds(Op::ReadColumnsAre, slot, other, arg, memory) <==> read.columns@.len() == split_on(
            arg,
            '|',
        ).len() && forall|i: int|
            0 <= i < read.columns@.len() ==> upper(trim((#[trigger] read.columns@[i])@))
                == split_on(arg, '|')[i],
        split_on(arg, '|') == seq![column, wanted] && 0 <= at < read.columns@.len()
            && same_ignoring_case(read.columns@[at]@, column) && (forall|k: int|
            0 <= k < at ==> !same_ignoring_case((#[trigger] read.columns@[k])@, column))
            && read.rows@.len() > 0 && at < read.rows@[0]@.len() ==> {
            &&& holds(Op::ReadCellIs, slot, other, arg, memory) <==> read.rows@[0]@[at]@ == wanted
            &&& holds(Op::ReadCellHolds, slot, other, arg, memory) <==> contains(
                read.rows@[0]@[at]@,
                wanted,
            )
        },
{
    let list = views(read.columns@);
    named_at_is_first(list, column);
    if split_on(arg, '|') == seq![column, wanted] && 0 <= at < read.columns@.len()
        && same_ignoring_case(read.columns@[at]@, column) && (forall|k: int|
        0 <= k < at ==> !same_ignoring_case((#[trigger] read.columns@[k])@, column)) {
        assert(same_ignoring_case(list[at], column));
        let found = named_at(list, column)->0;
        if found < at {
            assert(!same_ignoring_case(read.columns@[found]@, column));
        } else if at < found {
            assert(!same_ignoring_case(list[at], column));
        }
    }
    let b = bare_uppers(read.columns@);
    let w = split_on(arg, '|');
    if b == w {
        assert forall|i: int| 0 <= i < read.columns@.len() implies upper(
            trim((#[trigger] read.columns@[i])@),
        ) == w[i] by {
            assert(b[i] == w[i]);
        }
    }
    if read.columns@.len() == w.len() && (forall|i: int|
        0 <= i < read.columns@.len() ==> upper(trim((#[trigger] read.columns@[i])@)) == w[i]) {
        assert(b =~= w);
    }
}

/// The word `NULL` and a real NULL are told apart: the second cell of the first row
/// is the word and no NULL, and that of the third row, where it is there, is one.
pub proof fn the_word_is_told_from_the_null(
    memory: Seq<Seen>,
    slot: int,
    other: int,
    arg: Seq<char>,
    read: ExportRead,
)
    requires
        0 <= slot < memory.len(),
        memory[slot] == Seen::Export(read),
        read.rows@.len() > 2,
        read.rows@[0]@.len() > 1,
        read.rows@[2]@.len() > 1,
    ensures
        holds(Op::NullTold, slot, other, arg, memory) <==> read.rows@[0]@[1]@ == "NULL"@
            && !read_null(read, 0, 1) && read_null(read, 2, 1),
{
}

} // verus!
