//! The tests on result grids, said of the events that opened and filled them.
use vstd::prelude::*;
use vstd::string::*;

use crate::grid::{
    cell_by_col_spec, column_at, count_text_spec, exported, grid_columns, grid_model, grid_rows,
    heading, keep, kind_code, last_position, names_column, pairs_spec, position, strip_leading,
    strip_trailing, stripped, updated_rows, uppers,
};
use crate::laws::cells::{
    a_count_is_streamed_first, is_first_batch, is_last_opened, opened, streamed,
};
use crate::laws::runs::ran;
use crate::laws::texts::{
    a_text_stands_between_two, letters_go_to_their_counterparts, texts_are_the_same_but_for_case,
};
use crate::op::Op;
use crate::progress::{inner, rows, QueryProgress, SqlValueKind};
use crate::seen::{at, events, text_in, Seen};
use crate::text::{
    begins_with, contains, ends_with, integer_value, lacks, split_on, stands_at, trim, upper,
    upper_char,
};
use crate::verdict::holds;

verus! {

proof fn lemma_bare(s: Seq<char>)
    requires
        lacks(s, '"'),
    ensures
        stripped(s, '"') == s,
{
    if s.len() > 0 {
        assert(s[0] != '"');
        assert(s[s.len() - 1] != '"');
    }
}

/// A quoted name is the name itself, to a grid: quotes around it are no part of it.
pub proof fn quotes_are_no_part_of_a_name(name: Seq<char>, wanted: Seq<char>)
    requires
        lacks(name, '"'),
    ensures
        stripped(name, '"') == name,
        stripped(seq!['"'] + name + seq!['"'], '"') == name,
        names_column(name, wanted) <==> upper(name) == upper(wanted),
        names_column(seq!['"'] + name + seq!['"'], wanted) <==> names_column(name, wanted),
        exported(seq!['"'] + name + seq!['"']) == exported(name),
{
    lemma_bare(name);
    let q = seq!['"'] + name + seq!['"'];
    let t = name.push('"');
    assert(q.drop_first() =~= t);
    if name.len() > 0 {
        assert(t[0] == name[0]);
        assert(name[0] != '"');
        assert(strip_leading(t, '"') == t);
        assert(strip_leading(q, '"') == t);
        assert(t.drop_last() =~= name);
        assert(name[name.len() - 1] != '"');
        assert(strip_trailing(name, '"') == name);
    } else {
        assert(t.drop_first() =~= Seq::<char>::empty());
        assert(strip_leading(t, '"') == strip_leading(t.drop_first(), '"'));
        assert(strip_leading(t.drop_first(), '"') =~= Seq::<char>::empty());
        assert(name =~= Seq::<char>::empty());
        assert(strip_trailing(Seq::<char>::empty(), '"') =~= Seq::<char>::empty());
    }
    texts_are_the_same_but_for_case(name, wanted);
}

/// The grid hides row locators and its own bookkeeping, in any case: a column
/// named `ROWID`, one that ends in `.ROWID`, and the `SQ_INTERNAL` columns of its
/// own. A column whose name has neither word in it is shown.
pub proof fn the_grid_hides_only_its_own_columns(name: Seq<char>, rest: Seq<char>)
    requires
        lacks(name, '"'),
    ensures
        exported(upper(name)) == exported(name),
        upper(name) == "ROWID"@ ==> !exported(name),
        upper(name) == rest + ".ROWID"@ ==> !exported(name),
        upper(name) == "SQ_INTERNAL_ROWID"@ ==> !exported(name),
        upper(name) == "SQ_INTERNAL_EDIT_SNAPSHOT"@ ==> !exported(name),
        upper(name) == "SQ_INTERNAL_EDIT_KEY_"@ + rest ==> !exported(name),
        !contains(upper(name), "ROWID"@) && !contains(upper(name), "SQ_INTERNAL_"@) ==> exported(
            name,
        ),
{
    lemma_bare(name);
    let up = upper(name);
    assert(lacks(up, '"')) by {
        assert forall|i: int| 0 <= i < up.len() implies #[trigger] up[i] != '"' by {
            assert(up[i] == upper_char(name[i]));
            assert(name[i] != '"');
        }
    }
    lemma_bare(up);
    letters_go_to_their_counterparts(name, 0, 'a');
    a_text_stands_between_two(up, ".ROWID"@);
    a_text_stands_between_two(up, "SQ_INTERNAL_EDIT_KEY_"@);
    if !contains(up, "ROWID"@) && !contains(up, "SQ_INTERNAL_"@) {
        lemma_locator(up);
        lemma_bookkeeping(up);
    }
}

proof fn lemma_locator(up: Seq<char>)
    requires
        !contains(up, "ROWID"@),
    ensures
        up != "ROWID"@,
        !ends_with(up, ".ROWID"@),
        up != "SQ_INTERNAL_ROWID"@,
{
    reveal_strlit("ROWID");
    reveal_strlit(".ROWID");
    reveal_strlit("SQ_INTERNAL_ROWID");
    if up == "ROWID"@ {
        assert(up.subrange(0, 5) =~= "ROWID"@);
        assert(stands_at(up, "ROWID"@, 0));
    }
    if ends_with(up, ".ROWID"@) {
        let at = up.len() - 6;
        let tail = up.subrange(at, at + 6);
        assert(tail == ".ROWID"@);
        assert(up.subrange(at + 1, at + 6) =~= tail.subrange(1, 6));
        assert(".ROWID"@.subrange(1, 6) =~= "ROWID"@);
        assert(stands_at(up, "ROWID"@, at + 1));
    }
    if up == "SQ_INTERNAL_ROWID"@ {
        assert(up.subrange(12, 17) =~= "ROWID"@);
        assert(stands_at(up, "ROWID"@, 12));
    }
}

proof fn lemma_bookkeeping(up: Seq<char>)
    requires
        !contains(up, "SQ_INTERNAL_"@),
    ensures
        up != "SQ_INTERNAL_EDIT_SNAPSHOT"@,
        !begins_with(up, "SQ_INTERNAL_EDIT_KEY_"@),
{
    reveal_strlit("SQ_INTERNAL_");
    reveal_strlit("SQ_INTERNAL_EDIT_SNAPSHOT");
    reveal_strlit("SQ_INTERNAL_EDIT_KEY_");
    if up == "SQ_INTERNAL_EDIT_SNAPSHOT"@ {
        assert(up.subrange(0, 12) =~= "SQ_INTERNAL_"@);
        assert(stands_at(up, "SQ_INTERNAL_"@, 0));
    }
    if begins_with(up, "SQ_INTERNAL_EDIT_KEY_"@) {
        let front = up.subrange(0, 21);
        assert(front == "SQ_INTERNAL_EDIT_KEY_"@);
        assert(up.subrange(0, 12) =~= front.subrange(0, 12));
        assert("SQ_INTERNAL_EDIT_KEY_"@.subrange(0, 12) =~= "SQ_INTERNAL_"@);
        assert(stands_at(up, "SQ_INTERNAL_"@, 0));
    }
}

/// The columns that a grid keeps are all that it shows, and no other, in their
/// order.
pub proof fn a_grid_keeps_what_it_shows(columns: Seq<String>)
    ensures
        forall|q: int|
            0 <= q < keep(columns).len() ==> 0 <= #[trigger] keep(columns)[q] < columns.len()
                && exported(columns[keep(columns)[q]]@),
        forall|p: int|
            0 <= p < columns.len() && exported(#[trigger] columns[p]@) ==> exists|q: int|
                0 <= q < keep(columns).len() && #[trigger] keep(columns)[q] == p,
        forall|q: int, r: int|
            0 <= q < r < keep(columns).len() ==> #[trigger] keep(columns)[q]
                < #[trigger] keep(columns)[r],
    decreases columns.len(),
{
    if columns.len() > 0 {
        let front = columns.drop_last();
        a_grid_keeps_what_it_shows(front);
        let k = keep(columns);
        let b = keep(front);
        assert forall|q: int| 0 <= q < k.len() implies 0 <= #[trigger] k[q] < columns.len()
            && exported(columns[k[q]]@) by {
            if q < b.len() {
                assert(k[q] == b[q]);
                assert(front[b[q]] == columns[b[q]]);
            }
        }
        assert forall|p: int| 0 <= p < columns.len() && exported(#[trigger] columns[p]@) implies
            exists|q: int| 0 <= q < k.len() && #[trigger] k[q] == p by {
            if p < front.len() {
                assert(front[p] == columns[p]);
                let q = choose|q: int| 0 <= q < b.len() && #[trigger] b[q] == p;
                assert(k[q] == p);
            } else {
                assert(k[k.len() - 1] == p);
            }
        }
        assert forall|q: int, r: int| 0 <= q < r < k.len() implies #[trigger] k[q]
            < #[trigger] k[r] by {
            assert(k[q] == b[q]);
            if r < b.len() {
                assert(k[r] == b[r]);
            }
        }
    }
}

/// Whether an event is the first of a run that opens a result set with a column.
pub open spec fn is_heading(run: Seq<QueryProgress>, i: int) -> bool {
    &&& 0 <= i < run.len()
    &&& opened(run[i]) matches Some(columns) && columns.len() > 0
    &&& forall|j: int|
        0 <= j < i ==> (opened(#[trigger] run[j]) matches Some(columns) ==> columns.len() == 0)
}

/// Whether no event of a run opens a result set with a column.
pub open spec fn no_heading(run: Seq<QueryProgress>) -> bool {
    forall|j: int|
        0 <= j < run.len() ==> (opened(#[trigger] run[j]) matches Some(columns) ==> columns.len()
            == 0)
}

/// The heading of a run is the first event that opens a result set with a column.
pub proof fn the_heading_is_the_first_with_a_column(run: Seq<QueryProgress>, i: int)
    ensures
        is_heading(run, i) ==> heading(run) == Some(inner(run[i])),
        no_heading(run) <==> heading(run) is None,
    decreases run.len(),
{
    if run.len() > 0 {
        let rest = run.drop_first();
        the_heading_is_the_first_with_a_column(rest, i - 1);
        if is_heading(run, i) && i > 0 {
            assert(opened(run[0]) matches Some(columns) ==> columns.len() == 0);
            assert forall|j: int| 0 <= j < i - 1 implies (opened(#[trigger] rest[j]) matches Some(
                columns,
            ) ==> columns.len() == 0) by {
                assert(rest[j] == run[j + 1]);
            }
            assert(rest[i - 1] == run[i]);
        }
        if no_heading(run) {
            assert(opened(run[0]) matches Some(columns) ==> columns.len() == 0);
            assert forall|j: int| 0 <= j < rest.len() implies (opened(#[trigger] rest[j]) matches
                Some(columns) ==> columns.len() == 0) by {
                assert(rest[j] == run[j + 1]);
            }
        }
        if heading(run) is None {
            assert(no_heading(rest));
            assert forall|j: int| 0 <= j < run.len() implies (opened(#[trigger] run[j]) matches
                Some(columns) ==> columns.len() == 0) by {
                if j > 0 {
                    assert(rest[j - 1] == run[j]);
                }
            }
        }
    }
}

/// A grid is open exactly where a result set with a column was opened. It shows
/// that result set's columns, with their kinds, but for its own; and of every row
/// that was streamed, the cells under them, in the order they came. A cell that is
/// not there is empty, and a kind that is not there unknown.
pub proof fn a_grid_shows_what_was_streamed(run: Seq<QueryProgress>, i: int)
    ensures
        no_heading(run) <==> grid_model(run) is None,
        is_heading(run, i) ==> {
            let columns = opened(run[i])->0;
            let kinds = (inner(run[i])->column_kinds)@;
            let grid = grid_model(run)->0;
            let kept = keep(columns);
            &&& grid_model(run) is Some
            &&& grid.columns.len() == kept.len()
            &&& grid.kinds.len() == kept.len()
            &&& grid.rows.len() == rows(run).len()
            &&& forall|q: int|
                0 <= q < kept.len() ==> #[trigger] grid.columns[q] == columns[kept[q]]@
            &&& forall|q: int|
                0 <= q < kept.len() ==> #[trigger] grid.kinds[q] == (if kept[q] < kinds.len() {
                    kinds[kept[q]]
                } else {
                    SqlValueKind::Unknown
                })
            &&& forall|r: int|
                0 <= r < rows(run).len() ==> (#[trigger] grid.rows[r]).len() == kept.len()
            &&& forall|r: int, q: int|
                0 <= r < rows(run).len() && 0 <= q < kept.len() ==> #[trigger] grid.rows[r][q] == (
                if kept[q] < rows(run)[r]@.len() {
                    rows(run)[r]@[kept[q]]@
                } else {
                    Seq::<char>::empty()
                })
        },
{
    the_heading_is_the_first_with_a_column(run, i);
    if is_heading(run, i) {
        let columns = opened(run[i])->0;
        a_grid_keeps_what_it_shows(columns);
        assert(heading(run) == Some(inner(run[i])));
    } else if heading(run) is Some {
        lemma_heading_opens(run);
    }
}

proof fn lemma_heading_opens(run: Seq<QueryProgress>)
    requires
        heading(run) is Some,
    ensures
        heading(run)->0 is SelectStart,
    decreases run.len(),
{
    if run.len() > 0 {
        if !(opened(run[0]) is Some && (opened(run[0])->0).len() > 0) {
            lemma_heading_opens(run.drop_first());
        }
    }
}

/// The place of a name among columns is the least that bears it; there is none
/// exactly where no column does.
pub proof fn a_column_is_found_at_its_first_place(
    columns: Seq<Seq<char>>,
    name: Seq<char>,
)
    ensures
        column_at(columns, name) matches Some(at) ==> 0 <= at < columns.len() && names_column(
            columns[at],
            name,
        ) && forall|k: int| 0 <= k < at ==> !names_column(#[trigger] columns[k], name),
        column_at(columns, name) is None <==> forall|k: int|
            0 <= k < columns.len() ==> !names_column(#[trigger] columns[k], name),
    decreases columns.len(),
{
    if columns.len() > 0 {
        let front = columns.drop_last();
        a_column_is_found_at_its_first_place(front, name);
        assert forall|k: int| 0 <= k < front.len() implies #[trigger] columns[k] == front[k] by {}
        if column_at(columns, name) is None {
            assert forall|k: int| 0 <= k < columns.len() implies !names_column(
                #[trigger] columns[k],
                name,
            ) by {
                if k < front.len() {
                    assert(columns[k] == front[k]);
                }
            }
        } else {
            let at = column_at(columns, name)->0;
            assert forall|k: int| 0 <= k < at implies !names_column(#[trigger] columns[k], name) by {
                assert(columns[k] == front[k]);
            }
            assert(names_column(columns[at], name)) by {
                if at < front.len() {
                    assert(columns[at] == front[at]);
                }
            }
        }
    }
}

/// The tests on one grid.
pub proof fn one_grid_is_tested(
    memory: Seq<Seen>,
    slot: int,
    other: int,
    arg: Seq<char>,
    run: Seq<QueryProgress>,
    place: int,
)
    requires
        ran(memory, slot, run),
    ensures
        holds(Op::GridOpened, slot, other, arg, memory) <==> !no_heading(run),
        holds(Op::StartSqlSeen, slot, other, arg, memory) <==> !no_heading(run),
        holds(Op::GridRowsAre, slot, other, arg, memory) <==> other == (if no_heading(run) {
            0
        } else {
            rows(run).len() as int
        }),
        holds(Op::HasColumn, slot, other, arg, memory) <==> exists|k: int|
            0 <= k < grid_columns(run).len() && names_column(#[trigger] grid_columns(run)[k], arg),
        0 <= place < grid_columns(run).len() && names_column(grid_columns(run)[place], arg) && (
        forall|k: int| 0 <= k < place ==> !names_column(#[trigger] grid_columns(run)[k], arg))
            ==> (holds(Op::KindIs, slot, other, arg, memory) <==> (grid_model(run)->0).kinds[place]
            == kind_code(other)),
        (forall|k: int|
            0 <= k < grid_columns(run).len() ==> !names_column(#[trigger] grid_columns(run)[k], arg))
            ==> !holds(Op::KindIs, slot, other, arg, memory),
{
    the_heading_is_the_first_with_a_column(run, 0);
    if heading(run) is Some {
        lemma_heading_opens(run);
    }
    let columns = grid_columns(run);
    a_column_is_found_at_its_first_place(columns, arg);
    match column_at(columns, arg) {
        Some(at) => {
            assert(names_column(columns[at], arg));
            if 0 <= place < columns.len() && names_column(columns[place], arg) && (forall|k: int|
                0 <= k < place ==> !names_column(#[trigger] columns[k], arg)) {
                if at < place {
                    assert(!names_column(columns[at], arg));
                }
                assert(at == place);
            }
        },
        None => {},
    }
}

/// Kinds of value are numbered one by one.
pub proof fn kinds_are_told_apart()
    ensures
        kind_code(1) == SqlValueKind::String,
        kind_code(2) == SqlValueKind::Number,
        kind_code(3) == SqlValueKind::Temporal,
        kind_code(4) == SqlValueKind::Binary,
        kind_code(0) == SqlValueKind::Unknown,
{
}

/// Two grids are the same exactly where they have as many rows, rows as long, and
/// the same cell at every place.
pub proof fn grids_are_compared_cell_by_cell(
    memory: Seq<Seen>,
    slot: int,
    other: int,
    arg: Seq<char>,
    a: Seq<QueryProgress>,
    b: Seq<QueryProgress>,
)
    requires
        events(at(memory, slot)) == a,
        events(at(memory, other)) == b,
    ensures
        holds(Op::GridSame, slot, other, arg, memory) <==> {
            &&& grid_rows(a).len() == grid_rows(b).len()
            &&& forall|i: int|
                0 <= i < grid_rows(a).len() ==> (#[trigger] grid_rows(a)[i]).len() == grid_rows(
                    b,
                )[i].len()
            &&& forall|i: int, j: int|
                0 <= i < grid_rows(a).len() && 0 <= j < grid_rows(a)[i].len()
                    ==> #[trigger] grid_rows(a)[i][j] == grid_rows(b)[i][j]
        },
{
    let x = grid_rows(a);
    let y = grid_rows(b);
    if x.len() == y.len() && (forall|i: int|
        0 <= i < x.len() ==> (#[trigger] x[i]).len() == y[i].len()) && (forall|i: int, j: int|
        0 <= i < x.len() && 0 <= j < x[i].len() ==> #[trigger] x[i][j] == y[i][j]) {
        assert forall|i: int| 0 <= i < x.len() implies #[trigger] x[i] == y[i] by {
            assert(x[i].len() == y[i].len());
            assert(x[i] =~= y[i]);
        }
        assert(x =~= y);
    }
}

/// The grid after the update is the grid before it, but for the names of the first
/// two rows, which are the new ones.
pub proof fn an_update_changes_two_names(run: Seq<QueryProgress>, at: int, i: int, j: int)
    requires
        column_at(grid_columns(run), "NAME"@) == Some(at),
        0 <= i < grid_rows(run).len(),
        0 <= j < grid_rows(run)[i].len(),
    ensures
        updated_rows(run).len() == grid_rows(run).len(),
        updated_rows(run)[i].len() == grid_rows(run)[i].len(),
        i == 0 && j == at ==> updated_rows(run)[i][j] == "UPDATED'X"@,
        i == 1 && j == at ==> updated_rows(run)[i][j] == "second"@,
        i > 1 || j != at ==> updated_rows(run)[i][j] == grid_rows(run)[i][j],
{
}

/// An update shows exactly where the grid is the updated one.
pub proof fn an_update_shows_in_the_grid(
    memory: Seq<Seen>,
    slot: int,
    other: int,
    arg: Seq<char>,
    a: Seq<QueryProgress>,
    b: Seq<QueryProgress>,
)
    requires
        events(at(memory, slot)) == a,
        events(at(memory, other)) == b,
    ensures
        holds(Op::GridUpdated, slot, other, arg, memory) <==> grid_rows(a) == updated_rows(b),
{
}

/// A count is the number in the last cell of the first row streamed.
pub proof fn a_count_is_tested(
    memory: Seq<Seen>,
    slot: int,
    other: int,
    arg: Seq<char>,
    run: Seq<QueryProgress>,
    i: int,
)
    requires
        ran(memory, slot, run),
        is_first_batch(run, i),
    ensures
        holds(Op::CountIs, slot, other, arg, memory) <==> integer_value(
            trim(streamed(run[i])[0]@.last()@),
        ) == Some(other),
{
    a_count_is_streamed_first(run, i);
}

/// The keys of a table are the wanted ones, in their order, whatever their case.
pub proof fn keys_are_told_in_any_case(
    memory: Seq<Seen>,
    slot: int,
    other: int,
    arg: Seq<char>,
    found: Seq<String>,
)
    requires
        0 <= slot < memory.len(),
        memory[slot] matches Seen::Names(list) && list@ == found,
    ensures
        holds(Op::KeysAre, slot, other, arg, memory) <==> {
            &&& found.len() == split_on(arg, '|').len()
            &&& forall|i: int|
                0 <= i < found.len() ==> upper((#[trigger] found[i])@) == split_on(arg, '|')[i]
        },
{
    let wanted = split_on(arg, '|');
    if found.len() == wanted.len() && (forall|i: int|
        0 <= i < found.len() ==> upper((#[trigger] found[i])@) == wanted[i]) {
        assert(uppers(found) =~= wanted);
    }
    if uppers(found) == wanted {
        assert forall|i: int| 0 <= i < found.len() implies upper((#[trigger] found[i])@)
            == wanted[i] by {
            assert(uppers(found)[i] == upper(found[i]@));
        }
    }
}

/// A table is named by the last part of a name, whatever its case.
pub proof fn a_table_is_named_by_the_last_part(
    memory: Seq<Seen>,
    slot: int,
    other: int,
    arg: Seq<char>,
    name: Seq<char>,
)
    requires
        0 <= slot < memory.len(),
    ensures
        text_in(memory[slot]) == Some(name) ==> (holds(Op::LastPartNamed, slot, other, arg, memory)
            <==> upper(split_on(name, '.').last()) == upper(arg)),
        text_in(memory[slot]) is None ==> !holds(Op::LastPartNamed, slot, other, arg, memory),
{
    texts_are_the_same_but_for_case(split_on(name, '.').last(), arg);
}

/// The named cell of a run is the cell of its first row under the first column of
/// that name, by the result set opened last.
pub proof fn a_cell_is_read_by_its_column(run: Seq<QueryProgress>, name: Seq<char>, i: int, at: int)
    requires
        is_last_opened(run, i),
    ensures
        position(opened(run[i])->0, name) is None ==> cell_by_col_spec(run, name) is None,
        position(opened(run[i])->0, name) == Some(at) ==> cell_by_col_spec(run, name) == (if rows(
            run,
        ).len() > 0 && at < rows(run)[0]@.len() {
            Some(rows(run)[0]@[at]@)
        } else {
            None
        }),
{
    lemma_last_position(run, name, i);
}

proof fn lemma_last_position(run: Seq<QueryProgress>, name: Seq<char>, i: int)
    requires
        is_last_opened(run, i),
    ensures
        last_position(run, name) == position(opened(run[i])->0, name),
    decreases run.len(),
{
    let n = run.len() - 1;
    if i < n {
        let front = run.drop_last();
        assert(opened(run[n]) is None);
        assert forall|j: int| i < j < front.len() implies opened(#[trigger] front[j]) is None by {
            assert(front[j] == run[j]);
        }
        assert(front[i] == run[i]);
        lemma_last_position(front, name, i);
    }
}

/// The tests on a named cell.
pub proof fn a_named_cell_is_tested(
    memory: Seq<Seen>,
    slot: int,
    other: int,
    arg: Seq<char>,
    run: Seq<QueryProgress>,
    column: Seq<char>,
    wanted: Seq<char>,
)
    requires
        ran(memory, slot, run),
        split_on(arg, '|') == seq![column, wanted],
    ensures
        holds(Op::CellFound, slot, other, column, memory) <==> cell_by_col_spec(run, column) is Some
            && (cell_by_col_spec(run, column)->0).len() > 0,
        cell_by_col_spec(run, column) is Some ==> (holds(Op::CellIsNamed, slot, other, arg, memory)
            <==> cell_by_col_spec(run, column) == Some(wanted)),
        cell_by_col_spec(run, column) is None ==> (holds(Op::CellIsNamed, slot, other, arg, memory)
            <==> wanted.len() == 0),
{
    if wanted.len() == 0 {
        assert(wanted =~= Seq::<char>::empty());
    }
}

/// Pairs are read from the rows that have two cells, in their order.
pub proof fn pairs_are_read_in_order(a: Seq<Vec<String>>, b: Seq<Vec<String>>, row: Vec<String>)
    ensures
        pairs_spec(a + b) == pairs_spec(a) + pairs_spec(b),
        row@.len() >= 2 ==> pairs_spec(seq![row]) == seq![(row@[0]@, row@[1]@)],
        row@.len() < 2 ==> pairs_spec(seq![row]).len() == 0,
    decreases b.len(),
{
    if b.len() == 0 {
        assert(a + b =~= a);
        assert(pairs_spec(a) + pairs_spec(b) =~= pairs_spec(a));
    } else {
        pairs_are_read_in_order(a, b.drop_last(), row);
        assert((a + b).drop_last() =~= a + b.drop_last());
        assert((a + b).last() == b.last());
        assert(pairs_spec(a + b) =~= pairs_spec(a) + pairs_spec(b));
    }
    let one = seq![row];
    assert(one.drop_last() =~= Seq::<Vec<String>>::empty());
    assert(pairs_spec(one.drop_last()) =~= Seq::<(Seq<char>, Seq<char>)>::empty());
    assert(one.last() == row);
    if row@.len() >= 2 {
        assert(pairs_spec(one) =~= seq![(row@[0]@, row@[1]@)]);
    }
}

/// A count read from the grid is the last cell of its first row, without blanks.
pub proof fn a_count_of_the_grid(run: Seq<QueryProgress>)
    ensures
        grid_rows(run).len() > 0 && grid_rows(run)[0].len() > 0 ==> count_text_spec(run) == Some(
            trim(grid_rows(run)[0].last()),
        ),
        grid_rows(run).len() == 0 || grid_rows(run)[0].len() == 0 ==> count_text_spec(run) is None,
{
}

} // verus!
