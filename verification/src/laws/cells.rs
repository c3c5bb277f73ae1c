//! Which cell of a run is read, said of its events.
use vstd::prelude::*;

use crate::grid::exported;
use crate::laws::events::finished;
use crate::progress::{
    any_cell, data_cell, data_place, data_place_is_first, event_cell, event_rows, first_cell_spec,
    headings, inner, is_data, last_cell, leading_cell, results, rows, scalar, scalar_from,
    QueryProgress, QueryResult,
};
use crate::seen;
use crate::seen::{is_query, reads};
use crate::text::{integer_value, trim};

verus! {

/// The rows that an event streams.
pub open spec fn streamed(event: QueryProgress) -> Seq<Vec<String>> {
    match inner(event) {
        QueryProgress::Rows { rows } => rows@,
        _ => Seq::empty(),
    }
}

/// Whether rows have a cell in their first row.
pub open spec fn has_cell(batch: Seq<Vec<String>>) -> bool {
    batch.len() > 0 && batch[0]@.len() > 0
}

/// The names of the columns that an event opens a result set with.
pub open spec fn opened(event: QueryProgress) -> Option<Seq<String>> {
    match inner(event) {
        QueryProgress::SelectStart { columns, column_kinds, sql } => Some(columns@),
        _ => None,
    }
}

/// Whether an event is the last of a run to open a result set.
pub open spec fn is_last_opened(run: Seq<QueryProgress>, i: int) -> bool {
    &&& 0 <= i < run.len()
    &&& opened(run[i]) is Some
    &&& forall|j: int| i < j < run.len() ==> opened(#[trigger] run[j]) is None
}

/// The headings of a run are the columns of the result set that was opened last;
/// none where none was.
pub proof fn headings_are_those_opened_last(run: Seq<QueryProgress>)
    ensures
        forall|i: int| #[trigger] is_last_opened(run, i) ==> opened(run[i]) == Some(headings(run)),
        (forall|j: int| 0 <= j < run.len() ==> opened(#[trigger] run[j]) is None) ==> headings(
            run,
        ).len() == 0,
    decreases run.len(),
{
    if run.len() > 0 {
        let front = run.drop_last();
        let n = run.len() - 1;
        headings_are_those_opened_last(front);
        assert forall|i: int| #[trigger] is_last_opened(run, i) implies opened(run[i]) == Some(
            headings(run),
        ) by {
            if i < n {
                assert(opened(run[n]) is None);
                assert forall|j: int| i < j < front.len() implies opened(
                    #[trigger] front[j],
                ) is None by {
                    assert(front[j] == run[j]);
                }
                assert(is_last_opened(front, i));
            }
        }
        if forall|j: int| 0 <= j < run.len() ==> opened(#[trigger] run[j]) is None {
            assert(opened(run[n]) is None);
            assert forall|j: int| 0 <= j < front.len() implies opened(
                #[trigger] front[j],
            ) is None by {
                assert(front[j] == run[j]);
            }
        }
    }
}

/// Whether a column holds data: the grid shows it, or nothing is known of it.
pub open spec fn shown(columns: Seq<String>, k: int) -> bool {
    k >= columns.len() || exported(columns[k]@)
}

/// The data cell of some rows is the first cell of the first row whose column the
/// grid shows; the first cell where it shows none.
pub proof fn the_data_cell_is_the_first_shown(
    columns: Seq<String>,
    batch: Seq<Vec<String>>,
    k: int,
)
    ensures
        !has_cell(batch) ==> data_cell(columns, batch) is None,
        has_cell(batch) && 0 <= k < batch[0]@.len() && shown(columns, k) && (forall|j: int|
            0 <= j < k ==> !#[trigger] shown(columns, j)) ==> data_cell(columns, batch) == Some(
            batch[0]@[k]@,
        ),
        has_cell(batch) && (forall|j: int|
            0 <= j < batch[0]@.len() ==> !#[trigger] shown(columns, j)) ==> data_cell(
            columns,
            batch,
        ) == Some(batch[0]@[0]@),
{
    if has_cell(batch) {
        let width = batch[0]@.len() as int;
        data_place_is_first(columns, width);
        let place = data_place(columns, width, 0);
        assert forall|j: int| #[trigger] shown(columns, j) == is_data(columns, j) by {}
        if 0 <= k < width && shown(columns, k) && (forall|j: int|
            0 <= j < k ==> !#[trigger] shown(columns, j)) {
            if !is_data(columns, place) {
                assert(!is_data(columns, k));
            } else if place < k {
                assert(!shown(columns, place));
            } else if place > k {
                assert(!is_data(columns, k));
            }
        }
        if forall|j: int| 0 <= j < width ==> !#[trigger] shown(columns, j) {
            assert(!shown(columns, place));
        }
    }
}

/// Whether an event is the last of a run that streams a first row with a cell.
pub open spec fn is_last_batch(run: Seq<QueryProgress>, i: int) -> bool {
    &&& 0 <= i < run.len()
    &&& has_cell(streamed(run[i]))
    &&& forall|j: int| i < j < run.len() ==> !has_cell(streamed(#[trigger] run[j]))
}

/// The cell of a script is the data cell of what it streamed last, by the columns
/// opened before that; a script that streamed no cell has none.
pub proof fn the_cell_of_a_script_is_streamed_last(run: Seq<QueryProgress>)
    ensures
        forall|i: int| #[trigger]
            is_last_batch(run, i) ==> first_cell_spec(run) == data_cell(
                headings(run.take(i)),
                streamed(run[i]),
            ),
        (forall|j: int| 0 <= j < run.len() ==> !has_cell(streamed(#[trigger] run[j])))
            ==> first_cell_spec(run) is None,
    decreases run.len(),
{
    if run.len() > 0 {
        let front = run.drop_last();
        let n = run.len() - 1;
        the_cell_of_a_script_is_streamed_last(front);
        assert(run.take(n) =~= front);
        assert forall|i: int| #[trigger] is_last_batch(run, i) implies first_cell_spec(run)
            == data_cell(headings(run.take(i)), streamed(run[i])) by {
            if i < n {
                assert(!has_cell(streamed(run[n])));
                assert forall|j: int| i < j < front.len() implies !has_cell(
                    streamed(#[trigger] front[j]),
                ) by {
                    assert(front[j] == run[j]);
                }
                assert(is_last_batch(front, i));
                assert(front.take(i) =~= run.take(i));
            }
        }
        if forall|j: int| 0 <= j < run.len() ==> !has_cell(streamed(#[trigger] run[j])) {
            assert(!has_cell(streamed(run[n])));
            assert forall|j: int| 0 <= j < front.len() implies !has_cell(
                streamed(#[trigger] front[j]),
            ) by {
                assert(front[j] == run[j]);
            }
        }
    }
}

/// The rows that an event brings: streamed, or those of a finished statement.
pub open spec fn brought(event: QueryProgress) -> Seq<Vec<String>> {
    match finished(event) {
        Some(result) => result.rows@,
        None => streamed(event),
    }
}

/// Whether an event is the first of a run that brings a first row with a cell.
pub open spec fn is_first_brought(run: Seq<QueryProgress>, i: int) -> bool {
    &&& 0 <= i < run.len()
    &&& has_cell(brought(run[i]))
    &&& forall|j: int| 0 <= j < i ==> !has_cell(brought(#[trigger] run[j]))
}

/// Whether no event of a run brings a first row with a cell.
pub open spec fn none_brought(run: Seq<QueryProgress>) -> bool {
    forall|j: int| 0 <= j < run.len() ==> !has_cell(brought(#[trigger] run[j]))
}

proof fn lemma_scalar_from(run: Seq<QueryProgress>, from: int, i: int)
    requires
        0 <= from <= i,
        is_first_brought(run, i),
    ensures
        scalar_from(run, from) == data_cell(headings(run.take(i)), brought(run[i])),
    decreases i - from,
{
    assert(event_rows(run[from]) =~= brought(run[from]));
    if from < i {
        assert(!has_cell(brought(run[from])));
        lemma_scalar_from(run, from + 1, i);
    }
}

proof fn lemma_scalar_none(run: Seq<QueryProgress>, from: int)
    requires
        0 <= from,
        none_brought(run),
    ensures
        scalar_from(run, from) is None,
    decreases run.len() - from,
{
    if from < run.len() {
        assert(event_rows(run[from]) =~= brought(run[from]));
        assert(!has_cell(brought(run[from])));
        lemma_scalar_none(run, from + 1);
    }
}

/// A setting is read from the first rows that come, by the columns opened before
/// them; a row count from the last cell of their first row.
pub proof fn the_first_rows_that_come_are_read(run: Seq<QueryProgress>, i: int)
    ensures
        is_first_brought(run, i) ==> scalar(run) == data_cell(
            headings(run.take(i)),
            brought(run[i]),
        ) && any_cell(run) == Some(brought(run[i])[0]@.last()@),
        none_brought(run) ==> scalar(run) is None && any_cell(run) is None,
    decreases run.len(),
{
    if is_first_brought(run, i) {
        lemma_scalar_from(run, 0, i);
        lemma_any_cell(run, i);
    }
    if none_brought(run) {
        lemma_scalar_none(run, 0);
        lemma_any_none(run);
    }
}

proof fn lemma_any_cell(run: Seq<QueryProgress>, i: int)
    requires
        is_first_brought(run, i),
    ensures
        any_cell(run) == Some(brought(run[i])[0]@.last()@),
    decreases i,
{
    if i > 0 {
        let rest = run.drop_first();
        assert(!has_cell(brought(run[0])));
        assert(event_cell(run[0]) is None);
        assert forall|j: int| 0 <= j < i - 1 implies !has_cell(brought(#[trigger] rest[j])) by {
            assert(rest[j] == run[j + 1]);
        }
        assert(rest[i - 1] == run[i]);
        lemma_any_cell(rest, i - 1);
    }
}

proof fn lemma_any_none(run: Seq<QueryProgress>)
    requires
        none_brought(run),
    ensures
        any_cell(run) is None,
    decreases run.len(),
{
    if run.len() > 0 {
        let rest = run.drop_first();
        assert(!has_cell(brought(run[0])));
        assert forall|j: int| 0 <= j < rest.len() implies !has_cell(brought(#[trigger] rest[j])) by {
            assert(rest[j] == run[j + 1]);
        }
        lemma_any_none(rest);
    }
}

/// Whether an event is the first of a run that streams a first row with a cell.
pub open spec fn is_first_batch(run: Seq<QueryProgress>, i: int) -> bool {
    &&& 0 <= i < run.len()
    &&& has_cell(streamed(run[i]))
    &&& forall|j: int| 0 <= j < i ==> !has_cell(streamed(#[trigger] run[j]))
}

/// A count of the live grid is the last cell of the first row streamed.
pub proof fn a_count_is_streamed_first(run: Seq<QueryProgress>, i: int)
    ensures
        is_first_batch(run, i) ==> leading_cell(run) == Some(streamed(run[i])[0]@.last()@),
        (forall|j: int| 0 <= j < run.len() ==> !has_cell(streamed(#[trigger] run[j])))
            ==> leading_cell(run) is None,
    decreases run.len(),
{
    if run.len() > 0 {
        let rest = run.drop_first();
        a_count_is_streamed_first(rest, i - 1);
        if is_first_batch(run, i) && i > 0 {
            assert(!has_cell(streamed(run[0])));
            assert forall|j: int| 0 <= j < i - 1 implies !has_cell(
                streamed(#[trigger] rest[j]),
            ) by {
                assert(rest[j] == run[j + 1]);
            }
            assert(rest[i - 1] == run[i]);
            assert(is_first_batch(rest, i - 1));
        }
        if forall|j: int| 0 <= j < run.len() ==> !has_cell(streamed(#[trigger] run[j])) {
            assert(!has_cell(streamed(run[0])));
            assert forall|j: int| 0 <= j < rest.len() implies !has_cell(
                streamed(#[trigger] rest[j]),
            ) by {
                assert(rest[j] == run[j + 1]);
            }
        }
    }
}

/// The one cell of a run is the last of its first streamed row; where that has
/// none, the last of the first row of the first query that finished.
pub proof fn the_one_cell_of_a_run(run: Seq<QueryProgress>, k: int)
    ensures
        has_cell(rows(run)) ==> seen::scalar(run) == Some(rows(run)[0]@.last()@),
        !has_cell(rows(run)) && 0 <= k < results(run).len() && results(run)[k].is_select && (
        forall|j: int| 0 <= j < k ==> !(#[trigger] results(run)[j]).is_select) ==> seen::scalar(
            run,
        ) == (if has_cell(results(run)[k].rows@) {
            Some(results(run)[k].rows@[0]@.last()@)
        } else {
            None
        }),
        !has_cell(rows(run)) && (forall|j: int|
            0 <= j < results(run).len() ==> !(#[trigger] results(run)[j]).is_select)
            ==> seen::scalar(run) is None,
{
    let p = |r: QueryResult| is_query(r);
    if 0 <= k < results(run).len() && results(run)[k].is_select && (forall|j: int|
        0 <= j < k ==> !(#[trigger] results(run)[j]).is_select) {
        crate::progress::first_where_is_least(results(run), p, k);
    }
    if forall|j: int| 0 <= j < results(run).len() ==> !(#[trigger] results(run)[j]).is_select {
        crate::progress::first_where_is_least(results(run), p, results(run).len() as int);
    }
}

/// The number in the last cell of a row, if it spells one.
pub open spec fn read_of(row: Vec<String>) -> Option<int> {
    if row@.len() == 0 { None } else { integer_value(trim(row@.last()@)) }
}

/// The numbers read from two lists of rows are those of the first and those of the
/// second; a row gives the number in its last cell, or none.
pub proof fn rows_are_read_in_order(a: Seq<Vec<String>>, b: Seq<Vec<String>>, row: Vec<String>)
    ensures
        reads(a + b) == reads(a) + reads(b),
        read_of(row) is None ==> reads(seq![row]) == Seq::<i64>::empty(),
        read_of(row) matches Some(n) ==> reads(seq![row]) == seq![n as i64] && n as i64 as int == n,
    decreases b.len(),
{
    if b.len() == 0 {
        assert(a + b =~= a);
        assert(reads(a) + reads(b) =~= reads(a));
    } else {
        rows_are_read_in_order(a, b.drop_last(), row);
        assert((a + b).drop_last() =~= a + b.drop_last());
        assert((a + b).last() == b.last());
        assert(reads(a + b) =~= reads(a) + reads(b));
    }
    let one = seq![row];
    assert(one.drop_last() =~= Seq::<Vec<String>>::empty());
    assert(reads(one.drop_last()) =~= Seq::<i64>::empty());
    assert(one.last() == row);
    assert(last_cell(row) == (if row@.len() == 0 { None } else { Some(row@.last()@) }));
    match read_of(row) {
        Some(n) => {
            assert(reads(one) =~= seq![n as i64]);
        },
        None => {
            assert(reads(one) =~= Seq::<i64>::empty());
        },
    }
}

/// Whether the last two numbers of some rows stand in these two.
pub open spec fn last_two_stand(all: Seq<Vec<String>>, i: int, j: int) -> bool {
    &&& 0 <= i < j < all.len()
    &&& read_of(all[i]) is Some
    &&& read_of(all[j]) is Some
    &&& forall|k: int| i < k < all.len() && k != j ==> read_of(#[trigger] all[k]) is None
}

proof fn lemma_no_reads(all: Seq<Vec<String>>)
    requires
        forall|k: int| 0 <= k < all.len() ==> read_of(#[trigger] all[k]) is None,
    ensures
        reads(all) == Seq::<i64>::empty(),
    decreases all.len(),
{
    if all.len() > 0 {
        let front = all.drop_last();
        assert forall|k: int| 0 <= k < front.len() implies read_of(#[trigger] front[k]) is None by {
            assert(front[k] == all[k]);
        }
        lemma_no_reads(front);
        assert(read_of(all[all.len() - 1]) is None);
    }
}

/// The last two numbers read are those of the last two rows that have one.
pub proof fn the_last_two_numbers(all: Seq<Vec<String>>, i: int, j: int)
    requires
        last_two_stand(all, i, j),
    ensures
        reads(all).len() >= 2,
        reads(all)[reads(all).len() - 2] as int == read_of(all[i])->0,
        reads(all)[reads(all).len() - 1] as int == read_of(all[j])->0,
{
    let a = all.take(i);
    let m1 = all.subrange(i + 1, j);
    let m2 = all.skip(j + 1);
    assert(all =~= a + seq![all[i]] + m1 + seq![all[j]] + m2);
    rows_are_read_in_order(a, seq![all[i]], all[i]);
    rows_are_read_in_order(a + seq![all[i]], m1, all[i]);
    rows_are_read_in_order(a + seq![all[i]] + m1, seq![all[j]], all[j]);
    rows_are_read_in_order(a + seq![all[i]] + m1 + seq![all[j]], m2, all[j]);
    assert forall|k: int| 0 <= k < m1.len() implies read_of(#[trigger] m1[k]) is None by {
        assert(m1[k] == all[i + 1 + k]);
    }
    assert forall|k: int| 0 <= k < m2.len() implies read_of(#[trigger] m2[k]) is None by {
        assert(m2[k] == all[j + 1 + k]);
    }
    lemma_no_reads(m1);
    lemma_no_reads(m2);
}

/// Rows in which fewer than two spell a number give fewer than two numbers.
pub proof fn fewer_than_two_numbers(all: Seq<Vec<String>>, i: int)
    requires
        forall|k: int| 0 <= k < all.len() && k != i ==> read_of(#[trigger] all[k]) is None,
    ensures
        reads(all).len() < 2,
{
    if 0 <= i < all.len() {
        let a = all.take(i);
        let b = all.skip(i + 1);
        assert(all =~= a + seq![all[i]] + b);
        rows_are_read_in_order(a, seq![all[i]], all[i]);
        rows_are_read_in_order(a + seq![all[i]], b, all[i]);
        assert forall|k: int| 0 <= k < a.len() implies read_of(#[trigger] a[k]) is None by {
            assert(a[k] == all[k]);
        }
        assert forall|k: int| 0 <= k < b.len() implies read_of(#[trigger] b[k]) is None by {
            assert(b[k] == all[i + 1 + k]);
        }
        lemma_no_reads(a);
        lemma_no_reads(b);
    } else {
        lemma_no_reads(all);
    }
}

} // verus!
