//! What the probe of generated statements has seen where it passed: what was exported as
//! statements came back through the server as it was.
use vstd::prelude::*;
use vstd::string::*;

use crate::course::{
    clean, in_a_clean_run_every_test_held, memory_keeps_its_size, passes, skips, state_at, writes,
};
use crate::grid::{column_at, grid_columns, grid_rows};
use crate::grid_sql_export_live::{
    all_steps, Target, MYSQL_KIND_STEPS, OPENING, ORACLE_KIND_STEPS, ROUND_TRIP, SLOTS,
};
use crate::laws::cells::{a_count_is_streamed_first, is_first_batch, streamed};
use crate::laws::grids::{
    an_update_changes_two_names, an_update_shows_in_the_grid, grids_are_compared_cell_by_cell,
};
use crate::laws::loads::{an_unwritten_slot_is_kept_between, same_grid};
use crate::laws::outcome::{
    a_row_out_of_reach_was_stood_at, an_action_was_answered, passed, was_answered,
};
use crate::machine::{course, given, opening, Course, Row, Weight};
use crate::op::Op;
use crate::progress::QueryProgress;
use crate::seen::{at, events, Seen};
use crate::template::fill;
use crate::text::{integer_value, trim};
use crate::verdict::holds;

verus! {

/// Whether a run's first row streamed ends in a number.
pub open spec fn counts_to(run: Seq<QueryProgress>, n: int) -> bool {
    exists|i: int| #[trigger]
        is_first_batch(run, i) && integer_value(trim(streamed(run[i])[0]@.last()@)) == Some(n)
}

/// Whether a grid is another with the names of its first two rows changed.
pub open spec fn renamed(
    after: Seq<Seq<Seq<char>>>,
    before: Seq<Seq<Seq<char>>>,
    name: int,
) -> bool {
    &&& after.len() == before.len()
    &&& forall|i: int|
        0 <= i < before.len() && before[i].len() > 0 ==> (#[trigger] after[i]).len()
            == before[i].len()
    &&& forall|i: int, j: int|
        0 <= i < before.len() && 0 <= j < before[i].len() ==> #[trigger] after[i][j] == (if i == 0
            && j == name {
            "UPDATED'X"@
        } else if i == 1 && j == name {
            "second"@
        } else {
            before[i][j]
        })
}

/// Whether a query of some text was run in a row and answered so.
pub open spec fn was_asked(
    plan: Seq<Row>,
    c: Course,
    answers: Seq<Seen>,
    k: int,
    sql: Seq<char>,
    seen: Seen,
) -> bool {
    &&& plan[k].0 == Op::Do && plan[k].4@ == sql
    &&& was_answered(plan, c, answers, k, seen)
}

/// Whether the rows that a generated clause matches were counted to a number.
pub open spec fn was_counted(
    plan: Seq<Row>,
    c: Course,
    answers: Seq<Seen>,
    k: int,
    n: int,
) -> bool {
    exists|seen: Seen| #[trigger]
        was_asked(
            plan,
            c,
            answers,
            k,
            "SELECT COUNT(*) AS N FROM OQT_SQL_EXPORT_SRC WHERE {t15}"@,
            seen,
        ) && counts_to(events(seen), n)
}

/// What the rows of the plan are to these laws: nothing is skipped, the source is read
/// into its own slot, and nothing else touches that one.
spec fn plan_is_sound(plan: Seq<Row>) -> bool {
    &&& plan.len() == 68
    &&& forall|i: int| 0 <= i < 68 ==> !skips((#[trigger] plan[i]).0)
    &&& forall|i: int| 8 < i < 68 ==> !writes(#[trigger] plan[i], 10)
    &&& plan[8].0 == Op::Do && plan[8].2 == 10 && plan[8].4@ == "{t09}"@
}

/// What the rows of the round trip are to these laws.
spec fn trips(part: Seq<Row>) -> bool {
    &&& part.len() == 37
    &&& part[5].0 == Op::BuildInserts
    &&& part[6].0 == Op::Do && part[6].1 == Weight::Leave && part[6].4@ == "{t15}"@
    &&& part[8].0 == Op::Do && part[8].2 == 11 && part[8].4@ == "{t06}"@
    &&& !writes(part[9], 11)
    &&& part[10].0 == Op::GridSame && part[10].1 == Weight::Leave && part[10].2 == 11
        && part[10].3 == 10
    &&& part[14].0 == Op::HasColumn && part[14].1 == Weight::Leave && part[14].2 == 10
        && part[14].4@ == "NAME"@
    &&& part[15].0 == Op::BuildUpdates
    &&& part[16].0 == Op::Do && part[16].1 == Weight::Leave && part[16].4@ == "{t15}"@
    &&& part[18].0 == Op::Do && part[18].2 == 11 && part[18].4@ == "{t06}"@
    &&& !writes(part[19], 11)
    &&& part[20].0 == Op::GridUpdated && part[20].1 == Weight::Leave && part[20].2 == 11
        && part[20].3 == 10
    &&& clause(part, 24, 2)
    &&& clause(part, 27, 1)
    &&& clause(part, 30, 2)
}

spec fn clause(part: Seq<Row>, i: int, n: int) -> bool {
    &&& part[i].0 == Op::BuildWhere
    &&& part[i + 1].0 == Op::Do && part[i + 1].2 == 11 && part[i + 1].4@
        == "SELECT COUNT(*) AS N FROM OQT_SQL_EXPORT_SRC WHERE {t15}"@
    &&& part[i + 2].0 == Op::CountIs && part[i + 2].1 == Weight::Leave && part[i + 2].2 == 11
        && part[i + 2].3 == n
}

spec fn touches_nothing(part: Seq<Row>) -> bool {
    &&& forall|i: int| 0 <= i < part.len() ==> !skips((#[trigger] part[i]).0)
    &&& forall|i: int| 0 <= i < part.len() ==> !writes(#[trigger] part[i], 10)
}

proof fn lemma_trip_rows()
    ensures
        trips(ROUND_TRIP@),
        touches_nothing(ROUND_TRIP@),
{
}

proof fn lemma_kind_rows()
    ensures
        ORACLE_KIND_STEPS@.len() == 18,
        MYSQL_KIND_STEPS@.len() == 18,
        touches_nothing(ORACLE_KIND_STEPS@),
        touches_nothing(MYSQL_KIND_STEPS@),
{
}

proof fn lemma_opening_rows()
    ensures
        OPENING@.len() == 13,
        forall|i: int| 0 <= i < 13 ==> !skips((#[trigger] OPENING@[i]).0),
        forall|i: int| 8 < i < 13 ==> !writes(#[trigger] OPENING@[i], 10),
        OPENING@[8].0 == Op::Do && OPENING@[8].2 == 10 && OPENING@[8].4@ == "{t09}"@,
{
}

proof fn lemma_sound(target: Target)
    ensures
        plan_is_sound(all_steps(target)),
        forall|i: int|
            31 <= i < 68 ==> #[trigger] all_steps(target)[i] == ROUND_TRIP@[i - 31],
{
    lemma_trip_rows();
    lemma_kind_rows();
    lemma_opening_rows();
    let kinds = if target.oracle() { ORACLE_KIND_STEPS@ } else { MYSQL_KIND_STEPS@ };
    assert(given(target.oracle(), ORACLE_KIND_STEPS@) + given(!target.oracle(), MYSQL_KIND_STEPS@)
        =~= kinds);
    assert(all_steps(target) =~= OPENING@ + kinds + ROUND_TRIP@);
    lemma_three(all_steps(target), OPENING@, kinds, ROUND_TRIP@);
}

proof fn lemma_three(plan: Seq<Row>, a: Seq<Row>, b: Seq<Row>, t: Seq<Row>)
    requires
        plan == a + b + t,
        a.len() == 13,
        b.len() == 18,
        t.len() == 37,
        touches_nothing(b),
        touches_nothing(t),
        forall|i: int| 0 <= i < 13 ==> !skips((#[trigger] a[i]).0),
        forall|i: int| 8 < i < 13 ==> !writes(#[trigger] a[i], 10),
        a[8].0 == Op::Do && a[8].2 == 10 && a[8].4@ == "{t09}"@,
    ensures
        plan_is_sound(plan),
        forall|i: int| 31 <= i < 68 ==> #[trigger] plan[i] == t[i - 31],
{
    assert(plan[8] == a[8]);
    assert forall|i: int| 0 <= i < 68 implies !skips((#[trigger] plan[i]).0) && (8 < i ==> !writes(
        plan[i],
        10,
    )) by {
        if i < 13 {
            assert(plan[i] == a[i]);
        } else if i < 31 {
            assert(plan[i] == b[i - 13]);
        } else {
            assert(plan[i] == t[i - 31]);
        }
    }
}

/// What stands at a row once one before it was answered: that answer in its slot, where
/// nothing in between wrote it, and the source in its own.
proof fn lemma_stands(
    plan: Seq<Row>,
    c: Course,
    answers: Seq<Seen>,
    k: int,
    j: int,
) -> (seen: Seen)
    requires
        passed(plan, c, answers),
        c.at == 0,
        c.memory.len() == SLOTS,
        plan_is_sound(plan),
        0 <= k < j < 68,
        plan[k].0 == Op::Do,
        plan[k].2 < SLOTS,
        forall|i: int| k < i < j ==> !#[trigger] writes(plan[i], plan[k].2 as int),
    ensures
        was_answered(plan, c, answers, k, seen),
        passes(plan, c, answers, j),
        state_at(plan, c, answers, j)->0.memory.len() == SLOTS,
        at(state_at(plan, c, answers, j)->0.memory, plan[k].2 as int) == seen,
{
    a_row_out_of_reach_was_stood_at(plan, c, answers, k);
    a_row_out_of_reach_was_stood_at(plan, c, answers, j);
    memory_keeps_its_size(plan, c, answers, k);
    memory_keeps_its_size(plan, c, answers, j);
    an_action_was_answered(plan, c, answers, k);
    let seen = choose|seen: Seen| #[trigger] was_answered(plan, c, answers, k, seen);
    an_unwritten_slot_is_kept_between(plan, c, answers, k + 1, j, plan[k].2 as int);
    seen
}

/// A row is answered in one way only.
proof fn lemma_one_source(
    plan: Seq<Row>,
    c: Course,
    answers: Seq<Seen>,
    j: int,
    source: Seen,
)
    requires
        passed(plan, c, answers),
        c.at == 0,
        c.memory.len() == SLOTS,
        plan_is_sound(plan),
        8 < j < 68,
        was_answered(plan, c, answers, 8, source),
    ensures
        passes(plan, c, answers, j),
        state_at(plan, c, answers, j)->0.memory.len() == SLOTS,
        at(state_at(plan, c, answers, j)->0.memory, 10) == source,
{
    a_row_out_of_reach_was_stood_at(plan, c, answers, 8);
    memory_keeps_its_size(plan, c, answers, 8);
    an_action_was_answered(plan, c, answers, 8);
    let seen = lemma_stands(plan, c, answers, 8, j);
}

proof fn lemma_same(plan: Seq<Row>, c: Course, answers: Seq<Seen>, source: Seen, t: Seq<Row>)
    requires
        passed(plan, c, answers),
        c.at == 0,
        c.memory.len() == SLOTS,
        plan_is_sound(plan),
        trips(t),
        forall|i: int| 31 <= i < 68 ==> #[trigger] plan[i] == t[i - 31],
        was_answered(plan, c, answers, 8, source),
    ensures
        exists|copy: Seen| #[trigger]
            was_asked(plan, c, answers, 39, "{t06}"@, copy) && same_grid(
                grid_rows(events(copy)),
                grid_rows(events(source)),
            ),
{
    assert(plan[39] == t[8]);
    assert(plan[40] == t[9]);
    assert(plan[41] == t[10]);
    let copy = lemma_stands(plan, c, answers, 39, 41);
    lemma_one_source(plan, c, answers, 41, source);
    in_a_clean_run_every_test_held(plan, c, answers, 41);
    let s = state_at(plan, c, answers, 41)->0;
    grids_are_compared_cell_by_cell(
        s.memory,
        11,
        10,
        fill(plan[41].4@, s.memory),
        events(copy),
        events(source),
    );
    assert(was_asked(plan, c, answers, 39, "{t06}"@, copy));
}

proof fn lemma_renamed(plan: Seq<Row>, c: Course, answers: Seq<Seen>, source: Seen, t: Seq<Row>)
    requires
        passed(plan, c, answers),
        c.at == 0,
        c.memory.len() == SLOTS,
        plan_is_sound(plan),
        trips(t),
        forall|i: int| 31 <= i < 68 ==> #[trigger] plan[i] == t[i - 31],
        was_answered(plan, c, answers, 8, source),
    ensures
        exists|copy: Seen, name: int| #[trigger]
            was_asked(plan, c, answers, 49, "{t06}"@, copy) && column_at(
                grid_columns(events(source)),
                "NAME"@,
            ) == Some(name) && #[trigger] renamed(
                grid_rows(events(copy)),
                grid_rows(events(source)),
                name,
            ),
{
    assert(plan[45] == t[14]);
    assert(plan[49] == t[18]);
    assert(plan[50] == t[19]);
    assert(plan[51] == t[20]);
    let copy = lemma_stands(plan, c, answers, 49, 51);
    lemma_one_source(plan, c, answers, 51, source);
    lemma_one_source(plan, c, answers, 45, source);
    in_a_clean_run_every_test_held(plan, c, answers, 51);
    in_a_clean_run_every_test_held(plan, c, answers, 45);
    let s = state_at(plan, c, answers, 51)->0;
    let e = state_at(plan, c, answers, 45)->0;
    lemma_name_has_no_hole(e.memory);
    an_update_shows_in_the_grid(
        s.memory,
        11,
        10,
        fill(plan[51].4@, s.memory),
        events(copy),
        events(source),
    );
    assert(holds(Op::HasColumn, 10, plan[45].3 as int, "NAME"@, e.memory));
    assert(column_at(grid_columns(events(source)), "NAME"@) is Some);
    let name = column_at(grid_columns(events(source)), "NAME"@)->0;
    let before = grid_rows(events(source));
    let after = grid_rows(events(copy));
    assert forall|i: int, j: int| 0 <= i < before.len() && 0 <= j < before[i].len() implies {
        &&& after[i].len() == before[i].len()
        &&& #[trigger] after[i][j] == (if i == 0 && j == name {
            "UPDATED'X"@
        } else if i == 1 && j == name {
            "second"@
        } else {
            before[i][j]
        })
    } by {
        an_update_changes_two_names(events(source), name, i, j);
    }
    assert forall|i: int| 0 <= i < before.len() && before[i].len() > 0 implies (
    #[trigger] after[i]).len() == before[i].len() by {
        an_update_changes_two_names(events(source), name, i, 0);
    }
    assert(after.len() == before.len());
    assert(was_asked(plan, c, answers, 49, "{t06}"@, copy));
    assert(renamed(after, before, name));
}

proof fn lemma_name_has_no_hole(memory: Seq<Seen>)
    ensures
        fill("NAME"@, memory) == "NAME"@,
{
    reveal_strlit("NAME");
    crate::template::plain_template_stands_for_itself("NAME"@, memory);
}

proof fn lemma_counted(
    plan: Seq<Row>,
    c: Course,
    answers: Seq<Seen>,
    t: Seq<Row>,
    i: int,
    n: int,
)
    requires
        passed(plan, c, answers),
        c.at == 0,
        c.memory.len() == SLOTS,
        plan_is_sound(plan),
        t.len() == 37,
        0 <= i < 34,
        clause(t, i, n),
        forall|j: int| 31 <= j < 68 ==> #[trigger] plan[j] == t[j - 31],
    ensures
        was_counted(plan, c, answers, 31 + i + 1, n),
{
    let k = 31 + i + 1;
    assert(plan[k] == t[i + 1]);
    assert(plan[k + 1] == t[i + 2]);
    let seen = lemma_stands(plan, c, answers, k, k + 1);
    in_a_clean_run_every_test_held(plan, c, answers, k + 1);
    let s = state_at(plan, c, answers, k + 1)->0;
    let run = events(seen);
    assert(holds(Op::CountIs, 11, n, fill(plan[k + 1].4@, s.memory), s.memory));
    if exists|i: int| is_first_batch(run, i) {
        let i = choose|i: int| #[trigger] is_first_batch(run, i);
        a_count_is_streamed_first(run, i);
    } else {
        lemma_no_first(run);
        a_count_is_streamed_first(run, 0);
    }
    assert(counts_to(run, n));
    assert(was_asked(
        plan,
        c,
        answers,
        k,
        "SELECT COUNT(*) AS N FROM OQT_SQL_EXPORT_SRC WHERE {t15}"@,
        seen,
    ));
}

proof fn lemma_no_first(run: Seq<QueryProgress>)
    requires
        forall|i: int| !is_first_batch(run, i),
    ensures
        forall|j: int|
            0 <= j < run.len() ==> !crate::laws::cells::has_cell(streamed(#[trigger] run[j])),
{
    assert forall|j: int| 0 <= j < run.len() implies !crate::laws::cells::has_cell(
        streamed(#[trigger] run[j]),
    ) by {
        lemma_none_up_to(run, j);
    }
}

proof fn lemma_none_up_to(run: Seq<QueryProgress>, j: int)
    requires
        forall|i: int| !is_first_batch(run, i),
        0 <= j < run.len(),
    ensures
        forall|i: int|
            0 <= i <= j ==> !crate::laws::cells::has_cell(streamed(#[trigger] run[i])),
    decreases j,
{
    if j > 0 {
        lemma_none_up_to(run, j - 1);
    }
    assert(!is_first_batch(run, j));
}

/// The probe of generated statements passes only where the source was read, the copy
/// that the generated inserts filled shows the same rows, the copy that the generated
/// updates changed shows the new names in its first two rows and nothing else changed,
/// and the three generated clauses match two rows, one and two.
pub proof fn what_was_generated_came_back(target: Target, memory: Seq<Seen>, answers: Seq<Seen>)
    requires
        memory.len() == SLOTS,
        clean(course(all_steps(target), opening(memory), answers)),
        course(all_steps(target), opening(memory), answers).at == all_steps(target).len(),
    ensures
        exists|source: Seen|
            {
                &&& #[trigger] was_asked(
                    all_steps(target),
                    opening(memory),
                    answers,
                    8,
                    "{t09}"@,
                    source,
                )
                &&& exists|copy: Seen| #[trigger]
                    was_asked(all_steps(target), opening(memory), answers, 39, "{t06}"@, copy)
                        && same_grid(grid_rows(events(copy)), grid_rows(events(source)))
                &&& exists|copy: Seen, name: int| #[trigger]
                    was_asked(all_steps(target), opening(memory), answers, 49, "{t06}"@, copy)
                        && column_at(grid_columns(events(source)), "NAME"@) == Some(name)
                        && #[trigger] renamed(
                        grid_rows(events(copy)),
                        grid_rows(events(source)),
                        name,
                    )
            },
        was_counted(all_steps(target), opening(memory), answers, 56, 2),
        was_counted(all_steps(target), opening(memory), answers, 59, 1),
        was_counted(all_steps(target), opening(memory), answers, 62, 2),
{
    let plan = all_steps(target);
    let c = opening(memory);
    lemma_sound(target);
    lemma_trip_rows();
    let t = ROUND_TRIP@;
    let source = lemma_stands(plan, c, answers, 8, 9);
    assert(was_asked(plan, c, answers, 8, "{t09}"@, source));
    lemma_same(plan, c, answers, source, t);
    lemma_renamed(plan, c, answers, source, t);
    lemma_counted(plan, c, answers, t, 24, 2);
    lemma_counted(plan, c, answers, t, 27, 1);
    lemma_counted(plan, c, answers, t, 30, 2);
}

} // verus!
