//! What a probe that passed has seen, said of what was observed.
use vstd::prelude::*;

use crate::course::{
    a_clean_run_stands_at_all_that_is_not_left_out, answers_move_on, clean, leaves_nothing_out,
    left_out, memory_keeps_its_size, nothing_is_taken_back, passes, skips, state_at, steps_move_on,
    stumbles, writes,
};
use crate::grid::grid_rows;
use crate::laws::cells::{last_two_stand, read_of};
use crate::laws::events::{
    ended, finished, is_last, is_last_end, the_first_and_the_last_statement,
    the_last_end_says_whether_it_was_cancelled,
};
use crate::laws::imports::{a_file_is_read_back_cell_by_cell, file_read_back};
use crate::laws::runs::{a_cancelled_run_is_told, ran};
use crate::laws::tabs::one_snapshot_shows_in_two_equal_reads;
use crate::machine::{answered, course, kept, settle, step, Course, Row, Weight};
use crate::op::{class, Class, Op};
use crate::progress::{results, rows, QueryProgress};
use crate::seen::{at, events, reads, Seen, SessionState};
use crate::template::fill;
use crate::verdict::{holds, last_two, numbers};

verus! {

/// Whether a run came to its plan's end with nothing failed.
pub open spec fn passed(plan: Seq<Row>, c: Course, answers: Seq<Seen>) -> bool {
    &&& 0 <= c.at <= plan.len()
    &&& clean(c)
    &&& clean(course(plan, c, answers))
    &&& course(plan, c, answers).at == plan.len()
}

/// Whether a run made an action and was answered so.
pub open spec fn was_answered(
    plan: Seq<Row>,
    c: Course,
    answers: Seq<Seen>,
    k: int,
    seen: Seen,
) -> bool {
    &&& 0 <= k < plan.len()
    &&& class(plan[k].0) == Class::Action
    &&& state_at(plan, c, answers, k) matches Some(s) && state_at(plan, c, answers, k + 1) == Some(
        answered(plan, s, seen),
    )
}

/// A run that passed goes from a row that leaves nothing out to the next one.
pub proof fn a_run_that_passed_goes_on(plan: Seq<Row>, c: Course, answers: Seq<Seen>, k: int)
    requires
        passed(plan, c, answers),
        0 <= k < plan.len(),
        passes(plan, c, answers, k),
        leaves_nothing_out(plan[k]),
    ensures
        c.at <= k,
        passes(plan, c, answers, k + 1),
        state_at(plan, c, answers, k)->0.at == k,
        clean(state_at(plan, c, answers, k)->0),
        ({
            let s = state_at(plan, c, answers, k)->0;
            let t = state_at(plan, c, answers, k + 1);
            if class(plan[k].0) == Class::Action {
                exists|seen: Seen| t == Some(#[trigger] answered(plan, s, seen))
            } else {
                t == Some(step(plan, s))
            }
        }),
    decreases answers.len(), plan.len() - c.at,
{
    if c.at < plan.len() {
        if class(plan[c.at].0) == Class::Action {
            assert(settle(plan, c) == c);
            if answers.len() > 0 {
                let next = answered(plan, c, answers[0]);
                let rest = answers.drop_first();
                answers_move_on(plan, c, answers[0]);
                nothing_is_taken_back(plan, next, rest);
                assert(clean(next));
                if c.at == k {
                    assert(next.at == k + 1);
                    assert(state_at(plan, next, rest, k + 1) == Some(next));
                    assert(state_at(plan, c, answers, k + 1) == Some(
                        answered(plan, c, answers[0]),
                    ));
                } else {
                    a_run_that_passed_goes_on(plan, next, rest, k);
                }
            }
        } else {
            let next = step(plan, c);
            steps_move_on(plan, c);
            assert(settle(plan, c) == settle(plan, next));
            assert(course(plan, c, answers) == course(plan, next, answers));
            nothing_is_taken_back(plan, next, answers);
            assert(clean(next));
            if c.at == k {
                assert(next.at == k + 1);
                assert(state_at(plan, next, answers, k + 1) == Some(next));
            } else {
                a_run_that_passed_goes_on(plan, next, answers, k);
            }
        }
    }
}

/// On the way from one row to another, over rows that leave nothing out, a slot that
/// none of them writes keeps what it held.
pub proof fn a_slot_is_kept_on_the_way(
    plan: Seq<Row>,
    c: Course,
    answers: Seq<Seen>,
    i: int,
    j: int,
    slot: int,
)
    requires
        passed(plan, c, answers),
        0 <= i <= j <= plan.len(),
        passes(plan, c, answers, i),
        forall|k: int| i <= k < j ==> leaves_nothing_out(#[trigger] plan[k]),
        forall|k: int| i <= k < j ==> !#[trigger] writes(plan[k], slot),
    ensures
        passes(plan, c, answers, j),
        at(state_at(plan, c, answers, j)->0.memory, slot) == at(
            state_at(plan, c, answers, i)->0.memory,
            slot,
        ),
    decreases j - i,
{
    if i < j {
        a_slot_is_kept_on_the_way(plan, c, answers, i, j - 1, slot);
        assert(leaves_nothing_out(plan[j - 1]));
        assert(!writes(plan[j - 1], slot));
        a_run_that_passed_goes_on(plan, c, answers, j - 1);
    }
}

/// A run that passed and stands at an action was answered, and the answer is kept in
/// the action's slot.
pub proof fn an_action_was_answered(plan: Seq<Row>, c: Course, answers: Seq<Seen>, k: int)
    requires
        passed(plan, c, answers),
        0 <= k < plan.len(),
        passes(plan, c, answers, k),
        class(plan[k].0) == Class::Action,
    ensures
        passes(plan, c, answers, k + 1),
        exists|seen: Seen| #[trigger] was_answered(plan, c, answers, k, seen),
        forall|seen: Seen| #[trigger]
            was_answered(plan, c, answers, k, seen) && plan[k].2 < state_at(
                plan,
                c,
                answers,
                k,
            )->0.memory.len() ==> at(
                state_at(plan, c, answers, k + 1)->0.memory,
                plan[k].2 as int,
            ) == kept(plan[k].0, seen),
{
    a_run_that_passed_goes_on(plan, c, answers, k);
    let s = state_at(plan, c, answers, k)->0;
    let seen = choose|seen: Seen|
        state_at(plan, c, answers, k + 1) == Some(#[trigger] answered(plan, s, seen));
    assert(was_answered(plan, c, answers, k, seen));
}

/// What an action was answered stands in its slot until a later row, over rows that
/// leave nothing out and do not write the slot.
pub proof fn an_answer_stands_until_then(
    plan: Seq<Row>,
    c: Course,
    answers: Seq<Seen>,
    k: int,
    j: int,
)
    requires
        passed(plan, c, answers),
        0 <= k < j <= plan.len(),
        passes(plan, c, answers, k),
        class(plan[k].0) == Class::Action,
        plan[k].2 < c.memory.len(),
        forall|i: int| k < i < j ==> leaves_nothing_out(#[trigger] plan[i]),
        forall|i: int| k < i < j ==> !#[trigger] writes(plan[i], plan[k].2 as int),
    ensures
        passes(plan, c, answers, j),
        exists|seen: Seen| #[trigger]
            was_answered(plan, c, answers, k, seen) && at(
                state_at(plan, c, answers, j)->0.memory,
                plan[k].2 as int,
            ) == kept(plan[k].0, seen),
{
    memory_keeps_its_size(plan, c, answers, k);
    an_action_was_answered(plan, c, answers, k);
    a_slot_is_kept_on_the_way(plan, c, answers, k + 1, j, plan[k].2 as int);
    let seen = choose|seen: Seen| #[trigger] was_answered(plan, c, answers, k, seen);
    assert(at(state_at(plan, c, answers, k + 1)->0.memory, plan[k].2 as int) == kept(
        plan[k].0,
        seen,
    ));
}

/// A row that no step before it can leave out was stood at.
pub proof fn a_row_out_of_reach_was_stood_at(
    plan: Seq<Row>,
    c: Course,
    answers: Seq<Seen>,
    k: int,
)
    requires
        passed(plan, c, answers),
        c.at <= k < plan.len(),
        forall|i: int|
            0 <= i < k ==> (skips((#[trigger] plan[i]).0) ==> i + 1 + plan[i].3 <= k),
    ensures
        passes(plan, c, answers, k),
{
    a_clean_run_stands_at_all_that_is_not_left_out(plan, c, answers, k);
    if left_out(plan, c, answers, k) {
        let i = choose|i: int| #[trigger] crate::course::left_out_by(plan, c, answers, i, k);
        assert(skips(plan[i].0));
    }
}

proof fn lemma_two_reads(all: Seq<Vec<String>>)
    requires
        reads(all).len() >= 2,
    ensures
        exists|i: int, j: int| #[trigger] last_two_stand(all, i, j),
    decreases all.len(),
{
    let front = all.drop_last();
    let n = all.len() - 1;
    if read_of(all[n]) is None {
        assert(reads(all) == reads(front));
        lemma_two_reads(front);
        let (i, j) = choose|i: int, j: int| #[trigger] last_two_stand(front, i, j);
        assert forall|k: int| i < k < all.len() && k != j implies read_of(
            #[trigger] all[k],
        ) is None by {
            if k < n {
                assert(front[k] == all[k]);
            }
        }
        assert(front[i] == all[i] && front[j] == all[j]);
        assert(last_two_stand(all, i, j));
    } else {
        assert(reads(front).len() >= 1);
        lemma_one_read(front);
        let i = choose|i: int| #[trigger] last_one_stands(front, i);
        assert forall|k: int| i < k < all.len() && k != n implies read_of(
            #[trigger] all[k],
        ) is None by {
            assert(front[k] == all[k]);
        }
        assert(front[i] == all[i]);
        assert(last_two_stand(all, i, n));
    }
}

spec fn last_one_stands(all: Seq<Vec<String>>, i: int) -> bool {
    &&& 0 <= i < all.len()
    &&& read_of(all[i]) is Some
    &&& forall|k: int| i < k < all.len() ==> read_of(#[trigger] all[k]) is None
}

proof fn lemma_one_read(all: Seq<Vec<String>>)
    requires
        reads(all).len() >= 1,
    ensures
        exists|i: int| #[trigger] last_one_stands(all, i),
    decreases all.len(),
{
    let front = all.drop_last();
    let n = all.len() - 1;
    if read_of(all[n]) is None {
        lemma_one_read(front);
        let i = choose|i: int| #[trigger] last_one_stands(front, i);
        assert forall|k: int| i < k < all.len() implies read_of(#[trigger] all[k]) is None by {
            if k < n {
                assert(front[k] == all[k]);
            }
        }
        assert(front[i] == all[i]);
        assert(last_one_stands(all, i));
    } else {
        assert(last_one_stands(all, n));
    }
}

/// Whether a batch saw one snapshot: the last two rows of it that have a number have
/// the same one.
pub open spec fn saw_one_snapshot(run: Seq<QueryProgress>) -> bool {
    exists|i: int, j: int| #[trigger]
        last_two_stand(rows(run), i, j) && read_of(rows(run)[i]) == read_of(rows(run)[j])
}

/// A snapshot test that holds has seen a batch that saw one snapshot.
pub proof fn lemma_snapshot_seen(memory: Seq<Seen>, slot: int, other: int, arg: Seq<char>)
    requires
        holds(Op::LastPairSame, slot, other, arg, memory),
    ensures
        at(memory, slot) matches Seen::Run(run) && saw_one_snapshot(run@),
{
    let seen = at(memory, slot);
    assert(last_two(numbers(seen)) is Some);
    let run = events(seen);
    if !(seen is Run) {
        assert(run =~= Seq::<QueryProgress>::empty());
        assert(rows(run) =~= Seq::<Vec<String>>::empty());
        assert(reads(rows(run)).len() == 0);
    }
    lemma_two_reads(rows(run));
    let (i, j) = choose|i: int, j: int| #[trigger] last_two_stand(rows(run), i, j);
    assert(ran(memory, slot, run));
    one_snapshot_shows_in_two_equal_reads(memory, slot, other, arg, run, i, j);
}

/// In a run that passed, the batch of every snapshot test saw one snapshot, unless a
/// step left the test out under its own condition.
pub proof fn every_tested_batch_saw_one_snapshot(
    plan: Seq<Row>,
    c: Course,
    answers: Seq<Seen>,
    k: int,
)
    requires
        passed(plan, c, answers),
        c.at <= k < plan.len(),
        plan[k].0 == Op::LastPairSame,
        plan[k].1 != Weight::Try,
    ensures
        left_out(plan, c, answers, k) || (state_at(plan, c, answers, k) matches Some(s) && (at(
            s.memory,
            plan[k].2 as int,
        ) matches Seen::Run(run) && saw_one_snapshot(run@))),
{
    crate::course::a_clean_run_passes_every_test_not_left_out(plan, c, answers, k);
    if !left_out(plan, c, answers, k) {
        let s = state_at(plan, c, answers, k)->0;
        lemma_snapshot_seen(
            s.memory,
            plan[k].2 as int,
            plan[k].3 as int,
            fill(plan[k].4@, s.memory),
        );
    }
}

/// In a run that passed, every file that was tested came back as the grid showed it,
/// cell by cell, unless a step left the test out under its own condition.
pub proof fn every_tested_file_came_back(
    plan: Seq<Row>,
    c: Course,
    answers: Seq<Seen>,
    k: int,
)
    requires
        passed(plan, c, answers),
        c.at <= k < plan.len(),
        plan[k].0 == Op::ParsedAsExpected,
        plan[k].1 != Weight::Try,
    ensures
        left_out(plan, c, answers, k) || (state_at(plan, c, answers, k) matches Some(s) && (at(
            s.memory,
            plan[k].2 as int,
        ) matches Seen::Imported(t) && file_read_back(
            t,
            grid_rows(events(at(s.memory, plan[k].3 as int))),
        ))),
{
    crate::course::a_clean_run_passes_every_test_not_left_out(plan, c, answers, k);
    if !left_out(plan, c, answers, k) {
        let s = state_at(plan, c, answers, k)->0;
        let slot = plan[k].2 as int;
        match at(s.memory, slot) {
            Seen::Imported(t) => {
                a_file_is_read_back_cell_by_cell(
                    s.memory,
                    slot,
                    plan[k].3 as int,
                    fill(plan[k].4@, s.memory),
                    t,
                    events(at(s.memory, plan[k].3 as int)),
                );
            },
            _ => {},
        }
    }
}

/// Whether a state is one of uncommitted work.
pub open spec fn is_dirty(state: SessionState) -> bool {
    state == SessionState::MaybeDirty || state == SessionState::BlockedDirty || state
        == SessionState::DecisionRequired
}

/// Whether the events of a run say that it ended cancelled.
pub open spec fn ended_cancelled(run: Seq<QueryProgress>) -> bool {
    exists|i: int| #[trigger] is_last_end(run, i) && ended(run[i]) == Some(true)
}

/// Whether the last statement that the events of a run report succeeded.
pub open spec fn ended_well(run: Seq<QueryProgress>) -> bool {
    exists|i: int| #[trigger] is_last(run, i) && (finished(run[i])->0).success
}

/// The test that a run was not cancelled holds exactly where its events do not say that
/// it was; the test that its last statement succeeded exactly where they say so.
pub proof fn ends_are_told_by_the_events(
    memory: Seq<Seen>,
    slot: int,
    other: int,
    arg: Seq<char>,
    run: Seq<QueryProgress>,
)
    requires
        ran(memory, slot, run),
    ensures
        holds(Op::NotCancelled, slot, other, arg, memory) <==> !ended_cancelled(run),
        holds(Op::LastSucceeded, slot, other, arg, memory) <==> ended_well(run),
{
    the_last_end_says_whether_it_was_cancelled(run);
    the_first_and_the_last_statement(run);
    if ended_cancelled(run) {
        let i = choose|i: int| #[trigger] is_last_end(run, i) && ended(run[i]) == Some(true);
        a_cancelled_run_is_told(memory, slot, other, arg, run, i);
    } else if crate::progress::finished_flag(run) is Some {
        let i = choose|i: int| #[trigger] is_last_end(run, i);
        assert(ended(run[i]) is Some);
        assert(ended(run[i]) == Some(false));
        a_cancelled_run_is_told(memory, slot, other, arg, run, i);
    }
    if results(run).len() > 0 {
        let i = choose|i: int| #[trigger] is_last(run, i);
        crate::laws::runs::the_last_statement_is_tested(memory, slot, other, arg, run, i);
        if ended_well(run) {
            let m = choose|m: int| #[trigger] is_last(run, m) && (finished(run[m])->0).success;
            crate::laws::runs::the_last_statement_is_tested(memory, slot, other, arg, run, m);
        }
    } else if ended_well(run) {
        let m = choose|m: int| #[trigger] is_last(run, m) && (finished(run[m])->0).success;
        assert(finished(run[m]) is Some);
    }
}

/// A call that its events say was not cancelled never stumbles at the test of it,
/// whatever the plan.
pub proof fn a_call_that_was_not_cancelled_does_not_stumble(
    plan: Seq<Row>,
    c: Course,
    run: Seq<QueryProgress>,
)
    requires
        0 <= c.at < plan.len(),
        plan[c.at].0 == Op::NotCancelled,
        ran(c.memory, plan[c.at].2 as int, run),
    ensures
        ended_cancelled(run) ==> (stumbles(plan, c) <==> plan[c.at].1 != Weight::Try),
        !ended_cancelled(run) ==> !stumbles(plan, c),
{
    let row = plan[c.at];
    ends_are_told_by_the_events(
        c.memory,
        row.2 as int,
        row.3 as int,
        fill(row.4@, c.memory),
        run,
    );
}

} // verus!
