//! What the probe of leaked sessions has seen where it passed: as many sessions on the
//! server as before, or fewer, after everything that ought to close one.
use vstd::prelude::*;

use crate::course::{
    clean, in_a_clean_run_every_test_held, memory_keeps_its_size, passes, skips, state_at, writes,
};
use crate::laws::loads::an_unwritten_slot_is_kept_between;
use crate::laws::outcome::{
    a_row_out_of_reach_was_stood_at, an_action_was_answered, passed, was_answered,
};
use crate::laws::tabs::what_is_no_number_compares_to_none;
use crate::machine::{course, opening, Course, Row, Weight};
use crate::op::Op;
use crate::seen::{at, words, Seen};
use crate::session_leak::{
    all_steps, BASELINES, CLOSING_TABS, DISCONNECTING, RACES, REBUILDS, SLOTS, TAB_LOCAL,
};
use crate::template::fill;
use crate::text::{integer_value, trim};
use crate::verdict::holds;

verus! {

/// The number of sessions that was told.
pub open spec fn told(seen: Seen) -> Option<int> {
    integer_value(trim(words(seen)))
}

/// Whether sessions were counted in two rows, once they had settled in the second, and
/// were no more there than in the first.
pub open spec fn came_down(
    plan: Seq<Row>,
    c: Course,
    answers: Seq<Seen>,
    first: int,
    then: int,
) -> bool {
    &&& plan[first].0 == Op::StableCount
    &&& plan[then].0 == Op::SettledCount
    &&& plan[then].3 == plan[first].2
    &&& exists|before: Seen, after: Seen| #[trigger]
        was_answered(plan, c, answers, first, before) && #[trigger] was_answered(
            plan,
            c,
            answers,
            then,
            after,
        ) && told(before) is Some && told(after) is Some && told(after)->0 <= told(before)->0
}

/// No row leaves more than three out.
spec fn skips_are_short(rows: Seq<Row>) -> bool {
    forall|i: int| 0 <= i < rows.len() && skips((#[trigger] rows[i]).0) ==> rows[i].3 <= 3
}

/// A row that no skip is close before was stood at.
proof fn lemma_stood_at(plan: Seq<Row>, c: Course, answers: Seq<Seen>, k: int)
    requires
        passed(plan, c, answers),
        c.at == 0,
        skips_are_short(plan),
        0 <= k < plan.len(),
        forall|i: int| 0 <= i && k - 3 <= i < k ==> !skips((#[trigger] plan[i]).0),
    ensures
        passes(plan, c, answers, k),
{
    assert forall|i: int| 0 <= i < k && skips((#[trigger] plan[i]).0) implies i + 1 + plan[i].3
        <= k by {
        assert(plan[i].3 <= 3);
        if k - 3 <= i {
            assert(!skips(plan[i].0));
        }
    }
    a_row_out_of_reach_was_stood_at(plan, c, answers, k);
}

proof fn lemma_came_down(plan: Seq<Row>, c: Course, answers: Seq<Seen>, first: int, then: int)
    requires
        passed(plan, c, answers),
        c.at == 0,
        c.memory.len() == SLOTS,
        skips_are_short(plan),
        0 <= first < then,
        then + 1 < plan.len(),
        plan[first].0 == Op::StableCount,
        plan[first].2 < SLOTS,
        plan[first].2 != 11,
        plan[then].0 == Op::SettledCount,
        plan[then].2 == 11,
        plan[then].3 == plan[first].2,
        plan[then + 1].0 == Op::AtMost,
        plan[then + 1].1 == Weight::Tally,
        plan[then + 1].2 == 11,
        plan[then + 1].3 == plan[first].2,
        forall|i: int|
            first < i < then + 1 ==> !#[trigger] writes(plan[i], plan[first].2 as int),
        forall|i: int| 0 <= i && first - 3 <= i < first ==> !skips((#[trigger] plan[i]).0),
        forall|i: int| 0 <= i && then - 3 <= i < then ==> !skips((#[trigger] plan[i]).0),
    ensures
        came_down(plan, c, answers, first, then),
{
    let slot = plan[first].2 as int;
    lemma_stood_at(plan, c, answers, first);
    lemma_stood_at(plan, c, answers, then);
    an_action_was_answered(plan, c, answers, first);
    an_action_was_answered(plan, c, answers, then);
    memory_keeps_its_size(plan, c, answers, first);
    memory_keeps_its_size(plan, c, answers, then);
    memory_keeps_its_size(plan, c, answers, then + 1);
    an_unwritten_slot_is_kept_between(plan, c, answers, first + 1, then + 1, slot);
    in_a_clean_run_every_test_held(plan, c, answers, then + 1);
    let s = state_at(plan, c, answers, then + 1)->0;
    let before = choose|seen: Seen| #[trigger] was_answered(plan, c, answers, first, seen);
    let after = choose|seen: Seen| #[trigger] was_answered(plan, c, answers, then, seen);
    let arg = fill(plan[then + 1].4@, s.memory);
    assert(at(s.memory, slot) == before);
    assert(at(s.memory, 11) == after);
    assert(holds(Op::AtMost, 11, slot, arg, s.memory));
    lemma_at_most(s.memory, slot, arg);
    assert(told(after)->0 <= told(before)->0);
}

proof fn lemma_at_most(memory: Seq<Seen>, slot: int, arg: Seq<char>)
    requires
        memory.len() == SLOTS,
        0 <= slot < SLOTS,
        holds(Op::AtMost, 11, slot, arg, memory),
    ensures
        told(memory[11]) is Some,
        told(memory[slot]) is Some,
        told(memory[11])->0 <= told(memory[slot])->0,
{
    if told(memory[11]) is None || told(memory[slot]) is None {
        what_is_no_number_compares_to_none(memory, 11, slot, arg);
    }
}

/// What every part of the plan is to these laws: short skips, and the two counts before
/// any tab left alone.
spec fn leaves_the_counts(rows: Seq<Row>) -> bool {
    &&& skips_are_short(rows)
    &&& forall|i: int| 0 <= i < rows.len() ==> !writes(#[trigger] rows[i], 1)
    &&& forall|i: int| 0 <= i < rows.len() ==> !writes(#[trigger] rows[i], 2)
}

/// Whether a count and its test stand in a part.
spec fn counts(rows: Seq<Row>, i: int, slot: int) -> bool {
    &&& 3 <= i
    &&& i + 1 < rows.len()
    &&& rows[i].0 == Op::SettledCount && rows[i].2 == 11 && rows[i].3 == slot
    &&& rows[i + 1].0 == Op::AtMost && rows[i + 1].1 == Weight::Tally && rows[i + 1].2 == 11
        && rows[i + 1].3 == slot
    &&& !skips(rows[i - 1].0) && !skips(rows[i - 2].0) && !skips(rows[i - 3].0)
}

proof fn lemma_closing_tabs_rows()
    ensures
        CLOSING_TABS@.len() == 67,
        leaves_the_counts(CLOSING_TABS@),
        counts(CLOSING_TABS@, 8, 2),
        counts(CLOSING_TABS@, 18, 2),
        counts(CLOSING_TABS@, 27, 2),
{
}

proof fn lemma_disconnecting_rows()
    ensures
        DISCONNECTING@.len() == 34,
        leaves_the_counts(DISCONNECTING@),
        counts(DISCONNECTING@, 9, 1),
        counts(DISCONNECTING@, 19, 1),
        counts(DISCONNECTING@, 31, 1),
{
}

proof fn lemma_races_rows()
    ensures
        RACES@.len() == 53,
        leaves_the_counts(RACES@),
        counts(RACES@, 37, 1),
        counts(RACES@, 50, 2),
{
}

proof fn lemma_tab_local_rows()
    ensures
        TAB_LOCAL@.len() == 18,
        leaves_the_counts(TAB_LOCAL@),
{
}

proof fn lemma_rebuilds_rows()
    ensures
        REBUILDS@.len() == 73,
        leaves_the_counts(REBUILDS@),
        counts(REBUILDS@, 10, 2),
        counts(REBUILDS@, 30, 2),
        counts(REBUILDS@, 41, 2),
        counts(REBUILDS@, 66, 2),
{
}

proof fn lemma_baselines_rows()
    ensures
        BASELINES@.len() == 4,
        skips_are_short(BASELINES@),
        BASELINES@[1].0 == Op::StableCount && BASELINES@[1].2 == 1,
        BASELINES@[3].0 == Op::StableCount && BASELINES@[3].2 == 2,
        forall|i: int| 0 <= i < 4 ==> !skips((#[trigger] BASELINES@[i]).0),
        forall|i: int| 1 < i < 4 ==> !writes(#[trigger] BASELINES@[i], 1),
{
}

/// Two counts in one part, and what stands between them.
spec fn counts_twice(rows: Seq<Row>, first: int, i: int, slot: int) -> bool {
    &&& counts(rows, i, slot)
    &&& 2 <= first < i
    &&& slot != 11 && 0 <= slot < SLOTS
    &&& rows[first].0 == Op::StableCount && rows[first].2 == slot
    &&& forall|j: int| first < j < i + 1 ==> !writes(#[trigger] rows[j], slot)
    &&& forall|j: int| 0 <= j && first - 3 <= j < first ==> !skips((#[trigger] rows[j]).0)
}

proof fn lemma_races_twice()
    ensures
        counts_twice(RACES@, 2, 9, 12),
        counts_twice(RACES@, 14, 24, 14),
{
}

proof fn lemma_last_of_disconnecting()
    ensures
        forall|i: int| 30 <= i < 34 ==> !skips((#[trigger] DISCONNECTING@[i]).0),
{
}

/// The plan's parts, each at its place.
spec fn stands_from(rows: Seq<Row>, plan: Seq<Row>, from: int) -> bool {
    &&& 0 <= from
    &&& from + rows.len() <= plan.len()
    &&& forall|i: int| from <= i < from + rows.len() ==> #[trigger] plan[i] == rows[i - from]
}

proof fn lemma_parts()
    ensures
        all_steps().len() == 249,
        stands_from(BASELINES@, all_steps(), 0),
        stands_from(CLOSING_TABS@, all_steps(), 4),
        stands_from(DISCONNECTING@, all_steps(), 71),
        stands_from(RACES@, all_steps(), 105),
        stands_from(TAB_LOCAL@, all_steps(), 158),
        stands_from(REBUILDS@, all_steps(), 176),
{
    lemma_baselines_rows();
    lemma_closing_tabs_rows();
    lemma_disconnecting_rows();
    lemma_races_rows();
    lemma_tab_local_rows();
    lemma_rebuilds_rows();
    lemma_six(BASELINES@, CLOSING_TABS@, DISCONNECTING@, RACES@, TAB_LOCAL@, REBUILDS@);
}

proof fn lemma_six(
    a: Seq<Row>,
    b: Seq<Row>,
    c: Seq<Row>,
    d: Seq<Row>,
    e: Seq<Row>,
    f: Seq<Row>,
)
    ensures
        stands_from(a, a + b + c + d + e + f, 0),
        stands_from(b, a + b + c + d + e + f, a.len() as int),
        stands_from(c, a + b + c + d + e + f, (a + b).len() as int),
        stands_from(d, a + b + c + d + e + f, (a + b + c).len() as int),
        stands_from(e, a + b + c + d + e + f, (a + b + c + d).len() as int),
        stands_from(f, a + b + c + d + e + f, (a + b + c + d + e).len() as int),
{
}

/// What the whole plan is to these laws.
spec fn plan_is_sound(plan: Seq<Row>) -> bool {
    &&& plan.len() == 249
    &&& skips_are_short(plan)
    &&& plan[1].0 == Op::StableCount && plan[1].2 == 1
    &&& plan[3].0 == Op::StableCount && plan[3].2 == 2
    &&& forall|i: int| 0 <= i < 4 ==> !skips((#[trigger] plan[i]).0)
    &&& forall|i: int| 1 < i < plan.len() ==> !writes(#[trigger] plan[i], 1)
    &&& forall|i: int| 3 < i < plan.len() ==> !writes(#[trigger] plan[i], 2)
}

proof fn lemma_sound(
    plan: Seq<Row>,
    a: Seq<Row>,
    b: Seq<Row>,
    c: Seq<Row>,
    d: Seq<Row>,
    e: Seq<Row>,
    f: Seq<Row>,
)
    requires
        plan.len() == 249,
        a.len() == 4 && b.len() == 67 && c.len() == 34 && d.len() == 53 && e.len() == 18 && f.len()
            == 73,
        stands_from(a, plan, 0),
        stands_from(b, plan, 4),
        stands_from(c, plan, 71),
        stands_from(d, plan, 105),
        stands_from(e, plan, 158),
        stands_from(f, plan, 176),
        skips_are_short(a),
        a[1].0 == Op::StableCount && a[1].2 == 1,
        a[3].0 == Op::StableCount && a[3].2 == 2,
        forall|i: int| 0 <= i < 4 ==> !skips((#[trigger] a[i]).0),
        forall|i: int| 1 < i < 4 ==> !writes(#[trigger] a[i], 1),
        leaves_the_counts(b),
        leaves_the_counts(c),
        leaves_the_counts(d),
        leaves_the_counts(e),
        leaves_the_counts(f),
    ensures
        plan_is_sound(plan),
{
    assert(plan[1] == a[1]);
    assert(plan[3] == a[3]);
    assert forall|i: int| 0 <= i < 4 implies !skips((#[trigger] plan[i]).0) by {
        assert(plan[i] == a[i]);
    }
    assert forall|i: int| 1 < i < plan.len() implies !writes(#[trigger] plan[i], 1) && (i > 3
        ==> !writes(plan[i], 2)) && (skips(plan[i].0) ==> plan[i].3 <= 3) by {
        if i < 4 {
            assert(plan[i] == a[i]);
        } else if i < 71 {
            assert(plan[i] == b[i - 4]);
        } else if i < 105 {
            assert(plan[i] == c[i - 71]);
        } else if i < 158 {
            assert(plan[i] == d[i - 105]);
        } else if i < 176 {
            assert(plan[i] == e[i - 158]);
        } else {
            assert(plan[i] == f[i - 176]);
        }
    }
    assert(plan[0] == a[0]);
}

proof fn lemma_counted(
    plan: Seq<Row>,
    c: Course,
    answers: Seq<Seen>,
    part: Seq<Row>,
    from: int,
    i: int,
    slot: int,
)
    requires
        passed(plan, c, answers),
        c.at == 0,
        c.memory.len() == SLOTS,
        plan_is_sound(plan),
        from >= 4,
        stands_from(part, plan, from),
        counts(part, i, slot),
        slot == 1 || slot == 2,
    ensures
        came_down(plan, c, answers, if slot == 1 { 1 } else { 3 }, from + i),
{
    assert(plan[from + i] == part[i]);
    assert(plan[from + i + 1] == part[i + 1]);
    assert(plan[from + i - 1] == part[i - 1]);
    assert(plan[from + i - 2] == part[i - 2]);
    assert(plan[from + i - 3] == part[i - 3]);
    lemma_came_down(plan, c, answers, if slot == 1 { 1 } else { 3 }, from + i);
}

proof fn lemma_counted_twice(
    plan: Seq<Row>,
    c: Course,
    answers: Seq<Seen>,
    part: Seq<Row>,
    from: int,
    first: int,
    i: int,
    slot: int,
)
    requires
        passed(plan, c, answers),
        c.at == 0,
        c.memory.len() == SLOTS,
        plan_is_sound(plan),
        from >= 4,
        stands_from(part, plan, from),
        counts_twice(part, first, i, slot),
        first >= 3 || !skips(plan[from + first - 3].0),
    ensures
        came_down(plan, c, answers, from + first, from + i),
{
    assert(plan[from + i] == part[i]);
    assert(plan[from + i + 1] == part[i + 1]);
    assert(plan[from + i - 1] == part[i - 1]);
    assert(plan[from + i - 2] == part[i - 2]);
    assert(plan[from + i - 3] == part[i - 3]);
    assert(plan[from + first] == part[first]);
    assert forall|j: int| from + first < j < from + i + 1 implies !#[trigger] writes(
        plan[j],
        slot,
    ) by {
        assert(plan[j] == part[j - from]);
    }
    assert forall|j: int| 0 <= j && from + first - 3 <= j < from + first implies !skips(
        (#[trigger] plan[j]).0,
    ) by {
        if j >= from {
            assert(plan[j] == part[j - from]);
        }
    }
    lemma_came_down(plan, c, answers, from + first, from + i);
}

/// The probe of leaked sessions passes only where the server counted no more sessions
/// than before any tab after a tab that ran, fetched or was cancelled is closed; no more
/// than before the connection after it is disconnected, in the middle of a statement,
/// after one, in the middle of a fetch and right after a cancel; no more than a fresh
/// connection's after a tab is closed in the middle of a cancel and after a fetch is
/// discarded; and no more than before any tab after a reconnect, and after a rebuild that
/// finds tabs holding sessions, a fetch open, a cancel under way, and five times over.
pub proof fn nothing_was_leaked(memory: Seq<Seen>, answers: Seq<Seen>)
    requires
        memory.len() == SLOTS,
        clean(course(all_steps(), opening(memory), answers)),
        course(all_steps(), opening(memory), answers).at == all_steps().len(),
    ensures
        came_down(all_steps(), opening(memory), answers, 3, 12),
        came_down(all_steps(), opening(memory), answers, 3, 22),
        came_down(all_steps(), opening(memory), answers, 3, 31),
        came_down(all_steps(), opening(memory), answers, 1, 80),
        came_down(all_steps(), opening(memory), answers, 1, 90),
        came_down(all_steps(), opening(memory), answers, 1, 102),
        came_down(all_steps(), opening(memory), answers, 1, 142),
        came_down(all_steps(), opening(memory), answers, 3, 155),
        came_down(all_steps(), opening(memory), answers, 3, 186),
        came_down(all_steps(), opening(memory), answers, 3, 206),
        came_down(all_steps(), opening(memory), answers, 3, 217),
        came_down(all_steps(), opening(memory), answers, 3, 242),
        came_down(all_steps(), opening(memory), answers, 107, 114),
        came_down(all_steps(), opening(memory), answers, 119, 129),
{
    let plan = all_steps();
    let c = opening(memory);
    lemma_parts();
    lemma_baselines_rows();
    lemma_closing_tabs_rows();
    lemma_disconnecting_rows();
    lemma_races_rows();
    lemma_tab_local_rows();
    lemma_rebuilds_rows();
    lemma_sound(
        plan,
        BASELINES@,
        CLOSING_TABS@,
        DISCONNECTING@,
        RACES@,
        TAB_LOCAL@,
        REBUILDS@,
    );
    lemma_counted(plan, c, answers, CLOSING_TABS@, 4, 8, 2);
    lemma_counted(plan, c, answers, CLOSING_TABS@, 4, 18, 2);
    lemma_counted(plan, c, answers, CLOSING_TABS@, 4, 27, 2);
    lemma_counted(plan, c, answers, DISCONNECTING@, 71, 9, 1);
    lemma_counted(plan, c, answers, DISCONNECTING@, 71, 19, 1);
    lemma_counted(plan, c, answers, DISCONNECTING@, 71, 31, 1);
    lemma_counted(plan, c, answers, RACES@, 105, 37, 1);
    lemma_counted(plan, c, answers, RACES@, 105, 50, 2);
    lemma_counted(plan, c, answers, REBUILDS@, 176, 10, 2);
    lemma_counted(plan, c, answers, REBUILDS@, 176, 30, 2);
    lemma_counted(plan, c, answers, REBUILDS@, 176, 41, 2);
    lemma_counted(plan, c, answers, REBUILDS@, 176, 66, 2);
    lemma_races_twice();
    lemma_last_of_disconnecting();
    assert(plan[104] == DISCONNECTING@[33]);
    lemma_counted_twice(plan, c, answers, RACES@, 105, 2, 9, 12);
    lemma_counted_twice(plan, c, answers, RACES@, 105, 14, 24, 14);
}

} // verus!
