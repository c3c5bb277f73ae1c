//! What the probe of transaction modes has seen where it passed: every mode writes exactly
//! when it may, and every level reads as it should.
use vstd::prelude::*;

use crate::course::{
    clean, in_a_clean_run_every_test_held, keeping_adds_up, leaves_nothing_out,
    memory_keeps_its_size, passes, skips, state_at, writes,
};
use crate::laws::events::{finished, is_first, the_first_and_the_last_statement};
use crate::laws::outcome::{an_answer_stands_until_then, passed, was_answered};
use crate::laws::tabs::what_is_no_number_compares_to_none;
use crate::machine::{bound, course, given, kept, opening, Course, Row, Weight};
use crate::op::{level_code, mode_code, Op, HERE};
use crate::progress::{results, TransactionAccessMode, TransactionIsolation};
use crate::seen::{at, events, words, Seen};
use crate::template::fill;
use crate::text::{integer_value, trim};
use crate::transaction_mode::laws::{lemma_levels_keep, lemma_pairs_keep};
use crate::transaction_mode::promises::{
    first_succeeded, lemma_begins, lemma_every_level_stands, lemma_every_pair_stands, lemma_grows,
    lemma_stood_at, lemma_tested_right_after, lemma_walk, stands_kept, stands_kept_at,
    was_let_through,
};
use crate::transaction_mode::tables::{
    S28_COMMITTED, S28_LEVEL, S28_REPEATABLE, S28_SERIALIZABLE, S28_UNCOMMITTED, S28_VARIABLE,
    S31_REFUSES, S31_WRITES,
};
use crate::transaction_mode::{
    every_level, every_pair, level_steps, one_level, scenarios, whole_run, Target, SLOTS,
};
use crate::verdict::holds;

verus! {

/// What stands in rows that stand in others stands in those.
proof fn lemma_stands_through(part: Seq<Row>, rows: Seq<Row>, all: Seq<Row>)
    requires
        stands_kept(part, rows),
        stands_kept(rows, all),
    ensures
        stands_kept(part, all),
{
    let k = choose|k: int| #[trigger] stands_kept_at(part, rows, k);
    let q = choose|q: int| #[trigger] stands_kept_at(rows, all, q);
    assert(all.subrange(q, q + rows.len()) == rows);
    assert(all.take(q + k) =~= all.take(q) + rows.take(k)) by {
        assert forall|i: int| 0 <= i < k implies #[trigger] all[q + i] == rows[i] by {
            assert(all.subrange(q, q + rows.len())[i] == all[q + i]);
        }
    }
    keeping_adds_up(all.take(q), rows.take(k));
    assert(all.subrange(q + k, q + k + part.len()) =~= part) by {
        assert forall|i: int| 0 <= i < part.len() implies #[trigger] all[q + k + i] == part[i] by {
            assert(rows.subrange(k, k + part.len())[i] == rows[k + i]);
            assert(all.subrange(q, q + rows.len())[k + i] == all[q + k + i]);
        }
    }
    assert(stands_kept_at(part, all, q + k));
}

/// The rows that try one mode.
#[verifier::opaque]
spec fn one_pair(code: int) -> Seq<Row> {
    bound(if code % 2 == 0 { S31_WRITES@ } else { S31_REFUSES@ }, code)
}

proof fn lemma_pair_stands(count: int, code: int)
    requires
        0 <= code < count,
    ensures
        stands_kept(one_pair(code), every_pair(count)),
    decreases count,
{
    reveal(one_pair);
    let rest = every_pair(count - 1);
    let last = one_pair(count - 1);
    lemma_pairs_keep(count - 1);
    assert(every_pair(count) == rest + last);
    if code == count - 1 {
        lemma_begins(rest, last);
    } else {
        lemma_pair_stands(count - 1, code);
        lemma_grows(one_pair(code), rest, last);
    }
}

/// What the rows of one mode are to its law.
spec fn tries_a_mode(part: Seq<Row>, code: int, write: int) -> bool {
    &&& part.len() == 11
    &&& forall|i: int| 0 <= i < 11 ==> leaves_nothing_out(#[trigger] part[i])
    &&& part[4].0 == Op::Pin && part[4].3 == code
    &&& part[6].0 == Op::Run && part[6].2 == 11 && part[6].3 == 0 && part[6].4@
        == "SELECT V FROM SQ_TM_T"@
    &&& part[7].0 == Op::FirstSucceeded && part[7].1 == Weight::Check && part[7].2 == 11
    &&& part[8].0 == Op::Run && part[8].2 == 11 && part[8].3 == 0 && part[8].4@
        == "INSERT INTO SQ_TM_T VALUES (31)"@
    &&& part[9].0 == Op::FirstWorkedIs && part[9].1 == Weight::Check && part[9].2 == 11
        && part[9].3 == write
}

proof fn lemma_pair_rows(code: int)
    requires
        0 <= code < 10,
    ensures
        tries_a_mode(one_pair(code), code, if code % 2 == 0 { 1 } else { 0 }),
{
    reveal(one_pair);
    let rows = if code % 2 == 0 { S31_WRITES@ } else { S31_REFUSES@ };
    assert forall|i: int| 0 <= i < 11 implies leaves_nothing_out(#[trigger] one_pair(code)[i]) by {
        assert(!skips(rows[i].0));
    }
}

/// Whether the mode of a number lets a tab write.
pub open spec fn may_write(code: int) -> bool {
    mode_code(code).access == TransactionAccessMode::ReadWrite
}

/// Whether a mode was pinned, and then the table was read and an insert was tried: the
/// read worked, and the insert exactly where the mode lets it.
pub open spec fn writes_when_it_may(
    plan: Seq<Row>,
    c: Course,
    answers: Seq<Seen>,
    k: int,
    code: int,
    may: bool,
) -> bool {
    &&& plan[k].0 == Op::Pin && plan[k].3 == code
    &&& was_let_through(plan, c, answers, k + 2, "SELECT V FROM SQ_TM_T"@, 0)
    &&& plan[k + 4].0 == Op::Run && plan[k + 4].4@ == "INSERT INTO SQ_TM_T VALUES (31)"@ && plan[k
        + 4].3 == 0
    &&& exists|seen: Seen| #[trigger]
        was_answered(plan, c, answers, k + 4, seen) && (first_succeeded(events(seen)) <==> may)
}

proof fn lemma_worked(plan: Seq<Row>, c: Course, answers: Seq<Seen>, k: int, may: bool)
    requires
        passed(plan, c, answers),
        c.memory.len() == SLOTS,
        0 <= k,
        k + 1 < plan.len(),
        passes(plan, c, answers, k),
        plan[k].0 == Op::Run,
        plan[k].2 == 11,
        plan[k + 1].0 == Op::FirstWorkedIs,
        plan[k + 1].1 == Weight::Check,
        plan[k + 1].2 == 11,
        plan[k + 1].3 == (if may { 1int } else { 0 }),
    ensures
        exists|seen: Seen| #[trigger]
            was_answered(plan, c, answers, k, seen) && (first_succeeded(events(seen)) <==> may),
{
    an_answer_stands_until_then(plan, c, answers, k, k + 1);
    in_a_clean_run_every_test_held(plan, c, answers, k + 1);
    let s = state_at(plan, c, answers, k + 1)->0;
    memory_keeps_its_size(plan, c, answers, k + 1);
    let seen = choose|seen: Seen| #[trigger]
        was_answered(plan, c, answers, k, seen) && at(s.memory, 11) == kept(plan[k].0, seen);
    let run = events(seen);
    let arg = fill(plan[k + 1].4@, s.memory);
    assert(holds(Op::FirstWorkedIs, 11, plan[k + 1].3 as int, arg, s.memory));
    the_first_and_the_last_statement(run);
    if results(run).len() > 0 {
        let i = choose|i: int| #[trigger] is_first(run, i);
        assert(finished(run[i])->0 == results(run)[0]);
        assert forall|j: int| #[trigger] is_first(run, j) implies finished(run[j])->0
            == results(run)[0] by {}
    }
}

proof fn lemma_mode_tried(
    plan: Seq<Row>,
    c: Course,
    answers: Seq<Seen>,
    b: int,
    part: Seq<Row>,
    code: int,
    may: bool,
)
    requires
        passed(plan, c, answers),
        c.memory.len() == SLOTS,
        0 <= b,
        b + part.len() <= plan.len(),
        passes(plan, c, answers, b),
        forall|i: int| b <= i < b + part.len() ==> #[trigger] plan[i] == part[i - b],
        tries_a_mode(part, code, if may { 1 } else { 0 }),
    ensures
        writes_when_it_may(plan, c, answers, b + 4, code, may),
{
    assert forall|i: int| b <= i < b + 8 implies leaves_nothing_out(#[trigger] plan[i]) by {
        assert(plan[i] == part[i - b]);
    }
    assert(plan[b + 4] == part[4]);
    assert(plan[b + 6] == part[6]);
    assert(plan[b + 7] == part[7]);
    assert(plan[b + 8] == part[8]);
    assert(plan[b + 9] == part[9]);
    lemma_walk(plan, c, answers, b, b + 6);
    lemma_walk(plan, c, answers, b, b + 8);
    lemma_tested_right_after(plan, c, answers, b + 6);
    lemma_worked(plan, c, answers, b + 8, may);
    let k = b + 4;
    assert(was_let_through(plan, c, answers, k + 2, "SELECT V FROM SQ_TM_T"@, 0));
    assert(plan[k + 4] == part[8]);
}

/// The probe passes only where, pinned to each of the ten modes, the tab read the table,
/// and wrote it exactly where the mode is read-write.
#[verifier::rlimit(60)]
pub proof fn every_mode_wrote_exactly_when_it_may(
    target: Target,
    offered: Seq<TransactionIsolation>,
    memory: Seq<Seen>,
    answers: Seq<Seen>,
    code: int,
)
    requires
        memory.len() == SLOTS,
        0 <= code < 10,
        clean(course(whole_run(target, offered), opening(memory), answers)),
        course(whole_run(target, offered), opening(memory), answers).at == whole_run(
            target,
            offered,
        ).len(),
    ensures
        exists|k: int| #[trigger]
            writes_when_it_may(
                whole_run(target, offered),
                opening(memory),
                answers,
                k,
                code,
                may_write(code),
            ),
{
    lemma_pair_in(target, offered, code);
    lemma_mode_of(target, offered, memory, answers, one_pair(code), code, may_write(code));
}

proof fn lemma_pair_in(target: Target, offered: Seq<TransactionIsolation>, code: int)
    requires
        0 <= code < 10,
    ensures
        stands_kept(one_pair(code), scenarios(target, offered)),
        tries_a_mode(one_pair(code), code, if may_write(code) { 1 } else { 0 }),
{
    lemma_every_pair_stands(target, offered);
    lemma_pair_stands(10, code);
    lemma_stands_through(one_pair(code), every_pair(10), scenarios(target, offered));
    lemma_pair_rows(code);
}

proof fn lemma_mode_of(
    target: Target,
    offered: Seq<TransactionIsolation>,
    memory: Seq<Seen>,
    answers: Seq<Seen>,
    part: Seq<Row>,
    code: int,
    may: bool,
)
    requires
        memory.len() == SLOTS,
        passed(whole_run(target, offered), opening(memory), answers),
        stands_kept(part, scenarios(target, offered)),
        tries_a_mode(part, code, if may { 1 } else { 0 }),
    ensures
        exists|k: int| #[trigger]
            writes_when_it_may(whole_run(target, offered), opening(memory), answers, k, code, may),
{
    let b = lemma_stood_at(target, offered, memory, answers, part);
    lemma_mode_tried(whole_run(target, offered), opening(memory), answers, b, part, code, may);
}

proof fn lemma_level_kept(target: Target, offered: Seq<TransactionIsolation>, i: int)
    requires
        0 <= i < offered.len(),
    ensures
        stands_kept(one_level(target, offered[i]), every_level(target, offered)),
    decreases offered.len(),
{
    let rest = every_level(target, offered.drop_last());
    let last = one_level(target, offered.last());
    lemma_levels_keep(target, offered.drop_last());
    if i == offered.len() - 1 {
        lemma_begins(rest, last);
    } else {
        lemma_level_kept(target, offered.drop_last(), i);
        lemma_grows(one_level(target, offered[i]), rest, last);
    }
}

/// Whether a value was read twice on a tab, in two rows, and answered so.
pub open spec fn was_read_twice(
    plan: Seq<Row>,
    c: Course,
    answers: Seq<Seen>,
    k: int,
    q: int,
    first: Seen,
    second: Seen,
) -> bool {
    &&& plan[k].0 == Op::Ask && plan[k].3 == 0 && plan[k].4@ == "SELECT V FROM SQ_TM_ISO"@
    &&& plan[q].0 == Op::Ask && plan[q].4@ == "SELECT V FROM SQ_TM_ISO"@
    &&& was_answered(plan, c, answers, k, first)
    &&& was_answered(plan, c, answers, q, second)
}

/// Whether the other session changed the value and committed in two rows.
pub open spec fn was_changed(plan: Seq<Row>, k: int) -> bool {
    &&& plan[k].0 == Op::Run && plan[k].3 == 1 && plan[k].4@ == "UPDATE SQ_TM_ISO SET V = V + 1"@
    &&& plan[k + 1].0 == Op::Run && plan[k + 1].3 == 1 && plan[k + 1].4@ == "COMMIT"@
}

/// The number that a read spells.
pub open spec fn value(seen: Seen) -> Option<int> {
    integer_value(trim(words(seen)))
}

/// What a level is to what it reads: a commit of another session between two reads shows
/// at read committed, and does not at the levels above; at read uncommitted, what another
/// session has not committed shows as that session sees it.
pub open spec fn reads_as_it_should(
    plan: Seq<Row>,
    c: Course,
    answers: Seq<Seen>,
    k: int,
    level: TransactionIsolation,
) -> bool {
    match level {
        TransactionIsolation::ReadUncommitted => {
            &&& plan[k - 1].0 == Op::Run && plan[k - 1].3 == 1 && plan[k - 1].4@
                == "UPDATE SQ_TM_ISO SET V = V + 1000"@
            &&& plan[k + 1].3 == 1
            &&& exists|a: Seen, b: Seen| #[trigger]
                was_read_twice(plan, c, answers, k, k + 1, a, b) && trim(words(a)) == trim(words(b))
        },
        TransactionIsolation::ReadCommitted => {
            &&& was_changed(plan, k + 1)
            &&& plan[k + 3].3 == 0
            &&& exists|a: Seen, b: Seen| #[trigger]
                was_read_twice(plan, c, answers, k, k + 3, a, b) && value(a) is Some && value(
                    b,
                ) is Some && value(a)->0 < value(b)->0
        },
        _ => {
            &&& was_changed(plan, k + 1)
            &&& plan[k + 3].3 == 0
            &&& exists|a: Seen, b: Seen| #[trigger]
                was_read_twice(plan, c, answers, k, k + 3, a, b) && value(a) is Some && value(a)
                    == value(b)
        },
    }
}

/// What the rows of a level that reads twice are to its law.
spec fn brackets(part: Seq<Row>, test: Op) -> bool {
    &&& part.len() == 10
    &&& forall|i: int| 0 <= i < 10 ==> leaves_nothing_out(#[trigger] part[i])
    &&& part[1].0 == Op::Ask && part[1].2 == 10 && part[1].3 == 0 && part[1].4@
        == "SELECT V FROM SQ_TM_ISO"@
    &&& was_changed(part, 2)
    &&& part[4].0 == Op::Ask && part[4].2 == 11 && part[4].3 == 0 && part[4].4@
        == "SELECT V FROM SQ_TM_ISO"@
    &&& forall|i: int| 1 < i < 9 ==> !writes(#[trigger] part[i], 10)
    &&& forall|i: int| 4 < i < 9 ==> !writes(#[trigger] part[i], 11)
    &&& part[9].0 == test && part[9].1 == Weight::Check && part[9].2 == 10 && part[9].3 == 11
}

spec fn peeks(part: Seq<Row>) -> bool {
    &&& part.len() == 6
    &&& forall|i: int| 0 <= i < 6 ==> leaves_nothing_out(#[trigger] part[i])
    &&& part[0].0 == Op::Run && part[0].3 == 1 && part[0].4@
        == "UPDATE SQ_TM_ISO SET V = V + 1000"@
    &&& part[1].0 == Op::Ask && part[1].2 == 10 && part[1].3 == 0 && part[1].4@
        == "SELECT V FROM SQ_TM_ISO"@
    &&& part[2].0 == Op::Ask && part[2].2 == 11 && part[2].3 == 1 && part[2].4@
        == "SELECT V FROM SQ_TM_ISO"@
    &&& forall|i: int| 1 < i < 5 ==> !writes(#[trigger] part[i], 10)
    &&& forall|i: int| 2 < i < 5 ==> !writes(#[trigger] part[i], 11)
    &&& part[5].0 == Op::SameTrimmed && part[5].1 == Weight::Check && part[5].2 == 10
        && part[5].3 == 11
}

proof fn lemma_level_tables()
    ensures
        peeks(S28_UNCOMMITTED@),
        brackets(S28_COMMITTED@, Op::More),
        brackets(S28_REPEATABLE@, Op::SameNumber),
        brackets(S28_SERIALIZABLE@, Op::SameNumber),
        forall|i: int| 0 <= i < 5 ==> !skips((#[trigger] S28_LEVEL@[i]).0),
        forall|i: int| 0 <= i < 2 ==> !skips((#[trigger] S28_VARIABLE@[i]).0),
        S28_LEVEL@[3].0 == Op::ToolbarMode && S28_LEVEL@[3].3 == HERE,
{
}

proof fn lemma_two_answers(
    plan: Seq<Row>,
    c: Course,
    answers: Seq<Seen>,
    k: int,
    q: int,
    t: int,
) -> (r: (Seen, Seen))
    requires
        passed(plan, c, answers),
        c.memory.len() == SLOTS,
        0 <= k < q < t < plan.len(),
        passes(plan, c, answers, k),
        forall|i: int| k <= i < t ==> leaves_nothing_out(#[trigger] plan[i]),
        plan[k].0 == Op::Ask && plan[k].2 == 10,
        plan[q].0 == Op::Ask && plan[q].2 == 11,
        forall|i: int| k < i < t ==> !writes(#[trigger] plan[i], 10),
        forall|i: int| q < i < t ==> !writes(#[trigger] plan[i], 11),
    ensures
        was_answered(plan, c, answers, k, r.0),
        was_answered(plan, c, answers, q, r.1),
        passes(plan, c, answers, t),
        state_at(plan, c, answers, t)->0.memory.len() == SLOTS,
        at(state_at(plan, c, answers, t)->0.memory, 10) == r.0,
        at(state_at(plan, c, answers, t)->0.memory, 11) == r.1,
{
    lemma_walk(plan, c, answers, k, q);
    an_answer_stands_until_then(plan, c, answers, k, t);
    an_answer_stands_until_then(plan, c, answers, q, t);
    memory_keeps_its_size(plan, c, answers, t);
    let s = state_at(plan, c, answers, t)->0;
    let a = choose|seen: Seen| #[trigger]
        was_answered(plan, c, answers, k, seen) && at(s.memory, 10) == kept(plan[k].0, seen);
    let b = choose|seen: Seen| #[trigger]
        was_answered(plan, c, answers, q, seen) && at(s.memory, 11) == kept(plan[q].0, seen);
    (a, b)
}

proof fn lemma_bracketed(
    plan: Seq<Row>,
    c: Course,
    answers: Seq<Seen>,
    b: int,
    part: Seq<Row>,
    test: Op,
    level: TransactionIsolation,
)
    requires
        passed(plan, c, answers),
        c.memory.len() == SLOTS,
        0 <= b,
        b + part.len() <= plan.len(),
        passes(plan, c, answers, b),
        forall|i: int| b <= i < b + part.len() ==> #[trigger] plan[i] == part[i - b],
        brackets(part, test),
        level is ReadCommitted && test == Op::More || (level is RepeatableRead
            || level is Serializable) && test == Op::SameNumber,
    ensures
        reads_as_it_should(plan, c, answers, b + 1, level),
{
    assert forall|i: int| b <= i < b + 10 implies leaves_nothing_out(#[trigger] plan[i]) by {
        assert(plan[i] == part[i - b]);
    }
    assert forall|i: int| b + 1 < i < b + 9 implies !writes(#[trigger] plan[i], 10) by {
        assert(plan[i] == part[i - b]);
    }
    assert forall|i: int| b + 4 < i < b + 9 implies !writes(#[trigger] plan[i], 11) by {
        assert(plan[i] == part[i - b]);
    }
    assert(plan[b + 1] == part[1]);
    assert(plan[b + 2] == part[2]);
    assert(plan[b + 3] == part[3]);
    assert(plan[b + 4] == part[4]);
    assert(plan[b + 9] == part[9]);
    lemma_walk(plan, c, answers, b, b + 1);
    let (x, y) = lemma_two_answers(plan, c, answers, b + 1, b + 4, b + 9);
    in_a_clean_run_every_test_held(plan, c, answers, b + 9);
    let s = state_at(plan, c, answers, b + 9)->0;
    let arg = fill(plan[b + 9].4@, s.memory);
    assert(holds(test, 10, 11, arg, s.memory));
    lemma_compared(s.memory, test, arg);
    let k = b + 1;
    assert(was_changed(plan, k + 1));
    assert(was_read_twice(plan, c, answers, k, k + 3, x, y));
}

proof fn lemma_compared(memory: Seq<Seen>, test: Op, arg: Seq<char>)
    requires
        memory.len() == SLOTS,
        holds(test, 10, 11, arg, memory),
        test == Op::More || test == Op::SameNumber || test == Op::SameTrimmed,
    ensures
        test != Op::SameTrimmed ==> value(memory[10]) is Some && value(memory[11]) is Some,
        test == Op::More ==> value(memory[10])->0 < value(memory[11])->0,
        test == Op::SameNumber ==> value(memory[10]) == value(memory[11]),
        test == Op::SameTrimmed ==> trim(words(memory[10])) == trim(words(memory[11])),
{
    if test != Op::SameTrimmed && (value(memory[10]) is None || value(memory[11]) is None) {
        what_is_no_number_compares_to_none(memory, 10, 11, arg);
    }
}

proof fn lemma_peeked(
    plan: Seq<Row>,
    c: Course,
    answers: Seq<Seen>,
    b: int,
    part: Seq<Row>,
)
    requires
        passed(plan, c, answers),
        c.memory.len() == SLOTS,
        0 <= b,
        b + part.len() <= plan.len(),
        passes(plan, c, answers, b),
        forall|i: int| b <= i < b + part.len() ==> #[trigger] plan[i] == part[i - b],
        peeks(part),
    ensures
        reads_as_it_should(plan, c, answers, b + 1, TransactionIsolation::ReadUncommitted),
{
    assert forall|i: int| b <= i < b + 6 implies leaves_nothing_out(#[trigger] plan[i]) by {
        assert(plan[i] == part[i - b]);
    }
    assert forall|i: int| b + 1 < i < b + 5 implies !writes(#[trigger] plan[i], 10) by {
        assert(plan[i] == part[i - b]);
    }
    assert forall|i: int| b + 2 < i < b + 5 implies !writes(#[trigger] plan[i], 11) by {
        assert(plan[i] == part[i - b]);
    }
    assert(plan[b] == part[0]);
    assert(plan[b + 1] == part[1]);
    assert(plan[b + 2] == part[2]);
    assert(plan[b + 5] == part[5]);
    lemma_walk(plan, c, answers, b, b + 1);
    let (x, y) = lemma_two_answers(plan, c, answers, b + 1, b + 2, b + 5);
    in_a_clean_run_every_test_held(plan, c, answers, b + 5);
    let s = state_at(plan, c, answers, b + 5)->0;
    let arg = fill(plan[b + 5].4@, s.memory);
    assert(holds(Op::SameTrimmed, 10, 11, arg, s.memory));
    lemma_compared(s.memory, Op::SameTrimmed, arg);
    let k = b + 1;
    assert(was_read_twice(plan, c, answers, k, k + 1, x, y));
}

/// The probe passes only where every level that was offered was pinned and read as that
/// level does. A serializable read of another session's change would block outside
/// Oracle, so there it is not tried.
pub proof fn every_offered_level_read_as_it_should(
    target: Target,
    offered: Seq<TransactionIsolation>,
    memory: Seq<Seen>,
    answers: Seq<Seen>,
    i: int,
)
    requires
        memory.len() == SLOTS,
        0 <= i < offered.len(),
        offered[i] != TransactionIsolation::Default,
        offered[i] is Serializable ==> target.oracle(),
        clean(course(whole_run(target, offered), opening(memory), answers)),
        course(whole_run(target, offered), opening(memory), answers).at == whole_run(
            target,
            offered,
        ).len(),
    ensures
        exists|k: int, pin: int|
            {
                &&& #[trigger] reads_as_it_should(
                    whole_run(target, offered),
                    opening(memory),
                    answers,
                    k,
                    offered[i],
                )
                &&& #[trigger] pins_a_level(whole_run(target, offered), pin, offered[i])
                &&& pin < k <= pin + 5
            },
{
    let level = offered[i];
    let head = bound(S28_LEVEL@, level_code(level)) + given(!target.oracle(), S28_VARIABLE@);
    let rows = level_steps(target, level);
    lemma_every_level_stands(target, offered);
    lemma_level_kept(target, offered, i);
    lemma_stands_through(
        one_level(target, level),
        every_level(target, offered),
        scenarios(target, offered),
    );
    lemma_head_rows(target, level);
    lemma_steps_suit(target, level);
    lemma_level_of(target, offered, memory, answers, head, rows, level);
}

/// What the rows are that pin a level.
spec fn heads(head: Seq<Row>, level: TransactionIsolation) -> bool {
    &&& 5 <= head.len() <= 7
    &&& forall|i: int| 0 <= i < head.len() ==> leaves_nothing_out(#[trigger] head[i])
    &&& pins_a_level(head, 3, level)
}

proof fn lemma_head_rows(target: Target, level: TransactionIsolation)
    ensures
        heads(bound(S28_LEVEL@, level_code(level)) + given(!target.oracle(), S28_VARIABLE@), level),
{
    lemma_level_tables();
    let top = bound(S28_LEVEL@, level_code(level));
    let more = given(!target.oracle(), S28_VARIABLE@);
    let head = top + more;
    assert forall|j: int| 0 <= j < head.len() implies leaves_nothing_out(#[trigger] head[j]) by {
        if j < 5 {
            assert(head[j] == top[j]);
            assert(!skips(S28_LEVEL@[j].0));
        } else {
            assert(head[j] == more[j - 5]);
            assert(!skips(S28_VARIABLE@[j - 5].0));
        }
    }
    assert(head[3] == top[3]);
}

proof fn lemma_level_of(
    target: Target,
    offered: Seq<TransactionIsolation>,
    memory: Seq<Seen>,
    answers: Seq<Seen>,
    head: Seq<Row>,
    rows: Seq<Row>,
    level: TransactionIsolation,
)
    requires
        memory.len() == SLOTS,
        passed(whole_run(target, offered), opening(memory), answers),
        stands_kept(head + rows, scenarios(target, offered)),
        heads(head, level),
        suits(rows, level),
        level != TransactionIsolation::Default,
    ensures
        exists|k: int, pin: int|
            {
                &&& #[trigger] reads_as_it_should(
                    whole_run(target, offered),
                    opening(memory),
                    answers,
                    k,
                    level,
                )
                &&& #[trigger] pins_a_level(whole_run(target, offered), pin, level)
                &&& pin < k <= pin + 5
            },
{
    let plan = whole_run(target, offered);
    let c = opening(memory);
    let part = head + rows;
    let b = lemma_stood_at(target, offered, memory, answers, part);
    let d = b + head.len();
    assert forall|j: int| b <= j < d implies leaves_nothing_out(#[trigger] plan[j]) by {
        assert(plan[j] == part[j - b]);
        assert(part[j - b] == head[j - b]);
    }
    lemma_walk(plan, c, answers, b, d);
    assert forall|j: int| d <= j < d + rows.len() implies #[trigger] plan[j] == rows[j - d] by {
        assert(plan[j] == part[j - b]);
    }
    assert(plan[b + 3] == part[3]);
    assert(part[3] == head[3]);
    assert(pins_a_level(plan, b + 3, level));
    lemma_level_read(plan, c, answers, d, rows, level);
    assert(reads_as_it_should(plan, c, answers, d + 1, level));
}

/// Whether rows are those that a level is read by.
spec fn suits(rows: Seq<Row>, level: TransactionIsolation) -> bool {
    match level {
        TransactionIsolation::ReadUncommitted => peeks(rows),
        TransactionIsolation::ReadCommitted => brackets(rows, Op::More),
        _ => brackets(rows, Op::SameNumber),
    }
}

proof fn lemma_steps_suit(target: Target, level: TransactionIsolation)
    requires
        level != TransactionIsolation::Default,
        level is Serializable ==> target.oracle(),
    ensures
        suits(level_steps(target, level), level),
{
    lemma_level_tables();
}

/// Whether a row has the toolbar pin a level.
pub open spec fn pins_a_level(plan: Seq<Row>, k: int, level: TransactionIsolation) -> bool {
    &&& plan[k].0 == Op::ToolbarMode
    &&& mode_code(plan[k].3 as int).isolation == level
    &&& mode_code(plan[k].3 as int).access == TransactionAccessMode::ReadWrite
}

proof fn lemma_level_read(
    plan: Seq<Row>,
    c: Course,
    answers: Seq<Seen>,
    d: int,
    rows: Seq<Row>,
    level: TransactionIsolation,
)
    requires
        passed(plan, c, answers),
        c.memory.len() == SLOTS,
        0 <= d,
        d + rows.len() <= plan.len(),
        passes(plan, c, answers, d),
        suits(rows, level),
        forall|j: int| d <= j < d + rows.len() ==> #[trigger] plan[j] == rows[j - d],
        level != TransactionIsolation::Default,
    ensures
        reads_as_it_should(plan, c, answers, d + 1, level),
{
    match level {
        TransactionIsolation::ReadUncommitted => {
            lemma_peeked(plan, c, answers, d, rows);
        },
        TransactionIsolation::ReadCommitted => {
            lemma_bracketed(plan, c, answers, d, rows, Op::More, level);
        },
        _ => {
            lemma_bracketed(plan, c, answers, d, rows, Op::SameNumber, level);
        },
    }
}

} // verus!
