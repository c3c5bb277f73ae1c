//! The laws of the read-only probe: it passes only where every write was refused
//! and left nothing behind, and every read ran.
use vstd::prelude::*;
use vstd::string::*;

use crate::course::{
    a_clean_run_makes_every_step, an_unwritten_slot_is_kept, clean,
    in_a_clean_run_every_action_went_well, in_a_clean_run_every_test_held, memory_keeps_its_size,
    plain, plain_adds_up, state_at, went_well, writes,
};
use crate::machine::{answered, course, opening, put, step, Course, Row, Weight};
use crate::op::Op;
use crate::read_only::tables::{
    AFTERWARDS, BASELINE, COMMITTING, CONTROL, CONTROL_HEAD, FIXTURE, GUARDED, NOT_DEMONSTRABLE,
    OPENING, READS_HEAD, STILL_WRITABLE,
};
use crate::read_only::{
    all_steps, control_of, control_steps, controls, dropping, every_read_is_run, fixture,
    guarded_steps, is_write, lemma_guarded, named, read_of, read_steps, Entry, Target, Write, SLOTS,
};
use crate::progress::first_error_spec;
use crate::seen::{at, events, words, Seen};
use crate::template::{fill, fill_with, opens_hole, plain_template_stands_for_itself};
use crate::verdict::{holds, number};

verus! {

proof fn lemma_fixture_plain(target: Target)
    ensures
        plain(fixture(target)),
{
    assert(plain(COMMITTING@));
    assert(plain(FIXTURE@));
    let drops = dropping(target.cleanup_list());
    assert(plain(drops));
    plain_adds_up(COMMITTING@, drops);
    plain_adds_up(COMMITTING@ + drops, FIXTURE@);
}

proof fn lemma_controls_plain(target: Target, list: Seq<Entry>)
    ensures
        plain(controls(target, list)),
    decreases list.len(),
{
    if list.len() > 0 {
        let entry = list.last();
        lemma_controls_plain(target, list.drop_last());
        lemma_fixture_plain(target);
        assert(plain(named(entry)));
        assert(plain(NOT_DEMONSTRABLE@));
        assert(plain(CONTROL@));
        plain_adds_up(CONTROL@, fixture(target));
        plain_adds_up(CONTROL@, Seq::empty());
        plain_adds_up(named(entry), NOT_DEMONSTRABLE@);
        plain_adds_up(named(entry), CONTROL@ + fixture(target));
        plain_adds_up(named(entry), CONTROL@ + Seq::<Row>::empty());
        plain_adds_up(controls(target, list.drop_last()), control_of(target, entry));
    }
}

proof fn lemma_guarded_plain(list: Seq<Entry>)
    ensures
        plain(guarded_steps(list)),
    decreases list.len(),
{
    if list.len() > 0 {
        lemma_guarded_plain(list.drop_last());
        assert(plain(named(list.last())));
        assert(plain(GUARDED@));
        plain_adds_up(named(list.last()), GUARDED@);
        plain_adds_up(guarded_steps(list.drop_last()), named(list.last()) + GUARDED@);
    }
}

proof fn lemma_reads_plain(list: Seq<(&'static str, &'static str)>)
    ensures
        plain(read_steps(list)),
    decreases list.len(),
{
    if list.len() > 0 {
        lemma_reads_plain(list.drop_last());
        assert(plain(read_of(list.last())));
        plain_adds_up(read_steps(list.drop_last()), read_of(list.last()));
    }
}

proof fn lemma_tables_plain()
    ensures
        plain(OPENING@),
        plain(CONTROL_HEAD@),
        plain(BASELINE@),
        plain(AFTERWARDS@),
        plain(READS_HEAD@),
        plain(STILL_WRITABLE@),
        plain(COMMITTING@),
{
}

proof fn lemma_all_plain(target: Target)
    ensures
        plain(all_steps(target)),
{
    lemma_tables_plain();
    lemma_fixture_plain(target);
    lemma_controls_plain(target, target.write_list());
    lemma_guarded_plain(target.write_list());
    lemma_reads_plain(target.read_entries());
    let drops = dropping(target.cleanup_list());
    assert(plain(drops));
    let c1 = CONTROL_HEAD@ + controls(target, target.write_list());
    plain_adds_up(CONTROL_HEAD@, controls(target, target.write_list()));
    plain_adds_up(c1, fixture(target));
    let s1 = OPENING@ + fixture(target);
    plain_adds_up(OPENING@, fixture(target));
    let s2 = s1 + control_steps(target);
    plain_adds_up(s1, control_steps(target));
    let s3 = s2 + BASELINE@;
    plain_adds_up(s2, BASELINE@);
    let s4 = s3 + guarded_steps(target.write_list());
    plain_adds_up(s3, guarded_steps(target.write_list()));
    let s5 = s4 + AFTERWARDS@;
    plain_adds_up(s4, AFTERWARDS@);
    let s6 = s5 + READS_HEAD@;
    plain_adds_up(s5, READS_HEAD@);
    let s7 = s6 + read_steps(target.read_entries());
    plain_adds_up(s6, read_steps(target.read_entries()));
    let s8 = s7 + STILL_WRITABLE@;
    plain_adds_up(s7, STILL_WRITABLE@);
    let s9 = s8 + drops;
    plain_adds_up(s8, drops);
    plain_adds_up(s9, COMMITTING@);
    assert(s9 + COMMITTING@ == all_steps(target));
}

proof fn lemma_sql_hole(memory: Seq<Seen>)
    ensures
        fill("{t04}"@, memory) == words(at(memory, 4)),
{
    reveal_strlit("{t04}");
    let t = "{t04}"@;
    assert(opens_hole(t));
    assert(t.skip(5) =~= Seq::empty());
    assert(fill_with(t.skip(5), memory, Seq::empty()) =~= Seq::empty());
    assert(fill(t, memory) =~= words(at(memory, 4)));
}

/// The rows before the count that every later count is held against.
pub open spec fn before_count(target: Target) -> Seq<Row> {
    OPENING@ + fixture(target) + control_steps(target)
}

/// Whether a run put a statement to the read-only connection, nothing ran, and
/// the table then had as many rows as in the state at `first`.
pub open spec fn was_refused(
    plan: Seq<Row>,
    c: Course,
    answers: Seq<Seen>,
    first: int,
    k: int,
    sql: Seq<char>,
) -> bool {
    &&& 0 <= first <= k < plan.len()
    &&& plan[k].0 == Op::Attempt
    &&& plan[k].3 == 1
    &&& state_at(plan, c, answers, k) matches Some(asked) && fill(plan[k].4@, asked.memory) == sql
    &&& state_at(plan, c, answers, k + 1) matches Some(told) && at(told.memory, 11) is Run
        && events(at(told.memory, 11)).len() == 0
    &&& plan[k + 2].0 == Op::CountRows
    &&& state_at(plan, c, answers, first) matches Some(before) && state_at(plan, c, answers, k + 3)
        matches Some(after) && number(at(after.memory, 12)) is Some && number(at(after.memory, 12))
        == number(at(before.memory, 10))
}

/// The rows from the count on, through every guarded write, leave the count be.
proof fn lemma_count_unwritten(list: Seq<Entry>, j: int)
    requires
        0 <= j < guarded_steps(list).len(),
    ensures
        !writes(guarded_steps(list)[j], 10),
    decreases list.len(),
{
    if list.len() > 0 {
        let rest = guarded_steps(list.drop_last());
        let last = named(list.last()) + GUARDED@;
        if j < rest.len() {
            lemma_count_unwritten(list.drop_last(), j);
            assert(guarded_steps(list)[j] == rest[j]);
        } else {
            let at = j - rest.len();
            assert(guarded_steps(list)[j] == last[at]);
            if at < 2 {
                assert(last[at] == named(list.last())[at]);
            } else {
                assert(last[at] == GUARDED@[at - 2]);
            }
        }
    }
}

proof fn lemma_part_refused(
    plan: Seq<Row>,
    c: Course,
    answers: Seq<Seen>,
    first: int,
    from: int,
    entry: Entry,
)
    requires
        plain(plan),
        clean(c),
        c.at == 0,
        c.memory.len() == SLOTS,
        clean(course(plan, c, answers)),
        course(plan, c, answers).at == plan.len(),
        0 <= first <= from,
        from + 7 <= plan.len(),
        named(entry) + GUARDED@ == plan.subrange(from, from + 7),
        forall|j: int| first <= j < from + 5 ==> !#[trigger] writes(plan[j], 10),
    ensures
        was_refused(plan, c, answers, first, from + 2, entry.1@),
{
    let part = named(entry) + GUARDED@;
    let k = from + 2;
    let m = plan.len() as int;
    assert(plan[from + 1] == plan.subrange(from, from + 7)[1]);
    assert(plan[k] == plan.subrange(from, from + 7)[2]);
    assert(plan[k + 1] == plan.subrange(from, from + 7)[3]);
    assert(plan[k + 2] == plan.subrange(from, from + 7)[4]);
    assert(plan[k + 3] == plan.subrange(from, from + 7)[5]);
    assert(part[1] == named(entry)[1]);
    assert(part[2] == GUARDED@[0]);
    assert(part[3] == GUARDED@[1]);
    assert(part[4] == GUARDED@[2]);
    assert(part[5] == GUARDED@[3]);
    assert(plan.take(m) =~= plan);
    a_clean_run_makes_every_step(plan, c, answers, m, from + 1);
    a_clean_run_makes_every_step(plan, c, answers, m, k);
    a_clean_run_makes_every_step(plan, c, answers, m, k + 1);
    a_clean_run_makes_every_step(plan, c, answers, m, k + 3);
    memory_keeps_its_size(plan, c, answers, from + 1);
    let named_at = state_at(plan, c, answers, from + 1)->0;
    let asked = state_at(plan, c, answers, k)->0;
    assert(asked == step(plan, named_at));
    assert(at(asked.memory, 4) == Seen::Word(entry.1));
    lemma_sql_hole(asked.memory);
    assert(words(at(asked.memory, 4)) == entry.1@);
    in_a_clean_run_every_test_held(plan, c, answers, k + 1);
    let told = state_at(plan, c, answers, k + 1)->0;
    assert(holds(Op::NothingRan, 11, 0, fill(plan[k + 1].4@, told.memory), told.memory));
    in_a_clean_run_every_test_held(plan, c, answers, k + 3);
    let after = state_at(plan, c, answers, k + 3)->0;
    assert(holds(Op::SameNumber, 12, 10, fill(plan[k + 3].4@, after.memory), after.memory));
    an_unwritten_slot_is_kept(plan, c, answers, m, first, k + 3, 10);
}

/// The probe passes only where every write of the list was put to the read-only
/// connection, nothing of it ran, and the table kept the number of rows that it
/// had before the first of them, whatever else was answered.
pub proof fn a_clean_run_refused_every_write(
    target: Target,
    memory: Seq<Seen>,
    answers: Seq<Seen>,
    i: int,
)
    requires
        memory.len() == SLOTS,
        0 <= i < target.write_list().len(),
        clean(course(all_steps(target), opening(memory), answers)),
        course(all_steps(target), opening(memory), answers).at == all_steps(target).len(),
    ensures
        all_steps(target)[before_count(target).len() as int].0 == Op::CountRows,
        all_steps(target)[before_count(target).len() as int].2 == 10,
        exists|k: int| #[trigger]
            was_refused(
                all_steps(target),
                opening(memory),
                answers,
                before_count(target).len() as int + 1,
                k,
                target.write_list()[i].1@,
            ),
{
    let plan = all_steps(target);
    let list = target.write_list();
    let entry = list[i];
    let part = named(entry) + GUARDED@;
    let guarded = guarded_steps(list);
    let start = before_count(target);
    let rest = AFTERWARDS@ + READS_HEAD@ + read_steps(target.read_entries()) + STILL_WRITABLE@
        + dropping(target.cleanup_list()) + COMMITTING@;
    lemma_guarded(list, i);
    lemma_all_plain(target);
    assert(start + BASELINE@ + guarded + rest =~= plan);
    let k = choose|k: int|
        0 <= k && k + part.len() <= guarded.len() && part == #[trigger] guarded.subrange(
            k,
            k + part.len(),
        );
    let first = start.len() as int + 1;
    let from = start.len() + BASELINE@.len() + k;
    assert(plan.subrange(from, from + 7) =~= guarded.subrange(k, k + 7));
    assert(plan[start.len() as int] == BASELINE@[0]);
    assert forall|j: int| first <= j < from + 5 implies !#[trigger] writes(plan[j], 10) by {
        if j < start.len() + BASELINE@.len() {
            assert(plan[j] == BASELINE@[j - start.len()]);
        } else {
            let at = j - start.len() - BASELINE@.len();
            assert(plan[j] == guarded[at]);
            lemma_count_unwritten(list, at);
        }
    }
    lemma_part_refused(plan, opening(memory), answers, first, from, entry);
}

/// Whether a run asked the writable connection for something, and it did not
/// run.
pub open spec fn did_not_run(
    plan: Seq<Row>,
    c: Course,
    answers: Seq<Seen>,
    k: int,
    sql: Seq<char>,
) -> bool {
    &&& 0 <= k < plan.len()
    &&& plan[k].0 == Op::Execute
    &&& plan[k].3 == 0
    &&& state_at(plan, c, answers, k) matches Some(asked) && fill(plan[k].4@, asked.memory) == sql
    &&& state_at(plan, c, answers, k + 1) matches Some(told) && (!(at(told.memory, 13) is Run)
        || events(at(told.memory, 13)).len() == 0 || first_error_spec(
        events(at(told.memory, 13)),
    ) is Some)
}

proof fn lemma_did_not_run(plan: Seq<Row>, c: Course, answers: Seq<Seen>, k: int, sql: Seq<char>)
    requires
        plain(plan),
        clean(c),
        c.at == 0,
        clean(course(plan, c, answers)),
        course(plan, c, answers).at == plan.len(),
        0 <= k,
        k + 1 < plan.len(),
        plan[k].0 == Op::Execute,
        plan[k].3 == 0,
        plan[k].4@ == sql,
        forall|i: int| 0 <= i < sql.len() ==> #[trigger] sql[i] != '{',
        plan[k + 1].0 == Op::DidNotRun,
        plan[k + 1].1 == Weight::Leave,
        plan[k + 1].2 == 13,
    ensures
        did_not_run(plan, c, answers, k, sql),
{
    let m = plan.len() as int;
    assert(plan.take(m) =~= plan);
    a_clean_run_makes_every_step(plan, c, answers, m, k);
    a_clean_run_makes_every_step(plan, c, answers, m, k + 1);
    plain_template_stands_for_itself(sql, state_at(plan, c, answers, k)->0.memory);
    in_a_clean_run_every_test_held(plan, c, answers, k + 1);
    let told = state_at(plan, c, answers, k + 1)->0;
    assert(holds(
        Op::DidNotRun,
        13,
        plan[k + 1].3 as int,
        fill(plan[k + 1].4@, told.memory),
        told.memory,
    ));
}

/// The probe passes only where, after every write, there is neither the table that
/// one of them would have made nor the column that another would have added.
pub proof fn a_clean_run_found_nothing_made(
    target: Target,
    memory: Seq<Seen>,
    answers: Seq<Seen>,
)
    requires
        clean(course(all_steps(target), opening(memory), answers)),
        course(all_steps(target), opening(memory), answers).at == all_steps(target).len(),
    ensures
        exists|k: int| #[trigger]
            did_not_run(
                all_steps(target),
                opening(memory),
                answers,
                k,
                "SELECT COUNT(*) AS N FROM OQT_READ_ONLY_X"@,
            ),
        exists|k: int| #[trigger]
            did_not_run(
                all_steps(target),
                opening(memory),
                answers,
                k,
                "SELECT EXTRA_COL FROM OQT_READ_ONLY"@,
            ),
{
    let plan = all_steps(target);
    let start = before_count(target) + BASELINE@ + guarded_steps(target.write_list());
    let rest = READS_HEAD@ + read_steps(target.read_entries()) + STILL_WRITABLE@ + dropping(
        target.cleanup_list(),
    ) + COMMITTING@;
    lemma_all_plain(target);
    assert(start + AFTERWARDS@ + rest =~= plan);
    let k = start.len() as int;
    assert(plan[k + 1] == AFTERWARDS@[1]);
    assert(plan[k + 2] == AFTERWARDS@[2]);
    assert(plan[k + 3] == AFTERWARDS@[3]);
    assert(plan[k + 4] == AFTERWARDS@[4]);
    reveal_strlit("SELECT COUNT(*) AS N FROM OQT_READ_ONLY_X");
    reveal_strlit("SELECT EXTRA_COL FROM OQT_READ_ONLY");
    lemma_did_not_run(
        plan,
        opening(memory),
        answers,
        k + 1,
        "SELECT COUNT(*) AS N FROM OQT_READ_ONLY_X"@,
    );
    lemma_did_not_run(
        plan,
        opening(memory),
        answers,
        k + 3,
        "SELECT EXTRA_COL FROM OQT_READ_ONLY"@,
    );
}

/// Whether a run put a read to the read-only connection, and nothing was wrong
/// with its answer.
pub open spec fn ran(
    plan: Seq<Row>,
    c: Course,
    answers: Seq<Seen>,
    k: int,
    read: (&'static str, &'static str),
    seen: Seen,
) -> bool {
    &&& 0 <= k < plan.len()
    &&& plan[k].0 == Op::Execute
    &&& plan[k].3 == 1
    &&& plan[k].4 == read.1
    &&& went_well(plan, c, answers, k, seen)
}

/// The probe passes only where every read of the list was put to the read-only
/// connection, and nothing was wrong with its answer.
pub proof fn a_clean_run_ran_every_read(
    target: Target,
    memory: Seq<Seen>,
    answers: Seq<Seen>,
    i: int,
)
    requires
        0 <= i < target.read_entries().len(),
        clean(course(all_steps(target), opening(memory), answers)),
        course(all_steps(target), opening(memory), answers).at == all_steps(target).len(),
    ensures
        exists|k: int, seen: Seen| #[trigger]
            ran(
                all_steps(target),
                opening(memory),
                answers,
                k,
                target.read_entries()[i],
                seen,
            ),
{
    let plan = all_steps(target);
    let read = target.read_entries()[i];
    let part = read_of(read);
    every_read_is_run(target, i);
    lemma_all_plain(target);
    let from = choose|k: int|
        0 <= k && k + part.len() <= plan.len() && part == #[trigger] plan.subrange(
            k,
            k + part.len(),
        );
    let k = from + 1;
    let m = plan.len() as int;
    assert(plan[k] == plan.subrange(from, from + 2)[1]);
    assert(part[1] == plan[k]);
    assert(plan.take(m) =~= plan);
    a_clean_run_makes_every_step(plan, opening(memory), answers, m, k);
    in_a_clean_run_every_action_went_well(plan, opening(memory), answers, k);
    let seen = choose|seen: Seen| #[trigger]
        went_well(plan, opening(memory), answers, k, seen);
    assert(ran(plan, opening(memory), answers, k, read, seen));
}

/// What a write says of itself is what the probe does with it: one that can be run is run
/// on the writable connection, and one that changes the table has the fixture made anew.
pub proof fn a_write_is_run_as_it_says(target: Target, write: Write, entry: Entry)
    requires
        is_write(write, entry),
    ensures
        write.sql@ == entry.1@,
        !write.runnable ==> control_of(target, entry) == named(entry) + NOT_DEMONSTRABLE@,
        write.runnable && !write.structural ==> control_of(target, entry) == named(entry)
            + CONTROL@,
        write.runnable && write.structural ==> control_of(target, entry) == named(entry) + (CONTROL@
            + fixture(target)),
{
    assert(CONTROL@ + Seq::<Row>::empty() =~= CONTROL@);
}

} // verus!
