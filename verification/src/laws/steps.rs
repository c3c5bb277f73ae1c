//! What a step of a probe does, by its weight, and what an answer is worth.
use vstd::prelude::*;
use vstd::string::*;

use crate::laws::cells::brought;
use crate::laws::events::{
    all_succeeded, finished, is_first_failure, the_error_is_the_first_failure,
};
use crate::machine::{
    answered, fault, judged, kept, larger, mark_after, opening, put, step, Course, Row, Weight,
};
use crate::op::{class, Class, Op};
use crate::progress::{any_cell, first_cell_spec, scalar, QueryProgress};
use crate::routine::RoutineDefinitionLookup;
use crate::seen::{at, text_in, words, Seen};
use crate::template::{fill, fill_with, hole, opens_hole, slot_of, trouble};
use crate::text::{debug_form, decimal, integer_value, lacks, trim};
use crate::verdict::{flag, holds, own_words};

verus! {

/// Whether a row is a test.
pub open spec fn tests(row: Row) -> bool {
    class(row.0) != Class::Action && class(row.0) != Class::Control
}

/// A test that holds goes on to the next row and records no failure. A check says
/// `OK` with its label, a tally says so too, and any other test says its label where
/// it has one.
pub proof fn a_test_that_holds_goes_on(plan: Seq<Row>, c: Course)
    requires
        0 <= c.at < plan.len(),
        tests(plan[c.at]),
        holds(
            plan[c.at].0,
            plan[c.at].2 as int,
            plan[c.at].3 as int,
            fill(plan[c.at].4@, c.memory),
            c.memory,
        ),
    ensures
        ({
            let row = plan[c.at];
            let label = fill(row.5@, c.memory);
            let next = step(plan, c);
            &&& next.at == c.at + 1
            &&& next.memory == c.memory
            &&& next.failures == c.failures
            &&& next.error == c.error
            &&& row.1 == Weight::Check ==> next.log == c.log.push("    OK  "@ + label)
            &&& row.1 == Weight::Tally && row.0 != Op::AtMost ==> next.log == c.log.push(
                "    OK  "@ + label,
            )
            &&& row.1 == Weight::Tally && row.0 == Op::AtMost ==> next.log == c.log.push(
                "    OK  "@ + label + fill(row.4@, c.memory),
            )
            &&& row.1 != Weight::Check && row.1 != Weight::Tally && label.len() > 0 ==> next.log
                == c.log.push(label)
            &&& row.1 != Weight::Check && row.1 != Weight::Tally && label.len() == 0 ==> next.log
                == c.log
        }),
{
    let row = plan[c.at];
    let label = fill(row.5@, c.memory);
    assert("    OK  "@ + label + Seq::<char>::empty() =~= "    OK  "@ + label);
}

/// A test that does not hold costs what its weight says. A try costs nothing. A check
/// records its label and why, a tally its label, a note why, and the run goes on; a
/// part and a quit record why and leave out the rest of the part, or all up to the
/// clean-up. A demand ends in an error after the clean-up, a leave at once, and an
/// error that is kept gives way to one that was there before.
pub proof fn a_test_that_fails_costs_its_weight(plan: Seq<Row>, c: Course)
    requires
        0 <= c.at < plan.len(),
        tests(plan[c.at]),
        !holds(
            plan[c.at].0,
            plan[c.at].2 as int,
            plan[c.at].3 as int,
            fill(plan[c.at].4@, c.memory),
            c.memory,
        ),
    ensures
        ({
            let row = plan[c.at];
            let label = fill(row.5@, c.memory);
            let why = if row.6@.len() == 0 {
                own_words(row.0, row.2 as int, row.3 as int, fill(row.4@, c.memory), c.memory)
            } else {
                fill_with(row.6@, c.memory, trouble(at(c.memory, row.2 as int)))
            };
            let next = step(plan, c);
            &&& next.memory == c.memory
            &&& row.1 == Weight::Try ==> next == (Course { at: c.at + 1, ..c })
            &&& row.1 == Weight::Check ==> next.at == c.at + 1 && next.failures
                == c.failures.push(label + ": "@ + why) && next.log == c.log.push(
                "    FAIL "@ + (label + ": "@ + why),
            ) && next.error == c.error
            &&& row.1 == Weight::Tally ==> next.at == c.at + 1 && next.failures
                == c.failures.push(label) && next.log == c.log.push("    FAIL "@ + label + why)
                && next.error == c.error
            &&& row.1 == Weight::Note ==> next.at == c.at + 1 && next.failures
                == c.failures.push(why) && next.error == c.error
            &&& row.1 == Weight::Part ==> next.at == mark_after(plan, c.at, Op::Join)
                && next.failures == c.failures.push(why) && next.error == c.error
            &&& row.1 == Weight::Quit ==> next.at == mark_after(plan, c.at, Op::Cleanup)
                && next.failures == c.failures.push(why) && next.error == c.error
            &&& row.1 == Weight::Demand ==> next.at == mark_after(plan, c.at, Op::Cleanup)
                && next.failures == c.failures && next.error == Some(why)
            &&& row.1 == Weight::Leave ==> next.at == plan.len() && next.failures == c.failures
                && next.error == Some(why)
            &&& row.1 == Weight::Keep ==> next.at == c.at + 1 && next.failures == c.failures
                && next.error == (if c.error is None { Some(why) } else { c.error })
        }),
{
}

/// Where a probe goes on that leaves out what stands before a mark: at the next mark,
/// or at the end where there is none.
pub proof fn a_mark_is_the_next_of_its_kind(plan: Seq<Row>, from: int, mark: Op)
    requires
        0 <= from < plan.len(),
    ensures
        from < mark_after(plan, from, mark) <= plan.len(),
        mark_after(plan, from, mark) < plan.len() ==> plan[mark_after(plan, from, mark)].0 == mark,
        forall|i: int|
            from < i < mark_after(plan, from, mark) ==> (#[trigger] plan[i]).0 != mark,
{
    let rest = plan.skip(from + 1);
    crate::machine::lemma_before(rest, mark);
    assert forall|i: int| from < i < mark_after(plan, from, mark) implies (#[trigger] plan[i]).0
        != mark by {
        assert(plan[i] == rest[i - from - 1]);
    }
    if mark_after(plan, from, mark) < plan.len() {
        assert(plan[mark_after(plan, from, mark)] == rest[mark_after(plan, from, mark) - from - 1]);
    }
}

/// The steps that steer: rows are left out, so many as the step says, only under its
/// own condition, and nothing else changes but a line that a refused feature is told
/// by.
pub proof fn a_step_leaves_out_rows_under_its_condition(plan: Seq<Row>, c: Course)
    requires
        0 <= c.at < plan.len(),
        c.at + 1 + plan[c.at].3 <= plan.len(),
    ensures
        ({
            let row = plan[c.at];
            let seen = at(c.memory, row.2 as int);
            let next = step(plan, c);
            let on = Course { at: c.at + 1, ..c };
            let over = Course { at: c.at + 1 + row.3, ..c };
            &&& row.0 == Op::Join ==> next == on
            &&& row.0 == Op::Cleanup ==> next == (if c.error is None { over } else { on })
            &&& row.0 == Op::Settled ==> next == (if c.error is Some {
                Course { at: plan.len() as int, ..c }
            } else {
                on
            })
            &&& row.0 == Op::SkipUnless ==> next == (if flag(seen) { on } else { over })
            &&& row.0 == Op::SkipIf ==> next == (if flag(seen) { over } else { on })
            &&& row.0 == Op::SkipIfFailed ==> next == (if seen is Failed { over } else { on })
            &&& row.0 == Op::SkipUnlessFailed ==> next == (if seen is Failed { on } else { over })
            &&& row.0 == Op::SkipUnlessNamed ==> next == (if seen matches Seen::Names(list)
                && list@.len() > 0 { on } else { over })
            &&& row.0 == Op::SkipIfNamed ==> next == (if seen matches Seen::Names(list)
                && list@.len() > 0 { over } else { on })
            &&& row.0 == Op::SkipIfCounted ==> next == (if holds(
                Op::CountTextIs,
                row.2 as int,
                0,
                fill(row.4@, c.memory),
                c.memory,
            ) { over } else { on })
            &&& row.0 == Op::SkipUnlessDid ==> next == (if holds(
                Op::Did,
                row.2 as int,
                0,
                Seq::empty(),
                c.memory,
            ) { on } else { over })
            &&& row.0 == Op::SkipUnlessFine ==> next == (if holds(
                Op::LastSucceeded,
                row.2 as int,
                0,
                Seq::empty(),
                c.memory,
            ) { on } else { Course { log: c.log.push(fill(row.5@, c.memory)), ..over } })
            &&& row.0 == Op::Say ==> next == (Course {
                log: c.log.push(fill(row.5@, c.memory)),
                ..on
            })
        }),
{
}

/// The steps that keep something: a zero, a yes, a word, or the larger of two
/// numbers; every other slot stays.
pub proof fn a_step_keeps_what_it_says(plan: Seq<Row>, c: Course, slot: int, a: i64, b: i64)
    requires
        0 <= c.at < plan.len(),
        plan[c.at].2 < c.memory.len(),
        0 <= slot < c.memory.len(),
    ensures
        ({
            let row = plan[c.at];
            let next = step(plan, c);
            let here = row.2 as int;
            &&& row.0 == Op::Zero ==> next.memory[here] == Seen::Number(0)
            &&& row.0 == Op::Raise ==> next.memory[here] == Seen::Flag(true)
            &&& row.0 == Op::Name ==> next.memory[here] == Seen::Word(row.4)
            &&& row.0 == Op::KeepMax && row.3 < c.memory.len() && c.memory[here] == Seen::Number(a)
                && c.memory[row.3 as int] == Seen::Number(b) ==> next.memory[here] == Seen::Number(
                if a < b {
                    b
                } else {
                    a
                },
            )
            &&& (row.0 == Op::Zero || row.0 == Op::Raise || row.0 == Op::Name || row.0
                == Op::KeepMax) ==> next.at == c.at + 1 && next.failures == c.failures && next.log
                == c.log && next.error == c.error && (slot != here ==> next.memory[slot]
                == c.memory[slot])
        }),
{
}

/// A run begins at its first row, with nothing failed and nothing said.
pub proof fn a_run_begins_clean(memory: Seq<Seen>)
    ensures
        opening(memory).at == 0,
        opening(memory).memory == memory,
        opening(memory).failures.len() == 0,
        opening(memory).log.len() == 0,
        opening(memory).error is None,
{
}

/// An answer is kept in the slot of its action and in no other, and is judged by the
/// action's weight as a test is: well where nothing is wrong with it.
pub proof fn an_answer_is_kept_and_judged(plan: Seq<Row>, c: Course, seen: Seen, slot: int)
    requires
        0 <= c.at < plan.len(),
        0 <= slot < c.memory.len(),
    ensures
        ({
            let row = plan[c.at];
            let next = answered(plan, c, seen);
            let wrong = fault(row, fill(row.4@, c.memory), seen);
            &&& slot == row.2 ==> next.memory[slot] == kept(row.0, seen)
            &&& slot != row.2 ==> next.memory[slot] == c.memory[slot]
            &&& wrong is None ==> next.at == c.at + 1 && next.failures == c.failures && next.error
                == c.error
            &&& wrong is Some && row.1 == Weight::Try ==> next.at == c.at + 1 && next.failures
                == c.failures && next.error == c.error && next.log == c.log
            &&& wrong is Some && row.1 == Weight::Leave ==> next.at == plan.len() && next.error
                is Some && next.failures == c.failures
            &&& wrong is Some && row.1 == Weight::Demand ==> next.at == mark_after(
                plan,
                c.at,
                Op::Cleanup,
            ) && next.error is Some && next.failures == c.failures
            &&& wrong is Some && (row.1 == Weight::Leave || row.1 == Weight::Demand) && (
            row.6@.len() == 0 || row.0 == Op::AskNumber || row.0 == Op::RefuseStandalone || row.0
                == Op::RefuseMysql) ==> next.error == wrong
            &&& wrong is Some && (row.1 == Weight::Leave || row.1 == Weight::Demand)
                && row.6@.len() > 0 && row.0 != Op::AskNumber && row.0 != Op::RefuseStandalone
                && row.0 != Op::RefuseMysql ==> next.error == Some(
                fill_with(row.6@, next.memory, wrong->0),
            )
        }),
{
}

/// An action that could not be made is a fault, whatever it was; so is a run of which a
/// statement failed, where the action asks for one that does not, and an execution that
/// brought nothing.
pub proof fn what_could_not_be_done_is_a_fault(
    row: Row,
    text: Seq<char>,
    seen: Seen,
    run: Seq<QueryProgress>,
    i: int,
)
    ensures
        seen is Failed ==> fault(row, text, seen) is Some,
        seen is Failed && row.0 != Op::Setup && row.0 != Op::Ddl && row.0
            != Op::RefuseStandalone && row.0 != Op::RefuseMysql ==> fault(row, text, seen) == Some(
            (seen->Failed_0)@,
        ),
        seen is Failed && row.0 == Op::Setup ==> fault(row, text, seen) == Some(
            "setup "@ + debug_form(text) + ": "@ + (seen->Failed_0)@,
        ),
        (seen matches Seen::Run(events) && events@ == run) && (row.0 == Op::Do || row.0
            == Op::Script || row.0 == Op::Peek) ==> (fault(row, text, seen) is None
            <==> all_succeeded(run)),
        (seen matches Seen::Run(events) && events@ == run) && row.0 == Op::Execute ==> (fault(
            row,
            text,
            seen,
        ) is None <==> run.len() > 0 && all_succeeded(run)),
        (seen matches Seen::Run(events) && events@ == run) && (row.0 == Op::Do || row.0
            == Op::Script || row.0 == Op::Peek || row.0 == Op::Execute) && is_first_failure(run, i)
            ==> fault(row, text, seen) == Some((finished(run[i])->0).message@),
        (seen matches Seen::Run(events) && events@ == run) && (row.0 == Op::Run || row.0
            == Op::Attempt || row.0 == Op::RunScript || row.0 == Op::Finish) ==> fault(
            row,
            text,
            seen,
        ) is None,
{
    the_error_is_the_first_failure(run);
}

/// A number that was asked for is a fault where no cell came or none spells one; the
/// number itself is kept.
pub proof fn an_asked_number_is_kept(
    row: Row,
    text: Seq<char>,
    seen: Seen,
    run: Seq<QueryProgress>,
    cell: Seq<char>,
    n: int,
)
    requires
        seen matches Seen::Run(events) && events@ == run,
        integer_value(trim(cell)) == Some(n),
    ensures
        row.0 == Op::AskCount && first_cell_spec(run) == Some(cell) ==> fault(row, text, seen)
            is None && kept(row.0, seen) == Seen::Number(n as i64),
        row.0 == Op::AskCount && first_cell_spec(run) is None ==> fault(row, text, seen) is Some,
        row.0 == Op::AskScalar && all_succeeded(run) && run.len() > 0 && scalar(run) == Some(cell)
            ==> fault(row, text, seen) is None && kept(row.0, seen) == Seen::Number(n as i64),
        row.0 == Op::AskScalar && (run.len() == 0 || !all_succeeded(run) || scalar(run) is None)
            ==> fault(row, text, seen) is Some,
        row.0 == Op::CountRows && all_succeeded(run) && run.len() > 0 && any_cell(run) == Some(
            cell,
        ) ==> fault(row, text, seen) is None && kept(row.0, seen) == Seen::Number(n as i64),
        row.0 == Op::CountRows && (run.len() == 0 || !all_succeeded(run) || any_cell(run) is None)
            ==> fault(row, text, seen) is Some,
        n as i64 as int == n,
{
    the_error_is_the_first_failure(run);
}

/// What is no number is a fault where one was asked for.
pub proof fn an_asked_number_must_be_one(
    row: Row,
    text: Seq<char>,
    seen: Seen,
    run: Seq<QueryProgress>,
    cell: Seq<char>,
)
    requires
        seen matches Seen::Run(events) && events@ == run,
        integer_value(trim(cell)) is None,
    ensures
        row.0 == Op::AskCount && first_cell_spec(run) == Some(cell) ==> fault(row, text, seen)
            is Some,
        row.0 == Op::AskScalar && scalar(run) == Some(cell) ==> fault(row, text, seen) is Some,
        row.0 == Op::CountRows && any_cell(run) == Some(cell) ==> fault(row, text, seen) is Some,
        row.0 == Op::AskNumber && text_in(seen) == Some(cell) ==> fault(row, text, seen) is Some,
{
}

/// A text that was asked for is a fault exactly where none came.
pub proof fn an_asked_text_must_come(row: Row, text: Seq<char>, run: Vec<QueryProgress>)
    requires
        row.0 == Op::Ask,
    ensures
        fault(row, text, Seen::Run(run)) is None <==> crate::seen::scalar(run@) is Some,
        crate::seen::scalar(run@) is None ==> fault(row, text, Seen::Run(run)) == Some(
            text + " returned no rows"@,
        ),
{
}

/// A lookup that was to be described is a fault where the catalog refused, and one that
/// was to be refused is a fault where it described.
pub proof fn a_lookup_is_worth_what_was_wanted(
    row: Row,
    text: Seq<char>,
    lookup: RoutineDefinitionLookup,
)
    ensures
        row.0 == Op::FetchMember || row.0 == Op::FetchStandalone || row.0 == Op::FetchMysql ==> (
        fault(row, text, Seen::Lookup(lookup)) is None <==> lookup is Defined),
        row.0 == Op::RefuseStandalone || row.0 == Op::RefuseMysql ==> (fault(
            row,
            text,
            Seen::Lookup(lookup),
        ) is None <==> lookup is Unreadable),
{
}

/// A pin that the toolbar could not put on the session is a fault; any other outcome is
/// none.
pub proof fn a_pin_must_be_applied(row: Row, text: Seq<char>, applied: bool, shown: String)
    ensures
        row.0 == Op::PinLikeToolbar ==> (fault(row, text, Seen::Outcome { applied, shown }) is None
            <==> applied),
        row.0 != Op::PinLikeToolbar ==> fault(row, text, Seen::Outcome { applied, shown }) is None,
{
}

/// What is kept of an answer is the answer, but for the numbers that were asked for and
/// for a peek that failed, of which nothing is kept.
pub proof fn an_answer_is_kept_as_it_came(op: Op, seen: Seen, run: Seq<QueryProgress>)
    ensures
        op != Op::AskNumber && op != Op::AskCount && op != Op::AskScalar && op != Op::CountRows
            && op != Op::Peek ==> kept(op, seen) == seen,
        seen is Failed && op != Op::Peek ==> kept(op, seen) == seen,
        op == Op::Peek && seen is Failed ==> kept(op, seen) == Seen::Nothing,
        op == Op::Peek && (seen matches Seen::Run(events) && events@ == run) ==> kept(op, seen) == (
        if all_succeeded(run) {
            seen
        } else {
            Seen::Nothing
        }),
{
    the_error_is_the_first_failure(run);
}

/// A text is filled from the left: what has no brace in it stays, and a hole is its
/// observation, written as its letter says.
pub proof fn templates_are_filled_from_the_left(
    before: Seq<char>,
    kind: char,
    tens: char,
    ones: char,
    rest: Seq<char>,
    memory: Seq<Seen>,
    wrong: Seq<char>,
)
    requires
        lacks(before, '{'),
        '0' <= tens <= '9',
        '0' <= ones <= '9',
    ensures
        fill_with(before, memory, wrong) == before,
        fill_with(before + seq!['{', kind, tens, ones, '}'] + rest, memory, wrong) == before + (
        if kind == 'z' {
            wrong
        } else {
            hole(kind, at(memory, slot_of(tens, ones)))
        }) + fill_with(rest, memory, wrong),
        slot_of(tens, ones) == 10 * (tens as int - '0' as int) + (ones as int - '0' as int),
        fill(rest, memory) == fill_with(rest, memory, Seq::empty()),
    decreases before.len(),
{
    let mark = seq!['{', kind, tens, ones, '}'];
    let t = before + mark + rest;
    if before.len() == 0 {
        assert(before =~= Seq::<char>::empty());
        assert(fill_with(before, memory, wrong) =~= before);
        assert(t =~= mark + rest);
        assert(opens_hole(t));
        assert(t.skip(5) =~= rest);
        let said = if kind == 'z' { wrong } else { hole(kind, at(memory, slot_of(tens, ones))) };
        assert(fill_with(t, memory, wrong) =~= before + said + fill_with(rest, memory, wrong));
    } else {
        let tail = before.drop_first();
        assert(before[0] != '{');
        assert forall|i: int| 0 <= i < tail.len() implies #[trigger] tail[i] != '{' by {
            assert(tail[i] == before[i + 1]);
        }
        templates_are_filled_from_the_left(tail, kind, tens, ones, rest, memory, wrong);
        assert(before.skip(1) =~= tail);
        assert(seq![before[0]] + tail =~= before);
        assert(t.skip(1) =~= tail + mark + rest);
        assert(t[0] == before[0]);
        let said = if kind == 'z' { wrong } else { hole(kind, at(memory, slot_of(tens, ones))) };
        assert(fill_with(t, memory, wrong) =~= before + said + fill_with(rest, memory, wrong));
    }
}

/// What went wrong with an observation: its error, the catalog's refusal, or the
/// message of the first statement that failed; nothing where all went well.
pub proof fn trouble_is_what_went_wrong(seen: Seen, run: Seq<QueryProgress>, i: int)
    ensures
        seen matches Seen::Failed(e) ==> trouble(seen) == e@,
        seen matches Seen::Lookup(RoutineDefinitionLookup::Unreadable(e)) ==> trouble(seen) == e@,
        (seen matches Seen::Run(events) && events@ == run) && is_first_failure(run, i) ==> trouble(
            seen,
        ) == (finished(run[i])->0).message@,
        (seen matches Seen::Run(events) && events@ == run) && all_succeeded(run) ==> trouble(
            seen,
        ).len() == 0,
{
    the_error_is_the_first_failure(run);
}

/// The holes that a message writes an observation with: plainly, in quotes, as the
/// number it spells, or as the next one.
pub proof fn holes_write_what_was_observed(seen: Seen, n: int)
    ensures
        hole('t', seen) == words(seen),
        hole('q', seen) == debug_form(words(seen)),
        integer_value(trim(words(seen))) == Some(n) ==> hole('n', seen) == decimal(n) && hole(
            '+',
            seen,
        ) == decimal(n + 1),
        text_in(seen) matches Some(text) ==> hole('o', seen) == "Some("@ + debug_form(text) + ")"@,
        text_in(seen) is None ==> hole('o', seen) == "None"@,
{
}

} // verus!
