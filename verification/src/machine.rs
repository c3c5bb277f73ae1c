//! The probe machine: it walks a plan, hands out the actions the app has to
//! perform, takes the answers, makes the tests, and keeps the verdict.
use vstd::prelude::*;
use vstd::string::*;

use crate::op::{class, class_of, Class, Op, HERE};
use crate::progress::{
    any_cell, any_cell_of, first_cell, first_cell_spec, first_error, first_error_spec, scalar,
    scalar_of, QueryProgress,
};
use crate::routine::{
    answered_text, answered_words, failed_text, failed_words, RoutineDefinitionLookup,
};
use crate::seen::{at, events, names, text_in, text_of_seen, Seen};
use crate::template::{
    fill, fill_with, filled, filled_with, number_fault, number_fault_text, trouble, trouble_text,
};
use crate::text::{debug_form, integer_value, parse_integer, quoted, trim, trimmed, views};
use crate::verdict::{events_in, flag, holds, is_flag, look, own_words, own_words_text, try_test};

verus! {

/// What a failed step costs.
#[derive(Clone, Copy, Debug, PartialEq, Eq, Structural)]
pub enum Weight {
    /// Nothing.
    Try,
    /// The failure is recorded with its reason and the probe goes on.
    Check,
    /// The failure is recorded by its label alone and the probe goes on.
    Tally,
    /// The probe ends with an error, after its clean-up.
    Demand,
    /// The probe ends with an error at once.
    Leave,
    /// The error is kept, unless there is one already, and the probe goes on.
    Keep,
    /// The reason is recorded and the probe goes on.
    Note,
    /// The reason is recorded and the rest of a part is left out.
    Part,
    /// The reason is recorded and the rest up to the clean-up is left out.
    Quit,
}

/// A step: what to do, what its failure costs, the slot it fills or reads, a
/// second slot or number, its text, its label, and what to say when it fails.
pub type Row = (Op, Weight, usize, usize, &'static str, &'static str, &'static str);

/// Where a probe stands.
#[verifier::ext_equal]
pub struct Course {
    pub at: int,
    pub memory: Seq<Seen>,
    pub failures: Seq<Seq<char>>,
    pub log: Seq<Seq<char>>,
    pub error: Option<Seq<char>>,
}

/// The number of rows before the next step of a kind.
pub open spec fn before(rows: Seq<Row>, mark: Op) -> nat
    decreases rows.len(),
{
    if rows.len() == 0 || rows[0].0 == mark {
        0
    } else {
        1 + before(rows.skip(1), mark)
    }
}

/// Where a probe goes on that leaves out what stands before such a step.
pub open spec fn mark_after(plan: Seq<Row>, at: int, mark: Op) -> int {
    ahead(plan, at, before(plan.skip(at + 1), mark) as int)
}

pub proof fn lemma_before(rows: Seq<Row>, mark: Op)
    ensures
        before(rows, mark) <= rows.len(),
        before(rows, mark) < rows.len() ==> rows[before(rows, mark) as int].0 == mark,
        forall|i: int| 0 <= i < before(rows, mark) ==> (#[trigger] rows[i]).0 != mark,
    decreases rows.len(),
{
    if rows.len() > 0 && rows[0].0 != mark {
        let rest = rows.skip(1);
        lemma_before(rest, mark);
        assert forall|i: int| 0 <= i < before(rows, mark) implies (#[trigger] rows[i]).0
            != mark by {
            if i > 0 {
                assert(rows[i] == rest[i - 1]);
            }
        }
    }
}

pub open spec fn ahead(plan: Seq<Row>, at: int, by: int) -> int {
    if at + 1 + by <= plan.len() { at + 1 + by } else { plan.len() as int }
}

pub open spec fn put(memory: Seq<Seen>, slot: int, seen: Seen) -> Seq<Seen> {
    if 0 <= slot < memory.len() { memory.update(slot, seen) } else { memory }
}

/// Whether a step's last text is not what to say, but what it is about.
pub open spec fn names_subject(op: Op) -> bool {
    op == Op::AskNumber || op == Op::RefuseStandalone || op == Op::RefuseMysql
}

fn does_name_subject(op: Op) -> (r: bool)
    ensures
        r == names_subject(op),
{
    op == Op::AskNumber || op == Op::RefuseStandalone || op == Op::RefuseMysql
}

/// What is wrong with the answer to an action, if anything is.
pub open spec fn fault(row: Row, text: Seq<char>, seen: Seen) -> Option<Seq<char>> {
    match seen {
        Seen::Failed(error) => Some(
            match row.0 {
                Op::Setup => "setup "@ + debug_form(text) + ": "@ + error@,
                Op::Ddl => "generation setup "@ + debug_form(text) + ": "@ + error@,
                Op::RefuseStandalone | Op::RefuseMysql => failed_words(row.6@, error@),
                _ => error@,
            },
        ),
        Seen::Lookup(RoutineDefinitionLookup::Unreadable(reason)) => match row.0 {
            Op::FetchMember | Op::FetchStandalone | Op::FetchMysql => Some(reason@),
            _ => None,
        },
        Seen::Lookup(RoutineDefinitionLookup::Defined(definition)) => match row.0 {
            Op::RefuseStandalone | Op::RefuseMysql => Some(
                answered_words(row.6@, definition.arguments@.len() as int),
            ),
            _ => None,
        },
        Seen::Outcome { applied, shown } => if row.0 == Op::PinLikeToolbar && !applied {
            Some(
                "the tab was pinned but its retained session refused the mode: "@ + shown@,
            )
        } else {
            None
        },
        _ => match row.0 {
            Op::Ask => if text_in(seen) is None {
                Some(text + " returned no rows"@)
            } else {
                None
            },
            Op::AskCount => number_wrong(
                first_cell_spec(events(seen)),
                "COUNT(*)"@,
                " returned "@,
                " returned no rows"@,
            ),
            Op::AskNumber => number_wrong(
                text_in(seen),
                row.6@,
                " returned "@,
                " returned no rows"@,
            ),
            Op::AskScalar => match run_wrong(text, events(seen)) {
                Some(error) => Some(error),
                None => number_wrong(
                    scalar(events(seen)),
                    text,
                    " returned "@,
                    " returned nothing"@,
                ),
            },
            Op::CountRows => match run_wrong(text, events(seen)) {
                Some(error) => Some(error),
                None => match any_cell(events(seen)) {
                    None => Some("the row count query returned nothing"@),
                    Some(cell) => number_wrong(Some(cell), "row count "@, ""@, ""@),
                },
            },
            Op::Execute => match seen {
                Seen::Run(run) => run_wrong(text, run@),
                _ => None,
            },
            Op::Do | Op::Peek | Op::Script => match seen {
                Seen::Run(run) => first_error_spec(run@),
                _ => None,
            },
            _ => None,
        },
    }
}

/// The number that an answer brought, where the action asks for one.
pub open spec fn number_brought(op: Op, seen: Seen) -> Option<int> {
    let cell = match op {
        Op::AskNumber => text_in(seen),
        Op::AskCount => first_cell_spec(events(seen)),
        Op::AskScalar => scalar(events(seen)),
        Op::CountRows => any_cell(events(seen)),
        _ => None,
    };
    match cell {
        Some(text) => integer_value(trim(text)),
        None => None,
    }
}

/// What is kept of an answer: the number, where the action asks for one, and
/// nothing of a peek that failed.
pub open spec fn kept(op: Op, seen: Seen) -> Seen {
    if asks_number(op) && !(seen is Failed) {
        match number_brought(op, seen) {
            Some(n) => Seen::Number(n as i64),
            None => seen,
        }
    } else if op == Op::Peek && fails(seen) {
        Seen::Nothing
    } else {
        seen
    }
}

/// Whether a run could not be made, or a statement of it failed.
pub open spec fn fails(seen: Seen) -> bool {
    match seen {
        Seen::Failed(_) => true,
        Seen::Run(run) => first_error_spec(run@) is Some,
        _ => false,
    }
}

pub open spec fn asks_number(op: Op) -> bool {
    op == Op::AskNumber || op == Op::AskCount || op == Op::AskScalar || op == Op::CountRows
}

fn keep(op: Op, seen: Seen) -> (r: Seen)
    ensures
        r == kept(op, seen),
{
    let asks = op == Op::AskNumber || op == Op::AskCount || op == Op::AskScalar || op
        == Op::CountRows;
    if op == Op::Peek {
        let failed = match &seen {
            Seen::Failed(_) => true,
            Seen::Run(run) => first_error(run).is_some(),
            _ => false,
        };
        return if failed { Seen::Nothing } else { seen };
    }
    if !asks {
        return seen;
    }
    match &seen {
        Seen::Failed(_) => {
            return seen;
        },
        _ => {},
    }
    let none: Vec<QueryProgress> = Vec::new();
    let cell = match op {
        Op::AskNumber => text_of_seen(&seen),
        Op::AskCount => first_cell(events_in(&seen, &none)),
        Op::AskScalar => scalar_of(events_in(&seen, &none)),
        _ => any_cell_of(events_in(&seen, &none)),
    };
    match cell {
        Some(text) => match parse_integer(trimmed(text.as_str()).as_str()) {
            Ok(n) => Seen::Number(n),
            Err(_) => seen,
        },
        None => seen,
    }
}

/// What is wrong with a number asked for: no row, or no number in it.
pub open spec fn number_wrong(
    cell: Option<Seq<char>>,
    subject: Seq<char>,
    verb: Seq<char>,
    nothing: Seq<char>,
) -> Option<Seq<char>> {
    match cell {
        None => Some(subject + nothing),
        Some(text) => if integer_value(trim(text)) is None {
            Some(subject + verb + debug_form(text) + ": "@ + number_fault(trim(text)))
        } else {
            None
        },
    }
}

fn find_number_wrong(cell: Option<String>, subject: &str, verb: &str, nothing: &str) -> (r: Option<
    String,
>)
    ensures
        match cell {
            Some(text) => match number_wrong(Some(text@), subject@, verb@, nothing@) {
                Some(e) => r matches Some(words) && words@ == e,
                None => r is None,
            },
            None => r matches Some(words) && number_wrong(None, subject@, verb@, nothing@) == Some(
                words@,
            ),
        },
{
    match cell {
        None => {
            let mut error = subject.to_owned();
            error.append(nothing);
            Some(error)
        },
        Some(text) => {
            let bare = trimmed(text.as_str());
            match parse_integer(bare.as_str()) {
                Ok(_) => None,
                Err(_) => {
                    let mut error = subject.to_owned();
                    error.append(verb);
                    error.append(quoted(text.as_str()).as_str());
                    error.append(": ");
                    error.append(number_fault_text(bare.as_str()).as_str());
                    Some(error)
                },
            }
        },
    }
}

/// What is wrong with a run: nothing ran, or a statement failed.
pub open spec fn run_wrong(text: Seq<char>, run: Seq<QueryProgress>) -> Option<Seq<char>> {
    if run.len() == 0 { Some("nothing ran for: "@ + text) } else { first_error_spec(run) }
}

fn find_run_wrong(text: &str, run: &Vec<QueryProgress>) -> (r: Option<String>)
    ensures
        r is Some <==> run_wrong(text@, run@) is Some,
        r matches Some(e) ==> run_wrong(text@, run@) == Some(e@),
{
    if run.len() == 0 {
        let mut error = "nothing ran for: ".to_owned();
        error.append(text);
        Some(error)
    } else {
        first_error(run)
    }
}

fn find_fault(row: Row, text: &str, seen: &Seen) -> (r: Option<String>)
    ensures
        r is Some <==> fault(row, text@, *seen) is Some,
        r matches Some(e) ==> fault(row, text@, *seen) == Some(e@),
{
    match seen {
        Seen::Failed(error) => {
            let words = match row.0 {
                Op::Setup => {
                    let mut out = "setup ".to_owned();
                    out.append(quoted(text).as_str());
                    out.append(": ");
                    out.append(error.as_str());
                    out
                },
                Op::Ddl => {
                    let mut out = "generation setup ".to_owned();
                    out.append(quoted(text).as_str());
                    out.append(": ");
                    out.append(error.as_str());
                    out
                },
                Op::RefuseStandalone | Op::RefuseMysql => failed_text(row.6, error.as_str()),
                _ => error.clone(),
            };
            return Some(words);
        },
        Seen::Lookup(RoutineDefinitionLookup::Unreadable(reason)) => {
            return match row.0 {
                Op::FetchMember | Op::FetchStandalone | Op::FetchMysql => Some(reason.clone()),
                _ => None,
            };
        },
        Seen::Lookup(RoutineDefinitionLookup::Defined(definition)) => {
            return match row.0 {
                Op::RefuseStandalone | Op::RefuseMysql => Some(
                    answered_text(row.6, definition.arguments.len()),
                ),
                _ => None,
            };
        },
        Seen::Outcome { applied, shown } => {
            if row.0 == Op::PinLikeToolbar && !*applied {
                let mut out =
                    "the tab was pinned but its retained session refused the mode: ".to_owned();
                out.append(shown.as_str());
                return Some(out);
            }
            return None;
        },
        _ => {},
    }
    match row.0 {
        Op::AskCount => {
            let none: Vec<QueryProgress> = Vec::new();
            find_number_wrong(
                first_cell(events_in(seen, &none)),
                "COUNT(*)",
                " returned ",
                " returned no rows",
            )
        },
        Op::AskScalar => {
            let none: Vec<QueryProgress> = Vec::new();
            let run = events_in(seen, &none);
            match find_run_wrong(text, run) {
                Some(error) => Some(error),
                None => find_number_wrong(
                    scalar_of(run),
                    text,
                    " returned ",
                    " returned nothing",
                ),
            }
        },
        Op::CountRows => {
            let none: Vec<QueryProgress> = Vec::new();
            let run = events_in(seen, &none);
            match find_run_wrong(text, run) {
                Some(error) => Some(error),
                None => match any_cell_of(run) {
                    None => Some("the row count query returned nothing".to_owned()),
                    Some(cell) => find_number_wrong(Some(cell), "row count ", "", ""),
                },
            }
        },
        Op::Execute => match seen {
            Seen::Run(run) => find_run_wrong(text, run),
            _ => None,
        },
        Op::Ask => match text_of_seen(seen) {
            Some(_) => None,
            None => {
                let mut error = text.to_owned();
                error.append(" returned no rows");
                Some(error)
            },
        },
        Op::AskNumber => find_number_wrong(
            text_of_seen(seen),
            row.6,
            " returned ",
            " returned no rows",
        ),
        Op::Do | Op::Peek | Op::Script => match seen {
            Seen::Run(run) => first_error(run),
            _ => None,
        },
        _ => None,
    }
}

/// What a tally that came out well adds to its label: for a limit that was kept,
/// the step's text.
pub open spec fn aside(row: Row, memory: Seq<Seen>) -> Seq<char> {
    if row.0 == Op::AtMost { fill(row.4@, memory) } else { Seq::empty() }
}

/// The state after a step that went well or not, with the words for a failure.
pub open spec fn judged(
    plan: Seq<Row>,
    c: Course,
    memory: Seq<Seen>,
    fine: bool,
    complaint: Seq<char>,
) -> Course {
    let row = plan[c.at];
    let label = fill(row.5@, memory);
    let said = label + ": "@ + complaint;
    if fine {
        Course {
            at: c.at + 1,
            memory,
            log: if row.1 == Weight::Check {
                c.log.push("    OK  "@ + label)
            } else if row.1 == Weight::Tally {
                c.log.push("    OK  "@ + label + aside(row, memory))
            } else if label.len() > 0 {
                c.log.push(label)
            } else {
                c.log
            },
            ..c
        }
    } else {
        match row.1 {
            Weight::Try => Course { at: c.at + 1, memory, ..c },
            Weight::Check => Course {
                at: c.at + 1,
                memory,
                failures: c.failures.push(said),
                log: c.log.push("    FAIL "@ + said),
                ..c
            },
            Weight::Tally => Course {
                at: c.at + 1,
                memory,
                failures: c.failures.push(label),
                log: c.log.push("    FAIL "@ + label + complaint),
                ..c
            },
            Weight::Demand => Course {
                at: mark_after(plan, c.at, Op::Cleanup),
                memory,
                error: Some(complaint),
                ..c
            },
            Weight::Leave => Course { at: plan.len() as int, memory, error: Some(complaint), ..c },
            Weight::Keep => Course {
                at: c.at + 1,
                memory,
                error: if c.error is None { Some(complaint) } else { c.error },
                ..c
            },
            Weight::Note => Course {
                at: c.at + 1,
                memory,
                failures: c.failures.push(complaint),
                ..c
            },
            Weight::Part => Course {
                at: mark_after(plan, c.at, Op::Join),
                memory,
                failures: c.failures.push(complaint),
                ..c
            },
            Weight::Quit => Course {
                at: mark_after(plan, c.at, Op::Cleanup),
                memory,
                failures: c.failures.push(complaint),
                ..c
            },
        }
    }
}

/// The larger of two observed numbers; what is no number counts as zero.
pub open spec fn larger(a: Seen, b: Seen) -> i64 {
    let x = match a {
        Seen::Number(n) => n,
        _ => 0,
    };
    let y = match b {
        Seen::Number(n) => n,
        _ => 0,
    };
    if x >= y { x } else { y }
}

fn larger_of(a: &Seen, b: &Seen) -> (r: i64)
    ensures
        r == larger(*a, *b),
{
    let x: i64 = match a {
        Seen::Number(n) => *n,
        _ => 0,
    };
    let y: i64 = match b {
        Seen::Number(n) => *n,
        _ => 0,
    };
    if x >= y {
        x
    } else {
        y
    }
}

fn has_names(seen: &Seen) -> (r: bool)
    ensures
        r == (names(*seen).len() > 0),
{
    match seen {
        Seen::Names(list) => list.len() > 0,
        _ => false,
    }
}

fn is_failed(seen: &Seen) -> (r: bool)
    ensures
        r == (*seen is Failed),
{
    match seen {
        Seen::Failed(_) => true,
        _ => false,
    }
}

/// What is said of a test that does not hold.
pub open spec fn complaint_of(row: Row, memory: Seq<Seen>) -> Seq<char> {
    if row.6@.len() == 0 {
        own_words(row.0, row.2 as int, row.3 as int, fill(row.4@, memory), memory)
    } else {
        fill_with(row.6@, memory, trouble(at(memory, row.2 as int)))
    }
}

/// The state after a step that is not an action.
pub open spec fn step(plan: Seq<Row>, c: Course) -> Course {
    let row = plan[c.at];
    match row.0 {
        Op::Say => Course { at: c.at + 1, log: c.log.push(fill(row.5@, c.memory)), ..c },
        Op::Cleanup => Course {
            at: ahead(plan, c.at, if c.error is None { row.3 as int } else { 0 }),
            ..c
        },
        Op::Join => Course { at: c.at + 1, ..c },
        Op::Settled => Course {
            at: if c.error is Some { plan.len() as int } else { c.at + 1 },
            ..c
        },
        Op::SkipUnless => Course {
            at: ahead(
                plan,
                c.at,
                if flag(at(c.memory, row.2 as int)) { 0 } else { row.3 as int },
            ),
            ..c
        },
        Op::SkipUnlessFine => {
            let fine = holds(Op::LastSucceeded, row.2 as int, 0, Seq::empty(), c.memory);
            Course {
                at: ahead(plan, c.at, if fine { 0 } else { row.3 as int }),
                log: if fine { c.log } else { c.log.push(fill(row.5@, c.memory)) },
                ..c
            }
        },
        Op::SkipUnlessFailed => Course {
            at: ahead(
                plan,
                c.at,
                if at(c.memory, row.2 as int) is Failed { 0 } else { row.3 as int },
            ),
            ..c
        },
        Op::SkipIfFailed => Course {
            at: ahead(
                plan,
                c.at,
                if at(c.memory, row.2 as int) is Failed { row.3 as int } else { 0 },
            ),
            ..c
        },
        Op::SkipIf => Course {
            at: ahead(
                plan,
                c.at,
                if flag(at(c.memory, row.2 as int)) { row.3 as int } else { 0 },
            ),
            ..c
        },
        Op::SkipIfCounted => Course {
            at: ahead(
                plan,
                c.at,
                if holds(Op::CountTextIs, row.2 as int, 0, fill(row.4@, c.memory), c.memory) {
                    row.3 as int
                } else {
                    0
                },
            ),
            ..c
        },
        Op::SkipUnlessDid => Course {
            at: ahead(
                plan,
                c.at,
                if holds(Op::Did, row.2 as int, 0, Seq::empty(), c.memory) {
                    0
                } else {
                    row.3 as int
                },
            ),
            ..c
        },
        Op::SkipUnlessNamed => Course {
            at: ahead(
                plan,
                c.at,
                if names(at(c.memory, row.2 as int)).len() > 0 { 0 } else { row.3 as int },
            ),
            ..c
        },
        Op::SkipIfNamed => Course {
            at: ahead(
                plan,
                c.at,
                if names(at(c.memory, row.2 as int)).len() > 0 { row.3 as int } else { 0 },
            ),
            ..c
        },
        Op::Zero => Course {
            at: c.at + 1,
            memory: put(c.memory, row.2 as int, Seen::Number(0)),
            ..c
        },
        Op::KeepMax => Course {
            at: c.at + 1,
            memory: put(
                c.memory,
                row.2 as int,
                Seen::Number(
                    larger(at(c.memory, row.2 as int), at(c.memory, row.3 as int)),
                ),
            ),
            ..c
        },
        Op::Raise => Course {
            at: c.at + 1,
            memory: put(c.memory, row.2 as int, Seen::Flag(true)),
            ..c
        },
        Op::Name => Course {
            at: c.at + 1,
            memory: put(c.memory, row.2 as int, Seen::Word(row.4)),
            ..c
        },
        _ => judged(
            plan,
            c,
            c.memory,
            holds(row.0, row.2 as int, row.3 as int, fill(row.4@, c.memory), c.memory),
            complaint_of(row, c.memory),
        ),
    }
}

/// Whether a probe waits for the answer to an action.
pub open spec fn waiting(plan: Seq<Row>, c: Course) -> bool {
    0 <= c.at < plan.len() && class(plan[c.at].0) == Class::Action
}

/// The state once every step before the next action has been made.
pub open spec fn settle(plan: Seq<Row>, c: Course) -> Course
    decreases plan.len() - c.at,
{
    if c.at < 0 || c.at >= plan.len() || class(plan[c.at].0) == Class::Action {
        c
    } else {
        settle(plan, step(plan, c))
    }
}

/// The state after the answer to the action it waits for.
pub open spec fn answered(plan: Seq<Row>, c: Course, seen: Seen) -> Course {
    let row = plan[c.at];
    let memory = put(c.memory, row.2 as int, kept(row.0, seen));
    match fault(row, fill(row.4@, c.memory), seen) {
        None => judged(plan, c, memory, true, Seq::empty()),
        Some(error) => judged(
            plan,
            c,
            memory,
            false,
            if row.6@.len() == 0 || names_subject(row.0) {
                error
            } else {
                fill_with(row.6@, memory, error)
            },
        ),
    }
}

/// The state after a whole list of answers, one to each action in turn; answers
/// beyond the last action are not taken.
pub open spec fn course(plan: Seq<Row>, c: Course, answers: Seq<Seen>) -> Course
    decreases answers.len(),
{
    let here = settle(plan, c);
    if answers.len() == 0 || !waiting(plan, here) {
        here
    } else {
        course(plan, answered(plan, here, answers[0]), answers.drop_first())
    }
}

pub open spec fn opening(memory: Seq<Seen>) -> Course {
    Course { at: 0, memory, failures: Seq::empty(), log: Seq::empty(), error: None }
}

/// An action for the app to perform.
#[derive(Debug)]
pub struct Request {
    pub op: Op,
    pub slot: usize,
    pub other: usize,
    pub text: String,
}

/// A probe in progress.
pub struct Machine {
    plan: Vec<Row>,
    next: usize,
    memory: Vec<Seen>,
    failures: Vec<String>,
    log: Vec<String>,
    error: Option<String>,
}

impl Machine {
    pub closed spec fn plan(&self) -> Seq<Row> {
        self.plan@
    }

    pub closed spec fn now(&self) -> Course {
        Course {
            at: self.next as int,
            memory: self.memory@,
            failures: views(self.failures@),
            log: views(self.log@),
            error: match self.error {
                Some(e) => Some(e@),
                None => None,
            },
        }
    }

    /// The machine stands before an action, or at its end.
    pub open spec fn wf(&self) -> bool {
        &&& 0 <= self.now().at <= self.plan().len()
        &&& settle(self.plan(), self.now()) == self.now()
    }

    /// Starts a plan on some first observations, and makes every step before
    /// its first action.
    pub fn new(plan: Vec<Row>, memory: Vec<Seen>) -> (r: Machine)
        ensures
            r.plan() == plan@,
            r.now() == settle(plan@, opening(memory@)),
            r.wf(),
    {
        let mut machine = Machine {
            plan,
            next: 0,
            memory,
            failures: Vec::new(),
            log: Vec::new(),
            error: None,
        };
        assert(machine.now() =~= opening(memory@)) by {
            assert(views(machine.failures@) =~= Seq::empty());
            assert(views(machine.log@) =~= Seq::empty());
        }
        machine.advance();
        machine
    }

    fn mark_from(&self, mark: Op) -> (r: usize)
        requires
            self.next < self.plan@.len(),
        ensures
            r as int == mark_after(self.plan@, self.next as int, mark),
            self.next < r <= self.plan@.len(),
    {
        let size: usize = self.plan.len();
        let mut i: usize = self.next + 1;
        proof {
            lemma_before(self.plan@.skip(i as int), mark);
        }
        while i < size && self.plan[i].0 != mark
            invariant
                self.next + 1 <= i <= size == self.plan@.len(),
                mark_after(self.plan@, self.next as int, mark) == i + before(
                    self.plan@.skip(i as int),
                    mark,
                ),
            decreases size - i,
        {
            assert(self.plan@.skip(i as int).skip(1) =~= self.plan@.skip(i + 1));
            i += 1;
        }
        i
    }

    fn judge(&mut self, fine: bool, complaint: String)
        requires
            old(self).next < old(self).plan@.len(),
        ensures
            final(self).plan@ == old(self).plan@,
            final(self).now() == judged(
                old(self).plan@,
                old(self).now(),
                old(self).now().memory,
                fine,
                complaint@,
            ),
            final(self).next <= final(self).plan@.len(),
            final(self).next > old(self).next,
    {
        let ghost before = self.now();
        let size: usize = self.plan.len();
        let row = self.plan[self.next];
        let label = filled(row.5, &self.memory);
        if fine {
            if row.1 == Weight::Check {
                let mut line = "    OK  ".to_owned();
                line.append(label.as_str());
                let ghost text = line@;
                self.log.push(line);
                assert(views(self.log@) =~= before.log.push(text));
            } else if row.1 == Weight::Tally {
                let mut line = "    OK  ".to_owned();
                line.append(label.as_str());
                if row.0 == Op::AtMost {
                    line.append(filled(row.4, &self.memory).as_str());
                } else {
                    assert(line@ + Seq::<char>::empty() =~= line@);
                }
                let ghost text = line@;
                self.log.push(line);
                assert(views(self.log@) =~= before.log.push(text));
            } else if !label.as_str().is_empty() {
                let ghost text = label@;
                self.log.push(label);
                assert(views(self.log@) =~= before.log.push(text));
            }
            self.next += 1;
        } else {
            match row.1 {
                Weight::Try => {
                    self.next += 1;
                },
                Weight::Check => {
                    let mut said = label;
                    said.append(": ");
                    said.append(complaint.as_str());
                    let mut line = "    FAIL ".to_owned();
                    line.append(said.as_str());
                    let ghost said_text = said@;
                    let ghost line_text = line@;
                    self.failures.push(said);
                    self.log.push(line);
                    assert(views(self.failures@) =~= before.failures.push(said_text));
                    assert(views(self.log@) =~= before.log.push(line_text));
                    self.next += 1;
                },
                Weight::Tally => {
                    let mut line = "    FAIL ".to_owned();
                    line.append(label.as_str());
                    line.append(complaint.as_str());
                    let ghost label_text = label@;
                    let ghost line_text = line@;
                    self.failures.push(label);
                    self.log.push(line);
                    assert(views(self.failures@) =~= before.failures.push(label_text));
                    assert(views(self.log@) =~= before.log.push(line_text));
                    self.next += 1;
                },
                Weight::Demand => {
                    self.next = self.mark_from(Op::Cleanup);
                    self.error = Some(complaint);
                },
                Weight::Leave => {
                    self.next = self.plan.len();
                    self.error = Some(complaint);
                },
                Weight::Keep => {
                    if self.error.is_none() {
                        self.error = Some(complaint);
                    }
                    self.next += 1;
                },
                Weight::Note => {
                    self.next += 1;
                    self.failures.push(complaint);
                    assert(views(self.failures@) =~= before.failures.push(complaint@));
                },
                Weight::Part => {
                    self.next = self.mark_from(Op::Join);
                    self.failures.push(complaint);
                    assert(views(self.failures@) =~= before.failures.push(complaint@));
                },
                Weight::Quit => {
                    self.next = self.mark_from(Op::Cleanup);
                    self.failures.push(complaint);
                    assert(views(self.failures@) =~= before.failures.push(complaint@));
                },
            }
        }
        assert(self.now() =~= judged(self.plan@, before, before.memory, fine, complaint@));
    }

    /// Moves past this step and some more.
    fn skip(&mut self, by: usize)
        requires
            old(self).next < old(self).plan@.len(),
        ensures
            final(self).plan@ == old(self).plan@,
            final(self).memory@ == old(self).memory@,
            final(self).failures@ == old(self).failures@,
            final(self).log@ == old(self).log@,
            final(self).error == old(self).error,
            final(self).next as int == ahead(old(self).plan@, old(self).next as int, by as int),
            final(self).next <= final(self).plan@.len(),
    {
        let left: usize = self.plan.len() - self.next - 1;
        if by <= left {
            self.next = self.next + 1 + by;
        } else {
            self.next = self.plan.len();
        }
    }

    fn store(&mut self, slot: usize, seen: Seen)
        ensures
            final(self).plan@ == old(self).plan@,
            final(self).memory@ == put(old(self).memory@, slot as int, seen),
            final(self).failures@ == old(self).failures@,
            final(self).log@ == old(self).log@,
            final(self).error == old(self).error,
            final(self).next == old(self).next,
    {
        if slot < self.memory.len() {
            self.memory[slot] = seen;
        }
        assert(self.memory@ =~= put(old(self).memory@, slot as int, seen));
    }

    fn make_step(&mut self)
        requires
            old(self).next < old(self).plan@.len(),
            class(old(self).plan@[old(self).next as int].0) != Class::Action,
        ensures
            final(self).plan@ == old(self).plan@,
            final(self).now() == step(old(self).plan@, old(self).now()),
            final(self).next <= final(self).plan@.len(),
            final(self).next > old(self).next,
    {
        let ghost before = self.now();
        let size: usize = self.plan.len();
        let row = self.plan[self.next];
        match row.0 {
            Op::Say => {
                let line = filled(row.5, &self.memory);
                let ghost text = line@;
                self.log.push(line);
                assert(views(self.log@) =~= before.log.push(text));
                self.next += 1;
                assert(self.now() =~= step(self.plan@, before));
            },
            Op::Cleanup => {
                self.skip(if self.error.is_none() { row.3 } else { 0 });
                assert(self.now() =~= step(self.plan@, before));
            },
            Op::Join => {
                self.next += 1;
                assert(self.now() =~= step(self.plan@, before));
            },
            Op::SkipUnlessNamed => {
                let nothing = Seen::Nothing;
                let some = has_names(look(&self.memory, row.2, &nothing));
                self.skip(if some { 0 } else { row.3 });
                assert(self.now() =~= step(self.plan@, before));
            },
            Op::SkipIfNamed => {
                let nothing = Seen::Nothing;
                let some = has_names(look(&self.memory, row.2, &nothing));
                self.skip(if some { row.3 } else { 0 });
                assert(self.now() =~= step(self.plan@, before));
            },
            Op::Settled => {
                if self.error.is_some() {
                    self.next = self.plan.len();
                } else {
                    self.next += 1;
                }
                assert(self.now() =~= step(self.plan@, before));
            },
            Op::SkipUnless => {
                let nothing = Seen::Nothing;
                let on = is_flag(look(&self.memory, row.2, &nothing));
                self.skip(if on { 0 } else { row.3 });
                assert(self.now() =~= step(self.plan@, before));
            },
            Op::SkipUnlessFine => {
                let fine = try_test(Op::LastSucceeded, row.2, 0, "", &self.memory);
                proof {
                    reveal_strlit("");
                    assert(""@ =~= Seq::<char>::empty());
                }
                if !fine {
                    let line = filled(row.5, &self.memory);
                    let ghost text = line@;
                    self.log.push(line);
                    assert(views(self.log@) =~= before.log.push(text));
                }
                self.skip(if fine { 0 } else { row.3 });
                assert(self.now() =~= step(self.plan@, before));
            },
            Op::SkipUnlessFailed => {
                let nothing = Seen::Nothing;
                let failed = is_failed(look(&self.memory, row.2, &nothing));
                self.skip(if failed { 0 } else { row.3 });
                assert(self.now() =~= step(self.plan@, before));
            },
            Op::SkipIfFailed => {
                let nothing = Seen::Nothing;
                let failed = is_failed(look(&self.memory, row.2, &nothing));
                self.skip(if failed { row.3 } else { 0 });
                assert(self.now() =~= step(self.plan@, before));
            },
            Op::SkipIf => {
                let nothing = Seen::Nothing;
                let on = is_flag(look(&self.memory, row.2, &nothing));
                self.skip(if on { row.3 } else { 0 });
                assert(self.now() =~= step(self.plan@, before));
            },
            Op::SkipIfCounted => {
                let arg = filled(row.4, &self.memory);
                let counted = try_test(Op::CountTextIs, row.2, 0, arg.as_str(), &self.memory);
                self.skip(if counted { row.3 } else { 0 });
                assert(self.now() =~= step(self.plan@, before));
            },
            Op::SkipUnlessDid => {
                proof {
                    reveal_strlit("");
                    assert(""@ =~= Seq::<char>::empty());
                }
                let did = try_test(Op::Did, row.2, 0, "", &self.memory);
                self.skip(if did { 0 } else { row.3 });
                assert(self.now() =~= step(self.plan@, before));
            },
            Op::Zero => {
                self.store(row.2, Seen::Number(0));
                self.next += 1;
                assert(self.now() =~= step(self.plan@, before));
            },
            Op::KeepMax => {
                let nothing = Seen::Nothing;
                let most: i64 = larger_of(
                    look(&self.memory, row.2, &nothing),
                    look(&self.memory, row.3, &nothing),
                );
                self.store(row.2, Seen::Number(most));
                self.next += 1;
                assert(self.now() =~= step(self.plan@, before));
            },
            Op::Raise => {
                self.store(row.2, Seen::Flag(true));
                self.next += 1;
                assert(self.now() =~= step(self.plan@, before));
            },
            Op::Name => {
                self.store(row.2, Seen::Word(row.4));
                self.next += 1;
                assert(self.now() =~= step(self.plan@, before));
            },
            _ => {
                let arg = filled(row.4, &self.memory);
                let complaint = if row.6.is_empty() {
                    own_words_text(row.0, row.2, row.3, arg.as_str(), &self.memory)
                } else {
                    let nothing = Seen::Nothing;
                    let wrong = trouble_text(look(&self.memory, row.2, &nothing));
                    filled_with(row.6, &self.memory, wrong.as_str())
                };
                let fine = try_test(row.0, row.2, row.3, arg.as_str(), &self.memory);
                self.judge(fine, complaint);
            },
        }
    }

    /// Makes every step before the next action.
    fn advance(&mut self)
        requires
            old(self).next <= old(self).plan@.len(),
        ensures
            final(self).plan@ == old(self).plan@,
            final(self).now() == settle(old(self).plan@, old(self).now()),
            final(self).wf(),
    {
        while self.next < self.plan.len() && class_of(self.plan[self.next].0) != Class::Action
            invariant
                self.plan@ == old(self).plan@,
                self.next <= self.plan@.len(),
                settle(self.plan@, self.now()) == settle(old(self).plan@, old(self).now()),
            decreases self.plan@.len() - self.next,
        {
            self.make_step();
        }
    }

    /// The action the machine waits for; none once the plan is done.
    pub fn request(&self) -> (r: Option<Request>)
        requires
            self.wf(),
        ensures
            r is Some <==> waiting(self.plan(), self.now()),
            r is None <==> self.now().at == self.plan().len(),
            r matches Some(request) ==> {
                let row = self.plan()[self.now().at];
                &&& request.op == row.0
                &&& request.slot == row.2
                &&& request.other == row.3
                &&& request.text@ == fill(row.4@, self.now().memory)
            },
    {
        if self.next < self.plan.len() {
            let row = self.plan[self.next];
            proof {
                if class(row.0) != Class::Action {
                    lemma_step_moves_on(self.plan@, self.now());
                    lemma_settle_moves_on(self.plan@, step(self.plan@, self.now()));
                }
            }
            Some(
                Request {
                    op: row.0,
                    slot: row.2,
                    other: row.3,
                    text: filled(row.4, &self.memory),
                },
            )
        } else {
            None
        }
    }

    /// Takes the answer to the action, and makes every step before the next one.
    pub fn answer(&mut self, seen: Seen)
        requires
            old(self).wf(),
            waiting(old(self).plan(), old(self).now()),
        ensures
            final(self).wf(),
            final(self).plan() == old(self).plan(),
            final(self).now() == settle(
                old(self).plan(),
                answered(old(self).plan(), old(self).now(), seen),
            ),
    {
        let ghost before = self.now();
        let row = self.plan[self.next];
        let text = filled(row.4, &self.memory);
        let wrong = find_fault(row, text.as_str(), &seen);
        let ghost memory = put(before.memory, row.2 as int, kept(row.0, seen));
        let value = keep(row.0, seen);
        self.store(row.2, value);
        let ghost c = Course { memory, ..before };
        assert(self.now() =~= c);
        match wrong {
            None => {
                self.judge(true, String::new());
                assert(judged(self.plan@, c, memory, true, Seq::empty()) =~= judged(
                    self.plan@,
                    before,
                    memory,
                    true,
                    Seq::empty(),
                ));
            },
            Some(error) => {
                let complaint = if row.6.is_empty() || does_name_subject(row.0) {
                    error
                } else {
                    filled_with(row.6, &self.memory, error.as_str())
                };
                let ghost said = complaint@;
                self.judge(false, complaint);
                assert(judged(self.plan@, c, memory, false, said) =~= judged(
                    self.plan@,
                    before,
                    memory,
                    false,
                    said,
                ));
            },
        }
        self.advance();
    }

    /// An observation the machine holds.
    pub fn seen(&self, slot: usize) -> (r: Option<&Seen>)
        ensures
            r is Some <==> slot < self.now().memory.len(),
            r matches Some(seen) ==> *seen == self.now().memory[slot as int],
    {
        if slot < self.memory.len() {
            Some(&self.memory[slot])
        } else {
            None
        }
    }

    /// The failed checks so far.
    pub fn failures(&self) -> (r: &Vec<String>)
        ensures
            views(r@) == self.now().failures,
    {
        &self.failures
    }

    /// The lines said so far.
    pub fn log(&self) -> (r: &Vec<String>)
        ensures
            views(r@) == self.now().log,
    {
        &self.log
    }

    /// The error that ended the probe.
    pub fn error(&self) -> (r: Option<&String>)
        ensures
            r is Some <==> self.now().error is Some,
            r matches Some(e) ==> self.now().error == Some(e@),
    {
        match &self.error {
            Some(e) => Some(e),
            None => None,
        }
    }
}

/// Some rows, where a condition holds.
pub open spec fn given(condition: bool, rows: Seq<Row>) -> Seq<Row> {
    if condition { rows } else { Seq::empty() }
}

pub fn append(plan: &mut Vec<Row>, rows: &[Row])
    ensures
        final(plan)@ == old(plan)@ + rows@,
{
    let ghost start = plan@;
    let mut i: usize = 0;
    assert(start + rows@.take(0) =~= start);
    while i < rows.len()
        invariant
            i <= rows@.len(),
            plan@ == start + rows@.take(i as int),
        decreases rows@.len() - i,
    {
        plan.push(rows[i]);
        i += 1;
        assert(plan@ =~= start + rows@.take(i as int));
    }
    assert(rows@.take(i as int) =~= rows@);
}

pub fn append_when(condition: bool, plan: &mut Vec<Row>, rows: &[Row])
    ensures
        final(plan)@ == old(plan)@ + given(condition, rows@),
{
    if condition {
        append(plan, rows);
    } else {
        assert(plan@ + Seq::<Row>::empty() =~= plan@);
    }
}

/// Rows with a number put where they leave one open.
pub open spec fn bound(rows: Seq<Row>, code: int) -> Seq<Row> {
    Seq::new(
        rows.len(),
        |i: int|
            {
                let r = rows[i];
                (r.0, r.1, r.2, if r.3 == HERE { code as usize } else { r.3 }, r.4, r.5, r.6)
            },
    )
}

pub fn bind(plan: &mut Vec<Row>, rows: &[Row], code: usize)
    ensures
        final(plan)@ == old(plan)@ + bound(rows@, code as int),
{
    let ghost start = plan@;
    let mut i: usize = 0;
    assert(start + bound(rows@, code as int).take(0) =~= start);
    while i < rows.len()
        invariant
            i <= rows@.len(),
            plan@ == start + bound(rows@, code as int).take(i as int),
        decreases rows@.len() - i,
    {
        let r = rows[i];
        let other: usize = if r.3 == HERE {
            code
        } else {
            r.3
        };
        plan.push((r.0, r.1, r.2, other, r.4, r.5, r.6));
        i += 1;
        assert(plan@ =~= start + bound(rows@, code as int).take(i as int));
    }
    assert(bound(rows@, code as int).take(i as int) =~= bound(rows@, code as int));
}

/// Statements whose failure costs nothing.
pub open spec fn quiet_steps(list: Seq<&'static str>) -> Seq<Row> {
    Seq::new(list.len(), |i: int| (Op::Run, Weight::Try, 99usize, 0usize, list[i], "", ""))
}

pub fn add_quietly(plan: &mut Vec<Row>, list: &[&'static str])
    ensures
        final(plan)@ == old(plan)@ + quiet_steps(list@),
{
    let ghost start = plan@;
    let mut i: usize = 0;
    assert(start + quiet_steps(list@).take(0) =~= start);
    while i < list.len()
        invariant
            i <= list@.len(),
            plan@ == start + quiet_steps(list@).take(i as int),
        decreases list@.len() - i,
    {
        plan.push((Op::Run, Weight::Try, 99, 0, list[i], "", ""));
        i += 1;
        assert(plan@ =~= start + quiet_steps(list@).take(i as int));
    }
    assert(quiet_steps(list@).take(i as int) =~= quiet_steps(list@));
}

/// Whether some steps stand together in a plan.
pub open spec fn stands_in(part: Seq<Row>, plan: Seq<Row>) -> bool {
    exists|k: int|
        0 <= k && k + part.len() <= plan.len() && part == #[trigger] plan.subrange(
            k,
            k + part.len(),
        )
}

pub proof fn lemma_stands_between(before: Seq<Row>, part: Seq<Row>, after: Seq<Row>)
    ensures
        stands_in(part, before + part + after),
{
    let plan = before + part + after;
    let k = before.len() as int;
    assert(part =~= plan.subrange(k, k + part.len()));
}

pub proof fn lemma_stands_within(part: Seq<Row>, middle: Seq<Row>, before: Seq<Row>, after: Seq<Row>)
    requires
        stands_in(part, middle),
    ensures
        stands_in(part, before + middle + after),
{
    let k = choose|k: int|
        0 <= k && k + part.len() <= middle.len() && part == #[trigger] middle.subrange(
            k,
            k + part.len(),
        );
    let plan = before + middle + after;
    let from = before.len() + k;
    assert(plan.subrange(from, from + part.len()) =~= middle.subrange(k, k + part.len()));
}

/// Every step moves on.
pub proof fn lemma_step_moves_on(plan: Seq<Row>, c: Course)
    requires
        0 <= c.at < plan.len(),
        class(plan[c.at].0) != Class::Action,
    ensures
        step(plan, c).at > c.at,
{
}

proof fn lemma_settle_moves_on(plan: Seq<Row>, c: Course)
    ensures
        settle(plan, c).at >= c.at,
    decreases plan.len() - c.at,
{
    if !(c.at < 0 || c.at >= plan.len() || class(plan[c.at].0) == Class::Action) {
        lemma_step_moves_on(plan, c);
        lemma_settle_moves_on(plan, step(plan, c));
    }
}

} // verus!
