//! The tests a probe makes on what it has observed.
use vstd::prelude::*;
use vstd::string::*;

use crate::grid::{
    cell_by_col, cell_by_col_spec, column_at, column_at_of, counted, grid_columns, grid_model,
    grid_rows, grid_rows_of, grid_view, heading, kind_at, kind_code, kind_in, kind_label, kind_name,
    kind_of, named_cell, named_cell_of, same_table, select_start_sql, single_count, table,
    updated_rows, updated_rows_of, uppers, uppers_of,
};
use crate::import_verdict::{
    import_holds, import_own_text, import_own_words, import_test, table_holds, table_test,
};
use crate::op::{
    class, class_of, isolation_at, isolation_code, mode_at, mode_code, Class, Op,
    DEFAULT_LEVEL_SLOT,
};
use crate::progress::{
    finished_event, finished_flag, first_cell, first_cell_spec, first_error, first_error_spec,
    lines, lines_of, mode_changes, mode_changes_of, result_messages, results, results_of, rows,
    script_messages, transcript, transcript_of, QueryProgress, QueryResult, SqlValueKind,
    TransactionIsolation, TransactionMode,
};
use crate::routine::{
    does_list, does_list_name, given_names, given_names_of, listed_spelling, listed_spelling_of,
    lists, lists_name, over_limit, over_limit_name, RoutineDefinitionLookup,
};
use crate::screen_verdict::{screen_holds, screen_own_text, screen_own_words, screen_test};
use crate::seen::{
    at, events, holds_snapshot, pick, picked, reads, reads_of, text_in, text_of_seen, words,
    words_of, Preflight, Retained, Seen, SessionState, Which,
};
use crate::text::{
    begins_with, contains, ends, ends_with, fields, finds, integer_value, join, joined,
    lemma_split_has_one, mentions, mentions_any, parse_integer, same, same_but_case,
    same_ignoring_case, same_texts, spaced, spaced_text, split, split_fields, split_on, starts,
    to_upper, trim, trim_start, trimmed, trimmed_start, upper, views,
};

verus! {

/// A statement was refused: at least so many statements finished, the one in
/// question failed, and its message holds one of the phrases.
pub open spec fn refused(
    which: Which,
    run: Seq<QueryProgress>,
    at_least: int,
    phrases: Seq<char>,
) -> bool {
    &&& results(run).len() >= at_least
    &&& match picked(which, results(run)) {
        Some(result) => !result.success && mentions_any(result.message@, phrases),
        None => false,
    }
}

pub fn is_refused(which: Which, run: &Vec<QueryProgress>, at_least: usize, phrases: &str) -> (r:
    bool)
    ensures
        r == refused(which, run@, at_least as int, phrases@),
{
    if results_of(run).len() < at_least {
        return false;
    }
    match pick(which, run) {
        Some(result) => !result.success && mentions(result.message.as_str(), phrases),
        None => false,
    }
}

/// What is asked of every finished statement.
#[derive(Clone, Copy, PartialEq, Eq, Structural)]
pub enum Each {
    Succeeded,
    Failed,
    SucceededOrSilent,
}

pub open spec fn meets(each: Each, result: QueryResult) -> bool {
    match each {
        Each::Succeeded => result.success,
        Each::Failed => !result.success,
        Each::SucceededOrSilent => result.success || result.message@.len() == 0,
    }
}

/// Every finished statement meets it, and there are at least so many.
pub open spec fn all_meet(each: Each, rs: Seq<QueryResult>, at_least: int) -> bool {
    rs.len() >= at_least && forall|i: int| 0 <= i < rs.len() ==> meets(each, #[trigger] rs[i])
}

pub fn do_all_meet(each: Each, run: &Vec<QueryProgress>, at_least: usize) -> (r: bool)
    ensures
        r == all_meet(each, results(run@), at_least as int),
{
    let all = results_of(run);
    let ghost rs = results(run@);
    if all.len() < at_least {
        return false;
    }
    let mut i: usize = 0;
    while i < all.len()
        invariant
            i <= all@.len(),
            all@.len() == rs.len(),
            forall|k: int| 0 <= k < all@.len() ==> *all@[k] == #[trigger] rs[k],
            forall|k: int| 0 <= k < i ==> meets(each, #[trigger] rs[k]),
            rs == results(run@),
        decreases all@.len() - i,
    {
        let result = all[i];
        assert(*result == rs[i as int]);
        let fine = match each {
            Each::Succeeded => result.success,
            Each::Failed => !result.success,
            Each::SucceededOrSilent => result.success || result.message.as_str().is_empty(),
        };
        if !fine {
            return false;
        }
        i += 1;
    }
    true
}

/// Some failed statement's message, upper-cased, holds the phrase.
pub open spec fn failure_says(rs: Seq<QueryResult>, phrase: Seq<char>) -> bool {
    exists|i: int|
        0 <= i < rs.len() && !(#[trigger] rs[i]).success && contains(upper(rs[i].message@), phrase)
}

pub fn does_failure_say(run: &Vec<QueryProgress>, phrase: &str) -> (r: bool)
    ensures
        r == failure_says(results(run@), phrase@),
{
    let all = results_of(run);
    let ghost rs = results(run@);
    let mut i: usize = 0;
    while i < all.len()
        invariant
            i <= all@.len(),
            all@.len() == rs.len(),
            rs == results(run@),
            forall|k: int| 0 <= k < all@.len() ==> *all@[k] == #[trigger] rs[k],
            forall|k: int|
                0 <= k < i ==> !(!(#[trigger] rs[k]).success && contains(
                    upper(rs[k].message@),
                    phrase@,
                )),
        decreases all@.len() - i,
    {
        let result = all[i];
        assert(*result == rs[i as int]);
        if !result.success && finds(to_upper(result.message.as_str()).as_str(), phrase) {
            return true;
        }
        i += 1;
    }
    false
}

/// Some finished statement's text, upper-cased, holds the phrase.
pub open spec fn statement_holds(rs: Seq<QueryResult>, phrase: Seq<char>) -> bool {
    exists|i: int| 0 <= i < rs.len() && contains(upper((#[trigger] rs[i]).sql@), phrase)
}

pub fn does_statement_hold(run: &Vec<QueryProgress>, phrase: &str) -> (r: bool)
    ensures
        r == statement_holds(results(run@), phrase@),
{
    let all = results_of(run);
    let ghost rs = results(run@);
    let mut i: usize = 0;
    while i < all.len()
        invariant
            i <= all@.len(),
            all@.len() == rs.len(),
            rs == results(run@),
            forall|k: int| 0 <= k < all@.len() ==> *all@[k] == #[trigger] rs[k],
            forall|k: int| 0 <= k < i ==> !contains(upper((#[trigger] rs[k]).sql@), phrase@),
        decreases all@.len() - i,
    {
        let result = all[i];
        assert(*result == rs[i as int]);
        if finds(to_upper(result.sql.as_str()).as_str(), phrase) {
            return true;
        }
        i += 1;
    }
    false
}

/// Some message line holds the phrase.
pub open spec fn line_holds(all: Seq<String>, phrase: Seq<char>) -> bool {
    exists|i: int| 0 <= i < all.len() && contains((#[trigger] all[i])@, phrase)
}

pub fn does_line_hold(run: &Vec<QueryProgress>, phrase: &str) -> (r: bool)
    ensures
        r == line_holds(lines(run@), phrase@),
{
    let all = lines_of(run);
    let ghost ls = lines(run@);
    let mut i: usize = 0;
    while i < all.len()
        invariant
            i <= all@.len(),
            all@.len() == ls.len(),
            ls == lines(run@),
            forall|k: int| 0 <= k < all@.len() ==> *all@[k] == #[trigger] ls[k],
            forall|k: int| 0 <= k < i ==> !contains((#[trigger] ls[k])@, phrase@),
        decreases all@.len() - i,
    {
        assert(*all@[i as int] == ls[i as int]);
        if finds(all[i].as_str(), phrase) {
            return true;
        }
        i += 1;
    }
    false
}

/// Whether a save that waits for its result can tell this one is it: by the
/// request's tag, or else by the statement.
pub open spec fn matchable(result: QueryResult, arg: Seq<char>) -> bool {
    let parts = split_on(arg, '|');
    &&& parts.len() == 2
    &&& (contains(result.sql@, parts[0]) || contains(result.message@, parts[0]) || contains(
        upper(result.sql@),
        upper(parts[1]),
    ))
}

pub fn is_matchable(result: &QueryResult, arg: &str) -> (r: bool)
    ensures
        r == matchable(*result, arg@),
{
    let parts = split(arg, '|');
    let ghost pieces = split_on(arg@, '|');
    assert(views(parts@) == pieces);
    if parts.len() != 2 {
        return false;
    }
    assert(parts@[0]@ == pieces[0]);
    assert(parts@[1]@ == pieces[1]);
    finds(result.sql.as_str(), parts[0].as_str()) || finds(
        result.message.as_str(),
        parts[0].as_str(),
    ) || finds(to_upper(result.sql.as_str()).as_str(), to_upper(parts[1].as_str()).as_str())
}

/// Whether a line of the transcript holds a phrase.
pub fn is_told_of(run: &Vec<QueryProgress>, phrase: &str) -> (r: bool)
    ensures
        r == line_holds(transcript(run@), phrase@),
{
    let all = transcript_of(run);
    let ghost ls = transcript(run@);
    let mut i: usize = 0;
    while i < all.len()
        invariant
            i <= all@.len(),
            all@.len() == ls.len(),
            ls == transcript(run@),
            forall|k: int| 0 <= k < all@.len() ==> *all@[k] == #[trigger] ls[k],
            forall|k: int| 0 <= k < i ==> !contains((#[trigger] ls[k])@, phrase@),
        decreases all@.len() - i,
    {
        assert(*all@[i as int] == ls[i as int]);
        if finds(all[i].as_str(), phrase) {
            return true;
        }
        i += 1;
    }
    false
}

fn do_run(memory: &Vec<Seen>, from: usize, to: usize) -> (r: bool)
    ensures
        r == forall|k: int| from <= k <= to ==> (#[trigger] at(memory@, k)) is Run,
{
    let nothing = Seen::Nothing;
    let mut i: usize = from;
    while i <= to
        invariant
            *(&nothing) is Nothing,
            from <= i,
            i <= to || i == to + 1 || from > to,
            forall|k: int| from <= k < i ==> (#[trigger] at(memory@, k)) is Run,
        decreases to - i + 1,
    {
        let fine = match look(memory, i, &nothing) {
            Seen::Run(_) => true,
            _ => false,
        };
        assert(fine == (at(memory@, i as int) is Run));
        if !fine {
            return false;
        }
        if i == to {
            return true;
        }
        i += 1;
    }
    true
}

/// The level a text spells: trimmed, separators and runs of blanks as one
/// blank, upper case.
pub open spec fn level_name(s: Seq<char>) -> Seq<char> {
    upper(joined(fields(spaced(trim(s))), " "@))
}

pub fn level_name_of(s: &str) -> (r: String)
    ensures
        r@ == level_name(s@),
{
    let bare = trimmed(s);
    let blank = spaced_text(bare.as_str());
    let parts = split_fields(blank.as_str());
    to_upper(join(&parts, " ").as_str())
}

/// Whether a session's isolation value and the app's label for a level are the
/// same level: compared on separators and case.
pub fn isolation_value_matches(session_value: &str, expected_label: &str) -> (r: bool)
    ensures
        r == (level_name(session_value@) == level_name(expected_label@)),
{
    let a = level_name_of(session_value);
    let b = level_name_of(expected_label);
    same(a.as_str(), b.as_str())
}

/// The last two of a list of numbers.
pub open spec fn last_two(reads: Seq<i64>) -> Option<(i64, i64)> {
    if reads.len() >= 2 { Some((reads[reads.len() - 2], reads[reads.len() - 1])) } else { None }
}

/// The last two of a list of numbers.
pub fn last_pair(reads: &Vec<i64>) -> (r: Option<(i64, i64)>)
    ensures
        r == last_two(reads@),
{
    let n: usize = reads.len();
    if n >= 2 {
        Some((reads[n - 2], reads[n - 1]))
    } else {
        None
    }
}

/// The number an observation spells.
pub open spec fn number(seen: Seen) -> Option<int> {
    integer_value(trim(words(seen)))
}

/// The numbers a run read.
pub open spec fn numbers(seen: Seen) -> Seq<i64> {
    reads(rows(events(seen)))
}

/// Whether an observation says yes.
pub open spec fn flag(seen: Seen) -> bool {
    match seen {
        Seen::Flag(b) => b,
        Seen::Outcome { applied, shown } => applied,
        _ => false,
    }
}

pub fn is_flag(seen: &Seen) -> (r: bool)
    ensures
        r == flag(*seen),
{
    match seen {
        Seen::Flag(b) => *b,
        Seen::Outcome { applied, .. } => *applied,
        _ => false,
    }
}

/// Work the tab has not committed.
pub open spec fn dirty(seen: Seen) -> bool {
    seen matches Seen::Retained { state, shown } && state matches Some(r) && r.uncommitted_work
}

/// Nothing left of a transaction on the session, or no session.
pub open spec fn resolved(seen: Seen) -> bool {
    match seen {
        Seen::Retained { state: Some(r), shown } => !r.uncommitted_work && !r.requires_decision
            && !r.mode_override,
        Seen::Retained { state: None, shown } => true,
        _ => false,
    }
}

/// A session the app still wants resolved.
pub open spec fn residue(seen: Seen) -> bool {
    seen matches Seen::Retained { state, shown } && state matches Some(r) && (r.mode_override
        || r.requires_decision)
}

pub open spec fn pinned(seen: Seen) -> Option<TransactionMode> {
    match seen {
        Seen::Mode { mode, shown } => mode,
        _ => None,
    }
}

/// Tests on the statements of a run.
pub open spec fn run_holds(op: Op, slot: int, other: int, arg: Seq<char>, memory: Seq<Seen>) -> bool {
    let seen = at(memory, slot);
    let second = at(memory, other);
    let run = events(seen);
    match op {
        Op::FirstRefused => refused(Which::First, run, other, arg),
        Op::LastRefused => refused(Which::Last, run, other, arg),
        Op::InsertRefused => refused(Which::Insert, run, other, arg),
        Op::AnyCaseInsertRefused => refused(Which::AnyCaseInsert, run, other, arg),
        Op::FirstFailed => results(run).len() > 0 && !results(run)[0].success,
        Op::FirstSucceeded => results(run).len() > 0 && results(run)[0].success,
        Op::FirstNotFailed => results(run).len() == 0 || results(run)[0].success,
        Op::InsertFinished => picked(Which::Insert, results(run)) is Some,
        Op::Finished => results(run).len() > 0,
        Op::LastSucceeded => results(run).len() > 0 && results(run).last().success,
        Op::LastFailed => results(run).len() > 0 && !results(run).last().success,
        Op::LastSays => results(run).len() > 0 && mentions_any(results(run).last().message@, arg),
        Op::NotCancelled => finished_flag(run) != Some(true),
        Op::NoFailure => first_error_spec(run) is None,
        Op::ScriptSays => contains(joined(result_messages(results(run)), " || "@), arg),
        Op::CellIs => first_cell_spec(run) == Some(arg),
        Op::QuerySucceeded => picked(Which::Query, results(run)) matches Some(result)
            && result.success,
        Op::AllSucceeded => all_meet(Each::Succeeded, results(run), other),
        Op::NoneSucceeded => all_meet(Each::Failed, results(run), 0),
        Op::AllSucceededOrSilent => all_meet(Each::SucceededOrSilent, results(run), 0),
        Op::SomethingFailed => !all_meet(Each::Succeeded, results(run), 0) || line_holds(
            lines(run),
            arg,
        ),
        Op::NoFailureSays => !failure_says(results(run), arg),
        Op::NoStatementHolds => !statement_holds(results(run), arg),
        Op::NothingRan => seen is Run && run.len() == 0,
        Op::DidNotRun => !(seen is Run) || run.len() == 0 || first_error_spec(run) is Some,
        Op::LastNotQuery => results(run).len() > 0 && !results(run).last().is_select,
        Op::Matchable => results(run).len() > 0 && matchable(results(run).last(), arg),
        Op::ToldOf => line_holds(transcript(run), arg),
        Op::StillWorks => seen is Run && !line_holds(transcript(run), arg),
        Op::RunsFine => forall|k: int| slot <= k <= other ==> (#[trigger] at(memory, k)) is Run,
        Op::FirstWorkedIs => (results(run).len() > 0 && results(run)[0].success) == (other == 1),
        _ => false,
    }
}

/// Tests on transaction modes.
pub open spec fn mode_holds(op: Op, slot: int, other: int, arg: Seq<char>, memory: Seq<Seen>) -> bool {
    let seen = at(memory, slot);
    let second = at(memory, other);
    let run = events(seen);
    match op {
        Op::NoModeChange => mode_changes(run).len() == 0,
        Op::SomeModeChange => exists|i: int|
            0 <= i < mode_changes(run).len() && (#[trigger] mode_changes(run)[i]).isolation
                == isolation_code(other),
        Op::LastModeChange => mode_changes(run).len() > 0 && mode_changes(run).last() == mode_code(
            other,
        ),
        Op::PinnedIsolation => pinned(seen) matches Some(mode) && mode.isolation == isolation_code(
            other,
        ),
        Op::PinnedMode => pinned(seen) == Some(mode_code(other)),
        Op::Unpinned => pinned(seen) is None,
        Op::UnpinnedAndQuiet => pinned(seen) is None && mode_changes(events(second)).len() == 0,
        Op::SameMode => pinned(seen) == pinned(second),
        Op::LevelIs => level_name(words(seen)) == level_name(words(second)),
        Op::LikeDefault => (number(seen) == number(second)) == (at(
            memory,
            DEFAULT_LEVEL_SLOT as int,
        ) matches Seen::Isolation { isolation, label } && holds_snapshot(isolation)),
        _ => false,
    }
}

/// Tests on texts.
pub open spec fn word_holds(op: Op, slot: int, other: int, arg: Seq<char>, memory: Seq<Seen>) -> bool {
    let seen = at(memory, slot);
    let second = at(memory, other);
    let run = events(seen);
    match op {
        Op::ScalarIs => trim(words(seen)) == arg,
        Op::ScalarIsNot => trim(words(seen)) != arg,
        Op::ScalarsAre => split_on(arg, '|').len() == 2 && trim(words(seen)) == split_on(
            arg,
            '|',
        )[0] && trim(words(second)) == split_on(arg, '|')[1],
        Op::ScalarOn => trim(words(seen)) == "1"@ || trim(words(seen)) == "ON"@,
        Op::SameTrimmed => trim(words(seen)) == trim(words(second)),
        Op::SameWords => words(seen) == words(second),
        Op::WordsAre => words(seen) == arg,
        Op::WordsAreNot => words(seen) != arg,
        Op::WordsHold => contains(words(seen), arg),
        Op::WordsLack => !contains(words(seen), arg),
        Op::NamedAs => same_ignoring_case(trim(words(seen)), arg),
        Op::SpelledAs => same_ignoring_case(spaced(words(seen)), spaced(arg)),
        Op::NotSpelledAs => !same_ignoring_case(spaced(words(seen)), spaced(arg)),
        Op::UpperHolds => contains(upper(words(seen)), arg),
        Op::TextAbsent => seen is Absent,
        Op::TextPresent => seen is Text,
        _ => false,
    }
}

/// Tests on numbers.
pub open spec fn number_holds(op: Op, slot: int, other: int, arg: Seq<char>, memory: Seq<Seen>) -> bool {
    let seen = at(memory, slot);
    let second = at(memory, other);
    let run = events(seen);
    match op {
        Op::NumberIs => number(seen) == Some(other),
        Op::NumberAtLeast => number(seen) matches Some(n) && n >= other,
        Op::SameNumber => number(seen) is Some && number(seen) == number(second),
        Op::OneMore => number(seen) matches Some(a) && number(second) matches Some(b) && b == a + 1,
        Op::More => number(seen) matches Some(a) && number(second) matches Some(b) && b > a,
        Op::AtMost => number(seen) matches Some(a) && number(second) matches Some(b) && a <= b,
        Op::IsNumber => number(seen) is Some,
        Op::LastPairSame => last_two(numbers(seen)) matches Some((a, b)) && a == b,
        Op::AboveLastPair => integer_value(trim(words(seen))) matches Some(now) && last_two(
            numbers(second),
        ) matches Some((first, _)) && now > first,
        _ => false,
    }
}

/// Tests on the state of a tab's session.
pub open spec fn state_holds(op: Op, slot: int, other: int, arg: Seq<char>, memory: Seq<Seen>) -> bool {
    let seen = at(memory, slot);
    let second = at(memory, other);
    let run = events(seen);
    match op {
        Op::Dirty => dirty(seen),
        Op::Resolved => resolved(seen),
        Op::Residue => residue(seen),
        Op::Applied => seen matches Seen::Outcome { applied, shown } && applied,
        Op::StateDirty => seen matches Seen::State { session, shown } && session matches Some(state)
            && (state is MaybeDirty || state is BlockedDirty || state is DecisionRequired),
        Op::StateResolved => seen matches Seen::State { session, shown } && (session is None
            || session == Some(SessionState::Clean)),
        Op::NothingRetained => seen matches Seen::Retained { state, shown } && state is None,
        Op::NotYes => seen != Seen::Flag(true),
        Op::FlagIs => seen is Flag && flag(seen) == (other == 1),
        Op::BothFlags => flag(seen) && flag(second),
        Op::MustResolve => seen matches Seen::Decision { decision, shown } && decision == Some(
            Preflight::RequireResolution,
        ),
        Op::MayChange => seen matches Seen::Decision { decision, shown } && (decision is None
            || decision == Some(Preflight::Allow)),
        _ => false,
    }
}

/// Tests on result grids.
pub open spec fn grid_holds(
    op: Op,
    slot: int,
    other: int,
    arg: Seq<char>,
    memory: Seq<Seen>,
) -> bool {
    let seen = at(memory, slot);
    let second = at(memory, other);
    let run = events(seen);
    match op {
        Op::GridOpened => grid_model(run) is Some,
        Op::GridRowsAre => grid_rows(run).len() == other,
        Op::HasColumn => column_at(grid_columns(run), arg) is Some,
        Op::KindIs => column_at(grid_columns(run), arg) matches Some(at) && kind_of(run, at)
            == kind_code(other),
        Op::StartSqlSeen => heading(run) is Some,
        Op::LastPartNamed => text_in(seen) matches Some(name) && same_ignoring_case(
            split_on(name, '.').last(),
            arg,
        ),
        Op::GridSame => grid_rows(run) == grid_rows(events(second)),
        Op::GridUpdated => grid_rows(run) == updated_rows(events(second)),
        Op::KeysAre => seen matches Seen::Names(names) && uppers(names@) == split_on(arg, '|'),
        Op::CountIs => counted(run) == Some(other),
        Op::CellFound => cell_by_col_spec(run, arg) matches Some(cell) && cell.len() > 0,
        Op::CellIsNamed => split_on(arg, '|').len() == 2 && named_cell(run, split_on(arg, '|')[0])
            == split_on(arg, '|')[1],
        _ => false,
    }
}

/// Tests on routines and the scripts made for them.
pub open spec fn routine_holds(
    op: Op,
    slot: int,
    other: int,
    arg: Seq<char>,
    memory: Seq<Seen>,
) -> bool {
    let seen = at(memory, slot);
    match op {
        Op::Fetched => !(seen is Failed) && !(seen matches Seen::Lookup(lookup)
            && lookup is Unreadable),
        Op::SomeArguments => arguments(seen).len() > 0,
        Op::ArgumentsAre => arguments(seen).len() == other,
        Op::RefusedBy => seen matches Seen::Failed(error) && contains(error@, arg),
        Op::NamesAre => given_names(arguments(seen)) == (if arg.len() == 0 {
            Seq::empty()
        } else {
            split_on(arg, '|')
        }),
        Op::Lists => split_on(arg, '|').len() == 2 && lists(
            listing(seen),
            split_on(arg, '|')[0],
            split_on(arg, '|')[1],
        ),
        Op::ListsNot => !lists_name(listing(seen), arg),
        Op::ListsNamed => listed_spelling(listing(seen), arg) is Some,
        Op::ListedAs => listed_spelling(listing(seen), arg) == Some(arg),
        Op::Begins => begins_with(trim_start(words(seen)), arg),
        Op::NamesWithinLimit => over_limit(words(seen)) is None,
        Op::OpensScript => seen matches Seen::Delivery(d) && d.alert is None && d.sql is Some,
        Op::OpensNothing => seen matches Seen::Delivery(d) && d.alert is Some && d.sql is None,
        Op::HasScript => seen matches Seen::Delivery(d) && d.sql is Some,
        Op::DeliveredAs => seen matches Seen::Delivery(d) && d.name@ == arg,
        Op::DeliveredKind => seen matches Seen::Delivery(d) && d.kind@ == arg,
        Op::NameEnds => seen matches Seen::Delivery(d) && ends_with(d.name@, arg),
        Op::AlertIs => seen matches Seen::Delivery(d) && d.alert matches Some(alert) && alert@
            == arg,
        _ => false,
    }
}

pub open spec fn arguments(seen: Seen) -> Seq<Option<String>> {
    match seen {
        Seen::Lookup(RoutineDefinitionLookup::Defined(definition)) => definition.arguments@,
        _ => Seq::empty(),
    }
}

pub open spec fn listing(seen: Seen) -> Seq<(String, String)> {
    match seen {
        Seen::Pairs(pairs) => pairs@,
        _ => Seq::empty(),
    }
}

/// What a test on the observations says.
pub open spec fn holds(op: Op, slot: int, other: int, arg: Seq<char>, memory: Seq<Seen>) -> bool {
    match class(op) {
        Class::RunTest => run_holds(op, slot, other, arg, memory),
        Class::ModeTest => mode_holds(op, slot, other, arg, memory),
        Class::WordTest => word_holds(op, slot, other, arg, memory),
        Class::NumberTest => number_holds(op, slot, other, arg, memory),
        Class::GridTest => grid_holds(op, slot, other, arg, memory),
        Class::ImportTest => import_holds(op, slot, other, arg, memory),
        Class::TableTest => table_holds(op, slot, other, arg, memory),
        Class::RoutineTest => routine_holds(op, slot, other, arg, memory),
        Class::StateTest => state_holds(op, slot, other, arg, memory),
        Class::ScreenTest => screen_holds(op, slot, other, arg, memory),
        _ => false,
    }
}

/// The observation in a slot.
pub fn look<'a>(memory: &'a Vec<Seen>, slot: usize, nothing: &'a Seen) -> (r: &'a Seen)
    requires
        *nothing is Nothing,
    ensures
        *r == at(memory@, slot as int),
{
    if slot < memory.len() {
        &memory[slot]
    } else {
        nothing
    }
}

/// The events of a run; none where something else was observed.
pub fn events_in<'a>(seen: &'a Seen, none: &'a Vec<QueryProgress>) -> (r: &'a Vec<QueryProgress>)
    requires
        none@.len() == 0,
    ensures
        r@ == events(*seen),
{
    match seen {
        Seen::Run(run) => run,
        _ => {
            assert(none@ =~= Seq::empty());
            none
        },
    }
}

fn some_mode_change(run: &Vec<QueryProgress>, isolation: TransactionIsolation) -> (r: bool)
    ensures
        r == exists|i: int|
            0 <= i < mode_changes(run@).len() && (#[trigger] mode_changes(run@)[i]).isolation
                == isolation,
{
    let all = mode_changes_of(run);
    let mut i: usize = 0;
    while i < all.len()
        invariant
            i <= all@.len(),
            all@ == mode_changes(run@),
            forall|k: int|
                0 <= k < i ==> (#[trigger] mode_changes(run@)[k]).isolation != isolation,
        decreases all@.len() - i,
    {
        if all[i].isolation == isolation {
            assert(mode_changes(run@)[i as int].isolation == isolation);
            return true;
        }
        i += 1;
    }
    false
}

fn pinned_in(seen: &Seen) -> (r: Option<TransactionMode>)
    ensures
        r == pinned(*seen),
{
    match seen {
        Seen::Mode { mode, .. } => *mode,
        _ => None,
    }
}

fn same_pin(a: Option<TransactionMode>, b: Option<TransactionMode>) -> (r: bool)
    ensures
        r == (a == b),
{
    match (a, b) {
        (Some(x), Some(y)) => x == y,
        (None, None) => true,
        _ => false,
    }
}

fn number_in(seen: &Seen) -> (r: Option<i64>)
    ensures
        r is Some <==> number(*seen) is Some,
        r matches Some(n) ==> number(*seen) == Some(n as int),
{
    match parse_integer(trimmed(words_of(seen).as_str()).as_str()) {
        Ok(n) => Some(n),
        Err(_) => None,
    }
}

fn retained_in(seen: &Seen) -> (r: Option<Option<Retained>>)
    ensures
        match *seen {
            Seen::Retained { state, shown } => r == Some(state),
            _ => r is None,
        },
{
    match seen {
        Seen::Retained { state, .. } => Some(*state),
        _ => None,
    }
}

fn decision_in(seen: &Seen) -> (r: Option<Option<Preflight>>)
    ensures
        match *seen {
            Seen::Decision { decision, shown } => r == Some(decision),
            _ => r is None,
        },
{
    match seen {
        Seen::Decision { decision, .. } => Some(*decision),
        _ => None,
    }
}

fn run_test(op: Op, slot: usize, other: usize, arg: &str, memory: &Vec<Seen>) -> (r: bool)
    ensures
        r == run_holds(op, slot as int, other as int, arg@, memory@),
{
    let nothing = Seen::Nothing;
    let none: Vec<QueryProgress> = Vec::new();
    let seen = look(memory, slot, &nothing);
    let second = look(memory, other, &nothing);
    let run = events_in(seen, &none);
    match op {
        Op::FirstRefused => is_refused(Which::First, run, other, arg),
        Op::LastRefused => is_refused(Which::Last, run, other, arg),
        Op::InsertRefused => is_refused(Which::Insert, run, other, arg),
        Op::AnyCaseInsertRefused => is_refused(Which::AnyCaseInsert, run, other, arg),
        Op::FirstFailed => match pick(Which::First, run) {
            Some(result) => !result.success,
            None => false,
        },
        Op::FirstSucceeded => match pick(Which::First, run) {
            Some(result) => result.success,
            None => false,
        },
        Op::FirstNotFailed => match pick(Which::First, run) {
            Some(result) => result.success,
            None => true,
        },
        Op::InsertFinished => pick(Which::Insert, run).is_some(),
        Op::Finished => results_of(run).len() > 0,
        Op::LastSucceeded => match pick(Which::Last, run) {
            Some(result) => result.success,
            None => false,
        },
        Op::LastFailed => match pick(Which::Last, run) {
            Some(result) => !result.success,
            None => false,
        },
        Op::LastSays => match pick(Which::Last, run) {
            Some(result) => mentions(result.message.as_str(), arg),
            None => false,
        },
        Op::NotCancelled => match finished_event(run) {
            Some(cancelled) => !cancelled,
            None => true,
        },
        Op::NoFailure => first_error(run).is_none(),
        Op::ScriptSays => finds(script_messages(run).as_str(), arg),
        Op::CellIs => match first_cell(run) {
            Some(cell) => same(cell.as_str(), arg),
            None => false,
        },
        Op::QuerySucceeded => match pick(Which::Query, run) {
            Some(result) => result.success,
            None => false,
        },
        Op::AllSucceeded => do_all_meet(Each::Succeeded, run, other),
        Op::NoneSucceeded => do_all_meet(Each::Failed, run, 0),
        Op::AllSucceededOrSilent => do_all_meet(Each::SucceededOrSilent, run, 0),
        Op::SomethingFailed => !do_all_meet(Each::Succeeded, run, 0) || does_line_hold(run, arg),
        Op::NoFailureSays => !does_failure_say(run, arg),
        Op::NoStatementHolds => !does_statement_hold(run, arg),
        Op::NothingRan => match seen {
            Seen::Run(events) => events.len() == 0,
            _ => false,
        },
        Op::DidNotRun => match seen {
            Seen::Run(events) => events.len() == 0 || first_error(events).is_some(),
            _ => true,
        },
        Op::LastNotQuery => match pick(Which::Last, run) {
            Some(result) => !result.is_select,
            None => false,
        },
        Op::Matchable => match pick(Which::Last, run) {
            Some(result) => is_matchable(result, arg),
            None => false,
        },
        Op::ToldOf => is_told_of(run, arg),
        Op::StillWorks => match seen {
            Seen::Run(events) => !is_told_of(events, arg),
            _ => false,
        },
        Op::RunsFine => do_run(memory, slot, other),
        Op::FirstWorkedIs => match pick(Which::First, run) {
            Some(result) => result.success == (other == 1),
            None => other != 1,
        },
        _ => false,
    }
}

fn mode_test(op: Op, slot: usize, other: usize, arg: &str, memory: &Vec<Seen>) -> (r: bool)
    ensures
        r == mode_holds(op, slot as int, other as int, arg@, memory@),
{
    let nothing = Seen::Nothing;
    let none: Vec<QueryProgress> = Vec::new();
    let seen = look(memory, slot, &nothing);
    let second = look(memory, other, &nothing);
    let run = events_in(seen, &none);
    match op {
        Op::NoModeChange => mode_changes_of(run).len() == 0,
        Op::SomeModeChange => some_mode_change(run, isolation_at(other)),
        Op::LastModeChange => {
            let all = mode_changes_of(run);
            all.len() > 0 && all[all.len() - 1] == mode_at(other)
        },
        Op::PinnedIsolation => match pinned_in(seen) {
            Some(mode) => mode.isolation == isolation_at(other),
            None => false,
        },
        Op::PinnedMode => same_pin(pinned_in(seen), Some(mode_at(other))),
        Op::Unpinned => pinned_in(seen).is_none(),
        Op::UnpinnedAndQuiet => pinned_in(seen).is_none() && mode_changes_of(
            events_in(second, &none),
        ).len() == 0,
        Op::SameMode => same_pin(pinned_in(seen), pinned_in(second)),
        Op::LevelIs => isolation_value_matches(
            words_of(seen).as_str(),
            words_of(second).as_str(),
        ),
        Op::LikeDefault => {
            let agree = match (number_in(seen), number_in(second)) {
                (Some(a), Some(b)) => a == b,
                (None, None) => true,
                _ => false,
            };
            let held = match look(memory, DEFAULT_LEVEL_SLOT, &nothing) {
                Seen::Isolation { isolation: TransactionIsolation::RepeatableRead, .. } => true,
                Seen::Isolation { isolation: TransactionIsolation::Serializable, .. } => true,
                _ => false,
            };
            agree == held
        },
        _ => false,
    }
}

fn word_test(op: Op, slot: usize, other: usize, arg: &str, memory: &Vec<Seen>) -> (r: bool)
    ensures
        r == word_holds(op, slot as int, other as int, arg@, memory@),
{
    let nothing = Seen::Nothing;
    let none: Vec<QueryProgress> = Vec::new();
    let seen = look(memory, slot, &nothing);
    let second = look(memory, other, &nothing);
    let run = events_in(seen, &none);
    match op {
        Op::ScalarIs => same(trimmed(words_of(seen).as_str()).as_str(), arg),
        Op::ScalarIsNot => !same(trimmed(words_of(seen).as_str()).as_str(), arg),
        Op::ScalarsAre => {
            let parts = split(arg, '|');
            let ghost pieces = split_on(arg@, '|');
            assert(views(parts@) == pieces);
            if parts.len() == 2 {
                assert(parts@[0]@ == pieces[0]);
                assert(parts@[1]@ == pieces[1]);
                same(trimmed(words_of(seen).as_str()).as_str(), parts[0].as_str()) && same(
                    trimmed(words_of(second).as_str()).as_str(),
                    parts[1].as_str(),
                )
            } else {
                false
            }
        },
        Op::ScalarOn => {
            let bare = trimmed(words_of(seen).as_str());
            same(bare.as_str(), "1") || same(bare.as_str(), "ON")
        },
        Op::SameTrimmed => same(
            trimmed(words_of(seen).as_str()).as_str(),
            trimmed(words_of(second).as_str()).as_str(),
        ),
        Op::SameWords => same(words_of(seen).as_str(), words_of(second).as_str()),
        Op::WordsAre => same(words_of(seen).as_str(), arg),
        Op::WordsAreNot => !same(words_of(seen).as_str(), arg),
        Op::WordsHold => finds(words_of(seen).as_str(), arg),
        Op::WordsLack => !finds(words_of(seen).as_str(), arg),
        Op::NamedAs => same_but_case(trimmed(words_of(seen).as_str()).as_str(), arg),
        Op::SpelledAs => same_but_case(
            spaced_text(words_of(seen).as_str()).as_str(),
            spaced_text(arg).as_str(),
        ),
        Op::NotSpelledAs => !same_but_case(
            spaced_text(words_of(seen).as_str()).as_str(),
            spaced_text(arg).as_str(),
        ),
        Op::UpperHolds => finds(to_upper(words_of(seen).as_str()).as_str(), arg),
        Op::TextAbsent => match seen {
            Seen::Absent => true,
            _ => false,
        },
        Op::TextPresent => match seen {
            Seen::Text(_) => true,
            _ => false,
        },
        _ => false,
    }
}

fn number_test(op: Op, slot: usize, other: usize, arg: &str, memory: &Vec<Seen>) -> (r: bool)
    ensures
        r == number_holds(op, slot as int, other as int, arg@, memory@),
{
    let nothing = Seen::Nothing;
    let none: Vec<QueryProgress> = Vec::new();
    let seen = look(memory, slot, &nothing);
    let second = look(memory, other, &nothing);
    let run = events_in(seen, &none);
    match op {
        Op::NumberIs => match number_in(seen) {
            Some(n) => n >= 0 && n as u64 == other as u64,
            None => false,
        },
        Op::NumberAtLeast => match number_in(seen) {
            Some(n) => n >= 0 && n as u64 >= other as u64,
            None => false,
        },
        Op::SameNumber => match (number_in(seen), number_in(second)) {
            (Some(a), Some(b)) => a == b,
            _ => false,
        },
        Op::OneMore => match (number_in(seen), number_in(second)) {
            (Some(a), Some(b)) => a < i64::MAX && b == a + 1,
            _ => false,
        },
        Op::More => match (number_in(seen), number_in(second)) {
            (Some(a), Some(b)) => b > a,
            _ => false,
        },
        Op::AtMost => match (number_in(seen), number_in(second)) {
            (Some(a), Some(b)) => a <= b,
            _ => false,
        },
        Op::IsNumber => number_in(seen).is_some(),
        Op::LastPairSame => match last_pair(&reads_of(run)) {
            Some((a, b)) => a == b,
            None => false,
        },
        Op::AboveLastPair => match parse_integer(trimmed(words_of(seen).as_str()).as_str()) {
            Ok(now) => match last_pair(&reads_of(events_in(second, &none))) {
                Some((first, _)) => now > first,
                None => false,
            },
            Err(_) => false,
        },
        _ => false,
    }
}

fn state_test(op: Op, slot: usize, other: usize, arg: &str, memory: &Vec<Seen>) -> (r: bool)
    ensures
        r == state_holds(op, slot as int, other as int, arg@, memory@),
{
    let nothing = Seen::Nothing;
    let none: Vec<QueryProgress> = Vec::new();
    let seen = look(memory, slot, &nothing);
    let second = look(memory, other, &nothing);
    let run = events_in(seen, &none);
    match op {
        Op::Dirty => match retained_in(seen) {
            Some(Some(state)) => state.uncommitted_work,
            _ => false,
        },
        Op::Resolved => match retained_in(seen) {
            Some(Some(state)) => !state.uncommitted_work && !state.requires_decision
                && !state.mode_override,
            Some(None) => true,
            None => false,
        },
        Op::Residue => match retained_in(seen) {
            Some(Some(state)) => state.mode_override || state.requires_decision,
            _ => false,
        },
        Op::Applied => match seen {
            Seen::Outcome { applied, .. } => *applied,
            _ => false,
        },
        Op::StateDirty => match seen {
            Seen::State { session: Some(SessionState::MaybeDirty), .. } => true,
            Seen::State { session: Some(SessionState::BlockedDirty), .. } => true,
            Seen::State { session: Some(SessionState::DecisionRequired), .. } => true,
            _ => false,
        },
        Op::StateResolved => match seen {
            Seen::State { session: None, .. } => true,
            Seen::State { session: Some(SessionState::Clean), .. } => true,
            _ => false,
        },
        Op::NothingRetained => match seen {
            Seen::Retained { state: None, .. } => true,
            _ => false,
        },
        Op::NotYes => match seen {
            Seen::Flag(b) => !*b,
            _ => true,
        },
        Op::FlagIs => match seen {
            Seen::Flag(b) => *b == (other == 1),
            _ => false,
        },
        Op::BothFlags => is_flag(seen) && is_flag(second),
        Op::MustResolve => match decision_in(seen) {
            Some(Some(Preflight::RequireResolution)) => true,
            _ => false,
        },
        Op::MayChange => match decision_in(seen) {
            Some(None) => true,
            Some(Some(Preflight::Allow)) => true,
            _ => false,
        },
        _ => false,
    }
}

fn arguments_in<'a>(seen: &'a Seen, none: &'a Vec<Option<String>>) -> (r: &'a Vec<Option<String>>)
    requires
        none@.len() == 0,
    ensures
        r@ == arguments(*seen),
{
    match seen {
        Seen::Lookup(RoutineDefinitionLookup::Defined(definition)) => &definition.arguments,
        _ => {
            assert(none@ =~= Seq::empty());
            none
        },
    }
}

fn listing_in<'a>(seen: &'a Seen, none: &'a Vec<(String, String)>) -> (r: &'a Vec<(String, String)>)
    requires
        none@.len() == 0,
    ensures
        r@ == listing(*seen),
{
    match seen {
        Seen::Pairs(pairs) => pairs,
        _ => {
            assert(none@ =~= Seq::empty());
            none
        },
    }
}

fn grid_test(op: Op, slot: usize, other: usize, arg: &str, memory: &Vec<Seen>) -> (r: bool)
    ensures
        r == grid_holds(op, slot as int, other as int, arg@, memory@),
{
    let nothing = Seen::Nothing;
    let none: Vec<QueryProgress> = Vec::new();
    let seen = look(memory, slot, &nothing);
    let second = look(memory, other, &nothing);
    let run = events_in(seen, &none);
    match op {
        Op::GridOpened => grid_view(run).is_some(),
        Op::GridRowsAre => {
            let rows = grid_rows_of(run);
            assert(table(rows@).len() == rows@.len());
            rows.len() == other
        },
        Op::HasColumn => column_at_of(run, arg).is_some(),
        Op::KindIs => match column_at_of(run, arg) {
            Some(place) => kind_in(run, place) == kind_at(other),
            None => false,
        },
        Op::StartSqlSeen => select_start_sql(run).is_some(),
        Op::LastPartNamed => match text_of_seen(seen) {
            Some(name) => {
                let parts = split(name.as_str(), '.');
                assert(views(parts@) == split_on(name@, '.'));
                proof {
                    lemma_split_has_one(name@, '.');
                }
                assert(parts@.len() == views(parts@).len());
                let last = &parts[parts.len() - 1];
                assert(last@ == split_on(name@, '.').last());
                same_but_case(last.as_str(), arg)
            },
            None => false,
        },
        Op::GridSame => {
            let a = grid_rows_of(run);
            let b = grid_rows_of(events_in(second, &none));
            same_table(&a, &b)
        },
        Op::GridUpdated => {
            let a = grid_rows_of(run);
            let b = updated_rows_of(events_in(second, &none));
            same_table(&a, &b)
        },
        Op::KeysAre => match seen {
            Seen::Names(names) => {
                let raised = uppers_of(names);
                let wanted = split(arg, '|');
                same_texts(&raised, &wanted)
            },
            _ => false,
        },
        Op::CountIs => match single_count(run) {
            Some(n) => n >= 0 && n as u64 == other as u64,
            None => false,
        },
        Op::CellFound => match cell_by_col(run, arg) {
            Some(cell) => !cell.as_str().is_empty(),
            None => false,
        },
        Op::CellIsNamed => {
            let parts = split(arg, '|');
            let ghost pieces = split_on(arg@, '|');
            assert(views(parts@) == pieces);
            if parts.len() == 2 {
                assert(parts@[0]@ == pieces[0]);
                assert(parts@[1]@ == pieces[1]);
                same(named_cell_of(run, parts[0].as_str()).as_str(), parts[1].as_str())
            } else {
                false
            }
        },
        _ => false,
    }
}

fn routine_test(op: Op, slot: usize, other: usize, arg: &str, memory: &Vec<Seen>) -> (r: bool)
    ensures
        r == routine_holds(op, slot as int, other as int, arg@, memory@),
{
    let nothing = Seen::Nothing;
    let seen = look(memory, slot, &nothing);
    let no_arguments: Vec<Option<String>> = Vec::new();
    let no_listing: Vec<(String, String)> = Vec::new();
    match op {
        Op::Fetched => match seen {
            Seen::Failed(_) => false,
            Seen::Lookup(RoutineDefinitionLookup::Unreadable(_)) => false,
            _ => true,
        },
        Op::SomeArguments => arguments_in(seen, &no_arguments).len() > 0,
        Op::ArgumentsAre => arguments_in(seen, &no_arguments).len() == other,
        Op::RefusedBy => match seen {
            Seen::Failed(error) => finds(error.as_str(), arg),
            _ => false,
        },
        Op::NamesAre => {
            let names = given_names_of(arguments_in(seen, &no_arguments));
            if arg.is_empty() {
                assert(views(names@).len() == 0 ==> views(names@) =~= Seq::empty());
                names.len() == 0
            } else {
                let wanted = split(arg, '|');
                same_texts(&names, &wanted)
            }
        },
        Op::Lists => {
            let parts = split(arg, '|');
            let ghost pieces = split_on(arg@, '|');
            assert(views(parts@) == pieces);
            if parts.len() == 2 {
                assert(parts@[0]@ == pieces[0]);
                assert(parts@[1]@ == pieces[1]);
                does_list(listing_in(seen, &no_listing), parts[0].as_str(), parts[1].as_str())
            } else {
                false
            }
        },
        Op::ListsNot => !does_list_name(listing_in(seen, &no_listing), arg),
        Op::ListsNamed => listed_spelling_of(listing_in(seen, &no_listing), arg).is_some(),
        Op::ListedAs => match listed_spelling_of(listing_in(seen, &no_listing), arg) {
            Some(spelling) => same(spelling.as_str(), arg),
            None => false,
        },
        Op::Begins => starts(trimmed_start(words_of(seen).as_str()).as_str(), arg),
        Op::NamesWithinLimit => over_limit_name(words_of(seen).as_str()).is_none(),
        Op::OpensScript => match seen {
            Seen::Delivery(d) => d.alert.is_none() && d.sql.is_some(),
            _ => false,
        },
        Op::OpensNothing => match seen {
            Seen::Delivery(d) => d.alert.is_some() && d.sql.is_none(),
            _ => false,
        },
        Op::HasScript => match seen {
            Seen::Delivery(d) => d.sql.is_some(),
            _ => false,
        },
        Op::DeliveredAs => match seen {
            Seen::Delivery(d) => same(d.name.as_str(), arg),
            _ => false,
        },
        Op::DeliveredKind => match seen {
            Seen::Delivery(d) => same(d.kind.as_str(), arg),
            _ => false,
        },
        Op::NameEnds => match seen {
            Seen::Delivery(d) => ends(d.name.as_str(), arg),
            _ => false,
        },
        Op::AlertIs => match seen {
            Seen::Delivery(d) => match &d.alert {
                Some(alert) => same(alert.as_str(), arg),
                None => false,
            },
            _ => false,
        },
        _ => false,
    }
}

/// Makes a test on what was observed.
pub fn try_test(op: Op, slot: usize, other: usize, arg: &str, memory: &Vec<Seen>) -> (r: bool)
    ensures
        r == holds(op, slot as int, other as int, arg@, memory@),
{
    match class_of(op) {
        Class::RunTest => run_test(op, slot, other, arg, memory),
        Class::ModeTest => mode_test(op, slot, other, arg, memory),
        Class::WordTest => word_test(op, slot, other, arg, memory),
        Class::NumberTest => number_test(op, slot, other, arg, memory),
        Class::GridTest => grid_test(op, slot, other, arg, memory),
        Class::ImportTest => import_test(op, slot, other, arg, memory),
        Class::TableTest => table_test(op, slot, other, arg, memory),
        Class::RoutineTest => routine_test(op, slot, other, arg, memory),
        Class::StateTest => state_test(op, slot, other, arg, memory),
        Class::ScreenTest => screen_test(op, slot, other, arg, memory),
        _ => false,
    }
}

/// What a test that does not hold says of itself, where its row says nothing.
pub open spec fn own_words(
    op: Op,
    slot: int,
    other: int,
    arg: Seq<char>,
    memory: Seq<Seen>,
) -> Seq<char> {
    if op == Op::KindIs {
        let run = events(at(memory, slot));
        let actual = match column_at(grid_columns(run), arg) {
            Some(place) => kind_of(run, place),
            None => SqlValueKind::Unknown,
        };
        "column "@ + arg + " classified as "@ + kind_name(actual) + ", expected "@ + kind_name(
            kind_code(other),
        )
    } else if class(op) == Class::ScreenTest {
        screen_own_words(op, slot, other, arg, memory)
    } else {
        import_own_words(op, slot, other, arg, memory)
    }
}

pub fn own_words_text(op: Op, slot: usize, other: usize, arg: &str, memory: &Vec<Seen>) -> (r:
    String)
    ensures
        r@ == own_words(op, slot as int, other as int, arg@, memory@),
{
    if op == Op::KindIs {
        let nothing = Seen::Nothing;
        let none: Vec<QueryProgress> = Vec::new();
        let run = events_in(look(memory, slot, &nothing), &none);
        let actual = match column_at_of(run, arg) {
            Some(place) => kind_in(run, place),
            None => SqlValueKind::Unknown,
        };
        let mut out = "column ".to_owned();
        out.append(arg);
        out.append(" classified as ");
        out.append(kind_label(actual));
        out.append(", expected ");
        out.append(kind_label(kind_at(other)));
        out
    } else if class_of(op) == Class::ScreenTest {
        screen_own_text(op, slot, other, arg, memory)
    } else {
        import_own_text(op, slot, other, arg, memory)
    }
}

} // verus!
