//! The tests on what a tab and its session say: texts, numbers, modes and states.
use vstd::prelude::*;
use vstd::string::*;

use crate::laws::cells::{fewer_than_two_numbers, last_two_stand, read_of, the_last_two_numbers};
use crate::laws::runs::ran;
use crate::laws::texts::{
    blank, blanks_around_are_trimmed, numbers_are_read_back, texts_are_the_same_but_for_case,
};
use crate::op::{isolation_code, mode_code, Op, DEFAULT_LEVEL_SLOT};
use crate::progress::{mode_changes, rows, QueryProgress, TransactionIsolation, TransactionMode};
use crate::routine::RoutineDefinitionLookup;
use crate::seen::{at, scalar, text_in, words, Preflight, Retained, Seen, SessionState};
use crate::text::{
    contains, decimal, fields, integer_value, joined, spaced, split_on, trim, truth, upper,
    white_space,
};
use crate::verdict::{flag, holds, number, pinned};

verus! {

/// What an observation says: a text says itself, a number its digits, a yes or no
/// itself, an error its message, a run its one cell, and a value of the app the way
/// the app writes it.
pub proof fn what_an_observation_says(seen: Seen)
    ensures
        seen matches Seen::Text(t) ==> text_in(seen) == Some(t@),
        seen matches Seen::Word(t) ==> text_in(seen) == Some(t@),
        seen matches Seen::Failed(t) ==> text_in(seen) == Some(t@),
        seen matches Seen::Number(n) ==> text_in(seen) == Some(decimal(n as int)),
        seen matches Seen::Flag(b) ==> text_in(seen) == Some(truth(b)),
        seen matches Seen::Run(run) ==> text_in(seen) == scalar(run@),
        seen matches Seen::Isolation { isolation, label } ==> text_in(seen) == Some(label@),
        seen matches Seen::Mode { mode, shown } ==> text_in(seen) == Some(shown@),
        seen matches Seen::Retained { state, shown } ==> text_in(seen) == Some(shown@),
        seen matches Seen::State { session, shown } ==> text_in(seen) == Some(shown@),
        seen matches Seen::Outcome { applied, shown } ==> text_in(seen) == Some(shown@),
        seen matches Seen::Decision { decision, shown } ==> text_in(seen) == Some(shown@),
        seen matches Seen::Lookup(RoutineDefinitionLookup::Unreadable(why)) ==> text_in(seen)
            == Some(why@),
        seen is Nothing || seen is Absent || seen is Names || seen is Pairs || seen is Imported
            || seen is Mapping || seen is Structure || seen is Targets || seen is Literals
            || seen is Export || seen is Delivery || seen is Queued || seen is Scopes
            ==> text_in(seen) is None,
        text_in(seen) matches Some(t) ==> words(seen) == t,
        text_in(seen) is None ==> words(seen) == Seq::<char>::empty(),
{
}

/// The tests on one text: it is the wanted text, blanks around it aside or not, or
/// has it in it, or is it but for case and separators.
pub proof fn one_text_is_tested(
    memory: Seq<Seen>,
    slot: int,
    other: int,
    arg: Seq<char>,
    before: Seq<char>,
    said: Seq<char>,
    after: Seq<char>,
)
    requires
        0 <= slot < memory.len(),
        words(memory[slot]) == before + said + after,
        blank(before),
        blank(after),
        said.len() > 0 ==> !white_space(said[0]) && !white_space(said.last()),
    ensures
        holds(Op::ScalarIs, slot, other, arg, memory) <==> said == arg,
        holds(Op::ScalarIsNot, slot, other, arg, memory) <==> said != arg,
        holds(Op::ScalarOn, slot, other, arg, memory) <==> said == "1"@ || said == "ON"@,
        holds(Op::NamedAs, slot, other, arg, memory) <==> upper(said) == upper(arg),
        holds(Op::WordsAre, slot, other, arg, memory) <==> before + said + after == arg,
        holds(Op::WordsAreNot, slot, other, arg, memory) <==> before + said + after != arg,
        holds(Op::WordsHold, slot, other, arg, memory) <==> contains(before + said + after, arg),
        holds(Op::WordsLack, slot, other, arg, memory) <==> !contains(before + said + after, arg),
        holds(Op::UpperHolds, slot, other, arg, memory) <==> contains(
            upper(before + said + after),
            arg,
        ),
        holds(Op::SpelledAs, slot, other, arg, memory) <==> upper(spaced(before + said + after))
            == upper(spaced(arg)),
        holds(Op::NotSpelledAs, slot, other, arg, memory) <==> upper(
            spaced(before + said + after),
        ) != upper(spaced(arg)),
{
    blanks_around_are_trimmed(before, said, after);
    texts_are_the_same_but_for_case(said, arg);
    texts_are_the_same_but_for_case(spaced(before + said + after), spaced(arg));
}

/// The tests on two texts: both are the wanted ones, or they are the same, blanks
/// around them aside or not.
pub proof fn two_texts_are_tested(
    memory: Seq<Seen>,
    slot: int,
    other: int,
    arg: Seq<char>,
    x: Seq<char>,
    y: Seq<char>,
)
    requires
        0 <= slot < memory.len(),
        0 <= other < memory.len(),
        split_on(arg, '|') == seq![x, y],
    ensures
        holds(Op::ScalarsAre, slot, other, arg, memory) <==> trim(words(memory[slot])) == x
            && trim(words(memory[other])) == y,
        holds(Op::SameTrimmed, slot, other, arg, memory) <==> trim(words(memory[slot])) == trim(
            words(memory[other]),
        ),
        holds(Op::SameWords, slot, other, arg, memory) <==> words(memory[slot]) == words(
            memory[other],
        ),
        holds(Op::SameText, slot, other, arg, memory) <==> text_in(memory[slot]) == text_in(
            memory[other],
        ),
        holds(Op::SameExport, slot, other, arg, memory) <==> words(memory[slot]) == words(
            memory[other],
        ),
{
}

/// A text is absent or present as it was observed.
pub proof fn a_text_is_there_or_not(memory: Seq<Seen>, slot: int, other: int, arg: Seq<char>)
    requires
        0 <= slot < memory.len(),
    ensures
        holds(Op::TextAbsent, slot, other, arg, memory) <==> memory[slot] == Seen::Absent,
        holds(Op::TextPresent, slot, other, arg, memory) <==> memory[slot] is Text,
        !(holds(Op::TextAbsent, slot, other, arg, memory) && holds(
            Op::TextPresent,
            slot,
            other,
            arg,
            memory,
        )),
        holds(Op::IsFailed, slot, other, arg, memory) <==> memory[slot] is Failed,
{
}

/// Whether an observation is a number, whatever it was observed as: its digits,
/// with blanks around them or without.
pub open spec fn is_number(seen: Seen, n: int) -> bool {
    exists|before: Seq<char>, after: Seq<char>|
        words(seen) == #[trigger] (before + decimal(n) + after) && blank(before) && blank(after)
}

/// A number that was observed is that number.
pub proof fn an_observed_number_is_itself(seen: Seen, n: i64)
    ensures
        seen == Seen::Number(n) ==> is_number(seen, n as int),
        is_number(seen, n as int) ==> number(seen) == Some(n as int),
{
    if seen == Seen::Number(n) {
        let e = Seq::<char>::empty();
        assert(words(seen) =~= e + decimal(n as int) + e);
        assert(blank(e));
    }
    if is_number(seen, n as int) {
        let (before, after) = choose|before: Seq<char>, after: Seq<char>|
            words(seen) == #[trigger] (before + decimal(n as int) + after) && blank(before)
                && blank(after);
        numbers_are_read_back(n as int, before, after);
    }
}

/// The tests on one number and on two: equal, one more, more, at most.
pub proof fn numbers_are_compared(
    memory: Seq<Seen>,
    slot: int,
    other: int,
    arg: Seq<char>,
    a: i64,
    b: i64,
    n: int,
)
    requires
        0 <= slot < memory.len(),
        0 <= other < memory.len(),
        is_number(memory[slot], a as int),
        is_number(memory[other], b as int),
    ensures
        holds(Op::IsNumber, slot, other, arg, memory),
        holds(Op::NumberIs, slot, n, arg, memory) <==> a == n,
        holds(Op::NumberAtLeast, slot, n, arg, memory) <==> a >= n,
        holds(Op::SameNumber, slot, other, arg, memory) <==> a == b,
        holds(Op::OneMore, slot, other, arg, memory) <==> b == a + 1,
        holds(Op::More, slot, other, arg, memory) <==> a < b,
        holds(Op::AtMost, slot, other, arg, memory) <==> a <= b,
{
    an_observed_number_is_itself(memory[slot], a);
    an_observed_number_is_itself(memory[other], b);
}

/// What is no number is equal to none, nor more nor less.
pub proof fn what_is_no_number_compares_to_none(
    memory: Seq<Seen>,
    slot: int,
    other: int,
    arg: Seq<char>,
)
    requires
        0 <= slot < memory.len(),
        0 <= other < memory.len(),
        integer_value(trim(words(memory[slot]))) is None || integer_value(
            trim(words(memory[other])),
        ) is None,
    ensures
        !holds(Op::SameNumber, slot, other, arg, memory),
        !holds(Op::OneMore, slot, other, arg, memory),
        !holds(Op::More, slot, other, arg, memory),
        !holds(Op::AtMost, slot, other, arg, memory),
        integer_value(trim(words(memory[slot]))) is None ==> !holds(
            Op::IsNumber,
            slot,
            other,
            arg,
            memory,
        ) && !holds(Op::NumberIs, slot, other, arg, memory) && !holds(
            Op::NumberAtLeast,
            slot,
            other,
            arg,
            memory,
        ),
{
}

/// Two reads of one transaction saw one snapshot exactly where the last two numbers
/// that the batch streamed are equal; a batch with fewer than two shows nothing.
pub proof fn one_snapshot_shows_in_two_equal_reads(
    memory: Seq<Seen>,
    slot: int,
    other: int,
    arg: Seq<char>,
    run: Seq<QueryProgress>,
    i: int,
    j: int,
)
    requires
        ran(memory, slot, run),
    ensures
        last_two_stand(rows(run), i, j) ==> (holds(Op::LastPairSame, slot, other, arg, memory)
            <==> read_of(rows(run)[i]) == read_of(rows(run)[j])),
        (forall|k: int|
            0 <= k < rows(run).len() && k != i ==> read_of(#[trigger] rows(run)[k]) is None)
            ==> !holds(Op::LastPairSame, slot, other, arg, memory),
{
    if last_two_stand(rows(run), i, j) {
        the_last_two_numbers(rows(run), i, j);
    }
    if forall|k: int|
        0 <= k < rows(run).len() && k != i ==> read_of(#[trigger] rows(run)[k]) is None {
        fewer_than_two_numbers(rows(run), i);
    }
}

/// What another session committed shows exactly where the number read afterwards
/// is above the first of the last two that the batch streamed.
pub proof fn a_later_read_is_above_the_batch(
    memory: Seq<Seen>,
    slot: int,
    other: int,
    arg: Seq<char>,
    run: Seq<QueryProgress>,
    now: i64,
    i: int,
    j: int,
)
    requires
        0 <= slot < memory.len(),
        is_number(memory[slot], now as int),
        ran(memory, other, run),
        last_two_stand(rows(run), i, j),
    ensures
        holds(Op::AboveLastPair, slot, other, arg, memory) <==> now > read_of(rows(run)[i])->0,
{
    an_observed_number_is_itself(memory[slot], now);
    the_last_two_numbers(rows(run), i, j);
}

/// The tests on the modes that a run announced: that there are none, that one is of
/// a level, that the last is a mode.
pub proof fn announced_modes_are_tested(
    memory: Seq<Seen>,
    slot: int,
    other: int,
    arg: Seq<char>,
    run: Seq<QueryProgress>,
    k: int,
)
    requires
        ran(memory, slot, run),
    ensures
        holds(Op::NoModeChange, slot, other, arg, memory) <==> mode_changes(run).len() == 0,
        0 <= k < mode_changes(run).len() && mode_changes(run)[k].isolation == isolation_code(other)
            ==> holds(Op::SomeModeChange, slot, other, arg, memory),
        (forall|i: int|
            0 <= i < mode_changes(run).len() ==> (#[trigger] mode_changes(run)[i]).isolation
                != isolation_code(other)) ==> !holds(Op::SomeModeChange, slot, other, arg, memory),
        mode_changes(run).len() > 0 ==> (holds(Op::LastModeChange, slot, other, arg, memory)
            <==> mode_changes(run).last() == mode_code(other)),
        mode_changes(run).len() == 0 ==> !holds(Op::LastModeChange, slot, other, arg, memory),
{
}

/// The tests on a tab's pin: the mode it is pinned to, its level, or that it has
/// none.
pub proof fn a_pin_is_tested(
    memory: Seq<Seen>,
    slot: int,
    other: int,
    arg: Seq<char>,
    code: int,
    pin: Option<TransactionMode>,
    second: Option<TransactionMode>,
    run: Seq<QueryProgress>,
)
    requires
        0 <= slot < memory.len(),
        memory[slot] matches Seen::Mode { mode, shown } && mode == pin,
        0 <= other < memory.len(),
    ensures
        holds(Op::PinnedMode, slot, code, arg, memory) <==> pin == Some(mode_code(code)),
        holds(Op::PinnedIsolation, slot, code, arg, memory) <==> pin is Some
            && (pin->0).isolation == isolation_code(code),
        holds(Op::Unpinned, slot, code, arg, memory) <==> pin is None,
        ran(memory, other, run) ==> (holds(Op::UnpinnedAndQuiet, slot, other, arg, memory)
            <==> pin is None && mode_changes(run).len() == 0),
        (memory[other] matches Seen::Mode { mode, shown } && mode == second) ==> (holds(
            Op::SameMode,
            slot,
            other,
            arg,
            memory,
        ) <==> pin == second),
{
}

/// A level's name is told whatever its case, its separators and the blanks around
/// it: two texts name one level exactly where their words are the same, raised.
pub proof fn levels_are_told_by_their_words(
    memory: Seq<Seen>,
    slot: int,
    other: int,
    arg: Seq<char>,
)
    requires
        0 <= slot < memory.len(),
        0 <= other < memory.len(),
    ensures
        holds(Op::LevelIs, slot, other, arg, memory) <==> upper(
            joined(fields(spaced(trim(words(memory[slot])))), " "@),
        ) == upper(joined(fields(spaced(trim(words(memory[other])))), " "@)),
{
}

/// A tab on the connection's own level holds one snapshot, and so reads the same
/// number twice, exactly where that level is repeatable read or serializable.
pub proof fn the_default_level_holds_a_snapshot_or_not(
    memory: Seq<Seen>,
    slot: int,
    other: int,
    arg: Seq<char>,
    a: i64,
    b: i64,
    level: TransactionIsolation,
)
    requires
        0 <= slot < memory.len(),
        0 <= other < memory.len(),
        DEFAULT_LEVEL_SLOT < memory.len(),
        is_number(memory[slot], a as int),
        is_number(memory[other], b as int),
        memory[DEFAULT_LEVEL_SLOT as int] matches Seen::Isolation { isolation, label } && isolation
            == level,
    ensures
        level == TransactionIsolation::RepeatableRead || level
            == TransactionIsolation::Serializable ==> (holds(
            Op::LikeDefault,
            slot,
            other,
            arg,
            memory,
        ) <==> a == b),
        level == TransactionIsolation::ReadCommitted || level
            == TransactionIsolation::ReadUncommitted || level == TransactionIsolation::Default
            ==> (holds(Op::LikeDefault, slot, other, arg, memory) <==> a != b),
{
    an_observed_number_is_itself(memory[slot], a);
    an_observed_number_is_itself(memory[other], b);
}

/// The tests on a retained session: uncommitted work is dirty; a session that wants
/// a decision or still carries a mode of its own is a residue; what is neither, or
/// is not there, is resolved.
pub proof fn a_retained_session_is_tested(
    memory: Seq<Seen>,
    slot: int,
    other: int,
    arg: Seq<char>,
    retained: Option<Retained>,
)
    requires
        0 <= slot < memory.len(),
        memory[slot] matches Seen::Retained { state, shown } && state == retained,
    ensures
        holds(Op::Dirty, slot, other, arg, memory) <==> retained is Some && (
        retained->0).uncommitted_work,
        holds(Op::Residue, slot, other, arg, memory) <==> retained is Some && ((
        retained->0).requires_decision || (retained->0).mode_override),
        holds(Op::Resolved, slot, other, arg, memory) <==> !holds(
            Op::Dirty,
            slot,
            other,
            arg,
            memory,
        ) && !holds(Op::Residue, slot, other, arg, memory),
        holds(Op::NothingRetained, slot, other, arg, memory) <==> retained is None,
        retained is None ==> holds(Op::Resolved, slot, other, arg, memory),
{
}

/// A session's state is dirty where it may be, is blocked by, or wants a decision on
/// uncommitted work; it is resolved where it is clean or there is none; never both.
pub proof fn a_state_is_dirty_or_resolved(
    memory: Seq<Seen>,
    slot: int,
    other: int,
    arg: Seq<char>,
    state: Option<SessionState>,
)
    requires
        0 <= slot < memory.len(),
    ensures
        (memory[slot] matches Seen::State { session, shown } && session == state) ==> {
            &&& holds(Op::StateDirty, slot, other, arg, memory) <==> state == Some(
                SessionState::MaybeDirty,
            ) || state == Some(SessionState::BlockedDirty) || state == Some(
                SessionState::DecisionRequired,
            )
            &&& holds(Op::StateResolved, slot, other, arg, memory) <==> state is None || state
                == Some(SessionState::Clean)
        },
        !(memory[slot] is State) ==> !holds(Op::StateDirty, slot, other, arg, memory) && !holds(
            Op::StateResolved,
            slot,
            other,
            arg,
            memory,
        ),
        !(holds(Op::StateDirty, slot, other, arg, memory) && holds(
            Op::StateResolved,
            slot,
            other,
            arg,
            memory,
        )),
{
}

/// A change may be made where nothing forbids it, and must wait where the app wants
/// the session resolved; never both.
pub proof fn a_change_may_be_made_or_must_wait(
    memory: Seq<Seen>,
    slot: int,
    other: int,
    arg: Seq<char>,
    said: Option<Preflight>,
)
    requires
        0 <= slot < memory.len(),
        memory[slot] matches Seen::Decision { decision, shown } && decision == said,
    ensures
        holds(Op::MustResolve, slot, other, arg, memory) <==> said == Some(
            Preflight::RequireResolution,
        ),
        holds(Op::MayChange, slot, other, arg, memory) <==> said is None || said == Some(
            Preflight::Allow,
        ),
{
}

/// The tests on yes and no.
pub proof fn yes_and_no_are_tested(
    memory: Seq<Seen>,
    slot: int,
    other: int,
    arg: Seq<char>,
    a: bool,
    b: bool,
)
    requires
        0 <= slot < memory.len(),
        0 <= other < memory.len(),
    ensures
        memory[slot] == Seen::Flag(a) ==> {
            &&& holds(Op::FlagIs, slot, 1, arg, memory) <==> a
            &&& holds(Op::FlagIs, slot, 0, arg, memory) <==> !a
            &&& holds(Op::NotYes, slot, other, arg, memory) <==> !a
        },
        !(memory[slot] is Flag) ==> {
            &&& !holds(Op::FlagIs, slot, 1, arg, memory)
            &&& !holds(Op::FlagIs, slot, 0, arg, memory)
            &&& holds(Op::NotYes, slot, other, arg, memory)
        },
        memory[slot] == Seen::Flag(a) && memory[other] == Seen::Flag(b) ==> {
            &&& holds(Op::BothFlags, slot, other, arg, memory) <==> a && b
            &&& holds(Op::NeitherFlag, slot, other, arg, memory) <==> !a && !b
            &&& holds(Op::YesAndNo, slot, other, arg, memory) <==> a && !b
        },
        (memory[slot] matches Seen::Outcome { applied, shown } && applied == a) ==> (holds(
            Op::Applied,
            slot,
            other,
            arg,
            memory,
        ) <==> a),
        !(memory[slot] is Outcome) ==> !holds(Op::Applied, slot, other, arg, memory),
        flag(Seen::Flag(a)) == a,
        !(memory[slot] is Flag) && !(memory[slot] is Outcome) ==> !flag(memory[slot]),
        (memory[slot] matches Seen::Outcome { applied, shown } && applied == a) ==> flag(
            memory[slot],
        ) == a,
{
}

} // verus!
