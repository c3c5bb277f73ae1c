//! The tests on the statements of a run, said of its events.
use vstd::prelude::*;

use crate::laws::events::{
    all_succeeded, ended, every_finished_statement_is_reported, finished, finished_count, is_first,
    is_last, is_last_end, none_finished, the_error_is_the_first_failure,
    the_first_and_the_last_statement, the_last_end_says_whether_it_was_cancelled,
};
use crate::op::Op;
use crate::progress::{
    first_cell_spec, first_where, lines, result_messages, results, transcript, QueryProgress,
    QueryResult,
};
use crate::seen::{is_insert, is_insert_any_case, is_query, Seen};
use crate::text::{contains, joined, mentions_any, split_on, unicode_uppercase, upper};
use crate::verdict::{
    all_meet, failure_says, holds, line_holds, matchable, meets, refused, statement_holds, Each,
};

verus! {

/// Whether a slot holds a run of these events.
pub open spec fn ran(memory: Seq<Seen>, slot: int, run: Seq<QueryProgress>) -> bool {
    0 <= slot < memory.len() && (memory[slot] matches Seen::Run(events) && events@ == run)
}

/// The tests on the first statement: they hold as it succeeded or failed. Where
/// no statement finished, none succeeded and none failed.
pub proof fn the_first_statement_is_tested(
    memory: Seq<Seen>,
    slot: int,
    other: int,
    arg: Seq<char>,
    run: Seq<QueryProgress>,
    i: int,
)
    requires
        ran(memory, slot, run),
    ensures
        is_first(run, i) ==> {
            let first = finished(run[i])->0;
            &&& holds(Op::FirstSucceeded, slot, other, arg, memory) <==> first.success
            &&& holds(Op::FirstFailed, slot, other, arg, memory) <==> !first.success
            &&& holds(Op::FirstNotFailed, slot, other, arg, memory) <==> first.success
            &&& holds(Op::FirstWorkedIs, slot, 1, arg, memory) <==> first.success
            &&& holds(Op::FirstWorkedIs, slot, 0, arg, memory) <==> !first.success
            &&& holds(Op::Finished, slot, other, arg, memory)
        },
        none_finished(run) ==> {
            &&& !holds(Op::FirstSucceeded, slot, other, arg, memory)
            &&& !holds(Op::FirstFailed, slot, other, arg, memory)
            &&& holds(Op::FirstNotFailed, slot, other, arg, memory)
            &&& !holds(Op::FirstWorkedIs, slot, 1, arg, memory)
            &&& holds(Op::FirstWorkedIs, slot, 0, arg, memory)
            &&& !holds(Op::Finished, slot, other, arg, memory)
        },
{
    the_first_and_the_last_statement(run);
}

/// The tests on the last statement: they hold as it succeeded or failed, as it
/// was a query or not, and as its message mentions a phrase.
pub proof fn the_last_statement_is_tested(
    memory: Seq<Seen>,
    slot: int,
    other: int,
    arg: Seq<char>,
    run: Seq<QueryProgress>,
    i: int,
)
    requires
        ran(memory, slot, run),
    ensures
        is_last(run, i) ==> {
            let last = finished(run[i])->0;
            &&& holds(Op::LastSucceeded, slot, other, arg, memory) <==> last.success
            &&& holds(Op::LastFailed, slot, other, arg, memory) <==> !last.success
            &&& holds(Op::LastNotQuery, slot, other, arg, memory) <==> !last.is_select
            &&& holds(Op::LastSays, slot, other, arg, memory) <==> mentions_any(
                last.message@,
                arg,
            )
            &&& holds(Op::Matchable, slot, other, arg, memory) <==> matchable(last, arg)
        },
        none_finished(run) ==> {
            &&& !holds(Op::LastSucceeded, slot, other, arg, memory)
            &&& !holds(Op::LastFailed, slot, other, arg, memory)
            &&& !holds(Op::LastNotQuery, slot, other, arg, memory)
            &&& !holds(Op::LastSays, slot, other, arg, memory)
            &&& !holds(Op::Matchable, slot, other, arg, memory)
        },
{
    the_first_and_the_last_statement(run);
}

/// A save's result is told from another by the tag of its request, in its text or
/// its message, or else by its statement, whatever the case.
pub proof fn a_save_is_told_by_its_tag_or_its_statement(
    result: QueryResult,
    arg: Seq<char>,
    tag: Seq<char>,
    statement: Seq<char>,
)
    requires
        split_on(arg, '|') == seq![tag, statement],
    ensures
        contains(result.sql@, tag) ==> matchable(result, arg),
        contains(result.message@, tag) ==> matchable(result, arg),
        contains(upper(result.sql@), upper(statement)) ==> matchable(result, arg),
        !contains(result.sql@, tag) && !contains(result.message@, tag) && !contains(
            upper(result.sql@),
            upper(statement),
        ) ==> !matchable(result, arg),
{
}

/// A refusal: enough statements finished, and the one in question failed with a
/// message that mentions a phrase. One that succeeded was not refused.
pub proof fn a_refusal_is_a_failure_that_says_so(
    memory: Seq<Seen>,
    slot: int,
    other: int,
    arg: Seq<char>,
    run: Seq<QueryProgress>,
    i: int,
)
    requires
        ran(memory, slot, run),
    ensures
        is_first(run, i) ==> (holds(Op::FirstRefused, slot, other, arg, memory) <==> finished_count(
            run,
        ) >= other && !(finished(run[i])->0).success && mentions_any(
            (finished(run[i])->0).message@,
            arg,
        )),
        is_last(run, i) ==> (holds(Op::LastRefused, slot, other, arg, memory) <==> finished_count(
            run,
        ) >= other && !(finished(run[i])->0).success && mentions_any(
            (finished(run[i])->0).message@,
            arg,
        )),
        none_finished(run) ==> !holds(Op::FirstRefused, slot, other, arg, memory) && !holds(
            Op::LastRefused,
            slot,
            other,
            arg,
            memory,
        ),
{
    the_first_and_the_last_statement(run);
    every_finished_statement_is_reported(run);
}

/// Whether an event is the first of a run to report a finished statement of a
/// kind.
pub open spec fn is_first_such(
    run: Seq<QueryProgress>,
    kind: spec_fn(QueryResult) -> bool,
    i: int,
) -> bool {
    &&& 0 <= i < run.len()
    &&& finished(run[i]) matches Some(r) && kind(r)
    &&& forall|j: int|
        0 <= j < i ==> (finished(#[trigger] run[j]) matches Some(r) ==> !kind(r))
}

pub open spec fn none_such(run: Seq<QueryProgress>, kind: spec_fn(QueryResult) -> bool) -> bool {
    forall|j: int|
        0 <= j < run.len() ==> (finished(#[trigger] run[j]) matches Some(r) ==> !kind(r))
}

proof fn lemma_first_such(
    run: Seq<QueryProgress>,
    kind: spec_fn(QueryResult) -> bool,
)
    ensures
        forall|i: int| #[trigger]
            is_first_such(run, kind, i) ==> first_where(results(run), kind) == finished(run[i]),
        none_such(run, kind) <==> first_where(results(run), kind) is None,
    decreases run.len(),
{
    if run.len() > 0 {
        let front = run.drop_last();
        let n = run.len() - 1;
        lemma_first_such(front, kind);
        match finished(run[n]) {
            Some(r) => {
                assert(results(run) == results(front).push(r));
                lemma_push(results(front), r, kind);
            },
            None => {
                assert(results(run) == results(front));
            },
        }
        assert(none_such(run, kind) <==> none_such(front, kind) && (finished(run[n]) matches Some(r)
            ==> !kind(r))) by {
            if none_such(run, kind) {
                assert forall|j: int| 0 <= j < front.len() implies (finished(
                    #[trigger] front[j],
                ) matches Some(r) ==> !kind(r)) by {
                    assert(front[j] == run[j]);
                }
            }
            if none_such(front, kind) && (finished(run[n]) matches Some(r) ==> !kind(r)) {
                assert forall|j: int| 0 <= j < run.len() implies (finished(
                    #[trigger] run[j],
                ) matches Some(r) ==> !kind(r)) by {
                    if j < n {
                        assert(front[j] == run[j]);
                    }
                }
            }
        }
        assert forall|i: int| #[trigger] is_first_such(run, kind, i) implies first_where(
            results(run),
            kind,
        ) == finished(run[i]) by {
            assert forall|j: int| 0 <= j < i implies (finished(#[trigger] front[j]) matches Some(r)
                ==> !kind(r)) by {
                assert(front[j] == run[j]);
            }
            if i < n {
                assert(front[i] == run[i]);
                assert(is_first_such(front, kind, i));
            } else {
                assert(none_such(front, kind));
            }
        }
    }
}

proof fn lemma_push(rs: Seq<QueryResult>, r: QueryResult, kind: spec_fn(QueryResult) -> bool)
    ensures
        first_where(rs.push(r), kind) == match first_where(rs, kind) {
            Some(found) => Some(found),
            None => if kind(r) { Some(r) } else { None },
        },
    decreases rs.len(),
{
    if rs.len() == 0 {
        assert(rs.push(r).drop_first() =~= Seq::<QueryResult>::empty());
        assert(first_where(rs.push(r).drop_first(), kind) is None);
    } else {
        assert(rs.push(r).drop_first() =~= rs.drop_first().push(r));
        lemma_push(rs.drop_first(), r, kind);
    }
}

pub open spec fn inserts(r: QueryResult) -> bool {
    contains(r.sql@, "INSERT"@)
}

pub open spec fn inserts_in_any_case(r: QueryResult) -> bool {
    contains(unicode_uppercase(r.sql@), "INSERT"@)
}

/// The tests on the insert of a script: it is the first statement whose text has
/// the word in it, and it was refused where it failed and says so.
pub proof fn the_insert_is_the_first_that_says_so(
    memory: Seq<Seen>,
    slot: int,
    other: int,
    arg: Seq<char>,
    run: Seq<QueryProgress>,
    i: int,
)
    requires
        ran(memory, slot, run),
    ensures
        is_first_such(run, |r: QueryResult| inserts(r), i) ==> {
            let r = finished(run[i])->0;
            &&& holds(Op::InsertFinished, slot, other, arg, memory)
            &&& holds(Op::InsertRefused, slot, other, arg, memory) <==> finished_count(run)
                >= other && !r.success && mentions_any(r.message@, arg)
        },
        none_such(run, |r: QueryResult| inserts(r)) ==> !holds(
            Op::InsertFinished,
            slot,
            other,
            arg,
            memory,
        ) && !holds(Op::InsertRefused, slot, other, arg, memory),
        is_first_such(run, |r: QueryResult| inserts_in_any_case(r), i) ==> {
            let r = finished(run[i])->0;
            holds(Op::AnyCaseInsertRefused, slot, other, arg, memory) <==> finished_count(run)
                >= other && !r.success && mentions_any(r.message@, arg)
        },
        none_such(run, |r: QueryResult| inserts_in_any_case(r)) ==> !holds(
            Op::AnyCaseInsertRefused,
            slot,
            other,
            arg,
            memory,
        ),
{
    every_finished_statement_is_reported(run);
    let a = |r: QueryResult| inserts(r);
    let a2 = |r: QueryResult| is_insert(r);
    assert(a =~= a2);
    lemma_first_such(run, a);
    let b = |r: QueryResult| inserts_in_any_case(r);
    let b2 = |r: QueryResult| is_insert_any_case(r);
    assert(b =~= b2);
    lemma_first_such(run, b);
}

/// The query of a script is the first statement that is one, and the test holds
/// as it succeeded.
pub proof fn the_query_is_the_first_that_is_one(
    memory: Seq<Seen>,
    slot: int,
    other: int,
    arg: Seq<char>,
    run: Seq<QueryProgress>,
    i: int,
)
    requires
        ran(memory, slot, run),
    ensures
        is_first_such(run, |r: QueryResult| r.is_select, i) ==> (holds(
            Op::QuerySucceeded,
            slot,
            other,
            arg,
            memory,
        ) <==> (finished(run[i])->0).success),
        none_such(run, |r: QueryResult| r.is_select) ==> !holds(
            Op::QuerySucceeded,
            slot,
            other,
            arg,
            memory,
        ),
{
    let a = |r: QueryResult| r.is_select;
    let a2 = |r: QueryResult| is_query(r);
    assert(a =~= a2);
    lemma_first_such(run, a);
}

/// A run that ended cancelled fails the test, and one that ended otherwise passes
/// it; so does one that no event says the end of.
pub proof fn a_cancelled_run_is_told(
    memory: Seq<Seen>,
    slot: int,
    other: int,
    arg: Seq<char>,
    run: Seq<QueryProgress>,
    i: int,
)
    requires
        ran(memory, slot, run),
    ensures
        is_last_end(run, i) && ended(run[i]) == Some(true) ==> !holds(
            Op::NotCancelled,
            slot,
            other,
            arg,
            memory,
        ),
        is_last_end(run, i) && ended(run[i]) == Some(false) ==> holds(
            Op::NotCancelled,
            slot,
            other,
            arg,
            memory,
        ),
        (forall|j: int| 0 <= j < run.len() ==> ended(#[trigger] run[j]) is None) ==> holds(
            Op::NotCancelled,
            slot,
            other,
            arg,
            memory,
        ),
{
    the_last_end_says_whether_it_was_cancelled(run);
}

/// The tests on every statement of a run hold exactly where each event that
/// reports one meets them.
pub proof fn every_statement_is_tested(
    memory: Seq<Seen>,
    slot: int,
    other: int,
    arg: Seq<char>,
    run: Seq<QueryProgress>,
)
    requires
        ran(memory, slot, run),
    ensures
        holds(Op::NoFailure, slot, other, arg, memory) <==> all_succeeded(run),
        holds(Op::AllSucceeded, slot, other, arg, memory) <==> finished_count(run) >= other
            && all_succeeded(run),
        holds(Op::NoneSucceeded, slot, other, arg, memory) <==> forall|j: int|
            0 <= j < run.len() ==> (finished(#[trigger] run[j]) matches Some(r) ==> !r.success),
        holds(Op::AllSucceededOrSilent, slot, other, arg, memory) <==> forall|j: int|
            0 <= j < run.len() ==> (finished(#[trigger] run[j]) matches Some(r) ==> r.success
                || r.message@.len() == 0),
        holds(Op::SomethingFailed, slot, other, arg, memory) <==> !all_succeeded(run)
            || line_holds(lines(run), arg),
        holds(Op::NoFailureSays, slot, other, arg, memory) <==> forall|j: int|
            0 <= j < run.len() ==> (finished(#[trigger] run[j]) matches Some(r) ==> r.success
                || !contains(upper(r.message@), arg)),
        holds(Op::NoStatementHolds, slot, other, arg, memory) <==> forall|j: int|
            0 <= j < run.len() ==> (finished(#[trigger] run[j]) matches Some(r) ==> !contains(
                upper(r.sql@),
                arg,
            )),
{
    lemma_succeeded(memory, slot, other, arg, run);
    lemma_failed(run);
    lemma_silent(run);
    lemma_says(run, arg);
    lemma_statements(run, arg);
}

proof fn lemma_succeeded(
    memory: Seq<Seen>,
    slot: int,
    other: int,
    arg: Seq<char>,
    run: Seq<QueryProgress>,
)
    requires
        ran(memory, slot, run),
    ensures
        holds(Op::NoFailure, slot, other, arg, memory) <==> all_succeeded(run),
        holds(Op::AllSucceeded, slot, other, arg, memory) <==> finished_count(run) >= other
            && all_succeeded(run),
        holds(Op::SomethingFailed, slot, other, arg, memory) <==> !all_succeeded(run)
            || line_holds(lines(run), arg),
{
    every_finished_statement_is_reported(run);
    the_error_is_the_first_failure(run);
    let rs = results(run);
    let p = |r: QueryResult| r.success;
    lemma_every(run, p);
    assert(all_such(run, p) <==> all_succeeded(run));
    assert(every(rs, p) <==> all_meet(Each::Succeeded, rs, 0)) by {
        if every(rs, p) {
            assert forall|i: int| 0 <= i < rs.len() implies meets(
                Each::Succeeded,
                #[trigger] rs[i],
            ) by {
                assert(p(rs[i]));
            }
        }
        if all_meet(Each::Succeeded, rs, 0) {
            assert forall|i: int| 0 <= i < rs.len() implies p(#[trigger] rs[i]) by {
                assert(meets(Each::Succeeded, rs[i]));
            }
        }
    }
    assert(all_meet(Each::Succeeded, rs, other) <==> rs.len() >= other && all_meet(
        Each::Succeeded,
        rs,
        0,
    ));
}

proof fn lemma_failed(run: Seq<QueryProgress>)
    ensures
        all_meet(Each::Failed, results(run), 0) <==> forall|j: int|
            0 <= j < run.len() ==> (finished(#[trigger] run[j]) matches Some(r) ==> !r.success),
{
    let rs = results(run);
    let p = |r: QueryResult| !r.success;
    lemma_every(run, p);
    assert(every(rs, p) <==> all_meet(Each::Failed, rs, 0)) by {
        if every(rs, p) {
            assert forall|i: int| 0 <= i < rs.len() implies meets(Each::Failed, #[trigger] rs[i]) by {
                assert(p(rs[i]));
            }
        }
        if all_meet(Each::Failed, rs, 0) {
            assert forall|i: int| 0 <= i < rs.len() implies p(#[trigger] rs[i]) by {
                assert(meets(Each::Failed, rs[i]));
            }
        }
    }
    if all_such(run, p) {
        assert forall|j: int| 0 <= j < run.len() implies (finished(#[trigger] run[j]) matches Some(r)
            ==> !r.success) by {
            assert(finished(run[j]) matches Some(r) ==> p(r));
        }
    }
}

proof fn lemma_silent(run: Seq<QueryProgress>)
    ensures
        all_meet(Each::SucceededOrSilent, results(run), 0) <==> forall|j: int|
            0 <= j < run.len() ==> (finished(#[trigger] run[j]) matches Some(r) ==> r.success
                || r.message@.len() == 0),
{
    let rs = results(run);
    let p = |r: QueryResult| r.success || r.message@.len() == 0;
    lemma_every(run, p);
    assert(every(rs, p) <==> all_meet(Each::SucceededOrSilent, rs, 0)) by {
        if every(rs, p) {
            assert forall|i: int| 0 <= i < rs.len() implies meets(
                Each::SucceededOrSilent,
                #[trigger] rs[i],
            ) by {
                assert(p(rs[i]));
            }
        }
        if all_meet(Each::SucceededOrSilent, rs, 0) {
            assert forall|i: int| 0 <= i < rs.len() implies p(#[trigger] rs[i]) by {
                assert(meets(Each::SucceededOrSilent, rs[i]));
            }
        }
    }
    if all_such(run, p) {
        assert forall|j: int| 0 <= j < run.len() implies (finished(#[trigger] run[j]) matches Some(r)
            ==> r.success || r.message@.len() == 0) by {
            assert(finished(run[j]) matches Some(r) ==> p(r));
        }
    }
}

proof fn lemma_says(run: Seq<QueryProgress>, arg: Seq<char>)
    ensures
        !failure_says(results(run), arg) <==> forall|j: int|
            0 <= j < run.len() ==> (finished(#[trigger] run[j]) matches Some(r) ==> r.success
                || !contains(upper(r.message@), arg)),
{
    let rs = results(run);
    let p = |r: QueryResult| r.success || !contains(upper(r.message@), arg);
    lemma_every(run, p);
    assert(every(rs, p) <==> !failure_says(rs, arg)) by {
        if !failure_says(rs, arg) {
            assert forall|i: int| 0 <= i < rs.len() implies p(#[trigger] rs[i]) by {}
        }
        if failure_says(rs, arg) {
            let i = choose|i: int|
                0 <= i < rs.len() && !(#[trigger] rs[i]).success && contains(
                    upper(rs[i].message@),
                    arg,
                );
            assert(!p(rs[i]));
        }
    }
    if all_such(run, p) {
        assert forall|j: int| 0 <= j < run.len() implies (finished(#[trigger] run[j]) matches Some(r)
            ==> r.success || !contains(upper(r.message@), arg)) by {
            assert(finished(run[j]) matches Some(r) ==> p(r));
        }
    }
}

proof fn lemma_statements(run: Seq<QueryProgress>, arg: Seq<char>)
    ensures
        !statement_holds(results(run), arg) <==> forall|j: int|
            0 <= j < run.len() ==> (finished(#[trigger] run[j]) matches Some(r) ==> !contains(
                upper(r.sql@),
                arg,
            )),
{
    let rs = results(run);
    let p = |r: QueryResult| !contains(upper(r.sql@), arg);
    lemma_every(run, p);
    assert(every(rs, p) <==> !statement_holds(rs, arg)) by {
        if !statement_holds(rs, arg) {
            assert forall|i: int| 0 <= i < rs.len() implies p(#[trigger] rs[i]) by {}
        }
        if statement_holds(rs, arg) {
            let i = choose|i: int|
                0 <= i < rs.len() && contains(upper((#[trigger] rs[i]).sql@), arg);
            assert(!p(rs[i]));
        }
    }
    if all_such(run, p) {
        assert forall|j: int| 0 <= j < run.len() implies (finished(#[trigger] run[j]) matches Some(r)
            ==> !contains(upper(r.sql@), arg)) by {
            assert(finished(run[j]) matches Some(r) ==> p(r));
        }
    }
}

spec fn every(rs: Seq<QueryResult>, kind: spec_fn(QueryResult) -> bool) -> bool {
    forall|i: int| 0 <= i < rs.len() ==> kind(#[trigger] rs[i])
}

spec fn all_such(run: Seq<QueryProgress>, kind: spec_fn(QueryResult) -> bool) -> bool {
    forall|j: int|
        0 <= j < run.len() ==> (finished(#[trigger] run[j]) matches Some(r) ==> kind(r))
}

proof fn lemma_every(run: Seq<QueryProgress>, kind: spec_fn(QueryResult) -> bool)
    ensures
        every(results(run), kind) <==> all_such(run, kind),
{
    every_finished_statement_is_reported(run);
    let rs = results(run);
    if every(rs, kind) {
        assert forall|j: int| 0 <= j < run.len() implies (finished(#[trigger] run[j]) matches Some(r)
            ==> kind(r)) by {
            if finished(run[j]) is Some {
                let k = choose|k: int|
                    0 <= k < rs.len() && finished(run[j]) == Some(#[trigger] rs[k]);
                assert(kind(rs[k]));
            }
        }
    }
    if all_such(run, kind) {
        assert forall|k: int| 0 <= k < rs.len() implies kind(#[trigger] rs[k]) by {
            let i = choose|i: int| 0 <= i < run.len() && finished(#[trigger] run[i]) == Some(rs[k]);
            assert(finished(run[i]) matches Some(r) ==> kind(r));
        }
    }
}

/// Nothing ran where an attempt was made and no event came; a statement did not
/// run where nothing came, or where something in it failed.
pub proof fn what_did_not_run_is_told(
    memory: Seq<Seen>,
    slot: int,
    other: int,
    arg: Seq<char>,
    run: Seq<QueryProgress>,
)
    ensures
        ran(memory, slot, run) ==> {
            &&& holds(Op::NothingRan, slot, other, arg, memory) <==> run.len() == 0
            &&& holds(Op::DidNotRun, slot, other, arg, memory) <==> run.len() == 0
                || !all_succeeded(run)
            &&& holds(Op::Did, slot, other, arg, memory) <==> all_succeeded(run)
            &&& holds(Op::SomethingRefused, slot, other, arg, memory) <==> !all_succeeded(run)
        },
        0 <= slot < memory.len() && !(memory[slot] is Run) ==> {
            &&& !holds(Op::NothingRan, slot, other, arg, memory)
            &&& holds(Op::DidNotRun, slot, other, arg, memory)
            &&& !holds(Op::Did, slot, other, arg, memory)
            &&& !holds(Op::StillWorks, slot, other, arg, memory)
            &&& !holds(Op::Finished, slot, other, arg, memory)
        },
{
    the_error_is_the_first_failure(run);
}

/// A tab was told of something where a line of its transcript has the phrase in
/// it; it still works where it ran and was told of no such thing.
pub proof fn what_a_tab_was_told(
    memory: Seq<Seen>,
    slot: int,
    other: int,
    arg: Seq<char>,
    run: Seq<QueryProgress>,
)
    requires
        ran(memory, slot, run),
    ensures
        holds(Op::ToldOf, slot, other, arg, memory) <==> exists|i: int|
            0 <= i < transcript(run).len() && contains((#[trigger] transcript(run)[i])@, arg),
        holds(Op::StillWorks, slot, other, arg, memory) <==> forall|i: int|
            0 <= i < transcript(run).len() ==> !contains((#[trigger] transcript(run)[i])@, arg),
{
}

/// Every tab keeps working where each slot from one to another holds a run.
pub proof fn tabs_work_where_each_ran(memory: Seq<Seen>, slot: int, other: int, arg: Seq<char>)
    requires
        0 <= slot,
        other < memory.len(),
    ensures
        holds(Op::RunsFine, slot, other, arg, memory) <==> forall|k: int|
            slot <= k <= other ==> (#[trigger] memory[k]) is Run,
{
    if holds(Op::RunsFine, slot, other, arg, memory) {
        assert forall|k: int| slot <= k <= other implies (#[trigger] memory[k]) is Run by {
            assert(crate::seen::at(memory, k) is Run);
        }
    }
    if forall|k: int| slot <= k <= other ==> (#[trigger] memory[k]) is Run {
        assert forall|k: int| slot <= k <= other implies (#[trigger] crate::seen::at(
            memory,
            k,
        )) is Run by {
            assert(memory[k] is Run);
        }
    }
}

/// A script says what some of its messages say, and a cell is what a script
/// brought last.
pub proof fn what_a_script_brought(
    memory: Seq<Seen>,
    slot: int,
    other: int,
    arg: Seq<char>,
    run: Seq<QueryProgress>,
    k: int,
)
    requires
        ran(memory, slot, run),
    ensures
        holds(Op::ScriptSays, slot, other, arg, memory) <==> contains(
            joined(
                Seq::new(results(run).len(), |i: int| results(run)[i].message@),
                " || "@,
            ),
            arg,
        ),
        holds(Op::CellIs, slot, other, arg, memory) <==> first_cell_spec(run) == Some(arg),
{
    assert(result_messages(results(run)) =~= Seq::new(
        results(run).len(),
        |i: int| results(run)[i].message@,
    ));
}

} // verus!
