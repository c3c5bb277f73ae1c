//! What is read from the events of a run, event by event.
use vstd::prelude::*;

use crate::progress::{
    finished_flag, first_error_spec, first_where, inner, lines, mode_changes, results, rows,
    shown_modes, transcript, unsuccessful, wrapped, QueryProgress, QueryResult, TransactionMode,
};

verus! {

/// A wrapper stands for what it wraps, however deep, and any other event for
/// itself.
pub proof fn wrappers_stand_for_what_they_wrap(event: QueryProgress)
    ensures
        event matches QueryProgress::Operation { progress } ==> inner(event) == inner(*progress),
        event matches QueryProgress::StatementOrigin { progress } ==> inner(event) == inner(
            *progress,
        ),
        !(event is Operation || event is StatementOrigin) ==> inner(event) == event,
        !(inner(event) is Operation || inner(event) is StatementOrigin),
        wrapped(event) <==> (event is Operation || event is StatementOrigin),
    decreases event,
{
    match event {
        QueryProgress::Operation { progress } => wrappers_stand_for_what_they_wrap(*progress),
        QueryProgress::StatementOrigin { progress } => wrappers_stand_for_what_they_wrap(
            *progress,
        ),
        _ => {},
    }
}

/// The statement that an event reports finished, if it reports one.
pub open spec fn finished(event: QueryProgress) -> Option<QueryResult> {
    match inner(event) {
        QueryProgress::StatementFinished { result } => Some(result),
        _ => None,
    }
}

/// Whether an event is the first of a run to report a finished statement.
pub open spec fn is_first(run: Seq<QueryProgress>, i: int) -> bool {
    &&& 0 <= i < run.len()
    &&& finished(run[i]) is Some
    &&& forall|j: int| 0 <= j < i ==> finished(#[trigger] run[j]) is None
}

/// Whether an event is the last of a run to report a finished statement.
pub open spec fn is_last(run: Seq<QueryProgress>, i: int) -> bool {
    &&& 0 <= i < run.len()
    &&& finished(run[i]) is Some
    &&& forall|j: int| i < j < run.len() ==> finished(#[trigger] run[j]) is None
}

/// Whether no event of a run reports a finished statement.
pub open spec fn none_finished(run: Seq<QueryProgress>) -> bool {
    forall|j: int| 0 <= j < run.len() ==> finished(#[trigger] run[j]) is None
}

/// How many events of a run report a finished statement.
pub open spec fn finished_count(run: Seq<QueryProgress>) -> nat {
    run.filter(|e: QueryProgress| finished(e) is Some).len()
}

/// The events of two runs read one after the other give what both give, one after
/// the other: the finished statements, the streamed rows, the lines, the modes
/// announced and the transcript.
pub proof fn runs_are_read_one_after_the_other(a: Seq<QueryProgress>, b: Seq<QueryProgress>)
    ensures
        results(a + b) == results(a) + results(b),
        rows(a + b) == rows(a) + rows(b),
        lines(a + b) == lines(a) + lines(b),
        mode_changes(a + b) == mode_changes(a) + mode_changes(b),
        shown_modes(a + b) == shown_modes(a) + shown_modes(b),
        transcript(a + b) == transcript(a) + transcript(b),
    decreases b.len(),
{
    if b.len() == 0 {
        assert(a + b =~= a);
        assert(results(a) + results(b) =~= results(a));
        assert(rows(a) + rows(b) =~= rows(a));
        assert(lines(a) + lines(b) =~= lines(a));
        assert(mode_changes(a) + mode_changes(b) =~= mode_changes(a));
        assert(shown_modes(a) + shown_modes(b) =~= shown_modes(a));
        assert(transcript(a) + transcript(b) =~= transcript(a));
    } else {
        let front = b.drop_last();
        runs_are_read_one_after_the_other(a, front);
        assert((a + b).drop_last() =~= a + front);
        assert((a + b).last() == b.last());
        assert(results(a + b) =~= results(a) + results(b));
        assert(rows(a + b) =~= rows(a) + rows(b));
        assert(lines(a + b) =~= lines(a) + lines(b));
        assert(mode_changes(a + b) =~= mode_changes(a) + mode_changes(b));
        assert(shown_modes(a + b) =~= shown_modes(a) + shown_modes(b));
        assert(transcript(a + b) =~= transcript(a) + transcript(b));
    }
}

/// What one event gives: a finished statement gives itself, and its message to the
/// transcript; rows give themselves; a message and a script's output give their
/// lines; a mode that is announced gives itself. Nothing else gives anything.
pub proof fn one_event_gives_what_it_carries(event: QueryProgress)
    ensures
        ({
            let run = seq![event];
            match inner(event) {
                QueryProgress::StatementFinished { result } => {
                    &&& results(run) == seq![result]
                    &&& transcript(run) == seq![result.message]
                },
                _ => results(run).len() == 0,
            }
        }),
        ({
            let run = seq![event];
            match inner(event) {
                QueryProgress::Rows { rows: batch } => rows(run) == batch@,
                _ => rows(run).len() == 0,
            }
        }),
        ({
            let run = seq![event];
            match inner(event) {
                QueryProgress::Message { lines: said } => lines(run) == said@ && transcript(run)
                    == said@,
                QueryProgress::ScriptOutput { lines: said } => lines(run) == said@ && transcript(
                    run,
                ) == said@,
                QueryProgress::StatementFinished { result } => lines(run).len() == 0,
                _ => lines(run).len() == 0 && transcript(run).len() == 0,
            }
        }),
        ({
            let run = seq![event];
            match inner(event) {
                QueryProgress::TransactionModeChanged { mode, shown } => mode_changes(run)
                    == seq![mode] && shown_modes(run) == seq![shown@],
                _ => mode_changes(run).len() == 0 && shown_modes(run).len() == 0,
            }
        }),
{
    let run = seq![event];
    assert(run.drop_last() =~= Seq::<QueryProgress>::empty());
    assert(run.last() == event);
    assert(results(run.drop_last()) =~= Seq::<QueryResult>::empty());
    assert(rows(run.drop_last()) =~= Seq::<Vec<String>>::empty());
    assert(lines(run.drop_last()) =~= Seq::<String>::empty());
    assert(transcript(run.drop_last()) =~= Seq::<String>::empty());
    assert(mode_changes(run.drop_last()) =~= Seq::<TransactionMode>::empty());
    assert(shown_modes(run.drop_last()) =~= Seq::<Seq<char>>::empty());
    match inner(event) {
        QueryProgress::StatementFinished { result } => {
            assert(results(run) =~= seq![result]);
            assert(transcript(run) =~= seq![result.message]);
        },
        QueryProgress::Rows { rows: batch } => {
            assert(rows(run) =~= batch@);
        },
        QueryProgress::Message { lines: said } => {
            assert(lines(run) =~= said@);
            assert(transcript(run) =~= said@);
        },
        QueryProgress::ScriptOutput { lines: said } => {
            assert(lines(run) =~= said@);
            assert(transcript(run) =~= said@);
        },
        QueryProgress::TransactionModeChanged { mode, shown } => {
            assert(mode_changes(run) =~= seq![mode]);
            assert(shown_modes(run) =~= seq![shown@]);
        },
        _ => {},
    }
}

/// The finished statements are those that the events report, and as many.
pub proof fn every_finished_statement_is_reported(run: Seq<QueryProgress>)
    ensures
        results(run).len() == finished_count(run),
        forall|k: int|
            0 <= k < results(run).len() ==> exists|i: int|
                0 <= i < run.len() && finished(#[trigger] run[i]) == Some(
                    #[trigger] results(run)[k],
                ),
        forall|i: int|
            #![trigger run[i]]
            0 <= i < run.len() && finished(run[i]) is Some ==> exists|k: int|
                0 <= k < results(run).len() && finished(run[i]) == Some(
                    #[trigger] results(run)[k],
                ),
    decreases run.len(),
{
    let f = |e: QueryProgress| finished(e) is Some;
    if run.len() == 0 {
        assert(run.filter(f).len() == 0) by {
            reveal(Seq::filter);
        }
    } else {
        let front = run.drop_last();
        let before = results(front);
        every_finished_statement_is_reported(front);
        assert(run.filter(f).len() == front.filter(f).len() + if f(run.last()) {
            1int
        } else {
            0
        }) by {
            reveal(Seq::filter);
        }
        assert forall|k: int| 0 <= k < results(run).len() implies exists|i: int|
            0 <= i < run.len() && finished(#[trigger] run[i]) == Some(
                #[trigger] results(run)[k],
            ) by {
            if k < before.len() {
                assert(results(run)[k] == before[k]);
                let i = choose|i: int|
                    0 <= i < front.len() && finished(#[trigger] front[i]) == Some(before[k]);
                assert(run[i] == front[i]);
            } else {
                assert(finished(run[run.len() - 1]) == Some(results(run)[k]));
            }
        }
        assert forall|i: int|
            #![trigger run[i]]
            0 <= i < run.len() && finished(run[i]) is Some implies exists|k: int|
            0 <= k < results(run).len() && finished(run[i]) == Some(#[trigger] results(run)[k]) by {
            if i < front.len() {
                assert(front[i] == run[i]);
                let k = choose|k: int|
                    0 <= k < before.len() && finished(front[i]) == Some(#[trigger] before[k]);
                assert(results(run)[k] == before[k]);
            } else {
                assert(results(run)[results(run).len() - 1] == finished(run[i])->0);
            }
        }
    }
}

proof fn lemma_none(run: Seq<QueryProgress>)
    ensures
        none_finished(run) <==> results(run).len() == 0,
{
    every_finished_statement_is_reported(run);
    if none_finished(run) && results(run).len() > 0 {
        let r = results(run)[0];
        let i = choose|i: int| 0 <= i < run.len() && finished(#[trigger] run[i]) == Some(r);
        assert(finished(run[i]) is None);
    }
    if results(run).len() == 0 {
        assert forall|j: int| 0 <= j < run.len() implies finished(#[trigger] run[j]) is None by {}
    }
}

/// The first and the last of the finished statements are those of the first and
/// the last event that reports one; there are none exactly where no event does.
pub proof fn the_first_and_the_last_statement(run: Seq<QueryProgress>)
    ensures
        none_finished(run) <==> results(run).len() == 0,
        forall|i: int| #[trigger]
            is_first(run, i) ==> results(run).len() > 0 && finished(run[i]) == Some(
                results(run)[0],
            ),
        forall|i: int| #[trigger]
            is_last(run, i) ==> results(run).len() > 0 && finished(run[i]) == Some(
                results(run).last(),
            ),
        results(run).len() > 0 ==> exists|i: int| #[trigger] is_first(run, i),
        results(run).len() > 0 ==> exists|i: int| #[trigger] is_last(run, i),
    decreases run.len(),
{
    lemma_none(run);
    if run.len() > 0 {
        let front = run.drop_last();
        let n = run.len() - 1;
        the_first_and_the_last_statement(front);
        assert forall|i: int| #[trigger] is_first(run, i) implies results(run).len() > 0
            && finished(run[i]) == Some(results(run)[0]) by {
            if i < n {
                assert forall|j: int| 0 <= j < i implies finished(#[trigger] front[j]) is None by {
                    assert(front[j] == run[j]);
                }
                assert(is_first(front, i));
            } else {
                assert forall|j: int| 0 <= j < front.len() implies finished(
                    #[trigger] front[j],
                ) is None by {
                    assert(front[j] == run[j]);
                }
                assert(none_finished(front));
            }
        }
        assert forall|i: int| #[trigger] is_last(run, i) implies results(run).len() > 0
            && finished(run[i]) == Some(results(run).last()) by {
            if i < n {
                assert(finished(run[n]) is None);
                assert forall|j: int| i < j < front.len() implies finished(
                    #[trigger] front[j],
                ) is None by {
                    assert(front[j] == run[j]);
                }
                assert(is_last(front, i));
            }
        }
        if results(run).len() > 0 {
            if results(front).len() > 0 {
                let i = choose|i: int| #[trigger] is_first(front, i);
                assert forall|j: int| 0 <= j < i implies finished(#[trigger] run[j]) is None by {
                    assert(front[j] == run[j]);
                }
                assert(is_first(run, i));
            } else {
                assert forall|j: int| 0 <= j < n implies finished(#[trigger] run[j]) is None by {
                    assert(front[j] == run[j]);
                }
                assert(is_first(run, n));
            }
            if finished(run[n]) is Some {
                assert(is_last(run, n));
            } else {
                let i = choose|i: int| #[trigger] is_last(front, i);
                assert forall|j: int| i < j < run.len() implies finished(
                    #[trigger] run[j],
                ) is None by {
                    if j < n {
                        assert(front[j] == run[j]);
                    }
                }
                assert(is_last(run, i));
            }
        }
    }
}

/// Whether an event is the first of a run to report a statement that failed.
pub open spec fn is_first_failure(run: Seq<QueryProgress>, i: int) -> bool {
    &&& 0 <= i < run.len()
    &&& finished(run[i]) matches Some(r) && !r.success
    &&& forall|j: int|
        0 <= j < i ==> (finished(#[trigger] run[j]) matches Some(r) ==> r.success)
}

/// Whether every statement that the events of a run report succeeded.
pub open spec fn all_succeeded(run: Seq<QueryProgress>) -> bool {
    forall|j: int|
        0 <= j < run.len() ==> (finished(#[trigger] run[j]) matches Some(r) ==> r.success)
}

proof fn lemma_first_where_push(
    rs: Seq<QueryResult>,
    r: QueryResult,
    holds: spec_fn(QueryResult) -> bool,
)
    ensures
        first_where(rs.push(r), holds) == match first_where(rs, holds) {
            Some(found) => Some(found),
            None => if holds(r) { Some(r) } else { None },
        },
    decreases rs.len(),
{
    if rs.len() == 0 {
        assert(rs.push(r).drop_first() =~= Seq::<QueryResult>::empty());
        assert(first_where(rs.push(r).drop_first(), holds) is None);
    } else {
        assert(rs.push(r).drop_first() =~= rs.drop_first().push(r));
        lemma_first_where_push(rs.drop_first(), r, holds);
    }
}

/// The error of a run is the message of the first statement that failed; a run
/// has none exactly where every statement in it succeeded.
pub proof fn the_error_is_the_first_failure(run: Seq<QueryProgress>)
    ensures
        first_error_spec(run) is None <==> all_succeeded(run),
        forall|i: int| #[trigger]
            is_first_failure(run, i) ==> first_error_spec(run) == Some(
                (finished(run[i])->0).message@,
            ),
    decreases run.len(),
{
    let p = |r: QueryResult| unsuccessful(r);
    if run.len() > 0 {
        let front = run.drop_last();
        let n = run.len() - 1;
        the_error_is_the_first_failure(front);
        match finished(run[n]) {
            Some(r) => {
                assert(results(run) == results(front).push(r));
                lemma_first_where_push(results(front), r, p);
            },
            None => {
                assert(results(run) == results(front));
            },
        }
        assert(all_succeeded(run) <==> all_succeeded(front) && (finished(run[n]) matches Some(r)
            ==> r.success)) by {
            if all_succeeded(run) {
                assert forall|j: int| 0 <= j < front.len() implies (finished(
                    #[trigger] front[j],
                ) matches Some(r) ==> r.success) by {
                    assert(front[j] == run[j]);
                }
            }
            if all_succeeded(front) && (finished(run[n]) matches Some(r) ==> r.success) {
                assert forall|j: int| 0 <= j < run.len() implies (finished(
                    #[trigger] run[j],
                ) matches Some(r) ==> r.success) by {
                    if j < n {
                        assert(front[j] == run[j]);
                    }
                }
            }
        }
        assert forall|i: int| #[trigger] is_first_failure(run, i) implies first_error_spec(run)
            == Some((finished(run[i])->0).message@) by {
            assert forall|j: int| 0 <= j < i implies (finished(#[trigger] front[j]) matches Some(r)
                ==> r.success) by {
                assert(front[j] == run[j]);
            }
            if i < n {
                assert(front[i] == run[i]);
                assert(is_first_failure(front, i));
            } else {
                assert(all_succeeded(front));
            }
        }
    } else {
        assert(results(run) =~= Seq::<QueryResult>::empty());
    }
}

/// Whether an event ends an execution, and if so, whether it was cancelled.
pub open spec fn ended(event: QueryProgress) -> Option<bool> {
    match inner(event) {
        QueryProgress::ExecutionFinished { cancelled } => Some(cancelled),
        _ => None,
    }
}

/// Whether an event is the last of a run that ends an execution.
pub open spec fn is_last_end(run: Seq<QueryProgress>, i: int) -> bool {
    &&& 0 <= i < run.len()
    &&& ended(run[i]) is Some
    &&& forall|j: int| i < j < run.len() ==> ended(#[trigger] run[j]) is None
}

/// A run was cancelled as its last end says; it says nothing where no event ends
/// an execution.
pub proof fn the_last_end_says_whether_it_was_cancelled(run: Seq<QueryProgress>)
    ensures
        forall|i: int| #[trigger] is_last_end(run, i) ==> finished_flag(run) == ended(run[i]),
        (forall|j: int| 0 <= j < run.len() ==> ended(#[trigger] run[j]) is None)
            <==> finished_flag(run) is None,
        finished_flag(run) is Some ==> exists|i: int| #[trigger] is_last_end(run, i),
    decreases run.len(),
{
    if run.len() > 0 {
        let front = run.drop_last();
        let n = run.len() - 1;
        the_last_end_says_whether_it_was_cancelled(front);
        if ended(run[n]) is Some {
            assert(is_last_end(run, n));
        } else {
            assert forall|i: int| #[trigger] is_last_end(run, i) implies finished_flag(run)
                == ended(run[i]) by {
                assert forall|j: int| i < j < front.len() implies ended(
                    #[trigger] front[j],
                ) is None by {
                    assert(front[j] == run[j]);
                }
                assert(is_last_end(front, i));
            }
            if finished_flag(run) is Some {
                let i = choose|i: int| #[trigger] is_last_end(front, i);
                assert forall|j: int| i < j < run.len() implies ended(#[trigger] run[j]) is None by {
                    if j < n {
                        assert(front[j] == run[j]);
                    }
                }
                assert(is_last_end(run, i));
                assert(ended(run[i]) is Some);
            } else {
                assert forall|j: int| 0 <= j < run.len() implies ended(#[trigger] run[j]) is None by {
                    if j < n {
                        assert(front[j] == run[j]);
                    }
                }
            }
        }
    }
}

} // verus!
