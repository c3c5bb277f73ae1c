//! Laws of the probe machine: what a run as a whole comes to, whatever the
//! answers are.
use vstd::prelude::*;

use crate::machine::{
    answered, before, course, fault, judged, lemma_before, lemma_step_moves_on, mark_after, settle,
    step, waiting, Course, Row, Weight,
};
use crate::op::{class, Class, Op};
use crate::seen::{at, names, Seen};
use crate::template::fill;
use crate::verdict::{flag, holds};

verus! {

proof fn lemma_settled(plan: Seq<Row>, c: Course)
    requires
        0 <= c.at <= plan.len(),
    ensures
        c.at <= settle(plan, c).at <= plan.len(),
        settle(plan, settle(plan, c)) == settle(plan, c),
        waiting(plan, settle(plan, c)) <==> settle(plan, c).at < plan.len(),
    decreases plan.len() - c.at,
{
    if c.at < plan.len() && class(plan[c.at].0) != Class::Action {
        lemma_step_moves_on(plan, c);
        steps_move_on(plan, c);
        lemma_settled(plan, step(plan, c));
    }
}

pub proof fn steps_move_on(plan: Seq<Row>, c: Course)
    requires
        0 <= c.at < plan.len(),
        class(plan[c.at].0) != Class::Action,
    ensures
        c.at < step(plan, c).at <= plan.len(),
{
    lemma_before(plan.skip(c.at + 1), Op::Cleanup);
    lemma_before(plan.skip(c.at + 1), Op::Join);
}

pub proof fn answers_move_on(plan: Seq<Row>, c: Course, seen: Seen)
    requires
        0 <= c.at < plan.len(),
    ensures
        c.at < answered(plan, c, seen).at <= plan.len(),
{
    lemma_before(plan.skip(c.at + 1), Op::Cleanup);
    lemma_before(plan.skip(c.at + 1), Op::Join);
}

/// Answering step by step is the same as a course over all the answers: one
/// answer more makes one action more, and the steps behind it; once the plan is
/// done, an answer changes nothing.
pub proof fn answering_is_folding(plan: Seq<Row>, c: Course, answers: Seq<Seen>, seen: Seen)
    requires
        0 <= c.at <= plan.len(),
    ensures
        ({
            let here = course(plan, c, answers);
            course(plan, c, answers.push(seen)) == if waiting(plan, here) {
                settle(plan, answered(plan, here, seen))
            } else {
                here
            }
        }),
    decreases answers.len(),
{
    let here = settle(plan, c);
    lemma_settled(plan, c);
    let more = answers.push(seen);
    if answers.len() == 0 {
        if waiting(plan, here) {
            assert(more.drop_first() =~= Seq::empty());
            assert(more[0] == seen);
            let next = answered(plan, here, seen);
            assert(course(plan, next, Seq::<Seen>::empty()) == settle(plan, next));
        }
    } else if waiting(plan, here) {
        answers_move_on(plan, here, answers[0]);
        assert(more[0] == answers[0]);
        assert(more.drop_first() =~= answers.drop_first().push(seen));
        answering_is_folding(plan, answered(plan, here, answers[0]), answers.drop_first(), seen);
    }
}

/// A probe ends: after as many answers as its plan has rows it waits for none.
pub proof fn a_probe_ends(plan: Seq<Row>, c: Course, answers: Seq<Seen>)
    requires
        0 <= c.at <= plan.len(),
        answers.len() >= plan.len() - c.at,
    ensures
        !waiting(plan, course(plan, c, answers)),
        course(plan, c, answers).at == plan.len(),
    decreases answers.len(),
{
    let here = settle(plan, c);
    lemma_settled(plan, c);
    if waiting(plan, here) {
        answers_move_on(plan, here, answers[0]);
        a_probe_ends(plan, answered(plan, here, answers[0]), answers.drop_first());
    }
}

/// Whether one list begins with another.
pub open spec fn extends(later: Seq<Seq<char>>, earlier: Seq<Seq<char>>) -> bool {
    earlier.len() <= later.len() && later.take(earlier.len() as int) == earlier
}

/// Whether a later state holds all that an earlier one had recorded.
pub open spec fn remembers(later: Course, earlier: Course) -> bool {
    &&& extends(later.failures, earlier.failures)
    &&& extends(later.log, earlier.log)
    &&& earlier.error is Some ==> later.error is Some
}

proof fn lemma_extends(a: Seq<Seq<char>>, b: Seq<Seq<char>>, c: Seq<Seq<char>>)
    requires
        extends(b, a),
        extends(c, b),
    ensures
        extends(c, a),
{
    assert(c.take(a.len() as int) =~= b.take(a.len() as int));
}

proof fn lemma_remembers(a: Course, b: Course, c: Course)
    requires
        remembers(b, a),
        remembers(c, b),
    ensures
        remembers(c, a),
{
    lemma_extends(a.failures, b.failures, c.failures);
    lemma_extends(a.log, b.log, c.log);
}

proof fn lemma_step_remembers(plan: Seq<Row>, c: Course)
    ensures
        remembers(step(plan, c), c),
{
    let d = step(plan, c);
    assert(c.failures.take(c.failures.len() as int) =~= c.failures);
    assert(c.log.take(c.log.len() as int) =~= c.log);
    assert(d.failures.take(c.failures.len() as int) =~= c.failures);
    assert(d.log.take(c.log.len() as int) =~= c.log);
}

proof fn lemma_settle_remembers(plan: Seq<Row>, c: Course)
    requires
        0 <= c.at <= plan.len(),
    ensures
        remembers(settle(plan, c), c),
    decreases plan.len() - c.at,
{
    if c.at < plan.len() && class(plan[c.at].0) != Class::Action {
        steps_move_on(plan, c);
        lemma_step_remembers(plan, c);
        lemma_settle_remembers(plan, step(plan, c));
        lemma_remembers(c, step(plan, c), settle(plan, c));
    } else {
        assert(c.failures.take(c.failures.len() as int) =~= c.failures);
        assert(c.log.take(c.log.len() as int) =~= c.log);
    }
}

/// Nothing is taken back: whatever is answered later, the failures and the lines
/// recorded so far stay, in their order, and an error stays one.
pub proof fn nothing_is_taken_back(plan: Seq<Row>, c: Course, answers: Seq<Seen>)
    requires
        0 <= c.at <= plan.len(),
    ensures
        remembers(course(plan, c, answers), c),
    decreases answers.len(),
{
    let here = settle(plan, c);
    lemma_settled(plan, c);
    lemma_settle_remembers(plan, c);
    if answers.len() > 0 && waiting(plan, here) {
        let next = answered(plan, here, answers[0]);
        answers_move_on(plan, here, answers[0]);
        assert(remembers(next, here)) by {
            assert(here.failures.take(here.failures.len() as int) =~= here.failures);
            assert(here.log.take(here.log.len() as int) =~= here.log);
            assert(next.failures.take(here.failures.len() as int) =~= here.failures);
            assert(next.log.take(here.log.len() as int) =~= here.log);
        }
        nothing_is_taken_back(plan, next, answers.drop_first());
        lemma_remembers(c, here, next);
        lemma_remembers(c, next, course(plan, c, answers));
    }
}

/// Whether nothing has failed so far.
pub open spec fn clean(c: Course) -> bool {
    c.failures.len() == 0 && c.error is None
}

/// Whether a step that is no action is a test that does not hold and whose
/// failure costs something.
pub open spec fn stumbles(plan: Seq<Row>, c: Course) -> bool {
    let row = plan[c.at];
    &&& class(row.0) != Class::Control
    &&& row.1 != Weight::Try
    &&& !holds(row.0, row.2 as int, row.3 as int, fill(row.4@, c.memory), c.memory)
}

/// Whether an answer is a failure that costs something.
pub open spec fn answer_stumbles(plan: Seq<Row>, c: Course, seen: Seen) -> bool {
    let row = plan[c.at];
    row.1 != Weight::Try && fault(row, fill(row.4@, c.memory), seen) is Some
}

/// Whether any step before the next action stumbles.
pub open spec fn settling_stumbles(plan: Seq<Row>, c: Course) -> bool
    decreases plan.len() - c.at,
{
    if c.at < 0 || c.at >= plan.len() || class(plan[c.at].0) == Class::Action {
        false
    } else {
        stumbles(plan, c) || settling_stumbles(plan, step(plan, c))
    }
}

/// Whether any step of a whole run stumbles.
pub open spec fn course_stumbles(plan: Seq<Row>, c: Course, answers: Seq<Seen>) -> bool
    decreases answers.len(),
{
    let here = settle(plan, c);
    settling_stumbles(plan, c) || (answers.len() > 0 && waiting(plan, here) && (answer_stumbles(
        plan,
        here,
        answers[0],
    ) || course_stumbles(plan, answered(plan, here, answers[0]), answers.drop_first())))
}

proof fn lemma_step_clean(plan: Seq<Row>, c: Course)
    requires
        0 <= c.at < plan.len(),
        class(plan[c.at].0) != Class::Action,
        clean(c),
    ensures
        clean(step(plan, c)) <==> !stumbles(plan, c),
{
}

proof fn lemma_settle_clean(plan: Seq<Row>, c: Course)
    requires
        0 <= c.at <= plan.len(),
        clean(c),
    ensures
        clean(settle(plan, c)) <==> !settling_stumbles(plan, c),
    decreases plan.len() - c.at,
{
    if c.at < plan.len() && class(plan[c.at].0) != Class::Action {
        steps_move_on(plan, c);
        lemma_step_clean(plan, c);
        if stumbles(plan, c) {
            lemma_settle_remembers(plan, step(plan, c));
        } else {
            lemma_settle_clean(plan, step(plan, c));
        }
    }
}

/// A run is clean exactly where nothing stumbled in it: no test of any weight
/// but a mere try failed, and no action either.
pub proof fn a_run_is_clean_exactly_without_a_stumble(
    plan: Seq<Row>,
    c: Course,
    answers: Seq<Seen>,
)
    requires
        0 <= c.at <= plan.len(),
        clean(c),
    ensures
        clean(course(plan, c, answers)) <==> !course_stumbles(plan, c, answers),
    decreases answers.len(),
{
    let here = settle(plan, c);
    lemma_settled(plan, c);
    lemma_settle_clean(plan, c);
    if answers.len() > 0 && waiting(plan, here) {
        let next = answered(plan, here, answers[0]);
        answers_move_on(plan, here, answers[0]);
        if settling_stumbles(plan, c) {
            nothing_is_taken_back(plan, here, answers);
            assert(settle(plan, here) == here);
            assert(course(plan, here, answers) == course(plan, c, answers));
        } else {
            assert(clean(next) <==> !answer_stumbles(plan, here, answers[0]));
            if clean(next) {
                a_run_is_clean_exactly_without_a_stumble(plan, next, answers.drop_first());
            } else {
                nothing_is_taken_back(plan, next, answers.drop_first());
            }
        }
    }
}

/// A demand that fails leaves out what stands before the clean-up, and no
/// clean-up: the run goes on at the next one, or ends where there is none.
pub proof fn a_failed_demand_goes_to_the_cleanup(
    plan: Seq<Row>,
    c: Course,
    memory: Seq<Seen>,
    said: Seq<char>,
)
    requires
        0 <= c.at < plan.len(),
        plan[c.at].1 == Weight::Demand,
    ensures
        ({
            let next = judged(plan, c, memory, false, said);
            &&& next.error == Some(said)
            &&& next.at == plan.len() || plan[next.at].0 == Op::Cleanup
            &&& forall|i: int| c.at < i < next.at ==> (#[trigger] plan[i]).0 != Op::Cleanup
        }),
{
    let rest = plan.skip(c.at + 1);
    lemma_before(rest, Op::Cleanup);
    let n = before(rest, Op::Cleanup) as int;
    let next = judged(plan, c, memory, false, said);
    assert(next.at == mark_after(plan, c.at, Op::Cleanup));
    assert forall|i: int| c.at < i < next.at implies (#[trigger] plan[i]).0 != Op::Cleanup by {
        assert(plan[i] == rest[i - c.at - 1]);
    }
    if next.at < plan.len() {
        assert(plan[next.at] == rest[n]);
    }
}

/// Whether a step may leave out rows, by its own number.
pub open spec fn skips(op: Op) -> bool {
    op == Op::SkipUnless || op == Op::SkipUnlessFine || op == Op::SkipUnlessFailed || op
        == Op::SkipIfFailed || op == Op::SkipIf || op == Op::SkipIfCounted || op
        == Op::SkipUnlessDid || op == Op::SkipUnlessNamed || op == Op::SkipIfNamed || op
        == Op::Cleanup
}

/// Whether a row leads to a later one and not over it: it does not end the run
/// or leave a part, and what it may leave out stands before that row.
pub open spec fn keeps(plan: Seq<Row>, i: int, k: int) -> bool {
    let row = plan[i];
    &&& row.1 != Weight::Leave
    &&& row.1 != Weight::Part
    &&& row.0 != Op::Settled
    &&& skips(row.0) ==> i + 1 + row.3 <= k
    &&& row.1 == Weight::Demand || row.1 == Weight::Quit ==> mark_after(plan, i, Op::Cleanup) <= k
}

/// Whether every row from one on leads to a later one.
pub open spec fn leads_to(plan: Seq<Row>, from: int, k: int) -> bool {
    &&& 0 <= from <= k < plan.len()
    &&& forall|i: int| from <= i < k ==> #[trigger] keeps(plan, i, k)
}

proof fn lemma_no_mark_jumps_over(plan: Seq<Row>, at: int, k: int)
    requires
        0 <= at < k < plan.len(),
        plan[k].0 == Op::Cleanup,
    ensures
        mark_after(plan, at, Op::Cleanup) <= k,
{
    let rest = plan.skip(at + 1);
    lemma_before(rest, Op::Cleanup);
    assert(rest[k - at - 1] == plan[k]);
}

/// The state in which a run stands at a row, if it ever does.
pub open spec fn state_at(plan: Seq<Row>, c: Course, answers: Seq<Seen>, k: int) -> Option<Course>
    decreases answers.len(), plan.len() - c.at,
{
    if c.at == k {
        Some(c)
    } else if c.at < 0 || c.at >= plan.len() {
        None
    } else if class(plan[c.at].0) == Class::Action {
        if answers.len() > 0 {
            state_at(plan, answered(plan, c, answers[0]), answers.drop_first(), k)
        } else {
            None
        }
    } else {
        state_at(plan, step(plan, c), answers, k)
    }
}

/// Whether a run stands at a row at some time.
pub open spec fn passes(plan: Seq<Row>, c: Course, answers: Seq<Seen>, k: int) -> bool {
    state_at(plan, c, answers, k) is Some
}

/// A row that everything before it leads to is never left out: a run that gets
/// beyond it has stood at it, whatever failed on the way.
pub proof fn what_is_led_to_is_never_left_out(
    plan: Seq<Row>,
    from: int,
    c: Course,
    answers: Seq<Seen>,
    k: int,
)
    requires
        leads_to(plan, from, k),
        from <= c.at <= k,
        course(plan, c, answers).at > k,
    ensures
        passes(plan, c, answers, k),
    decreases answers.len(), plan.len() - c.at,
{
    if c.at < k {
        assert(keeps(plan, c.at, k));
        if class(plan[c.at].0) == Class::Action {
            assert(settle(plan, c) == c);
            if answers.len() > 0 {
                let next = answered(plan, c, answers[0]);
                answers_move_on(plan, c, answers[0]);
                what_is_led_to_is_never_left_out(plan, from, next, answers.drop_first(), k);
            }
        } else {
            steps_move_on(plan, c);
            let next = step(plan, c);
            assert(settle(plan, c) == settle(plan, next));
            assert(course(plan, c, answers) == course(plan, next, answers));
            what_is_led_to_is_never_left_out(plan, from, next, answers, k);
        }
    }
}

/// Whether rows keep to themselves: none ends the run, leaves a part, or leaves
/// out more than what follows among them.
pub open spec fn keeps_to(rows: Seq<Row>) -> bool {
    forall|i: int|
        0 <= i < rows.len() ==> {
            let row = #[trigger] rows[i];
            &&& row.1 != Weight::Leave
            &&& row.1 != Weight::Part
            &&& row.0 != Op::Settled
            &&& skips(row.0) ==> i + 1 + row.3 <= rows.len()
        }
}

/// Rows that keep to themselves do so together.
pub proof fn keeping_adds_up(a: Seq<Row>, b: Seq<Row>)
    requires
        keeps_to(a),
        keeps_to(b),
    ensures
        keeps_to(a + b),
{
    let all = a + b;
    assert forall|i: int| 0 <= i < all.len() implies {
        let row = #[trigger] all[i];
        &&& row.1 != Weight::Leave
        &&& row.1 != Weight::Part
        &&& row.0 != Op::Settled
        &&& skips(row.0) ==> i + 1 + row.3 <= all.len()
    } by {
        if i < a.len() {
            assert(all[i] == a[i]);
        } else {
            assert(all[i] == b[i - a.len()]);
        }
    }
}

/// Whether a step's failure steers nothing.
pub open spec fn merely_tried(row: Row) -> bool {
    row.1 == Weight::Try || row.1 == Weight::Keep
}

/// Rows that keep to themselves lead to the clean-up behind them, and to every
/// row that is merely tried behind that.
pub proof fn a_cleanup_follows(
    start: Seq<Row>,
    rows: Seq<Row>,
    closing: Seq<Row>,
    rest: Seq<Row>,
    j: int,
)
    requires
        keeps_to(rows),
        0 <= j < closing.len(),
        closing[0].0 == Op::Cleanup,
        closing[0].3 == 0,
        forall|i: int| 0 <= i < closing.len() ==> merely_tried(#[trigger] closing[i]),
        forall|i: int| 1 <= i < closing.len() ==> class((#[trigger] closing[i]).0) == Class::Action,
    ensures
        leads_to(
            start + rows + closing + rest,
            start.len() as int,
            start.len() + rows.len() + j,
        ),
{
    let plan = start + rows + closing + rest;
    let from = start.len() as int;
    let mark = from + rows.len();
    let k = mark + j;
    assert(plan[mark] == closing[0]);
    assert forall|i: int| from <= i < k implies #[trigger] keeps(plan, i, k) by {
        if i < mark {
            assert(plan[i] == rows[i - from]);
            lemma_no_mark_jumps_over(plan, i, mark);
        } else {
            assert(plan[i] == closing[i - mark]);
        }
    }
}

/// In a run that ends clean, every test that it stood at held, unless it was
/// merely tried.
pub proof fn in_a_clean_run_every_test_held(
    plan: Seq<Row>,
    c: Course,
    answers: Seq<Seen>,
    k: int,
)
    requires
        0 <= c.at <= plan.len(),
        0 <= k < plan.len(),
        clean(c),
        clean(course(plan, c, answers)),
        passes(plan, c, answers, k),
        class(plan[k].0) != Class::Action,
    ensures
        ({
            let s = state_at(plan, c, answers, k)->0;
            &&& s.at == k
            &&& clean(s)
            &&& !stumbles(plan, s)
        }),
    decreases answers.len(), plan.len() - c.at,
{
    if c.at == k {
        steps_move_on(plan, c);
        lemma_step_clean(plan, c);
        assert(settle(plan, c) == settle(plan, step(plan, c)));
        assert(course(plan, c, answers) == course(plan, step(plan, c), answers));
        nothing_is_taken_back(plan, step(plan, c), answers);
    } else if class(plan[c.at].0) == Class::Action {
        assert(settle(plan, c) == c);
        let next = answered(plan, c, answers[0]);
        answers_move_on(plan, c, answers[0]);
        nothing_is_taken_back(plan, next, answers.drop_first());
        in_a_clean_run_every_test_held(plan, next, answers.drop_first(), k);
    } else {
        let next = step(plan, c);
        steps_move_on(plan, c);
        lemma_step_clean(plan, c);
        assert(settle(plan, c) == settle(plan, next));
        assert(course(plan, c, answers) == course(plan, next, answers));
        nothing_is_taken_back(plan, next, answers);
        in_a_clean_run_every_test_held(plan, next, answers, k);
    }
}

/// Whether rows leave nothing out of themselves: each is followed by the next
/// one, as long as nothing fails.
pub open spec fn plain(rows: Seq<Row>) -> bool {
    forall|i: int| 0 <= i < rows.len() ==> leaves_nothing_out(#[trigger] rows[i])
}

pub open spec fn leaves_nothing_out(row: Row) -> bool {
    skips(row.0) ==> row.3 == 0
}

/// Plain rows are plain together.
pub proof fn plain_adds_up(a: Seq<Row>, b: Seq<Row>)
    requires
        plain(a),
        plain(b),
    ensures
        plain(a + b),
{
    assert forall|i: int| 0 <= i < (a + b).len() implies leaves_nothing_out(
        #[trigger] (a + b)[i],
    ) by {
        if i < a.len() {
            assert((a + b)[i] == a[i]);
        } else {
            assert((a + b)[i] == b[i - a.len()]);
        }
    }
}

/// A run that ends clean, and not before the end of the plain rows it began in,
/// has stood at every one of them; each state comes of the one before by one
/// step or by one answer.
pub proof fn a_clean_run_makes_every_step(
    plan: Seq<Row>,
    c: Course,
    answers: Seq<Seen>,
    m: int,
    k: int,
)
    requires
        m <= plan.len(),
        plain(plan.take(m)),
        0 <= c.at <= k < m,
        clean(c),
        clean(course(plan, c, answers)),
        course(plan, c, answers).at >= m,
    ensures
        passes(plan, c, answers, k),
        state_at(plan, c, answers, k)->0.at == k,
        ({
            let s = state_at(plan, c, answers, k)->0;
            let t = state_at(plan, c, answers, k + 1);
            if class(plan[k].0) == Class::Action {
                exists|seen: Seen| t == Some(#[trigger] answered(plan, s, seen))
            } else {
                t == Some(step(plan, s))
            }
        }),
    decreases answers.len(), plan.len() - c.at,
{
    assert(plan.take(m)[c.at] == plan[c.at]);
    if class(plan[c.at].0) == Class::Action {
        assert(settle(plan, c) == c);
        let next = answered(plan, c, answers[0]);
        answers_move_on(plan, c, answers[0]);
        nothing_is_taken_back(plan, next, answers.drop_first());
        assert(clean(next));
        assert(next.at == c.at + 1);
        if c.at == k {
            assert(state_at(plan, next, answers.drop_first(), k + 1) == Some(next));
            assert(state_at(plan, c, answers, k + 1) == Some(answered(plan, c, answers[0])));
        } else {
            a_clean_run_makes_every_step(plan, next, answers.drop_first(), m, k);
        }
    } else {
        let next = step(plan, c);
        steps_move_on(plan, c);
        lemma_step_clean(plan, c);
        assert(settle(plan, c) == settle(plan, next));
        assert(course(plan, c, answers) == course(plan, next, answers));
        nothing_is_taken_back(plan, next, answers);
        assert(clean(next));
        assert(next.at == c.at + 1);
        if c.at == k {
            assert(state_at(plan, next, answers, k + 1) == Some(next));
        } else {
            a_clean_run_makes_every_step(plan, next, answers, m, k);
        }
    }
}

/// Whether a run stood at a test that costs something, and it held.
pub open spec fn test_held(plan: Seq<Row>, c: Course, answers: Seq<Seen>, k: int) -> bool {
    let row = plan[k];
    state_at(plan, c, answers, k) matches Some(s) && holds(
        row.0,
        row.2 as int,
        row.3 as int,
        fill(row.4@, s.memory),
        s.memory,
    )
}

/// Whether a row is a test whose failure costs something.
pub open spec fn is_test(row: Row) -> bool {
    class(row.0) != Class::Action && class(row.0) != Class::Control && row.1 != Weight::Try
}

/// A run of a plain plan that ends clean, and at the plan's end, has made every
/// test, and every one held.
pub proof fn a_clean_run_passes_every_test(
    plan: Seq<Row>,
    c: Course,
    answers: Seq<Seen>,
    k: int,
)
    requires
        plain(plan),
        0 <= c.at <= k < plan.len(),
        clean(c),
        clean(course(plan, c, answers)),
        course(plan, c, answers).at == plan.len(),
        is_test(plan[k]),
    ensures
        test_held(plan, c, answers, k),
{
    assert(plan.take(plan.len() as int) =~= plan);
    a_clean_run_makes_every_step(plan, c, answers, plan.len() as int, k);
    in_a_clean_run_every_test_held(plan, c, answers, k);
}

/// Whether a step that may leave out rows does so in a state.
pub open spec fn leaves_out(row: Row, c: Course) -> bool {
    match row.0 {
        Op::Cleanup => c.error is None,
        Op::SkipUnless => !flag(at(c.memory, row.2 as int)),
        Op::SkipIf => flag(at(c.memory, row.2 as int)),
        Op::SkipUnlessFine => !holds(Op::LastSucceeded, row.2 as int, 0, Seq::empty(), c.memory),
        Op::SkipUnlessFailed => !(at(c.memory, row.2 as int) is Failed),
        Op::SkipIfFailed => at(c.memory, row.2 as int) is Failed,
        Op::SkipIfCounted => holds(
            Op::CountTextIs,
            row.2 as int,
            0,
            fill(row.4@, c.memory),
            c.memory,
        ),
        Op::SkipUnlessDid => !holds(Op::Did, row.2 as int, 0, Seq::empty(), c.memory),
        Op::SkipUnlessNamed => names(at(c.memory, row.2 as int)).len() == 0,
        Op::SkipIfNamed => names(at(c.memory, row.2 as int)).len() > 0,
        _ => false,
    }
}

/// Whether a run stood at a step that leaves out rows up to beyond one, in a
/// state in which it does so.
pub open spec fn left_out_by(
    plan: Seq<Row>,
    c: Course,
    answers: Seq<Seen>,
    i: int,
    k: int,
) -> bool {
    &&& c.at <= i < k < i + 1 + plan[i].3
    &&& skips(plan[i].0)
    &&& state_at(plan, c, answers, i) matches Some(s) && leaves_out(plan[i], s)
}

/// Whether a run left a row out for a reason: a step before it, at which the run
/// stood, leaves it out under a condition that held there.
pub open spec fn left_out(plan: Seq<Row>, c: Course, answers: Seq<Seen>, k: int) -> bool {
    exists|i: int| #[trigger] left_out_by(plan, c, answers, i, k)
}

/// A run that ends clean, and at the plan's end, has stood at every row but those
/// that a step left out, each under the condition of that step.
pub proof fn a_clean_run_stands_at_all_that_is_not_left_out(
    plan: Seq<Row>,
    c: Course,
    answers: Seq<Seen>,
    k: int,
)
    requires
        0 <= c.at <= k < plan.len(),
        clean(c),
        clean(course(plan, c, answers)),
        course(plan, c, answers).at == plan.len(),
    ensures
        passes(plan, c, answers, k) || left_out(plan, c, answers, k),
    decreases answers.len(), plan.len() - c.at,
{
    if c.at < k {
        if class(plan[c.at].0) == Class::Action {
            assert(settle(plan, c) == c);
            let rest = answers.drop_first();
            let next = answered(plan, c, answers[0]);
            answers_move_on(plan, c, answers[0]);
            nothing_is_taken_back(plan, next, rest);
            assert(clean(next) && next.at == c.at + 1);
            a_clean_run_stands_at_all_that_is_not_left_out(plan, next, rest, k);
            if !passes(plan, next, rest, k) {
                let i = choose|i: int| #[trigger] left_out_by(plan, next, rest, i, k);
                assert(state_at(plan, c, answers, i) == state_at(plan, next, rest, i));
                assert(left_out_by(plan, c, answers, i, k));
            }
        } else {
            let next = step(plan, c);
            steps_move_on(plan, c);
            lemma_step_clean(plan, c);
            assert(settle(plan, c) == settle(plan, next));
            assert(course(plan, c, answers) == course(plan, next, answers));
            nothing_is_taken_back(plan, next, answers);
            assert(clean(next));
            if next.at <= k {
                a_clean_run_stands_at_all_that_is_not_left_out(plan, next, answers, k);
                if !passes(plan, next, answers, k) {
                    let i = choose|i: int| #[trigger] left_out_by(plan, next, answers, i, k);
                    assert(state_at(plan, c, answers, i) == state_at(plan, next, answers, i));
                    assert(left_out_by(plan, c, answers, i, k));
                }
            } else {
                assert(state_at(plan, c, answers, c.at) == Some(c));
                assert(left_out_by(plan, c, answers, c.at, k));
            }
        }
    }
}

/// A run that ends clean, and at the plan's end, has made every test that no step
/// left out, and every one held.
pub proof fn a_clean_run_passes_every_test_not_left_out(
    plan: Seq<Row>,
    c: Course,
    answers: Seq<Seen>,
    k: int,
)
    requires
        0 <= c.at <= k < plan.len(),
        clean(c),
        clean(course(plan, c, answers)),
        course(plan, c, answers).at == plan.len(),
        is_test(plan[k]),
    ensures
        test_held(plan, c, answers, k) || left_out(plan, c, answers, k),
{
    a_clean_run_stands_at_all_that_is_not_left_out(plan, c, answers, k);
    if passes(plan, c, answers, k) {
        in_a_clean_run_every_test_held(plan, c, answers, k);
    }
}

/// Whether a run made an action, and nothing was wrong with the answer.
pub open spec fn went_well(plan: Seq<Row>, c: Course, answers: Seq<Seen>, k: int, seen: Seen) -> bool {
    &&& state_at(plan, c, answers, k) matches Some(s) && fault(
        plan[k],
        fill(plan[k].4@, s.memory),
        seen,
    ) is None && state_at(plan, c, answers, k + 1) == Some(answered(plan, s, seen))
}

/// In a run that ends clean, and at the plan's end, every action that it stood at
/// and whose failure costs something was answered, and nothing was wrong with the
/// answer.
pub proof fn in_a_clean_run_every_action_went_well(
    plan: Seq<Row>,
    c: Course,
    answers: Seq<Seen>,
    k: int,
)
    requires
        0 <= c.at <= plan.len(),
        0 <= k < plan.len(),
        clean(c),
        clean(course(plan, c, answers)),
        course(plan, c, answers).at == plan.len(),
        passes(plan, c, answers, k),
        class(plan[k].0) == Class::Action,
        plan[k].1 != Weight::Try,
    ensures
        exists|seen: Seen| #[trigger] went_well(plan, c, answers, k, seen),
    decreases answers.len(), plan.len() - c.at,
{
    if c.at == k {
        assert(settle(plan, c) == c);
        let next = answered(plan, c, answers[0]);
        answers_move_on(plan, c, answers[0]);
        nothing_is_taken_back(plan, next, answers.drop_first());
        assert(state_at(plan, next, answers.drop_first(), k + 1) == Some(next));
        assert(went_well(plan, c, answers, k, answers[0]));
    } else if class(plan[c.at].0) == Class::Action {
        assert(settle(plan, c) == c);
        let rest = answers.drop_first();
        let next = answered(plan, c, answers[0]);
        answers_move_on(plan, c, answers[0]);
        nothing_is_taken_back(plan, next, rest);
        lemma_no_way_back(plan, next, rest, k);
        in_a_clean_run_every_action_went_well(plan, next, rest, k);
        let seen = choose|seen: Seen| #[trigger] went_well(plan, next, rest, k, seen);
        assert(went_well(plan, c, answers, k, seen));
    } else {
        let next = step(plan, c);
        steps_move_on(plan, c);
        lemma_step_clean(plan, c);
        assert(settle(plan, c) == settle(plan, next));
        assert(course(plan, c, answers) == course(plan, next, answers));
        nothing_is_taken_back(plan, next, answers);
        lemma_no_way_back(plan, next, answers, k);
        in_a_clean_run_every_action_went_well(plan, next, answers, k);
        let seen = choose|seen: Seen| #[trigger] went_well(plan, next, answers, k, seen);
        assert(went_well(plan, c, answers, k, seen));
    }
}

/// A run never stands at a row behind it.
proof fn lemma_no_way_back(plan: Seq<Row>, c: Course, answers: Seq<Seen>, k: int)
    requires
        0 <= c.at <= plan.len(),
        passes(plan, c, answers, k),
    ensures
        c.at <= k,
    decreases answers.len(), plan.len() - c.at,
{
    if c.at != k && c.at < plan.len() {
        if class(plan[c.at].0) == Class::Action {
            answers_move_on(plan, c, answers[0]);
            lemma_no_way_back(plan, answered(plan, c, answers[0]), answers.drop_first(), k);
        } else {
            steps_move_on(plan, c);
            lemma_no_way_back(plan, step(plan, c), answers, k);
        }
    }
}

/// Whether a row writes a slot.
pub open spec fn writes(row: Row, slot: int) -> bool {
    row.2 == slot && (class(row.0) == Class::Action || row.0 == Op::Zero || row.0 == Op::KeepMax
        || row.0 == Op::Raise || row.0 == Op::Name)
}

/// In a run of plain rows that ends clean, a slot that no row between two writes
/// holds at the second what it held at the first.
pub proof fn an_unwritten_slot_is_kept(
    plan: Seq<Row>,
    c: Course,
    answers: Seq<Seen>,
    m: int,
    i: int,
    j: int,
    slot: int,
)
    requires
        m <= plan.len(),
        plain(plan.take(m)),
        0 <= c.at <= i <= j < m,
        clean(c),
        clean(course(plan, c, answers)),
        course(plan, c, answers).at >= m,
        forall|k: int| i <= k < j ==> !#[trigger] writes(plan[k], slot),
    ensures
        passes(plan, c, answers, i),
        passes(plan, c, answers, j),
        at(state_at(plan, c, answers, j)->0.memory, slot) == at(
            state_at(plan, c, answers, i)->0.memory,
            slot,
        ),
    decreases j - i,
{
    a_clean_run_makes_every_step(plan, c, answers, m, i);
    a_clean_run_makes_every_step(plan, c, answers, m, j);
    if i < j {
        an_unwritten_slot_is_kept(plan, c, answers, m, i, j - 1, slot);
        a_clean_run_makes_every_step(plan, c, answers, m, j - 1);
        assert(!writes(plan[j - 1], slot));
    }
}

/// A run keeps as many slots as it began with.
pub proof fn memory_keeps_its_size(plan: Seq<Row>, c: Course, answers: Seq<Seen>, k: int)
    requires
        0 <= c.at <= plan.len(),
        passes(plan, c, answers, k),
    ensures
        state_at(plan, c, answers, k)->0.memory.len() == c.memory.len(),
    decreases answers.len(), plan.len() - c.at,
{
    if c.at != k && 0 <= c.at < plan.len() {
        if class(plan[c.at].0) == Class::Action {
            let next = answered(plan, c, answers[0]);
            answers_move_on(plan, c, answers[0]);
            memory_keeps_its_size(plan, next, answers.drop_first(), k);
        } else {
            steps_move_on(plan, c);
            memory_keeps_its_size(plan, step(plan, c), answers, k);
        }
    }
}

} // verus!
