//! Laws of the routine probes: what they made is dropped however they end, and they
//! pass only where every call left nothing behind.
use vstd::prelude::*;

use crate::course::{
    a_clean_run_makes_every_step, a_clean_run_passes_every_test_not_left_out, a_cleanup_follows,
    clean, in_a_clean_run_every_test_held, is_test, keeping_adds_up, keeps_to, leads_to,
    leaves_nothing_out, left_out, memory_keeps_its_size, merely_tried, passes, plain, plain_adds_up,
    state_at, test_held, what_is_led_to_is_never_left_out, writes,
};
use crate::laws::outcome::{
    a_slot_is_kept_on_the_way, an_answer_stands_until_then, ended_cancelled, ended_well,
    ends_are_told_by_the_events, passed, was_answered,
};
use crate::laws::tabs::yes_and_no_are_tested;
use crate::progress::results;
use crate::machine::{course, given, kept, opening, quiet_steps, step, Course, Row};
use crate::op::{class, Class, Op};
use crate::proc_exec::tables::{
    BEFORE_PROBES, CALL_FORMS, CLOSING, LONG_NAME, MARIADB_OUT_FUNCTION, MYSQL_ACTION,
    MYSQL_GENERATION, MYSQL_NAMES, MYSQL_SETUP, MYSQL_TEARDOWN, OPENING, ORACLE_ACTION,
    ORACLE_GENERATION, ORACLE_SETUP, ORACLE_TEARDOWN, PROBE, READ_ONLY_ROUTINE,
};
use crate::proc_exec::{
    all_steps, lemma_probe, mysql_generation, probe_of, probe_steps, routine_action, setup_steps,
    Target, SLOTS,
};
use crate::seen::{at, events, words, Seen};
use crate::template::{fill, fill_with, opens_hole};

verus! {

/// A probe that makes routines of its own: its steps, the first step once they
/// are made, the clean-up, and the step after the last drop.
pub struct Section {
    pub steps: Seq<Row>,
    pub made: int,
    pub cleanup: int,
    pub end: int,
}

/// The probes that make routines of their own and are held to drop them.
pub enum Maker {
    LongName,
    CallForms,
    OracleAction,
    MysqlAction,
    MysqlGeneration(Target),
}

pub open spec fn section(maker: Maker) -> Section {
    match maker {
        Maker::LongName => Section { steps: LONG_NAME@, made: 4, cleanup: 17, end: 20 },
        Maker::CallForms => Section { steps: CALL_FORMS@, made: 43, cleanup: 182, end: 201 },
        Maker::OracleAction => Section { steps: ORACLE_ACTION@, made: 12, cleanup: 48, end: 53 },
        Maker::MysqlAction => Section { steps: MYSQL_ACTION@, made: 6, cleanup: 22, end: 25 },
        Maker::MysqlGeneration(target) => {
            let named = MYSQL_GENERATION@.len() + given(
                target == Target::MariaDb,
                MARIADB_OUT_FUNCTION@,
            ).len();
            Section {
                steps: mysql_generation(target),
                made: 6,
                cleanup: named as int + 35,
                end: named as int + 46,
            }
        },
    }
}

/// Whether a section is what it is meant to be: from the point where everything
/// is made, its steps keep to themselves, and the clean-up's are merely tried.
spec fn sound(s: Section) -> bool {
    let closing = s.steps.subrange(s.cleanup, s.end);
    &&& 0 <= s.made <= s.cleanup < s.end <= s.steps.len()
    &&& keeps_to(s.steps.subrange(s.made, s.cleanup))
    &&& closing[0].0 == Op::Cleanup
    &&& closing[0].3 == 0
    &&& forall|i: int| 0 <= i < closing.len() ==> merely_tried(#[trigger] closing[i])
    &&& forall|i: int| 1 <= i < closing.len() ==> class((#[trigger] closing[i]).0) == Class::Action
}

proof fn lemma_long_name()
    ensures
        sound(section(Maker::LongName)),
{
}

#[verifier::rlimit(50)]
proof fn lemma_call_forms()
    ensures
        sound(section(Maker::CallForms)),
{
}

proof fn lemma_oracle_action()
    ensures
        sound(section(Maker::OracleAction)),
{
}

proof fn lemma_mysql_action()
    ensures
        sound(section(Maker::MysqlAction)),
{
}

proof fn lemma_mysql_generation(target: Target)
    ensures
        sound(section(Maker::MysqlGeneration(target))),
{
    let s = section(Maker::MysqlGeneration(target));
    let first = MYSQL_GENERATION@.skip(6);
    let second = given(target == Target::MariaDb, MARIADB_OUT_FUNCTION@);
    let third = MYSQL_NAMES@.take(35);
    assert(keeps_to(first));
    assert(keeps_to(MARIADB_OUT_FUNCTION@));
    assert(keeps_to(third));
    keeping_adds_up(first, second);
    keeping_adds_up(first + second, third);
    assert(first + second + third =~= s.steps.subrange(s.made, s.cleanup));
    assert(s.steps.subrange(s.cleanup, s.end) =~= MYSQL_NAMES@.subrange(35, 46));
}

#[verifier::rlimit(50)]
proof fn lemma_sound(maker: Maker)
    ensures
        sound(section(maker)),
{
    match maker {
        Maker::LongName => lemma_long_name(),
        Maker::CallForms => lemma_call_forms(),
        Maker::OracleAction => lemma_oracle_action(),
        Maker::MysqlAction => lemma_mysql_action(),
        Maker::MysqlGeneration(target) => lemma_mysql_generation(target),
    }
}

proof fn lemma_dropped(
    s: Section,
    start: Seq<Row>,
    rest: Seq<Row>,
    c: Course,
    answers: Seq<Seen>,
    j: int,
)
    requires
        sound(s),
        s.cleanup <= j < s.end,
        start.len() + s.made <= c.at <= start.len() + j,
        course(start + s.steps + rest, c, answers).at > start.len() + j,
    ensures
        passes(start + s.steps + rest, c, answers, start.len() + j),
{
    let before = start + s.steps.take(s.made);
    let rows = s.steps.subrange(s.made, s.cleanup);
    let closing = s.steps.subrange(s.cleanup, s.end);
    let after = s.steps.skip(s.end) + rest;
    a_cleanup_follows(before, rows, closing, after, j - s.cleanup);
    let plan = start + s.steps + rest;
    assert(before + rows + closing + after =~= plan);
    assert(leads_to(plan, before.len() as int, start.len() + j));
    what_is_led_to_is_never_left_out(plan, before.len() as int, c, answers, start.len() + j);
}

/// However a probe ends that has made routines of its own, they are dropped: a
/// run that stood in the probe after they were made and gets beyond a step of
/// its clean-up has made that step, whatever was answered and whatever stands
/// before and after the probe.
pub proof fn what_was_made_is_always_dropped(
    maker: Maker,
    start: Seq<Row>,
    rest: Seq<Row>,
    c: Course,
    answers: Seq<Seen>,
    j: int,
)
    requires
        section(maker).cleanup <= j < section(maker).end,
        start.len() + section(maker).made <= c.at <= start.len() + j,
        course(start + section(maker).steps + rest, c, answers).at > start.len() + j,
    ensures
        passes(start + section(maker).steps + rest, c, answers, start.len() + j),
{
    lemma_sound(maker);
    lemma_dropped(section(maker), start, rest, c, answers, j);
}

proof fn lemma_probes_plain(list: Seq<(&'static str, &'static str)>)
    ensures
        plain(probe_steps(list)),
    decreases list.len(),
{
    if list.len() > 0 {
        lemma_probes_plain(list.drop_last());
        assert(plain(PROBE@));
        assert(plain(probe_of(list.last()).take(2)));
        plain_adds_up(probe_of(list.last()).take(2), PROBE@);
        assert(probe_of(list.last()).take(2) + PROBE@ =~= probe_of(list.last()));
        plain_adds_up(probe_steps(list.drop_last()), probe_of(list.last()));
    }
}

/// What stands before the calls.
spec fn before_calls(target: Target) -> Seq<Row> {
    OPENING@ + setup_steps(if target.oracle() { ORACLE_SETUP@ } else { MYSQL_SETUP@ })
        + BEFORE_PROBES@
}

proof fn lemma_calls_plain(target: Target)
    ensures
        plain(before_calls(target) + probe_steps(target.probe_list())),
{
    let setup = setup_steps(if target.oracle() { ORACLE_SETUP@ } else { MYSQL_SETUP@ });
    assert(plain(OPENING@));
    assert(plain(BEFORE_PROBES@));
    assert(plain(setup));
    plain_adds_up(OPENING@, setup);
    plain_adds_up(OPENING@ + setup, BEFORE_PROBES@);
    lemma_probes_plain(target.probe_list());
    plain_adds_up(before_calls(target), probe_steps(target.probe_list()));
}

proof fn lemma_sql_hole(memory: Seq<Seen>)
    ensures
        fill("{t09}"@, memory) == words(at(memory, 9)),
{
    reveal_strlit("{t09}");
    let t = "{t09}"@;
    assert(opens_hole(t));
    assert(t.skip(5) =~= Seq::empty());
    assert(fill_with(t.skip(5), memory, Seq::empty()) =~= Seq::empty());
    assert(fill(t, memory) =~= words(at(memory, 9)));
}

/// Whether a run made a call, the events that answered it say that its last
/// statement succeeded and do not say that it ended cancelled, and nothing it left
/// was answered to block the next block or the next query.
pub open spec fn left_nothing(
    plan: Seq<Row>,
    c: Course,
    answers: Seq<Seen>,
    k: int,
    sql: Seq<char>,
) -> bool {
    &&& 0 <= k
    &&& k + 16 < plan.len()
    &&& plan[k].0 == Op::Run
    &&& state_at(plan, c, answers, k) matches Some(asked) && fill(plan[k].4@, asked.memory) == sql
    &&& plan[k + 13].0 == Op::LastSucceeded && test_held(plan, c, answers, k + 13)
    &&& plan[k + 14].0 == Op::NotCancelled && test_held(plan, c, answers, k + 14)
    &&& plan[k + 15].0 == Op::NotYes && test_held(plan, c, answers, k + 15)
    &&& plan[k + 16].0 == Op::NotYes && test_held(plan, c, answers, k + 16)
    &&& exists|seen: Seen| #[trigger]
        was_answered(plan, c, answers, k, seen) && ended_as_it_should(seen)
    &&& plan[k + 3].0 == Op::NextBlocked && plan[k + 3].4@ == "BEGIN NULL; END;"@
    &&& exists|seen: Seen| #[trigger]
        was_answered(plan, c, answers, k + 3, seen) && seen != Seen::Flag(true)
    &&& plan[k + 4].0 == Op::NextBlocked && plan[k + 4].4@ == "SELECT 1 FROM dual"@
    &&& exists|seen: Seen| #[trigger]
        was_answered(plan, c, answers, k + 4, seen) && seen != Seen::Flag(true)
}

/// Whether a call was answered by events that say that its last statement succeeded
/// and do not say that it ended cancelled.
pub open spec fn ended_as_it_should(seen: Seen) -> bool {
    seen matches Seen::Run(run) && ended_well(run@) && !ended_cancelled(run@)
}

proof fn lemma_test_held(plan: Seq<Row>, c: Course, answers: Seq<Seen>, m: int, k: int)
    requires
        m <= plan.len(),
        plain(plan.take(m)),
        c.at == 0,
        clean(c),
        clean(course(plan, c, answers)),
        course(plan, c, answers).at >= m,
        0 <= k < m,
        is_test(plan[k]),
    ensures
        test_held(plan, c, answers, k),
{
    a_clean_run_makes_every_step(plan, c, answers, m, k);
    in_a_clean_run_every_test_held(plan, c, answers, k);
}

proof fn lemma_call_left_nothing(
    plan: Seq<Row>,
    c: Course,
    answers: Seq<Seen>,
    m: int,
    from: int,
    call: (&'static str, &'static str),
)
    requires
        m <= plan.len(),
        plain(plan.take(m)),
        c.at == 0,
        c.memory.len() == SLOTS,
        clean(c),
        clean(course(plan, c, answers)),
        course(plan, c, answers).at == plan.len(),
        0 <= from,
        from + 20 <= m,
        probe_of(call) == plan.subrange(from, from + 20),
    ensures
        left_nothing(plan, c, answers, from + 2, call.1@),
{
    let k = from + 2;
    let part = probe_of(call);
    assert(part[1] == plan[from + 1]);
    assert forall|j: int| 0 <= j < 18 implies #[trigger] plan[k + j] == PROBE@[j] by {
        assert(part[j + 2] == PROBE@[j]);
        assert(plan.subrange(from, from + 20)[j + 2] == plan[k + j]);
    }
    assert(plan[k + 0] == PROBE@[0]);
    assert(plan[k + 13] == PROBE@[13]);
    assert(plan[k + 14] == PROBE@[14]);
    assert(plan[k + 15] == PROBE@[15]);
    assert(plan[k + 16] == PROBE@[16]);
    a_clean_run_makes_every_step(plan, c, answers, m, from + 1);
    a_clean_run_makes_every_step(plan, c, answers, m, k);
    memory_keeps_its_size(plan, c, answers, from + 1);
    let named_at = state_at(plan, c, answers, from + 1)->0;
    let asked = state_at(plan, c, answers, k)->0;
    assert(asked == step(plan, named_at));
    assert(at(asked.memory, 9) == Seen::Word(call.1));
    lemma_sql_hole(asked.memory);
    assert(words(at(asked.memory, 9)) == call.1@);
    lemma_test_held(plan, c, answers, m, k + 13);
    lemma_test_held(plan, c, answers, m, k + 14);
    lemma_test_held(plan, c, answers, m, k + 15);
    lemma_test_held(plan, c, answers, m, k + 16);
    assert(plan[k + 3] == PROBE@[3]);
    assert(plan[k + 4] == PROBE@[4]);
    assert forall|i: int| k <= i < k + 18 implies #[trigger] plan[i] == PROBE@[i - k] by {
        assert(plan[k + (i - k)] == PROBE@[i - k]);
    }
    lemma_call_ended(plan, c, answers, k);
    lemma_next_is_free(plan, c, answers, k, 3);
    lemma_next_is_free(plan, c, answers, k, 4);
}

/// Whether the steps of a call stand in a plan from a row on.
spec fn call_stands(plan: Seq<Row>, k: int) -> bool {
    &&& 0 <= k
    &&& k + 18 <= plan.len()
    &&& forall|i: int| k <= i < k + 18 ==> #[trigger] plan[i] == PROBE@[i - k]
}

proof fn lemma_call_is_plain(plan: Seq<Row>, k: int)
    requires
        call_stands(plan, k),
    ensures
        forall|i: int| k <= i < k + 18 ==> leaves_nothing_out(#[trigger] plan[i]),
        forall|i: int| k < i < k + 18 ==> !#[trigger] writes(plan[i], 11),
        forall|i: int| k + 3 < i < k + 18 ==> !#[trigger] writes(plan[i], 13),
        forall|i: int| k + 4 < i < k + 18 ==> !#[trigger] writes(plan[i], 14),
{
    assert forall|j: int| 0 <= j < 18 implies leaves_nothing_out(#[trigger] PROBE@[j]) by {}
    assert forall|j: int| 0 < j < 18 implies !#[trigger] writes(PROBE@[j], 11) by {}
    assert forall|j: int| 3 < j < 18 implies !#[trigger] writes(PROBE@[j], 13) by {}
    assert forall|j: int| 4 < j < 18 implies !#[trigger] writes(PROBE@[j], 14) by {}
    assert forall|i: int| k < i < k + 18 implies !#[trigger] writes(plan[i], 11) by {
        assert(plan[i] == PROBE@[i - k]);
    }
    assert forall|i: int| k + 3 < i < k + 18 implies !#[trigger] writes(plan[i], 13) by {
        assert(plan[i] == PROBE@[i - k]);
    }
    assert forall|i: int| k + 4 < i < k + 18 implies !#[trigger] writes(plan[i], 14) by {
        assert(plan[i] == PROBE@[i - k]);
    }
}

proof fn lemma_call_ended(plan: Seq<Row>, c: Course, answers: Seq<Seen>, k: int)
    requires
        passed(plan, c, answers),
        c.memory.len() == SLOTS,
        call_stands(plan, k),
        passes(plan, c, answers, k),
        test_held(plan, c, answers, k + 13),
        test_held(plan, c, answers, k + 14),
    ensures
        exists|seen: Seen| #[trigger]
            was_answered(plan, c, answers, k, seen) && ended_as_it_should(seen),
{
    lemma_call_is_plain(plan, k);
    assert(plan[k] == PROBE@[0]);
    assert(plan[k + 13] == PROBE@[13]);
    assert(plan[k + 14] == PROBE@[14]);
    an_answer_stands_until_then(plan, c, answers, k, k + 13);
    let call = choose|seen: Seen| #[trigger]
        was_answered(plan, c, answers, k, seen) && at(
            state_at(plan, c, answers, k + 13)->0.memory,
            11,
        ) == kept(plan[k].0, seen);
    a_slot_is_kept_on_the_way(plan, c, answers, k + 13, k + 14, 11);
    let s13 = state_at(plan, c, answers, k + 13)->0;
    let s14 = state_at(plan, c, answers, k + 14)->0;
    memory_keeps_its_size(plan, c, answers, k + 13);
    memory_keeps_its_size(plan, c, answers, k + 14);
    assert(at(s13.memory, 11) == call);
    assert(at(s14.memory, 11) == call);
    match call {
        Seen::Run(run) => {
            ends_are_told_by_the_events(
                s13.memory,
                11,
                0,
                fill(plan[k + 13].4@, s13.memory),
                run@,
            );
            ends_are_told_by_the_events(
                s14.memory,
                11,
                0,
                fill(plan[k + 14].4@, s14.memory),
                run@,
            );
        },
        _ => {
            assert(results(events(call)).len() == 0);
        },
    }
}

proof fn lemma_next_is_free(plan: Seq<Row>, c: Course, answers: Seq<Seen>, k: int, j: int)
    requires
        passed(plan, c, answers),
        c.memory.len() == SLOTS,
        call_stands(plan, k),
        passes(plan, c, answers, k),
        j == 3 || j == 4,
        test_held(plan, c, answers, k + j + 12),
    ensures
        exists|seen: Seen| #[trigger]
            was_answered(plan, c, answers, k + j, seen) && seen != Seen::Flag(true),
{
    lemma_call_is_plain(plan, k);
    assert(plan[k + j] == PROBE@[j]);
    assert(plan[k + j + 12] == PROBE@[j + 12]);
    a_slot_is_kept_on_the_way(plan, c, answers, k, k + j, 0);
    an_answer_stands_until_then(plan, c, answers, k + j, k + j + 12);
    let s = state_at(plan, c, answers, k + j + 12)->0;
    let seen = choose|seen: Seen| #[trigger]
        was_answered(plan, c, answers, k + j, seen) && at(s.memory, plan[k + j].2 as int) == kept(
            plan[k + j].0,
            seen,
        );
    memory_keeps_its_size(plan, c, answers, k + j + 12);
    yes_and_no_are_tested(
        s.memory,
        plan[k + j].2 as int,
        0,
        fill(plan[k + j + 12].4@, s.memory),
        true,
        true,
    );
}

/// The probe passes only where every call of the list was made, succeeded, and
/// left nothing that blocks what the user types next.
pub proof fn a_clean_run_left_nothing_of_any_call(
    target: Target,
    memory: Seq<Seen>,
    answers: Seq<Seen>,
    i: int,
)
    requires
        memory.len() == SLOTS,
        0 <= i < target.probe_list().len(),
        clean(course(all_steps(target), opening(memory), answers)),
        course(all_steps(target), opening(memory), answers).at == all_steps(target).len(),
    ensures
        exists|k: int| #[trigger]
            left_nothing(
                all_steps(target),
                opening(memory),
                answers,
                k,
                target.probe_list()[i].1@,
            ),
{
    let plan = all_steps(target);
    let list = target.probe_list();
    let call = list[i];
    let part = probe_of(call);
    let calls = probe_steps(list);
    let before = before_calls(target);
    lemma_calls_plain(target);
    lemma_probe(list, i);
    let k = choose|k: int|
        0 <= k && k + part.len() <= calls.len() && part == #[trigger] calls.subrange(
            k,
            k + part.len(),
        );
    let m = (before.len() + calls.len()) as int;
    let rest = READ_ONLY_ROUTINE@ + (if target.oracle() {
        ORACLE_GENERATION@ + LONG_NAME@ + CALL_FORMS@
    } else {
        mysql_generation(target)
    }) + routine_action(target) + quiet_steps(
        if target.oracle() { ORACLE_TEARDOWN@ } else { MYSQL_TEARDOWN@ },
    ) + CLOSING@;
    assert(before + calls + rest =~= plan);
    assert(plan.take(m) =~= before + calls);
    let from = before.len() + k;
    assert(plan.subrange(from, from + 20) =~= calls.subrange(k, k + 20));
    lemma_call_left_nothing(plan, opening(memory), answers, m, from, call);
}

/// The probe passes only where every test in it was made and held, but for those
/// that a step left out under its own condition: each
/// script that was made for a routine ran and reported.
pub proof fn a_clean_run_passes_every_test_of_it(
    target: Target,
    memory: Seq<Seen>,
    answers: Seq<Seen>,
    k: int,
)
    requires
        0 <= k < all_steps(target).len(),
        is_test(all_steps(target)[k]),
        clean(course(all_steps(target), opening(memory), answers)),
        course(all_steps(target), opening(memory), answers).at == all_steps(target).len(),
    ensures
        test_held(all_steps(target), opening(memory), answers, k) || left_out(
            all_steps(target),
            opening(memory),
            answers,
            k,
        ),
{
    a_clean_run_passes_every_test_not_left_out(all_steps(target), opening(memory), answers, k);
}

} // verus!
