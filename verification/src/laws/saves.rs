//! What the probe of the grid's save has seen where it passed.
use vstd::prelude::*;
use vstd::string::*;

use crate::course::{
    clean, leaves_nothing_out, memory_keeps_its_size, passes, skips, state_at, test_held, writes,
};
use crate::grid::cell_by_col_spec;
use crate::grid_save::{all_steps, Target, JUDGEMENT, MYSQL_SAVE, OPENING, ORACLE_SAVE, SLOTS};
use crate::laws::events::{finished, is_last, the_first_and_the_last_statement};
use crate::laws::grids::a_named_cell_is_tested;
use crate::laws::outcome::{
    a_row_out_of_reach_was_stood_at, a_slot_is_kept_on_the_way, an_answer_stands_until_then,
    is_dirty, passed, was_answered,
};
use crate::laws::runs::{a_save_is_told_by_its_tag_or_its_statement, the_last_statement_is_tested};
use crate::laws::tabs::a_state_is_dirty_or_resolved;
use crate::laws::texts::a_text_is_split_where_the_character_stands;
use crate::machine::{course, given, kept, opening, Course, Row};
use crate::op::Op;
use crate::progress::{results, QueryProgress};
use crate::seen::{at, events, Seen, SessionState};
use crate::template::{fill, plain_template_stands_for_itself};
use crate::text::{contains, lacks, split_on, upper};

verus! {

/// Whether a save was answered as one that is matched: its last statement succeeded,
/// is no query, and bears the tag of the request, or else is its statement.
pub open spec fn save_is_matched(seen: Seen) -> bool {
    seen matches Seen::Run(run) && exists|i: int| #[trigger]
        is_last(run@, i) && {
            let last = finished(run@[i])->0;
            &&& last.success
            &&& !last.is_select
            &&& contains(last.sql@, "SQ_SAVE_REQUEST:42"@) || contains(
                last.message@,
                "SQ_SAVE_REQUEST:42"@,
            ) || contains(upper(last.sql@), upper("UPDATE OQT_GRID_SAVE_TEST"@))
        }
}

/// Whether a session's state was asked for, and answered as one of uncommitted work.
pub open spec fn was_dirty(plan: Seq<Row>, c: Course, answers: Seq<Seen>, k: int) -> bool {
    &&& plan[k].0 == Op::SessionState
    &&& exists|seen: Seen| #[trigger]
        was_answered(plan, c, answers, k, seen) && (seen matches Seen::State {
            session: Some(state),
            shown,
        } && is_dirty(state))
}

/// Whether a session's state was asked for, and answered as clean, or as no session.
pub open spec fn was_resolved(plan: Seq<Row>, c: Course, answers: Seq<Seen>, k: int) -> bool {
    &&& plan[k].0 == Op::SessionState
    &&& exists|seen: Seen| #[trigger]
        was_answered(plan, c, answers, k, seen) && (seen matches Seen::State { session, shown } && (
        session is None || session == Some(SessionState::Clean)))
}

/// Whether the row was read, and its name came back so.
pub open spec fn name_was(
    plan: Seq<Row>,
    c: Course,
    answers: Seq<Seen>,
    k: int,
    name: Seq<char>,
) -> bool {
    &&& plan[k].0 == Op::Run
    &&& plan[k].4@ == "SELECT ID, NAME FROM OQT_GRID_SAVE_TEST WHERE ID = 1"@
    &&& exists|seen: Seen| #[trigger]
        was_answered(plan, c, answers, k, seen) && (seen matches Seen::Run(run)
            && cell_by_col_spec(run@, "NAME"@) == Some(name))
}

/// Whether a run saw a save through: it was matched; the session was dirty after it,
/// and still after a query, which showed the change; the rollback resolved it, and a
/// query then showed the row as it was.
pub open spec fn saw_the_save(plan: Seq<Row>, c: Course, answers: Seq<Seen>, b: int) -> bool {
    &&& 0 < b
    &&& b + 25 <= plan.len()
    &&& plan[b - 1].0 == Op::Run || plan[b - 1].0 == Op::RunEdit
    &&& exists|seen: Seen| #[trigger]
        was_answered(plan, c, answers, b - 1, seen) && save_is_matched(seen)
    &&& was_dirty(plan, c, answers, b + 7)
    &&& name_was(plan, c, answers, b + 11, "SCOTT"@)
    &&& was_dirty(plan, c, answers, b + 14)
    &&& plan[b + 17].0 == Op::EditorRollback
    &&& was_resolved(plan, c, answers, b + 18)
    &&& name_was(plan, c, answers, b + 21, "SMITH"@)
}

spec fn judgement_stands(plan: Seq<Row>, b: int) -> bool {
    &&& 0 < b
    &&& b + 25 <= plan.len()
    &&& forall|i: int| b <= i < b + 25 ==> #[trigger] plan[i] == JUDGEMENT@[i - b]
}

proof fn lemma_judgement_is_plain(plan: Seq<Row>, b: int)
    requires
        judgement_stands(plan, b),
    ensures
        forall|i: int| b <= i < b + 25 ==> leaves_nothing_out(#[trigger] plan[i]),
        forall|i: int| b <= i < b + 25 ==> !#[trigger] writes(plan[i], 11),
        forall|i: int| b + 7 < i < b + 14 ==> !#[trigger] writes(plan[i], 12),
        forall|i: int| b + 14 < i < b + 18 ==> !#[trigger] writes(plan[i], 12),
        forall|i: int| b + 18 < i < b + 25 ==> !#[trigger] writes(plan[i], 12),
        forall|i: int| b + 11 < i < b + 21 ==> !#[trigger] writes(plan[i], 17),
        forall|i: int| b + 21 < i < b + 25 ==> !#[trigger] writes(plan[i], 17),
{
    assert forall|j: int| 0 <= j < 25 implies leaves_nothing_out(#[trigger] JUDGEMENT@[j]) by {}
    assert forall|i: int| b <= i < b + 25 implies !#[trigger] writes(plan[i], 11) by {
        assert(plan[i] == JUDGEMENT@[i - b]);
    }
    assert forall|i: int| b + 7 < i < b + 14 implies !#[trigger] writes(plan[i], 12) by {
        assert(plan[i] == JUDGEMENT@[i - b]);
    }
    assert forall|i: int| b + 14 < i < b + 18 implies !#[trigger] writes(plan[i], 12) by {
        assert(plan[i] == JUDGEMENT@[i - b]);
    }
    assert forall|i: int| b + 18 < i < b + 25 implies !#[trigger] writes(plan[i], 12) by {
        assert(plan[i] == JUDGEMENT@[i - b]);
    }
    assert forall|i: int| b + 11 < i < b + 21 implies !#[trigger] writes(plan[i], 17) by {
        assert(plan[i] == JUDGEMENT@[i - b]);
    }
    assert forall|i: int| b + 21 < i < b + 25 implies !#[trigger] writes(plan[i], 17) by {
        assert(plan[i] == JUDGEMENT@[i - b]);
    }
}

proof fn lemma_held(plan: Seq<Row>, c: Course, answers: Seq<Seen>, b: int, j: int)
    requires
        passed(plan, c, answers),
        judgement_stands(plan, b),
        passes(plan, c, answers, b - 1),
        leaves_nothing_out(plan[b - 1]),
        0 <= j < 25,
        c.at <= b,
    ensures
        passes(plan, c, answers, b + j),
        crate::course::is_test(plan[b + j]) ==> test_held(plan, c, answers, b + j),
{
    lemma_judgement_is_plain(plan, b);
    crate::laws::outcome::a_run_that_passed_goes_on(plan, c, answers, b - 1);
    a_slot_is_kept_on_the_way(plan, c, answers, b, b + j, 11);
    if crate::course::is_test(plan[b + j]) {
        crate::course::in_a_clean_run_every_test_held(plan, c, answers, b + j);
    }
}

proof fn lemma_dirty(plan: Seq<Row>, c: Course, answers: Seq<Seen>, b: int, j: int)
    requires
        passed(plan, c, answers),
        c.memory.len() == SLOTS,
        judgement_stands(plan, b),
        passes(plan, c, answers, b - 1),
        leaves_nothing_out(plan[b - 1]),
        j == 7 || j == 14,
        c.at <= b,
    ensures
        was_dirty(plan, c, answers, b + j),
{
    lemma_judgement_is_plain(plan, b);
    assert(plan[b + j] == JUDGEMENT@[j]);
    assert(plan[b + j + 2] == JUDGEMENT@[j + 2]);
    lemma_held(plan, c, answers, b, j);
    lemma_held(plan, c, answers, b, j + 2);
    an_answer_stands_until_then(plan, c, answers, b + j, b + j + 2);
    let s = state_at(plan, c, answers, b + j + 2)->0;
    let seen = choose|seen: Seen| #[trigger]
        was_answered(plan, c, answers, b + j, seen) && at(s.memory, 12) == kept(
            plan[b + j].0,
            seen,
        );
    memory_keeps_its_size(plan, c, answers, b + j + 2);
    let arg = fill(plan[b + j + 2].4@, s.memory);
    match seen {
        Seen::State { session, shown } => {
            a_state_is_dirty_or_resolved(s.memory, 12, 0, arg, session);
        },
        _ => {
            a_state_is_dirty_or_resolved(s.memory, 12, 0, arg, None);
        },
    }
}

proof fn lemma_resolved(plan: Seq<Row>, c: Course, answers: Seq<Seen>, b: int)
    requires
        passed(plan, c, answers),
        c.memory.len() == SLOTS,
        judgement_stands(plan, b),
        passes(plan, c, answers, b - 1),
        leaves_nothing_out(plan[b - 1]),
        c.at <= b,
    ensures
        was_resolved(plan, c, answers, b + 18),
{
    lemma_judgement_is_plain(plan, b);
    assert(plan[b + 18] == JUDGEMENT@[18]);
    assert(plan[b + 20] == JUDGEMENT@[20]);
    lemma_held(plan, c, answers, b, 18);
    lemma_held(plan, c, answers, b, 20);
    an_answer_stands_until_then(plan, c, answers, b + 18, b + 20);
    let s = state_at(plan, c, answers, b + 20)->0;
    let seen = choose|seen: Seen| #[trigger]
        was_answered(plan, c, answers, b + 18, seen) && at(s.memory, 12) == kept(
            plan[b + 18].0,
            seen,
        );
    memory_keeps_its_size(plan, c, answers, b + 20);
    let arg = fill(plan[b + 20].4@, s.memory);
    match seen {
        Seen::State { session, shown } => {
            a_state_is_dirty_or_resolved(s.memory, 12, 0, arg, session);
        },
        _ => {
            a_state_is_dirty_or_resolved(s.memory, 12, 0, arg, None);
        },
    }
}

proof fn lemma_named(memory: Seq<Seen>)
    ensures
        fill("NAME|SCOTT"@, memory) == "NAME|SCOTT"@,
        fill("NAME|SMITH"@, memory) == "NAME|SMITH"@,
        split_on("NAME|SCOTT"@, '|') == seq!["NAME"@, "SCOTT"@],
        split_on("NAME|SMITH"@, '|') == seq!["NAME"@, "SMITH"@],
        "SCOTT"@.len() > 0,
        "SMITH"@.len() > 0,
{
    reveal_strlit("NAME|SCOTT");
    reveal_strlit("NAME|SMITH");
    reveal_strlit("NAME");
    reveal_strlit("SCOTT");
    reveal_strlit("SMITH");
    plain_template_stands_for_itself("NAME|SCOTT"@, memory);
    plain_template_stands_for_itself("NAME|SMITH"@, memory);
    assert("NAME|SCOTT"@ =~= "NAME"@.push('|') + "SCOTT"@);
    assert("NAME|SMITH"@ =~= "NAME"@.push('|') + "SMITH"@);
    assert(lacks("NAME"@, '|') && lacks("SCOTT"@, '|') && lacks("SMITH"@, '|'));
    a_text_is_split_where_the_character_stands("NAME"@, "SCOTT"@, '|');
    a_text_is_split_where_the_character_stands("NAME"@, "SMITH"@, '|');
    a_text_is_split_where_the_character_stands("SCOTT"@, "SMITH"@, '|');
    a_text_is_split_where_the_character_stands("SMITH"@, "SCOTT"@, '|');
    assert(seq!["NAME"@] + seq!["SCOTT"@] =~= seq!["NAME"@, "SCOTT"@]);
    assert(seq!["NAME"@] + seq!["SMITH"@] =~= seq!["NAME"@, "SMITH"@]);
}

proof fn lemma_name(plan: Seq<Row>, c: Course, answers: Seq<Seen>, b: int, j: int)
    requires
        passed(plan, c, answers),
        c.memory.len() == SLOTS,
        judgement_stands(plan, b),
        passes(plan, c, answers, b - 1),
        leaves_nothing_out(plan[b - 1]),
        j == 11 || j == 21,
        c.at <= b,
    ensures
        name_was(plan, c, answers, b + j, if j == 11 { "SCOTT"@ } else { "SMITH"@ }),
{
    lemma_judgement_is_plain(plan, b);
    assert(plan[b + j] == JUDGEMENT@[j]);
    assert(plan[b + j + 2] == JUDGEMENT@[j + 2]);
    lemma_held(plan, c, answers, b, j);
    lemma_held(plan, c, answers, b, j + 2);
    an_answer_stands_until_then(plan, c, answers, b + j, b + j + 2);
    let s = state_at(plan, c, answers, b + j + 2)->0;
    let seen = choose|seen: Seen| #[trigger]
        was_answered(plan, c, answers, b + j, seen) && at(s.memory, 17) == kept(
            plan[b + j].0,
            seen,
        );
    memory_keeps_its_size(plan, c, answers, b + j + 2);
    lemma_named(s.memory);
    let wanted = if j == 11 { "SCOTT"@ } else { "SMITH"@ };
    let arg = fill(plan[b + j + 2].4@, s.memory);
    assert(split_on(arg, '|') == seq!["NAME"@, wanted]);
    match seen {
        Seen::Run(run) => {
            a_named_cell_is_tested(s.memory, 17, 0, arg, run@, "NAME"@, wanted);
        },
        _ => {
            let none = events(seen);
            assert(none =~= Seq::<QueryProgress>::empty());
            assert(cell_by_col_spec(none, "NAME"@) is None);
        },
    }
}

proof fn lemma_tag(memory: Seq<Seen>)
    ensures
        fill("SQ_SAVE_REQUEST:42|UPDATE OQT_GRID_SAVE_TEST"@, memory)
            == "SQ_SAVE_REQUEST:42|UPDATE OQT_GRID_SAVE_TEST"@,
        split_on("SQ_SAVE_REQUEST:42|UPDATE OQT_GRID_SAVE_TEST"@, '|') == seq![
            "SQ_SAVE_REQUEST:42"@,
            "UPDATE OQT_GRID_SAVE_TEST"@,
        ],
{
    reveal_strlit("SQ_SAVE_REQUEST:42|UPDATE OQT_GRID_SAVE_TEST");
    reveal_strlit("SQ_SAVE_REQUEST:42");
    reveal_strlit("UPDATE OQT_GRID_SAVE_TEST");
    let t = "SQ_SAVE_REQUEST:42|UPDATE OQT_GRID_SAVE_TEST"@;
    let a = "SQ_SAVE_REQUEST:42"@;
    let b = "UPDATE OQT_GRID_SAVE_TEST"@;
    plain_template_stands_for_itself(t, memory);
    assert(t =~= a.push('|') + b);
    assert(lacks(a, '|') && lacks(b, '|'));
    a_text_is_split_where_the_character_stands(a, b, '|');
    a_text_is_split_where_the_character_stands(b, a, '|');
    assert(seq![a] + seq![b] =~= seq![a, b]);
}

proof fn lemma_matched(plan: Seq<Row>, c: Course, answers: Seq<Seen>, b: int)
    requires
        passed(plan, c, answers),
        c.memory.len() == SLOTS,
        judgement_stands(plan, b),
        passes(plan, c, answers, b - 1),
        leaves_nothing_out(plan[b - 1]),
        plan[b - 1].0 == Op::Run || plan[b - 1].0 == Op::RunEdit,
        plan[b - 1].2 == 11,
        c.at <= b,
    ensures
        exists|seen: Seen| #[trigger]
            was_answered(plan, c, answers, b - 1, seen) && save_is_matched(seen),
{
    lemma_judgement_is_plain(plan, b);
    assert(plan[b + 3] == JUDGEMENT@[3]);
    assert(plan[b + 4] == JUDGEMENT@[4]);
    assert(plan[b + 5] == JUDGEMENT@[5]);
    lemma_held(plan, c, answers, b, 3);
    lemma_held(plan, c, answers, b, 4);
    lemma_held(plan, c, answers, b, 5);
    an_answer_stands_until_then(plan, c, answers, b - 1, b + 3);
    a_slot_is_kept_on_the_way(plan, c, answers, b + 3, b + 4, 11);
    a_slot_is_kept_on_the_way(plan, c, answers, b + 4, b + 5, 11);
    let s3 = state_at(plan, c, answers, b + 3)->0;
    let s4 = state_at(plan, c, answers, b + 4)->0;
    let s5 = state_at(plan, c, answers, b + 5)->0;
    memory_keeps_its_size(plan, c, answers, b + 3);
    memory_keeps_its_size(plan, c, answers, b + 4);
    memory_keeps_its_size(plan, c, answers, b + 5);
    let seen = choose|seen: Seen| #[trigger]
        was_answered(plan, c, answers, b - 1, seen) && at(s3.memory, 11) == kept(
            plan[b - 1].0,
            seen,
        );
    lemma_tag(s5.memory);
    match seen {
        Seen::Run(run) => {
            the_first_and_the_last_statement(run@);
            let i = choose|i: int| #[trigger] is_last(run@, i);
            the_last_statement_is_tested(
                s3.memory,
                11,
                0,
                fill(plan[b + 3].4@, s3.memory),
                run@,
                i,
            );
            the_last_statement_is_tested(
                s4.memory,
                11,
                0,
                fill(plan[b + 4].4@, s4.memory),
                run@,
                i,
            );
            the_last_statement_is_tested(
                s5.memory,
                11,
                0,
                fill(plan[b + 5].4@, s5.memory),
                run@,
                i,
            );
            assert(is_last(run@, i));
            a_save_is_told_by_its_tag_or_its_statement(
                finished(run@[i])->0,
                fill(plan[b + 5].4@, s5.memory),
                "SQ_SAVE_REQUEST:42"@,
                "UPDATE OQT_GRID_SAVE_TEST"@,
            );
        },
        _ => {
            assert(results(events(seen)).len() == 0);
        },
    }
}

/// The probe passes only where a save was matched, left the session dirty, stayed so
/// over a query, and was reverted by the rollback.
pub proof fn a_clean_run_saw_the_save_through(target: Target, memory: Seq<Seen>, answers: Seq<Seen>)
    requires
        memory.len() == SLOTS,
        clean(course(all_steps(target), opening(memory), answers)),
        course(all_steps(target), opening(memory), answers).at == all_steps(target).len(),
    ensures
        exists|b: int| #[trigger] saw_the_save(all_steps(target), opening(memory), answers, b),
{
    let plan = all_steps(target);
    let c = opening(memory);
    let save = if target.oracle() { ORACLE_SAVE@ } else { MYSQL_SAVE@ };
    let b = (OPENING@.len() + save.len()) as int;
    assert(plan =~= OPENING@ + save + JUDGEMENT@ + plan.skip(b + 25)) by {
        assert(given(target.oracle(), ORACLE_SAVE@) + given(!target.oracle(), MYSQL_SAVE@)
            =~= save);
    }
    assert forall|i: int| b <= i < b + 25 implies #[trigger] plan[i] == JUDGEMENT@[i - b] by {}
    assert(plan[b - 1] == save[save.len() - 1]);
    assert forall|i: int| 0 <= i < b - 1 && skips((#[trigger] plan[i]).0) implies i + 1
        + plan[i].3 <= b - 1 by {
        if i < OPENING@.len() {
            assert(plan[i] == OPENING@[i]);
        } else {
            assert(plan[i] == save[i - OPENING@.len()]);
        }
    }
    a_row_out_of_reach_was_stood_at(plan, c, answers, b - 1);
    lemma_matched(plan, c, answers, b);
    lemma_dirty(plan, c, answers, b, 7);
    lemma_dirty(plan, c, answers, b, 14);
    lemma_resolved(plan, c, answers, b);
    lemma_name(plan, c, answers, b, 11);
    lemma_name(plan, c, answers, b, 21);
    assert(plan[b + 17] == JUDGEMENT@[17]);
    assert(saw_the_save(plan, c, answers, b));
}

} // verus!
