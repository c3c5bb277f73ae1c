//! What the probe of imports has seen where it passed: every format gave back what the
//! grid showed, in the file and in the table it was loaded into.
use vstd::prelude::*;

use crate::course::{
    answers_move_on, clean, in_a_clean_run_every_test_held, leaves_nothing_out,
    memory_keeps_its_size, passes, skips, state_at, steps_move_on, writes,
};
use crate::grid::grid_rows;
use crate::import_live::tables::{ONE_FORMAT, OPENING};
use crate::import_live::{all_steps, every_format, Target, SLOTS};
use crate::laws::grids::grids_are_compared_cell_by_cell;
use crate::laws::imports::{a_file_is_read_back_cell_by_cell, file_read_back};
use crate::laws::outcome::{
    a_row_out_of_reach_was_stood_at, an_action_was_answered, passed, was_answered,
};
use crate::machine::{answered, bound, course, opening, step, Course, Row, Weight};
use crate::op::{class, Class, Op};
use crate::seen::{at, events, Seen};
use crate::template::fill;

verus! {

proof fn lemma_kept_from_here(plan: Seq<Row>, c: Course, answers: Seq<Seen>, j: int, slot: int)
    requires
        0 <= c.at <= j <= plan.len(),
        passes(plan, c, answers, j),
        forall|k: int| c.at <= k < j ==> !#[trigger] writes(plan[k], slot),
    ensures
        at(state_at(plan, c, answers, j)->0.memory, slot) == at(c.memory, slot),
    decreases answers.len(), plan.len() - c.at,
{
    if c.at < j {
        assert(!writes(plan[c.at], slot));
        if class(plan[c.at].0) == Class::Action {
            let next = answered(plan, c, answers[0]);
            answers_move_on(plan, c, answers[0]);
            lemma_stood_before(plan, next, answers.drop_first(), j);
            lemma_kept_from_here(plan, next, answers.drop_first(), j, slot);
        } else {
            let next = step(plan, c);
            steps_move_on(plan, c);
            lemma_stood_before(plan, next, answers, j);
            lemma_kept_from_here(plan, next, answers, j, slot);
        }
    }
}

proof fn lemma_stood_before(plan: Seq<Row>, c: Course, answers: Seq<Seen>, j: int)
    requires
        0 <= c.at <= plan.len(),
        passes(plan, c, answers, j),
    ensures
        c.at <= j <= plan.len(),
    decreases answers.len(), plan.len() - c.at,
{
    if c.at != j && c.at < plan.len() {
        if class(plan[c.at].0) == Class::Action {
            answers_move_on(plan, c, answers[0]);
            lemma_stood_before(
                plan,
                answered(plan, c, answers[0]),
                answers.drop_first(),
                j,
            );
        } else {
            steps_move_on(plan, c);
            lemma_stood_before(plan, step(plan, c), answers, j);
        }
    }
}

/// Between two rows that a run stands at, a slot that no row between them writes keeps
/// what it held, whichever of those rows were left out.
pub proof fn an_unwritten_slot_is_kept_between(
    plan: Seq<Row>,
    c: Course,
    answers: Seq<Seen>,
    i: int,
    j: int,
    slot: int,
)
    requires
        0 <= c.at <= plan.len(),
        i <= j,
        passes(plan, c, answers, i),
        passes(plan, c, answers, j),
        forall|k: int| i <= k < j ==> !#[trigger] writes(plan[k], slot),
    ensures
        at(state_at(plan, c, answers, j)->0.memory, slot) == at(
            state_at(plan, c, answers, i)->0.memory,
            slot,
        ),
    decreases answers.len(), plan.len() - c.at,
{
    lemma_stood_before(plan, c, answers, i);
    lemma_stood_before(plan, c, answers, j);
    if c.at == i {
        lemma_kept_from_here(plan, c, answers, j, slot);
    } else if class(plan[c.at].0) == Class::Action {
        answers_move_on(plan, c, answers[0]);
        an_unwritten_slot_is_kept_between(
            plan,
            answered(plan, c, answers[0]),
            answers.drop_first(),
            i,
            j,
            slot,
        );
    } else {
        steps_move_on(plan, c);
        an_unwritten_slot_is_kept_between(plan, step(plan, c), answers, i, j, slot);
    }
}

/// The row that a format's rows begin at.
pub open spec fn format_row(i: int) -> int {
    19 + 24 * i
}

/// Whether two grids show as many rows, as many cells in each, and the same texts.
pub open spec fn same_grid(a: Seq<Seq<Seq<char>>>, b: Seq<Seq<Seq<char>>>) -> bool {
    &&& a.len() == b.len()
    &&& forall|i: int| 0 <= i < a.len() ==> (#[trigger] a[i]).len() == b[i].len()
    &&& forall|i: int, j: int|
        0 <= i < a.len() && 0 <= j < a[i].len() ==> #[trigger] a[i][j] == b[i][j]
}

/// Whether the source rows were read.
pub open spec fn was_read(plan: Seq<Row>, c: Course, answers: Seq<Seen>, source: Seen) -> bool {
    &&& plan[10].0 == Op::Do && plan[10].4@ == "{t35}"@
    &&& was_answered(plan, c, answers, 10, source)
}

/// Whether a file was parsed in one row, and every cell came back.
pub open spec fn was_parsed_back(
    plan: Seq<Row>,
    c: Course,
    answers: Seq<Seen>,
    k: int,
    source: Seen,
) -> bool {
    &&& plan[k].0 == Op::ParseText
    &&& exists|seen: Seen| #[trigger]
        was_answered(plan, c, answers, k, seen) && (seen matches Seen::Imported(t)
            && file_read_back(t, grid_rows(events(source))))
}

/// Whether the copy was read in one row, and shows what the source showed.
pub open spec fn was_loaded_back(
    plan: Seq<Row>,
    c: Course,
    answers: Seq<Seen>,
    k: int,
    source: Seen,
) -> bool {
    &&& plan[k].0 == Op::Do && plan[k].4@ == "{t07}"@
    &&& exists|seen: Seen| #[trigger]
        was_answered(plan, c, answers, k, seen) && same_grid(
            grid_rows(events(seen)),
            grid_rows(events(source)),
        )
}

proof fn lemma_format_rows(formats: int, i: int)
    requires
        0 <= i < formats,
    ensures
        every_format(formats).len() == 24 * formats,
        forall|j: int|
            0 <= j < 24 ==> #[trigger] every_format(formats)[24 * i + j] == bound(ONE_FORMAT@, i)[j],
    decreases formats,
{
    let rest = every_format(formats - 1);
    let last = bound(ONE_FORMAT@, formats - 1);
    if formats > 1 {
        lemma_format_rows(formats - 1, if i < formats - 1 { i } else { 0 });
    } else {
        assert(rest.len() == 0);
    }
    assert(every_format(formats) == rest + last);
    assert forall|j: int| 0 <= j < 24 implies #[trigger] every_format(formats)[24 * i + j]
        == bound(ONE_FORMAT@, i)[j] by {
        if i < formats - 1 {
            assert(rest[24 * i + j] == bound(ONE_FORMAT@, i)[j]);
        } else {
            assert(every_format(formats)[24 * i + j] == last[j]);
        }
    }
}

/// What a table of one format is to its laws: the rows that parse, test, read the copy
/// and compare it, none of which is skipped, and none of which touches the source rows.
spec fn tries_a_format(part: Seq<Row>) -> bool {
    &&& part.len() == 24
    &&& forall|i: int| 0 <= i < 24 ==> !writes(#[trigger] part[i], 10)
    &&& forall|i: int| 0 <= i < 24 && skips((#[trigger] part[i]).0) ==> i + 1 + part[i].3 <= 10
    &&& part[10].0 == Op::ParseText && part[10].2 == 21
    &&& part[11].0 == Op::ParsedAsExpected && part[11].1 == Weight::Leave && part[11].2 == 21
        && part[11].3 == 10
    &&& part[20].0 == Op::Do && part[20].2 == 25 && part[20].4@ == "{t07}"@
    &&& class(part[21].0) != Class::Action && class(part[21].0) != Class::Control
    &&& part[22].0 == Op::GridSame && part[22].1 == Weight::Leave && part[22].2 == 25
        && part[22].3 == 10
}

proof fn lemma_one_format()
    ensures
        tries_a_format(ONE_FORMAT@),
{
}

proof fn lemma_bound_format(code: int)
    ensures
        tries_a_format(bound(ONE_FORMAT@, code)),
{
    lemma_one_format();
    let part = bound(ONE_FORMAT@, code);
    assert forall|i: int| 0 <= i < 24 implies !writes(#[trigger] part[i], 10) by {
        assert(!writes(ONE_FORMAT@[i], 10));
    }
    lemma_no_skip_is_bound();
    assert forall|i: int| 0 <= i < 24 && skips((#[trigger] part[i]).0) implies i + 1 + part[i].3
        <= 10 by {
        assert(skips(ONE_FORMAT@[i].0));
    }
}

proof fn lemma_no_skip_is_bound()
    ensures
        forall|i: int|
            0 <= i < 24 && skips((#[trigger] ONE_FORMAT@[i]).0) ==> ONE_FORMAT@[i].3
                != crate::op::HERE,
{
}

proof fn lemma_opening_rows()
    ensures
        OPENING@.len() == 19,
        OPENING@[10].0 == Op::Do,
        OPENING@[10].2 == 10,
        OPENING@[10].4@ == "{t35}"@,
        forall|i: int| 0 <= i < 19 ==> leaves_nothing_out(#[trigger] OPENING@[i]),
        forall|i: int| 0 <= i < 19 ==> !skips((#[trigger] OPENING@[i]).0),
        forall|i: int| 10 < i < 19 ==> !writes(#[trigger] OPENING@[i], 10),
{
}

/// The rows of the plan up to the end of a format.
proof fn lemma_plan_rows(target: Target, formats: int, i: int, j: int)
    requires
        0 <= i < formats,
        0 <= j < 24,
    ensures
        format_row(i) + j < all_steps(target, formats).len(),
        all_steps(target, formats)[format_row(i) + j] == bound(ONE_FORMAT@, i)[j],
{
    lemma_format_rows(formats, i);
    lemma_opening_rows();
    let plan = all_steps(target, formats);
    let head = OPENING@ + every_format(formats);
    assert(head.len() <= plan.len());
    assert(plan[format_row(i) + j] == head[format_row(i) + j]);
    assert(head[format_row(i) + j] == every_format(formats)[24 * i + j]);
}

proof fn lemma_plan_opening(target: Target, formats: int, j: int)
    requires
        0 <= j < 19,
    ensures
        j < all_steps(target, formats).len(),
        all_steps(target, formats)[j] == OPENING@[j],
{
    lemma_opening_rows();
}

/// No row behind the source's own, up to the end of the formats, writes its slot, and
/// what a row leaves out stands early in its own format.
proof fn lemma_rows_before(target: Target, formats: int, k: int)
    requires
        0 <= formats,
        0 <= k < format_row(formats),
    ensures
        k < all_steps(target, formats).len(),
        10 < k ==> !writes(all_steps(target, formats)[k], 10),
        skips(all_steps(target, formats)[k].0) ==> {
            &&& k >= 19
            &&& (k - 19) % 24 < 10
            &&& k + 1 + all_steps(target, formats)[k].3 <= format_row((k - 19) / 24) + 10
        },
{
    lemma_opening_rows();
    if k < 19 {
        lemma_plan_opening(target, formats, k);
    } else {
        let i = (k - 19) / 24;
        let j = (k - 19) % 24;
        assert(k == format_row(i) + j);
        assert(0 <= i < formats);
        lemma_plan_rows(target, formats, i, j);
        lemma_bound_format(i);
        let part = bound(ONE_FORMAT@, i);
        assert(part[j] == all_steps(target, formats)[k]);
        assert(!writes(part[j], 10));
    }
}

proof fn lemma_stood_at_format(
    target: Target,
    formats: int,
    i: int,
    c: Course,
    answers: Seq<Seen>,
    j: int,
)
    requires
        0 <= i < formats,
        10 <= j < 24,
        c.at == 0,
        passed(all_steps(target, formats), c, answers),
    ensures
        passes(all_steps(target, formats), c, answers, format_row(i) + j),
{
    let plan = all_steps(target, formats);
    let k = format_row(i) + j;
    lemma_plan_rows(target, formats, i, j);
    assert forall|q: int| 0 <= q < k && skips((#[trigger] plan[q]).0) implies q + 1 + plan[q].3
        <= k by {
        lemma_rows_before(target, formats, q);
        assert((q - 19) / 24 <= i);
    }
    a_row_out_of_reach_was_stood_at(plan, c, answers, k);
}

proof fn lemma_source_stands(
    target: Target,
    formats: int,
    i: int,
    c: Course,
    answers: Seq<Seen>,
    j: int,
    source: Seen,
)
    requires
        0 <= i < formats,
        10 <= j < 24,
        c.at == 0,
        c.memory.len() == SLOTS,
        passed(all_steps(target, formats), c, answers),
        was_read(all_steps(target, formats), c, answers, source),
    ensures
        passes(all_steps(target, formats), c, answers, format_row(i) + j),
        at(state_at(all_steps(target, formats), c, answers, format_row(i) + j)->0.memory, 10)
            == source,
{
    let plan = all_steps(target, formats);
    let k = format_row(i) + j;
    lemma_stood_at_format(target, formats, i, c, answers, j);
    lemma_plan_opening(target, formats, 10);
    lemma_opening_rows();
    memory_keeps_its_size(plan, c, answers, 10);
    an_action_was_answered(plan, c, answers, 10);
    assert forall|q: int| 11 <= q < k implies !#[trigger] writes(plan[q], 10) by {
        lemma_rows_before(target, formats, q);
    }
    an_unwritten_slot_is_kept_between(plan, c, answers, 11, k, 10);
}

proof fn lemma_parsed_back(
    target: Target,
    formats: int,
    i: int,
    c: Course,
    answers: Seq<Seen>,
    source: Seen,
)
    requires
        0 <= i < formats,
        c.at == 0,
        c.memory.len() == SLOTS,
        passed(all_steps(target, formats), c, answers),
        was_read(all_steps(target, formats), c, answers, source),
    ensures
        was_parsed_back(all_steps(target, formats), c, answers, format_row(i) + 10, source),
{
    let k = format_row(i) + 10;
    lemma_bound_format(i);
    lemma_plan_rows(target, formats, i, 10);
    lemma_plan_rows(target, formats, i, 11);
    lemma_source_stands(target, formats, i, c, answers, 10, source);
    lemma_source_stands(target, formats, i, c, answers, 11, source);
    lemma_parsed_at(all_steps(target, formats), c, answers, k, source);
}

proof fn lemma_parsed_at(plan: Seq<Row>, c: Course, answers: Seq<Seen>, k: int, source: Seen)
    requires
        passed(plan, c, answers),
        c.at == 0,
        c.memory.len() == SLOTS,
        0 <= k,
        k + 1 < plan.len(),
        plan[k].0 == Op::ParseText,
        plan[k].2 == 21,
        plan[k + 1].0 == Op::ParsedAsExpected,
        plan[k + 1].1 == Weight::Leave,
        plan[k + 1].2 == 21,
        plan[k + 1].3 == 10,
        passes(plan, c, answers, k),
        passes(plan, c, answers, k + 1),
        at(state_at(plan, c, answers, k + 1)->0.memory, 10) == source,
    ensures
        was_parsed_back(plan, c, answers, k, source),
{
    memory_keeps_its_size(plan, c, answers, k);
    memory_keeps_its_size(plan, c, answers, k + 1);
    an_action_was_answered(plan, c, answers, k);
    in_a_clean_run_every_test_held(plan, c, answers, k + 1);
    let s = state_at(plan, c, answers, k + 1)->0;
    let seen = choose|seen: Seen| #[trigger] was_answered(plan, c, answers, k, seen);
    match seen {
        Seen::Imported(t) => {
            a_file_is_read_back_cell_by_cell(
                s.memory,
                21,
                10,
                fill(plan[k + 1].4@, s.memory),
                t,
                events(source),
            );
        },
        _ => {},
    }
}

proof fn lemma_held_over(plan: Seq<Row>, c: Course, answers: Seq<Seen>, k: int)
    requires
        passed(plan, c, answers),
        0 <= k,
        k + 2 < plan.len(),
        passes(plan, c, answers, k + 1),
        passes(plan, c, answers, k + 2),
        class(plan[k + 1].0) != Class::Action,
        class(plan[k + 1].0) != Class::Control,
    ensures
        at(state_at(plan, c, answers, k + 2)->0.memory, 25) == at(
            state_at(plan, c, answers, k + 1)->0.memory,
            25,
        ),
{
    assert(!writes(plan[k + 1], 25));
    an_unwritten_slot_is_kept_between(plan, c, answers, k + 1, k + 2, 25);
}

proof fn lemma_loaded_back(
    target: Target,
    formats: int,
    i: int,
    c: Course,
    answers: Seq<Seen>,
    source: Seen,
)
    requires
        0 <= i < formats,
        c.at == 0,
        c.memory.len() == SLOTS,
        passed(all_steps(target, formats), c, answers),
        was_read(all_steps(target, formats), c, answers, source),
    ensures
        was_loaded_back(all_steps(target, formats), c, answers, format_row(i) + 20, source),
{
    let k = format_row(i) + 20;
    lemma_bound_format(i);
    lemma_plan_rows(target, formats, i, 20);
    lemma_plan_rows(target, formats, i, 21);
    lemma_plan_rows(target, formats, i, 22);
    lemma_stood_at_format(target, formats, i, c, answers, 20);
    lemma_stood_at_format(target, formats, i, c, answers, 21);
    lemma_source_stands(target, formats, i, c, answers, 22, source);
    lemma_loaded_at(all_steps(target, formats), c, answers, k, source);
}

proof fn lemma_loaded_at(plan: Seq<Row>, c: Course, answers: Seq<Seen>, k: int, source: Seen)
    requires
        passed(plan, c, answers),
        c.at == 0,
        c.memory.len() == SLOTS,
        0 <= k,
        k + 2 < plan.len(),
        plan[k].0 == Op::Do,
        plan[k].2 == 25,
        plan[k].4@ == "{t07}"@,
        class(plan[k + 1].0) != Class::Action,
        class(plan[k + 1].0) != Class::Control,
        plan[k + 2].0 == Op::GridSame,
        plan[k + 2].1 == Weight::Leave,
        plan[k + 2].2 == 25,
        plan[k + 2].3 == 10,
        passes(plan, c, answers, k),
        passes(plan, c, answers, k + 1),
        passes(plan, c, answers, k + 2),
        at(state_at(plan, c, answers, k + 2)->0.memory, 10) == source,
    ensures
        was_loaded_back(plan, c, answers, k, source),
{
    memory_keeps_its_size(plan, c, answers, k);
    memory_keeps_its_size(plan, c, answers, k + 2);
    an_action_was_answered(plan, c, answers, k);
    lemma_held_over(plan, c, answers, k);
    in_a_clean_run_every_test_held(plan, c, answers, k + 2);
    let s = state_at(plan, c, answers, k + 2)->0;
    let seen = choose|seen: Seen| #[trigger] was_answered(plan, c, answers, k, seen);
    grids_are_compared_cell_by_cell(
        s.memory,
        25,
        10,
        fill(plan[k + 2].4@, s.memory),
        events(seen),
        events(source),
    );
}

/// The probe of imports passes only where the source rows were read once, and then in
/// every format the file that was written gave back every cell that the source's grid
/// showed, and the table that it was loaded into shows the same rows as the source.
pub proof fn every_format_gave_the_source_back(
    target: Target,
    formats: int,
    memory: Seq<Seen>,
    answers: Seq<Seen>,
)
    requires
        memory.len() == SLOTS,
        0 <= formats,
        clean(course(all_steps(target, formats), opening(memory), answers)),
        course(all_steps(target, formats), opening(memory), answers).at == all_steps(
            target,
            formats,
        ).len(),
    ensures
        exists|source: Seen|
            {
                &&& #[trigger] was_read(all_steps(target, formats), opening(memory), answers, source)
                &&& forall|i: int|
                    0 <= i < formats ==> was_parsed_back(
                        all_steps(target, formats),
                        opening(memory),
                        answers,
                        #[trigger] format_row(i) + 10,
                        source,
                    ) && was_loaded_back(
                        all_steps(target, formats),
                        opening(memory),
                        answers,
                        format_row(i) + 20,
                        source,
                    )
            },
{
    let plan = all_steps(target, formats);
    let c = opening(memory);
    lemma_opening_rows();
    lemma_plan_opening(target, formats, 10);
    assert forall|q: int| 0 <= q < 10 && skips((#[trigger] plan[q]).0) implies q + 1 + plan[q].3
        <= 10 by {
        lemma_plan_opening(target, formats, q);
    }
    a_row_out_of_reach_was_stood_at(plan, c, answers, 10);
    an_action_was_answered(plan, c, answers, 10);
    let source = choose|seen: Seen| #[trigger] was_answered(plan, c, answers, 10, seen);
    assert(was_read(plan, c, answers, source));
    assert forall|i: int| 0 <= i < formats implies was_parsed_back(
        plan,
        c,
        answers,
        #[trigger] format_row(i) + 10,
        source,
    ) && was_loaded_back(plan, c, answers, format_row(i) + 20, source) by {
        lemma_parsed_back(target, formats, i, c, answers, source);
        lemma_loaded_back(target, formats, i, c, answers, source);
    }
}

} // verus!
