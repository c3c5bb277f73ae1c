//! What the holes of a message write, said of what was observed.
use vstd::prelude::*;
use vstd::string::*;

use crate::grid_shortcut_leak::corner;
use crate::grid::{grid_columns, grid_model, grid_rows, heading, kind_name, table};
use crate::import::{ExportRead, ImportTargets, ImportedTable};
use crate::laws::cells::{a_count_is_streamed_first, is_first_batch, streamed};
use crate::laws::events::{
    all_succeeded, ended, finished, is_first, is_first_failure, is_last, is_last_end, none_finished,
    the_error_is_the_first_failure, the_first_and_the_last_statement,
    the_last_end_says_whether_it_was_cancelled,
};
use crate::op::Op;
use crate::progress::{
    first_cell_spec, first_error_spec, lines, results, rows, script_verdict, shown_modes,
    QueryProgress, QueryResult, SqlValueKind, TransactionIsolation,
};
use crate::routine::Delivery;
use crate::seen::{at, bracketed, optional, reads, told_all, words, Queued, Seen, Telling};
use crate::template::{debug_all, hole, table_form};
use crate::text::{
    begins_with, contains, debug_form, decimal, integer_error, integer_value, joined, occurrences,
    replaced, trim, truth, views,
};
use crate::verdict::own_words;

verus! {

/// A list is written in brackets, its items apart by commas; what may be missing is
/// written as such.
pub proof fn lists_and_options_are_written(items: Seq<Seq<char>>, text: Seq<char>)
    ensures
        bracketed(items) == "["@ + joined(items, ", "@) + "]"@,
        bracketed(seq![text]) == "["@ + text + "]"@,
        optional(Some(text)) == "Some("@ + text + ")"@,
        optional(None) == "None"@,
{
    assert(joined(seq![text], ", "@) == text);
}

/// A statement's success and message, as a pair.
pub open spec fn as_outcome(r: QueryResult) -> Seq<char> {
    "("@ + truth(r.success) + ", "@ + debug_form(r.message@) + ")"@
}

/// The holes that write the first and the last statement of a run.
pub proof fn the_ends_of_a_run_are_written(run: Vec<QueryProgress>, i: int, j: int)
    requires
        is_first(run@, i),
        is_last(run@, j),
    ensures
        ({
            let seen = Seen::Run(run);
            let first = finished(run@[i])->0;
            let last = finished(run@[j])->0;
            &&& hole('f', seen) == "Some("@ + as_outcome(first) + ")"@
            &&& hole('g', seen) == "Some("@ + debug_form(first.message@) + ")"@
            &&& hole('y', seen) == truth(first.success)
            &&& hole('d', seen) == "Some("@ + as_outcome(last) + ")"@
            &&& hole('p', seen) == debug_form(last.message@)
            &&& hole('U', seen) == debug_form(last.sql@)
            &&& hole('X', seen) == truth(last.success)
            &&& hole('Y', seen) == truth(last.is_select)
        }),
{
    the_first_and_the_last_statement(run@);
}

/// The same holes where no statement finished.
pub proof fn an_idle_run_is_written(run: Vec<QueryProgress>)
    requires
        none_finished(run@),
    ensures
        ({
            let seen = Seen::Run(run);
            &&& hole('f', seen) == "None"@
            &&& hole('g', seen) == "None"@
            &&& hole('d', seen) == "None"@
            &&& hole('y', seen) == truth(false)
            &&& hole('X', seen) == truth(false)
            &&& hole('Y', seen) == truth(false)
            &&& hole('p', seen) == ""@
            &&& hole('U', seen) == ""@
        }),
{
    the_first_and_the_last_statement(run@);
    reveal_strlit("");
    assert(""@ =~= Seq::<char>::empty());
}

proof fn lemma_told_all(how: Telling, rs: Seq<QueryResult>, k: int)
    requires
        how != Telling::Failure,
    ensures
        told_all(how, rs).len() == rs.len(),
        0 <= k < rs.len() ==> told_all(how, rs)[k] == crate::seen::told(how, rs[k]),
    decreases rs.len(),
{
    if rs.len() > 0 {
        lemma_told_all(how, rs.drop_last(), k);
    }
}

/// The holes that write every finished statement, in order.
pub proof fn every_statement_is_written(run: Vec<QueryProgress>, list: Seq<Seq<char>>)
    requires
        list.len() == results(run@).len(),
    ensures
        (forall|k: int|
            0 <= k < list.len() ==> #[trigger] list[k] == as_outcome(results(run@)[k])) ==> hole(
            'a',
            Seen::Run(run),
        ) == bracketed(list),
        (forall|k: int|
            0 <= k < list.len() ==> #[trigger] list[k] == "("@ + debug_form(results(run@)[k].sql@)
                + ", "@ + truth(results(run@)[k].success) + ", "@ + debug_form(
                results(run@)[k].message@,
            ) + ")"@) ==> hole('s', Seen::Run(run)) == bracketed(list),
        (forall|k: int|
            0 <= k < list.len() ==> #[trigger] list[k] == "("@ + debug_form(results(run@)[k].sql@)
                + ", "@ + truth(results(run@)[k].success) + ")"@) ==> hole('b', Seen::Run(run))
            == bracketed(list),
{
    let rs = results(run@);
    assert forall|k: int| 0 <= k < rs.len() implies {
        &&& #[trigger] told_all(Telling::Outcome, rs)[k] == as_outcome(rs[k])
    } by {
        lemma_told_all(Telling::Outcome, rs, k);
    }
    assert forall|k: int| 0 <= k < rs.len() implies #[trigger] told_all(Telling::Whole, rs)[k]
        == crate::seen::told(Telling::Whole, rs[k]) by {
        lemma_told_all(Telling::Whole, rs, k);
    }
    assert forall|k: int| 0 <= k < rs.len() implies #[trigger] told_all(Telling::Statement, rs)[k]
        == crate::seen::told(Telling::Statement, rs[k]) by {
        lemma_told_all(Telling::Statement, rs, k);
    }
    lemma_told_all(Telling::Outcome, rs, 0);
    lemma_told_all(Telling::Whole, rs, 0);
    lemma_told_all(Telling::Statement, rs, 0);
    if forall|k: int| 0 <= k < list.len() ==> #[trigger] list[k] == as_outcome(rs[k]) {
        assert(told_all(Telling::Outcome, rs) =~= list);
    }
    if forall|k: int|
        0 <= k < list.len() ==> #[trigger] list[k] == "("@ + debug_form(rs[k].sql@) + ", "@ + truth(
            rs[k].success,
        ) + ", "@ + debug_form(rs[k].message@) + ")"@ {
        assert(told_all(Telling::Whole, rs) =~= list);
    }
    if forall|k: int|
        0 <= k < list.len() ==> #[trigger] list[k] == "("@ + debug_form(rs[k].sql@) + ", "@ + truth(
            rs[k].success,
        ) + ")"@ {
        assert(told_all(Telling::Statement, rs) =~= list);
    }
}

/// Of failures, only those are written: a statement more adds itself where it failed.
pub proof fn only_failures_are_written(rs: Seq<QueryResult>, r: QueryResult)
    ensures
        told_all(Telling::Failure, Seq::<QueryResult>::empty()) == Seq::<Seq<char>>::empty(),
        r.success ==> told_all(Telling::Failure, rs.push(r)) == told_all(Telling::Failure, rs),
        !r.success ==> told_all(Telling::Failure, rs.push(r)) == told_all(
            Telling::Failure,
            rs,
        ).push("("@ + debug_form(r.sql@) + ", "@ + debug_form(r.message@) + ")"@),
{
    assert(rs.push(r).drop_last() =~= rs);
}

/// The holes that write what a run read, said and changed.
pub proof fn what_a_run_brought_is_written(run: Vec<QueryProgress>, list: Seq<Seq<char>>)
    ensures
        ({
            let seen = Seen::Run(run);
            &&& hole('x', seen) == bracketed(told_all(Telling::Failure, results(run@)))
            &&& hole('m', seen) == bracketed(debug_all(views(lines(run@))))
            &&& hole('c', seen) == bracketed(shown_modes(run@))
            &&& list.len() == reads(rows(run@)).len() && (forall|k: int|
                0 <= k < list.len() ==> #[trigger] list[k] == decimal(
                    reads(rows(run@))[k] as int,
                )) ==> hole('r', seen) == bracketed(list)
            &&& list.len() == results(run@).len() && (forall|k: int|
                0 <= k < list.len() ==> #[trigger] list[k] == results(run@)[k].message@) ==> hole(
                'v',
                seen,
            ) == joined(list, " || "@)
            &&& first_cell_spec(run@) is None ==> hole('C', seen) == "None"@
            &&& first_cell_spec(run@) matches Some(cell) ==> hole('C', seen) == "Some("@
                + debug_form(cell) + ")"@
        }),
{
    if list.len() == reads(rows(run@)).len() && (forall|k: int|
        0 <= k < list.len() ==> #[trigger] list[k] == decimal(reads(rows(run@))[k] as int)) {
        assert(crate::template::decimals(reads(rows(run@))) =~= list);
    }
    if list.len() == results(run@).len() && (forall|k: int|
        0 <= k < list.len() ==> #[trigger] list[k] == results(run@)[k].message@) {
        assert(crate::progress::result_messages(results(run@)) =~= list);
    }
}

/// The holes that write how a run ended: cancelled or not, and its first failure.
pub proof fn how_a_run_ended_is_written(run: Vec<QueryProgress>, i: int)
    ensures
        is_last_end(run@, i) ==> hole('W', Seen::Run(run)) == truth(ended(run@[i]) == Some(true)),
        is_first_failure(run@, i) ==> hole('k', Seen::Run(run)) == debug_form(
            (finished(run@[i])->0).message@,
        ) && hole('O', Seen::Run(run)) == "Some("@ + debug_form((finished(run@[i])->0).message@)
            + ")"@,
        all_succeeded(run@) ==> hole('k', Seen::Run(run)) == ""@ && hole('O', Seen::Run(run))
            == "None"@,
{
    the_error_is_the_first_failure(run@);
    the_last_end_says_whether_it_was_cancelled(run@);
    reveal_strlit("");
    assert(""@ =~= Seq::<char>::empty());
}

/// The holes that write a count and a grid.
pub proof fn a_grid_is_written(run: Vec<QueryProgress>, i: int)
    ensures
        ({
            let seen = Seen::Run(run);
            &&& hole('1', seen) == decimal(grid_rows(run@).len() as int)
            &&& hole('K', seen) == decimal(grid_columns(run@).len() as int)
            &&& hole('6', seen) == table_form(grid_rows(run@))
            &&& heading(run@) matches Some(event) ==> hole('4', seen)
                == event->SelectStart_sql@ && hole('5', seen) == debug_form(
                event->SelectStart_sql@,
            )
            &&& is_first_batch(run@, i) ==> (integer_value(
                trim(streamed(run@[i])[0]@.last()@),
            ) matches Some(n) ==> hole('0', seen) == "Some("@ + decimal(n) + ")"@)
            &&& is_first_batch(run@, i) && integer_value(
                trim(streamed(run@[i])[0]@.last()@),
            ) is None ==> hole('0', seen) == "None"@
            &&& grid_model(run@) matches Some(view) ==> hole('S', seen) == "Some("@ + table_form(
                view.rows,
            ) + ")"@
            &&& grid_model(run@) is None ==> hole('S', seen) == "None"@
        }),
{
    a_count_is_streamed_first(run@, i);
}

/// A table is written as a list of lists of quoted texts.
pub proof fn a_table_is_written_row_by_row(t: Seq<Seq<Seq<char>>>, lines: Seq<Seq<char>>)
    requires
        lines.len() == t.len(),
        forall|i: int| 0 <= i < t.len() ==> #[trigger] lines[i] == bracketed(debug_all(t[i])),
    ensures
        table_form(t) == bracketed(lines),
        forall|i: int| 0 <= i < t.len() ==> (#[trigger] debug_all(t[i])).len() == t[i].len(),
        forall|i: int, j: int|
            0 <= i < t.len() && 0 <= j < t[i].len() ==> #[trigger] debug_all(t[i])[j]
                == debug_form(t[i][j]),
{
    assert(Seq::new(t.len(), |i: int| bracketed(debug_all(t[i]))) =~= lines);
}

/// The holes that write the first row of a grid: its last cell, its first and its second.
pub proof fn a_row_of_a_grid_is_written(run: Vec<QueryProgress>)
    requires
        grid_rows(run@).len() > 0,
        grid_rows(run@)[0].len() > 1,
    ensures
        ({
            let seen = Seen::Run(run);
            let row = grid_rows(run@)[0];
            &&& hole('B', seen) == row.last()
            &&& hole('A', seen) == debug_form(row.last())
            &&& hole('D', seen) == row[0]
            &&& hole('E', seen) == debug_form(row[1])
        }),
{
}

/// The holes that write an imported table.
pub proof fn an_imported_table_is_written(t: ImportedTable)
    ensures
        hole('Z', Seen::Imported(t)) == decimal(t.rows@.len() as int),
        hole('L', Seen::Imported(t)) == bracketed(debug_all(views(t.columns@))),
{
    assert(t@.rows.len() == t.rows@.len());
    assert(t@.columns =~= views(t.columns@));
}

/// The holes that write what an import may fill and what it may not.
pub proof fn the_targets_are_written(targets: ImportTargets)
    ensures
        hole('L', Seen::Targets(targets)) == bracketed(debug_all(views(targets.writable@))),
        hole('C', Seen::Targets(targets)) == bracketed(debug_all(views(targets.generated@))),
{
}

/// The holes that write what an exporter read.
pub proof fn an_export_is_written(read: ExportRead)
    ensures
        hole('N', Seen::Export(read)) == decimal(read.catalog@.len() as int),
        hole('M', Seen::Export(read)) == decimal(read.columns@.len() as int),
        hole('Z', Seen::Export(read)) == decimal(read.rows@.len() as int),
        hole('R', Seen::Export(read)) == table_form(table(read.rows@)),
{
}

/// The holes that write a list of names: its first, second and last, how many, and all.
pub proof fn names_are_written(list: Vec<String>)
    ensures
        list@.len() > 0 ==> hole('A', Seen::Names(list)) == list@[0]@,
        list@.len() > 1 ==> hole('B', Seen::Names(list)) == list@[1]@,
        list@.len() > 0 ==> hole('Z', Seen::Names(list)) == list@.last()@,
        hole('#', Seen::Names(list)) == decimal(list@.len() as int),
        hole('J', Seen::Names(list)) == joined(views(list@), ", "@),
        hole('l', Seen::Names(list)) == bracketed(debug_all(views(list@))),
{
}

/// The holes that write what was delivered.
pub proof fn a_delivery_is_written(delivery: Delivery)
    ensures
        ({
            let seen = Seen::Delivery(delivery);
            &&& hole('D', seen) == delivery.name@
            &&& hole('E', seen) == debug_form(delivery.name@)
            &&& hole('K', seen) == delivery.kind@
            &&& hole('J', seen) == debug_form(delivery.kind@)
            &&& delivery.alert matches Some(text) ==> hole('R', seen) == text@ && hole('A', seen)
                == "Some("@ + debug_form(text@) + ")"@
            &&& delivery.alert is None ==> hole('R', seen) == ""@ && hole('A', seen) == "None"@
            &&& delivery.sql matches Some(text) ==> hole('Q', seen) == text@ && hole('S', seen)
                == "Some("@ + debug_form(text@) + ")"@
            &&& delivery.sql is None ==> hole('Q', seen) == ""@ && hole('S', seen) == "None"@
        }),
{
    reveal_strlit("");
    assert(""@ =~= Seq::<char>::empty());
}

/// The holes that measure a script: its statements, its inserts of either kind, and its
/// text without the blanks around it.
pub proof fn a_script_is_measured(script: String)
    ensures
        hole('9', Seen::Text(script)) == decimal(occurrences(script@, ";"@) as int),
        hole('a', Seen::Text(script)) == decimal(occurrences(script@, "INSERT ALL"@) as int),
        hole('b', Seen::Text(script)) == decimal(occurrences(script@, "INSERT INTO"@) as int),
        hole('H', Seen::Text(script)) == trim(script@),
        hole('w', Seen::Text(script)) == " (not expressible here: "@ + script@ + ")"@,
{
}

/// The holes that write an answer: a flag, an error, a number that is none, and whether a
/// level holds a snapshot.
pub proof fn an_answer_is_written(
    b: bool,
    error: String,
    seen: Seen,
    isolation: TransactionIsolation,
    label: String,
)
    ensures
        hole('G', Seen::Flag(b)) == "Some("@ + truth(b) + ")"@,
        hole('V', Seen::Failed(error)) == "Err("@ + debug_form(error@) + ")"@,
        hole('d', Seen::Failed(error)) == "Some((false, "@ + debug_form(error@) + "))"@,
        !(seen is Failed) ==> hole('V', seen) == "Ok("@ + debug_form(words(seen)) + ")"@,
        integer_value(trim(words(seen))) is None ==> hole('e', seen) == integer_error(
            trim(words(seen)),
        ) && hole('n', seen) == ""@ && hole('+', seen) == ""@,
        integer_value(trim(words(seen))) is Some ==> hole('e', seen) == ""@,
        hole('h', Seen::Isolation { isolation, label }) == (if isolation
            == TransactionIsolation::RepeatableRead || isolation
            == TransactionIsolation::Serializable {
            "be"@
        } else {
            "not be"@
        }),
{
    reveal_strlit("");
    assert(""@ =~= Seq::<char>::empty());
    reveal_strlit("Some((false, ");
    reveal_strlit("Some(");
    reveal_strlit("(false, ");
    reveal_strlit("))");
    reveal_strlit(")");
    assert(hole('d', Seen::Failed(error)) =~= "Some((false, "@ + debug_form(error@) + "))"@);
}

/// What a queued export that was not replaced is told by.
pub proof fn a_queued_export_is_told(
    memory: Seq<Seen>,
    slot: int,
    other: int,
    arg: Seq<char>,
    queued: Queued,
)
    requires
        0 <= slot < memory.len(),
        memory[slot] == Seen::Queued(queued),
    ensures
        ({
            let said = own_words(Op::QueuedReplaced, slot, other, arg, memory);
            match queued {
                Queued::Replaced => said.len() == 0,
                Queued::Abandoned(reason) => said
                    == "the queued export was abandoned, but reported "@ + reason@
                    + " rather than a replacement"@,
                Queued::Data { rows, text } => said
                    == "the queued export rendered the NEW result: "@ + decimal(rows as int)
                    + " rows, "@ + debug_form(text@),
                Queued::Snapshot => said
                    == "a CSV export handed back a SQL Inserts snapshot, which it can never build"@,
                Queued::Waiting => said
                    == "the queued export was neither run nor abandoned — the caller waits forever"@,
            }
        }),
        ({
            let said = own_words(Op::NotRun, slot, other, arg, memory);
            match queued {
                Queued::Data { rows, text } => said
                    == "closing the old session ran the abandoned export after all: "@ + ("Some("@
                    + debug_form(text@) + ")"@),
                _ => said == "closing the old session ran the abandoned export after all: "@
                    + "None"@,
            }
        }),
{
}

/// What an export is told by that is not the one that was asked for: another result that
/// took its place, or what the clipboard held.
pub proof fn a_stolen_export_is_told(
    memory: Seq<Seen>,
    slot: int,
    other: int,
    arg: Seq<char>,
    text: Seq<char>,
)
    requires
        words(at(memory, slot)) == text,
    ensures
        contains(text, "stolen"@) ==> own_words(Op::SameExport, slot, other, arg, memory) == "the "@
            + arg + " export followed the active tab to a result that arrived under the modal"@,
        !contains(text, "stolen"@) ==> own_words(Op::SameExport, slot, other, arg, memory)
            == "mid-modal arrival ("@ + arg + "): clipboard held "@ + debug_form(text)
            + ", expected the pinned result's CSV"@,
{
}

/// Kinds are written by their names.
pub proof fn kinds_are_written()
    ensures
        kind_name(SqlValueKind::Number) == "Number"@,
        kind_name(SqlValueKind::String) == "String"@,
        kind_name(SqlValueKind::Temporal) == "Temporal"@,
        kind_name(SqlValueKind::Binary) == "Binary"@,
        kind_name(SqlValueKind::Unknown) == "Unknown"@,
{
}

/// A generated script is good where statements ran and none of them failed; it is told by
/// its first failure, or by having run nothing.
pub proof fn a_generated_script_is_judged(label: Seq<char>, run: Seq<QueryProgress>, i: int)
    ensures
        none_finished(run) ==> script_verdict(label, run) == Some(
            label + ": generated script ran no statements"@,
        ),
        is_first_failure(run, i) ==> script_verdict(label, run) == Some(
            label + ": generated script statement failed: "@ + debug_form(
                (finished(run[i])->0).message@,
            ),
        ),
        all_succeeded(run) && !none_finished(run) ==> script_verdict(label, run) is None,
{
    the_first_and_the_last_statement(run);
    the_error_is_the_first_failure(run);
    if none_finished(run) && first_error_spec(run) is Some {
        assert(all_succeeded(run));
    }
}

/// The corners of the grid are named apart.
pub proof fn the_corners_are_named()
    ensures
        begins_with(corner(true), "last"@),
        begins_with(corner(false), "first"@),
{
    reveal_strlit("last");
    reveal_strlit("first");
    reveal_strlit("last row/col");
    reveal_strlit("first row/col");
    assert("last row/col"@.subrange(0, 4) =~= "last"@);
    assert("first row/col"@.subrange(0, 5) =~= "first"@);
}

} // verus!
