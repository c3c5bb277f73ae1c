//! Probe of the export modal: what reaches the clipboard is the result the user
//! asked on, in the format and scope that were chosen.
use vstd::prelude::*;
use vstd::string::*;

use crate::course::{
    a_clean_run_passes_every_test_not_left_out, clean, is_test, left_out, test_held,
};
use crate::grid::table;
use crate::import::{export_grid, rows_view, snapshot_table, ExportGrid};
use crate::machine::{
    append, bind, bound, course, lemma_stands_between, lemma_stands_within, opening, settle,
    stands_in, Machine, Row, Weight,
};
use crate::op::{Op, HERE};
use crate::progress::SqlValueKind;
use crate::screen::{look_for, looked, Look};
use crate::screen_verdict::{any_holds, does_any_hold};
use crate::seen::{knows, Seen};
use crate::text::{same, views};

verus! {

/// The text that the grid shows for NULL.
pub const NULL_TEXT: &'static str = "NULL";

/// The menu item that starts an export, and the title of the modal it opens.
pub const MENU_PATH: &'static str = "&Tools/&Export Results";

pub const DIALOG_TITLE: &'static str = "Export Results";

/// The statement whose result is exported.
pub const SAMPLE_SQL: &'static str = "SELECT EMPNO, ENAME, HIREDATE, NOTE FROM SCOTT.EMP";

/// The columns of that result.
pub const COLUMNS: [(&'static str, SqlValueKind); 4] = [
    ("EMPNO", SqlValueKind::Number),
    ("ENAME", SqlValueKind::String),
    ("HIREDATE", SqlValueKind::Temporal),
    ("NOTE", SqlValueKind::String),
];

/// Its rows: one value for every rule of escaping.
pub const ROWS: [[&'static str; 4]; 3] = [
    ["7369", "comma, and \"quotes\"", "1980-12-17 00:00:00", "pipe | and <tag>"],
    ["7499", "ALLEN", "1981-02-20 00:00:00", "NULL"],
    ["7521", "한국어", "1981-02-22 00:00:00", "line1\nline2"],
];

/// What is exported of the result.
#[derive(Clone, Copy, Debug, PartialEq, Eq, Structural)]
pub enum ExportScope {
    All,
    Selection,
}

/// The rows and columns that a scope covers: a selection covers the first two
/// rows and the first three columns.
pub open spec fn covered_rows(scope: ExportScope) -> int {
    if scope is All { 3 } else { 2 }
}

pub open spec fn covered_columns(scope: ExportScope) -> int {
    if scope is All { 4 } else { 3 }
}

pub open spec fn covered(scope: ExportScope) -> Seq<Seq<Seq<char>>> {
    Seq::new(
        covered_rows(scope) as nat,
        |i: int| Seq::new(covered_columns(scope) as nat, |j: int| ROWS@[i]@[j]@),
    )
}

fn covered_cells(scope: ExportScope) -> (r: Vec<Vec<String>>)
    ensures
        table(r@) == covered(scope),
{
    let height: usize = match scope {
        ExportScope::All => 3,
        ExportScope::Selection => 2,
    };
    let width: usize = match scope {
        ExportScope::All => 4,
        ExportScope::Selection => 3,
    };
    let mut out: Vec<Vec<String>> = Vec::new();
    let mut i: usize = 0;
    while i < height
        invariant
            i <= height == covered_rows(scope),
            width == covered_columns(scope),
            out@.len() == i,
            forall|k: int| 0 <= k < i ==> views((#[trigger] out@[k])@) == covered(scope)[k],
        decreases height - i,
    {
        let mut row: Vec<String> = Vec::new();
        let mut j: usize = 0;
        while j < width
            invariant
                j <= width == covered_columns(scope),
                i < covered_rows(scope),
                row@.len() == j,
                forall|k: int| 0 <= k < j ==> (#[trigger] row@[k])@ == ROWS@[i as int]@[k]@,
            decreases width - j,
        {
            row.push(ROWS[i][j].to_owned());
            j += 1;
        }
        assert(views(row@) =~= covered(scope)[i as int]);
        out.push(row);
        i += 1;
    }
    assert(table(out@) =~= covered(scope));
    out
}

/// The rows that the grid shows.
pub fn sample_rows() -> (r: Vec<Vec<String>>)
    ensures
        table(r@) == covered(ExportScope::All),
{
    covered_cells(ExportScope::All)
}

/// The grid that an export writes, for a scope.
pub fn expected_grid(scope: ExportScope) -> (r: ExportGrid)
    ensures
        r.columns@.len() == covered_columns(scope),
        forall|j: int| 0 <= j < r.columns@.len() ==> (#[trigger] r.columns@[j])@ == COLUMNS@[j].0@,
        r.column_kinds@.len() == covered_columns(scope),
        forall|j: int|
            0 <= j < r.column_kinds@.len() ==> #[trigger] r.column_kinds@[j] == COLUMNS@[j].1,
        rows_view(r.rows@) == snapshot_table(covered(scope)),
        r.null_text@ == NULL_TEXT@,
{
    let width: usize = match scope {
        ExportScope::All => 4,
        ExportScope::Selection => 3,
    };
    let mut columns: Vec<String> = Vec::new();
    let mut kinds: Vec<SqlValueKind> = Vec::new();
    let mut j: usize = 0;
    while j < width
        invariant
            j <= width == covered_columns(scope),
            columns@.len() == j,
            kinds@.len() == j,
            forall|k: int| 0 <= k < j ==> (#[trigger] columns@[k])@ == COLUMNS@[k].0@,
            forall|k: int| 0 <= k < j ==> #[trigger] kinds@[k] == COLUMNS@[k].1,
        decreases width - j,
    {
        columns.push(COLUMNS[j].0.to_owned());
        kinds.push(COLUMNS[j].1);
        j += 1;
    }
    let cells = covered_cells(scope);
    export_grid(columns, kinds, &cells)
}

/// Formats that a step names itself; every other number counts the formats.
pub const JSON_FORMAT: usize = 93;

pub const CSV_FORMAT: usize = 90;

/// The scope's radio button.
pub open spec fn scope_label(scope: ExportScope) -> Seq<char> {
    match scope {
        ExportScope::All => "All rows"@,
        ExportScope::Selection => "Selected rows"@,
    }
}

/// How a radio button is set for an export to the clipboard, if it is set.
pub open spec fn radio(label: Seq<char>, scope: ExportScope) -> Option<bool> {
    if label == "All rows"@ || label == "Selected rows"@ {
        Some(label == scope_label(scope))
    } else if label == "File"@ {
        Some(false)
    } else if label == "Clipboard"@ {
        Some(true)
    } else {
        None
    }
}

/// How the modal's radio buttons are set for an export to the clipboard; the
/// others are left alone.
pub fn radio_value(label: &str, scope: ExportScope) -> (r: Option<bool>)
    ensures
        r == radio(label@, scope),
{
    let wanted = match scope {
        ExportScope::All => "All rows",
        ExportScope::Selection => "Selected rows",
    };
    if same(label, "All rows") || same(label, "Selected rows") {
        Some(same(label, wanted))
    } else if same(label, "File") {
        Some(false)
    } else if same(label, "Clipboard") {
        Some(true)
    } else {
        None
    }
}

/// The button that ends the modal.
pub fn wanted_button(cancel: bool) -> (r: &'static str)
    ensures
        r@ == (if cancel { "Cancel"@ } else { "Export"@ }),
{
    if cancel {
        "Cancel"
    } else {
        "Export"
    }
}

pub open spec fn modal_look(dialog: bool, alert: bool, attempts: int) -> Look {
    if dialog {
        Look::Act
    } else if alert {
        Look::Refused
    } else {
        looked(false, attempts, 40)
    }
}

/// What the timeout does that drives the modal: an alert in its place means that
/// the export refused.
pub fn drive_modal(dialog: bool, alert: bool, attempts: u32) -> (r: Look)
    ensures
        r == modal_look(dialog, alert, attempts as int),
{
    if !dialog && alert {
        Look::Refused
    } else {
        look_for(dialog, attempts, 40)
    }
}

/// How long a timeout looks for the alert of a result that is gone, in tries.
pub const GONE_TRIES: u32 = 60;

/// Whether an alert says that its result is no longer open.
pub fn says_gone(labels: &Vec<String>) -> (r: bool)
    ensures
        r == any_holds(views(labels@), "no longer open"@),
{
    does_any_hold(labels, "no longer open")
}

/// What is wrong with an export through the modal, if anything is.
pub open spec fn export_fault(refused: bool, driven: bool) -> Option<Seq<char>> {
    if refused {
        Some("the export refused with an alert instead of opening the modal"@)
    } else if !driven {
        Some("the export modal never appeared"@)
    } else {
        None
    }
}

/// What an export through the modal brought: what the clipboard holds, unless
/// the modal was not driven.
pub fn run_export(refused: bool, driven: bool, clipboard: String) -> (r: Result<String, String>)
    ensures
        match export_fault(refused, driven) {
            Some(words) => r matches Err(e) && e@ == words,
            None => r == Ok::<String, String>(clipboard),
        },
{
    if refused {
        return Err("the export refused with an alert instead of opening the modal".to_owned());
    }
    if !driven {
        return Err("the export modal never appeared".to_owned());
    }
    Ok(clipboard)
}

/// What is wrong with the menu item that starts an export, if anything is: the
/// menu is missing, or the item has no place in it.
pub fn menu_fault(menu: bool, index: i32) -> (r: Option<String>)
    ensures
        r is Some <==> !menu || index < 0,
        !menu ==> (r matches Some(e) && e@ == "no main menu"@),
        menu && index < 0 ==> (r matches Some(e) && e@ == "menu item "@ + MENU_PATH@
            + " not found"@),
{
    if !menu {
        Some("no main menu".to_owned())
    } else if index < 0 {
        let mut out = "menu item ".to_owned();
        out.append(MENU_PATH);
        out.append(" not found");
        Some(out)
    } else {
        None
    }
}

/// The result that takes the place of the one that is exported.
pub const STOLEN_SQL: &'static str = "SELECT B FROM OTHER";

pub const STOLEN_COLUMN: &'static str = "B";

pub const STOLEN_CELL: &'static str = "stolen";

/// The result is on screen.
pub const OPENING: [Row; 6] = [
    (Op::ShowSql, Weight::Try, 99, 0, "SELECT * FROM SCOTT.EMP;", "", ""),
    (Op::PumpFor, Weight::Try, 99, 300, "", "", ""),
    (Op::ShowResult, Weight::Leave, 10, 0, "", "", "could not show the fixture result: {z10}"),
    (Op::PumpFor, Weight::Try, 99, 800, "", "", ""),
    (Op::HasData, Weight::Try, 11, 0, "", "", ""),
    (
        Op::FlagIs, Weight::Leave, 11, 1, "",
        "PASS: the fixture result is on screen and exportable",
        "the fixture result never reached the grid",
    ),
];

/// An export of one format through the modal.
pub const ONE_FORMAT: [Row; 7] = [
    (Op::FormatLabel, Weight::Try, 12, HERE, "", "", ""),
    (Op::IsInserts, Weight::Try, 13, HERE, "", "", ""),
    (Op::SkipIf, Weight::Try, 13, 3, "", "", ""),
    (Op::RunExport, Weight::Part, 14, HERE, "All", "", "{t12} / All: {z14}"),
    (Op::RenderSample, Weight::Try, 15, HERE, "All", "", ""),
    (
        Op::SameWords, Weight::Note, 14, 15, "",
        "PASS: {t12} / All reached the clipboard byte for byte",
        "{t12} / All: clipboard held {q14}, expected {q15}",
    ),
    (Op::Join, Weight::Try, 0, 0, "", "", ""),
];

/// An export of the selected rows; what the modal offers; and one that is cancelled.
pub const SELECTION: [Row; 12] = [
    (Op::FormatLabel, Weight::Try, 12, JSON_FORMAT, "", "", ""),
    (Op::RunExport, Weight::Part, 14, JSON_FORMAT, "Selection", "", "{t12} / Selection: {z14}"),
    (Op::RenderSample, Weight::Try, 15, JSON_FORMAT, "Selection", "", ""),
    (
        Op::SameWords, Weight::Note, 14, 15, "",
        "PASS: {t12} / Selection reached the clipboard byte for byte",
        "{t12} / Selection: clipboard held {q14}, expected {q15}",
    ),
    (Op::Join, Weight::Try, 0, 0, "", "", ""),
    (Op::ModalFormats, Weight::Try, 16, 0, "", "", ""),
    (
        Op::LacksName, Weight::Note, 16, 0, "SQL Inserts",
        "PASS: SQL Inserts is withheld while no connection can name the dialect",
        "the modal offered SQL Inserts without a connection",
    ),
    (Op::Say, Weight::Try, 0, 0, "", "      formats offered: {J16}", ""),
    (Op::SetClipboard, Weight::Try, 99, 0, "sentinel", "", ""),
    (Op::RunExport, Weight::Part, 14, JSON_FORMAT, "Cancel", "", "cancel: {z14}"),
    (
        Op::WordsAre, Weight::Note, 14, 0, "sentinel", "PASS: cancelling the modal exports nothing",
        "cancel still wrote to the clipboard: {q14}",
    ),
    (Op::Join, Weight::Try, 0, 0, "", "", ""),
];

/// A result whose columns repeat a name cannot be written as SQL.
pub const REPEATED_NAME: [Row; 6] = [
    (Op::ExportRefusal, Weight::Try, 14, 0, "ID|ID|1|2", "", ""),
    (
        Op::TextPresent, Weight::Part, 14, 0, "", "",
        "a result with two columns named ID was not refused for SQL export",
    ),
    (
        Op::WordsHold, Weight::Note, 14, 0, "ID", "PASS: a repeated column name is refused — {t14}",
        "the refusal does not name the column: {t14}",
    ),
    (Op::Join, Weight::Try, 0, 0, "", "", ""),
    (Op::ExportRefusal, Weight::Try, 14, 0, "ID|NAME|1|x", "", ""),
    (
        Op::TextAbsent, Weight::Note, 14, 0, "",
        "PASS: a result whose column names are distinct is not refused",
        "a result with distinct names was refused: {t14}",
    ),
];

/// A queued export belongs to the result it was queued against.
pub const QUEUED: [Row; 11] = [
    (Op::QueueExport, Weight::Try, 14, 0, "", "", ""),
    (Op::FlagIs, Weight::Quit, 14, 0, "", "", "the export did not queue behind the full fetch"),
    (Op::FetchAllAsked, Weight::Try, 15, 0, "", "", ""),
    (Op::FlagIs, Weight::Quit, 15, 1, "", "", "queueing did not ask for the rest of the rows"),
    (Op::NewResult, Weight::Try, 99, 0, "", "", ""),
    (Op::QueuedOutcome, Weight::Try, 16, 0, "", "", ""),
    (
        Op::QueuedReplaced, Weight::Note, 16, 0, "",
        "PASS: a queued export is abandoned when a new result replaces its own", "",
    ),
    (Op::CloseSession, Weight::Try, 99, 0, "", "", ""),
    (Op::QueuedOutcome, Weight::Try, 16, 0, "", "", ""),
    (Op::NotRun, Weight::Note, 16, 0, "", "", ""),
    (Op::Cleanup, Weight::Try, 0, 0, "", "", ""),
];

/// An export as SQL writes the rows it was started with.
pub const OWN_ROWS: [Row; 7] = [
    (Op::TakeSnapshot, Weight::Try, 14, 0, "", "", ""),
    (
        Op::FlagIs, Weight::Quit, 14, 1, "", "",
        "the grid produced no SQL Inserts snapshot to export",
    ),
    (Op::ReplaceResult, Weight::Try, 99, 0, "", "", ""),
    (Op::BuiltInserts, Weight::Try, 15, 0, "", "", ""),
    (Op::BuiltRows, Weight::Try, 16, 0, "", "", ""),
    (
        Op::WroteOwnRow, Weight::Note, 15, 16, "",
        "PASS: a SQL Inserts export writes the rows it was started with",
        "the export followed the grid to its new result instead of writing its own rows: {q15}",
    ),
    (Op::Cleanup, Weight::Try, 0, 0, "", "", ""),
];

/// An export covers the result the user asked on.
pub const ASKED_ON: [Row; 25] = [
    (
        Op::ShowResult, Weight::Quit, 10, 0, "", "",
        "mid-modal arrival (All): could not show the fixture: {z10}",
    ),
    (Op::PumpFor, Weight::Try, 99, 400, "", "", ""),
    (Op::ClearSelection, Weight::Try, 99, 0, "", "", ""),
    (Op::PumpFor, Weight::Try, 99, 200, "", "", ""),
    (Op::SetClipboard, Weight::Try, 99, 0, "", "", ""),
    (
        Op::ArriveAndExport, Weight::Quit, 11, CSV_FORMAT, "All", "",
        "mid-modal arrival (All): {z11}",
    ),
    (Op::PumpFor, Weight::Try, 99, 1500, "", "", ""),
    (Op::ModalDriven, Weight::Try, 12, 0, "", "", ""),
    (
        Op::FlagIs, Weight::Quit, 12, 1, "", "",
        "mid-modal arrival (All): the export modal never appeared",
    ),
    (Op::ReadClipboard, Weight::Try, 14, 0, "", "", ""),
    (Op::RenderSample, Weight::Try, 15, CSV_FORMAT, "All", "", ""),
    (
        Op::SameExport, Weight::Note, 14, 15, "All",
        "PASS: a All export covers the result the user asked on, not the tab a batch selected", "",
    ),
    (
        Op::ShowResult, Weight::Quit, 10, 0, "", "",
        "mid-modal arrival (Selection): could not show the fixture: {z10}",
    ),
    (Op::PumpFor, Weight::Try, 99, 400, "", "", ""),
    (Op::SelectRange, Weight::Try, 99, 0, "0 0 1 2", "", ""),
    (Op::PumpFor, Weight::Try, 99, 200, "", "", ""),
    (Op::SetClipboard, Weight::Try, 99, 0, "", "", ""),
    (
        Op::ArriveAndExport, Weight::Quit, 11, CSV_FORMAT, "Selection", "",
        "mid-modal arrival (Selection): {z11}",
    ),
    (Op::PumpFor, Weight::Try, 99, 1500, "", "", ""),
    (Op::ModalDriven, Weight::Try, 12, 0, "", "", ""),
    (
        Op::FlagIs, Weight::Quit, 12, 1, "", "",
        "mid-modal arrival (Selection): the export modal never appeared",
    ),
    (Op::ReadClipboard, Weight::Try, 14, 0, "", "", ""),
    (Op::RenderSample, Weight::Try, 15, CSV_FORMAT, "Selection", "", ""),
    (
        Op::SameExport, Weight::Note, 14, 15, "Selection",
        "PASS: a Selection export covers the result the user asked on, not the tab a batch selected",
        "",
    ),
    (Op::Cleanup, Weight::Try, 0, 0, "", "", ""),
];

/// An export whose result is gone is refused.
pub const CLOSED_RESULT: [Row; 15] = [
    (
        Op::ShowResult, Weight::Quit, 10, 0, "", "",
        "closed-result export: could not show the fixture: {z10}",
    ),
    (Op::PumpFor, Weight::Try, 99, 400, "", "", ""),
    (Op::ClearSelection, Weight::Try, 99, 0, "", "", ""),
    (Op::PumpFor, Weight::Try, 99, 200, "", "", ""),
    (Op::SetClipboard, Weight::Try, 99, 0, "sentinel-gone", "", ""),
    (Op::ReplaceAndExport, Weight::Quit, 11, CSV_FORMAT, "All", "", "closed-result export: {z11}"),
    (Op::PumpFor, Weight::Try, 99, 2000, "", "", ""),
    (Op::AlertSeen, Weight::Try, 12, 0, "", "", ""),
    (Op::AlertRight, Weight::Try, 13, 0, "", "", ""),
    (
        Op::FlagIs, Weight::Part, 12, 1, "", "",
        "the export of a result closed under the modal said nothing at all",
    ),
    (
        Op::FlagIs, Weight::Part, 13, 1, "",
        "PASS: an export whose result closed under the modal refuses and says so",
        "the closed-result refusal did not say the result is no longer open",
    ),
    (Op::Join, Weight::Try, 0, 0, "", "", ""),
    (Op::ReadClipboard, Weight::Try, 14, 0, "", "", ""),
    (
        Op::WordsAre, Weight::Note, 14, 0, "sentinel-gone",
        "PASS: the refused export wrote nothing",
        "the refused export still wrote to the clipboard: {q14}",
    ),
    (Op::Cleanup, Weight::Try, 0, 0, "", "", ""),
];

/// The steps for each of some formats, by number.
pub open spec fn every_format(formats: int) -> Seq<Row>
    decreases formats,
{
    if formats <= 0 {
        Seq::empty()
    } else {
        every_format(formats - 1) + bound(ONE_FORMAT@, formats - 1)
    }
}

fn add_formats(plan: &mut Vec<Row>, formats: usize)
    ensures
        final(plan)@ == old(plan)@ + every_format(formats as int),
{
    let ghost start = plan@;
    let mut i: usize = 0;
    assert(start + every_format(0) =~= start);
    while i < formats
        invariant
            i <= formats,
            plan@ == start + every_format(i as int),
        decreases formats - i,
    {
        bind(plan, &ONE_FORMAT, i);
        i += 1;
        assert(plan@ =~= start + every_format(i as int));
    }
}

/// Every step, in order, for so many formats.
pub open spec fn all_steps(formats: int) -> Seq<Row> {
    OPENING@ + every_format(formats) + SELECTION@ + REPEATED_NAME@ + QUEUED@ + OWN_ROWS@ + ASKED_ON@
        + CLOSED_RESULT@
}

pub fn steps(formats: usize) -> (r: Vec<Row>)
    ensures
        r@ == all_steps(formats as int),
{
    let mut plan: Vec<Row> = Vec::new();
    append(&mut plan, &OPENING);
    add_formats(&mut plan, formats);
    append(&mut plan, &SELECTION);
    append(&mut plan, &REPEATED_NAME);
    append(&mut plan, &QUEUED);
    append(&mut plan, &OWN_ROWS);
    append(&mut plan, &ASKED_ON);
    append(&mut plan, &CLOSED_RESULT);
    assert(plan@ =~= all_steps(formats as int));
    plan
}

proof fn lemma_format_stands(formats: int, i: int)
    requires
        0 <= i < formats,
    ensures
        stands_in(bound(ONE_FORMAT@, i), every_format(formats)),
    decreases formats,
{
    let rest = every_format(formats - 1);
    let last = bound(ONE_FORMAT@, formats - 1);
    if i == formats - 1 {
        lemma_stands_between(rest, last, Seq::empty());
        assert(rest + last + Seq::empty() =~= every_format(formats));
    } else {
        lemma_format_stands(formats - 1, i);
        lemma_stands_within(bound(ONE_FORMAT@, i), rest, Seq::empty(), last);
        assert(Seq::<Row>::empty() + rest + last =~= every_format(formats));
    }
}

/// Every format is exported through the modal.
pub proof fn every_format_is_tried(formats: int, i: int)
    requires
        0 <= i < formats,
    ensures
        stands_in(bound(ONE_FORMAT@, i), all_steps(formats)),
{
    lemma_format_stands(formats, i);
    let after = SELECTION@ + REPEATED_NAME@ + QUEUED@ + OWN_ROWS@ + ASKED_ON@ + CLOSED_RESULT@;
    lemma_stands_within(bound(ONE_FORMAT@, i), every_format(formats), OPENING@, after);
    assert(OPENING@ + every_format(formats) + after =~= all_steps(formats));
}


/// The number of slots.
pub const SLOTS: usize = 20;

/// The text a slot starts out with, if it starts out with one.
pub open spec fn fact(slot: int) -> Option<Seq<char>> {
    None
}

/// What the probe knows before it starts.
pub fn facts() -> (r: Vec<Seen>)
    ensures
        r@.len() == SLOTS,
        forall|slot: int|
            0 <= slot < SLOTS ==> knows(#[trigger] r@[slot], fact(slot)),
{
    let mut out: Vec<Seen> = Vec::new();
    let mut slot: usize = 0;
    while slot < SLOTS
        invariant
            slot <= SLOTS,
            out@.len() == slot,
            forall|k: int| 0 <= k < slot ==> knows(#[trigger] out@[k], fact(k)),
        decreases SLOTS - slot,
    {
        out.push(Seen::Nothing);
        slot += 1;
    }
    out
}

/// Starts the probe, for so many formats.
pub fn verify(formats: usize) -> (r: Machine)
    ensures
        r.wf(),
        r.plan() == all_steps(formats as int),
        exists|memory: Seq<Seen>|
            {
                &&& memory.len() == SLOTS
                &&& forall|slot: int|
                    0 <= slot < SLOTS ==> knows(#[trigger] memory[slot], fact(slot))
                &&& r.now() == #[trigger] settle(r.plan(), opening(memory))
            },
{
    let plan = steps(formats);
    let memory = facts();
    Machine::new(plan, memory)
}

/// The probe passes only where every test in it was made and held, but for those
/// that a step left out under its own condition: each
/// export covered the result it was asked on.
pub proof fn a_clean_run_passes_every_test_of_it(
    formats: int,
    memory: Seq<Seen>,
    answers: Seq<Seen>,
    k: int,
)
    requires
        0 <= k < all_steps(formats).len(),
        is_test(all_steps(formats)[k]),
        clean(course(all_steps(formats), opening(memory), answers)),
        course(all_steps(formats), opening(memory), answers).at == all_steps(formats).len(),
    ensures
        test_held(all_steps(formats), opening(memory), answers, k) || left_out(
            all_steps(formats),
            opening(memory),
            answers,
            k,
        ),
{
    a_clean_run_passes_every_test_not_left_out(all_steps(formats), opening(memory), answers, k);
}

} // verus!
