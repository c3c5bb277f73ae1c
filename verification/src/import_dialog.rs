//! Probe of the import modal: the script that comes out of it follows the
//! settings that were made in it.
use vstd::prelude::*;
use vstd::string::*;

use crate::course::{a_clean_run_passes_every_test, clean, is_test, plain, plain_adds_up, test_held};
use crate::machine::{append, course, opening, settle, Machine, Row, Weight};
use crate::op::Op;
use crate::seen::{knows, Seen};
use crate::screen::{look_for, looked, Look};
use crate::text::{contains, finds, views};

verus! {

/// The modal's title, and the table it imports into.
pub const DIALOG_TITLE: &'static str = "Import Data from File";

pub const TABLE: &'static str = "HR.EMP";

/// The columns of that table: the name, the declared type, and whether it takes
/// NULL.
pub const CATALOG: [(&'static str, &'static str, bool); 4] = [
    ("EMPNO", "NUMBER", false),
    ("ENAME", "VARCHAR2", true),
    ("HIREDATE", "DATE", true),
    ("SAL", "NUMBER", true),
];

/// The files that are imported.
pub const CSV: &'static str = "EMPNO,ENAME,HIREDATE,SAL\n7369,SMITH,1980-12-17,800\n7499,NULL,1981-02-20,1600\n";

pub const HEADERLESS_CSV: &'static str = "7369,SMITH,1980-12-17,800\n";

pub const JSON: &'static str = "[{\"EMPNO\": 7369, \"ENAME\": \"SMITH\", \"HIREDATE\": \"1980-12-17\", \"SAL\": null}]";

pub const UNREADABLE: &'static str = "not json at all";

/// The script that the first file gives.
pub const EXPECTED: &'static str = "INSERT ALL\n  INTO HR.EMP (EMPNO, ENAME, HIREDATE, SAL) VALUES (7369, 'SMITH', TO_DATE('1980-12-17','YYYY-MM-DD'), 800)\n  INTO HR.EMP (EMPNO, ENAME, HIREDATE, SAL) VALUES (7499, NULL, TO_DATE('1981-02-20','YYYY-MM-DD'), 1600)\nSELECT * FROM DUAL;\n";

/// What is done to the modal when it appears. What is not given is left as the
/// modal shows it.
#[derive(Clone, Copy, Debug)]
pub struct ModalPlan {
    /// The format that is chosen.
    pub format: Option<&'static str>,
    /// Whether the first row is a header.
    pub header: Option<bool>,
    /// The text that stands for NULL.
    pub null_text: Option<&'static str>,
    /// A mapping row, and the item that is chosen there.
    pub remap: Option<(usize, &'static str)>,
    /// Whether the modal is cancelled.
    pub cancel: bool,
    /// Whether the modal opens on JSON, and not on CSV.
    pub opens_on_json: bool,
}

/// The settings of each drive.
pub open spec fn planned(drive: int) -> ModalPlan {
    ModalPlan {
        format: if drive == 1 { Some("JSON") } else { None },
        header: if drive == 2 { Some(false) } else { None },
        null_text: if drive == 4 { Some("\\N") } else { None },
        remap: if drive == 3 { Some((1usize, "(skip)")) } else { None },
        cancel: drive == 5,
        opens_on_json: drive == 6,
    }
}

pub fn modal_plan(drive: usize) -> (r: ModalPlan)
    ensures
        r == planned(drive as int),
{
    ModalPlan {
        format: if drive == 1 {
            Some("JSON")
        } else {
            None
        },
        header: if drive == 2 {
            Some(false)
        } else {
            None
        },
        null_text: if drive == 4 {
            Some("\\N")
        } else {
            None
        },
        remap: if drive == 3 {
            Some((1, "(skip)"))
        } else {
            None
        },
        cancel: drive == 5,
        opens_on_json: drive == 6,
    }
}

/// The button that ends the modal.
pub fn wanted_button(cancel: bool) -> (r: &'static str)
    ensures
        r@ == (if cancel { "Cancel"@ } else { "Import"@ }),
{
    if cancel {
        "Cancel"
    } else {
        "Import"
    }
}

/// The place of the selector for a mapping row: the first selector is the
/// format's.
pub fn mapping_selector(row: usize) -> (r: usize)
    requires
        row < usize::MAX,
    ensures
        r == row + 1,
{
    row + 1
}

/// How long a drive looks for the modal, in tries.
pub const DRIVE_TRIES: u32 = 60;

pub open spec fn alert_look(alert: bool, dialog: bool, attempts: int) -> Look {
    if alert {
        Look::Act
    } else if dialog {
        looked(false, attempts, 20)
    } else {
        Look::Stop
    }
}

/// What the timeout does that closes an alert of the Import button: it stops
/// looking once the modal itself is gone.
pub fn dismiss_alert(alert: bool, dialog: bool, attempts: u32) -> (r: Look)
    ensures
        r == alert_look(alert, dialog, attempts as int),
{
    if alert {
        Look::Act
    } else if dialog {
        look_for(false, attempts, 20)
    } else {
        Look::Stop
    }
}

pub open spec fn refusal_look(dialog: bool, driven: bool, attempts: int) -> Look {
    if dialog { looked(driven, attempts, 40) } else { Look::Stop }
}

/// What the timeout does that cancels a modal which refused to import and stayed
/// open: it waits until the modal has been driven.
pub fn close_if_refused(dialog: bool, driven: bool, attempts: u32) -> (r: Look)
    ensures
        r == refusal_look(dialog, driven, attempts as int),
{
    if !dialog {
        Look::Stop
    } else {
        look_for(driven, attempts, 40)
    }
}

/// Whether a label counts rows or gives a parser's reason.
pub open spec fn sums_up(label: Seq<char>) -> bool {
    contains(label, "row(s)"@) || contains(label, "The "@)
}

/// The modal's summary: the last label that counts rows or gives a parser's
/// reason; empty where there is none.
pub open spec fn summary(labels: Seq<Seq<char>>) -> Seq<char>
    decreases labels.len(),
{
    if labels.len() == 0 {
        Seq::empty()
    } else if sums_up(labels.last()) {
        labels.last()
    } else {
        summary(labels.drop_last())
    }
}

pub fn summary_text(labels: &Vec<String>) -> (r: String)
    ensures
        r@ == summary(views(labels@)),
{
    let mut i: usize = labels.len();
    assert(views(labels@).take(i as int) =~= views(labels@));
    while i > 0
        invariant
            i <= labels@.len(),
            summary(views(labels@)) == summary(views(labels@).take(i as int)),
        decreases i,
    {
        let label = labels[i - 1].as_str();
        assert(views(labels@).take(i as int).last() == label@);
        if finds(label, "row(s)") || finds(label, "The ") {
            return labels[i - 1].clone();
        }
        assert(views(labels@).take(i as int).drop_last() =~= views(labels@).take(i - 1));
        i -= 1;
    }
    String::new()
}

/// What a drive brought back: the script with its summary where there is one, or
/// that the modal never appeared.
pub fn run(driven: bool, outcome: Option<(String, String)>) -> (r: Result<
    Option<(String, String)>,
    String,
>)
    ensures
        driven ==> r == Ok::<Option<(String, String)>, String>(outcome),
        !driven ==> (r matches Err(e) && e@ == "the import modal never appeared"@),
{
    if driven {
        Ok(outcome)
    } else {
        Err("the import modal never appeared".to_owned())
    }
}

/// A file whose header names the table's columns.
pub const DEFAULT_PATH: [Row; 12] = [
    (Op::DriveImport, Weight::Part, 10, 0, "{t01}", "", "default CSV: {z10}"),
    (Op::TextPresent, Weight::Part, 10, 0, "", "", "default CSV produced no script"),
    (
        Op::WordsAre, Weight::Note, 10, 0, "{t05}",
        "PASS: a CSV maps onto the table by name and the NULL text becomes NULL",
        "default CSV produced {q10}, expected {q05}",
    ),
    (Op::ImportSummary, Weight::Try, 11, 0, "", "", ""),
    (
        Op::WordsAre, Weight::Note, 11, 0, "2 row(s) into 4 column(s) of HR.EMP", "",
        "default CSV summary was {q11}",
    ),
    (Op::Join, Weight::Try, 0, 0, "", "", ""),
    (Op::ModalFormats, Weight::Try, 12, 0, "", "", ""),
    (Op::FormatLabels, Weight::Try, 13, 0, "", "", ""),
    (
        Op::SameNames, Weight::Note, 12, 13, "",
        "PASS: the modal offers every export format for import", "the modal offered {l12}",
    ),
    (Op::HeaderActive, Weight::Try, 14, 0, "", "", ""),
    (Op::NullActive, Weight::Try, 15, 0, "", "", ""),
    (
        Op::BothFlags, Weight::Note, 14, 15, "",
        "PASS: CSV keeps the header and NULL-text choices live",
        "CSV deactivated a choice it needs",
    ),
];

/// A format that names its own columns.
pub const SELF_NAMED: [Row; 7] = [
    (Op::DriveImport, Weight::Part, 10, 1, "{t03}", "", "JSON: {z10}"),
    (Op::TextPresent, Weight::Part, 10, 0, "", "", "JSON produced no script"),
    (Op::HeaderActive, Weight::Try, 14, 0, "", "", ""),
    (Op::NullActive, Weight::Try, 15, 0, "", "", ""),
    (
        Op::NeitherFlag, Weight::Note, 14, 15, "",
        "PASS: switching to JSON deactivates the choices it does not use",
        "JSON left the header or NULL-text choice live",
    ),
    (
        Op::WordsHold, Weight::Note, 10, 0,
        "(7369, 'SMITH', TO_DATE('1980-12-17','YYYY-MM-DD'), NULL)",
        "PASS: changing the format re-reads the file and rebuilds the mapping",
        "JSON produced {q10}",
    ),
    (Op::Join, Weight::Try, 0, 0, "", "", ""),
];

/// A file without a header.
pub const BY_POSITION: [Row; 6] = [
    (Op::DriveImport, Weight::Part, 10, 2, "{t02}", "", "header-less CSV: {z10}"),
    (Op::TextPresent, Weight::Part, 10, 0, "", "", "header-less CSV produced no script"),
    (
        Op::WordsHold, Weight::Note, 10, 0,
        "INTO HR.EMP (EMPNO, ENAME, HIREDATE, SAL) VALUES (7369, 'SMITH', ",
        "PASS: a header-less file maps onto the table by position",
        "header-less CSV produced {q10}",
    ),
    (Op::MappingLabels, Weight::Try, 16, 0, "", "", ""),
    (
        Op::FirstBegins, Weight::Note, 16, 0, "EMPNO",
        "PASS: the mapping rows show the table column each file column feeds",
        "header-less mapping showed {l16}",
    ),
    (Op::Join, Weight::Try, 0, 0, "", "", ""),
];

/// What the user skips, and what the user calls NULL.
pub const CHOICES: [Row; 10] = [
    (Op::DriveImport, Weight::Part, 10, 3, "{t01}", "", "skip: {z10}"),
    (Op::TextPresent, Weight::Part, 10, 0, "", "", "skipping a column produced no script"),
    (
        Op::HoldsNot, Weight::Note, 10, 0, "(EMPNO, HIREDATE, SAL)|SMITH",
        "PASS: a skipped file column is left out of the INSERT", "skipping ENAME produced {q10}",
    ),
    (Op::ImportSummary, Weight::Try, 11, 0, "", "", ""),
    (Op::WordsHold, Weight::Note, 11, 0, "1 file column(s) skipped", "", "skip summary was {q11}"),
    (Op::Join, Weight::Try, 0, 0, "", "", ""),
    (Op::DriveImport, Weight::Part, 10, 4, "{t01}", "", "custom NULL text: {z10}"),
    (Op::TextPresent, Weight::Part, 10, 0, "", "", "custom NULL text produced no script"),
    (
        Op::WordsHold, Weight::Note, 10, 0, "(7499, 'NULL', ",
        "PASS: the NULL text is honoured literally, so `NULL` stays a string",
        "custom NULL text produced {q10}",
    ),
    (Op::Join, Weight::Try, 0, 0, "", "", ""),
];

/// What must import nothing.
pub const NO_SCRIPT: [Row; 10] = [
    (Op::DriveImport, Weight::Part, 10, 5, "{t01}", "", "cancel: {z10}"),
    (
        Op::TextAbsent, Weight::Note, 10, 0, "", "PASS: cancelling the modal imports nothing",
        "cancel still produced {q10}",
    ),
    (Op::Join, Weight::Try, 0, 0, "", "", ""),
    (Op::DriveImport, Weight::Part, 10, 6, "{t04}", "", "unreadable file: {z10}"),
    (Op::TextAbsent, Weight::Part, 10, 0, "", "", "unreadable file produced {q10}"),
    (Op::ModalSummary, Weight::Try, 18, 0, "", "", ""),
    (Op::ModalRefused, Weight::Try, 17, 0, "", "", ""),
    (Op::FlagIs, Weight::Note, 17, 1, "", "", "Import closed the modal instead of refusing"),
    (
        Op::WordsHold, Weight::Note, 18, 0, "The JSON is not valid",
        "PASS: an unreadable file reports the parser's reason and imports nothing",
        "unreadable file reported {q18}",
    ),
    (Op::Join, Weight::Try, 0, 0, "", "", ""),
];

/// Every step, in order.
pub open spec fn all_steps() -> Seq<Row> {
    DEFAULT_PATH@
        + SELF_NAMED@
        + BY_POSITION@
        + CHOICES@
        + NO_SCRIPT@
}

pub fn steps() -> (r: Vec<Row>)
    ensures
        r@ == all_steps(),
{
    let mut plan: Vec<Row> = Vec::new();
    append(&mut plan, &DEFAULT_PATH);
    append(&mut plan, &SELF_NAMED);
    append(&mut plan, &BY_POSITION);
    append(&mut plan, &CHOICES);
    append(&mut plan, &NO_SCRIPT);
    assert(plan@ =~= all_steps());
    plan
}

/// The number of slots.
pub const SLOTS: usize = 20;

/// The text a slot starts out with, if it starts out with one.
pub open spec fn fact(slot: int) -> Option<Seq<char>> {
    if slot == 1 {
        Some(CSV@)
    } else if slot == 2 {
        Some(HEADERLESS_CSV@)
    } else if slot == 3 {
        Some(JSON@)
    } else if slot == 4 {
        Some(UNREADABLE@)
    } else if slot == 5 {
        Some(EXPECTED@)
    } else {
        None
    }
}

/// What the probe knows before it starts.
pub fn facts() -> (r: Vec<Seen>)
    ensures
        r@.len() == SLOTS,
        forall|slot: int|
            0 <= slot < SLOTS ==> knows(#[trigger] r@[slot], fact(slot)),
{
    let mut out: Vec<Seen> = Vec::new();
    let mut slot: usize = 0;
    while slot < SLOTS
        invariant
            slot <= SLOTS,
            out@.len() == slot,
            forall|k: int| 0 <= k < slot ==> knows(#[trigger] out@[k], fact(k)),
        decreases SLOTS - slot,
    {
        let seen = if slot == 1 {
            Seen::Text(CSV.to_owned())
        } else if slot == 2 {
            Seen::Text(HEADERLESS_CSV.to_owned())
        } else if slot == 3 {
            Seen::Text(JSON.to_owned())
        } else if slot == 4 {
            Seen::Text(UNREADABLE.to_owned())
        } else if slot == 5 {
            Seen::Text(EXPECTED.to_owned())
        } else {
            Seen::Nothing
        };
        out.push(seen);
        slot += 1;
    }
    out
}

/// Starts the probe.
pub fn verify() -> (r: Machine)
    ensures
        r.wf(),
        r.plan() == all_steps(),
        exists|memory: Seq<Seen>|
            {
                &&& memory.len() == SLOTS
                &&& forall|slot: int|
                    0 <= slot < SLOTS ==> knows(#[trigger] memory[slot], fact(slot))
                &&& r.now() == #[trigger] settle(r.plan(), opening(memory))
            },
{
    let plan = steps();
    let memory = facts();
    Machine::new(plan, memory)
}

proof fn lemma_plain()
    ensures
        plain(all_steps()),
{
    assert(plain(DEFAULT_PATH@));
    assert(plain(SELF_NAMED@));
    assert(plain(BY_POSITION@));
    assert(plain(CHOICES@));
    assert(plain(NO_SCRIPT@));
    plain_adds_up(DEFAULT_PATH@, SELF_NAMED@);
    let s1 = DEFAULT_PATH@ + SELF_NAMED@;
    plain_adds_up(s1, BY_POSITION@);
    let s2 = s1 + BY_POSITION@;
    plain_adds_up(s2, CHOICES@);
    let s3 = s2 + CHOICES@;
    plain_adds_up(s3, NO_SCRIPT@);
    let s4 = s3 + NO_SCRIPT@;
    assert(s4 == all_steps());
}

/// The probe passes only where every test in it was made and held: each
/// script followed the settings it was made with.
pub proof fn a_clean_run_passes_every_test_of_it(
    memory: Seq<Seen>,
    answers: Seq<Seen>,
    k: int,
)
    requires
        0 <= k < all_steps().len(),
        is_test(all_steps()[k]),
        clean(course(all_steps(), opening(memory), answers)),
        course(all_steps(), opening(memory), answers).at == all_steps().len(),
    ensures
        test_held(all_steps(), opening(memory), answers, k),
{
    lemma_plain();
    a_clean_run_passes_every_test(all_steps(), opening(memory), answers, k);
}

} // verus!
