//! Probe of the read that an export of a table makes: no row locator comes with
//! the table's own columns, whichever driver reads it.
use vstd::prelude::*;
use vstd::string::*;

use crate::course::{
    a_clean_run_makes_every_step, clean, in_a_clean_run_every_action_went_well, plain, went_well,
};
use crate::machine::{append, course, opening, settle, Machine, Row, Weight};
use crate::op::{class, Class, Op};
use crate::seen::{bracketed, knows, Seen};
use crate::template::{debug_all, names_text};
use crate::text::{count_text, decimal, same_texts, strings, texts, views};

verus! {

pub const TABLE: &'static str = "SQ_EXPORT_ROWID_T";

/// The thin driver's protocol versions that are tried.
pub const THIN_PROTOCOLS: [u16; 4] = [314, 315, 318, 319];

/// The columns that the table has.
pub const EXPECTED: [&'static str; 2] = ["ID", "NAME"];

/// The driver that reads the table.
#[derive(Clone, Copy, Debug, PartialEq, Eq, Structural)]
pub enum Route {
    Oci,
    Thin(u16),
}

impl Route {
    /// How errors name the driver.
    pub open spec fn prefix(self) -> Seq<char> {
        match self {
            Route::Oci => "OCI"@,
            Route::Thin(protocol) => "thin "@ + decimal(protocol as int),
        }
    }

    /// How the read is named that the driver makes.
    pub open spec fn query(self) -> Seq<char> {
        match self {
            Route::Oci => "execute_oci_query"@,
            Route::Thin(_) => "execute_thin_query"@,
        }
    }

    /// How the summary names the driver.
    pub open spec fn name(self) -> Seq<char> {
        match self {
            Route::Oci => "OCI"@,
            Route::Thin(protocol) => "Thin "@ + decimal(protocol as int),
        }
    }

    /// How the judgement of what was read names the driver.
    pub open spec fn title(self) -> Seq<char> {
        match self {
            Route::Oci => "OCI"@,
            Route::Thin(protocol) => "Thin proto "@ + decimal(protocol as int),
        }
    }

    pub fn prefix_text(self) -> (r: String)
        ensures
            r@ == self.prefix(),
    {
        match self {
            Route::Oci => "OCI".to_owned(),
            Route::Thin(protocol) => {
                let mut out = "thin ".to_owned();
                out.append(count_text(protocol as usize).as_str());
                out
            },
        }
    }

    pub fn query_text(self) -> (r: &'static str)
        ensures
            r@ == self.query(),
    {
        match self {
            Route::Oci => "execute_oci_query",
            Route::Thin(_) => "execute_thin_query",
        }
    }

    pub fn label(self) -> (r: String)
        ensures
            r@ == self.name(),
    {
        match self {
            Route::Oci => "OCI".to_owned(),
            Route::Thin(protocol) => {
                let mut out = "Thin ".to_owned();
                out.append(count_text(protocol as usize).as_str());
                out
            },
        }
    }

    pub fn title_text(self) -> (r: String)
        ensures
            r@ == self.title(),
    {
        match self {
            Route::Oci => "OCI".to_owned(),
            Route::Thin(protocol) => {
                let mut out = "Thin proto ".to_owned();
                out.append(count_text(protocol as usize).as_str());
                out
            },
        }
    }
}

/// Every driver that is tried: OCI, then the thin driver on each protocol.
pub fn routes() -> (r: Vec<Route>)
    ensures
        r@ == seq![Route::Oci] + Seq::new(4, |i: int| Route::Thin(THIN_PROTOCOLS@[i])),
{
    let mut out: Vec<Route> = vec![Route::Oci];
    let mut i: usize = 0;
    while i < 4
        invariant
            i <= 4,
            out@ =~= seq![Route::Oci] + Seq::new(i as nat, |k: int| Route::Thin(THIN_PROTOCOLS@[k])),
        decreases 4 - i,
    {
        out.push(Route::Thin(THIN_PROTOCOLS[i]));
        i += 1;
    }
    out
}

/// What is wrong with the columns and rows that a read brought, if anything is.
pub open spec fn check_fault(
    label: Seq<char>,
    columns: Seq<Seq<char>>,
    rows: Seq<Vec<String>>,
) -> Option<Seq<char>> {
    if columns != texts(EXPECTED@) {
        Some(
            label + ": expected "@ + bracketed(debug_all(texts(EXPECTED@))) + ", got "@ + bracketed(
                debug_all(columns),
            ),
        )
    } else if exists|i: int| 0 <= i < rows.len() && (#[trigger] rows[i])@.len() != 2 {
        Some(label + ": a row carries more cells than columns"@)
    } else {
        None
    }
}

/// Holds a read to the table's own columns.
pub fn check(label: &str, columns: &Vec<String>, rows: &Vec<Vec<String>>) -> (r: Result<(), String>)
    ensures
        match check_fault(label@, views(columns@), rows@) {
            Some(words) => r matches Err(e) && e@ == words,
            None => r is Ok,
        },
{
    let expected = strings(&EXPECTED);
    if !same_texts(columns, &expected) {
        let mut out = label.to_owned();
        out.append(": expected ");
        out.append(names_text(&expected).as_str());
        out.append(", got ");
        out.append(names_text(columns).as_str());
        return Err(out);
    }
    let mut i: usize = 0;
    while i < rows.len()
        invariant
            i <= rows@.len(),
            views(columns@) == texts(EXPECTED@),
            forall|k: int| 0 <= k < i ==> (#[trigger] rows@[k])@.len() == 2,
        decreases rows@.len() - i,
    {
        if rows[i].len() != 2 {
            assert(rows@[i as int]@.len() != 2);
            let mut out = label.to_owned();
            out.append(": a row carries more cells than columns");
            return Err(out);
        }
        i += 1;
    }
    Ok(())
}

/// The lines that tell what a read brought.
pub open spec fn told(label: Seq<char>, columns: Seq<Seq<char>>, rows: Seq<Vec<String>>) -> Seq<
    Seq<char>,
> {
    seq![label + ": columns "@ + bracketed(debug_all(columns))] + Seq::new(
        rows.len(),
        |i: int| label + ": row "@ + bracketed(debug_all(views(rows[i]@))),
    )
}

pub fn tell(label: &str, columns: &Vec<String>, rows: &Vec<Vec<String>>) -> (r: Vec<String>)
    ensures
        views(r@) == told(label@, views(columns@), rows@),
{
    let ghost wanted = told(label@, views(columns@), rows@);
    let mut first = label.to_owned();
    first.append(": columns ");
    first.append(names_text(columns).as_str());
    let mut out: Vec<String> = vec![first];
    let mut i: usize = 0;
    while i < rows.len()
        invariant
            i <= rows@.len(),
            out@.len() == i + 1,
            wanted == told(label@, views(columns@), rows@),
            forall|k: int| 0 <= k <= i ==> (#[trigger] out@[k])@ == wanted[k],
        decreases rows@.len() - i,
    {
        let mut line = label.to_owned();
        line.append(": row ");
        line.append(names_text(&rows[i]).as_str());
        out.push(line);
        i += 1;
    }
    assert(views(out@) =~= wanted);
    out
}

/// A table is made, read the way an export reads it, and dropped.
pub const ROUND_TRIP: [Row; 7] = [
    (Op::ConnectExport, Weight::Leave, 10, 0, "", "", "{t01} connect: {z10}"),
    (Op::ExportStatement, Weight::Try, 99, 0, "DROP TABLE SQ_EXPORT_ROWID_T PURGE", "", ""),
    (
        Op::ExportStatement, Weight::Leave, 10, 0,
        "CREATE TABLE SQ_EXPORT_ROWID_T (id NUMBER PRIMARY KEY, name VARCHAR2(30))", "",
        "{t01} create: {z10}",
    ),
    (
        Op::ExportStatement, Weight::Leave, 10, 0,
        "INSERT INTO SQ_EXPORT_ROWID_T VALUES (1, 'first')", "", "{t01} insert: {z10}",
    ),
    (Op::CommitExport, Weight::Leave, 10, 0, "", "", "{t01} commit: {z10}"),
    (
        Op::ExportQuery, Weight::Keep, 11, 0, "SELECT * FROM SQ_EXPORT_ROWID_T", "",
        "{t01} {t02}: {z11}",
    ),
    (Op::ExportStatement, Weight::Try, 99, 0, "DROP TABLE SQ_EXPORT_ROWID_T PURGE", "", ""),
];

/// Every step, in order.
pub open spec fn all_steps() -> Seq<Row> {
    ROUND_TRIP@
}

pub fn steps() -> (r: Vec<Row>)
    ensures
        r@ == all_steps(),
{
    let mut plan: Vec<Row> = Vec::new();
    append(&mut plan, &ROUND_TRIP);
    assert(plan@ =~= all_steps());
    plan
}

/// The number of slots.
pub const SLOTS: usize = 12;

/// The text a slot starts out with, if it starts out with one.
pub open spec fn fact(route: Route, slot: int) -> Option<Seq<char>> {
    if slot == 1 {
        Some(route.prefix())
    } else if slot == 2 {
        Some(route.query())
    } else {
        None
    }
}

/// What the probe knows before it starts.
pub fn facts(route: Route) -> (r: Vec<Seen>)
    ensures
        r@.len() == SLOTS,
        forall|slot: int|
            0 <= slot < SLOTS ==> knows(#[trigger] r@[slot], fact(route, slot)),
{
    let mut out: Vec<Seen> = Vec::new();
    let mut slot: usize = 0;
    while slot < SLOTS
        invariant
            slot <= SLOTS,
            out@.len() == slot,
            forall|k: int| 0 <= k < slot ==> knows(#[trigger] out@[k], fact(route, k)),
        decreases SLOTS - slot,
    {
        let seen = if slot == 1 {
            Seen::Text(route.prefix_text())
        } else if slot == 2 {
            Seen::Text(route.query_text().to_owned())
        } else {
            Seen::Nothing
        };
        out.push(seen);
        slot += 1;
    }
    out
}

/// Starts the probe over one driver.
pub fn verify(route: Route) -> (r: Machine)
    ensures
        r.wf(),
        r.plan() == all_steps(),
        exists|memory: Seq<Seen>|
            {
                &&& memory.len() == SLOTS
                &&& forall|slot: int|
                    0 <= slot < SLOTS ==> knows(#[trigger] memory[slot], fact(route, slot))
                &&& r.now() == #[trigger] settle(r.plan(), opening(memory))
            },
{
    let plan = steps();
    let memory = facts(route);
    Machine::new(plan, memory)
}

proof fn lemma_plain()
    ensures
        plain(all_steps()),
{
}

/// The probe passes only where every action that costs something was made, and
/// nothing was wrong with its answer: the table was made and filled, and the read
/// brought a result.
pub proof fn a_clean_run_makes_every_action(
    memory: Seq<Seen>,
    answers: Seq<Seen>,
    k: int,
)
    requires
        0 <= k < all_steps().len(),
        all_steps()[k].1 != Weight::Try,
        clean(course(all_steps(), opening(memory), answers)),
        course(all_steps(), opening(memory), answers).at == all_steps().len(),
    ensures
        exists|seen: Seen| #[trigger]
            went_well(all_steps(), opening(memory), answers, k, seen),
{
    let plan = all_steps();
    let m = plan.len() as int;
    lemma_plain();
    assert(plan.take(m) =~= plan);
    assert(class(plan[k].0) == Class::Action);
    a_clean_run_makes_every_step(plan, opening(memory), answers, m, k);
    in_a_clean_run_every_action_went_well(plan, opening(memory), answers, k);
}

} // verus!
