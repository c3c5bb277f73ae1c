//! Probe of the result grid's save: its result is matched, the session is dirty
//! until it is resolved, and a rollback reverts it.
use vstd::prelude::*;
use vstd::string::*;

use crate::course::{
    a_clean_run_passes_every_test_not_left_out, clean, is_test, left_out, test_held,
};
use crate::machine::{append, append_when, course, given, opening, settle, Machine, Row, Weight};
use crate::op::Op;
use crate::seen::{knows, Seen};
use crate::text::same;

verus! {

/// The table the probe works on.
pub const TABLE: &'static str = "OQT_GRID_SAVE_TEST";

/// A database the probe runs against.
#[derive(Clone, Copy, Debug, PartialEq, Eq, Structural)]
pub enum Target {
    OracleThin,
    OracleOci,
    MySql,
    MariaDb,
}

impl Target {
    pub open spec fn oracle(self) -> bool {
        self is OracleThin || self is OracleOci
    }

    pub open spec fn name(self) -> Seq<char> {
        match self {
            Target::OracleThin => "Oracle Thin"@,
            Target::OracleOci => "Oracle OCI"@,
            Target::MySql => "MySQL"@,
            Target::MariaDb => "MariaDB"@,
        }
    }

    pub fn label(self) -> (r: &'static str)
        ensures
            r@ == self.name(),
    {
        match self {
            Target::OracleThin => "Oracle Thin",
            Target::OracleOci => "Oracle OCI",
            Target::MySql => "MySQL",
            Target::MariaDb => "MariaDB",
        }
    }

    pub fn is_oracle(self) -> (r: bool)
        ensures
            r == self.oracle(),
    {
        matches!(self, Target::OracleThin | Target::OracleOci)
    }

    pub open spec fn create_sql_text(self, t: Seq<char>) -> Seq<char> {
        if self.oracle() {
            "CREATE TABLE "@ + t + " (ID NUMBER, NAME VARCHAR2(50))"@
        } else {
            "CREATE TABLE "@ + t + " (ID INT PRIMARY KEY, NAME VARCHAR(50))"@
        }
    }

    /// The statement that creates a table.
    pub fn create_sql(self, t: &str) -> (r: String)
        ensures
            r@ == self.create_sql_text(t@),
    {
        if self.is_oracle() {
            let mut out = "CREATE TABLE ".to_owned();
            out.append(t);
            out.append(" (ID NUMBER, NAME VARCHAR2(50))");
            out
        } else {
            let mut out = "CREATE TABLE ".to_owned();
            out.append(t);
            out.append(" (ID INT PRIMARY KEY, NAME VARCHAR(50))");
            out
        }
    }

    pub open spec fn drop_sql_text(self, t: Seq<char>) -> Seq<char> {
        if self.oracle() {
            "DROP TABLE "@ + t
        } else {
            "DROP TABLE IF EXISTS "@ + t
        }
    }

    /// The statement that drops a table.
    pub fn drop_sql(self, t: &str) -> (r: String)
        ensures
            r@ == self.drop_sql_text(t@),
    {
        if self.is_oracle() {
            let mut out = "DROP TABLE ".to_owned();
            out.append(t);
            out
        } else {
            let mut out = "DROP TABLE IF EXISTS ".to_owned();
            out.append(t);
            out
        }
    }
}

/// The targets that a command-line word names; none where it names none.
pub open spec fn named_targets(word: Seq<char>) -> Option<Seq<Target>> {
    if word == "thin"@ {
        Some(seq![Target::OracleThin])
    } else if word == "oci"@ {
        Some(seq![Target::OracleOci])
    } else if word == "mysql"@ {
        Some(seq![Target::MySql])
    } else if word == "mariadb"@ {
        Some(seq![Target::MariaDb])
    } else if word == "all"@ {
        Some(seq![Target::OracleThin, Target::OracleOci, Target::MySql, Target::MariaDb])
    } else {
        None
    }
}

pub fn targets(word: &str) -> (r: Option<Vec<Target>>)
    ensures
        r is Some <==> named_targets(word@) is Some,
        r matches Some(list) ==> named_targets(word@) == Some(list@),
{
    if same(word, "thin") {
        Some(vec![Target::OracleThin])
    } else if same(word, "oci") {
        Some(vec![Target::OracleOci])
    } else if same(word, "mysql") {
        Some(vec![Target::MySql])
    } else if same(word, "mariadb") {
        Some(vec![Target::MariaDb])
    } else if same(word, "all") {
        Some(vec![Target::OracleThin, Target::OracleOci, Target::MySql, Target::MariaDb])
    } else {
        None
    }
}

/// The baseline rows, on a manual-commit session.
pub const OPENING: [Row; 12] = [
    (Op::Say, Weight::Try, 0, 0, "", "\n########## {t05} ##########", ""),
    (Op::Run, Weight::Try, 99, 0, "COMMIT", "", ""),
    (Op::AutoCommitNow, Weight::Try, 12, 0, "", "", ""),
    (Op::SkipUnless, Weight::Try, 12, 1, "", "", ""),
    (Op::SetAutoCommit, Weight::Leave, 13, 0, "", "", "set_auto_commit(false): {z13}"),
    (Op::AutoCommitNow, Weight::Try, 12, 0, "", "", ""),
    (Op::Say, Weight::Try, 0, 0, "", "(manual mode; auto_commit={t12})", ""),
    (Op::Run, Weight::Try, 99, 0, "{t02}", "", ""),
    (Op::Run, Weight::Leave, 13, 0, "{t01}", "", "create: {z13}"),
    (
        Op::Run, Weight::Leave, 13, 0,
        "INSERT INTO OQT_GRID_SAVE_TEST (ID, NAME) VALUES (1, 'SMITH')", "", "insert: {z13}",
    ),
    (
        Op::Run, Weight::Leave, 13, 0,
        "INSERT INTO OQT_GRID_SAVE_TEST (ID, NAME) VALUES (2, 'JONES')", "",
        "insert second row: {z13}",
    ),
    (Op::Run, Weight::Leave, 13, 0, "COMMIT", "", "commit baseline: {z13}"),
];

/// The tagged save on Oracle, a guarded block.
pub const ORACLE_SAVE: [Row; 4] = [
    (
        Op::Run, Weight::Leave, 14, 0,
        "SELECT ROWIDTOCHAR(ROWID) AS RID, ID, NAME FROM OQT_GRID_SAVE_TEST WHERE ID = 1", "", "",
    ),
    (Op::CellFound, Weight::Leave, 14, 0, "RID", "", "Oracle row 1 did not return a usable ROWID"),
    (
        Op::CompileGuarded, Weight::Leave, 15, 0,
        "UPDATE OQT_GRID_SAVE_TEST SET NAME = 'SCOTT' WHERE ROWID = '{214}' AND NAME = 'SMITH'", "",
        "",
    ),
    (
        Op::Run, Weight::Leave, 11, 0, "/* SQ_SAVE_REQUEST:42 */\n{t15}", "",
        "grid-save UPDATE: {z11}",
    ),
];

/// The tagged save on the MySQL family, an edit request.
pub const MYSQL_SAVE: [Row; 1] = [
    (Op::RunEdit, Weight::Leave, 11, 42, "OQT_GRID_SAVE_TEST", "", "grid-save UPDATE: {z11}"),
];

/// The save is matched, the session is dirty, and a rollback reverts it.
pub const JUDGEMENT: [Row; 25] = [
    (Op::Finished, Weight::Leave, 11, 0, "", "", "grid-save produced no terminal result"),
    (
        Op::Say, Weight::Try, 0, 0, "",
        "(1) terminal result: success={X11} is_select={Y11} msg={p11}", "",
    ),
    (Op::Say, Weight::Try, 0, 0, "", "    result.sql = {U11}", ""),
    (Op::LastSucceeded, Weight::Leave, 11, 0, "", "", "grid-save result not success"),
    (Op::LastNotQuery, Weight::Leave, 11, 0, "", "", "grid-save result unexpectedly is_select"),
    (
        Op::Matchable, Weight::Leave, 11, 0, "SQ_SAVE_REQUEST:42|UPDATE OQT_GRID_SAVE_TEST", "",
        "terminal result not matchable by pending-save matcher (would orphan)",
    ),
    (
        Op::Say, Weight::Try, 0, 0, "",
        "    PASS(1): terminal result is matchable -> save clears, no \"interrupted\"", "",
    ),
    (Op::SessionState, Weight::Try, 12, 0, "", "", ""),
    (Op::Say, Weight::Try, 0, 0, "", "(2) retained state after manual UPDATE = {t12}", ""),
    (
        Op::StateDirty, Weight::Leave, 12, 0, "", "",
        "session NOT dirty after manual UPDATE (state={t12}) -> Rollback rejected",
    ),
    (Op::Say, Weight::Try, 0, 0, "", "    PASS(2): session dirty -> Rollback button allowed", ""),
    (Op::Run, Weight::Leave, 17, 0, "SELECT ID, NAME FROM OQT_GRID_SAVE_TEST WHERE ID = 1", "", ""),
    (Op::Say, Weight::Try, 0, 0, "", "    in-session NAME = {317}", ""),
    (
        Op::CellIsNamed, Weight::Leave, 17, 0, "NAME|SCOTT", "",
        "UPDATE not visible in-session (NAME={317}, expected SCOTT)",
    ),
    (Op::SessionState, Weight::Try, 12, 0, "", "", ""),
    (
        Op::Say, Weight::Try, 0, 0, "",
        "(2b) retained state after a SELECT (still uncommitted!) = {t12}", "",
    ),
    (
        Op::StateDirty, Weight::Leave, 12, 0, "", "",
        "BUG: a SELECT reset the retained state to {t12} while the UPDATE is still uncommitted -> Rollback button would be rejected (issue 2)",
    ),
    (Op::EditorRollback, Weight::Leave, 13, 0, "", "", "rollback: {z13}"),
    (Op::SessionState, Weight::Try, 12, 0, "", "", ""),
    (Op::Say, Weight::Try, 0, 0, "", "(3) retained state after Rollback = {t12}", ""),
    (
        Op::StateResolved, Weight::Leave, 12, 0, "", "",
        "Rollback did not resolve session (state={t12})",
    ),
    (Op::Run, Weight::Leave, 17, 0, "SELECT ID, NAME FROM OQT_GRID_SAVE_TEST WHERE ID = 1", "", ""),
    (Op::Say, Weight::Try, 0, 0, "", "    NAME after Rollback = {317}", ""),
    (
        Op::CellIsNamed, Weight::Leave, 17, 0, "NAME|SMITH", "",
        "Rollback did not revert UPDATE (NAME={317}, expected SMITH)",
    ),
    (
        Op::Say, Weight::Try, 0, 0, "",
        "    PASS(3): editor Rollback resolved session and reverted change", "",
    ),
];

/// A conflicting save is rolled back whole, and no work before it.
pub const ORACLE_CONFLICT: [Row; 17] = [
    (
        Op::Run, Weight::Leave, 99, 0, "UPDATE OQT_GRID_SAVE_TEST SET NAME = 'PRIOR' WHERE ID = 2",
        "", "",
    ),
    (
        Op::Run, Weight::Leave, 14, 0,
        "SELECT ROWIDTOCHAR(ROWID) AS RID, ID, NAME FROM OQT_GRID_SAVE_TEST WHERE ID = 1", "", "",
    ),
    (Op::CellFound, Weight::Leave, 14, 0, "RID", "", "Oracle row 1 did not return a usable ROWID"),
    (
        Op::Run, Weight::Leave, 16, 0,
        "SELECT ROWIDTOCHAR(ROWID) AS RID, ID, NAME FROM OQT_GRID_SAVE_TEST WHERE ID = 2", "", "",
    ),
    (Op::CellFound, Weight::Leave, 16, 0, "RID", "", "Oracle row 2 did not return a usable ROWID"),
    (
        Op::CompileGuarded, Weight::Leave, 15, 0,
        "UPDATE OQT_GRID_SAVE_TEST SET NAME = 'MUST_ROLL_BACK' WHERE ROWID = '{214}' AND NAME = 'SMITH'\nUPDATE OQT_GRID_SAVE_TEST SET NAME = 'MUST_NOT_APPLY' WHERE ROWID = '{216}' AND NAME = 'STALE'",
        "", "",
    ),
    (Op::Run, Weight::Leave, 11, 0, "/* SQ_SAVE_REQUEST:43 */\n{t15}", "", ""),
    (Op::Finished, Weight::Leave, 11, 0, "", "", "conflicting save produced no terminal result"),
    (
        Op::LastFailed, Weight::Leave, 11, 0, "", "",
        "conflicting Oracle save unexpectedly succeeded",
    ),
    (Op::Run, Weight::Leave, 17, 0, "SELECT ID, NAME FROM OQT_GRID_SAVE_TEST WHERE ID = 1", "", ""),
    (Op::Run, Weight::Leave, 18, 0, "SELECT ID, NAME FROM OQT_GRID_SAVE_TEST WHERE ID = 2", "", ""),
    (
        Op::CellIsNamed, Weight::Leave, 17, 0, "NAME|SMITH", "",
        "Oracle conflict rollback was not atomic (row1={317}, row2={318})",
    ),
    (
        Op::CellIsNamed, Weight::Leave, 18, 0, "NAME|PRIOR", "",
        "Oracle conflict rollback was not atomic (row1={317}, row2={318})",
    ),
    (Op::EditorRollback, Weight::Leave, 99, 0, "", "", ""),
    (Op::Run, Weight::Leave, 18, 0, "SELECT ID, NAME FROM OQT_GRID_SAVE_TEST WHERE ID = 2", "", ""),
    (
        Op::CellIsNamed, Weight::Leave, 18, 0, "NAME|JONES", "",
        "Oracle rollback did not restore work preceding the failed save (row2={318})",
    ),
    (
        Op::Say, Weight::Try, 0, 0, "",
        "    PASS(4): conflict rolled back the whole save and preserved prior transaction work", "",
    ),
];

/// The table is dropped.
pub const CLOSING: [Row; 3] = [
    (Op::Run, Weight::Try, 99, 0, "COMMIT", "", ""),
    (Op::Run, Weight::Try, 99, 0, "{t02}", "", ""),
    (Op::Say, Weight::Try, 0, 0, "", ">>> {t05} OK", ""),
];

/// Every step, in order.
pub open spec fn all_steps(target: Target) -> Seq<Row> {
    OPENING@
        + given(target.oracle(), ORACLE_SAVE@)
        + given(!target.oracle(), MYSQL_SAVE@)
        + JUDGEMENT@
        + given(target.oracle(), ORACLE_CONFLICT@)
        + CLOSING@
}

pub fn steps(target: Target) -> (r: Vec<Row>)
    ensures
        r@ == all_steps(target),
{
    let mut plan: Vec<Row> = Vec::new();
    append(&mut plan, &OPENING);
    append_when(target.is_oracle(), &mut plan, &ORACLE_SAVE);
    append_when(!target.is_oracle(), &mut plan, &MYSQL_SAVE);
    append(&mut plan, &JUDGEMENT);
    append_when(target.is_oracle(), &mut plan, &ORACLE_CONFLICT);
    append(&mut plan, &CLOSING);
    assert(plan@ =~= all_steps(target));
    plan
}

/// The number of slots.
pub const SLOTS: usize = 20;

/// The text a slot starts out with, if it starts out with one.
pub open spec fn fact(target: Target, slot: int) -> Option<Seq<char>> {
    if slot == 1 {
        Some(target.create_sql_text(TABLE@))
    } else if slot == 2 {
        Some(target.drop_sql_text(TABLE@))
    } else if slot == 5 {
        Some(target.name())
    } else {
        None
    }
}

/// What the probe knows before it starts.
pub fn facts(target: Target) -> (r: Vec<Seen>)
    ensures
        r@.len() == SLOTS,
        forall|slot: int|
            0 <= slot < SLOTS ==> knows(#[trigger] r@[slot], fact(target, slot)),
{
    let mut out: Vec<Seen> = Vec::new();
    let mut slot: usize = 0;
    while slot < SLOTS
        invariant
            slot <= SLOTS,
            out@.len() == slot,
            forall|k: int| 0 <= k < slot ==> knows(#[trigger] out@[k], fact(target, k)),
        decreases SLOTS - slot,
    {
        let seen = if slot == 1 {
            Seen::Text(target.create_sql(TABLE))
        } else if slot == 2 {
            Seen::Text(target.drop_sql(TABLE))
        } else if slot == 5 {
            Seen::Text(target.label().to_owned())
        } else {
            Seen::Nothing
        };
        out.push(seen);
        slot += 1;
    }
    out
}

/// Starts the probe on a target.
pub fn verify(target: Target) -> (r: Machine)
    ensures
        r.wf(),
        r.plan() == all_steps(target),
        exists|memory: Seq<Seen>|
            {
                &&& memory.len() == SLOTS
                &&& forall|slot: int|
                    0 <= slot < SLOTS ==> knows(#[trigger] memory[slot], fact(target, slot))
                &&& r.now() == #[trigger] settle(r.plan(), opening(memory))
            },
{
    let plan = steps(target);
    let memory = facts(target);
    Machine::new(plan, memory)
}

/// The probe passes only where every test in it was made and held, but for those
/// that a step left out under its own condition: the
/// save was matched, and the rollback reverted it.
pub proof fn a_clean_run_passes_every_test_of_it(
    target: Target,
    memory: Seq<Seen>,
    answers: Seq<Seen>,
    k: int,
)
    requires
        0 <= k < all_steps(target).len(),
        is_test(all_steps(target)[k]),
        clean(course(all_steps(target), opening(memory), answers)),
        course(all_steps(target), opening(memory), answers).at == all_steps(target).len(),
    ensures
        test_held(all_steps(target), opening(memory), answers, k) || left_out(
            all_steps(target),
            opening(memory),
            answers,
            k,
        ),
{
    a_clean_run_passes_every_test_not_left_out(all_steps(target), opening(memory), answers, k);
}

} // verus!
