//! Probe that no tab, disconnect or pool rebuild leaves a session open on the
//! server. Every count is the server's own.
use vstd::prelude::*;
use vstd::string::*;

use crate::course::{
    a_clean_run_passes_every_test_not_left_out, clean, is_test, left_out, test_held,
};
use crate::machine::{append, course, opening, settle, Machine, Row, Weight};
use crate::op::Op;
use crate::seen::{bracketed, knows, Seen};
use crate::template::{debug_all, names_text};
use crate::text::{
    contains, finds, integer_value, lower, parse_integer, replace, replaced, same, to_lower,
    to_uppercase, trim, trimmed, unicode_uppercase, views,
};

verus! {

/// The probe's own database or user.
pub const PROBE_NAME: &'static str = "sq_session_probe_ui";

/// The password of the probe's own user.
pub const PROBE_ORACLE_PASSWORD: &'static str = "sq_probe_2026";

/// A database the probe runs against.
#[derive(Clone, Copy, Debug, PartialEq, Eq, Structural)]
pub enum Target {
    OracleThin,
    OracleOci,
    MySql,
    MariaDb,
}

impl Target {
    pub open spec fn oracle(self) -> bool {
        self is OracleThin || self is OracleOci
    }

    pub open spec fn name(self) -> Seq<char> {
        match self {
            Target::OracleThin => "Oracle Thin"@,
            Target::OracleOci => "Oracle OCI"@,
            Target::MySql => "MySQL"@,
            Target::MariaDb => "MariaDB"@,
        }
    }

    pub fn label(self) -> (r: &'static str)
        ensures
            r@ == self.name(),
    {
        match self {
            Target::OracleThin => "Oracle Thin",
            Target::OracleOci => "Oracle OCI",
            Target::MySql => "MySQL",
            Target::MariaDb => "MariaDB",
        }
    }

    pub fn is_oracle(self) -> (r: bool)
        ensures
            r == self.oracle(),
    {
        matches!(self, Target::OracleThin | Target::OracleOci)
    }

    pub open spec fn sleep_sql_text(self) -> Seq<char> {
        if self.oracle() {
            "BEGIN DBMS_SESSION.SLEEP(30); END;"@
        } else {
            "SELECT SLEEP(30)"@
        }
    }

    /// A statement that stays on the server long enough to be cancelled.
    pub fn sleep_sql(self) -> (r: &'static str)
        ensures
            r@ == self.sleep_sql_text(),
    {
        if self.is_oracle() {
            "BEGIN DBMS_SESSION.SLEEP(30); END;"
        } else {
            "SELECT SLEEP(30)"
        }
    }

    pub open spec fn trivial_sql_text(self) -> Seq<char> {
        if self.oracle() {
            "SELECT 1 AS N FROM dual"@
        } else {
            "SELECT 1 AS N"@
        }
    }

    /// A statement every backend can run without owning anything.
    pub fn trivial_sql(self) -> (r: &'static str)
        ensures
            r@ == self.trivial_sql_text(),
    {
        if self.is_oracle() {
            "SELECT 1 AS N FROM dual"
        } else {
            "SELECT 1 AS N"
        }
    }

    pub open spec fn many_rows_sql_text(self) -> Seq<char> {
        if self.oracle() {
            "SELECT LEVEL AS N FROM dual CONNECT BY LEVEL <= 20000"@
        } else {
            "SELECT a.ORDINAL_POSITION AS N FROM information_schema.COLUMNS a, information_schema.COLUMNS b LIMIT 20000"@
        }
    }

    /// A row source big enough to leave a lazy fetch open, without a table.
    pub fn many_rows_sql(self) -> (r: &'static str)
        ensures
            r@ == self.many_rows_sql_text(),
    {
        if self.is_oracle() {
            "SELECT LEVEL AS N FROM dual CONNECT BY LEVEL <= 20000"
        } else {
            "SELECT a.ORDINAL_POSITION AS N FROM information_schema.COLUMNS a, information_schema.COLUMNS b LIMIT 20000"
        }
    }
}

/// The targets that a command-line word names; none where it names none.
pub open spec fn named_targets(word: Seq<char>) -> Option<Seq<Target>> {
    if word == "thin"@ {
        Some(seq![Target::OracleThin])
    } else if word == "oci"@ {
        Some(seq![Target::OracleOci])
    } else if word == "mysql"@ {
        Some(seq![Target::MySql])
    } else if word == "mariadb"@ {
        Some(seq![Target::MariaDb])
    } else if word == "all"@ {
        Some(seq![Target::OracleThin, Target::OracleOci, Target::MySql, Target::MariaDb])
    } else {
        None
    }
}

pub fn targets(word: &str) -> (r: Option<Vec<Target>>)
    ensures
        r is Some <==> named_targets(word@) is Some,
        r matches Some(list) ==> named_targets(word@) == Some(list@),
{
    if same(word, "thin") {
        Some(vec![Target::OracleThin])
    } else if same(word, "oci") {
        Some(vec![Target::OracleOci])
    } else if same(word, "mysql") {
        Some(vec![Target::MySql])
    } else if same(word, "mariadb") {
        Some(vec![Target::MariaDb])
    } else if same(word, "all") {
        Some(vec![Target::OracleThin, Target::OracleOci, Target::MySql, Target::MariaDb])
    } else {
        None
    }
}

/// A text as the inside of an SQL string.
pub open spec fn sql_string(s: Seq<char>) -> Seq<char> {
    replaced(s, "'"@, "''"@)
}

fn sql_string_text(s: &str) -> (r: String)
    ensures
        r@ == sql_string(s@),
{
    proof {
        reveal_strlit("'");
    }
    replace(s, "'", "''")
}

/// The query that counts the sessions of the probe's database.
pub fn database_census_sql(database: &str) -> (r: String)
    ensures
        r@ == "SELECT COUNT(*) FROM information_schema.processlist WHERE db = '"@ + sql_string(
            database@,
        ) + "'"@,
{
    let mut out = "SELECT COUNT(*) FROM information_schema.processlist WHERE db = '".to_owned();
    out.append(sql_string_text(database).as_str());
    out.append("'");
    out
}

/// The query that counts the sessions of the probe's user.
pub fn user_census_sql(user: &str) -> (r: String)
    ensures
        r@ == "SELECT COUNT(*) FROM v$session WHERE username = '"@ + sql_string(
            unicode_uppercase(user@),
        ) + "'"@,
{
    let mut out = "SELECT COUNT(*) FROM v$session WHERE username = '".to_owned();
    let name = to_uppercase(user);
    out.append(sql_string_text(name.as_str()).as_str());
    out.append("'");
    out
}

/// How many sessions a count from the server stands for.
pub open spec fn sessions(reported: int) -> int {
    if reported >= 0 { reported } else { 0 }
}

/// A count from the server; a negative one counts as none.
pub fn count(reported: i64) -> (r: i64)
    ensures
        r == sessions(reported as int),
{
    if reported >= 0 {
        reported
    } else {
        0
    }
}

pub open spec fn sessions_told(reported: Seq<char>) -> int {
    match integer_value(trim(reported)) {
        Some(n) => sessions(n),
        None => 0,
    }
}

/// A count the server sent as text; what is no number counts as none.
pub fn text_count(reported: &str) -> (r: i64)
    ensures
        r as int == sessions_told(reported@),
{
    match parse_integer(trimmed(reported).as_str()) {
        Ok(n) => count(n),
        Err(_) => 0,
    }
}

/// Polling for a count that comes down to a limit is over: it is there, or time
/// is up.
pub open spec fn settled(observed: i64, limit: i64, out_of_time: bool) -> bool {
    observed <= limit || out_of_time
}

/// Whether polling for a count that comes down to a limit is over. The count is
/// then the answer.
pub fn settled_count(observed: i64, limit: i64, out_of_time: bool) -> (r: Option<i64>)
    ensures
        r == (if settled(observed, limit, out_of_time) { Some(observed) } else { None }),
{
    if observed <= limit || out_of_time {
        Some(observed)
    } else {
        None
    }
}

/// Polling for a count that stays is over: two readings agree, or time is up.
pub open spec fn stable(previous: i64, observed: i64, out_of_time: bool) -> bool {
    observed == previous || out_of_time
}

/// Whether polling for a count that stays is over: two readings agree, or time
/// is up. The last count is then the answer.
pub fn stable_count(previous: i64, observed: i64, out_of_time: bool) -> (r: Option<i64>)
    ensures
        r == (if stable(previous, observed, out_of_time) { Some(observed) } else { None }),
{
    if observed == previous || out_of_time {
        Some(observed)
    } else {
        None
    }
}

/// What a wait does next.
#[derive(Clone, Copy, Debug, PartialEq, Eq, Structural)]
pub enum Wait {
    Again,
    Held,
    TimedOut,
}

pub open spec fn waited(holds: bool, out_of_time: bool) -> Wait {
    if holds {
        Wait::Held
    } else if out_of_time {
        Wait::TimedOut
    } else {
        Wait::Again
    }
}

/// Waits until a condition holds or the deadline passes; the condition is asked
/// first.
pub fn wait_until(holds: bool, out_of_time: bool) -> (r: Wait)
    ensures
        r == waited(holds, out_of_time),
{
    if holds {
        Wait::Held
    } else if out_of_time {
        Wait::TimedOut
    } else {
        Wait::Again
    }
}

/// What polling a list of readings, each a count and whether time was up, comes
/// to: the first count with which it is over.
pub open spec fn polled(readings: Seq<(i64, bool)>, limit: i64) -> Option<i64>
    decreases readings.len(),
{
    if readings.len() == 0 {
        None
    } else if settled(readings[0].0, limit, readings[0].1) {
        Some(readings[0].0)
    } else {
        polled(readings.drop_first(), limit)
    }
}

/// Polling answers a count over the limit only where time ran out before any
/// reading came down to it.
pub proof fn over_limit_means_time_ran_out(readings: Seq<(i64, bool)>, limit: i64, at: int)
    requires
        polled(readings, limit) matches Some(n) && n > limit,
        0 <= at < readings.len(),
        readings[at].0 <= limit,
    ensures
        exists|k: int| 0 <= k < at && (#[trigger] readings[k]).1 && readings[k].0 > limit,
    decreases readings.len(),
{
    if settled(readings[0].0, limit, readings[0].1) {
        assert(readings[0].1 && readings[0].0 > limit);
    } else {
        let rest = readings.drop_first();
        assert(rest[at - 1] == readings[at]);
        over_limit_means_time_ran_out(rest, limit, at - 1);
        let k = choose|k: int| 0 <= k < at - 1 && (#[trigger] rest[k]).1 && rest[k].0 > limit;
        assert(readings[k + 1] == rest[k]);
    }
}

/// What to do after trying to create the probe's user.
#[derive(Debug)]
pub enum Creation {
    /// The user is there: grant it what it needs.
    Grant(String),
    /// Create this user instead.
    Create(String),
    /// The probe cannot go on.
    Refused(String),
}

/// The statement that creates the probe's user.
pub fn create_user_sql(user: &str) -> (r: String)
    ensures
        r@ == "CREATE USER "@ + user@ + " IDENTIFIED BY \""@ + PROBE_ORACLE_PASSWORD@ + "\""@,
{
    let mut out = "CREATE USER ".to_owned();
    out.append(user);
    out.append(" IDENTIFIED BY \"");
    out.append(PROBE_ORACLE_PASSWORD);
    out.append("\"");
    out
}

/// The user to create first.
pub fn probe_user() -> (r: String)
    ensures
        r@ == unicode_uppercase(PROBE_NAME@),
{
    to_uppercase(PROBE_NAME)
}

pub open spec fn says(error: Seq<char>, code: Seq<char>) -> bool {
    contains(lower(error), code)
}

/// What to do after trying to create the probe's user, with its text.
pub enum CreationModel {
    Grant(Seq<char>),
    Create(Seq<char>),
    Refused(Seq<char>),
}

pub open spec fn creation_model(creation: Creation) -> CreationModel {
    match creation {
        Creation::Grant(name) => CreationModel::Grant(name@),
        Creation::Create(name) => CreationModel::Create(name@),
        Creation::Refused(why) => CreationModel::Refused(why@),
    }
}

pub open spec fn after_creating(
    user: Seq<char>,
    common: bool,
    error: Option<Seq<char>>,
) -> CreationModel {
    match error {
        None => CreationModel::Grant(user),
        Some(e) => if !common && says(e, "ora-65096"@) {
            CreationModel::Create("C##"@ + user)
        } else if says(e, "ora-01920"@) {
            CreationModel::Grant(user)
        } else {
            CreationModel::Refused("create the Oracle probe user: "@ + e)
        },
    }
}

/// What to do after an attempt to create the user: a root container takes only
/// common names, and a user that is already there will do.
pub fn oracle_probe_user(user: &str, common: bool, error: Option<&str>) -> (r: Creation)
    ensures
        creation_model(r) == after_creating(
            user@,
            common,
            match error {
                Some(e) => Some(e@),
                None => None,
            },
        ),
{
    match error {
        None => Creation::Grant(user.to_owned()),
        Some(e) => {
            let message = to_lower(e);
            if !common && finds(message.as_str(), "ora-65096") {
                let mut name = "C##".to_owned();
                name.append(user);
                Creation::Create(name)
            } else if finds(message.as_str(), "ora-01920") {
                Creation::Grant(user.to_owned())
            } else {
                let mut why = "create the Oracle probe user: ".to_owned();
                why.append(e);
                Creation::Refused(why)
            }
        },
    }
}

/// What the probe's user is granted.
pub fn grants(user: &str) -> (r: Vec<String>)
    ensures
        views(r@) == seq![
            "GRANT CREATE SESSION TO "@ + user@,
            "GRANT SELECT ANY DICTIONARY TO "@ + user@,
        ],
{
    let mut session = "GRANT CREATE SESSION TO ".to_owned();
    session.append(user);
    let mut dictionary = "GRANT SELECT ANY DICTIONARY TO ".to_owned();
    dictionary.append(user);
    let out = vec![session, dictionary];
    assert(views(out@) =~= seq![
        "GRANT CREATE SESSION TO "@ + user@,
        "GRANT SELECT ANY DICTIONARY TO "@ + user@,
    ]);
    out
}

/// How often a rebuild is tried before it is given up.
pub const POOL_REBUILD_BUSY_RETRIES: usize = 40;

/// What to do after an attempt to rebuild the pool.
#[derive(Debug)]
pub enum Rebuilding {
    Done,
    Again,
    Failed(String),
}

/// Whether a rebuild that was busy so many times is tried again.
pub open spec fn tried_again(attempts: int) -> bool {
    attempts < POOL_REBUILD_BUSY_RETRIES
}

/// How often a rebuild is tried that has been tried so many times and is always
/// busy.
pub open spec fn rebuild_tries(attempts: int) -> int
    decreases POOL_REBUILD_BUSY_RETRIES - attempts,
{
    if attempts < POOL_REBUILD_BUSY_RETRIES && tried_again(attempts) {
        1 + rebuild_tries(attempts + 1)
    } else {
        0
    }
}

/// A rebuild that found the connection busy is tried again, so many times.
pub fn rebuild_pool(attempts: usize, error: Option<&str>) -> (r: Rebuilding)
    ensures
        match error {
            None => r is Done,
            Some(e) => if tried_again(attempts as int) {
                r is Again
            } else {
                r matches Rebuilding::Failed(why) && why@ == "the pool rebuild never ran: "@ + e@
            },
        },
{
    match error {
        None => Rebuilding::Done,
        Some(e) => {
            if attempts < POOL_REBUILD_BUSY_RETRIES {
                Rebuilding::Again
            } else {
                let mut why = "the pool rebuild never ran: ".to_owned();
                why.append(e);
                Rebuilding::Failed(why)
            }
        },
    }
}

/// The server's own counts before any tab.
pub const BASELINES: [Row; 4] = [
    (Op::Say, Weight::Try, 0, 0, "", "\n########## {t05} ##########", ""),
    (Op::StableCount, Weight::Leave, 1, 0, "", "  baseline (nothing connected): {t01}", ""),
    (Op::ConnectProbe, Weight::Leave, 13, 0, "", "", "connect: {z13}"),
    (Op::StableCount, Weight::Leave, 2, 0, "", "  baseline (connected, no tab work): {t02}", ""),
];

/// Closing a tab closes the sessions it held.
pub const CLOSING_TABS: [Row; 67] = [
    (Op::Say, Weight::Try, 0, 0, "", "  --- T1 closing a tab closes its retained session ---", ""),
    (Op::TabOpen, Weight::Try, 99, 1, "", "", ""),
    (Op::TabRun, Weight::Try, 11, 1, "SELECT 1 AS ONE FROM dual", "", ""),
    (Op::SkipUnlessFailed, Weight::Try, 11, 1, "", "", ""),
    (Op::TabRun, Weight::Leave, 11, 1, "SELECT 1 AS ONE", "", ""),
    (Op::StableCount, Weight::Leave, 12, 0, "", "", ""),
    (
        Op::AtMost, Weight::Try, 12, 2, "",
        "    (note) the tab did not open a session of its own: {t12}", "",
    ),
    (Op::TabClose, Weight::Try, 99, 1, "", "", ""),
    (Op::SettledCount, Weight::Leave, 11, 2, "", "", ""),
    (
        Op::AtMost, Weight::Tally, 11, 2, " (server sessions: {t11} <= {t02})",
        "T1 closing a tab closes its retained session",
        ": {t11} sessions still open, expected at most {t02}",
    ),
    (
        Op::Say, Weight::Try, 0, 0, "",
        "  --- T2 closing a tab closes an open lazy fetch's session ---", "",
    ),
    (Op::TabOpen, Weight::Try, 99, 1, "", "", ""),
    (Op::LazyBatch, Weight::Try, 99, 1, "50", "", ""),
    (Op::TabRun, Weight::Leave, 11, 1, "{t06}", "", ""),
    (Op::LazyOpenOn, Weight::Try, 12, 1, "", "", ""),
    (Op::Say, Weight::Try, 0, 0, "", "    lazy fetch open after the SELECT: {t12}", ""),
    (
        Op::FlagIs, Weight::Try, 12, 0, "",
        "    (note) no lazy fetch stayed open; T2 degenerates into T1", "",
    ),
    (Op::TabClose, Weight::Try, 99, 1, "", "", ""),
    (Op::SettledCount, Weight::Leave, 11, 2, "", "", ""),
    (
        Op::AtMost, Weight::Tally, 11, 2, " (server sessions: {t11} <= {t02})",
        "T2 closing a tab closes an open lazy fetch's session",
        ": {t11} sessions still open, expected at most {t02}",
    ),
    (
        Op::Say, Weight::Try, 0, 0, "",
        "  --- T3 closing a tab closes a cancelled statement's session ---", "",
    ),
    (Op::TabOpen, Weight::Try, 99, 1, "", "", ""),
    (Op::TabStart, Weight::Try, 99, 1, "{t03}", "", ""),
    (Op::PumpFor, Weight::Try, 99, 1500, "", "", ""),
    (Op::TabCancel, Weight::Try, 99, 1, "", "", ""),
    (Op::TabWait, Weight::Try, 99, 1, "", "", ""),
    (Op::TabClose, Weight::Try, 99, 1, "", "", ""),
    (Op::SettledCount, Weight::Leave, 11, 2, "", "", ""),
    (
        Op::AtMost, Weight::Tally, 11, 2, " (server sessions: {t11} <= {t02})",
        "T3 closing a tab closes a cancelled statement's session",
        ": {t11} sessions still open, expected at most {t02}",
    ),
    (
        Op::Say, Weight::Try, 0, 0, "",
        "  --- T4 repeated tab open/close leaves nothing behind ---", "",
    ),
    (Op::Zero, Weight::Try, 14, 0, "", "", ""),
    (Op::TabOpen, Weight::Try, 99, 1, "", "", ""),
    (Op::TabRun, Weight::Try, 11, 1, "SELECT 1 AS ONE FROM dual", "", ""),
    (Op::SkipUnlessFailed, Weight::Try, 11, 1, "", "", ""),
    (Op::TabRun, Weight::Leave, 11, 1, "SELECT 1 AS ONE", "", "round 0: {z11}"),
    (Op::TabClose, Weight::Try, 99, 1, "", "", ""),
    (Op::SettledCount, Weight::Leave, 11, 2, "", "", ""),
    (Op::KeepMax, Weight::Try, 14, 11, "", "", ""),
    (Op::TabOpen, Weight::Try, 99, 1, "", "", ""),
    (Op::TabRun, Weight::Try, 11, 1, "SELECT 1 AS ONE FROM dual", "", ""),
    (Op::SkipUnlessFailed, Weight::Try, 11, 1, "", "", ""),
    (Op::TabRun, Weight::Leave, 11, 1, "SELECT 1 AS ONE", "", "round 1: {z11}"),
    (Op::TabClose, Weight::Try, 99, 1, "", "", ""),
    (Op::SettledCount, Weight::Leave, 11, 2, "", "", ""),
    (Op::KeepMax, Weight::Try, 14, 11, "", "", ""),
    (Op::TabOpen, Weight::Try, 99, 1, "", "", ""),
    (Op::TabRun, Weight::Try, 11, 1, "SELECT 1 AS ONE FROM dual", "", ""),
    (Op::SkipUnlessFailed, Weight::Try, 11, 1, "", "", ""),
    (Op::TabRun, Weight::Leave, 11, 1, "SELECT 1 AS ONE", "", "round 2: {z11}"),
    (Op::TabClose, Weight::Try, 99, 1, "", "", ""),
    (Op::SettledCount, Weight::Leave, 11, 2, "", "", ""),
    (Op::KeepMax, Weight::Try, 14, 11, "", "", ""),
    (Op::TabOpen, Weight::Try, 99, 1, "", "", ""),
    (Op::TabRun, Weight::Try, 11, 1, "SELECT 1 AS ONE FROM dual", "", ""),
    (Op::SkipUnlessFailed, Weight::Try, 11, 1, "", "", ""),
    (Op::TabRun, Weight::Leave, 11, 1, "SELECT 1 AS ONE", "", "round 3: {z11}"),
    (Op::TabClose, Weight::Try, 99, 1, "", "", ""),
    (Op::SettledCount, Weight::Leave, 11, 2, "", "", ""),
    (Op::KeepMax, Weight::Try, 14, 11, "", "", ""),
    (Op::TabOpen, Weight::Try, 99, 1, "", "", ""),
    (Op::TabRun, Weight::Try, 11, 1, "SELECT 1 AS ONE FROM dual", "", ""),
    (Op::SkipUnlessFailed, Weight::Try, 11, 1, "", "", ""),
    (Op::TabRun, Weight::Leave, 11, 1, "SELECT 1 AS ONE", "", "round 4: {z11}"),
    (Op::TabClose, Weight::Try, 99, 1, "", "", ""),
    (Op::SettledCount, Weight::Leave, 11, 2, "", "", ""),
    (Op::KeepMax, Weight::Try, 14, 11, "", "", ""),
    (
        Op::AtMost, Weight::Tally, 14, 2, " (server sessions: {t14} <= {t02})",
        "T4 five tab open/close rounds leave nothing behind",
        ": {t14} sessions still open, expected at most {t02}",
    ),
];

/// Disconnecting closes every session.
pub const DISCONNECTING: [Row; 34] = [
    (
        Op::Say, Weight::Try, 0, 0, "",
        "  --- T5 disconnecting closes an in-flight statement's session ---", "",
    ),
    (Op::TabOpen, Weight::Try, 99, 1, "", "", ""),
    (Op::TabStart, Weight::Try, 99, 1, "{t03}", "", ""),
    (Op::PumpFor, Weight::Try, 99, 1500, "", "", ""),
    (
        Op::CountNow, Weight::Leave, 12, 0, "",
        "    sessions while the statement is running: {t12}", "",
    ),
    (Op::Disconnect, Weight::Try, 99, 0, "", "", ""),
    (Op::Sweep, Weight::Try, 99, 2, "", "", ""),
    (Op::TabWait, Weight::Try, 99, 1, "", "", ""),
    (Op::TabClose, Weight::Try, 99, 1, "", "", ""),
    (Op::SettledCount, Weight::Leave, 11, 1, "", "", ""),
    (
        Op::AtMost, Weight::Tally, 11, 1, " (server sessions: {t11} <= {t01})",
        "T5 disconnecting closes an in-flight statement's session",
        ": {t11} sessions still open, expected at most {t01}",
    ),
    (
        Op::Say, Weight::Try, 0, 0, "",
        "  --- T6 disconnecting closes every session the tab used ---", "",
    ),
    (Op::ReconnectProbe, Weight::Leave, 13, 0, "", "", "reconnect: {z13}"),
    (Op::TabOpen, Weight::Try, 99, 1, "", "", ""),
    (Op::TabRun, Weight::Try, 11, 1, "SELECT 1 AS ONE FROM dual", "", ""),
    (Op::SkipUnlessFailed, Weight::Try, 11, 1, "", "", ""),
    (Op::TabRun, Weight::Leave, 11, 1, "SELECT 1 AS ONE", "", ""),
    (Op::Disconnect, Weight::Try, 99, 0, "", "", ""),
    (Op::TabClose, Weight::Try, 99, 1, "", "", ""),
    (Op::SettledCount, Weight::Leave, 11, 1, "", "", ""),
    (
        Op::AtMost, Weight::Tally, 11, 1, " (server sessions: {t11} <= {t01})",
        "T6 disconnecting closes every session the tab used",
        ": {t11} sessions still open, expected at most {t01}",
    ),
    (
        Op::Say, Weight::Try, 0, 0, "",
        "  --- T7 disconnecting closes an open lazy fetch's session ---", "",
    ),
    (Op::ReconnectProbe, Weight::Leave, 13, 0, "", "", "reconnect: {z13}"),
    (Op::TabOpen, Weight::Try, 99, 1, "", "", ""),
    (Op::LazyBatch, Weight::Try, 99, 1, "50", "", ""),
    (Op::TabRun, Weight::Leave, 11, 1, "{t06}", "", ""),
    (Op::LazyOpenOn, Weight::Try, 12, 1, "", "", ""),
    (Op::Say, Weight::Try, 0, 0, "", "    lazy fetch open after the SELECT: {t12}", ""),
    (
        Op::FlagIs, Weight::Try, 12, 0, "",
        "    (note) no lazy fetch stayed open; T7 degenerates into T6", "",
    ),
    (Op::Disconnect, Weight::Try, 99, 0, "", "", ""),
    (Op::Sweep, Weight::Try, 99, 2, "", "", ""),
    (Op::SettledCount, Weight::Leave, 11, 1, "", "", ""),
    (
        Op::AtMost, Weight::Tally, 11, 1, " (server sessions: {t11} <= {t01})",
        "T7 disconnecting closes an open lazy fetch's session",
        ": {t11} sessions still open, expected at most {t01}",
    ),
    (Op::TabClose, Weight::Try, 99, 1, "", "", ""),
];

/// A close, a discard, a disconnect or a reconnect that races a cancel.
pub const RACES: [Row; 53] = [
    (
        Op::Say, Weight::Try, 0, 0, "",
        "  --- T8 a tab closed mid-cancel leaves no session behind ---", "",
    ),
    (Op::ReconnectProbe, Weight::Leave, 13, 0, "", "", "reconnect: {z13}"),
    (Op::StableCount, Weight::Leave, 12, 0, "", "", ""),
    (Op::TabOpen, Weight::Try, 99, 1, "", "", ""),
    (Op::TabStart, Weight::Try, 99, 1, "{t03}", "", ""),
    (Op::PumpFor, Weight::Try, 99, 1500, "", "", ""),
    (Op::TabCancel, Weight::Try, 99, 1, "", "", ""),
    (Op::TabClose, Weight::Try, 99, 1, "", "", ""),
    (Op::TabDrop, Weight::Try, 99, 1, "", "", ""),
    (Op::SettledCount, Weight::Leave, 11, 12, "", "", ""),
    (
        Op::AtMost, Weight::Tally, 11, 12, " (server sessions: {t11} <= {t12})",
        "T8 a tab closed mid-cancel leaves no session behind",
        ": {t11} sessions still open, expected at most {t12}",
    ),
    (Op::Disconnect, Weight::Try, 99, 0, "", "", ""),
    (
        Op::Say, Weight::Try, 0, 0, "",
        "  --- T9 cancel-and-discard closes an open lazy fetch's session ---", "",
    ),
    (Op::ReconnectProbe, Weight::Leave, 13, 0, "", "", "reconnect: {z13}"),
    (Op::StableCount, Weight::Leave, 14, 0, "", "", ""),
    (Op::TabOpen, Weight::Try, 99, 1, "", "", ""),
    (Op::LazyBatch, Weight::Try, 99, 1, "50", "", ""),
    (Op::TabRun, Weight::Leave, 11, 1, "{t06}", "", ""),
    (Op::LazyOpenOn, Weight::Try, 12, 1, "", "", ""),
    (Op::Say, Weight::Try, 0, 0, "", "    lazy fetch open after the SELECT: {t12}", ""),
    (
        Op::FlagIs, Weight::Try, 12, 0, "",
        "    (note) no lazy fetch stayed open; T9's census check degenerates", "",
    ),
    (Op::DiscardLazy, Weight::Try, 99, 1, "", "", ""),
    (Op::WaitLazyClosed, Weight::Try, 12, 1, "", "", ""),
    (
        Op::FlagIs, Weight::Tally, 12, 1, "",
        "T9 the discarded lazy fetch clears its worker handle", "",
    ),
    (Op::SettledCount, Weight::Leave, 11, 14, "", "", ""),
    (
        Op::AtMost, Weight::Tally, 11, 14, " (server sessions: {t11} <= {t14})",
        "T9 cancel-and-discard closes an open lazy fetch's session",
        ": {t11} sessions still open, expected at most {t14}",
    ),
    (Op::RetainedOn, Weight::Try, 12, 1, "", "", ""),
    (
        Op::NothingRetained, Weight::Tally, 12, 0, "",
        "T9 the tab retains nothing after the discard", "",
    ),
    (Op::TabClose, Weight::Try, 99, 1, "", "", ""),
    (
        Op::Say, Weight::Try, 0, 0, "",
        "  --- T10 disconnecting right after a cancel leaves nothing ---", "",
    ),
    (Op::TabOpen, Weight::Try, 99, 1, "", "", ""),
    (Op::TabStart, Weight::Try, 99, 1, "{t03}", "", ""),
    (Op::PumpFor, Weight::Try, 99, 1500, "", "", ""),
    (Op::TabCancel, Weight::Try, 99, 1, "", "", ""),
    (Op::Disconnect, Weight::Try, 99, 0, "", "", ""),
    (Op::Sweep, Weight::Try, 99, 2, "", "", ""),
    (Op::TabWait, Weight::Try, 99, 1, "", "", ""),
    (Op::SettledCount, Weight::Leave, 11, 1, "", "", ""),
    (
        Op::AtMost, Weight::Tally, 11, 1, " (server sessions: {t11} <= {t01})",
        "T10 disconnecting right after a cancel leaves nothing",
        ": {t11} sessions still open, expected at most {t01}",
    ),
    (Op::TabClose, Weight::Try, 99, 1, "", "", ""),
    (
        Op::Say, Weight::Try, 0, 0, "",
        "  --- T11 reconnecting closes the replaced connection's sessions ---", "",
    ),
    (Op::ReconnectProbe, Weight::Leave, 13, 0, "", "", "reconnect: {z13}"),
    (Op::TabOpen, Weight::Try, 99, 1, "", "", ""),
    (Op::LazyBatch, Weight::Try, 99, 1, "50", "", ""),
    (Op::TabRun, Weight::Leave, 11, 1, "{t06}", "", ""),
    (Op::LazyOpenOn, Weight::Try, 12, 1, "", "", ""),
    (Op::Say, Weight::Try, 0, 0, "", "    lazy fetch open after the SELECT: {t12}", ""),
    (
        Op::FlagIs, Weight::Try, 12, 0, "",
        "    (note) no lazy fetch stayed open; T11 degenerates into a plain reconnect", "",
    ),
    (Op::ReconnectProbe, Weight::Leave, 13, 0, "", "", "reconnect: {z13}"),
    (Op::Sweep, Weight::Try, 99, 2, "", "", ""),
    (Op::SettledCount, Weight::Leave, 11, 2, "", "", ""),
    (
        Op::AtMost, Weight::Tally, 11, 2, " (server sessions: {t11} <= {t02})",
        "T11 reconnecting closes the replaced connection's sessions",
        ": {t11} sessions still open, expected at most {t02}",
    ),
    (Op::TabClose, Weight::Try, 99, 1, "", "", ""),
];

/// A script's DISCONNECT is the tab's own.
pub const TAB_LOCAL: [Row; 18] = [
    (Op::Say, Weight::Try, 0, 0, "", "  --- T12 a script DISCONNECT is tab-local ---", ""),
    (Op::ReconnectProbe, Weight::Leave, 13, 0, "", "", "reconnect: {z13}"),
    (Op::TabOpen, Weight::Try, 99, 1, "", "", ""),
    (Op::TabOpen, Weight::Try, 99, 2, "", "", ""),
    (Op::TabRun, Weight::Leave, 11, 1, "{t04}", "", ""),
    (Op::TabRun, Weight::Leave, 11, 2, "{t04}", "", ""),
    (Op::TabRun, Weight::Leave, 11, 1, "DISCONNECT\n{t04};", "", ""),
    (Op::RetainedOn, Weight::Try, 12, 1, "", "", ""),
    (
        Op::NothingRetained, Weight::Tally, 12, 0, "",
        "T12 the disconnecting tab holds no session of its own", "",
    ),
    (
        Op::ToldOf, Weight::Tally, 11, 0, "Disconnected from database",
        "T12 the disconnecting tab reports the disconnect", "",
    ),
    (Op::NotConnectedText, Weight::Try, 14, 0, "", "", ""),
    (
        Op::ToldOf, Weight::Tally, 11, 0, "{t14}",
        "T12 the disconnecting tab's next statement says it is not connected", "",
    ),
    (Op::TabRun, Weight::Try, 11, 2, "{t04}", "", ""),
    (
        Op::StillWorks, Weight::Tally, 11, 0, "{t14}",
        "T12 the other tab on the connection keeps working", "",
    ),
    (Op::Connected, Weight::Try, 12, 0, "", "", ""),
    (Op::FlagIs, Weight::Tally, 12, 1, "", "T12 the shared connection is still connected", ""),
    (Op::TabClose, Weight::Try, 99, 1, "", "", ""),
    (Op::TabClose, Weight::Try, 99, 2, "", "", ""),
];

/// A pool rebuild closes what the old pool held.
pub const REBUILDS: [Row; 73] = [
    (
        Op::Say, Weight::Try, 0, 0, "",
        "  --- P1 a pool rebuild closes the sessions the tabs were holding ---", "",
    ),
    (Op::ReconnectProbe, Weight::Leave, 13, 0, "", "", "reconnect: {z13}"),
    (Op::TabOpen, Weight::Try, 99, 1, "", "", ""),
    (Op::TabOpen, Weight::Try, 99, 2, "", "", ""),
    (Op::TabOpen, Weight::Try, 99, 3, "", "", ""),
    (Op::TabRun, Weight::Leave, 11, 1, "{t04}", "", ""),
    (Op::TabRun, Weight::Leave, 11, 2, "{t04}", "", ""),
    (Op::TabRun, Weight::Leave, 11, 3, "{t04}", "", ""),
    (
        Op::StableCount, Weight::Leave, 12, 0, "",
        "    server sessions with three tabs holding: {t12}", "",
    ),
    (Op::Rebuild, Weight::Leave, 13, 4, "", "", ""),
    (Op::SettledCount, Weight::Leave, 11, 2, "", "", ""),
    (
        Op::AtMost, Weight::Tally, 11, 2, " (server sessions: {t11} <= {t02})",
        "P1 a pool rebuild closes the sessions the tabs were holding",
        ": {t11} sessions still open, expected at most {t02}",
    ),
    (Op::TabRun, Weight::Try, 15, 1, "{t04}", "", ""),
    (Op::SkipIfFailed, Weight::Try, 15, 3, "", "", ""),
    (Op::TabRun, Weight::Try, 16, 2, "{t04}", "", ""),
    (Op::SkipIfFailed, Weight::Try, 16, 1, "", "", ""),
    (Op::TabRun, Weight::Try, 17, 3, "{t04}", "", ""),
    (Op::RunsFine, Weight::Tally, 15, 17, "", "P1 every tab keeps working on the new pool", ""),
    (Op::TabClose, Weight::Try, 99, 1, "", "", ""),
    (Op::TabClose, Weight::Try, 99, 2, "", "", ""),
    (Op::TabClose, Weight::Try, 99, 3, "", "", ""),
    (
        Op::Say, Weight::Try, 0, 0, "",
        "  --- P2 a pool rebuild closes an open lazy fetch's session ---", "",
    ),
    (Op::ReconnectProbe, Weight::Leave, 13, 0, "", "", "reconnect: {z13}"),
    (Op::TabOpen, Weight::Try, 99, 1, "", "", ""),
    (Op::LazyBatch, Weight::Try, 99, 1, "50", "", ""),
    (Op::TabRun, Weight::Leave, 11, 1, "{t06}", "", ""),
    (Op::LazyOpenOn, Weight::Try, 12, 1, "", "", ""),
    (Op::Say, Weight::Try, 0, 0, "", "    lazy fetch open after the SELECT: {t12}", ""),
    (
        Op::FlagIs, Weight::Try, 12, 0, "",
        "    (note) no lazy fetch stayed open; P2 degenerates into P1", "",
    ),
    (Op::Rebuild, Weight::Leave, 13, 6, "", "", ""),
    (Op::SettledCount, Weight::Leave, 11, 2, "", "", ""),
    (
        Op::AtMost, Weight::Tally, 11, 2, " (server sessions: {t11} <= {t02})",
        "P2 a pool rebuild closes an open lazy fetch's session",
        ": {t11} sessions still open, expected at most {t02}",
    ),
    (Op::TabClose, Weight::Try, 99, 1, "", "", ""),
    (
        Op::Say, Weight::Try, 0, 0, "",
        "  --- P3 rebuilding right after a cancel leaves nothing ---", "",
    ),
    (Op::ReconnectProbe, Weight::Leave, 13, 0, "", "", "reconnect: {z13}"),
    (Op::TabOpen, Weight::Try, 99, 1, "", "", ""),
    (Op::TabStart, Weight::Try, 99, 1, "{t03}", "", ""),
    (Op::PumpFor, Weight::Try, 99, 1500, "", "", ""),
    (Op::TabCancel, Weight::Try, 99, 1, "", "", ""),
    (Op::Rebuild, Weight::Leave, 13, 4, "", "", ""),
    (Op::TabWait, Weight::Try, 99, 1, "", "", ""),
    (Op::SettledCount, Weight::Leave, 11, 2, "", "", ""),
    (
        Op::AtMost, Weight::Tally, 11, 2, " (server sessions: {t11} <= {t02})",
        "P3 rebuilding right after a cancel leaves nothing",
        ": {t11} sessions still open, expected at most {t02}",
    ),
    (Op::TabClose, Weight::Try, 99, 1, "", "", ""),
    (
        Op::Say, Weight::Try, 0, 0, "", "  --- P4 repeated pool rebuilds leave nothing behind ---",
        "",
    ),
    (Op::ReconnectProbe, Weight::Leave, 13, 0, "", "", "reconnect: {z13}"),
    (Op::TabOpen, Weight::Try, 99, 1, "", "", ""),
    (Op::TabRun, Weight::Leave, 11, 1, "{t04}", "", ""),
    (Op::Rebuild, Weight::Leave, 13, 3, "", "", ""),
    (Op::TabClose, Weight::Try, 99, 1, "", "", ""),
    (Op::TabOpen, Weight::Try, 99, 1, "", "", ""),
    (Op::TabRun, Weight::Leave, 11, 1, "{t04}", "", ""),
    (Op::Rebuild, Weight::Leave, 13, 5, "", "", ""),
    (Op::TabClose, Weight::Try, 99, 1, "", "", ""),
    (Op::TabOpen, Weight::Try, 99, 1, "", "", ""),
    (Op::TabRun, Weight::Leave, 11, 1, "{t04}", "", ""),
    (Op::Rebuild, Weight::Leave, 13, 3, "", "", ""),
    (Op::TabClose, Weight::Try, 99, 1, "", "", ""),
    (Op::TabOpen, Weight::Try, 99, 1, "", "", ""),
    (Op::TabRun, Weight::Leave, 11, 1, "{t04}", "", ""),
    (Op::Rebuild, Weight::Leave, 13, 5, "", "", ""),
    (Op::TabClose, Weight::Try, 99, 1, "", "", ""),
    (Op::TabOpen, Weight::Try, 99, 1, "", "", ""),
    (Op::TabRun, Weight::Leave, 11, 1, "{t04}", "", ""),
    (Op::Rebuild, Weight::Leave, 13, 3, "", "", ""),
    (Op::TabClose, Weight::Try, 99, 1, "", "", ""),
    (Op::SettledCount, Weight::Leave, 11, 2, "", "", ""),
    (
        Op::AtMost, Weight::Tally, 11, 2, " (server sessions: {t11} <= {t02})",
        "P4 five pool rebuild rounds leave nothing behind",
        ": {t11} sessions still open, expected at most {t02}",
    ),
    (Op::TabOpen, Weight::Try, 99, 1, "", "", ""),
    (Op::TabRun, Weight::Try, 15, 1, "{t04}", "", ""),
    (
        Op::RunsFine, Weight::Tally, 15, 15, "",
        "P4 the connection still hands out sessions after five rebuilds", "",
    ),
    (Op::TabClose, Weight::Try, 99, 1, "", "", ""),
    (Op::Disconnect, Weight::Try, 99, 0, "", "", ""),
];

/// Every step, in order.
pub open spec fn all_steps() -> Seq<Row> {
    BASELINES@
        + CLOSING_TABS@
        + DISCONNECTING@
        + RACES@
        + TAB_LOCAL@
        + REBUILDS@
}

pub fn steps() -> (r: Vec<Row>)
    ensures
        r@ == all_steps(),
{
    let mut plan: Vec<Row> = Vec::new();
    append(&mut plan, &BASELINES);
    append(&mut plan, &CLOSING_TABS);
    append(&mut plan, &DISCONNECTING);
    append(&mut plan, &RACES);
    append(&mut plan, &TAB_LOCAL);
    append(&mut plan, &REBUILDS);
    assert(plan@ =~= all_steps());
    plan
}

/// The number of slots.
pub const SLOTS: usize = 20;

/// The text a slot starts out with, if it starts out with one.
pub open spec fn fact(target: Target, slot: int) -> Option<Seq<char>> {
    if slot == 3 {
        Some(target.sleep_sql_text())
    } else if slot == 4 {
        Some(target.trivial_sql_text())
    } else if slot == 5 {
        Some(target.name())
    } else if slot == 6 {
        Some(target.many_rows_sql_text())
    } else {
        None
    }
}

/// What the probe knows before it starts.
pub fn facts(target: Target) -> (r: Vec<Seen>)
    ensures
        r@.len() == SLOTS,
        forall|slot: int|
            0 <= slot < SLOTS ==> knows(#[trigger] r@[slot], fact(target, slot)),
{
    let mut out: Vec<Seen> = Vec::new();
    let mut slot: usize = 0;
    while slot < SLOTS
        invariant
            slot <= SLOTS,
            out@.len() == slot,
            forall|k: int| 0 <= k < slot ==> knows(#[trigger] out@[k], fact(target, k)),
        decreases SLOTS - slot,
    {
        let seen = if slot == 3 {
            Seen::Text(target.sleep_sql().to_owned())
        } else if slot == 4 {
            Seen::Text(target.trivial_sql().to_owned())
        } else if slot == 5 {
            Seen::Text(target.label().to_owned())
        } else if slot == 6 {
            Seen::Text(target.many_rows_sql().to_owned())
        } else {
            Seen::Nothing
        };
        out.push(seen);
        slot += 1;
    }
    out
}

/// Starts the probe on a target.
pub fn verify(target: Target) -> (r: Machine)
    ensures
        r.wf(),
        r.plan() == all_steps(),
        exists|memory: Seq<Seen>|
            {
                &&& memory.len() == SLOTS
                &&& forall|slot: int|
                    0 <= slot < SLOTS ==> knows(#[trigger] memory[slot], fact(target, slot))
                &&& r.now() == #[trigger] settle(r.plan(), opening(memory))
            },
{
    let plan = steps();
    let memory = facts(target);
    Machine::new(plan, memory)
}

/// The line that closes a target's run.
pub open spec fn closing(label: Seq<char>, failures: Seq<Seq<char>>) -> Seq<char> {
    if failures.len() == 0 {
        "== "@ + label + " PASSED =="@
    } else {
        "== "@ + label + " FAILED: "@ + bracketed(debug_all(failures)) + " =="@
    }
}

pub fn closing_line(label: &str, failures: &Vec<String>) -> (r: String)
    ensures
        r@ == closing(label@, views(failures@)),
{
    assert(views(failures@).len() == failures@.len());
    let mut out = "== ".to_owned();
    out.append(label);
    if failures.len() == 0 {
        out.append(" PASSED ==");
    } else {
        out.append(" FAILED: ");
        out.append(names_text(failures).as_str());
        out.append(" ==");
    }
    out
}

/// The probe passes only where every test in it was made and held, but for those
/// that a step left out under its own condition: no
/// session stayed open.
pub proof fn a_clean_run_passes_every_test_of_it(
    memory: Seq<Seen>,
    answers: Seq<Seen>,
    k: int,
)
    requires
        0 <= k < all_steps().len(),
        is_test(all_steps()[k]),
        clean(course(all_steps(), opening(memory), answers)),
        course(all_steps(), opening(memory), answers).at == all_steps().len(),
    ensures
        test_held(all_steps(), opening(memory), answers, k) || left_out(
            all_steps(),
            opening(memory),
            answers,
            k,
        ),
{
    a_clean_run_passes_every_test_not_left_out(all_steps(), opening(memory), answers, k);
}

} // verus!
