//! The steps of the transaction-mode scenarios.
use vstd::prelude::*;

use crate::machine::{Row, Weight};
use crate::op::{
    Op, COMMITTED, COMMITTED_READ_ONLY, DEFAULT_MODE, HERE, READ_ONLY, REPEATABLE, SERIALIZABLE,
    SERIALIZABLE_READ_ONLY,
};

verus! {

/// A tab pinned READ ONLY.
pub const S1_PIN: [Row; 3] = [
    (Op::ConnectionMode, Weight::Try, 7, 0, "", "", ""),
    (Op::Say, Weight::Try, 0, 0, "", "  --- S1 tab-scoped READ ONLY pin ---", ""),
    (Op::Pin, Weight::Try, 99, READ_ONLY, "", "", ""),
];

/// The pin on the session variable.
pub const S1_VARIABLE: [Row; 2] = [
    (Op::Ask, Weight::Demand, 10, 0, "{t03}", "", ""),
    (
        Op::ScalarOn, Weight::Check, 10, 0, "",
        "S1 session variable reports read-only after the pin", "{t03} = {q10}",
    ),
];

/// The refused write, and the write once unpinned.
pub const S1_WRITE: [Row; 11] = [
    (Op::Run, Weight::Demand, 11, 0, "INSERT INTO SQ_TM_T VALUES (99)", "", ""),
    (
        Op::FirstRefused, Weight::Check, 11, 0, "{t01}",
        "S1 INSERT fails on the read-only tab session", "insert result: {f11}",
    ),
    (Op::ConnectionMode, Weight::Try, 12, 0, "", "", ""),
    (
        Op::SameMode, Weight::Check, 12, 7, "", "S1 shared connection transaction mode untouched",
        "connection mode changed to {t12}",
    ),
    (Op::Run, Weight::Demand, 99, 0, "ROLLBACK", "", ""),
    (Op::Unpin, Weight::Try, 99, 0, "", "", ""),
    (Op::Run, Weight::Demand, 11, 0, "INSERT INTO SQ_TM_T VALUES (2)", "", ""),
    (
        Op::FirstSucceeded, Weight::Check, 11, 0, "",
        "S1 unpinned tab (connection default) can write again", "insert result: {f11}",
    ),
    (Op::Run, Weight::Demand, 99, 0, "COMMIT", "", ""),
    (Op::AskNumber, Weight::Demand, 10, 0, "SELECT V FROM SQ_TM_T", "", "SELECT V"),
    (Op::NumberIs, Weight::Check, 10, 1, "", "S1 committed row visible", "first V = {n10}"),
];

/// A session-scoped statement is adopted by the tab and announced.
pub const S2: [Row; 8] = [
    (
        Op::Say, Weight::Try, 0, 0, "",
        "  --- S2 session-scoped statement adopts into the tab + UI ---", "",
    ),
    (Op::Run, Weight::Demand, 11, 0, "{t05}", "", ""),
    (
        Op::FirstNotFailed, Weight::Check, 11, 0, "", "S2 session-scoped statement succeeded",
        "result: {f11}",
    ),
    (Op::Override, Weight::Try, 12, 0, "", "", ""),
    (
        Op::PinnedIsolation, Weight::Check, 12, SERIALIZABLE, "",
        "S2 tab override pinned to the adopted isolation", "override: {t12}",
    ),
    (
        Op::SomeModeChange, Weight::Check, 11, SERIALIZABLE, "",
        "S2 TransactionModeChanged event notified the UI", "mode change events: {c11}",
    ),
    (Op::ConnectionMode, Weight::Try, 12, 0, "", "", ""),
    (
        Op::SameMode, Weight::Check, 12, 7, "",
        "S2 shared connection transaction mode still untouched", "connection mode changed to {t12}",
    ),
];

/// The adopted level on the session variable.
pub const S3_VARIABLE: [Row; 4] = [
    (
        Op::Say, Weight::Try, 0, 0, "",
        "  --- S3 adopted isolation persists on the tab session ---", "",
    ),
    (Op::Ask, Weight::Demand, 10, 0, "{t04}", "", ""),
    (
        Op::SpelledAs, Weight::Check, 10, 0, "SERIALIZABLE",
        "S3 next execution observes SERIALIZABLE", "{t04} = {q10}",
    ),
    (Op::Run, Weight::Demand, 99, 0, "ROLLBACK", "", ""),
];

/// The adopted level opens a transaction.
pub const S3_TRANSACTION: [Row; 6] = [
    (
        Op::Say, Weight::Try, 0, 0, "",
        "  --- S3 pinned isolation is re-applied on the next execution ---", "",
    ),
    (Op::AskNumber, Weight::Demand, 10, 0, "SELECT V FROM SQ_TM_T", "", "SELECT V"),
    (Op::NumberIs, Weight::Check, 10, 1, "", "S3 SELECT under SERIALIZABLE works", "V = {n10}"),
    (Op::RetainedState, Weight::Try, 12, 0, "", "", ""),
    (
        Op::Dirty, Weight::Check, 12, 0, "",
        "S3 pinned mode was issued (its SET TRANSACTION opened a transaction)",
        "retained state after SELECT on a pinned tab = {t12}",
    ),
    (Op::Run, Weight::Demand, 99, 0, "COMMIT", "", ""),
];

/// A one-shot statement does not pin the tab.
pub const S4: [Row; 7] = [
    (Op::Unpin, Weight::Try, 99, 0, "", "", ""),
    (Op::Say, Weight::Try, 0, 0, "", "  --- S4 one-shot SET TRANSACTION does not repin ---", ""),
    (Op::Run, Weight::Demand, 11, 0, "{t06}", "", ""),
    (
        Op::FirstNotFailed, Weight::Check, 11, 0, "", "S4 one-shot statement succeeded",
        "result: {f11}",
    ),
    (Op::Override, Weight::Try, 12, 0, "", "", ""),
    (Op::Unpinned, Weight::Check, 12, 0, "", "S4 tab override not repinned", "override: {t12}"),
    (
        Op::NoModeChange, Weight::Check, 11, 0, "", "S4 no TransactionModeChanged event",
        "mode change events: {c11}",
    ),
];

/// The one-shot's transaction is ended.
pub const S4_ORACLE: [Row; 1] = [
    (Op::Run, Weight::Demand, 99, 0, "ROLLBACK", "", ""),
];

/// The one-shot is consumed and its transaction ended.
pub const S4_MYSQL: [Row; 2] = [
    (Op::Run, Weight::Demand, 99, 0, "START TRANSACTION", "", ""),
    (Op::Run, Weight::Demand, 99, 0, "ROLLBACK", "", ""),
];

/// A toolbar change replaces a pending one-shot.
pub const S5: [Row; 11] = [
    (
        Op::Say, Weight::Try, 0, 0, "",
        "  --- S5 toolbar change supersedes a pending one-shot SET TRANSACTION ---", "",
    ),
    (Op::Run, Weight::Demand, 99, 0, "SET TRANSACTION ISOLATION LEVEL SERIALIZABLE", "", ""),
    (Op::Pin, Weight::Try, 99, COMMITTED, "", "", ""),
    (Op::RetainedMode, Weight::Try, 13, COMMITTED, "verify transaction mode", "", ""),
    (
        Op::Applied, Weight::Check, 13, 0, "",
        "S5 retained replace applied over the pending one-shot", "outcome: {t13}",
    ),
    (Op::Run, Weight::Demand, 99, 0, "START TRANSACTION", "", ""),
    (Op::Run, Weight::Demand, 99, 0, "INSERT INTO SQ_TM_T VALUES (5)", "", ""),
    (
        Op::Ask, Weight::Demand, 10, 0,
        "SELECT trx_isolation_level FROM information_schema.innodb_trx WHERE trx_mysql_thread_id = CONNECTION_ID()",
        "", "",
    ),
    (
        Op::SpelledAs, Weight::Check, 10, 0, "READ COMMITTED",
        "S5 next transaction runs under the replaced mode", "trx_isolation_level = {q10}",
    ),
    (Op::Run, Weight::Demand, 99, 0, "ROLLBACK", "", ""),
    (Op::Unpin, Weight::Try, 99, 0, "", "", ""),
];

/// A mode change after the toolbar's rollback.
pub const S6: [Row; 8] = [
    (
        Op::Say, Weight::Try, 0, 0, "",
        "  --- S6 query -> toolbar Rollback -> query-driven SET TRANSACTION ---", "",
    ),
    (Op::Pin, Weight::Try, 99, SERIALIZABLE, "", "", ""),
    (Op::Run, Weight::Demand, 99, 0, "SELECT V FROM SQ_TM_T", "", ""),
    (Op::ToolbarRollback, Weight::Try, 99, 0, "", "", ""),
    (Op::Run, Weight::Demand, 11, 0, "SET TRANSACTION READ ONLY", "", ""),
    (
        Op::NoFailureSays, Weight::Check, 11, 0, "ORA-01453",
        "S6 query-driven SET TRANSACTION after toolbar Rollback is not ORA-01453", "results: {a11}",
    ),
    (Op::Run, Weight::Demand, 99, 0, "ROLLBACK", "", ""),
    (Op::Unpin, Weight::Try, 99, 0, "", "", ""),
];

/// A READ ONLY pin survives a COMMIT inside the batch.
pub const S10: [Row; 11] = [
    (
        Op::Say, Weight::Try, 0, 0, "",
        "  --- S10 READ ONLY pin survives a COMMIT inside the batch ---", "",
    ),
    (Op::Unpin, Weight::Try, 99, 0, "", "", ""),
    (Op::Run, Weight::Demand, 99, 0, "DELETE FROM SQ_TM_T WHERE V = 77", "", ""),
    (Op::Run, Weight::Demand, 99, 0, "COMMIT", "", ""),
    (Op::Pin, Weight::Try, 99, READ_ONLY, "", "", ""),
    (
        Op::Run, Weight::Demand, 11, 0,
        "SELECT V FROM SQ_TM_T;\nCOMMIT;\nINSERT INTO SQ_TM_T VALUES (77);", "", "",
    ),
    (
        Op::AnyCaseInsertRefused, Weight::Check, 11, 0, "{t01}",
        "S10 the write after the batch's own COMMIT is still refused",
        "insert after COMMIT: {u11}; all results: {s11}",
    ),
    (Op::Unpin, Weight::Try, 99, 0, "", "", ""),
    (Op::Ask, Weight::Demand, 10, 0, "SELECT COUNT(*) FROM SQ_TM_T WHERE V = 77", "", ""),
    (
        Op::ScalarIs, Weight::Check, 10, 0, "0", "S10 the refused write left no row on the session",
        "COUNT(*) WHERE V = 77 = {q10}",
    ),
    (Op::Run, Weight::Demand, 99, 0, "ROLLBACK", "", ""),
];

/// An adopted level shows as the tab's mode.
pub const S11: [Row; 6] = [
    (
        Op::Say, Weight::Try, 0, 0, "",
        "  --- S11 selecting Default again restores the session isolation ---", "",
    ),
    (Op::Run, Weight::Demand, 99, 0, "{t05}", "", ""),
    (Op::Run, Weight::Demand, 99, 0, "ROLLBACK", "", ""),
    (Op::Override, Weight::Try, 12, 0, "", "", ""),
    (
        Op::PinnedIsolation, Weight::Check, 12, SERIALIZABLE, "",
        "S11 the session-scoped change is showing as the tab's mode",
        "tab override after the change: {t12}",
    ),
    (Op::Pin, Weight::Try, 99, DEFAULT_MODE, "", "", ""),
];

/// Selecting Default puts the session variable back.
pub const S11_VARIABLE: [Row; 3] = [
    (Op::Ask, Weight::Demand, 10, 0, "{t04}", "", ""),
    (
        Op::NotSpelledAs, Weight::Check, 10, 0, "SERIALIZABLE",
        "S11 the session no longer reports the abandoned isolation",
        "{t04} = {q10} after returning to Default",
    ),
    (Op::Run, Weight::Demand, 99, 0, "ROLLBACK", "", ""),
];

/// Selecting Default puts the session's behaviour back.
pub const S11_SNAPSHOT: [Row; 21] = [
    (Op::AttachOther, Weight::Demand, 13, 1, "", "", ""),
    (Op::Pin, Weight::Try, 99, SERIALIZABLE, "", "", ""),
    (Op::Run, Weight::Demand, 99, 0, "UPDATE SQ_TM_TXN SET V = V + 1", "", ""),
    (Op::Ask, Weight::Demand, 10, 0, "SELECT V FROM SQ_TM_ISO", "", ""),
    (Op::Run, Weight::Demand, 99, 1, "UPDATE SQ_TM_ISO SET V = V + 1", "", ""),
    (Op::Run, Weight::Demand, 99, 1, "COMMIT", "", ""),
    (Op::Ask, Weight::Demand, 11, 0, "SELECT V FROM SQ_TM_ISO", "", ""),
    (Op::Run, Weight::Demand, 99, 0, "ROLLBACK", "", ""),
    (Op::IsNumber, Weight::Demand, 10, 0, "", "", "SQ_TM_ISO read {q10}: {e10}"),
    (Op::IsNumber, Weight::Demand, 11, 0, "", "", "SQ_TM_ISO read {q11}: {e11}"),
    (
        Op::SameNumber, Weight::Check, 10, 11, "",
        "S11 SERIALIZABLE really holds the transaction snapshot",
        "reads inside one SERIALIZABLE transaction: {n10} then {n11}",
    ),
    (Op::Pin, Weight::Try, 99, DEFAULT_MODE, "", "", ""),
    (Op::Run, Weight::Demand, 99, 0, "UPDATE SQ_TM_TXN SET V = V + 1", "", ""),
    (Op::Ask, Weight::Demand, 10, 0, "SELECT V FROM SQ_TM_ISO", "", ""),
    (Op::Run, Weight::Demand, 99, 1, "UPDATE SQ_TM_ISO SET V = V + 1", "", ""),
    (Op::Run, Weight::Demand, 99, 1, "COMMIT", "", ""),
    (Op::Ask, Weight::Demand, 11, 0, "SELECT V FROM SQ_TM_ISO", "", ""),
    (Op::Run, Weight::Demand, 99, 0, "ROLLBACK", "", ""),
    (Op::IsNumber, Weight::Demand, 10, 0, "", "", "SQ_TM_ISO read {q10}: {e10}"),
    (Op::IsNumber, Weight::Demand, 11, 0, "", "", "SQ_TM_ISO read {q11}: {e11}"),
    (
        Op::OneMore, Weight::Check, 10, 11, "",
        "S11 back on Default the session reads committed changes again",
        "reads after returning to Default: {n10} then {n11} (unchanged means the session is still SERIALIZABLE)",
    ),
];

/// The pin belongs to one tab.
pub const S12: [Row; 13] = [
    (Op::Unpin, Weight::Try, 99, 0, "", "", ""),
    (Op::Run, Weight::Demand, 99, 0, "ROLLBACK", "", ""),
    (
        Op::Say, Weight::Try, 0, 0, "",
        "  --- S12 a second tab on the same connection is unaffected ---", "",
    ),
    (Op::Pin, Weight::Try, 99, READ_ONLY, "", "", ""),
    (Op::Run, Weight::Demand, 99, 0, "SELECT V FROM SQ_TM_T", "", ""),
    (Op::AttachSame, Weight::Try, 99, 2, "", "", ""),
    (Op::Run, Weight::Demand, 11, 2, "INSERT INTO SQ_TM_T VALUES (12)", "", ""),
    (
        Op::FirstSucceeded, Weight::Check, 11, 0, "",
        "S12 the second tab still writes while this tab is pinned READ ONLY",
        "second tab INSERT: {f11}",
    ),
    (Op::Override, Weight::Try, 12, 2, "", "", ""),
    (
        Op::Unpinned, Weight::Check, 12, 0, "",
        "S12 the second tab carries no pinned mode of its own", "second tab override: {t12}",
    ),
    (Op::Run, Weight::Try, 99, 2, "ROLLBACK", "", ""),
    (Op::Run, Weight::Demand, 99, 0, "ROLLBACK", "", ""),
    (Op::Unpin, Weight::Try, 99, 0, "", "", ""),
];

/// Every pair the toolbar offers can be run.
pub const S13: [Row; 8] = [
    (
        Op::Say, Weight::Try, 0, 0, "",
        "  --- S13 an unsupported isolation/access pair cannot be pinned ---", "",
    ),
    (Op::SelectionError, Weight::Try, 14, SERIALIZABLE_READ_ONLY, "", "", ""),
    (
        Op::TextAbsent, Weight::Check, 14, 0, "",
        "S13 Serializable + Read only is accepted everywhere", "unexpected error: {o14}",
    ),
    (Op::Pin, Weight::Try, 99, SERIALIZABLE_READ_ONLY, "", "", ""),
    (Op::Run, Weight::Demand, 11, 0, "SELECT V FROM SQ_TM_T", "", ""),
    (
        Op::AllSucceeded, Weight::Check, 11, 0, "", "S13 the accepted pair really runs",
        "results: {a11}",
    ),
    (Op::Run, Weight::Demand, 99, 0, "ROLLBACK", "", ""),
    (Op::Unpin, Weight::Try, 99, 0, "", "", ""),
];

/// The one pair that cannot be run is reported.
pub const S13_ORACLE: [Row; 2] = [
    (Op::SelectionError, Weight::Try, 14, COMMITTED_READ_ONLY, "", "", ""),
    (
        Op::TextPresent, Weight::Check, 14, 0, "",
        "S13 Oracle reports the read-committed read-only pair when it is selected",
        "no error was reported for READ COMMITTED + READ ONLY",
    ),
];

/// The retained session reports uncommitted work.
pub const S7: [Row; 10] = [
    (
        Op::Say, Weight::Try, 0, 0, "",
        "  --- S7 retained session reports transaction state for the status bar ---", "",
    ),
    (Op::Unpin, Weight::Try, 99, 0, "", "", ""),
    (Op::SetAutoCommit, Weight::Demand, 13, 0, "", "", "set_auto_commit(false): {z13}"),
    (Op::SyncAutoCommit, Weight::Try, 99, 0, "", "", ""),
    (Op::Run, Weight::Demand, 99, 0, "UPDATE SQ_TM_T SET V = V + 1", "", ""),
    (Op::RetainedState, Weight::Try, 12, 0, "", "", ""),
    (
        Op::Dirty, Weight::Check, 12, 0, "",
        "S7 retained session exists and reports uncommitted work",
        "retained state after DML = {t12}",
    ),
    (Op::Run, Weight::Demand, 99, 0, "ROLLBACK", "", ""),
    (Op::RetainedState, Weight::Try, 12, 0, "", "", ""),
    (
        Op::Resolved, Weight::Check, 12, 0, "",
        "S7 state clears after ROLLBACK (indicator disappears)",
        "retained state after ROLLBACK = {t12}",
    ),
];

/// A READ ONLY pin refuses DDL.
pub const S14: [Row; 9] = [
    (
        Op::Say, Weight::Try, 0, 0, "", "  --- S14 a READ ONLY pin refuses DDL as well as DML ---",
        "",
    ),
    (Op::Pin, Weight::Try, 99, READ_ONLY, "", "", ""),
    (Op::Run, Weight::Demand, 11, 0, "{t21}", "", ""),
    (
        Op::FirstRefused, Weight::Check, 11, 0, "{t01}",
        "S14 CREATE TABLE is refused on the read-only tab", "ddl result: {f11}",
    ),
    (Op::Run, Weight::Demand, 99, 0, "ROLLBACK", "", ""),
    (Op::Unpin, Weight::Try, 99, 0, "", "", ""),
    (Op::Ask, Weight::Demand, 10, 0, "{t22}", "", ""),
    (
        Op::ScalarIs, Weight::Check, 10, 0, "0", "S14 the refused DDL created nothing",
        "{t22} = {q10}",
    ),
    (Op::Run, Weight::Demand, 99, 0, "ROLLBACK", "", ""),
];

/// The connection default applies to a tab with no pin.
pub const S15: [Row; 12] = [
    (
        Op::Say, Weight::Try, 0, 0, "",
        "  --- S15 the connection default applies to a tab with no pin ---", "",
    ),
    (Op::Unpin, Weight::Try, 99, 0, "", "", ""),
    (
        Op::SetConnectionMode, Weight::Demand, 13, READ_ONLY, "", "",
        "set connection transaction mode READ ONLY: {z13}",
    ),
    (Op::Run, Weight::Demand, 11, 0, "INSERT INTO SQ_TM_T VALUES (15)", "", ""),
    (
        Op::FirstRefused, Weight::Check, 11, 0, "{t01}",
        "S15 the connection default READ ONLY refuses the write with no tab pin",
        "insert result: {f11}",
    ),
    (Op::Override, Weight::Try, 12, 0, "", "", ""),
    (Op::Unpinned, Weight::Check, 12, 0, "", "S15 no tab override was invented", "override: {t12}"),
    (Op::Run, Weight::Demand, 99, 0, "ROLLBACK", "", ""),
    (
        Op::RestoreConnectionMode, Weight::Demand, 13, 7, "", "",
        "restore connection transaction mode: {z13}",
    ),
    (Op::Run, Weight::Demand, 11, 0, "INSERT INTO SQ_TM_T VALUES (15)", "", ""),
    (
        Op::FirstSucceeded, Weight::Check, 11, 0, "",
        "S15 restoring the connection default lets the same tab write again",
        "insert result: {f11}",
    ),
    (Op::Run, Weight::Demand, 99, 0, "ROLLBACK", "", ""),
];

/// The pinned isolation governs the first transaction.
pub const S16: [Row; 38] = [
    (
        Op::Say, Weight::Try, 0, 0, "",
        "  --- S16 the pinned isolation really governs the first transaction ---", "",
    ),
    (Op::DefaultIsolation, Weight::Try, 9, 0, "", "", ""),
    (Op::AttachOther, Weight::Demand, 13, 1, "", "", ""),
    (Op::Pin, Weight::Try, 99, REPEATABLE, "", "", ""),
    (Op::Run, Weight::Demand, 99, 0, "UPDATE SQ_TM_TXN SET V = V + 1", "", ""),
    (Op::Ask, Weight::Demand, 10, 0, "SELECT V FROM SQ_TM_ISO", "", ""),
    (Op::Run, Weight::Demand, 99, 1, "UPDATE SQ_TM_ISO SET V = V + 1", "", ""),
    (Op::Run, Weight::Demand, 99, 1, "COMMIT", "", ""),
    (Op::Ask, Weight::Demand, 11, 0, "SELECT V FROM SQ_TM_ISO", "", ""),
    (Op::Run, Weight::Demand, 99, 0, "ROLLBACK", "", ""),
    (Op::IsNumber, Weight::Demand, 10, 0, "", "", "SQ_TM_ISO read {q10}: {e10}"),
    (Op::IsNumber, Weight::Demand, 11, 0, "", "", "SQ_TM_ISO read {q11}: {e11}"),
    (
        Op::SameNumber, Weight::Check, 10, 11, "",
        "S16 a REPEATABLE READ pin holds the snapshot in its first transaction",
        "reads inside one REPEATABLE READ transaction: {n10} then {n11} (a change means the pin took effect a transaction too late)",
    ),
    (Op::Pin, Weight::Try, 99, COMMITTED, "", "", ""),
    (Op::Run, Weight::Demand, 99, 0, "UPDATE SQ_TM_TXN SET V = V + 1", "", ""),
    (Op::Ask, Weight::Demand, 10, 0, "SELECT V FROM SQ_TM_ISO", "", ""),
    (Op::Run, Weight::Demand, 99, 1, "UPDATE SQ_TM_ISO SET V = V + 1", "", ""),
    (Op::Run, Weight::Demand, 99, 1, "COMMIT", "", ""),
    (Op::Ask, Weight::Demand, 11, 0, "SELECT V FROM SQ_TM_ISO", "", ""),
    (Op::Run, Weight::Demand, 99, 0, "ROLLBACK", "", ""),
    (Op::IsNumber, Weight::Demand, 10, 0, "", "", "SQ_TM_ISO read {q10}: {e10}"),
    (Op::IsNumber, Weight::Demand, 11, 0, "", "", "SQ_TM_ISO read {q11}: {e11}"),
    (
        Op::OneMore, Weight::Check, 10, 11, "",
        "S16 switching to READ COMMITTED takes effect on the next transaction",
        "reads after switching to READ COMMITTED: {n10} then {n11} (unchanged means the session is still REPEATABLE READ)",
    ),
    (Op::Pin, Weight::Try, 99, DEFAULT_MODE, "", "", ""),
    (Op::Ask, Weight::Demand, 12, 0, "{t04}", "", ""),
    (Op::Run, Weight::Demand, 99, 0, "ROLLBACK", "", ""),
    (
        Op::SpelledAs, Weight::Check, 12, 0, "{t09}",
        "S16 returning to Default puts the connection's own isolation back",
        "{t04} = {q12}, connection default = {q09}",
    ),
    (Op::Run, Weight::Demand, 99, 0, "UPDATE SQ_TM_TXN SET V = V + 1", "", ""),
    (Op::Ask, Weight::Demand, 10, 0, "SELECT V FROM SQ_TM_ISO", "", ""),
    (Op::Run, Weight::Demand, 99, 1, "UPDATE SQ_TM_ISO SET V = V + 1", "", ""),
    (Op::Run, Weight::Demand, 99, 1, "COMMIT", "", ""),
    (Op::Ask, Weight::Demand, 11, 0, "SELECT V FROM SQ_TM_ISO", "", ""),
    (Op::Run, Weight::Demand, 99, 0, "ROLLBACK", "", ""),
    (Op::IsNumber, Weight::Demand, 10, 0, "", "", "SQ_TM_ISO read {q10}: {e10}"),
    (Op::IsNumber, Weight::Demand, 11, 0, "", "", "SQ_TM_ISO read {q11}: {e11}"),
    (
        Op::LikeDefault, Weight::Check, 10, 11, "",
        "S16 on Default the tab behaves like the connection's isolation",
        "reads on Default: {n10} then {n11}; connection default = {t09} (expected the snapshot to {h09} held)",
    ),
    (Op::Unpin, Weight::Try, 99, 0, "", "", ""),
    (Op::Run, Weight::Demand, 99, 0, "ROLLBACK", "", ""),
];

/// A change of the connection default leaves a pinned tab alone.
pub const S17: [Row; 20] = [
    (
        Op::Say, Weight::Try, 0, 0, "",
        "  --- S17 a connection-default change leaves a pinned tab alone ---", "",
    ),
    (Op::Unpin, Weight::Try, 99, 0, "", "", ""),
    (Op::Run, Weight::Demand, 99, 0, "ROLLBACK", "", ""),
    (Op::Pin, Weight::Try, 99, READ_ONLY, "", "", ""),
    (Op::Run, Weight::Demand, 99, 0, "SELECT V FROM SQ_TM_T", "", ""),
    (Op::Run, Weight::Demand, 99, 0, "ROLLBACK", "", ""),
    (
        Op::SetConnectionMode, Weight::Demand, 13, SERIALIZABLE, "", "",
        "set connection transaction mode SERIALIZABLE: {z13}",
    ),
    (Op::Override, Weight::Try, 12, 0, "", "", ""),
    (
        Op::PinnedMode, Weight::Check, 12, READ_ONLY, "",
        "S17 the tab's pin survived the connection-default change",
        "override after the connection change: {t12}",
    ),
    (Op::Run, Weight::Demand, 11, 0, "INSERT INTO SQ_TM_T VALUES (17)", "", ""),
    (
        Op::FirstRefused, Weight::Check, 11, 0, "{t01}",
        "S17 the pinned tab still behaves READ ONLY over the new default", "insert result: {f11}",
    ),
    (Op::Run, Weight::Demand, 99, 0, "ROLLBACK", "", ""),
    (Op::AttachSame, Weight::Try, 99, 2, "", "", ""),
    (Op::Run, Weight::Demand, 99, 2, "ROLLBACK", "", ""),
    (Op::Run, Weight::Demand, 11, 2, "INSERT INTO SQ_TM_T VALUES (17)", "", ""),
    (
        Op::FirstSucceeded, Weight::Check, 11, 0, "",
        "S17 an unpinned neighbour tab writes under the new READ WRITE default",
        "second tab insert: {f11}",
    ),
    (Op::Run, Weight::Try, 99, 2, "ROLLBACK", "", ""),
    (Op::Unpin, Weight::Try, 99, 0, "", "", ""),
    (
        Op::RestoreConnectionMode, Weight::Demand, 13, 7, "", "",
        "restore connection transaction mode: {z13}",
    ),
    (Op::Run, Weight::Demand, 99, 0, "ROLLBACK", "", ""),
];

/// The pinned isolation survives the batch's own COMMIT.
pub const S18: [Row; 4] = [
    (
        Op::Say, Weight::Try, 0, 0, "",
        "  --- S18 the pinned isolation survives a COMMIT inside the batch ---", "",
    ),
    (Op::Unpin, Weight::Try, 99, 0, "", "", ""),
    (Op::Run, Weight::Demand, 99, 0, "ROLLBACK", "", ""),
    (Op::AttachOther, Weight::Demand, 13, 1, "", "", ""),
];

/// The level that holds a snapshot.
pub const SNAPSHOT_PIN_ORACLE: [Row; 1] = [
    (Op::Pin, Weight::Try, 99, SERIALIZABLE, "", "", ""),
];

/// The level that holds a snapshot without locking reads.
pub const SNAPSHOT_PIN_MYSQL: [Row; 1] = [
    (Op::Pin, Weight::Try, 99, REPEATABLE, "", "", ""),
];

/// Reads that bracket another session's commit.
pub const S18_READS: [Row; 25] = [
    (
        Op::Start, Weight::Try, 99, 0, "SELECT V FROM SQ_TM_ISO;\n{t20}\nSELECT V FROM SQ_TM_ISO;",
        "", "",
    ),
    (Op::PumpFor, Weight::Try, 99, 2500, "", "", ""),
    (Op::Run, Weight::Demand, 99, 1, "UPDATE SQ_TM_ISO SET V = V + 1", "", ""),
    (Op::Run, Weight::Demand, 99, 1, "COMMIT", "", ""),
    (Op::Finish, Weight::Demand, 12, 0, "", "", ""),
    (
        Op::AllSucceeded, Weight::Check, 12, 0, "", "S18a every statement of the plain batch ran",
        "failed statements: {x12}",
    ),
    (
        Op::LastPairSame, Weight::Check, 12, 0, "",
        "S18a two reads of one batch see one transaction snapshot",
        "reads in the batch: {r12} (different values mean the tab's pinned isolation did not hold across the batch's statements)",
    ),
    (Op::Run, Weight::Demand, 99, 0, "ROLLBACK", "", ""),
    (Op::Discard, Weight::Try, 99, 0, "", "", ""),
    (
        Op::Start, Weight::Try, 99, 0,
        "SELECT V FROM SQ_TM_ISO;\nCOMMIT;\nSELECT V FROM SQ_TM_ISO;\n{t20}\nSELECT V FROM SQ_TM_ISO;",
        "", "",
    ),
    (Op::PumpFor, Weight::Try, 99, 2500, "", "", ""),
    (Op::Run, Weight::Demand, 99, 1, "UPDATE SQ_TM_ISO SET V = V + 1", "", ""),
    (Op::Run, Weight::Demand, 99, 1, "COMMIT", "", ""),
    (Op::Finish, Weight::Demand, 12, 0, "", "", ""),
    (
        Op::AllSucceeded, Weight::Check, 12, 0, "",
        "S18b every statement of the committing batch ran", "failed statements: {x12}",
    ),
    (
        Op::LastPairSame, Weight::Check, 12, 0, "",
        "S18b both reads after the batch's COMMIT see one transaction snapshot",
        "reads in the batch: {r12} (the last two bracket the other session's commit; different values mean the pinned isolation was dropped by the COMMIT)",
    ),
    (Op::Run, Weight::Demand, 99, 0, "ROLLBACK", "", ""),
    (Op::Unpin, Weight::Try, 99, 0, "", "", ""),
    (Op::Ask, Weight::Demand, 10, 0, "SELECT V FROM SQ_TM_ISO", "", ""),
    (
        Op::AboveLastPair, Weight::Check, 10, 12, "",
        "S18 the other session's commits are visible to a new transaction",
        "SQ_TM_ISO after the batch = {q10}, in-batch reads {r12}",
    ),
    (Op::Run, Weight::Try, 99, 1, "ROLLBACK", "", ""),
    (Op::Discard, Weight::Try, 99, 1, "", "", ""),
    (Op::Unpin, Weight::Try, 99, 0, "", "", ""),
    (Op::Run, Weight::Demand, 99, 0, "ROLLBACK", "", ""),
    (Op::Discard, Weight::Try, 99, 0, "", "", ""),
];

/// A READ WRITE pin lifts a READ ONLY connection default.
pub const S19: [Row; 14] = [
    (
        Op::Say, Weight::Try, 0, 0, "",
        "  --- S19 a READ WRITE pin lifts a READ ONLY connection default ---", "",
    ),
    (
        Op::SetConnectionMode, Weight::Demand, 13, READ_ONLY, "", "",
        "set connection default READ ONLY: {z13}",
    ),
    (Op::AttachSame, Weight::Try, 99, 2, "", "", ""),
    (Op::Run, Weight::Demand, 11, 2, "INSERT INTO SQ_TM_T VALUES (19)", "", ""),
    (
        Op::FirstRefused, Weight::Check, 11, 0, "{t01}",
        "S19 an unpinned tab follows the READ ONLY connection default", "unpinned insert: {f11}",
    ),
    (Op::Run, Weight::Try, 99, 2, "ROLLBACK", "", ""),
    (Op::Discard, Weight::Try, 99, 2, "", "", ""),
    (Op::Pin, Weight::Try, 99, DEFAULT_MODE, "", "", ""),
    (Op::Run, Weight::Demand, 11, 0, "INSERT INTO SQ_TM_T VALUES (19)", "", ""),
    (
        Op::FirstSucceeded, Weight::Check, 11, 0, "",
        "S19 the READ WRITE pin writes over the read-only default", "pinned insert: {f11}",
    ),
    (Op::Run, Weight::Demand, 99, 0, "ROLLBACK", "", ""),
    (Op::Unpin, Weight::Try, 99, 0, "", "", ""),
    (
        Op::RestoreConnectionMode, Weight::Demand, 13, 7, "", "",
        "restore connection transaction mode: {z13}",
    ),
    (Op::Run, Weight::Demand, 99, 0, "ROLLBACK", "", ""),
];

/// A locking read keeps its lock.
pub const S20: [Row; 11] = [
    (
        Op::Say, Weight::Try, 0, 0, "",
        "  --- S20 a locking read keeps its lock until the tab resolves it ---", "",
    ),
    (Op::Unpin, Weight::Try, 99, 0, "", "", ""),
    (Op::Run, Weight::Demand, 99, 0, "ROLLBACK", "", ""),
    (Op::AttachOther, Weight::Demand, 13, 1, "", "", ""),
    (Op::Run, Weight::Demand, 11, 0, "SELECT V FROM SQ_TM_T FOR UPDATE", "", ""),
    (
        Op::AllSucceededOrSilent, Weight::Check, 11, 0, "", "S20 the locking read ran",
        "locking read: {a11}",
    ),
    (Op::Run, Weight::Demand, 11, 1, "SELECT V FROM SQ_TM_T FOR UPDATE NOWAIT", "", ""),
    (
        Op::SomethingFailed, Weight::Check, 11, 0, "Error",
        "S20 another session cannot take the same rows",
        "the other session's locking read: {a11} (success means the tab's transaction — and with it the lock — was already gone)",
    ),
    (Op::Discard, Weight::Try, 99, 1, "", "", ""),
    (Op::Run, Weight::Demand, 99, 0, "ROLLBACK", "", ""),
    (Op::Discard, Weight::Try, 99, 0, "", "", ""),
];

/// The pin survives a cancelled statement.
pub const S21: [Row; 17] = [
    (
        Op::Say, Weight::Try, 0, 0, "",
        "  --- S21 the tab's pin survives a cancelled statement ---", "",
    ),
    (Op::Unpin, Weight::Try, 99, 0, "", "", ""),
    (Op::Run, Weight::Demand, 99, 0, "ROLLBACK", "", ""),
    (Op::Pin, Weight::Try, 99, READ_ONLY, "", "", ""),
    (Op::Start, Weight::Try, 99, 0, "{t23}", "", ""),
    (Op::PumpFor, Weight::Try, 99, 1500, "", "", ""),
    (Op::Cancel, Weight::Try, 99, 0, "", "", ""),
    (Op::Finish, Weight::Demand, 11, 0, "", "", ""),
    (
        Op::NoneSucceeded, Weight::Check, 11, 0, "", "S21 the cancelled statement did not succeed",
        "results: {a11}",
    ),
    (Op::Override, Weight::Try, 12, 0, "", "", ""),
    (
        Op::PinnedMode, Weight::Check, 12, READ_ONLY, "",
        "S21 the tab is still pinned after the cancel", "override after cancel: {t12}",
    ),
    (Op::Discard, Weight::Try, 99, 0, "", "", ""),
    (Op::Run, Weight::Demand, 11, 0, "INSERT INTO SQ_TM_T VALUES (21)", "", ""),
    (
        Op::FirstRefused, Weight::Check, 11, 0, "{t01}",
        "S21 the pin still refuses the write on the tab's next session",
        "insert after cancel: {f11}",
    ),
    (Op::Run, Weight::Demand, 99, 0, "ROLLBACK", "", ""),
    (Op::Unpin, Weight::Try, 99, 0, "", "", ""),
    (Op::Discard, Weight::Try, 99, 0, "", "", ""),
];

/// The pin survives a reconnect.
pub const S22: [Row; 12] = [
    (Op::Say, Weight::Try, 0, 0, "", "  --- S22 the tab's pin survives a reconnect ---", ""),
    (Op::Pin, Weight::Try, 99, READ_ONLY, "", "", ""),
    (Op::Reconnect, Weight::Demand, 13, 0, "", "", "reconnect: {z13}"),
    (Op::Override, Weight::Try, 12, 0, "", "", ""),
    (
        Op::PinnedMode, Weight::Check, 12, READ_ONLY, "",
        "S22 the tab kept its pin across the reconnect", "override after reconnect: {t12}",
    ),
    (Op::Run, Weight::Demand, 11, 0, "INSERT INTO SQ_TM_T VALUES (22)", "", ""),
    (
        Op::FirstRefused, Weight::Check, 11, 0, "{t01}",
        "S22 the pin is applied to the new connection's session", "insert after reconnect: {f11}",
    ),
    (Op::Run, Weight::Demand, 99, 0, "ROLLBACK", "", ""),
    (Op::Unpin, Weight::Try, 99, 0, "", "", ""),
    (Op::Run, Weight::Demand, 11, 0, "INSERT INTO SQ_TM_T VALUES (22)", "", ""),
    (
        Op::FirstSucceeded, Weight::Check, 11, 0, "", "S22 the same tab writes again once unpinned",
        "unpinned insert after reconnect: {f11}",
    ),
    (Op::Run, Weight::Demand, 99, 0, "ROLLBACK", "", ""),
];

/// An open lazy fetch closes the mode controls.
pub const S23: [Row; 18] = [
    (
        Op::Say, Weight::Try, 0, 0, "",
        "  --- S23 an open lazy fetch blocks a transaction-mode change ---", "",
    ),
    (Op::ChangeBlocked, Weight::Try, 12, 0, "", "", ""),
    (
        Op::FlagIs, Weight::Check, 12, 0, "", "S23 the mode change is open on an idle tab",
        "the mode controls are already blocked before the lazy fetch",
    ),
    (Op::Run, Weight::Demand, 99, 0, "SELECT V FROM SQ_TM_BIG", "", ""),
    (Op::LazySession, Weight::Try, 14, 0, "", "", ""),
    (Op::LazyOpen, Weight::Try, 12, 0, "", "", ""),
    (
        Op::BothFlags, Weight::Check, 12, 14, "", "S23 the big SELECT left a lazy fetch open",
        "active lazy fetch session: {t14}",
    ),
    (Op::ChangeBlocked, Weight::Try, 12, 0, "", "", ""),
    (
        Op::FlagIs, Weight::Check, 12, 1, "",
        "S23 the open lazy fetch blocks a transaction-mode change",
        "the mode controls stayed open while a lazy fetch held the session",
    ),
    (Op::SkipUnless, Weight::Try, 14, 1, "", "", ""),
    (Op::CancelLazy, Weight::Try, 99, 14, "", "", ""),
    (Op::LazyOpen, Weight::Try, 12, 0, "", "", ""),
    (
        Op::FlagIs, Weight::Check, 12, 0, "", "S23 cancelling the lazy fetch closes it",
        "the lazy fetch is still open after Cancel",
    ),
    (Op::Run, Weight::Demand, 99, 0, "ROLLBACK", "", ""),
    (Op::RetainedState, Weight::Try, 14, 0, "", "", ""),
    (Op::ChangeBlocked, Weight::Try, 12, 0, "", "", ""),
    (
        Op::FlagIs, Weight::Check, 12, 0, "", "S23 the mode change reopens once the lazy fetch is gone",
        "still blocked: retained state = {t14}",
    ),
    (Op::Discard, Weight::Try, 99, 0, "", "", ""),
];

/// A pinned READ ONLY holds with auto-commit on.
pub const S24: [Row; 14] = [
    (
        Op::Say, Weight::Try, 0, 0, "",
        "  --- S24 a pinned READ ONLY holds with auto-commit ON ---", "",
    ),
    (Op::Unpin, Weight::Try, 99, 0, "", "", ""),
    (Op::Run, Weight::Demand, 99, 0, "ROLLBACK", "", ""),
    (Op::TabAutoCommit, Weight::Try, 99, 1, "", "", ""),
    (Op::Pin, Weight::Try, 99, READ_ONLY, "", "", ""),
    (
        Op::Run, Weight::Demand, 11, 0, "SELECT V FROM SQ_TM_T;\nINSERT INTO SQ_TM_T VALUES (24);",
        "", "",
    ),
    (
        Op::QuerySucceeded, Weight::Check, 11, 0, "", "S24 the read of the read-only tab ran",
        "results: {a11}",
    ),
    (
        Op::InsertRefused, Weight::Check, 11, 0, "{t01}",
        "S24 the write after the auto-committed read is still refused", "insert result: {i11}",
    ),
    (Op::Unpin, Weight::Try, 99, 0, "", "", ""),
    (Op::SyncAutoCommit, Weight::Try, 99, 0, "", "", ""),
    (Op::Discard, Weight::Try, 99, 0, "", "", ""),
    (Op::Ask, Weight::Demand, 10, 0, "SELECT COUNT(*) FROM SQ_TM_T WHERE V = 24", "", ""),
    (
        Op::ScalarIs, Weight::Check, 10, 0, "0", "S24 the refused write left no row",
        "COUNT(*) WHERE V = 24 = {t10}",
    ),
    (Op::Run, Weight::Demand, 99, 0, "ROLLBACK", "", ""),
];

/// One statement changes both properties.
pub const S25: [Row; 15] = [
    (
        Op::Say, Weight::Try, 0, 0, "",
        "  --- S25 a combined session characteristics change adopts both ---", "",
    ),
    (Op::Unpin, Weight::Try, 99, 0, "", "", ""),
    (Op::Run, Weight::Demand, 99, 0, "ROLLBACK", "", ""),
    (
        Op::Run, Weight::Demand, 11, 0,
        "SET SESSION TRANSACTION ISOLATION LEVEL SERIALIZABLE, READ ONLY", "", "",
    ),
    (
        Op::AllSucceeded, Weight::Check, 11, 0, "", "S25 the combined statement succeeded",
        "results: {a11}",
    ),
    (Op::Override, Weight::Try, 12, 0, "", "", ""),
    (
        Op::PinnedMode, Weight::Check, 12, SERIALIZABLE_READ_ONLY, "",
        "S25 the tab adopted both properties", "override = {t12}",
    ),
    (
        Op::LastModeChange, Weight::Check, 11, SERIALIZABLE_READ_ONLY, "",
        "S25 the UI was notified of the combined mode", "TransactionModeChanged events: {c11}",
    ),
    (Op::Ask, Weight::Demand, 10, 0, "{t04}", "", ""),
    (
        Op::UpperHolds, Weight::Check, 10, 0, "SERIALIZABLE",
        "S25 the adopted isolation is really on the session", "{t04} = {t10}",
    ),
    (Op::Run, Weight::Demand, 11, 0, "INSERT INTO SQ_TM_T VALUES (25)", "", ""),
    (
        Op::FirstRefused, Weight::Check, 11, 0, "{t01}",
        "S25 the adopted READ ONLY really refuses a write", "insert result: {f11}",
    ),
    (Op::Unpin, Weight::Try, 99, 0, "", "", ""),
    (Op::Discard, Weight::Try, 99, 0, "", "", ""),
    (Op::Run, Weight::Demand, 99, 0, "ROLLBACK", "", ""),
];

/// The toolbar gate follows the transaction.
pub const S9: [Row; 7] = [
    (
        Op::Say, Weight::Try, 0, 0, "",
        "  --- S9 toolbar gate closes on uncommitted work and reopens after ROLLBACK ---", "",
    ),
    (Op::Run, Weight::Demand, 99, 0, "UPDATE SQ_TM_T SET V = V + 1", "", ""),
    (Op::Decision, Weight::Try, 12, 0, "", "", ""),
    (
        Op::MustResolve, Weight::Check, 12, 0, "", "S9 uncommitted work disables the controls",
        "decision while dirty = {t12}",
    ),
    (Op::Run, Weight::Demand, 99, 0, "ROLLBACK", "", ""),
    (Op::Decision, Weight::Try, 12, 0, "", "", ""),
    (
        Op::MayChange, Weight::Check, 12, 0, "",
        "S9 controls are allowed again once the transaction is resolved",
        "decision after ROLLBACK = {t12}",
    ),
];

/// The toolbar's write path reaches the live session.
pub const S26: [Row; 16] = [
    (
        Op::Say, Weight::Try, 0, 0, "",
        "  --- S26 the toolbar write path reaches the tab's live session ---", "",
    ),
    (Op::Unpin, Weight::Try, 99, 0, "", "", ""),
    (Op::Run, Weight::Demand, 99, 0, "ROLLBACK", "", ""),
    (Op::Ask, Weight::Demand, 10, 0, "SELECT COUNT(*) FROM SQ_TM_T", "", ""),
    (Op::ToolbarMode, Weight::Try, 13, READ_ONLY, "", "", ""),
    (Op::Run, Weight::Demand, 11, 0, "INSERT INTO SQ_TM_T VALUES (26)", "", ""),
    (
        Op::FirstRefused, Weight::Check, 11, 0, "{t01}",
        "S26 the write after the toolbar pin is refused",
        "retained-session mutation: {t13}; insert result: {f11}",
    ),
    (Op::Run, Weight::Demand, 99, 0, "ROLLBACK", "", ""),
    (Op::Ask, Weight::Demand, 12, 0, "SELECT COUNT(*) FROM SQ_TM_T", "", ""),
    (
        Op::SameWords, Weight::Check, 12, 10, "", "S26 the refused write left no row behind",
        "row count {t10} -> {t12}",
    ),
    (Op::Run, Weight::Demand, 99, 0, "ROLLBACK", "", ""),
    (Op::ToolbarMode, Weight::Try, 13, DEFAULT_MODE, "", "", ""),
    (Op::Run, Weight::Demand, 11, 0, "INSERT INTO SQ_TM_T VALUES (27)", "", ""),
    (
        Op::FirstSucceeded, Weight::Check, 11, 0, "",
        "S26 the toolbar releases the pin on the same session",
        "retained-session mutation: {t13}; insert result: {f11}",
    ),
    (Op::Run, Weight::Demand, 99, 0, "ROLLBACK", "", ""),
    (Op::Unpin, Weight::Try, 99, 0, "", "", ""),
];

/// The toolbar's change leaves uncommitted work alone.
pub const S27: [Row; 10] = [
    (
        Op::Say, Weight::Try, 0, 0, "",
        "  --- S27 the toolbar mutation leaves uncommitted work alone ---", "",
    ),
    (Op::AskNumber, Weight::Demand, 10, 0, "SELECT V FROM SQ_TM_T", "", "SELECT V"),
    (Op::Run, Weight::Demand, 99, 0, "UPDATE SQ_TM_T SET V = V + 1", "", ""),
    (Op::ToolbarMode, Weight::Try, 13, READ_ONLY, "", "", ""),
    (Op::RetainedState, Weight::Try, 12, 0, "", "", ""),
    (
        Op::Dirty, Weight::Check, 12, 0, "", "S27 the work is still uncommitted after the attempt",
        "mutation: {t13}; retained state = {t12}",
    ),
    (Op::Unpin, Weight::Try, 99, 0, "", "", ""),
    (Op::Run, Weight::Demand, 99, 0, "ROLLBACK", "", ""),
    (Op::AskNumber, Weight::Demand, 11, 0, "SELECT V FROM SQ_TM_T", "", "SELECT V"),
    (
        Op::SameNumber, Weight::Check, 11, 10, "",
        "S27 the work is still rollback-able after the attempt",
        "V {n10} -> {n11} (mutation: {t13})",
    ),
];

/// Every offered isolation level really applies.
pub const S28: [Row; 2] = [
    (
        Op::Say, Weight::Try, 0, 0, "",
        "  --- S28 every offered isolation level really applies ---", "",
    ),
    (Op::AttachOther, Weight::Demand, 13, 1, "", "", ""),
];

/// One level, pinned through the toolbar.
pub const S28_LEVEL: [Row; 5] = [
    (Op::Unpin, Weight::Try, 99, 0, "", "", ""),
    (Op::Run, Weight::Demand, 99, 0, "ROLLBACK", "", ""),
    (Op::Discard, Weight::Try, 99, 0, "", "", ""),
    (Op::ToolbarMode, Weight::Try, 14, HERE, "", "", ""),
    (Op::IsolationLabel, Weight::Try, 15, HERE, "", "", ""),
];

/// The level on the session variable.
pub const S28_VARIABLE: [Row; 2] = [
    (Op::Ask, Weight::Demand, 16, 0, "{t04}", "", ""),
    (
        Op::LevelIs, Weight::Check, 16, 15, "", "S28 {t15} is on the session",
        "session reported {q16} (retained outcome: {t14})",
    ),
];

/// A read of another session's uncommitted work.
pub const S28_UNCOMMITTED: [Row; 6] = [
    (Op::Run, Weight::Demand, 99, 1, "UPDATE SQ_TM_ISO SET V = V + 1000", "", ""),
    (Op::Ask, Weight::Demand, 10, 0, "SELECT V FROM SQ_TM_ISO", "", ""),
    (Op::Ask, Weight::Demand, 11, 1, "SELECT V FROM SQ_TM_ISO", "", ""),
    (Op::Run, Weight::Demand, 99, 1, "ROLLBACK", "", ""),
    (Op::Run, Weight::Demand, 99, 0, "ROLLBACK", "", ""),
    (
        Op::SameTrimmed, Weight::Check, 10, 11, "",
        "S28 READ UNCOMMITTED really reads uncommitted work",
        "the tab read {q10} while the other session held {q11} uncommitted",
    ),
];

/// A commit seen inside the transaction.
pub const S28_COMMITTED: [Row; 10] = [
    (Op::Run, Weight::Demand, 99, 0, "UPDATE SQ_TM_TXN SET V = V + 1", "", ""),
    (Op::Ask, Weight::Demand, 10, 0, "SELECT V FROM SQ_TM_ISO", "", ""),
    (Op::Run, Weight::Demand, 99, 1, "UPDATE SQ_TM_ISO SET V = V + 1", "", ""),
    (Op::Run, Weight::Demand, 99, 1, "COMMIT", "", ""),
    (Op::Ask, Weight::Demand, 11, 0, "SELECT V FROM SQ_TM_ISO", "", ""),
    (Op::Run, Weight::Demand, 99, 0, "ROLLBACK", "", ""),
    (Op::IsNumber, Weight::Demand, 10, 0, "", "", "SQ_TM_ISO read {q10}: {e10}"),
    (Op::IsNumber, Weight::Demand, 11, 0, "", "", "SQ_TM_ISO read {q11}: {e11}"),
    (Op::Run, Weight::Demand, 99, 0, "ROLLBACK", "", ""),
    (
        Op::More, Weight::Check, 10, 11, "",
        "S28 READ COMMITTED sees a commit inside its transaction",
        "reads bracketing the other session's commit: {n10} -> {n11}",
    ),
];

/// One transaction, one snapshot.
pub const S28_REPEATABLE: [Row; 10] = [
    (Op::Run, Weight::Demand, 99, 0, "UPDATE SQ_TM_TXN SET V = V + 1", "", ""),
    (Op::Ask, Weight::Demand, 10, 0, "SELECT V FROM SQ_TM_ISO", "", ""),
    (Op::Run, Weight::Demand, 99, 1, "UPDATE SQ_TM_ISO SET V = V + 1", "", ""),
    (Op::Run, Weight::Demand, 99, 1, "COMMIT", "", ""),
    (Op::Ask, Weight::Demand, 11, 0, "SELECT V FROM SQ_TM_ISO", "", ""),
    (Op::Run, Weight::Demand, 99, 0, "ROLLBACK", "", ""),
    (Op::IsNumber, Weight::Demand, 10, 0, "", "", "SQ_TM_ISO read {q10}: {e10}"),
    (Op::IsNumber, Weight::Demand, 11, 0, "", "", "SQ_TM_ISO read {q11}: {e11}"),
    (Op::Run, Weight::Demand, 99, 0, "ROLLBACK", "", ""),
    (
        Op::SameNumber, Weight::Check, 10, 11, "", "S28 REPEATABLE READ holds one snapshot",
        "reads bracketing the other session's commit: {n10} -> {n11}",
    ),
];

/// One transaction, one snapshot.
pub const S28_SERIALIZABLE: [Row; 10] = [
    (Op::Run, Weight::Demand, 99, 0, "UPDATE SQ_TM_TXN SET V = V + 1", "", ""),
    (Op::Ask, Weight::Demand, 10, 0, "SELECT V FROM SQ_TM_ISO", "", ""),
    (Op::Run, Weight::Demand, 99, 1, "UPDATE SQ_TM_ISO SET V = V + 1", "", ""),
    (Op::Run, Weight::Demand, 99, 1, "COMMIT", "", ""),
    (Op::Ask, Weight::Demand, 11, 0, "SELECT V FROM SQ_TM_ISO", "", ""),
    (Op::Run, Weight::Demand, 99, 0, "ROLLBACK", "", ""),
    (Op::IsNumber, Weight::Demand, 10, 0, "", "", "SQ_TM_ISO read {q10}: {e10}"),
    (Op::IsNumber, Weight::Demand, 11, 0, "", "", "SQ_TM_ISO read {q11}: {e11}"),
    (Op::Run, Weight::Demand, 99, 0, "ROLLBACK", "", ""),
    (
        Op::SameNumber, Weight::Check, 10, 11, "", "S28 SERIALIZABLE holds one snapshot",
        "reads bracketing the other session's commit: {n10} -> {n11}",
    ),
];

/// A READ ONLY pin refuses a locking read.
pub const S29: [Row; 13] = [
    (Op::Unpin, Weight::Try, 99, 0, "", "", ""),
    (Op::Run, Weight::Demand, 99, 0, "ROLLBACK", "", ""),
    (Op::Discard, Weight::Try, 99, 0, "", "", ""),
    (Op::Say, Weight::Try, 0, 0, "", "  --- S29 a READ ONLY pin refuses a locking read ---", ""),
    (Op::ToolbarMode, Weight::Try, 99, READ_ONLY, "", "", ""),
    (Op::Run, Weight::Demand, 11, 0, "SELECT V FROM SQ_TM_T FOR UPDATE", "", ""),
    (
        Op::FirstRefused, Weight::Check, 11, 0, "{t02}",
        "S29 the locking read is refused while the tab is READ ONLY",
        "locking read: {f11}; messages: {m11}",
    ),
    (Op::Run, Weight::Demand, 99, 0, "ROLLBACK", "", ""),
    (Op::Unpin, Weight::Try, 99, 0, "", "", ""),
    (Op::Discard, Weight::Try, 99, 0, "", "", ""),
    (Op::Run, Weight::Demand, 11, 0, "SELECT V FROM SQ_TM_T FOR UPDATE", "", ""),
    (
        Op::FirstSucceeded, Weight::Check, 11, 0, "",
        "S29 the same locking read runs once the pin is gone",
        "locking read after unpinning: {f11}",
    ),
    (Op::Run, Weight::Demand, 99, 0, "ROLLBACK", "", ""),
];

/// Explicit READ WRITE escapes cannot write.
pub const S30: [Row; 2] = [
    (
        Op::Say, Weight::Try, 0, 0, "",
        "  --- S30 explicit READ WRITE escapes cannot write on a READ ONLY tab ---", "",
    ),
    (Op::ToolbarMode, Weight::Try, 99, READ_ONLY, "", "", ""),
];

/// The escape runs, the write is refused.
pub const S30_ORACLE: [Row; 3] = [
    (
        Op::Run, Weight::Demand, 11, 0,
        "SET TRANSACTION READ WRITE;\nINSERT INTO SQ_TM_T VALUES (30);", "", "",
    ),
    (
        Op::InsertRefused, Weight::Check, 11, 0, "{t01}",
        "S30 the write after a one-shot READ WRITE is still refused", "insert result: {i11}",
    ),
    (Op::Run, Weight::Demand, 99, 0, "ROLLBACK", "", ""),
];

/// The escapes themselves are refused.
pub const S30_MYSQL: [Row; 7] = [
    (Op::Run, Weight::Demand, 11, 0, "SET TRANSACTION READ WRITE", "", ""),
    (
        Op::FirstFailed, Weight::Check, 11, 0, "",
        "S30 the one-shot READ WRITE escape is refused on a READ ONLY tab",
        "one-shot escape: {f11}",
    ),
    (Op::Run, Weight::Demand, 11, 0, "INSERT INTO SQ_TM_T VALUES (30)", "", ""),
    (
        Op::FirstFailed, Weight::Check, 11, 0, "",
        "S30 the write after the one-shot attempt is refused", "insert after one-shot: {f11}",
    ),
    (
        Op::Run, Weight::Demand, 11, 0,
        "START TRANSACTION READ WRITE;\nINSERT INTO SQ_TM_T VALUES (30);\nCOMMIT;", "", "",
    ),
    (
        Op::FirstFailed, Weight::Check, 11, 0, "",
        "S30 START TRANSACTION READ WRITE is refused on a READ ONLY tab",
        "start-transaction escape: {f11}",
    ),
    (Op::Run, Weight::Try, 99, 0, "ROLLBACK", "", ""),
];

/// No row landed.
pub const S30_LEAK: [Row; 5] = [
    (Op::Unpin, Weight::Try, 99, 0, "", "", ""),
    (Op::Discard, Weight::Try, 99, 0, "", "", ""),
    (Op::Ask, Weight::Demand, 10, 0, "SELECT COUNT(*) FROM SQ_TM_T WHERE V = 30", "", ""),
    (
        Op::ScalarIs, Weight::Check, 10, 0, "0",
        "S30 no row landed through an explicit READ WRITE escape", "COUNT(*) WHERE V = 30 = {t10}",
    ),
    (Op::Run, Weight::Demand, 99, 0, "ROLLBACK", "", ""),
];

/// A pin this database cannot express does not brick the tab.
pub const S31: [Row; 1] = [
    (
        Op::Say, Weight::Try, 0, 0, "",
        "  --- S31 a pin this database cannot express does not brick the tab ---", "",
    ),
];

/// A read-write pin reads and writes.
pub const S31_WRITES: [Row; 11] = [
    (Op::Unpin, Weight::Try, 99, 0, "", "", ""),
    (Op::Run, Weight::Demand, 99, 0, "ROLLBACK", "", ""),
    (Op::Discard, Weight::Try, 99, 0, "", "", ""),
    (Op::SelectionError, Weight::Try, 16, HERE, "", "", ""),
    (Op::Pin, Weight::Try, 99, HERE, "", "", ""),
    (Op::ModeLabel, Weight::Try, 15, HERE, "", "", ""),
    (Op::Run, Weight::Demand, 11, 0, "SELECT V FROM SQ_TM_T", "", ""),
    (
        Op::FirstSucceeded, Weight::Check, 11, 0, "",
        "S31 the tab still reads while pinned to {t15}", "select result: {f11}{w16}",
    ),
    (Op::Run, Weight::Demand, 11, 0, "INSERT INTO SQ_TM_T VALUES (31)", "", ""),
    (
        Op::FirstWorkedIs, Weight::Check, 11, 1, "",
        "S31 pinned to {t15} the tab writes exactly when it may",
        "write allowed = {y11}, expected true; result: {f11}{w16}",
    ),
    (Op::Run, Weight::Demand, 99, 0, "ROLLBACK", "", ""),
];

/// A read-only pin reads and does not write.
pub const S31_REFUSES: [Row; 11] = [
    (Op::Unpin, Weight::Try, 99, 0, "", "", ""),
    (Op::Run, Weight::Demand, 99, 0, "ROLLBACK", "", ""),
    (Op::Discard, Weight::Try, 99, 0, "", "", ""),
    (Op::SelectionError, Weight::Try, 16, HERE, "", "", ""),
    (Op::Pin, Weight::Try, 99, HERE, "", "", ""),
    (Op::ModeLabel, Weight::Try, 15, HERE, "", "", ""),
    (Op::Run, Weight::Demand, 11, 0, "SELECT V FROM SQ_TM_T", "", ""),
    (
        Op::FirstSucceeded, Weight::Check, 11, 0, "",
        "S31 the tab still reads while pinned to {t15}", "select result: {f11}{w16}",
    ),
    (Op::Run, Weight::Demand, 11, 0, "INSERT INTO SQ_TM_T VALUES (31)", "", ""),
    (
        Op::FirstWorkedIs, Weight::Check, 11, 0, "",
        "S31 pinned to {t15} the tab writes exactly when it may",
        "write allowed = {y11}, expected false; result: {f11}{w16}",
    ),
    (Op::Run, Weight::Demand, 99, 0, "ROLLBACK", "", ""),
];

/// No row survived.
pub const S31_LEAK: [Row; 5] = [
    (Op::Unpin, Weight::Try, 99, 0, "", "", ""),
    (Op::Discard, Weight::Try, 99, 0, "", "", ""),
    (Op::Ask, Weight::Demand, 10, 0, "SELECT COUNT(*) FROM SQ_TM_T WHERE V = 31", "", ""),
    (
        Op::ScalarIs, Weight::Check, 10, 0, "0", "S31 no row survived the pinned writes",
        "COUNT(*) WHERE V = 31 = {t10}",
    ),
    (Op::Run, Weight::Demand, 99, 0, "ROLLBACK", "", ""),
];

/// The pin survives a change of scope.
pub const S32: [Row; 10] = [
    (
        Op::Say, Weight::Try, 0, 0, "",
        "  --- S32 the tab's pinned mode survives a scope change ---", "",
    ),
    (Op::Unpin, Weight::Try, 99, 0, "", "", ""),
    (Op::Run, Weight::Demand, 99, 0, "ROLLBACK", "", ""),
    (Op::Run, Weight::Try, 99, 0, "{t25}", "", ""),
    (Op::Run, Weight::Demand, 11, 0, "{t24}", "", ""),
    (
        Op::FirstSucceeded, Weight::Demand, 11, 0, "", "",
        "S32 could not create the scratch scope: {g11}",
    ),
    (Op::ToolbarMode, Weight::Try, 99, READ_ONLY, "", "", ""),
    (Op::ChangeScope, Weight::Try, 13, 0, "SQ_TM_SCOPE", "", ""),
    (Op::Ask, Weight::Demand, 10, 0, "{t28}", "", ""),
    (
        Op::NamedAs, Weight::Check, 10, 0, "SQ_TM_SCOPE",
        "S32 the tab's session really moved to the new scope",
        "{t28} = {q10} (scope change: {t13})",
    ),
];

/// The session still carries the pin.
pub const S32_VARIABLE: [Row; 2] = [
    (Op::Ask, Weight::Demand, 10, 0, "{t03}", "", ""),
    (
        Op::ScalarOn, Weight::Check, 10, 0, "",
        "S32 the session still carries the pin after the scope change", "{t03} = {q10}",
    ),
];

/// The write in the new scope.
pub const S32_WRITE: [Row; 14] = [
    (Op::Run, Weight::Demand, 11, 0, "INSERT INTO {t29} VALUES (32)", "", ""),
    (
        Op::FirstRefused, Weight::Check, 11, 0, "{t01}",
        "S32 the write in the new scope is still refused", "insert in the new scope: {f11}",
    ),
    (Op::Run, Weight::Demand, 99, 0, "ROLLBACK", "", ""),
    (Op::Unpin, Weight::Try, 99, 0, "", "", ""),
    (Op::Discard, Weight::Try, 99, 0, "", "", ""),
    (Op::Run, Weight::Demand, 11, 0, "INSERT INTO {t29} VALUES (32)", "", ""),
    (
        Op::FirstSucceeded, Weight::Check, 11, 0, "",
        "S32 the same write runs in the new scope once the pin is gone",
        "insert after unpinning: {f11}",
    ),
    (Op::Run, Weight::Demand, 99, 0, "ROLLBACK", "", ""),
    (Op::ChangeScope, Weight::Try, 13, 0, "{t00}", "", ""),
    (Op::Discard, Weight::Try, 99, 0, "", "", ""),
    (Op::Ask, Weight::Demand, 10, 0, "{t28}", "", ""),
    (
        Op::NamedAs, Weight::Check, 10, 0, "{t00}", "S32 the tab is back in its own scope",
        "{t28} = {q10}",
    ),
    (Op::Run, Weight::Try, 99, 0, "{t25}", "", ""),
    (Op::Run, Weight::Demand, 99, 0, "ROLLBACK", "", ""),
];

/// A dirty session does not gate a scope change.
pub const S40: [Row; 20] = [
    (
        Op::Say, Weight::Try, 0, 0, "",
        "  --- S40 a dirty session does not gate a scope change ---", "",
    ),
    (Op::Unpin, Weight::Try, 99, 0, "", "", ""),
    (Op::Run, Weight::Try, 99, 0, "{t27}", "", ""),
    (Op::Run, Weight::Demand, 11, 0, "{t26}", "", ""),
    (
        Op::FirstSucceeded, Weight::Demand, 11, 0, "", "",
        "S40 could not create the scratch scope: {g11}",
    ),
    (Op::Run, Weight::Demand, 11, 0, "INSERT INTO {t29} VALUES (4001)", "", ""),
    (
        Op::FirstSucceeded, Weight::Check, 11, 0, "",
        "S40 the uncommitted write before the scope change succeeds", "insert result: {f11}",
    ),
    (Op::ChangeScope, Weight::Try, 13, 0, "SQ_TM_SCOPE2", "", ""),
    (
        Op::WordsHold, Weight::Check, 13, 0, "Applied",
        "S40 the scope change is applied over the uncommitted work", "scope change outcome: {t13}",
    ),
    (Op::Ask, Weight::Demand, 10, 0, "{t28}", "", ""),
    (
        Op::NamedAs, Weight::Check, 10, 0, "SQ_TM_SCOPE2",
        "S40 the tab's session really moved while the transaction stayed open", "{t28} = {q10}",
    ),
    (Op::Ask, Weight::Demand, 10, 0, "SELECT COUNT(*) FROM {t29} WHERE V = 4001", "", ""),
    (
        Op::ScalarIs, Weight::Check, 10, 0, "1",
        "S40 the uncommitted work survived the scope change on the same session",
        "rows visible to the transaction = {q10}",
    ),
    (Op::Run, Weight::Demand, 99, 0, "ROLLBACK", "", ""),
    (Op::Ask, Weight::Demand, 10, 0, "SELECT COUNT(*) FROM {t29} WHERE V = 4001", "", ""),
    (
        Op::ScalarIs, Weight::Check, 10, 0, "0",
        "S40 the work stayed rollback-able: nothing was committed by the scope change",
        "rows after ROLLBACK = {q10}",
    ),
    (Op::ChangeScope, Weight::Try, 13, 0, "{t00}", "", ""),
    (Op::Discard, Weight::Try, 99, 0, "", "", ""),
    (Op::Run, Weight::Try, 99, 0, "{t27}", "", ""),
    (Op::Run, Weight::Demand, 99, 0, "ROLLBACK", "", ""),
];

/// XA over a residual read transaction.
pub const S33: [Row; 4] = [
    (
        Op::Say, Weight::Try, 0, 0, "",
        "  --- S33 XA transactions respect the boundary and the pin ---", "",
    ),
    (Op::Unpin, Weight::Try, 99, 0, "", "", ""),
    (Op::Run, Weight::Demand, 99, 0, "ROLLBACK", "", ""),
    (Op::Run, Weight::Demand, 99, 0, "SELECT V FROM SQ_TM_T", "", ""),
];

/// XA transactions respect the boundary and the pin.
pub const S33_XA: [Row; 22] = [
    (
        Op::Run, Weight::Demand, 11, 0,
        "XA START 'sq33';\nINSERT INTO SQ_TM_T VALUES (33);\nXA END 'sq33';\nXA COMMIT 'sq33' ONE PHASE;",
        "", "",
    ),
    (
        Op::AllSucceeded, Weight::Check, 11, 0, "",
        "S33 the XA transaction runs over the session's residual read transaction",
        "failed statements: {x11}",
    ),
    (Op::Ask, Weight::Demand, 10, 0, "SELECT COUNT(*) FROM SQ_TM_T WHERE V = 33", "", ""),
    (
        Op::ScalarIs, Weight::Check, 10, 0, "1", "S33 the XA commit really landed",
        "rows with V=33: {q10}",
    ),
    (Op::Run, Weight::Demand, 99, 0, "DELETE FROM SQ_TM_T WHERE V = 33", "", ""),
    (Op::Run, Weight::Demand, 99, 0, "COMMIT", "", ""),
    (Op::Pin, Weight::Try, 99, READ_ONLY, "", "", ""),
    (
        Op::Run, Weight::Demand, 11, 0,
        "XA START 'sq33ro';\nINSERT INTO SQ_TM_T VALUES (34);\nXA END 'sq33ro';\nXA ROLLBACK 'sq33ro';",
        "", "",
    ),
    (
        Op::InsertFinished, Weight::Demand, 11, 0, "", "",
        "S33 XA read-only batch produced no INSERT result",
    ),
    (
        Op::InsertRefused, Weight::Check, 11, 0, "{t01}",
        "S33 the write inside the XA transaction is refused on the READ ONLY tab",
        "insert inside XA: {j11}",
    ),
    (
        Op::NoStatementHolds, Weight::Check, 11, 0, "XA END",
        "S33 the refusal stops the batch before the XA transaction ends",
        "batch results after the refusal: {b11}",
    ),
    (Op::Ask, Weight::Demand, 10, 0, "SELECT COUNT(*) FROM SQ_TM_T WHERE V = 34", "", ""),
    (
        Op::ScalarIs, Weight::Check, 10, 0, "0", "S33 no row escaped through the XA transaction",
        "rows with V=34: {q10}",
    ),
    (Op::Run, Weight::Demand, 11, 0, "XA END 'sq33ro';\nXA ROLLBACK 'sq33ro';", "", ""),
    (
        Op::AllSucceeded, Weight::Check, 11, 2, "",
        "S33 the XA verbs still recover the session after the refusal", "cleanup results: {s11}",
    ),
    (Op::Unpin, Weight::Try, 99, 0, "", "", ""),
    (Op::Run, Weight::Demand, 99, 0, "ROLLBACK", "", ""),
    (Op::Run, Weight::Demand, 99, 0, "XA START 'sq33x'", "", ""),
    (Op::Discard, Weight::Try, 99, 0, "", "", ""),
    (Op::Run, Weight::Demand, 11, 0, "SELECT V FROM SQ_TM_T", "", ""),
    (
        Op::FirstSucceeded, Weight::Check, 11, 0, "",
        "S33 discarding the session frees a tab stuck inside an XA transaction",
        "first statement after the discard: {f11}",
    ),
    (Op::Run, Weight::Demand, 99, 0, "ROLLBACK", "", ""),
];

/// The pinned isolation survives a DDL's implicit commit.
pub const S34: [Row; 4] = [
    (
        Op::Say, Weight::Try, 0, 0, "",
        "  --- S34 the pinned isolation survives a DDL's implicit commit ---", "",
    ),
    (Op::Unpin, Weight::Try, 99, 0, "", "", ""),
    (Op::Run, Weight::Demand, 99, 0, "ROLLBACK", "", ""),
    (Op::AttachOther, Weight::Demand, 13, 1, "", "", ""),
];

/// Reads after the DDL that bracket another session's commit.
pub const S34_READS: [Row; 16] = [
    (
        Op::Start, Weight::Try, 99, 0,
        "{t21};\nSELECT V FROM SQ_TM_ISO;\n{t20}\nSELECT V FROM SQ_TM_ISO;", "", "",
    ),
    (Op::PumpFor, Weight::Try, 99, 2500, "", "", ""),
    (Op::Run, Weight::Demand, 99, 1, "UPDATE SQ_TM_ISO SET V = V + 1", "", ""),
    (Op::Run, Weight::Demand, 99, 1, "COMMIT", "", ""),
    (Op::Finish, Weight::Demand, 12, 0, "", "", ""),
    (
        Op::AllSucceeded, Weight::Check, 12, 0, "", "S34 every statement of the DDL batch ran",
        "failed statements: {x12}",
    ),
    (
        Op::LastPairSame, Weight::Check, 12, 0, "",
        "S34 both reads after the DDL's implicit commit see one transaction snapshot",
        "reads in the batch: {r12} (the last two bracket the other session's commit; different values mean the pinned isolation was dropped by the DDL's implicit commit)",
    ),
    (Op::Run, Weight::Demand, 99, 0, "ROLLBACK", "", ""),
    (Op::Unpin, Weight::Try, 99, 0, "", "", ""),
    (Op::Ask, Weight::Demand, 10, 0, "SELECT V FROM SQ_TM_ISO", "", ""),
    (
        Op::AboveLastPair, Weight::Check, 10, 12, "",
        "S34 the other session's commit is visible to a new transaction",
        "SQ_TM_ISO after the batch = {q10}, in-batch reads {r12}",
    ),
    (Op::Run, Weight::Try, 99, 1, "ROLLBACK", "", ""),
    (Op::Discard, Weight::Try, 99, 1, "", "", ""),
    (Op::Unpin, Weight::Try, 99, 0, "", "", ""),
    (Op::Run, Weight::Demand, 99, 0, "ROLLBACK", "", ""),
    (Op::Discard, Weight::Try, 99, 0, "", "", ""),
];

/// Assignment spellings cannot escape a READ ONLY tab.
pub const S35: [Row; 5] = [
    (
        Op::Say, Weight::Try, 0, 0, "",
        "  --- S35 assignment spellings cannot escape a READ ONLY tab ---", "",
    ),
    (Op::ToolbarMode, Weight::Try, 99, READ_ONLY, "", "", ""),
    (
        Op::Run, Weight::Demand, 11, 0,
        "SET @@transaction_read_only = 0;\nINSERT INTO SQ_TM_T VALUES (35);", "", "",
    ),
    (
        Op::FirstRefused, Weight::Check, 11, 0, "read only mode blocks",
        "S35 the @@ one-shot escape is refused by the client gate",
        "one-shot assignment escape: {f11}",
    ),
    (
        Op::NoStatementHolds, Weight::Check, 11, 0, "INSERT",
        "S35 the refusal stops the batch before the write", "batch results: {b11}",
    ),
];

/// The statement-scoped spelling.
pub const S35_MARIADB: [Row; 2] = [
    (
        Op::Run, Weight::Demand, 11, 0,
        "SET STATEMENT transaction_read_only=0 FOR INSERT INTO SQ_TM_T VALUES (35)", "", "",
    ),
    (
        Op::FirstRefused, Weight::Check, 11, 0, "read only mode blocks",
        "S35 the SET STATEMENT escape is refused by the client gate", "SET STATEMENT escape: {f11}",
    ),
];

/// No row landed.
pub const S35_LEAK: [Row; 5] = [
    (Op::Unpin, Weight::Try, 99, 0, "", "", ""),
    (Op::Discard, Weight::Try, 99, 0, "", "", ""),
    (Op::Ask, Weight::Demand, 10, 0, "SELECT COUNT(*) FROM SQ_TM_T WHERE V = 35", "", ""),
    (
        Op::ScalarIs, Weight::Check, 10, 0, "0",
        "S35 no row landed through an assignment-spelling escape", "COUNT(*) WHERE V = 35 = {t10}",
    ),
    (Op::Run, Weight::Demand, 99, 0, "ROLLBACK", "", ""),
];

/// A read is left on the session.
pub const S36: [Row; 4] = [
    (
        Op::Say, Weight::Try, 0, 0, "", "  --- S36 the @@ one-shot works like SET TRANSACTION ---",
        "",
    ),
    (Op::Unpin, Weight::Try, 99, 0, "", "", ""),
    (Op::Discard, Weight::Try, 99, 0, "", "", ""),
    (Op::Run, Weight::Demand, 99, 0, "SELECT V FROM SQ_TM_T", "", ""),
];

/// The assignment one-shot works like SET TRANSACTION.
pub const S36_ONE_SHOT: [Row; 14] = [
    (Op::Run, Weight::Demand, 11, 0, "SET @@transaction_isolation = 'SERIALIZABLE'", "", ""),
    (
        Op::FirstSucceeded, Weight::Check, 11, 0, "",
        "S36 the isolation one-shot runs over the session's residual transaction",
        "one-shot assignment: {f11}",
    ),
    (Op::Override, Weight::Try, 12, 0, "", "", ""),
    (
        Op::UnpinnedAndQuiet, Weight::Check, 12, 11, "", "S36 the one-shot pins nothing on the tab",
        "override: {t12}, mode change events: {c11}",
    ),
    (Op::Run, Weight::Demand, 99, 0, "START TRANSACTION", "", ""),
    (Op::Run, Weight::Demand, 99, 0, "ROLLBACK", "", ""),
    (Op::Run, Weight::Demand, 11, 0, "SET @@transaction_read_only = 1", "", ""),
    (
        Op::FirstSucceeded, Weight::Check, 11, 0, "",
        "S36 the read-only one-shot runs on an unpinned tab", "read-only one-shot: {f11}",
    ),
    (Op::Run, Weight::Demand, 11, 0, "INSERT INTO SQ_TM_T VALUES (36)", "", ""),
    (
        Op::FirstRefused, Weight::Check, 11, 0, "read only transaction",
        "S36 the server refuses the one-shot's consumer write", "consumer write: {f11}",
    ),
    (Op::Discard, Weight::Try, 99, 0, "", "", ""),
    (Op::Run, Weight::Demand, 11, 0, "INSERT INTO SQ_TM_T VALUES (36)", "", ""),
    (
        Op::FirstSucceeded, Weight::Check, 11, 0, "",
        "S36 the tab writes again once the one-shot's session is resolved",
        "write after the one-shot: {f11}",
    ),
    (Op::Run, Weight::Demand, 99, 0, "ROLLBACK", "", ""),
];

/// An adoption the database cannot express is refused.
pub const S37: [Row; 30] = [
    (
        Op::Say, Weight::Try, 0, 0, "",
        "  --- S37 an adoption the database cannot express is refused ---", "",
    ),
    (Op::Pin, Weight::Try, 99, READ_ONLY, "", "", ""),
    (Op::Run, Weight::Demand, 11, 0, "ALTER SESSION SET ISOLATION_LEVEL = READ COMMITTED", "", ""),
    (
        Op::FirstSucceeded, Weight::Check, 11, 0, "",
        "S37 the ALTER SESSION statement itself succeeds", "result: {f11}",
    ),
    (Op::Override, Weight::Try, 12, 0, "", "", ""),
    (
        Op::PinnedMode, Weight::Check, 12, READ_ONLY, "",
        "S37 the tab override keeps the READ ONLY pin, not the merged pair", "override: {t12}",
    ),
    (
        Op::NoModeChange, Weight::Check, 11, 0, "",
        "S37 no TransactionModeChanged event fires for the refused adoption",
        "mode change events: {c11}",
    ),
    (Op::RetainedState, Weight::Try, 12, 0, "", "", ""),
    (
        Op::Residue, Weight::Check, 12, 0, "", "S37 the conservative session residue is kept",
        "retained state after the refused adoption = {t12}",
    ),
    (Op::Discard, Weight::Try, 99, 0, "", "", ""),
    (Op::AskNumber, Weight::Demand, 10, 0, "SELECT V FROM SQ_TM_T", "", "SELECT V"),
    (
        Op::NumberAtLeast, Weight::Check, 10, 1, "",
        "S37 the pinned tab still reads after the discard", "V = {n10}",
    ),
    (Op::Run, Weight::Demand, 11, 0, "INSERT INTO SQ_TM_T VALUES (37)", "", ""),
    (
        Op::FirstRefused, Weight::Check, 11, 0, "{t01}",
        "S37 the READ ONLY pin still refuses the write", "insert result: {f11}",
    ),
    (Op::Run, Weight::Demand, 99, 0, "ROLLBACK", "", ""),
    (Op::Discard, Weight::Try, 99, 0, "", "", ""),
    (
        Op::Say, Weight::Try, 0, 0, "",
        "  --- S37b a Serializable adoption over the READ ONLY pin goes through ---", "",
    ),
    (Op::Pin, Weight::Try, 99, READ_ONLY, "", "", ""),
    (Op::Run, Weight::Demand, 11, 0, "ALTER SESSION SET ISOLATION_LEVEL = SERIALIZABLE", "", ""),
    (
        Op::FirstSucceeded, Weight::Check, 11, 0, "", "S37b the ALTER SESSION statement succeeds",
        "result: {f11}",
    ),
    (Op::Override, Weight::Try, 12, 0, "", "", ""),
    (
        Op::PinnedMode, Weight::Check, 12, SERIALIZABLE_READ_ONLY, "",
        "S37b the tab adopts Serializable + Read only", "override: {t12}",
    ),
    (
        Op::LastModeChange, Weight::Check, 11, SERIALIZABLE_READ_ONLY, "",
        "S37b the adoption notifies the UI", "mode change events: {c11}",
    ),
    (Op::AskNumber, Weight::Demand, 10, 0, "SELECT V FROM SQ_TM_T", "", "SELECT V"),
    (Op::NumberAtLeast, Weight::Check, 10, 1, "", "S37b the adopted pair still reads", "V = {n10}"),
    (Op::Run, Weight::Demand, 11, 0, "INSERT INTO SQ_TM_T VALUES (37)", "", ""),
    (
        Op::FirstRefused, Weight::Check, 11, 0, "{t01}",
        "S37b the adopted pair still refuses the write", "insert result: {f11}",
    ),
    (Op::Run, Weight::Demand, 99, 0, "ROLLBACK", "", ""),
    (Op::Discard, Weight::Try, 99, 0, "", "", ""),
    (Op::Unpin, Weight::Try, 99, 0, "", "", ""),
];

/// A savepoint survives across executions.
pub const S38: [Row; 14] = [
    (
        Op::Say, Weight::Try, 0, 0, "",
        "  --- S38 a savepoint survives across executions under a pin ---", "",
    ),
    (Op::Pin, Weight::Try, 99, SERIALIZABLE, "", "", ""),
    (
        Op::Run, Weight::Demand, 11, 0,
        "INSERT INTO SQ_TM_T VALUES (3801);\nSAVEPOINT SQ_TM_SP;\nINSERT INTO SQ_TM_T VALUES (3802);\n",
        "", "",
    ),
    (
        Op::AllSucceeded, Weight::Check, 11, 3, "",
        "S38 the batch that creates the savepoint runs whole", "results: {a11}",
    ),
    (
        Op::Run, Weight::Demand, 11, 0,
        "ROLLBACK TO SAVEPOINT SQ_TM_SP;\nINSERT INTO SQ_TM_T VALUES (3803);\n", "", "",
    ),
    (
        Op::AllSucceeded, Weight::Check, 11, 2, "",
        "S38 the next execution still sees the savepoint", "results: {a11}",
    ),
    (
        Op::Ask, Weight::Demand, 10, 0, "SELECT COUNT(*) FROM SQ_TM_T WHERE V IN (3801, 3803)", "",
        "",
    ),
    (Op::Ask, Weight::Demand, 12, 0, "SELECT COUNT(*) FROM SQ_TM_T WHERE V = 3802", "", ""),
    (
        Op::ScalarsAre, Weight::Check, 10, 12, "2|0",
        "S38 the partial rollback kept exactly the rows outside the savepoint",
        "rows kept (3801,3803) = {q10}, rolled back (3802) = {q12}",
    ),
    (Op::Run, Weight::Demand, 99, 0, "ROLLBACK", "", ""),
    (
        Op::Ask, Weight::Demand, 10, 0,
        "SELECT COUNT(*) FROM SQ_TM_T WHERE V IN (3801, 3802, 3803)", "", "",
    ),
    (
        Op::ScalarIs, Weight::Check, 10, 0, "0",
        "S38 everything was one open transaction: the rollback takes it all back",
        "rows left after ROLLBACK = {q10}",
    ),
    (Op::Unpin, Weight::Try, 99, 0, "", "", ""),
    (Op::Discard, Weight::Try, 99, 0, "", "", ""),
];

/// COMMIT AND CHAIN keeps the chain and the pin.
pub const S39: [Row; 18] = [
    (
        Op::Say, Weight::Try, 0, 0, "",
        "  --- S39 COMMIT AND CHAIN keeps the chain and the pin ---", "",
    ),
    (Op::Pin, Weight::Try, 99, REPEATABLE, "", "", ""),
    (
        Op::Run, Weight::Demand, 11, 0,
        "START TRANSACTION;\nINSERT INTO SQ_TM_T VALUES (3901);\nCOMMIT AND CHAIN;\nINSERT INTO SQ_TM_T VALUES (3902);\n",
        "", "",
    ),
    (
        Op::AllSucceeded, Weight::Check, 11, 4, "", "S39 the chained batch runs whole",
        "results: {a11}",
    ),
    (Op::RetainedState, Weight::Try, 12, 0, "", "", ""),
    (
        Op::Dirty, Weight::Check, 12, 0, "",
        "S39 the chained transaction is tracked as open user work",
        "retained state after COMMIT AND CHAIN = {t12}",
    ),
    (Op::Run, Weight::Demand, 99, 0, "ROLLBACK", "", ""),
    (Op::Ask, Weight::Demand, 10, 0, "SELECT COUNT(*) FROM SQ_TM_T WHERE V = 3901", "", ""),
    (Op::Ask, Weight::Demand, 12, 0, "SELECT COUNT(*) FROM SQ_TM_T WHERE V = 3902", "", ""),
    (
        Op::ScalarsAre, Weight::Check, 10, 12, "1|0",
        "S39 AND CHAIN committed the first transaction and the rollback took the second",
        "committed (3901) = {q10}, chained (3902) = {q12}",
    ),
    (Op::Run, Weight::Demand, 99, 0, "DELETE FROM SQ_TM_T WHERE V = 3901", "", ""),
    (Op::Run, Weight::Demand, 99, 0, "COMMIT", "", ""),
    (Op::Pin, Weight::Try, 99, READ_ONLY, "", "", ""),
    (
        Op::Run, Weight::Demand, 11, 0,
        "SELECT V FROM SQ_TM_T;\nCOMMIT AND CHAIN;\nINSERT INTO SQ_TM_T VALUES (3903);\n", "", "",
    ),
    (
        Op::LastRefused, Weight::Check, 11, 3, "{t01}",
        "S39 the write after COMMIT AND CHAIN is still refused on a READ ONLY tab",
        "results: {a11}",
    ),
    (Op::Run, Weight::Demand, 99, 0, "ROLLBACK", "", ""),
    (Op::Unpin, Weight::Try, 99, 0, "", "", ""),
    (Op::Discard, Weight::Try, 99, 0, "", "", ""),
];

/// Auto-commit as it was.
pub const AUTO_COMMIT_BACK: [Row; 2] = [
    (Op::SetAutoCommit, Weight::Demand, 13, 1, "", "", "restore auto_commit: {z13}"),
    (Op::SyncAutoCommit, Weight::Try, 99, 1, "", "", ""),
];

/// The pin survives a script's CONNECT.
pub const S8: [Row; 7] = [
    (
        Op::Say, Weight::Try, 0, 0, "", "  --- S8 tab transaction mode survives script CONNECT ---",
        "",
    ),
    (Op::Pin, Weight::Try, 99, READ_ONLY, "", "", ""),
    (Op::Discard, Weight::Try, 99, 0, "", "", ""),
    (Op::Run, Weight::Demand, 11, 0, "{t08}", "", ""),
    (
        Op::AnyCaseInsertRefused, Weight::Check, 11, 0, "{t01}",
        "S8 pinned READ ONLY still refuses the write after CONNECT",
        "insert after CONNECT: {u11}; all results: {s11}; messages: {m11}",
    ),
    (Op::Run, Weight::Demand, 99, 0, "ROLLBACK", "", ""),
    (Op::Unpin, Weight::Try, 99, 0, "", "", ""),
];

/// The target's name.
pub const OPENING: [Row; 1] = [
    (Op::Say, Weight::Try, 0, 0, "", "\n########## {t07} ##########", ""),
];

/// Whatever happened, the tab is unpinned.
pub const UNPINNING: [Row; 2] = [
    (Op::Cleanup, Weight::Try, 0, 0, "", "", ""),
    (Op::Unpin, Weight::Try, 99, 0, "", "", ""),
];

/// The end.
pub const CLOSING: [Row; 1] = [
    (Op::Settled, Weight::Try, 0, 0, "", "", ""),
];

/// The truthful probe's transaction is ended first.
pub const MARIADB_ROLLBACK: [Row; 1] = [
    (Op::Run, Weight::Demand, 99, 0, "ROLLBACK", "", ""),
];

/// The texts that hold for Oracle, by slot.
pub const ORACLE_FACTS: [&'static str; 29] = [
    "",
    "read-only mode blocks",
    "read-only mode blocks|ora-01456",
    "",
    "",
    "ALTER SESSION SET ISOLATION_LEVEL = SERIALIZABLE",
    "SET TRANSACTION READ ONLY",
    "",
    "",
    "",
    "",
    "",
    "",
    "",
    "",
    "",
    "",
    "",
    "",
    "",
    "BEGIN DBMS_SESSION.SLEEP(6); END;\n/",
    "CREATE TABLE SQ_TM_DDL (V NUMBER)",
    "SELECT COUNT(*) FROM USER_TABLES WHERE TABLE_NAME = 'SQ_TM_DDL'",
    "SELECT COUNT(*) FROM all_objects a, all_objects b, all_objects c",
    "CREATE USER SQ_TM_SCOPE IDENTIFIED BY pw1",
    "DROP USER SQ_TM_SCOPE CASCADE",
    "CREATE USER SQ_TM_SCOPE2 IDENTIFIED BY pw1",
    "DROP USER SQ_TM_SCOPE2 CASCADE",
    "SELECT SYS_CONTEXT('USERENV', 'CURRENT_SCHEMA') FROM DUAL",
];

/// The texts that hold for MySQL, by slot.
pub const MYSQL_FACTS: [&'static str; 29] = [
    "",
    "read only",
    "read only",
    "SELECT @@transaction_read_only",
    "SELECT @@transaction_isolation",
    "SET SESSION TRANSACTION ISOLATION LEVEL SERIALIZABLE",
    "SET TRANSACTION ISOLATION LEVEL SERIALIZABLE",
    "",
    "",
    "",
    "",
    "",
    "",
    "",
    "",
    "",
    "",
    "",
    "",
    "",
    "DO SLEEP(6);",
    "CREATE TABLE SQ_TM_DDL (V INT)",
    "SELECT COUNT(*) FROM information_schema.tables WHERE table_schema = DATABASE() AND table_name = 'SQ_TM_DDL'",
    "SELECT SLEEP(20)",
    "CREATE DATABASE SQ_TM_SCOPE",
    "DROP DATABASE IF EXISTS SQ_TM_SCOPE",
    "CREATE DATABASE SQ_TM_SCOPE2",
    "DROP DATABASE IF EXISTS SQ_TM_SCOPE2",
    "SELECT DATABASE()",
];

/// The texts that hold for MariaDB, by slot.
pub const MARIADB_FACTS: [&'static str; 29] = [
    "",
    "read only",
    "read only",
    "SELECT @@tx_read_only",
    "SELECT @@tx_isolation",
    "SET SESSION TRANSACTION ISOLATION LEVEL SERIALIZABLE",
    "SET TRANSACTION ISOLATION LEVEL SERIALIZABLE",
    "",
    "",
    "",
    "",
    "",
    "",
    "",
    "",
    "",
    "",
    "",
    "",
    "",
    "DO SLEEP(6);",
    "CREATE TABLE SQ_TM_DDL (V INT)",
    "SELECT COUNT(*) FROM information_schema.tables WHERE table_schema = DATABASE() AND table_name = 'SQ_TM_DDL'",
    "SELECT SLEEP(20)",
    "CREATE DATABASE SQ_TM_SCOPE",
    "DROP DATABASE IF EXISTS SQ_TM_SCOPE",
    "CREATE DATABASE SQ_TM_SCOPE2",
    "DROP DATABASE IF EXISTS SQ_TM_SCOPE2",
    "SELECT DATABASE()",
];

/// What sets the scenarios up on Oracle.
pub const ORACLE_SETUP: [&'static str; 12] = [
    "DROP TABLE SQ_TM_T",
    "DROP TABLE SQ_TM_ISO",
    "DROP TABLE SQ_TM_TXN",
    "DROP TABLE SQ_TM_DDL",
    "CREATE TABLE SQ_TM_T (V NUMBER)",
    "INSERT INTO SQ_TM_T VALUES (1)",
    "CREATE TABLE SQ_TM_ISO (V NUMBER)",
    "INSERT INTO SQ_TM_ISO VALUES (100)",
    "CREATE TABLE SQ_TM_TXN (V NUMBER)",
    "INSERT INTO SQ_TM_TXN VALUES (0)",
    "CREATE TABLE SQ_TM_BIG AS SELECT LEVEL AS V FROM DUAL CONNECT BY LEVEL <= 500",
    "COMMIT",
];

/// What sets the scenarios up on the MySQL family.
pub const MYSQL_SETUP: [&'static str; 13] = [
    "DROP TABLE IF EXISTS SQ_TM_T",
    "DROP TABLE IF EXISTS SQ_TM_ISO",
    "DROP TABLE IF EXISTS SQ_TM_TXN",
    "DROP TABLE IF EXISTS SQ_TM_DDL",
    "CREATE TABLE SQ_TM_T (V INT)",
    "INSERT INTO SQ_TM_T VALUES (1)",
    "CREATE TABLE SQ_TM_ISO (V INT)",
    "INSERT INTO SQ_TM_ISO VALUES (100)",
    "CREATE TABLE SQ_TM_TXN (V INT)",
    "INSERT INTO SQ_TM_TXN VALUES (0)",
    "CREATE TABLE SQ_TM_BIG (V INT)",
    "INSERT INTO SQ_TM_BIG (V) WITH RECURSIVE seq AS (SELECT 1 AS n UNION ALL SELECT n + 1 FROM seq WHERE n < 500) SELECT n FROM seq",
    "COMMIT",
];

/// What takes the scenarios down on Oracle.
pub const ORACLE_TEARDOWN: [&'static str; 5] = [
    "DROP TABLE SQ_TM_T",
    "DROP TABLE SQ_TM_ISO",
    "DROP TABLE SQ_TM_TXN",
    "DROP TABLE SQ_TM_DDL",
    "DROP TABLE SQ_TM_BIG",
];

/// What takes the scenarios down on the MySQL family.
pub const MYSQL_TEARDOWN: [&'static str; 5] = [
    "DROP TABLE IF EXISTS SQ_TM_T",
    "DROP TABLE IF EXISTS SQ_TM_ISO",
    "DROP TABLE IF EXISTS SQ_TM_TXN",
    "DROP TABLE IF EXISTS SQ_TM_DDL",
    "DROP TABLE IF EXISTS SQ_TM_BIG",
];

} // verus!
