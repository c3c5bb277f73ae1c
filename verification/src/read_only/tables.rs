//! The statements and steps of the read-only probe.
use vstd::prelude::*;

use crate::machine::{Row, Weight};
use crate::op::Op;
use crate::read_only::{ROW_CHANGE, STRUCTURAL, UNRUNNABLE};

verus! {

/// The writes on Oracle: what each is, its statement, and its kind.
pub const ORACLE_WRITES: [(&'static str, &'static str, usize); 19] = [
    ("INSERT", "INSERT INTO OQT_READ_ONLY (ID, NAME) VALUES (99, 'NEW')", ROW_CHANGE),
    ("UPDATE", "UPDATE OQT_READ_ONLY SET NAME = 'CHANGED'", ROW_CHANGE),
    ("DELETE", "DELETE FROM OQT_READ_ONLY", ROW_CHANGE),
    ("a write buried in a script of reads", "SELECT 1 FROM DUAL; DELETE FROM OQT_READ_ONLY", ROW_CHANGE),
    ("a write behind a comment that looks like a read", "/* SELECT */ DELETE FROM OQT_READ_ONLY", ROW_CHANGE),
    ("CREATE TABLE", "CREATE TABLE OQT_READ_ONLY_X (ID INT)", STRUCTURAL),
    ("DROP TABLE", "DROP TABLE OQT_READ_ONLY", STRUCTURAL),
    ("TRUNCATE", "TRUNCATE TABLE OQT_READ_ONLY", STRUCTURAL),
    ("ALTER TABLE", "ALTER TABLE OQT_READ_ONLY ADD EXTRA_COL INT", STRUCTURAL),
    ("SELECT ... FOR UPDATE", "SELECT * FROM OQT_READ_ONLY FOR UPDATE", ROW_CHANGE),
    ("a PL/SQL block", "BEGIN DELETE FROM OQT_READ_ONLY; END;", ROW_CHANGE),
    ("a DECLARE block", "DECLARE n NUMBER; BEGIN DELETE FROM OQT_READ_ONLY; END;", ROW_CHANGE),
    ("MERGE", "MERGE INTO OQT_READ_ONLY t USING (SELECT 1 AS ID FROM DUAL) s ON (t.ID = s.ID) WHEN MATCHED THEN UPDATE SET t.NAME = 'MERGED'", ROW_CHANGE),
    ("INSERT ALL", "INSERT ALL INTO OQT_READ_ONLY (ID, NAME) VALUES (97, 'A') INTO OQT_READ_ONLY (ID, NAME) VALUES (98, 'B') SELECT 1 FROM DUAL", ROW_CHANGE),
    ("CREATE OR REPLACE PROCEDURE", "CREATE OR REPLACE PROCEDURE OQT_READ_ONLY_P AS BEGIN NULL; END;", STRUCTURAL),
    ("GRANT", "GRANT SELECT ON OQT_READ_ONLY TO PUBLIC", STRUCTURAL),
    ("EXPLAIN PLAN (writes to PLAN_TABLE)", "EXPLAIN PLAN FOR SELECT * FROM OQT_READ_ONLY", ROW_CHANGE),
    ("a script include", "@somewhere.sql", UNRUNNABLE),
    ("a SQL*Plus CONNECT", "CONNECT other/pw@127.0.0.1:1521/FREE", UNRUNNABLE),
];

/// The writes on the MySQL family.
pub const MYSQL_WRITES: [(&'static str, &'static str, usize); 17] = [
    ("INSERT", "INSERT INTO OQT_READ_ONLY (ID, NAME) VALUES (99, 'NEW')", ROW_CHANGE),
    ("UPDATE", "UPDATE OQT_READ_ONLY SET NAME = 'CHANGED'", ROW_CHANGE),
    ("DELETE", "DELETE FROM OQT_READ_ONLY", ROW_CHANGE),
    ("a write buried in a script of reads", "SELECT 1 FROM DUAL; DELETE FROM OQT_READ_ONLY", ROW_CHANGE),
    ("a write behind a comment that looks like a read", "/* SELECT */ DELETE FROM OQT_READ_ONLY", ROW_CHANGE),
    ("CREATE TABLE", "CREATE TABLE OQT_READ_ONLY_X (ID INT)", STRUCTURAL),
    ("DROP TABLE", "DROP TABLE OQT_READ_ONLY", STRUCTURAL),
    ("TRUNCATE", "TRUNCATE TABLE OQT_READ_ONLY", STRUCTURAL),
    ("ALTER TABLE", "ALTER TABLE OQT_READ_ONLY ADD EXTRA_COL INT", STRUCTURAL),
    ("SELECT ... FOR UPDATE", "SELECT * FROM OQT_READ_ONLY FOR UPDATE", ROW_CHANGE),
    ("REPLACE INTO", "REPLACE INTO OQT_READ_ONLY (ID, NAME) VALUES (1, 'REPLACED')", ROW_CHANGE),
    ("INSERT ... ON DUPLICATE KEY UPDATE", "INSERT INTO OQT_READ_ONLY (ID, NAME) VALUES (1, 'X') ON DUPLICATE KEY UPDATE NAME = 'DUP'", ROW_CHANGE),
    ("a write inside an executable comment", "/*! DELETE FROM OQT_READ_ONLY */", ROW_CHANGE),
    ("RENAME TABLE", "RENAME TABLE OQT_READ_ONLY TO OQT_READ_ONLY_X", STRUCTURAL),
    ("CREATE PROCEDURE", "CREATE PROCEDURE OQT_READ_ONLY_P() BEGIN SELECT 1; END", STRUCTURAL),
    ("a script include", "@somewhere.sql", UNRUNNABLE),
    ("a SQL*Plus CONNECT", "CONNECT other/pw@127.0.0.1:1521/FREE", UNRUNNABLE),
];

/// The reads on Oracle; `{t06}` stands for the schema.
pub const ORACLE_READS: [(&'static str, &'static str); 7] = [
    ("SELECT", "SELECT ID, NAME FROM OQT_READ_ONLY ORDER BY ID"),
    ("a WITH query", "WITH t AS (SELECT ID FROM OQT_READ_ONLY) SELECT COUNT(*) AS N FROM t"),
    ("several SELECTs at once", "SELECT 1 FROM DUAL; SELECT 2 FROM DUAL"),
    ("a scalar subquery and a join", "SELECT a.ID, (SELECT COUNT(*) FROM OQT_READ_ONLY) AS N FROM OQT_READ_ONLY a JOIN OQT_READ_ONLY b ON a.ID = b.ID"),
    ("COMMIT", "COMMIT"),
    ("ROLLBACK", "ROLLBACK"),
    ("ALTER SESSION SET CURRENT_SCHEMA", "ALTER SESSION SET CURRENT_SCHEMA = {t06}"),
];

/// The reads on the MySQL family; `{t06}` stands for the schema.
pub const MYSQL_READS: [(&'static str, &'static str); 10] = [
    ("SELECT", "SELECT ID, NAME FROM OQT_READ_ONLY ORDER BY ID"),
    ("a WITH query", "WITH t AS (SELECT ID FROM OQT_READ_ONLY) SELECT COUNT(*) AS N FROM t"),
    ("several SELECTs at once", "SELECT 1 FROM DUAL; SELECT 2 FROM DUAL"),
    ("a scalar subquery and a join", "SELECT a.ID, (SELECT COUNT(*) FROM OQT_READ_ONLY) AS N FROM OQT_READ_ONLY a JOIN OQT_READ_ONLY b ON a.ID = b.ID"),
    ("COMMIT", "COMMIT"),
    ("ROLLBACK", "ROLLBACK"),
    ("SHOW TABLES", "SHOW TABLES"),
    ("USE", "USE {t06}"),
    ("DESCRIBE", "DESCRIBE OQT_READ_ONLY"),
    ("EXPLAIN", "EXPLAIN SELECT * FROM OQT_READ_ONLY"),
];

/// What the probe may leave behind on Oracle.
pub const ORACLE_CLEANUP: [&'static str; 3] = [
    "DROP PROCEDURE OQT_READ_ONLY_P",
    "DROP TABLE OQT_READ_ONLY_X",
    "DROP TABLE OQT_READ_ONLY",
];

/// What the probe may leave behind on the MySQL family.
pub const MYSQL_CLEANUP: [&'static str; 3] = [
    "DROP PROCEDURE IF EXISTS OQT_READ_ONLY_P",
    "DROP TABLE IF EXISTS OQT_READ_ONLY_X",
    "DROP TABLE IF EXISTS OQT_READ_ONLY",
];

/// The writable connection.
pub const OPENING: [Row; 2] = [
    (Op::Say, Weight::Try, 0, 0, "", "\n########## {t05} ##########", ""),
    (Op::ConnectWriter, Weight::Leave, 13, 0, "", "", "connect: {z13}"),
];

pub const COMMITTING: [Row; 1] = [
    (Op::Execute, Weight::Try, 99, 0, "COMMIT", "", ""),
];

/// The table, with three rows.
pub const FIXTURE: [Row; 5] = [
    (Op::Execute, Weight::Leave, 13, 0, "{t01}", "", "create: {z13}"),
    (
        Op::Execute, Weight::Leave, 13, 0,
        "INSERT INTO OQT_READ_ONLY (ID, NAME) VALUES (1, 'ROW1')", "", "insert 1: {z13}",
    ),
    (
        Op::Execute, Weight::Leave, 13, 0,
        "INSERT INTO OQT_READ_ONLY (ID, NAME) VALUES (2, 'ROW2')", "", "insert 2: {z13}",
    ),
    (
        Op::Execute, Weight::Leave, 13, 0,
        "INSERT INTO OQT_READ_ONLY (ID, NAME) VALUES (3, 'ROW3')", "", "insert 3: {z13}",
    ),
    (Op::Execute, Weight::Leave, 99, 0, "COMMIT", "", ""),
];

pub const CONTROL_HEAD: [Row; 1] = [
    (
        Op::Say, Weight::Try, 0, 0, "",
        "-- control: the same statements on a writable connection --", "",
    ),
];

/// A write that cannot be run here.
pub const NOT_DEMONSTRABLE: [Row; 1] = [
    (Op::Say, Weight::Try, 0, 0, "", "SKIP: {t03} is not demonstrable in this harness", ""),
];

/// One write, on the writable connection: it really is one.
pub const CONTROL: [Row; 3] = [
    (
        Op::Execute, Weight::Leave, 13, 0, "{t04}", "",
        "control: a writable connection could not run {t03} ({t04}): {z13}",
    ),
    (Op::Execute, Weight::Try, 99, 0, "COMMIT", "", ""),
    (Op::Say, Weight::Try, 0, 0, "", "PASS: {t03} really is a write this backend accepts", ""),
];

/// The count before, and the connection under test.
pub const BASELINE: [Row; 4] = [
    (Op::CountRows, Weight::Leave, 10, 0, "SELECT COUNT(*) AS N FROM OQT_READ_ONLY", "", ""),
    (
        Op::Say, Weight::Try, 0, 0, "",
        "\n-- guarded: the same statements on a read-only connection --", "",
    ),
    (Op::Say, Weight::Try, 0, 0, "", "(baseline: {t10} rows)", ""),
    (Op::ConnectGuarded, Weight::Leave, 13, 0, "", "", "connect: {z13}"),
];

/// One write, on the read-only connection: it is refused and changes nothing.
pub const GUARDED: [Row; 5] = [
    (Op::Attempt, Weight::Try, 11, 1, "{t04}", "", ""),
    (Op::NothingRan, Weight::Leave, 11, 0, "", "", "{t03} was allowed to run: {t04}"),
    (Op::CountRows, Weight::Leave, 12, 0, "SELECT COUNT(*) AS N FROM OQT_READ_ONLY", "", ""),
    (
        Op::SameNumber, Weight::Leave, 12, 10, "", "",
        "{t03} changed the database: {t10} rows became {t12}",
    ),
    (Op::Say, Weight::Try, 0, 0, "", "PASS: {t03} was refused and the database is unchanged", ""),
];

/// Nothing was created, renamed, altered or dropped; the server is as it was.
pub const AFTERWARDS: [Row; 20] = [
    (
        Op::Execute, Weight::Leave, 13, 0, "SELECT COUNT(*) AS N FROM OQT_READ_ONLY", "",
        "the table the guard was told not to drop or rename is gone: {z13}",
    ),
    (Op::Execute, Weight::Try, 13, 0, "SELECT COUNT(*) AS N FROM OQT_READ_ONLY_X", "", ""),
    (
        Op::DidNotRun, Weight::Leave, 13, 0, "", "",
        "the refused CREATE TABLE or RENAME was executed after all",
    ),
    (Op::Execute, Weight::Try, 13, 0, "SELECT EXTRA_COL FROM OQT_READ_ONLY", "", ""),
    (Op::DidNotRun, Weight::Leave, 13, 0, "", "", "the refused ALTER TABLE was executed after all"),
    (Op::Say, Weight::Try, 0, 0, "", "PASS: nothing was created, renamed, altered or dropped", ""),
    (Op::Say, Weight::Try, 0, 0, "", "\n-- a statement that reconfigures the server --", ""),
    (Op::AskScalar, Weight::Leave, 14, 0, "{t07}", "", ""),
    (Op::Attempt, Weight::Try, 11, 1, "{t08}{+14}{t09}", "", ""),
    (
        Op::NothingRan, Weight::Leave, 11, 0, "", "",
        "a read-only connection was allowed to run {t08}{+14}{t09}",
    ),
    (Op::AskScalar, Weight::Leave, 15, 0, "{t07}", "", ""),
    (
        Op::SameNumber, Weight::Leave, 15, 14, "", "",
        "the refused statement reached the server after all: {t07} went from {t14} to {t15}",
    ),
    (
        Op::Say, Weight::Try, 0, 0, "",
        "PASS: the server reconfiguration was refused and the setting is unchanged", "",
    ),
    (
        Op::Execute, Weight::Leave, 13, 0, "{t08}{+14}{t09}", "",
        "the writable connection could not change the setting: {z13}",
    ),
    (Op::AskScalar, Weight::Leave, 15, 0, "{t07}", "", ""),
    (Op::Execute, Weight::Try, 99, 0, "{t08}{t14}{t09}", "", ""),
    (
        Op::OneMore, Weight::Leave, 14, 15, "", "",
        "the control run did not change the setting either, so the refusal proves nothing: {t07} = {t15}",
    ),
    (Op::AskScalar, Weight::Leave, 15, 0, "{t07}", "", ""),
    (Op::SameNumber, Weight::Leave, 15, 14, "", "", "the server setting was not restored"),
    (
        Op::Say, Weight::Try, 0, 0, "",
        "PASS: the same statement runs on a writable connection, so the guard refused it", "",
    ),
];

pub const READS_HEAD: [Row; 1] = [
    (
        Op::Say, Weight::Try, 0, 0, "", "\n-- reads must still run on the read-only connection --",
        "",
    ),
];

/// The writable connection still writes.
pub const STILL_WRITABLE: [Row; 5] = [
    (
        Op::Execute, Weight::Leave, 13, 0,
        "INSERT INTO OQT_READ_ONLY (ID, NAME) VALUES (42, 'STILL WRITABLE')", "",
        "the writable connection stopped writing: {z13}",
    ),
    (Op::Execute, Weight::Leave, 99, 0, "COMMIT", "", ""),
    (Op::CountRows, Weight::Leave, 12, 0, "SELECT COUNT(*) AS N FROM OQT_READ_ONLY", "", ""),
    (Op::OneMore, Weight::Leave, 10, 12, "", "", "the writable connection's INSERT did not land"),
    (
        Op::Say, Weight::Try, 0, 0, "",
        "PASS: a writable connection in the same process is unaffected", "",
    ),
];

} // verus!
