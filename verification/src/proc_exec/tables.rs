//! The steps of the routine-execution probes.
use vstd::prelude::*;

use crate::machine::{Row, Weight};
use crate::op::{Op, DEFAULT_MODE, READ_ONLY};

verus! {

/// One call of a routine: it succeeds, and leaves nothing that blocks the next query.
pub const PROBE: [Row; 18] = [
    (Op::Run, Weight::Leave, 11, 0, "{t09}", "", ""),
    (Op::Finished, Weight::Leave, 11, 0, "", "", "{t08}: no terminal StatementFinished"),
    (Op::SessionState, Weight::Try, 12, 0, "", "", ""),
    (Op::NextBlocked, Weight::Try, 13, 0, "BEGIN NULL; END;", "", ""),
    (Op::NextBlocked, Weight::Try, 14, 0, "SELECT 1 FROM dual", "", ""),
    (Op::Say, Weight::Try, 0, 0, "", "  [{t08}]", ""),
    (Op::Say, Weight::Try, 0, 0, "", "    sql                = {q09}", ""),
    (Op::Say, Weight::Try, 0, 0, "", "    success            = {X11}  msg={p11}", ""),
    (Op::Say, Weight::Try, 0, 0, "", "    event.cancelled    = {W11}", ""),
    (Op::Say, Weight::Try, 0, 0, "", "    retained_state     = {t12}", ""),
    (Op::Say, Weight::Try, 0, 0, "", "    next PL/SQL blocked= {G13}", ""),
    (Op::Say, Weight::Try, 0, 0, "", "    next SELECT blocked= {G14}", ""),
    (Op::Run, Weight::Try, 99, 0, "COMMIT", "", ""),
    (Op::LastSucceeded, Weight::Leave, 11, 0, "", "", "{t08}: statement did not succeed"),
    (
        Op::NotCancelled, Weight::Leave, 11, 0, "", "",
        "{t08}: BUG - successful statement reported as cancelled",
    ),
    (
        Op::NotYes, Weight::Leave, 13, 0, "", "",
        "{t08}: BUG - successful statement blocks the next query (pops discard/commit/rollback)",
    ),
    (
        Op::NotYes, Weight::Leave, 14, 0, "", "",
        "{t08}: BUG - successful statement blocks the next query (pops discard/commit/rollback)",
    ),
    (Op::Say, Weight::Try, 0, 0, "", "    OK", ""),
];

/// A clean session to start from.
pub const OPENING: [Row; 4] = [
    (Op::Say, Weight::Try, 0, 0, "", "\n########## {t05} ##########", ""),
    (Op::AutoCommitNow, Weight::Try, 12, 0, "", "", ""),
    (Op::Say, Weight::Try, 0, 0, "", "(default mode; auto_commit={t12})", ""),
    (Op::Run, Weight::Try, 99, 0, "COMMIT", "", ""),
];

/// The state before any probe.
pub const BEFORE_PROBES: [Row; 3] = [
    (Op::Run, Weight::Try, 99, 0, "COMMIT", "", ""),
    (Op::SessionState, Weight::Try, 12, 0, "", "", ""),
    (Op::Say, Weight::Try, 0, 0, "", "(retained state before any proc/func run = {t12})", ""),
];

/// A tab pinned READ ONLY refuses a routine that writes, and no other.
pub const READ_ONLY_ROUTINE: [Row; 42] = [
    (
        Op::Say, Weight::Try, 0, 0, "",
        "  [read-only tab vs the object browser's Execute Procedure]", "",
    ),
    (Op::Run, Weight::Try, 99, 0, "COMMIT", "", ""),
    (Op::AskCount, Weight::Leave, 10, 0, "SELECT COUNT(*) AS N FROM SQ_RO_PROC_T", "", ""),
    (Op::Run, Weight::Try, 99, 0, "COMMIT", "", ""),
    (Op::Discard, Weight::Try, 99, 0, "", "", ""),
    (Op::PinLikeToolbar, Weight::Leave, 99, READ_ONLY, "", "", ""),
    (Op::Run, Weight::Leave, 11, 0, "{t01}", "", ""),
    (Op::Finished, Weight::Leave, 11, 0, "", "", "read-only routine call: no terminal result"),
    (Op::Say, Weight::Try, 0, 0, "", "    pinned READ ONLY: success={X11} msg={p11}", ""),
    (
        Op::LastFailed, Weight::Leave, 11, 0, "", "",
        "BUG: a writing routine executed on a tab pinned READ ONLY",
    ),
    (
        Op::LastSays, Weight::Leave, 11, 0, "{t03}", "",
        "the routine was refused for the wrong reason: {p11}",
    ),
    (Op::Run, Weight::Leave, 12, 0, "{t02}", "", ""),
    (Op::Finished, Weight::Leave, 12, 0, "", "", "read-only function call: no terminal result"),
    (
        Op::Say, Weight::Try, 0, 0, "",
        "    pinned READ ONLY, reading routine: success={X12} msg={p12}", "",
    ),
    (
        Op::LastSucceeded, Weight::Leave, 12, 0, "", "",
        "BUG: a READ ONLY pin also blocked a routine that only reads: {p12}",
    ),
    (Op::AskCount, Weight::Leave, 13, 0, "SELECT COUNT(*) AS N FROM SQ_RO_PROC_T", "", ""),
    (Op::Run, Weight::Try, 99, 0, "ROLLBACK", "", ""),
    (
        Op::SameNumber, Weight::Leave, 13, 10, "", "",
        "BUG: the refused routine wrote anyway (COUNT(*) {t10} -> {t13})",
    ),
    (Op::Say, Weight::Try, 0, 0, "", "    OK: refused, and nothing was written", ""),
    (Op::Discard, Weight::Try, 99, 0, "", "", ""),
    (Op::PinLikeToolbar, Weight::Leave, 99, DEFAULT_MODE, "", "", ""),
    (Op::Unpin, Weight::Try, 99, 0, "", "", ""),
    (Op::Run, Weight::Leave, 11, 0, "{t01}", "", ""),
    (Op::Finished, Weight::Leave, 11, 0, "", "", "unpinned routine call: no terminal result"),
    (
        Op::LastSucceeded, Weight::Leave, 11, 0, "", "",
        "unpinning did not let the same routine through: {p11}",
    ),
    (Op::Run, Weight::Try, 99, 0, "COMMIT", "", ""),
    (Op::AskCount, Weight::Leave, 13, 0, "SELECT COUNT(*) AS N FROM SQ_RO_PROC_T", "", ""),
    (
        Op::OneMore, Weight::Leave, 10, 13, "", "",
        "the unpinned routine did not write (COUNT(*) {t10} -> {t13})",
    ),
    (Op::Run, Weight::Try, 99, 0, "COMMIT", "", ""),
    (Op::Say, Weight::Try, 0, 0, "", "    OK: the same routine writes once the pin is removed", ""),
    (Op::AskCount, Weight::Leave, 10, 0, "SELECT COUNT(*) AS N FROM SQ_RO_PROC_T", "", ""),
    (Op::Discard, Weight::Try, 99, 0, "", "", ""),
    (Op::TabAutoCommit, Weight::Try, 99, 1, "", "", ""),
    (Op::Run, Weight::Leave, 11, 0, "{t01}", "", ""),
    (Op::Finished, Weight::Leave, 11, 0, "", "", "auto-commit routine call: no terminal result"),
    (
        Op::LastSucceeded, Weight::Leave, 11, 0, "", "",
        "the routine failed on an auto-commit tab: {p11}",
    ),
    (Op::TabAutoCommit, Weight::Try, 99, 0, "", "", ""),
    (Op::Run, Weight::Try, 99, 0, "ROLLBACK", "", ""),
    (Op::AskCount, Weight::Leave, 13, 0, "SELECT COUNT(*) AS N FROM SQ_RO_PROC_T", "", ""),
    (
        Op::OneMore, Weight::Leave, 10, 13, "", "",
        "BUG: a routine call on an auto-commit tab did not commit (COUNT(*) {t10} -> {t13} after ROLLBACK)",
    ),
    (Op::Run, Weight::Try, 99, 0, "COMMIT", "", ""),
    (
        Op::Say, Weight::Try, 0, 0, "",
        "    OK: a routine call on an auto-commit tab survived a later ROLLBACK", "",
    ),
];

/// A parameter name at the identifier limit, through the standalone fetch.
pub const LONG_NAME: [Row; 21] = [
    (
        Op::Say, Weight::Try, 0, 0, "",
        "  [generation round-trip: identifier-limit parameter name, standalone fetch]", "",
    ),
    (
        Op::Run, Weight::Leave, 11, 0,
        "CREATE OR REPLACE PROCEDURE SQ_GEN_LONGP(P_AAAAAAAAAAAAAAAAAAAAAAAAAAAAAAAAAAAAAAAAAAAAAAAAAAAAAAAAAAAAAAAAAAAAAAAAAAAAAAAAAAAAAAAAAAAAAAAAAAAAAAAAAAAAAAAAAAAAAAAAAAAAAA IN NUMBER, P_AAAAAAAAAAAAAAAAAAAAAAAAAAAAAAAAAAAAAAAAAAAAAAAAAAAAAAAAAAAAAAAAAAAAAAAAAAAAAAAAAAAAAAAAAAAAAAAAAAAAAAAAAAAAAAAAAAAAAAAAAAAAAB OUT NUMBER) IS\nBEGIN\n  P_AAAAAAAAAAAAAAAAAAAAAAAAAAAAAAAAAAAAAAAAAAAAAAAAAAAAAAAAAAAAAAAAAAAAAAAAAAAAAAAAAAAAAAAAAAAAAAAAAAAAAAAAAAAAAAAAAAAAAAAAAAAAAB := NVL(P_AAAAAAAAAAAAAAAAAAAAAAAAAAAAAAAAAAAAAAAAAAAAAAAAAAAAAAAAAAAAAAAAAAAAAAAAAAAAAAAAAAAAAAAAAAAAAAAAAAAAAAAAAAAAAAAAAAAAAAAAAAAAAA, 0) + 5;\nEND;",
        "", "",
    ),
    (Op::Finished, Weight::Leave, 11, 0, "", "", "long-name setup: no result"),
    (Op::LastSucceeded, Weight::Leave, 11, 0, "", "", "long-name setup failed: {p11}"),
    (Op::Run, Weight::Try, 99, 0, "COMMIT", "", ""),
    (Op::FetchStandalone, Weight::Demand, 12, 0, "SQ_GEN_LONGP", "", ""),
    (
        Op::ArgumentsAre, Weight::Demand, 12, 2, "", "",
        "standalone argument fetch returned {Z12} rows, want 2",
    ),
    (
        Op::BuildScript, Weight::Demand, 13, 12, "SQ_GEN_LONGP|PROCEDURE",
        "    --- SQ_GEN_LONGP script ---\n{t13}", "",
    ),
    (
        Op::NamesWithinLimit, Weight::Demand, 13, 0, "", "",
        "generated name is {B13} bytes, over Oracle's identifier limit: {T13}",
    ),
    (
        Op::WordsHold, Weight::Demand, 13, 0,
        "P_AAAAAAAAAAAAAAAAAAAAAAAAAAAAAAAAAAAAAAAAAAAAAAAAAAAAAAAAAAAAAAAAAAAAAAAAAAAAAAAAAAAAAAAAAAAAAAAAAAAAAAAAAAAAAAAAAAAAAAAAAAAAAA => ",
        "",
        "script lost the parameter name P_AAAAAAAAAAAAAAAAAAAAAAAAAAAAAAAAAAAAAAAAAAAAAAAAAAAAAAAAAAAAAAAAAAAAAAAAAAAAAAAAAAAAAAAAAAAAAAAAAAAAAAAAAAAAAAAAAAAAAAAAAAAAAA",
    ),
    (
        Op::WordsHold, Weight::Demand, 13, 0,
        "P_AAAAAAAAAAAAAAAAAAAAAAAAAAAAAAAAAAAAAAAAAAAAAAAAAAAAAAAAAAAAAAAAAAAAAAAAAAAAAAAAAAAAAAAAAAAAAAAAAAAAAAAAAAAAAAAAAAAAAAAAAAAAAB => ",
        "",
        "script lost the parameter name P_AAAAAAAAAAAAAAAAAAAAAAAAAAAAAAAAAAAAAAAAAAAAAAAAAAAAAAAAAAAAAAAAAAAAAAAAAAAAAAAAAAAAAAAAAAAAAAAAAAAAAAAAAAAAAAAAAAAAAAAAAAAAAB",
    ),
    (Op::RunScript, Weight::Demand, 11, 0, "{t13}", "", ""),
    (
        Op::NoFailure, Weight::Demand, 11, 0, "", "",
        "SQ_GEN_LONGP: generated script statement failed: {k11}",
    ),
    (
        Op::Finished, Weight::Demand, 11, 0, "", "",
        "SQ_GEN_LONGP: generated script ran no statements",
    ),
    (
        Op::ScriptSays, Weight::Demand, 11, 0, "= 5", "",
        "the long-name script ran but never showed the OUT value (messages: {v11})",
    ),
    (Op::Run, Weight::Try, 99, 0, "COMMIT", "", ""),
    (
        Op::Say, Weight::Try, 0, 0, "",
        "    OK: an identifier-limit parameter name still generates a script that runs", "",
    ),
    (Op::Cleanup, Weight::Try, 0, 0, "", "", ""),
    (Op::Run, Weight::Try, 99, 0, "DROP PROCEDURE SQ_GEN_LONGP", "", ""),
    (Op::Run, Weight::Try, 99, 0, "COMMIT", "", ""),
    (Op::Settled, Weight::Try, 0, 0, "", "", ""),
];

/// Generated scripts for composite argument shapes run.
pub const ORACLE_GENERATION: [Row; 181] = [
    (Op::Say, Weight::Try, 0, 0, "", "  [generation round-trip: composite argument shapes]", ""),
    (
        Op::Run, Weight::Leave, 11, 0,
        "CREATE OR REPLACE TYPE SQ_GEN_OBJ AS OBJECT (id NUMBER, label VARCHAR2(20))", "", "",
    ),
    (
        Op::Finished, Weight::Leave, 11, 0, "", "",
        "setup \"CREATE OR REPLACE TYPE SQ_GEN_OBJ AS OBJECT (id NUMBER, label VARCHAR2(20))\": no result",
    ),
    (
        Op::LastSucceeded, Weight::Leave, 11, 0, "", "",
        "generation setup failed: {p11} for \"CREATE OR REPLACE TYPE SQ_GEN_OBJ AS OBJECT (id NUMBER, label VARCHAR2(20))\"",
    ),
    (
        Op::Run, Weight::Leave, 11, 0,
        "CREATE OR REPLACE PACKAGE SQ_GEN_PKG AS\n  c_doc CONSTANT VARCHAR2(100) := q'[don't run PROCEDURE phantom now]';\n  TYPE t_rec IS RECORD (id NUMBER, name VARCHAR2(10));\n  TYPE t_tab IS TABLE OF NUMBER INDEX BY PLS_INTEGER;\n  TYPE t_cur IS REF CURSOR RETURN t_rec;\n  PROCEDURE p_shapes(r IN t_rec, t IN t_tab, u IN all_users%ROWTYPE, o IN SQ_GEN_OBJ, rf IN REF SQ_GEN_OBJ, n IN NUMBER, msg OUT VARCHAR2);\n  PROCEDURE p_cur(rc OUT t_cur, min_id IN NUMBER);\n  PROCEDURE p_quoted(\"my arg\" IN NUMBER, \"lower\" OUT VARCHAR2);\n  PROCEDURE p_both(n IN OUT NUMBER, msg IN OUT VARCHAR2, doc OUT CLOB, d OUT DATE, ts OUT TIMESTAMP);\n  PROCEDURE p_lob(doc IN OUT CLOB);\n  PROCEDURE p_none;\n  FUNCTION f_add(a IN NUMBER, b IN NUMBER) RETURN NUMBER;\n  FUNCTION f_long RETURN VARCHAR2;\n  FUNCTION f_out(x OUT NUMBER) RETURN NUMBER;\n  PROCEDURE p_types(t01 IN NCLOB, t02 IN BLOB, t03 IN BFILE, t04 IN LONG, t05 IN ROWID, t06 IN INTERVAL DAY TO SECOND, t07 IN TIMESTAMP WITH TIME ZONE, t08 IN BINARY_DOUBLE, t09 IN PLS_INTEGER, t10 IN BOOLEAN, t11 IN NVARCHAR2, t12 IN NCHAR, t13 IN XMLTYPE, t14 IN RAW, t15 OUT NCLOB);\n  FUNCTION f_none RETURN NUMBER;\n  PROCEDURE dup(a IN NUMBER);\n  FUNCTION dup(b IN VARCHAR2) RETURN NUMBER;\nEND;",
        "", "",
    ),
    (
        Op::Finished, Weight::Leave, 11, 0, "", "",
        "setup \"CREATE OR REPLACE PACKAGE SQ_GEN_PKG AS\\n  c_doc CONSTANT VARCHAR2(100) := q'[don't run PROCEDURE phantom now]';\\n  TYPE t_rec IS RECORD (id NUMBER, name VARCHAR2(10));\\n  TYPE t_tab IS TABLE OF NUMBER INDEX BY PLS_INTEGER;\\n  TYPE t_cur IS REF CURSOR RETURN t_rec;\\n  PROCEDURE p_shapes(r IN t_rec, t IN t_tab, u IN all_users%ROWTYPE, o IN SQ_GEN_OBJ, rf IN REF SQ_GEN_OBJ, n IN NUMBER, msg OUT VARCHAR2);\\n  PROCEDURE p_cur(rc OUT t_cur, min_id IN NUMBER);\\n  PROCEDURE p_quoted(\\\"my arg\\\" IN NUMBER, \\\"lower\\\" OUT VARCHAR2);\\n  PROCEDURE p_both(n IN OUT NUMBER, msg IN OUT VARCHAR2, doc OUT CLOB, d OUT DATE, ts OUT TIMESTAMP);\\n  PROCEDURE p_lob(doc IN OUT CLOB);\\n  PROCEDURE p_none;\\n  FUNCTION f_add(a IN NUMBER, b IN NUMBER) RETURN NUMBER;\\n  FUNCTION f_long RETURN VARCHAR2;\\n  FUNCTION f_out(x OUT NUMBER) RETURN NUMBER;\\n  PROCEDURE p_types(t01 IN NCLOB, t02 IN BLOB, t03 IN BFILE, t04 IN LONG, t05 IN ROWID, t06 IN INTERVAL DAY TO SECOND, t07 IN TIMESTAMP WITH TIME ZONE, t08 IN BINARY_DOUBLE, t09 IN PLS_INTEGER, t10 IN BOOLEAN, t11 IN NVARCHAR2, t12 IN NCHAR, t13 IN XMLTYPE, t14 IN RAW, t15 OUT NCLOB);\\n  FUNCTION f_none RETURN NUMBER;\\n  PROCEDURE dup(a IN NUMBER);\\n  FUNCTION dup(b IN VARCHAR2) RETURN NUMBER;\\nEND;\": no result",
    ),
    (
        Op::LastSucceeded, Weight::Leave, 11, 0, "", "",
        "generation setup failed: {p11} for \"CREATE OR REPLACE PACKAGE SQ_GEN_PKG AS\\n  c_doc CONSTANT VARCHAR2(100) := q'[don't run PROCEDURE phantom now]';\\n  TYPE t_rec IS RECORD (id NUMBER, name VARCHAR2(10));\\n  TYPE t_tab IS TABLE OF NUMBER INDEX BY PLS_INTEGER;\\n  TYPE t_cur IS REF CURSOR RETURN t_rec;\\n  PROCEDURE p_shapes(r IN t_rec, t IN t_tab, u IN all_users%ROWTYPE, o IN SQ_GEN_OBJ, rf IN REF SQ_GEN_OBJ, n IN NUMBER, msg OUT VARCHAR2);\\n  PROCEDURE p_cur(rc OUT t_cur, min_id IN NUMBER);\\n  PROCEDURE p_quoted(\\\"my arg\\\" IN NUMBER, \\\"lower\\\" OUT VARCHAR2);\\n  PROCEDURE p_both(n IN OUT NUMBER, msg IN OUT VARCHAR2, doc OUT CLOB, d OUT DATE, ts OUT TIMESTAMP);\\n  PROCEDURE p_lob(doc IN OUT CLOB);\\n  PROCEDURE p_none;\\n  FUNCTION f_add(a IN NUMBER, b IN NUMBER) RETURN NUMBER;\\n  FUNCTION f_long RETURN VARCHAR2;\\n  FUNCTION f_out(x OUT NUMBER) RETURN NUMBER;\\n  PROCEDURE p_types(t01 IN NCLOB, t02 IN BLOB, t03 IN BFILE, t04 IN LONG, t05 IN ROWID, t06 IN INTERVAL DAY TO SECOND, t07 IN TIMESTAMP WITH TIME ZONE, t08 IN BINARY_DOUBLE, t09 IN PLS_INTEGER, t10 IN BOOLEAN, t11 IN NVARCHAR2, t12 IN NCHAR, t13 IN XMLTYPE, t14 IN RAW, t15 OUT NCLOB);\\n  FUNCTION f_none RETURN NUMBER;\\n  PROCEDURE dup(a IN NUMBER);\\n  FUNCTION dup(b IN VARCHAR2) RETURN NUMBER;\\nEND;\"",
    ),
    (
        Op::Run, Weight::Leave, 11, 0,
        "CREATE OR REPLACE PACKAGE BODY SQ_GEN_PKG AS\n  PROCEDURE p_shapes(r IN t_rec, t IN t_tab, u IN all_users%ROWTYPE, o IN SQ_GEN_OBJ, rf IN REF SQ_GEN_OBJ, n IN NUMBER, msg OUT VARCHAR2) IS\n  BEGIN\n    msg := 'ok:' || TO_CHAR(n);\n  END;\n  PROCEDURE p_cur(rc OUT t_cur, min_id IN NUMBER) IS\n  BEGIN\n    OPEN rc FOR SELECT min_id AS id, 'x' AS name FROM dual;\n  END;\n  PROCEDURE p_quoted(\"my arg\" IN NUMBER, \"lower\" OUT VARCHAR2) IS\n  BEGIN\n    \"lower\" := TO_CHAR(\"my arg\");\n  END;\n  PROCEDURE p_both(n IN OUT NUMBER, msg IN OUT VARCHAR2, doc OUT CLOB, d OUT DATE, ts OUT TIMESTAMP) IS\n  BEGIN\n    n := NVL(n, -1) + 7;\n    msg := 'seen:' || TO_CHAR(n);\n    doc := TO_CLOB('c:' || TO_CHAR(n));\n    d := DATE '2020-01-02';\n    ts := TIMESTAMP '2020-01-02 03:04:05';\n  END;\n  PROCEDURE p_lob(doc IN OUT CLOB) IS\n  BEGIN\n    doc := doc || TO_CLOB('lob-ok');\n  END;\n  PROCEDURE p_none IS\n  BEGIN\n    NULL;\n  END;\n  FUNCTION f_add(a IN NUMBER, b IN NUMBER) RETURN NUMBER IS\n  BEGIN\n    RETURN a + b;\n  END;\n  FUNCTION f_long RETURN VARCHAR2 IS\n  BEGIN\n    RETURN RPAD('x', 8000, 'x');\n  END;\n  FUNCTION f_out(x OUT NUMBER) RETURN NUMBER IS\n  BEGIN\n    x := 11;\n    RETURN 22;\n  END;\n  PROCEDURE p_types(t01 IN NCLOB, t02 IN BLOB, t03 IN BFILE, t04 IN LONG, t05 IN ROWID, t06 IN INTERVAL DAY TO SECOND, t07 IN TIMESTAMP WITH TIME ZONE, t08 IN BINARY_DOUBLE, t09 IN PLS_INTEGER, t10 IN BOOLEAN, t11 IN NVARCHAR2, t12 IN NCHAR, t13 IN XMLTYPE, t14 IN RAW, t15 OUT NCLOB) IS\n  BEGIN\n    t15 := TO_NCLOB('types-ok');\n  END;\n  FUNCTION f_none RETURN NUMBER IS\n  BEGIN\n    RETURN 42;\n  END;\n  PROCEDURE dup(a IN NUMBER) IS\n  BEGIN\n    NULL;\n  END;\n  FUNCTION dup(b IN VARCHAR2) RETURN NUMBER IS\n  BEGIN\n    RETURN LENGTH(b);\n  END;\nEND;",
        "", "",
    ),
    (
        Op::Finished, Weight::Leave, 11, 0, "", "",
        "setup \"CREATE OR REPLACE PACKAGE BODY SQ_GEN_PKG AS\\n  PROCEDURE p_shapes(r IN t_rec, t IN t_tab, u IN all_users%ROWTYPE, o IN SQ_GEN_OBJ, rf IN REF SQ_GEN_OBJ, n IN NUMBER, msg OUT VARCHAR2) IS\\n  BEGIN\\n    msg := 'ok:' || TO_CHAR(n);\\n  END;\\n  PROCEDURE p_cur(rc OUT t_cur, min_id IN NUMBER) IS\\n  BEGIN\\n    OPEN rc FOR SELECT min_id AS id, 'x' AS name FROM dual;\\n  END;\\n  PROCEDURE p_quoted(\\\"my arg\\\" IN NUMBER, \\\"lower\\\" OUT VARCHAR2) IS\\n  BEGIN\\n    \\\"lower\\\" := TO_CHAR(\\\"my arg\\\");\\n  END;\\n  PROCEDURE p_both(n IN OUT NUMBER, msg IN OUT VARCHAR2, doc OUT CLOB, d OUT DATE, ts OUT TIMESTAMP) IS\\n  BEGIN\\n    n := NVL(n, -1) + 7;\\n    msg := 'seen:' || TO_CHAR(n);\\n    doc := TO_CLOB('c:' || TO_CHAR(n));\\n    d := DATE '2020-01-02';\\n    ts := TIMESTAMP '2020-01-02 03:04:05';\\n  END;\\n  PROCEDURE p_lob(doc IN OUT CLOB) IS\\n  BEGIN\\n    doc := doc || TO_CLOB('lob-ok');\\n  END;\\n  PROCEDURE p_none IS\\n  BEGIN\\n    NULL;\\n  END;\\n  FUNCTION f_add(a IN NUMBER, b IN NUMBER) RETURN NUMBER IS\\n  BEGIN\\n    RETURN a + b;\\n  END;\\n  FUNCTION f_long RETURN VARCHAR2 IS\\n  BEGIN\\n    RETURN RPAD('x', 8000, 'x');\\n  END;\\n  FUNCTION f_out(x OUT NUMBER) RETURN NUMBER IS\\n  BEGIN\\n    x := 11;\\n    RETURN 22;\\n  END;\\n  PROCEDURE p_types(t01 IN NCLOB, t02 IN BLOB, t03 IN BFILE, t04 IN LONG, t05 IN ROWID, t06 IN INTERVAL DAY TO SECOND, t07 IN TIMESTAMP WITH TIME ZONE, t08 IN BINARY_DOUBLE, t09 IN PLS_INTEGER, t10 IN BOOLEAN, t11 IN NVARCHAR2, t12 IN NCHAR, t13 IN XMLTYPE, t14 IN RAW, t15 OUT NCLOB) IS\\n  BEGIN\\n    t15 := TO_NCLOB('types-ok');\\n  END;\\n  FUNCTION f_none RETURN NUMBER IS\\n  BEGIN\\n    RETURN 42;\\n  END;\\n  PROCEDURE dup(a IN NUMBER) IS\\n  BEGIN\\n    NULL;\\n  END;\\n  FUNCTION dup(b IN VARCHAR2) RETURN NUMBER IS\\n  BEGIN\\n    RETURN LENGTH(b);\\n  END;\\nEND;\": no result",
    ),
    (
        Op::LastSucceeded, Weight::Leave, 11, 0, "", "",
        "generation setup failed: {p11} for \"CREATE OR REPLACE PACKAGE BODY SQ_GEN_PKG AS\\n  PROCEDURE p_shapes(r IN t_rec, t IN t_tab, u IN all_users%ROWTYPE, o IN SQ_GEN_OBJ, rf IN REF SQ_GEN_OBJ, n IN NUMBER, msg OUT VARCHAR2) IS\\n  BEGIN\\n    msg := 'ok:' || TO_CHAR(n);\\n  END;\\n  PROCEDURE p_cur(rc OUT t_cur, min_id IN NUMBER) IS\\n  BEGIN\\n    OPEN rc FOR SELECT min_id AS id, 'x' AS name FROM dual;\\n  END;\\n  PROCEDURE p_quoted(\\\"my arg\\\" IN NUMBER, \\\"lower\\\" OUT VARCHAR2) IS\\n  BEGIN\\n    \\\"lower\\\" := TO_CHAR(\\\"my arg\\\");\\n  END;\\n  PROCEDURE p_both(n IN OUT NUMBER, msg IN OUT VARCHAR2, doc OUT CLOB, d OUT DATE, ts OUT TIMESTAMP) IS\\n  BEGIN\\n    n := NVL(n, -1) + 7;\\n    msg := 'seen:' || TO_CHAR(n);\\n    doc := TO_CLOB('c:' || TO_CHAR(n));\\n    d := DATE '2020-01-02';\\n    ts := TIMESTAMP '2020-01-02 03:04:05';\\n  END;\\n  PROCEDURE p_lob(doc IN OUT CLOB) IS\\n  BEGIN\\n    doc := doc || TO_CLOB('lob-ok');\\n  END;\\n  PROCEDURE p_none IS\\n  BEGIN\\n    NULL;\\n  END;\\n  FUNCTION f_add(a IN NUMBER, b IN NUMBER) RETURN NUMBER IS\\n  BEGIN\\n    RETURN a + b;\\n  END;\\n  FUNCTION f_long RETURN VARCHAR2 IS\\n  BEGIN\\n    RETURN RPAD('x', 8000, 'x');\\n  END;\\n  FUNCTION f_out(x OUT NUMBER) RETURN NUMBER IS\\n  BEGIN\\n    x := 11;\\n    RETURN 22;\\n  END;\\n  PROCEDURE p_types(t01 IN NCLOB, t02 IN BLOB, t03 IN BFILE, t04 IN LONG, t05 IN ROWID, t06 IN INTERVAL DAY TO SECOND, t07 IN TIMESTAMP WITH TIME ZONE, t08 IN BINARY_DOUBLE, t09 IN PLS_INTEGER, t10 IN BOOLEAN, t11 IN NVARCHAR2, t12 IN NCHAR, t13 IN XMLTYPE, t14 IN RAW, t15 OUT NCLOB) IS\\n  BEGIN\\n    t15 := TO_NCLOB('types-ok');\\n  END;\\n  FUNCTION f_none RETURN NUMBER IS\\n  BEGIN\\n    RETURN 42;\\n  END;\\n  PROCEDURE dup(a IN NUMBER) IS\\n  BEGIN\\n    NULL;\\n  END;\\n  FUNCTION dup(b IN VARCHAR2) RETURN NUMBER IS\\n  BEGIN\\n    RETURN LENGTH(b);\\n  END;\\nEND;\"",
    ),
    (Op::Run, Weight::Try, 99, 0, "COMMIT", "", ""),
    (Op::ListRoutines, Weight::Leave, 14, 0, "SQ_GEN_PKG", "", ""),
    (
        Op::Lists, Weight::Leave, 14, 0, "P_SHAPES|PROCEDURE", "",
        "package listing lost (\"P_SHAPES\", \"PROCEDURE\"): got {P14}",
    ),
    (
        Op::Lists, Weight::Leave, 14, 0, "P_CUR|PROCEDURE", "",
        "package listing lost (\"P_CUR\", \"PROCEDURE\"): got {P14}",
    ),
    (
        Op::Lists, Weight::Leave, 14, 0, "P_QUOTED|PROCEDURE", "",
        "package listing lost (\"P_QUOTED\", \"PROCEDURE\"): got {P14}",
    ),
    (
        Op::Lists, Weight::Leave, 14, 0, "F_ADD|FUNCTION", "",
        "package listing lost (\"F_ADD\", \"FUNCTION\"): got {P14}",
    ),
    (
        Op::ListsNot, Weight::Leave, 14, 0, "PHANTOM", "",
        "package listing invented a routine from a q-quoted literal: {P14}",
    ),
    (
        Op::Say, Weight::Try, 0, 0, "", "    OK: package listing survives a q-quoted spec constant",
        "",
    ),
    (Op::FetchMember, Weight::Leave, 12, 0, "SQ_GEN_PKG|P_SHAPES", "", ""),
    (Op::SomeArguments, Weight::Demand, 12, 0, "", "", "P_SHAPES: argument fetch returned nothing"),
    (
        Op::BuildScript, Weight::Leave, 13, 12, "SQ_GEN_PKG.P_SHAPES|PROCEDURE",
        "    --- P_SHAPES script ---\n{t13}", "",
    ),
    (
        Op::WordsLack, Weight::Demand, 13, 0, "PL/SQL", "",
        "P_SHAPES: script still spells a dictionary keyword as a type",
    ),
    (Op::WordsHold, Weight::Demand, 13, 0, ".T_REC;", "", "P_SHAPES: script lacks \".T_REC;\""),
    (Op::WordsHold, Weight::Demand, 13, 0, ".T_TAB;", "", "P_SHAPES: script lacks \".T_TAB;\""),
    (
        Op::WordsHold, Weight::Demand, 13, 0, "ALL_USERS%ROWTYPE;", "",
        "P_SHAPES: script lacks \"ALL_USERS%ROWTYPE;\"",
    ),
    (
        Op::WordsHold, Weight::Demand, 13, 0, "SQ_GEN_OBJ;", "",
        "P_SHAPES: script lacks \"SQ_GEN_OBJ;\"",
    ),
    (
        Op::WordsHold, Weight::Demand, 13, 0, "  v_rf REF ", "",
        "P_SHAPES: script lacks \"  v_rf REF \"",
    ),
    (Op::RunScript, Weight::Leave, 11, 0, "{t13}", "", ""),
    (
        Op::NoFailure, Weight::Demand, 11, 0, "", "",
        "P_SHAPES: generated script statement failed: {k11}",
    ),
    (Op::Finished, Weight::Demand, 11, 0, "", "", "P_SHAPES: generated script ran no statements"),
    (
        Op::ScriptSays, Weight::Demand, 11, 0, ":V_MSG = ok:0", "",
        "P_SHAPES: the script ran but never showed the user \":V_MSG = ok:0\" (messages: {v11})",
    ),
    (Op::Run, Weight::Try, 99, 0, "COMMIT", "", ""),
    (Op::Say, Weight::Try, 0, 0, "", "    OK: P_SHAPES generated script ran", ""),
    (Op::FetchMember, Weight::Leave, 12, 0, "SQ_GEN_PKG|P_CUR", "", ""),
    (Op::SomeArguments, Weight::Demand, 12, 0, "", "", "P_CUR: argument fetch returned nothing"),
    (
        Op::BuildScript, Weight::Leave, 13, 12, "SQ_GEN_PKG.P_CUR|PROCEDURE",
        "    --- P_CUR script ---\n{t13}", "",
    ),
    (
        Op::WordsLack, Weight::Demand, 13, 0, "PL/SQL", "",
        "P_CUR: script still spells a dictionary keyword as a type",
    ),
    (
        Op::WordsHold, Weight::Demand, 13, 0, "VAR v_rc REFCURSOR", "",
        "P_CUR: script lacks \"VAR v_rc REFCURSOR\"",
    ),
    (
        Op::WordsHold, Weight::Demand, 13, 0, "RC => :v_rc", "",
        "P_CUR: script lacks \"RC => :v_rc\"",
    ),
    (Op::RunScript, Weight::Leave, 11, 0, "{t13}", "", ""),
    (
        Op::NoFailure, Weight::Demand, 11, 0, "", "",
        "P_CUR: generated script statement failed: {k11}",
    ),
    (Op::Finished, Weight::Demand, 11, 0, "", "", "P_CUR: generated script ran no statements"),
    (Op::Run, Weight::Try, 99, 0, "COMMIT", "", ""),
    (Op::Say, Weight::Try, 0, 0, "", "    OK: P_CUR generated script ran", ""),
    (Op::FetchMember, Weight::Leave, 12, 0, "SQ_GEN_PKG|P_QUOTED", "", ""),
    (Op::SomeArguments, Weight::Demand, 12, 0, "", "", "P_QUOTED: argument fetch returned nothing"),
    (
        Op::BuildScript, Weight::Leave, 13, 12, "SQ_GEN_PKG.P_QUOTED|PROCEDURE",
        "    --- P_QUOTED script ---\n{t13}", "",
    ),
    (
        Op::WordsLack, Weight::Demand, 13, 0, "PL/SQL", "",
        "P_QUOTED: script still spells a dictionary keyword as a type",
    ),
    (
        Op::WordsHold, Weight::Demand, 13, 0, "\"my arg\" => ", "",
        "P_QUOTED: script lacks \"\\\"my arg\\\" => \"",
    ),
    (
        Op::WordsHold, Weight::Demand, 13, 0, "\"lower\" => :v_lower", "",
        "P_QUOTED: script lacks \"\\\"lower\\\" => :v_lower\"",
    ),
    (Op::RunScript, Weight::Leave, 11, 0, "{t13}", "", ""),
    (
        Op::NoFailure, Weight::Demand, 11, 0, "", "",
        "P_QUOTED: generated script statement failed: {k11}",
    ),
    (Op::Finished, Weight::Demand, 11, 0, "", "", "P_QUOTED: generated script ran no statements"),
    (
        Op::ScriptSays, Weight::Demand, 11, 0, ":V_LOWER = 0", "",
        "P_QUOTED: the script ran but never showed the user \":V_LOWER = 0\" (messages: {v11})",
    ),
    (Op::Run, Weight::Try, 99, 0, "COMMIT", "", ""),
    (Op::Say, Weight::Try, 0, 0, "", "    OK: P_QUOTED generated script ran", ""),
    (Op::FetchMember, Weight::Leave, 12, 0, "SQ_GEN_PKG|P_BOTH", "", ""),
    (Op::SomeArguments, Weight::Demand, 12, 0, "", "", "P_BOTH: argument fetch returned nothing"),
    (
        Op::BuildScript, Weight::Leave, 13, 12, "SQ_GEN_PKG.P_BOTH|PROCEDURE",
        "    --- P_BOTH script ---\n{t13}", "",
    ),
    (
        Op::WordsLack, Weight::Demand, 13, 0, "PL/SQL", "",
        "P_BOTH: script still spells a dictionary keyword as a type",
    ),
    (
        Op::WordsHold, Weight::Demand, 13, 0, "VAR v_n NUMBER", "",
        "P_BOTH: script lacks \"VAR v_n NUMBER\"",
    ),
    (
        Op::WordsHold, Weight::Demand, 13, 0, "VAR v_msg VARCHAR2(", "",
        "P_BOTH: script lacks \"VAR v_msg VARCHAR2(\"",
    ),
    (
        Op::WordsHold, Weight::Demand, 13, 0, "VAR v_doc CLOB", "",
        "P_BOTH: script lacks \"VAR v_doc CLOB\"",
    ),
    (
        Op::WordsHold, Weight::Demand, 13, 0, "VAR v_d DATE", "",
        "P_BOTH: script lacks \"VAR v_d DATE\"",
    ),
    (
        Op::WordsHold, Weight::Demand, 13, 0, "VAR v_ts TIMESTAMP(", "",
        "P_BOTH: script lacks \"VAR v_ts TIMESTAMP(\"",
    ),
    (
        Op::WordsHold, Weight::Demand, 13, 0, "BEGIN\n  :v_n := 0;\n", "",
        "P_BOTH: script lacks \"BEGIN\\n  :v_n := 0;\\n\"",
    ),
    (Op::WordsHold, Weight::Demand, 13, 0, "N => :v_n", "", "P_BOTH: script lacks \"N => :v_n\""),
    (Op::RunScript, Weight::Leave, 11, 0, "{t13}", "", ""),
    (
        Op::NoFailure, Weight::Demand, 11, 0, "", "",
        "P_BOTH: generated script statement failed: {k11}",
    ),
    (Op::Finished, Weight::Demand, 11, 0, "", "", "P_BOTH: generated script ran no statements"),
    (
        Op::ScriptSays, Weight::Demand, 11, 0, ":V_N = 7", "",
        "P_BOTH: the script ran but never showed the user \":V_N = 7\" (messages: {v11})",
    ),
    (
        Op::ScriptSays, Weight::Demand, 11, 0, ":V_MSG = seen:7", "",
        "P_BOTH: the script ran but never showed the user \":V_MSG = seen:7\" (messages: {v11})",
    ),
    (
        Op::ScriptSays, Weight::Demand, 11, 0, ":V_DOC = c:7", "",
        "P_BOTH: the script ran but never showed the user \":V_DOC = c:7\" (messages: {v11})",
    ),
    (
        Op::ScriptSays, Weight::Demand, 11, 0, ":V_D = 2", "",
        "P_BOTH: the script ran but never showed the user \":V_D = 2\" (messages: {v11})",
    ),
    (
        Op::ScriptSays, Weight::Demand, 11, 0, ":V_TS = 2", "",
        "P_BOTH: the script ran but never showed the user \":V_TS = 2\" (messages: {v11})",
    ),
    (Op::Run, Weight::Try, 99, 0, "COMMIT", "", ""),
    (Op::Say, Weight::Try, 0, 0, "", "    OK: P_BOTH generated script ran", ""),
    (Op::FetchMember, Weight::Leave, 12, 0, "SQ_GEN_PKG|P_LOB", "", ""),
    (Op::SomeArguments, Weight::Demand, 12, 0, "", "", "P_LOB: argument fetch returned nothing"),
    (
        Op::BuildScript, Weight::Leave, 13, 12, "SQ_GEN_PKG.P_LOB|PROCEDURE",
        "    --- P_LOB script ---\n{t13}", "",
    ),
    (
        Op::WordsLack, Weight::Demand, 13, 0, "PL/SQL", "",
        "P_LOB: script still spells a dictionary keyword as a type",
    ),
    (
        Op::WordsHold, Weight::Demand, 13, 0, "VAR v_doc CLOB", "",
        "P_LOB: script lacks \"VAR v_doc CLOB\"",
    ),
    (
        Op::WordsHold, Weight::Demand, 13, 0, "  :v_doc := EMPTY_CLOB();", "",
        "P_LOB: script lacks \"  :v_doc := EMPTY_CLOB();\"",
    ),
    (Op::RunScript, Weight::Leave, 11, 0, "{t13}", "", ""),
    (
        Op::NoFailure, Weight::Demand, 11, 0, "", "",
        "P_LOB: generated script statement failed: {k11}",
    ),
    (Op::Finished, Weight::Demand, 11, 0, "", "", "P_LOB: generated script ran no statements"),
    (
        Op::ScriptSays, Weight::Demand, 11, 0, ":V_DOC = lob-ok", "",
        "P_LOB: the script ran but never showed the user \":V_DOC = lob-ok\" (messages: {v11})",
    ),
    (Op::Run, Weight::Try, 99, 0, "COMMIT", "", ""),
    (Op::Say, Weight::Try, 0, 0, "", "    OK: P_LOB generated script ran", ""),
    (Op::FetchMember, Weight::Leave, 12, 0, "SQ_GEN_PKG|F_ADD", "", ""),
    (Op::SomeArguments, Weight::Demand, 12, 0, "", "", "F_ADD: argument fetch returned nothing"),
    (
        Op::BuildScript, Weight::Leave, 13, 12, "SQ_GEN_PKG.F_ADD|FUNCTION",
        "    --- F_ADD script ---\n{t13}", "",
    ),
    (
        Op::WordsLack, Weight::Demand, 13, 0, "PL/SQL", "",
        "F_ADD: script still spells a dictionary keyword as a type",
    ),
    (
        Op::WordsHold, Weight::Demand, 13, 0, "VAR v_result NUMBER", "",
        "F_ADD: script lacks \"VAR v_result NUMBER\"",
    ),
    (
        Op::WordsHold, Weight::Demand, 13, 0, ":v_result := ", "",
        "F_ADD: script lacks \":v_result := \"",
    ),
    (Op::RunScript, Weight::Leave, 11, 0, "{t13}", "", ""),
    (
        Op::NoFailure, Weight::Demand, 11, 0, "", "",
        "F_ADD: generated script statement failed: {k11}",
    ),
    (Op::Finished, Weight::Demand, 11, 0, "", "", "F_ADD: generated script ran no statements"),
    (
        Op::ScriptSays, Weight::Demand, 11, 0, ":V_RESULT = 0", "",
        "F_ADD: the script ran but never showed the user \":V_RESULT = 0\" (messages: {v11})",
    ),
    (Op::Run, Weight::Try, 99, 0, "COMMIT", "", ""),
    (Op::Say, Weight::Try, 0, 0, "", "    OK: F_ADD generated script ran", ""),
    (Op::FetchMember, Weight::Leave, 12, 0, "SQ_GEN_PKG|F_LONG", "", ""),
    (Op::SomeArguments, Weight::Demand, 12, 0, "", "", "F_LONG: argument fetch returned nothing"),
    (
        Op::BuildScript, Weight::Leave, 13, 12, "SQ_GEN_PKG.F_LONG|FUNCTION",
        "    --- F_LONG script ---\n{t13}", "",
    ),
    (
        Op::WordsLack, Weight::Demand, 13, 0, "PL/SQL", "",
        "F_LONG: script still spells a dictionary keyword as a type",
    ),
    (
        Op::WordsHold, Weight::Demand, 13, 0, "VAR v_result VARCHAR2(32767)", "",
        "F_LONG: script lacks \"VAR v_result VARCHAR2(32767)\"",
    ),
    (Op::RunScript, Weight::Leave, 11, 0, "{t13}", "", ""),
    (
        Op::NoFailure, Weight::Demand, 11, 0, "", "",
        "F_LONG: generated script statement failed: {k11}",
    ),
    (Op::Finished, Weight::Demand, 11, 0, "", "", "F_LONG: generated script ran no statements"),
    (Op::Run, Weight::Try, 99, 0, "COMMIT", "", ""),
    (Op::Say, Weight::Try, 0, 0, "", "    OK: F_LONG generated script ran", ""),
    (Op::FetchMember, Weight::Leave, 12, 0, "SQ_GEN_PKG|P_TYPES", "", ""),
    (Op::SomeArguments, Weight::Demand, 12, 0, "", "", "P_TYPES: argument fetch returned nothing"),
    (
        Op::BuildScript, Weight::Leave, 13, 12, "SQ_GEN_PKG.P_TYPES|PROCEDURE",
        "    --- P_TYPES script ---\n{t13}", "",
    ),
    (
        Op::WordsLack, Weight::Demand, 13, 0, "PL/SQL", "",
        "P_TYPES: script still spells a dictionary keyword as a type",
    ),
    (
        Op::WordsHold, Weight::Demand, 13, 0, "VAR v_t15 CLOB", "",
        "P_TYPES: script lacks \"VAR v_t15 CLOB\"",
    ),
    (
        Op::WordsHold, Weight::Demand, 13, 0, "  v_t10 BOOLEAN := FALSE;", "",
        "P_TYPES: script lacks \"  v_t10 BOOLEAN := FALSE;\"",
    ),
    (Op::RunScript, Weight::Leave, 11, 0, "{t13}", "", ""),
    (
        Op::NoFailure, Weight::Demand, 11, 0, "", "",
        "P_TYPES: generated script statement failed: {k11}",
    ),
    (Op::Finished, Weight::Demand, 11, 0, "", "", "P_TYPES: generated script ran no statements"),
    (
        Op::ScriptSays, Weight::Demand, 11, 0, ":V_T15 = types-ok", "",
        "P_TYPES: the script ran but never showed the user \":V_T15 = types-ok\" (messages: {v11})",
    ),
    (Op::Run, Weight::Try, 99, 0, "COMMIT", "", ""),
    (Op::Say, Weight::Try, 0, 0, "", "    OK: P_TYPES generated script ran", ""),
    (Op::FetchMember, Weight::Leave, 12, 0, "SQ_GEN_PKG|F_OUT", "", ""),
    (Op::SomeArguments, Weight::Demand, 12, 0, "", "", "F_OUT: argument fetch returned nothing"),
    (
        Op::BuildScript, Weight::Leave, 13, 12, "SQ_GEN_PKG.F_OUT|FUNCTION",
        "    --- F_OUT script ---\n{t13}", "",
    ),
    (
        Op::WordsLack, Weight::Demand, 13, 0, "PL/SQL", "",
        "F_OUT: script still spells a dictionary keyword as a type",
    ),
    (
        Op::WordsHold, Weight::Demand, 13, 0, "VAR v_result NUMBER", "",
        "F_OUT: script lacks \"VAR v_result NUMBER\"",
    ),
    (
        Op::WordsHold, Weight::Demand, 13, 0, "VAR v_x NUMBER", "",
        "F_OUT: script lacks \"VAR v_x NUMBER\"",
    ),
    (
        Op::WordsHold, Weight::Demand, 13, 0, ":v_result := ", "",
        "F_OUT: script lacks \":v_result := \"",
    ),
    (Op::WordsHold, Weight::Demand, 13, 0, "X => :v_x", "", "F_OUT: script lacks \"X => :v_x\""),
    (Op::RunScript, Weight::Leave, 11, 0, "{t13}", "", ""),
    (
        Op::NoFailure, Weight::Demand, 11, 0, "", "",
        "F_OUT: generated script statement failed: {k11}",
    ),
    (Op::Finished, Weight::Demand, 11, 0, "", "", "F_OUT: generated script ran no statements"),
    (
        Op::ScriptSays, Weight::Demand, 11, 0, ":V_RESULT = 22", "",
        "F_OUT: the script ran but never showed the user \":V_RESULT = 22\" (messages: {v11})",
    ),
    (
        Op::ScriptSays, Weight::Demand, 11, 0, ":V_X = 11", "",
        "F_OUT: the script ran but never showed the user \":V_X = 11\" (messages: {v11})",
    ),
    (Op::Run, Weight::Try, 99, 0, "COMMIT", "", ""),
    (Op::Say, Weight::Try, 0, 0, "", "    OK: F_OUT generated script ran", ""),
    (Op::FetchMember, Weight::Leave, 12, 0, "SQ_GEN_PKG|DUP", "", ""),
    (Op::SomeArguments, Weight::Demand, 12, 0, "", "", "DUP: argument fetch returned nothing"),
    (
        Op::BuildScript, Weight::Leave, 13, 12, "SQ_GEN_PKG.DUP|PROCEDURE",
        "    --- DUP script ---\n{t13}", "",
    ),
    (
        Op::WordsLack, Weight::Demand, 13, 0, "PL/SQL", "",
        "DUP: script still spells a dictionary keyword as a type",
    ),
    (Op::WordsHold, Weight::Demand, 13, 0, "A => v_a", "", "DUP: script lacks \"A => v_a\""),
    (Op::RunScript, Weight::Leave, 11, 0, "{t13}", "", ""),
    (Op::NoFailure, Weight::Demand, 11, 0, "", "", "DUP: generated script statement failed: {k11}"),
    (Op::Finished, Weight::Demand, 11, 0, "", "", "DUP: generated script ran no statements"),
    (Op::Run, Weight::Try, 99, 0, "COMMIT", "", ""),
    (Op::Say, Weight::Try, 0, 0, "", "    OK: DUP generated script ran", ""),
    (Op::FetchMember, Weight::Leave, 12, 0, "SQ_GEN_PKG|DUP", "", ""),
    (Op::SomeArguments, Weight::Demand, 12, 0, "", "", "DUP: argument fetch returned nothing"),
    (
        Op::BuildScript, Weight::Leave, 13, 12, "SQ_GEN_PKG.DUP|FUNCTION",
        "    --- DUP script ---\n{t13}", "",
    ),
    (
        Op::WordsLack, Weight::Demand, 13, 0, "PL/SQL", "",
        "DUP: script still spells a dictionary keyword as a type",
    ),
    (
        Op::WordsHold, Weight::Demand, 13, 0, "VAR v_result NUMBER", "",
        "DUP: script lacks \"VAR v_result NUMBER\"",
    ),
    (Op::WordsHold, Weight::Demand, 13, 0, "B => v_b", "", "DUP: script lacks \"B => v_b\""),
    (Op::RunScript, Weight::Leave, 11, 0, "{t13}", "", ""),
    (Op::NoFailure, Weight::Demand, 11, 0, "", "", "DUP: generated script statement failed: {k11}"),
    (Op::Finished, Weight::Demand, 11, 0, "", "", "DUP: generated script ran no statements"),
    (
        Op::ScriptSays, Weight::Demand, 11, 0, ":V_RESULT = NULL", "",
        "DUP: the script ran but never showed the user \":V_RESULT = NULL\" (messages: {v11})",
    ),
    (Op::Run, Weight::Try, 99, 0, "COMMIT", "", ""),
    (Op::Say, Weight::Try, 0, 0, "", "    OK: DUP generated script ran", ""),
    (
        Op::BuildScript, Weight::Leave, 13, 99, "SQ_GEN_PKG.P_NONE|PROCEDURE",
        "    --- P_NONE fallback script ---\n{t13}", "",
    ),
    (
        Op::Begins, Weight::Demand, 13, 0, "BEGIN", "",
        "P_NONE: argument-less PROCEDURE script has the wrong shape: {q13}",
    ),
    (
        Op::WordsLack, Weight::Demand, 13, 0, "()", "",
        "P_NONE: argument-less PROCEDURE script has the wrong shape: {q13}",
    ),
    (Op::RunScript, Weight::Leave, 11, 0, "{t13}", "", ""),
    (
        Op::NoFailure, Weight::Demand, 11, 0, "", "",
        "P_NONE: generated script statement failed: {k11}",
    ),
    (Op::Finished, Weight::Demand, 11, 0, "", "", "P_NONE: generated script ran no statements"),
    (Op::Run, Weight::Try, 99, 0, "COMMIT", "", ""),
    (Op::Say, Weight::Try, 0, 0, "", "    OK: P_NONE argument-less script ran", ""),
    (
        Op::BuildScript, Weight::Leave, 13, 99, "SQ_GEN_PKG.F_NONE|FUNCTION",
        "    --- F_NONE fallback script ---\n{t13}", "",
    ),
    (
        Op::Begins, Weight::Demand, 13, 0, "SELECT", "",
        "F_NONE: argument-less FUNCTION script has the wrong shape: {q13}",
    ),
    (
        Op::WordsLack, Weight::Demand, 13, 0, "()", "",
        "F_NONE: argument-less FUNCTION script has the wrong shape: {q13}",
    ),
    (Op::RunScript, Weight::Leave, 11, 0, "{t13}", "", ""),
    (
        Op::NoFailure, Weight::Demand, 11, 0, "", "",
        "F_NONE: generated script statement failed: {k11}",
    ),
    (Op::Finished, Weight::Demand, 11, 0, "", "", "F_NONE: generated script ran no statements"),
    (Op::Run, Weight::Try, 99, 0, "COMMIT", "", ""),
    (Op::Say, Weight::Try, 0, 0, "", "    OK: F_NONE argument-less script ran", ""),
    (Op::Cleanup, Weight::Try, 0, 0, "", "", ""),
    (Op::Run, Weight::Try, 99, 0, "DROP PACKAGE SQ_GEN_PKG", "", ""),
    (Op::Run, Weight::Try, 99, 0, "DROP TYPE SQ_GEN_OBJ", "", ""),
    (Op::Run, Weight::Try, 99, 0, "COMMIT", "", ""),
    (Op::Settled, Weight::Try, 0, 0, "", "", ""),
];

/// How a routine may be called, whether it can be read, how its name is spelled.
pub const CALL_FORMS: [Row; 202] = [
    (
        Op::Say, Weight::Try, 0, 0, "",
        "  [generation round-trip: call form, readability, name spelling]", "",
    ),
    (
        Op::Run, Weight::Leave, 11, 0, "CREATE OR REPLACE TYPE SQ_GEN_PIPE_TAB AS TABLE OF NUMBER",
        "", "",
    ),
    (Op::Finished, Weight::Leave, 11, 0, "", "", "call-form setup: no result"),
    (
        Op::LastSucceeded, Weight::Leave, 11, 0, "", "",
        "call-form setup failed for \"CREATE OR REPLACE TYPE SQ_GEN_PIPE_TAB AS TABLE OF NUMBER\": {p11}",
    ),
    (
        Op::Run, Weight::Leave, 11, 0,
        "CREATE OR REPLACE FUNCTION SQ_GEN_PIPE(n IN NUMBER) RETURN SQ_GEN_PIPE_TAB PIPELINED IS\nBEGIN\n  FOR i IN 1 .. NVL(n, 0) LOOP PIPE ROW(i); END LOOP;\n  RETURN;\nEND;",
        "", "",
    ),
    (Op::Finished, Weight::Leave, 11, 0, "", "", "call-form setup: no result"),
    (
        Op::LastSucceeded, Weight::Leave, 11, 0, "", "",
        "call-form setup failed for \"CREATE OR REPLACE FUNCTION SQ_GEN_PIPE(n IN NUMBER) RETURN SQ_GEN_PIPE_TAB PIPELINED IS\\nBEGIN\\n  FOR i IN 1 .. NVL(n, 0) LOOP PIPE ROW(i); END LOOP;\\n  RETURN;\\nEND;\": {p11}",
    ),
    (
        Op::Run, Weight::Leave, 11, 0,
        "CREATE OR REPLACE TYPE SQ_GEN_AGG_T AS OBJECT (\n  total NUMBER,\n  STATIC FUNCTION ODCIAggregateInitialize(ctx IN OUT SQ_GEN_AGG_T) RETURN NUMBER,\n  MEMBER FUNCTION ODCIAggregateIterate(self IN OUT SQ_GEN_AGG_T, value IN NUMBER) RETURN NUMBER,\n  MEMBER FUNCTION ODCIAggregateTerminate(self IN SQ_GEN_AGG_T, returnValue OUT NUMBER, flags IN NUMBER) RETURN NUMBER,\n  MEMBER FUNCTION ODCIAggregateMerge(self IN OUT SQ_GEN_AGG_T, ctx2 IN SQ_GEN_AGG_T) RETURN NUMBER\n)",
        "", "",
    ),
    (Op::Finished, Weight::Leave, 11, 0, "", "", "call-form setup: no result"),
    (
        Op::LastSucceeded, Weight::Leave, 11, 0, "", "",
        "call-form setup failed for \"CREATE OR REPLACE TYPE SQ_GEN_AGG_T AS OBJECT (\\n  total NUMBER,\\n  STATIC FUNCTION ODCIAggregateInitialize(ctx IN OUT SQ_GEN_AGG_T) RETURN NUMBER,\\n  MEMBER FUNCTION ODCIAggregateIterate(self IN OUT SQ_GEN_AGG_T, value IN NUMBER) RETURN NUMBER,\\n  MEMBER FUNCTION ODCIAggregateTerminate(self IN SQ_GEN_AGG_T, returnValue OUT NUMBER, flags IN NUMBER) RETURN NUMBER,\\n  MEMBER FUNCTION ODCIAggregateMerge(self IN OUT SQ_GEN_AGG_T, ctx2 IN SQ_GEN_AGG_T) RETURN NUMBER\\n)\": {p11}",
    ),
    (
        Op::Run, Weight::Leave, 11, 0,
        "CREATE OR REPLACE TYPE BODY SQ_GEN_AGG_T IS\n  STATIC FUNCTION ODCIAggregateInitialize(ctx IN OUT SQ_GEN_AGG_T) RETURN NUMBER IS\n  BEGIN ctx := SQ_GEN_AGG_T(0); RETURN ODCIConst.Success; END;\n  MEMBER FUNCTION ODCIAggregateIterate(self IN OUT SQ_GEN_AGG_T, value IN NUMBER) RETURN NUMBER IS\n  BEGIN self.total := self.total + NVL(value, 0); RETURN ODCIConst.Success; END;\n  MEMBER FUNCTION ODCIAggregateTerminate(self IN SQ_GEN_AGG_T, returnValue OUT NUMBER, flags IN NUMBER) RETURN NUMBER IS\n  BEGIN returnValue := self.total; RETURN ODCIConst.Success; END;\n  MEMBER FUNCTION ODCIAggregateMerge(self IN OUT SQ_GEN_AGG_T, ctx2 IN SQ_GEN_AGG_T) RETURN NUMBER IS\n  BEGIN self.total := self.total + ctx2.total; RETURN ODCIConst.Success; END;\nEND;",
        "", "",
    ),
    (Op::Finished, Weight::Leave, 11, 0, "", "", "call-form setup: no result"),
    (
        Op::LastSucceeded, Weight::Leave, 11, 0, "", "",
        "call-form setup failed for \"CREATE OR REPLACE TYPE BODY SQ_GEN_AGG_T IS\\n  STATIC FUNCTION ODCIAggregateInitialize(ctx IN OUT SQ_GEN_AGG_T) RETURN NUMBER IS\\n  BEGIN ctx := SQ_GEN_AGG_T(0); RETURN ODCIConst.Success; END;\\n  MEMBER FUNCTION ODCIAggregateIterate(self IN OUT SQ_GEN_AGG_T, value IN NUMBER) RETURN NUMBER IS\\n  BEGIN self.total := self.total + NVL(value, 0); RETURN ODCIConst.Success; END;\\n  MEMBER FUNCTION ODCIAggregateTerminate(self IN SQ_GEN_AGG_T, returnValue OUT NUMBER, flags IN NUMBER) RETURN NUMBER IS\\n  BEGIN returnValue := self.total; RETURN ODCIConst.Success; END;\\n  MEMBER FUNCTION ODCIAggregateMerge(self IN OUT SQ_GEN_AGG_T, ctx2 IN SQ_GEN_AGG_T) RETURN NUMBER IS\\n  BEGIN self.total := self.total + ctx2.total; RETURN ODCIConst.Success; END;\\nEND;\": {p11}",
    ),
    (
        Op::Run, Weight::Leave, 11, 0,
        "CREATE OR REPLACE FUNCTION SQ_GEN_AGG(input NUMBER) RETURN NUMBER\n  PARALLEL_ENABLE AGGREGATE USING SQ_GEN_AGG_T",
        "", "",
    ),
    (Op::Finished, Weight::Leave, 11, 0, "", "", "call-form setup: no result"),
    (
        Op::LastSucceeded, Weight::Leave, 11, 0, "", "",
        "call-form setup failed for \"CREATE OR REPLACE FUNCTION SQ_GEN_AGG(input NUMBER) RETURN NUMBER\\n  PARALLEL_ENABLE AGGREGATE USING SQ_GEN_AGG_T\": {p11}",
    ),
    (
        Op::Run, Weight::Leave, 11, 0,
        "CREATE OR REPLACE FUNCTION SQ_GEN_PIPE0 RETURN SQ_GEN_PIPE_TAB PIPELINED IS\nBEGIN\n  PIPE ROW(1);\n  RETURN;\nEND;",
        "", "",
    ),
    (Op::Finished, Weight::Leave, 11, 0, "", "", "call-form setup: no result"),
    (
        Op::LastSucceeded, Weight::Leave, 11, 0, "", "",
        "call-form setup failed for \"CREATE OR REPLACE FUNCTION SQ_GEN_PIPE0 RETURN SQ_GEN_PIPE_TAB PIPELINED IS\\nBEGIN\\n  PIPE ROW(1);\\n  RETURN;\\nEND;\": {p11}",
    ),
    (
        Op::Run, Weight::Leave, 11, 0,
        "CREATE OR REPLACE PROCEDURE SQ_GEN_NOARG IS BEGIN NULL; END;", "", "",
    ),
    (Op::Finished, Weight::Leave, 11, 0, "", "", "call-form setup: no result"),
    (
        Op::LastSucceeded, Weight::Leave, 11, 0, "", "",
        "call-form setup failed for \"CREATE OR REPLACE PROCEDURE SQ_GEN_NOARG IS BEGIN NULL; END;\": {p11}",
    ),
    (
        Op::Run, Weight::Leave, 11, 0,
        "CREATE OR REPLACE PROCEDURE \"SQ_GEN.DOT\"(a IN NUMBER) IS BEGIN NULL; END;", "", "",
    ),
    (Op::Finished, Weight::Leave, 11, 0, "", "", "call-form setup: no result"),
    (
        Op::LastSucceeded, Weight::Leave, 11, 0, "", "",
        "call-form setup failed for \"CREATE OR REPLACE PROCEDURE \\\"SQ_GEN.DOT\\\"(a IN NUMBER) IS BEGIN NULL; END;\": {p11}",
    ),
    (
        Op::Run, Weight::Leave, 11, 0,
        "CREATE OR REPLACE PACKAGE SQ_GEN_CASE_PKG AS\n  PROCEDURE \"myProc\"(p_a IN NUMBER, p_b OUT VARCHAR2);\n  FUNCTION pf(n NUMBER) RETURN SQ_GEN_PIPE_TAB PIPELINED;\nEND;",
        "", "",
    ),
    (Op::Finished, Weight::Leave, 11, 0, "", "", "call-form setup: no result"),
    (
        Op::LastSucceeded, Weight::Leave, 11, 0, "", "",
        "call-form setup failed for \"CREATE OR REPLACE PACKAGE SQ_GEN_CASE_PKG AS\\n  PROCEDURE \\\"myProc\\\"(p_a IN NUMBER, p_b OUT VARCHAR2);\\n  FUNCTION pf(n NUMBER) RETURN SQ_GEN_PIPE_TAB PIPELINED;\\nEND;\": {p11}",
    ),
    (
        Op::Run, Weight::Leave, 11, 0,
        "CREATE OR REPLACE PACKAGE BODY SQ_GEN_CASE_PKG AS\n  PROCEDURE \"myProc\"(p_a IN NUMBER, p_b OUT VARCHAR2) IS BEGIN p_b := 'x'; END;\n  FUNCTION pf(n NUMBER) RETURN SQ_GEN_PIPE_TAB PIPELINED IS\n  BEGIN PIPE ROW(NVL(n, 0)); RETURN; END;\nEND;",
        "", "",
    ),
    (Op::Finished, Weight::Leave, 11, 0, "", "", "call-form setup: no result"),
    (
        Op::LastSucceeded, Weight::Leave, 11, 0, "", "",
        "call-form setup failed for \"CREATE OR REPLACE PACKAGE BODY SQ_GEN_CASE_PKG AS\\n  PROCEDURE \\\"myProc\\\"(p_a IN NUMBER, p_b OUT VARCHAR2) IS BEGIN p_b := 'x'; END;\\n  FUNCTION pf(n NUMBER) RETURN SQ_GEN_PIPE_TAB PIPELINED IS\\n  BEGIN PIPE ROW(NVL(n, 0)); RETURN; END;\\nEND;\": {p11}",
    ),
    (
        Op::Run, Weight::Leave, 11, 0,
        "CREATE OR REPLACE PACKAGE SQ_GEN_XKIND AS\n  PROCEDURE dup;\n  FUNCTION dup(b VARCHAR2) RETURN NUMBER;\nEND;",
        "", "",
    ),
    (Op::Finished, Weight::Leave, 11, 0, "", "", "call-form setup: no result"),
    (
        Op::LastSucceeded, Weight::Leave, 11, 0, "", "",
        "call-form setup failed for \"CREATE OR REPLACE PACKAGE SQ_GEN_XKIND AS\\n  PROCEDURE dup;\\n  FUNCTION dup(b VARCHAR2) RETURN NUMBER;\\nEND;\": {p11}",
    ),
    (
        Op::Run, Weight::Leave, 11, 0,
        "CREATE OR REPLACE PACKAGE BODY SQ_GEN_XKIND AS\n  PROCEDURE dup IS BEGIN NULL; END;\n  FUNCTION dup(b VARCHAR2) RETURN NUMBER IS BEGIN RETURN NVL(LENGTH(b), 0); END;\nEND;",
        "", "",
    ),
    (Op::Finished, Weight::Leave, 11, 0, "", "", "call-form setup: no result"),
    (
        Op::LastSucceeded, Weight::Leave, 11, 0, "", "",
        "call-form setup failed for \"CREATE OR REPLACE PACKAGE BODY SQ_GEN_XKIND AS\\n  PROCEDURE dup IS BEGIN NULL; END;\\n  FUNCTION dup(b VARCHAR2) RETURN NUMBER IS BEGIN RETURN NVL(LENGTH(b), 0); END;\\nEND;\": {p11}",
    ),
    (
        Op::Run, Weight::Leave, 11, 0,
        "CREATE OR REPLACE PACKAGE SQ_GEN_OVL_PKG AS\n  FUNCTION povl(n NUMBER) RETURN SQ_GEN_PIPE_TAB PIPELINED;\n  FUNCTION povl(s VARCHAR2) RETURN NUMBER;\nEND;",
        "", "",
    ),
    (Op::Finished, Weight::Leave, 11, 0, "", "", "call-form setup: no result"),
    (
        Op::LastSucceeded, Weight::Leave, 11, 0, "", "",
        "call-form setup failed for \"CREATE OR REPLACE PACKAGE SQ_GEN_OVL_PKG AS\\n  FUNCTION povl(n NUMBER) RETURN SQ_GEN_PIPE_TAB PIPELINED;\\n  FUNCTION povl(s VARCHAR2) RETURN NUMBER;\\nEND;\": {p11}",
    ),
    (
        Op::Run, Weight::Leave, 11, 0,
        "CREATE OR REPLACE PACKAGE BODY SQ_GEN_OVL_PKG AS\n  FUNCTION povl(n NUMBER) RETURN SQ_GEN_PIPE_TAB PIPELINED IS\n  BEGIN PIPE ROW(NVL(n, 0)); RETURN; END;\n  FUNCTION povl(s VARCHAR2) RETURN NUMBER IS BEGIN RETURN NVL(LENGTH(s), 0); END;\nEND;",
        "", "",
    ),
    (Op::Finished, Weight::Leave, 11, 0, "", "", "call-form setup: no result"),
    (
        Op::LastSucceeded, Weight::Leave, 11, 0, "", "",
        "call-form setup failed for \"CREATE OR REPLACE PACKAGE BODY SQ_GEN_OVL_PKG AS\\n  FUNCTION povl(n NUMBER) RETURN SQ_GEN_PIPE_TAB PIPELINED IS\\n  BEGIN PIPE ROW(NVL(n, 0)); RETURN; END;\\n  FUNCTION povl(s VARCHAR2) RETURN NUMBER IS BEGIN RETURN NVL(LENGTH(s), 0); END;\\nEND;\": {p11}",
    ),
    (
        Op::Run, Weight::Try, 99, 0,
        "CREATE OR REPLACE PROCEDURE SQ_GEN_BAD(a IN NUMBER, b OUT VARCHAR2) IS\nBEGIN\n  SQ_GEN_MISSING(a);\nEND;",
        "", "",
    ),
    (
        Op::Run, Weight::Try, 11, 0,
        "CREATE OR REPLACE FUNCTION SQ_GEN_MAC_S(p IN VARCHAR2) RETURN VARCHAR2 SQL_MACRO(SCALAR) IS\nBEGIN\n  RETURN 'UPPER(p)';\nEND;",
        "", "",
    ),
    (
        Op::SkipUnlessFine, Weight::Try, 11, 9, "", "    SKIP: SQL macro unavailable here - {d11}",
        "",
    ),
    (
        Op::Run, Weight::Try, 11, 0,
        "CREATE OR REPLACE FUNCTION SQ_GEN_MAC_T(n IN NUMBER) RETURN VARCHAR2 SQL_MACRO(TABLE) IS\nBEGIN\n  RETURN 'SELECT n AS one FROM dual';\nEND;",
        "", "",
    ),
    (
        Op::SkipUnlessFine, Weight::Try, 11, 7, "", "    SKIP: SQL macro unavailable here - {d11}",
        "",
    ),
    (
        Op::Run, Weight::Try, 11, 0,
        "CREATE OR REPLACE FUNCTION SQ_GEN_MAC_T0 RETURN VARCHAR2 SQL_MACRO(TABLE) IS\nBEGIN\n  RETURN 'SELECT 1 AS one FROM dual';\nEND;",
        "", "",
    ),
    (
        Op::SkipUnlessFine, Weight::Try, 11, 5, "", "    SKIP: SQL macro unavailable here - {d11}",
        "",
    ),
    (
        Op::Run, Weight::Try, 11, 0,
        "CREATE OR REPLACE PACKAGE SQ_GEN_MAC_PKG AS\n  FUNCTION m(p VARCHAR2) RETURN VARCHAR2 SQL_MACRO(SCALAR);\nEND;",
        "", "",
    ),
    (
        Op::SkipUnlessFine, Weight::Try, 11, 3, "", "    SKIP: SQL macro unavailable here - {d11}",
        "",
    ),
    (
        Op::Run, Weight::Try, 11, 0,
        "CREATE OR REPLACE PACKAGE BODY SQ_GEN_MAC_PKG AS\n  FUNCTION m(p VARCHAR2) RETURN VARCHAR2 SQL_MACRO(SCALAR) IS\n  BEGIN RETURN 'LOWER(p)'; END;\nEND;",
        "", "",
    ),
    (
        Op::SkipUnlessFine, Weight::Try, 11, 1, "", "    SKIP: SQL macro unavailable here - {d11}",
        "",
    ),
    (Op::Raise, Weight::Try, 20, 0, "", "", ""),
    (
        Op::Run, Weight::Try, 11, 0,
        "CREATE OR REPLACE PACKAGE SQ_GEN_PTF_PKG AS\n  FUNCTION describe(tab IN OUT DBMS_TF.TABLE_T) RETURN DBMS_TF.DESCRIBE_T;\nEND;",
        "", "",
    ),
    (
        Op::SkipUnlessFine, Weight::Try, 11, 5, "",
        "    SKIP: polymorphic table function unavailable here - {d11}", "",
    ),
    (
        Op::Run, Weight::Try, 11, 0,
        "CREATE OR REPLACE PACKAGE BODY SQ_GEN_PTF_PKG AS\n  FUNCTION describe(tab IN OUT DBMS_TF.TABLE_T) RETURN DBMS_TF.DESCRIBE_T IS\n  BEGIN RETURN NULL; END;\nEND;",
        "", "",
    ),
    (
        Op::SkipUnlessFine, Weight::Try, 11, 3, "",
        "    SKIP: polymorphic table function unavailable here - {d11}", "",
    ),
    (
        Op::Run, Weight::Try, 11, 0,
        "CREATE OR REPLACE FUNCTION SQ_GEN_PTF(t TABLE) RETURN TABLE PIPELINED ROW POLYMORPHIC USING SQ_GEN_PTF_PKG",
        "", "",
    ),
    (
        Op::SkipUnlessFine, Weight::Try, 11, 1, "",
        "    SKIP: polymorphic table function unavailable here - {d11}", "",
    ),
    (Op::Raise, Weight::Try, 21, 0, "", "", ""),
    (Op::Run, Weight::Try, 99, 0, "COMMIT", "", ""),
    (Op::FetchStandalone, Weight::Demand, 12, 0, "SQ_GEN_PIPE", "", ""),
    (
        Op::BuildScript, Weight::Demand, 13, 12, "SQ_GEN_PIPE|FUNCTION",
        "    --- SQ_GEN_PIPE script ---\n{t13}", "",
    ),
    (
        Op::WordsHold, Weight::Demand, 13, 0, "FROM TABLE(", "",
        "pipelined script is not a query: {q13}",
    ),
    (Op::WordsLack, Weight::Demand, 13, 0, "BEGIN", "", "pipelined script is not a query: {q13}"),
    (Op::RunScript, Weight::Demand, 11, 0, "{t13}", "", ""),
    (
        Op::NoFailure, Weight::Demand, 11, 0, "", "",
        "SQ_GEN_PIPE: generated script statement failed: {k11}",
    ),
    (
        Op::Finished, Weight::Demand, 11, 0, "", "",
        "SQ_GEN_PIPE: generated script ran no statements",
    ),
    (Op::Say, Weight::Try, 0, 0, "", "    OK: pipelined function script ran", ""),
    (Op::FetchStandalone, Weight::Demand, 12, 0, "SQ_GEN_AGG", "", ""),
    (
        Op::BuildScript, Weight::Demand, 13, 12, "SQ_GEN_AGG|FUNCTION",
        "    --- SQ_GEN_AGG script ---\n{t13}", "",
    ),
    (
        Op::WordsHold, Weight::Demand, 13, 0, "FROM dual", "",
        "aggregate script is not a query: {q13}",
    ),
    (Op::WordsLack, Weight::Demand, 13, 0, "BEGIN", "", "aggregate script is not a query: {q13}"),
    (Op::RunScript, Weight::Demand, 11, 0, "{t13}", "", ""),
    (
        Op::NoFailure, Weight::Demand, 11, 0, "", "",
        "SQ_GEN_AGG: generated script statement failed: {k11}",
    ),
    (Op::Finished, Weight::Demand, 11, 0, "", "", "SQ_GEN_AGG: generated script ran no statements"),
    (Op::Say, Weight::Try, 0, 0, "", "    OK: aggregate function script ran", ""),
    (Op::FetchMember, Weight::Demand, 12, 0, "SQ_GEN_CASE_PKG|PF", "", ""),
    (
        Op::BuildScript, Weight::Demand, 13, 12, "SQ_GEN_CASE_PKG.PF|FUNCTION",
        "    --- SQ_GEN_CASE_PKG.PF script ---\n{t13}", "",
    ),
    (
        Op::WordsHold, Weight::Demand, 13, 0, "FROM TABLE(", "",
        "pipelined member script is not a query: {q13}",
    ),
    (Op::RunScript, Weight::Demand, 11, 0, "{t13}", "", ""),
    (Op::NoFailure, Weight::Demand, 11, 0, "", "", "PF: generated script statement failed: {k11}"),
    (Op::Finished, Weight::Demand, 11, 0, "", "", "PF: generated script ran no statements"),
    (Op::Say, Weight::Try, 0, 0, "", "    OK: pipelined package member script ran", ""),
    (Op::ListRoutines, Weight::Demand, 14, 0, "SQ_GEN_CASE_PKG", "", ""),
    (
        Op::ListsNamed, Weight::Demand, 14, 0, "myProc", "",
        "SQ_GEN_CASE_PKG listing has no myProc member: {P14}",
    ),
    (
        Op::ListedAs, Weight::Demand, 14, 0, "myProc", "",
        "the package listing spells the quoted member {M14}, but the server stores it as \"myProc\" - every Execute takes its name from this listing",
    ),
    (Op::FetchMember, Weight::Demand, 12, 0, "SQ_GEN_CASE_PKG|\"myProc\"", "", ""),
    (
        Op::ArgumentsAre, Weight::Demand, 12, 2, "", "",
        "quoted mixed-case member fetch returned {Z12} argument rows, want 2",
    ),
    (
        Op::BuildScript, Weight::Demand, 13, 12, "SQ_GEN_CASE_PKG.\"myProc\"|PROCEDURE",
        "    --- SQ_GEN_CASE_PKG.\"myProc\" script ---\n{t13}", "",
    ),
    (Op::RunScript, Weight::Demand, 11, 0, "{t13}", "", ""),
    (
        Op::NoFailure, Weight::Demand, 11, 0, "", "",
        "myProc: generated script statement failed: {k11}",
    ),
    (Op::Finished, Weight::Demand, 11, 0, "", "", "myProc: generated script ran no statements"),
    (Op::Say, Weight::Try, 0, 0, "", "    OK: quoted mixed-case package member script ran", ""),
    (Op::FetchStandalone, Weight::Demand, 12, 0, "SQ_GEN_PIPE0", "", ""),
    (
        Op::BuildScript, Weight::Demand, 13, 12, "SQ_GEN_PIPE0|FUNCTION",
        "    --- SQ_GEN_PIPE0 script ---\n{t13}", "",
    ),
    (
        Op::WordsHold, Weight::Demand, 13, 0, "FROM TABLE(", "",
        "parameterless pipelined script is wrong: {q13}",
    ),
    (
        Op::WordsLack, Weight::Demand, 13, 0, "()", "",
        "parameterless pipelined script is wrong: {q13}",
    ),
    (Op::RunScript, Weight::Demand, 11, 0, "{t13}", "", ""),
    (
        Op::NoFailure, Weight::Demand, 11, 0, "", "",
        "SQ_GEN_PIPE0: generated script statement failed: {k11}",
    ),
    (
        Op::Finished, Weight::Demand, 11, 0, "", "",
        "SQ_GEN_PIPE0: generated script ran no statements",
    ),
    (Op::Say, Weight::Try, 0, 0, "", "    OK: parameterless pipelined function script ran", ""),
    (Op::FetchMember, Weight::Demand, 12, 0, "SQ_GEN_XKIND|DUP", "", ""),
    (
        Op::BuildScript, Weight::Demand, 13, 12, "SQ_GEN_XKIND.DUP|PROCEDURE",
        "    --- SQ_GEN_XKIND.DUP (procedure) script ---\n{t13}", "",
    ),
    (
        Op::WordsLack, Weight::Demand, 13, 0, "B =>", "",
        "Execute Procedure on the parameterless dup built the FUNCTION's script: {q13}",
    ),
    (
        Op::WordsLack, Weight::Demand, 13, 0, "VAR ", "",
        "Execute Procedure on the parameterless dup built the FUNCTION's script: {q13}",
    ),
    (Op::RunScript, Weight::Demand, 11, 0, "{t13}", "", ""),
    (
        Op::NoFailure, Weight::Demand, 11, 0, "", "",
        "DUP as procedure: generated script statement failed: {k11}",
    ),
    (
        Op::Finished, Weight::Demand, 11, 0, "", "",
        "DUP as procedure: generated script ran no statements",
    ),
    (
        Op::BuildScript, Weight::Demand, 13, 12, "SQ_GEN_XKIND.DUP|FUNCTION",
        "    --- SQ_GEN_XKIND.DUP (function) script ---\n{t13}", "",
    ),
    (
        Op::WordsHold, Weight::Demand, 13, 0, "B =>", "",
        "Execute Function on dup lost the function overload: {q13}",
    ),
    (Op::RunScript, Weight::Demand, 11, 0, "{t13}", "", ""),
    (
        Op::NoFailure, Weight::Demand, 11, 0, "", "",
        "DUP as function: generated script statement failed: {k11}",
    ),
    (
        Op::Finished, Weight::Demand, 11, 0, "", "",
        "DUP as function: generated script ran no statements",
    ),
    (
        Op::Say, Weight::Try, 0, 0, "",
        "    OK: the parameterless procedure overload wins over the visible function group", "",
    ),
    (Op::FetchMember, Weight::Demand, 12, 0, "SQ_GEN_OVL_PKG|POVL", "", ""),
    (
        Op::BuildScript, Weight::Demand, 13, 12, "SQ_GEN_OVL_PKG.POVL|FUNCTION",
        "    --- SQ_GEN_OVL_PKG.POVL script ---\n{t13}", "",
    ),
    (
        Op::WordsHold, Weight::Demand, 13, 0, "FROM TABLE(", "",
        "the pipelined overload got the ordinary shape - the dictionary's overload number never met the arguments' one: {q13}",
    ),
    (Op::RunScript, Weight::Demand, 11, 0, "{t13}", "", ""),
    (
        Op::NoFailure, Weight::Demand, 11, 0, "", "",
        "POVL: generated script statement failed: {k11}",
    ),
    (Op::Finished, Weight::Demand, 11, 0, "", "", "POVL: generated script ran no statements"),
    (
        Op::Say, Weight::Try, 0, 0, "",
        "    OK: a pipelined member on a non-null overload keeps the query shape", "",
    ),
    (Op::SkipUnless, Weight::Try, 20, 33, "", "", ""),
    (Op::FetchStandalone, Weight::Demand, 12, 0, "SQ_GEN_MAC_S", "", ""),
    (
        Op::BuildScript, Weight::Demand, 13, 12, "SQ_GEN_MAC_S|FUNCTION",
        "    --- SQ_GEN_MAC_S script ---\n{t13}", "",
    ),
    (
        Op::WordsLack, Weight::Demand, 13, 0, "BEGIN", "",
        "the SQL macro SQ_GEN_MAC_S got a PL/SQL block, which RUNS and reports the macro's own source text instead of a value: {q13}",
    ),
    (
        Op::WordsLack, Weight::Demand, 13, 0, "VAR ", "",
        "the SQL macro SQ_GEN_MAC_S got a PL/SQL block, which RUNS and reports the macro's own source text instead of a value: {q13}",
    ),
    (
        Op::WordsHold, Weight::Demand, 13, 0, " AS result\nFROM dual;", "",
        "SQ_GEN_MAC_S script is missing \" AS result\\nFROM dual;\": {q13}",
    ),
    (Op::RunScript, Weight::Demand, 11, 0, "{t13}", "", ""),
    (
        Op::NoFailure, Weight::Demand, 11, 0, "", "",
        "SQ_GEN_MAC_S: generated script statement failed: {k11}",
    ),
    (
        Op::Finished, Weight::Demand, 11, 0, "", "",
        "SQ_GEN_MAC_S: generated script ran no statements",
    ),
    (Op::FetchStandalone, Weight::Demand, 12, 0, "SQ_GEN_MAC_T", "", ""),
    (
        Op::BuildScript, Weight::Demand, 13, 12, "SQ_GEN_MAC_T|FUNCTION",
        "    --- SQ_GEN_MAC_T script ---\n{t13}", "",
    ),
    (
        Op::WordsLack, Weight::Demand, 13, 0, "BEGIN", "",
        "the SQL macro SQ_GEN_MAC_T got a PL/SQL block, which RUNS and reports the macro's own source text instead of a value: {q13}",
    ),
    (
        Op::WordsLack, Weight::Demand, 13, 0, "VAR ", "",
        "the SQL macro SQ_GEN_MAC_T got a PL/SQL block, which RUNS and reports the macro's own source text instead of a value: {q13}",
    ),
    (
        Op::WordsHold, Weight::Demand, 13, 0, "FROM TABLE(", "",
        "SQ_GEN_MAC_T script is missing \"FROM TABLE(\": {q13}",
    ),
    (Op::RunScript, Weight::Demand, 11, 0, "{t13}", "", ""),
    (
        Op::NoFailure, Weight::Demand, 11, 0, "", "",
        "SQ_GEN_MAC_T: generated script statement failed: {k11}",
    ),
    (
        Op::Finished, Weight::Demand, 11, 0, "", "",
        "SQ_GEN_MAC_T: generated script ran no statements",
    ),
    (Op::FetchStandalone, Weight::Demand, 12, 0, "SQ_GEN_MAC_T0", "", ""),
    (
        Op::BuildScript, Weight::Demand, 13, 12, "SQ_GEN_MAC_T0|FUNCTION",
        "    --- SQ_GEN_MAC_T0 script ---\n{t13}", "",
    ),
    (
        Op::WordsLack, Weight::Demand, 13, 0, "BEGIN", "",
        "the SQL macro SQ_GEN_MAC_T0 got a PL/SQL block, which RUNS and reports the macro's own source text instead of a value: {q13}",
    ),
    (
        Op::WordsLack, Weight::Demand, 13, 0, "VAR ", "",
        "the SQL macro SQ_GEN_MAC_T0 got a PL/SQL block, which RUNS and reports the macro's own source text instead of a value: {q13}",
    ),
    (
        Op::WordsHold, Weight::Demand, 13, 0, "FROM TABLE(", "",
        "SQ_GEN_MAC_T0 script is missing \"FROM TABLE(\": {q13}",
    ),
    (Op::RunScript, Weight::Demand, 11, 0, "{t13}", "", ""),
    (
        Op::NoFailure, Weight::Demand, 11, 0, "", "",
        "SQ_GEN_MAC_T0: generated script statement failed: {k11}",
    ),
    (
        Op::Finished, Weight::Demand, 11, 0, "", "",
        "SQ_GEN_MAC_T0: generated script ran no statements",
    ),
    (Op::FetchMember, Weight::Demand, 12, 0, "SQ_GEN_MAC_PKG|M", "", ""),
    (
        Op::BuildScript, Weight::Demand, 13, 12, "SQ_GEN_MAC_PKG.M|FUNCTION",
        "    --- SQ_GEN_MAC_PKG.M script ---\n{t13}", "",
    ),
    (
        Op::WordsLack, Weight::Demand, 13, 0, "BEGIN", "",
        "the SQL macro SQ_GEN_MAC_PKG.M got a PL/SQL block, which RUNS and reports the macro's own source text instead of a value: {q13}",
    ),
    (
        Op::WordsLack, Weight::Demand, 13, 0, "VAR ", "",
        "the SQL macro SQ_GEN_MAC_PKG.M got a PL/SQL block, which RUNS and reports the macro's own source text instead of a value: {q13}",
    ),
    (
        Op::WordsHold, Weight::Demand, 13, 0, " AS result\nFROM dual;", "",
        "SQ_GEN_MAC_PKG.M script is missing \" AS result\\nFROM dual;\": {q13}",
    ),
    (Op::RunScript, Weight::Demand, 11, 0, "{t13}", "", ""),
    (
        Op::NoFailure, Weight::Demand, 11, 0, "", "",
        "SQ_GEN_MAC_PKG.M: generated script statement failed: {k11}",
    ),
    (
        Op::Finished, Weight::Demand, 11, 0, "", "",
        "SQ_GEN_MAC_PKG.M: generated script ran no statements",
    ),
    (
        Op::Say, Weight::Try, 0, 0, "",
        "    OK: scalar and table SQL macros, standalone and package member, are called from SQL",
        "",
    ),
    (Op::SkipUnless, Weight::Try, 21, 5, "", "", ""),
    (Op::FetchStandalone, Weight::Demand, 12, 0, "SQ_GEN_PTF", "", ""),
    (Op::BuildScript, Weight::Try, 13, 12, "SQ_GEN_PTF|FUNCTION", "", ""),
    (
        Op::RefusedBy, Weight::Demand, 13, 0, "SQ_GEN_PTF", "",
        "SQ_GEN_PTF must refuse with a sentence naming it, got {V13}",
    ),
    (
        Op::RefusedBy, Weight::Demand, 13, 0, "polymorphic table function", "",
        "SQ_GEN_PTF must refuse with a sentence naming it, got {V13}",
    ),
    (Op::Say, Weight::Try, 0, 0, "", "    OK: a polymorphic table function refuses - {t13}", ""),
    (Op::FetchStandalone, Weight::Demand, 12, 0, "\"SQ_GEN.DOT\"", "", ""),
    (
        Op::ArgumentsAre, Weight::Demand, 12, 1, "", "",
        "dotted-name fetch returned {Z12} argument rows, want 1",
    ),
    (
        Op::BuildScript, Weight::Demand, 13, 12, "\"SQ_GEN.DOT\"|PROCEDURE",
        "    --- \"SQ_GEN.DOT\" script ---\n{t13}", "",
    ),
    (Op::RunScript, Weight::Demand, 11, 0, "{t13}", "", ""),
    (
        Op::NoFailure, Weight::Demand, 11, 0, "", "",
        "SQ_GEN.DOT: generated script statement failed: {k11}",
    ),
    (Op::Finished, Weight::Demand, 11, 0, "", "", "SQ_GEN.DOT: generated script ran no statements"),
    (Op::Say, Weight::Try, 0, 0, "", "    OK: dotted-name script ran", ""),
    (Op::FetchStandalone, Weight::Demand, 12, 0, "SQ_GEN_NOARG", "", ""),
    (
        Op::ArgumentsAre, Weight::Demand, 12, 0, "", "",
        "SQ_GEN_NOARG reported {Z12} argument rows, want none",
    ),
    (Op::Say, Weight::Try, 0, 0, "", "    OK: argument-less routine still resolves", ""),
    (Op::RefuseStandalone, Weight::Demand, 12, 0, "SQ_GEN_BAD", "", "an INVALID routine"),
    (
        Op::WordsHold, Weight::Demand, 12, 0, "SQ_GEN_BAD", "",
        "SQ_GEN_BAD refusal does not name it: {t12}",
    ),
    (
        Op::WordsHold, Weight::Demand, 12, 0, "INVALID", "",
        "SQ_GEN_BAD refusal does not say WHY (its ALL_OBJECTS status): {t12}",
    ),
    (Op::Say, Weight::Try, 0, 0, "", "    OK: INVALID routine is refused - {t12}", ""),
    (Op::RefuseStandalone, Weight::Demand, 12, 0, "SQ_GEN_MISSING", "", "a missing routine"),
    (Op::SharedSentence, Weight::Try, 13, 0, "SQ_GEN_MISSING", "", ""),
    (
        Op::SameWords, Weight::Demand, 12, 13, "", "",
        "the missing-routine refusal is not the shared sentence: {t12}",
    ),
    (Op::Say, Weight::Try, 0, 0, "", "    OK: missing routine is refused - {t12}", ""),
    (Op::Cleanup, Weight::Try, 0, 0, "", "", ""),
    (Op::Run, Weight::Try, 99, 0, "DROP FUNCTION SQ_GEN_PTF", "", ""),
    (Op::Run, Weight::Try, 99, 0, "DROP PACKAGE SQ_GEN_PTF_PKG", "", ""),
    (Op::Run, Weight::Try, 99, 0, "DROP PACKAGE SQ_GEN_MAC_PKG", "", ""),
    (Op::Run, Weight::Try, 99, 0, "DROP FUNCTION SQ_GEN_MAC_T0", "", ""),
    (Op::Run, Weight::Try, 99, 0, "DROP FUNCTION SQ_GEN_MAC_T", "", ""),
    (Op::Run, Weight::Try, 99, 0, "DROP FUNCTION SQ_GEN_MAC_S", "", ""),
    (Op::Run, Weight::Try, 99, 0, "DROP PACKAGE SQ_GEN_OVL_PKG", "", ""),
    (Op::Run, Weight::Try, 99, 0, "DROP PACKAGE SQ_GEN_XKIND", "", ""),
    (Op::Run, Weight::Try, 99, 0, "DROP PACKAGE SQ_GEN_CASE_PKG", "", ""),
    (Op::Run, Weight::Try, 99, 0, "DROP PROCEDURE \"SQ_GEN.DOT\"", "", ""),
    (Op::Run, Weight::Try, 99, 0, "DROP PROCEDURE SQ_GEN_NOARG", "", ""),
    (Op::Run, Weight::Try, 99, 0, "DROP PROCEDURE SQ_GEN_BAD", "", ""),
    (Op::Run, Weight::Try, 99, 0, "DROP FUNCTION SQ_GEN_AGG", "", ""),
    (Op::Run, Weight::Try, 99, 0, "DROP TYPE SQ_GEN_AGG_T FORCE", "", ""),
    (Op::Run, Weight::Try, 99, 0, "DROP FUNCTION SQ_GEN_PIPE0", "", ""),
    (Op::Run, Weight::Try, 99, 0, "DROP FUNCTION SQ_GEN_PIPE", "", ""),
    (Op::Run, Weight::Try, 99, 0, "DROP TYPE SQ_GEN_PIPE_TAB FORCE", "", ""),
    (Op::Run, Weight::Try, 99, 0, "COMMIT", "", ""),
    (Op::Settled, Weight::Try, 0, 0, "", "", ""),
];

/// From a click on a routine to what the user is shown, on Oracle.
pub const ORACLE_ACTION: [Row; 54] = [
    (
        Op::Run, Weight::Leave, 11, 0,
        "CREATE OR REPLACE PROCEDURE SQ_ACT_PROC(a IN NUMBER) IS BEGIN NULL; END;", "", "",
    ),
    (Op::Finished, Weight::Leave, 11, 0, "", "", "action setup: no result"),
    (
        Op::LastSucceeded, Weight::Leave, 11, 0, "", "",
        "action setup failed for \"CREATE OR REPLACE PROCEDURE SQ_ACT_PROC(a IN NUMBER) IS BEGIN NULL; END;\": {p11}",
    ),
    (
        Op::Run, Weight::Leave, 11, 0, "CREATE OR REPLACE TYPE SQ_ACT_PIPE_TAB AS TABLE OF NUMBER",
        "", "",
    ),
    (Op::Finished, Weight::Leave, 11, 0, "", "", "action setup: no result"),
    (
        Op::LastSucceeded, Weight::Leave, 11, 0, "", "",
        "action setup failed for \"CREATE OR REPLACE TYPE SQ_ACT_PIPE_TAB AS TABLE OF NUMBER\": {p11}",
    ),
    (
        Op::Run, Weight::Leave, 11, 0,
        "CREATE OR REPLACE PACKAGE SQ_ACT_PKG AS\n  PROCEDURE \"myProc\"(p_a IN NUMBER, p_b OUT VARCHAR2);\n  FUNCTION pf(n NUMBER) RETURN SQ_ACT_PIPE_TAB PIPELINED;\nEND;",
        "", "",
    ),
    (Op::Finished, Weight::Leave, 11, 0, "", "", "action setup: no result"),
    (
        Op::LastSucceeded, Weight::Leave, 11, 0, "", "",
        "action setup failed for \"CREATE OR REPLACE PACKAGE SQ_ACT_PKG AS\\n  PROCEDURE \\\"myProc\\\"(p_a IN NUMBER, p_b OUT VARCHAR2);\\n  FUNCTION pf(n NUMBER) RETURN SQ_ACT_PIPE_TAB PIPELINED;\\nEND;\": {p11}",
    ),
    (
        Op::Run, Weight::Leave, 11, 0,
        "CREATE OR REPLACE PACKAGE BODY SQ_ACT_PKG AS\n  PROCEDURE \"myProc\"(p_a IN NUMBER, p_b OUT VARCHAR2) IS BEGIN p_b := 'x'; END;\n  FUNCTION pf(n NUMBER) RETURN SQ_ACT_PIPE_TAB PIPELINED IS\n  BEGIN PIPE ROW(NVL(n, 0)); RETURN; END;\nEND;",
        "", "",
    ),
    (Op::Finished, Weight::Leave, 11, 0, "", "", "action setup: no result"),
    (
        Op::LastSucceeded, Weight::Leave, 11, 0, "", "",
        "action setup failed for \"CREATE OR REPLACE PACKAGE BODY SQ_ACT_PKG AS\\n  PROCEDURE \\\"myProc\\\"(p_a IN NUMBER, p_b OUT VARCHAR2) IS BEGIN p_b := 'x'; END;\\n  FUNCTION pf(n NUMBER) RETURN SQ_ACT_PIPE_TAB PIPELINED IS\\n  BEGIN PIPE ROW(NVL(n, 0)); RETURN; END;\\nEND;\": {p11}",
    ),
    (Op::Run, Weight::Try, 99, 0, "COMMIT", "", ""),
    (
        Op::Say, Weight::Try, 0, 0, "",
        "  [action round-trip: load on a pooled session -> what the user is shown]", "",
    ),
    (Op::Deliver, Weight::Try, 14, 0, "PROCEDURES|SQ_ACT_PROC|PROCEDURE", "", ""),
    (
        Op::OpensScript, Weight::Demand, 14, 0, "", "",
        "{D14} ({K14}): a readable routine must open a script and say nothing, got alert={A14} sql={S14}",
    ),
    (Op::Say, Weight::Try, 0, 0, "", "    --- {D14} action script ---\n{Q14}", ""),
    (Op::RunScript, Weight::Demand, 11, 0, "{Q14}", "", ""),
    (
        Op::NoFailure, Weight::Demand, 11, 0, "", "",
        "SQ_ACT_PROC: generated script statement failed: {k11}",
    ),
    (
        Op::Finished, Weight::Demand, 11, 0, "", "",
        "SQ_ACT_PROC: generated script ran no statements",
    ),
    (
        Op::Say, Weight::Try, 0, 0, "",
        "    OK: an ordinary routine's action opens a script that runs", "",
    ),
    (Op::Deliver, Weight::Try, 14, 0, "PROCEDURES|SQ_ACT_MISSING|PROCEDURE", "", ""),
    (
        Op::OpensNothing, Weight::Demand, 14, 0, "", "",
        "{D14}: an unreadable routine must open nothing, got alert={A14} sql={S14}",
    ),
    (Op::SharedSentence, Weight::Try, 13, 0, "{D14}", "", ""),
    (
        Op::AlertIs, Weight::Demand, 14, 0, "{t13}", "",
        "{D14}: the refusal is not the shared unreadable sentence.\n  got:  {R14}\n  want: {t13}",
    ),
    (Op::Say, Weight::Try, 0, 0, "", "    OK: an unreadable routine opens nothing - {R14}", ""),
    (Op::DeliverMember, Weight::Try, 14, 0, "SQ_ACT_PKG|myProc|UNKNOWN", "", ""),
    (
        Op::DeliveredKind, Weight::Demand, 14, 0, "PROCEDURE", "",
        "Execute Routine on SQ_ACT_PKG.myProc resolved kind {J14}, want \"PROCEDURE\" (alert={A14})",
    ),
    (
        Op::NameEnds, Weight::Demand, 14, 0, "\"myProc\"", "",
        "Execute Routine on SQ_ACT_PKG.myProc named it {E14}, want a name ending \"\\\"myProc\\\"\" - the listing's own spelling is what the script must write",
    ),
    (
        Op::HasScript, Weight::Demand, 14, 0, "", "",
        "Execute Routine on SQ_ACT_PKG.myProc opened nothing (alert={A14})",
    ),
    (Op::Say, Weight::Try, 0, 0, "", "    --- {D14} action script ---\n{Q14}", ""),
    (Op::RunScript, Weight::Demand, 11, 0, "{Q14}", "", ""),
    (
        Op::NoFailure, Weight::Demand, 11, 0, "", "",
        "myProc: generated script statement failed: {k11}",
    ),
    (Op::Finished, Weight::Demand, 11, 0, "", "", "myProc: generated script ran no statements"),
    (
        Op::Say, Weight::Try, 0, 0, "",
        "    OK: Execute Routine resolved myProc to {K14} {D14} and it ran", "",
    ),
    (Op::DeliverMember, Weight::Try, 14, 0, "SQ_ACT_PKG|PF|UNKNOWN", "", ""),
    (
        Op::DeliveredKind, Weight::Demand, 14, 0, "FUNCTION", "",
        "Execute Routine on SQ_ACT_PKG.PF resolved kind {J14}, want \"FUNCTION\" (alert={A14})",
    ),
    (
        Op::NameEnds, Weight::Demand, 14, 0, "PF", "",
        "Execute Routine on SQ_ACT_PKG.PF named it {E14}, want a name ending \"PF\" - the listing's own spelling is what the script must write",
    ),
    (
        Op::HasScript, Weight::Demand, 14, 0, "", "",
        "Execute Routine on SQ_ACT_PKG.PF opened nothing (alert={A14})",
    ),
    (Op::Say, Weight::Try, 0, 0, "", "    --- {D14} action script ---\n{Q14}", ""),
    (Op::RunScript, Weight::Demand, 11, 0, "{Q14}", "", ""),
    (Op::NoFailure, Weight::Demand, 11, 0, "", "", "PF: generated script statement failed: {k11}"),
    (Op::Finished, Weight::Demand, 11, 0, "", "", "PF: generated script ran no statements"),
    (
        Op::Say, Weight::Try, 0, 0, "",
        "    OK: Execute Routine resolved PF to {K14} {D14} and it ran", "",
    ),
    (Op::DeliverMember, Weight::Try, 14, 0, "SQ_ACT_PKG|SQ_ACT_NOPE|UNKNOWN", "", ""),
    (
        Op::OpensNothing, Weight::Demand, 14, 0, "", "",
        "Execute Routine on SQ_ACT_PKG.SQ_ACT_NOPE (kind={J14}) must refuse with \"Could not resolve package routine type for SQ_ACT_PKG.SQ_ACT_NOPE\" and open nothing, got alert={A14} sql={S14}",
    ),
    (
        Op::AlertIs, Weight::Demand, 14, 0,
        "Could not resolve package routine type for SQ_ACT_PKG.SQ_ACT_NOPE", "",
        "Execute Routine on SQ_ACT_PKG.SQ_ACT_NOPE (kind={J14}) must refuse with \"Could not resolve package routine type for SQ_ACT_PKG.SQ_ACT_NOPE\" and open nothing, got alert={A14} sql={S14}",
    ),
    (
        Op::Say, Weight::Try, 0, 0, "",
        "    OK: an unresolvable member refuses in the catalog's words - {R14}", "",
    ),
    (Op::Cleanup, Weight::Try, 0, 0, "", "", ""),
    (Op::Run, Weight::Try, 99, 0, "DROP PACKAGE SQ_ACT_PKG", "", ""),
    (Op::Run, Weight::Try, 99, 0, "DROP TYPE SQ_ACT_PIPE_TAB FORCE", "", ""),
    (Op::Run, Weight::Try, 99, 0, "DROP PROCEDURE SQ_ACT_PROC", "", ""),
    (Op::Run, Weight::Try, 99, 0, "COMMIT", "", ""),
    (Op::Settled, Weight::Try, 0, 0, "", "", ""),
];

/// From a click on a routine to what the user is shown, on the MySQL family.
pub const MYSQL_ACTION: [Row; 26] = [
    (Op::Run, Weight::Leave, 11, 0, "DROP PROCEDURE IF EXISTS SQ_ACT_PROC", "", ""),
    (Op::Finished, Weight::Leave, 11, 0, "", "", "action setup: no result"),
    (
        Op::LastSucceeded, Weight::Leave, 11, 0, "", "",
        "action setup failed for \"DROP PROCEDURE IF EXISTS SQ_ACT_PROC\": {p11}",
    ),
    (Op::Run, Weight::Leave, 11, 0, "CREATE PROCEDURE SQ_ACT_PROC(IN a INT) SELECT a", "", ""),
    (Op::Finished, Weight::Leave, 11, 0, "", "", "action setup: no result"),
    (
        Op::LastSucceeded, Weight::Leave, 11, 0, "", "",
        "action setup failed for \"CREATE PROCEDURE SQ_ACT_PROC(IN a INT) SELECT a\": {p11}",
    ),
    (Op::Run, Weight::Try, 99, 0, "COMMIT", "", ""),
    (
        Op::Say, Weight::Try, 0, 0, "",
        "  [action round-trip: load on a pooled session -> what the user is shown]", "",
    ),
    (Op::Deliver, Weight::Try, 14, 0, "PROCEDURES|SQ_ACT_PROC|PROCEDURE", "", ""),
    (
        Op::OpensScript, Weight::Demand, 14, 0, "", "",
        "{D14} ({K14}): a readable routine must open a script and say nothing, got alert={A14} sql={S14}",
    ),
    (Op::Say, Weight::Try, 0, 0, "", "    --- {D14} action script ---\n{Q14}", ""),
    (Op::RunScript, Weight::Demand, 11, 0, "{Q14}", "", ""),
    (
        Op::NoFailure, Weight::Demand, 11, 0, "", "",
        "SQ_ACT_PROC: generated script statement failed: {k11}",
    ),
    (
        Op::Finished, Weight::Demand, 11, 0, "", "",
        "SQ_ACT_PROC: generated script ran no statements",
    ),
    (
        Op::Say, Weight::Try, 0, 0, "",
        "    OK: an ordinary routine's action opens a script that runs", "",
    ),
    (
        Op::DeliveredAs, Weight::Demand, 14, 0, "{t04}.SQ_ACT_PROC", "",
        "a scope-less action must still name the session's own database: got {E14}, want \"{t04}.SQ_ACT_PROC\"",
    ),
    (Op::Say, Weight::Try, 0, 0, "", "    OK: a scope-less action names {D14}", ""),
    (Op::Deliver, Weight::Try, 14, 0, "PROCEDURES|SQ_ACT_MISSING|PROCEDURE", "", ""),
    (
        Op::OpensNothing, Weight::Demand, 14, 0, "", "",
        "{D14}: an unreadable routine must open nothing, got alert={A14} sql={S14}",
    ),
    (Op::SharedSentence, Weight::Try, 13, 0, "{D14}", "", ""),
    (
        Op::AlertIs, Weight::Demand, 14, 0, "{t13}", "",
        "{D14}: the refusal is not the shared unreadable sentence.\n  got:  {R14}\n  want: {t13}",
    ),
    (Op::Say, Weight::Try, 0, 0, "", "    OK: an unreadable routine opens nothing - {R14}", ""),
    (Op::Cleanup, Weight::Try, 0, 0, "", "", ""),
    (Op::Run, Weight::Try, 99, 0, "DROP PROCEDURE IF EXISTS SQ_ACT_PROC", "", ""),
    (Op::Run, Weight::Try, 99, 0, "COMMIT", "", ""),
    (Op::Settled, Weight::Try, 0, 0, "", "", ""),
];

/// Same-named routines, and arguments of every direction and type.
pub const MYSQL_GENERATION: [Row; 62] = [
    (
        Op::Say, Weight::Try, 0, 0, "",
        "  [generation round-trip: same-named routines + OUT-parameter function]", "",
    ),
    (Op::MetaConnect, Weight::Leave, 13, 0, "", "", "mysql metadata connect: {z13}"),
    (Op::Ddl, Weight::Leave, 99, 0, "DROP PROCEDURE IF EXISTS SQ_GEN_DUP", "", ""),
    (Op::Ddl, Weight::Leave, 99, 0, "DROP FUNCTION IF EXISTS SQ_GEN_DUP", "", ""),
    (
        Op::Ddl, Weight::Leave, 99, 0,
        "CREATE PROCEDURE SQ_GEN_DUP(IN a INT, OUT b VARCHAR(20)) SET b = CONCAT('n:', a)", "", "",
    ),
    (
        Op::Ddl, Weight::Leave, 99, 0,
        "CREATE FUNCTION SQ_GEN_DUP(x INT) RETURNS INT DETERMINISTIC RETURN x + 1", "", "",
    ),
    (Op::FetchMysql, Weight::Demand, 12, 1, "SQ_GEN_DUP", "", "function argument fetch: {z12}"),
    (
        Op::ArgumentsAre, Weight::Demand, 12, 2, "", "",
        "function argument fetch returned {Z12} rows (want RETURN + x); the procedure's parameters leaked in: {O12}",
    ),
    (
        Op::BuildScript, Weight::Demand, 13, 12, "SQ_GEN_DUP|FUNCTION",
        "    --- function script ---\n{t13}", "",
    ),
    (Op::RunScript, Weight::Demand, 11, 0, "{t13}", "", ""),
    (
        Op::NoFailure, Weight::Demand, 11, 0, "", "",
        "function script: generated script statement failed: {k11}",
    ),
    (
        Op::Finished, Weight::Demand, 11, 0, "", "",
        "function script: generated script ran no statements",
    ),
    (Op::CellIs, Weight::Demand, 11, 0, "1", "", "function script returned {C11}, want \"1\""),
    (Op::Run, Weight::Try, 99, 0, "COMMIT", "", ""),
    (
        Op::Say, Weight::Try, 0, 0, "",
        "    OK: Execute Function picked the function's own arguments", "",
    ),
    (Op::FetchMysql, Weight::Demand, 12, 0, "SQ_GEN_DUP", "", "procedure argument fetch: {z12}"),
    (
        Op::NamesAre, Weight::Demand, 12, 0, "a|b", "",
        "procedure argument fetch returned {L12}, want [\"a\", \"b\"]",
    ),
    (
        Op::BuildScript, Weight::Demand, 13, 12, "SQ_GEN_DUP|PROCEDURE",
        "    --- procedure script ---\n{t13}", "",
    ),
    (
        Op::WordsHold, Weight::Demand, 13, 0, "CALL ", "",
        "procedure script lost its CALL/OUT shape: {q13}",
    ),
    (
        Op::WordsHold, Weight::Demand, 13, 0, "@v_b", "",
        "procedure script lost its CALL/OUT shape: {q13}",
    ),
    (Op::RunScript, Weight::Demand, 11, 0, "{t13}", "", ""),
    (
        Op::NoFailure, Weight::Demand, 11, 0, "", "",
        "procedure script: generated script statement failed: {k11}",
    ),
    (
        Op::Finished, Weight::Demand, 11, 0, "", "",
        "procedure script: generated script ran no statements",
    ),
    (Op::CellIs, Weight::Demand, 11, 0, "n:0", "", "procedure OUT read back {C11}, want \"n:0\""),
    (Op::Run, Weight::Try, 99, 0, "COMMIT", "", ""),
    (
        Op::Say, Weight::Try, 0, 0, "",
        "    OK: Execute Procedure picked the procedure's own arguments", "",
    ),
    (Op::Ddl, Weight::Demand, 99, 0, "DROP PROCEDURE IF EXISTS SQ_GEN_INOUTP", "", ""),
    (
        Op::Ddl, Weight::Demand, 99, 0,
        "CREATE PROCEDURE SQ_GEN_INOUTP(IN a INT, INOUT c INT, OUT b VARCHAR(20)) BEGIN SET c = c + 41; SET b = CONCAT('c=', c); END",
        "", "",
    ),
    (Op::FetchMysql, Weight::Demand, 12, 0, "SQ_GEN_INOUTP", "", "IN OUT argument fetch: {z12}"),
    (
        Op::BuildScript, Weight::Demand, 13, 12, "SQ_GEN_INOUTP|PROCEDURE",
        "    --- IN OUT script ---\n{t13}", "",
    ),
    (
        Op::WordsHold, Weight::Demand, 13, 0, "SET @v_c = 0;", "",
        "IN OUT script lacks \"SET @v_c = 0;\": {q13}",
    ),
    (Op::WordsHold, Weight::Demand, 13, 0, "@v_b", "", "IN OUT script lacks \"@v_b\": {q13}"),
    (
        Op::WordsHold, Weight::Demand, 13, 0, "SELECT @v_c AS `c`;", "",
        "IN OUT script lacks \"SELECT @v_c AS `c`;\": {q13}",
    ),
    (Op::RunScript, Weight::Demand, 11, 0, "{t13}", "", ""),
    (
        Op::NoFailure, Weight::Demand, 11, 0, "", "",
        "IN OUT script: generated script statement failed: {k11}",
    ),
    (
        Op::Finished, Weight::Demand, 11, 0, "", "",
        "IN OUT script: generated script ran no statements",
    ),
    (
        Op::CellIs, Weight::Demand, 11, 0, "c=41", "",
        "IN OUT round trip read back {C11}, want \"c=41\" (0 seeded in, +41 out)",
    ),
    (Op::Run, Weight::Try, 99, 0, "COMMIT", "", ""),
    (Op::Ddl, Weight::Demand, 99, 0, "DROP PROCEDURE IF EXISTS SQ_GEN_INOUTP", "", ""),
    (
        Op::Say, Weight::Try, 0, 0, "",
        "    OK: IN OUT was seeded going in and read back coming out", "",
    ),
    (Op::Ddl, Weight::Demand, 99, 0, "DROP PROCEDURE IF EXISTS SQ_GEN_LONGP", "", ""),
    (
        Op::Ddl, Weight::Demand, 99, 0,
        "CREATE PROCEDURE SQ_GEN_LONGP(OUT p_aaaaaaaaaaaaaaaaaaaaaaaaaaaaaaaaaaaaaaaaaaaaaaaaaaaaaaaaaaaaaa INT) SET p_aaaaaaaaaaaaaaaaaaaaaaaaaaaaaaaaaaaaaaaaaaaaaaaaaaaaaaaaaaaaaa = 9",
        "", "",
    ),
    (Op::FetchMysql, Weight::Demand, 12, 0, "SQ_GEN_LONGP", "", "long-name argument fetch: {z12}"),
    (
        Op::BuildScript, Weight::Demand, 13, 12, "SQ_GEN_LONGP|PROCEDURE",
        "    --- identifier-limit name script ---\n{t13}", "",
    ),
    (
        Op::WordsHold, Weight::Demand, 13, 0,
        "AS `p_aaaaaaaaaaaaaaaaaaaaaaaaaaaaaaaaaaaaaaaaaaaaaaaaaaaaaaaaaaaaaa`;", "",
        "long-name script lost the alias: {q13}",
    ),
    (Op::RunScript, Weight::Demand, 11, 0, "{t13}", "", ""),
    (
        Op::NoFailure, Weight::Demand, 11, 0, "", "",
        "long-name script: generated script statement failed: {k11}",
    ),
    (
        Op::Finished, Weight::Demand, 11, 0, "", "",
        "long-name script: generated script ran no statements",
    ),
    (Op::CellIs, Weight::Demand, 11, 0, "9", "", "long-name OUT read back {C11}, want \"9\""),
    (Op::Run, Weight::Try, 99, 0, "COMMIT", "", ""),
    (Op::Ddl, Weight::Demand, 99, 0, "DROP PROCEDURE IF EXISTS SQ_GEN_LONGP", "", ""),
    (
        Op::Say, Weight::Try, 0, 0, "",
        "    OK: an identifier-limit parameter name still generates a runnable call", "",
    ),
    (Op::Ddl, Weight::Demand, 99, 0, "DROP PROCEDURE IF EXISTS SQ_GEN_TYPEP", "", ""),
    (
        Op::Ddl, Weight::Demand, 99, 0,
        "CREATE PROCEDURE SQ_GEN_TYPEP(IN c01 TINYINT, IN c02 SMALLINT, IN c03 MEDIUMINT, IN c04 INT, IN c05 BIGINT, IN c06 DECIMAL(10,2), IN c07 FLOAT, IN c08 DOUBLE, IN c09 BIT(8), IN c10 BOOL, IN c11 DATE, IN c12 DATETIME, IN c13 TIMESTAMP, IN c14 TIME, IN c15 YEAR, IN c16 CHAR(3), IN c17 VARCHAR(10), IN c18 BINARY(4), IN c19 VARBINARY(4), IN c20 BLOB, IN c21 TEXT, IN c22 JSON, IN c23 ENUM('a','b'), IN c24 SET('x','y'), IN c25 GEOMETRY) SELECT 1",
        "", "",
    ),
    (Op::FetchMysql, Weight::Demand, 12, 0, "SQ_GEN_TYPEP", "", "typed argument fetch: {z12}"),
    (
        Op::BuildScript, Weight::Demand, 13, 12, "SQ_GEN_TYPEP|PROCEDURE",
        "    --- typed-placeholder script ---\n{t13}", "",
    ),
    (Op::RunScript, Weight::Demand, 11, 0, "{t13}", "", ""),
    (
        Op::NoFailure, Weight::Demand, 11, 0, "", "",
        "typed-placeholder script: generated script statement failed: {k11}",
    ),
    (
        Op::Finished, Weight::Demand, 11, 0, "", "",
        "typed-placeholder script: generated script ran no statements",
    ),
    (Op::Run, Weight::Try, 99, 0, "COMMIT", "", ""),
    (Op::Ddl, Weight::Demand, 99, 0, "DROP PROCEDURE IF EXISTS SQ_GEN_TYPEP", "", ""),
    (
        Op::Say, Weight::Try, 0, 0, "",
        "    OK: JSON/ENUM/SET placeholders are values the engine accepts", "",
    ),
];

/// A function with an OUT parameter.
pub const MARIADB_OUT_FUNCTION: [Row; 11] = [
    (Op::Ddl, Weight::Demand, 99, 0, "DROP FUNCTION IF EXISTS SQ_GEN_OUTFN", "", ""),
    (
        Op::Ddl, Weight::Demand, 99, 0,
        "CREATE FUNCTION SQ_GEN_OUTFN(OUT o INT) RETURNS INT DETERMINISTIC BEGIN SET o = 7; RETURN 1; END",
        "", "",
    ),
    (
        Op::FetchMysql, Weight::Demand, 12, 1, "SQ_GEN_OUTFN", "",
        "OUT-function argument fetch: {z12}",
    ),
    (
        Op::BuildScript, Weight::Demand, 13, 12, "SQ_GEN_OUTFN|FUNCTION",
        "    --- OUT-function script ---\n{t13}", "",
    ),
    (
        Op::WordsHold, Weight::Demand, 13, 0, "SET @v_result = ", "",
        "OUT-parameter function script kept the SELECT calling shape the server refuses: {q13}",
    ),
    (Op::RunScript, Weight::Demand, 11, 0, "{t13}", "", ""),
    (
        Op::NoFailure, Weight::Demand, 11, 0, "", "",
        "OUT-function script: generated script statement failed: {k11}",
    ),
    (
        Op::Finished, Weight::Demand, 11, 0, "", "",
        "OUT-function script: generated script ran no statements",
    ),
    (Op::CellIs, Weight::Demand, 11, 0, "7", "", "OUT value read back {C11}, want \"7\""),
    (Op::Run, Weight::Try, 99, 0, "COMMIT", "", ""),
    (
        Op::Say, Weight::Try, 0, 0, "", "    OK: OUT-parameter function used the SET calling shape",
        "",
    ),
];

/// The session's own database, missing routines, dotted names, and the clean-up.
pub const MYSQL_NAMES: [Row; 47] = [
    (Op::Ddl, Weight::Demand, 99, 0, "CREATE DATABASE IF NOT EXISTS SQ_GEN_FOLD_DB", "", ""),
    (Op::Ddl, Weight::Demand, 99, 0, "DROP PROCEDURE IF EXISTS SQ_GEN_FOLDP", "", ""),
    (
        Op::Ddl, Weight::Demand, 99, 0, "DROP PROCEDURE IF EXISTS SQ_GEN_FOLD_DB.SQ_GEN_FOLDP", "",
        "",
    ),
    (
        Op::Ddl, Weight::Demand, 99, 0, "CREATE PROCEDURE SQ_GEN_FOLDP(IN a_main INT) SELECT 1", "",
        "",
    ),
    (
        Op::Ddl, Weight::Demand, 99, 0,
        "CREATE PROCEDURE SQ_GEN_FOLD_DB.SQ_GEN_FOLDP(IN a_other INT) SELECT 1", "", "",
    ),
    (Op::FetchMysql, Weight::Demand, 12, 0, "SQ_GEN_FOLDP", "", "fold probe fetch: {z12}"),
    (
        Op::NamesAre, Weight::Demand, 12, 0, "a_main", "",
        "fold probe in {t04} returned {L12}, want [\"a_main\"]",
    ),
    (Op::MetaQuery, Weight::Demand, 13, 0, "USE SQ_GEN_FOLD_DB", "", "USE SQ_GEN_FOLD_DB: {z13}"),
    (Op::FetchMysql, Weight::Try, 12, 0, "SQ_GEN_FOLDP", "", ""),
    (Op::MetaQuery, Weight::Demand, 13, 0, "USE {t04}", "", "USE {t04}: {z13}"),
    (Op::Fetched, Weight::Demand, 12, 0, "", "", "fold probe fetch: {z12}"),
    (
        Op::NamesAre, Weight::Demand, 12, 0, "a_other", "",
        "BUG: after USE SQ_GEN_FOLD_DB the schema-less lookup answered {L12} (want [\"a_other\"]) — the prepared statement is still bound to the database it was first prepared in",
    ),
    (
        Op::Say, Weight::Try, 0, 0, "",
        "    OK: schema-less lookup follows the session's CURRENT database", "",
    ),
    (Op::Ddl, Weight::Demand, 99, 0, "DROP PROCEDURE IF EXISTS SQ_GEN_NOARG", "", ""),
    (Op::Ddl, Weight::Demand, 99, 0, "CREATE PROCEDURE SQ_GEN_NOARG() SELECT 1", "", ""),
    (
        Op::FetchMysql, Weight::Demand, 12, 0, "SQ_GEN_NOARG", "",
        "parameterless routine must still resolve: {z12}",
    ),
    (
        Op::ArgumentsAre, Weight::Demand, 12, 0, "", "",
        "SQ_GEN_NOARG reported {Z12} parameters, want none",
    ),
    (Op::Say, Weight::Try, 0, 0, "", "    OK: parameterless routine still resolves", ""),
    (Op::RefuseMysql, Weight::Demand, 12, 0, "SQ_GEN_MISSING", "", "a missing routine"),
    (Op::SharedSentence, Weight::Try, 13, 0, "SQ_GEN_MISSING", "", ""),
    (
        Op::SameWords, Weight::Demand, 12, 13, "", "",
        "the missing-routine refusal is not the shared sentence: {t12}",
    ),
    (Op::Say, Weight::Try, 0, 0, "", "    OK: missing routine is refused - {t12}", ""),
    (Op::RefuseMysql, Weight::Demand, 12, 1, "SQ_GEN_NOARG", "", "the other namespace"),
    (
        Op::Say, Weight::Try, 0, 0, "",
        "    OK: the other namespace is refused, not answered empty - {t12}", "",
    ),
    (Op::Ddl, Weight::Demand, 99, 0, "DROP PROCEDURE IF EXISTS `sq_gen.dotp`", "", ""),
    (
        Op::Ddl, Weight::Demand, 99, 0,
        "CREATE PROCEDURE `sq_gen.dotp`(IN a INT, OUT b INT) SET b = a + 1", "", "",
    ),
    (Op::FetchMysql, Weight::Demand, 12, 0, "sq_gen.dotp", "", "dotted-name fetch: {z12}"),
    (
        Op::ArgumentsAre, Weight::Demand, 12, 2, "", "",
        "dotted-name fetch returned {Z12} parameters, want 2",
    ),
    (
        Op::BuildScript, Weight::Demand, 13, 12, "{t04}.`sq_gen.dotp`|PROCEDURE",
        "    --- sq_gen.dotp script ---\n{t13}", "",
    ),
    (
        Op::WordsHold, Weight::Demand, 13, 0, "`{t04}`.`sq_gen.dotp`", "",
        "dotted-name script does not name the routine as one object: {q13}",
    ),
    (Op::RunScript, Weight::Demand, 11, 0, "{t13}", "", ""),
    (
        Op::NoFailure, Weight::Demand, 11, 0, "", "",
        "sq_gen.dotp: generated script statement failed: {k11}",
    ),
    (
        Op::Finished, Weight::Demand, 11, 0, "", "",
        "sq_gen.dotp: generated script ran no statements",
    ),
    (Op::Run, Weight::Try, 99, 0, "COMMIT", "", ""),
    (Op::Say, Weight::Try, 0, 0, "", "    OK: dotted-name script ran", ""),
    (Op::Cleanup, Weight::Try, 0, 0, "", "", ""),
    (Op::Ddl, Weight::Keep, 99, 0, "DROP PROCEDURE IF EXISTS SQ_GEN_DUP", "", ""),
    (Op::Ddl, Weight::Keep, 99, 0, "DROP FUNCTION IF EXISTS SQ_GEN_DUP", "", ""),
    (Op::Ddl, Weight::Keep, 99, 0, "DROP FUNCTION IF EXISTS SQ_GEN_OUTFN", "", ""),
    (Op::Ddl, Weight::Keep, 99, 0, "DROP PROCEDURE IF EXISTS SQ_GEN_TYPEP", "", ""),
    (Op::Ddl, Weight::Keep, 99, 0, "DROP PROCEDURE IF EXISTS SQ_GEN_INOUTP", "", ""),
    (Op::Ddl, Weight::Keep, 99, 0, "DROP PROCEDURE IF EXISTS SQ_GEN_LONGP", "", ""),
    (Op::Ddl, Weight::Keep, 99, 0, "DROP PROCEDURE IF EXISTS SQ_GEN_FOLDP", "", ""),
    (Op::Ddl, Weight::Keep, 99, 0, "DROP PROCEDURE IF EXISTS SQ_GEN_NOARG", "", ""),
    (Op::Ddl, Weight::Keep, 99, 0, "DROP PROCEDURE IF EXISTS `sq_gen.dotp`", "", ""),
    (Op::Ddl, Weight::Keep, 99, 0, "DROP DATABASE IF EXISTS SQ_GEN_FOLD_DB", "", ""),
    (Op::Settled, Weight::Try, 0, 0, "", "", ""),
];

/// The end of a passed run.
pub const CLOSING: [Row; 2] = [
    (Op::Run, Weight::Try, 99, 0, "COMMIT", "", ""),
    (Op::Say, Weight::Try, 0, 0, "", ">>> {t05} OK", ""),
];

/// What sets the probes up on Oracle.
pub const ORACLE_SETUP: [&'static str; 8] = [
    "DROP PROCEDURE SQ_NOOP_PROC",
    "DROP FUNCTION SQ_NOOP_FUNC",
    "DROP PROCEDURE SQ_WRITE_PROC",
    "DROP TABLE SQ_RO_PROC_T",
    "CREATE OR REPLACE PROCEDURE SQ_NOOP_PROC AS BEGIN NULL; END;",
    "CREATE OR REPLACE FUNCTION SQ_NOOP_FUNC RETURN NUMBER AS BEGIN RETURN 42; END;",
    "CREATE TABLE SQ_RO_PROC_T (V NUMBER)",
    "CREATE OR REPLACE PROCEDURE SQ_WRITE_PROC AS BEGIN INSERT INTO SQ_RO_PROC_T VALUES (1); END;",
];

/// What sets the probes up on the MySQL family.
pub const MYSQL_SETUP: [&'static str; 8] = [
    "DROP PROCEDURE IF EXISTS SQ_NOOP_PROC",
    "DROP FUNCTION IF EXISTS SQ_NOOP_FUNC",
    "DROP PROCEDURE IF EXISTS SQ_WRITE_PROC",
    "DROP TABLE IF EXISTS SQ_RO_PROC_T",
    "CREATE PROCEDURE SQ_NOOP_PROC() SELECT 1",
    "CREATE FUNCTION SQ_NOOP_FUNC() RETURNS INT DETERMINISTIC RETURN 42",
    "CREATE TABLE SQ_RO_PROC_T (V INT)",
    "CREATE PROCEDURE SQ_WRITE_PROC() INSERT INTO SQ_RO_PROC_T VALUES (1)",
];

/// What takes the probes down on Oracle.
pub const ORACLE_TEARDOWN: [&'static str; 4] = [
    "DROP PROCEDURE SQ_NOOP_PROC",
    "DROP FUNCTION SQ_NOOP_FUNC",
    "DROP PROCEDURE SQ_WRITE_PROC",
    "DROP TABLE SQ_RO_PROC_T",
];

/// What takes the probes down on the MySQL family.
pub const MYSQL_TEARDOWN: [&'static str; 4] = [
    "DROP PROCEDURE IF EXISTS SQ_NOOP_PROC",
    "DROP FUNCTION IF EXISTS SQ_NOOP_FUNC",
    "DROP PROCEDURE IF EXISTS SQ_WRITE_PROC",
    "DROP TABLE IF EXISTS SQ_RO_PROC_T",
];

/// Ways to call a routine on Oracle, each with its label.
pub const ORACLE_PROBES: [(&'static str, &'static str); 4] = [
    ("anonymous PL/SQL block (no DML)", "BEGIN NULL; END;"),
    ("EXEC procedure", "BEGIN SQ_NOOP_PROC; END;"),
    ("function via SELECT", "SELECT SQ_NOOP_FUNC() AS V FROM dual"),
    ("function via PL/SQL OUT bind", "DECLARE v NUMBER; BEGIN v := SQ_NOOP_FUNC(); END;"),
];

/// Ways to call a routine on the MySQL family, each with its label.
pub const MYSQL_PROBES: [(&'static str, &'static str); 2] = [
    ("CALL procedure", "CALL SQ_NOOP_PROC()"),
    ("function via SELECT", "SELECT SQ_NOOP_FUNC() AS V"),
];

/// The writing call, the reading call, and the refusal on Oracle.
pub const ORACLE_FACTS: [&'static str; 4] = [
    "",
    "BEGIN SQ_WRITE_PROC; END;",
    "SELECT SQ_NOOP_FUNC() AS V FROM dual",
    "read-only mode blocks|ora-01456",
];

/// The writing call, the reading call, and the refusal on the MySQL family.
pub const MYSQL_FACTS: [&'static str; 4] = [
    "",
    "CALL SQ_WRITE_PROC()",
    "SELECT SQ_NOOP_FUNC() AS V",
    "read only",
];

} // verus!
