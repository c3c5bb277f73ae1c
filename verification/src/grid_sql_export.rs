//! Probe of the SQL that the result grid writes for a selection: it is what the
//! clipboard receives, to the letter.
use vstd::prelude::*;
use vstd::string::*;

use crate::course::{a_clean_run_passes_every_test, clean, is_test, plain, plain_adds_up, test_held};
use crate::machine::{append, course, opening, settle, Machine, Row, Weight};
use crate::op::Op;
use crate::seen::{knows, Seen};
use crate::grid::table;
use crate::progress::{QueryResult, SqlValueKind};
use crate::text::{strings, texts};

verus! {

/// The statement whose result the grid shows.
pub const SOURCE_SQL: &'static str = "SELECT ID, NAME, HIREDATE, RAW_COL, FLAG, NOTE FROM HR.EMP";

/// A column of the result that the grid shows: its name, its declared type, and
/// its kind.
pub type SampleColumn = (&'static str, &'static str, SqlValueKind);

pub const COLUMNS: [SampleColumn; 6] = [
    ("ID", "Number", SqlValueKind::Number),
    ("NAME", "Varchar", SqlValueKind::String),
    ("HIREDATE", "Date", SqlValueKind::Temporal),
    ("RAW_COL", "Raw", SqlValueKind::Binary),
    ("FLAG", "Varchar", SqlValueKind::String),
    ("NOTE", "Clob", SqlValueKind::Unknown),
];

/// The rows of that result.
pub const ROWS: [[&'static str; 6]; 2] = [
    ["7369", "it's SMITH", "1980-12-17 00:00:00", "DEADBEEF", "00123", "[LOB]"],
    ["7499", "ALLEN", "NULL", "0A0B", "007", "plain"],
];

/// The result that the grid shows.
pub fn sample_result() -> (r: QueryResult)
    ensures
        r.success,
        r.is_select,
        r.sql@ == SOURCE_SQL@,
        r.message@ == Seq::<char>::empty(),
        table(r.rows@) == seq![texts(ROWS@[0]@), texts(ROWS@[1]@)],
{
    let first = strings(&ROWS[0]);
    let second = strings(&ROWS[1]);
    let rows = vec![first, second];
    assert(table(rows@) =~= seq![texts(ROWS@[0]@), texts(ROWS@[1]@)]);
    QueryResult {
        success: true,
        is_select: true,
        sql: SOURCE_SQL.to_owned(),
        message: String::new(),
        rows,
    }
}

/// The columns of the streaming grid, its statement and its rows.
pub const STREAM_COLUMNS: [(&'static str, SqlValueKind); 2] = [
    ("ID", SqlValueKind::Number),
    ("NAME", SqlValueKind::String),
];

pub const STREAM_SQL: &'static str = "SELECT ID, NAME FROM HR.EMP ORDER BY ID";

pub const STREAM_ROWS: [[&'static str; 2]; 2] = [["7369", "SMITH"], ["7499", "ALLEN"]];

/// The statements for Oracle, of every row and column.
pub const ORACLE: [Row; 20] = [
    (Op::DisplaySample, Weight::Try, 99, 0, "", "", ""),
    (Op::SelectAll, Weight::Try, 99, 0, "", "", ""),
    (Op::Snapshot, Weight::Try, 10, 0, "HR.EMP", "", ""),
    (Op::FlagIs, Weight::Leave, 10, 1, "", "", "selection snapshot was empty after select_all"),
    (Op::BuildInserts, Weight::Part, 15, 0, "", "", "Oracle SQL Inserts was refused: {z15}"),
    (Op::CopyBack, Weight::Part, 16, 0, "{t15}", "--- Oracle SQL Inserts ---\n{t16}", ""),
    (
        Op::WordsAre, Weight::Note, 16, 0,
        "INSERT INTO HR.EMP (ID, NAME, HIREDATE, RAW_COL, FLAG, NOTE) VALUES (7369, 'it''s SMITH', TO_DATE('1980-12-17 00:00:00','YYYY-MM-DD HH24:MI:SS'), HEXTORAW('DEADBEEF'), '00123', '[LOB]');\nINSERT INTO HR.EMP (ID, NAME, HIREDATE, RAW_COL, FLAG, NOTE) VALUES (7499, 'ALLEN', NULL, HEXTORAW('0A0B'), '007', 'plain');\n",
        "PASS: Oracle SQL Inserts matches the expected SQL",
        "Oracle SQL Inserts mismatch\n  expected: \"INSERT INTO HR.EMP (ID, NAME, HIREDATE, RAW_COL, FLAG, NOTE) VALUES (7369, 'it''s SMITH', TO_DATE('1980-12-17 00:00:00','YYYY-MM-DD HH24:MI:SS'), HEXTORAW('DEADBEEF'), '00123', '[LOB]');\\nINSERT INTO HR.EMP (ID, NAME, HIREDATE, RAW_COL, FLAG, NOTE) VALUES (7499, 'ALLEN', NULL, HEXTORAW('0A0B'), '007', 'plain');\\n\"\n  actual:   {q16}",
    ),
    (Op::Join, Weight::Try, 0, 0, "", "", ""),
    (
        Op::BuildUpdates, Weight::Part, 15, 0, "ID", "",
        "Oracle SQL Updates (PK = ID) was refused: {z15}",
    ),
    (Op::CopyBack, Weight::Part, 16, 0, "{t15}", "--- Oracle SQL Updates (PK = ID) ---\n{t16}", ""),
    (
        Op::WordsAre, Weight::Note, 16, 0,
        "UPDATE HR.EMP SET NAME = 'it''s SMITH', HIREDATE = TO_DATE('1980-12-17 00:00:00','YYYY-MM-DD HH24:MI:SS'), RAW_COL = HEXTORAW('DEADBEEF'), FLAG = '00123', NOTE = '[LOB]' WHERE ID = 7369;\nUPDATE HR.EMP SET NAME = 'ALLEN', HIREDATE = NULL, RAW_COL = HEXTORAW('0A0B'), FLAG = '007', NOTE = 'plain' WHERE ID = 7499;\n",
        "PASS: Oracle SQL Updates (PK = ID) matches the expected SQL",
        "Oracle SQL Updates (PK = ID) mismatch\n  expected: \"UPDATE HR.EMP SET NAME = 'it''s SMITH', HIREDATE = TO_DATE('1980-12-17 00:00:00','YYYY-MM-DD HH24:MI:SS'), RAW_COL = HEXTORAW('DEADBEEF'), FLAG = '00123', NOTE = '[LOB]' WHERE ID = 7369;\\nUPDATE HR.EMP SET NAME = 'ALLEN', HIREDATE = NULL, RAW_COL = HEXTORAW('0A0B'), FLAG = '007', NOTE = 'plain' WHERE ID = 7499;\\n\"\n  actual:   {q16}",
    ),
    (Op::Join, Weight::Try, 0, 0, "", "", ""),
    (Op::BuildUpdates, Weight::Try, 15, 0, "EMPNO", "", ""),
    (
        Op::IsFailed, Weight::Part, 15, 0, "", "",
        "an UPDATE was written for a key the result does not carry: {q15}",
    ),
    (
        Op::RefusedBy, Weight::Note, 15, 0, "EMPNO",
        "--- Oracle SQL Updates (key not in the result) ---\n{t15}\nPASS: a key the result does not carry refuses the UPDATE",
        "the refusal does not name the missing key: {t15}",
    ),
    (Op::Join, Weight::Try, 0, 0, "", "", ""),
    (
        Op::BuildUpdates, Weight::Part, 15, 0, "", "",
        "Oracle SQL Updates (no PK) was refused: {z15}",
    ),
    (Op::CopyBack, Weight::Part, 16, 0, "{t15}", "--- Oracle SQL Updates (no PK) ---\n{t16}", ""),
    (
        Op::WordsAre, Weight::Note, 16, 0,
        "UPDATE HR.EMP SET ID = 7369, NAME = 'it''s SMITH', HIREDATE = TO_DATE('1980-12-17 00:00:00','YYYY-MM-DD HH24:MI:SS'), RAW_COL = HEXTORAW('DEADBEEF'), FLAG = '00123', NOTE = '[LOB]';\nUPDATE HR.EMP SET ID = 7499, NAME = 'ALLEN', HIREDATE = NULL, RAW_COL = HEXTORAW('0A0B'), FLAG = '007', NOTE = 'plain';\n",
        "PASS: Oracle SQL Updates (no PK) matches the expected SQL",
        "Oracle SQL Updates (no PK) mismatch\n  expected: \"UPDATE HR.EMP SET ID = 7369, NAME = 'it''s SMITH', HIREDATE = TO_DATE('1980-12-17 00:00:00','YYYY-MM-DD HH24:MI:SS'), RAW_COL = HEXTORAW('DEADBEEF'), FLAG = '00123', NOTE = '[LOB]';\\nUPDATE HR.EMP SET ID = 7499, NAME = 'ALLEN', HIREDATE = NULL, RAW_COL = HEXTORAW('0A0B'), FLAG = '007', NOTE = 'plain';\\n\"\n  actual:   {q16}",
    ),
    (Op::Join, Weight::Try, 0, 0, "", "", ""),
];

/// The statements for MySQL.
pub const MYSQL: [Row; 6] = [
    (Op::Snapshot, Weight::Try, 10, 1, "hr.emp", "", ""),
    (Op::FlagIs, Weight::Quit, 10, 1, "", "", "MySQL selection snapshot was empty"),
    (Op::BuildInserts, Weight::Part, 15, 0, "", "", "MySQL SQL Inserts was refused: {z15}"),
    (Op::CopyBack, Weight::Part, 16, 0, "{t15}", "--- MySQL SQL Inserts ---\n{t16}", ""),
    (
        Op::WordsAre, Weight::Note, 16, 0,
        "INSERT INTO `hr`.`emp` (`ID`, `NAME`, `HIREDATE`, `RAW_COL`, `FLAG`, `NOTE`) VALUES (7369, 'it''s SMITH', '1980-12-17 00:00:00', 'DEADBEEF', '00123', '[LOB]');\nINSERT INTO `hr`.`emp` (`ID`, `NAME`, `HIREDATE`, `RAW_COL`, `FLAG`, `NOTE`) VALUES (7499, 'ALLEN', NULL, '0A0B', '007', 'plain');\n",
        "PASS: MySQL SQL Inserts matches the expected SQL",
        "MySQL SQL Inserts mismatch\n  expected: \"INSERT INTO `hr`.`emp` (`ID`, `NAME`, `HIREDATE`, `RAW_COL`, `FLAG`, `NOTE`) VALUES (7369, 'it''s SMITH', '1980-12-17 00:00:00', 'DEADBEEF', '00123', '[LOB]');\\nINSERT INTO `hr`.`emp` (`ID`, `NAME`, `HIREDATE`, `RAW_COL`, `FLAG`, `NOTE`) VALUES (7499, 'ALLEN', NULL, '0A0B', '007', 'plain');\\n\"\n  actual:   {q16}",
    ),
    (Op::Join, Weight::Try, 0, 0, "", "", ""),
];

/// The conditions that find selected cells again.
pub const WHERE_CLAUSES: [Row; 14] = [
    (Op::SelectRange, Weight::Try, 99, 0, "0 0 1 0", "", ""),
    (Op::Snapshot, Weight::Try, 10, 0, "HR.EMP", "", ""),
    (Op::FlagIs, Weight::Part, 10, 1, "", "", "single-column selection snapshot was empty"),
    (
        Op::BuildWhere, Weight::Part, 15, 0, "", "",
        "Oracle Where Clause (one column) was refused: {z15}",
    ),
    (
        Op::CopyBack, Weight::Part, 16, 0, "{t15}",
        "--- Oracle Where Clause (one column) ---\n{t16}", "",
    ),
    (
        Op::WordsAre, Weight::Note, 16, 0, "ID IN (7369, 7499)",
        "PASS: Oracle Where Clause (one column) matches the expected SQL",
        "Oracle Where Clause (one column) mismatch\n  expected: \"ID IN (7369, 7499)\"\n  actual:   {q16}",
    ),
    (Op::Join, Weight::Try, 0, 0, "", "", ""),
    (Op::SelectRange, Weight::Try, 99, 0, "0 0 1 2", "", ""),
    (Op::Snapshot, Weight::Try, 10, 0, "HR.EMP", "", ""),
    (Op::FlagIs, Weight::Part, 10, 1, "", "", "three-column selection snapshot was empty"),
    (
        Op::BuildWhere, Weight::Part, 15, 0, "", "",
        "Oracle Where Clause (three columns, two rows) was refused: {z15}",
    ),
    (
        Op::CopyBack, Weight::Part, 16, 0, "{t15}",
        "--- Oracle Where Clause (three columns, two rows) ---\n{t16}", "",
    ),
    (
        Op::WordsAre, Weight::Note, 16, 0,
        "(ID = 7369 AND NAME = 'it''s SMITH' AND HIREDATE = TO_DATE('1980-12-17 00:00:00','YYYY-MM-DD HH24:MI:SS')) OR (ID = 7499 AND NAME = 'ALLEN' AND HIREDATE IS NULL)",
        "PASS: Oracle Where Clause (three columns, two rows) matches the expected SQL",
        "Oracle Where Clause (three columns, two rows) mismatch\n  expected: \"(ID = 7369 AND NAME = 'it''s SMITH' AND HIREDATE = TO_DATE('1980-12-17 00:00:00','YYYY-MM-DD HH24:MI:SS')) OR (ID = 7499 AND NAME = 'ALLEN' AND HIREDATE IS NULL)\"\n  actual:   {q16}",
    ),
    (Op::Join, Weight::Try, 0, 0, "", "", ""),
];

/// A grid whose statement has not finished.
pub const STREAMING: [Row; 19] = [
    (Op::StreamSample, Weight::Try, 99, 0, "", "", ""),
    (Op::SourceSql, Weight::Try, 14, 0, "", "", ""),
    (Op::WordsAreNot, Weight::Quit, 14, 0, "", "", "a streaming grid reported no source SQL"),
    (Op::ResolveTable, Weight::Try, 12, 0, "{t14}", "", ""),
    (
        Op::WordsAre, Weight::Quit, 12, 0, "HR.EMP", "",
        "streaming grid resolved the table as {o12}, expected Some(\"HR.EMP\")",
    ),
    (Op::SelectAll, Weight::Try, 99, 0, "", "", ""),
    (Op::Snapshot, Weight::Try, 10, 0, "{t12}", "", ""),
    (Op::FlagIs, Weight::Part, 10, 1, "", "", "streaming selection snapshot was empty"),
    (
        Op::BuildInserts, Weight::Part, 15, 0, "", "",
        "Oracle SQL Inserts (statement not finished) was refused: {z15}",
    ),
    (
        Op::CopyBack, Weight::Part, 16, 0, "{t15}",
        "--- Oracle SQL Inserts (statement not finished) ---\n{t16}", "",
    ),
    (
        Op::WordsAre, Weight::Note, 16, 0,
        "INSERT INTO HR.EMP (ID, NAME) VALUES (7369, 'SMITH');\nINSERT INTO HR.EMP (ID, NAME) VALUES (7499, 'ALLEN');\n",
        "PASS: Oracle SQL Inserts (statement not finished) matches the expected SQL",
        "Oracle SQL Inserts (statement not finished) mismatch\n  expected: \"INSERT INTO HR.EMP (ID, NAME) VALUES (7369, 'SMITH');\\nINSERT INTO HR.EMP (ID, NAME) VALUES (7499, 'ALLEN');\\n\"\n  actual:   {q16}",
    ),
    (Op::Join, Weight::Try, 0, 0, "", "", ""),
    (Op::DisplaySample, Weight::Try, 99, 0, "", "", ""),
    (Op::SourceSql, Weight::Try, 14, 0, "", "", ""),
    (
        Op::WordsAre, Weight::Note, 14, 0,
        "SELECT ID, NAME, HIREDATE, RAW_COL, FLAG, NOTE FROM HR.EMP", "",
        "a finished result did not replace the streaming statement: {q14}",
    ),
    (Op::StreamHeaders, Weight::Try, 99, 0, "", "", ""),
    (Op::SourceSql, Weight::Try, 14, 0, "", "", ""),
    (
        Op::WordsAre, Weight::Note, 14, 0, "",
        "PASS: source SQL follows the statement that produced the rows",
        "a new statement kept the previous source SQL: {q14}",
    ),
    (Op::Cleanup, Weight::Try, 0, 0, "", "", ""),
];

/// Every step, in order.
pub open spec fn all_steps() -> Seq<Row> {
    ORACLE@
        + MYSQL@
        + WHERE_CLAUSES@
        + STREAMING@
}

pub fn steps() -> (r: Vec<Row>)
    ensures
        r@ == all_steps(),
{
    let mut plan: Vec<Row> = Vec::new();
    append(&mut plan, &ORACLE);
    append(&mut plan, &MYSQL);
    append(&mut plan, &WHERE_CLAUSES);
    append(&mut plan, &STREAMING);
    assert(plan@ =~= all_steps());
    plan
}

/// The number of slots.
pub const SLOTS: usize = 20;

/// The text a slot starts out with, if it starts out with one.
pub open spec fn fact(slot: int) -> Option<Seq<char>> {
    None
}

/// What the probe knows before it starts.
pub fn facts() -> (r: Vec<Seen>)
    ensures
        r@.len() == SLOTS,
        forall|slot: int|
            0 <= slot < SLOTS ==> knows(#[trigger] r@[slot], fact(slot)),
{
    let mut out: Vec<Seen> = Vec::new();
    let mut slot: usize = 0;
    while slot < SLOTS
        invariant
            slot <= SLOTS,
            out@.len() == slot,
            forall|k: int| 0 <= k < slot ==> knows(#[trigger] out@[k], fact(k)),
        decreases SLOTS - slot,
    {
        out.push(Seen::Nothing);
        slot += 1;
    }
    out
}

/// Starts the probe.
pub fn verify() -> (r: Machine)
    ensures
        r.wf(),
        r.plan() == all_steps(),
        exists|memory: Seq<Seen>|
            {
                &&& memory.len() == SLOTS
                &&& forall|slot: int|
                    0 <= slot < SLOTS ==> knows(#[trigger] memory[slot], fact(slot))
                &&& r.now() == #[trigger] settle(r.plan(), opening(memory))
            },
{
    let plan = steps();
    let memory = facts();
    Machine::new(plan, memory)
}

proof fn lemma_plain()
    ensures
        plain(all_steps()),
{
    assert(plain(ORACLE@));
    assert(plain(MYSQL@));
    assert(plain(WHERE_CLAUSES@));
    assert(plain(STREAMING@));
    plain_adds_up(ORACLE@, MYSQL@);
    let s1 = ORACLE@ + MYSQL@;
    plain_adds_up(s1, WHERE_CLAUSES@);
    let s2 = s1 + WHERE_CLAUSES@;
    plain_adds_up(s2, STREAMING@);
    let s3 = s2 + STREAMING@;
    assert(s3 == all_steps());
}

/// The probe passes only where every test in it was made and held: the
/// clipboard received each statement to the letter.
pub proof fn a_clean_run_passes_every_test_of_it(
    memory: Seq<Seen>,
    answers: Seq<Seen>,
    k: int,
)
    requires
        0 <= k < all_steps().len(),
        is_test(all_steps()[k]),
        clean(course(all_steps(), opening(memory), answers)),
        course(all_steps(), opening(memory), answers).at == all_steps().len(),
    ensures
        test_held(all_steps(), opening(memory), answers, k),
{
    lemma_plain();
    a_clean_run_passes_every_test(all_steps(), opening(memory), answers, k);
}

} // verus!
