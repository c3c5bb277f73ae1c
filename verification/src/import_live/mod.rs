//! Probe of imports: every format gives back what the grid showed, and what an
//! import may write is governed by the tab, the catalog and the server.
use vstd::prelude::*;
use vstd::string::*;

use crate::course::{
    a_clean_run_passes_every_test_not_left_out, clean, is_test, left_out, test_held,
};
use crate::import::{ImportedTable, TableColumnDetail};
use crate::import_data::{
    backslash, backslash_model, documents, documents_model, headerless, headerless_model,
    hostile_rows, hostile_rows_model, hundreds, hundreds_model, injection, injection_model,
    numbered, numbered_model, one_a, one_a_model, one_b, one_b_model, sevens, sevens_model,
    HOSTILE_VALUES,
};
use crate::import_live::tables::{
    AFTER_EXPORT_READ, AWKWARD, BACKSLASHES, BATCHED, CLOSING, COMPUTED, COMPUTED_IMPORT, HOSTILE,
    INVISIBLE, MODES, MYSQL_COMPUTED, MYSQL_EXPORT_READ, MYSQL_INJECTION, MYSQL_LITERALS,
    MYSQL_PRODUCTION, NULL_TEXTS, ONE_FORMAT, OPENING, ORACLE_BY_DEFAULT, ORACLE_COMPUTED,
    ORACLE_DESCRIBE, ORACLE_EXPORT_READ, ORACLE_INJECTION, ORACLE_LITERALS, ORACLE_PRODUCTION,
};
use crate::import_words::{cells_form, cells_text};
use crate::machine::{
    append, append_when, bind, bound, course, given, lemma_stands_between, lemma_stands_within,
    opening, settle, stands_in, Machine, Row,
};
use crate::seen::{bracketed, knows, Seen};
use crate::template::{debug_all, names_text};
use crate::text::{count_text, decimal, repeat, repeated, same, strings, texts, views};

pub mod loading;
pub mod tables;

verus! {

/// The table the rows come from.
pub const SOURCE_TABLE: &'static str = "OQT_IMPORT_SRC";

/// The table they are imported into.
pub const COPY_TABLE: &'static str = "OQT_IMPORT_DST";

/// Rows of a statement. Small on purpose: a script must be several statements.
pub const BATCH_ROWS: usize = 2;

/// A text that stresses every format at once, as it stands in an SQL string.
pub const HOSTILE_TEXT: &'static str = "comma, tab\there \"quoted\" it''s pipe|slash\\ <tag> &amp; ]]> 한국어\nsecond line";

/// What an import script is made from.
pub const HEADERLESS: usize = 0;

pub const SEVENS: usize = 1;

pub const HUNDREDS: usize = 2;

pub const DOCUMENTS: usize = 3;

pub const INJECTION: usize = 4;

pub const ONE_A: usize = 5;

pub const ONE_B: usize = 6;

pub const NUMBERED: usize = 7;

/// What was parsed last.
pub const PARSED: usize = 8;

pub const BACKSLASH_BY_FAMILY: usize = 9;

pub const BACKSLASH_BY_CONNECTION: usize = 10;

/// Formats that a step names itself; every other number counts the formats.
pub const CSV_FORMAT: usize = 90;

pub const TSV_FORMAT: usize = 91;

pub const SQL_FORMAT: usize = 92;

/// A database the probe runs against.
#[derive(Clone, Copy, Debug, PartialEq, Eq, Structural)]
pub enum Target {
    OracleThin,
    OracleOci,
    MySql,
    MariaDb,
}

impl Target {
    pub open spec fn oracle(self) -> bool {
        self is OracleThin || self is OracleOci
    }

    pub open spec fn name(self) -> Seq<char> {
        match self {
            Target::OracleThin => "Oracle Thin"@,
            Target::OracleOci => "Oracle OCI"@,
            Target::MySql => "MySQL"@,
            Target::MariaDb => "MariaDB"@,
        }
    }

    pub fn label(self) -> (r: &'static str)
        ensures
            r@ == self.name(),
    {
        match self {
            Target::OracleThin => "Oracle Thin",
            Target::OracleOci => "Oracle OCI",
            Target::MySql => "MySQL",
            Target::MariaDb => "MariaDB",
        }
    }

    pub fn is_oracle(self) -> (r: bool)
        ensures
            r == self.oracle(),
    {
        matches!(self, Target::OracleThin | Target::OracleOci)
    }

    pub open spec fn create_sql_text(self, table: Seq<char>) -> Seq<char> {
        if self.oracle() {
            "CREATE TABLE "@ + table + " (SEQ NUMBER NOT NULL, NAME VARCHAR2(200), CODE VARCHAR2(20), AMT NUMBER(12,2), HIRED DATE, TS TIMESTAMP(6), TSZ TIMESTAMP(6) WITH TIME ZONE, RAWC RAW(8), BLOBC BLOB, CONSTRAINT "@ + table + "_PK PRIMARY KEY (SEQ))"@
        } else {
            "CREATE TABLE "@ + table + " (SEQ INT NOT NULL, NAME VARCHAR(200), CODE VARCHAR(20), AMT DECIMAL(12,2), HIRED DATE, TS DATETIME(6), FLAG TINYINT, BINC VARBINARY(16), BITC BIT(8), PRIMARY KEY (SEQ))"@
        }
    }

    /// One column for each kind of literal the backend can express.
    pub fn create_sql(self, table: &str) -> (r: String)
        ensures
            r@ == self.create_sql_text(table@),
    {
        if self.is_oracle() {
            let mut out = "CREATE TABLE ".to_owned();
            out.append(table);
            out.append(" (SEQ NUMBER NOT NULL, NAME VARCHAR2(200), CODE VARCHAR2(20), AMT NUMBER(12,2), HIRED DATE, TS TIMESTAMP(6), TSZ TIMESTAMP(6) WITH TIME ZONE, RAWC RAW(8), BLOBC BLOB, CONSTRAINT ");
            out.append(table);
            out.append("_PK PRIMARY KEY (SEQ))");
            out
        } else {
            let mut out = "CREATE TABLE ".to_owned();
            out.append(table);
            out.append(" (SEQ INT NOT NULL, NAME VARCHAR(200), CODE VARCHAR(20), AMT DECIMAL(12,2), HIRED DATE, TS DATETIME(6), FLAG TINYINT, BINC VARBINARY(16), BITC BIT(8), PRIMARY KEY (SEQ))");
            out
        }
    }

    pub open spec fn drop_sql_text(self, table: Seq<char>) -> Seq<char> {
        if self.oracle() {
            "DROP TABLE "@ + table
        } else {
            "DROP TABLE IF EXISTS "@ + table
        }
    }

    /// The statement that drops a table.
    pub fn drop_sql(self, table: &str) -> (r: String)
        ensures
            r@ == self.drop_sql_text(table@),
    {
        if self.is_oracle() {
            let mut out = "DROP TABLE ".to_owned();
            out.append(table);
            out
        } else {
            let mut out = "DROP TABLE IF EXISTS ".to_owned();
            out.append(table);
            out
        }
    }

    pub open spec fn seed_sql_texts(self, table: Seq<char>, hostile: Seq<char>) -> Seq<Seq<char>> {
        if self.oracle() {
            seq![
                "INSERT INTO "@ + table + " (SEQ, NAME, CODE, AMT, HIRED, TS, TSZ, RAWC, BLOBC) VALUES (1, "@ + hostile + ", '00123', 1234.56, TO_DATE('1980-12-17 09:30:00','YYYY-MM-DD HH24:MI:SS'), TO_TIMESTAMP('1980-12-17 09:30:00.123456','YYYY-MM-DD HH24:MI:SS.FF'), TO_TIMESTAMP_TZ('1980-12-17 09:30:00.123456 +09:00','YYYY-MM-DD HH24:MI:SS.FF TZH:TZM'), HEXTORAW('DEADBEEF'), HEXTORAW('414243'))"@,
                "INSERT INTO "@ + table + " (SEQ, NAME, CODE, AMT, HIRED, TS, TSZ, RAWC, BLOBC) VALUES (2, NULL, '007', NULL, NULL, NULL, NULL, NULL, NULL)"@,
                "INSERT INTO "@ + table + " (SEQ, NAME, CODE, AMT, HIRED, TS, TSZ, RAWC, BLOBC) VALUES (3, 'plain', '42', -0.5, TO_DATE('2024-02-29 23:59:59','YYYY-MM-DD HH24:MI:SS'), TO_TIMESTAMP('2024-02-29 23:59:59.000001','YYYY-MM-DD HH24:MI:SS.FF'), TO_TIMESTAMP_TZ('2024-02-29 23:59:59.000001 -05:30','YYYY-MM-DD HH24:MI:SS.FF TZH:TZM'), HEXTORAW('00FF'), HEXTORAW('41'))"@,
                "INSERT INTO "@ + table + " (SEQ, NAME, CODE, AMT, HIRED, TS, TSZ, RAWC, BLOBC) VALUES (4, 'last', '0', 99999999.99, TO_DATE('1900-01-01 00:00:00','YYYY-MM-DD HH24:MI:SS'), TO_TIMESTAMP('1900-01-01 00:00:00.000000','YYYY-MM-DD HH24:MI:SS.FF'), TO_TIMESTAMP_TZ('1900-01-01 00:00:00.000000 +00:00','YYYY-MM-DD HH24:MI:SS.FF TZH:TZM'), NULL, NULL)"@,
            ]
        } else {
            seq![
                "INSERT INTO "@ + table + " (SEQ, NAME, CODE, AMT, HIRED, TS, FLAG, BINC, BITC) VALUES (1, "@ + hostile + ", '00123', 1234.56, '1980-12-17', '1980-12-17 09:30:00.123456', 1, 'abc', b'00110001')"@,
                "INSERT INTO "@ + table + " (SEQ, NAME, CODE, AMT, HIRED, TS, FLAG, BINC, BITC) VALUES (2, NULL, '007', NULL, NULL, NULL, NULL, NULL, NULL)"@,
                "INSERT INTO "@ + table + " (SEQ, NAME, CODE, AMT, HIRED, TS, FLAG, BINC, BITC) VALUES (3, 'plain', '42', -0.50, '2024-02-29', '2024-02-29 23:59:59.000001', 0, 'z', b'01011010')"@,
                "INSERT INTO "@ + table + " (SEQ, NAME, CODE, AMT, HIRED, TS, FLAG, BINC, BITC) VALUES (4, 'last', '0', 99999999.99, '1900-01-01', '1900-01-01 00:00:00.000000', 1, NULL, NULL)"@,
            ]
        }
    }

    /// Rows that stress every format at once; `hostile` is the literal for the
    /// hostile text. What a `BLOB` or a `BIT` column holds is printable ASCII: it
    /// reaches the grid as a rendering of its bytes, and only such bytes survive
    /// every file format.
    pub fn seed_sql(self, table: &str, hostile: &str) -> (r: Vec<String>)
        ensures
            views(r@) == self.seed_sql_texts(table@, hostile@),
    {
        if self.is_oracle() {
            let mut row1 = "INSERT INTO ".to_owned();
            row1.append(table);
            row1.append(" (SEQ, NAME, CODE, AMT, HIRED, TS, TSZ, RAWC, BLOBC) VALUES (1, ");
            row1.append(hostile);
            row1.append(", '00123', 1234.56, TO_DATE('1980-12-17 09:30:00','YYYY-MM-DD HH24:MI:SS'), TO_TIMESTAMP('1980-12-17 09:30:00.123456','YYYY-MM-DD HH24:MI:SS.FF'), TO_TIMESTAMP_TZ('1980-12-17 09:30:00.123456 +09:00','YYYY-MM-DD HH24:MI:SS.FF TZH:TZM'), HEXTORAW('DEADBEEF'), HEXTORAW('414243'))");
            let mut row2 = "INSERT INTO ".to_owned();
            row2.append(table);
            row2.append(" (SEQ, NAME, CODE, AMT, HIRED, TS, TSZ, RAWC, BLOBC) VALUES (2, NULL, '007', NULL, NULL, NULL, NULL, NULL, NULL)");
            let mut row3 = "INSERT INTO ".to_owned();
            row3.append(table);
            row3.append(" (SEQ, NAME, CODE, AMT, HIRED, TS, TSZ, RAWC, BLOBC) VALUES (3, 'plain', '42', -0.5, TO_DATE('2024-02-29 23:59:59','YYYY-MM-DD HH24:MI:SS'), TO_TIMESTAMP('2024-02-29 23:59:59.000001','YYYY-MM-DD HH24:MI:SS.FF'), TO_TIMESTAMP_TZ('2024-02-29 23:59:59.000001 -05:30','YYYY-MM-DD HH24:MI:SS.FF TZH:TZM'), HEXTORAW('00FF'), HEXTORAW('41'))");
            let mut row4 = "INSERT INTO ".to_owned();
            row4.append(table);
            row4.append(" (SEQ, NAME, CODE, AMT, HIRED, TS, TSZ, RAWC, BLOBC) VALUES (4, 'last', '0', 99999999.99, TO_DATE('1900-01-01 00:00:00','YYYY-MM-DD HH24:MI:SS'), TO_TIMESTAMP('1900-01-01 00:00:00.000000','YYYY-MM-DD HH24:MI:SS.FF'), TO_TIMESTAMP_TZ('1900-01-01 00:00:00.000000 +00:00','YYYY-MM-DD HH24:MI:SS.FF TZH:TZM'), NULL, NULL)");
            let out = vec![row1, row2, row3, row4];
            assert(views(out@) =~= self.seed_sql_texts(table@, hostile@));
            out
        } else {
            let mut row1 = "INSERT INTO ".to_owned();
            row1.append(table);
            row1.append(" (SEQ, NAME, CODE, AMT, HIRED, TS, FLAG, BINC, BITC) VALUES (1, ");
            row1.append(hostile);
            row1.append(", '00123', 1234.56, '1980-12-17', '1980-12-17 09:30:00.123456', 1, 'abc', b'00110001')");
            let mut row2 = "INSERT INTO ".to_owned();
            row2.append(table);
            row2.append(" (SEQ, NAME, CODE, AMT, HIRED, TS, FLAG, BINC, BITC) VALUES (2, NULL, '007', NULL, NULL, NULL, NULL, NULL, NULL)");
            let mut row3 = "INSERT INTO ".to_owned();
            row3.append(table);
            row3.append(" (SEQ, NAME, CODE, AMT, HIRED, TS, FLAG, BINC, BITC) VALUES (3, 'plain', '42', -0.50, '2024-02-29', '2024-02-29 23:59:59.000001', 0, 'z', b'01011010')");
            let mut row4 = "INSERT INTO ".to_owned();
            row4.append(table);
            row4.append(" (SEQ, NAME, CODE, AMT, HIRED, TS, FLAG, BINC, BITC) VALUES (4, 'last', '0', 99999999.99, '1900-01-01', '1900-01-01 00:00:00.000000', 1, NULL, NULL)");
            let out = vec![row1, row2, row3, row4];
            assert(views(out@) =~= self.seed_sql_texts(table@, hostile@));
            out
        }
    }

    pub open spec fn select_sql_text(self, table: Seq<char>) -> Seq<char> {
        "SELECT * FROM "@ + table + " ORDER BY SEQ"@
    }

    /// The statement that reads a table in key order.
    pub fn select_sql(self, table: &str) -> (r: String)
        ensures
            r@ == self.select_sql_text(table@),
    {
        let mut out = "SELECT * FROM ".to_owned();
        out.append(table);
        out.append(" ORDER BY SEQ");
        out
    }

    pub open spec fn delete_sql_text(self, table: Seq<char>) -> Seq<char> {
        "DELETE FROM "@ + table
    }

    /// The statement that empties a table.
    pub fn delete_sql(self, table: &str) -> (r: String)
        ensures
            r@ == self.delete_sql_text(table@),
    {
        let mut out = "DELETE FROM ".to_owned();
        out.append(table);
        out
    }

    pub open spec fn table_exists_sql_text(self, table: Seq<char>) -> Seq<char> {
        if self.oracle() {
            "SELECT COUNT(*) AS N FROM USER_TABLES WHERE TABLE_NAME = '"@ + table + "'"@
        } else {
            "SELECT COUNT(*) AS N FROM INFORMATION_SCHEMA.TABLES WHERE TABLE_SCHEMA = DATABASE() AND TABLE_NAME = '"@ + table + "'"@
        }
    }

    /// The query that answers `1` where a table is still there.
    pub fn table_exists_sql(self, table: &str) -> (r: String)
        ensures
            r@ == self.table_exists_sql_text(table@),
    {
        if self.is_oracle() {
            let mut out = "SELECT COUNT(*) AS N FROM USER_TABLES WHERE TABLE_NAME = '".to_owned();
            out.append(table);
            out.append("'");
            out
        } else {
            let mut out = "SELECT COUNT(*) AS N FROM INFORMATION_SCHEMA.TABLES WHERE TABLE_SCHEMA = DATABASE() AND TABLE_NAME = '".to_owned();
            out.append(table);
            out.append("'");
            out
        }
    }

    pub open spec fn catalog_types_sql_text(self, table: Seq<char>) -> Seq<char> {
        if self.oracle() {
            "SELECT column_name, data_type FROM user_tab_columns WHERE table_name = '"@ + table + "' ORDER BY column_id"@
        } else {
            "SELECT COLUMN_NAME, COLUMN_TYPE FROM INFORMATION_SCHEMA.COLUMNS WHERE TABLE_SCHEMA = DATABASE() AND UPPER(TABLE_NAME) = '"@ + table + "' ORDER BY ORDINAL_POSITION"@
        }
    }

    /// The query for the declared column types, straight from the catalog.
    pub fn catalog_types_sql(self, table: &str) -> (r: String)
        ensures
            r@ == self.catalog_types_sql_text(table@),
    {
        if self.is_oracle() {
            let mut out = "SELECT column_name, data_type FROM user_tab_columns WHERE table_name = '".to_owned();
            out.append(table);
            out.append("' ORDER BY column_id");
            out
        } else {
            let mut out = "SELECT COLUMN_NAME, COLUMN_TYPE FROM INFORMATION_SCHEMA.COLUMNS WHERE TABLE_SCHEMA = DATABASE() AND UPPER(TABLE_NAME) = '".to_owned();
            out.append(table);
            out.append("' ORDER BY ORDINAL_POSITION");
            out
        }
    }
}

/// The targets that a command-line word names; none where it names none.
pub open spec fn named_targets(word: Seq<char>) -> Option<Seq<Target>> {
    if word == "thin"@ {
        Some(seq![Target::OracleThin])
    } else if word == "oci"@ {
        Some(seq![Target::OracleOci])
    } else if word == "mysql"@ {
        Some(seq![Target::MySql])
    } else if word == "mariadb"@ {
        Some(seq![Target::MariaDb])
    } else if word == "all"@ {
        Some(seq![Target::OracleThin, Target::OracleOci, Target::MySql, Target::MariaDb])
    } else {
        None
    }
}

pub fn targets(word: &str) -> (r: Option<Vec<Target>>)
    ensures
        r is Some <==> named_targets(word@) is Some,
        r matches Some(list) ==> named_targets(word@) == Some(list@),
{
    if same(word, "thin") {
        Some(vec![Target::OracleThin])
    } else if same(word, "oci") {
        Some(vec![Target::OracleOci])
    } else if same(word, "mysql") {
        Some(vec![Target::MySql])
    } else if same(word, "mariadb") {
        Some(vec![Target::MariaDb])
    } else if same(word, "all") {
        Some(vec![Target::OracleThin, Target::OracleOci, Target::MySql, Target::MariaDb])
    } else {
        None
    }
}

/// The SQL literal for the hostile text, where nothing in it needs defusing.
pub fn hostile_literal() -> (r: String)
    ensures
        r@ == "'"@ + HOSTILE_TEXT@ + "'"@,
{
    let mut out = "'".to_owned();
    out.append(HOSTILE_TEXT);
    out.append("'");
    out
}

pub open spec fn generated_table_text(target: Target) -> Seq<char> {
    if target.oracle() {
        "CREATE TABLE OQT_IMPORT_GEN (ALWAYS_ID NUMBER GENERATED ALWAYS AS IDENTITY, A NUMBER, TOTAL NUMBER GENERATED ALWAYS AS (A * 2) VIRTUAL)"@
    } else {
        "CREATE TABLE OQT_IMPORT_GEN (ALWAYS_ID INT AUTO_INCREMENT PRIMARY KEY, A INT, TOTAL INT AS (A * 2) STORED, VIRT INT AS (A + 1) VIRTUAL)"@
    }
}

/// The statement for a table whose columns the server computes, beside one it
/// does not.
pub fn generated_table_sql(target: Target) -> (r: String)
    ensures
        r@ == generated_table_text(target),
{
    if target.is_oracle() {
        "CREATE TABLE OQT_IMPORT_GEN (ALWAYS_ID NUMBER GENERATED ALWAYS AS IDENTITY, A NUMBER, TOTAL NUMBER GENERATED ALWAYS AS (A * 2) VIRTUAL)".to_owned()
    } else {
        "CREATE TABLE OQT_IMPORT_GEN (ALWAYS_ID INT AUTO_INCREMENT PRIMARY KEY, A INT, TOTAL INT AS (A * 2) STORED, VIRT INT AS (A + 1) VIRTUAL)".to_owned()
    }
}

/// The table that an import script of some kind is made from; none for what was
/// parsed last, nor for more columns than can be numbered.
pub fn dataset(
    which: usize,
    columns: &Vec<TableColumnDetail>,
    text: &str,
    batch_rows: usize,
) -> (r: Option<ImportedTable>)
    ensures
        which == HEADERLESS ==> (r matches Some(t) && t@ == headerless_model()),
        which == SEVENS ==> (r matches Some(t) && t@ == sevens_model(columns@, "7"@)),
        which == HUNDREDS ==> {
            &&& r is Some <==> columns@.len() * 100 <= usize::MAX
            &&& r matches Some(t) ==> t@ == hundreds_model(columns@.len() as int)
        },
        which == DOCUMENTS ==> (r matches Some(t) && t@ == documents_model(batch_rows as int)),
        which == INJECTION ==> (r matches Some(t) && t@ == injection_model(
            "OQT_IMPORT_SRC_VICTIM"@,
        )),
        which == ONE_A ==> (r matches Some(t) && t@ == one_a_model()),
        which == ONE_B ==> (r matches Some(t) && t@ == one_b_model(text@)),
        which == NUMBERED ==> (r matches Some(t) && t@ == numbered_model(5)),
        which == BACKSLASH_BY_FAMILY ==> (r matches Some(t) && t@ == backslash_model("1"@)),
        which == BACKSLASH_BY_CONNECTION ==> (r matches Some(t) && t@ == backslash_model("2"@)),
        which == PARSED || which > BACKSLASH_BY_CONNECTION ==> r is None,
{
    if which == HEADERLESS {
        Some(headerless())
    } else if which == SEVENS {
        Some(sevens(columns, "7"))
    } else if which == HUNDREDS {
        let count: usize = columns.len();
        if count <= usize::MAX / 100 {
            Some(hundreds(count))
        } else {
            None
        }
    } else if which == DOCUMENTS {
        Some(documents(batch_rows))
    } else if which == INJECTION {
        Some(injection("OQT_IMPORT_SRC_VICTIM"))
    } else if which == ONE_A {
        Some(one_a())
    } else if which == ONE_B {
        Some(one_b(text))
    } else if which == NUMBERED {
        Some(numbered(5))
    } else if which == BACKSLASH_BY_FAMILY {
        Some(backslash("1"))
    } else if which == BACKSLASH_BY_CONNECTION {
        Some(backslash("2"))
    } else {
        None
    }
}

/// The steps for each of some formats, by number.
pub open spec fn every_format(formats: int) -> Seq<Row>
    decreases formats,
{
    if formats <= 0 {
        Seq::empty()
    } else {
        every_format(formats - 1) + bound(ONE_FORMAT@, formats - 1)
    }
}

fn add_formats(plan: &mut Vec<Row>, formats: usize)
    ensures
        final(plan)@ == old(plan)@ + every_format(formats as int),
{
    let ghost start = plan@;
    let mut i: usize = 0;
    assert(start + every_format(0) =~= start);
    while i < formats
        invariant
            i <= formats,
            plan@ == start + every_format(i as int),
        decreases formats - i,
    {
        let ghost before = plan@;
        bind(plan, &ONE_FORMAT, i);
        i += 1;
        assert(plan@ =~= start + every_format(i as int));
    }
}

/// What the object browser reads does not depend on the driver that read it.
pub open spec fn verify_table_export_read_steps(target: Target) -> Seq<Row> {
    given(target.oracle(), ORACLE_EXPORT_READ@)
        + given(!target.oracle(), MYSQL_EXPORT_READ@)
        + AFTER_EXPORT_READ@
}

pub fn verify_table_export_read(target: Target) -> (r: Vec<Row>)
    ensures
        r@ == verify_table_export_read_steps(target),
{
    let mut plan: Vec<Row> = Vec::new();
    append_when(target.is_oracle(), &mut plan, &ORACLE_EXPORT_READ);
    append_when(!target.is_oracle(), &mut plan, &MYSQL_EXPORT_READ);
    append(&mut plan, &AFTER_EXPORT_READ);
    assert(plan@ =~= verify_table_export_read_steps(target));
    plan
}

/// A file of long values still imports, at the batch size production uses.
pub open spec fn verify_a_production_sized_batch_steps(target: Target) -> Seq<Row> {
    given(target.oracle(), ORACLE_PRODUCTION@)
        + given(!target.oracle(), MYSQL_PRODUCTION@)
}

pub fn verify_a_production_sized_batch(target: Target) -> (r: Vec<Row>)
    ensures
        r@ == verify_a_production_sized_batch_steps(target),
{
    let mut plan: Vec<Row> = Vec::new();
    append_when(target.is_oracle(), &mut plan, &ORACLE_PRODUCTION);
    append_when(!target.is_oracle(), &mut plan, &MYSQL_PRODUCTION);
    assert(plan@ =~= verify_a_production_sized_batch_steps(target));
    plan
}

/// A file's cell cannot add a statement to the import script.
pub open spec fn verify_a_file_cell_cannot_inject_a_statement_steps(target: Target) -> Seq<Row> {
    given(target.oracle(), ORACLE_INJECTION@)
        + given(!target.oracle(), MYSQL_INJECTION@)
}

pub fn verify_a_file_cell_cannot_inject_a_statement(target: Target) -> (r: Vec<Row>)
    ensures
        r@ == verify_a_file_cell_cannot_inject_a_statement_steps(target),
{
    let mut plan: Vec<Row> = Vec::new();
    append_when(target.is_oracle(), &mut plan, &ORACLE_INJECTION);
    append_when(!target.is_oracle(), &mut plan, &MYSQL_INJECTION);
    assert(plan@ =~= verify_a_file_cell_cannot_inject_a_statement_steps(target));
    plan
}

/// A column the server computes is never offered; one it merely defaults is.
pub open spec fn verify_generated_columns_steps(target: Target) -> Seq<Row> {
    COMPUTED@
        + given(target.oracle(), ORACLE_COMPUTED@)
        + given(!target.oracle(), MYSQL_COMPUTED@)
        + COMPUTED_IMPORT@
        + given(target.oracle(), ORACLE_BY_DEFAULT@)
}

pub fn verify_generated_columns(target: Target) -> (r: Vec<Row>)
    ensures
        r@ == verify_generated_columns_steps(target),
{
    let mut plan: Vec<Row> = Vec::new();
    append(&mut plan, &COMPUTED);
    append_when(target.is_oracle(), &mut plan, &ORACLE_COMPUTED);
    append_when(!target.is_oracle(), &mut plan, &MYSQL_COMPUTED);
    append(&mut plan, &COMPUTED_IMPORT);
    append_when(target.is_oracle(), &mut plan, &ORACLE_BY_DEFAULT);
    assert(plan@ =~= verify_generated_columns_steps(target));
    plan
}

/// SQL NULL and the text NULL are different values, and a blank line is no row.
pub open spec fn verify_null_text_and_blank_lines_steps() -> Seq<Row> {
    NULL_TEXTS@
}

pub fn verify_null_text_and_blank_lines() -> (r: Vec<Row>)
    ensures
        r@ == verify_null_text_and_blank_lines_steps(),
{
    let mut plan: Vec<Row> = Vec::new();
    append(&mut plan, &NULL_TEXTS);
    assert(plan@ =~= verify_null_text_and_blank_lines_steps());
    plan
}

/// A value no single literal can carry is refused by name, before anything runs.
pub open spec fn verify_a_value_no_literal_can_hold_steps(target: Target) -> Seq<Row> {
    given(target.oracle(), ORACLE_LITERALS@)
        + given(!target.oracle(), MYSQL_LITERALS@)
}

pub fn verify_a_value_no_literal_can_hold(target: Target) -> (r: Vec<Row>)
    ensures
        r@ == verify_a_value_no_literal_can_hold_steps(target),
{
    let mut plan: Vec<Row> = Vec::new();
    append_when(target.is_oracle(), &mut plan, &ORACLE_LITERALS);
    append_when(!target.is_oracle(), &mut plan, &MYSQL_LITERALS);
    assert(plan@ =~= verify_a_value_no_literal_can_hold_steps(target));
    plan
}

/// A column no `SELECT *` returns claims no position in a file.
pub open spec fn verify_invisible_columns_steps(target: Target) -> Seq<Row> {
    INVISIBLE@
        + given(target.oracle(), ORACLE_DESCRIBE@)
        + CLOSING@
}

pub fn verify_invisible_columns(target: Target) -> (r: Vec<Row>)
    ensures
        r@ == verify_invisible_columns_steps(target),
{
    let mut plan: Vec<Row> = Vec::new();
    append(&mut plan, &INVISIBLE);
    append_when(target.is_oracle(), &mut plan, &ORACLE_DESCRIBE);
    append(&mut plan, &CLOSING);
    assert(plan@ =~= verify_invisible_columns_steps(target));
    plan
}

/// Values that used to break the SQL file.
pub open spec fn verify_hostile_sql_round_trip_steps() -> Seq<Row> {
    HOSTILE@
}

pub fn verify_hostile_sql_round_trip() -> (r: Vec<Row>)
    ensures
        r@ == verify_hostile_sql_round_trip_steps(),
{
    let mut plan: Vec<Row> = Vec::new();
    append(&mut plan, &HOSTILE);
    assert(plan@ =~= verify_hostile_sql_round_trip_steps());
    plan
}

/// A table whose name needs quoting is named correctly by the script.
pub open spec fn verify_awkward_table_name_steps() -> Seq<Row> {
    AWKWARD@
}

pub fn verify_awkward_table_name() -> (r: Vec<Row>)
    ensures
        r@ == verify_awkward_table_name_steps(),
{
    let mut plan: Vec<Row> = Vec::new();
    append(&mut plan, &AWKWARD);
    assert(plan@ =~= verify_awkward_table_name_steps());
    plan
}

/// A session that turns backslash escaping off must not have its backslashes doubled.
pub open spec fn verify_no_backslash_escapes_steps(target: Target) -> Seq<Row> {
    given(!target.oracle(), BACKSLASHES@)
}

pub fn verify_no_backslash_escapes(target: Target) -> (r: Vec<Row>)
    ensures
        r@ == verify_no_backslash_escapes_steps(target),
{
    let mut plan: Vec<Row> = Vec::new();
    append_when(!target.is_oracle(), &mut plan, &BACKSLASHES);
    assert(plan@ =~= verify_no_backslash_escapes_steps(target));
    plan
}

/// The batched script is itself a file that imports, every row of it.
pub open spec fn verify_batched_script_reimport_steps() -> Seq<Row> {
    BATCHED@
}

pub fn verify_batched_script_reimport() -> (r: Vec<Row>)
    ensures
        r@ == verify_batched_script_reimport_steps(),
{
    let mut plan: Vec<Row> = Vec::new();
    append(&mut plan, &BATCHED);
    assert(plan@ =~= verify_batched_script_reimport_steps());
    plan
}

/// Every step, in order, for so many formats.
pub open spec fn all_steps(target: Target, formats: int) -> Seq<Row> {
    OPENING@ + every_format(formats) + MODES@ + verify_table_export_read_steps(target)
        + verify_a_production_sized_batch_steps(target)
        + verify_a_file_cell_cannot_inject_a_statement_steps(target)
        + verify_generated_columns_steps(target) + verify_hostile_sql_round_trip_steps()
        + verify_awkward_table_name_steps() + verify_no_backslash_escapes_steps(target)
        + verify_batched_script_reimport_steps() + verify_null_text_and_blank_lines_steps()
        + verify_a_value_no_literal_can_hold_steps(target) + verify_invisible_columns_steps(target)
}

pub fn steps(target: Target, formats: usize) -> (r: Vec<Row>)
    ensures
        r@ == all_steps(target, formats as int),
{
    let mut plan: Vec<Row> = Vec::new();
    append(&mut plan, &OPENING);
    add_formats(&mut plan, formats);
    append(&mut plan, &MODES);
    append(&mut plan, verify_table_export_read(target).as_slice());
    append(&mut plan, verify_a_production_sized_batch(target).as_slice());
    append(&mut plan, verify_a_file_cell_cannot_inject_a_statement(target).as_slice());
    append(&mut plan, verify_generated_columns(target).as_slice());
    append(&mut plan, verify_hostile_sql_round_trip().as_slice());
    append(&mut plan, verify_awkward_table_name().as_slice());
    append(&mut plan, verify_no_backslash_escapes(target).as_slice());
    append(&mut plan, verify_batched_script_reimport().as_slice());
    append(&mut plan, verify_null_text_and_blank_lines().as_slice());
    append(&mut plan, verify_a_value_no_literal_can_hold(target).as_slice());
    append(&mut plan, verify_invisible_columns(target).as_slice());
    assert(plan@ =~= all_steps(target, formats as int));
    plan
}

proof fn lemma_format_stands(formats: int, i: int)
    requires
        0 <= i < formats,
    ensures
        stands_in(bound(ONE_FORMAT@, i), every_format(formats)),
    decreases formats,
{
    let rest = every_format(formats - 1);
    let last = bound(ONE_FORMAT@, formats - 1);
    if i == formats - 1 {
        lemma_stands_between(rest, last, Seq::empty());
        assert(rest + last + Seq::empty() =~= every_format(formats));
    } else {
        lemma_format_stands(formats - 1, i);
        lemma_stands_within(bound(ONE_FORMAT@, i), rest, Seq::empty(), last);
        assert(Seq::<Row>::empty() + rest + last =~= every_format(formats));
    }
}

/// Every format is written, read back and loaded.
pub proof fn every_format_is_tried(target: Target, formats: int, i: int)
    requires
        0 <= i < formats,
    ensures
        stands_in(bound(ONE_FORMAT@, i), all_steps(target, formats)),
{
    lemma_format_stands(formats, i);
    let after = MODES@ + verify_table_export_read_steps(target)
        + verify_a_production_sized_batch_steps(target)
        + verify_a_file_cell_cannot_inject_a_statement_steps(target)
        + verify_generated_columns_steps(target) + verify_hostile_sql_round_trip_steps()
        + verify_awkward_table_name_steps() + verify_no_backslash_escapes_steps(target)
        + verify_batched_script_reimport_steps() + verify_null_text_and_blank_lines_steps()
        + verify_a_value_no_literal_can_hold_steps(target) + verify_invisible_columns_steps(target);
    lemma_stands_within(bound(ONE_FORMAT@, i), every_format(formats), OPENING@, after);
    assert(OPENING@ + every_format(formats) + after =~= all_steps(target, formats));
}


fn seed(target: Target, hostile: &str, i: usize) -> (r: String)
    requires
        i < 4,
    ensures
        r@ == target.seed_sql_texts(SOURCE_TABLE@, hostile@)[i as int],
{
    let seeds = target.seed_sql(SOURCE_TABLE, hostile);
    assert(views(seeds@).len() == 4);
    assert(seeds@[i as int]@ == views(seeds@)[i as int]);
    seeds[i].clone()
}

/// The number of slots.
pub const SLOTS: usize = 64;

/// The text a slot starts out with, if it starts out with one.
pub open spec fn fact(target: Target, hostile: Seq<char>, batch_rows: int, slot: int) -> Option<Seq<char>> {
    if slot == 1 {
        Some(target.create_sql_text(COPY_TABLE@))
    } else if slot == 2 {
        Some(target.drop_sql_text(COPY_TABLE@))
    } else if slot == 3 {
        Some(target.create_sql_text(SOURCE_TABLE@))
    } else if slot == 4 {
        Some(target.drop_sql_text(SOURCE_TABLE@))
    } else if slot == 5 {
        Some(target.name())
    } else if slot == 6 {
        Some(decimal(batch_rows))
    } else if slot == 7 {
        Some(target.select_sql_text(COPY_TABLE@))
    } else if slot == 8 {
        Some(repeated("z"@, 6000))
    } else if slot == 9 {
        Some(repeated("AB"@, 2000))
    } else if slot == 27 {
        Some(cells_form(hostile_rows_model()))
    } else if slot == 28 {
        Some(bracketed(debug_all(texts(HOSTILE_VALUES@))))
    } else if slot == 30 {
        Some(target.delete_sql_text(COPY_TABLE@))
    } else if slot == 31 {
        Some(target.seed_sql_texts(SOURCE_TABLE@, hostile)[0])
    } else if slot == 32 {
        Some(target.seed_sql_texts(SOURCE_TABLE@, hostile)[1])
    } else if slot == 33 {
        Some(target.seed_sql_texts(SOURCE_TABLE@, hostile)[2])
    } else if slot == 34 {
        Some(target.seed_sql_texts(SOURCE_TABLE@, hostile)[3])
    } else if slot == 35 {
        Some(target.select_sql_text(SOURCE_TABLE@))
    } else if slot == 36 {
        Some(target.catalog_types_sql_text(COPY_TABLE@))
    } else if slot == 37 {
        Some(if target.oracle() { "read-only mode blocks|ora-01456"@ } else { "read only"@ })
    } else if slot == 40 {
        Some(target.drop_sql_text("OQT_IMPORT_GEN"@))
    } else if slot == 41 {
        Some(generated_table_text(target))
    } else if slot == 42 {
        Some(target.drop_sql_text("OQT_IMPORT_INVIS"@))
    } else if slot == 43 {
        Some(if target.oracle() { "CREATE TABLE OQT_IMPORT_INVIS (A NUMBER, B NUMBER INVISIBLE, C NUMBER)"@ } else { "CREATE TABLE OQT_IMPORT_INVIS (A INT, B INT INVISIBLE, C INT)"@ })
    } else if slot == 44 {
        Some(target.drop_sql_text("OQT_IMPORT_NULLTEXT"@))
    } else if slot == 45 {
        Some(if target.oracle() { "CREATE TABLE OQT_IMPORT_NULLTEXT (SEQ NUMBER, V VARCHAR2(20))"@ } else { "CREATE TABLE OQT_IMPORT_NULLTEXT (SEQ INT, V VARCHAR(20))"@ })
    } else if slot == 46 {
        Some(target.delete_sql_text("OQT_IMPORT_NULLTEXT"@))
    } else if slot == 47 {
        Some(target.drop_sql_text("OQT_IMPORT_LONGVAL"@))
    } else if slot == 48 {
        Some(target.drop_sql_text("OQT_IMPORT_SRC_BIG"@))
    } else if slot == 50 {
        Some(if target.oracle() { "SELECT LENGTH(V) AS L, SUBSTR(V, -13) AS T FROM OQT_IMPORT_SRC_BIG WHERE SEQ = 1"@ } else { "SELECT CHAR_LENGTH(V) AS L, RIGHT(V, 13) AS T FROM OQT_IMPORT_SRC_BIG WHERE SEQ = 1"@ })
    } else if slot == 51 {
        Some(target.drop_sql_text("OQT_IMPORT_SRC_VICTIM"@))
    } else if slot == 53 {
        Some(target.drop_sql_text("OQT_IMPORT_SRC_BIN"@))
    } else if slot == 55 {
        Some(target.table_exists_sql_text("OQT_IMPORT_SRC_VICTIM"@))
    } else if slot == 56 {
        Some(target.drop_sql_text("OQT_IMPORT_GEN_H"@))
    } else if slot == 57 {
        Some(if target.oracle() { "CREATE TABLE OQT_IMPORT_GEN_H (SEQ NUMBER, V VARCHAR2(200))"@ } else { "CREATE TABLE OQT_IMPORT_GEN_H (SEQ INT, V VARCHAR(200))"@ })
    } else if slot == 58 {
        Some(target.drop_sql_text("OQT_IMPORT_GEN_B"@))
    } else if slot == 59 {
        Some(if target.oracle() { "CREATE TABLE OQT_IMPORT_GEN_B (SEQ NUMBER, V VARCHAR2(50))"@ } else { "CREATE TABLE OQT_IMPORT_GEN_B (SEQ INT, V VARCHAR(50))"@ })
    } else if slot == 60 {
        Some(if target.oracle() { "\"oqt lower\""@ } else { "`oqt``tick`"@ })
    } else if slot == 61 {
        Some(if target.oracle() { "oqt lower"@ } else { "oqt`tick"@ })
    } else if slot == 62 {
        Some(if target.oracle() { "CREATE TABLE \"oqt lower\" (A NUMBER)"@ } else { "CREATE TABLE `oqt``tick` (A INT)"@ })
    } else if slot == 63 {
        Some(target.drop_sql_text("OQT_IMPORT_GEN_NBE"@))
    } else {
        None
    }
}

/// What the probe knows before it starts: the literal for the hostile text, and the
/// production batch size.
pub fn facts(target: Target, hostile: &str, batch_rows: usize) -> (r: Vec<Seen>)
    ensures
        r@.len() == SLOTS,
        forall|slot: int|
            0 <= slot < SLOTS ==> knows(#[trigger] r@[slot], fact(target, hostile@, batch_rows as int, slot)),
{
    let mut out: Vec<Seen> = Vec::new();
    let mut slot: usize = 0;
    while slot < SLOTS
        invariant
            slot <= SLOTS,
            out@.len() == slot,
            forall|k: int| 0 <= k < slot ==> knows(#[trigger] out@[k], fact(target, hostile@, batch_rows as int, k)),
        decreases SLOTS - slot,
    {
        let seen = if slot == 1 {
            Seen::Text(target.create_sql(COPY_TABLE))
        } else if slot == 2 {
            Seen::Text(target.drop_sql(COPY_TABLE))
        } else if slot == 3 {
            Seen::Text(target.create_sql(SOURCE_TABLE))
        } else if slot == 4 {
            Seen::Text(target.drop_sql(SOURCE_TABLE))
        } else if slot == 5 {
            Seen::Text(target.label().to_owned())
        } else if slot == 6 {
            Seen::Text(count_text(batch_rows))
        } else if slot == 7 {
            Seen::Text(target.select_sql(COPY_TABLE))
        } else if slot == 8 {
            Seen::Text(repeat("z", 6000))
        } else if slot == 9 {
            Seen::Text(repeat("AB", 2000))
        } else if slot == 27 {
            Seen::Text(cells_text(&hostile_rows()))
        } else if slot == 28 {
            Seen::Text(names_text(&strings(&HOSTILE_VALUES)))
        } else if slot == 30 {
            Seen::Text(target.delete_sql(COPY_TABLE))
        } else if slot == 31 {
            Seen::Text(seed(target, hostile, 0))
        } else if slot == 32 {
            Seen::Text(seed(target, hostile, 1))
        } else if slot == 33 {
            Seen::Text(seed(target, hostile, 2))
        } else if slot == 34 {
            Seen::Text(seed(target, hostile, 3))
        } else if slot == 35 {
            Seen::Text(target.select_sql(SOURCE_TABLE))
        } else if slot == 36 {
            Seen::Text(target.catalog_types_sql(COPY_TABLE))
        } else if slot == 37 {
            Seen::Text(if target.is_oracle() {
                "read-only mode blocks|ora-01456".to_owned()
            } else {
                "read only".to_owned()
            })
        } else if slot == 40 {
            Seen::Text(target.drop_sql("OQT_IMPORT_GEN"))
        } else if slot == 41 {
            Seen::Text(generated_table_sql(target))
        } else if slot == 42 {
            Seen::Text(target.drop_sql("OQT_IMPORT_INVIS"))
        } else if slot == 43 {
            Seen::Text(if target.is_oracle() {
                "CREATE TABLE OQT_IMPORT_INVIS (A NUMBER, B NUMBER INVISIBLE, C NUMBER)".to_owned()
            } else {
                "CREATE TABLE OQT_IMPORT_INVIS (A INT, B INT INVISIBLE, C INT)".to_owned()
            })
        } else if slot == 44 {
            Seen::Text(target.drop_sql("OQT_IMPORT_NULLTEXT"))
        } else if slot == 45 {
            Seen::Text(if target.is_oracle() {
                "CREATE TABLE OQT_IMPORT_NULLTEXT (SEQ NUMBER, V VARCHAR2(20))".to_owned()
            } else {
                "CREATE TABLE OQT_IMPORT_NULLTEXT (SEQ INT, V VARCHAR(20))".to_owned()
            })
        } else if slot == 46 {
            Seen::Text(target.delete_sql("OQT_IMPORT_NULLTEXT"))
        } else if slot == 47 {
            Seen::Text(target.drop_sql("OQT_IMPORT_LONGVAL"))
        } else if slot == 48 {
            Seen::Text(target.drop_sql("OQT_IMPORT_SRC_BIG"))
        } else if slot == 50 {
            Seen::Text(if target.is_oracle() {
                "SELECT LENGTH(V) AS L, SUBSTR(V, -13) AS T FROM OQT_IMPORT_SRC_BIG WHERE SEQ = 1".to_owned()
            } else {
                "SELECT CHAR_LENGTH(V) AS L, RIGHT(V, 13) AS T FROM OQT_IMPORT_SRC_BIG WHERE SEQ = 1".to_owned()
            })
        } else if slot == 51 {
            Seen::Text(target.drop_sql("OQT_IMPORT_SRC_VICTIM"))
        } else if slot == 53 {
            Seen::Text(target.drop_sql("OQT_IMPORT_SRC_BIN"))
        } else if slot == 55 {
            Seen::Text(target.table_exists_sql("OQT_IMPORT_SRC_VICTIM"))
        } else if slot == 56 {
            Seen::Text(target.drop_sql("OQT_IMPORT_GEN_H"))
        } else if slot == 57 {
            Seen::Text(if target.is_oracle() {
                "CREATE TABLE OQT_IMPORT_GEN_H (SEQ NUMBER, V VARCHAR2(200))".to_owned()
            } else {
                "CREATE TABLE OQT_IMPORT_GEN_H (SEQ INT, V VARCHAR(200))".to_owned()
            })
        } else if slot == 58 {
            Seen::Text(target.drop_sql("OQT_IMPORT_GEN_B"))
        } else if slot == 59 {
            Seen::Text(if target.is_oracle() {
                "CREATE TABLE OQT_IMPORT_GEN_B (SEQ NUMBER, V VARCHAR2(50))".to_owned()
            } else {
                "CREATE TABLE OQT_IMPORT_GEN_B (SEQ INT, V VARCHAR(50))".to_owned()
            })
        } else if slot == 60 {
            Seen::Text(if target.is_oracle() {
                "\"oqt lower\"".to_owned()
            } else {
                "`oqt``tick`".to_owned()
            })
        } else if slot == 61 {
            Seen::Text(if target.is_oracle() {
                "oqt lower".to_owned()
            } else {
                "oqt`tick".to_owned()
            })
        } else if slot == 62 {
            Seen::Text(if target.is_oracle() {
                "CREATE TABLE \"oqt lower\" (A NUMBER)".to_owned()
            } else {
                "CREATE TABLE `oqt``tick` (A INT)".to_owned()
            })
        } else if slot == 63 {
            Seen::Text(target.drop_sql("OQT_IMPORT_GEN_NBE"))
        } else {
            Seen::Nothing
        };
        out.push(seen);
        slot += 1;
    }
    out
}

/// Starts the probe on a target, for so many file formats.
pub fn verify(
    target: Target,
    hostile: &str,
    batch_rows: usize,
    formats: usize,
) -> (r: Machine)
    ensures
        r.wf(),
        r.plan() == all_steps(target, formats as int),
        exists|memory: Seq<Seen>|
            {
                &&& memory.len() == SLOTS
                &&& forall|slot: int|
                    0 <= slot < SLOTS ==> knows(#[trigger] memory[slot], fact(target, hostile@, batch_rows as int, slot))
                &&& r.now() == #[trigger] settle(r.plan(), opening(memory))
            },
{
    let plan = steps(target, formats);
    let memory = facts(target, hostile, batch_rows);
    Machine::new(plan, memory)
}

/// The probe passes only where every test in it was made and held, but for those
/// that a step left out under its own condition: each
/// file was read back and loaded as it was written.
pub proof fn a_clean_run_passes_every_test_of_it(
    target: Target,
    formats: int,
    memory: Seq<Seen>,
    answers: Seq<Seen>,
    k: int,
)
    requires
        0 <= k < all_steps(target, formats).len(),
        is_test(all_steps(target, formats)[k]),
        clean(course(all_steps(target, formats), opening(memory), answers)),
        course(all_steps(target, formats), opening(memory), answers).at == all_steps(target, formats).len(),
    ensures
        test_held(all_steps(target, formats), opening(memory), answers, k) || left_out(
            all_steps(target, formats),
            opening(memory),
            answers,
            k,
        ),
{
    a_clean_run_passes_every_test_not_left_out(all_steps(target, formats), opening(memory), answers, k);
}

} // verus!
