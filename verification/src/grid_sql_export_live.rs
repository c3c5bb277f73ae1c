//! Probe of the SQL that the grid exports: inserts, updates and where clauses
//! are run as generated and must do exactly what the grid showed.
use vstd::prelude::*;
use vstd::string::*;

use crate::course::{
    a_clean_run_passes_every_test_not_left_out, clean, is_test, left_out, test_held,
};
use crate::grid::{
    column_index, position, GridView, BINARY_KIND, NUMBER_KIND, STRING_KIND, TEMPORAL_KIND,
};
use crate::machine::{append, append_when, course, given, opening, settle, Machine, Row, Weight};
use crate::op::Op;
use crate::progress::SqlValueKind;
use crate::seen::{knows, Seen};
use crate::text::{join, joined, same, strings, texts, views};

verus! {

/// The table the rows come from.
pub const BASE_TABLE: &'static str = "OQT_SQL_EXPORT_SRC";

/// The table they are written to.
pub const COPY_TABLE: &'static str = "OQT_SQL_EXPORT_DST";

/// A column of the fixture: its name, how it is declared, and the kind that the
/// driver must report for it.
pub type Column = (&'static str, &'static str, SqlValueKind);

/// The columns on Oracle.
pub const ORACLE_COLUMNS: [Column; 9] = [
    ("PART", "VARCHAR2(10) NOT NULL", SqlValueKind::String),
    ("SEQ", "NUMBER NOT NULL", SqlValueKind::Number),
    ("NAME", "VARCHAR2(50)", SqlValueKind::String),
    ("CODE", "VARCHAR2(10)", SqlValueKind::String),
    ("AMT", "NUMBER(12,2)", SqlValueKind::Number),
    ("HIRED", "DATE", SqlValueKind::Temporal),
    ("TS", "TIMESTAMP(6)", SqlValueKind::Temporal),
    ("TSZ", "TIMESTAMP(6) WITH TIME ZONE", SqlValueKind::Temporal),
    ("RAWC", "RAW(8)", SqlValueKind::Binary),
];

/// The columns on the MySQL family.
pub const MYSQL_COLUMNS: [Column; 9] = [
    ("PART", "VARCHAR(10) NOT NULL", SqlValueKind::String),
    ("SEQ", "INT NOT NULL", SqlValueKind::Number),
    ("NAME", "VARCHAR(50)", SqlValueKind::String),
    ("CODE", "VARCHAR(10)", SqlValueKind::String),
    ("AMT", "DECIMAL(12,2)", SqlValueKind::Number),
    ("HIRED", "DATE", SqlValueKind::Temporal),
    ("TS", "DATETIME(6)", SqlValueKind::Temporal),
    ("FLAG", "TINYINT", SqlValueKind::Number),
    ("BLOBC", "BLOB", SqlValueKind::Binary),
];

/// The row on Oracle that fills every column.
pub const ORACLE_FULL: [&'static str; 9] = [
    "'A-1'",
    "1",
    "'it''s SMITH'",
    "'00123'",
    "1234.56",
    "TO_DATE('1980-12-17 09:30:00','YYYY-MM-DD HH24:MI:SS')",
    "TO_TIMESTAMP('1980-12-17 09:30:00.123456','YYYY-MM-DD HH24:MI:SS.FF')",
    "TO_TIMESTAMP_TZ('1980-12-17 09:30:00.123456 +09:00','YYYY-MM-DD HH24:MI:SS.FF TZH:TZM')",
    "HEXTORAW('DEADBEEF')",
];

/// The row on the MySQL family that fills every column; the bytes are printable.
pub const MYSQL_FULL: [&'static str; 9] = [
    "'A-1'",
    "1",
    "'it''s SMITH'",
    "'00123'",
    "1234.56",
    "'1980-12-17'",
    "'1980-12-17 09:30:00.123456'",
    "1",
    "'abc'",
];

/// The row that is mostly NULL.
pub const SPARSE: [&'static str; 9] = [
    "'B-2'",
    "2",
    "NULL",
    "'007'",
    "NULL",
    "NULL",
    "NULL",
    "NULL",
    "NULL",
];

/// The names of some columns.
pub open spec fn names(columns: Seq<Column>) -> Seq<Seq<char>> {
    Seq::new(columns.len(), |i: int| columns[i].0@)
}

fn names_of(columns: &[Column]) -> (r: Vec<String>)
    ensures
        views(r@) == names(columns@),
{
    let mut out: Vec<String> = Vec::new();
    let mut i: usize = 0;
    while i < columns.len()
        invariant
            i <= columns@.len(),
            out@.len() == i,
            forall|k: int| 0 <= k < i ==> (#[trigger] out@[k])@ == columns@[k].0@,
        decreases columns@.len() - i,
    {
        out.push(columns[i].0.to_owned());
        i += 1;
    }
    assert(views(out@) =~= names(columns@));
    out
}

/// How some columns are declared: each name with its type.
pub open spec fn definitions(columns: Seq<Column>) -> Seq<Seq<char>> {
    Seq::new(columns.len(), |i: int| columns[i].0@ + " "@ + columns[i].1@)
}

fn definitions_of(columns: &[Column]) -> (r: Vec<String>)
    ensures
        views(r@) == definitions(columns@),
{
    let mut out: Vec<String> = Vec::new();
    let mut i: usize = 0;
    while i < columns.len()
        invariant
            i <= columns@.len(),
            out@.len() == i,
            forall|k: int|
                0 <= k < i ==> (#[trigger] out@[k])@ == columns@[k].0@ + " "@ + columns@[k].1@,
        decreases columns@.len() - i,
    {
        let mut definition = columns[i].0.to_owned();
        definition.append(" ");
        definition.append(columns[i].1);
        out.push(definition);
        i += 1;
    }
    assert(views(out@) =~= definitions(columns@));
    out
}

/// The kinds of some columns, each under its name.
pub open spec fn kinds(columns: Seq<Column>) -> Seq<(&'static str, SqlValueKind)> {
    Seq::new(columns.len(), |i: int| (columns[i].0, columns[i].2))
}

fn kinds_of(columns: &[Column]) -> (r: Vec<(&'static str, SqlValueKind)>)
    ensures
        r@ == kinds(columns@),
{
    let mut out: Vec<(&'static str, SqlValueKind)> = Vec::new();
    let mut i: usize = 0;
    while i < columns.len()
        invariant
            i <= columns@.len(),
            out@.len() == i,
            forall|k: int| 0 <= k < i ==> #[trigger] out@[k] == (columns@[k].0, columns@[k].2),
        decreases columns@.len() - i,
    {
        out.push((columns[i].0, columns[i].2));
        i += 1;
    }
    assert(out@ =~= kinds(columns@));
    out
}

/// The statement that inserts one row of values.
pub open spec fn insert_text(
    table: Seq<char>,
    columns: Seq<Column>,
    values: Seq<&'static str>,
) -> Seq<char> {
    "INSERT INTO "@ + table + " ("@ + joined(names(columns), ", "@) + ") VALUES ("@ + joined(
        texts(values),
        ", "@,
    ) + ")"@
}

fn insert_of(table: &str, columns: &[Column], values: &[&'static str]) -> (r: String)
    ensures
        r@ == insert_text(table@, columns@, values@),
{
    let mut out = "INSERT INTO ".to_owned();
    out.append(table);
    out.append(" (");
    out.append(join(&names_of(columns), ", ").as_str());
    out.append(") VALUES (");
    out.append(join(&strings(values), ", ").as_str());
    out.append(")");
    out
}

/// A database the probe runs against.
#[derive(Clone, Copy, Debug, PartialEq, Eq, Structural)]
pub enum Target {
    OracleThin,
    OracleOci,
    MySql,
    MariaDb,
}

impl Target {
    pub open spec fn oracle(self) -> bool {
        self is OracleThin || self is OracleOci
    }

    pub open spec fn name(self) -> Seq<char> {
        match self {
            Target::OracleThin => "Oracle Thin"@,
            Target::OracleOci => "Oracle OCI"@,
            Target::MySql => "MySQL"@,
            Target::MariaDb => "MariaDB"@,
        }
    }

    pub fn label(self) -> (r: &'static str)
        ensures
            r@ == self.name(),
    {
        match self {
            Target::OracleThin => "Oracle Thin",
            Target::OracleOci => "Oracle OCI",
            Target::MySql => "MySQL",
            Target::MariaDb => "MariaDB",
        }
    }

    pub fn is_oracle(self) -> (r: bool)
        ensures
            r == self.oracle(),
    {
        matches!(self, Target::OracleThin | Target::OracleOci)
    }

    /// The columns of the fixture.
    pub open spec fn columns(self) -> Seq<Column> {
        if self.oracle() { ORACLE_COLUMNS@ } else { MYSQL_COLUMNS@ }
    }

    pub open spec fn create_sql_text(self, table: Seq<char>) -> Seq<char> {
        "CREATE TABLE "@ + table + " ("@ + joined(definitions(self.columns()), ", "@) + (
        if self.oracle() {
            ", CONSTRAINT "@ + table + "_PK PRIMARY KEY (PART, SEQ))"@
        } else {
            ", PRIMARY KEY (PART, SEQ))"@
        })
    }

    /// A column for each kind of value the backend can express, and a key of two.
    pub fn create_sql(self, table: &str) -> (r: String)
        ensures
            r@ == self.create_sql_text(table@),
    {
        let declared = if self.is_oracle() {
            definitions_of(&ORACLE_COLUMNS)
        } else {
            definitions_of(&MYSQL_COLUMNS)
        };
        let mut out = "CREATE TABLE ".to_owned();
        out.append(table);
        out.append(" (");
        out.append(join(&declared, ", ").as_str());
        if self.is_oracle() {
            let mut key = ", CONSTRAINT ".to_owned();
            key.append(table);
            key.append("_PK PRIMARY KEY (PART, SEQ))");
            out.append(key.as_str());
        } else {
            out.append(", PRIMARY KEY (PART, SEQ))");
        }
        out
    }

    pub open spec fn drop_sql_text(self, table: Seq<char>) -> Seq<char> {
        if self.oracle() {
            "DROP TABLE "@ + table
        } else {
            "DROP TABLE IF EXISTS "@ + table
        }
    }

    /// The statement that drops a table.
    pub fn drop_sql(self, table: &str) -> (r: String)
        ensures
            r@ == self.drop_sql_text(table@),
    {
        if self.is_oracle() {
            let mut out = "DROP TABLE ".to_owned();
            out.append(table);
            out
        } else {
            let mut out = "DROP TABLE IF EXISTS ".to_owned();
            out.append(table);
            out
        }
    }

    /// The values of the row that fills every column.
    pub open spec fn full_row(self) -> Seq<&'static str> {
        if self.oracle() { ORACLE_FULL@ } else { MYSQL_FULL@ }
    }

    pub open spec fn seed_sql_texts(self, table: Seq<char>) -> Seq<Seq<char>> {
        seq![
            insert_text(table, self.columns(), self.full_row()),
            insert_text(table, self.columns(), SPARSE@),
        ]
    }

    /// Two rows: one fully populated, with a quote in the text and a zero-padded
    /// code that must not turn into a number, and one mostly NULL.
    pub fn seed_sql(self, table: &str) -> (r: Vec<String>)
        ensures
            views(r@) == self.seed_sql_texts(table@),
    {
        let out = if self.is_oracle() {
            vec![
                insert_of(table, &ORACLE_COLUMNS, &ORACLE_FULL),
                insert_of(table, &ORACLE_COLUMNS, &SPARSE),
            ]
        } else {
            vec![
                insert_of(table, &MYSQL_COLUMNS, &MYSQL_FULL),
                insert_of(table, &MYSQL_COLUMNS, &SPARSE),
            ]
        };
        assert(views(out@) =~= self.seed_sql_texts(table@));
        out
    }

    /// The kinds that the columns that matter must be reported as.
    pub fn expected_kinds(self) -> (r: Vec<(&'static str, SqlValueKind)>)
        ensures
            r@ == kinds(self.columns()),
    {
        if self.is_oracle() {
            kinds_of(&ORACLE_COLUMNS)
        } else {
            kinds_of(&MYSQL_COLUMNS)
        }
    }

    pub open spec fn select_sql_text(self, table: Seq<char>) -> Seq<char> {
        "SELECT * FROM "@ + table + " ORDER BY PART, SEQ"@
    }

    /// The statement that reads a table in key order.
    pub fn select_sql(self, table: &str) -> (r: String)
        ensures
            r@ == self.select_sql_text(table@),
    {
        let mut out = "SELECT * FROM ".to_owned();
        out.append(table);
        out.append(" ORDER BY PART, SEQ");
        out
    }
}

/// The targets that a command-line word names; none where it names none.
pub open spec fn named_targets(word: Seq<char>) -> Option<Seq<Target>> {
    if word == "thin"@ {
        Some(seq![Target::OracleThin])
    } else if word == "oci"@ {
        Some(seq![Target::OracleOci])
    } else if word == "mysql"@ {
        Some(seq![Target::MySql])
    } else if word == "mariadb"@ {
        Some(seq![Target::MariaDb])
    } else if word == "all"@ {
        Some(seq![Target::OracleThin, Target::OracleOci, Target::MySql, Target::MariaDb])
    } else {
        None
    }
}

pub fn targets(word: &str) -> (r: Option<Vec<Target>>)
    ensures
        r is Some <==> named_targets(word@) is Some,
        r matches Some(list) ==> named_targets(word@) == Some(list@),
{
    if same(word, "thin") {
        Some(vec![Target::OracleThin])
    } else if same(word, "oci") {
        Some(vec![Target::OracleOci])
    } else if same(word, "mysql") {
        Some(vec![Target::MySql])
    } else if same(word, "mariadb") {
        Some(vec![Target::MariaDb])
    } else if same(word, "all") {
        Some(vec![Target::OracleThin, Target::OracleOci, Target::MySql, Target::MariaDb])
    } else {
        None
    }
}

/// What a generated statement is to cover.
#[derive(Debug)]
pub struct GridSqlSelection {
    pub table: Option<String>,
    pub all_columns: Vec<String>,
    pub column_kinds: Vec<SqlValueKind>,
    pub selected_columns: Vec<usize>,
    pub rows: Vec<Vec<String>>,
    pub null_text: String,
}

/// The rows at some positions, those that there are.
pub open spec fn chosen(rows: Seq<Vec<String>>, picks: Seq<usize>) -> Seq<Seq<Seq<char>>>
    decreases picks.len(),
{
    if picks.len() == 0 {
        Seq::empty()
    } else {
        let before = chosen(rows, picks.drop_last());
        if picks.last() < rows.len() {
            before.push(views(rows[picks.last() as int]@))
        } else {
            before
        }
    }
}

fn copy_texts(list: &Vec<String>) -> (r: Vec<String>)
    ensures
        views(r@) == views(list@),
{
    let mut out: Vec<String> = Vec::new();
    let mut i: usize = 0;
    while i < list.len()
        invariant
            i <= list@.len(),
            out@.len() == i,
            forall|k: int| 0 <= k < i ==> (#[trigger] out@[k])@ == list@[k]@,
        decreases list@.len() - i,
    {
        out.push(list[i].clone());
        i += 1;
    }
    assert(views(out@) =~= views(list@));
    out
}

fn copy_kinds(list: &Vec<SqlValueKind>) -> (r: Vec<SqlValueKind>)
    ensures
        r@ == list@,
{
    let mut out: Vec<SqlValueKind> = Vec::new();
    let mut i: usize = 0;
    while i < list.len()
        invariant
            i <= list@.len(),
            out@ == list@.take(i as int),
        decreases list@.len() - i,
    {
        out.push(list[i]);
        i += 1;
        assert(out@ =~= list@.take(i as int));
    }
    assert(list@.take(i as int) =~= list@);
    out
}

/// A selection of some columns and rows of a grid.
pub fn selection(
    table: &str,
    columns: &Vec<String>,
    kinds: &Vec<SqlValueKind>,
    rows: &Vec<Vec<String>>,
    selected_columns: Vec<usize>,
    selected_rows: &Vec<usize>,
) -> (r: GridSqlSelection)
    ensures
        r.table matches Some(name) && name@ == table@,
        views(r.all_columns@) == views(columns@),
        r.column_kinds@ == kinds@,
        r.selected_columns == selected_columns,
        crate::grid::table(r.rows@) == chosen(rows@, selected_rows@),
        r.null_text@ == "NULL"@,
{
    let mut picked: Vec<Vec<String>> = Vec::new();
    let mut i: usize = 0;
    assert(crate::grid::table(picked@) =~= chosen(rows@, selected_rows@.take(0)));
    while i < selected_rows.len()
        invariant
            i <= selected_rows@.len(),
            crate::grid::table(picked@) == chosen(rows@, selected_rows@.take(i as int)),
        decreases selected_rows@.len() - i,
    {
        let ghost before = picked@;
        assert(selected_rows@.take(i + 1).drop_last() =~= selected_rows@.take(i as int));
        let at: usize = selected_rows[i];
        if at < rows.len() {
            let row = copy_texts(&rows[at]);
            let ghost cells = row@;
            picked.push(row);
            assert(crate::grid::table(picked@) =~= crate::grid::table(before).push(views(cells)));
        }
        i += 1;
    }
    assert(selected_rows@.take(i as int) =~= selected_rows@);
    GridSqlSelection {
        table: Some(table.to_owned()),
        all_columns: copy_texts(columns),
        column_kinds: copy_kinds(kinds),
        selected_columns,
        rows: picked,
        null_text: "NULL".to_owned(),
    }
}

/// All columns of both rows, as inserts.
pub const INSERTS: usize = 0;

/// The changed names of both rows, as updates.
pub const UPDATES: usize = 1;

/// One column of both rows, as a condition.
pub const WHERE_PART: usize = 2;

/// The key of the first row, as a condition.
pub const WHERE_KEY: usize = 3;

/// A column with a NULL of both rows, as a condition.
pub const WHERE_NAME: usize = 4;

/// The columns that a generated statement selects, by name; all where none is
/// named.
pub open spec fn wanted_names(which: int) -> Seq<Seq<char>> {
    if which == UPDATES || which == WHERE_NAME {
        seq!["NAME"@]
    } else if which == WHERE_PART {
        seq!["PART"@]
    } else if which == WHERE_KEY {
        seq!["PART"@, "SEQ"@]
    } else {
        Seq::empty()
    }
}

pub open spec fn wanted_rows(which: int) -> Seq<usize> {
    if which == WHERE_KEY { seq![0usize] } else { seq![0usize, 1usize] }
}

/// The column positions a generated statement selects; none where a column it
/// names is missing.
pub open spec fn wanted_columns(which: int, columns: Seq<String>) -> Option<Seq<usize>> {
    let names = wanted_names(which);
    if names.len() == 0 {
        Some(Seq::new(columns.len(), |i: int| i as usize))
    } else if exists|i: int|
        0 <= i < names.len() && position(columns, #[trigger] names[i]) is None {
        None
    } else {
        Some(Seq::new(names.len(), |i: int| position(columns, names[i])->0 as usize))
    }
}

fn every_column(columns: &Vec<String>) -> (r: Vec<usize>)
    ensures
        r@ == Seq::new(columns@.len(), |i: int| i as usize),
{
    let mut out: Vec<usize> = Vec::new();
    let mut i: usize = 0;
    while i < columns.len()
        invariant
            i <= columns@.len(),
            out@.len() == i,
            forall|k: int| 0 <= k < i ==> #[trigger] out@[k] == k,
        decreases columns@.len() - i,
    {
        out.push(i);
        i += 1;
    }
    assert(out@ =~= Seq::new(columns@.len(), |i: int| i as usize));
    out
}

/// The selection that a generated statement of one of the five shapes is made
/// from, or the error for the first column that is missing.
pub fn selection_for(which: usize, table: &str, view: &GridView, rows: &Vec<Vec<String>>) -> (r:
    Result<GridSqlSelection, String>)
    ensures
        r is Ok <==> wanted_columns(which as int, view.columns@) is Some,
        r matches Ok(s) ==> {
            &&& s.table matches Some(name) && name@ == table@
            &&& views(s.all_columns@) == views(view.columns@)
            &&& s.column_kinds@ == view.kinds@
            &&& wanted_columns(which as int, view.columns@) == Some(s.selected_columns@)
            &&& crate::grid::table(s.rows@) == chosen(rows@, wanted_rows(which as int))
            &&& s.null_text@ == "NULL"@
        },
        r matches Err(e) ==> exists|i: int|
            {
                &&& 0 <= i < wanted_names(which as int).len()
                &&& position(view.columns@, #[trigger] wanted_names(which as int)[i]) is None
                &&& forall|k: int|
                    0 <= k < i ==> position(
                        view.columns@,
                        #[trigger] wanted_names(which as int)[k],
                    ) is Some
                &&& e@ == "column "@ + wanted_names(which as int)[i]
                    + " missing from the result set"@
            },
{
    let ghost names = wanted_names(which as int);
    let mut picked: Vec<usize> = Vec::new();
    if which == WHERE_PART || which == WHERE_KEY {
        assert(names[0] == "PART"@);
        match column_index(&view.columns, "PART") {
            Ok(at) => picked.push(at),
            Err(e) => return Err(e),
        }
    }
    if which == WHERE_KEY {
        assert(names[1] == "SEQ"@);
        match column_index(&view.columns, "SEQ") {
            Ok(at) => picked.push(at),
            Err(e) => return Err(e),
        }
    }
    if which == UPDATES || which == WHERE_NAME {
        assert(names[0] == "NAME"@);
        match column_index(&view.columns, "NAME") {
            Ok(at) => picked.push(at),
            Err(e) => return Err(e),
        }
    }
    if picked.len() == 0 {
        picked = every_column(&view.columns);
    } else {
        assert(picked@ =~= Seq::new(
            names.len(),
            |i: int| position(view.columns@, names[i])->0 as usize,
        ));
    }
    let lines: Vec<usize> = if which == WHERE_KEY {
        vec![0]
    } else {
        vec![0, 1]
    };
    assert(lines@ =~= wanted_rows(which as int));
    Ok(selection(table, &view.columns, &view.kinds, rows, picked, &lines))
}

/// The source and copy tables, and the source rows.
pub const OPENING: [Row; 13] = [
    (Op::Say, Weight::Try, 0, 0, "", "\n########## {t05} ##########", ""),
    (Op::Do, Weight::Try, 99, 0, "{t02}", "", ""),
    (Op::Do, Weight::Try, 99, 0, "{t04}", "", ""),
    (Op::Do, Weight::Leave, 13, 0, "{t03}", "", "create source: {z13}"),
    (Op::Do, Weight::Leave, 13, 0, "{t01}", "", "create copy: {z13}"),
    (Op::Do, Weight::Leave, 13, 0, "{t07}", "", "seed: {z13}"),
    (Op::Do, Weight::Leave, 13, 0, "{t08}", "", "seed: {z13}"),
    (Op::Do, Weight::Try, 99, 0, "COMMIT", "", ""),
    (Op::Do, Weight::Leave, 10, 0, "{t09}", "", "select source: {z10}"),
    (Op::GridOpened, Weight::Leave, 10, 0, "", "", "SELECT produced no grid columns"),
    (Op::Say, Weight::Try, 0, 0, "", "columns and driver-classified kinds:{810}", ""),
    (Op::Say, Weight::Try, 0, 0, "", "rows: {610}", ""),
    (Op::GridRowsAre, Weight::Leave, 10, 2, "", "", "expected 2 source rows, got {110}"),
];

/// Every column of the right kind, on Oracle.
pub const ORACLE_KIND_STEPS: [Row; 18] = [
    (Op::HasColumn, Weight::Leave, 10, 0, "PART", "", "column PART missing from the result set"),
    (Op::KindIs, Weight::Leave, 10, STRING_KIND, "PART", "", ""),
    (Op::HasColumn, Weight::Leave, 10, 0, "SEQ", "", "column SEQ missing from the result set"),
    (Op::KindIs, Weight::Leave, 10, NUMBER_KIND, "SEQ", "", ""),
    (Op::HasColumn, Weight::Leave, 10, 0, "NAME", "", "column NAME missing from the result set"),
    (Op::KindIs, Weight::Leave, 10, STRING_KIND, "NAME", "", ""),
    (Op::HasColumn, Weight::Leave, 10, 0, "CODE", "", "column CODE missing from the result set"),
    (Op::KindIs, Weight::Leave, 10, STRING_KIND, "CODE", "", ""),
    (Op::HasColumn, Weight::Leave, 10, 0, "AMT", "", "column AMT missing from the result set"),
    (Op::KindIs, Weight::Leave, 10, NUMBER_KIND, "AMT", "", ""),
    (Op::HasColumn, Weight::Leave, 10, 0, "HIRED", "", "column HIRED missing from the result set"),
    (Op::KindIs, Weight::Leave, 10, TEMPORAL_KIND, "HIRED", "", ""),
    (Op::HasColumn, Weight::Leave, 10, 0, "TS", "", "column TS missing from the result set"),
    (Op::KindIs, Weight::Leave, 10, TEMPORAL_KIND, "TS", "", ""),
    (Op::HasColumn, Weight::Leave, 10, 0, "TSZ", "", "column TSZ missing from the result set"),
    (Op::KindIs, Weight::Leave, 10, TEMPORAL_KIND, "TSZ", "", ""),
    (Op::HasColumn, Weight::Leave, 10, 0, "RAWC", "", "column RAWC missing from the result set"),
    (Op::KindIs, Weight::Leave, 10, BINARY_KIND, "RAWC", "", ""),
];

/// Every column of the right kind, on the MySQL family.
pub const MYSQL_KIND_STEPS: [Row; 18] = [
    (Op::HasColumn, Weight::Leave, 10, 0, "PART", "", "column PART missing from the result set"),
    (Op::KindIs, Weight::Leave, 10, STRING_KIND, "PART", "", ""),
    (Op::HasColumn, Weight::Leave, 10, 0, "SEQ", "", "column SEQ missing from the result set"),
    (Op::KindIs, Weight::Leave, 10, NUMBER_KIND, "SEQ", "", ""),
    (Op::HasColumn, Weight::Leave, 10, 0, "NAME", "", "column NAME missing from the result set"),
    (Op::KindIs, Weight::Leave, 10, STRING_KIND, "NAME", "", ""),
    (Op::HasColumn, Weight::Leave, 10, 0, "CODE", "", "column CODE missing from the result set"),
    (Op::KindIs, Weight::Leave, 10, STRING_KIND, "CODE", "", ""),
    (Op::HasColumn, Weight::Leave, 10, 0, "AMT", "", "column AMT missing from the result set"),
    (Op::KindIs, Weight::Leave, 10, NUMBER_KIND, "AMT", "", ""),
    (Op::HasColumn, Weight::Leave, 10, 0, "HIRED", "", "column HIRED missing from the result set"),
    (Op::KindIs, Weight::Leave, 10, TEMPORAL_KIND, "HIRED", "", ""),
    (Op::HasColumn, Weight::Leave, 10, 0, "TS", "", "column TS missing from the result set"),
    (Op::KindIs, Weight::Leave, 10, TEMPORAL_KIND, "TS", "", ""),
    (Op::HasColumn, Weight::Leave, 10, 0, "FLAG", "", "column FLAG missing from the result set"),
    (Op::KindIs, Weight::Leave, 10, NUMBER_KIND, "FLAG", "", ""),
    (Op::HasColumn, Weight::Leave, 10, 0, "BLOBC", "", "column BLOBC missing from the result set"),
    (Op::KindIs, Weight::Leave, 10, BINARY_KIND, "BLOBC", "", ""),
];

/// Inserts, updates and where clauses, run as generated.
pub const ROUND_TRIP: [Row; 37] = [
    (Op::Say, Weight::Try, 0, 0, "", "PASS: all fixture columns classified as expected", ""),
    (
        Op::StartSqlSeen, Weight::Leave, 10, 0, "", "",
        "SELECT produced no SelectStart statement text",
    ),
    (Op::ResolveTable, Weight::Try, 14, 0, "{410}", "", ""),
    (
        Op::LastPartNamed, Weight::Leave, 14, 0, "OQT_SQL_EXPORT_SRC", "",
        "SelectStart SQL {510} resolved to {o14}, expected OQT_SQL_EXPORT_SRC",
    ),
    (
        Op::Say, Weight::Try, 0, 0, "",
        "PASS: unfinished-statement export resolves the table as {o14}", "",
    ),
    (
        Op::BuildInserts, Weight::Leave, 15, INSERTS, "OQT_SQL_EXPORT_DST",
        "--- generated SQL Inserts ---\n{t15}", "",
    ),
    (Op::Do, Weight::Leave, 13, 0, "{t15}", "", "generated INSERT statements failed: {z13}"),
    (Op::Do, Weight::Try, 99, 0, "COMMIT", "", ""),
    (Op::Do, Weight::Leave, 11, 0, "{t06}", "", "select copy: {z11}"),
    (Op::GridOpened, Weight::Leave, 11, 0, "", "", "copy SELECT produced no columns"),
    (
        Op::GridSame, Weight::Leave, 11, 10, "", "",
        "SQL Inserts did not round-trip\n  source: {610}\n  copy:   {611}",
    ),
    (Op::Say, Weight::Try, 0, 0, "", "PASS: SQL Inserts round-tripped every value exactly", ""),
    (
        Op::LoadKeys, Weight::Leave, 12, 0, "OQT_SQL_EXPORT_SRC", "primary key columns: {l12}",
        "primary key lookup: {z12}",
    ),
    (
        Op::KeysAre, Weight::Leave, 12, 0, "PART|SEQ", "",
        "expected composite key [PART, SEQ], got {l12}",
    ),
    (Op::HasColumn, Weight::Leave, 10, 0, "NAME", "", "column NAME missing from the result set"),
    (
        Op::BuildUpdates, Weight::Leave, 15, UPDATES, "OQT_SQL_EXPORT_DST",
        "--- generated SQL Updates ---\n{t15}", "",
    ),
    (Op::Do, Weight::Leave, 13, 0, "{t15}", "", "generated UPDATE statements failed: {z13}"),
    (Op::Do, Weight::Try, 99, 0, "COMMIT", "", ""),
    (Op::Do, Weight::Leave, 11, 0, "{t06}", "", "select copy after update: {z11}"),
    (Op::GridOpened, Weight::Leave, 11, 0, "", "", "post-update SELECT produced no columns"),
    (
        Op::GridUpdated, Weight::Leave, 11, 10, "", "",
        "SQL Updates did not apply as generated\n  expected: {710}\n  actual:   {611}",
    ),
    (
        Op::Say, Weight::Try, 0, 0, "",
        "PASS: SQL Updates matched rows by primary key and applied exactly", "",
    ),
    (Op::HasColumn, Weight::Leave, 10, 0, "PART", "", "column PART missing from the result set"),
    (Op::HasColumn, Weight::Leave, 10, 0, "SEQ", "", "column SEQ missing from the result set"),
    (
        Op::BuildWhere, Weight::Leave, 15, WHERE_PART, "OQT_SQL_EXPORT_SRC",
        "--- generated Where Clause (one column) ---\n{t15}", "",
    ),
    (
        Op::Do, Weight::Leave, 11, 0, "SELECT COUNT(*) AS N FROM OQT_SQL_EXPORT_SRC WHERE {t15}",
        "", "one-column WHERE clause failed: {z11}",
    ),
    (
        Op::CountIs, Weight::Leave, 11, 2, "", "",
        "one-column WHERE clause matched {011} rows, expected 2",
    ),
    (
        Op::BuildWhere, Weight::Leave, 15, WHERE_KEY, "OQT_SQL_EXPORT_SRC",
        "--- generated Where Clause (key of one row) ---\n{t15}", "",
    ),
    (
        Op::Do, Weight::Leave, 11, 0, "SELECT COUNT(*) AS N FROM OQT_SQL_EXPORT_SRC WHERE {t15}",
        "", "multi-column WHERE clause failed: {z11}",
    ),
    (
        Op::CountIs, Weight::Leave, 11, 1, "", "",
        "multi-column WHERE clause matched {011} rows, expected 1",
    ),
    (
        Op::BuildWhere, Weight::Leave, 15, WHERE_NAME, "OQT_SQL_EXPORT_SRC",
        "--- generated Where Clause (column containing NULL) ---\n{t15}", "",
    ),
    (
        Op::Do, Weight::Leave, 11, 0, "SELECT COUNT(*) AS N FROM OQT_SQL_EXPORT_SRC WHERE {t15}",
        "", "NULL-bearing WHERE clause failed: {z11}",
    ),
    (
        Op::CountIs, Weight::Leave, 11, 2, "", "",
        "NULL-bearing WHERE clause matched {011} rows, expected 2",
    ),
    (
        Op::Say, Weight::Try, 0, 0, "",
        "PASS: Where Clause matched exactly the selected rows in all three shapes", "",
    ),
    (Op::Do, Weight::Try, 99, 0, "{t02}", "", ""),
    (Op::Do, Weight::Try, 99, 0, "{t04}", "", ""),
    (Op::Do, Weight::Try, 99, 0, "COMMIT", "", ""),
];

/// Every step, in order.
pub open spec fn all_steps(target: Target) -> Seq<Row> {
    OPENING@
        + given(target.oracle(), ORACLE_KIND_STEPS@)
        + given(!target.oracle(), MYSQL_KIND_STEPS@)
        + ROUND_TRIP@
}

pub fn steps(target: Target) -> (r: Vec<Row>)
    ensures
        r@ == all_steps(target),
{
    let mut plan: Vec<Row> = Vec::new();
    append(&mut plan, &OPENING);
    append_when(target.is_oracle(), &mut plan, &ORACLE_KIND_STEPS);
    append_when(!target.is_oracle(), &mut plan, &MYSQL_KIND_STEPS);
    append(&mut plan, &ROUND_TRIP);
    assert(plan@ =~= all_steps(target));
    plan
}

fn first_seed(target: Target) -> (r: String)
    ensures
        r@ == target.seed_sql_texts(BASE_TABLE@)[0],
{
    let seeds = target.seed_sql(BASE_TABLE);
    assert(views(seeds@).len() == 2);
    assert(seeds@[0]@ == views(seeds@)[0]);
    seeds[0].clone()
}

fn second_seed(target: Target) -> (r: String)
    ensures
        r@ == target.seed_sql_texts(BASE_TABLE@)[1],
{
    let seeds = target.seed_sql(BASE_TABLE);
    assert(views(seeds@).len() == 2);
    assert(seeds@[1]@ == views(seeds@)[1]);
    seeds[1].clone()
}

/// The number of slots.
pub const SLOTS: usize = 20;

/// The text a slot starts out with, if it starts out with one.
pub open spec fn fact(target: Target, slot: int) -> Option<Seq<char>> {
    if slot == 1 {
        Some(target.create_sql_text(COPY_TABLE@))
    } else if slot == 2 {
        Some(target.drop_sql_text(COPY_TABLE@))
    } else if slot == 3 {
        Some(target.create_sql_text(BASE_TABLE@))
    } else if slot == 4 {
        Some(target.drop_sql_text(BASE_TABLE@))
    } else if slot == 5 {
        Some(target.name())
    } else if slot == 6 {
        Some(target.select_sql_text(COPY_TABLE@))
    } else if slot == 7 {
        Some(target.seed_sql_texts(BASE_TABLE@)[0])
    } else if slot == 8 {
        Some(target.seed_sql_texts(BASE_TABLE@)[1])
    } else if slot == 9 {
        Some(target.select_sql_text(BASE_TABLE@))
    } else {
        None
    }
}

/// What the probe knows before it starts.
pub fn facts(target: Target) -> (r: Vec<Seen>)
    ensures
        r@.len() == SLOTS,
        forall|slot: int|
            0 <= slot < SLOTS ==> knows(#[trigger] r@[slot], fact(target, slot)),
{
    let mut out: Vec<Seen> = Vec::new();
    let mut slot: usize = 0;
    while slot < SLOTS
        invariant
            slot <= SLOTS,
            out@.len() == slot,
            forall|k: int| 0 <= k < slot ==> knows(#[trigger] out@[k], fact(target, k)),
        decreases SLOTS - slot,
    {
        let seen = if slot == 1 {
            Seen::Text(target.create_sql(COPY_TABLE))
        } else if slot == 2 {
            Seen::Text(target.drop_sql(COPY_TABLE))
        } else if slot == 3 {
            Seen::Text(target.create_sql(BASE_TABLE))
        } else if slot == 4 {
            Seen::Text(target.drop_sql(BASE_TABLE))
        } else if slot == 5 {
            Seen::Text(target.label().to_owned())
        } else if slot == 6 {
            Seen::Text(target.select_sql(COPY_TABLE))
        } else if slot == 7 {
            Seen::Text(first_seed(target))
        } else if slot == 8 {
            Seen::Text(second_seed(target))
        } else if slot == 9 {
            Seen::Text(target.select_sql(BASE_TABLE))
        } else {
            Seen::Nothing
        };
        out.push(seen);
        slot += 1;
    }
    out
}

/// Starts the probe on a target.
pub fn verify(target: Target) -> (r: Machine)
    ensures
        r.wf(),
        r.plan() == all_steps(target),
        exists|memory: Seq<Seen>|
            {
                &&& memory.len() == SLOTS
                &&& forall|slot: int|
                    0 <= slot < SLOTS ==> knows(#[trigger] memory[slot], fact(target, slot))
                &&& r.now() == #[trigger] settle(r.plan(), opening(memory))
            },
{
    let plan = steps(target);
    let memory = facts(target);
    Machine::new(plan, memory)
}

/// The table that is created, the rows that are inserted and the kinds that are
/// expected speak of the same nine columns, in the same order: each is declared
/// under its name, both rows name them all, and the kinds are given under their
/// names.
pub proof fn the_lists_of_columns_agree(target: Target, table: Seq<char>, i: int)
    requires
        0 <= i < 9,
    ensures
        target.columns().len() == 9,
        names(target.columns()).len() == 9,
        definitions(target.columns())[i] == names(target.columns())[i] + " "@
            + target.columns()[i].1@,
        kinds(target.columns())[i].0@ == names(target.columns())[i],
        exists|key: Seq<char>|
            target.create_sql_text(table) == "CREATE TABLE "@ + table + " ("@ + joined(
                definitions(target.columns()),
                ", "@,
            ) + #[trigger] (key + " PRIMARY KEY (PART, SEQ))"@),
        target.seed_sql_texts(table).len() == 2,
        target.seed_sql_texts(table)[0] == "INSERT INTO "@ + table + " ("@ + joined(
            names(target.columns()),
            ", "@,
        ) + ") VALUES ("@ + joined(texts(target.full_row()), ", "@) + ")"@,
        target.seed_sql_texts(table)[1] == "INSERT INTO "@ + table + " ("@ + joined(
            names(target.columns()),
            ", "@,
        ) + ") VALUES ("@ + joined(texts(SPARSE@), ", "@) + ")"@,
        target.full_row().len() == 9,
        SPARSE@.len() == 9,
{
    reveal_strlit(", PRIMARY KEY (PART, SEQ))");
    reveal_strlit("_PK PRIMARY KEY (PART, SEQ))");
    reveal_strlit(" PRIMARY KEY (PART, SEQ))");
    reveal_strlit("_PK");
    reveal_strlit(",");
    let key = if target.oracle() { ", CONSTRAINT "@ + table + "_PK"@ } else { ","@ };
    assert("_PK PRIMARY KEY (PART, SEQ))"@ =~= "_PK"@ + " PRIMARY KEY (PART, SEQ))"@);
    assert(", PRIMARY KEY (PART, SEQ))"@ =~= ","@ + " PRIMARY KEY (PART, SEQ))"@);
    assert(target.create_sql_text(table) =~= "CREATE TABLE "@ + table + " ("@ + joined(
        definitions(target.columns()),
        ", "@,
    ) + (key + " PRIMARY KEY (PART, SEQ))"@));
}

/// The first row fills every column, and the second leaves all NULL but its key
/// and its code.
pub proof fn one_row_is_full_and_one_is_sparse(target: Target, i: int)
    requires
        0 <= i < 9,
    ensures
        target.full_row()[i]@ != "NULL"@,
        SPARSE@[i]@ == "NULL"@ <==> i != 0 && i != 1 && i != 3,
        target.full_row()[2]@ == "'it''s SMITH'"@,
        target.full_row()[3]@ == "'00123'"@,
{
    reveal_strlit("NULL");
    reveal_strlit("'A-1'");
    reveal_strlit("1");
    reveal_strlit("'it''s SMITH'");
    reveal_strlit("'00123'");
    reveal_strlit("1234.56");
    reveal_strlit("TO_DATE('1980-12-17 09:30:00','YYYY-MM-DD HH24:MI:SS')");
    reveal_strlit("TO_TIMESTAMP('1980-12-17 09:30:00.123456','YYYY-MM-DD HH24:MI:SS.FF')");
    reveal_strlit(
        "TO_TIMESTAMP_TZ('1980-12-17 09:30:00.123456 +09:00','YYYY-MM-DD HH24:MI:SS.FF TZH:TZM')",
    );
    reveal_strlit("HEXTORAW('DEADBEEF')");
    reveal_strlit("'1980-12-17'");
    reveal_strlit("'1980-12-17 09:30:00.123456'");
    reveal_strlit("'abc'");
    reveal_strlit("'B-2'");
    reveal_strlit("2");
    reveal_strlit("'007'");
    let first = if target.oracle() { ORACLE_FULL@ } else { MYSQL_FULL@ };
    assert("NULL"@[0] == 'N' && "NULL"@.len() == 4);
    assert(first[i]@.len() != 4 || first[i]@[0] != 'N');
    assert(i == 0 || i == 1 || i == 3 ==> SPARSE@[i]@.len() != 4);
}

/// The probe passes only where every test in it was made and held, but for those
/// that a step left out under its own condition: the
/// statements did exactly what the grid showed.
pub proof fn a_clean_run_passes_every_test_of_it(
    target: Target,
    memory: Seq<Seen>,
    answers: Seq<Seen>,
    k: int,
)
    requires
        0 <= k < all_steps(target).len(),
        is_test(all_steps(target)[k]),
        clean(course(all_steps(target), opening(memory), answers)),
        course(all_steps(target), opening(memory), answers).at == all_steps(target).len(),
    ensures
        test_held(all_steps(target), opening(memory), answers, k) || left_out(
            all_steps(target),
            opening(memory),
            answers,
            k,
        ),
{
    a_clean_run_passes_every_test_not_left_out(all_steps(target), opening(memory), answers, k);
}

} // verus!
