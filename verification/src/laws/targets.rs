//! What the probes run against, by word and by name, and what they say to it.
use vstd::prelude::*;
use vstd::string::*;

use crate::object_export_live::Route;
use crate::text::{begins_with, contains, decimal, ends_with, stands_at};

verus! {

proof fn lemma_words_differ()
    ensures
        "thin"@ != "oci"@,
        "thin"@ != "mysql"@,
        "thin"@ != "mariadb"@,
        "thin"@ != "all"@,
        "oci"@ != "mysql"@,
        "oci"@ != "mariadb"@,
        "oci"@ != "all"@,
        "mysql"@ != "mariadb"@,
        "mysql"@ != "all"@,
        "mariadb"@ != "all"@,
{
    reveal_strlit("thin");
    reveal_strlit("oci");
    reveal_strlit("mysql");
    reveal_strlit("mariadb");
    reveal_strlit("all");
    assert("thin"@[0] == 't');
    assert("oci"@[0] == 'o');
    assert("mysql"@[0] == 'm');
    assert("mysql"@[1] == 'y');
    assert("mariadb"@[0] == 'm');
    assert("mariadb"@[1] == 'a');
    assert("all"@[0] == 'a');
}

/// The targets of the probe of saves: a word names the backend that it spells, `all`
/// names each of the four once, and no other word names any. A target is called by its
/// backend and, on Oracle, its driver.
pub proof fn the_targets_of_saves(word: Seq<char>, target: crate::grid_save::Target)
    ensures
        crate::grid_save::named_targets("thin"@) == Some(seq![crate::grid_save::Target::OracleThin]),
        crate::grid_save::named_targets("oci"@) == Some(seq![crate::grid_save::Target::OracleOci]),
        crate::grid_save::named_targets("mysql"@) == Some(seq![crate::grid_save::Target::MySql]),
        crate::grid_save::named_targets("mariadb"@) == Some(seq![crate::grid_save::Target::MariaDb]),
        crate::grid_save::named_targets("all"@) matches Some(all) && all.len() == 4 && all.no_duplicates() && all.contains(
            target,
        ),
        crate::grid_save::named_targets(word) is Some ==> word == "thin"@ || word == "oci"@ || word == "mysql"@ || word
            == "mariadb"@ || word == "all"@,
        target is OracleThin ==> target.name() == "Oracle Thin"@ && target.oracle(),
        target is OracleOci ==> target.name() == "Oracle OCI"@ && target.oracle(),
        target is MySql ==> target.name() == "MySQL"@ && !target.oracle(),
        target is MariaDb ==> target.name() == "MariaDB"@ && !target.oracle(),
{
    lemma_words_differ();
    let all = crate::grid_save::named_targets("all"@)->0;
    assert(all[0] is OracleThin && all[1] is OracleOci && all[2] is MySql && all[3] is MariaDb);
}

/// The targets of the probe of generated statements: a word names the backend that it spells, `all`
/// names each of the four once, and no other word names any. A target is called by its
/// backend and, on Oracle, its driver.
pub proof fn the_targets_of_generated_statements(word: Seq<char>, target: crate::grid_sql_export_live::Target)
    ensures
        crate::grid_sql_export_live::named_targets("thin"@) == Some(seq![crate::grid_sql_export_live::Target::OracleThin]),
        crate::grid_sql_export_live::named_targets("oci"@) == Some(seq![crate::grid_sql_export_live::Target::OracleOci]),
        crate::grid_sql_export_live::named_targets("mysql"@) == Some(seq![crate::grid_sql_export_live::Target::MySql]),
        crate::grid_sql_export_live::named_targets("mariadb"@) == Some(seq![crate::grid_sql_export_live::Target::MariaDb]),
        crate::grid_sql_export_live::named_targets("all"@) matches Some(all) && all.len() == 4 && all.no_duplicates() && all.contains(
            target,
        ),
        crate::grid_sql_export_live::named_targets(word) is Some ==> word == "thin"@ || word == "oci"@ || word == "mysql"@ || word
            == "mariadb"@ || word == "all"@,
        target is OracleThin ==> target.name() == "Oracle Thin"@ && target.oracle(),
        target is OracleOci ==> target.name() == "Oracle OCI"@ && target.oracle(),
        target is MySql ==> target.name() == "MySQL"@ && !target.oracle(),
        target is MariaDb ==> target.name() == "MariaDB"@ && !target.oracle(),
{
    lemma_words_differ();
    let all = crate::grid_sql_export_live::named_targets("all"@)->0;
    assert(all[0] is OracleThin && all[1] is OracleOci && all[2] is MySql && all[3] is MariaDb);
}

/// The targets of the probe of imports: a word names the backend that it spells, `all`
/// names each of the four once, and no other word names any. A target is called by its
/// backend and, on Oracle, its driver.
pub proof fn the_targets_of_imports(word: Seq<char>, target: crate::import_live::Target)
    ensures
        crate::import_live::named_targets("thin"@) == Some(seq![crate::import_live::Target::OracleThin]),
        crate::import_live::named_targets("oci"@) == Some(seq![crate::import_live::Target::OracleOci]),
        crate::import_live::named_targets("mysql"@) == Some(seq![crate::import_live::Target::MySql]),
        crate::import_live::named_targets("mariadb"@) == Some(seq![crate::import_live::Target::MariaDb]),
        crate::import_live::named_targets("all"@) matches Some(all) && all.len() == 4 && all.no_duplicates() && all.contains(
            target,
        ),
        crate::import_live::named_targets(word) is Some ==> word == "thin"@ || word == "oci"@ || word == "mysql"@ || word
            == "mariadb"@ || word == "all"@,
        target is OracleThin ==> target.name() == "Oracle Thin"@ && target.oracle(),
        target is OracleOci ==> target.name() == "Oracle OCI"@ && target.oracle(),
        target is MySql ==> target.name() == "MySQL"@ && !target.oracle(),
        target is MariaDb ==> target.name() == "MariaDB"@ && !target.oracle(),
{
    lemma_words_differ();
    let all = crate::import_live::named_targets("all"@)->0;
    assert(all[0] is OracleThin && all[1] is OracleOci && all[2] is MySql && all[3] is MariaDb);
}

/// The targets of the probe of routines: a word names the backend that it spells, `all`
/// names each of the four once, and no other word names any. A target is called by its
/// backend and, on Oracle, its driver.
pub proof fn the_targets_of_routines(word: Seq<char>, target: crate::proc_exec::Target)
    ensures
        crate::proc_exec::named_targets("thin"@) == Some(seq![crate::proc_exec::Target::OracleThin]),
        crate::proc_exec::named_targets("oci"@) == Some(seq![crate::proc_exec::Target::OracleOci]),
        crate::proc_exec::named_targets("mysql"@) == Some(seq![crate::proc_exec::Target::MySql]),
        crate::proc_exec::named_targets("mariadb"@) == Some(seq![crate::proc_exec::Target::MariaDb]),
        crate::proc_exec::named_targets("all"@) matches Some(all) && all.len() == 4 && all.no_duplicates() && all.contains(
            target,
        ),
        crate::proc_exec::named_targets(word) is Some ==> word == "thin"@ || word == "oci"@ || word == "mysql"@ || word
            == "mariadb"@ || word == "all"@,
        target is OracleThin ==> target.name() == "Oracle Thin"@ && target.oracle(),
        target is OracleOci ==> target.name() == "Oracle OCI"@ && target.oracle(),
        target is MySql ==> target.name() == "MySQL"@ && !target.oracle(),
        target is MariaDb ==> target.name() == "MariaDB"@ && !target.oracle(),
{
    lemma_words_differ();
    let all = crate::proc_exec::named_targets("all"@)->0;
    assert(all[0] is OracleThin && all[1] is OracleOci && all[2] is MySql && all[3] is MariaDb);
}

/// The targets of the probe of read only connections: a word names the backend that it spells, `all`
/// names each of the four once, and no other word names any. A target is called by its
/// backend and, on Oracle, its driver.
pub proof fn the_targets_of_read_only_connections(word: Seq<char>, target: crate::read_only::Target)
    ensures
        crate::read_only::named_targets("thin"@) == Some(seq![crate::read_only::Target::OracleThin]),
        crate::read_only::named_targets("oci"@) == Some(seq![crate::read_only::Target::OracleOci]),
        crate::read_only::named_targets("mysql"@) == Some(seq![crate::read_only::Target::MySql]),
        crate::read_only::named_targets("mariadb"@) == Some(seq![crate::read_only::Target::MariaDb]),
        crate::read_only::named_targets("all"@) matches Some(all) && all.len() == 4 && all.no_duplicates() && all.contains(
            target,
        ),
        crate::read_only::named_targets(word) is Some ==> word == "thin"@ || word == "oci"@ || word == "mysql"@ || word
            == "mariadb"@ || word == "all"@,
        target is OracleThin ==> target.name() == "Oracle Thin"@ && target.oracle(),
        target is OracleOci ==> target.name() == "Oracle OCI"@ && target.oracle(),
        target is MySql ==> target.name() == "MySQL"@ && !target.oracle(),
        target is MariaDb ==> target.name() == "MariaDB"@ && !target.oracle(),
{
    lemma_words_differ();
    let all = crate::read_only::named_targets("all"@)->0;
    assert(all[0] is OracleThin && all[1] is OracleOci && all[2] is MySql && all[3] is MariaDb);
}

/// The targets of the probe of leaked sessions: a word names the backend that it spells, `all`
/// names each of the four once, and no other word names any. A target is called by its
/// backend and, on Oracle, its driver.
pub proof fn the_targets_of_leaked_sessions(word: Seq<char>, target: crate::session_leak::Target)
    ensures
        crate::session_leak::named_targets("thin"@) == Some(seq![crate::session_leak::Target::OracleThin]),
        crate::session_leak::named_targets("oci"@) == Some(seq![crate::session_leak::Target::OracleOci]),
        crate::session_leak::named_targets("mysql"@) == Some(seq![crate::session_leak::Target::MySql]),
        crate::session_leak::named_targets("mariadb"@) == Some(seq![crate::session_leak::Target::MariaDb]),
        crate::session_leak::named_targets("all"@) matches Some(all) && all.len() == 4 && all.no_duplicates() && all.contains(
            target,
        ),
        crate::session_leak::named_targets(word) is Some ==> word == "thin"@ || word == "oci"@ || word == "mysql"@ || word
            == "mariadb"@ || word == "all"@,
        target is OracleThin ==> target.name() == "Oracle Thin"@ && target.oracle(),
        target is OracleOci ==> target.name() == "Oracle OCI"@ && target.oracle(),
        target is MySql ==> target.name() == "MySQL"@ && !target.oracle(),
        target is MariaDb ==> target.name() == "MariaDB"@ && !target.oracle(),
{
    lemma_words_differ();
    let all = crate::session_leak::named_targets("all"@)->0;
    assert(all[0] is OracleThin && all[1] is OracleOci && all[2] is MySql && all[3] is MariaDb);
}

/// The targets of the probe of transaction modes: a word names the backend that it spells, `all`
/// names each of the four once, and no other word names any. A target is called by its
/// backend and, on Oracle, its driver.
pub proof fn the_targets_of_transaction_modes(word: Seq<char>, target: crate::transaction_mode::Target)
    ensures
        crate::transaction_mode::named_targets("thin"@) == Some(seq![crate::transaction_mode::Target::OracleThin]),
        crate::transaction_mode::named_targets("oci"@) == Some(seq![crate::transaction_mode::Target::OracleOci]),
        crate::transaction_mode::named_targets("mysql"@) == Some(seq![crate::transaction_mode::Target::MySql]),
        crate::transaction_mode::named_targets("mariadb"@) == Some(seq![crate::transaction_mode::Target::MariaDb]),
        crate::transaction_mode::named_targets("all"@) matches Some(all) && all.len() == 4 && all.no_duplicates() && all.contains(
            target,
        ),
        crate::transaction_mode::named_targets(word) is Some ==> word == "thin"@ || word == "oci"@ || word == "mysql"@ || word
            == "mariadb"@ || word == "all"@,
        target is OracleThin ==> target.name() == "Oracle Thin"@ && target.oracle(),
        target is OracleOci ==> target.name() == "Oracle OCI"@ && target.oracle(),
        target is MySql ==> target.name() == "MySQL"@ && !target.oracle(),
        target is MariaDb ==> target.name() == "MariaDB"@ && !target.oracle(),
{
    lemma_words_differ();
    let all = crate::transaction_mode::named_targets("all"@)->0;
    assert(all[0] is OracleThin && all[1] is OracleOci && all[2] is MySql && all[3] is MariaDb);
}

/// What the probe of generated statements says of a table: every statement names it.
pub proof fn the_statements_of_generated_statements(target: crate::grid_sql_export_live::Target, table: Seq<char>)
    ensures
        begins_with(target.create_sql_text(table), "CREATE TABLE "@ + table + " ("@),
        target.oracle() ==> target.drop_sql_text(table) == "DROP TABLE "@ + table,
        !target.oracle() ==> target.drop_sql_text(table) == "DROP TABLE IF EXISTS "@ + table,
        target.select_sql_text(table) == "SELECT * FROM "@ + table + " ORDER BY PART, SEQ"@,
{
    reveal_strlit(" (");
    let head = "CREATE TABLE "@ + table + " ("@;
    let all = target.create_sql_text(table);
    assert(all.len() >= head.len());
    assert(all.subrange(0, head.len() as int) =~= head);
    assert(stands_at(all, head, 0));
}

/// What the probe of leaked sessions runs: something that lasts, something that does not,
/// and something that fetches.
pub proof fn the_statements_of_leaked_sessions(target: crate::session_leak::Target)
    ensures
        target.oracle() ==> target.sleep_sql_text() == "BEGIN DBMS_SESSION.SLEEP(30); END;"@
            && target.trivial_sql_text() == "SELECT 1 AS N FROM dual"@,
        !target.oracle() ==> target.sleep_sql_text() == "SELECT SLEEP(30)"@
            && target.trivial_sql_text() == "SELECT 1 AS N"@,
{
}

/// What the probe of imports says of a table: every statement names it.
pub proof fn the_statements_of_imports(target: crate::import_live::Target, table: Seq<char>)
    ensures
        begins_with(target.create_sql_text(table), "CREATE TABLE "@ + table),
        target.oracle() ==> target.drop_sql_text(table) == "DROP TABLE "@ + table,
        !target.oracle() ==> target.drop_sql_text(table) == "DROP TABLE IF EXISTS "@ + table,
        target.select_sql_text(table) == "SELECT * FROM "@ + table + " ORDER BY SEQ"@,
        target.delete_sql_text(table) == "DELETE FROM "@ + table,
        begins_with(target.table_exists_sql_text(table), "SELECT COUNT(*) AS N FROM "@),
        ends_with(target.table_exists_sql_text(table), "TABLE_NAME = '"@ + table + "'"@),
        contains(target.catalog_types_sql_text(table), table),
{
    let head = "CREATE TABLE "@ + table;
    let create = target.create_sql_text(table);
    assert(create.subrange(0, head.len() as int) =~= head);
    assert(stands_at(create, head, 0));
    let there = target.table_exists_sql_text(table);
    let ask = "SELECT COUNT(*) AS N FROM "@;
    let last = "TABLE_NAME = '"@ + table + "'"@;
    reveal_strlit("SELECT COUNT(*) AS N FROM ");
    reveal_strlit("TABLE_NAME = '");
    reveal_strlit("SELECT COUNT(*) AS N FROM USER_TABLES WHERE TABLE_NAME = '");
    reveal_strlit(
        "SELECT COUNT(*) AS N FROM INFORMATION_SCHEMA.TABLES WHERE TABLE_SCHEMA = DATABASE() AND TABLE_NAME = '",
    );
    assert(there.subrange(0, ask.len() as int) =~= ask);
    assert(stands_at(there, ask, 0));
    let from = there.len() - last.len();
    assert(there.subrange(from, from + last.len()) =~= last);
    assert(stands_at(there, last, from));
    let types = target.catalog_types_sql_text(table);
    let at = if target.oracle() {
        "SELECT column_name, data_type FROM user_tab_columns WHERE table_name = '"@.len()
    } else {
        "SELECT COLUMN_NAME, COLUMN_TYPE FROM INFORMATION_SCHEMA.COLUMNS WHERE TABLE_SCHEMA = DATABASE() AND UPPER(TABLE_NAME) = '"@.len()
    };
    assert(types.subrange(at as int, at as int + table.len()) =~= table);
    assert(stands_at(types, table, at as int));
}

/// What the probe of saves says of a table: every statement names it.
pub proof fn the_statements_of_saves(target: crate::grid_save::Target, table: Seq<char>)
    ensures
        target.oracle() ==> target.create_sql_text(table) == "CREATE TABLE "@ + table
            + " (ID NUMBER, NAME VARCHAR2(50))"@,
        !target.oracle() ==> target.create_sql_text(table) == "CREATE TABLE "@ + table
            + " (ID INT PRIMARY KEY, NAME VARCHAR(50))"@,
        target.oracle() ==> target.drop_sql_text(table) == "DROP TABLE "@ + table,
        !target.oracle() ==> target.drop_sql_text(table) == "DROP TABLE IF EXISTS "@ + table,
{
}

/// How the ways to Oracle are named: by the driver and, on the thin one, its protocol.
pub proof fn the_routes_are_named(protocol: u16)
    ensures
        Route::Oci.name() == "OCI"@,
        Route::Oci.title() == "OCI"@,
        Route::Oci.prefix() == "OCI"@,
        Route::Oci.query() == "execute_oci_query"@,
        Route::Thin(protocol).query() == "execute_thin_query"@,
        ends_with(Route::Thin(protocol).name(), decimal(protocol as int)),
        ends_with(Route::Thin(protocol).title(), decimal(protocol as int)),
        ends_with(Route::Thin(protocol).prefix(), decimal(protocol as int)),
{
    let n = decimal(protocol as int);
    let name = Route::Thin(protocol).name();
    let title = Route::Thin(protocol).title();
    let prefix = Route::Thin(protocol).prefix();
    assert(name.subrange(name.len() - n.len(), name.len() as int) =~= n);
    assert(title.subrange(title.len() - n.len(), title.len() as int) =~= n);
    assert(prefix.subrange(prefix.len() - n.len(), prefix.len() as int) =~= n);
}

} // verus!
