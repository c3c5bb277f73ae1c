use space_query_probes::connection::{connection_info, Backend, Environment};
use space_query_probes::grid::grid_view;
use space_query_probes::grid_sql_export_live as sql_export;
use space_query_probes::import::{
    expected_cells, is_null, join_zone, normalize_zone_space, same_rows,
};
use space_query_probes::import_data::hostile_rows;
use space_query_probes::import_live;
use space_query_probes::import_live::loading::{loading, ScriptDialect};
use space_query_probes::machine::{Machine, Request};
use space_query_probes::op::Op;
use space_query_probes::proc_exec;
use space_query_probes::progress::{
    QueryProgress, QueryResult, SqlValueKind, TransactionIsolation,
};
use space_query_probes::seen::Seen;
use space_query_probes::session_leak;
use space_query_probes::transaction_mode as modes;

fn texts(items: &[&str]) -> Vec<String> {
    items.iter().map(|s| s.to_string()).collect()
}

fn drive<F: FnMut(&Request) -> Seen>(machine: &mut Machine, mut answer: F) -> Vec<(Op, String)> {
    let mut asked = Vec::new();
    while let Some(request) = machine.request() {
        asked.push((request.op, request.text.clone()));
        let seen = answer(&request);
        machine.answer(seen);
    }
    asked
}

fn environment() -> Environment {
    Environment {
        host: None,
        port: None,
        service_name: None,
        service: None,
        username: Some("straße".to_string()),
        password: None,
    }
}

fn ok() -> Seen {
    Seen::Run(vec![QueryProgress::StatementFinished {
        result: QueryResult {
            success: true,
            is_select: false,
            sql: String::new(),
            message: String::new(),
            rows: Vec::new(),
        },
    }])
}

// ---- transaction modes -----------------------------------------------------

#[test]
fn a_tab_without_a_scope_runs_in_its_own() {
    let oracle = connection_info(Backend::Oracle, &environment());
    assert_eq!(modes::base_scope(modes::Target::OracleThin, &oracle), "STRASSE");
    let mysql = connection_info(Backend::MySql, &environment());
    assert_eq!(modes::base_scope(modes::Target::MySql, &mysql), "query_tool_mysql8");
}

#[test]
fn the_default_is_no_level_of_its_own() {
    let supported = vec![
        TransactionIsolation::Default,
        TransactionIsolation::ReadCommitted,
        TransactionIsolation::Serializable,
    ];
    assert_eq!(
        modes::offered_isolations(&supported),
        [TransactionIsolation::ReadCommitted, TransactionIsolation::Serializable]
    );
}

fn modes_run(target: modes::Target, backend: Backend) -> (Machine, Vec<(Op, String)>) {
    let info = connection_info(backend, &environment());
    let supported =
        vec![TransactionIsolation::ReadCommitted, TransactionIsolation::Serializable];
    let mut machine = modes::verify(target, &info, &supported);
    let asked = drive(&mut machine, |request| match request.op {
        Op::Setup => ok(),
        _ => Seen::Failed("gone".to_string()),
    });
    (machine, asked)
}

#[test]
fn whatever_fails_the_tab_is_unpinned_and_everything_dropped() {
    for (target, backend) in [
        (modes::Target::OracleThin, Backend::Oracle),
        (modes::Target::OracleOci, Backend::Oracle),
        (modes::Target::MySql, Backend::MySql),
        (modes::Target::MariaDb, Backend::MariaDb),
    ] {
        let (machine, asked) = modes_run(target, backend);
        assert_eq!(machine.error().map(String::as_str), Some("gone"));
        let unpinned = asked.iter().rposition(|(op, _)| *op == Op::Unpin);
        let unpinned = unpinned.expect("the tab is unpinned");
        let dropped: Vec<String> =
            asked[unpinned + 1..].iter().map(|(_, text)| text.clone()).collect();
        assert_eq!(dropped[..target.teardown().len()], target.teardown());
    }
}

#[test]
fn a_set_up_that_fails_ends_the_run() {
    let info = connection_info(Backend::MySql, &environment());
    let mut machine = modes::verify(modes::Target::MySql, &info, &Vec::new());
    let asked = drive(&mut machine, |request| match request.op {
        Op::Setup => Seen::Failed("denied".to_string()),
        _ => Seen::Nothing,
    });
    assert!(machine.error().is_some_and(|e| e.ends_with(": denied")));
    assert_eq!(asked.iter().filter(|(op, _)| *op == Op::Setup).count(), 4);
    assert!(!asked.iter().any(|(op, _)| *op == Op::Unpin));
}

#[test]
fn every_level_adds_its_steps() {
    let one = vec![TransactionIsolation::ReadCommitted];
    let two = vec![TransactionIsolation::ReadCommitted, TransactionIsolation::RepeatableRead];
    let short = modes::run_scenarios(modes::Target::MySql, &one).len();
    let long = modes::run_scenarios(modes::Target::MySql, &two).len();
    assert!(long > short);
    let whole = modes::run_plan(modes::Target::MySql, &one).len();
    assert!(whole > short);
    assert_eq!(modes::Target::OracleThin.setup().len() > 3, true);
}

// ---- routines --------------------------------------------------------------

#[test]
fn a_routine_probe_that_finishes_nothing_is_told() {
    let mut machine = proc_exec::verify(proc_exec::Target::MySql, "APP");
    let asked = drive(&mut machine, |request| match request.op {
        Op::AutoCommitNow => Seen::Flag(true),
        _ => Seen::Run(Vec::new()),
    });
    assert_eq!(
        machine.error().map(String::as_str),
        Some("CALL procedure: no terminal StatementFinished")
    );
    let setups: Vec<String> = asked
        .iter()
        .filter(|(op, _)| *op == Op::Setup)
        .map(|(_, text)| text.clone())
        .collect();
    assert_eq!(setups, proc_exec::Target::MySql.setup());
    assert_eq!(proc_exec::Target::OracleThin.probes().len(), 4);
    assert_eq!(proc_exec::Target::MariaDb.probes().len(), 2);
}

#[test]
fn drops_are_best_effort() {
    assert!(proc_exec::does_drop("  drop procedure P"));
    assert!(!proc_exec::does_drop("CREATE PROCEDURE P"));
    let mut machine = proc_exec::verify(proc_exec::Target::OracleThin, "APP");
    drive(&mut machine, |request| {
        if request.op == Op::Setup && !proc_exec::does_drop(&request.text) {
            Seen::Failed("denied".to_string())
        } else if request.op == Op::Setup {
            Seen::Failed("no such object".to_string())
        } else {
            Seen::Flag(true)
        }
    });
    let error = machine.error().expect("a create must work");
    assert!(error.starts_with("setup \"CREATE"), "{error}");
    assert!(error.ends_with("\": denied"), "{error}");
}

#[test]
fn every_probe_is_run_in_turn() {
    let target = proc_exec::Target::OracleOci;
    let steps = proc_exec::steps(target);
    for (label, sql) in target.probes() {
        let at = steps
            .iter()
            .position(|row| row.0 == Op::Name && row.4 == label)
            .expect("the probe is named");
        assert_eq!(steps[at + 1].4, sql);
        assert_eq!(steps[at + 2].0, Op::Run);
        assert_eq!(steps[at + 2].4, "{t09}");
    }
}

#[test]
fn what_a_routine_probe_made_is_dropped_when_it_fails() {
    let mut plan = Vec::new();
    proc_exec::oracle_long_name_round_trip(&mut plan);
    let memory = (0..30).map(|_| Seen::Nothing).collect();
    let mut machine = Machine::new(plan, memory);
    let asked = drive(&mut machine, |request| match request.op {
        Op::FetchStandalone => Seen::Failed("no catalog".to_string()),
        _ => ok(),
    });
    assert_eq!(machine.error().map(String::as_str), Some("no catalog"));
    let failed = asked.iter().position(|(op, _)| *op == Op::FetchStandalone);
    let after: Vec<&String> =
        asked[failed.map_or(0, |at| at + 1)..].iter().map(|(_, text)| text).collect();
    assert_eq!(after, ["DROP PROCEDURE SQ_GEN_LONGP", "COMMIT"]);
}

#[test]
fn a_call_that_blocks_the_next_query_is_told() {
    let mut plan = Vec::new();
    proc_exec::probe(&mut plan, "EXEC procedure", "BEGIN P; END;");
    let memory = (0..30).map(|_| Seen::Nothing).collect();
    let mut machine = Machine::new(plan, memory);
    let asked = drive(&mut machine, |request| match request.op {
        Op::NextBlocked => Seen::Flag(request.text.starts_with("SELECT")),
        _ => ok(),
    });
    assert_eq!(asked[0], (Op::Run, "BEGIN P; END;".to_string()));
    assert_eq!(
        machine.error().map(String::as_str),
        Some(
            "EXEC procedure: BUG - successful statement blocks the next query (pops \
             discard/commit/rollback)"
        )
    );
}

// ---- sessions --------------------------------------------------------------

#[test]
fn sessions_that_stay_open_are_tallied() {
    let target = session_leak::Target::MySql;
    let mut machine = session_leak::verify(target);
    let mut counts = 0;
    drive(&mut machine, |request| match request.op {
        Op::StableCount | Op::SettledCount | Op::CountNow => {
            counts += 1;
            Seen::Number(counts)
        }
        _ => Seen::Flag(true),
    });
    assert!(machine
        .failures()
        .contains(&"T1 closing a tab closes its retained session".to_string()));
    assert_eq!(target.sleep_sql(), "SELECT SLEEP(30)");
    assert_eq!(session_leak::Target::OracleOci.trivial_sql(), "SELECT 1 AS N FROM dual");
    assert!(session_leak::Target::OracleThin.many_rows_sql().contains("20000"));
}

#[test]
fn a_census_that_fails_ends_the_run() {
    let mut machine = session_leak::verify(session_leak::Target::OracleThin);
    machine.answer(Seen::Failed("no census".to_string()));
    assert_eq!(machine.error().map(String::as_str), Some("no census"));
    assert!(machine.request().is_none());
}

// ---- import ----------------------------------------------------------------

#[test]
fn null_is_empty_or_spelled() {
    assert!(is_null(""));
    assert!(is_null("null"));
    assert!(!is_null("NULLS"));
}

#[test]
fn a_zone_is_joined_once() {
    let joined = join_zone("2024-02-29 23:59:59   -05:30");
    assert_eq!(joined, "2024-02-29 23:59:59-05:30");
    assert_eq!(join_zone(&joined), joined);
    assert_eq!(join_zone(" +09:00"), "+09:00");
    assert_eq!(join_zone("+09:00"), "+09:00");
    assert_eq!(join_zone("23:59 +09:00"), join_zone("23:59+09:00"));
    assert_eq!(join_zone("ends in +9:00"), "ends in +9:00");
    assert_eq!(normalize_zone_space(&None), None);
    assert_eq!(
        normalize_zone_space(&Some("1 +00:00".to_string())),
        Some("1+00:00".to_string())
    );
}

#[test]
fn files_give_back_what_the_grid_held() {
    let rows = vec![texts(&["1", "NULL", "a +01:00"])];
    let cells = expected_cells(&rows);
    assert_eq!(
        cells,
        vec![vec![Some("1".to_string()), None, Some("a+01:00".to_string())]]
    );
    assert!(same_rows(&cells, &cells));
    assert!(!same_rows(&cells, &expected_cells(&vec![texts(&["1", "x", "a+01:00"])])));
    assert!(!hostile_rows().is_empty());
}

#[test]
fn import_statements_are_spelled_for_their_family() {
    let oracle = import_live::Target::OracleThin;
    let mysql = import_live::Target::MySql;
    assert_eq!(mysql.drop_sql("T"), "DROP TABLE IF EXISTS T");
    assert_eq!(oracle.drop_sql("T"), "DROP TABLE T");
    assert!(oracle.create_sql("T").starts_with("CREATE TABLE T ("));
    assert_eq!(mysql.delete_sql("T"), "DELETE FROM T");
    assert!(import_live::generated_table_sql(oracle).ends_with("VIRTUAL)"));
    assert!(oracle.catalog_types_sql("T").contains('T'));
    assert_eq!(oracle.seed_sql("T", "'x'").len(), 4);
    assert!(oracle.seed_sql("T", "'x'")[0].contains("(1, 'x', '00123'"));
    assert!(oracle.seed_sql("T", "'x'")[0].ends_with("HEXTORAW('DEADBEEF'), HEXTORAW('414243'))"));
    assert!(oracle.seed_sql("T", "'x'")[2].ends_with("HEXTORAW('00FF'), HEXTORAW('41'))"));
    assert!(mysql.seed_sql("T", "'x'")[0].ends_with("1, 'abc', b'00110001')"));
    let literal = import_live::hostile_literal();
    assert!(literal.starts_with('\'') && literal.ends_with('\''));
}

#[test]
fn a_data_set_says_how_it_is_loaded() {
    let how = loading(import_live::DOCUMENTS, 500).expect("a data set");
    let columns = how.columns.expect("it names its columns");
    let shown: Vec<_> = columns.iter().map(|c| (c.name, c.kind, c.nullable)).collect();
    assert_eq!(
        shown,
        [("SEQ", SqlValueKind::Number, false), ("V", SqlValueKind::String, true)]
    );
    assert_eq!(how.batch_rows, 500);
    assert!(!how.positional);
    assert!(matches!(how.dialect, ScriptDialect::Connection));

    let how = loading(import_live::PARSED, 500).expect("a data set");
    assert!(how.columns.expect("it names its columns").iter().all(|c| c.nullable));
    assert_eq!(how.batch_rows, 2);

    let how = loading(import_live::HEADERLESS, 500).expect("a data set");
    assert!(how.columns.is_none() && how.positional);
    let how = loading(import_live::INJECTION, 500).expect("a data set");
    assert!(how.columns.is_none() && !how.positional);

    let how = loading(import_live::ONE_B, 500).expect("a data set");
    let columns = how.columns.expect("it names its columns");
    assert_eq!((columns[0].name, columns[0].kind), ("B", SqlValueKind::Unknown));

    let how = loading(import_live::BACKSLASH_BY_FAMILY, 500).expect("a data set");
    assert!(matches!(how.dialect, ScriptDialect::Family));
    match loading(import_live::BACKSLASH_BY_CONNECTION, 500).expect("a data set").dialect {
        ScriptDialect::Modes(modes) => assert_eq!(modes, "TRADITIONAL,NO_BACKSLASH_ESCAPES"),
        other => panic!("{other:?}"),
    }
    assert!(loading(import_live::BACKSLASH_BY_CONNECTION + 1, 500).is_none());
}

#[test]
fn an_import_whose_source_fails_is_told() {
    let mut machine = import_live::verify(import_live::Target::MySql, "'x'", 100, 2);
    drive(&mut machine, |_| Seen::Failed("no table".to_string()));
    let error = machine.error().expect("the source must be made");
    assert!(error.ends_with("no table"), "{error}");
    let short = import_live::steps(import_live::Target::MySql, 1).len();
    let long = import_live::steps(import_live::Target::MySql, 3).len();
    assert_eq!((long - short) % 2, 0);
    assert!(long > short);
}

// ---- the SQL of a live grid ------------------------------------------------

#[test]
fn a_selection_names_its_columns_and_rows() {
    let run = vec![
        QueryProgress::SelectStart {
            columns: texts(&["ID", "NAME"]),
            column_kinds: vec![SqlValueKind::Number, SqlValueKind::String],
            sql: "SELECT".to_string(),
        },
        QueryProgress::Rows { rows: vec![texts(&["1", "a"]), texts(&["2", "NULL"])] },
    ];
    let view = grid_view(&run).expect("a grid was opened");
    let selected = sql_export::selection(
        "T",
        &view.columns,
        &view.kinds,
        &view.rows,
        vec![1],
        &vec![0, 1],
    );
    assert_eq!(selected.table, Some("T".to_string()));
    assert_eq!(selected.all_columns, ["ID", "NAME"]);
    assert_eq!(selected.selected_columns, [1]);
    assert_eq!(selected.rows.len(), 2);
}

#[test]
fn a_statement_selects_the_columns_it_names() {
    let start = |columns: &[&str]| {
        vec![
            QueryProgress::SelectStart {
                columns: texts(columns),
                column_kinds: vec![SqlValueKind::String; columns.len()],
                sql: "SELECT".to_string(),
            },
            QueryProgress::Rows { rows: vec![texts(columns), texts(columns)] },
        ]
    };
    let view = grid_view(&start(&["NAME", "SEQ", "PART"])).expect("a grid was opened");
    let key = sql_export::selection_for(sql_export::WHERE_KEY, "T", &view, &view.rows)
        .expect("the key is there");
    assert_eq!(key.selected_columns, [2, 1]);
    assert_eq!(key.rows.len(), 1);
    assert_eq!(key.null_text, "NULL");
    let view = grid_view(&start(&["NAME", "SEQ"])).expect("a grid was opened");
    assert_eq!(
        sql_export::selection_for(sql_export::WHERE_KEY, "T", &view, &view.rows).err(),
        Some("column PART missing from the result set".to_string())
    );
    let view = grid_view(&start(&["NAME", "PART"])).expect("a grid was opened");
    assert_eq!(
        sql_export::selection_for(sql_export::WHERE_KEY, "T", &view, &view.rows).err(),
        Some("column SEQ missing from the result set".to_string())
    );
}

#[test]
fn live_sql_statements_are_spelled_for_their_family() {
    let oracle = sql_export::Target::OracleOci;
    let mysql = sql_export::Target::MariaDb;
    assert_eq!(mysql.drop_sql("T"), "DROP TABLE IF EXISTS T");
    assert!(oracle.select_sql("T").starts_with("SELECT "));
    assert_eq!(
        oracle.create_sql("T"),
        "CREATE TABLE T (PART VARCHAR2(10) NOT NULL, SEQ NUMBER NOT NULL, NAME VARCHAR2(50), \
         CODE VARCHAR2(10), AMT NUMBER(12,2), HIRED DATE, TS TIMESTAMP(6), \
         TSZ TIMESTAMP(6) WITH TIME ZONE, RAWC RAW(8), CONSTRAINT T_PK PRIMARY KEY (PART, SEQ))"
    );
    assert_eq!(
        mysql.create_sql("T"),
        "CREATE TABLE T (PART VARCHAR(10) NOT NULL, SEQ INT NOT NULL, NAME VARCHAR(50), \
         CODE VARCHAR(10), AMT DECIMAL(12,2), HIRED DATE, TS DATETIME(6), FLAG TINYINT, \
         BLOBC BLOB, PRIMARY KEY (PART, SEQ))"
    );
    assert_eq!(
        mysql.seed_sql("T"),
        [
            "INSERT INTO T (PART, SEQ, NAME, CODE, AMT, HIRED, TS, FLAG, BLOBC) VALUES ('A-1', 1, \
             'it''s SMITH', '00123', 1234.56, '1980-12-17', '1980-12-17 09:30:00.123456', 1, 'abc')",
            "INSERT INTO T (PART, SEQ, NAME, CODE, AMT, HIRED, TS, FLAG, BLOBC) VALUES ('B-2', 2, \
             NULL, '007', NULL, NULL, NULL, NULL, NULL)",
        ]
    );
    assert_eq!(
        oracle.seed_sql("T")[1],
        "INSERT INTO T (PART, SEQ, NAME, CODE, AMT, HIRED, TS, TSZ, RAWC) VALUES ('B-2', 2, \
         NULL, '007', NULL, NULL, NULL, NULL, NULL)"
    );
    assert!(oracle.seed_sql("T")[0].ends_with("HEXTORAW('DEADBEEF'))"));
    let kinds = oracle.expected_kinds();
    assert_eq!(kinds.first(), Some(&("PART", SqlValueKind::String)));
    assert_eq!(kinds.last(), Some(&("RAWC", SqlValueKind::Binary)));
    let mut machine = sql_export::verify(mysql);
    drive(&mut machine, |_| Seen::Failed("down".to_string()));
    assert!(machine.error().is_some());
}
