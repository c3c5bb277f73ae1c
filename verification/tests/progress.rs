use space_query_probes::grid::{
    cell_by_col, column_index, grid_count, grid_rows_of, grid_view, is_exported, named_cell_of,
    pairs, same_table, select_start_sql, single_count, strip, updated_rows_of,
};
use space_query_probes::progress::{
    any_cell_of, finished_event, first_cell, first_error, last_result, progress_inner,
    scalar_of, script_messages, script_success, terminal_success, QueryProgress, QueryResult, SqlValueKind,
};
use space_query_probes::seen::{reads_of, Which};
use space_query_probes::verdict::{is_refused, is_told_of};

fn result(success: bool, sql: &str, message: &str) -> QueryProgress {
    QueryProgress::StatementFinished {
        result: QueryResult {
            success,
            is_select: sql.starts_with("SELECT"),
            sql: sql.to_string(),
            message: message.to_string(),
            rows: Vec::new(),
        },
    }
}

fn wrapped(event: QueryProgress) -> QueryProgress {
    QueryProgress::Operation {
        progress: Box::new(QueryProgress::StatementOrigin { progress: Box::new(event) }),
    }
}

fn texts(cells: &[&str]) -> Vec<String> {
    cells.iter().map(|c| c.to_string()).collect()
}

fn query(columns: &[&str], rows: &[&[&str]]) -> Vec<QueryProgress> {
    vec![
        wrapped(QueryProgress::SelectStart {
            columns: texts(columns),
            column_kinds: vec![SqlValueKind::Number; columns.len()],
            sql: "SELECT 1".to_string(),
        }),
        wrapped(QueryProgress::Rows { rows: rows.iter().map(|r| texts(r)).collect() }),
        wrapped(result(true, "SELECT 1", "done")),
        QueryProgress::BatchFinished,
    ]
}

#[test]
fn wrappers_are_taken_off() {
    let event = wrapped(wrapped(QueryProgress::BatchFinished));
    assert!(matches!(progress_inner(&event), QueryProgress::BatchFinished));
    let inner = progress_inner(&event);
    assert!(matches!(progress_inner(inner), QueryProgress::BatchFinished));
}

#[test]
fn the_last_statement_and_the_first_error() {
    let run = vec![
        wrapped(result(true, "A", "one")),
        result(false, "B", "two"),
        result(false, "C", "three"),
        QueryProgress::ExecutionFinished { cancelled: true },
    ];
    assert_eq!(last_result(&run).map(|r| r.sql.as_str()), Some("C"));
    assert_eq!(terminal_success(&run), Some((false, "three".to_string())));
    assert_eq!(first_error(&run), Some("two".to_string()));
    assert_eq!(finished_event(&run), Some(true));
    assert_eq!(script_messages(&run), "one || two || three");
    assert_eq!(terminal_success(&Vec::new()), None);
    assert_eq!(first_error(&Vec::new()), None);
}

#[test]
fn a_script_succeeds_where_every_statement_does() {
    assert_eq!(script_success("gen", &vec![result(true, "A", "ok")]), Ok(()));
    let failed = script_success("gen", &vec![result(true, "A", "ok"), result(false, "B", "no\n")]);
    assert_eq!(
        failed,
        Err("gen: generated script statement failed: \"no\\n\"".to_string())
    );
    assert_eq!(
        script_success("gen", &Vec::new()),
        Err("gen: generated script ran no statements".to_string())
    );
}

#[test]
fn refusals_are_no_successes() {
    let run = vec![
        result(true, "SELECT 1", ""),
        result(false, "INSERT INTO T", "This tab is READ ONLY"),
    ];
    assert!(is_refused(Which::Insert, &run, 2, "read-only|read only"));
    assert!(is_refused(Which::Last, &run, 1, "read only"));
    assert!(!is_refused(Which::Last, &run, 3, "read only"));
    assert!(!is_refused(Which::First, &run, 1, "read only"));
    assert!(!is_refused(Which::Last, &run, 1, "privilege"));
    let run = vec![result(true, "INSERT INTO T", "READ ONLY")];
    assert!(!is_refused(Which::Insert, &run, 1, "read only"));
}

#[test]
fn internal_columns_are_not_shown() {
    assert!(is_exported("ID"));
    assert!(!is_exported("\"rowid\""));
    assert!(!is_exported("T.ROWID"));
    assert!(!is_exported("SQ_INTERNAL_ROWID"));
    assert_eq!(strip("\"\"ID\"", '"'), "ID");
    let run = query(&["ROWID", "ID", "NAME"], &[&["AAA", "1", "x"], &["BBB", "2", "y"]]);
    let view = grid_view(&run).expect("a grid was opened");
    assert_eq!(view.columns, ["ID", "NAME"]);
    assert_eq!(view.rows, [["1", "x"], ["2", "y"]]);
    assert_eq!(select_start_sql(&run), Some("SELECT 1".to_string()));
    assert!(grid_view(&vec![QueryProgress::BatchFinished]).is_none());
}

#[test]
fn cells_are_found_by_name() {
    let run = query(&["\"Id\"", "NAME"], &[&["1", "x"], &["2", "y"]]);
    assert_eq!(cell_by_col(&run, "name"), Some("x".to_string()));
    assert_eq!(cell_by_col(&run, "ID"), Some("1".to_string()));
    assert_eq!(cell_by_col(&run, "other"), None);
    assert_eq!(named_cell_of(&run, "NAME"), "x");
    assert_eq!(column_index(&texts(&["A", "b"]), "B"), Ok(1));
    assert_eq!(
        column_index(&texts(&["A", "b"]), "C"),
        Err("column C missing from the result set".to_string())
    );
    assert_eq!(pairs(&run).len(), 2);
    assert_eq!(pairs(&run)[1], ("2".to_string(), "y".to_string()));
}

#[test]
fn counts_are_read() {
    let run = query(&["N"], &[&[" 42 "]]);
    assert_eq!(single_count(&run), Some(42));
    assert_eq!(first_cell(&run), Some(" 42 ".to_string()));
    assert_eq!(any_cell_of(&run), Some(" 42 ".to_string()));
    let run = query(&["N"], &[&["forty"]]);
    assert_eq!(single_count(&run), None);
    let run = query(&["N"], &[&["1"], &["x"], &["3"]]);
    assert_eq!(reads_of(&run), [1, 3]);
    let run = query(&["N"], &[&["7"]]);
    assert!(grid_count(&run).is_some());
}

#[test]
fn updated_rows_are_told_apart() {
    let run = query(&["ID", "NAME"], &[&["1", "x"]]);
    let before = grid_rows_of(&run);
    assert!(same_table(&before, &vec![texts(&["1", "x"])]));
    assert!(!same_table(&before, &vec![texts(&["1", "y"])]));
    assert!(!same_table(&updated_rows_of(&run), &before));
}

#[test]
fn lines_are_looked_through() {
    let run = vec![QueryProgress::ScriptOutput { lines: texts(&["Error: ORA-00942"]) }];
    assert!(is_told_of(&run, "ORA-00942"));
    assert!(!is_told_of(&run, "ORA-01031"));
}

#[test]
fn the_first_cell_is_one_of_data() {
    let run = query(&["A", "B"], &[&["a", "b"], &["c", "d"]]);
    assert_eq!(first_cell(&run), Some("a".to_string()));
    let run = query(&["ROWID", "A", "B"], &[&["AAAx", "a", "b"]]);
    assert_eq!(first_cell(&run), Some("a".to_string()));
    let bare = vec![QueryProgress::Rows { rows: vec![texts(&["x", "y"])] }];
    assert_eq!(first_cell(&bare), Some("x".to_string()));
    assert_eq!(first_cell(&query(&["A"], &[])), None);
    let run = query(&["ROWID", "A", "B"], &[&["AAAx", "a", "b"]]);
    assert_eq!(scalar_of(&run), Some("a".to_string()));
    assert_eq!(scalar_of(&bare), Some("x".to_string()));
    assert_eq!(scalar_of(&query(&["A"], &[])), None);
    assert_eq!(any_cell_of(&run), Some("b".to_string()));
    assert_eq!(first_cell(&Vec::new()), None);
}
