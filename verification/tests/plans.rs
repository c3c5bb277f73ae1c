use space_query_probes::export_dialog;
use space_query_probes::grid_save;
use space_query_probes::grid_sql_export;
use space_query_probes::import::ExportRead;
use space_query_probes::import_dialog;
use space_query_probes::machine::{Machine, Request};
use space_query_probes::object_browser_tabs;
use space_query_probes::object_export_live::{check, routes, tell, verify, Route};
use space_query_probes::op::Op;
use space_query_probes::progress::{QueryProgress, QueryResult};
use space_query_probes::seen::{Queued, Seen, SessionState};

fn text(s: &str) -> Seen {
    Seen::Text(s.to_string())
}

fn texts(items: &[&str]) -> Vec<String> {
    items.iter().map(|s| s.to_string()).collect()
}

/// Drives a machine to its end.
fn drive<F: FnMut(&Request) -> Seen>(machine: &mut Machine, mut answer: F) -> Vec<(Op, String)> {
    let mut asked = Vec::new();
    while let Some(request) = machine.request() {
        asked.push((request.op, request.text.clone()));
        let seen = answer(&request);
        machine.answer(seen);
    }
    asked
}

// ---- the SQL of the grid ---------------------------------------------------

/// An exporter that writes what is expected of it, in order.
fn exporter(expected: Vec<String>) -> impl FnMut(&Request) -> Seen {
    let mut next = 0;
    let mut source = 0;
    move |request| match request.op {
        Op::Snapshot => Seen::Flag(true),
        Op::BuildUpdates if request.text == "EMPNO" => {
            Seen::Failed("the result carries no EMPNO".to_string())
        }
        Op::BuildInserts | Op::BuildUpdates | Op::BuildWhere => {
            next += 1;
            Seen::Text(expected[next - 1].clone())
        }
        Op::CopyBack => text(&request.text),
        Op::SourceSql => {
            source += 1;
            match source {
                1 => text(grid_sql_export::STREAM_SQL),
                2 => text(grid_sql_export::SOURCE_SQL),
                _ => text(""),
            }
        }
        Op::ResolveTable => text("HR.EMP"),
        _ => Seen::Nothing,
    }
}

/// The statements that the plan itself expects.
fn expected_statements() -> Vec<String> {
    grid_sql_export::steps()
        .iter()
        .filter(|row| row.5.ends_with(" matches the expected SQL"))
        .map(|row| row.4.to_string())
        .collect()
}

#[test]
fn sql_that_is_as_expected_passes() {
    let mut machine = grid_sql_export::verify();
    drive(&mut machine, exporter(expected_statements()));
    assert_eq!(machine.failures(), &Vec::<String>::new());
    assert_eq!(machine.error(), None);
    assert!(machine.log().contains(
        &"PASS: source SQL follows the statement that produced the rows".to_string()
    ));
    assert_eq!(expected_statements().len(), 7);
}

#[test]
fn sql_that_differs_is_told_with_both_texts() {
    let mut statements = expected_statements();
    statements[4] = "ID IN (7369)".to_string();
    let mut machine = grid_sql_export::verify();
    drive(&mut machine, exporter(statements));
    assert_eq!(
        machine.failures(),
        &["Oracle Where Clause (one column) mismatch\n  expected: \"ID IN (7369, 7499)\"\n  \
           actual:   \"ID IN (7369)\""]
    );
}

#[test]
fn an_empty_first_selection_ends_the_run() {
    let mut machine = grid_sql_export::verify();
    drive(&mut machine, |_| Seen::Flag(false));
    assert_eq!(
        machine.error().map(String::as_str),
        Some("selection snapshot was empty after select_all")
    );
}

#[test]
fn a_streaming_grid_without_a_statement_is_left() {
    let mut machine = grid_sql_export::verify();
    let mut good = exporter(expected_statements());
    let asked = drive(&mut machine, |request| {
        if request.op == Op::SourceSql {
            text("")
        } else {
            good(request)
        }
    });
    assert_eq!(machine.failures(), &["a streaming grid reported no source SQL"]);
    assert_eq!(asked.last().map(|(op, _)| *op), Some(Op::SourceSql));
}

#[test]
fn the_grid_shows_its_sample() {
    let result = grid_sql_export::sample_result();
    assert!(result.success && result.is_select);
    assert_eq!(result.sql, grid_sql_export::SOURCE_SQL);
    assert_eq!(result.rows.len(), 2);
    assert_eq!(result.rows[0][1], "it's SMITH");
    assert_eq!(result.rows[1][2], "NULL");
}

// ---- the object browser ----------------------------------------------------

/// An application whose every tab owns a card, with one thing wrong or none.
struct Browser {
    tabs: Vec<u64>,
    active: u64,
    cards: Vec<u64>,
    next: u64,
    scoped: bool,
    picked: bool,
    wrong: &'static str,
}

impl Browser {
    fn new(wrong: &'static str) -> Browser {
        Browser {
            tabs: vec![1, 2],
            active: 1,
            cards: vec![1, 2],
            next: 3,
            scoped: false,
            picked: false,
            wrong,
        }
    }

    fn loaded(&self) -> bool {
        self.active != 2 && !(self.scoped && self.active == 1)
    }

    fn answer(&mut self, request: &Request) -> Seen {
        let id: u64 = request.text.parse().unwrap_or(0);
        match request.op {
            Op::TabIds => Seen::Names(self.tabs.iter().map(|id| id.to_string()).collect()),
            Op::TabCount => Seen::Number(self.tabs.len() as i64),
            Op::TreePaths => Seen::Names(texts(&["Tables/EMP", "Views"])),
            Op::HasMetadata => Seen::Flag(self.loaded()),
            Op::DisplayedScope => text("SYSTEM"),
            Op::Expanded => match self.active {
                1 => Seen::Names(texts(&["Tables", "Views"])),
                _ => Seen::Names(Vec::new()),
            },
            Op::SelectTab => {
                self.active = id;
                Seen::Flag(self.tabs.contains(&id))
            }
            Op::NewTab => {
                self.tabs.push(self.next);
                self.cards.push(self.next);
                self.active = self.next;
                self.next += 1;
                Seen::Nothing
            }
            Op::CompletionTables => Seen::Names(texts(&["EMP"])),
            Op::CardCount => Seen::Number(self.cards.len() as i64),
            Op::HasCard => Seen::Flag(self.cards.contains(&id)),
            Op::CloseTab => {
                self.tabs.retain(|tab| *tab != id);
                if self.wrong != "cards" {
                    self.cards.retain(|tab| *tab != id);
                }
                self.active = 1;
                Seen::Flag(true)
            }
            Op::SetScope => {
                self.scoped = true;
                Seen::Nothing
            }
            Op::PickScope => {
                self.picked = true;
                Seen::Nothing
            }
            Op::BindingScopes => Seen::Scopes(
                self.tabs
                    .iter()
                    .map(|tab| {
                        let own = *tab == self.active;
                        let moves = self.picked && (own || self.wrong == "scopes");
                        let scope = if moves { Some("HR".to_string()) } else { None };
                        (tab.to_string(), scope)
                    })
                    .collect(),
            ),
            _ => Seen::Nothing,
        }
    }
}

#[test]
fn cards_that_belong_to_their_tabs_pass() {
    let mut browser = Browser::new("");
    let mut machine = object_browser_tabs::verify();
    drive(&mut machine, |request| browser.answer(request));
    assert_eq!(machine.failures(), &Vec::<String>::new());
    assert_eq!(machine.error(), None);
}

#[test]
fn a_card_that_outlives_its_tab_is_told() {
    let mut browser = Browser::new("cards");
    let mut machine = object_browser_tabs::verify();
    drive(&mut machine, |request| browser.answer(request));
    assert!(machine
        .failures()
        .contains(&"the closed tab's card is gone: the card outlived its tab".to_string()));
    assert!(machine
        .failures()
        .contains(&"exactly one card was torn down: cards before: 3, after: 3".to_string()));
    assert!(machine
        .failures()
        .contains(&"round 4: the tab opens and closes: closed = true".to_string()));
}

#[test]
fn a_pick_that_moves_every_tab_is_told() {
    let mut browser = Browser::new("scopes");
    let mut machine = object_browser_tabs::verify();
    drive(&mut machine, |request| browser.answer(request));
    assert_eq!(
        machine.failures(),
        &[
            "the pick moves exactly one tab's scope: tabs that moved: [(1, None, Some(\"HR\")), \
             (2, None, Some(\"HR\")), (9, None, Some(\"HR\"))] (picked on tab 9)",
            "the tab that moved is the one the pick was made on: moved: [(1, None, \
             Some(\"HR\")), (2, None, Some(\"HR\")), (9, None, Some(\"HR\"))], expected only 9",
        ]
    );
}

#[test]
fn too_few_tabs_end_the_run() {
    let mut machine = object_browser_tabs::verify();
    machine.answer(Seen::Names(texts(&["1"])));
    assert_eq!(
        machine.error().map(String::as_str),
        Some("expected two example editor tabs, found 1")
    );
    assert!(machine.request().is_none());
}

// ---- the import modal ------------------------------------------------------

fn importer(request: &Request) -> Seen {
    match (request.op, request.other) {
        (Op::DriveImport, 0) => text(import_dialog::EXPECTED),
        (Op::DriveImport, 1) => {
            text("x (7369, 'SMITH', TO_DATE('1980-12-17','YYYY-MM-DD'), NULL)")
        }
        (Op::DriveImport, 2) => {
            text("INTO HR.EMP (EMPNO, ENAME, HIREDATE, SAL) VALUES (7369, 'SMITH', x")
        }
        (Op::DriveImport, 3) => text("INTO HR.EMP (EMPNO, HIREDATE, SAL)"),
        (Op::DriveImport, 4) => text("(7499, 'NULL', x"),
        (Op::DriveImport, _) => Seen::Absent,
        (Op::ModalFormats, _) | (Op::FormatLabels, _) => Seen::Names(texts(&["CSV", "JSON"])),
        (Op::MappingLabels, _) => Seen::Names(texts(&["EMPNO <- 1"])),
        (Op::ModalRefused, _) => Seen::Flag(true),
        (Op::ModalSummary, _) => text("The JSON is not valid: expected value"),
        _ => Seen::Nothing,
    }
}

/// The modal's choices follow the format that was chosen last.
fn modal() -> impl FnMut(&Request) -> Seen {
    let mut drive = 0;
    move |request| match request.op {
        Op::DriveImport => {
            drive = request.other;
            importer(request)
        }
        Op::HeaderActive | Op::NullActive => Seen::Flag(drive != 1),
        Op::ImportSummary => text(if drive == 0 {
            "2 row(s) into 4 column(s) of HR.EMP"
        } else {
            "2 row(s), 1 file column(s) skipped"
        }),
        _ => importer(request),
    }
}

#[test]
fn a_modal_that_follows_its_settings_passes() {
    let mut machine = import_dialog::verify();
    let asked = drive(&mut machine, modal());
    assert_eq!(machine.failures(), &Vec::<String>::new());
    assert_eq!(machine.log().len(), 11);
    let files: Vec<&String> = asked
        .iter()
        .filter(|(op, _)| *op == Op::DriveImport)
        .map(|(_, text)| text)
        .collect();
    assert_eq!(files.len(), 7);
    assert_eq!(files[0], import_dialog::CSV);
    assert_eq!(files[1], import_dialog::JSON);
    assert_eq!(files[2], import_dialog::HEADERLESS_CSV);
    assert_eq!(files[6], import_dialog::UNREADABLE);
}

#[test]
fn a_modal_that_never_appears_is_told_each_time() {
    let mut machine = import_dialog::verify();
    drive(&mut machine, |request| match request.op {
        Op::DriveImport => Seen::Failed("the import modal never appeared".to_string()),
        _ => Seen::Nothing,
    });
    let failures = machine.failures();
    assert_eq!(failures[0], "default CSV: the import modal never appeared");
    assert_eq!(
        failures.last().map(String::as_str),
        Some("unreadable file: the import modal never appeared")
    );
    assert_eq!(failures.len(), 8);
}

#[test]
fn a_cancel_that_imports_is_told() {
    let mut machine = import_dialog::verify();
    let mut good = modal();
    drive(&mut machine, |request| {
        if request.op == Op::DriveImport && request.other == 5 {
            text("INSERT")
        } else {
            good(request)
        }
    });
    assert_eq!(machine.failures(), &["cancel still produced \"INSERT\""]);
}

// ---- the export modal ------------------------------------------------------

/// An application that exports what is asked of it.
struct Exporter {
    clipboard: String,
    queued: Queued,
}

fn exports(state: &mut Exporter, request: &Request) -> Seen {
    match request.op {
        Op::HasData | Op::FetchAllAsked | Op::TakeSnapshot | Op::ModalDriven | Op::AlertSeen
        | Op::AlertRight => Seen::Flag(true),
        Op::FormatLabel => text(if request.other == export_dialog::JSON_FORMAT {
            "JSON"
        } else {
            "CSV"
        }),
        Op::IsInserts => Seen::Flag(request.other == 1),
        Op::RunExport => {
            if request.text != "Cancel" {
                state.clipboard = format!("export of {}", request.text);
            }
            Seen::Text(state.clipboard.clone())
        }
        Op::RenderSample => Seen::Text(format!("export of {}", request.text)),
        Op::ModalFormats => Seen::Names(texts(&["CSV", "JSON"])),
        Op::SetClipboard => {
            state.clipboard = request.text.clone();
            Seen::Nothing
        }
        Op::ReadClipboard => Seen::Text(state.clipboard.clone()),
        Op::ArriveAndExport => {
            state.clipboard = format!("export of {}", request.text);
            Seen::Nothing
        }
        Op::ExportRefusal => {
            if request.text.starts_with("ID|ID") {
                text("two columns are named ID")
            } else {
                Seen::Absent
            }
        }
        Op::QueueExport => Seen::Flag(false),
        Op::QueuedOutcome => Seen::Queued(match &state.queued {
            Queued::Replaced => Queued::Replaced,
            Queued::Waiting => Queued::Waiting,
            Queued::Snapshot => Queued::Snapshot,
            Queued::Abandoned(reason) => Queued::Abandoned(reason.clone()),
            Queued::Data { rows, text } => Queued::Data { rows: *rows, text: text.clone() },
        }),
        Op::BuiltInserts => text("INSERT INTO APP.T (ID) VALUES ('1');"),
        Op::BuiltRows => Seen::Number(1),
        _ => Seen::Nothing,
    }
}

fn export_run(queued: Queued) -> Machine {
    let mut state = Exporter { clipboard: String::new(), queued };
    let mut machine = export_dialog::verify(2);
    drive(&mut machine, |request| exports(&mut state, request));
    machine
}

#[test]
fn exports_that_reach_the_clipboard_pass() {
    let machine = export_run(Queued::Replaced);
    assert_eq!(machine.failures(), &Vec::<String>::new());
    assert_eq!(machine.error(), None);
    assert!(machine.log().contains(&"      formats offered: CSV, JSON".to_string()));
    assert!(machine
        .log()
        .contains(&"PASS: JSON / Selection reached the clipboard byte for byte".to_string()));
    let csv = "PASS: CSV / All reached the clipboard byte for byte".to_string();
    assert_eq!(machine.log().iter().filter(|line| **line == csv).count(), 1);
}

#[test]
fn a_queued_export_that_is_not_given_up_is_told() {
    assert_eq!(
        export_run(Queued::Waiting).failures(),
        &["the queued export was neither run nor abandoned — the caller waits forever"]
    );
    assert_eq!(
        export_run(Queued::Abandoned("FetchFailed".to_string())).failures(),
        &["the queued export was abandoned, but reported FetchFailed rather than a replacement"]
    );
    assert_eq!(
        export_run(Queued::Data { rows: 1, text: "B\nnew".to_string() }).failures(),
        &[
            "the queued export rendered the NEW result: 1 rows, \"B\\nnew\"",
            "closing the old session ran the abandoned export after all: Some(\"B\\nnew\")",
        ]
    );
    assert_eq!(
        export_run(Queued::Snapshot).failures(),
        &[
            "a CSV export handed back a SQL Inserts snapshot, which it can never build",
            "closing the old session ran the abandoned export after all: None",
        ]
    );
}

#[test]
fn an_export_of_the_wrong_result_is_told() {
    let mut state = Exporter { clipboard: String::new(), queued: Queued::Replaced };
    let mut machine = export_dialog::verify(1);
    drive(&mut machine, |request| match request.op {
        Op::ArriveAndExport => {
            state.clipboard = if request.text == "All" { "B\nstolen\n" } else { "?" }.to_string();
            Seen::Nothing
        }
        _ => exports(&mut state, request),
    });
    assert_eq!(
        machine.failures(),
        &[
            "the All export followed the active tab to a result that arrived under the modal",
            "mid-modal arrival (Selection): clipboard held \"?\", expected the pinned result's CSV",
        ]
    );
}

#[test]
fn a_fixture_that_does_not_show_ends_the_run() {
    let mut machine = export_dialog::verify(3);
    drive(&mut machine, |request| match request.op {
        Op::ShowResult => Seen::Failed("no tab".to_string()),
        _ => Seen::Nothing,
    });
    assert_eq!(
        machine.error().map(String::as_str),
        Some("could not show the fixture result: no tab")
    );
}

// ---- the export read -------------------------------------------------------

#[test]
fn every_route_reads_and_drops() {
    assert_eq!(
        routes().iter().map(|route| route.label()).collect::<Vec<_>>(),
        ["OCI", "Thin 314", "Thin 315", "Thin 318", "Thin 319"]
    );
    for route in routes() {
        let mut machine = verify(route);
        let asked = drive(&mut machine, |request| match request.op {
            Op::ExportQuery => Seen::Export(ExportRead {
                columns: texts(&["ID", "NAME"]),
                rows: vec![texts(&["1", "first"])],
                catalog: Vec::new(),
                nulls: Vec::new(),
            }),
            _ => Seen::Nothing,
        });
        assert_eq!(machine.error(), None);
        assert_eq!(
            asked.last(),
            Some(&(
                Op::ExportStatement,
                "DROP TABLE SQ_EXPORT_ROWID_T PURGE".to_string()
            ))
        );
    }
}

#[test]
fn a_read_that_fails_still_drops_the_table() {
    let mut machine = verify(Route::Thin(318));
    let asked = drive(&mut machine, |request| match request.op {
        Op::ExportQuery => Seen::Failed("ORA-00942".to_string()),
        _ => Seen::Nothing,
    });
    assert_eq!(
        machine.error().map(String::as_str),
        Some("thin 318 execute_thin_query: ORA-00942")
    );
    assert_eq!(asked.last().map(|(op, _)| *op), Some(Op::ExportStatement));
    let mut machine = verify(Route::Oci);
    machine.answer(Seen::Failed("no listener".to_string()));
    assert_eq!(machine.error().map(String::as_str), Some("OCI connect: no listener"));
}

#[test]
fn a_row_locator_among_the_columns_is_told() {
    let rows = vec![texts(&["1", "first"])];
    assert_eq!(check("OCI", &texts(&["ID", "NAME"]), &rows), Ok(()));
    assert_eq!(
        check("OCI", &texts(&["ROWID", "ID", "NAME"]), &rows),
        Err("OCI: expected [\"ID\", \"NAME\"], got [\"ROWID\", \"ID\", \"NAME\"]".to_string())
    );
    assert_eq!(
        check("OCI", &texts(&["ID", "NAME"]), &vec![texts(&["AAA", "1", "first"])]),
        Err("OCI: a row carries more cells than columns".to_string())
    );
    assert_eq!(
        tell(&Route::Thin(314).title_text(), &texts(&["ID"]), &vec![texts(&["1"])]),
        [
            "Thin proto 314: columns [\"ID\"]",
            "Thin proto 314: row [\"1\"]",
        ]
    );
}

// ---- the save of the grid --------------------------------------------------

fn statement(sql: &str, success: bool) -> QueryProgress {
    QueryProgress::StatementFinished {
        result: QueryResult {
            success,
            is_select: false,
            sql: sql.to_string(),
            message: "done".to_string(),
            rows: Vec::new(),
        },
    }
}

fn selected(name: &str) -> Seen {
    Seen::Run(vec![
        QueryProgress::SelectStart {
            columns: texts(&["ID", "NAME"]),
            column_kinds: Vec::new(),
            sql: String::new(),
        },
        QueryProgress::Rows { rows: vec![texts(&["1", name])] },
        statement("SELECT", true),
    ])
}

/// A MySQL server that saves, and rolls back.
fn saver(resolves: bool) -> impl FnMut(&Request) -> Seen {
    let mut name = "SMITH";
    let mut dirty = false;
    move |request| match request.op {
        Op::AutoCommitNow => Seen::Flag(false),
        Op::RunEdit => {
            name = "SCOTT";
            dirty = true;
            Seen::Run(vec![statement(
                "/* SQ_SAVE_REQUEST:42 */ UPDATE OQT_GRID_SAVE_TEST SET NAME = 'SCOTT'",
                true,
            )])
        }
        Op::SessionState => Seen::State {
            session: Some(if dirty { SessionState::MaybeDirty } else { SessionState::Clean }),
            shown: if dirty { "MaybeDirty" } else { "Clean" }.to_string(),
        },
        Op::EditorRollback => {
            name = "SMITH";
            dirty = !resolves;
            Seen::Nothing
        }
        Op::Run if request.text.starts_with("SELECT") => selected(name),
        Op::Run => Seen::Run(vec![statement(&request.text, true)]),
        _ => Seen::Nothing,
    }
}

#[test]
fn a_save_that_rolls_back_passes() {
    let mut machine = grid_save::verify(grid_save::Target::MySql);
    drive(&mut machine, saver(true));
    assert_eq!(machine.error(), None);
    assert_eq!(machine.log().last().map(String::as_str), Some(">>> MySQL OK"));
}

#[test]
fn a_rollback_that_resolves_nothing_is_told() {
    let mut machine = grid_save::verify(grid_save::Target::MariaDb);
    drive(&mut machine, saver(false));
    assert_eq!(
        machine.error().map(String::as_str),
        Some("Rollback did not resolve session (state=MaybeDirty)")
    );
}

#[test]
fn the_save_table_is_spelled_for_its_family() {
    use_target(grid_save::Target::OracleThin, "CREATE TABLE T (ID NUMBER, NAME VARCHAR2(50))");
    use_target(
        grid_save::Target::MySql,
        "CREATE TABLE T (ID INT PRIMARY KEY, NAME VARCHAR(50))",
    );
    assert_eq!(grid_save::Target::OracleOci.drop_sql("T"), "DROP TABLE T");
    assert_eq!(grid_save::Target::MariaDb.drop_sql("T"), "DROP TABLE IF EXISTS T");
}

fn use_target(target: grid_save::Target, expected: &str) {
    assert_eq!(target.create_sql("T"), expected);
}
