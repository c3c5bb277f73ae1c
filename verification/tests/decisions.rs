use space_query_probes::connection::{connection_info, Backend, Environment};
use space_query_probes::export_dialog;
use space_query_probes::export_dialog::ExportScope;
use space_query_probes::grid_shortcut_leak as leak;
use space_query_probes::ime;
use space_query_probes::import_dialog;
use space_query_probes::progress::SqlValueKind;
use space_query_probes::report;
use space_query_probes::routine::{
    definition_or_refusal, given_names_of, over_limit_name, refusal_reason, RoutineDefinition,
    RoutineDefinitionLookup,
};
use space_query_probes::screen::{item_at, look_for, pump_rounds, Look};
use space_query_probes::session_leak as sessions;

fn texts(items: &[&str]) -> Vec<String> {
    items.iter().map(|s| s.to_string()).collect()
}

fn environment() -> Environment {
    Environment {
        host: None,
        port: None,
        service_name: None,
        service: None,
        username: None,
        password: None,
    }
}

#[test]
fn oracle_is_reached_by_default() {
    let info = connection_info(Backend::Oracle, &environment());
    assert_eq!(info.host, "127.0.0.1");
    assert_eq!(info.port, 1521);
    assert_eq!(info.service_name, "FREE");
    assert_eq!(info.username, "system");
    assert_eq!(info.password, "password");
}

#[test]
fn the_environment_comes_first() {
    let mut env = environment();
    env.port = Some("+1522".to_string());
    env.service = Some("XE".to_string());
    assert_eq!(connection_info(Backend::Oracle, &env).port, 1522);
    assert_eq!(connection_info(Backend::Oracle, &env).service_name, "XE");
    env.service_name = Some("ORCL".to_string());
    assert_eq!(connection_info(Backend::Oracle, &env).service_name, "ORCL");
    for port in ["65536", "-0", "", "15x"] {
        env.port = Some(port.to_string());
        assert_eq!(connection_info(Backend::Oracle, &env).port, 1521, "{port}");
    }
    assert_eq!(connection_info(Backend::MySql, &env).port, 3307);
    assert_eq!(connection_info(Backend::MariaDb, &env).service_name, "query_tool_test");
}

#[test]
fn waits_are_counted_in_rounds() {
    assert_eq!(pump_rounds(0), 1);
    assert_eq!(pump_rounds(19), 1);
    assert_eq!(pump_rounds(300), 15);
}

#[test]
fn looking_for_a_window_ends() {
    let mut attempts = 0;
    let mut tries = 0;
    loop {
        tries += 1;
        match look_for(false, attempts, 60) {
            Look::Again(next) => attempts = next,
            other => {
                assert_eq!(other, Look::Stop);
                break;
            }
        }
    }
    assert_eq!(tries, 61);
    assert_eq!(look_for(true, 99, 60), Look::Act);
}

#[test]
fn items_are_found_where_they_first_stand() {
    let items = texts(&["CSV", "JSON", "JSON"]);
    assert_eq!(item_at(&items, "JSON"), Some(1));
    assert_eq!(item_at(&items, "XML"), None);
}

#[test]
fn the_import_modal_is_driven_by_its_plan() {
    assert_eq!(import_dialog::modal_plan(0).format, None);
    assert_eq!(import_dialog::modal_plan(1).format, Some("JSON"));
    assert_eq!(import_dialog::modal_plan(2).header, Some(false));
    assert_eq!(import_dialog::modal_plan(3).remap, Some((1, "(skip)")));
    assert_eq!(import_dialog::modal_plan(4).null_text, Some("\\N"));
    assert!(import_dialog::modal_plan(5).cancel);
    assert!(import_dialog::modal_plan(6).opens_on_json);
    assert_eq!(import_dialog::mapping_selector(1), 2);
    assert_eq!(import_dialog::wanted_button(true), "Cancel");
    assert_eq!(import_dialog::wanted_button(false), "Import");
}

#[test]
fn an_import_alert_is_closed_and_a_refusal_cancelled() {
    assert_eq!(import_dialog::dismiss_alert(true, false, 0), Look::Act);
    assert_eq!(import_dialog::dismiss_alert(false, true, 19), Look::Again(20));
    assert_eq!(import_dialog::dismiss_alert(false, true, 20), Look::Stop);
    assert_eq!(import_dialog::dismiss_alert(false, false, 0), Look::Stop);
    assert_eq!(import_dialog::close_if_refused(false, true, 0), Look::Stop);
    assert_eq!(import_dialog::close_if_refused(true, false, 3), Look::Again(4));
    assert_eq!(import_dialog::close_if_refused(true, false, 40), Look::Stop);
    assert_eq!(import_dialog::close_if_refused(true, true, 0), Look::Act);
}

#[test]
fn the_summary_is_the_last_label_that_sums_up() {
    let labels = texts(&["Format", "The first", "3 row(s) into T", "NULL text"]);
    assert_eq!(import_dialog::summary_text(&labels), "3 row(s) into T");
    assert_eq!(import_dialog::summary_text(&texts(&["Format"])), "");
    assert_eq!(
        import_dialog::run(false, None),
        Err("the import modal never appeared".to_string())
    );
    assert_eq!(import_dialog::run(true, None), Ok(None));
}

#[test]
fn the_export_modal_is_driven_to_the_clipboard() {
    assert_eq!(export_dialog::radio_value("All rows", ExportScope::All), Some(true));
    assert_eq!(export_dialog::radio_value("All rows", ExportScope::Selection), Some(false));
    assert_eq!(
        export_dialog::radio_value("Selected rows", ExportScope::Selection),
        Some(true)
    );
    assert_eq!(export_dialog::radio_value("File", ExportScope::All), Some(false));
    assert_eq!(export_dialog::radio_value("Clipboard", ExportScope::All), Some(true));
    assert_eq!(export_dialog::radio_value("Other", ExportScope::All), None);
    assert_eq!(export_dialog::wanted_button(false), "Export");
    assert_eq!(export_dialog::drive_modal(true, true, 0), Look::Act);
    assert_eq!(export_dialog::drive_modal(false, true, 0), Look::Refused);
    assert_eq!(export_dialog::drive_modal(false, false, 39), Look::Again(40));
    assert_eq!(export_dialog::drive_modal(false, false, 40), Look::Stop);
}

#[test]
fn an_export_says_why_it_brought_nothing() {
    let clip = "x".to_string();
    assert_eq!(
        export_dialog::run_export(true, true, clip.clone()),
        Err("the export refused with an alert instead of opening the modal".to_string())
    );
    assert_eq!(
        export_dialog::run_export(false, false, clip.clone()),
        Err("the export modal never appeared".to_string())
    );
    assert_eq!(export_dialog::run_export(false, true, clip), Ok("x".to_string()));
    assert_eq!(export_dialog::menu_fault(true, 0), None);
    assert_eq!(export_dialog::menu_fault(false, 0), Some("no main menu".to_string()));
    assert_eq!(
        export_dialog::menu_fault(true, -1),
        Some("menu item &Tools/&Export Results not found".to_string())
    );
    assert!(export_dialog::says_gone(&texts(&["Oops", "It is no longer open."])));
    assert!(!export_dialog::says_gone(&texts(&["Oops"])));
}

#[test]
fn an_export_covers_its_scope() {
    let all = export_dialog::expected_grid(ExportScope::All);
    assert_eq!(all.columns, ["EMPNO", "ENAME", "HIREDATE", "NOTE"]);
    assert_eq!(all.rows.len(), 3);
    assert_eq!(all.rows[1][3], None);
    assert_eq!(all.rows[2][1], Some("한국어".to_string()));
    assert_eq!(all.column_kinds[2], SqlValueKind::Temporal);
    let part = export_dialog::expected_grid(ExportScope::Selection);
    assert_eq!(part.columns.len(), 3);
    assert_eq!(part.rows.len(), 2);
    assert_eq!(part.rows[1].len(), 3);
    assert_eq!(part.null_text, "NULL");
    assert_eq!(export_dialog::sample_rows()[1][3], "NULL");
}

fn trial(before: i32, after: i32, moved: bool) -> leak::Trial {
    leak::Trial {
        before,
        after,
        selection_before: (0, 0, 0, 0),
        selection_after: if moved { (1, 0, 1, 0) } else { (0, 0, 0, 0) },
    }
}

#[test]
fn a_key_that_scrolls_the_tree_fails() {
    let mut tally = leak::Tally::new();
    assert_eq!(tally.verdict(false), leak::Verdict::Skipped);
    assert_eq!(tally.verdict(true), leak::Verdict::Passed);
    tally.sent("Down", false, trial(40, 40, true));
    assert_eq!(tally.verdict(false), leak::Verdict::Passed);
    tally.sent("PageUp", true, trial(40, 0, false));
    assert_eq!(
        tally.failures(),
        &["PageUp at last row/col: tree scrolled 40 -> 0 (key leaked to the FL_SHORTCUT broadcast)"]
    );
    assert_eq!(tally.verdict(false), leak::Verdict::Failed);
    tally.unsent("Up", "no event");
    assert_eq!(tally.failures()[1], "Up: no event");
}

#[test]
fn a_leak_is_seen_without_trust() {
    let mut tally = leak::Tally::new();
    tally.sent("End", false, trial(1, 2, false));
    assert_eq!(tally.verdict(false), leak::Verdict::Failed);
    assert_eq!(tally.verdict(true), leak::Verdict::Failed);
}

#[test]
fn the_key_grid_says_where_its_cells_stand() {
    assert_eq!(leak::columns(), ["COL1", "COL2", "COL3", "COL4"]);
    let rows = leak::sample_rows();
    assert_eq!(rows.len(), 20);
    assert_eq!(rows[3][1], "r03c01");
    assert_eq!(rows[19][3], "r19c03");
    assert_eq!(leak::corner_cell(true), (19, 3));
    assert_eq!(leak::corner_cell(false), (0, 0));
    assert_eq!(leak::KEYS.len(), 8);
}

#[test]
fn a_changed_source_is_answered_once() {
    assert_eq!(ime::workaround("--cycle"), Some(ime::Workaround::Cycle));
    assert_eq!(ime::workaround("--refocus"), Some(ime::Workaround::Refocus));
    assert_eq!(ime::workaround("--repair"), None);
    assert!(ime::repair_enabled("--repair"));
    assert!(!ime::repair_enabled(""));
    let mut watch = ime::Watch::new("en".to_string(), ime::Workaround::Refocus);
    assert_eq!(watch.look("en".to_string()), None);
    assert_eq!(watch.look("ko".to_string()), Some(ime::Workaround::Refocus));
    assert_eq!(watch.look("ko".to_string()), None);
    assert_eq!(watch.last(), "ko");
    assert!(ime::tells_change(0, 1));
    assert!(!ime::tells_change(0, 0));
}

#[test]
fn a_run_tells_its_failures() {
    let none: Vec<String> = Vec::new();
    assert_eq!(report::listing("ALL PASSED", "FAILURES:", "  - ", &none), ["ALL PASSED"]);
    assert_eq!(report::exit_code(&none), 0);
    assert_eq!(report::summary("ALL TARGETS PASSED", &none), "ALL TARGETS PASSED");
    let mut failed = vec![report::charge("MySQL", "down")];
    report::charge_all(&mut failed, "MariaDB", &texts(&["a", "b"]));
    assert_eq!(
        report::listing("ALL PASSED", "FAILURES:", "  - ", &failed),
        ["FAILURES:", "  - MySQL: down", "  - MariaDB: a", "  - MariaDB: b"]
    );
    assert_eq!(report::exit_code(&failed), 1);
    assert_eq!(report::summary("ok", &texts(&["MySQL", "MariaDB"])), "FAILED: MySQL, MariaDB");
    assert_eq!(
        report::unknown_target("db2"),
        "unknown target db2; use thin|oci|mysql|mariadb|all"
    );
    assert_eq!(
        report::unknown_named_target("db2"),
        "unknown target: db2 (use thin|oci|mysql|mariadb|all)"
    );
}

#[test]
fn a_refusal_is_told_from_a_definition() {
    let defined = RoutineDefinitionLookup::Defined(RoutineDefinition {
        arguments: vec![Some("P".to_string()), None],
    });
    assert_eq!(
        refusal_reason(Ok(defined), "F"),
        Err("F: answered with a definition of 2 argument rows instead of refusing".to_string())
    );
    let unreadable = RoutineDefinitionLookup::Unreadable("hidden".to_string());
    assert_eq!(refusal_reason(Ok(unreadable), "F"), Ok("hidden".to_string()));
    let failed = refusal_reason(Err("io".to_string()), "F").unwrap_err();
    assert!(failed.starts_with("F: the read itself failed (io) - "), "{failed}");
    let unreadable = RoutineDefinitionLookup::Unreadable("hidden".to_string());
    assert_eq!(definition_or_refusal(unreadable).err(), Some("hidden".to_string()));
    let defined = RoutineDefinitionLookup::Defined(RoutineDefinition { arguments: Vec::new() });
    assert!(definition_or_refusal(defined).is_ok());
    assert_eq!(given_names_of(&vec![None, Some("A".to_string())]), ["A"]);
}

#[test]
fn names_over_the_limit_are_found() {
    assert_eq!(over_limit_name("VARIABLE v_short NUMBER"), None);
    let fits = format!("v_{}", "x".repeat(126));
    assert_eq!(over_limit_name(&format!("VAR {fits} NUMBER")), None);
    let long = format!("{fits}y");
    assert_eq!(over_limit_name(&format!("P(a => :{long});")), Some(long));
    assert_eq!(over_limit_name(&"W".repeat(200)), None);
}

#[test]
fn session_counts_are_never_negative() {
    assert_eq!(sessions::count(-3), 0);
    assert_eq!(sessions::count(4), 4);
    assert_eq!(sessions::text_count(" 12 "), 12);
    assert_eq!(sessions::text_count("-1"), 0);
    assert_eq!(sessions::text_count("many"), 0);
}

#[test]
fn polling_ends_at_the_limit_or_with_the_time() {
    assert_eq!(sessions::settled_count(5, 3, false), None);
    assert_eq!(sessions::settled_count(3, 3, false), Some(3));
    assert_eq!(sessions::settled_count(5, 3, true), Some(5));
    assert_eq!(sessions::stable_count(5, 4, false), None);
    assert_eq!(sessions::stable_count(4, 4, false), Some(4));
    assert_eq!(sessions::stable_count(5, 4, true), Some(4));
    assert_eq!(sessions::wait_until(true, true), sessions::Wait::Held);
    assert_eq!(sessions::wait_until(false, true), sessions::Wait::TimedOut);
    assert_eq!(sessions::wait_until(false, false), sessions::Wait::Again);
}

#[test]
fn a_census_counts_the_probe_alone() {
    assert_eq!(
        sessions::database_census_sql("o'db"),
        "SELECT COUNT(*) FROM information_schema.processlist WHERE db = 'o''db'"
    );
    assert_eq!(
        sessions::user_census_sql("straße"),
        "SELECT COUNT(*) FROM v$session WHERE username = 'STRASSE'"
    );
}

#[test]
fn a_probe_user_is_created_where_it_can_be() {
    let user = sessions::probe_user();
    assert_eq!(user, user.to_uppercase());
    assert!(sessions::create_user_sql(&user).starts_with(&format!("CREATE USER {user} IDENTIFIED")));
    assert!(matches!(
        sessions::oracle_probe_user("P", false, None),
        sessions::Creation::Grant(name) if name == "P"
    ));
    assert!(matches!(
        sessions::oracle_probe_user("P", false, Some("ORA-65096: common")),
        sessions::Creation::Create(name) if name == "C##P"
    ));
    assert!(matches!(
        sessions::oracle_probe_user("P", false, Some("ORA-01920: exists")),
        sessions::Creation::Grant(name) if name == "P"
    ));
    assert!(matches!(
        sessions::oracle_probe_user("C##P", true, Some("ORA-65096: common")),
        sessions::Creation::Refused(why) if why == "create the Oracle probe user: ORA-65096: common"
    ));
    assert_eq!(
        sessions::grants("P"),
        ["GRANT CREATE SESSION TO P", "GRANT SELECT ANY DICTIONARY TO P"]
    );
}

#[test]
fn a_busy_rebuild_is_tried_again() {
    assert!(matches!(sessions::rebuild_pool(0, None), sessions::Rebuilding::Done));
    assert!(matches!(sessions::rebuild_pool(39, Some("busy")), sessions::Rebuilding::Again));
    assert!(matches!(
        sessions::rebuild_pool(40, Some("busy")),
        sessions::Rebuilding::Failed(why) if why == "the pool rebuild never ran: busy"
    ));
    assert_eq!(
        sessions::closing_line("MySQL", &texts(&["T\"1\""])),
        "== MySQL FAILED: [\"T\\\"1\\\"\"] =="
    );
    assert_eq!(sessions::closing_line("MySQL", &Vec::new()), "== MySQL PASSED ==");
}
