use space_query_probes::machine::{Machine, Request};
use space_query_probes::op::Op;
use space_query_probes::progress::{QueryProgress, QueryResult};
use space_query_probes::read_only::{targets, verify, Target, Write};
use space_query_probes::seen::Seen;

fn count(n: i64) -> Seen {
    Seen::Run(vec![
        QueryProgress::Rows { rows: vec![vec![n.to_string()]] },
        done(true, ""),
    ])
}

fn done(success: bool, message: &str) -> QueryProgress {
    QueryProgress::StatementFinished {
        result: QueryResult {
            success,
            is_select: false,
            sql: String::new(),
            message: message.to_string(),
            rows: Vec::new(),
        },
    }
}

/// A server of three rows with one setting, behind a guard that may leak.
struct Server {
    rows: i64,
    setting: i64,
    leaks: Option<&'static str>,
}

impl Server {
    fn answer(&mut self, request: &Request) -> Seen {
        match request.op {
            Op::ConnectWriter | Op::ConnectGuarded => Seen::Nothing,
            Op::CountRows => count(self.rows),
            Op::AskScalar => count(self.setting),
            Op::Attempt => match self.leaks {
                Some(sql) if request.text == sql => Seen::Run(vec![done(true, "1 row")]),
                _ => Seen::Run(Vec::new()),
            },
            Op::Execute => self.execute(&request.text),
            _ => Seen::Nothing,
        }
    }

    fn execute(&mut self, sql: &str) -> Seen {
        if sql.contains("STILL WRITABLE") {
            self.rows += 1;
        }
        if sql.contains("OQT_READ_ONLY_X") && sql.starts_with("SELECT")
            || sql.contains("SELECT EXTRA_COL")
        {
            return Seen::Run(vec![done(false, "no such object")]);
        }
        if let Some(value) = sql.strip_prefix("SET GLOBAL net_read_timeout = ") {
            self.setting = value.parse().unwrap_or(0);
        }
        if let Some(value) = sql.strip_prefix("ALTER SYSTEM SET open_cursors = ") {
            self.setting = value
                .split(' ')
                .next()
                .and_then(|v| v.parse().ok())
                .unwrap_or(0);
        }
        Seen::Run(vec![done(true, "")])
    }
}

fn run(target: Target, leaks: Option<&'static str>) -> (Machine, Vec<(Op, usize, String)>) {
    let mut server = Server { rows: 3, setting: 30, leaks };
    let mut machine = verify(target, "APP");
    let mut asked = Vec::new();
    while let Some(request) = machine.request() {
        asked.push((request.op, request.other, request.text.clone()));
        let seen = server.answer(&request);
        machine.answer(seen);
    }
    (machine, asked)
}

#[test]
fn a_guard_that_holds_passes_everywhere() {
    for target in [Target::OracleThin, Target::OracleOci, Target::MySql, Target::MariaDb] {
        let (machine, _) = run(target, None);
        assert_eq!(machine.error(), None, "{}", target.label());
        assert!(machine.failures().is_empty());
        assert!(machine
            .log()
            .contains(&"PASS: a writable connection in the same process is unaffected".to_string()));
    }
}

#[test]
fn every_write_is_attempted_once_on_the_guarded_connection() {
    for target in [Target::OracleThin, Target::MySql] {
        let (_, asked) = run(target, None);
        for write in target.writes() {
            let attempts = asked
                .iter()
                .filter(|(op, other, text)| {
                    *op == Op::Attempt && *other == 1 && *text == write.sql
                })
                .count();
            assert_eq!(attempts, 1, "{}", write.what);
            let controls = asked
                .iter()
                .filter(|(op, other, text)| {
                    *op == Op::Execute && *other == 0 && *text == write.sql
                })
                .count();
            assert_eq!(controls > 0, write.runnable, "{}", write.what);
        }
    }
}

#[test]
fn every_read_is_run_on_the_guarded_connection() {
    for target in [Target::OracleOci, Target::MariaDb] {
        let (_, asked) = run(target, None);
        for (what, sql) in target.reads("APP") {
            assert!(
                asked.contains(&(Op::Execute, 1, sql.clone())),
                "{what}: {sql}"
            );
        }
    }
    assert!(Target::MySql.reads("APP").contains(&("USE", "USE APP".to_string())));
}

#[test]
fn a_write_that_gets_through_ends_the_run() {
    let (machine, asked) = run(Target::MySql, Some("UPDATE OQT_READ_ONLY SET NAME = 'CHANGED'"));
    assert_eq!(
        machine.error().map(String::as_str),
        Some("UPDATE was allowed to run: UPDATE OQT_READ_ONLY SET NAME = 'CHANGED'")
    );
    assert_eq!(asked.last().map(|(op, _, _)| *op), Some(Op::Attempt));
}

#[test]
fn a_connection_that_fails_is_told() {
    let mut machine = verify(Target::OracleThin, "APP");
    machine.answer(Seen::Failed("refused".to_string()));
    assert_eq!(machine.error().map(String::as_str), Some("connect: refused"));
    assert!(machine.request().is_none());
}

#[test]
fn writes_are_of_three_kinds() {
    let row = Write::row_change("INSERT", "I".to_string());
    assert!(row.runnable && !row.structural);
    let structural = Write::structural("DROP", "D".to_string());
    assert!(structural.runnable && structural.structural);
    let unrunnable = Write::unrunnable("CONNECT", "C");
    assert!(!unrunnable.runnable && !unrunnable.structural);
    assert_eq!(unrunnable.sql, "C");
    assert_eq!(Target::OracleThin.writes().len(), 19);
    assert_eq!(Target::MariaDb.writes().len(), 17);
}

#[test]
fn the_server_setting_is_spelled_for_its_family() {
    assert_eq!(
        Target::OracleOci.set_setting(301),
        "ALTER SYSTEM SET open_cursors = 301 SCOPE=MEMORY"
    );
    assert_eq!(Target::MySql.set_setting(-1), "SET GLOBAL net_read_timeout = -1");
    assert_eq!(
        Target::MySql.cleanup_sql(),
        [
            "DROP PROCEDURE IF EXISTS OQT_READ_ONLY_P",
            "DROP TABLE IF EXISTS OQT_READ_ONLY_X",
            "DROP TABLE IF EXISTS OQT_READ_ONLY",
        ]
    );
    assert_eq!(
        Target::MySql.create_sql(),
        "CREATE TABLE OQT_READ_ONLY (ID INT PRIMARY KEY, NAME VARCHAR(30))"
    );
}

#[test]
fn a_word_names_its_targets() {
    assert_eq!(targets("thin"), Some(vec![Target::OracleThin]));
    assert_eq!(targets("mariadb"), Some(vec![Target::MariaDb]));
    assert_eq!(targets("all").map(|list| list.len()), Some(4));
    assert_eq!(targets("ALL"), None);
    assert!(Target::OracleOci.is_oracle());
    assert!(!Target::MariaDb.is_oracle());
    assert_eq!(Target::MariaDb.label(), "MariaDB");
}

#[test]
fn what_reads_and_what_writes_are_kept_apart() {
    let all = [Target::OracleThin, Target::OracleOci, Target::MySql, Target::MariaDb];
    for target in all {
        let writes = target.writes();
        let reads = target.reads("APP");
        for (_, read) in &reads {
            assert!(writes.iter().all(|write| write.sql != *read), "{read}");
        }
        let explains = |sql: &str| sql.starts_with("EXPLAIN");
        let oracle = target.is_oracle();
        assert_eq!(writes.iter().any(|write| explains(&write.sql)), oracle);
        assert_eq!(reads.iter().any(|(_, read)| explains(read)), !oracle);
    }
    let reads = Target::MySql.reads("APP");
    assert!(reads.iter().any(|(_, read)| read == "USE APP"));
}
