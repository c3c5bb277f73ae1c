use space_query_probes::machine::{
    add_quietly, append, append_when, bind, Machine, Request, Row, Weight,
};
use space_query_probes::op::{
    class_of, isolation_at, level_at, mode_at, Class, Op, HERE, READ_ONLY,
};
use space_query_probes::progress::{
    QueryProgress, QueryResult, TransactionAccessMode, TransactionIsolation,
};
use space_query_probes::seen::Seen;

fn row(op: Op, weight: Weight, slot: usize, arg: &'static str, detail: &'static str) -> Row {
    (op, weight, slot, 0, arg, "", detail)
}

fn blank(slots: usize) -> Vec<Seen> {
    (0..slots).map(|_| Seen::Nothing).collect()
}

/// Answers every request and returns the texts that were asked for.
fn drive(machine: &mut Machine, answer: fn(&Request) -> Seen) -> Vec<String> {
    let mut asked = Vec::new();
    while let Some(request) = machine.request() {
        asked.push(request.text.clone());
        let seen = answer(&request);
        machine.answer(seen);
    }
    asked
}

fn fail_all(request: &Request) -> Seen {
    Seen::Failed(format!("no {}", request.text))
}

fn fail_second(request: &Request) -> Seen {
    if request.text == "two" {
        Seen::Failed("down".to_string())
    } else {
        Seen::Nothing
    }
}

#[test]
fn a_try_goes_on_without_a_trace() {
    let plan = vec![
        row(Op::Run, Weight::Try, 0, "one", ""),
        row(Op::Run, Weight::Try, 0, "two", "never said"),
    ];
    let mut machine = Machine::new(plan, blank(1));
    assert_eq!(drive(&mut machine, fail_all), ["one", "two"]);
    assert!(machine.failures().is_empty());
    assert!(machine.log().is_empty());
    assert!(machine.error().is_none());
}

#[test]
fn a_check_is_recorded_with_its_label() {
    let plan: Vec<Row> = vec![
        (Op::Run, Weight::Try, 0, 0, "SELECT", "", ""),
        (Op::WordsAre, Weight::Check, 0, 0, "right", "first", "saw {q00}"),
        (Op::WordsAre, Weight::Check, 0, 0, "wrong", "second", "saw {q00}"),
    ];
    let mut machine = Machine::new(plan, blank(1));
    machine.answer(Seen::Text("right".to_string()));
    assert_eq!(machine.failures(), &["second: saw \"right\""]);
    assert_eq!(
        machine.log(),
        &["    OK  first", "    FAIL second: saw \"right\""]
    );
    assert!(machine.error().is_none());
    assert!(machine.request().is_none());
}

#[test]
fn a_tally_is_recorded_by_its_label_alone() {
    let plan: Vec<Row> = vec![
        (Op::Run, Weight::Try, 0, 0, "n", "", ""),
        (Op::Run, Weight::Try, 1, 0, "limit", "", ""),
        (Op::AtMost, Weight::Tally, 0, 1, " ({t00} of {t01})", "within", ": {t00} too many"),
        (Op::AtMost, Weight::Tally, 1, 0, " ({t01} of {t00})", "beyond", ": {t01} too many"),
    ];
    let mut machine = Machine::new(plan, blank(2));
    machine.answer(Seen::Number(2));
    machine.answer(Seen::Number(5));
    assert_eq!(machine.failures(), &["beyond"]);
    assert_eq!(
        machine.log(),
        &["    OK  within (2 of 5)", "    FAIL beyond: 5 too many"]
    );
}

#[test]
fn a_failed_demand_leaves_out_what_stands_before_the_cleanup() {
    let plan = vec![
        row(Op::Run, Weight::Demand, 0, "one", ""),
        row(Op::Run, Weight::Demand, 0, "two", "step two: {z00}"),
        row(Op::Run, Weight::Demand, 0, "three", ""),
        row(Op::Cleanup, Weight::Try, 0, "", ""),
        row(Op::Run, Weight::Try, 0, "drop", ""),
        row(Op::Settled, Weight::Try, 0, "", ""),
        row(Op::Run, Weight::Try, 0, "never", ""),
    ];
    let mut machine = Machine::new(plan, blank(1));
    assert_eq!(drive(&mut machine, fail_second), ["one", "two", "drop"]);
    assert_eq!(machine.error().map(String::as_str), Some("step two: down"));
}

#[test]
fn a_failed_leave_ends_the_run() {
    let plan = vec![
        row(Op::Run, Weight::Leave, 0, "two", ""),
        row(Op::Cleanup, Weight::Try, 0, "", ""),
        row(Op::Run, Weight::Try, 0, "drop", ""),
    ];
    let mut machine = Machine::new(plan, blank(1));
    assert_eq!(drive(&mut machine, fail_second), ["two"]);
    assert_eq!(machine.error().map(String::as_str), Some("down"));
}

#[test]
fn the_first_error_is_kept() {
    let plan = vec![
        row(Op::Run, Weight::Keep, 0, "a", ""),
        row(Op::Run, Weight::Keep, 0, "b", ""),
        row(Op::Run, Weight::Keep, 0, "c", ""),
    ];
    let mut machine = Machine::new(plan, blank(1));
    assert_eq!(drive(&mut machine, fail_all), ["a", "b", "c"]);
    assert_eq!(machine.error().map(String::as_str), Some("no a"));
}

#[test]
fn a_note_is_recorded_by_its_reason_alone() {
    let plan: Vec<Row> = vec![
        (Op::Run, Weight::Note, 0, 0, "one", "went well", "{z00}!"),
        (Op::Run, Weight::Note, 0, 0, "two", "went well", "{z00}!"),
    ];
    let mut machine = Machine::new(plan, blank(1));
    drive(&mut machine, fail_second);
    assert_eq!(machine.failures(), &["down!"]);
    assert_eq!(machine.log(), &["went well"]);
}

#[test]
fn a_part_is_left_at_its_join() {
    let plan = vec![
        row(Op::Run, Weight::Part, 0, "two", ""),
        row(Op::Run, Weight::Part, 0, "left out", ""),
        row(Op::Join, Weight::Try, 0, "", ""),
        row(Op::Run, Weight::Quit, 0, "two", ""),
        row(Op::Join, Weight::Try, 0, "", ""),
        row(Op::Run, Weight::Quit, 0, "left out too", ""),
        row(Op::Cleanup, Weight::Try, 0, "", ""),
        row(Op::Run, Weight::Try, 0, "last", ""),
    ];
    let mut machine = Machine::new(plan, blank(1));
    assert_eq!(drive(&mut machine, fail_second), ["two", "two", "last"]);
    assert_eq!(machine.failures(), &["down", "down"]);
    assert!(machine.error().is_none());
}

#[test]
fn a_cleanup_for_errors_only_is_skipped_without_one() {
    let plan: Vec<Row> = vec![
        (Op::Run, Weight::Demand, 0, 0, "one", "", ""),
        (Op::Cleanup, Weight::Try, 0, 1, "", "", ""),
        (Op::Run, Weight::Try, 0, 0, "only after an error", "", ""),
        (Op::Run, Weight::Try, 0, 0, "always", "", ""),
    ];
    let mut machine = Machine::new(plan.clone(), blank(1));
    assert_eq!(drive(&mut machine, fail_second), ["one", "always"]);
    let mut machine = Machine::new(plan, blank(1));
    assert_eq!(
        drive(&mut machine, fail_all),
        ["one", "only after an error", "always"]
    );
}

#[test]
fn flags_and_failures_steer() {
    let plan: Vec<Row> = vec![
        (Op::Run, Weight::Try, 0, 0, "flag", "", ""),
        (Op::SkipUnless, Weight::Try, 0, 1, "", "", ""),
        (Op::Run, Weight::Try, 9, 0, "on", "", ""),
        (Op::SkipIf, Weight::Try, 0, 1, "", "", ""),
        (Op::Run, Weight::Try, 9, 0, "off", "", ""),
        (Op::Run, Weight::Try, 1, 0, "two", "", ""),
        (Op::SkipUnlessFailed, Weight::Try, 1, 1, "", "", ""),
        (Op::Run, Weight::Try, 9, 0, "after a failure", "", ""),
        (Op::SkipIfFailed, Weight::Try, 1, 1, "", "", ""),
        (Op::Run, Weight::Try, 9, 0, "after a success", "", ""),
    ];
    fn answer(request: &Request) -> Seen {
        match request.text.as_str() {
            "flag" => Seen::Flag(true),
            "two" => Seen::Failed("down".to_string()),
            _ => Seen::Nothing,
        }
    }
    let mut machine = Machine::new(plan, blank(2));
    assert_eq!(
        drive(&mut machine, answer),
        ["flag", "on", "two", "after a failure"]
    );
}

#[test]
fn names_steer_and_fill() {
    let plan: Vec<Row> = vec![
        (Op::TabIds, Weight::Try, 0, 0, "ids", "", ""),
        (Op::SkipUnlessNamed, Weight::Try, 0, 1, "", "", ""),
        (Op::SelectTab, Weight::Try, 1, 0, "{A00}/{B00}/{Z00}/{#00}/{J00}", "", ""),
        (Op::SkipIfNamed, Weight::Try, 0, 1, "", "", ""),
        (Op::SelectTab, Weight::Try, 1, 0, "none", "", ""),
    ];
    fn some(request: &Request) -> Seen {
        if request.op == Op::TabIds {
            Seen::Names(vec!["4".into(), "7".into(), "9".into()])
        } else {
            Seen::Flag(true)
        }
    }
    fn none(request: &Request) -> Seen {
        if request.op == Op::TabIds {
            Seen::Names(Vec::new())
        } else {
            Seen::Flag(true)
        }
    }
    let mut machine = Machine::new(plan.clone(), blank(2));
    assert_eq!(drive(&mut machine, some), ["ids", "4/7/9/3/4, 7, 9"]);
    let mut machine = Machine::new(plan, blank(2));
    assert_eq!(drive(&mut machine, none), ["ids", "none"]);
}

#[test]
fn names_counters_and_raised_flags_are_kept() {
    let plan: Vec<Row> = vec![
        (Op::Name, Weight::Try, 0, 0, "a {t01}", "", ""),
        (Op::Zero, Weight::Try, 1, 0, "", "", ""),
        (Op::Run, Weight::Try, 2, 0, "{t00}", "", ""),
        (Op::KeepMax, Weight::Try, 1, 2, "", "", ""),
        (Op::Run, Weight::Try, 2, 0, "again", "", ""),
        (Op::KeepMax, Weight::Try, 1, 2, "", "", ""),
        (Op::Raise, Weight::Try, 3, 0, "", "", ""),
        (Op::Say, Weight::Try, 0, 0, "", "most {t01}, raised {t03}", ""),
    ];
    let mut machine = Machine::new(plan, blank(4));
    assert_eq!(machine.request().map(|r| r.text), Some("a {t01}".to_string()));
    machine.answer(Seen::Number(7));
    machine.answer(Seen::Number(3));
    assert_eq!(machine.log(), &["most 7, raised true"]);
}

#[test]
fn a_number_asked_for_is_the_number_kept() {
    let plan: Vec<Row> = vec![
        (Op::AskNumber, Weight::Demand, 0, 0, "SELECT 1", "", "SELECT V"),
        (Op::NumberIs, Weight::Check, 0, 12, "", "twelve", "{t00}"),
        (Op::AskNumber, Weight::Demand, 0, 0, "SELECT 2", "", "SELECT V"),
    ];
    let mut machine = Machine::new(plan, blank(1));
    machine.answer(Seen::Text(" 12 ".to_string()));
    assert_eq!(machine.log(), &["    OK  twelve"]);
    assert!(matches!(machine.seen(0), Some(Seen::Number(12))));
    machine.answer(Seen::Text("x1".to_string()));
    assert_eq!(
        machine.error().map(String::as_str),
        Some("SELECT V returned \"x1\": invalid digit found in string")
    );
}

#[test]
fn a_number_that_is_not_there_is_an_error() {
    let plan: Vec<Row> = vec![(Op::AskNumber, Weight::Demand, 0, 0, "q", "", "SELECT V")];
    let mut machine = Machine::new(plan, blank(1));
    machine.answer(Seen::Run(Vec::new()));
    assert_eq!(
        machine.error().map(String::as_str),
        Some("SELECT V returned no rows")
    );
}

fn finished(success: bool, message: &str) -> QueryProgress {
    QueryProgress::StatementFinished {
        result: QueryResult {
            success,
            is_select: false,
            sql: "S".to_string(),
            message: message.to_string(),
            rows: Vec::new(),
        },
    }
}

#[test]
fn a_run_that_ran_nothing_is_an_error_where_it_must_run() {
    let plan: Vec<Row> = vec![
        (Op::Execute, Weight::Leave, 0, 0, "A", "", ""),
        (Op::Execute, Weight::Leave, 0, 0, "B", "", "step: {z00}"),
    ];
    let mut machine = Machine::new(plan.clone(), blank(1));
    machine.answer(Seen::Run(Vec::new()));
    assert_eq!(machine.error().map(String::as_str), Some("nothing ran for: A"));
    let mut machine = Machine::new(plan, blank(1));
    machine.answer(Seen::Run(vec![finished(true, "fine")]));
    machine.answer(Seen::Run(vec![finished(true, "fine"), finished(false, "broken")]));
    assert_eq!(machine.error().map(String::as_str), Some("step: broken"));
}

#[test]
fn a_peek_that_failed_is_forgotten() {
    let plan: Vec<Row> = vec![
        (Op::Peek, Weight::Try, 0, 0, "A", "", ""),
        (Op::Peek, Weight::Try, 1, 0, "B", "", ""),
    ];
    let mut machine = Machine::new(plan, blank(2));
    machine.answer(Seen::Run(vec![finished(false, "broken")]));
    machine.answer(Seen::Run(vec![finished(true, "fine")]));
    assert!(matches!(machine.seen(0), Some(Seen::Nothing)));
    assert!(matches!(machine.seen(1), Some(Seen::Run(_))));
    assert!(machine.seen(2).is_none());
}

#[test]
fn set_up_errors_name_the_statement() {
    let plan: Vec<Row> = vec![(Op::Setup, Weight::Leave, 9, 0, "CREATE \"T\"", "", "")];
    let mut machine = Machine::new(plan, blank(1));
    machine.answer(Seen::Failed("denied".to_string()));
    assert_eq!(
        machine.error().map(String::as_str),
        Some("setup \"CREATE \\\"T\\\"\": denied")
    );
}

#[test]
fn plans_are_put_together() {
    let rows: [Row; 2] = [
        (Op::Run, Weight::Try, 0, HERE, "a", "", ""),
        (Op::Run, Weight::Try, 0, 5, "b", "", ""),
    ];
    let mut plan: Vec<Row> = Vec::new();
    append(&mut plan, &rows);
    append_when(false, &mut plan, &rows);
    append_when(true, &mut plan, &rows);
    bind(&mut plan, &rows, 3);
    add_quietly(&mut plan, &["DROP"]);
    assert_eq!(plan.len(), 7);
    assert_eq!(plan[4].3, 3);
    assert_eq!(plan[5].3, 5);
    assert_eq!(plan[6].4, "DROP");
    assert_eq!(plan[6].1, Weight::Try);
}

#[test]
fn a_whole_run_remembers_and_ends() {
    let plan: Vec<Row> = vec![
        (Op::Run, Weight::Check, 0, 0, "two", "first", ""),
        (Op::Run, Weight::Check, 0, 0, "one", "second", ""),
        (Op::Run, Weight::Check, 0, 0, "two", "third", ""),
    ];
    let rows = plan.len();
    let mut machine = Machine::new(plan, blank(1));
    let mut before: Vec<String> = Vec::new();
    let mut answers = 0;
    while let Some(request) = machine.request() {
        machine.answer(fail_second(&request));
        assert!(machine.failures().starts_with(&before));
        before = machine.failures().clone();
        answers += 1;
    }
    assert!(answers <= rows);
    assert_eq!(machine.failures(), &["first: down", "third: down"]);
}

#[test]
fn mode_numbers_name_modes() {
    assert_eq!(mode_at(READ_ONLY).access, TransactionAccessMode::ReadOnly);
    assert_eq!(mode_at(READ_ONLY).isolation, TransactionIsolation::Default);
    for level in [
        TransactionIsolation::Default,
        TransactionIsolation::ReadUncommitted,
        TransactionIsolation::ReadCommitted,
        TransactionIsolation::RepeatableRead,
        TransactionIsolation::Serializable,
    ] {
        assert_eq!(isolation_at(level_at(level)), level);
    }
    assert_eq!(class_of(Op::Run), Class::Action);
    assert_eq!(class_of(Op::Say), Class::Control);
    assert_eq!(class_of(Op::SameNames), Class::ScreenTest);
}
