use space_query_probes::progress::{QueryProgress, QueryResult};
use space_query_probes::seen::{tell, Seen, Telling};
use space_query_probes::template::{filled, filled_with, hole_text, names_text, number_fault_text};
use space_query_probes::text::{
    count_text, ends, finds, integer_text, join, mentions, occurrences_of, repeat, replace, same,
    same_but_case, spaced_text, split, split_fields, starts, to_lower, to_upper, trimmed,
    trimmed_end, trimmed_start, wide_text,
};
use space_query_probes::verdict::{isolation_value_matches, last_pair, level_name_of};

#[test]
fn texts_are_searched() {
    assert!(finds("ORA-01456: may not", "01456"));
    assert!(!finds("ORA", "ORA-"));
    assert!(finds("anything", ""));
    assert!(starts("DROP TABLE", "DROP"));
    assert!(!starts("DR", "DROP"));
    assert!(ends("MY.ROWID", ".ROWID"));
    assert!(same("a", "a"));
    assert!(!same("a", "A"));
    assert!(same_but_case("RowId", "ROWID"));
    assert!(!same_but_case("é", "É"));
    assert_eq!(occurrences_of("aaaa", "aa"), 2);
    assert!(mentions("Statement is READ ONLY", "read-only|read only"));
    assert!(!mentions("Statement failed", "read-only|read only"));
}

#[test]
fn texts_are_changed() {
    assert_eq!(to_lower("ABC é"), "abc é");
    assert_eq!(to_upper("abc é"), "ABC é");
    assert_eq!(trimmed(" \t\u{3000}x y\n"), "x y");
    assert_eq!(trimmed_start("  x "), "x ");
    assert_eq!(trimmed_end("  x "), "  x");
    assert_eq!(replace("O'Brien's", "'", "''"), "O''Brien''s");
    assert_eq!(replace("aaa", "aa", "b"), "ba");
    assert_eq!(join(&vec!["a".to_string(), "b".to_string()], ", "), "a, b");
    assert_eq!(join(&Vec::new(), ", "), "");
    assert_eq!(split("a||b", '|'), ["a", "", "b"]);
    assert_eq!(split("", '|'), [""]);
    assert_eq!(split_fields("  a \n b "), ["a", "b"]);
    assert_eq!(spaced_text("READ-COMMITTED_X"), "READ COMMITTED X");
    assert_eq!(repeat("ab", 3), "ababab");
}

#[test]
fn numbers_are_written() {
    assert_eq!(count_text(0), "0");
    assert_eq!(count_text(1050), "1050");
    assert_eq!(integer_text(-17), "-17");
    assert_eq!(integer_text(i64::MIN), "-9223372036854775808");
    assert_eq!(wide_text(i64::MAX as i128 + 1), "9223372036854775808");
}

#[test]
fn a_number_that_does_not_parse_says_why() {
    assert_eq!(number_fault_text(""), "cannot parse integer from empty string");
    assert_eq!(number_fault_text("1x"), "invalid digit found in string");
    assert_eq!(
        number_fault_text("9223372036854775808"),
        "number too large to fit in target type"
    );
}

#[test]
fn holes_are_filled_once() {
    let memory = vec![
        Seen::Text("say \"{t01}\"".to_string()),
        Seen::Number(41),
        Seen::Absent,
        Seen::Names(vec!["a".to_string(), "b\n".to_string()]),
        Seen::Failed("gone".to_string()),
        Seen::Word("fixed"),
    ];
    assert_eq!(filled("{t00}", &memory), "say \"{t01}\"");
    assert_eq!(filled("{q00}", &memory), "\"say \\\"{t01}\\\"\"");
    assert_eq!(filled("{t01} then {+01}", &memory), "41 then 42");
    assert_eq!(filled("{o00}|{o02}", &memory), "Some(\"say \\\"{t01}\\\"\")|None");
    assert_eq!(filled("{l03}", &memory), "[\"a\", \"b\\n\"]");
    assert_eq!(filled("{V04} {V05}", &memory), "Err(\"gone\") Ok(\"fixed\")");
    assert_eq!(filled_with("went wrong: {z00}", &memory, "boom"), "went wrong: boom");
    assert_eq!(filled("{t99}", &memory), "");
}

#[test]
fn a_template_without_holes_stands_for_itself() {
    let memory = vec![Seen::Number(1)];
    for plain in ["", "plain", "{t0}", "{t0x}", "{}", "}{", "{t00"] {
        assert_eq!(filled(plain, &memory), plain);
    }
}

#[test]
fn quotes_are_debug_quotes() {
    assert_eq!(hole_text('q', &Seen::Text("a\\b\u{1}".to_string())), "\"a\\\\b\\u{1}\"");
    assert_eq!(names_text(&vec!["한국어".to_string()]), "[\"한국어\"]");
    let result = QueryResult {
        success: false,
        is_select: false,
        sql: "X".to_string(),
        message: "tab\t".to_string(),
        rows: Vec::new(),
    };
    assert_eq!(tell(Telling::Outcome, &result), "(false, \"tab\\t\")");
    assert_eq!(tell(Telling::Whole, &result), "(\"X\", false, \"tab\\t\")");
    let run = Seen::Run(vec![QueryProgress::StatementFinished { result }]);
    assert_eq!(hole_text('d', &run), "Some((false, \"tab\\t\"))");
}

#[test]
fn levels_are_compared_on_separators_and_case() {
    assert!(isolation_value_matches("READ-COMMITTED", "Read committed"));
    assert!(isolation_value_matches(" repeatable  read ", "REPEATABLE-READ"));
    assert!(!isolation_value_matches("SERIALIZABLE", "Read committed"));
    assert_eq!(level_name_of("read-uncommitted"), "READ UNCOMMITTED");
}

#[test]
fn the_last_pair_is_the_last_two() {
    assert_eq!(last_pair(&vec![1, 2, 3]), Some((2, 3)));
    assert_eq!(last_pair(&vec![1]), None);
    assert_eq!(last_pair(&Vec::new()), None);
}
