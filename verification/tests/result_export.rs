use space_query_probes::result_export::{
    check_delimited, check_html, check_json, check_markdown, check_xml, columns, compare_body,
    compare_table, delimited_payload, full_table, is_null_cell, judge_json, lines, markdown_cells,
    markdown_expected, markup_expected, python_failure, rows, run_python_rows, xmllint_failure,
    JsonCell, JsonDocument, JsonEntry, JsonValue, Rendering,
};

fn json_text(value: &str) -> String {
    serde_json::Value::from(value).to_string()
}

fn printed(table: &[Vec<String>]) -> Vec<u8> {
    serde_json::to_vec(table).expect("lists of strings are always written")
}

/// The grid as a JSON file: every cell a string, NULL where the cell is NULL.
fn json_file() -> String {
    let names = columns();
    let all: Vec<String> = rows()
        .iter()
        .enumerate()
        .map(|(r, row)| {
            let members: Vec<String> = row
                .iter()
                .enumerate()
                .map(|(c, value)| {
                    let written = if is_null_cell(r, c) {
                        "null".to_string()
                    } else {
                        json_text(value)
                    };
                    format!("{}: {}", json_text(names[c].0), written)
                })
                .collect();
            format!("{{{}}}", members.join(", "))
        })
        .collect();
    format!("[{}]", all.join(", "))
}

fn agree(value: bool) -> Vec<Vec<bool>> {
    vec![vec![value; 7]; 3]
}

#[test]
fn a_json_file_that_holds_the_grid_passes() {
    assert_eq!(check_json(&json_file(), &agree(false)), Ok(3));
}

#[test]
fn json_faults_are_named() {
    assert_eq!(
        check_json("{}", &agree(true)),
        Err("top level is not an array".to_string())
    );
    assert_eq!(
        check_json("[{}]", &agree(true)),
        Err("expected 3 objects, parsed 1".to_string())
    );
    assert_eq!(
        check_json("[1, 2, 3]", &agree(true)),
        Err("row 0 is not an object".to_string())
    );
    assert_eq!(
        check_json("[{}, {}, {}]", &agree(true)),
        Err("row 0 is missing key \"FULL NAME\"".to_string())
    );
    let fault = check_json("not json", &agree(true)).unwrap_err();
    assert!(fault.starts_with("not valid JSON: "), "{fault}");
    assert!(fault.len() > "not valid JSON: ".len());
}

#[test]
fn a_null_must_stay_null() {
    let text = json_file().replace("null", "\"NULL\"");
    assert_eq!(
        check_json(&text, &agree(true)),
        Err("row 2 key \"FULL NAME\": NULL became \"NULL\"".to_string())
    );
}

#[test]
fn an_unquoted_number_is_compared_by_value() {
    let text = json_file().replace("\"1.2E+10\"", "12000000000");
    assert_eq!(check_json(&text, &agree(true)), Ok(3));
    assert_eq!(
        check_json(&text, &agree(false)),
        Err("row 1 key \"2024_TOTAL\": \"1.2E+10\" came back as 12000000000".to_string())
    );
    let text = json_file().replace("\"1.2E+10\"", "true");
    assert_eq!(
        check_json(&text, &agree(true)),
        Err("row 1 key \"2024_TOTAL\": \"1.2E+10\" came back as true".to_string())
    );
}

#[test]
fn a_document_is_judged_without_a_parser() {
    let document = JsonDocument::Array(vec![
        JsonEntry::Object(vec![JsonCell {
            key: "FULL NAME".to_string(),
            value: JsonValue::Array,
            shown: "[]".to_string(),
        }]),
        JsonEntry::Other,
        JsonEntry::Other,
    ]);
    assert_eq!(
        judge_json(&document, &agree(true)),
        Err(
            "row 0 key \"FULL NAME\": \"comma, and \\\"quotes\\\"\" came back as []".to_string()
        )
    );
    assert_eq!(
        judge_json(&JsonDocument::Other, &agree(true)),
        Err("top level is not an array".to_string())
    );
}

#[test]
fn delimited_cells_come_back_as_written() {
    assert_eq!(check_delimited(&printed(&full_table(Rendering::Plain))), Ok(4));
    let mut table = full_table(Rendering::Plain);
    table[1][1] = "comma".to_string();
    let fault = check_delimited(&printed(&table)).unwrap_err();
    assert!(fault.starts_with("row 1: read [\"1\", \"comma\", "), "{fault}");
    table.pop();
    let fault = check_delimited(&printed(&table)).unwrap_err();
    assert!(fault.starts_with("python csv"), "{fault}");
    assert_eq!(delimited_payload("\u{FEFF}a,b"), "a,b");
    assert_eq!(delimited_payload("a\u{FEFF}"), "a\u{FEFF}");
}

#[test]
fn what_a_reader_prints_is_read() {
    assert_eq!(
        run_python_rows(&b"[[\"a\", \"b\"], []]".to_vec()),
        Ok(vec![vec!["a".to_string(), "b".to_string()], Vec::new()])
    );
    let fault = run_python_rows(&b"[[1]]".to_vec()).unwrap_err();
    assert!(fault.starts_with("could not read the python3 result: "), "{fault}");
}

#[test]
fn markup_cells_come_back_escaped_and_bare() {
    let mut table = full_table(Rendering::Markup);
    assert_eq!(
        check_html(&printed(&table)).unwrap_err().split(", wrote").next(),
        Some(
            "row 2: read [\"3\", \"NULL\", \"\", \"3\", \".5\", \"control\u{FFFD}char\", \
             \"carriage\\rreturn\"]"
        )
    );
    table[3][1] = String::new();
    assert_eq!(check_html(&printed(&table)), Ok(3));
    assert_eq!(check_html(&printed(&table[1..])), Ok(3));
    assert_eq!(check_xml(&printed(&table[1..])), Ok(3));
    let mut wrong = table.clone();
    wrong[2][0] = "?".to_string();
    assert!(check_html(&printed(&wrong)).unwrap_err().starts_with("row 1: read [\"?\""));
    assert!(check_html(&printed(&table[2..])).unwrap_err().starts_with("html.parser"));
    assert!(check_xml(&printed(&table[2..])).unwrap_err().starts_with("ElementTree"));
    assert_eq!(compare_body("p", &table, Rendering::Markup), Ok(3));
}

#[test]
fn markup_replaces_what_markup_cannot_hold() {
    let once = markup_expected("a\u{1}b\rc\td\u{FFFE}");
    assert_eq!(once, "a\u{FFFD}b\rc\td\u{FFFD}");
    assert_eq!(markup_expected(&once), once);
    assert_eq!(markup_expected("plain"), "plain");
}

#[test]
fn tables_are_compared_cell_by_cell() {
    let a = vec![vec!["x".to_string()], vec!["y".to_string()]];
    assert_eq!(compare_table("p", &a, &a), Ok(2));
    let b = vec![vec!["x".to_string()], vec!["z".to_string()]];
    assert!(compare_table("p", &a, &b).is_err());
    assert!(compare_table("p", &a[..1].to_vec(), &a).is_err());
}

#[test]
fn tools_that_fail_say_so() {
    assert_eq!(python_failure(true, "exit status: 0", ""), None);
    assert_eq!(
        python_failure(false, "exit status: 1", " boom\n"),
        Some("python3 exited with exit status: 1: boom".to_string())
    );
    assert_eq!(
        xmllint_failure(false, "exit status: 3", "bad\n"),
        Some("xmllint rejected the output (exit status: 3): bad".to_string())
    );
    assert_eq!(xmllint_failure(true, "", ""), None);
}

#[test]
fn markdown_cells_are_split_at_bare_pipes() {
    assert_eq!(markdown_cells("| a | b |"), ["a", "b"]);
    assert_eq!(markdown_cells("| a \\| b | c\\\\ |"), ["a \\| b", "c\\\\"]);
    assert_eq!(markdown_expected("x\r\ny\nz\rw"), "x<br>y<br>z<br>w");
}

#[test]
fn folding_twice_is_folding_once() {
    let once = markdown_expected("a\r\n\r\nb\n");
    assert_eq!(once, "a<br><br>b<br>");
    assert_eq!(markdown_expected(&once), once);
    assert_eq!(markdown_expected("no break | here"), "no break | here");
}

#[test]
fn a_line_of_escaped_cells_is_read_back() {
    let cells = ["a|b", "", "ends in \\", "\\|", "plain"];
    let line = format!("| {} |", cells.map(escaped).join(" | "));
    let back = markdown_cells(&line);
    assert_eq!(back.len(), cells.len());
    for (found, cell) in back.iter().zip(cells) {
        assert_eq!(*found, escaped(cell));
    }
}

#[test]
fn lines_end_at_line_feeds() {
    assert_eq!(lines("a\r\nb\n\nc"), ["a", "b", "", "c"]);
    assert_eq!(lines("a\n"), ["a"]);
    assert_eq!(lines(""), Vec::<String>::new());
}

fn escaped(value: &str) -> String {
    markdown_expected(value).replace('\\', "\\\\").replace('|', "\\|")
}

fn markdown_file() -> String {
    let names: Vec<String> = columns().iter().map(|(name, _)| escaped(name)).collect();
    let mut out = format!("| {} |\n|{}\n", names.join(" | "), " --- |".repeat(7));
    for (r, row) in rows().iter().enumerate() {
        let cells: Vec<String> = row
            .iter()
            .enumerate()
            .map(|(c, cell)| if is_null_cell(r, c) { String::new() } else { escaped(cell) })
            .collect();
        out.push_str(&format!("| {} |\n", cells.join(" | ")));
    }
    out
}

#[test]
fn a_markdown_table_that_holds_the_grid_passes() {
    let outcome = check_markdown(&markdown_file());
    assert!(outcome.is_ok(), "{outcome:?}");
    let broken = markdown_file().replace("comma", "semicolon");
    assert!(check_markdown(&broken).is_err());
    let ragged = markdown_file().replace("| 3 |", "|");
    assert!(check_markdown(&ragged).is_err());
}

#[test]
fn null_cells_are_where_null_is_written() {
    assert!(is_null_cell(2, 1));
    assert!(!is_null_cell(0, 0));
    assert_eq!(rows().len(), 3);
    assert_eq!(columns().len(), 7);
}
