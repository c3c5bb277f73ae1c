//! Probe of the result export: every format is read back by a real parser, and
//! every cell must come back as it was written.
use vstd::prelude::*;
use vstd::string::*;

use crate::grid::table;
use crate::progress::SqlValueKind;
use crate::seen::bracketed;
use crate::template::{debug_all, names_text};
use crate::text::{
    begins_with, chars_of, count_text, debug_form, decimal, ends_with, lemma_split_has_one, quoted,
    replace, replaced, same, same_texts, split, split_on, stands_at, text_of, trim, trimmed, views,
};

use serde_json::Value;

verus! {

/// How the grid shows SQL NULL.
pub const NULL_TEXT: &'static str = "NULL";

/// Column names that are hostile to at least one format apiece, with their kinds.
pub const COLUMNS: [(&'static str, SqlValueKind); 7] = [
    ("ID", SqlValueKind::Number),
    ("FULL NAME", SqlValueKind::String),
    ("COUNT(*)", SqlValueKind::Number),
    ("ID", SqlValueKind::Number),
    ("2024_TOTAL", SqlValueKind::Number),
    ("", SqlValueKind::Unknown),
    ("NOTE", SqlValueKind::String),
];

/// One row per hostile trait, so that a format that mishandles any of them fails.
pub const ROWS: [[&'static str; 7]; 3] = [
    ["1", "comma, and \"quotes\"", "00123", "1", "-12.5", "tab\there", "line1\nline2"],
    ["2", "pipe | and backslash \\", "42", "2", "1.2E+10", "<tag> & \"amp\" ]]>", "한국어 텍스트"],
    ["3", "NULL", "", "3", ".5", "control\u{1}char", "carriage\rreturn"],
];

/// Reads the cells of an XML file with ElementTree and prints them as JSON.
pub const XML_SCRIPT: &'static str = "import json, sys\nimport xml.etree.ElementTree as ET\nroot = ET.fromstring(sys.stdin.read())\njson.dump([[child.text or '' for child in row] for row in root], sys.stdout)\n";

/// Reads the cells of an HTML table with `html.parser` and prints them as JSON.
pub const HTML_SCRIPT: &'static str = "import json, sys\nfrom html.parser import HTMLParser\nclass TableReader(HTMLParser):\n    def __init__(self):\n        super().__init__(convert_charrefs=True)\n        self.rows, self.cells, self.text, self.in_cell = [], [], [], False\n    def handle_starttag(self, tag, attrs):\n        if tag == 'tr': self.cells = []\n        elif tag in ('td', 'th'): self.in_cell, self.text = True, []\n    def handle_endtag(self, tag):\n        if tag == 'tr': self.rows.append(self.cells)\n        elif tag in ('td', 'th'):\n            self.cells.append(''.join(self.text))\n            self.in_cell = False\n    def handle_data(self, data):\n        if self.in_cell: self.text.append(data)\nreader = TableReader()\nreader.feed(sys.stdin.read())\njson.dump(reader.rows, sys.stdout)\n";

/// Reads delimited cells with the `csv` module and prints them as JSON.
pub const CSV_SCRIPT: &'static str = "import csv, io, json, sys\ndata = sys.stdin.read()\nreader = csv.reader(io.StringIO(data, newline=''), dialect=sys.argv[1], delimiter=sys.argv[2])\njson.dump(list(reader), sys.stdout)\n";

/// A cell of the source rows.
pub open spec fn source_cell(row: int, col: int) -> Seq<char> {
    ROWS@[row]@[col]@
}

/// The source rows, as texts.
pub open spec fn source() -> Seq<Seq<Seq<char>>> {
    Seq::new(3, |i: int| Seq::new(7, |j: int| source_cell(i, j)))
}

pub open spec fn column_name(col: int) -> Seq<char> {
    COLUMNS@[col].0@
}

pub fn columns() -> (r: Vec<(&'static str, SqlValueKind)>)
    ensures
        r@ == COLUMNS@,
{
    let mut out: Vec<(&'static str, SqlValueKind)> = Vec::new();
    let mut i: usize = 0;
    while i < 7
        invariant
            i <= 7,
            out@ == COLUMNS@.take(i as int),
        decreases 7 - i,
    {
        out.push(COLUMNS[i]);
        i += 1;
        assert(out@ =~= COLUMNS@.take(i as int));
    }
    assert(COLUMNS@.take(7) =~= COLUMNS@);
    out
}

fn cell(row: usize, col: usize) -> (r: &'static str)
    requires
        row < 3,
        col < 7,
    ensures
        r@ == source_cell(row as int, col as int),
{
    ROWS[row][col]
}

/// How a cell is rendered before it is compared.
#[derive(Clone, Copy, Debug, PartialEq, Eq, Structural)]
pub enum Rendering {
    Plain,
    Markup,
}

/// A character as the markup formats carry it: those that XML and HTML cannot
/// carry become the replacement character.
pub open spec fn markup_char(c: char) -> char {
    if c == '\t' || c == '\n' || c == '\r' {
        c
    } else if c < '\u{20}' || c == '\u{FFFE}' || c == '\u{FFFF}' {
        '\u{FFFD}'
    } else {
        c
    }
}

pub open spec fn markup(s: Seq<char>) -> Seq<char> {
    Seq::new(s.len(), |i: int| markup_char(s[i]))
}

/// What a value looks like after the markup formats replace the characters they
/// cannot carry.
pub fn markup_expected(value: &str) -> (r: String)
    ensures
        r@ == markup(value@),
{
    let mut out = String::new();
    for c in it: value.chars()
        invariant
            it.seq() == value@,
            out@ == markup(value@.take(it.index())),
    {
        let carried = if c == '\t' || c == '\n' || c == '\r' {
            c
        } else if c < '\u{20}' || c == '\u{FFFE}' || c == '\u{FFFF}' {
            '\u{FFFD}'
        } else {
            c
        };
        out.push(carried);
        assert(out@ =~= markup(value@.take(it.index() + 1)));
    }
    assert(value@.take(value@.len() as int) =~= value@);
    out
}

/// What markup carries, it carries unchanged a second time.
pub proof fn markup_is_idempotent(s: Seq<char>)
    ensures
        markup(markup(s)) == markup(s),
{
    assert(markup(markup(s)) =~= markup(s));
}

pub open spec fn rendered(how: Rendering, s: Seq<char>) -> Seq<char> {
    match how {
        Rendering::Plain => s,
        Rendering::Markup => markup(s),
    }
}

fn render(how: Rendering, s: &str) -> (r: String)
    ensures
        r@ == rendered(how, s@),
{
    match how {
        Rendering::Plain => s.to_owned(),
        Rendering::Markup => markup_expected(s),
    }
}

/// One row per hostile trait.
pub fn rows() -> (r: Vec<Vec<String>>)
    ensures
        table(r@) == source(),
{
    let mut out: Vec<Vec<String>> = Vec::new();
    let mut i: usize = 0;
    while i < 3
        invariant
            i <= 3,
            out@.len() == i,
            forall|k: int| 0 <= k < i ==> views((#[trigger] out@[k])@) == source()[k],
        decreases 3 - i,
    {
        let mut row: Vec<String> = Vec::new();
        let mut j: usize = 0;
        while j < 7
            invariant
                i < 3,
                j <= 7,
                row@.len() == j,
                forall|k: int| 0 <= k < j ==> (#[trigger] row@[k])@ == source_cell(i as int, k),
            decreases 7 - j,
        {
            row.push(cell(i, j).to_owned());
            j += 1;
        }
        assert(views(row@) =~= source()[i as int]);
        out.push(row);
        i += 1;
    }
    assert(table(out@) =~= source());
    out
}

/// Whether a text reads as SQL NULL to the grid.
pub open spec fn reads_null(s: Seq<char>) -> bool {
    s.len() == 0 || s == NULL_TEXT@
}

/// Whether a cell of the source rows reads as SQL NULL to the grid.
pub fn is_null_cell(row: usize, col: usize) -> (r: bool)
    requires
        row < 3,
        col < 7,
    ensures
        r == reads_null(source_cell(row as int, col as int)),
{
    let value = cell(row, col);
    value.is_empty() || same(value, NULL_TEXT)
}

/// What a structured format must give back for a source cell: nothing for NULL.
pub open spec fn structured(row: int, col: int, how: Rendering) -> Seq<char> {
    if reads_null(source_cell(row, col)) {
        Seq::empty()
    } else {
        rendered(how, source_cell(row, col))
    }
}

/// The data rows that a structured format must give back.
pub open spec fn body_table(how: Rendering) -> Seq<Seq<Seq<char>>> {
    Seq::new(3, |i: int| Seq::new(7, |j: int| structured(i, j, how)))
}

fn body_rows(how: Rendering) -> (r: Vec<Vec<String>>)
    ensures
        table(r@) == body_table(how),
{
    let mut out: Vec<Vec<String>> = Vec::new();
    let mut i: usize = 0;
    while i < 3
        invariant
            i <= 3,
            out@.len() == i,
            forall|k: int| 0 <= k < i ==> views((#[trigger] out@[k])@) == body_table(how)[k],
        decreases 3 - i,
    {
        let mut row: Vec<String> = Vec::new();
        let mut j: usize = 0;
        while j < 7
            invariant
                i < 3,
                j <= 7,
                row@.len() == j,
                forall|k: int| 0 <= k < j ==> (#[trigger] row@[k])@ == structured(i as int, k, how),
            decreases 7 - j,
        {
            if is_null_cell(i, j) {
                row.push(String::new());
            } else {
                row.push(render(how, cell(i, j)));
            }
            j += 1;
        }
        assert(views(row@) =~= body_table(how)[i as int]);
        out.push(row);
        i += 1;
    }
    assert(table(out@) =~= body_table(how));
    out
}

/// The header row and every data row, each cell rendered.
pub open spec fn whole_table(how: Rendering) -> Seq<Seq<Seq<char>>> {
    Seq::new(
        4,
        |i: int|
            Seq::new(
                7,
                |j: int|
                    rendered(
                        how,
                        if i == 0 {
                            column_name(j)
                        } else {
                            source_cell(i - 1, j)
                        },
                    ),
            ),
    )
}

/// The header row and every data row, each cell rendered.
pub fn full_table(how: Rendering) -> (r: Vec<Vec<String>>)
    ensures
        table(r@) == whole_table(how),
{
    let mut out: Vec<Vec<String>> = Vec::new();
    let mut i: usize = 0;
    while i < 4
        invariant
            i <= 4,
            out@.len() == i,
            forall|k: int| 0 <= k < i ==> views((#[trigger] out@[k])@) == whole_table(how)[k],
        decreases 4 - i,
    {
        let mut row: Vec<String> = Vec::new();
        let mut j: usize = 0;
        while j < 7
            invariant
                i < 4,
                j <= 7,
                row@.len() == j,
                forall|k: int|
                    0 <= k < j ==> (#[trigger] row@[k])@ == rendered(
                        how,
                        if i == 0 {
                            column_name(k)
                        } else {
                            source_cell(i - 1, k)
                        },
                    ),
            decreases 7 - j,
        {
            if i == 0 {
                row.push(render(how, COLUMNS[j].0));
            } else {
                row.push(render(how, cell(i - 1, j)));
            }
            j += 1;
        }
        assert(views(row@) =~= whole_table(how)[i as int]);
        out.push(row);
        i += 1;
    }
    assert(table(out@) =~= whole_table(how));
    out
}

/// The first row, from one on, in which two tables of the same length differ.
pub open spec fn unlike_from(a: Seq<Seq<Seq<char>>>, b: Seq<Seq<Seq<char>>>, from: int) -> Option<
    int,
>
    decreases a.len() - from,
{
    if from < 0 || from >= a.len() || from >= b.len() {
        None
    } else if a[from] != b[from] {
        Some(from)
    } else {
        unlike_from(a, b, from + 1)
    }
}

/// What is wrong with a table that was read, held against the one written.
pub open spec fn table_fault(
    parser: Seq<char>,
    parsed: Seq<Seq<Seq<char>>>,
    expected: Seq<Seq<Seq<char>>>,
) -> Option<Seq<char>> {
    if parsed.len() != expected.len() {
        Some(
            parser + " read "@ + decimal(parsed.len() as int) + " rows, "@ + decimal(
                expected.len() as int,
            ) + " were written"@,
        )
    } else {
        match unlike_from(parsed, expected, 0) {
            Some(i) => Some(
                "row "@ + decimal(i) + ": read "@ + bracketed(debug_all(parsed[i])) + ", wrote "@
                    + bracketed(debug_all(expected[i])),
            ),
            None => None,
        }
    }
}

/// Compares a table that was read with the one that was written; the number of
/// rows where they agree.
pub fn compare_table(parser: &str, parsed: &Vec<Vec<String>>, expected: &Vec<Vec<String>>) -> (r:
    Result<usize, String>)
    ensures
        r is Ok <==> table_fault(parser@, table(parsed@), table(expected@)) is None,
        r matches Ok(n) ==> n == parsed@.len(),
        r matches Err(e) ==> table_fault(parser@, table(parsed@), table(expected@)) == Some(e@),
{
    let ghost a = table(parsed@);
    let ghost b = table(expected@);
    assert(a.len() == parsed@.len());
    assert(b.len() == expected@.len());
    if parsed.len() != expected.len() {
        let mut error = parser.to_owned();
        error.append(" read ");
        error.append(count_text(parsed.len()).as_str());
        error.append(" rows, ");
        error.append(count_text(expected.len()).as_str());
        error.append(" were written");
        return Err(error);
    }
    let mut i: usize = 0;
    while i < parsed.len()
        invariant
            i <= parsed@.len() == expected@.len(),
            a == table(parsed@),
            b == table(expected@),
            a.len() == b.len(),
            unlike_from(a, b, 0) == unlike_from(a, b, i as int),
        decreases parsed@.len() - i,
    {
        assert(a[i as int] == views(parsed@[i as int]@));
        assert(b[i as int] == views(expected@[i as int]@));
        if !same_texts(&parsed[i], &expected[i]) {
            let mut error = "row ".to_owned();
            error.append(count_text(i).as_str());
            error.append(": read ");
            error.append(names_text(&parsed[i]).as_str());
            error.append(", wrote ");
            error.append(names_text(&expected[i]).as_str());
            return Err(error);
        }
        i += 1;
    }
    Ok(parsed.len())
}

/// Two tables compare without fault exactly where they are the same table.
pub proof fn no_fault_means_same_table(
    parser: Seq<char>,
    parsed: Seq<Seq<Seq<char>>>,
    expected: Seq<Seq<Seq<char>>>,
)
    ensures
        table_fault(parser, parsed, expected) is None <==> parsed == expected,
{
    if parsed.len() == expected.len() {
        lemma_unlike_from(parsed, expected, 0);
        if unlike_from(parsed, expected, 0) is None {
            assert(parsed =~= expected);
        }
    }
}

proof fn lemma_unlike_from(a: Seq<Seq<Seq<char>>>, b: Seq<Seq<Seq<char>>>, from: int)
    requires
        a.len() == b.len(),
        0 <= from <= a.len(),
    ensures
        unlike_from(a, b, from) is None <==> (forall|i: int| from <= i < a.len() ==> a[i] == b[i]),
    decreases a.len() - from,
{
    if from < a.len() {
        lemma_unlike_from(a, b, from + 1);
        if a[from] == b[from] && unlike_from(a, b, from + 1) is None {
            assert forall|i: int| from <= i < a.len() implies a[i] == b[i] by {}
        }
    }
}

/// The data rows of what was read: a header row, where the parser reports one,
/// is dropped.
pub open spec fn body_of(parsed: Seq<Seq<Seq<char>>>) -> Seq<Seq<Seq<char>>> {
    if parsed.len() == 4 { parsed.skip(1) } else { parsed }
}

fn without_first(parsed: &Vec<Vec<String>>) -> (r: Vec<Vec<String>>)
    requires
        parsed@.len() > 0,
    ensures
        table(r@) == table(parsed@).skip(1),
{
    let ghost all = table(parsed@);
    let mut out: Vec<Vec<String>> = Vec::new();
    let mut i: usize = 1;
    while i < parsed.len()
        invariant
            1 <= i <= parsed@.len(),
            all == table(parsed@),
            out@.len() == i - 1,
            forall|k: int| 0 <= k < i - 1 ==> views((#[trigger] out@[k])@) == all[k + 1],
        decreases parsed@.len() - i,
    {
        let source = &parsed[i];
        let mut row: Vec<String> = Vec::new();
        let mut j: usize = 0;
        while j < source.len()
            invariant
                j <= source@.len(),
                row@.len() == j,
                forall|k: int| 0 <= k < j ==> (#[trigger] row@[k])@ == source@[k]@,
            decreases source@.len() - j,
        {
            row.push(source[j].clone());
            j += 1;
        }
        assert(views(row@) =~= views(source@));
        out.push(row);
        i += 1;
    }
    assert(table(out@) =~= all.skip(1));
    out
}

/// Compares what a parser read of a format that renders NULL as an empty cell.
/// Only the data rows are compared.
pub fn compare_body(parser: &str, parsed: &Vec<Vec<String>>, how: Rendering) -> (r: Result<
    usize,
    String,
>)
    ensures
        r is Ok <==> table_fault(parser@, body_of(table(parsed@)), body_table(how)) is None,
        r matches Ok(n) ==> n == body_of(table(parsed@)).len(),
        r matches Err(e) ==> table_fault(parser@, body_of(table(parsed@)), body_table(how)) == Some(
            e@,
        ),
{
    let expected = body_rows(how);
    assert(table(parsed@).len() == parsed@.len());
    if parsed.len() == 4 {
        let body = without_first(parsed);
        assert(table(body@).len() == body@.len());
        compare_table(parser, &body, &expected)
    } else {
        compare_table(parser, parsed, &expected)
    }
}

/// What `serde_json` reads of the bytes of a list of lists of strings.
pub uninterp spec fn json_rows(bytes: Seq<u8>) -> Result<Seq<Seq<Seq<char>>>, Seq<char>>;

pub open spec fn rows_reading(r: Result<Vec<Vec<String>>, String>) -> Result<
    Seq<Seq<Seq<char>>>,
    Seq<char>,
> {
    match r {
        Ok(rows) => Ok(table(rows@)),
        Err(e) => Err(e@),
    }
}

/// `serde_json::from_slice` into lists of lists of strings: the lists, or what
/// its error says. Both depend on the bytes alone.
#[verifier::external_body]
pub(crate) fn parse_rows(bytes: &Vec<u8>) -> (r: Result<Vec<Vec<String>>, String>)
    ensures
        rows_reading(r) == json_rows(bytes@),
{
    serde_json::from_slice(bytes).map_err(|e| e.to_string())
}

/// What a reading of rows comes to: the rows, or the error for a result that
/// could not be read.
pub open spec fn readable(reading: Result<Seq<Seq<Seq<char>>>, Seq<char>>) -> Result<
    Seq<Seq<Seq<char>>>,
    Seq<char>,
> {
    match reading {
        Ok(rows) => Ok(rows),
        Err(e) => Err("could not read the python3 result: "@ + e),
    }
}

/// The rows that a reader script printed.
pub fn run_python_rows(printed: &Vec<u8>) -> (r: Result<Vec<Vec<String>>, String>)
    ensures
        rows_reading(r) == readable(json_rows(printed@)),
{
    match parse_rows(printed) {
        Ok(rows) => Ok(rows),
        Err(e) => {
            let mut error = "could not read the python3 result: ".to_owned();
            error.append(e.as_str());
            Err(error)
        },
    }
}

/// The error for a reader script that did not succeed, with what it said.
pub fn python_failure(success: bool, status: &str, said: &str) -> (r: Option<String>)
    ensures
        r is None <==> success,
        r matches Some(e) ==> e@ == "python3 exited with "@ + status@ + ": "@ + trim(said@),
{
    if success {
        None
    } else {
        let mut error = "python3 exited with ".to_owned();
        error.append(status);
        error.append(": ");
        error.append(trimmed(said).as_str());
        Some(error)
    }
}

/// The error for a file that `xmllint` rejects.
pub fn xmllint_failure(success: bool, status: &str, said: &str) -> (r: Option<String>)
    ensures
        r is None <==> success,
        r matches Some(e) ==> e@ == "xmllint rejected the output ("@ + status@ + "): "@ + trim(
            said@,
        ),
{
    if success {
        None
    } else {
        let mut error = "xmllint rejected the output (".to_owned();
        error.append(status);
        error.append("): ");
        error.append(trimmed(said).as_str());
        Some(error)
    }
}

/// The verdict on a body that a reader printed.
pub open spec fn body_verdict(
    parser: Seq<char>,
    reading: Result<Seq<Seq<Seq<char>>>, Seq<char>>,
) -> Option<Seq<char>> {
    match readable(reading) {
        Ok(rows) => table_fault(parser, body_of(rows), body_table(Rendering::Markup)),
        Err(e) => Some(e),
    }
}

fn check_body(parser: &str, printed: &Vec<u8>) -> (r: Result<usize, String>)
    ensures
        r is Ok <==> body_verdict(parser@, json_rows(printed@)) is None,
        r matches Ok(n) ==> n == 3,
        r matches Err(e) ==> body_verdict(parser@, json_rows(printed@)) == Some(e@),
{
    match run_python_rows(printed) {
        Ok(rows) => compare_body(parser, &rows, Rendering::Markup),
        Err(e) => Err(e),
    }
}

/// Holds the cells that `html.parser` printed against the grid.
pub fn check_html(printed: &Vec<u8>) -> (r: Result<usize, String>)
    ensures
        r is Ok <==> body_verdict("html.parser"@, json_rows(printed@)) is None,
        r matches Ok(n) ==> n == 3,
        r matches Err(e) ==> body_verdict("html.parser"@, json_rows(printed@)) == Some(e@),
{
    check_body("html.parser", printed)
}

/// Holds the cells that ElementTree printed against the grid.
pub fn check_xml(printed: &Vec<u8>) -> (r: Result<usize, String>)
    ensures
        r is Ok <==> body_verdict("ElementTree"@, json_rows(printed@)) is None,
        r matches Ok(n) ==> n == 3,
        r matches Err(e) ==> body_verdict("ElementTree"@, json_rows(printed@)) == Some(e@),
{
    check_body("ElementTree", printed)
}

/// The data of a delimited file: the byte-order mark is not part of it.
pub open spec fn payload(text: Seq<char>) -> Seq<char> {
    if text.len() > 0 && text[0] == '\u{FEFF}' { text.skip(1) } else { text }
}

pub fn delimited_payload(text: &str) -> (r: String)
    ensures
        r@ == payload(text@),
{
    let x = chars_of(text);
    if x.len() > 0 && x[0] == '\u{FEFF}' {
        let out = text_of(&x, 1, x.len());
        assert(out@ =~= text@.skip(1));
        out
    } else {
        text.to_owned()
    }
}

/// The verdict on a delimited file: a delimited dump is literal, so every cell
/// must come back as it was written.
pub open spec fn delimited_verdict(reading: Result<Seq<Seq<Seq<char>>>, Seq<char>>) -> Option<
    Seq<char>,
> {
    match readable(reading) {
        Ok(rows) => table_fault("python csv"@, rows, whole_table(Rendering::Plain)),
        Err(e) => Some(e),
    }
}

/// Holds the cells that the `csv` module printed against the grid.
pub fn check_delimited(printed: &Vec<u8>) -> (r: Result<usize, String>)
    ensures
        r is Ok <==> delimited_verdict(json_rows(printed@)) is None,
        r matches Ok(n) ==> n == 4,
        r matches Err(e) ==> delimited_verdict(json_rows(printed@)) == Some(e@),
{
    match run_python_rows(printed) {
        Ok(rows) => {
            let expected = full_table(Rendering::Plain);
            assert(table(expected@).len() == expected@.len());
            assert(table(rows@).len() == rows@.len());
            compare_table("python csv", &rows, &expected)
        },
        Err(e) => Err(e),
    }
}

/// The value of a JSON member, as far as a cell can be one.
#[derive(Debug)]
pub enum JsonValue {
    Null,
    Bool,
    Number,
    Text(String),
    Array,
    Object,
}

/// A member of a JSON object: its key, its value, and how the value is written.
#[derive(Debug)]
pub struct JsonCell {
    pub key: String,
    pub value: JsonValue,
    pub shown: String,
}

/// A member of the top-level array.
#[derive(Debug)]
pub enum JsonEntry {
    Object(Vec<JsonCell>),
    Other,
}

/// A JSON file.
#[derive(Debug)]
pub enum JsonDocument {
    Array(Vec<JsonEntry>),
    Other,
}

pub enum ValueModel {
    Null,
    Bool,
    Number,
    Text(Seq<char>),
    Array,
    Object,
}

pub struct CellModel {
    pub key: Seq<char>,
    pub value: ValueModel,
    pub shown: Seq<char>,
}

/// The members of the objects in the top-level array; no members where an entry
/// is no object, and no entries where the top level is no array.
pub type DocumentModel = Option<Seq<Option<Seq<CellModel>>>>;

pub open spec fn value_model(value: JsonValue) -> ValueModel {
    match value {
        JsonValue::Null => ValueModel::Null,
        JsonValue::Bool => ValueModel::Bool,
        JsonValue::Number => ValueModel::Number,
        JsonValue::Text(text) => ValueModel::Text(text@),
        JsonValue::Array => ValueModel::Array,
        JsonValue::Object => ValueModel::Object,
    }
}

pub open spec fn cell_model(cell: JsonCell) -> CellModel {
    CellModel { key: cell.key@, value: value_model(cell.value), shown: cell.shown@ }
}

pub open spec fn entry_model(entry: JsonEntry) -> Option<Seq<CellModel>> {
    match entry {
        JsonEntry::Object(cells) => Some(Seq::new(cells@.len(), |i: int| cell_model(cells@[i]))),
        JsonEntry::Other => None,
    }
}

pub open spec fn document_model(document: JsonDocument) -> DocumentModel {
    match document {
        JsonDocument::Array(entries) => Some(
            Seq::new(entries@.len(), |i: int| entry_model(entries@[i])),
        ),
        JsonDocument::Other => None,
    }
}

/// What `serde_json` reads of a text: the members of the objects of a top-level
/// array, or what its error says.
pub uninterp spec fn json_document(text: Seq<char>) -> Result<DocumentModel, Seq<char>>;

pub open spec fn document_reading(r: Result<JsonDocument, String>) -> Result<
    DocumentModel,
    Seq<char>,
> {
    match r {
        Ok(document) => Ok(document_model(document)),
        Err(e) => Err(e@),
    }
}

/// `serde_json::from_str` into a JSON value, taken apart: an array by its
/// entries, an object by its members, a member by its key, its variant (with the
/// text of a string) and its `Display` form. All of it depends on the text alone.
#[verifier::external_body]
pub(crate) fn parse_json(text: &str) -> (r: Result<JsonDocument, String>)
    ensures
        document_reading(r) == json_document(text@),
{
    let read: Value = serde_json::from_str(text).map_err(|e| e.to_string())?;
    Ok(read.as_array().map_or(JsonDocument::Other, |items| JsonDocument::Array(
        items.iter().map(|item| item.as_object().map_or(JsonEntry::Other, |members| JsonEntry::Object(
            members.iter().map(|(key, v)| JsonCell {
                key: key.clone(),
                value: match v {
                    Value::Null => JsonValue::Null,
                    Value::Bool(_) => JsonValue::Bool,
                    Value::Number(_) => JsonValue::Number,
                    Value::String(s) => JsonValue::Text(s.clone()),
                    Value::Array(_) => JsonValue::Array, Value::Object(_) => JsonValue::Object
                },
                shown: v.to_string()
            }).collect()))).collect())))
}

/// The member of a key.
pub open spec fn member(cells: Seq<CellModel>, key: Seq<char>) -> Option<CellModel>
    decreases cells.len(),
{
    if cells.len() == 0 {
        None
    } else if cells[0].key == key {
        Some(cells[0])
    } else {
        member(cells.drop_first(), key)
    }
}

/// Whether a column is the last of its name: a duplicate key keeps only the value
/// written last.
pub open spec fn last_of_name(col: int) -> bool {
    forall|k: int| col < k < 7 ==> #[trigger] column_name(k) != column_name(col)
}

fn is_last_of_name(col: usize) -> (r: bool)
    requires
        col < 7,
    ensures
        r == last_of_name(col as int),
{
    let mut k: usize = col + 1;
    while k < 7
        invariant
            col < k <= 7,
            col < 7,
            forall|m: int| col < m < k ==> #[trigger] column_name(m) != column_name(col as int),
        decreases 7 - k,
    {
        if same(COLUMNS[k].0, COLUMNS[col].0) {
            assert(column_name(k as int) == column_name(col as int));
            return false;
        }
        k += 1;
    }
    true
}

/// Whether the numbers of a row and column were found to be equal.
pub open spec fn agreed(agree: Seq<Vec<bool>>, row: int, col: int) -> bool {
    0 <= row < agree.len() && 0 <= col < agree[row]@.len() && agree[row]@[col]
}

/// What is wrong with the member for one column of one row.
pub open spec fn member_fault(
    cells: Seq<CellModel>,
    agree: Seq<Vec<bool>>,
    row: int,
    col: int,
) -> Option<Seq<char>> {
    let name = column_name(col);
    let expected = source_cell(row, col);
    if !last_of_name(col) {
        None
    } else {
        match member(cells, name) {
            None => Some("row "@ + decimal(row) + " is missing key "@ + debug_form(name)),
            Some(cell) => if reads_null(expected) {
                if cell.value is Null {
                    None
                } else {
                    Some(
                        "row "@ + decimal(row) + " key "@ + debug_form(name) + ": NULL became "@
                            + cell.shown,
                    )
                }
            } else if cell.value == ValueModel::Text(expected) || (cell.value is Number && agreed(
                agree,
                row,
                col,
            )) {
                None
            } else {
                Some(
                    "row "@ + decimal(row) + " key "@ + debug_form(name) + ": "@ + debug_form(
                        expected,
                    ) + " came back as "@ + cell.shown,
                )
            },
        }
    }
}

/// The first fault of a row, from a column on.
pub open spec fn row_fault(
    cells: Seq<CellModel>,
    agree: Seq<Vec<bool>>,
    row: int,
    from: int,
) -> Option<Seq<char>>
    decreases 7 - from,
{
    if from < 0 || from >= 7 {
        None
    } else if member_fault(cells, agree, row, from) is Some {
        member_fault(cells, agree, row, from)
    } else {
        row_fault(cells, agree, row, from + 1)
    }
}

/// The first fault, from a row on.
pub open spec fn entries_fault(
    entries: Seq<Option<Seq<CellModel>>>,
    agree: Seq<Vec<bool>>,
    from: int,
) -> Option<Seq<char>>
    decreases entries.len() - from,
{
    if from < 0 || from >= entries.len() {
        None
    } else {
        match entries[from] {
            None => Some("row "@ + decimal(from) + " is not an object"@),
            Some(cells) => if row_fault(cells, agree, from, 0) is Some {
                row_fault(cells, agree, from, 0)
            } else {
                entries_fault(entries, agree, from + 1)
            },
        }
    }
}

/// What is wrong with a JSON file, held against the grid.
pub open spec fn json_fault(document: DocumentModel, agree: Seq<Vec<bool>>) -> Option<Seq<char>> {
    match document {
        None => Some("top level is not an array"@),
        Some(entries) => if entries.len() != 3 {
            Some(
                "expected "@ + decimal(3) + " objects, parsed "@ + decimal(entries.len() as int),
            )
        } else {
            entries_fault(entries, agree, 0)
        },
    }
}

fn find_member<'a>(cells: &'a Vec<JsonCell>, key: &str) -> (r: Option<&'a JsonCell>)
    ensures
        r is Some <==> member(entry_model(JsonEntry::Object(*cells))->0, key@) is Some,
        r matches Some(cell) ==> member(entry_model(JsonEntry::Object(*cells))->0, key@) == Some(
            cell_model(*cell),
        ),
{
    let ghost all = entry_model(JsonEntry::Object(*cells))->0;
    let mut i: usize = 0;
    assert(all.skip(0) =~= all);
    while i < cells.len()
        invariant
            i <= cells@.len(),
            all == entry_model(JsonEntry::Object(*cells))->0,
            member(all, key@) == member(all.skip(i as int), key@),
        decreases cells@.len() - i,
    {
        assert(all.skip(i as int).drop_first() =~= all.skip(i + 1));
        assert(all[i as int] == cell_model(cells@[i as int]));
        if same(cells[i].key.as_str(), key) {
            return Some(&cells[i]);
        }
        i += 1;
    }
    None
}

fn find_member_fault(cells: &Vec<JsonCell>, agree: &Vec<Vec<bool>>, row: usize, col: usize) -> (r:
    Option<String>)
    requires
        row < 3,
        col < 7,
    ensures
        r is Some <==> member_fault(
            entry_model(JsonEntry::Object(*cells))->0,
            agree@,
            row as int,
            col as int,
        ) is Some,
        r matches Some(e) ==> member_fault(
            entry_model(JsonEntry::Object(*cells))->0,
            agree@,
            row as int,
            col as int,
        ) == Some(e@),
{
    let name = COLUMNS[col].0;
    let expected = cell(row, col);
    if !is_last_of_name(col) {
        return None;
    }
    let mut error = "row ".to_owned();
    error.append(count_text(row).as_str());
    match find_member(cells, name) {
        None => {
            error.append(" is missing key ");
            error.append(quoted(name).as_str());
            Some(error)
        },
        Some(found) => {
            error.append(" key ");
            error.append(quoted(name).as_str());
            if is_null_cell(row, col) {
                return match &found.value {
                    JsonValue::Null => None,
                    _ => {
                        error.append(": NULL became ");
                        error.append(found.shown.as_str());
                        Some(error)
                    },
                };
            }
            let fine = match &found.value {
                JsonValue::Text(text) => same(text.as_str(), expected),
                JsonValue::Number => row < agree.len() && col < agree[row].len() && agree[row][col],
                _ => false,
            };
            if fine {
                None
            } else {
                error.append(": ");
                error.append(quoted(expected).as_str());
                error.append(" came back as ");
                error.append(found.shown.as_str());
                Some(error)
            }
        },
    }
}

fn find_row_fault(cells: &Vec<JsonCell>, agree: &Vec<Vec<bool>>, row: usize) -> (r: Option<String>)
    requires
        row < 3,
    ensures
        r is Some <==> row_fault(
            entry_model(JsonEntry::Object(*cells))->0,
            agree@,
            row as int,
            0,
        ) is Some,
        r matches Some(e) ==> row_fault(
            entry_model(JsonEntry::Object(*cells))->0,
            agree@,
            row as int,
            0,
        ) == Some(e@),
{
    let ghost all = entry_model(JsonEntry::Object(*cells))->0;
    let mut col: usize = 0;
    while col < 7
        invariant
            row < 3,
            col <= 7,
            all == entry_model(JsonEntry::Object(*cells))->0,
            row_fault(all, agree@, row as int, 0) == row_fault(all, agree@, row as int, col as int),
        decreases 7 - col,
    {
        match find_member_fault(cells, agree, row, col) {
            Some(error) => {
                return Some(error);
            },
            None => {},
        }
        col += 1;
    }
    None
}

/// Holds a JSON file against the grid: every member of every object. An unquoted
/// number is compared by value, and `agree` says which of those came out equal.
/// The number of objects where all is well.
pub fn judge_json(document: &JsonDocument, agree: &Vec<Vec<bool>>) -> (r: Result<usize, String>)
    ensures
        r is Ok <==> json_fault(document_model(*document), agree@) is None,
        r matches Ok(n) ==> n == 3,
        r matches Err(e) ==> json_fault(document_model(*document), agree@) == Some(e@),
{
    match document {
        JsonDocument::Other => Err("top level is not an array".to_owned()),
        JsonDocument::Array(entries) => {
            let ghost all = document_model(*document)->0;
            if entries.len() != 3 {
                let mut error = "expected ".to_owned();
                error.append(count_text(3).as_str());
                error.append(" objects, parsed ");
                error.append(count_text(entries.len()).as_str());
                return Err(error);
            }
            let mut row: usize = 0;
            while row < entries.len()
                invariant
                    row <= entries@.len() == 3,
                    *document == JsonDocument::Array(*entries),
                    all == document_model(*document)->0,
                    entries_fault(all, agree@, 0) == entries_fault(all, agree@, row as int),
                decreases entries@.len() - row,
            {
                assert(all[row as int] == entry_model(entries@[row as int]));
                match &entries[row] {
                    JsonEntry::Other => {
                        let mut error = "row ".to_owned();
                        error.append(count_text(row).as_str());
                        error.append(" is not an object");
                        return Err(error);
                    },
                    JsonEntry::Object(cells) => match find_row_fault(cells, agree, row) {
                        Some(error) => {
                            return Err(error);
                        },
                        None => {},
                    },
                }
                row += 1;
            }
            Ok(3)
        },
    }
}

/// The verdict on a JSON text.
pub open spec fn json_verdict(
    reading: Result<DocumentModel, Seq<char>>,
    agree: Seq<Vec<bool>>,
) -> Option<Seq<char>> {
    match reading {
        Ok(document) => json_fault(document, agree),
        Err(e) => Some("not valid JSON: "@ + e),
    }
}

/// Parses a JSON text and holds every cell against the grid.
pub fn check_json(text: &str, agree: &Vec<Vec<bool>>) -> (r: Result<usize, String>)
    ensures
        r is Ok <==> json_verdict(json_document(text@), agree@) is None,
        r matches Ok(n) ==> n == 3,
        r matches Err(e) ==> json_verdict(json_document(text@), agree@) == Some(e@),
{
    match parse_json(text) {
        Ok(document) => judge_json(&document, agree),
        Err(e) => {
            let mut error = "not valid JSON: ".to_owned();
            error.append(e.as_str());
            Err(error)
        },
    }
}

/// A value as a Markdown cell holds it: a line break of either kind is `<br>`.
pub open spec fn folded(s: Seq<char>) -> Seq<char> {
    replaced(replaced(replaced(s, "\r\n"@, "<br>"@), "\n"@, "<br>"@), "\r"@, "<br>"@)
}

/// A Markdown cell cannot hold a line break, so both kinds fold into `<br>`.
pub fn markdown_expected(value: &str) -> (r: String)
    ensures
        r@ == folded(value@),
{
    proof {
        reveal_strlit("\r\n");
        reveal_strlit("\n");
        reveal_strlit("\r");
    }
    let pairs = replace(value, "\r\n", "<br>");
    let feeds = replace(pairs.as_str(), "\n", "<br>");
    replace(feeds.as_str(), "\r", "<br>")
}

/// What lies between the outer pipes of a Markdown row.
pub open spec fn inside(line: Seq<char>) -> Seq<char> {
    let rest = line.skip(2);
    if begins_with(line, "| "@) && ends_with(rest, " |"@) {
        rest.take(rest.len() - 2)
    } else {
        line
    }
}

/// The cells of a row so far, and whether the last character escapes the next.
pub open spec fn scanned(s: Seq<char>) -> (Seq<Seq<char>>, bool)
    decreases s.len(),
{
    if s.len() == 0 {
        (seq![Seq::empty()], false)
    } else {
        let (cells, escaped) = scanned(s.drop_last());
        let c = s.last();
        if escaped {
            (cells.drop_last().push(cells.last().push('\\').push(c)), false)
        } else if c == '\\' {
            (cells, true)
        } else if c == '|' {
            (cells.push(Seq::empty()), false)
        } else {
            (cells.drop_last().push(cells.last().push(c)), false)
        }
    }
}

/// The cells of a Markdown row, trimmed; an escaped pipe does not end a cell.
pub open spec fn cells_of(line: Seq<char>) -> Seq<Seq<char>> {
    let cells = scanned(inside(line)).0;
    Seq::new(cells.len(), |i: int| trim(cells[i]))
}

fn inside_text(line: &str) -> (r: String)
    ensures
        r@ == inside(line@),
{
    proof {
        reveal_strlit("| ");
        reveal_strlit(" |");
    }
    let x = chars_of(line);
    let size: usize = x.len();
    if size >= 2 && x[0] == '|' && x[1] == ' ' {
        let ghost rest = line@.skip(2);
        assert(line@.subrange(0, 2) =~= "| "@);
        if size >= 4 && x[size - 2] == ' ' && x[size - 1] == '|' {
            assert(rest.subrange(rest.len() - 2, rest.len() as int) =~= " |"@);
            let out = text_of(&x, 2, size - 2);
            assert(out@ =~= rest.take(rest.len() - 2));
            return out;
        }
        proof {
            if ends_with(rest, " |"@) {
                assert(rest.subrange(rest.len() - 2, rest.len() as int) == " |"@);
                assert(rest.subrange(rest.len() - 2, rest.len() as int)[0] == " |"@[0]);
                assert(rest.subrange(rest.len() - 2, rest.len() as int)[1] == " |"@[1]);
            }
        }
    } else {
        proof {
            if begins_with(line@, "| "@) {
                assert(line@.subrange(0, 2) == "| "@);
                assert(line@.subrange(0, 2)[0] == "| "@[0]);
                assert(line@.subrange(0, 2)[1] == "| "@[1]);
            }
        }
    }
    line.to_owned()
}

/// Splits a `| a | b |` line, with `\|` as an escaped pipe.
pub fn markdown_cells(line: &str) -> (r: Vec<String>)
    ensures
        views(r@) == cells_of(line@),
{
    let inner = inside_text(line);
    let x = chars_of(inner.as_str());
    let mut done: Vec<String> = Vec::new();
    let mut current = String::new();
    let mut escaped: bool = false;
    let mut i: usize = 0;
    assert(views(done@).push(current@) =~= scanned(x@.take(0)).0);
    while i < x.len()
        invariant
            i <= x@.len(),
            views(done@).push(current@) == scanned(x@.take(i as int)).0,
            escaped == scanned(x@.take(i as int)).1,
        decreases x@.len() - i,
    {
        let ghost before = views(done@).push(current@);
        assert(x@.take(i + 1).drop_last() =~= x@.take(i as int));
        assert(before.drop_last() =~= views(done@));
        let c = x[i];
        if escaped {
            current.push('\\');
            current.push(c);
            escaped = false;
        } else if c == '\\' {
            escaped = true;
        } else if c == '|' {
            let cell = current;
            done.push(cell);
            current = String::new();
            assert(views(done@) =~= before);
        } else {
            current.push(c);
        }
        i += 1;
    }
    assert(x@.take(i as int) =~= x@);
    let ghost all = views(done@).push(current@);
    done.push(current);
    assert(views(done@) =~= all);
    let mut out: Vec<String> = Vec::new();
    let mut k: usize = 0;
    while k < done.len()
        invariant
            k <= done@.len(),
            views(done@) == all,
            out@.len() == k,
            forall|m: int| 0 <= m < k ==> (#[trigger] out@[m])@ == trim(all[m]),
        decreases done@.len() - k,
    {
        assert(done@[k as int]@ == all[k as int]);
        out.push(trimmed(done[k].as_str()));
        k += 1;
    }
    assert(views(out@) =~= cells_of(line@));
    out
}

/// A value with its backslashes and pipes escaped.
pub open spec fn escaped_cell(s: Seq<char>) -> Seq<char>
    decreases s.len(),
{
    if s.len() == 0 {
        Seq::empty()
    } else if s.last() == '\\' || s.last() == '|' {
        escaped_cell(s.drop_last()).push('\\').push(s.last())
    } else {
        escaped_cell(s.drop_last()).push(s.last())
    }
}

/// A row of escaped cells, a pipe between each two.
pub open spec fn escaped_row(cells: Seq<Seq<char>>) -> Seq<char>
    decreases cells.len(),
{
    if cells.len() == 0 {
        Seq::empty()
    } else if cells.len() == 1 {
        escaped_cell(cells[0])
    } else {
        escaped_row(cells.drop_last()).push('|') + escaped_cell(cells.last())
    }
}

proof fn lemma_scan_cell(s: Seq<char>, cell: Seq<char>)
    requires
        !scanned(s).1,
        scanned(s).0.len() > 0,
    ensures
        scanned(s + escaped_cell(cell)) == (
            scanned(s).0.drop_last().push(scanned(s).0.last() + escaped_cell(cell)),
            false,
        ),
    decreases cell.len(),
{
    let cells = scanned(s).0;
    if cell.len() == 0 {
        assert(s + escaped_cell(cell) =~= s);
        assert(cells.drop_last().push(cells.last() + escaped_cell(cell)) =~= cells);
    } else {
        let front = cell.drop_last();
        let c = cell.last();
        lemma_scan_cell(s, front);
        let so_far = s + escaped_cell(front);
        let grown = cells.last() + escaped_cell(front);
        let state = cells.drop_last().push(grown);
        assert(scanned(so_far) == (state, false));
        assert(state.drop_last() =~= cells.drop_last());
        if c == '\\' || c == '|' {
            let half = so_far.push('\\');
            assert(half.drop_last() =~= so_far);
            assert(scanned(half) == (state, true));
            let full = half.push(c);
            assert(full.drop_last() =~= half);
            assert(s + escaped_cell(cell) =~= full);
            assert(grown.push('\\').push(c) =~= cells.last() + escaped_cell(cell));
        } else {
            let full = so_far.push(c);
            assert(full.drop_last() =~= so_far);
            assert(s + escaped_cell(cell) =~= full);
            assert(grown.push(c) =~= cells.last() + escaped_cell(cell));
        }
    }
}

/// A row of escaped cells is split into exactly those cells, however many pipes
/// and backslashes the values hold.
pub proof fn escaped_rows_split_back(cells: Seq<Seq<char>>)
    requires
        cells.len() > 0,
    ensures
        scanned(escaped_row(cells)) == (
            Seq::new(cells.len(), |i: int| escaped_cell(cells[i])),
            false,
        ),
    decreases cells.len(),
{
    let wanted = Seq::new(cells.len(), |i: int| escaped_cell(cells[i]));
    if cells.len() == 1 {
        let empty = Seq::<char>::empty();
        lemma_scan_cell(empty, cells[0]);
        assert(empty + escaped_cell(cells[0]) =~= escaped_cell(cells[0]));
        assert(scanned(empty).0.drop_last().push(scanned(empty).0.last() + escaped_cell(cells[0]))
            =~= wanted);
    } else {
        let front = cells.drop_last();
        escaped_rows_split_back(front);
        let row = escaped_row(front);
        let barred = row.push('|');
        assert(barred.drop_last() =~= row);
        assert(scanned(barred).0 =~= scanned(row).0.push(Seq::empty()));
        lemma_scan_cell(barred, cells.last());
        assert(scanned(barred).0.drop_last() =~= scanned(row).0);
        assert(Seq::<char>::empty() + escaped_cell(cells.last()) =~= escaped_cell(cells.last()));
        assert(scanned(row).0.push(escaped_cell(cells.last())) =~= wanted);
    }
}

/// A cell with its escapes taken back.
pub open spec fn recovered(cell: Seq<char>) -> Seq<char> {
    replaced(replaced(cell, "\\|"@, "|"@), "\\\\"@, "\\"@)
}

pub open spec fn escaped_char(c: char) -> Seq<char> {
    if c == '\\' || c == '|' { seq!['\\', c] } else { seq![c] }
}

pub proof fn lemma_escaped_front(s: Seq<char>)
    requires
        s.len() > 0,
    ensures
        escaped_cell(s) == escaped_char(s[0]) + escaped_cell(s.drop_first()),
    decreases s.len(),
{
    if s.len() == 1 {
        assert(s.drop_last() =~= Seq::<char>::empty());
        assert(s.drop_first() =~= Seq::<char>::empty());
        assert(escaped_cell(s) =~= escaped_char(s[0]) + escaped_cell(s.drop_first()));
    } else {
        let front = s.drop_last();
        lemma_escaped_front(front);
        assert(front.drop_first() =~= s.drop_first().drop_last());
        assert(s.drop_first().last() == s.last());
        assert(escaped_cell(s) =~= escaped_char(s[0]) + escaped_cell(s.drop_first()));
    }
}

/// A value with its backslashes doubled.
spec fn doubled(s: Seq<char>) -> Seq<char>
    decreases s.len(),
{
    if s.len() == 0 {
        Seq::empty()
    } else if s[0] == '\\' {
        seq!['\\', '\\'] + doubled(s.drop_first())
    } else {
        seq![s[0]] + doubled(s.drop_first())
    }
}

proof fn lemma_pipes_back(s: Seq<char>)
    ensures
        replaced(escaped_cell(s), "\\|"@, "|"@) == doubled(s),
    decreases s.len(),
{
    reveal_strlit("\\|");
    reveal_strlit("|");
    let e = escaped_cell(s);
    if s.len() > 0 {
        let rest = s.drop_first();
        lemma_escaped_front(s);
        lemma_pipes_back(rest);
        let tail = escaped_cell(rest);
        if rest.len() > 0 {
            lemma_escaped_front(rest);
        }
        assert(tail.len() > 0 ==> tail[0] != '|');
        if s[0] == '|' {
            assert(e.subrange(0, 2) =~= "\\|"@);
            assert(stands_at(e, "\\|"@, 0));
            assert(e.skip(2) =~= tail);
            assert("|"@ + doubled(rest) =~= seq!['|'] + doubled(rest));
        } else if s[0] == '\\' {
            let half = seq!['\\'] + tail;
            assert(e.drop_first() =~= half);
            if stands_at(e, "\\|"@, 0) {
                assert(e.subrange(0, 2)[1] == "\\|"@[1]);
            }
            if stands_at(half, "\\|"@, 0) {
                assert(half.subrange(0, 2)[1] == "\\|"@[1]);
            }
            assert(half.drop_first() =~= tail);
            assert(half[0] == '\\');
            assert(replaced(half, "\\|"@, "|"@) == seq!['\\'] + doubled(rest));
            assert(e[0] == '\\');
            assert(replaced(e, "\\|"@, "|"@) == seq!['\\'] + replaced(half, "\\|"@, "|"@));
            assert(seq!['\\'] + (seq!['\\'] + doubled(rest)) =~= seq!['\\', '\\'] + doubled(
                rest,
            ));
        } else {
            if stands_at(e, "\\|"@, 0) {
                assert(e.subrange(0, 2)[0] == "\\|"@[0]);
            }
            assert(e.drop_first() =~= tail);
        }
    }
}

proof fn lemma_backslashes_back(s: Seq<char>)
    ensures
        replaced(doubled(s), "\\\\"@, "\\"@) == s,
    decreases s.len(),
{
    reveal_strlit("\\\\");
    reveal_strlit("\\");
    let d = doubled(s);
    if s.len() > 0 {
        let rest = s.drop_first();
        lemma_backslashes_back(rest);
        assert(seq![s[0]] + rest =~= s);
        if s[0] == '\\' {
            assert(d.subrange(0, 2) =~= "\\\\"@);
            assert(d.skip(2) =~= doubled(rest));
            assert("\\"@ + rest =~= seq!['\\'] + rest);
        } else {
            if stands_at(d, "\\\\"@, 0) {
                assert(d.subrange(0, 2)[0] == "\\\\"@[0]);
            }
            assert(d.drop_first() =~= doubled(rest));
        }
    } else {
        assert(s =~= Seq::<char>::empty());
    }
}

/// Taking back the escapes of an escaped value recovers the value.
pub proof fn escaping_is_recovered(s: Seq<char>)
    ensures
        recovered(escaped_cell(s)) == s,
{
    lemma_pipes_back(s);
    lemma_backslashes_back(s);
}

fn recover(cell: &str) -> (r: String)
    ensures
        r@ == recovered(cell@),
{
    proof {
        reveal_strlit("\\|");
        reveal_strlit("\\\\");
    }
    let pipes = replace(cell, "\\|", "|");
    replace(pipes.as_str(), "\\\\", "\\")
}

/// The lines of a text: `str::lines`.
pub open spec fn text_lines(s: Seq<char>) -> Seq<Seq<char>> {
    let pieces = split_on(s, '\n');
    let ended = Seq::new((pieces.len() - 1) as nat, |i: int| without_return(pieces[i]));
    if pieces.last().len() == 0 { ended } else { ended.push(pieces.last()) }
}

/// A line without the carriage return before its line feed.
pub open spec fn without_return(s: Seq<char>) -> Seq<char> {
    if s.len() > 0 && s.last() == '\r' { s.drop_last() } else { s }
}

fn cut_return(s: &str) -> (r: String)
    ensures
        r@ == without_return(s@),
{
    let x = chars_of(s);
    if x.len() > 0 && x[x.len() - 1] == '\r' {
        let out = text_of(&x, 0, x.len() - 1);
        assert(out@ =~= s@.drop_last());
        out
    } else {
        s.to_owned()
    }
}

pub fn lines(s: &str) -> (r: Vec<String>)
    ensures
        views(r@) == text_lines(s@),
{
    let pieces = split(s, '\n');
    let ghost all = split_on(s@, '\n');
    proof {
        lemma_split_has_one(s@, '\n');
        assert(views(pieces@).len() == pieces@.len());
    }
    let last: usize = pieces.len() - 1;
    let mut out: Vec<String> = Vec::new();
    let mut i: usize = 0;
    while i < last
        invariant
            i <= last,
            last + 1 == pieces@.len(),
            views(pieces@) == all,
            out@.len() == i,
            forall|k: int| 0 <= k < i ==> (#[trigger] out@[k])@ == without_return(all[k]),
        decreases last - i,
    {
        assert(pieces@[i as int]@ == all[i as int]);
        out.push(cut_return(pieces[i].as_str()));
        i += 1;
    }
    assert(pieces@[last as int]@ == all.last());
    if pieces[last].as_str().is_empty() {
        assert(views(out@) =~= text_lines(s@));
    } else {
        let ghost before = out@;
        out.push(pieces[last].clone());
        assert(views(out@) =~= text_lines(s@));
    }
    out
}

/// What a Markdown row must hold: the header's names, or a row's cells.
pub open spec fn markdown_row(index: int) -> Seq<Seq<char>> {
    Seq::new(
        7,
        |j: int|
            if index == 0 {
                folded(column_name(j))
            } else if reads_null(source_cell(index - 2, j)) {
                Seq::empty()
            } else {
                folded(source_cell(index - 2, j))
            },
    )
}

fn markdown_row_of(index: usize) -> (r: Vec<String>)
    requires
        index == 0 || 2 <= index < 5,
    ensures
        views(r@) == markdown_row(index as int),
{
    let mut out: Vec<String> = Vec::new();
    let mut j: usize = 0;
    while j < 7
        invariant
            index == 0 || 2 <= index < 5,
            j <= 7,
            out@.len() == j,
            forall|k: int| 0 <= k < j ==> (#[trigger] out@[k])@ == markdown_row(index as int)[k],
        decreases 7 - j,
    {
        if index == 0 {
            out.push(markdown_expected(COLUMNS[j].0));
        } else if is_null_cell(index - 2, j) {
            out.push(String::new());
        } else {
            out.push(markdown_expected(cell(index - 2, j)));
        }
        j += 1;
    }
    assert(views(out@) =~= markdown_row(index as int));
    out
}

pub open spec fn recovered_all(cells: Seq<Seq<char>>) -> Seq<Seq<char>> {
    Seq::new(cells.len(), |i: int| recovered(cells[i]))
}

/// What is wrong with one line of a Markdown table.
pub open spec fn line_fault(line: Seq<char>, index: int) -> Option<Seq<char>> {
    let cells = cells_of(line);
    if cells.len() != 7 {
        Some(
            "line "@ + decimal(index) + " has "@ + decimal(cells.len() as int)
                + " cells, header declares "@ + decimal(7) + ": "@ + line,
        )
    } else if index == 1 {
        if exists|i: int| 0 <= i < cells.len() && #[trigger] cells[i] != "---"@ {
            Some("the separator row is not all `---`"@)
        } else {
            None
        }
    } else if recovered_all(cells) != markdown_row(index) {
        Some(
            "line "@ + decimal(index) + ": read "@ + bracketed(debug_all(recovered_all(cells)))
                + ", wrote "@ + bracketed(debug_all(markdown_row(index))),
        )
    } else {
        None
    }
}

/// The first fault of a Markdown table, from a line on.
pub open spec fn lines_fault(all: Seq<Seq<char>>, from: int) -> Option<Seq<char>>
    decreases all.len() - from,
{
    if from < 0 || from >= all.len() {
        None
    } else if line_fault(all[from], from) is Some {
        line_fault(all[from], from)
    } else {
        lines_fault(all, from + 1)
    }
}

/// What is wrong with a Markdown table, held against the grid.
pub open spec fn markdown_fault(text: Seq<char>) -> Option<Seq<char>> {
    let all = text_lines(text);
    if all.len() != 5 {
        Some(
            "expected "@ + decimal(5) + " lines (header + separator + rows), got "@ + decimal(
                all.len() as int,
            ),
        )
    } else {
        lines_fault(all, 0)
    }
}

fn find_line_fault(line: &str, index: usize) -> (r: Option<String>)
    requires
        index < 5,
    ensures
        r is Some <==> line_fault(line@, index as int) is Some,
        r matches Some(e) ==> line_fault(line@, index as int) == Some(e@),
{
    let cells = markdown_cells(line);
    let ghost all = cells_of(line@);
    assert(views(cells@).len() == cells@.len());
    if cells.len() != 7 {
        let mut error = "line ".to_owned();
        error.append(count_text(index).as_str());
        error.append(" has ");
        error.append(count_text(cells.len()).as_str());
        error.append(" cells, header declares ");
        error.append(count_text(7).as_str());
        error.append(": ");
        error.append(line);
        return Some(error);
    }
    if index == 1 {
        let mut i: usize = 0;
        while i < cells.len()
            invariant
                i <= cells@.len() == 7,
                views(cells@) == all,
                all == cells_of(line@),
                forall|k: int| 0 <= k < i ==> #[trigger] all[k] == "---"@,
                index == 1,
            decreases cells@.len() - i,
        {
            assert(cells@[i as int]@ == all[i as int]);
            if !same(cells[i].as_str(), "---") {
                assert(all[i as int] != "---"@);
                return Some("the separator row is not all `---`".to_owned());
            }
            i += 1;
        }
        return None;
    }
    let mut found: Vec<String> = Vec::new();
    let mut i: usize = 0;
    while i < cells.len()
        invariant
            i <= cells@.len(),
            views(cells@) == all,
            found@.len() == i,
            forall|k: int| 0 <= k < i ==> (#[trigger] found@[k])@ == recovered(all[k]),
        decreases cells@.len() - i,
    {
        assert(cells@[i as int]@ == all[i as int]);
        found.push(recover(cells[i].as_str()));
        i += 1;
    }
    assert(views(found@) =~= recovered_all(all));
    let wanted = markdown_row_of(index);
    if same_texts(&found, &wanted) {
        None
    } else {
        let mut error = "line ".to_owned();
        error.append(count_text(index).as_str());
        error.append(": read ");
        error.append(names_text(&found).as_str());
        error.append(", wrote ");
        error.append(names_text(&wanted).as_str());
        Some(error)
    }
}

/// Every Markdown row has as many cells as the header, and taking back the
/// escapes of a cell recovers the value that was written. The number of lines
/// where all is well.
pub fn check_markdown(text: &str) -> (r: Result<usize, String>)
    ensures
        r is Ok <==> markdown_fault(text@) is None,
        r matches Ok(n) ==> n == 5,
        r matches Err(e) ==> markdown_fault(text@) == Some(e@),
{
    let all = lines(text);
    let ghost ls = text_lines(text@);
    assert(views(all@).len() == all@.len());
    if all.len() != 5 {
        let mut error = "expected ".to_owned();
        error.append(count_text(5).as_str());
        error.append(" lines (header + separator + rows), got ");
        error.append(count_text(all.len()).as_str());
        return Err(error);
    }
    let mut i: usize = 0;
    while i < all.len()
        invariant
            i <= all@.len() == 5,
            views(all@) == ls,
            ls == text_lines(text@),
            lines_fault(ls, 0) == lines_fault(ls, i as int),
        decreases all@.len() - i,
    {
        assert(all@[i as int]@ == ls[i as int]);
        match find_line_fault(all[i].as_str(), i) {
            Some(error) => {
                return Err(error);
            },
            None => {},
        }
        i += 1;
    }
    Ok(5)
}

} // verus!
