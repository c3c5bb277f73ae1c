//! The steps of the import probe.
use vstd::prelude::*;

use crate::grid::{BINARY_KIND, UNKNOWN_KIND};
use crate::import_live::{
    BACKSLASH_BY_CONNECTION, BACKSLASH_BY_FAMILY, CSV_FORMAT, DOCUMENTS, HEADERLESS, HUNDREDS,
    INJECTION, NUMBERED, ONE_A, ONE_B, PARSED, SEVENS, SQL_FORMAT, TSV_FORMAT,
};
use crate::machine::{Row, Weight};
use crate::op::{Op, DEFAULT_MODE, HERE, READ_ONLY};

verus! {

/// The source and copy tables, the source rows, and what the catalog says of them.
pub const OPENING: [Row; 19] = [
    (Op::Say, Weight::Try, 0, 0, "", "\n########## {t05} ##########", ""),
    (Op::Do, Weight::Try, 99, 0, "{t02}", "", ""),
    (Op::Do, Weight::Try, 99, 0, "{t04}", "", ""),
    (Op::Do, Weight::Leave, 13, 0, "{t03}", "", "create source: {z13}"),
    (Op::Do, Weight::Leave, 13, 0, "{t01}", "", "create copy: {z13}"),
    (Op::Do, Weight::Leave, 13, 0, "{t31}", "", "seed: {z13}"),
    (Op::Do, Weight::Leave, 13, 0, "{t32}", "", "seed: {z13}"),
    (Op::Do, Weight::Leave, 13, 0, "{t33}", "", "seed: {z13}"),
    (Op::Do, Weight::Leave, 13, 0, "{t34}", "", "seed: {z13}"),
    (Op::Do, Weight::Try, 99, 0, "COMMIT", "", ""),
    (Op::Do, Weight::Leave, 10, 0, "{t35}", "", "select source: {z10}"),
    (Op::GridOpened, Weight::Leave, 10, 0, "", "", "SELECT produced no grid columns"),
    (Op::GridRowsAre, Weight::Leave, 10, 4, "", "", "expected 4 source rows, got {110}"),
    (Op::Say, Weight::Try, 0, 0, "", "source columns and driver-classified kinds:{810}", ""),
    (Op::Do, Weight::Leave, 11, 0, "{t36}", "", "catalog types: {z11}"),
    (Op::CatalogWidth, Weight::Leave, 11, 10, "", "", ""),
    (Op::CompareLiterals, Weight::Try, 12, 10, "", "", ""),
    (Op::LiteralsAgree, Weight::Leave, 12, 10, "", "", ""),
    (
        Op::Say, Weight::Try, 0, 0, "",
        "PASS: every declared column type renders the same literal as the driver's", "",
    ),
];

/// A file of one format, written, read back, and loaded.
pub const ONE_FORMAT: [Row; 24] = [
    (Op::FormatLabel, Weight::Try, 16, HERE, "", "\n----- {t16} -----", ""),
    (Op::IsInserts, Weight::Try, 17, HERE, "", "", ""),
    (Op::SkipUnless, Weight::Try, 17, 1, "", "", ""),
    (
        Op::RenderInserts, Weight::Leave, 18, HERE, "OQT_IMPORT_SRC", "",
        "SQL Inserts was refused: {z18}",
    ),
    (Op::SkipIf, Weight::Try, 17, 1, "", "", ""),
    (Op::RenderData, Weight::Try, 18, HERE, "", "", ""),
    (Op::WriteFile, Weight::Leave, 19, HERE, "{t18}", "", ""),
    (Op::DetectFormat, Weight::Try, 20, HERE, "{t19}", "", ""),
    (
        Op::Applied, Weight::Leave, 20, 0, "", "",
        "{t16} wrote {t19} but the extension detects {t20}",
    ),
    (Op::ReadFile, Weight::Leave, 22, HERE, "{t19}", "", ""),
    (Op::ParseText, Weight::Leave, 21, HERE, "{t22}", "", "{t16} parse: {z21}"),
    (
        Op::ParsedAsExpected, Weight::Leave, 21, 10, "", "",
        "{t16} parsed differently from the source\n  expected: {H10}\n  parsed:   {F21}",
    ),
    (Op::MapColumns, Weight::Try, 23, 21, "", "", ""),
    (Op::AllMapped, Weight::Leave, 23, 0, "", "", "{t16}: {L21} did not all map onto {L11}"),
    (Op::BuildImport, Weight::Leave, 15, 21, "OQT_IMPORT_DST", "", "{t16} script: {z15}"),
    (Op::Describe, Weight::Try, 24, 21, "OQT_IMPORT_DST", "{t24}", ""),
    (
        Op::AtLeastParts, Weight::Leave, 15, 2, ";", "",
        "{t16}: expected a multi-statement script at batch size 2, got {915}",
    ),
    (Op::Do, Weight::Leave, 13, 0, "{t30}", "", "{t16} clear copy: {z13}"),
    (
        Op::Script, Weight::Leave, 13, 0, "{t15}", "",
        "{t16} import failed: {z13}\n--- script ---\n{t15}",
    ),
    (Op::Do, Weight::Try, 99, 0, "COMMIT", "", ""),
    (Op::Do, Weight::Leave, 25, 0, "{t07}", "", "{t16} select copy: {z25}"),
    (Op::GridOpened, Weight::Leave, 25, 0, "", "", "{t16}: copy SELECT produced no columns"),
    (
        Op::GridSame, Weight::Leave, 25, 10, "", "",
        "{t16} did not round-trip\n  source: {610}\n  copy:   {625}",
    ),
    (
        Op::Say, Weight::Try, 0, 0, "",
        "PASS: {t16} round-tripped {110} rows through {915} statements", "",
    ),
];

/// An import obeys the tab's transaction mode and auto-commit.
pub const MODES: [Row; 31] = [
    (Op::TextPresent, Weight::Leave, 15, 0, "", "", "no import script was built"),
    (Op::Do, Weight::Leave, 13, 0, "{t30}", "", "clear copy before the read-only import: {z13}"),
    (Op::Do, Weight::Try, 99, 0, "COMMIT", "", ""),
    (Op::Discard, Weight::Try, 99, 0, "", "", ""),
    (Op::PinLikeToolbar, Weight::Leave, 99, READ_ONLY, "", "", ""),
    (Op::RunScript, Weight::Leave, 11, 0, "{t15}", "", ""),
    (
        Op::SomethingRefused, Weight::Leave, 11, 0, "", "",
        "BUG: an import script ran to completion on a tab pinned READ ONLY (no statement failed)",
    ),
    (
        Op::ErrorSays, Weight::Leave, 11, 0, "{t37}", "",
        "the read-only import failed for the wrong reason: {z11}",
    ),
    (Op::Do, Weight::Try, 99, 0, "ROLLBACK", "", ""),
    (
        Op::Do, Weight::Leave, 12, 0, "SELECT COUNT(*) AS N FROM OQT_IMPORT_DST", "",
        "count after the read-only import: {z12}",
    ),
    (
        Op::GridScalarIs, Weight::Leave, 12, 0, "0", "",
        "BUG: the refused import still landed rows (COUNT(*) = {A12})",
    ),
    (Op::Do, Weight::Try, 99, 0, "ROLLBACK", "", ""),
    (
        Op::Say, Weight::Try, 0, 0, "",
        "PASS: a READ ONLY tab refused the import and left the target empty", "",
    ),
    (Op::Discard, Weight::Try, 99, 0, "", "", ""),
    (Op::PinLikeToolbar, Weight::Leave, 99, DEFAULT_MODE, "", "", ""),
    (Op::Unpin, Weight::Try, 99, 0, "", "", ""),
    (Op::Script, Weight::Leave, 13, 0, "{t15}", "", "unpinned import failed: {z13}"),
    (Op::Do, Weight::Try, 99, 0, "COMMIT", "", ""),
    (
        Op::Do, Weight::Leave, 12, 0, "SELECT COUNT(*) AS N FROM OQT_IMPORT_DST", "",
        "count after the unpinned import: {z12}",
    ),
    (
        Op::GridScalarIsNot, Weight::Leave, 12, 0, "0", "",
        "unpinning did not let the same import script through",
    ),
    (
        Op::Say, Weight::Try, 0, 0, "",
        "PASS: the same import script succeeds once the pin is removed ({B12} rows)", "",
    ),
    (Op::Do, Weight::Leave, 13, 0, "{t30}", "", "clear copy before the auto-commit import: {z13}"),
    (Op::Do, Weight::Try, 99, 0, "COMMIT", "", ""),
    (Op::TabAutoCommit, Weight::Try, 99, 1, "", "", ""),
    (Op::Script, Weight::Leave, 13, 0, "{t15}", "", "import on an auto-commit tab failed: {z13}"),
    (Op::TabAutoCommit, Weight::Try, 99, 0, "", "", ""),
    (Op::Do, Weight::Try, 99, 0, "ROLLBACK", "", ""),
    (
        Op::Do, Weight::Leave, 12, 0, "SELECT COUNT(*) AS N FROM OQT_IMPORT_DST", "",
        "count after the auto-commit import: {z12}",
    ),
    (
        Op::GridScalarIsNot, Weight::Leave, 12, 0, "0", "",
        "BUG: an import on an auto-commit tab did not commit (COUNT(*) = 0 after ROLLBACK)",
    ),
    (
        Op::Say, Weight::Try, 0, 0, "",
        "PASS: an import on an auto-commit tab survived a later ROLLBACK ({B12} rows)", "",
    ),
    (Op::Say, Weight::Try, 0, 0, "", "\n----- the rows `Export Data...` reads -----", ""),
];

/// What the object browser reads, on Oracle.
pub const ORACLE_EXPORT_READ: [Row; 10] = [
    (Op::ExportRead, Weight::Demand, 14, 0, "{t35}", "", ""),
    (
        Op::ReadWidths, Weight::Demand, 14, 0, "", "",
        "the catalog read on the export session saw {N14} columns, the row read saw {M14}",
    ),
    (
        Op::Say, Weight::Try, 0, 0, "",
        "PASS: the catalog and the rows read on ONE session agree on {N14} columns", "",
    ),
    (
        Op::HasNullRow, Weight::Demand, 14, 0, "", "",
        "the export read did not return the mostly-NULL row",
    ),
    (Op::NullsArrive, Weight::Demand, 14, 0, "", "", ""),
    (
        Op::Say, Weight::Try, 0, 0, "",
        "PASS: a SQL NULL reaches the exporter as SQL NULL, not as the empty string", "",
    ),
    (Op::ReadCellIs, Weight::Demand, 14, 0, "RAWC|DEADBEEF", "", ""),
    (
        Op::Say, Weight::Try, 0, 0, "",
        "PASS: a binary column reads the same text the grid shows ({W14})", "",
    ),
    (Op::ReadCellHolds, Weight::Demand, 14, 0, "TS|.123456", "", ""),
    (Op::Say, Weight::Try, 0, 0, "", "PASS: a timestamp keeps its fractional seconds ({S14})", ""),
];

/// What the object browser reads, on the MySQL family.
pub const MYSQL_EXPORT_READ: [Row; 10] = [
    (Op::ExportRead, Weight::Demand, 14, 0, "{t35}", "", ""),
    (
        Op::ReadWidths, Weight::Demand, 14, 0, "", "",
        "the catalog read on the export session saw {N14} columns, the row read saw {M14}",
    ),
    (
        Op::Say, Weight::Try, 0, 0, "",
        "PASS: the catalog and the rows read on ONE session agree on {N14} columns", "",
    ),
    (
        Op::HasNullRow, Weight::Demand, 14, 0, "", "",
        "the export read did not return the mostly-NULL row",
    ),
    (Op::NullsArrive, Weight::Demand, 14, 0, "", "", ""),
    (
        Op::Say, Weight::Try, 0, 0, "",
        "PASS: a SQL NULL reaches the exporter as SQL NULL, not as the empty string", "",
    ),
    (Op::ReadCellIs, Weight::Demand, 14, 0, "BINC|abc", "", ""),
    (
        Op::Say, Weight::Try, 0, 0, "",
        "PASS: a binary column reads the same text the grid shows ({X14})", "",
    ),
    (Op::ReadCellHolds, Weight::Demand, 14, 0, "TS|.123456", "", ""),
    (Op::Say, Weight::Try, 0, 0, "", "PASS: a timestamp keeps its fractional seconds ({S14})", ""),
];

/// Both tables are dropped, whatever was read.
pub const AFTER_EXPORT_READ: [Row; 6] = [
    (Op::Cleanup, Weight::Try, 0, 0, "", "", ""),
    (Op::Do, Weight::Try, 99, 0, "{t02}", "", ""),
    (Op::Do, Weight::Try, 99, 0, "{t04}", "", ""),
    (Op::Do, Weight::Try, 99, 0, "COMMIT", "", ""),
    (Op::Settled, Weight::Try, 0, 0, "", "", ""),
    (
        Op::Say, Weight::Try, 0, 0, "",
        "\n----- computed columns, hostile literals, awkward names -----", "",
    ),
];

/// Long values at the production batch size, on Oracle.
pub const ORACLE_PRODUCTION: [Row; 17] = [
    (Op::Do, Weight::Try, 99, 0, "{t48}", "", ""),
    (
        Op::Do, Weight::Leave, 13, 0, "CREATE TABLE OQT_IMPORT_SRC_BIG (SEQ NUMBER, V CLOB)", "",
        "create OQT_IMPORT_SRC_BIG: {z13}",
    ),
    (Op::Do, Weight::Try, 99, 0, "COMMIT", "", ""),
    (
        Op::BuildData, Weight::Leave, 15, DOCUMENTS, "OQT_IMPORT_SRC_BIG", "",
        "build the production-sized script: {z15}",
    ),
    (
        Op::Say, Weight::Try, 0, 0, "",
        "  {t06} rows x 200000 chars -> {c15} bytes over {a15} statement(s)", "",
    ),
    (
        Op::AtLeastParts, Weight::Leave, 15, 2, "INSERT ALL", "",
        "a {c15} byte script went out as {a15} statement(s) — the batch is not bounded by size",
    ),
    (Op::Script, Weight::Try, 12, 0, "{t15}", "", ""),
    (Op::Do, Weight::Try, 99, 0, "COMMIT", "", ""),
    (Op::Do, Weight::Leave, 11, 0, "SELECT COUNT(*) AS N FROM OQT_IMPORT_SRC_BIG", "", ""),
    (Op::Peek, Weight::Try, 14, 0, "{t50}", "", ""),
    (Op::Do, Weight::Try, 99, 0, "{t48}", "", ""),
    (Op::Do, Weight::Try, 99, 0, "COMMIT", "", ""),
    (
        Op::Did, Weight::Leave, 12, 0, "", "",
        "a production-sized batch of long values did not run: {z12}",
    ),
    (
        Op::GridScalarIs, Weight::Leave, 11, 0, "{t06}", "",
        "a production-sized batch landed {B11} rows, expected {t06}",
    ),
    (
        Op::GridCellIs, Weight::Leave, 14, 0, "200013", "",
        "a long value came back {D14} characters long, expected 200013",
    ),
    (
        Op::GridCellIs, Weight::Leave, 14, 1, "it's & \\ done", "",
        "the end of a long value came back as {E14}, expected \"it's & \\\\ done\"",
    ),
    (
        Op::Say, Weight::Try, 0, 0, "",
        "PASS: {t06} rows of 200000-character values import whole and intact", "",
    ),
];

/// Long values at the production batch size, on the MySQL family.
pub const MYSQL_PRODUCTION: [Row; 17] = [
    (Op::Do, Weight::Try, 99, 0, "{t48}", "", ""),
    (
        Op::Do, Weight::Leave, 13, 0, "CREATE TABLE OQT_IMPORT_SRC_BIG (SEQ INT, V LONGTEXT)", "",
        "create OQT_IMPORT_SRC_BIG: {z13}",
    ),
    (Op::Do, Weight::Try, 99, 0, "COMMIT", "", ""),
    (
        Op::BuildData, Weight::Leave, 15, DOCUMENTS, "OQT_IMPORT_SRC_BIG", "",
        "build the production-sized script: {z15}",
    ),
    (
        Op::Say, Weight::Try, 0, 0, "",
        "  {t06} rows x 200000 chars -> {c15} bytes over {b15} statement(s)", "",
    ),
    (
        Op::AtLeastParts, Weight::Leave, 15, 2, "INSERT INTO", "",
        "a {c15} byte script went out as {b15} statement(s) — the batch is not bounded by size",
    ),
    (Op::Script, Weight::Try, 12, 0, "{t15}", "", ""),
    (Op::Do, Weight::Try, 99, 0, "COMMIT", "", ""),
    (Op::Do, Weight::Leave, 11, 0, "SELECT COUNT(*) AS N FROM OQT_IMPORT_SRC_BIG", "", ""),
    (Op::Peek, Weight::Try, 14, 0, "{t50}", "", ""),
    (Op::Do, Weight::Try, 99, 0, "{t48}", "", ""),
    (Op::Do, Weight::Try, 99, 0, "COMMIT", "", ""),
    (
        Op::Did, Weight::Leave, 12, 0, "", "",
        "a production-sized batch of long values did not run: {z12}",
    ),
    (
        Op::GridScalarIs, Weight::Leave, 11, 0, "{t06}", "",
        "a production-sized batch landed {B11} rows, expected {t06}",
    ),
    (
        Op::GridCellIs, Weight::Leave, 14, 0, "200013", "",
        "a long value came back {D14} characters long, expected 200013",
    ),
    (
        Op::GridCellIs, Weight::Leave, 14, 1, "it's & \\ done", "",
        "the end of a long value came back as {E14}, expected \"it's & \\\\ done\"",
    ),
    (
        Op::Say, Weight::Try, 0, 0, "",
        "PASS: {t06} rows of 200000-character values import whole and intact", "",
    ),
];

/// A file's cell cannot add a statement, on Oracle.
pub const ORACLE_INJECTION: [Row; 20] = [
    (Op::Do, Weight::Try, 99, 0, "{t51}", "", ""),
    (Op::Do, Weight::Try, 99, 0, "{t53}", "", ""),
    (
        Op::Do, Weight::Leave, 13, 0, "CREATE TABLE OQT_IMPORT_SRC_VICTIM (X NUMBER)", "",
        "create the victim table: {z13}",
    ),
    (
        Op::Do, Weight::Leave, 13, 0, "CREATE TABLE OQT_IMPORT_SRC_BIN (SEQ NUMBER, B RAW(16))", "",
        "create the binary-column table: {z13}",
    ),
    (Op::Do, Weight::Try, 99, 0, "COMMIT", "", ""),
    (Op::ReadStructure, Weight::Leave, 16, 0, "OQT_IMPORT_SRC_BIN", "", ""),
    (Op::ImportTargets, Weight::Try, 17, 16, "", "", ""),
    (
        Op::BuildData, Weight::Leave, 15, INJECTION, "OQT_IMPORT_SRC_BIN",
        "  a hostile cell becomes:\n    {H15}", "build the import script: {z15}",
    ),
    (Op::Script, Weight::Try, 99, 0, "{t15}", "", ""),
    (Op::Do, Weight::Try, 99, 0, "COMMIT", "", ""),
    (Op::Do, Weight::Leave, 11, 0, "{t55}", "", ""),
    (Op::Do, Weight::Try, 99, 0, "{t51}", "", ""),
    (Op::Do, Weight::Try, 99, 0, "{t53}", "", ""),
    (Op::Do, Weight::Try, 99, 0, "COMMIT", "", ""),
    (
        Op::GridScalarIs, Weight::Leave, 11, 0, "1", "",
        "BUG: an imported file cell ran a statement of its own — the victim table is gone",
    ),
    (
        Op::NotInterpolated, Weight::Leave, 15, 0, "", "",
        "a value that is not provably hex was interpolated into HEXTORAW: {t15}",
    ),
    (
        Op::Say, Weight::Try, 0, 0, "",
        "PASS: a hostile file cell stays a VALUE and runs no statement of its own", "",
    ),
    (
        Op::LiteralFor, Weight::Leave, 18, BINARY_KIND, "DEADBEEF", "",
        "a short hex value was refused: {z18}",
    ),
    (
        Op::WordsAre, Weight::Leave, 18, 0, "HEXTORAW('DEADBEEF')", "",
        "a provably hex value became {t18}, expected HEXTORAW('DEADBEEF')",
    ),
    (
        Op::Say, Weight::Try, 0, 0, "",
        "PASS: a provably hex value still uses the conversion it always did", "",
    ),
];

/// A file's cell cannot add a statement, on the MySQL family.
pub const MYSQL_INJECTION: [Row; 20] = [
    (Op::Do, Weight::Try, 99, 0, "{t51}", "", ""),
    (Op::Do, Weight::Try, 99, 0, "{t53}", "", ""),
    (
        Op::Do, Weight::Leave, 13, 0, "CREATE TABLE OQT_IMPORT_SRC_VICTIM (X INT)", "",
        "create the victim table: {z13}",
    ),
    (
        Op::Do, Weight::Leave, 13, 0, "CREATE TABLE OQT_IMPORT_SRC_BIN (SEQ INT, B VARBINARY(16))",
        "", "create the binary-column table: {z13}",
    ),
    (Op::Do, Weight::Try, 99, 0, "COMMIT", "", ""),
    (Op::ReadStructure, Weight::Leave, 16, 0, "OQT_IMPORT_SRC_BIN", "", ""),
    (Op::ImportTargets, Weight::Try, 17, 16, "", "", ""),
    (
        Op::BuildData, Weight::Leave, 15, INJECTION, "OQT_IMPORT_SRC_BIN",
        "  a hostile cell becomes:\n    {H15}", "build the import script: {z15}",
    ),
    (Op::Script, Weight::Try, 99, 0, "{t15}", "", ""),
    (Op::Do, Weight::Try, 99, 0, "COMMIT", "", ""),
    (Op::Do, Weight::Leave, 11, 0, "{t55}", "", ""),
    (Op::Do, Weight::Try, 99, 0, "{t51}", "", ""),
    (Op::Do, Weight::Try, 99, 0, "{t53}", "", ""),
    (Op::Do, Weight::Try, 99, 0, "COMMIT", "", ""),
    (
        Op::GridScalarIs, Weight::Leave, 11, 0, "1", "",
        "BUG: an imported file cell ran a statement of its own — the victim table is gone",
    ),
    (
        Op::NotInterpolated, Weight::Leave, 15, 0, "", "",
        "a value that is not provably hex was interpolated into HEXTORAW: {t15}",
    ),
    (
        Op::Say, Weight::Try, 0, 0, "",
        "PASS: a hostile file cell stays a VALUE and runs no statement of its own", "",
    ),
    (
        Op::LiteralFor, Weight::Leave, 18, BINARY_KIND, "DEADBEEF", "",
        "a short hex value was refused: {z18}",
    ),
    (
        Op::WordsAre, Weight::Leave, 18, 0, "'DEADBEEF'", "",
        "a provably hex value became {t18}, expected 'DEADBEEF'",
    ),
    (
        Op::Say, Weight::Try, 0, 0, "",
        "PASS: a provably hex value still uses the conversion it always did", "",
    ),
];

/// A table with columns that the server computes.
pub const COMPUTED: [Row; 6] = [
    (Op::Do, Weight::Try, 99, 0, "{t40}", "", ""),
    (Op::Do, Weight::Leave, 13, 0, "{t41}", "", "create the generated-column table: {z13}"),
    (Op::Do, Weight::Try, 99, 0, "COMMIT", "", ""),
    (Op::ReadStructure, Weight::Leave, 16, 0, "OQT_IMPORT_GEN", "", ""),
    (
        Op::SomeColumns, Weight::Demand, 16, 0, "", "",
        "the catalog read returned no columns for OQT_IMPORT_GEN",
    ),
    (Op::Say, Weight::Try, 0, 0, "", "  catalog reports generated columns {C16}", ""),
];

/// Which columns are computed, and which are offered, on Oracle.
pub const ORACLE_COMPUTED: [Row; 4] = [
    (
        Op::GeneratedAre, Weight::Demand, 16, 0, "ALWAYS_ID|TOTAL", "",
        "expected the catalog to report [\"ALWAYS_ID\", \"TOTAL\"] as computed, got {C16}",
    ),
    (Op::ImportTargets, Weight::Try, 17, 16, "", "", ""),
    (
        Op::OfferedAre, Weight::Demand, 17, 0, "A", "",
        "the import should offer [\"A\"], offered {L17}",
    ),
    (
        Op::LeftOutAre, Weight::Demand, 17, 0, "ALWAYS_ID|TOTAL", "",
        "the dialog would not name the columns it left out",
    ),
];

/// Which columns are computed, and which are offered, on the MySQL family.
pub const MYSQL_COMPUTED: [Row; 4] = [
    (
        Op::GeneratedAre, Weight::Demand, 16, 0, "TOTAL|VIRT", "",
        "expected the catalog to report [\"TOTAL\", \"VIRT\"] as computed, got {C16}",
    ),
    (Op::ImportTargets, Weight::Try, 17, 16, "", "", ""),
    (
        Op::OfferedAre, Weight::Demand, 17, 0, "ALWAYS_ID|A", "",
        "the import should offer [\"ALWAYS_ID\", \"A\"], offered {L17}",
    ),
    (
        Op::LeftOutAre, Weight::Demand, 17, 0, "TOTAL|VIRT", "",
        "the dialog would not name the columns it left out",
    ),
];

/// Imports into and exports from a table with computed columns run.
pub const COMPUTED_IMPORT: [Row; 26] = [
    (
        Op::BuildData, Weight::Leave, 15, SEVENS, "OQT_IMPORT_GEN", "",
        "build the import script: {z15}",
    ),
    (
        Op::Script, Weight::Leave, 13, 0, "{t15}", "",
        "the import into a table with computed columns failed: {z13}",
    ),
    (Op::Do, Weight::Try, 99, 0, "COMMIT", "", ""),
    (Op::Do, Weight::Leave, 11, 0, "SELECT COUNT(*) AS N FROM OQT_IMPORT_GEN", "", ""),
    (Op::Positional, Weight::Try, 18, 16, "", "", ""),
    (Op::PositionsRight, Weight::Leave, 18, 16, "", "", ""),
    (
        Op::BuildData, Weight::Leave, 15, HUNDREDS, "OQT_IMPORT_GEN", "",
        "build the headerless import script: {z15}",
    ),
    (Op::Script, Weight::Leave, 13, 0, "{t15}", "", "the headerless import failed: {z13}"),
    (Op::Do, Weight::Try, 99, 0, "COMMIT", "", ""),
    (Op::HasColumnA, Weight::Leave, 16, 0, "", "", "the fixture has no column A"),
    (
        Op::Do, Weight::Leave, 12, 0, "SELECT COUNT(*) AS N FROM OQT_IMPORT_GEN WHERE A = {A16}",
        "", "",
    ),
    (
        Op::CountTextIs, Weight::Demand, 12, 0, "1", "",
        "a headerless import put {I12} rows in A = {A16}: the file's column {P16} did not reach A",
    ),
    (
        Op::Say, Weight::Try, 0, 0, "",
        "PASS: a headerless file maps by the TABLE's positions, computed columns skipped", "",
    ),
    (
        Op::ExportInserts, Weight::Leave, 19, 16, "OQT_IMPORT_GEN",
        "  SQL Inserts export of a table with computed columns:\n    {H19}",
        "the SQL Inserts export was refused: {z19}",
    ),
    (Op::Script, Weight::Try, 20, 0, "{t19}", "", ""),
    (Op::Do, Weight::Try, 99, 0, "COMMIT", "", ""),
    (Op::Do, Weight::Try, 99, 0, "{t40}", "", ""),
    (Op::Do, Weight::Try, 99, 0, "COMMIT", "", ""),
    (
        Op::GridScalarIs, Weight::Leave, 11, 0, "1", "",
        "the import into a table with computed columns landed {B11} rows",
    ),
    (
        Op::Say, Weight::Try, 0, 0, "",
        "PASS: computed columns are left out of the import and the script runs", "",
    ),
    (Op::NamesNoComputed, Weight::Leave, 19, 0, "", "", ""),
    (
        Op::Did, Weight::Leave, 20, 0, "", "",
        "the SQL Inserts export of a table with computed columns did not run: {z20}",
    ),
    (
        Op::Say, Weight::Try, 0, 0, "",
        "PASS: a SQL Inserts export of the same table runs on the server", "",
    ),
    (Op::Cleanup, Weight::Try, 0, 2, "", "", ""),
    (Op::Do, Weight::Try, 99, 0, "{t40}", "", ""),
    (Op::Settled, Weight::Try, 0, 0, "", "", ""),
];

/// An identity that takes explicit values stays on offer.
pub const ORACLE_BY_DEFAULT: [Row; 9] = [
    (Op::Do, Weight::Try, 99, 0, "DROP TABLE OQT_IMPORT_GEN_D", "", ""),
    (
        Op::Do, Weight::Leave, 13, 0,
        "CREATE TABLE OQT_IMPORT_GEN_D (DEFAULT_ID NUMBER GENERATED BY DEFAULT AS IDENTITY, A NUMBER)",
        "", "create the by-default identity table: {z13}",
    ),
    (Op::Do, Weight::Try, 99, 0, "COMMIT", "", ""),
    (Op::ReadStructure, Weight::Leave, 16, 0, "OQT_IMPORT_GEN_D", "", ""),
    (Op::ImportTargets, Weight::Try, 17, 16, "", "", ""),
    (Op::Do, Weight::Try, 99, 0, "DROP TABLE OQT_IMPORT_GEN_D", "", ""),
    (Op::Do, Weight::Try, 99, 0, "COMMIT", "", ""),
    (
        Op::OfferedAre, Weight::Leave, 17, 0, "DEFAULT_ID|A", "",
        "a BY DEFAULT identity must stay importable; offered {L17}",
    ),
    (
        Op::Say, Weight::Try, 0, 0, "",
        "PASS: a BY DEFAULT identity column is still an import target", "",
    ),
];

/// Backslashes, quotes and ampersands survive the SQL file, the import and the server.
pub const HOSTILE: [Row; 16] = [
    (Op::Do, Weight::Try, 99, 0, "{t56}", "", ""),
    (Op::Do, Weight::Leave, 13, 0, "{t57}", "", "create OQT_IMPORT_GEN_H: {z13}"),
    (Op::Do, Weight::Try, 99, 0, "COMMIT", "", ""),
    (
        Op::HostileInserts, Weight::Leave, 15, 0, "OQT_IMPORT_GEN_H", "",
        "the long-value SQL Inserts export was refused: {z15}",
    ),
    (
        Op::ParseText, Weight::Leave, 21, SQL_FORMAT, "{t15}", "",
        "the exported SQL did not parse: {z21}",
    ),
    (
        Op::ParsedHostile, Weight::Demand, 21, 0, "", "",
        "the exported SQL read back differently\n  wrote {t27}\n  read  {R21}",
    ),
    (Op::Script, Weight::Leave, 13, 0, "{t15}", "", "the exported SQL failed to run: {z13}"),
    (Op::Do, Weight::Try, 99, 0, "COMMIT", "", ""),
    (Op::Do, Weight::Leave, 11, 0, "SELECT SEQ, V FROM OQT_IMPORT_GEN_H ORDER BY SEQ", "", ""),
    (Op::Do, Weight::Try, 99, 0, "{t56}", "", ""),
    (Op::Do, Weight::Try, 99, 0, "COMMIT", "", ""),
    (
        Op::StoredHostile, Weight::Leave, 11, 0, "", "",
        "the server stored {F11}, the grid held {t28}",
    ),
    (
        Op::Say, Weight::Try, 0, 0, "",
        "PASS: backslashes and ampersands survive the SQL export, the import and the server", "",
    ),
    (Op::Cleanup, Weight::Try, 0, 2, "", "", ""),
    (Op::Do, Weight::Try, 99, 0, "{t56}", "", ""),
    (Op::Settled, Weight::Try, 0, 0, "", "", ""),
];

/// A table whose name needs quoting.
pub const AWKWARD: [Row; 14] = [
    (Op::Do, Weight::Try, 99, 0, "DROP TABLE {t60}", "", ""),
    (Op::Do, Weight::Leave, 13, 0, "{t62}", "", "create {t60}: {z13}"),
    (Op::Do, Weight::Try, 99, 0, "COMMIT", "", ""),
    (Op::QualifiedName, Weight::Try, 14, 0, "{t61}", "", ""),
    (
        Op::BuildData, Weight::Leave, 15, ONE_A, "{t14}", "  qualified name {q14} -> {H15}",
        "build the import script: {z15}",
    ),
    (Op::Script, Weight::Try, 12, 0, "{t15}", "", ""),
    (Op::Do, Weight::Try, 99, 0, "COMMIT", "", ""),
    (Op::SkipUnlessDid, Weight::Try, 12, 1, "", "", ""),
    (Op::Do, Weight::Leave, 11, 0, "SELECT COUNT(*) AS N FROM {t60}", "", ""),
    (Op::Do, Weight::Try, 99, 0, "DROP TABLE {t60}", "", ""),
    (Op::Do, Weight::Try, 99, 0, "COMMIT", "", ""),
    (Op::Did, Weight::Leave, 12, 0, "", "", "the import named the table wrongly: {z12}"),
    (Op::GridScalarIs, Weight::Leave, 11, 0, "1", "", "the import landed {A11} rows, expected 1"),
    (
        Op::Say, Weight::Try, 0, 0, "",
        "PASS: a table name that needs quoting is named correctly by the import", "",
    ),
];

/// A session whose backslashes do not escape.
pub const BACKSLASHES: [Row; 17] = [
    (Op::Do, Weight::Try, 99, 0, "{t63}", "", ""),
    (
        Op::Do, Weight::Leave, 13, 0, "CREATE TABLE OQT_IMPORT_GEN_NBE (SEQ INT, V VARCHAR(50))",
        "", "create OQT_IMPORT_GEN_NBE: {z13}",
    ),
    (
        Op::Do, Weight::Leave, 13, 0, "SET SESSION sql_mode = 'TRADITIONAL,NO_BACKSLASH_ESCAPES'",
        "", "set NO_BACKSLASH_ESCAPES: {z13}",
    ),
    (Op::Do, Weight::Try, 99, 0, "COMMIT", "", ""),
    (
        Op::BuildData, Weight::Leave, 15, BACKSLASH_BY_FAMILY, "OQT_IMPORT_GEN_NBE", "",
        "build the family-default script: {z15}",
    ),
    (Op::Script, Weight::Leave, 13, 0, "{t15}", "", "family-default import: {z13}"),
    (
        Op::BuildData, Weight::Leave, 15, BACKSLASH_BY_CONNECTION, "OQT_IMPORT_GEN_NBE", "",
        "build the connection script: {z15}",
    ),
    (Op::Script, Weight::Leave, 13, 0, "{t15}", "", "connection-dialect import: {z13}"),
    (Op::Do, Weight::Try, 99, 0, "COMMIT", "", ""),
    (Op::Do, Weight::Leave, 11, 0, "SELECT SEQ, V FROM OQT_IMPORT_GEN_NBE ORDER BY SEQ", "", ""),
    (Op::Do, Weight::Try, 99, 0, "SET SESSION sql_mode = 'TRADITIONAL'", "", ""),
    (Op::Do, Weight::Try, 99, 0, "{t63}", "", ""),
    (Op::Do, Weight::Try, 99, 0, "COMMIT", "", ""),
    (Op::StoredCount, Weight::Leave, 11, 2, "", "", "expected two rows back, got {F11}"),
    (
        Op::StoredIs, Weight::Leave, 11, 0, "a\\\\b", "",
        "the family default should have stored a DOUBLED backslash under NO_BACKSLASH_ESCAPES (that is the defect); it stored {P11}",
    ),
    (
        Op::StoredIs, Weight::Leave, 11, 1, "a\\b", "",
        "the connection's own rules must store one backslash; stored {Q11}",
    ),
    (
        Op::Say, Weight::Try, 0, 0, "",
        "PASS: NO_BACKSLASH_ESCAPES is honoured (default doubled it, the connection did not)", "",
    ),
];

/// A batched import script is itself a file that imports whole.
pub const BATCHED: [Row; 18] = [
    (Op::Do, Weight::Try, 99, 0, "{t58}", "", ""),
    (Op::Do, Weight::Leave, 13, 0, "{t59}", "", "create OQT_IMPORT_GEN_B: {z13}"),
    (Op::Do, Weight::Try, 99, 0, "COMMIT", "", ""),
    (
        Op::BuildData, Weight::Leave, 15, NUMBERED, "OQT_IMPORT_GEN_B", "",
        "build the batched script: {z15}",
    ),
    (
        Op::ParseText, Weight::Leave, 21, SQL_FORMAT, "{t15}", "",
        "the batched script did not parse: {z21}",
    ),
    (
        Op::ParsedNumbered, Weight::Demand, 21, 5, "", "",
        "the batched script read back as {Z21} of 5 rows: {R21}",
    ),
    (
        Op::BuildData, Weight::Leave, 15, PARSED, "OQT_IMPORT_GEN_B", "",
        "build the re-import script: {z15}",
    ),
    (Op::Script, Weight::Leave, 13, 0, "{t15}", "", "the re-import failed: {z13}"),
    (Op::Do, Weight::Try, 99, 0, "COMMIT", "", ""),
    (Op::Do, Weight::Leave, 11, 0, "SELECT COUNT(*) AS N FROM OQT_IMPORT_GEN_B", "", ""),
    (Op::Do, Weight::Try, 99, 0, "{t58}", "", ""),
    (Op::Do, Weight::Try, 99, 0, "COMMIT", "", ""),
    (
        Op::GridScalarIs, Weight::Leave, 11, 0, "5", "",
        "the re-imported batched script landed {B11} rows, expected 5",
    ),
    (
        Op::Say, Weight::Try, 0, 0, "",
        "PASS: every row of a batched import script survives being re-imported", "",
    ),
    (Op::Cleanup, Weight::Try, 0, 2, "", "", ""),
    (Op::Do, Weight::Try, 99, 0, "{t58}", "", ""),
    (Op::Settled, Weight::Try, 0, 0, "", "", ""),
    (
        Op::Say, Weight::Try, 0, 0, "",
        "\n----- round 8: the NULL text, blank lines, and a value no literal holds -----", "",
    ),
];

/// SQL NULL and the text NULL are different values, and a blank line is no row.
pub const NULL_TEXTS: [Row; 45] = [
    (Op::Do, Weight::Try, 99, 0, "{t44}", "", ""),
    (Op::Do, Weight::Leave, 13, 0, "{t45}", "", "create the NULL-text table: {z13}"),
    (
        Op::Do, Weight::Leave, 13, 0, "INSERT INTO OQT_IMPORT_NULLTEXT (SEQ, V) VALUES (1, 'NULL')",
        "", "seed the NULL-text table: {z13}",
    ),
    (
        Op::Do, Weight::Leave, 13, 0,
        "INSERT INTO OQT_IMPORT_NULLTEXT (SEQ, V) VALUES (2, 'plain')", "",
        "seed the NULL-text table: {z13}",
    ),
    (
        Op::Do, Weight::Leave, 13, 0, "INSERT INTO OQT_IMPORT_NULLTEXT (SEQ, V) VALUES (3, NULL)",
        "", "seed a real NULL: {z13}",
    ),
    (Op::Do, Weight::Try, 99, 0, "COMMIT", "", ""),
    (
        Op::ReadRows, Weight::Leave, 14, 0, "SELECT SEQ, V FROM OQT_IMPORT_NULLTEXT ORDER BY SEQ",
        "", "",
    ),
    (Op::ReadRowsAre, Weight::Leave, 14, 3, "", "", "expected 3 rows, got {Z14}"),
    (
        Op::NullTold, Weight::Leave, 14, 0, "", "",
        "the export read did not tell the string from the NULL: {R14}",
    ),
    (Op::FormatLabel, Weight::Try, 16, CSV_FORMAT, "", "", ""),
    (Op::RenderTable, Weight::Leave, 18, CSV_FORMAT, "OQT_IMPORT_NULLTEXT", "", "{t16}: {z18}"),
    (Op::ParseText, Weight::Leave, 21, CSV_FORMAT, "{t18}\n", "", "{t16}: {z21}"),
    (
        Op::ParsedRowsAre, Weight::Leave, 21, 3, "", "",
        "{t16}: a blank line became a row — {Z21} rows parsed from 3",
    ),
    (
        Op::ParsedCellIs, Weight::Leave, 21, 1, "NULL", "",
        "{t16}: the string NULL came back as {a21}",
    ),
    (Op::ParsedCellAbsent, Weight::Leave, 21, 21, "", "", "{t16}: a real NULL came back as {b21}"),
    (
        Op::BuildData, Weight::Leave, 15, PARSED, "OQT_IMPORT_NULLTEXT", "",
        "{t16}: build the script: {z15}",
    ),
    (Op::Do, Weight::Leave, 13, 0, "{t46}", "", "{t16}: clear: {z13}"),
    (Op::Script, Weight::Leave, 13, 0, "{t15}", "", "{t16}: import: {z13}"),
    (Op::Do, Weight::Try, 99, 0, "COMMIT", "", ""),
    (
        Op::Do, Weight::Leave, 11, 0,
        "SELECT COUNT(*) AS N FROM OQT_IMPORT_NULLTEXT WHERE V IS NULL", "",
        "{t16}: count NULLs: {z11}",
    ),
    (
        Op::CountTextIs, Weight::Leave, 11, 0, "1", "",
        "{t16}: the server sees {I11} NULL rows, expected exactly 1",
    ),
    (
        Op::Do, Weight::Leave, 11, 0,
        "SELECT COUNT(*) AS N FROM OQT_IMPORT_NULLTEXT WHERE V = 'NULL'", "",
        "{t16}: count the string: {z11}",
    ),
    (
        Op::CountTextIs, Weight::Leave, 11, 0, "1", "",
        "{t16}: the server sees {I11} rows holding the text NULL, expected exactly 1",
    ),
    (
        Op::Do, Weight::Leave, 11, 0, "SELECT COUNT(*) AS N FROM OQT_IMPORT_NULLTEXT", "",
        "{t16}: count rows: {z11}",
    ),
    (
        Op::CountTextIs, Weight::Leave, 11, 0, "3", "",
        "{t16}: the table holds {I11} rows, expected 3 — a blank line was imported",
    ),
    (
        Op::Say, Weight::Try, 0, 0, "",
        "PASS: {t16} keeps a real NULL, the text NULL, and no blank-line row", "",
    ),
    (Op::FormatLabel, Weight::Try, 16, TSV_FORMAT, "", "", ""),
    (Op::RenderTable, Weight::Leave, 18, TSV_FORMAT, "OQT_IMPORT_NULLTEXT", "", "{t16}: {z18}"),
    (Op::ParseText, Weight::Leave, 21, TSV_FORMAT, "{t18}\n", "", "{t16}: {z21}"),
    (
        Op::ParsedRowsAre, Weight::Leave, 21, 3, "", "",
        "{t16}: a blank line became a row — {Z21} rows parsed from 3",
    ),
    (
        Op::ParsedCellIs, Weight::Leave, 21, 1, "NULL", "",
        "{t16}: the string NULL came back as {a21}",
    ),
    (Op::ParsedCellAbsent, Weight::Leave, 21, 21, "", "", "{t16}: a real NULL came back as {b21}"),
    (
        Op::BuildData, Weight::Leave, 15, PARSED, "OQT_IMPORT_NULLTEXT", "",
        "{t16}: build the script: {z15}",
    ),
    (Op::Do, Weight::Leave, 13, 0, "{t46}", "", "{t16}: clear: {z13}"),
    (Op::Script, Weight::Leave, 13, 0, "{t15}", "", "{t16}: import: {z13}"),
    (Op::Do, Weight::Try, 99, 0, "COMMIT", "", ""),
    (
        Op::Do, Weight::Leave, 11, 0,
        "SELECT COUNT(*) AS N FROM OQT_IMPORT_NULLTEXT WHERE V IS NULL", "",
        "{t16}: count NULLs: {z11}",
    ),
    (
        Op::CountTextIs, Weight::Leave, 11, 0, "1", "",
        "{t16}: the server sees {I11} NULL rows, expected exactly 1",
    ),
    (
        Op::Do, Weight::Leave, 11, 0,
        "SELECT COUNT(*) AS N FROM OQT_IMPORT_NULLTEXT WHERE V = 'NULL'", "",
        "{t16}: count the string: {z11}",
    ),
    (
        Op::CountTextIs, Weight::Leave, 11, 0, "1", "",
        "{t16}: the server sees {I11} rows holding the text NULL, expected exactly 1",
    ),
    (
        Op::Do, Weight::Leave, 11, 0, "SELECT COUNT(*) AS N FROM OQT_IMPORT_NULLTEXT", "",
        "{t16}: count rows: {z11}",
    ),
    (
        Op::CountTextIs, Weight::Leave, 11, 0, "3", "",
        "{t16}: the table holds {I11} rows, expected 3 — a blank line was imported",
    ),
    (
        Op::Say, Weight::Try, 0, 0, "",
        "PASS: {t16} keeps a real NULL, the text NULL, and no blank-line row", "",
    ),
    (Op::Do, Weight::Try, 99, 0, "{t44}", "", ""),
    (Op::Do, Weight::Try, 99, 0, "COMMIT", "", ""),
];

/// A value no single literal can carry is refused by name.
pub const ORACLE_LITERALS: [Row; 26] = [
    (
        Op::LiteralFor, Weight::Leave, 18, BINARY_KIND, "{t09}", "",
        "a full RAW(2000) was refused: {z18}",
    ),
    (Op::LiteralFor, Weight::Try, 18, BINARY_KIND, "{t09}CD", "", ""),
    (
        Op::IsFailed, Weight::Leave, 18, 0, "", "",
        "a value past the literal limit was written anyway",
    ),
    (Op::Do, Weight::Try, 99, 0, "{t47}", "", ""),
    (
        Op::Do, Weight::Leave, 13, 0,
        "CREATE TABLE OQT_IMPORT_LONGVAL (ID NUMBER, R RAW(2000), B BLOB)", "",
        "create the long-value table: {z13}",
    ),
    (Op::LiteralFor, Weight::Leave, 18, BINARY_KIND, "{t09}", "", ""),
    (
        Op::Do, Weight::Leave, 13, 0, "INSERT INTO OQT_IMPORT_LONGVAL (ID, R) VALUES (1, {t18})",
        "", "the server refused a full RAW(2000) literal: {z13}",
    ),
    (Op::Do, Weight::Try, 99, 0, "COMMIT", "", ""),
    (
        Op::Say, Weight::Try, 0, 0, "",
        "PASS: a full RAW(2000) is still written and the server takes it", "",
    ),
    (
        Op::Do, Weight::Leave, 13, 0,
        "DECLARE b BLOB; BEGIN DBMS_LOB.CREATETEMPORARY(b, TRUE); FOR i IN 1..3 LOOP DBMS_LOB.APPEND(b, TO_BLOB(UTL_RAW.CAST_TO_RAW(RPAD('A', 1000, 'A')))); END LOOP; INSERT INTO OQT_IMPORT_LONGVAL (ID, B) VALUES (2, b); END;",
        "", "seed a 3000-byte BLOB: {z13}",
    ),
    (Op::Do, Weight::Try, 99, 0, "COMMIT", "", ""),
    (
        Op::Do, Weight::Leave, 11, 0, "SELECT ID, B FROM OQT_IMPORT_LONGVAL WHERE ID = 2", "",
        "select the BLOB: {z11}",
    ),
    (Op::GridOpened, Weight::Leave, 11, 0, "", "", "the BLOB SELECT produced no columns"),
    (Op::GridCellWidth, Weight::Leave, 11, 6000, "", "", ""),
    (Op::RefuseInserts, Weight::Try, 19, 11, "OQT_IMPORT_LONGVAL", "", ""),
    (
        Op::TextPresent, Weight::Leave, 19, 0, "", "",
        "the SQL Inserts export wrote a file no server can run",
    ),
    (Op::WordsHold, Weight::Leave, 19, 0, "Row 1", "", "the refusal does not name the cell: {t19}"),
    (Op::WordsHold, Weight::Leave, 19, 0, "B", "", "the refusal does not name the cell: {t19}"),
    (Op::Say, Weight::Try, 0, 0, "", "PASS: the export refuses the BLOB by name — {t19}", ""),
    (Op::BuildData, Weight::Try, 15, ONE_B, "OQT_IMPORT_LONGVAL", "", ""),
    (Op::SkipIfFailed, Weight::Try, 15, 2, "", "", ""),
    (Op::RunScript, Weight::Leave, 12, 0, "{t15}", "", ""),
    (
        Op::Never, Weight::Leave, 12, 0, "", "",
        "the import built a script the server answered with {O12}",
    ),
    (
        Op::Say, Weight::Try, 0, 0, "", "PASS: the import refuses it before anything runs — {t15}",
        "",
    ),
    (Op::Do, Weight::Try, 99, 0, "{t47}", "", ""),
    (Op::Do, Weight::Try, 99, 0, "COMMIT", "", ""),
];

/// There is no limit on a literal here.
pub const MYSQL_LITERALS: [Row; 3] = [
    (
        Op::LiteralFor, Weight::Leave, 18, UNKNOWN_KIND, "{t08}", "",
        "the MySQL family refused a Unknown value: {z18}",
    ),
    (
        Op::LiteralFor, Weight::Leave, 18, BINARY_KIND, "{t08}", "",
        "the MySQL family refused a Binary value: {z18}",
    ),
    (
        Op::Say, Weight::Try, 0, 0, "",
        "PASS: this family has no per-literal limit and writes the value", "",
    ),
];

/// A column no `SELECT *` returns claims no position in a file.
pub const INVISIBLE: [Row; 22] = [
    (Op::Say, Weight::Try, 0, 0, "", "\n----- round 9: a column `SELECT *` leaves out -----", ""),
    (Op::Do, Weight::Try, 99, 0, "{t42}", "", ""),
    (Op::Do, Weight::Leave, 13, 0, "{t43}", "", "create a table with an invisible column: {z13}"),
    (Op::Do, Weight::Try, 99, 0, "COMMIT", "", ""),
    (
        Op::ReadRows, Weight::Leave, 14, 0, "SELECT * FROM OQT_IMPORT_INVIS",
        "  SELECT * returns {L14}", "",
    ),
    (
        Op::ReadColumnsAre, Weight::Demand, 14, 0, "A|C", "",
        "this server does not hide an INVISIBLE column from SELECT *: {L14}",
    ),
    (Op::ReadStructure, Weight::Leave, 16, 0, "OQT_IMPORT_INVIS", "", ""),
    (Op::ImportTargets, Weight::Try, 17, 16, "", "  catalog reports {I16}, targets {L17}", ""),
    (Op::Offers, Weight::Demand, 17, 0, "B", "", "an invisible column must stay an import target"),
    (
        Op::BuildData, Weight::Leave, 15, HEADERLESS, "OQT_IMPORT_INVIS", "  {H15}",
        "build the headerless import script: {z15}",
    ),
    (Op::Script, Weight::Leave, 13, 0, "{t15}", "", "the headerless import failed: {z13}"),
    (Op::Do, Weight::Try, 99, 0, "COMMIT", "", ""),
    (
        Op::Do, Weight::Leave, 11, 0,
        "SELECT COUNT(*) AS N FROM OQT_IMPORT_INVIS WHERE A = 100 AND C = 300 AND B IS NULL", "",
        "",
    ),
    (Op::SkipIfCounted, Weight::Try, 11, 2, "1", "", ""),
    (Op::Do, Weight::Leave, 12, 0, "SELECT A, B, C FROM OQT_IMPORT_INVIS", "", ""),
    (
        Op::Never, Weight::Demand, 12, 0, "", "",
        "the file's second value did not reach C — the row landed as {S12}",
    ),
    (
        Op::Say, Weight::Try, 0, 0, "",
        "PASS: a column SELECT * omits takes no file position, and stays a target", "",
    ),
    (
        Op::Do, Weight::Leave, 13, 0, "INSERT INTO OQT_IMPORT_INVIS (A, B, C) VALUES (1, 2, 3)", "",
        "an explicit INSERT into an invisible column failed: {z13}",
    ),
    (Op::Do, Weight::Try, 99, 0, "COMMIT", "", ""),
    (
        Op::Do, Weight::Leave, 11, 0, "SELECT COUNT(*) AS N FROM OQT_IMPORT_INVIS WHERE B = 2", "",
        "",
    ),
    (
        Op::CountTextIs, Weight::Demand, 11, 0, "1", "",
        "an explicit value did not reach the invisible column",
    ),
    (Op::Say, Weight::Try, 0, 0, "", "PASS: an invisible column really is writable by name", ""),
];

/// DESCRIBE reads the same columns.
pub const ORACLE_DESCRIBE: [Row; 3] = [
    (
        Op::Do, Weight::Leave, 11, 0, "DESC OQT_IMPORT_INVIS", "",
        "DESCRIBE reads the same catalog columns: {z11}",
    ),
    (Op::FirstColumnHas, Weight::Demand, 11, 0, "A", "", "DESCRIBE returned {M11}"),
    (Op::Say, Weight::Try, 0, 0, "", "PASS: DESCRIBE reads the same catalog columns ({M11})", ""),
];

/// The last table is dropped.
pub const CLOSING: [Row; 5] = [
    (Op::Do, Weight::Try, 99, 0, "{t42}", "", ""),
    (Op::Do, Weight::Try, 99, 0, "COMMIT", "", ""),
    (Op::Cleanup, Weight::Try, 0, 2, "", "", ""),
    (Op::Do, Weight::Try, 99, 0, "{t42}", "", ""),
    (Op::Settled, Weight::Try, 0, 0, "", "", ""),
];

} // verus!
