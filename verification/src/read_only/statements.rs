//! Laws of the statements of the read-only probe: what reads and what writes are
//! kept apart.
use vstd::prelude::*;
use vstd::string::*;

use crate::read_only::tables::{MYSQL_READS, ORACLE_READS};
use crate::read_only::Target;
use crate::text::{begins_with, lacks, nothing_to_replace, replaced, stands_at};

verus! {

/// A mark, in the first characters, by which the reads are told from the writes.
spec fn reads_like(s: Seq<char>) -> bool {
    ||| s[0] == 'S' && s[1] == 'H'
    ||| s[0] == 'S' && s[1] == 'E' && (s[7] == 'I' || s[7] == 'a' || s[7] == '1' && s[20] == 'S')
    ||| s[0] == 'W'
    ||| s[0] == 'C' && s[2] == 'M'
    ||| s[0] == 'R' && s[1] == 'O'
    ||| s[0] == 'A' && s[6] == 'S'
    ||| s[0] == 'U' && s[1] == 'S'
    ||| s[0] == 'D' && s[2] == 'S'
    ||| s[0] == 'E' && s[8] == 'S'
}

proof fn lemma_marks_of_writes(target: Target, k: int)
    requires
        0 <= k < target.write_list().len(),
    ensures
        !reads_like(target.write_list()[k].1@),
        target.write_list()[k].1@.len() > 0,
        !target.oracle() ==> target.write_list()[k].1@[0] != 'E',
{
    reveal_strlit("INSERT INTO OQT_READ_ONLY (ID, NAME) VALUES (99, 'NEW')");
    reveal_strlit("UPDATE OQT_READ_ONLY SET NAME = 'CHANGED'");
    reveal_strlit("DELETE FROM OQT_READ_ONLY");
    reveal_strlit("SELECT 1 FROM DUAL; DELETE FROM OQT_READ_ONLY");
    reveal_strlit("/* SELECT */ DELETE FROM OQT_READ_ONLY");
    reveal_strlit("CREATE TABLE OQT_READ_ONLY_X (ID INT)");
    reveal_strlit("DROP TABLE OQT_READ_ONLY");
    reveal_strlit("TRUNCATE TABLE OQT_READ_ONLY");
    reveal_strlit("ALTER TABLE OQT_READ_ONLY ADD EXTRA_COL INT");
    reveal_strlit("SELECT * FROM OQT_READ_ONLY FOR UPDATE");
    reveal_strlit("BEGIN DELETE FROM OQT_READ_ONLY; END;");
    reveal_strlit("DECLARE n NUMBER; BEGIN DELETE FROM OQT_READ_ONLY; END;");
    reveal_strlit("MERGE INTO OQT_READ_ONLY t USING (SELECT 1 AS ID FROM DUAL) s ON (t.ID = s.ID) WHEN MATCHED THEN UPDATE SET t.NAME = 'MERGED'");
    reveal_strlit("INSERT ALL INTO OQT_READ_ONLY (ID, NAME) VALUES (97, 'A') INTO OQT_READ_ONLY (ID, NAME) VALUES (98, 'B') SELECT 1 FROM DUAL");
    reveal_strlit("CREATE OR REPLACE PROCEDURE OQT_READ_ONLY_P AS BEGIN NULL; END;");
    reveal_strlit("GRANT SELECT ON OQT_READ_ONLY TO PUBLIC");
    reveal_strlit("EXPLAIN PLAN FOR SELECT * FROM OQT_READ_ONLY");
    reveal_strlit("@somewhere.sql");
    reveal_strlit("CONNECT other/pw@127.0.0.1:1521/FREE");
    reveal_strlit("REPLACE INTO OQT_READ_ONLY (ID, NAME) VALUES (1, 'REPLACED')");
    reveal_strlit("INSERT INTO OQT_READ_ONLY (ID, NAME) VALUES (1, 'X') ON DUPLICATE KEY UPDATE NAME = 'DUP'");
    reveal_strlit("/*! DELETE FROM OQT_READ_ONLY */");
    reveal_strlit("RENAME TABLE OQT_READ_ONLY TO OQT_READ_ONLY_X");
    reveal_strlit("CREATE PROCEDURE OQT_READ_ONLY_P() BEGIN SELECT 1; END");
}

/// What stands before the first character of what is replaced stays where it is.
proof fn lemma_replaced_head(s: Seq<char>, from: Seq<char>, to: Seq<char>, n: int)
    requires
        from.len() > 0,
        0 <= n <= s.len(),
        forall|j: int| 0 <= j < n ==> #[trigger] s[j] != from[0],
    ensures
        n <= replaced(s, from, to).len(),
        forall|j: int| 0 <= j < n ==> #[trigger] replaced(s, from, to)[j] == s[j],
    decreases s.len(),
{
    if n > 0 {
        if stands_at(s, from, 0) {
            assert(s.subrange(0, from.len() as int)[0] == from[0]);
            assert(s[0] == from[0]);
        }
        let rest = s.drop_first();
        assert forall|j: int| 0 <= j < n - 1 implies #[trigger] rest[j] != from[0] by {
            assert(rest[j] == s[j + 1]);
        }
        lemma_replaced_head(rest, from, to, n - 1);
        assert forall|j: int| 0 <= j < n implies #[trigger] replaced(s, from, to)[j] == s[j] by {
            if j > 0 {
                assert(replaced(s, from, to)[j] == replaced(rest, from, to)[j - 1]);
                assert(rest[j - 1] == s[j]);
            }
        }
    }
}

proof fn lemma_marks_of_reads(target: Target, schema: Seq<char>, i: int)
    requires
        0 <= i < target.read_list(schema).len(),
    ensures
        reads_like(target.read_list(schema)[i].1),
        target.read_list(schema)[i].1.len() > 0,
        target.oracle() ==> target.read_list(schema)[i].1[0] != 'E',
{
    reveal_strlit("{t06}");
    reveal_strlit("SELECT ID, NAME FROM OQT_READ_ONLY ORDER BY ID");
    reveal_strlit("WITH t AS (SELECT ID FROM OQT_READ_ONLY) SELECT COUNT(*) AS N FROM t");
    reveal_strlit("SELECT 1 FROM DUAL; SELECT 2 FROM DUAL");
    reveal_strlit("SELECT a.ID, (SELECT COUNT(*) FROM OQT_READ_ONLY) AS N FROM OQT_READ_ONLY a JOIN OQT_READ_ONLY b ON a.ID = b.ID");
    reveal_strlit("COMMIT");
    reveal_strlit("ROLLBACK");
    reveal_strlit("ALTER SESSION SET CURRENT_SCHEMA = {t06}");
    reveal_strlit("SHOW TABLES");
    reveal_strlit("USE {t06}");
    reveal_strlit("DESCRIBE OQT_READ_ONLY");
    reveal_strlit("EXPLAIN SELECT * FROM OQT_READ_ONLY");
    let list = if target.oracle() { ORACLE_READS@ } else { MYSQL_READS@ };
    let text = list[i].1@;
    let n = if text.len() < 21 {
        if text[0] == 'U' { 4 } else { text.len() as int }
    } else {
        21
    };
    assert forall|j: int| 0 <= j < n implies #[trigger] text[j] != '{' by {
        assert(j < 21);
    }
    lemma_replaced_head(text, "{t06}"@, schema, n);
    let read = replaced(text, "{t06}"@, schema);
    assert(read[0] == text[0]);
    assert(read[1] == text[1]);
    assert(read[2] == text[2]);
    if n > 6 {
        assert(read[6] == text[6]);
    }
    if n > 8 {
        assert(read[7] == text[7]);
        assert(read[8] == text[8]);
    }
    if n > 20 {
        assert(read[20] == text[20]);
    }
}

/// No statement that must run on a read-only connection is one that must be
/// refused there, whatever the schema.
pub proof fn no_read_is_a_write(target: Target, schema: Seq<char>, i: int, k: int)
    requires
        0 <= i < target.read_list(schema).len(),
        0 <= k < target.write_list().len(),
    ensures
        target.read_list(schema)[i].1 != target.write_list()[k].1@,
{
    lemma_marks_of_reads(target, schema, i);
    lemma_marks_of_writes(target, k);
}

/// On Oracle `EXPLAIN PLAN` writes, and no `EXPLAIN` stands among the reads;
/// elsewhere `EXPLAIN` reads, and none stands among the writes.
pub proof fn explain_writes_on_oracle_alone(target: Target, schema: Seq<char>)
    ensures
        target.oracle() ==> {
            &&& exists|k: int|
                0 <= k < target.write_list().len() && #[trigger] target.write_list()[k].1@
                    == "EXPLAIN PLAN FOR SELECT * FROM OQT_READ_ONLY"@
            &&& forall|i: int|
                0 <= i < target.read_list(schema).len() ==> !begins_with(
                    #[trigger] target.read_list(schema)[i].1,
                    "EXPLAIN"@,
                )
        },
        !target.oracle() ==> {
            &&& exists|i: int|
                0 <= i < target.read_list(schema).len() && #[trigger] target.read_list(schema)[i].1
                    == "EXPLAIN SELECT * FROM OQT_READ_ONLY"@
            &&& forall|k: int|
                0 <= k < target.write_list().len() ==> !begins_with(
                    #[trigger] target.write_list()[k].1@,
                    "EXPLAIN"@,
                )
        },
{
    reveal_strlit("EXPLAIN");
    if target.oracle() {
        assert(target.write_list()[16].1@ == "EXPLAIN PLAN FOR SELECT * FROM OQT_READ_ONLY"@);
        assert forall|i: int| 0 <= i < target.read_list(schema).len() implies !begins_with(
            #[trigger] target.read_list(schema)[i].1,
            "EXPLAIN"@,
        ) by {
            lemma_marks_of_reads(target, schema, i);
            let s = target.read_list(schema)[i].1;
            if begins_with(s, "EXPLAIN"@) {
                assert(s.subrange(0, 7)[0] == 'E');
            }
        }
    } else {
        let text = "EXPLAIN SELECT * FROM OQT_READ_ONLY"@;
        reveal_strlit("EXPLAIN SELECT * FROM OQT_READ_ONLY");
        reveal_strlit("{t06}");
        assert(lacks(text, '{'));
        nothing_to_replace(text, "{t06}"@, schema);
        assert(target.read_list(schema)[9].1 == text);
        assert forall|k: int| 0 <= k < target.write_list().len() implies !begins_with(
            #[trigger] target.write_list()[k].1@,
            "EXPLAIN"@,
        ) by {
            lemma_marks_of_writes(target, k);
            let s = target.write_list()[k].1@;
            if begins_with(s, "EXPLAIN"@) {
                assert(s.subrange(0, 7)[0] == 'E');
            }
        }
    }
}

} // verus!
