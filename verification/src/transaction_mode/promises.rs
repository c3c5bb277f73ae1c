//! What the probe of transaction modes has seen of its promises where it passed: a
//! read-only pin refuses every write, and one transaction sees one snapshot.
use vstd::prelude::*;
use vstd::string::*;

use crate::course::{
    clean, in_a_clean_run_every_test_held, keeping_adds_up, keeps_to, leaves_nothing_out,
    memory_keeps_its_size, passes, skips, state_at, writes,
};
use crate::laws::events::{finished, is_first, the_first_and_the_last_statement};
use crate::laws::outcome::{
    a_row_out_of_reach_was_stood_at, a_run_that_passed_goes_on, an_answer_stands_until_then,
    lemma_snapshot_seen, passed, saw_one_snapshot, was_answered,
};
use crate::laws::runs::{a_refusal_is_a_failure_that_says_so, the_first_statement_is_tested};
use crate::machine::{course, given, kept, opening, quiet_steps, Course, Row, Weight};
use crate::op::{class, Class, Op, DEFAULT_MODE, READ_ONLY};
use crate::progress::{results, QueryProgress, TransactionIsolation};
use crate::seen::{at, events, Seen};
use crate::template::fill;
use crate::transaction_mode::laws::{
    lemma_levels_keep, lemma_pairs_keep, lemma_tables_1, lemma_tables_10, lemma_tables_2,
    lemma_tables_3, lemma_tables_4, lemma_tables_5, lemma_tables_6, lemma_tables_7, lemma_tables_8,
    lemma_tables_9,
};
use crate::transaction_mode::tables::{
    AUTO_COMMIT_BACK, CLOSING, MARIADB_ROLLBACK, MYSQL_SETUP, MYSQL_TEARDOWN, OPENING, ORACLE_SETUP,
    ORACLE_TEARDOWN, S10, S11, S11_SNAPSHOT, S11_VARIABLE, S12, S13, S13_ORACLE, S14, S15, S16, S17,
    S18, S18_READS, S19, S1_PIN, S1_VARIABLE, S1_WRITE, S2, S20, S21, S22, S23, S24, S25, S26, S27,
    S28, S29, S30, S30_LEAK, S30_MYSQL, S30_ORACLE, S31, S31_LEAK, S32, S32_VARIABLE, S32_WRITE,
    S33, S33_XA, S34, S34_READS, S35, S35_LEAK, S35_MARIADB, S36, S36_ONE_SHOT, S37, S38, S39,
    S3_TRANSACTION, S3_VARIABLE, S4, S40, S4_MYSQL, S4_ORACLE, S5, S6, S7, S8, S9,
    SNAPSHOT_PIN_MYSQL, SNAPSHOT_PIN_ORACLE, UNPINNING,
};
use crate::transaction_mode::{
    every_level, every_pair, scenarios, setup_steps, whole_run, Target, SLOTS,
};

verus! {

/// Whether some rows stand in others behind rows that keep to themselves.
pub open spec fn stands_kept(part: Seq<Row>, rows: Seq<Row>) -> bool {
    exists|k: int| #[trigger] stands_kept_at(part, rows, k)
}

pub open spec fn stands_kept_at(part: Seq<Row>, rows: Seq<Row>, k: int) -> bool {
    &&& 0 <= k
    &&& k + part.len() <= rows.len()
    &&& keeps_to(rows.take(k))
    &&& rows.subrange(k, k + part.len()) == part
}

pub proof fn lemma_begins(before: Seq<Row>, part: Seq<Row>)
    requires
        keeps_to(before),
    ensures
        stands_kept(part, before + part),
{
    let all = before + part;
    assert(all.take(before.len() as int) =~= before);
    assert(all.subrange(before.len() as int, (before.len() + part.len()) as int) =~= part);
    assert(stands_kept_at(part, all, before.len() as int));
}

pub proof fn lemma_grows(part: Seq<Row>, rows: Seq<Row>, more: Seq<Row>)
    requires
        stands_kept(part, rows),
    ensures
        stands_kept(part, rows + more),
{
    let k = choose|k: int| #[trigger] stands_kept_at(part, rows, k);
    let all = rows + more;
    assert(all.take(k) =~= rows.take(k));
    assert(all.subrange(k, k + part.len()) =~= rows.subrange(k, k + part.len()));
    assert(stands_kept_at(part, all, k));
}

proof fn lemma_grows_by_eight(
    part: Seq<Row>,
    rows: Seq<Row>,
    a: Seq<Row>,
    b: Seq<Row>,
    c: Seq<Row>,
    d: Seq<Row>,
    e: Seq<Row>,
    f: Seq<Row>,
    g: Seq<Row>,
    h: Seq<Row>,
)
    requires
        stands_kept(part, rows),
    ensures
        stands_kept(part, rows + a + b + c + d + e + f + g + h),
{
    lemma_grows(part, rows, a);
    lemma_grows(part, rows + a, b);
    lemma_grows(part, rows + a + b, c);
    lemma_grows(part, rows + a + b + c, d);
    lemma_grows(part, rows + a + b + c + d, e);
    lemma_grows(part, rows + a + b + c + d + e, f);
    lemma_grows(part, rows + a + b + c + d + e + f, g);
    lemma_grows(part, rows + a + b + c + d + e + f + g, h);
}

#[verifier::rlimit(40)]
proof fn lemma_s1_write_stands(target: Target, offered: Seq<TransactionIsolation>)
    ensures
        stands_kept(S1_WRITE@, scenarios(target, offered)),
{
    lemma_tables_1();
    let s0 = S1_PIN@;
    let p1 = given(!target.oracle(), S1_VARIABLE@);
    keeping_adds_up(s0, p1);
    let s1 = s0 + p1;
    let part = S1_WRITE@;
    lemma_begins(s1, part);
    let s2 = s1 + part;
    lemma_grows_by_eight(
        part,
        s2,
        S2@,
        given(!target.oracle(), S3_VARIABLE@),
        given(target.oracle(), S3_TRANSACTION@),
        S4@,
        given(target.oracle(), S4_ORACLE@),
        given(!target.oracle(), S4_MYSQL@),
        given(!target.oracle(), S5@),
        given(target.oracle(), S6@),
    );
    let s10 = s2
        + S2@
        + given(!target.oracle(), S3_VARIABLE@)
        + given(target.oracle(), S3_TRANSACTION@)
        + S4@
        + given(target.oracle(), S4_ORACLE@)
        + given(!target.oracle(), S4_MYSQL@)
        + given(!target.oracle(), S5@)
        + given(target.oracle(), S6@);
    lemma_grows_by_eight(
        part,
        s10,
        S10@,
        S11@,
        given(!target.oracle(), S11_VARIABLE@),
        given(target.oracle(), S11_SNAPSHOT@),
        S12@,
        S13@,
        given(target.oracle(), S13_ORACLE@),
        S7@,
    );
    let s18 = s10
        + S10@
        + S11@
        + given(!target.oracle(), S11_VARIABLE@)
        + given(target.oracle(), S11_SNAPSHOT@)
        + S12@
        + S13@
        + given(target.oracle(), S13_ORACLE@)
        + S7@;
    lemma_grows_by_eight(
        part,
        s18,
        S14@,
        S15@,
        given(!target.oracle(), S16@),
        S17@,
        S18@,
        given(target.oracle(), SNAPSHOT_PIN_ORACLE@),
        given(!target.oracle(), SNAPSHOT_PIN_MYSQL@),
        S18_READS@,
    );
    let s26 = s18
        + S14@
        + S15@
        + given(!target.oracle(), S16@)
        + S17@
        + S18@
        + given(target.oracle(), SNAPSHOT_PIN_ORACLE@)
        + given(!target.oracle(), SNAPSHOT_PIN_MYSQL@)
        + S18_READS@;
    lemma_grows_by_eight(
        part,
        s26,
        S19@,
        S20@,
        S21@,
        S22@,
        S23@,
        S24@,
        given(!target.oracle(), S25@),
        S9@,
    );
    let s34 = s26
        + S19@
        + S20@
        + S21@
        + S22@
        + S23@
        + S24@
        + given(!target.oracle(), S25@)
        + S9@;
    lemma_grows_by_eight(
        part,
        s34,
        S26@,
        S27@,
        S28@,
        every_level(target, offered),
        S29@,
        S30@,
        given(target.oracle(), S30_ORACLE@),
        given(!target.oracle(), S30_MYSQL@),
    );
    let s42 = s34
        + S26@
        + S27@
        + S28@
        + every_level(target, offered)
        + S29@
        + S30@
        + given(target.oracle(), S30_ORACLE@)
        + given(!target.oracle(), S30_MYSQL@);
    lemma_grows_by_eight(
        part,
        s42,
        S30_LEAK@,
        S31@,
        every_pair(10),
        S31_LEAK@,
        S32@,
        given(!target.oracle(), S32_VARIABLE@),
        S32_WRITE@,
        S40@,
    );
    let s50 = s42
        + S30_LEAK@
        + S31@
        + every_pair(10)
        + S31_LEAK@
        + S32@
        + given(!target.oracle(), S32_VARIABLE@)
        + S32_WRITE@
        + S40@;
    lemma_grows_by_eight(
        part,
        s50,
        given(!target.oracle(), S33@),
        given(target == Target::MariaDb, MARIADB_ROLLBACK@),
        given(!target.oracle(), S33_XA@),
        S34@,
        given(target.oracle(), SNAPSHOT_PIN_ORACLE@),
        given(!target.oracle(), SNAPSHOT_PIN_MYSQL@),
        S34_READS@,
        given(!target.oracle(), S35@),
    );
    let s58 = s50
        + given(!target.oracle(), S33@)
        + given(target == Target::MariaDb, MARIADB_ROLLBACK@)
        + given(!target.oracle(), S33_XA@)
        + S34@
        + given(target.oracle(), SNAPSHOT_PIN_ORACLE@)
        + given(!target.oracle(), SNAPSHOT_PIN_MYSQL@)
        + S34_READS@
        + given(!target.oracle(), S35@);
    lemma_grows_by_eight(
        part,
        s58,
        given(target == Target::MariaDb, S35_MARIADB@),
        given(!target.oracle(), S35_LEAK@),
        given(!target.oracle(), S36@),
        given(target == Target::MariaDb, MARIADB_ROLLBACK@),
        given(!target.oracle(), S36_ONE_SHOT@),
        given(target.oracle(), S37@),
        S38@,
        given(!target.oracle(), S39@),
    );
    let s66 = s58
        + given(target == Target::MariaDb, S35_MARIADB@)
        + given(!target.oracle(), S35_LEAK@)
        + given(!target.oracle(), S36@)
        + given(target == Target::MariaDb, MARIADB_ROLLBACK@)
        + given(!target.oracle(), S36_ONE_SHOT@)
        + given(target.oracle(), S37@)
        + S38@
        + given(!target.oracle(), S39@);
    lemma_grows(part, s66, AUTO_COMMIT_BACK@);
    let s67 = s66 + AUTO_COMMIT_BACK@;
    lemma_grows(part, s67, given(target.oracle(), S8@));
    let s68 = s67 + given(target.oracle(), S8@);
    assert(s68 == scenarios(target, offered));
}

#[verifier::rlimit(40)]
proof fn lemma_s14_stands(target: Target, offered: Seq<TransactionIsolation>)
    ensures
        stands_kept(S14@, scenarios(target, offered)),
{
    lemma_tables_1();
    lemma_tables_2();
    lemma_tables_3();
    let s0 = S1_PIN@;
    let p1 = given(!target.oracle(), S1_VARIABLE@);
    keeping_adds_up(s0, p1);
    let s1 = s0 + p1;
    let p2 = S1_WRITE@;
    keeping_adds_up(s1, p2);
    let s2 = s1 + p2;
    let p3 = S2@;
    keeping_adds_up(s2, p3);
    let s3 = s2 + p3;
    let p4 = given(!target.oracle(), S3_VARIABLE@);
    keeping_adds_up(s3, p4);
    let s4 = s3 + p4;
    let p5 = given(target.oracle(), S3_TRANSACTION@);
    keeping_adds_up(s4, p5);
    let s5 = s4 + p5;
    let p6 = S4@;
    keeping_adds_up(s5, p6);
    let s6 = s5 + p6;
    let p7 = given(target.oracle(), S4_ORACLE@);
    keeping_adds_up(s6, p7);
    let s7 = s6 + p7;
    let p8 = given(!target.oracle(), S4_MYSQL@);
    keeping_adds_up(s7, p8);
    let s8 = s7 + p8;
    let p9 = given(!target.oracle(), S5@);
    keeping_adds_up(s8, p9);
    let s9 = s8 + p9;
    let p10 = given(target.oracle(), S6@);
    keeping_adds_up(s9, p10);
    let s10 = s9 + p10;
    let p11 = S10@;
    keeping_adds_up(s10, p11);
    let s11 = s10 + p11;
    let p12 = S11@;
    keeping_adds_up(s11, p12);
    let s12 = s11 + p12;
    let p13 = given(!target.oracle(), S11_VARIABLE@);
    keeping_adds_up(s12, p13);
    let s13 = s12 + p13;
    let p14 = given(target.oracle(), S11_SNAPSHOT@);
    keeping_adds_up(s13, p14);
    let s14 = s13 + p14;
    let p15 = S12@;
    keeping_adds_up(s14, p15);
    let s15 = s14 + p15;
    let p16 = S13@;
    keeping_adds_up(s15, p16);
    let s16 = s15 + p16;
    let p17 = given(target.oracle(), S13_ORACLE@);
    keeping_adds_up(s16, p17);
    let s17 = s16 + p17;
    let p18 = S7@;
    keeping_adds_up(s17, p18);
    let s18 = s17 + p18;
    let part = S14@;
    lemma_begins(s18, part);
    let s19 = s18 + part;
    lemma_grows_by_eight(
        part,
        s19,
        S15@,
        given(!target.oracle(), S16@),
        S17@,
        S18@,
        given(target.oracle(), SNAPSHOT_PIN_ORACLE@),
        given(!target.oracle(), SNAPSHOT_PIN_MYSQL@),
        S18_READS@,
        S19@,
    );
    let s27 = s19
        + S15@
        + given(!target.oracle(), S16@)
        + S17@
        + S18@
        + given(target.oracle(), SNAPSHOT_PIN_ORACLE@)
        + given(!target.oracle(), SNAPSHOT_PIN_MYSQL@)
        + S18_READS@
        + S19@;
    lemma_grows_by_eight(
        part,
        s27,
        S20@,
        S21@,
        S22@,
        S23@,
        S24@,
        given(!target.oracle(), S25@),
        S9@,
        S26@,
    );
    let s35 = s27
        + S20@
        + S21@
        + S22@
        + S23@
        + S24@
        + given(!target.oracle(), S25@)
        + S9@
        + S26@;
    lemma_grows_by_eight(
        part,
        s35,
        S27@,
        S28@,
        every_level(target, offered),
        S29@,
        S30@,
        given(target.oracle(), S30_ORACLE@),
        given(!target.oracle(), S30_MYSQL@),
        S30_LEAK@,
    );
    let s43 = s35
        + S27@
        + S28@
        + every_level(target, offered)
        + S29@
        + S30@
        + given(target.oracle(), S30_ORACLE@)
        + given(!target.oracle(), S30_MYSQL@)
        + S30_LEAK@;
    lemma_grows_by_eight(
        part,
        s43,
        S31@,
        every_pair(10),
        S31_LEAK@,
        S32@,
        given(!target.oracle(), S32_VARIABLE@),
        S32_WRITE@,
        S40@,
        given(!target.oracle(), S33@),
    );
    let s51 = s43
        + S31@
        + every_pair(10)
        + S31_LEAK@
        + S32@
        + given(!target.oracle(), S32_VARIABLE@)
        + S32_WRITE@
        + S40@
        + given(!target.oracle(), S33@);
    lemma_grows_by_eight(
        part,
        s51,
        given(target == Target::MariaDb, MARIADB_ROLLBACK@),
        given(!target.oracle(), S33_XA@),
        S34@,
        given(target.oracle(), SNAPSHOT_PIN_ORACLE@),
        given(!target.oracle(), SNAPSHOT_PIN_MYSQL@),
        S34_READS@,
        given(!target.oracle(), S35@),
        given(target == Target::MariaDb, S35_MARIADB@),
    );
    let s59 = s51
        + given(target == Target::MariaDb, MARIADB_ROLLBACK@)
        + given(!target.oracle(), S33_XA@)
        + S34@
        + given(target.oracle(), SNAPSHOT_PIN_ORACLE@)
        + given(!target.oracle(), SNAPSHOT_PIN_MYSQL@)
        + S34_READS@
        + given(!target.oracle(), S35@)
        + given(target == Target::MariaDb, S35_MARIADB@);
    lemma_grows_by_eight(
        part,
        s59,
        given(!target.oracle(), S35_LEAK@),
        given(!target.oracle(), S36@),
        given(target == Target::MariaDb, MARIADB_ROLLBACK@),
        given(!target.oracle(), S36_ONE_SHOT@),
        given(target.oracle(), S37@),
        S38@,
        given(!target.oracle(), S39@),
        AUTO_COMMIT_BACK@,
    );
    let s67 = s59
        + given(!target.oracle(), S35_LEAK@)
        + given(!target.oracle(), S36@)
        + given(target == Target::MariaDb, MARIADB_ROLLBACK@)
        + given(!target.oracle(), S36_ONE_SHOT@)
        + given(target.oracle(), S37@)
        + S38@
        + given(!target.oracle(), S39@)
        + AUTO_COMMIT_BACK@;
    lemma_grows(part, s67, given(target.oracle(), S8@));
    let s68 = s67 + given(target.oracle(), S8@);
    assert(s68 == scenarios(target, offered));
}

#[verifier::rlimit(40)]
proof fn lemma_s18_reads_stands(target: Target, offered: Seq<TransactionIsolation>)
    ensures
        stands_kept(S18_READS@, scenarios(target, offered)),
{
    lemma_tables_1();
    lemma_tables_2();
    lemma_tables_3();
    lemma_tables_4();
    lemma_tables_5();
    let s0 = S1_PIN@;
    let p1 = given(!target.oracle(), S1_VARIABLE@);
    keeping_adds_up(s0, p1);
    let s1 = s0 + p1;
    let p2 = S1_WRITE@;
    keeping_adds_up(s1, p2);
    let s2 = s1 + p2;
    let p3 = S2@;
    keeping_adds_up(s2, p3);
    let s3 = s2 + p3;
    let p4 = given(!target.oracle(), S3_VARIABLE@);
    keeping_adds_up(s3, p4);
    let s4 = s3 + p4;
    let p5 = given(target.oracle(), S3_TRANSACTION@);
    keeping_adds_up(s4, p5);
    let s5 = s4 + p5;
    let p6 = S4@;
    keeping_adds_up(s5, p6);
    let s6 = s5 + p6;
    let p7 = given(target.oracle(), S4_ORACLE@);
    keeping_adds_up(s6, p7);
    let s7 = s6 + p7;
    let p8 = given(!target.oracle(), S4_MYSQL@);
    keeping_adds_up(s7, p8);
    let s8 = s7 + p8;
    let p9 = given(!target.oracle(), S5@);
    keeping_adds_up(s8, p9);
    let s9 = s8 + p9;
    let p10 = given(target.oracle(), S6@);
    keeping_adds_up(s9, p10);
    let s10 = s9 + p10;
    let p11 = S10@;
    keeping_adds_up(s10, p11);
    let s11 = s10 + p11;
    let p12 = S11@;
    keeping_adds_up(s11, p12);
    let s12 = s11 + p12;
    let p13 = given(!target.oracle(), S11_VARIABLE@);
    keeping_adds_up(s12, p13);
    let s13 = s12 + p13;
    let p14 = given(target.oracle(), S11_SNAPSHOT@);
    keeping_adds_up(s13, p14);
    let s14 = s13 + p14;
    let p15 = S12@;
    keeping_adds_up(s14, p15);
    let s15 = s14 + p15;
    let p16 = S13@;
    keeping_adds_up(s15, p16);
    let s16 = s15 + p16;
    let p17 = given(target.oracle(), S13_ORACLE@);
    keeping_adds_up(s16, p17);
    let s17 = s16 + p17;
    let p18 = S7@;
    keeping_adds_up(s17, p18);
    let s18 = s17 + p18;
    let p19 = S14@;
    keeping_adds_up(s18, p19);
    let s19 = s18 + p19;
    let p20 = S15@;
    keeping_adds_up(s19, p20);
    let s20 = s19 + p20;
    let p21 = given(!target.oracle(), S16@);
    keeping_adds_up(s20, p21);
    let s21 = s20 + p21;
    let p22 = S17@;
    keeping_adds_up(s21, p22);
    let s22 = s21 + p22;
    let p23 = S18@;
    keeping_adds_up(s22, p23);
    let s23 = s22 + p23;
    let p24 = given(target.oracle(), SNAPSHOT_PIN_ORACLE@);
    keeping_adds_up(s23, p24);
    let s24 = s23 + p24;
    let p25 = given(!target.oracle(), SNAPSHOT_PIN_MYSQL@);
    keeping_adds_up(s24, p25);
    let s25 = s24 + p25;
    let part = S18_READS@;
    lemma_begins(s25, part);
    let s26 = s25 + part;
    lemma_grows_by_eight(
        part,
        s26,
        S19@,
        S20@,
        S21@,
        S22@,
        S23@,
        S24@,
        given(!target.oracle(), S25@),
        S9@,
    );
    let s34 = s26
        + S19@
        + S20@
        + S21@
        + S22@
        + S23@
        + S24@
        + given(!target.oracle(), S25@)
        + S9@;
    lemma_grows_by_eight(
        part,
        s34,
        S26@,
        S27@,
        S28@,
        every_level(target, offered),
        S29@,
        S30@,
        given(target.oracle(), S30_ORACLE@),
        given(!target.oracle(), S30_MYSQL@),
    );
    let s42 = s34
        + S26@
        + S27@
        + S28@
        + every_level(target, offered)
        + S29@
        + S30@
        + given(target.oracle(), S30_ORACLE@)
        + given(!target.oracle(), S30_MYSQL@);
    lemma_grows_by_eight(
        part,
        s42,
        S30_LEAK@,
        S31@,
        every_pair(10),
        S31_LEAK@,
        S32@,
        given(!target.oracle(), S32_VARIABLE@),
        S32_WRITE@,
        S40@,
    );
    let s50 = s42
        + S30_LEAK@
        + S31@
        + every_pair(10)
        + S31_LEAK@
        + S32@
        + given(!target.oracle(), S32_VARIABLE@)
        + S32_WRITE@
        + S40@;
    lemma_grows_by_eight(
        part,
        s50,
        given(!target.oracle(), S33@),
        given(target == Target::MariaDb, MARIADB_ROLLBACK@),
        given(!target.oracle(), S33_XA@),
        S34@,
        given(target.oracle(), SNAPSHOT_PIN_ORACLE@),
        given(!target.oracle(), SNAPSHOT_PIN_MYSQL@),
        S34_READS@,
        given(!target.oracle(), S35@),
    );
    let s58 = s50
        + given(!target.oracle(), S33@)
        + given(target == Target::MariaDb, MARIADB_ROLLBACK@)
        + given(!target.oracle(), S33_XA@)
        + S34@
        + given(target.oracle(), SNAPSHOT_PIN_ORACLE@)
        + given(!target.oracle(), SNAPSHOT_PIN_MYSQL@)
        + S34_READS@
        + given(!target.oracle(), S35@);
    lemma_grows_by_eight(
        part,
        s58,
        given(target == Target::MariaDb, S35_MARIADB@),
        given(!target.oracle(), S35_LEAK@),
        given(!target.oracle(), S36@),
        given(target == Target::MariaDb, MARIADB_ROLLBACK@),
        given(!target.oracle(), S36_ONE_SHOT@),
        given(target.oracle(), S37@),
        S38@,
        given(!target.oracle(), S39@),
    );
    let s66 = s58
        + given(target == Target::MariaDb, S35_MARIADB@)
        + given(!target.oracle(), S35_LEAK@)
        + given(!target.oracle(), S36@)
        + given(target == Target::MariaDb, MARIADB_ROLLBACK@)
        + given(!target.oracle(), S36_ONE_SHOT@)
        + given(target.oracle(), S37@)
        + S38@
        + given(!target.oracle(), S39@);
    lemma_grows(part, s66, AUTO_COMMIT_BACK@);
    let s67 = s66 + AUTO_COMMIT_BACK@;
    lemma_grows(part, s67, given(target.oracle(), S8@));
    let s68 = s67 + given(target.oracle(), S8@);
    assert(s68 == scenarios(target, offered));
}

#[verifier::rlimit(40)]
proof fn lemma_s19_stands(target: Target, offered: Seq<TransactionIsolation>)
    ensures
        stands_kept(S19@, scenarios(target, offered)),
{
    lemma_tables_1();
    lemma_tables_2();
    lemma_tables_3();
    lemma_tables_4();
    lemma_tables_5();
    let s0 = S1_PIN@;
    let p1 = given(!target.oracle(), S1_VARIABLE@);
    keeping_adds_up(s0, p1);
    let s1 = s0 + p1;
    let p2 = S1_WRITE@;
    keeping_adds_up(s1, p2);
    let s2 = s1 + p2;
    let p3 = S2@;
    keeping_adds_up(s2, p3);
    let s3 = s2 + p3;
    let p4 = given(!target.oracle(), S3_VARIABLE@);
    keeping_adds_up(s3, p4);
    let s4 = s3 + p4;
    let p5 = given(target.oracle(), S3_TRANSACTION@);
    keeping_adds_up(s4, p5);
    let s5 = s4 + p5;
    let p6 = S4@;
    keeping_adds_up(s5, p6);
    let s6 = s5 + p6;
    let p7 = given(target.oracle(), S4_ORACLE@);
    keeping_adds_up(s6, p7);
    let s7 = s6 + p7;
    let p8 = given(!target.oracle(), S4_MYSQL@);
    keeping_adds_up(s7, p8);
    let s8 = s7 + p8;
    let p9 = given(!target.oracle(), S5@);
    keeping_adds_up(s8, p9);
    let s9 = s8 + p9;
    let p10 = given(target.oracle(), S6@);
    keeping_adds_up(s9, p10);
    let s10 = s9 + p10;
    let p11 = S10@;
    keeping_adds_up(s10, p11);
    let s11 = s10 + p11;
    let p12 = S11@;
    keeping_adds_up(s11, p12);
    let s12 = s11 + p12;
    let p13 = given(!target.oracle(), S11_VARIABLE@);
    keeping_adds_up(s12, p13);
    let s13 = s12 + p13;
    let p14 = given(target.oracle(), S11_SNAPSHOT@);
    keeping_adds_up(s13, p14);
    let s14 = s13 + p14;
    let p15 = S12@;
    keeping_adds_up(s14, p15);
    let s15 = s14 + p15;
    let p16 = S13@;
    keeping_adds_up(s15, p16);
    let s16 = s15 + p16;
    let p17 = given(target.oracle(), S13_ORACLE@);
    keeping_adds_up(s16, p17);
    let s17 = s16 + p17;
    let p18 = S7@;
    keeping_adds_up(s17, p18);
    let s18 = s17 + p18;
    let p19 = S14@;
    keeping_adds_up(s18, p19);
    let s19 = s18 + p19;
    let p20 = S15@;
    keeping_adds_up(s19, p20);
    let s20 = s19 + p20;
    let p21 = given(!target.oracle(), S16@);
    keeping_adds_up(s20, p21);
    let s21 = s20 + p21;
    let p22 = S17@;
    keeping_adds_up(s21, p22);
    let s22 = s21 + p22;
    let p23 = S18@;
    keeping_adds_up(s22, p23);
    let s23 = s22 + p23;
    let p24 = given(target.oracle(), SNAPSHOT_PIN_ORACLE@);
    keeping_adds_up(s23, p24);
    let s24 = s23 + p24;
    let p25 = given(!target.oracle(), SNAPSHOT_PIN_MYSQL@);
    keeping_adds_up(s24, p25);
    let s25 = s24 + p25;
    let p26 = S18_READS@;
    keeping_adds_up(s25, p26);
    let s26 = s25 + p26;
    let part = S19@;
    lemma_begins(s26, part);
    let s27 = s26 + part;
    lemma_grows_by_eight(
        part,
        s27,
        S20@,
        S21@,
        S22@,
        S23@,
        S24@,
        given(!target.oracle(), S25@),
        S9@,
        S26@,
    );
    let s35 = s27
        + S20@
        + S21@
        + S22@
        + S23@
        + S24@
        + given(!target.oracle(), S25@)
        + S9@
        + S26@;
    lemma_grows_by_eight(
        part,
        s35,
        S27@,
        S28@,
        every_level(target, offered),
        S29@,
        S30@,
        given(target.oracle(), S30_ORACLE@),
        given(!target.oracle(), S30_MYSQL@),
        S30_LEAK@,
    );
    let s43 = s35
        + S27@
        + S28@
        + every_level(target, offered)
        + S29@
        + S30@
        + given(target.oracle(), S30_ORACLE@)
        + given(!target.oracle(), S30_MYSQL@)
        + S30_LEAK@;
    lemma_grows_by_eight(
        part,
        s43,
        S31@,
        every_pair(10),
        S31_LEAK@,
        S32@,
        given(!target.oracle(), S32_VARIABLE@),
        S32_WRITE@,
        S40@,
        given(!target.oracle(), S33@),
    );
    let s51 = s43
        + S31@
        + every_pair(10)
        + S31_LEAK@
        + S32@
        + given(!target.oracle(), S32_VARIABLE@)
        + S32_WRITE@
        + S40@
        + given(!target.oracle(), S33@);
    lemma_grows_by_eight(
        part,
        s51,
        given(target == Target::MariaDb, MARIADB_ROLLBACK@),
        given(!target.oracle(), S33_XA@),
        S34@,
        given(target.oracle(), SNAPSHOT_PIN_ORACLE@),
        given(!target.oracle(), SNAPSHOT_PIN_MYSQL@),
        S34_READS@,
        given(!target.oracle(), S35@),
        given(target == Target::MariaDb, S35_MARIADB@),
    );
    let s59 = s51
        + given(target == Target::MariaDb, MARIADB_ROLLBACK@)
        + given(!target.oracle(), S33_XA@)
        + S34@
        + given(target.oracle(), SNAPSHOT_PIN_ORACLE@)
        + given(!target.oracle(), SNAPSHOT_PIN_MYSQL@)
        + S34_READS@
        + given(!target.oracle(), S35@)
        + given(target == Target::MariaDb, S35_MARIADB@);
    lemma_grows_by_eight(
        part,
        s59,
        given(!target.oracle(), S35_LEAK@),
        given(!target.oracle(), S36@),
        given(target == Target::MariaDb, MARIADB_ROLLBACK@),
        given(!target.oracle(), S36_ONE_SHOT@),
        given(target.oracle(), S37@),
        S38@,
        given(!target.oracle(), S39@),
        AUTO_COMMIT_BACK@,
    );
    let s67 = s59
        + given(!target.oracle(), S35_LEAK@)
        + given(!target.oracle(), S36@)
        + given(target == Target::MariaDb, MARIADB_ROLLBACK@)
        + given(!target.oracle(), S36_ONE_SHOT@)
        + given(target.oracle(), S37@)
        + S38@
        + given(!target.oracle(), S39@)
        + AUTO_COMMIT_BACK@;
    lemma_grows(part, s67, given(target.oracle(), S8@));
    let s68 = s67 + given(target.oracle(), S8@);
    assert(s68 == scenarios(target, offered));
}

#[verifier::rlimit(40)]
proof fn lemma_s34_reads_stands(target: Target, offered: Seq<TransactionIsolation>)
    ensures
        stands_kept(S34_READS@, scenarios(target, offered)),
{
    lemma_tables_1();
    lemma_tables_2();
    lemma_tables_3();
    lemma_tables_4();
    lemma_tables_5();
    lemma_tables_6();
    lemma_tables_7();
    lemma_tables_8();
    lemma_tables_9();
    lemma_tables_10();
    lemma_levels_keep(target, offered);
    lemma_pairs_keep(10);
    let s0 = S1_PIN@;
    let p1 = given(!target.oracle(), S1_VARIABLE@);
    keeping_adds_up(s0, p1);
    let s1 = s0 + p1;
    let p2 = S1_WRITE@;
    keeping_adds_up(s1, p2);
    let s2 = s1 + p2;
    let p3 = S2@;
    keeping_adds_up(s2, p3);
    let s3 = s2 + p3;
    let p4 = given(!target.oracle(), S3_VARIABLE@);
    keeping_adds_up(s3, p4);
    let s4 = s3 + p4;
    let p5 = given(target.oracle(), S3_TRANSACTION@);
    keeping_adds_up(s4, p5);
    let s5 = s4 + p5;
    let p6 = S4@;
    keeping_adds_up(s5, p6);
    let s6 = s5 + p6;
    let p7 = given(target.oracle(), S4_ORACLE@);
    keeping_adds_up(s6, p7);
    let s7 = s6 + p7;
    let p8 = given(!target.oracle(), S4_MYSQL@);
    keeping_adds_up(s7, p8);
    let s8 = s7 + p8;
    let p9 = given(!target.oracle(), S5@);
    keeping_adds_up(s8, p9);
    let s9 = s8 + p9;
    let p10 = given(target.oracle(), S6@);
    keeping_adds_up(s9, p10);
    let s10 = s9 + p10;
    let p11 = S10@;
    keeping_adds_up(s10, p11);
    let s11 = s10 + p11;
    let p12 = S11@;
    keeping_adds_up(s11, p12);
    let s12 = s11 + p12;
    let p13 = given(!target.oracle(), S11_VARIABLE@);
    keeping_adds_up(s12, p13);
    let s13 = s12 + p13;
    let p14 = given(target.oracle(), S11_SNAPSHOT@);
    keeping_adds_up(s13, p14);
    let s14 = s13 + p14;
    let p15 = S12@;
    keeping_adds_up(s14, p15);
    let s15 = s14 + p15;
    let p16 = S13@;
    keeping_adds_up(s15, p16);
    let s16 = s15 + p16;
    let p17 = given(target.oracle(), S13_ORACLE@);
    keeping_adds_up(s16, p17);
    let s17 = s16 + p17;
    let p18 = S7@;
    keeping_adds_up(s17, p18);
    let s18 = s17 + p18;
    let p19 = S14@;
    keeping_adds_up(s18, p19);
    let s19 = s18 + p19;
    let p20 = S15@;
    keeping_adds_up(s19, p20);
    let s20 = s19 + p20;
    let p21 = given(!target.oracle(), S16@);
    keeping_adds_up(s20, p21);
    let s21 = s20 + p21;
    let p22 = S17@;
    keeping_adds_up(s21, p22);
    let s22 = s21 + p22;
    let p23 = S18@;
    keeping_adds_up(s22, p23);
    let s23 = s22 + p23;
    let p24 = given(target.oracle(), SNAPSHOT_PIN_ORACLE@);
    keeping_adds_up(s23, p24);
    let s24 = s23 + p24;
    let p25 = given(!target.oracle(), SNAPSHOT_PIN_MYSQL@);
    keeping_adds_up(s24, p25);
    let s25 = s24 + p25;
    let p26 = S18_READS@;
    keeping_adds_up(s25, p26);
    let s26 = s25 + p26;
    let p27 = S19@;
    keeping_adds_up(s26, p27);
    let s27 = s26 + p27;
    let p28 = S20@;
    keeping_adds_up(s27, p28);
    let s28 = s27 + p28;
    let p29 = S21@;
    keeping_adds_up(s28, p29);
    let s29 = s28 + p29;
    let p30 = S22@;
    keeping_adds_up(s29, p30);
    let s30 = s29 + p30;
    let p31 = S23@;
    keeping_adds_up(s30, p31);
    let s31 = s30 + p31;
    let p32 = S24@;
    keeping_adds_up(s31, p32);
    let s32 = s31 + p32;
    let p33 = given(!target.oracle(), S25@);
    keeping_adds_up(s32, p33);
    let s33 = s32 + p33;
    let p34 = S9@;
    keeping_adds_up(s33, p34);
    let s34 = s33 + p34;
    let p35 = S26@;
    keeping_adds_up(s34, p35);
    let s35 = s34 + p35;
    let p36 = S27@;
    keeping_adds_up(s35, p36);
    let s36 = s35 + p36;
    let p37 = S28@;
    keeping_adds_up(s36, p37);
    let s37 = s36 + p37;
    let p38 = every_level(target, offered);
    keeping_adds_up(s37, p38);
    let s38 = s37 + p38;
    let p39 = S29@;
    keeping_adds_up(s38, p39);
    let s39 = s38 + p39;
    let p40 = S30@;
    keeping_adds_up(s39, p40);
    let s40 = s39 + p40;
    let p41 = given(target.oracle(), S30_ORACLE@);
    keeping_adds_up(s40, p41);
    let s41 = s40 + p41;
    let p42 = given(!target.oracle(), S30_MYSQL@);
    keeping_adds_up(s41, p42);
    let s42 = s41 + p42;
    let p43 = S30_LEAK@;
    keeping_adds_up(s42, p43);
    let s43 = s42 + p43;
    let p44 = S31@;
    keeping_adds_up(s43, p44);
    let s44 = s43 + p44;
    let p45 = every_pair(10);
    keeping_adds_up(s44, p45);
    let s45 = s44 + p45;
    let p46 = S31_LEAK@;
    keeping_adds_up(s45, p46);
    let s46 = s45 + p46;
    let p47 = S32@;
    keeping_adds_up(s46, p47);
    let s47 = s46 + p47;
    let p48 = given(!target.oracle(), S32_VARIABLE@);
    keeping_adds_up(s47, p48);
    let s48 = s47 + p48;
    let p49 = S32_WRITE@;
    keeping_adds_up(s48, p49);
    let s49 = s48 + p49;
    let p50 = S40@;
    keeping_adds_up(s49, p50);
    let s50 = s49 + p50;
    let p51 = given(!target.oracle(), S33@);
    keeping_adds_up(s50, p51);
    let s51 = s50 + p51;
    let p52 = given(target == Target::MariaDb, MARIADB_ROLLBACK@);
    keeping_adds_up(s51, p52);
    let s52 = s51 + p52;
    let p53 = given(!target.oracle(), S33_XA@);
    keeping_adds_up(s52, p53);
    let s53 = s52 + p53;
    let p54 = S34@;
    keeping_adds_up(s53, p54);
    let s54 = s53 + p54;
    let p55 = given(target.oracle(), SNAPSHOT_PIN_ORACLE@);
    keeping_adds_up(s54, p55);
    let s55 = s54 + p55;
    let p56 = given(!target.oracle(), SNAPSHOT_PIN_MYSQL@);
    keeping_adds_up(s55, p56);
    let s56 = s55 + p56;
    let part = S34_READS@;
    lemma_begins(s56, part);
    let s57 = s56 + part;
    lemma_grows_by_eight(
        part,
        s57,
        given(!target.oracle(), S35@),
        given(target == Target::MariaDb, S35_MARIADB@),
        given(!target.oracle(), S35_LEAK@),
        given(!target.oracle(), S36@),
        given(target == Target::MariaDb, MARIADB_ROLLBACK@),
        given(!target.oracle(), S36_ONE_SHOT@),
        given(target.oracle(), S37@),
        S38@,
    );
    let s65 = s57
        + given(!target.oracle(), S35@)
        + given(target == Target::MariaDb, S35_MARIADB@)
        + given(!target.oracle(), S35_LEAK@)
        + given(!target.oracle(), S36@)
        + given(target == Target::MariaDb, MARIADB_ROLLBACK@)
        + given(!target.oracle(), S36_ONE_SHOT@)
        + given(target.oracle(), S37@)
        + S38@;
    lemma_grows(part, s65, given(!target.oracle(), S39@));
    let s66 = s65 + given(!target.oracle(), S39@);
    lemma_grows(part, s66, AUTO_COMMIT_BACK@);
    let s67 = s66 + AUTO_COMMIT_BACK@;
    lemma_grows(part, s67, given(target.oracle(), S8@));
    let s68 = s67 + given(target.oracle(), S8@);
    assert(s68 == scenarios(target, offered));
}

#[verifier::rlimit(40)]
pub proof fn lemma_every_level_stands(target: Target, offered: Seq<TransactionIsolation>)
    ensures
        stands_kept(every_level(target, offered), scenarios(target, offered)),
{
    lemma_tables_1();
    lemma_tables_2();
    lemma_tables_3();
    lemma_tables_4();
    lemma_tables_5();
    lemma_tables_6();
    lemma_tables_7();
    lemma_tables_8();
    let s0 = S1_PIN@;
    let p1 = given(!target.oracle(), S1_VARIABLE@);
    keeping_adds_up(s0, p1);
    let s1 = s0 + p1;
    let p2 = S1_WRITE@;
    keeping_adds_up(s1, p2);
    let s2 = s1 + p2;
    let p3 = S2@;
    keeping_adds_up(s2, p3);
    let s3 = s2 + p3;
    let p4 = given(!target.oracle(), S3_VARIABLE@);
    keeping_adds_up(s3, p4);
    let s4 = s3 + p4;
    let p5 = given(target.oracle(), S3_TRANSACTION@);
    keeping_adds_up(s4, p5);
    let s5 = s4 + p5;
    let p6 = S4@;
    keeping_adds_up(s5, p6);
    let s6 = s5 + p6;
    let p7 = given(target.oracle(), S4_ORACLE@);
    keeping_adds_up(s6, p7);
    let s7 = s6 + p7;
    let p8 = given(!target.oracle(), S4_MYSQL@);
    keeping_adds_up(s7, p8);
    let s8 = s7 + p8;
    let p9 = given(!target.oracle(), S5@);
    keeping_adds_up(s8, p9);
    let s9 = s8 + p9;
    let p10 = given(target.oracle(), S6@);
    keeping_adds_up(s9, p10);
    let s10 = s9 + p10;
    let p11 = S10@;
    keeping_adds_up(s10, p11);
    let s11 = s10 + p11;
    let p12 = S11@;
    keeping_adds_up(s11, p12);
    let s12 = s11 + p12;
    let p13 = given(!target.oracle(), S11_VARIABLE@);
    keeping_adds_up(s12, p13);
    let s13 = s12 + p13;
    let p14 = given(target.oracle(), S11_SNAPSHOT@);
    keeping_adds_up(s13, p14);
    let s14 = s13 + p14;
    let p15 = S12@;
    keeping_adds_up(s14, p15);
    let s15 = s14 + p15;
    let p16 = S13@;
    keeping_adds_up(s15, p16);
    let s16 = s15 + p16;
    let p17 = given(target.oracle(), S13_ORACLE@);
    keeping_adds_up(s16, p17);
    let s17 = s16 + p17;
    let p18 = S7@;
    keeping_adds_up(s17, p18);
    let s18 = s17 + p18;
    let p19 = S14@;
    keeping_adds_up(s18, p19);
    let s19 = s18 + p19;
    let p20 = S15@;
    keeping_adds_up(s19, p20);
    let s20 = s19 + p20;
    let p21 = given(!target.oracle(), S16@);
    keeping_adds_up(s20, p21);
    let s21 = s20 + p21;
    let p22 = S17@;
    keeping_adds_up(s21, p22);
    let s22 = s21 + p22;
    let p23 = S18@;
    keeping_adds_up(s22, p23);
    let s23 = s22 + p23;
    let p24 = given(target.oracle(), SNAPSHOT_PIN_ORACLE@);
    keeping_adds_up(s23, p24);
    let s24 = s23 + p24;
    let p25 = given(!target.oracle(), SNAPSHOT_PIN_MYSQL@);
    keeping_adds_up(s24, p25);
    let s25 = s24 + p25;
    let p26 = S18_READS@;
    keeping_adds_up(s25, p26);
    let s26 = s25 + p26;
    let p27 = S19@;
    keeping_adds_up(s26, p27);
    let s27 = s26 + p27;
    let p28 = S20@;
    keeping_adds_up(s27, p28);
    let s28 = s27 + p28;
    let p29 = S21@;
    keeping_adds_up(s28, p29);
    let s29 = s28 + p29;
    let p30 = S22@;
    keeping_adds_up(s29, p30);
    let s30 = s29 + p30;
    let p31 = S23@;
    keeping_adds_up(s30, p31);
    let s31 = s30 + p31;
    let p32 = S24@;
    keeping_adds_up(s31, p32);
    let s32 = s31 + p32;
    let p33 = given(!target.oracle(), S25@);
    keeping_adds_up(s32, p33);
    let s33 = s32 + p33;
    let p34 = S9@;
    keeping_adds_up(s33, p34);
    let s34 = s33 + p34;
    let p35 = S26@;
    keeping_adds_up(s34, p35);
    let s35 = s34 + p35;
    let p36 = S27@;
    keeping_adds_up(s35, p36);
    let s36 = s35 + p36;
    let p37 = S28@;
    keeping_adds_up(s36, p37);
    let s37 = s36 + p37;
    let part = every_level(target, offered);
    lemma_begins(s37, part);
    let s38 = s37 + part;
    lemma_grows_by_eight(
        part,
        s38,
        S29@,
        S30@,
        given(target.oracle(), S30_ORACLE@),
        given(!target.oracle(), S30_MYSQL@),
        S30_LEAK@,
        S31@,
        every_pair(10),
        S31_LEAK@,
    );
    let s46 = s38
        + S29@
        + S30@
        + given(target.oracle(), S30_ORACLE@)
        + given(!target.oracle(), S30_MYSQL@)
        + S30_LEAK@
        + S31@
        + every_pair(10)
        + S31_LEAK@;
    lemma_grows_by_eight(
        part,
        s46,
        S32@,
        given(!target.oracle(), S32_VARIABLE@),
        S32_WRITE@,
        S40@,
        given(!target.oracle(), S33@),
        given(target == Target::MariaDb, MARIADB_ROLLBACK@),
        given(!target.oracle(), S33_XA@),
        S34@,
    );
    let s54 = s46
        + S32@
        + given(!target.oracle(), S32_VARIABLE@)
        + S32_WRITE@
        + S40@
        + given(!target.oracle(), S33@)
        + given(target == Target::MariaDb, MARIADB_ROLLBACK@)
        + given(!target.oracle(), S33_XA@)
        + S34@;
    lemma_grows_by_eight(
        part,
        s54,
        given(target.oracle(), SNAPSHOT_PIN_ORACLE@),
        given(!target.oracle(), SNAPSHOT_PIN_MYSQL@),
        S34_READS@,
        given(!target.oracle(), S35@),
        given(target == Target::MariaDb, S35_MARIADB@),
        given(!target.oracle(), S35_LEAK@),
        given(!target.oracle(), S36@),
        given(target == Target::MariaDb, MARIADB_ROLLBACK@),
    );
    let s62 = s54
        + given(target.oracle(), SNAPSHOT_PIN_ORACLE@)
        + given(!target.oracle(), SNAPSHOT_PIN_MYSQL@)
        + S34_READS@
        + given(!target.oracle(), S35@)
        + given(target == Target::MariaDb, S35_MARIADB@)
        + given(!target.oracle(), S35_LEAK@)
        + given(!target.oracle(), S36@)
        + given(target == Target::MariaDb, MARIADB_ROLLBACK@);
    lemma_grows(part, s62, given(!target.oracle(), S36_ONE_SHOT@));
    let s63 = s62 + given(!target.oracle(), S36_ONE_SHOT@);
    lemma_grows(part, s63, given(target.oracle(), S37@));
    let s64 = s63 + given(target.oracle(), S37@);
    lemma_grows(part, s64, S38@);
    let s65 = s64 + S38@;
    lemma_grows(part, s65, given(!target.oracle(), S39@));
    let s66 = s65 + given(!target.oracle(), S39@);
    lemma_grows(part, s66, AUTO_COMMIT_BACK@);
    let s67 = s66 + AUTO_COMMIT_BACK@;
    lemma_grows(part, s67, given(target.oracle(), S8@));
    let s68 = s67 + given(target.oracle(), S8@);
    assert(s68 == scenarios(target, offered));
}

#[verifier::rlimit(40)]
pub proof fn lemma_every_pair_stands(target: Target, offered: Seq<TransactionIsolation>)
    ensures
        stands_kept(every_pair(10), scenarios(target, offered)),
{
    lemma_tables_1();
    lemma_tables_2();
    lemma_tables_3();
    lemma_tables_4();
    lemma_tables_5();
    lemma_tables_6();
    lemma_tables_7();
    lemma_tables_8();
    lemma_levels_keep(target, offered);
    let s0 = S1_PIN@;
    let p1 = given(!target.oracle(), S1_VARIABLE@);
    keeping_adds_up(s0, p1);
    let s1 = s0 + p1;
    let p2 = S1_WRITE@;
    keeping_adds_up(s1, p2);
    let s2 = s1 + p2;
    let p3 = S2@;
    keeping_adds_up(s2, p3);
    let s3 = s2 + p3;
    let p4 = given(!target.oracle(), S3_VARIABLE@);
    keeping_adds_up(s3, p4);
    let s4 = s3 + p4;
    let p5 = given(target.oracle(), S3_TRANSACTION@);
    keeping_adds_up(s4, p5);
    let s5 = s4 + p5;
    let p6 = S4@;
    keeping_adds_up(s5, p6);
    let s6 = s5 + p6;
    let p7 = given(target.oracle(), S4_ORACLE@);
    keeping_adds_up(s6, p7);
    let s7 = s6 + p7;
    let p8 = given(!target.oracle(), S4_MYSQL@);
    keeping_adds_up(s7, p8);
    let s8 = s7 + p8;
    let p9 = given(!target.oracle(), S5@);
    keeping_adds_up(s8, p9);
    let s9 = s8 + p9;
    let p10 = given(target.oracle(), S6@);
    keeping_adds_up(s9, p10);
    let s10 = s9 + p10;
    let p11 = S10@;
    keeping_adds_up(s10, p11);
    let s11 = s10 + p11;
    let p12 = S11@;
    keeping_adds_up(s11, p12);
    let s12 = s11 + p12;
    let p13 = given(!target.oracle(), S11_VARIABLE@);
    keeping_adds_up(s12, p13);
    let s13 = s12 + p13;
    let p14 = given(target.oracle(), S11_SNAPSHOT@);
    keeping_adds_up(s13, p14);
    let s14 = s13 + p14;
    let p15 = S12@;
    keeping_adds_up(s14, p15);
    let s15 = s14 + p15;
    let p16 = S13@;
    keeping_adds_up(s15, p16);
    let s16 = s15 + p16;
    let p17 = given(target.oracle(), S13_ORACLE@);
    keeping_adds_up(s16, p17);
    let s17 = s16 + p17;
    let p18 = S7@;
    keeping_adds_up(s17, p18);
    let s18 = s17 + p18;
    let p19 = S14@;
    keeping_adds_up(s18, p19);
    let s19 = s18 + p19;
    let p20 = S15@;
    keeping_adds_up(s19, p20);
    let s20 = s19 + p20;
    let p21 = given(!target.oracle(), S16@);
    keeping_adds_up(s20, p21);
    let s21 = s20 + p21;
    let p22 = S17@;
    keeping_adds_up(s21, p22);
    let s22 = s21 + p22;
    let p23 = S18@;
    keeping_adds_up(s22, p23);
    let s23 = s22 + p23;
    let p24 = given(target.oracle(), SNAPSHOT_PIN_ORACLE@);
    keeping_adds_up(s23, p24);
    let s24 = s23 + p24;
    let p25 = given(!target.oracle(), SNAPSHOT_PIN_MYSQL@);
    keeping_adds_up(s24, p25);
    let s25 = s24 + p25;
    let p26 = S18_READS@;
    keeping_adds_up(s25, p26);
    let s26 = s25 + p26;
    let p27 = S19@;
    keeping_adds_up(s26, p27);
    let s27 = s26 + p27;
    let p28 = S20@;
    keeping_adds_up(s27, p28);
    let s28 = s27 + p28;
    let p29 = S21@;
    keeping_adds_up(s28, p29);
    let s29 = s28 + p29;
    let p30 = S22@;
    keeping_adds_up(s29, p30);
    let s30 = s29 + p30;
    let p31 = S23@;
    keeping_adds_up(s30, p31);
    let s31 = s30 + p31;
    let p32 = S24@;
    keeping_adds_up(s31, p32);
    let s32 = s31 + p32;
    let p33 = given(!target.oracle(), S25@);
    keeping_adds_up(s32, p33);
    let s33 = s32 + p33;
    let p34 = S9@;
    keeping_adds_up(s33, p34);
    let s34 = s33 + p34;
    let p35 = S26@;
    keeping_adds_up(s34, p35);
    let s35 = s34 + p35;
    let p36 = S27@;
    keeping_adds_up(s35, p36);
    let s36 = s35 + p36;
    let p37 = S28@;
    keeping_adds_up(s36, p37);
    let s37 = s36 + p37;
    let p38 = every_level(target, offered);
    keeping_adds_up(s37, p38);
    let s38 = s37 + p38;
    let p39 = S29@;
    keeping_adds_up(s38, p39);
    let s39 = s38 + p39;
    let p40 = S30@;
    keeping_adds_up(s39, p40);
    let s40 = s39 + p40;
    let p41 = given(target.oracle(), S30_ORACLE@);
    keeping_adds_up(s40, p41);
    let s41 = s40 + p41;
    let p42 = given(!target.oracle(), S30_MYSQL@);
    keeping_adds_up(s41, p42);
    let s42 = s41 + p42;
    let p43 = S30_LEAK@;
    keeping_adds_up(s42, p43);
    let s43 = s42 + p43;
    let p44 = S31@;
    keeping_adds_up(s43, p44);
    let s44 = s43 + p44;
    let part = every_pair(10);
    lemma_begins(s44, part);
    let s45 = s44 + part;
    lemma_grows_by_eight(
        part,
        s45,
        S31_LEAK@,
        S32@,
        given(!target.oracle(), S32_VARIABLE@),
        S32_WRITE@,
        S40@,
        given(!target.oracle(), S33@),
        given(target == Target::MariaDb, MARIADB_ROLLBACK@),
        given(!target.oracle(), S33_XA@),
    );
    let s53 = s45
        + S31_LEAK@
        + S32@
        + given(!target.oracle(), S32_VARIABLE@)
        + S32_WRITE@
        + S40@
        + given(!target.oracle(), S33@)
        + given(target == Target::MariaDb, MARIADB_ROLLBACK@)
        + given(!target.oracle(), S33_XA@);
    lemma_grows_by_eight(
        part,
        s53,
        S34@,
        given(target.oracle(), SNAPSHOT_PIN_ORACLE@),
        given(!target.oracle(), SNAPSHOT_PIN_MYSQL@),
        S34_READS@,
        given(!target.oracle(), S35@),
        given(target == Target::MariaDb, S35_MARIADB@),
        given(!target.oracle(), S35_LEAK@),
        given(!target.oracle(), S36@),
    );
    let s61 = s53
        + S34@
        + given(target.oracle(), SNAPSHOT_PIN_ORACLE@)
        + given(!target.oracle(), SNAPSHOT_PIN_MYSQL@)
        + S34_READS@
        + given(!target.oracle(), S35@)
        + given(target == Target::MariaDb, S35_MARIADB@)
        + given(!target.oracle(), S35_LEAK@)
        + given(!target.oracle(), S36@);
    lemma_grows(part, s61, given(target == Target::MariaDb, MARIADB_ROLLBACK@));
    let s62 = s61 + given(target == Target::MariaDb, MARIADB_ROLLBACK@);
    lemma_grows(part, s62, given(!target.oracle(), S36_ONE_SHOT@));
    let s63 = s62 + given(!target.oracle(), S36_ONE_SHOT@);
    lemma_grows(part, s63, given(target.oracle(), S37@));
    let s64 = s63 + given(target.oracle(), S37@);
    lemma_grows(part, s64, S38@);
    let s65 = s64 + S38@;
    lemma_grows(part, s65, given(!target.oracle(), S39@));
    let s66 = s65 + given(!target.oracle(), S39@);
    lemma_grows(part, s66, AUTO_COMMIT_BACK@);
    let s67 = s66 + AUTO_COMMIT_BACK@;
    lemma_grows(part, s67, given(target.oracle(), S8@));
    let s68 = s67 + given(target.oracle(), S8@);
    assert(s68 == scenarios(target, offered));
}

/// What rows leave out stands among them.
spec fn stays_within(rows: Seq<Row>) -> bool {
    forall|i: int|
        0 <= i < rows.len() && skips((#[trigger] rows[i]).0) ==> i + 1 + rows[i].3 <= rows.len()
}

proof fn lemma_stood_behind(
    plan: Seq<Row>,
    c: Course,
    answers: Seq<Seen>,
    head: Seq<Row>,
    rows: Seq<Row>,
    tail: Seq<Row>,
    part: Seq<Row>,
) -> (b: int)
    requires
        plan == head + rows + tail,
        passed(plan, c, answers),
        c.at == 0,
        stays_within(head),
        stands_kept(part, rows),
        part.len() > 0,
    ensures
        0 <= b,
        b + part.len() <= plan.len(),
        passes(plan, c, answers, b),
        forall|i: int| b <= i < b + part.len() ==> #[trigger] plan[i] == part[i - b],
{
    let k = choose|k: int| #[trigger] stands_kept_at(part, rows, k);
    let b = head.len() + k;
    assert forall|i: int| b <= i < b + part.len() implies #[trigger] plan[i] == part[i - b] by {
        assert(plan[i] == rows[i - head.len()]);
        assert(rows.subrange(k, k + part.len())[i - b] == rows[i - head.len()]);
    }
    assert forall|i: int| 0 <= i < b && skips((#[trigger] plan[i]).0) implies i + 1 + plan[i].3
        <= b by {
        if i < head.len() {
            assert(plan[i] == head[i]);
        } else {
            let j = i - head.len();
            assert(plan[i] == rows[j]);
            assert(rows.take(k)[j] == rows[j]);
        }
    }
    a_row_out_of_reach_was_stood_at(plan, c, answers, b);
    b
}

proof fn lemma_opening_stays()
    ensures
        forall|i: int| 0 <= i < OPENING@.len() ==> !skips((#[trigger] OPENING@[i]).0),
{
}

proof fn lemma_head_stays(list: Seq<&'static str>)
    ensures
        stays_within(OPENING@ + setup_steps(list)),
{
    lemma_opening_stays();
    let setup = setup_steps(list);
    let head = OPENING@ + setup;
    assert forall|i: int| 0 <= i < head.len() implies !skips((#[trigger] head[i]).0) by {
        if i < OPENING@.len() {
            assert(head[i] == OPENING@[i]);
        } else {
            assert(head[i] == setup[i - OPENING@.len()]);
        }
    }
}

/// Rows that a scenario begins with are stood at in a run that passed.
pub proof fn lemma_stood_at(
    target: Target,
    offered: Seq<TransactionIsolation>,
    memory: Seq<Seen>,
    answers: Seq<Seen>,
    part: Seq<Row>,
) -> (b: int)
    requires
        passed(whole_run(target, offered), opening(memory), answers),
        stands_kept(part, scenarios(target, offered)),
        part.len() > 0,
    ensures
        0 <= b,
        b + part.len() <= whole_run(target, offered).len(),
        passes(whole_run(target, offered), opening(memory), answers, b),
        forall|i: int|
            b <= i < b + part.len() ==> #[trigger] whole_run(target, offered)[i] == part[i - b],
{
    let list = if target.oracle() { ORACLE_SETUP@ } else { MYSQL_SETUP@ };
    let tail = lemma_whole(target, offered);
    lemma_head_stays(list);
    lemma_stood_behind(
        whole_run(target, offered),
        opening(memory),
        answers,
        OPENING@ + setup_steps(list),
        scenarios(target, offered),
        tail,
        part,
    )
}

proof fn lemma_whole(target: Target, offered: Seq<TransactionIsolation>) -> (tail: Seq<Row>)
    ensures
        whole_run(target, offered) == OPENING@ + setup_steps(
            if target.oracle() { ORACLE_SETUP@ } else { MYSQL_SETUP@ },
        ) + scenarios(target, offered) + tail,
{
    let tail = UNPINNING@ + quiet_steps(
        if target.oracle() { ORACLE_TEARDOWN@ } else { MYSQL_TEARDOWN@ },
    ) + CLOSING@;
    let head = OPENING@ + setup_steps(if target.oracle() { ORACLE_SETUP@ } else { MYSQL_SETUP@ });
    assert(whole_run(target, offered) =~= head + scenarios(target, offered) + tail);
    tail
}

/// Whether a statement was run on a tab, and the first statement that its events report
/// failed.
pub open spec fn was_refused(
    plan: Seq<Row>,
    c: Course,
    answers: Seq<Seen>,
    k: int,
    sql: Seq<char>,
    tab: int,
) -> bool {
    &&& plan[k].0 == Op::Run && plan[k].4@ == sql && plan[k].3 == tab
    &&& exists|seen: Seen| #[trigger]
        was_answered(plan, c, answers, k, seen) && (seen matches Seen::Run(run) && first_failed(
            run@,
        ))
}

/// Whether a statement was run on a tab, and the first statement that its events report
/// succeeded.
pub open spec fn was_let_through(
    plan: Seq<Row>,
    c: Course,
    answers: Seq<Seen>,
    k: int,
    sql: Seq<char>,
    tab: int,
) -> bool {
    &&& plan[k].0 == Op::Run && plan[k].4@ == sql && plan[k].3 == tab
    &&& exists|seen: Seen| #[trigger]
        was_answered(plan, c, answers, k, seen) && (seen matches Seen::Run(run) && first_succeeded(
            run@,
        ))
}

pub open spec fn first_failed(run: Seq<QueryProgress>) -> bool {
    exists|i: int| #[trigger] is_first(run, i) && !(finished(run[i])->0).success
}

pub open spec fn first_succeeded(run: Seq<QueryProgress>) -> bool {
    exists|i: int| #[trigger] is_first(run, i) && (finished(run[i])->0).success
}

pub proof fn lemma_tested_right_after(plan: Seq<Row>, c: Course, answers: Seq<Seen>, k: int)
    requires
        passed(plan, c, answers),
        c.memory.len() == SLOTS,
        0 <= k,
        k + 1 < plan.len(),
        passes(plan, c, answers, k),
        plan[k].0 == Op::Run,
        plan[k].2 == 11,
        plan[k + 1].2 == 11,
        plan[k + 1].1 == Weight::Check,
        plan[k + 1].0 == Op::FirstRefused || plan[k + 1].0 == Op::FirstSucceeded,
    ensures
        plan[k + 1].0 == Op::FirstRefused ==> was_refused(
            plan,
            c,
            answers,
            k,
            plan[k].4@,
            plan[k].3 as int,
        ),
        plan[k + 1].0 == Op::FirstSucceeded ==> was_let_through(
            plan,
            c,
            answers,
            k,
            plan[k].4@,
            plan[k].3 as int,
        ),
{
    an_answer_stands_until_then(plan, c, answers, k, k + 1);
    in_a_clean_run_every_test_held(plan, c, answers, k + 1);
    let s = state_at(plan, c, answers, k + 1)->0;
    memory_keeps_its_size(plan, c, answers, k + 1);
    let seen = choose|seen: Seen| #[trigger]
        was_answered(plan, c, answers, k, seen) && at(s.memory, 11) == kept(plan[k].0, seen);
    let arg = fill(plan[k + 1].4@, s.memory);
    let other = plan[k + 1].3 as int;
    match seen {
        Seen::Run(run) => {
            the_first_and_the_last_statement(run@);
            if results(run@).len() > 0 {
                let i = choose|i: int| #[trigger] is_first(run@, i);
                a_refusal_is_a_failure_that_says_so(s.memory, 11, other, arg, run@, i);
                the_first_statement_is_tested(s.memory, 11, other, arg, run@, i);
            } else {
                a_refusal_is_a_failure_that_says_so(s.memory, 11, other, arg, run@, 0);
                the_first_statement_is_tested(s.memory, 11, other, arg, run@, 0);
            }
        },
        _ => {
            assert(results(events(seen)).len() == 0);
        },
    }
}

/// The rows of a part from one to another, over rows that leave nothing out.
pub proof fn lemma_walk(
    plan: Seq<Row>,
    c: Course,
    answers: Seq<Seen>,
    b: int,
    k: int,
)
    requires
        passed(plan, c, answers),
        0 <= b <= k < plan.len(),
        passes(plan, c, answers, b),
        forall|i: int| b <= i < k ==> leaves_nothing_out(#[trigger] plan[i]),
    ensures
        passes(plan, c, answers, k),
    decreases k - b,
{
    if b < k {
        lemma_walk(plan, c, answers, b, k - 1);
        assert(leaves_nothing_out(plan[k - 1]));
        a_run_that_passed_goes_on(plan, c, answers, k - 1);
    }
}

/// A tab pinned read-only has its insert refused, and writes again once it is unpinned;
/// the probe passes only where both were seen.
pub proof fn a_read_only_pin_refused_the_insert(
    target: Target,
    offered: Seq<TransactionIsolation>,
    memory: Seq<Seen>,
    answers: Seq<Seen>,
)
    requires
        memory.len() == SLOTS,
        clean(course(whole_run(target, offered), opening(memory), answers)),
        course(whole_run(target, offered), opening(memory), answers).at == whole_run(
            target,
            offered,
        ).len(),
    ensures
        exists|k: int|
            {
                &&& #[trigger] was_refused(
                    whole_run(target, offered),
                    opening(memory),
                    answers,
                    k,
                    "INSERT INTO SQ_TM_T VALUES (99)"@,
                    0,
                )
                &&& whole_run(target, offered)[k + 5].0 == Op::Unpin
                &&& was_let_through(
                    whole_run(target, offered),
                    opening(memory),
                    answers,
                    k + 6,
                    "INSERT INTO SQ_TM_T VALUES (2)"@,
                    0,
                )
            },
{
    let plan = whole_run(target, offered);
    let c = opening(memory);
    lemma_s1_write_stands(target, offered);
    lemma_s1_rows();
    let b = lemma_stood_at(target, offered, memory, answers, S1_WRITE@);
    lemma_insert_refused(plan, c, answers, b, S1_WRITE@);
    assert(was_refused(plan, c, answers, b, "INSERT INTO SQ_TM_T VALUES (99)"@, 0));
}

/// What the rows of an insert are that a pin refuses.
spec fn refuses_the_insert(part: Seq<Row>) -> bool {
    &&& part.len() > 7
    &&& forall|i: int| 0 <= i < 6 ==> leaves_nothing_out(#[trigger] part[i])
    &&& part[0].0 == Op::Run && part[0].2 == 11 && part[0].3 == 0 && part[0].4@
        == "INSERT INTO SQ_TM_T VALUES (99)"@
    &&& part[1].0 == Op::FirstRefused && part[1].1 == Weight::Check && part[1].2 == 11
    &&& part[5].0 == Op::Unpin
    &&& part[6].0 == Op::Run && part[6].2 == 11 && part[6].3 == 0 && part[6].4@
        == "INSERT INTO SQ_TM_T VALUES (2)"@
    &&& part[7].0 == Op::FirstSucceeded && part[7].1 == Weight::Check && part[7].2 == 11
}

proof fn lemma_s1_rows()
    ensures
        refuses_the_insert(S1_WRITE@),
{
}

proof fn lemma_insert_refused(
    plan: Seq<Row>,
    c: Course,
    answers: Seq<Seen>,
    b: int,
    part: Seq<Row>,
)
    requires
        passed(plan, c, answers),
        c.memory.len() == SLOTS,
        0 <= b,
        b + part.len() <= plan.len(),
        passes(plan, c, answers, b),
        forall|i: int| b <= i < b + part.len() ==> #[trigger] plan[i] == part[i - b],
        refuses_the_insert(part),
    ensures
        plan[b + 5] == part[5],
        was_refused(plan, c, answers, b, "INSERT INTO SQ_TM_T VALUES (99)"@, 0),
        was_let_through(plan, c, answers, b + 6, "INSERT INTO SQ_TM_T VALUES (2)"@, 0),
{
    assert forall|i: int| b <= i < b + 6 implies leaves_nothing_out(#[trigger] plan[i]) by {
        assert(plan[i] == part[i - b]);
    }
    assert(plan[b] == part[0]);
    assert(plan[b + 1] == part[1]);
    assert(plan[b + 5] == part[5]);
    assert(plan[b + 6] == part[6]);
    assert(plan[b + 7] == part[7]);
    lemma_walk(plan, c, answers, b, b + 6);
    lemma_tested_right_after(plan, c, answers, b);
    lemma_tested_right_after(plan, c, answers, b + 6);
}

/// A tab pinned read-only has a table's creation refused as well.
pub proof fn a_read_only_pin_refused_the_table(
    target: Target,
    offered: Seq<TransactionIsolation>,
    memory: Seq<Seen>,
    answers: Seq<Seen>,
)
    requires
        memory.len() == SLOTS,
        clean(course(whole_run(target, offered), opening(memory), answers)),
        course(whole_run(target, offered), opening(memory), answers).at == whole_run(
            target,
            offered,
        ).len(),
    ensures
        exists|k: int|
            {
                &&& #[trigger] was_refused(
                    whole_run(target, offered),
                    opening(memory),
                    answers,
                    k,
                    "{t21}"@,
                    0,
                )
                &&& whole_run(target, offered)[k - 1].0 == Op::Pin
                &&& whole_run(target, offered)[k - 1].3 == READ_ONLY
            },
{
    let plan = whole_run(target, offered);
    let c = opening(memory);
    lemma_s14_stands(target, offered);
    let b = lemma_stood_at(target, offered, memory, answers, S14@);
    assert(plan[b + 1] == S14@[1]);
    assert(plan[b + 2] == S14@[2]);
    assert(plan[b + 3] == S14@[3]);
    assert forall|i: int| b <= i < b + 2 implies leaves_nothing_out(#[trigger] plan[i]) by {
        assert(plan[i] == S14@[i - b]);
    }
    lemma_walk(plan, c, answers, b, b + 2);
    lemma_tested_right_after(plan, c, answers, b + 2);
}

/// An unpinned tab follows a read-only connection, and a read-write pin lifts it.
pub proof fn a_read_write_pin_lifted_the_default(
    target: Target,
    offered: Seq<TransactionIsolation>,
    memory: Seq<Seen>,
    answers: Seq<Seen>,
)
    requires
        memory.len() == SLOTS,
        clean(course(whole_run(target, offered), opening(memory), answers)),
        course(whole_run(target, offered), opening(memory), answers).at == whole_run(
            target,
            offered,
        ).len(),
    ensures
        exists|k: int|
            {
                &&& #[trigger] was_refused(
                    whole_run(target, offered),
                    opening(memory),
                    answers,
                    k,
                    "INSERT INTO SQ_TM_T VALUES (19)"@,
                    2,
                )
                &&& whole_run(target, offered)[k - 2].0 == Op::SetConnectionMode
                &&& whole_run(target, offered)[k - 2].3 == READ_ONLY
                &&& whole_run(target, offered)[k + 4].0 == Op::Pin
                &&& whole_run(target, offered)[k + 4].3 == DEFAULT_MODE
                &&& was_let_through(
                    whole_run(target, offered),
                    opening(memory),
                    answers,
                    k + 5,
                    "INSERT INTO SQ_TM_T VALUES (19)"@,
                    0,
                )
            },
{
    let plan = whole_run(target, offered);
    let c = opening(memory);
    lemma_s19_stands(target, offered);
    lemma_s19_rows();
    let b = lemma_stood_at(target, offered, memory, answers, S19@);
    lemma_default_lifted(plan, c, answers, b, S19@);
    assert(was_refused(plan, c, answers, b + 3, "INSERT INTO SQ_TM_T VALUES (19)"@, 2));
}

/// What the rows of a default that a pin lifts are.
spec fn lifts_the_default(part: Seq<Row>) -> bool {
    &&& part.len() > 9
    &&& forall|i: int| 0 <= i < 8 ==> leaves_nothing_out(#[trigger] part[i])
    &&& part[1].0 == Op::SetConnectionMode && part[1].3 == READ_ONLY
    &&& part[3].0 == Op::Run && part[3].2 == 11 && part[3].3 == 2 && part[3].4@
        == "INSERT INTO SQ_TM_T VALUES (19)"@
    &&& part[4].0 == Op::FirstRefused && part[4].1 == Weight::Check && part[4].2 == 11
    &&& part[7].0 == Op::Pin && part[7].3 == DEFAULT_MODE
    &&& part[8].0 == Op::Run && part[8].2 == 11 && part[8].3 == 0 && part[8].4@
        == "INSERT INTO SQ_TM_T VALUES (19)"@
    &&& part[9].0 == Op::FirstSucceeded && part[9].1 == Weight::Check && part[9].2 == 11
}

proof fn lemma_s19_rows()
    ensures
        lifts_the_default(S19@),
{
}

proof fn lemma_default_lifted(
    plan: Seq<Row>,
    c: Course,
    answers: Seq<Seen>,
    b: int,
    part: Seq<Row>,
)
    requires
        passed(plan, c, answers),
        c.memory.len() == SLOTS,
        0 <= b,
        b + part.len() <= plan.len(),
        passes(plan, c, answers, b),
        forall|i: int| b <= i < b + part.len() ==> #[trigger] plan[i] == part[i - b],
        lifts_the_default(part),
    ensures
        plan[b + 1] == part[1],
        plan[b + 7] == part[7],
        was_refused(plan, c, answers, b + 3, "INSERT INTO SQ_TM_T VALUES (19)"@, 2),
        was_let_through(plan, c, answers, b + 8, "INSERT INTO SQ_TM_T VALUES (19)"@, 0),
{
    assert forall|i: int| b <= i < b + 8 implies leaves_nothing_out(#[trigger] plan[i]) by {
        assert(plan[i] == part[i - b]);
    }
    assert(plan[b + 1] == part[1]);
    assert(plan[b + 3] == part[3]);
    assert(plan[b + 4] == part[4]);
    assert(plan[b + 7] == part[7]);
    assert(plan[b + 8] == part[8]);
    assert(plan[b + 9] == part[9]);
    lemma_walk(plan, c, answers, b, b + 3);
    lemma_walk(plan, c, answers, b, b + 8);
    lemma_tested_right_after(plan, c, answers, b + 3);
    lemma_tested_right_after(plan, c, answers, b + 8);
}

/// Whether a batch that reads twice was started, another session changed the value and
/// committed in between, and the batch ended having seen one snapshot.
pub open spec fn read_one_snapshot(
    plan: Seq<Row>,
    c: Course,
    answers: Seq<Seen>,
    k: int,
    batch: Seq<char>,
) -> bool {
    &&& 0 <= k
    &&& k + 4 < plan.len()
    &&& plan[k].0 == Op::Start && plan[k].4@ == batch
    &&& plan[k + 2].0 == Op::Run && plan[k + 2].3 == 1 && plan[k + 2].4@
        == "UPDATE SQ_TM_ISO SET V = V + 1"@
    &&& plan[k + 3].0 == Op::Run && plan[k + 3].3 == 1 && plan[k + 3].4@ == "COMMIT"@
    &&& plan[k + 4].0 == Op::Finish
    &&& exists|seen: Seen| #[trigger]
        was_answered(plan, c, answers, k + 4, seen) && (seen matches Seen::Run(run)
            && saw_one_snapshot(run@))
}

proof fn lemma_batch(plan: Seq<Row>, c: Course, answers: Seq<Seen>, k: int)
    requires
        passed(plan, c, answers),
        c.memory.len() == SLOTS,
        0 <= k,
        k + 6 < plan.len(),
        passes(plan, c, answers, k),
        forall|i: int| k <= i < k + 7 ==> leaves_nothing_out(#[trigger] plan[i]),
        plan[k].0 == Op::Start,
        plan[k + 2].0 == Op::Run && plan[k + 2].3 == 1 && plan[k + 2].4@
            == "UPDATE SQ_TM_ISO SET V = V + 1"@,
        plan[k + 3].0 == Op::Run && plan[k + 3].3 == 1 && plan[k + 3].4@ == "COMMIT"@,
        plan[k + 4].0 == Op::Finish && plan[k + 4].2 == 12,
        class(plan[k + 5].0) != Class::Action && class(plan[k + 5].0) != Class::Control,
        plan[k + 6].0 == Op::LastPairSame && plan[k + 6].2 == 12 && plan[k + 6].1 == Weight::Check,
    ensures
        read_one_snapshot(plan, c, answers, k, plan[k].4@),
{
    lemma_walk(plan, c, answers, k, k + 4);
    assert(!writes(plan[k + 5], 12));
    an_answer_stands_until_then(plan, c, answers, k + 4, k + 6);
    in_a_clean_run_every_test_held(plan, c, answers, k + 6);
    let s = state_at(plan, c, answers, k + 6)->0;
    let seen = choose|seen: Seen| #[trigger]
        was_answered(plan, c, answers, k + 4, seen) && at(s.memory, 12) == kept(
            plan[k + 4].0,
            seen,
        );
    lemma_snapshot_seen(
        s.memory,
        12,
        plan[k + 6].3 as int,
        fill(plan[k + 6].4@, s.memory),
    );
}

/// The probe passes only where each of its three batches saw one snapshot, though another
/// session committed a change between its last two reads: a plain one, one that commits
/// in the middle, and one that a statement of its own commits.
pub proof fn every_batch_saw_one_snapshot(
    target: Target,
    offered: Seq<TransactionIsolation>,
    memory: Seq<Seen>,
    answers: Seq<Seen>,
)
    requires
        memory.len() == SLOTS,
        clean(course(whole_run(target, offered), opening(memory), answers)),
        course(whole_run(target, offered), opening(memory), answers).at == whole_run(
            target,
            offered,
        ).len(),
    ensures
        exists|k: int| #[trigger]
            read_one_snapshot(
                whole_run(target, offered),
                opening(memory),
                answers,
                k,
                "SELECT V FROM SQ_TM_ISO;\n{t20}\nSELECT V FROM SQ_TM_ISO;"@,
            ),
        exists|k: int| #[trigger]
            read_one_snapshot(
                whole_run(target, offered),
                opening(memory),
                answers,
                k,
                "SELECT V FROM SQ_TM_ISO;\nCOMMIT;\nSELECT V FROM SQ_TM_ISO;\n{t20}\nSELECT V FROM SQ_TM_ISO;"@,
            ),
        exists|k: int| #[trigger]
            read_one_snapshot(
                whole_run(target, offered),
                opening(memory),
                answers,
                k,
                "{t21};\nSELECT V FROM SQ_TM_ISO;\n{t20}\nSELECT V FROM SQ_TM_ISO;"@,
            ),
{
    lemma_s18_reads_stands(target, offered);
    lemma_s18_rows();
    lemma_snapshot_of(target, offered, memory, answers, S18_READS@, 0);
    lemma_snapshot_of(target, offered, memory, answers, S18_READS@, 9);
    lemma_s34_reads_stands(target, offered);
    lemma_s34_rows();
    lemma_snapshot_of(target, offered, memory, answers, S34_READS@, 0);
}

proof fn lemma_snapshot_of(
    target: Target,
    offered: Seq<TransactionIsolation>,
    memory: Seq<Seen>,
    answers: Seq<Seen>,
    part: Seq<Row>,
    k: int,
)
    requires
        memory.len() == SLOTS,
        passed(whole_run(target, offered), opening(memory), answers),
        stands_kept(part, scenarios(target, offered)),
        reads_twice(part, k),
    ensures
        exists|q: int| #[trigger]
            read_one_snapshot(
                whole_run(target, offered),
                opening(memory),
                answers,
                q,
                part[k].4@,
            ),
{
    let b = lemma_stood_at(target, offered, memory, answers, part);
    lemma_batch_of(whole_run(target, offered), opening(memory), answers, b, part, k);
}

/// What the rows of a batch that reads twice are, from one of them on.
spec fn reads_twice(part: Seq<Row>, k: int) -> bool {
    &&& 0 <= k
    &&& k + 6 < part.len()
    &&& forall|i: int| 0 <= i < k + 7 ==> leaves_nothing_out(#[trigger] part[i])
    &&& part[k].0 == Op::Start
    &&& part[k + 2].0 == Op::Run && part[k + 2].3 == 1 && part[k + 2].4@
        == "UPDATE SQ_TM_ISO SET V = V + 1"@
    &&& part[k + 3].0 == Op::Run && part[k + 3].3 == 1 && part[k + 3].4@ == "COMMIT"@
    &&& part[k + 4].0 == Op::Finish && part[k + 4].2 == 12
    &&& class(part[k + 5].0) != Class::Action && class(part[k + 5].0) != Class::Control
    &&& part[k + 6].0 == Op::LastPairSame && part[k + 6].2 == 12 && part[k + 6].1 == Weight::Check
}

proof fn lemma_s18_rows()
    ensures
        reads_twice(S18_READS@, 0),
        reads_twice(S18_READS@, 9),
        S18_READS@[0].4@ == "SELECT V FROM SQ_TM_ISO;\n{t20}\nSELECT V FROM SQ_TM_ISO;"@,
        S18_READS@[9].4@
            == "SELECT V FROM SQ_TM_ISO;\nCOMMIT;\nSELECT V FROM SQ_TM_ISO;\n{t20}\nSELECT V FROM SQ_TM_ISO;"@,
{
}

proof fn lemma_s34_rows()
    ensures
        reads_twice(S34_READS@, 0),
        S34_READS@[0].4@
            == "{t21};\nSELECT V FROM SQ_TM_ISO;\n{t20}\nSELECT V FROM SQ_TM_ISO;"@,
{
}

proof fn lemma_batch_of(
    plan: Seq<Row>,
    c: Course,
    answers: Seq<Seen>,
    b: int,
    part: Seq<Row>,
    k: int,
)
    requires
        passed(plan, c, answers),
        c.memory.len() == SLOTS,
        0 <= b,
        b + part.len() <= plan.len(),
        passes(plan, c, answers, b),
        forall|i: int| b <= i < b + part.len() ==> #[trigger] plan[i] == part[i - b],
        reads_twice(part, k),
    ensures
        read_one_snapshot(plan, c, answers, b + k, part[k].4@),
{
    assert forall|i: int| b <= i < b + k + 7 implies leaves_nothing_out(#[trigger] plan[i]) by {
        assert(plan[i] == part[i - b]);
    }
    assert(plan[b + k] == part[k]);
    assert(plan[b + k + 2] == part[k + 2]);
    assert(plan[b + k + 3] == part[k + 3]);
    assert(plan[b + k + 4] == part[k + 4]);
    assert(plan[b + k + 5] == part[k + 5]);
    assert(plan[b + k + 6] == part[k + 6]);
    lemma_walk(plan, c, answers, b, b + k);
    lemma_batch(plan, c, answers, b + k);
}

} // verus!
