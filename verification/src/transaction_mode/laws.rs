//! Laws of the transaction-mode probe: however its scenarios end, the tab is
//! unpinned and everything is dropped.
use vstd::prelude::*;

use crate::course::{
    a_clean_run_passes_every_test_not_left_out, a_cleanup_follows, clean, is_test, keeping_adds_up,
    keeps_to, leads_to, left_out, merely_tried, passes, test_held, what_is_led_to_is_never_left_out,
};
use crate::machine::{
    bound, course, given, lemma_stands_between, lemma_stands_within, opening, quiet_steps,
    stands_in, Course, Row,
};
use crate::op::{class, Class};
use crate::progress::TransactionIsolation;
use crate::seen::Seen;
use crate::transaction_mode::tables::{
    AUTO_COMMIT_BACK, CLOSING, MARIADB_ROLLBACK, MYSQL_SETUP, MYSQL_TEARDOWN, OPENING, ORACLE_SETUP,
    ORACLE_TEARDOWN, S10, S11, S11_SNAPSHOT, S11_VARIABLE, S12, S13, S13_ORACLE, S14, S15, S16, S17,
    S18, S18_READS, S19, S1_PIN, S1_VARIABLE, S1_WRITE, S2, S20, S21, S22, S23, S24, S25, S26, S27,
    S28, S28_COMMITTED, S28_LEVEL, S28_REPEATABLE, S28_SERIALIZABLE, S28_UNCOMMITTED, S28_VARIABLE,
    S29, S30, S30_LEAK, S30_MYSQL, S30_ORACLE, S31, S31_LEAK, S31_REFUSES, S31_WRITES, S32,
    S32_VARIABLE, S32_WRITE, S33, S33_XA, S34, S34_READS, S35, S35_LEAK, S35_MARIADB, S36,
    S36_ONE_SHOT, S37, S38, S39, S3_TRANSACTION, S3_VARIABLE, S4, S40, S4_MYSQL, S4_ORACLE, S5, S6,
    S7, S8, S9, SNAPSHOT_PIN_MYSQL, SNAPSHOT_PIN_ORACLE, UNPINNING,
};
use crate::transaction_mode::{
    every_level, every_pair, level_code, level_steps, offered, one_level, scenarios, setup_steps,
    whole_run, Target,
};

verus! {

pub proof fn lemma_tables_1()
    ensures
        keeps_to(S1_PIN@),
        keeps_to(S1_VARIABLE@),
        keeps_to(S1_WRITE@),
        keeps_to(S2@),
        keeps_to(S3_VARIABLE@),
        keeps_to(S3_TRANSACTION@),
        keeps_to(S4@),
        keeps_to(S4_ORACLE@),
        keeps_to(S4_MYSQL@),
        keeps_to(S5@),
{
}

pub proof fn lemma_tables_2()
    ensures
        keeps_to(S6@),
        keeps_to(S10@),
        keeps_to(S11@),
        keeps_to(S11_VARIABLE@),
        keeps_to(S11_SNAPSHOT@),
{
}

pub proof fn lemma_tables_3()
    ensures
        keeps_to(S12@),
        keeps_to(S13@),
        keeps_to(S13_ORACLE@),
        keeps_to(S7@),
        keeps_to(S14@),
        keeps_to(S15@),
{
}

pub proof fn lemma_tables_4()
    ensures
        keeps_to(S16@),
        keeps_to(S17@),
{
}

pub proof fn lemma_tables_5()
    ensures
        keeps_to(S18@),
        keeps_to(SNAPSHOT_PIN_ORACLE@),
        keeps_to(SNAPSHOT_PIN_MYSQL@),
        keeps_to(S18_READS@),
        keeps_to(S19@),
        keeps_to(S20@),
{
}

pub proof fn lemma_tables_6()
    ensures
        keeps_to(S21@),
        keeps_to(S22@),
        keeps_to(S23@),
{
}

pub proof fn lemma_tables_7()
    ensures
        keeps_to(S24@),
        keeps_to(S25@),
        keeps_to(S9@),
        keeps_to(S26@),
{
}

pub proof fn lemma_tables_8()
    ensures
        keeps_to(S27@),
        keeps_to(S28@),
        keeps_to(S29@),
        keeps_to(S30@),
        keeps_to(S30_ORACLE@),
        keeps_to(S30_MYSQL@),
        keeps_to(S30_LEAK@),
        keeps_to(S31@),
        keeps_to(S31_LEAK@),
        keeps_to(S32@),
        keeps_to(S32_VARIABLE@),
{
}

pub proof fn lemma_tables_9()
    ensures
        keeps_to(S32_WRITE@),
        keeps_to(S40@),
        keeps_to(S33@),
        keeps_to(MARIADB_ROLLBACK@),
{
}

pub proof fn lemma_tables_10()
    ensures
        keeps_to(S33_XA@),
        keeps_to(S34@),
        keeps_to(S34_READS@),
        keeps_to(S35@),
        keeps_to(S35_MARIADB@),
        keeps_to(S35_LEAK@),
        keeps_to(S36@),
{
}

pub proof fn lemma_tables_11()
    ensures
        keeps_to(S36_ONE_SHOT@),
        keeps_to(S37@),
        keeps_to(S38@),
{
}

pub proof fn lemma_tables_12()
    ensures
        keeps_to(S39@),
        keeps_to(AUTO_COMMIT_BACK@),
        keeps_to(S8@),
{
}

proof fn lemma_level_keeps(target: Target, level: TransactionIsolation)
    ensures
        keeps_to(one_level(target, level)),
{
    assert(keeps_to(S28_LEVEL@));
    assert(keeps_to(S28_VARIABLE@));
    assert(keeps_to(S28_UNCOMMITTED@));
    assert(keeps_to(S28_COMMITTED@));
    assert(keeps_to(S28_REPEATABLE@));
    assert(keeps_to(S28_SERIALIZABLE@));
    let head = bound(S28_LEVEL@, level_code(level));
    assert(keeps_to(head));
    let variable = given(!target.oracle(), S28_VARIABLE@);
    keeping_adds_up(head, variable);
    keeping_adds_up(head + variable, level_steps(target, level));
}

pub proof fn lemma_levels_keep(target: Target, levels: Seq<TransactionIsolation>)
    ensures
        keeps_to(every_level(target, levels)),
    decreases levels.len(),
{
    if levels.len() > 0 {
        lemma_levels_keep(target, levels.drop_last());
        lemma_level_keeps(target, levels.last());
        keeping_adds_up(every_level(target, levels.drop_last()), one_level(target, levels.last()));
    }
}

pub proof fn lemma_pairs_keep(count: int)
    ensures
        keeps_to(every_pair(count)),
    decreases count,
{
    if count > 0 {
        let code = count - 1;
        lemma_pairs_keep(code);
        let rows = bound(if code % 2 == 0 { S31_WRITES@ } else { S31_REFUSES@ }, code);
        assert(keeps_to(S31_WRITES@));
        assert(keeps_to(S31_REFUSES@));
        assert(keeps_to(rows));
        keeping_adds_up(every_pair(code), rows);
    }
}

/// The scenarios keep to themselves: none of them ends the run.
proof fn lemma_scenarios_keep(target: Target, offered: Seq<TransactionIsolation>)
    ensures
        keeps_to(scenarios(target, offered)),
{
    lemma_tables_1();
    lemma_tables_2();
    lemma_tables_3();
    lemma_tables_4();
    lemma_tables_5();
    lemma_tables_6();
    lemma_tables_7();
    lemma_tables_8();
    lemma_tables_9();
    lemma_tables_10();
    lemma_tables_11();
    lemma_tables_12();
    lemma_levels_keep(target, offered);
    lemma_pairs_keep(10);
    let s0 = S1_PIN@;
    let p1 = given(!target.oracle(), S1_VARIABLE@);
    keeping_adds_up(s0, p1);
    let s1 = s0 + p1;
    let p2 = S1_WRITE@;
    keeping_adds_up(s1, p2);
    let s2 = s1 + p2;
    let p3 = S2@;
    keeping_adds_up(s2, p3);
    let s3 = s2 + p3;
    let p4 = given(!target.oracle(), S3_VARIABLE@);
    keeping_adds_up(s3, p4);
    let s4 = s3 + p4;
    let p5 = given(target.oracle(), S3_TRANSACTION@);
    keeping_adds_up(s4, p5);
    let s5 = s4 + p5;
    let p6 = S4@;
    keeping_adds_up(s5, p6);
    let s6 = s5 + p6;
    let p7 = given(target.oracle(), S4_ORACLE@);
    keeping_adds_up(s6, p7);
    let s7 = s6 + p7;
    let p8 = given(!target.oracle(), S4_MYSQL@);
    keeping_adds_up(s7, p8);
    let s8 = s7 + p8;
    let p9 = given(!target.oracle(), S5@);
    keeping_adds_up(s8, p9);
    let s9 = s8 + p9;
    let p10 = given(target.oracle(), S6@);
    keeping_adds_up(s9, p10);
    let s10 = s9 + p10;
    let p11 = S10@;
    keeping_adds_up(s10, p11);
    let s11 = s10 + p11;
    let p12 = S11@;
    keeping_adds_up(s11, p12);
    let s12 = s11 + p12;
    let p13 = given(!target.oracle(), S11_VARIABLE@);
    keeping_adds_up(s12, p13);
    let s13 = s12 + p13;
    let p14 = given(target.oracle(), S11_SNAPSHOT@);
    keeping_adds_up(s13, p14);
    let s14 = s13 + p14;
    let p15 = S12@;
    keeping_adds_up(s14, p15);
    let s15 = s14 + p15;
    let p16 = S13@;
    keeping_adds_up(s15, p16);
    let s16 = s15 + p16;
    let p17 = given(target.oracle(), S13_ORACLE@);
    keeping_adds_up(s16, p17);
    let s17 = s16 + p17;
    let p18 = S7@;
    keeping_adds_up(s17, p18);
    let s18 = s17 + p18;
    let p19 = S14@;
    keeping_adds_up(s18, p19);
    let s19 = s18 + p19;
    let p20 = S15@;
    keeping_adds_up(s19, p20);
    let s20 = s19 + p20;
    let p21 = given(!target.oracle(), S16@);
    keeping_adds_up(s20, p21);
    let s21 = s20 + p21;
    let p22 = S17@;
    keeping_adds_up(s21, p22);
    let s22 = s21 + p22;
    let p23 = S18@;
    keeping_adds_up(s22, p23);
    let s23 = s22 + p23;
    let p24 = given(target.oracle(), SNAPSHOT_PIN_ORACLE@);
    keeping_adds_up(s23, p24);
    let s24 = s23 + p24;
    let p25 = given(!target.oracle(), SNAPSHOT_PIN_MYSQL@);
    keeping_adds_up(s24, p25);
    let s25 = s24 + p25;
    let p26 = S18_READS@;
    keeping_adds_up(s25, p26);
    let s26 = s25 + p26;
    let p27 = S19@;
    keeping_adds_up(s26, p27);
    let s27 = s26 + p27;
    let p28 = S20@;
    keeping_adds_up(s27, p28);
    let s28 = s27 + p28;
    let p29 = S21@;
    keeping_adds_up(s28, p29);
    let s29 = s28 + p29;
    let p30 = S22@;
    keeping_adds_up(s29, p30);
    let s30 = s29 + p30;
    let p31 = S23@;
    keeping_adds_up(s30, p31);
    let s31 = s30 + p31;
    let p32 = S24@;
    keeping_adds_up(s31, p32);
    let s32 = s31 + p32;
    let p33 = given(!target.oracle(), S25@);
    keeping_adds_up(s32, p33);
    let s33 = s32 + p33;
    let p34 = S9@;
    keeping_adds_up(s33, p34);
    let s34 = s33 + p34;
    let p35 = S26@;
    keeping_adds_up(s34, p35);
    let s35 = s34 + p35;
    let p36 = S27@;
    keeping_adds_up(s35, p36);
    let s36 = s35 + p36;
    let p37 = S28@;
    keeping_adds_up(s36, p37);
    let s37 = s36 + p37;
    let p38 = every_level(target, offered);
    keeping_adds_up(s37, p38);
    let s38 = s37 + p38;
    let p39 = S29@;
    keeping_adds_up(s38, p39);
    let s39 = s38 + p39;
    let p40 = S30@;
    keeping_adds_up(s39, p40);
    let s40 = s39 + p40;
    let p41 = given(target.oracle(), S30_ORACLE@);
    keeping_adds_up(s40, p41);
    let s41 = s40 + p41;
    let p42 = given(!target.oracle(), S30_MYSQL@);
    keeping_adds_up(s41, p42);
    let s42 = s41 + p42;
    let p43 = S30_LEAK@;
    keeping_adds_up(s42, p43);
    let s43 = s42 + p43;
    let p44 = S31@;
    keeping_adds_up(s43, p44);
    let s44 = s43 + p44;
    let p45 = every_pair(10);
    keeping_adds_up(s44, p45);
    let s45 = s44 + p45;
    let p46 = S31_LEAK@;
    keeping_adds_up(s45, p46);
    let s46 = s45 + p46;
    let p47 = S32@;
    keeping_adds_up(s46, p47);
    let s47 = s46 + p47;
    let p48 = given(!target.oracle(), S32_VARIABLE@);
    keeping_adds_up(s47, p48);
    let s48 = s47 + p48;
    let p49 = S32_WRITE@;
    keeping_adds_up(s48, p49);
    let s49 = s48 + p49;
    let p50 = S40@;
    keeping_adds_up(s49, p50);
    let s50 = s49 + p50;
    let p51 = given(!target.oracle(), S33@);
    keeping_adds_up(s50, p51);
    let s51 = s50 + p51;
    let p52 = given(target == Target::MariaDb, MARIADB_ROLLBACK@);
    keeping_adds_up(s51, p52);
    let s52 = s51 + p52;
    let p53 = given(!target.oracle(), S33_XA@);
    keeping_adds_up(s52, p53);
    let s53 = s52 + p53;
    let p54 = S34@;
    keeping_adds_up(s53, p54);
    let s54 = s53 + p54;
    let p55 = given(target.oracle(), SNAPSHOT_PIN_ORACLE@);
    keeping_adds_up(s54, p55);
    let s55 = s54 + p55;
    let p56 = given(!target.oracle(), SNAPSHOT_PIN_MYSQL@);
    keeping_adds_up(s55, p56);
    let s56 = s55 + p56;
    let p57 = S34_READS@;
    keeping_adds_up(s56, p57);
    let s57 = s56 + p57;
    let p58 = given(!target.oracle(), S35@);
    keeping_adds_up(s57, p58);
    let s58 = s57 + p58;
    let p59 = given(target == Target::MariaDb, S35_MARIADB@);
    keeping_adds_up(s58, p59);
    let s59 = s58 + p59;
    let p60 = given(!target.oracle(), S35_LEAK@);
    keeping_adds_up(s59, p60);
    let s60 = s59 + p60;
    let p61 = given(!target.oracle(), S36@);
    keeping_adds_up(s60, p61);
    let s61 = s60 + p61;
    let p62 = given(target == Target::MariaDb, MARIADB_ROLLBACK@);
    keeping_adds_up(s61, p62);
    let s62 = s61 + p62;
    let p63 = given(!target.oracle(), S36_ONE_SHOT@);
    keeping_adds_up(s62, p63);
    let s63 = s62 + p63;
    let p64 = given(target.oracle(), S37@);
    keeping_adds_up(s63, p64);
    let s64 = s63 + p64;
    let p65 = S38@;
    keeping_adds_up(s64, p65);
    let s65 = s64 + p65;
    let p66 = given(!target.oracle(), S39@);
    keeping_adds_up(s65, p66);
    let s66 = s65 + p66;
    let p67 = AUTO_COMMIT_BACK@;
    keeping_adds_up(s66, p67);
    let s67 = s66 + p67;
    let p68 = given(target.oracle(), S8@);
    keeping_adds_up(s67, p68);
    let s68 = s67 + p68;
    assert(s68 == scenarios(target, offered));
}

/// What comes after the scenarios: the tab is unpinned, and what they made is
/// dropped.
pub open spec fn clearing(target: Target) -> Seq<Row> {
    UNPINNING@ + quiet_steps(if target.oracle() { ORACLE_TEARDOWN@ } else { MYSQL_TEARDOWN@ })
}

/// However the scenarios end, the tab is unpinned and everything is dropped: a
/// run that has begun its scenarios and gets beyond a step of the clearing has
/// made it, whatever was answered.
pub proof fn the_clearing_is_always_made(
    target: Target,
    offered: Seq<TransactionIsolation>,
    c: Course,
    answers: Seq<Seen>,
    j: int,
)
    requires
        0 <= j < clearing(target).len(),
        ({
            let from = OPENING@.len() + setup_steps(
                if target.oracle() { ORACLE_SETUP@ } else { MYSQL_SETUP@ },
            ).len();
            let k = from + scenarios(target, offered).len() + j;
            from <= c.at <= k && course(whole_run(target, offered), c, answers).at > k
        }),
    ensures
        ({
            let k = OPENING@.len() + setup_steps(
                if target.oracle() { ORACLE_SETUP@ } else { MYSQL_SETUP@ },
            ).len() + scenarios(target, offered).len() + j;
            &&& whole_run(target, offered)[k] == clearing(target)[j]
            &&& passes(whole_run(target, offered), c, answers, k)
        }),
{
    let start = OPENING@ + setup_steps(if target.oracle() { ORACLE_SETUP@ } else { MYSQL_SETUP@ });
    let rows = scenarios(target, offered);
    let closing = clearing(target);
    let plan = whole_run(target, offered);
    lemma_scenarios_keep(target, offered);
    assert(closing[0] == UNPINNING@[0]);
    assert forall|i: int| 0 <= i < closing.len() implies merely_tried(#[trigger] closing[i]) by {
        if i < 2 {
            assert(closing[i] == UNPINNING@[i]);
        }
    }
    assert forall|i: int| 1 <= i < closing.len() implies class((#[trigger] closing[i]).0)
        == Class::Action by {
        if i < 2 {
            assert(closing[i] == UNPINNING@[i]);
        }
    }
    a_cleanup_follows(start, rows, closing, CLOSING@, j);
    assert(start + rows + closing + CLOSING@ =~= plan);
    let k = start.len() + rows.len() + j;
    assert(leads_to(plan, start.len() as int, k));
    what_is_led_to_is_never_left_out(plan, start.len() as int, c, answers, k);
    assert(plan[k] == closing[j]);
}

/// The levels offered are those supported, but for the default.
pub proof fn only_supported_levels_are_offered(
    supported: Seq<TransactionIsolation>,
    level: TransactionIsolation,
)
    ensures
        offered(supported).contains(level) <==> supported.contains(level) && !(level is Default),
    decreases supported.len(),
{
    if supported.len() > 0 {
        let rest = supported.drop_last();
        let last = supported.last();
        let before = offered(rest);
        only_supported_levels_are_offered(rest, level);
        assert(supported =~= rest.push(last));
        assert(supported.contains(level) <==> rest.contains(level) || last == level) by {
            if rest.contains(level) {
                let i = choose|i: int| 0 <= i < rest.len() && rest[i] == level;
                assert(supported[i] == level);
            }
            if last == level {
                assert(supported[supported.len() - 1] == level);
            }
        }
        assert(before.push(last).contains(level) <==> before.contains(level) || last == level) by {
            if before.contains(level) {
                let i = choose|i: int| 0 <= i < before.len() && before[i] == level;
                assert(before.push(last)[i] == level);
            }
            if last == level {
                assert(before.push(last)[before.len() as int] == level);
            }
        }
    }
}

proof fn lemma_level_stands(target: Target, levels: Seq<TransactionIsolation>, i: int)
    requires
        0 <= i < levels.len(),
    ensures
        stands_in(one_level(target, levels[i]), every_level(target, levels)),
    decreases levels.len(),
{
    let rest = every_level(target, levels.drop_last());
    let last = one_level(target, levels.last());
    if i == levels.len() - 1 {
        lemma_stands_between(rest, last, Seq::empty());
        assert(rest + last + Seq::empty() =~= every_level(target, levels));
    } else {
        lemma_level_stands(target, levels.drop_last(), i);
        lemma_stands_within(one_level(target, levels[i]), rest, Seq::empty(), last);
        assert(Seq::<Row>::empty() + rest + last =~= every_level(target, levels));
    }
}

/// Every level offered is pinned, and held to behave as that level does.
pub proof fn every_offered_level_is_tried(
    target: Target,
    offered: Seq<TransactionIsolation>,
    i: int,
)
    requires
        0 <= i < offered.len(),
    ensures
        stands_in(one_level(target, offered[i]), scenarios(target, offered)),
{
    lemma_level_stands(target, offered, i);
    let part = one_level(target, offered[i]);
    let s0 = S1_PIN@
        + given(!target.oracle(), S1_VARIABLE@)
        + S1_WRITE@
        + S2@
        + given(!target.oracle(), S3_VARIABLE@)
        + given(target.oracle(), S3_TRANSACTION@)
        + S4@
        + given(target.oracle(), S4_ORACLE@)
        + given(!target.oracle(), S4_MYSQL@)
        + given(!target.oracle(), S5@)
        + given(target.oracle(), S6@)
        + S10@
        + S11@
        + given(!target.oracle(), S11_VARIABLE@)
        + given(target.oracle(), S11_SNAPSHOT@)
        + S12@
        + S13@
        + given(target.oracle(), S13_ORACLE@)
        + S7@
        + S14@
        + S15@
        + given(!target.oracle(), S16@)
        + S17@
        + S18@
        + given(target.oracle(), SNAPSHOT_PIN_ORACLE@)
        + given(!target.oracle(), SNAPSHOT_PIN_MYSQL@)
        + S18_READS@
        + S19@
        + S20@
        + S21@
        + S22@
        + S23@
        + S24@
        + given(!target.oracle(), S25@)
        + S9@
        + S26@
        + S27@
        + S28@;
    lemma_stands_within(part, every_level(target, offered), s0, Seq::empty());
    let s1 = s0 + every_level(target, offered);
    assert(s1 + Seq::<Row>::empty() =~= s1);
    lemma_stands_within(part, s1, Seq::empty(), S29@);
    let s2 = s1 + S29@;
    assert(Seq::<Row>::empty() + s1 + S29@ =~= s2);
    lemma_stands_within(part, s2, Seq::empty(), S30@);
    let s3 = s2 + S30@;
    assert(Seq::<Row>::empty() + s2 + S30@ =~= s3);
    lemma_stands_within(part, s3, Seq::empty(), given(target.oracle(), S30_ORACLE@));
    let s4 = s3 + given(target.oracle(), S30_ORACLE@);
    assert(Seq::<Row>::empty() + s3 + given(target.oracle(), S30_ORACLE@) =~= s4);
    lemma_stands_within(part, s4, Seq::empty(), given(!target.oracle(), S30_MYSQL@));
    let s5 = s4 + given(!target.oracle(), S30_MYSQL@);
    assert(Seq::<Row>::empty() + s4 + given(!target.oracle(), S30_MYSQL@) =~= s5);
    lemma_stands_within(part, s5, Seq::empty(), S30_LEAK@);
    let s6 = s5 + S30_LEAK@;
    assert(Seq::<Row>::empty() + s5 + S30_LEAK@ =~= s6);
    lemma_stands_within(part, s6, Seq::empty(), S31@);
    let s7 = s6 + S31@;
    assert(Seq::<Row>::empty() + s6 + S31@ =~= s7);
    lemma_stands_within(part, s7, Seq::empty(), every_pair(10));
    let s8 = s7 + every_pair(10);
    assert(Seq::<Row>::empty() + s7 + every_pair(10) =~= s8);
    lemma_stands_within(part, s8, Seq::empty(), S31_LEAK@);
    let s9 = s8 + S31_LEAK@;
    assert(Seq::<Row>::empty() + s8 + S31_LEAK@ =~= s9);
    lemma_stands_within(part, s9, Seq::empty(), S32@);
    let s10 = s9 + S32@;
    assert(Seq::<Row>::empty() + s9 + S32@ =~= s10);
    lemma_stands_within(part, s10, Seq::empty(), given(!target.oracle(), S32_VARIABLE@));
    let s11 = s10 + given(!target.oracle(), S32_VARIABLE@);
    assert(Seq::<Row>::empty() + s10 + given(!target.oracle(), S32_VARIABLE@) =~= s11);
    lemma_stands_within(part, s11, Seq::empty(), S32_WRITE@);
    let s12 = s11 + S32_WRITE@;
    assert(Seq::<Row>::empty() + s11 + S32_WRITE@ =~= s12);
    lemma_stands_within(part, s12, Seq::empty(), S40@);
    let s13 = s12 + S40@;
    assert(Seq::<Row>::empty() + s12 + S40@ =~= s13);
    lemma_stands_within(part, s13, Seq::empty(), given(!target.oracle(), S33@));
    let s14 = s13 + given(!target.oracle(), S33@);
    assert(Seq::<Row>::empty() + s13 + given(!target.oracle(), S33@) =~= s14);
    lemma_stands_within(part, s14, Seq::empty(), given(target == Target::MariaDb, MARIADB_ROLLBACK@));
    let s15 = s14 + given(target == Target::MariaDb, MARIADB_ROLLBACK@);
    assert(Seq::<Row>::empty() + s14 + given(target == Target::MariaDb, MARIADB_ROLLBACK@) =~= s15);
    lemma_stands_within(part, s15, Seq::empty(), given(!target.oracle(), S33_XA@));
    let s16 = s15 + given(!target.oracle(), S33_XA@);
    assert(Seq::<Row>::empty() + s15 + given(!target.oracle(), S33_XA@) =~= s16);
    lemma_stands_within(part, s16, Seq::empty(), S34@);
    let s17 = s16 + S34@;
    assert(Seq::<Row>::empty() + s16 + S34@ =~= s17);
    lemma_stands_within(part, s17, Seq::empty(), given(target.oracle(), SNAPSHOT_PIN_ORACLE@));
    let s18 = s17 + given(target.oracle(), SNAPSHOT_PIN_ORACLE@);
    assert(Seq::<Row>::empty() + s17 + given(target.oracle(), SNAPSHOT_PIN_ORACLE@) =~= s18);
    lemma_stands_within(part, s18, Seq::empty(), given(!target.oracle(), SNAPSHOT_PIN_MYSQL@));
    let s19 = s18 + given(!target.oracle(), SNAPSHOT_PIN_MYSQL@);
    assert(Seq::<Row>::empty() + s18 + given(!target.oracle(), SNAPSHOT_PIN_MYSQL@) =~= s19);
    lemma_stands_within(part, s19, Seq::empty(), S34_READS@);
    let s20 = s19 + S34_READS@;
    assert(Seq::<Row>::empty() + s19 + S34_READS@ =~= s20);
    lemma_stands_within(part, s20, Seq::empty(), given(!target.oracle(), S35@));
    let s21 = s20 + given(!target.oracle(), S35@);
    assert(Seq::<Row>::empty() + s20 + given(!target.oracle(), S35@) =~= s21);
    lemma_stands_within(part, s21, Seq::empty(), given(target == Target::MariaDb, S35_MARIADB@));
    let s22 = s21 + given(target == Target::MariaDb, S35_MARIADB@);
    assert(Seq::<Row>::empty() + s21 + given(target == Target::MariaDb, S35_MARIADB@) =~= s22);
    lemma_stands_within(part, s22, Seq::empty(), given(!target.oracle(), S35_LEAK@));
    let s23 = s22 + given(!target.oracle(), S35_LEAK@);
    assert(Seq::<Row>::empty() + s22 + given(!target.oracle(), S35_LEAK@) =~= s23);
    lemma_stands_within(part, s23, Seq::empty(), given(!target.oracle(), S36@));
    let s24 = s23 + given(!target.oracle(), S36@);
    assert(Seq::<Row>::empty() + s23 + given(!target.oracle(), S36@) =~= s24);
    lemma_stands_within(part, s24, Seq::empty(), given(target == Target::MariaDb, MARIADB_ROLLBACK@));
    let s25 = s24 + given(target == Target::MariaDb, MARIADB_ROLLBACK@);
    assert(Seq::<Row>::empty() + s24 + given(target == Target::MariaDb, MARIADB_ROLLBACK@) =~= s25);
    lemma_stands_within(part, s25, Seq::empty(), given(!target.oracle(), S36_ONE_SHOT@));
    let s26 = s25 + given(!target.oracle(), S36_ONE_SHOT@);
    assert(Seq::<Row>::empty() + s25 + given(!target.oracle(), S36_ONE_SHOT@) =~= s26);
    lemma_stands_within(part, s26, Seq::empty(), given(target.oracle(), S37@));
    let s27 = s26 + given(target.oracle(), S37@);
    assert(Seq::<Row>::empty() + s26 + given(target.oracle(), S37@) =~= s27);
    lemma_stands_within(part, s27, Seq::empty(), S38@);
    let s28 = s27 + S38@;
    assert(Seq::<Row>::empty() + s27 + S38@ =~= s28);
    lemma_stands_within(part, s28, Seq::empty(), given(!target.oracle(), S39@));
    let s29 = s28 + given(!target.oracle(), S39@);
    assert(Seq::<Row>::empty() + s28 + given(!target.oracle(), S39@) =~= s29);
    lemma_stands_within(part, s29, Seq::empty(), AUTO_COMMIT_BACK@);
    let s30 = s29 + AUTO_COMMIT_BACK@;
    assert(Seq::<Row>::empty() + s29 + AUTO_COMMIT_BACK@ =~= s30);
    lemma_stands_within(part, s30, Seq::empty(), given(target.oracle(), S8@));
    let s31 = s30 + given(target.oracle(), S8@);
    assert(Seq::<Row>::empty() + s30 + given(target.oracle(), S8@) =~= s31);
    assert(s31 == scenarios(target, offered));
}

/// The probe passes only where every test in it was made and held, but for those
/// that a step left out under its own condition: each
/// mode governed what ran under it.
pub proof fn a_clean_run_passes_every_test_of_it(
    target: Target,
    offered: Seq<TransactionIsolation>,
    memory: Seq<Seen>,
    answers: Seq<Seen>,
    k: int,
)
    requires
        0 <= k < whole_run(target, offered).len(),
        is_test(whole_run(target, offered)[k]),
        clean(course(whole_run(target, offered), opening(memory), answers)),
        course(whole_run(target, offered), opening(memory), answers).at == whole_run(target, offered).len(),
    ensures
        test_held(whole_run(target, offered), opening(memory), answers, k) || left_out(
            whole_run(target, offered),
            opening(memory),
            answers,
            k,
        ),
{
    a_clean_run_passes_every_test_not_left_out(whole_run(target, offered), opening(memory), answers, k);
}

} // verus!
