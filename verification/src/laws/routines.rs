//! The tests on routines, on the scripts made for them and on what the screen shows.
use vstd::prelude::*;
use vstd::string::*;

use crate::laws::texts::a_text_stands_between_two;
use crate::op::Op;
use crate::routine::{
    first_too_long, given_names, listed_spelling, name_char, name_words, too_long, Delivery,
    RoutineDefinition, RoutineDefinitionLookup,
};
use crate::seen::{at, names, words, Queued, Seen};
use crate::screen_verdict::{moves, scope_view, scopes};
use crate::text::{begins_with, contains, same_ignoring_case, split_on, trim_start, views};
use crate::verdict::{flag, holds, number};

verus! {

/// A routine was fetched where the catalog described it; it was not where the read
/// failed or the catalog refused.
pub proof fn a_refused_routine_is_not_fetched(
    memory: Seq<Seen>,
    slot: int,
    other: int,
    arg: Seq<char>,
    definition: RoutineDefinition,
    count: int,
)
    requires
        0 <= slot < memory.len(),
    ensures
        memory[slot] is Failed ==> !holds(Op::Fetched, slot, other, arg, memory),
        (memory[slot] matches Seen::Lookup(RoutineDefinitionLookup::Unreadable(_))) ==> !holds(
            Op::Fetched,
            slot,
            other,
            arg,
            memory,
        ),
        memory[slot] == Seen::Lookup(RoutineDefinitionLookup::Defined(definition)) ==> {
            &&& holds(Op::Fetched, slot, other, arg, memory)
            &&& holds(Op::SomeArguments, slot, other, arg, memory)
                <==> definition.arguments@.len() > 0
            &&& holds(Op::ArgumentsAre, slot, count, arg, memory)
                <==> definition.arguments@.len() == count
            &&& arg.len() > 0 ==> (holds(Op::NamesAre, slot, other, arg, memory) <==> given_names(
                definition.arguments@,
            ) == split_on(arg, '|'))
            &&& arg.len() == 0 ==> (holds(Op::NamesAre, slot, other, arg, memory) <==> given_names(
                definition.arguments@,
            ).len() == 0)
        },
        (memory[slot] matches Seen::Failed(error) && contains(error@, arg)) <==> holds(
            Op::RefusedBy,
            slot,
            other,
            arg,
            memory,
        ),
{
    if memory[slot] == Seen::Lookup(RoutineDefinitionLookup::Defined(definition)) {
        if given_names(definition.arguments@).len() == 0 {
            assert(given_names(definition.arguments@) =~= Seq::<Seq<char>>::empty());
        }
    }
}

/// The names of the arguments are those that have one, in their order.
pub proof fn argument_names_are_listed_in_order(
    a: Seq<Option<String>>,
    b: Seq<Option<String>>,
    argument: Option<String>,
)
    ensures
        given_names(a + b) == given_names(a) + given_names(b),
        argument matches Some(name) ==> given_names(seq![argument]) == seq![name@],
        argument is None ==> given_names(seq![argument]).len() == 0,
    decreases b.len(),
{
    if b.len() == 0 {
        assert(a + b =~= a);
        assert(given_names(a) + given_names(b) =~= given_names(a));
    } else {
        argument_names_are_listed_in_order(a, b.drop_last(), argument);
        assert((a + b).drop_last() =~= a + b.drop_last());
        assert((a + b).last() == b.last());
        assert(given_names(a + b) =~= given_names(a) + given_names(b));
    }
    let one = seq![argument];
    assert(one.drop_last() =~= Seq::<Option<String>>::empty());
    assert(given_names(one.drop_last()) =~= Seq::<Seq<char>>::empty());
    assert(one.last() == argument);
    match argument {
        Some(name) => {
            assert(given_names(one) =~= seq![name@]);
        },
        None => {},
    }
}

/// The tests on a listing of routines: one of exactly this name and kind, none of
/// this name, and how the first of a name is spelled.
pub proof fn a_listing_is_searched(
    memory: Seq<Seen>,
    slot: int,
    other: int,
    arg: Seq<char>,
    list: Seq<(String, String)>,
    name: Seq<char>,
    kind: Seq<char>,
    i: int,
)
    requires
        0 <= slot < memory.len(),
        memory[slot] matches Seen::Pairs(pairs) && pairs@ == list,
    ensures
        split_on(arg, '|') == seq![name, kind] ==> (holds(Op::Lists, slot, other, arg, memory)
            <==> exists|k: int|
            0 <= k < list.len() && (#[trigger] list[k]).0@ == name && list[k].1@ == kind),
        holds(Op::ListsNot, slot, other, name, memory) <==> forall|k: int|
            0 <= k < list.len() ==> (#[trigger] list[k]).0@ != name,
        holds(Op::ListsNamed, slot, other, name, memory) <==> exists|k: int|
            0 <= k < list.len() && same_ignoring_case((#[trigger] list[k]).0@, name),
        0 <= i < list.len() && same_ignoring_case(list[i].0@, name) && (forall|k: int|
            0 <= k < i ==> !same_ignoring_case((#[trigger] list[k]).0@, name)) ==> (holds(
            Op::ListedAs,
            slot,
            other,
            name,
            memory,
        ) <==> list[i].0@ == name),
{
    lemma_listed(list, name);
    if 0 <= i < list.len() && same_ignoring_case(list[i].0@, name) && (forall|k: int|
        0 <= k < i ==> !same_ignoring_case((#[trigger] list[k]).0@, name)) {
        lemma_listed_at(list, name, i);
    }
}

proof fn lemma_listed(list: Seq<(String, String)>, name: Seq<char>)
    ensures
        listed_spelling(list, name) is Some <==> exists|k: int|
            0 <= k < list.len() && same_ignoring_case((#[trigger] list[k]).0@, name),
    decreases list.len(),
{
    if list.len() > 0 {
        let rest = list.drop_first();
        lemma_listed(rest, name);
        if same_ignoring_case(list[0].0@, name) {
        } else {
            if listed_spelling(rest, name) is Some {
                let k = choose|k: int|
                    0 <= k < rest.len() && same_ignoring_case((#[trigger] rest[k]).0@, name);
                assert(list[k + 1] == rest[k]);
            }
            if exists|k: int|
                0 <= k < list.len() && same_ignoring_case((#[trigger] list[k]).0@, name) {
                let k = choose|k: int|
                    0 <= k < list.len() && same_ignoring_case((#[trigger] list[k]).0@, name);
                assert(k > 0);
                assert(rest[k - 1] == list[k]);
            }
        }
    }
}

proof fn lemma_listed_at(list: Seq<(String, String)>, name: Seq<char>, i: int)
    requires
        0 <= i < list.len(),
        same_ignoring_case(list[i].0@, name),
        forall|k: int| 0 <= k < i ==> !same_ignoring_case((#[trigger] list[k]).0@, name),
    ensures
        listed_spelling(list, name) == Some(list[i].0@),
    decreases i,
{
    if i > 0 {
        let rest = list.drop_first();
        assert(!same_ignoring_case(list[0].0@, name));
        assert forall|k: int| 0 <= k < i - 1 implies !same_ignoring_case(
            (#[trigger] rest[k]).0@,
            name,
        ) by {
            assert(rest[k] == list[k + 1]);
        }
        assert(rest[i - 1] == list[i]);
        lemma_listed_at(rest, name, i - 1);
    }
}

/// The tests on what a click delivers: a script and no alert, an alert and no
/// script, its name, its kind, and the words of the alert.
pub proof fn a_delivery_is_tested(
    memory: Seq<Seen>,
    slot: int,
    other: int,
    arg: Seq<char>,
    d: Delivery,
)
    requires
        0 <= slot < memory.len(),
        memory[slot] == Seen::Delivery(d),
    ensures
        holds(Op::OpensScript, slot, other, arg, memory) <==> d.sql is Some && d.alert is None,
        holds(Op::OpensNothing, slot, other, arg, memory) <==> d.sql is None && d.alert is Some,
        !(holds(Op::OpensScript, slot, other, arg, memory) && holds(
            Op::OpensNothing,
            slot,
            other,
            arg,
            memory,
        )),
        holds(Op::HasScript, slot, other, arg, memory) <==> d.sql is Some,
        holds(Op::DeliveredAs, slot, other, arg, memory) <==> d.name@ == arg,
        holds(Op::DeliveredKind, slot, other, arg, memory) <==> d.kind@ == arg,
        holds(Op::NameEnds, slot, other, arg, memory) <==> exists|front: Seq<char>|
            d.name@ == #[trigger] (front + arg),
        holds(Op::AlertIs, slot, other, arg, memory) <==> (d.alert matches Some(alert) && alert@
            == arg),
{
    a_text_stands_between_two(d.name@, arg);
}

/// A script begins as wanted, blanks before it aside.
pub proof fn a_script_begins_as_wanted(memory: Seq<Seen>, slot: int, other: int, arg: Seq<char>)
    requires
        0 <= slot < memory.len(),
    ensures
        holds(Op::Begins, slot, other, arg, memory) <==> exists|rest: Seq<char>|
            trim_start(words(memory[slot])) == #[trigger] (arg + rest),
{
    a_text_stands_between_two(trim_start(words(memory[slot])), arg);
}

/// The words of a script that could be names: a text of name characters is one, and
/// any other character parts the words of what stands before and after it.
pub proof fn names_are_parted_by_other_characters(a: Seq<char>, b: Seq<char>, c: char)
    requires
        !name_char(c),
    ensures
        (forall|i: int| 0 <= i < a.len() ==> name_char(#[trigger] a[i])) ==> name_words(a)
            == seq![a],
        name_words(a.push(c) + b) == name_words(a) + name_words(b),
    decreases b.len(),
{
    if forall|i: int| 0 <= i < a.len() ==> name_char(#[trigger] a[i]) {
        lemma_one_name(a);
    }
    lemma_words_nonempty(b);
    if b.len() == 0 {
        assert(a.push(c) + b =~= a.push(c));
        assert(a.push(c).drop_last() =~= a);
        assert(name_words(a) + name_words(b) =~= name_words(a).push(Seq::empty()));
    } else {
        let all = a.push(c) + b;
        let front = b.drop_last();
        names_are_parted_by_other_characters(a, front, c);
        lemma_words_nonempty(front);
        assert(all.drop_last() =~= a.push(c) + front);
        assert(all.last() == b.last());
        let x = name_words(a);
        let y = name_words(front);
        if name_char(b.last()) {
            assert((x + y).drop_last() =~= x + y.drop_last());
            assert((x + y).last() == y.last());
            assert((x + y).drop_last().push((x + y).last().push(b.last())) =~= x
                + y.drop_last().push(y.last().push(b.last())));
        } else {
            assert((x + y).push(Seq::empty()) =~= x + y.push(Seq::empty()));
        }
    }
}

proof fn lemma_words_nonempty(s: Seq<char>)
    ensures
        name_words(s).len() > 0,
    decreases s.len(),
{
    if s.len() > 0 {
        lemma_words_nonempty(s.drop_last());
    }
}

proof fn lemma_one_name(s: Seq<char>)
    requires
        forall|i: int| 0 <= i < s.len() ==> name_char(#[trigger] s[i]),
    ensures
        name_words(s) == seq![s],
    decreases s.len(),
{
    if s.len() == 0 {
        assert(s =~= Seq::<char>::empty());
    } else {
        let front = s.drop_last();
        assert forall|i: int| 0 <= i < front.len() implies name_char(#[trigger] front[i]) by {
            assert(front[i] == s[i]);
        }
        lemma_one_name(front);
        assert(name_char(s[s.len() - 1]));
        let before = name_words(front);
        assert(front.push(s.last()) =~= s);
        assert(before.drop_last().push(before.last().push(s.last())) =~= seq![s]);
    }
}

/// The names of a script are within the limit exactly where no word of it that
/// begins as a generated name does is longer than an identifier may be.
pub proof fn generated_names_keep_to_the_limit(
    memory: Seq<Seen>,
    slot: int,
    other: int,
    arg: Seq<char>,
)
    requires
        0 <= slot < memory.len(),
    ensures
        holds(Op::NamesWithinLimit, slot, other, arg, memory) <==> forall|k: int|
            0 <= k < name_words(words(memory[slot])).len() ==> !(begins_with(
                #[trigger] name_words(words(memory[slot]))[k],
                "v_"@,
            ) && name_words(words(memory[slot]))[k].len() > 128),
{
    lemma_too_long(name_words(words(memory[slot])));
}

proof fn lemma_too_long(list: Seq<Seq<char>>)
    ensures
        first_too_long(list) is None <==> forall|k: int|
            0 <= k < list.len() ==> !(begins_with(#[trigger] list[k], "v_"@) && list[k].len()
                > 128),
    decreases list.len(),
{
    if list.len() > 0 {
        let rest = list.drop_first();
        lemma_too_long(rest);
        if first_too_long(list) is None {
            assert forall|k: int| 0 <= k < list.len() implies !(begins_with(
                #[trigger] list[k],
                "v_"@,
            ) && list[k].len() > 128) by {
                if k > 0 {
                    assert(rest[k - 1] == list[k]);
                } else {
                    assert(!too_long(list[0]));
                }
            }
        } else if !too_long(list[0]) {
            let k = choose|k: int|
                0 <= k < rest.len() && begins_with(#[trigger] rest[k], "v_"@) && rest[k].len()
                    > 128;
            assert(list[k + 1] == rest[k]);
        } else {
            assert(begins_with(list[0], "v_"@) && list[0].len() > 128);
        }
    }
}

/// The tests on lists of names: the same in the same order, different, how many, and
/// what stands in them.
pub proof fn lists_of_names_are_tested(
    memory: Seq<Seen>,
    slot: int,
    other: int,
    arg: Seq<char>,
    a: Seq<String>,
    b: Seq<String>,
    count: int,
)
    requires
        0 <= slot < memory.len(),
        0 <= other < memory.len(),
        memory[slot] matches Seen::Names(list) && list@ == a,
    ensures
        (memory[other] matches Seen::Names(list) && list@ == b) ==> {
            &&& holds(Op::SameNames, slot, other, arg, memory) <==> a.len() == b.len() && forall|
                i: int,
            |
                0 <= i < a.len() ==> (#[trigger] a[i])@ == b[i]@
            &&& a.len() > 0 ==> (holds(Op::NamesDiffer, slot, other, arg, memory) <==> !holds(
                Op::SameNames,
                slot,
                other,
                arg,
                memory,
            ))
        },
        a.len() == 0 ==> holds(Op::NamesDiffer, slot, other, arg, memory),
        holds(Op::SomeNames, slot, other, arg, memory) <==> a.len() > 0,
        holds(Op::NamesAtLeast, slot, count, arg, memory) <==> a.len() >= count,
        holds(Op::NameHolds, slot, other, arg, memory) <==> exists|i: int|
            0 <= i < a.len() && contains((#[trigger] a[i])@, arg),
        holds(Op::HoldsNameAnd, slot, other, arg, memory) <==> holds(
            Op::NameHolds,
            slot,
            other,
            arg,
            memory,
        ) && flag(memory[other]),
        holds(Op::FirstBegins, slot, other, arg, memory) <==> a.len() > 0 && begins_with(
            a[0]@,
            arg,
        ),
        holds(Op::LacksName, slot, other, arg, memory) <==> forall|i: int|
            0 <= i < a.len() ==> (#[trigger] a[i])@ != arg,
{
    let x = views(a);
    let y = views(b);
    if x == y {
        assert forall|i: int| 0 <= i < a.len() implies (#[trigger] a[i])@ == b[i]@ by {
            assert(x[i] == y[i]);
        }
        assert(x.len() == y.len());
    }
    if a.len() == b.len() && (forall|i: int| 0 <= i < a.len() ==> (#[trigger] a[i])@ == b[i]@) {
        assert(x =~= y);
    }
    if exists|i: int| 0 <= i < x.len() && contains(#[trigger] x[i], arg) {
        let i = choose|i: int| 0 <= i < x.len() && contains(#[trigger] x[i], arg);
        assert(contains(a[i]@, arg));
    }
    if exists|i: int| 0 <= i < a.len() && contains((#[trigger] a[i])@, arg) {
        let i = choose|i: int| 0 <= i < a.len() && contains((#[trigger] a[i])@, arg);
        assert(contains(x[i], arg));
    }
    if exists|i: int| 0 <= i < x.len() && #[trigger] x[i] == arg {
        let i = choose|i: int| 0 <= i < x.len() && #[trigger] x[i] == arg;
        assert(a[i]@ == arg);
    }
    if exists|i: int| 0 <= i < a.len() && (#[trigger] a[i])@ == arg {
        let i = choose|i: int| 0 <= i < a.len() && (#[trigger] a[i])@ == arg;
        assert(x[i] == arg);
    }
}

/// A text holds one phrase and not the other; two pairs of numbers are the same.
pub proof fn phrases_and_pairs_are_tested(
    memory: Seq<Seen>,
    slot: int,
    other: int,
    arg: Seq<char>,
    yes: Seq<char>,
    no: Seq<char>,
)
    requires
        0 <= slot,
        slot + 1 < memory.len(),
        0 <= other,
        other + 1 < memory.len(),
        split_on(arg, '|') == seq![yes, no],
    ensures
        holds(Op::HoldsNot, slot, other, arg, memory) <==> contains(words(memory[slot]), yes)
            && !contains(words(memory[slot]), no),
        holds(Op::BothSame, slot, other, arg, memory) <==> number(memory[slot]) == number(
            memory[other],
        ) && number(memory[slot + 1]) == number(memory[other + 1]),
{
}

/// Whether a tab that stands at one place in both lists of scopes moved.
pub open spec fn moved(
    before: Seq<(String, Option<String>)>,
    after: Seq<(String, Option<String>)>,
    i: int,
) -> bool {
    0 <= i < before.len() && i < after.len() && scope_view(before[i].1) != scope_view(after[i].1)
}

proof fn lemma_moves(
    before: Seq<(String, Option<String>)>,
    after: Seq<(String, Option<String>)>,
)
    ensures
        moves(before, after).len() == 0 <==> forall|i: int| !#[trigger] moved(before, after, i),
        forall|i: int| #[trigger]
            moved(before, after, i) && (forall|k: int|
                0 <= k < i ==> !#[trigger] moved(before, after, k)) ==> moves(before, after).len()
                > 0 && moves(before, after)[0].tab == before[i].0@,
        moves(before, after).len() <= 1 <==> forall|i: int, k: int|
            #[trigger] moved(before, after, i) && #[trigger] moved(before, after, k) ==> i == k,
    decreases before.len(),
{
    if before.len() > 0 && after.len() > 0 {
        let x = before.skip(1);
        let y = after.skip(1);
        lemma_moves(x, y);
        let rest = moves(x, y);
        let all = moves(before, after);
        assert forall|i: int| 0 <= i implies #[trigger] moved(x, y, i) == moved(
            before,
            after,
            i + 1,
        ) by {
            if i < x.len() && i < y.len() {
                assert(x[i] == before[i + 1]);
                assert(y[i] == after[i + 1]);
            }
        }
        assert forall|i: int| i > 0 implies #[trigger] moved(before, after, i) == moved(
            x,
            y,
            i - 1,
        ) by {
            assert(moved(x, y, i - 1) == moved(before, after, i));
        }
        if moved(before, after, 0) {
            assert(all.len() == rest.len() + 1);
            assert(all[0].tab == before[0].0@);
            if rest.len() == 0 {
                assert forall|i: int, k: int|
                    #[trigger] moved(before, after, i) && #[trigger] moved(
                        before,
                        after,
                        k,
                    ) implies i == k by {
                    if i > 0 {
                        assert(moved(x, y, i - 1));
                    }
                    if k > 0 {
                        assert(moved(x, y, k - 1));
                    }
                }
            } else {
                let i = choose|i: int| #[trigger] moved(x, y, i);
                assert(moved(before, after, i + 1));
                assert(i + 1 != 0);
            }
        } else {
            assert(all == rest);
            if rest.len() <= 1 {
                assert forall|i: int, k: int|
                    #[trigger] moved(before, after, i) && #[trigger] moved(
                        before,
                        after,
                        k,
                    ) implies i == k by {
                    assert(moved(x, y, i - 1));
                    assert(moved(x, y, k - 1));
                }
            } else {
                let (i, k) = choose|i: int, k: int|
                    #[trigger] moved(x, y, i) && #[trigger] moved(x, y, k) && i != k;
                assert(moved(before, after, i + 1) && moved(before, after, k + 1));
            }
            assert forall|i: int| #[trigger] moved(before, after, i) && (forall|k: int|
                0 <= k < i ==> !#[trigger] moved(before, after, k)) implies all.len() > 0
                && all[0].tab == before[i].0@ by {
                assert(moved(x, y, i - 1));
                assert forall|k: int| 0 <= k < i - 1 implies !#[trigger] moved(x, y, k) by {
                    assert(!moved(before, after, k + 1));
                }
                assert(x[i - 1] == before[i]);
            }
            if all.len() == 0 {
                assert forall|i: int| !#[trigger] moved(before, after, i) by {
                    if moved(before, after, i) {
                        assert(moved(x, y, i - 1));
                    }
                }
            }
            if forall|i: int| !#[trigger] moved(before, after, i) {
                assert forall|i: int| !#[trigger] moved(x, y, i) by {
                    if moved(x, y, i) {
                        assert(moved(before, after, i + 1));
                    }
                }
            }
        }
    }
}

/// A pick of a scope moved at most one tab exactly where no two moved, and the one
/// that moved, if any did, is the tab that the pick was made on.
pub proof fn a_pick_moves_its_own_tab(
    memory: Seq<Seen>,
    slot: int,
    other: int,
    arg: Seq<char>,
    i: int,
)
    requires
        0 <= slot < memory.len(),
        0 <= other < memory.len(),
    ensures
        holds(Op::AtMostOneMoved, slot, other, arg, memory) <==> forall|j: int, k: int|
            #[trigger] moved(scopes(memory[slot]), scopes(memory[other]), j) && #[trigger] moved(
                scopes(memory[slot]),
                scopes(memory[other]),
                k,
            ) ==> j == k,
        (forall|j: int| !#[trigger] moved(scopes(memory[slot]), scopes(memory[other]), j)) ==> holds(
            Op::MovedIsOwn,
            slot,
            other,
            arg,
            memory,
        ),
        moved(scopes(memory[slot]), scopes(memory[other]), i) && (forall|k: int|
            0 <= k < i ==> !#[trigger] moved(scopes(memory[slot]), scopes(memory[other]), k)) ==> (
        holds(Op::MovedIsOwn, slot, other, arg, memory) <==> scopes(memory[slot])[i].0@ == arg),
{
    lemma_moves(scopes(memory[slot]), scopes(memory[other]));
}

/// The tests on an export that waits: it was replaced, or it ran; and what it wrote is
/// the row it was started with.
pub proof fn a_waiting_export_is_tested(
    memory: Seq<Seen>,
    slot: int,
    other: int,
    arg: Seq<char>,
    q: Queued,
)
    requires
        0 <= slot < memory.len(),
        0 <= other < memory.len(),
    ensures
        memory[slot] == Seen::Queued(q) ==> {
            &&& holds(Op::QueuedReplaced, slot, other, arg, memory) <==> q == Queued::Replaced
            &&& holds(Op::NotRun, slot, other, arg, memory) <==> q is Waiting || q is Replaced
                || q is Abandoned
            &&& holds(Op::QueuedReplaced, slot, other, arg, memory) ==> holds(
                Op::NotRun,
                slot,
                other,
                arg,
                memory,
            )
        },
        holds(Op::WroteOwnRow, slot, other, arg, memory) <==> (contains(
            words(memory[slot]),
            "VALUES ('1')"@,
        ) || contains(words(memory[slot]), "VALUES (1)"@)) && !contains(
            words(memory[slot]),
            "999"@,
        ) && number(memory[other]) == Some(1int),
{
}

} // verus!
