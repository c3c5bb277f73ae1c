//! What the operations on texts do: how texts are taken apart and put together.
use vstd::prelude::*;
use vstd::string::*;

use crate::text::{
    all_digits, begins_with, contains, decimal, digit_char, digits, digits_value, ends_with, fields,
    integer_value, is_digit, joined, lacks, lower, lower_char, mentions_any, occurrences, repeated,
    replaced, same_ignoring_case, spaced, split_on, stands_at, trim, trim_end, trim_start, truth,
    upper, upper_char, white_space,
};

verus! {

/// A text stands in another exactly where the other is what stands before it, it,
/// and what stands after it.
pub proof fn a_text_stands_between_two(s: Seq<char>, needle: Seq<char>)
    ensures
        contains(s, needle) <==> exists|before: Seq<char>, after: Seq<char>|
            s == #[trigger] (before + needle + after),
        begins_with(s, needle) <==> exists|after: Seq<char>| s == #[trigger] (needle + after),
        ends_with(s, needle) <==> exists|before: Seq<char>| s == #[trigger] (before + needle),
{
    if contains(s, needle) {
        let at = choose|at: int| #[trigger] stands_at(s, needle, at);
        let before = s.take(at);
        let after = s.skip(at + needle.len());
        assert(s =~= before + s.subrange(at, at + needle.len()) + after);
        assert(s == before + needle + after);
    }
    if exists|before: Seq<char>, after: Seq<char>| s == #[trigger] (before + needle + after) {
        let (before, after) = choose|before: Seq<char>, after: Seq<char>|
            s == #[trigger] (before + needle + after);
        assert(s.subrange(before.len() as int, (before.len() + needle.len()) as int) =~= needle);
        assert(stands_at(s, needle, before.len() as int));
    }
    if begins_with(s, needle) {
        let after = s.skip(needle.len() as int);
        assert(s =~= s.subrange(0, needle.len() as int) + after);
        assert(s == needle + after);
    }
    if exists|after: Seq<char>| s == #[trigger] (needle + after) {
        let after = choose|after: Seq<char>| s == #[trigger] (needle + after);
        assert(s.subrange(0, needle.len() as int) =~= needle);
    }
    if ends_with(s, needle) {
        let at = s.len() - needle.len();
        let before = s.take(at);
        assert(s =~= before + s.subrange(at, at + needle.len()));
        assert(s == before + needle);
    }
    if exists|before: Seq<char>| s == #[trigger] (before + needle) {
        let before = choose|before: Seq<char>| s == #[trigger] (before + needle);
        assert(s.subrange(before.len() as int, (before.len() + needle.len()) as int) =~= needle);
    }
}

proof fn lemma_split_nonempty(s: Seq<char>, c: char)
    ensures
        split_on(s, c).len() > 0,
    decreases s.len(),
{
    if s.len() > 0 {
        lemma_split_nonempty(s.drop_last(), c);
    }
}

/// A text without the character is its only piece; the pieces of two texts with
/// the character between them are those of the first and those of the second.
pub proof fn a_text_is_split_where_the_character_stands(a: Seq<char>, b: Seq<char>, c: char)
    ensures
        lacks(a, c) ==> split_on(a, c) == seq![a],
        split_on(a.push(c) + b, c) == split_on(a, c) + split_on(b, c),
    decreases b.len(), a.len(),
{
    if lacks(a, c) {
        lemma_unsplit(a, c);
    }
    if b.len() == 0 {
        assert(a.push(c) + b =~= a.push(c));
        assert(a.push(c).drop_last() =~= a);
        assert(split_on(b, c) == seq![Seq::<char>::empty()]);
        assert(split_on(a, c) + split_on(b, c) =~= split_on(a, c).push(Seq::empty()));
    } else {
        let all = a.push(c) + b;
        let front = b.drop_last();
        a_text_is_split_where_the_character_stands(a, front, c);
        lemma_split_nonempty(front, c);
        assert(all.drop_last() =~= a.push(c) + front);
        assert(all.last() == b.last());
        let x = split_on(a, c);
        let y = split_on(front, c);
        if b.last() == c {
            assert((x + y).push(Seq::empty()) =~= x + y.push(Seq::empty()));
        } else {
            assert((x + y).drop_last() =~= x + y.drop_last());
            assert((x + y).last() == y.last());
            assert((x + y).drop_last().push((x + y).last().push(b.last())) =~= x
                + y.drop_last().push(y.last().push(b.last())));
        }
    }
}

proof fn lemma_unsplit(s: Seq<char>, c: char)
    requires
        lacks(s, c),
    ensures
        split_on(s, c) == seq![s],
    decreases s.len(),
{
    if s.len() == 0 {
        assert(s =~= Seq::<char>::empty());
    } else {
        let front = s.drop_last();
        assert forall|i: int| 0 <= i < front.len() implies #[trigger] front[i] != c by {
            assert(front[i] == s[i]);
        }
        lemma_unsplit(front, c);
        assert(s[s.len() - 1] != c);
        let before = split_on(front, c);
        assert(front.push(s.last()) =~= s);
        assert(before.drop_last().push(before.last().push(s.last())) =~= seq![s]);
    }
}

/// A message mentions a phrase without a bar where it has it in it, whatever the
/// case; it mentions one of two lists of phrases where it mentions one of the first
/// or one of the second.
pub proof fn a_message_mentions_any_of_the_phrases(
    message: Seq<char>,
    a: Seq<char>,
    b: Seq<char>,
)
    ensures
        lacks(a, '|') ==> (mentions_any(message, a) <==> contains(lower(message), lower(a))),
        mentions_any(message, a.push('|') + b) <==> mentions_any(message, a) || mentions_any(
            message,
            b,
        ),
{
    a_text_is_split_where_the_character_stands(a, b, '|');
    let x = split_on(a, '|');
    let y = split_on(b, '|');
    if lacks(a, '|') {
        assert(x[0] == a);
        if contains(lower(message), lower(a)) {
            assert(contains(lower(message), lower(x[0])));
        }
    }
    let all = a.push('|') + b;
    let z = split_on(all, '|');
    assert(z == x + y);
    if mentions_any(message, all) {
        let i = choose|i: int|
            0 <= i < z.len() && contains(lower(message), lower(#[trigger] z[i]));
        if i < x.len() {
            assert(contains(lower(message), lower(x[i])));
        } else {
            assert(contains(lower(message), lower(y[i - x.len()])));
        }
    }
    if mentions_any(message, a) {
        let i = choose|i: int|
            0 <= i < x.len() && contains(lower(message), lower(#[trigger] x[i]));
        assert(z[i] == x[i]);
    }
    if mentions_any(message, b) {
        let i = choose|i: int|
            0 <= i < y.len() && contains(lower(message), lower(#[trigger] y[i]));
        assert(z[x.len() + i] == y[i]);
    }
}

/// The texts of two lists are put together one list after the other, with what
/// stands between two texts between them.
pub proof fn lists_are_joined_one_after_the_other(
    a: Seq<Seq<char>>,
    b: Seq<Seq<char>>,
    text: Seq<char>,
    sep: Seq<char>,
)
    ensures
        joined(Seq::<Seq<char>>::empty(), sep) == Seq::<char>::empty(),
        joined(seq![text], sep) == text,
        a.len() > 0 && b.len() > 0 ==> joined(a + b, sep) == joined(a, sep) + sep + joined(b, sep),
    decreases b.len(),
{
    if a.len() > 0 && b.len() > 0 {
        let all = a + b;
        assert(all.drop_last() =~= a + b.drop_last());
        assert(all.last() == b.last());
        if b.len() == 1 {
            assert(all.drop_last() =~= a);
        } else {
            lists_are_joined_one_after_the_other(a, b.drop_last(), text, sep);
            assert(joined(all, sep) =~= joined(a, sep) + sep + joined(b, sep));
        }
    }
}

/// Raising and lowering: a letter goes to its counterpart, every other character
/// stays, and a text keeps its length.
pub proof fn letters_go_to_their_counterparts(s: Seq<char>, i: int, c: char)
    ensures
        upper(s).len() == s.len(),
        lower(s).len() == s.len(),
        0 <= i < s.len() ==> upper(s)[i] == upper_char(s[i]) && lower(s)[i] == lower_char(s[i]),
        'a' <= c <= 'z' ==> upper_char(c) as int == c as int - 'a' as int + 'A' as int,
        'A' <= c <= 'Z' ==> lower_char(c) as int == c as int - 'A' as int + 'a' as int,
        !('a' <= c <= 'z') ==> upper_char(c) == c,
        !('A' <= c <= 'Z') ==> lower_char(c) == c,
        upper(upper(s)) == upper(s),
        lower(upper(s)) == lower(s),
        upper(lower(s)) == upper(s),
{
    assert(upper(upper(s)) =~= upper(s));
    assert(lower(upper(s)) =~= lower(s));
    assert(upper(lower(s)) =~= upper(s));
}

/// Two texts are the same but for case exactly where they are as long and letter
/// for letter the same when raised.
pub proof fn texts_are_the_same_but_for_case(a: Seq<char>, b: Seq<char>)
    ensures
        same_ignoring_case(a, b) <==> upper(a) == upper(b),
        same_ignoring_case(a, b) ==> a.len() == b.len(),
        same_ignoring_case(a, upper(a)),
        same_ignoring_case(a, lower(a)),
{
    letters_go_to_their_counterparts(a, 0, 'a');
    letters_go_to_their_counterparts(b, 0, 'a');
    if same_ignoring_case(a, b) {
        assert(upper(lower(a)) == upper(lower(b)));
        assert(lower(a).len() == lower(b).len());
    }
    if upper(a) == upper(b) {
        assert(lower(upper(a)) == lower(upper(b)));
    }
    assert(lower(lower(a)) =~= lower(a));
}

/// Whether a text is nothing but blanks.
pub open spec fn blank(s: Seq<char>) -> bool {
    forall|i: int| 0 <= i < s.len() ==> white_space(#[trigger] s[i])
}

proof fn lemma_trim_start_shape(s: Seq<char>)
    ensures
        trim_start(s).len() <= s.len(),
        s == s.take(s.len() - trim_start(s).len()) + trim_start(s),
        blank(s.take(s.len() - trim_start(s).len())),
        trim_start(s).len() > 0 ==> !white_space(trim_start(s)[0]),
    decreases s.len(),
{
    let n = s.len() - trim_start(s).len();
    if s.len() > 0 && white_space(s[0]) {
        let rest = s.drop_first();
        lemma_trim_start_shape(rest);
        let k = rest.len() - trim_start(rest).len();
        assert(n == k + 1);
        assert(s.take(n) =~= seq![s[0]] + rest.take(k));
        assert(s =~= s.take(n) + trim_start(s)) by {
            assert(s =~= seq![s[0]] + rest);
        }
        assert forall|i: int| 0 <= i < n implies white_space(#[trigger] s.take(n)[i]) by {
            if i > 0 {
                assert(s.take(n)[i] == rest.take(k)[i - 1]);
            }
        }
    } else {
        assert(s =~= s.take(0) + s);
    }
}

proof fn lemma_trim_end_shape(s: Seq<char>)
    ensures
        trim_end(s).len() <= s.len(),
        s == trim_end(s) + s.skip(trim_end(s).len() as int),
        blank(s.skip(trim_end(s).len() as int)),
        trim_end(s).len() > 0 ==> !white_space(trim_end(s).last()),
    decreases s.len(),
{
    if s.len() > 0 && white_space(s.last()) {
        let rest = s.drop_last();
        lemma_trim_end_shape(rest);
        let k = trim_end(rest).len() as int;
        assert(s.skip(k) =~= rest.skip(k).push(s.last()));
        assert(s =~= rest.push(s.last()));
        assert(s =~= trim_end(s) + s.skip(k));
        assert forall|i: int| 0 <= i < s.skip(k).len() implies white_space(
            #[trigger] s.skip(k)[i],
        ) by {
            if i < rest.skip(k).len() {
                assert(s.skip(k)[i] == rest.skip(k)[i]);
            }
        }
    } else {
        assert(s =~= s + s.skip(s.len() as int));
    }
}

/// A trimmed text is the text without the blanks around it: it begins and ends
/// with none, and only blanks stood before and after it.
pub proof fn trimming_takes_the_blanks_around(s: Seq<char>)
    ensures
        exists|before: Seq<char>, after: Seq<char>|
            s == #[trigger] (before + trim(s) + after) && blank(before) && blank(after),
        trim(s).len() > 0 ==> !white_space(trim(s)[0]) && !white_space(trim(s).last()),
        exists|before: Seq<char>| s == #[trigger] (before + trim_start(s)) && blank(before),
        trim_start(s).len() > 0 ==> !white_space(trim_start(s)[0]),
        exists|after: Seq<char>| s == #[trigger] (trim_end(s) + after) && blank(after),
        trim_end(s).len() > 0 ==> !white_space(trim_end(s).last()),
{
    lemma_trim_start_shape(s);
    lemma_trim_end_shape(s);
    let t = trim_start(s);
    lemma_trim_end_shape(t);
    let before = s.take(s.len() - t.len());
    let after = t.skip(trim(s).len() as int);
    assert(s =~= before + trim(s) + after);
    if trim(s).len() > 0 {
        assert(trim(s)[0] == t[0]);
    }
}

/// What is a blank and what is not, of the characters that the probes meet.
pub proof fn blanks_are_no_letters(c: char)
    ensures
        white_space(' ') && white_space('\t') && white_space('\n') && white_space('\r'),
        'a' <= c <= 'z' || 'A' <= c <= 'Z' || '0' <= c <= '9' ==> !white_space(c),
        '!' <= c <= '~' ==> !white_space(c),
{
}

proof fn lemma_blank_only(s: Seq<char>)
    requires
        blank(s),
    ensures
        trim_start(s) == Seq::<char>::empty(),
        trim_end(s) == Seq::<char>::empty(),
    decreases s.len(),
{
    if s.len() > 0 {
        assert(white_space(s[0]));
        assert(white_space(s[s.len() - 1]));
        let a = s.drop_first();
        let b = s.drop_last();
        assert forall|i: int| 0 <= i < a.len() implies white_space(#[trigger] a[i]) by {
            assert(a[i] == s[i + 1]);
        }
        assert forall|i: int| 0 <= i < b.len() implies white_space(#[trigger] b[i]) by {
            assert(b[i] == s[i]);
        }
        lemma_blank_only(a);
        lemma_blank_only(b);
    } else {
        assert(s =~= Seq::<char>::empty());
    }
}

proof fn lemma_trim_start_over(before: Seq<char>, s: Seq<char>)
    requires
        blank(before),
        s.len() > 0,
        !white_space(s[0]),
    ensures
        trim_start(before + s) == s,
    decreases before.len(),
{
    let all = before + s;
    if before.len() > 0 {
        let rest = before.drop_first();
        assert forall|i: int| 0 <= i < rest.len() implies white_space(#[trigger] rest[i]) by {
            assert(rest[i] == before[i + 1]);
        }
        assert(white_space(before[0]));
        assert(all.drop_first() =~= rest + s);
        lemma_trim_start_over(rest, s);
    } else {
        assert(all =~= s);
    }
}

proof fn lemma_trim_end_over(s: Seq<char>, after: Seq<char>)
    requires
        blank(after),
        s.len() > 0,
        !white_space(s.last()),
    ensures
        trim_end(s + after) == s,
    decreases after.len(),
{
    let all = s + after;
    if after.len() > 0 {
        let rest = after.drop_last();
        assert forall|i: int| 0 <= i < rest.len() implies white_space(#[trigger] rest[i]) by {
            assert(rest[i] == after[i]);
        }
        assert(white_space(after[after.len() - 1]));
        assert(all.drop_last() =~= s + rest);
        lemma_trim_end_over(s, rest);
    } else {
        assert(all =~= s);
    }
}

/// Blanks around a text that begins and ends with none are all that trimming
/// takes.
pub proof fn blanks_around_are_trimmed(before: Seq<char>, s: Seq<char>, after: Seq<char>)
    requires
        blank(before),
        blank(after),
        s.len() > 0 ==> !white_space(s[0]) && !white_space(s.last()),
    ensures
        trim(before + s + after) == s,
{
    if s.len() > 0 {
        let t = s + after;
        assert(before + s + after =~= before + t);
        lemma_trim_start_over(before, t);
        lemma_trim_end_over(s, after);
    } else {
        let all = before + s + after;
        assert forall|i: int| 0 <= i < all.len() implies white_space(#[trigger] all[i]) by {
            if i < before.len() {
                assert(all[i] == before[i]);
            } else {
                assert(all[i] == after[i - before.len()]);
            }
        }
        lemma_blank_only(all);
        assert(trim_end(Seq::<char>::empty()) =~= s);
    }
}

proof fn lemma_digits(n: nat)
    ensures
        digits(n).len() > 0,
        all_digits(digits(n)),
        digits_value(digits(n)) == n,
        forall|i: int| 0 <= i < digits(n).len() ==> !white_space(#[trigger] digits(n)[i]),
    decreases n,
{
    if n < 10 {
        let s = digits(n);
        assert(s =~= seq![digit_char(n)]);
        assert(s.drop_last() =~= Seq::<char>::empty());
        assert(digits_value(s.drop_last()) == 0);
        assert(digit_char(n) as nat == '0' as nat + n);
    } else {
        lemma_digits(n / 10);
        let d = digit_char(n % 10);
        let s = digits(n);
        assert(s == digits(n / 10).push(d));
        assert(s.drop_last() =~= digits(n / 10));
        assert(d as nat == '0' as nat + n % 10);
        assert(10 * (n / 10) + n % 10 == n) by (nonlinear_arith);
        assert forall|i: int| 0 <= i < s.len() implies is_digit(#[trigger] s[i]) && !white_space(
            s[i],
        ) by {
            if i < s.len() - 1 {
                assert(s[i] == digits(n / 10)[i]);
            }
        }
    }
}

/// A number that is written out is read back as itself, whatever blanks stand
/// around it; a number out of range is read as none.
pub proof fn numbers_are_read_back(n: int, before: Seq<char>, after: Seq<char>)
    requires
        blank(before),
        blank(after),
    ensures
        i64::MIN <= n <= i64::MAX ==> integer_value(trim(before + decimal(n) + after)) == Some(n),
        !(i64::MIN <= n <= i64::MAX) ==> integer_value(trim(before + decimal(n) + after)) is None,
{
    let m = if n < 0 { (-n) as nat } else { n as nat };
    lemma_digits(m);
    let s = decimal(n);
    let d = digits(m);
    if n < 0 {
        assert(s =~= seq!['-'] + d);
        assert(s.drop_first() =~= d);
        assert(s.last() == d.last());
        assert(!white_space(d[d.len() - 1]));
    } else {
        assert(s == d);
        assert(is_digit(d[0]));
        assert(!white_space(d[0]));
        assert(!white_space(d[d.len() - 1]));
    }
    blanks_around_are_trimmed(before, s, after);
}

/// A text that spells a number is a sign or none, and then digits alone: at
/// least one. Anything else is no number.
pub proof fn only_digits_spell_a_number(s: Seq<char>, i: int)
    ensures
        s.len() == 0 ==> integer_value(s) is None,
        integer_value(s) is Some && 0 < i < s.len() ==> '0' <= s[i] <= '9',
        integer_value(s) is Some ==> s[0] == '-' || s[0] == '+' || '0' <= s[0] <= '9',
        s.len() == 1 && !('0' <= s[0] <= '9') ==> integer_value(s) is None,
        integer_value(s) matches Some(n) ==> i64::MIN <= n <= i64::MAX,
{
    if integer_value(s) is Some && 0 < i < s.len() {
        let signed = s[0] == '-' || s[0] == '+';
        if signed {
            assert(s.drop_first()[i - 1] == s[i]);
            assert(is_digit(s.drop_first()[i - 1]));
        } else {
            assert(is_digit(s[i]));
        }
    }
    if s.len() == 1 && !('0' <= s[0] <= '9') {
        let signed = s[0] == '-' || s[0] == '+';
        if !signed {
            assert(!is_digit(s[0]));
        }
    }
    if integer_value(s) is Some {
        let signed = s[0] == '-' || s[0] == '+';
        if !signed {
            assert(is_digit(s[0]));
        }
    }
}

/// A digit behind a number makes it ten times as much and that digit more; a
/// minus before it makes it negative, a plus changes nothing.
pub proof fn digits_stand_for_powers_of_ten(s: Seq<char>, c: char)
    requires
        s.len() > 0,
        all_digits(s),
        is_digit(c),
    ensures
        digits_value(s.push(c)) == 10 * digits_value(s) + (c as nat - '0' as nat),
        digits_value(seq![c]) == c as nat - '0' as nat,
        digits_value(s) <= i64::MAX ==> integer_value(s) == Some(digits_value(s) as int)
            && integer_value(seq!['-'] + s) == Some(-(digits_value(s) as int)) && integer_value(
            seq!['+'] + s,
        ) == integer_value(s),
{
    assert(s.push(c).drop_last() =~= s);
    assert(seq![c].drop_last() =~= Seq::<char>::empty());
    assert(digits_value(seq![c].drop_last()) == 0);
    assert((seq!['-'] + s).drop_first() =~= s);
    assert((seq!['+'] + s).drop_first() =~= s);
    assert(is_digit(s[0]));
}

/// Dashes and underscores become blanks, every other character stays.
pub proof fn separators_become_blanks(s: Seq<char>, i: int)
    ensures
        spaced(s).len() == s.len(),
        0 <= i < s.len() && (s[i] == '-' || s[i] == '_') ==> spaced(s)[i] == ' ',
        0 <= i < s.len() && s[i] != '-' && s[i] != '_' ==> spaced(s)[i] == s[i],
{
}

proof fn lemma_fields_shape(s: Seq<char>)
    ensures
        s.len() > 0 && !white_space(s.last()) ==> fields(s).len() > 0,
    decreases s.len(),
{
    if s.len() > 0 {
        lemma_fields_shape(s.drop_last());
    }
}

/// A word without blanks is its only field; a blank between two texts parts their
/// fields.
pub proof fn blanks_part_the_fields(a: Seq<char>, b: Seq<char>, c: char)
    requires
        white_space(c),
    ensures
        a.len() > 0 && (forall|i: int| 0 <= i < a.len() ==> !white_space(#[trigger] a[i]))
            ==> fields(a) == seq![a],
        fields(a.push(c) + b) == fields(a) + fields(b),
    decreases b.len(),
{
    if a.len() > 0 && (forall|i: int| 0 <= i < a.len() ==> !white_space(#[trigger] a[i])) {
        lemma_one_field(a);
    }
    if b.len() == 0 {
        assert(a.push(c) + b =~= a.push(c));
        assert(a.push(c).drop_last() =~= a);
        assert(fields(a) + fields(b) =~= fields(a));
    } else {
        let all = a.push(c) + b;
        let front = b.drop_last();
        blanks_part_the_fields(a, front, c);
        assert(all.drop_last() =~= a.push(c) + front);
        assert(all.last() == b.last());
        let x = fields(a);
        let y = fields(front);
        let d = b.last();
        if white_space(d) {
        } else if front.len() == 0 {
            assert(all.drop_last().last() == c);
            assert((x + y).push(seq![d]) =~= x + y.push(seq![d]));
        } else {
            assert(all.drop_last().last() == front.last());
            lemma_fields_shape(front);
            if white_space(front.last()) {
                assert((x + y).push(seq![d]) =~= x + y.push(seq![d]));
            } else {
                assert((x + y).drop_last() =~= x + y.drop_last());
                assert((x + y).last() == y.last());
                assert((x + y).drop_last().push((x + y).last().push(d)) =~= x
                    + y.drop_last().push(y.last().push(d)));
            }
        }
    }
}

proof fn lemma_one_field(a: Seq<char>)
    requires
        a.len() > 0,
        forall|i: int| 0 <= i < a.len() ==> !white_space(#[trigger] a[i]),
    ensures
        fields(a) == seq![a],
    decreases a.len(),
{
    let front = a.drop_last();
    assert(!white_space(a[a.len() - 1]));
    if front.len() == 0 {
        assert(fields(front) =~= Seq::<Seq<char>>::empty());
        assert(seq![a.last()] =~= a);
        assert(fields(a) =~= seq![a]);
    } else {
        assert forall|i: int| 0 <= i < front.len() implies !white_space(#[trigger] front[i]) by {
            assert(front[i] == a[i]);
        }
        lemma_one_field(front);
        assert(!white_space(front[front.len() - 1]));
        assert(front.push(a.last()) =~= a);
        assert(fields(a) =~= seq![a]);
    }
}

/// Whether a text first stands in another at a place.
pub open spec fn first_at(s: Seq<char>, needle: Seq<char>, at: int) -> bool {
    stands_at(s, needle, at) && forall|k: int| 0 <= k < at ==> !#[trigger] stands_at(s, needle, k)
}

/// A text that another does not stand in is left as it is, and counts none; where
/// the other first stands, it is replaced and counted once, and the rest is taken
/// on its own.
pub proof fn occurrences_are_found_from_the_left(
    s: Seq<char>,
    needle: Seq<char>,
    to: Seq<char>,
    at: int,
)
    requires
        needle.len() > 0,
    ensures
        !contains(s, needle) ==> replaced(s, needle, to) == s && occurrences(s, needle) == 0,
        first_at(s, needle, at) ==> replaced(s, needle, to) == s.take(at) + to + replaced(
            s.skip(at + needle.len()),
            needle,
            to,
        ) && occurrences(s, needle) == 1 + occurrences(s.skip(at + needle.len()), needle),
    decreases s.len(),
{
    if s.len() > 0 && !stands_at(s, needle, 0) {
        let rest = s.drop_first();
        assert forall|k: int| 0 <= k implies stands_at(rest, needle, k) == #[trigger] stands_at(
            s,
            needle,
            k + 1,
        ) by {
            if k + 1 + needle.len() <= s.len() {
                assert(rest.subrange(k, k + needle.len()) =~= s.subrange(
                    k + 1,
                    k + 1 + needle.len(),
                ));
            }
        }
        occurrences_are_found_from_the_left(rest, needle, to, at - 1);
        if !contains(s, needle) {
            if contains(rest, needle) {
                let k = choose|k: int| #[trigger] stands_at(rest, needle, k);
                assert(stands_at(s, needle, k + 1));
            }
            assert(seq![s[0]] + rest =~= s);
        }
        if first_at(s, needle, at) {
            assert(at > 0);
            assert(stands_at(s, needle, (at - 1) + 1));
            assert(stands_at(rest, needle, at - 1));
            assert forall|k: int| 0 <= k < at - 1 implies !#[trigger] stands_at(rest, needle, k) by {
                assert(!stands_at(s, needle, k + 1));
            }
            assert(first_at(rest, needle, at - 1));
            assert(rest.skip(at - 1 + needle.len()) =~= s.skip(at + needle.len()));
            assert(s.take(at) =~= seq![s[0]] + rest.take(at - 1));
            assert(replaced(s, needle, to) =~= s.take(at) + to + replaced(
                s.skip(at + needle.len()),
                needle,
                to,
            ));
        }
    } else if s.len() > 0 {
        assert(contains(s, needle));
        if first_at(s, needle, at) {
            assert(at == 0);
            assert(s.take(0) + to =~= to);
            assert(s.skip((0 + needle.len()) as int) =~= s.skip(needle.len() as int));
        }
    } else {
        assert(s =~= Seq::<char>::empty());
    }
}

/// A text so many times over, and then so many times more.
pub proof fn repeating_adds_up(s: Seq<char>, n: nat, m: nat)
    ensures
        repeated(s, 0) == Seq::<char>::empty(),
        repeated(s, 1) == s,
        repeated(s, n + m) == repeated(s, n) + repeated(s, m),
        repeated(s, n).len() == n * s.len(),
    decreases m, n,
{
    assert(repeated(s, 0) == Seq::<char>::empty());
    assert(repeated(s, 1) =~= s) by {
        assert(repeated(s, (1 - 1) as nat) =~= Seq::<char>::empty());
    }
    if m == 0 {
        assert(repeated(s, n) + repeated(s, 0) =~= repeated(s, n));
    } else {
        repeating_adds_up(s, n, (m - 1) as nat);
        assert((n + m - 1) as nat == n + (m - 1) as nat);
        assert(repeated(s, n + m) =~= repeated(s, n) + repeated(s, m));
    }
    lemma_repeated_len(s, n);
}

proof fn lemma_repeated_len(s: Seq<char>, n: nat)
    ensures
        repeated(s, n).len() == n * s.len(),
    decreases n,
{
    if n > 0 {
        lemma_repeated_len(s, (n - 1) as nat);
        assert((n - 1) * s.len() + s.len() == n * s.len()) by (nonlinear_arith);
    } else {
        assert(0 * s.len() == 0) by (nonlinear_arith);
    }
}

/// The two truths are told apart.
pub proof fn truths_are_told_apart()
    ensures
        truth(true) == "true"@,
        truth(false) == "false"@,
        truth(true) != truth(false),
{
    reveal_strlit("true");
    reveal_strlit("false");
}

} // verus!
