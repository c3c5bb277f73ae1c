//! Text as a sequence of characters: searching, trimming, case folding,
//! replacing, joining and decimal numbers.
use vstd::prelude::*;
use vstd::string::*;
use vstd::utf8::is_ascii_chars;

verus! {

/// `std`'s `String::push`: appends one character.
pub assume_specification[ std::string::String::push ](s: &mut std::string::String, c: char)
    ensures
        final(s)@ == old(s)@.push(c),
;

/// What `str::to_uppercase` makes of a text.
pub uninterp spec fn unicode_uppercase(s: Seq<char>) -> Seq<char>;

/// `std`'s `str::to_uppercase`: the Unicode upper-case mapping of the text,
/// which on ASCII text is the ASCII one.
#[verifier::external_body]
pub(crate) fn to_uppercase(s: &str) -> (r: String)
    ensures
        r@ == unicode_uppercase(s@),
        is_ascii_chars(s@) ==> r@ == upper(s@),
{
    s.to_uppercase()
}

/// What the `{:?}` form of a string is.
pub uninterp spec fn debug_form(s: Seq<char>) -> Seq<char>;

/// `std`'s `Debug` for `str`: the text between double quotes, escaped.
#[verifier::external_body]
pub(crate) fn quoted(s: &str) -> (r: String)
    ensures
        r@ == debug_form(s@),
{
    format!("{:?}", s)
}

/// What `ParseIntError` says of a text that is not an `i64`.
pub uninterp spec fn integer_error(s: Seq<char>) -> Seq<char>;

/// `std`'s `str::parse::<i64>`: an optional sign and at least one decimal
/// digit, in the range of the type; any other text is an error, whose words
/// are `integer_error`.
#[verifier::external_body]
pub(crate) fn parse_integer(s: &str) -> (r: Result<i64, String>)
    ensures
        r is Ok <==> integer_value(s@) is Some,
        r matches Ok(v) ==> integer_value(s@) == Some(v as int),
        r matches Err(e) ==> e@ == integer_error(s@),
{
    s.parse::<i64>().map_err(|e| e.to_string())
}

pub open spec fn is_digit(c: char) -> bool {
    '0' <= c <= '9'
}

pub open spec fn all_digits(s: Seq<char>) -> bool {
    forall|i: int| 0 <= i < s.len() ==> is_digit(#[trigger] s[i])
}

/// The number that a sequence of decimal digits stands for.
pub open spec fn digits_value(s: Seq<char>) -> nat
    decreases s.len(),
{
    if s.len() == 0 {
        0
    } else {
        10 * digits_value(s.drop_last()) + (s.last() as nat - '0' as nat) as nat
    }
}

/// The `i64` that a text spells, if it spells one.
pub open spec fn integer_value(s: Seq<char>) -> Option<int> {
    let negative = s.len() > 0 && s[0] == '-';
    let signed = s.len() > 0 && (s[0] == '-' || s[0] == '+');
    let digits = if signed { s.drop_first() } else { s };
    let value = if negative { -(digits_value(digits) as int) } else { digits_value(digits) as int };
    if digits.len() > 0 && all_digits(digits) && i64::MIN <= value <= i64::MAX {
        Some(value)
    } else {
        None
    }
}

/// The Unicode `White_Space` property, which `char::is_whitespace` tests.
pub open spec fn white_space(c: char) -> bool {
    ||| '\u{9}' <= c <= '\u{d}'
    ||| c == ' '
    ||| c == '\u{85}'
    ||| c == '\u{a0}'
    ||| c == '\u{1680}'
    ||| '\u{2000}' <= c <= '\u{200a}'
    ||| c == '\u{2028}'
    ||| c == '\u{2029}'
    ||| c == '\u{202f}'
    ||| c == '\u{205f}'
    ||| c == '\u{3000}'
}

pub fn is_white_space(c: char) -> (r: bool)
    ensures
        r == white_space(c),
{
    ('\u{9}' <= c && c <= '\u{d}') || c == ' ' || c == '\u{85}' || c == '\u{a0}' || c == '\u{1680}'
        || ('\u{2000}' <= c && c <= '\u{200a}') || c == '\u{2028}' || c == '\u{2029}' || c
        == '\u{202f}' || c == '\u{205f}' || c == '\u{3000}'
}

pub open spec fn lower_char(c: char) -> char {
    if 'A' <= c <= 'Z' { (c as u8 + 32) as char } else { c }
}

pub open spec fn upper_char(c: char) -> char {
    if 'a' <= c <= 'z' { (c as u8 - 32) as char } else { c }
}

/// ASCII letters lowered, every other character kept.
pub open spec fn lower(s: Seq<char>) -> Seq<char> {
    Seq::new(s.len(), |i: int| lower_char(s[i]))
}

/// ASCII letters raised, every other character kept.
pub open spec fn upper(s: Seq<char>) -> Seq<char> {
    Seq::new(s.len(), |i: int| upper_char(s[i]))
}

pub open spec fn same_ignoring_case(a: Seq<char>, b: Seq<char>) -> bool {
    lower(a) == lower(b)
}

/// Whether `needle` stands in `s` at position `at`.
pub open spec fn stands_at(s: Seq<char>, needle: Seq<char>, at: int) -> bool {
    &&& 0 <= at
    &&& at + needle.len() <= s.len()
    &&& s.subrange(at, at + needle.len()) == needle
}

pub open spec fn contains(s: Seq<char>, needle: Seq<char>) -> bool {
    exists|at: int| #[trigger] stands_at(s, needle, at)
}

pub open spec fn begins_with(s: Seq<char>, prefix: Seq<char>) -> bool {
    stands_at(s, prefix, 0)
}

pub open spec fn ends_with(s: Seq<char>, suffix: Seq<char>) -> bool {
    stands_at(s, suffix, s.len() - suffix.len())
}

pub open spec fn trim_start(s: Seq<char>) -> Seq<char>
    decreases s.len(),
{
    if s.len() > 0 && white_space(s[0]) {
        trim_start(s.drop_first())
    } else {
        s
    }
}

pub open spec fn trim_end(s: Seq<char>) -> Seq<char>
    decreases s.len(),
{
    if s.len() > 0 && white_space(s.last()) {
        trim_end(s.drop_last())
    } else {
        s
    }
}

pub open spec fn trim(s: Seq<char>) -> Seq<char> {
    trim_end(trim_start(s))
}

/// The characters of a text.
pub fn chars_of(s: &str) -> (r: Vec<char>)
    ensures
        r@ == s@,
{
    let mut out: Vec<char> = Vec::new();
    for c in it: s.chars()
        invariant
            it.seq() == s@,
            out@ == s@.take(it.index()),
    {
        out.push(c);
    }
    out
}

/// The text of the characters `from..to`.
pub fn text_of(chars: &Vec<char>, from: usize, to: usize) -> (r: String)
    requires
        from <= to <= chars@.len(),
    ensures
        r@ == chars@.subrange(from as int, to as int),
{
    let mut out = String::new();
    let mut i: usize = from;
    while i < to
        invariant
            from <= i <= to <= chars@.len(),
            out@ == chars@.subrange(from as int, i as int),
        decreases to - i,
    {
        out.push(chars[i]);
        i += 1;
        assert(chars@.subrange(from as int, i as int) =~= chars@.subrange(
            from as int,
            i - 1,
        ).push(chars@[i - 1]));
    }
    out
}

/// Whether `needle` stands in `s` at position `at`.
fn stands_at_exec(s: &Vec<char>, needle: &Vec<char>, at: usize) -> (r: bool)
    requires
        at + needle@.len() <= s@.len(),
    ensures
        r == stands_at(s@, needle@, at as int),
{
    let size: usize = s.len();
    let mut i: usize = 0;
    while i < needle.len()
        invariant
            i <= needle@.len(),
            at + needle@.len() <= s@.len(),
            size == s@.len(),
            forall|k: int| 0 <= k < i ==> s@[at + k] == needle@[k],
        decreases needle@.len() - i,
    {
        if s[at + i] != needle[i] {
            proof {
                if s@.subrange(at as int, at + needle@.len()) == needle@ {
                    assert(s@.subrange(at as int, at + needle@.len())[i as int] == needle@[i as int]);
                }
            }
            return false;
        }
        i += 1;
    }
    assert(s@.subrange(at as int, at + needle@.len()) =~= needle@);
    true
}

/// Whether two texts are equal.
pub fn same(a: &str, b: &str) -> (r: bool)
    ensures
        r == (a@ == b@),
{
    let x = chars_of(a);
    let y = chars_of(b);
    if x.len() != y.len() {
        return false;
    }
    let r = stands_at_exec(&x, &y, 0);
    proof {
        assert(x@.subrange(0, x@.len() as int) =~= x@);
    }
    r
}

/// `str::contains` with a text.
pub fn finds(s: &str, needle: &str) -> (r: bool)
    ensures
        r == contains(s@, needle@),
{
    let x = chars_of(s);
    let y = chars_of(needle);
    if y.len() > x.len() {
        return false;
    }
    let last: usize = x.len() - y.len();
    let mut at: usize = 0;
    while at < last && !stands_at_exec(&x, &y, at)
        invariant
            last == x@.len() - y@.len(),
            at <= last,
            forall|k: int| 0 <= k < at ==> !stands_at(x@, y@, k),
        decreases last - at,
    {
        at += 1;
    }
    stands_at_exec(&x, &y, at)
}

/// `str::starts_with` with a text.
pub fn starts(s: &str, prefix: &str) -> (r: bool)
    ensures
        r == begins_with(s@, prefix@),
{
    let x = chars_of(s);
    let y = chars_of(prefix);
    if y.len() > x.len() {
        return false;
    }
    stands_at_exec(&x, &y, 0)
}

/// `str::ends_with` with a text.
pub fn ends(s: &str, suffix: &str) -> (r: bool)
    ensures
        r == ends_with(s@, suffix@),
{
    let x = chars_of(s);
    let y = chars_of(suffix);
    if y.len() > x.len() {
        return false;
    }
    stands_at_exec(&x, &y, x.len() - y.len())
}

fn lower_char_exec(c: char) -> (r: char)
    ensures
        r == lower_char(c),
{
    if 'A' <= c && c <= 'Z' {
        (c as u8 + 32) as char
    } else {
        c
    }
}

fn upper_char_exec(c: char) -> (r: char)
    ensures
        r == upper_char(c),
{
    if 'a' <= c && c <= 'z' {
        (c as u8 - 32) as char
    } else {
        c
    }
}

/// `str::to_ascii_lowercase`.
pub fn to_lower(s: &str) -> (r: String)
    ensures
        r@ == lower(s@),
{
    let mut out = String::new();
    for c in it: s.chars()
        invariant
            it.seq() == s@,
            out@ == lower(s@.take(it.index())),
    {
        out.push(lower_char_exec(c));
        assert(out@ =~= lower(s@.take(it.index() + 1)));
    }
    assert(s@.take(s@.len() as int) =~= s@);
    out
}

/// `str::to_ascii_uppercase`.
pub fn to_upper(s: &str) -> (r: String)
    ensures
        r@ == upper(s@),
{
    let mut out = String::new();
    for c in it: s.chars()
        invariant
            it.seq() == s@,
            out@ == upper(s@.take(it.index())),
    {
        out.push(upper_char_exec(c));
        assert(out@ =~= upper(s@.take(it.index() + 1)));
    }
    assert(s@.take(s@.len() as int) =~= s@);
    out
}

/// `str::eq_ignore_ascii_case`.
pub fn same_but_case(a: &str, b: &str) -> (r: bool)
    ensures
        r == same_ignoring_case(a@, b@),
{
    let x = to_lower(a);
    let y = to_lower(b);
    same(x.as_str(), y.as_str())
}

proof fn lemma_trim_start(s: Seq<char>, from: int)
    requires
        0 <= from <= s.len(),
        forall|k: int| 0 <= k < from ==> white_space(#[trigger] s[k]),
        from < s.len() ==> !white_space(s[from]),
    ensures
        trim_start(s) == s.skip(from),
    decreases from,
{
    if from > 0 {
        let t = s.drop_first();
        assert forall|k: int| 0 <= k < from - 1 implies white_space(#[trigger] t[k]) by {
            assert(t[k] == s[k + 1]);
        }
        lemma_trim_start(t, from - 1);
        assert(t.skip(from - 1) =~= s.skip(from));
    } else {
        assert(s.skip(0) =~= s);
    }
}

proof fn lemma_trim_end(s: Seq<char>, to: int)
    requires
        0 <= to <= s.len(),
        forall|k: int| to <= k < s.len() ==> white_space(#[trigger] s[k]),
        0 < to ==> !white_space(s[to - 1]),
    ensures
        trim_end(s) == s.take(to),
    decreases s.len() - to,
{
    if to < s.len() {
        lemma_trim_end(s.drop_last(), to);
        assert(s.drop_last().take(to) =~= s.take(to));
    } else {
        assert(s.take(to) =~= s);
    }
}

/// `str::trim_end`.
pub fn trimmed_end(s: &str) -> (r: String)
    ensures
        r@ == trim_end(s@),
{
    let x = chars_of(s);
    let mut to: usize = x.len();
    while to > 0 && is_white_space(x[to - 1])
        invariant
            to <= x@.len(),
            forall|k: int| to <= k < x@.len() ==> white_space(#[trigger] x@[k]),
        decreases to,
    {
        to -= 1;
    }
    proof {
        lemma_trim_end(x@, to as int);
    }
    text_of(&x, 0, to)
}

/// `str::trim_start`.
pub fn trimmed_start(s: &str) -> (r: String)
    ensures
        r@ == trim_start(s@),
{
    let x = chars_of(s);
    let mut from: usize = 0;
    while from < x.len() && is_white_space(x[from])
        invariant
            from <= x@.len(),
            forall|k: int| 0 <= k < from ==> white_space(#[trigger] x@[k]),
        decreases x@.len() - from,
    {
        from += 1;
    }
    proof {
        lemma_trim_start(x@, from as int);
    }
    text_of(&x, from, x.len())
}

/// `str::trim`.
pub fn trimmed(s: &str) -> (r: String)
    ensures
        r@ == trim(s@),
{
    let t = trimmed_start(s);
    trimmed_end(t.as_str())
}

/// Every occurrence of `from`, left to right and without overlap, replaced by
/// `to`.
pub open spec fn replaced(s: Seq<char>, from: Seq<char>, to: Seq<char>) -> Seq<char>
    decreases s.len(),
{
    if s.len() == 0 || from.len() == 0 {
        s
    } else if stands_at(s, from, 0) {
        to + replaced(s.skip(from.len() as int), from, to)
    } else {
        seq![s[0]] + replaced(s.drop_first(), from, to)
    }
}

/// Whether a text is free of a character.
pub open spec fn lacks(s: Seq<char>, c: char) -> bool {
    forall|i: int| 0 <= i < s.len() ==> #[trigger] s[i] != c
}

/// A text that is free of what is replaced, or of its first character, stays as
/// it is.
pub proof fn nothing_to_replace(s: Seq<char>, from: Seq<char>, to: Seq<char>)
    requires
        from.len() > 0,
        lacks(s, from[0]),
    ensures
        replaced(s, from, to) == s,
    decreases s.len(),
{
    if s.len() > 0 {
        if stands_at(s, from, 0) {
            assert(s.subrange(0, from.len() as int)[0] == from[0]);
            assert(s[0] == from[0]);
        }
        assert forall|i: int| 0 <= i < s.drop_first().len() implies #[trigger] s.drop_first()[i]
            != from[0] by {
            assert(s.drop_first()[i] == s[i + 1]);
        }
        nothing_to_replace(s.drop_first(), from, to);
        assert(seq![s[0]] + s.drop_first() =~= s);
    }
}

/// `str::replace` of a non-empty text.
pub fn replace(s: &str, from: &str, to: &str) -> (r: String)
    requires
        from@.len() > 0,
    ensures
        r@ == replaced(s@, from@, to@),
{
    let x = chars_of(s);
    let f = chars_of(from);
    let mut out = String::new();
    let mut i: usize = 0;
    proof {
        assert(x@.skip(0) =~= x@);
    }
    while i < x.len()
        invariant
            i <= x@.len(),
            f@ == from@,
            f@.len() > 0,
            out@ + replaced(x@.skip(i as int), f@, to@) == replaced(x@, f@, to@),
        decreases x@.len() - i,
    {
        let ghost rest = x@.skip(i as int);
        let mut found: bool = false;
        if f.len() <= x.len() - i {
            found = stands_at_exec(&x, &f, i);
            assert(rest.subrange(0, f@.len() as int) =~= x@.subrange(i as int, i + f@.len()));
        }
        assert(found == stands_at(rest, f@, 0));
        if found {
            let ghost before = out@;
            out.append(to);
            i += f.len();
            assert(rest.skip(f@.len() as int) =~= x@.skip(i as int));
            assert(out@ + replaced(x@.skip(i as int), f@, to@) =~= before + (to@ + replaced(
                x@.skip(i as int),
                f@,
                to@,
            )));
        } else {
            let ghost before = out@;
            out.push(x[i]);
            i += 1;
            assert(rest.drop_first() =~= x@.skip(i as int));
            assert(out@ + replaced(x@.skip(i as int), f@, to@) =~= before + (seq![rest[0]]
                + replaced(x@.skip(i as int), f@, to@)));
        }
    }
    assert(x@.skip(i as int) =~= Seq::<char>::empty());
    assert(out@ + Seq::<char>::empty() =~= out@);
    out
}

/// The texts one after another, with `sep` between each two.
pub open spec fn joined(parts: Seq<Seq<char>>, sep: Seq<char>) -> Seq<char>
    decreases parts.len(),
{
    if parts.len() == 0 {
        Seq::empty()
    } else if parts.len() == 1 {
        parts[0]
    } else {
        joined(parts.drop_last(), sep) + sep + parts.last()
    }
}

/// The views of a list of texts.
pub open spec fn views(texts: Seq<String>) -> Seq<Seq<char>> {
    Seq::new(texts.len(), |i: int| texts[i]@)
}

/// `[String]::join`.
pub fn join(parts: &Vec<String>, sep: &str) -> (r: String)
    ensures
        r@ == joined(views(parts@), sep@),
{
    let mut out = String::new();
    let mut i: usize = 0;
    while i < parts.len()
        invariant
            i <= parts@.len(),
            out@ == joined(views(parts@.take(i as int)), sep@),
        decreases parts@.len() - i,
    {
        if i > 0 {
            out.append(sep);
        }
        out.append(parts[i].as_str());
        i += 1;
        proof {
            let now = views(parts@.take(i as int));
            assert(now.drop_last() =~= views(parts@.take(i - 1)));
            assert(now.last() == parts@[i - 1]@);
            if i == 1 {
                assert(out@ =~= now[0]);
            }
        }
    }
    assert(parts@.take(i as int) =~= parts@);
    out
}

/// The decimal digits of a number.
pub open spec fn digits(n: nat) -> Seq<char>
    decreases n,
{
    if n < 10 {
        seq![digit_char(n)]
    } else {
        digits(n / 10).push(digit_char(n % 10))
    }
}

pub open spec fn digit_char(n: nat) -> char {
    ('0' as u8 + n) as char
}

/// A number as decimal text, with a minus sign where it is negative.
pub open spec fn decimal(n: int) -> Seq<char> {
    if n < 0 { seq!['-'] + digits((-n) as nat) } else { digits(n as nat) }
}

fn natural(n: u64) -> (r: String)
    ensures
        r@ == digits(n as nat),
    decreases n,
{
    let c: char = (48 + (n % 10) as u8) as char;
    if n < 10 {
        let mut out = String::new();
        out.push(c);
        assert(out@ =~= digits(n as nat));
        out
    } else {
        let mut out = natural(n / 10);
        out.push(c);
        out
    }
}

/// `u64`/`usize` as decimal text.
pub fn count_text(n: usize) -> (r: String)
    ensures
        r@ == decimal(n as int),
{
    natural(n as u64)
}

/// `i64` as decimal text.
pub fn integer_text(n: i64) -> (r: String)
    ensures
        r@ == decimal(n as int),
{
    if n >= 0 {
        natural(n as u64)
    } else {
        let mut out = String::new();
        out.push('-');
        let size: u64 = (-(n as i128)) as u64;
        out.append(natural(size).as_str());
        out
    }
}

fn large_natural(n: u128) -> (r: String)
    ensures
        r@ == digits(n as nat),
    decreases n,
{
    let c: char = (48 + (n % 10) as u8) as char;
    if n < 10 {
        let mut out = String::new();
        out.push(c);
        assert(out@ =~= digits(n as nat));
        out
    } else {
        let mut out = large_natural(n / 10);
        out.push(c);
        out
    }
}

/// `u128` as decimal text.
pub fn very_wide_text(n: u128) -> (r: String)
    ensures
        r@ == decimal(n as int),
{
    large_natural(n)
}

/// A number of at most 65 bits as decimal text.
pub fn wide_text(n: i128) -> (r: String)
    requires
        -0x1_0000_0000_0000_0000 < n < 0x1_0000_0000_0000_0000,
    ensures
        r@ == decimal(n as int),
{
    if n >= 0 {
        natural(n as u64)
    } else {
        let mut out = String::new();
        out.push('-');
        let size: u64 = (-n) as u64;
        out.append(natural(size).as_str());
        out
    }
}

/// `true` or `false`.
pub open spec fn truth(b: bool) -> Seq<char> {
    if b { "true"@ } else { "false"@ }
}

pub fn truth_text(b: bool) -> (r: &'static str)
    ensures
        r@ == truth(b),
{
    if b {
        "true"
    } else {
        "false"
    }
}

/// The pieces of a text between the occurrences of a character.
pub open spec fn split_on(s: Seq<char>, c: char) -> Seq<Seq<char>>
    decreases s.len(),
{
    if s.len() == 0 {
        seq![Seq::empty()]
    } else {
        let before = split_on(s.drop_last(), c);
        if s.last() == c {
            before.push(Seq::empty())
        } else {
            before.drop_last().push(before.last().push(s.last()))
        }
    }
}

/// `str::split` with one character.
pub fn split(s: &str, c: char) -> (r: Vec<String>)
    ensures
        views(r@) == split_on(s@, c),
{
    let x = chars_of(s);
    let mut out: Vec<String> = Vec::new();
    let mut piece = String::new();
    let mut i: usize = 0;
    assert(views(out@).push(piece@) =~= split_on(x@.take(0), c));
    while i < x.len()
        invariant
            i <= x@.len(),
            views(out@).push(piece@) == split_on(x@.take(i as int), c),
        decreases x@.len() - i,
    {
        let ghost before = views(out@).push(piece@);
        assert(x@.take(i + 1).drop_last() =~= x@.take(i as int));
        assert(before.drop_last() =~= views(out@));
        if x[i] == c {
            let ghost old_out = out@;
            let done = piece;
            out.push(done);
            piece = String::new();
            assert(views(out@) =~= before);
        } else {
            piece.push(x[i]);
        }
        i += 1;
    }
    assert(x@.take(i as int) =~= x@);
    let ghost old_out = out@;
    out.push(piece);
    assert(views(out@) =~= views(old_out).push(piece@));
    out
}

/// The maximal runs of characters that are not white space.
pub open spec fn fields(s: Seq<char>) -> Seq<Seq<char>>
    decreases s.len(),
{
    if s.len() == 0 {
        Seq::empty()
    } else {
        let front = s.drop_last();
        let before = fields(front);
        if white_space(s.last()) {
            before
        } else if front.len() == 0 || white_space(front.last()) {
            before.push(seq![s.last()])
        } else {
            before.drop_last().push(before.last().push(s.last()))
        }
    }
}

/// `str::split_whitespace`.
pub fn split_fields(s: &str) -> (r: Vec<String>)
    ensures
        views(r@) == fields(s@),
{
    let x = chars_of(s);
    let mut out: Vec<String> = Vec::new();
    let mut piece = String::new();
    let mut open: bool = false;
    let mut i: usize = 0;
    assert(views(out@) =~= fields(x@.take(0)));
    while i < x.len()
        invariant
            i <= x@.len(),
            open == (i > 0 && !white_space(x@[i - 1])),
            open ==> views(out@).push(piece@) == fields(x@.take(i as int)),
            !open ==> views(out@) == fields(x@.take(i as int)) && piece@.len() == 0,
        decreases x@.len() - i,
    {
        let ghost front = x@.take(i as int);
        assert(x@.take(i + 1).drop_last() =~= front);
        assert(i > 0 ==> front.last() == x@[i - 1]);
        if is_white_space(x[i]) {
            if open {
                let ghost before = views(out@).push(piece@);
                let done = piece;
                out.push(done);
                piece = String::new();
                assert(views(out@) =~= before);
            }
            open = false;
        } else {
            let ghost was = piece@;
            piece.push(x[i]);
            proof {
                if open {
                    assert(views(out@).push(was).drop_last() =~= views(out@));
                } else {
                    assert(piece@ =~= seq![x@[i as int]]);
                }
            }
            open = true;
        }
        i += 1;
    }
    assert(x@.take(i as int) =~= x@);
    if open {
        let ghost before = views(out@).push(piece@);
        out.push(piece);
        assert(views(out@) =~= before);
    }
    out
}

/// Dashes and underscores as blanks.
pub open spec fn spaced(s: Seq<char>) -> Seq<char> {
    Seq::new(s.len(), |i: int| if s[i] == '-' || s[i] == '_' { ' ' } else { s[i] })
}

pub fn spaced_text(s: &str) -> (r: String)
    ensures
        r@ == spaced(s@),
{
    let mut out = String::new();
    for c in it: s.chars()
        invariant
            it.seq() == s@,
            out@ == spaced(s@.take(it.index())),
    {
        out.push(if c == '-' || c == '_' { ' ' } else { c });
        assert(out@ =~= spaced(s@.take(it.index() + 1)));
    }
    assert(s@.take(s@.len() as int) =~= s@);
    out
}

/// Whether a message holds one of the phrases that `|` parts, whatever the
/// case of either.
pub open spec fn mentions_any(message: Seq<char>, phrases: Seq<char>) -> bool {
    exists|i: int|
        0 <= i < split_on(phrases, '|').len() && contains(
            lower(message),
            lower(#[trigger] split_on(phrases, '|')[i]),
        )
}

pub fn mentions(message: &str, phrases: &str) -> (r: bool)
    ensures
        r == mentions_any(message@, phrases@),
{
    let text = to_lower(message);
    let all = split(phrases, '|');
    let mut i: usize = 0;
    while i < all.len()
        invariant
            i <= all@.len(),
            views(all@) == split_on(phrases@, '|'),
            text@ == lower(message@),
            forall|k: int|
                0 <= k < i ==> !contains(
                    lower(message@),
                    lower(#[trigger] split_on(phrases@, '|')[k]),
                ),
        decreases all@.len() - i,
    {
        let phrase = to_lower(all[i].as_str());
        assert(all@[i as int]@ == split_on(phrases@, '|')[i as int]);
        if finds(text.as_str(), phrase.as_str()) {
            return true;
        }
        i += 1;
    }
    false
}

/// The views of a table of literals.
pub open spec fn texts(list: Seq<&'static str>) -> Seq<Seq<char>> {
    Seq::new(list.len(), |i: int| list[i]@)
}

/// A table of literals as owned texts.
pub fn strings(list: &[&'static str]) -> (r: Vec<String>)
    ensures
        views(r@) == texts(list@),
{
    let mut out: Vec<String> = Vec::new();
    let mut i: usize = 0;
    while i < list.len()
        invariant
            i <= list@.len(),
            out@.len() == i,
            forall|k: int| 0 <= k < i ==> (#[trigger] out@[k])@ == list@[k]@,
        decreases list@.len() - i,
    {
        out.push(list[i].to_owned());
        i += 1;
    }
    assert(views(out@) =~= texts(list@));
    out
}

/// Whether two lists hold the same texts.
pub fn same_texts(a: &Vec<String>, b: &Vec<String>) -> (r: bool)
    ensures
        r == (views(a@) == views(b@)),
{
    assert(views(a@).len() == a@.len());
    assert(views(b@).len() == b@.len());
    if a.len() != b.len() {
        return false;
    }
    let mut i: usize = 0;
    while i < a.len()
        invariant
            i <= a@.len() == b@.len(),
            forall|k: int| 0 <= k < i ==> a@[k]@ == #[trigger] b@[k]@,
        decreases a@.len() - i,
    {
        if !same(a[i].as_str(), b[i].as_str()) {
            assert(views(a@)[i as int] != views(b@)[i as int]);
            return false;
        }
        i += 1;
    }
    assert(views(a@) =~= views(b@));
    true
}

/// Splitting gives at least one piece.
pub proof fn lemma_split_has_one(s: Seq<char>, c: char)
    ensures
        split_on(s, c).len() > 0,
    decreases s.len(),
{
    if s.len() > 0 {
        lemma_split_has_one(s.drop_last(), c);
    }
}

/// How often a text occurs in another, left to right and without overlap.
pub open spec fn occurrences(s: Seq<char>, needle: Seq<char>) -> nat
    decreases s.len(),
{
    if s.len() == 0 || needle.len() == 0 {
        0
    } else if stands_at(s, needle, 0) {
        1 + occurrences(s.skip(needle.len() as int), needle)
    } else {
        occurrences(s.drop_first(), needle)
    }
}

proof fn lemma_occurrences(s: Seq<char>, needle: Seq<char>)
    ensures
        occurrences(s, needle) <= s.len(),
    decreases s.len(),
{
    if s.len() == 0 || needle.len() == 0 {
    } else if stands_at(s, needle, 0) {
        lemma_occurrences(s.skip(needle.len() as int), needle);
    } else {
        lemma_occurrences(s.drop_first(), needle);
    }
}

/// How often a non-empty text occurs in another: `str::matches` and `count`.
pub fn occurrences_of(s: &str, needle: &str) -> (r: usize)
    requires
        needle@.len() > 0,
    ensures
        r == occurrences(s@, needle@),
{
    let x = chars_of(s);
    let f = chars_of(needle);
    let size: usize = x.len();
    let mut found: usize = 0;
    let mut i: usize = 0;
    proof {
        assert(x@.skip(0) =~= x@);
        lemma_occurrences(x@, f@);
    }
    while i < size
        invariant
            i <= size == x@.len(),
            f@.len() > 0,
            found + occurrences(x@.skip(i as int), f@) == occurrences(x@, f@),
            occurrences(x@, f@) <= size,
        decreases size - i,
    {
        let ghost rest = x@.skip(i as int);
        let mut here: bool = false;
        if f.len() <= size - i {
            here = stands_at_exec(&x, &f, i);
            assert(rest.subrange(0, f@.len() as int) =~= x@.subrange(i as int, i + f@.len()));
        }
        assert(here == stands_at(rest, f@, 0));
        if here {
            assert(rest.skip(f@.len() as int) =~= x@.skip(i + f@.len()));
            found += 1;
            i += f.len();
        } else {
            assert(rest.drop_first() =~= x@.skip(i + 1));
            i += 1;
        }
    }
    assert(x@.skip(i as int) =~= Seq::<char>::empty());
    found
}

/// A text so many times over.
pub open spec fn repeated(s: Seq<char>, n: nat) -> Seq<char>
    decreases n,
{
    if n == 0 { Seq::empty() } else { repeated(s, (n - 1) as nat) + s }
}

/// `str::repeat`.
pub fn repeat(s: &str, n: usize) -> (r: String)
    ensures
        r@ == repeated(s@, n as nat),
{
    let mut out = String::new();
    let mut i: usize = 0;
    while i < n
        invariant
            i <= n,
            out@ == repeated(s@, i as nat),
        decreases n - i,
    {
        out.append(s);
        i += 1;
    }
    out
}

} // verus!
