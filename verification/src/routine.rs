//! Routines as the catalog describes them, and what the object browser makes
//! of one.
use vstd::prelude::*;
use vstd::string::*;

use crate::text::{
    begins_with, chars_of, count_text, decimal, same, same_but_case, same_ignoring_case, starts,
    views,
};

verus! {

/// A routine's argument rows, by name; a function's return has none.
#[derive(Debug)]
pub struct RoutineDefinition {
    pub arguments: Vec<Option<String>>,
}

/// What the catalog answers about a routine.
#[derive(Debug)]
pub enum RoutineDefinitionLookup {
    Defined(RoutineDefinition),
    Unreadable(String),
}

/// What the object browser shows for a click on a routine.
#[derive(Debug)]
pub struct Delivery {
    pub name: String,
    pub kind: String,
    pub alert: Option<String>,
    pub sql: Option<String>,
}

/// What a lookup is worth as a definition: the catalog's refusal is an error.
pub open spec fn as_definition(lookup: RoutineDefinitionLookup) -> Result<
    RoutineDefinition,
    Seq<char>,
> {
    match lookup {
        RoutineDefinitionLookup::Defined(definition) => Ok(definition),
        RoutineDefinitionLookup::Unreadable(reason) => Err(reason@),
    }
}

/// A definition, or the catalog's refusal as an error.
pub fn definition_or_refusal(lookup: RoutineDefinitionLookup) -> (r: Result<
    RoutineDefinition,
    String,
>)
    ensures
        match as_definition(lookup) {
            Ok(definition) => r == Ok::<RoutineDefinition, String>(definition),
            Err(reason) => r matches Err(e) && e@ == reason,
        },
{
    match lookup {
        RoutineDefinitionLookup::Defined(definition) => Ok(definition),
        RoutineDefinitionLookup::Unreadable(reason) => Err(reason),
    }
}

/// What is said of a lookup that answered with a definition where the catalog
/// was to refuse.
pub open spec fn answered_words(what: Seq<char>, rows: int) -> Seq<char> {
    what + ": answered with a definition of "@ + decimal(rows)
        + " argument rows instead of refusing"@
}

/// What is said of a lookup that could not be made where the catalog was to
/// refuse.
pub open spec fn failed_words(what: Seq<char>, error: Seq<char>) -> Seq<char> {
    what + ": the read itself failed ("@ + error
        + ") - that is not the catalog refusing, and the object browser treats the two differently"@
}

pub fn answered_text(what: &str, rows: usize) -> (r: String)
    ensures
        r@ == answered_words(what@, rows as int),
{
    let mut out = what.to_owned();
    out.append(": answered with a definition of ");
    out.append(count_text(rows).as_str());
    out.append(" argument rows instead of refusing");
    out
}

pub fn failed_text(what: &str, error: &str) -> (r: String)
    ensures
        r@ == failed_words(what@, error@),
{
    let mut out = what.to_owned();
    out.append(": the read itself failed (");
    out.append(error);
    out.append(
        ") - that is not the catalog refusing, and the object browser treats the two differently",
    );
    out
}

/// What a lookup is worth as a refusal: a definition is an error, and so is a
/// lookup that could not be made.
pub open spec fn as_refusal(
    lookup: Result<RoutineDefinitionLookup, String>,
    what: Seq<char>,
) -> Result<Seq<char>, Seq<char>> {
    match lookup {
        Ok(RoutineDefinitionLookup::Unreadable(reason)) => Ok(reason@),
        Ok(RoutineDefinitionLookup::Defined(definition)) => Err(
            answered_words(what, definition.arguments@.len() as int),
        ),
        Err(error) => Err(failed_words(what, error@)),
    }
}

/// The catalog's refusal, or an error naming the road the lookup took.
pub fn refusal_reason(lookup: Result<RoutineDefinitionLookup, String>, what: &str) -> (r: Result<
    String,
    String,
>)
    ensures
        match as_refusal(lookup, what@) {
            Ok(reason) => r matches Ok(text) && text@ == reason,
            Err(error) => r matches Err(e) && e@ == error,
        },
{
    match lookup {
        Ok(RoutineDefinitionLookup::Unreadable(reason)) => Ok(reason),
        Ok(RoutineDefinitionLookup::Defined(definition)) => Err(
            answered_text(what, definition.arguments.len()),
        ),
        Err(error) => Err(failed_text(what, error.as_str())),
    }
}

/// A lookup is worth either a definition or a refusal, never both; and both
/// readings of a refusal give the same reason.
pub proof fn refusal_is_no_definition(lookup: RoutineDefinitionLookup, what: Seq<char>)
    ensures
        as_definition(lookup) is Ok <==> as_refusal(Ok(lookup), what) is Err,
        as_definition(lookup) matches Err(reason) ==> as_refusal(Ok(lookup), what) == Ok::<
            Seq<char>,
            Seq<char>,
        >(reason),
{
}

/// The names among the argument rows.
pub open spec fn given_names(arguments: Seq<Option<String>>) -> Seq<Seq<char>>
    decreases arguments.len(),
{
    if arguments.len() == 0 {
        Seq::empty()
    } else {
        let before = given_names(arguments.drop_last());
        match arguments.last() {
            Some(name) => before.push(name@),
            None => before,
        }
    }
}

pub fn given_names_of(arguments: &Vec<Option<String>>) -> (r: Vec<String>)
    ensures
        views(r@) == given_names(arguments@),
{
    let mut out: Vec<String> = Vec::new();
    let mut i: usize = 0;
    assert(views(out@) =~= given_names(arguments@.take(0)));
    while i < arguments.len()
        invariant
            i <= arguments@.len(),
            views(out@) == given_names(arguments@.take(i as int)),
        decreases arguments@.len() - i,
    {
        let ghost before = out@;
        assert(arguments@.take(i + 1).drop_last() =~= arguments@.take(i as int));
        match &arguments[i] {
            Some(name) => {
                out.push(name.clone());
                assert(views(out@) =~= views(before).push(name@));
            },
            None => {},
        }
        i += 1;
    }
    assert(arguments@.take(i as int) =~= arguments@);
    out
}

/// Whether a listing holds a routine of exactly this name and kind.
pub open spec fn lists(listing: Seq<(String, String)>, name: Seq<char>, kind: Seq<char>) -> bool {
    exists|i: int| 0 <= i < listing.len() && (#[trigger] listing[i]).0@ == name && listing[i].1@ == kind
}

pub fn does_list(listing: &Vec<(String, String)>, name: &str, kind: &str) -> (r: bool)
    ensures
        r == lists(listing@, name@, kind@),
{
    let mut i: usize = 0;
    while i < listing.len()
        invariant
            i <= listing@.len(),
            forall|k: int|
                0 <= k < i ==> !((#[trigger] listing@[k]).0@ == name@ && listing@[k].1@ == kind@),
        decreases listing@.len() - i,
    {
        if same(listing[i].0.as_str(), name) && same(listing[i].1.as_str(), kind) {
            assert(listing@[i as int].0@ == name@);
            return true;
        }
        i += 1;
    }
    false
}

/// Whether a listing holds a routine of this name, of any kind.
pub open spec fn lists_name(listing: Seq<(String, String)>, name: Seq<char>) -> bool {
    exists|i: int| 0 <= i < listing.len() && (#[trigger] listing[i]).0@ == name
}

pub fn does_list_name(listing: &Vec<(String, String)>, name: &str) -> (r: bool)
    ensures
        r == lists_name(listing@, name@),
{
    let mut i: usize = 0;
    while i < listing.len()
        invariant
            i <= listing@.len(),
            forall|k: int| 0 <= k < i ==> (#[trigger] listing@[k]).0@ != name@,
        decreases listing@.len() - i,
    {
        if same(listing[i].0.as_str(), name) {
            assert(listing@[i as int].0@ == name@);
            return true;
        }
        i += 1;
    }
    false
}

/// How a listing spells the first routine of a name, whatever its case.
pub open spec fn listed_spelling(listing: Seq<(String, String)>, name: Seq<char>) -> Option<
    Seq<char>,
>
    decreases listing.len(),
{
    if listing.len() == 0 {
        None
    } else if same_ignoring_case(listing[0].0@, name) {
        Some(listing[0].0@)
    } else {
        listed_spelling(listing.drop_first(), name)
    }
}

pub fn listed_spelling_of(listing: &Vec<(String, String)>, name: &str) -> (r: Option<String>)
    ensures
        r is Some <==> listed_spelling(listing@, name@) is Some,
        r matches Some(spelling) ==> listed_spelling(listing@, name@) == Some(spelling@),
{
    let mut i: usize = 0;
    assert(listing@.skip(0) =~= listing@);
    while i < listing.len()
        invariant
            i <= listing@.len(),
            listed_spelling(listing@, name@) == listed_spelling(listing@.skip(i as int), name@),
        decreases listing@.len() - i,
    {
        assert(listing@.skip(i as int).drop_first() =~= listing@.skip(i + 1));
        if same_but_case(listing[i].0.as_str(), name) {
            return Some(listing[i].0.clone());
        }
        i += 1;
    }
    None
}

pub open spec fn name_char(c: char) -> bool {
    'a' <= c <= 'z' || 'A' <= c <= 'Z' || '0' <= c <= '9' || c == '_'
}

fn is_name_char(c: char) -> (r: bool)
    ensures
        r == name_char(c),
{
    ('a' <= c && c <= 'z') || ('A' <= c && c <= 'Z') || ('0' <= c && c <= '9') || c == '_'
}

/// Oracle's limit on an identifier.
pub const NAME_LIMIT: usize = 128;

/// The pieces of a text between the characters that no name holds.
pub open spec fn name_words(s: Seq<char>) -> Seq<Seq<char>>
    decreases s.len(),
{
    if s.len() == 0 {
        seq![Seq::empty()]
    } else {
        let before = name_words(s.drop_last());
        if name_char(s.last()) {
            before.drop_last().push(before.last().push(s.last()))
        } else {
            before.push(Seq::empty())
        }
    }
}

fn name_words_of(s: &str) -> (r: Vec<String>)
    ensures
        views(r@) == name_words(s@),
{
    let x = chars_of(s);
    let mut out: Vec<String> = Vec::new();
    let mut word = String::new();
    let mut i: usize = 0;
    assert(views(out@).push(word@) =~= name_words(x@.take(0)));
    while i < x.len()
        invariant
            i <= x@.len(),
            views(out@).push(word@) == name_words(x@.take(i as int)),
        decreases x@.len() - i,
    {
        let ghost before = views(out@).push(word@);
        assert(x@.take(i + 1).drop_last() =~= x@.take(i as int));
        assert(before.drop_last() =~= views(out@));
        if is_name_char(x[i]) {
            word.push(x[i]);
        } else {
            let done = word;
            out.push(done);
            word = String::new();
            assert(views(out@) =~= before);
        }
        i += 1;
    }
    assert(x@.take(i as int) =~= x@);
    let ghost before = views(out@).push(word@);
    out.push(word);
    assert(views(out@) =~= before);
    out
}

/// A word that is a generated variable's name and longer than the limit.
pub open spec fn too_long(word: Seq<char>) -> bool {
    begins_with(word, "v_"@) && word.len() > NAME_LIMIT
}

pub open spec fn first_too_long(words: Seq<Seq<char>>) -> Option<Seq<char>>
    decreases words.len(),
{
    if words.len() == 0 {
        None
    } else if too_long(words[0]) {
        Some(words[0])
    } else {
        first_too_long(words.drop_first())
    }
}

/// The first generated name in a script that is over the limit.
pub open spec fn over_limit(s: Seq<char>) -> Option<Seq<char>> {
    first_too_long(name_words(s))
}

pub fn over_limit_name(script: &str) -> (r: Option<String>)
    ensures
        r is Some <==> over_limit(script@) is Some,
        r matches Some(word) ==> over_limit(script@) == Some(word@) && word@.len() > NAME_LIMIT,
{
    let words = name_words_of(script);
    let ghost all = name_words(script@);
    let mut i: usize = 0;
    assert(all.skip(0) =~= all);
    while i < words.len()
        invariant
            i <= words@.len(),
            views(words@) == all,
            first_too_long(all) == first_too_long(all.skip(i as int)),
            all == name_words(script@),
        decreases words@.len() - i,
    {
        assert(all.skip(i as int).drop_first() =~= all.skip(i + 1));
        assert(words@[i as int]@ == all[i as int]);
        let size: usize = chars_of(words[i].as_str()).len();
        if size > NAME_LIMIT && starts(words[i].as_str(), "v_") {
            return Some(words[i].clone());
        }
        i += 1;
    }
    None
}

} // verus!
