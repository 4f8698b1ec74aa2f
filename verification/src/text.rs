//! Strings as sequences of characters: what the generators of Kotlin source
//! need of the standard library and of `inflections`, and joining.

use inflections::Inflect;
use vstd::prelude::*;
use vstd::string::StringExecFns;

verus! {

/// What `inflections` makes of a name when it turns it into camel case.
pub uninterp spec fn camel_case(name: Seq<char>) -> Seq<char>;

/// What `inflections` makes of a name when it turns it into Pascal case.
pub uninterp spec fn pascal_case(name: Seq<char>) -> Seq<char>;

/// `text` with `to` in place of each occurrence of `from`, the occurrences
/// taken from the left and not overlapping.
pub open spec fn replaced_all(text: Seq<char>, from: Seq<char>, to: Seq<char>) -> Seq<char>
    recommends
        from.len() > 0,
    decreases text.len(),
{
    if from.len() == 0 || text.len() < from.len() {
        text
    } else if from.is_prefix_of(text) {
        to + replaced_all(text.skip(from.len() as int), from, to)
    } else {
        seq![text[0]] + replaced_all(text.drop_first(), from, to)
    }
}

/// `text` with `to` in place of each `from`.
pub open spec fn replaced(text: Seq<char>, from: char, to: Seq<char>) -> Seq<char>
    decreases text.len(),
{
    if text.len() == 0 {
        text
    } else if text.last() == from {
        replaced(text.drop_last(), from, to) + to
    } else {
        replaced(text.drop_last(), from, to).push(text.last())
    }
}

/// The character of a decimal digit.
pub open spec fn digit(d: nat) -> char {
    if d == 0 {
        '0'
    } else if d == 1 {
        '1'
    } else if d == 2 {
        '2'
    } else if d == 3 {
        '3'
    } else if d == 4 {
        '4'
    } else if d == 5 {
        '5'
    } else if d == 6 {
        '6'
    } else if d == 7 {
        '7'
    } else if d == 8 {
        '8'
    } else {
        '9'
    }
}

/// A number in decimal digits, without sign and without leading zeros.
pub open spec fn decimal(n: nat) -> Seq<char>
    decreases n,
{
    if n < 10 {
        seq![digit(n)]
    } else {
        decimal(n / 10).push(digit(n % 10))
    }
}

/// The parts one after the other, with `separator` between each two.
pub open spec fn joined(parts: Seq<Seq<char>>, separator: Seq<char>) -> Seq<char>
    decreases parts.len(),
{
    if parts.len() == 0 {
        Seq::empty()
    } else if parts.len() == 1 {
        parts[0]
    } else {
        joined(parts.drop_last(), separator) + separator + parts.last()
    }
}

/// The views of a sequence of strings, in the same order.
pub open spec fn string_views(parts: Seq<String>) -> Seq<Seq<char>> {
    parts.map_values(|part: String| part@)
}

/// `Inflect::to_camel_case` of `inflections`: the name in camel case. The
/// result depends on the name alone and is not spelled out here.
#[verifier::external_body]
pub(crate) fn to_camel_case(name: &str) -> (camel: String)
    ensures
        camel@ == camel_case(name@),
{
    name.to_camel_case()
}

/// `Inflect::to_pascal_case` of `inflections`: the name in Pascal case. The
/// result depends on the name alone and is not spelled out here.
#[verifier::external_body]
pub(crate) fn to_pascal_case(name: &str) -> (pascal: String)
    ensures
        pascal@ == pascal_case(name@),
{
    name.to_pascal_case()
}

/// `str::replace` with a string that is not empty as the pattern: a copy of
/// `text` with `to` in place of each match of `from`, the matches found from
/// the left and not overlapping.
#[verifier::external_body]
pub(crate) fn replace_all(text: &str, from: &str, to: &str) -> (out: String)
    requires
        from@.len() > 0,
    ensures
        out@ == replaced_all(text@, from@, to@),
{
    text.replace(from, to)
}

/// `str::ends_with` with a string as the pattern: whether `text` ends with
/// `suffix`.
#[verifier::external_body]
pub(crate) fn ends_with(text: &str, suffix: &str) -> (found: bool)
    ensures
        found == suffix@.is_suffix_of(text@),
{
    text.ends_with(suffix)
}

/// `str::replace` with a character as the pattern: a copy of `text` with
/// `to` in place of each `from`.
#[verifier::external_body]
pub(crate) fn replace_char(text: &str, from: char, to: &str) -> (out: String)
    ensures
        out@ == replaced(text@, from, to@),
{
    text.replace(from, to)
}

/// `usize::to_string`: the number in decimal digits.
#[verifier::external_body]
pub(crate) fn usize_to_string(n: usize) -> (out: String)
    ensures
        out@ == decimal(n as nat),
{
    n.to_string()
}

/// `==` on `str`: whether two strings hold the same characters.
#[verifier::external_body]
pub(crate) fn str_eq(a: &str, b: &str) -> (same: bool)
    ensures
        same == (a@ == b@),
{
    a == b
}

/// `str::starts_with` with a string as the pattern: whether `text` begins
/// with `prefix`.
#[verifier::external_body]
pub(crate) fn starts_with(text: &str, prefix: &str) -> (found: bool)
    ensures
        found == prefix@.is_prefix_of(text@),
{
    text.starts_with(prefix)
}

/// Joined with nothing between them, one part more is the parts before it
/// followed by that part.
pub proof fn lemma_joined_plain_next(parts: Seq<Seq<char>>, n: int)
    requires
        0 <= n < parts.len(),
    ensures
        joined(parts.take(n + 1), ""@) == joined(parts.take(n), ""@) + parts[n],
{
    reveal_strlit("");
    assert(parts.take(n + 1).drop_last() =~= parts.take(n));
    assert(parts.take(n + 1).last() == parts[n]);
    if n == 0 {
        assert(joined(parts.take(0), ""@) =~= Seq::<char>::empty());
        assert(Seq::<char>::empty() + parts[0] =~= parts[0]);
    } else {
        assert(joined(parts.take(n), ""@) + ""@ + parts[n] =~= joined(parts.take(n), ""@)
            + parts[n]);
    }
}

/// Joins `parts` with `separator` between each two of them.
pub fn join(parts: &Vec<String>, separator: &str) -> (out: String)
    ensures
        out@ == joined(string_views(parts@), separator@),
{
    let ghost views = string_views(parts@);
    let mut out = String::new();
    let mut i: usize = 0;
    while i < parts.len()
        invariant
            i <= parts.len(),
            views == string_views(parts@),
            out@ == joined(views.take(i as int), separator@),
        decreases parts.len() - i,
    {
        assert(views.take(i + 1).drop_last() =~= views.take(i as int));
        assert(views.take(i + 1).last() == parts@[i as int]@);
        if i > 0 {
            out.append(separator);
        } else {
            assert(out@ + parts@[i as int]@ =~= parts@[i as int]@);
        }
        out.append(parts[i].as_str());
        i = i + 1;
    }
    assert(views.take(i as int) =~= views);
    out
}

} // verus!
