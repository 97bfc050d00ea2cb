//! The two regular-expression engines, and the few text functions that the extractors
//! take from elsewhere.
//!
//! The contracts in this file are believed, not proved. Each function makes one kind of
//! call into `regex`, `fancy_regex` or the standard library and hands the result back as
//! text. What a search finds is not spelled out here: it is given a name, and the contracts
//! say which name applied to which arguments the result is.

use vstd::prelude::*;
use vstd::string::StringSliceAdditionalSpecFns;
use vstd::utf8::valid_utf8;
use crate::matcher::{pattern_texts, Captures};

verus! {

/// `regex::Error`: why a pattern did not compile. It is carried, never read.
#[verifier::external_type_specification]
#[verifier::external_body]
pub struct ExRegexError(regex::Error);

/// `fancy_regex::Error`: why a pattern did not compile or a search was given up. It is
/// carried, never read.
#[verifier::external_type_specification]
#[verifier::external_body]
pub struct ExFancyError(fancy_regex::Error);

/// Whether `regex::Regex::new` accepts the pattern.
pub uninterp spec fn std_compiles(pattern: Seq<char>) -> bool;

/// What `regex::Regex::captures` finds for the pattern in the haystack: nothing, or the
/// text of each group of the first match.
pub uninterp spec fn std_captures(pattern: Seq<char>, haystack: Seq<char>) -> Option<
    Seq<Option<Seq<char>>>,
>;

/// The names that `regex::Regex::capture_names` lists for the pattern, group by group.
pub uninterp spec fn std_group_names(pattern: Seq<char>) -> Seq<Option<Seq<char>>>;

/// The text that `regex::Regex::replace_all` returns.
pub uninterp spec fn std_replaced(
    pattern: Seq<char>,
    haystack: Seq<char>,
    replacement: Seq<char>,
) -> Seq<char>;

/// Whether `regex::RegexSet::new` accepts the patterns together.
pub uninterp spec fn set_compiles(patterns: Seq<Seq<char>>) -> bool;

/// Whether `fancy_regex::Regex::new` accepts the pattern.
pub uninterp spec fn fancy_compiles(pattern: Seq<char>) -> bool;

/// What `fancy_regex::Regex::captures` returns for the pattern on the haystack: `Err` where
/// the engine gives up, else nothing or the text of each group of the first match.
pub uninterp spec fn fancy_captures(pattern: Seq<char>, haystack: Seq<char>) -> Result<
    Option<Seq<Option<Seq<char>>>>,
    (),
>;

/// What a finished run of the backtracking engine found, without the error's detail.
pub open spec fn run_text(run: Result<Option<Captures>, fancy_regex::Error>) -> Result<
    Option<Seq<Option<Seq<char>>>>,
    (),
> {
    match run {
        Ok(Some(found)) => Ok(Some(found@.groups)),
        Ok(None) => Ok(None),
        Err(_) => Err(()),
    }
}

/// The characters that mean something in a pattern.
pub open spec fn is_meta_character(c: char) -> bool {
    c == '\\' || c == '.' || c == '+' || c == '*' || c == '?' || c == '(' || c == ')' || c == '|'
        || c == '[' || c == ']' || c == '{' || c == '}' || c == '^' || c == '$' || c == '#' || c
        == '&' || c == '-' || c == '~'
}

/// `text` with a backslash put before each character that means something in a pattern.
pub open spec fn escaped_text(text: Seq<char>) -> Seq<char>
    decreases text.len(),
{
    if text.len() == 0 {
        Seq::empty()
    } else if is_meta_character(text.last()) {
        escaped_text(text.drop_last()).push('\\').push(text.last())
    } else {
        escaped_text(text.drop_last()).push(text.last())
    }
}

/// `text` with each occurrence of `from` replaced by `to`, going from left to right and
/// going on behind each occurrence found. An empty `from` occurs before every character
/// and at the end.
pub open spec fn replaced_text(text: Seq<char>, from: Seq<char>, to: Seq<char>) -> Seq<char>
    decreases text.len(),
{
    if from.len() == 0 {
        if text.len() == 0 {
            to
        } else {
            to + seq![text[0]] + replaced_text(text.drop_first(), from, to)
        }
    } else if text.len() < from.len() {
        text
    } else if text.subrange(0, from.len() as int) == from {
        to + replaced_text(text.subrange(from.len() as int, text.len() as int), from, to)
    } else {
        seq![text[0]] + replaced_text(text.drop_first(), from, to)
    }
}

/// Compiles `pattern` with `regex::Regex::new` and searches `haystack` with
/// `regex::Regex::captures`. The result is `Err` exactly where the pattern does not
/// compile. Else it is the first match as the engine reports it: the text of each group from
/// `regex::Captures::iter`, and each group's name from `regex::Regex::capture_names`.
#[verifier::external_body]
pub(crate) fn std_first_match(pattern: &str, haystack: &str) -> (r: Result<
    Option<Captures>,
    regex::Error,
>)
    ensures
        r is Ok <==> std_compiles(pattern@),
        r matches Ok(Some(found)) ==> std_captures(pattern@, haystack@) == Some(found@.groups)
            && found@.names == std_group_names(pattern@),
        r matches Ok(None) ==> std_captures(pattern@, haystack@) is None,
{
    let re = regex::Regex::new(pattern)?;
    Ok(
        re.captures(haystack).map(
            |c|
                Captures {
                    groups: c.iter().map(|m| m.map(|m| m.as_str().to_string())).collect(),
                    names: re.capture_names().map(|n| n.map(|n| n.to_string())).collect(),
                },
        ),
    )
}

/// Compiles `pattern` with `regex::Regex::new` and rewrites `haystack` with
/// `regex::Regex::replace_all`. The result is `Err` exactly where the pattern does not
/// compile, else the rewritten text.
#[verifier::external_body]
pub(crate) fn std_replace_all(pattern: &str, haystack: &str, replacement: &str) -> (r: Result<
    String,
    regex::Error,
>)
    ensures
        r is Ok <==> std_compiles(pattern@),
        r matches Ok(text) ==> text@ == std_replaced(pattern@, haystack@, replacement@),
{
    let re = regex::Regex::new(pattern)?;
    Ok(re.replace_all(haystack, replacement).into_owned())
}

/// Compiles `patterns` with `regex::RegexSet::new` and asks `regex::RegexSet::is_match`.
/// The result is `Err` exactly where the set does not compile. Else it says whether one
/// of the patterns matches somewhere in `haystack`, which is how the crate documents
/// `is_match`.
#[verifier::external_body]
pub(crate) fn set_is_match(patterns: &Vec<String>, haystack: &str) -> (r: Result<
    bool,
    regex::Error,
>)
    ensures
        r is Ok <==> set_compiles(pattern_texts(patterns@)),
        r matches Ok(hit) ==> hit == exists|i: int|
            0 <= i < patterns@.len() && (#[trigger] std_captures(patterns@[i]@, haystack@))
                is Some,
{
    let set = regex::RegexSet::new(patterns)?;
    Ok(set.is_match(haystack))
}

/// Compiles `pattern` with `fancy_regex::Regex::new` and searches `haystack` with
/// `fancy_regex::Regex::captures`. The outer result is `Err` exactly where the pattern does
/// not compile. The inner one is what the search returned: an error where the engine gave
/// up, else the first match, the text of each group from `fancy_regex::Captures::iter`.
/// This engine is not asked for names.
#[verifier::external_body]
pub(crate) fn fancy_first_match(pattern: &str, haystack: &str) -> (r: Result<
    Result<Option<Captures>, fancy_regex::Error>,
    fancy_regex::Error,
>)
    ensures
        r is Ok <==> fancy_compiles(pattern@),
        r matches Ok(run) ==> run_text(run) == fancy_captures(pattern@, haystack@),
        r matches Ok(Ok(Some(found))) ==> found@.names.len() == 0,
{
    let re = fancy_regex::Regex::new(pattern)?;
    Ok(
        re.captures(haystack).map(
            |found|
                found.map(
                    |c|
                        Captures {
                            groups: c.iter().map(|m| m.map(|m| m.as_str().to_string())).collect(),
                            names: Vec::new(),
                        },
                ),
        ),
    )
}

/// `regex::escape`: a backslash before each character that `regex_syntax::is_meta_character`
/// lists, and every character kept.
#[verifier::external_body]
pub(crate) fn escape(text: &str) -> (r: String)
    ensures
        r@ == escaped_text(text@),
{
    regex::escape(text)
}

/// `str::replace` with a text as the pattern.
#[verifier::external_body]
pub(crate) fn replace_text(text: &str, from: &str, to: &str) -> (r: String)
    ensures
        r@ == replaced_text(text@, from@, to@),
{
    text.replace(from, to)
}

/// `core::str::from_utf8`: the bytes as text where they are valid UTF-8, else nothing.
#[verifier::external_body]
pub(crate) fn text_of_bytes(bytes: &[u8]) -> (r: Option<&str>)
    ensures
        r is Some <==> valid_utf8(bytes@),
        r matches Some(text) ==> text.spec_bytes() == bytes@,
{
    core::str::from_utf8(bytes).ok()
}

} // verus!
