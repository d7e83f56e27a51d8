//! Pattern matching: SQL `LIKE` and regular expressions. A pattern that
//! cannot be read gives a negative match, never an error.
use vstd::prelude::*;
use like::{Escape, Like};

verus! {

/// What `like::Like::<false>::like` returns for a value and a pattern:
/// `None` where it reports the pattern invalid.
pub uninterp spec fn like_outcome(value: Seq<char>, pattern: Seq<char>) -> Option<bool>;

/// What `like::Like::<true>::like` returns for a value and a pattern in
/// which backslash escapes the next character.
pub uninterp spec fn like_escaped_outcome(value: Seq<char>, pattern: Seq<char>) -> Option<bool>;

/// The pattern that `like::Escape::escape` writes for a pattern whose escape
/// character is `escape`, where it accepts them.
pub uninterp spec fn escaped_pattern(pattern: Seq<char>, escape: Seq<char>) -> Option<Seq<char>>;

/// Whether a pattern compiles with `regex::Regex::new` and the compiled
/// expression matches the value: `None` where it does not compile.
pub uninterp spec fn regex_outcome(pattern: Seq<char>, value: Seq<char>) -> Option<bool>;

/// Relies on `like::Like::<false>::like` for `str`: its result depends on the
/// two strings alone.
#[verifier::external_body]
fn like_plain(value: &str, pattern: &str) -> (r: Option<bool>)
    ensures
        r == like_outcome(value@, pattern@),
{
    Like::<false>::like(value, pattern).ok()
}

/// Relies on `like::Like::<true>::like` for `str`: its result depends on the
/// two strings alone.
#[verifier::external_body]
fn like_with_escapes(value: &str, pattern: &str) -> (r: Option<bool>)
    ensures
        r == like_escaped_outcome(value@, pattern@),
{
    Like::<true>::like(value, pattern).ok()
}

/// Relies on `like::Escape::escape` for `str`. It may also fail to reserve
/// memory, so only a result that it gives is stated.
#[verifier::external_body]
fn escape_pattern(pattern: &str, escape: &str) -> (r: Option<String>)
    ensures
        r is Some ==> escaped_pattern(pattern@, escape@) == Some(r->0@),
{
    pattern.escape(escape).ok()
}

/// Relies on `regex::Regex::new` and `regex::Regex::is_match`: whether the
/// pattern compiles, and then whether it matches, depends on the two strings
/// alone.
#[verifier::external_body]
fn regex_match(pattern: &str, value: &str) -> (r: Option<bool>)
    ensures
        r == regex_outcome(pattern@, value@),
{
    match regex::Regex::new(pattern) {
        Ok(re) => Some(re.is_match(value)),
        Err(_) => None,
    }
}

/// SQL `value LIKE pattern`; false where the pattern is invalid.
pub fn like2__(value: String, pattern: String) -> (r: bool)
    ensures
        r == (like_outcome(value@, pattern@) == Some(true)),
{
    match like_plain(value.as_str(), pattern.as_str()) {
        Some(b) => b,
        None => false,
    }
}

/// SQL `value RLIKE pattern`; false where the pattern does not compile.
pub fn rlike__(value: String, pattern: String) -> (r: bool)
    ensures
        r == (regex_outcome(pattern@, value@) == Some(true)),
{
    match regex_match(pattern.as_str(), value.as_str()) {
        Some(b) => b,
        None => false,
    }
}

/// The match of `value` against a pattern already rewritten to backslash
/// escapes, where there is one; false where there is none or it is invalid.
pub fn like_escaped(value: &str, escaped: Option<String>) -> (r: bool)
    ensures
        escaped is None ==> !r,
        escaped is Some ==> r == (like_escaped_outcome(value@, escaped->0@) == Some(true)),
{
    match escaped {
        None => false,
        Some(p) => match like_with_escapes(value, p.as_str()) {
            Some(b) => b,
            None => false,
        },
    }
}

/// SQL `value LIKE pattern ESCAPE escape`; false where the pattern or the
/// escape string is invalid.
pub fn like3___(value: String, pattern: String, escape: String) -> (r: bool)
    ensures
        r ==> escaped_pattern(pattern@, escape@) is Some && like_escaped_outcome(
            value@,
            escaped_pattern(pattern@, escape@)->0,
        ) == Some(true),
        escaped_pattern(pattern@, escape@) is None ==> !r,
{
    let escaped = escape_pattern(pattern.as_str(), escape.as_str());
    like_escaped(value.as_str(), escaped)
}

} // verus!
