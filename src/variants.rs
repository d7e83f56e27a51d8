//! The nullable variants of the core string functions.
//!
//! A variant's name is the core function's name with one mark per argument:
//! `N` where the argument is nullable, `_` where it is not (after the type
//! letter `s` for the polymorphic names). Every argument follows the
//! propagate policy: an absent one makes the result absent, and the core
//! function is then not called.
use vstd::prelude::*;
use crate::case::{initcap_, initcap_spec, lower_, lower_of, upper_, upper_of};
use crate::nullable::{lift1, lift2, lift3, lift4};
use crate::pattern::{
    escaped_pattern, like2__, like3___, like_escaped_outcome, like_outcome, regex_outcome, rlike__,
};
use crate::search::{
    occurs_at, occurs_in, position__, replace___, replace_spec, split1_, split2__, split_spec, views,
};
use crate::text::{
    ascii_, char_length_, chr_, concat_s_s, is_scalar, left__, overlay3___, overlay4____,
    overlay_spec, repeat__, repeat_spec, substring2__, substring3___, substring_spec, suffix_spec,
    trim_both_s_s, trim_end_spec, trim_leading_s_s, trim_start_spec, trim_trailing_s_s,
};

verus! {

/// `concat_s_s` over a nullable argument: right.
pub fn concat_s_sN(left: String, right: Option<String>) -> (r: Option<String>)
    ensures
        r is Some <==> right is Some,
        r is Some ==> (r->0@ == left@ + right->0@),
{
    lift2(concat_s_s, Some(left), right)
}

/// `concat_s_s` over a nullable argument: left.
pub fn concat_sN_s(left: Option<String>, right: String) -> (r: Option<String>)
    ensures
        r is Some <==> left is Some,
        r is Some ==> (r->0@ == left->0@ + right@),
{
    lift2(concat_s_s, left, Some(right))
}

/// `concat_s_s` over nullable arguments: left, right.
pub fn concat_sN_sN(left: Option<String>, right: Option<String>) -> (r: Option<String>)
    ensures
        r is Some <==> (left is Some && right is Some),
        r is Some ==> (r->0@ == left->0@ + right->0@),
{
    lift2(concat_s_s, left, right)
}

/// `substring3___` over a nullable argument: count.
pub fn substring3__N(value: String, left: i32, count: Option<i32>) -> (r: Option<String>)
    ensures
        r is Some <==> count is Some,
        r is Some ==> (r->0@ == substring_spec(value@, left as int, count->0 as int)),
{
    lift3(substring3___, Some(value), Some(left), count)
}

/// `substring3___` over a nullable argument: left.
pub fn substring3_N_(value: String, left: Option<i32>, count: i32) -> (r: Option<String>)
    ensures
        r is Some <==> left is Some,
        r is Some ==> (r->0@ == substring_spec(value@, left->0 as int, count as int)),
{
    lift3(substring3___, Some(value), left, Some(count))
}

/// `substring3___` over nullable arguments: left, count.
pub fn substring3_NN(value: String, left: Option<i32>, count: Option<i32>) -> (r: Option<String>)
    ensures
        r is Some <==> (left is Some && count is Some),
        r is Some ==> (r->0@ == substring_spec(value@, left->0 as int, count->0 as int)),
{
    lift3(substring3___, Some(value), left, count)
}

/// `substring3___` over a nullable argument: value.
pub fn substring3N__(value: Option<String>, left: i32, count: i32) -> (r: Option<String>)
    ensures
        r is Some <==> value is Some,
        r is Some ==> (r->0@ == substring_spec(value->0@, left as int, count as int)),
{
    lift3(substring3___, value, Some(left), Some(count))
}

/// `substring3___` over nullable arguments: value, count.
pub fn substring3N_N(value: Option<String>, left: i32, count: Option<i32>) -> (r: Option<String>)
    ensures
        r is Some <==> (value is Some && count is Some),
        r is Some ==> (r->0@ == substring_spec(value->0@, left as int, count->0 as int)),
{
    lift3(substring3___, value, Some(left), count)
}

/// `substring3___` over nullable arguments: value, left.
pub fn substring3NN_(value: Option<String>, left: Option<i32>, count: i32) -> (r: Option<String>)
    ensures
        r is Some <==> (value is Some && left is Some),
        r is Some ==> (r->0@ == substring_spec(value->0@, left->0 as int, count as int)),
{
    lift3(substring3___, value, left, Some(count))
}

/// `substring3___` over nullable arguments: value, left, count.
pub fn substring3NNN(value: Option<String>, left: Option<i32>, count: Option<i32>) -> (r: Option<String>)
    ensures
        r is Some <==> (value is Some && left is Some && count is Some),
        r is Some ==> (r->0@ == substring_spec(value->0@, left->0 as int, count->0 as int)),
{
    lift3(substring3___, value, left, count)
}

/// `substring2__` over a nullable argument: left.
pub fn substring2_N(value: String, left: Option<i32>) -> (r: Option<String>)
    ensures
        r is Some <==> left is Some,
        r is Some ==> (r->0@ == suffix_spec(value@, left->0 as int)),
{
    lift2(substring2__, Some(value), left)
}

/// `substring2__` over a nullable argument: value.
pub fn substring2N_(value: Option<String>, left: i32) -> (r: Option<String>)
    ensures
        r is Some <==> value is Some,
        r is Some ==> (r->0@ == suffix_spec(value->0@, left as int)),
{
    lift2(substring2__, value, Some(left))
}

/// `substring2__` over nullable arguments: value, left.
pub fn substring2NN(value: Option<String>, left: Option<i32>) -> (r: Option<String>)
    ensures
        r is Some <==> (value is Some && left is Some),
        r is Some ==> (r->0@ == suffix_spec(value->0@, left->0 as int)),
{
    lift2(substring2__, value, left)
}

/// `trim_both_s_s` over a nullable argument: value.
pub fn trim_both_s_sN(remove: String, value: Option<String>) -> (r: Option<String>)
    requires
        remove@.len() >= 1,
    ensures
        r is Some <==> value is Some,
        r is Some ==> (r->0@ == trim_end_spec(trim_start_spec(value->0@, remove@[0]), remove@[0])),
{
    lift2(trim_both_s_s, Some(remove), value)
}

/// `trim_both_s_s` over a nullable argument: remove.
pub fn trim_both_sN_s(remove: Option<String>, value: String) -> (r: Option<String>)
    requires
        remove is Some ==> remove->0@.len() >= 1,
    ensures
        r is Some <==> remove is Some,
        r is Some ==> (r->0@ == trim_end_spec(trim_start_spec(value@, remove->0@[0]), remove->0@[0])),
{
    lift2(trim_both_s_s, remove, Some(value))
}

/// `trim_both_s_s` over nullable arguments: remove, value.
pub fn trim_both_sN_sN(remove: Option<String>, value: Option<String>) -> (r: Option<String>)
    requires
        remove is Some ==> remove->0@.len() >= 1,
    ensures
        r is Some <==> (remove is Some && value is Some),
        r is Some ==> (r->0@ == trim_end_spec(trim_start_spec(value->0@, remove->0@[0]), remove->0@[0])),
{
    lift2(trim_both_s_s, remove, value)
}

/// `trim_leading_s_s` over a nullable argument: value.
pub fn trim_leading_s_sN(remove: String, value: Option<String>) -> (r: Option<String>)
    requires
        remove@.len() >= 1,
    ensures
        r is Some <==> value is Some,
        r is Some ==> (r->0@ == trim_start_spec(value->0@, remove@[0])),
{
    lift2(trim_leading_s_s, Some(remove), value)
}

/// `trim_leading_s_s` over a nullable argument: remove.
pub fn trim_leading_sN_s(remove: Option<String>, value: String) -> (r: Option<String>)
    requires
        remove is Some ==> remove->0@.len() >= 1,
    ensures
        r is Some <==> remove is Some,
        r is Some ==> (r->0@ == trim_start_spec(value@, remove->0@[0])),
{
    lift2(trim_leading_s_s, remove, Some(value))
}

/// `trim_leading_s_s` over nullable arguments: remove, value.
pub fn trim_leading_sN_sN(remove: Option<String>, value: Option<String>) -> (r: Option<String>)
    requires
        remove is Some ==> remove->0@.len() >= 1,
    ensures
        r is Some <==> (remove is Some && value is Some),
        r is Some ==> (r->0@ == trim_start_spec(value->0@, remove->0@[0])),
{
    lift2(trim_leading_s_s, remove, value)
}

/// `trim_trailing_s_s` over a nullable argument: value.
pub fn trim_trailing_s_sN(remove: String, value: Option<String>) -> (r: Option<String>)
    requires
        remove@.len() >= 1,
    ensures
        r is Some <==> value is Some,
        r is Some ==> (r->0@ == trim_end_spec(value->0@, remove@[0])),
{
    lift2(trim_trailing_s_s, Some(remove), value)
}

/// `trim_trailing_s_s` over a nullable argument: remove.
pub fn trim_trailing_sN_s(remove: Option<String>, value: String) -> (r: Option<String>)
    requires
        remove is Some ==> remove->0@.len() >= 1,
    ensures
        r is Some <==> remove is Some,
        r is Some ==> (r->0@ == trim_end_spec(value@, remove->0@[0])),
{
    lift2(trim_trailing_s_s, remove, Some(value))
}

/// `trim_trailing_s_s` over nullable arguments: remove, value.
pub fn trim_trailing_sN_sN(remove: Option<String>, value: Option<String>) -> (r: Option<String>)
    requires
        remove is Some ==> remove->0@.len() >= 1,
    ensures
        r is Some <==> (remove is Some && value is Some),
        r is Some ==> (r->0@ == trim_end_spec(value->0@, remove->0@[0])),
{
    lift2(trim_trailing_s_s, remove, value)
}

/// `like2__` over a nullable argument: pattern.
pub fn like2_N(value: String, pattern: Option<String>) -> (r: Option<bool>)
    ensures
        r is Some <==> pattern is Some,
        r is Some ==> (r->0 == (like_outcome(value@, pattern->0@) == Some(true))),
{
    lift2(like2__, Some(value), pattern)
}

/// `like2__` over a nullable argument: value.
pub fn like2N_(value: Option<String>, pattern: String) -> (r: Option<bool>)
    ensures
        r is Some <==> value is Some,
        r is Some ==> (r->0 == (like_outcome(value->0@, pattern@) == Some(true))),
{
    lift2(like2__, value, Some(pattern))
}

/// `like2__` over nullable arguments: value, pattern.
pub fn like2NN(value: Option<String>, pattern: Option<String>) -> (r: Option<bool>)
    ensures
        r is Some <==> (value is Some && pattern is Some),
        r is Some ==> (r->0 == (like_outcome(value->0@, pattern->0@) == Some(true))),
{
    lift2(like2__, value, pattern)
}

/// `rlike__` over a nullable argument: pattern.
pub fn rlike_N(value: String, pattern: Option<String>) -> (r: Option<bool>)
    ensures
        r is Some <==> pattern is Some,
        r is Some ==> (r->0 == (regex_outcome(pattern->0@, value@) == Some(true))),
{
    lift2(rlike__, Some(value), pattern)
}

/// `rlike__` over a nullable argument: value.
pub fn rlikeN_(value: Option<String>, pattern: String) -> (r: Option<bool>)
    ensures
        r is Some <==> value is Some,
        r is Some ==> (r->0 == (regex_outcome(pattern@, value->0@) == Some(true))),
{
    lift2(rlike__, value, Some(pattern))
}

/// `rlike__` over nullable arguments: value, pattern.
pub fn rlikeNN(value: Option<String>, pattern: Option<String>) -> (r: Option<bool>)
    ensures
        r is Some <==> (value is Some && pattern is Some),
        r is Some ==> (r->0 == (regex_outcome(pattern->0@, value->0@) == Some(true))),
{
    lift2(rlike__, value, pattern)
}

/// `like3___` over a nullable argument: escape.
pub fn like3__N(value: String, pattern: String, escape: Option<String>) -> (r: Option<bool>)
    ensures
        r is Some <==> escape is Some,
        r is Some ==> (r->0 ==> escaped_pattern(pattern@, escape->0@) is Some && like_escaped_outcome(value@, escaped_pattern(pattern@, escape->0@)->0) == Some(true)),
        r is Some ==> (escaped_pattern(pattern@, escape->0@) is None ==> !r->0),
{
    lift3(like3___, Some(value), Some(pattern), escape)
}

/// `like3___` over a nullable argument: pattern.
pub fn like3_N_(value: String, pattern: Option<String>, escape: String) -> (r: Option<bool>)
    ensures
        r is Some <==> pattern is Some,
        r is Some ==> (r->0 ==> escaped_pattern(pattern->0@, escape@) is Some && like_escaped_outcome(value@, escaped_pattern(pattern->0@, escape@)->0) == Some(true)),
        r is Some ==> (escaped_pattern(pattern->0@, escape@) is None ==> !r->0),
{
    lift3(like3___, Some(value), pattern, Some(escape))
}

/// `like3___` over nullable arguments: pattern, escape.
pub fn like3_NN(value: String, pattern: Option<String>, escape: Option<String>) -> (r: Option<bool>)
    ensures
        r is Some <==> (pattern is Some && escape is Some),
        r is Some ==> (r->0 ==> escaped_pattern(pattern->0@, escape->0@) is Some && like_escaped_outcome(value@, escaped_pattern(pattern->0@, escape->0@)->0) == Some(true)),
        r is Some ==> (escaped_pattern(pattern->0@, escape->0@) is None ==> !r->0),
{
    lift3(like3___, Some(value), pattern, escape)
}

/// `like3___` over a nullable argument: value.
pub fn like3N__(value: Option<String>, pattern: String, escape: String) -> (r: Option<bool>)
    ensures
        r is Some <==> value is Some,
        r is Some ==> (r->0 ==> escaped_pattern(pattern@, escape@) is Some && like_escaped_outcome(value->0@, escaped_pattern(pattern@, escape@)->0) == Some(true)),
        r is Some ==> (escaped_pattern(pattern@, escape@) is None ==> !r->0),
{
    lift3(like3___, value, Some(pattern), Some(escape))
}

/// `like3___` over nullable arguments: value, escape.
pub fn like3N_N(value: Option<String>, pattern: String, escape: Option<String>) -> (r: Option<bool>)
    ensures
        r is Some <==> (value is Some && escape is Some),
        r is Some ==> (r->0 ==> escaped_pattern(pattern@, escape->0@) is Some && like_escaped_outcome(value->0@, escaped_pattern(pattern@, escape->0@)->0) == Some(true)),
        r is Some ==> (escaped_pattern(pattern@, escape->0@) is None ==> !r->0),
{
    lift3(like3___, value, Some(pattern), escape)
}

/// `like3___` over nullable arguments: value, pattern.
pub fn like3NN_(value: Option<String>, pattern: Option<String>, escape: String) -> (r: Option<bool>)
    ensures
        r is Some <==> (value is Some && pattern is Some),
        r is Some ==> (r->0 ==> escaped_pattern(pattern->0@, escape@) is Some && like_escaped_outcome(value->0@, escaped_pattern(pattern->0@, escape@)->0) == Some(true)),
        r is Some ==> (escaped_pattern(pattern->0@, escape@) is None ==> !r->0),
{
    lift3(like3___, value, pattern, Some(escape))
}

/// `like3___` over nullable arguments: value, pattern, escape.
pub fn like3NNN(value: Option<String>, pattern: Option<String>, escape: Option<String>) -> (r: Option<bool>)
    ensures
        r is Some <==> (value is Some && pattern is Some && escape is Some),
        r is Some ==> (r->0 ==> escaped_pattern(pattern->0@, escape->0@) is Some && like_escaped_outcome(value->0@, escaped_pattern(pattern->0@, escape->0@)->0) == Some(true)),
        r is Some ==> (escaped_pattern(pattern->0@, escape->0@) is None ==> !r->0),
{
    lift3(like3___, value, pattern, escape)
}

/// `position__` over a nullable argument: haystack.
pub fn position_N(needle: String, haystack: Option<String>) -> (r: Option<i32>)
    requires
        haystack is Some ==> haystack->0@.len() < i32::MAX,
    ensures
        r is Some <==> haystack is Some,
        r is Some ==> (r->0 >= 0),
        r is Some ==> (r->0 == 0 <==> !occurs_in(haystack->0@, needle@)),
        r is Some ==> (r->0 > 0 ==> occurs_at(haystack->0@, needle@, r->0 - 1)),
        r is Some ==> (forall|i: int| 0 <= i < r->0 - 1 ==> !occurs_at(haystack->0@, needle@, i)),
{
    lift2(position__, Some(needle), haystack)
}

/// `position__` over a nullable argument: needle.
pub fn positionN_(needle: Option<String>, haystack: String) -> (r: Option<i32>)
    requires
        haystack@.len() < i32::MAX,
    ensures
        r is Some <==> needle is Some,
        r is Some ==> (r->0 >= 0),
        r is Some ==> (r->0 == 0 <==> !occurs_in(haystack@, needle->0@)),
        r is Some ==> (r->0 > 0 ==> occurs_at(haystack@, needle->0@, r->0 - 1)),
        r is Some ==> (forall|i: int| 0 <= i < r->0 - 1 ==> !occurs_at(haystack@, needle->0@, i)),
{
    lift2(position__, needle, Some(haystack))
}

/// `position__` over nullable arguments: needle, haystack.
pub fn positionNN(needle: Option<String>, haystack: Option<String>) -> (r: Option<i32>)
    requires
        haystack is Some ==> haystack->0@.len() < i32::MAX,
    ensures
        r is Some <==> (needle is Some && haystack is Some),
        r is Some ==> (r->0 >= 0),
        r is Some ==> (r->0 == 0 <==> !occurs_in(haystack->0@, needle->0@)),
        r is Some ==> (r->0 > 0 ==> occurs_at(haystack->0@, needle->0@, r->0 - 1)),
        r is Some ==> (forall|i: int| 0 <= i < r->0 - 1 ==> !occurs_at(haystack->0@, needle->0@, i)),
{
    lift2(position__, needle, haystack)
}

/// `char_length_` over a nullable argument: value.
pub fn char_lengthN(value: Option<String>) -> (r: Option<i32>)
    requires
        value is Some ==> value->0@.len() <= i32::MAX,
    ensures
        r is Some <==> value is Some,
        r is Some ==> (r->0 == value->0@.len()),
{
    lift1(char_length_, value)
}

/// `ascii_` over a nullable argument: value.
pub fn asciiN(value: Option<String>) -> (r: Option<i32>)
    ensures
        r is Some <==> value is Some,
        r is Some ==> (value->0@.len() == 0 ==> r->0 == 0),
        r is Some ==> (value->0@.len() > 0 ==> r->0 == value->0@[0] as u32),
{
    lift1(ascii_, value)
}

/// `chr_` over a nullable argument: code.
pub fn chrN(code: Option<i32>) -> (r: Option<String>)
    ensures
        r is Some <==> code is Some,
        r is Some ==> (code->0 < 0 || !is_scalar(code->0 as u32) ==> r->0@.len() == 0),
        r is Some ==> (code->0 >= 0 && is_scalar(code->0 as u32) ==> r->0@.len() == 1 && r->0@[0] as u32 == code->0),
{
    lift1(chr_, code)
}

/// `repeat__` over a nullable argument: count.
pub fn repeat_N(value: String, count: Option<i32>) -> (r: Option<String>)
    ensures
        r is Some <==> count is Some,
        r is Some ==> (r->0@ == repeat_spec(value@, count->0 as int)),
{
    lift2(repeat__, Some(value), count)
}

/// `repeat__` over a nullable argument: value.
pub fn repeatN_(value: Option<String>, count: i32) -> (r: Option<String>)
    ensures
        r is Some <==> value is Some,
        r is Some ==> (r->0@ == repeat_spec(value->0@, count as int)),
{
    lift2(repeat__, value, Some(count))
}

/// `repeat__` over nullable arguments: value, count.
pub fn repeatNN(value: Option<String>, count: Option<i32>) -> (r: Option<String>)
    ensures
        r is Some <==> (value is Some && count is Some),
        r is Some ==> (r->0@ == repeat_spec(value->0@, count->0 as int)),
{
    lift2(repeat__, value, count)
}

/// `overlay3___` over a nullable argument: position.
pub fn overlay3__N(source: String, replacement: String, position: Option<i32>) -> (r: Option<String>)
    requires
        replacement@.len() <= i32::MAX,
    ensures
        r is Some <==> position is Some,
        r is Some ==> (r->0@ == overlay_spec(source@, replacement@, position->0 as int, replacement@.len() as int)),
{
    lift3(overlay3___, Some(source), Some(replacement), position)
}

/// `overlay3___` over a nullable argument: replacement.
pub fn overlay3_N_(source: String, replacement: Option<String>, position: i32) -> (r: Option<String>)
    requires
        replacement is Some ==> replacement->0@.len() <= i32::MAX,
    ensures
        r is Some <==> replacement is Some,
        r is Some ==> (r->0@ == overlay_spec(source@, replacement->0@, position as int, replacement->0@.len() as int)),
{
    lift3(overlay3___, Some(source), replacement, Some(position))
}

/// `overlay3___` over nullable arguments: replacement, position.
pub fn overlay3_NN(source: String, replacement: Option<String>, position: Option<i32>) -> (r: Option<String>)
    requires
        replacement is Some ==> replacement->0@.len() <= i32::MAX,
    ensures
        r is Some <==> (replacement is Some && position is Some),
        r is Some ==> (r->0@ == overlay_spec(source@, replacement->0@, position->0 as int, replacement->0@.len() as int)),
{
    lift3(overlay3___, Some(source), replacement, position)
}

/// `overlay3___` over a nullable argument: source.
pub fn overlay3N__(source: Option<String>, replacement: String, position: i32) -> (r: Option<String>)
    requires
        replacement@.len() <= i32::MAX,
    ensures
        r is Some <==> source is Some,
        r is Some ==> (r->0@ == overlay_spec(source->0@, replacement@, position as int, replacement@.len() as int)),
{
    lift3(overlay3___, source, Some(replacement), Some(position))
}

/// `overlay3___` over nullable arguments: source, position.
pub fn overlay3N_N(source: Option<String>, replacement: String, position: Option<i32>) -> (r: Option<String>)
    requires
        replacement@.len() <= i32::MAX,
    ensures
        r is Some <==> (source is Some && position is Some),
        r is Some ==> (r->0@ == overlay_spec(source->0@, replacement@, position->0 as int, replacement@.len() as int)),
{
    lift3(overlay3___, source, Some(replacement), position)
}

/// `overlay3___` over nullable arguments: source, replacement.
pub fn overlay3NN_(source: Option<String>, replacement: Option<String>, position: i32) -> (r: Option<String>)
    requires
        replacement is Some ==> replacement->0@.len() <= i32::MAX,
    ensures
        r is Some <==> (source is Some && replacement is Some),
        r is Some ==> (r->0@ == overlay_spec(source->0@, replacement->0@, position as int, replacement->0@.len() as int)),
{
    lift3(overlay3___, source, replacement, Some(position))
}

/// `overlay3___` over nullable arguments: source, replacement, position.
pub fn overlay3NNN(source: Option<String>, replacement: Option<String>, position: Option<i32>) -> (r: Option<String>)
    requires
        replacement is Some ==> replacement->0@.len() <= i32::MAX,
    ensures
        r is Some <==> (source is Some && replacement is Some && position is Some),
        r is Some ==> (r->0@ == overlay_spec(source->0@, replacement->0@, position->0 as int, replacement->0@.len() as int)),
{
    lift3(overlay3___, source, replacement, position)
}

/// `overlay4____` over a nullable argument: remove.
pub fn overlay4___N(source: String, replacement: String, position: i32, remove: Option<i32>) -> (r: Option<String>)
    ensures
        r is Some <==> remove is Some,
        r is Some ==> (r->0@ == overlay_spec(source@, replacement@, position as int, remove->0 as int)),
{
    lift4(overlay4____, Some(source), Some(replacement), Some(position), remove)
}

/// `overlay4____` over a nullable argument: position.
pub fn overlay4__N_(source: String, replacement: String, position: Option<i32>, remove: i32) -> (r: Option<String>)
    ensures
        r is Some <==> position is Some,
        r is Some ==> (r->0@ == overlay_spec(source@, replacement@, position->0 as int, remove as int)),
{
    lift4(overlay4____, Some(source), Some(replacement), position, Some(remove))
}

/// `overlay4____` over nullable arguments: position, remove.
pub fn overlay4__NN(source: String, replacement: String, position: Option<i32>, remove: Option<i32>) -> (r: Option<String>)
    ensures
        r is Some <==> (position is Some && remove is Some),
        r is Some ==> (r->0@ == overlay_spec(source@, replacement@, position->0 as int, remove->0 as int)),
{
    lift4(overlay4____, Some(source), Some(replacement), position, remove)
}

/// `overlay4____` over a nullable argument: replacement.
pub fn overlay4_N__(source: String, replacement: Option<String>, position: i32, remove: i32) -> (r: Option<String>)
    ensures
        r is Some <==> replacement is Some,
        r is Some ==> (r->0@ == overlay_spec(source@, replacement->0@, position as int, remove as int)),
{
    lift4(overlay4____, Some(source), replacement, Some(position), Some(remove))
}

/// `overlay4____` over nullable arguments: replacement, remove.
pub fn overlay4_N_N(source: String, replacement: Option<String>, position: i32, remove: Option<i32>) -> (r: Option<String>)
    ensures
        r is Some <==> (replacement is Some && remove is Some),
        r is Some ==> (r->0@ == overlay_spec(source@, replacement->0@, position as int, remove->0 as int)),
{
    lift4(overlay4____, Some(source), replacement, Some(position), remove)
}

/// `overlay4____` over nullable arguments: replacement, position.
pub fn overlay4_NN_(source: String, replacement: Option<String>, position: Option<i32>, remove: i32) -> (r: Option<String>)
    ensures
        r is Some <==> (replacement is Some && position is Some),
        r is Some ==> (r->0@ == overlay_spec(source@, replacement->0@, position->0 as int, remove as int)),
{
    lift4(overlay4____, Some(source), replacement, position, Some(remove))
}

/// `overlay4____` over nullable arguments: replacement, position, remove.
pub fn overlay4_NNN(source: String, replacement: Option<String>, position: Option<i32>, remove: Option<i32>) -> (r: Option<String>)
    ensures
        r is Some <==> (replacement is Some && position is Some && remove is Some),
        r is Some ==> (r->0@ == overlay_spec(source@, replacement->0@, position->0 as int, remove->0 as int)),
{
    lift4(overlay4____, Some(source), replacement, position, remove)
}

/// `overlay4____` over a nullable argument: source.
pub fn overlay4N___(source: Option<String>, replacement: String, position: i32, remove: i32) -> (r: Option<String>)
    ensures
        r is Some <==> source is Some,
        r is Some ==> (r->0@ == overlay_spec(source->0@, replacement@, position as int, remove as int)),
{
    lift4(overlay4____, source, Some(replacement), Some(position), Some(remove))
}

/// `overlay4____` over nullable arguments: source, remove.
pub fn overlay4N__N(source: Option<String>, replacement: String, position: i32, remove: Option<i32>) -> (r: Option<String>)
    ensures
        r is Some <==> (source is Some && remove is Some),
        r is Some ==> (r->0@ == overlay_spec(source->0@, replacement@, position as int, remove->0 as int)),
{
    lift4(overlay4____, source, Some(replacement), Some(position), remove)
}

/// `overlay4____` over nullable arguments: source, position.
pub fn overlay4N_N_(source: Option<String>, replacement: String, position: Option<i32>, remove: i32) -> (r: Option<String>)
    ensures
        r is Some <==> (source is Some && position is Some),
        r is Some ==> (r->0@ == overlay_spec(source->0@, replacement@, position->0 as int, remove as int)),
{
    lift4(overlay4____, source, Some(replacement), position, Some(remove))
}

/// `overlay4____` over nullable arguments: source, position, remove.
pub fn overlay4N_NN(source: Option<String>, replacement: String, position: Option<i32>, remove: Option<i32>) -> (r: Option<String>)
    ensures
        r is Some <==> (source is Some && position is Some && remove is Some),
        r is Some ==> (r->0@ == overlay_spec(source->0@, replacement@, position->0 as int, remove->0 as int)),
{
    lift4(overlay4____, source, Some(replacement), position, remove)
}

/// `overlay4____` over nullable arguments: source, replacement.
pub fn overlay4NN__(source: Option<String>, replacement: Option<String>, position: i32, remove: i32) -> (r: Option<String>)
    ensures
        r is Some <==> (source is Some && replacement is Some),
        r is Some ==> (r->0@ == overlay_spec(source->0@, replacement->0@, position as int, remove as int)),
{
    lift4(overlay4____, source, replacement, Some(position), Some(remove))
}

/// `overlay4____` over nullable arguments: source, replacement, remove.
pub fn overlay4NN_N(source: Option<String>, replacement: Option<String>, position: i32, remove: Option<i32>) -> (r: Option<String>)
    ensures
        r is Some <==> (source is Some && replacement is Some && remove is Some),
        r is Some ==> (r->0@ == overlay_spec(source->0@, replacement->0@, position as int, remove->0 as int)),
{
    lift4(overlay4____, source, replacement, Some(position), remove)
}

/// `overlay4____` over nullable arguments: source, replacement, position.
pub fn overlay4NNN_(source: Option<String>, replacement: Option<String>, position: Option<i32>, remove: i32) -> (r: Option<String>)
    ensures
        r is Some <==> (source is Some && replacement is Some && position is Some),
        r is Some ==> (r->0@ == overlay_spec(source->0@, replacement->0@, position->0 as int, remove as int)),
{
    lift4(overlay4____, source, replacement, position, Some(remove))
}

/// `overlay4____` over nullable arguments: source, replacement, position, remove.
pub fn overlay4NNNN(source: Option<String>, replacement: Option<String>, position: Option<i32>, remove: Option<i32>) -> (r: Option<String>)
    ensures
        r is Some <==> (source is Some && replacement is Some && position is Some && remove is Some),
        r is Some ==> (r->0@ == overlay_spec(source->0@, replacement->0@, position->0 as int, remove->0 as int)),
{
    lift4(overlay4____, source, replacement, position, remove)
}

/// `lower_` over a nullable argument: source.
pub fn lowerN(source: Option<String>) -> (r: Option<String>)
    ensures
        r is Some <==> source is Some,
        r is Some ==> (r->0@ == lower_of(source->0@)),
{
    lift1(lower_, source)
}

/// `upper_` over a nullable argument: source.
pub fn upperN(source: Option<String>) -> (r: Option<String>)
    ensures
        r is Some <==> source is Some,
        r is Some ==> (r->0@ == upper_of(source->0@)),
{
    lift1(upper_, source)
}

/// `initcap_` over a nullable argument: source.
pub fn initcapN(source: Option<String>) -> (r: Option<String>)
    ensures
        r is Some <==> source is Some,
        r is Some ==> (r->0@ == initcap_spec(source->0@)),
{
    lift1(initcap_, source)
}

/// `replace___` over a nullable argument: replacement.
pub fn replace__N(haystack: String, needle: String, replacement: Option<String>) -> (r: Option<String>)
    ensures
        r is Some <==> replacement is Some,
        r is Some ==> (r->0@ == replace_spec(haystack@, needle@, replacement->0@)),
{
    lift3(replace___, Some(haystack), Some(needle), replacement)
}

/// `replace___` over a nullable argument: needle.
pub fn replace_N_(haystack: String, needle: Option<String>, replacement: String) -> (r: Option<String>)
    ensures
        r is Some <==> needle is Some,
        r is Some ==> (r->0@ == replace_spec(haystack@, needle->0@, replacement@)),
{
    lift3(replace___, Some(haystack), needle, Some(replacement))
}

/// `replace___` over nullable arguments: needle, replacement.
pub fn replace_NN(haystack: String, needle: Option<String>, replacement: Option<String>) -> (r: Option<String>)
    ensures
        r is Some <==> (needle is Some && replacement is Some),
        r is Some ==> (r->0@ == replace_spec(haystack@, needle->0@, replacement->0@)),
{
    lift3(replace___, Some(haystack), needle, replacement)
}

/// `replace___` over a nullable argument: haystack.
pub fn replaceN__(haystack: Option<String>, needle: String, replacement: String) -> (r: Option<String>)
    ensures
        r is Some <==> haystack is Some,
        r is Some ==> (r->0@ == replace_spec(haystack->0@, needle@, replacement@)),
{
    lift3(replace___, haystack, Some(needle), Some(replacement))
}

/// `replace___` over nullable arguments: haystack, replacement.
pub fn replaceN_N(haystack: Option<String>, needle: String, replacement: Option<String>) -> (r: Option<String>)
    ensures
        r is Some <==> (haystack is Some && replacement is Some),
        r is Some ==> (r->0@ == replace_spec(haystack->0@, needle@, replacement->0@)),
{
    lift3(replace___, haystack, Some(needle), replacement)
}

/// `replace___` over nullable arguments: haystack, needle.
pub fn replaceNN_(haystack: Option<String>, needle: Option<String>, replacement: String) -> (r: Option<String>)
    ensures
        r is Some <==> (haystack is Some && needle is Some),
        r is Some ==> (r->0@ == replace_spec(haystack->0@, needle->0@, replacement@)),
{
    lift3(replace___, haystack, needle, Some(replacement))
}

/// `replace___` over nullable arguments: haystack, needle, replacement.
pub fn replaceNNN(haystack: Option<String>, needle: Option<String>, replacement: Option<String>) -> (r: Option<String>)
    ensures
        r is Some <==> (haystack is Some && needle is Some && replacement is Some),
        r is Some ==> (r->0@ == replace_spec(haystack->0@, needle->0@, replacement->0@)),
{
    lift3(replace___, haystack, needle, replacement)
}

/// `left__` over a nullable argument: size.
pub fn left_N(source: String, size: Option<i32>) -> (r: Option<String>)
    ensures
        r is Some <==> size is Some,
        r is Some ==> (r->0@ == substring_spec(source@, 1, size->0 as int)),
{
    lift2(left__, Some(source), size)
}

/// `left__` over a nullable argument: source.
pub fn leftN_(source: Option<String>, size: i32) -> (r: Option<String>)
    ensures
        r is Some <==> source is Some,
        r is Some ==> (r->0@ == substring_spec(source->0@, 1, size as int)),
{
    lift2(left__, source, Some(size))
}

/// `left__` over nullable arguments: source, size.
pub fn leftNN(source: Option<String>, size: Option<i32>) -> (r: Option<String>)
    ensures
        r is Some <==> (source is Some && size is Some),
        r is Some ==> (r->0@ == substring_spec(source->0@, 1, size->0 as int)),
{
    lift2(left__, source, size)
}

/// `split2__` over a nullable argument: separators.
pub fn split2_N(source: String, separators: Option<String>) -> (r: Option<Vec<String>>)
    ensures
        r is Some <==> separators is Some,
        r is Some ==> (views(r->0@) == split_spec(source@, separators->0@)),
{
    lift2(split2__, Some(source), separators)
}

/// `split2__` over a nullable argument: source.
pub fn split2N_(source: Option<String>, separators: String) -> (r: Option<Vec<String>>)
    ensures
        r is Some <==> source is Some,
        r is Some ==> (views(r->0@) == split_spec(source->0@, separators@)),
{
    lift2(split2__, source, Some(separators))
}

/// `split2__` over nullable arguments: source, separators.
pub fn split2NN(source: Option<String>, separators: Option<String>) -> (r: Option<Vec<String>>)
    ensures
        r is Some <==> (source is Some && separators is Some),
        r is Some ==> (views(r->0@) == split_spec(source->0@, separators->0@)),
{
    lift2(split2__, source, separators)
}

/// `split1_` over a nullable argument: source.
pub fn split1N(source: Option<String>) -> (r: Option<Vec<String>>)
    ensures
        r is Some <==> source is Some,
        r is Some ==> (views(r->0@) == split_spec(source->0@, seq![','])),
{
    lift1(split1_, source)
}

} // verus!
