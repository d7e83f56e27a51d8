//! Core string functions over present values. Each one is total: edge cases
//! (negative lengths, positions out of range, invalid code points) give a
//! defined result. Positions and lengths count characters.
use vstd::prelude::*;
use vstd::string::*;

verus! {

/// Relies on `str::chars`: the characters of `s`, in order.
#[verifier::external_body]
pub(crate) fn chars_of(s: &str) -> (r: Vec<char>)
    ensures
        r@ == s@,
{
    s.chars().collect()
}

/// Relies on `String::push`: appends one character.
#[verifier::external_body]
pub(crate) fn push_char(s: &mut String, c: char)
    ensures
        final(s)@ == old(s)@.push(c),
{
    s.push(c)
}

/// A string made of a run of characters of a vector.
pub(crate) fn string_of(v: &Vec<char>, from: usize, to: usize) -> (r: String)
    requires
        from <= to <= v@.len(),
    ensures
        r@ == v@.subrange(from as int, to as int),
{
    let mut r = String::new();
    let mut i = from;
    while i < to
        invariant
            from <= i <= to <= v@.len(),
            r@ == v@.subrange(from as int, i as int),
        decreases to - i,
    {
        push_char(&mut r, v[i]);
        assert(v@.subrange(from as int, i + 1) =~= v@.subrange(from as int, i as int).push(v@[i as int]));
        i += 1;
    }
    r
}

pub open spec fn min(a: int, b: int) -> int {
    if a < b { a } else { b }
}

/// The 0-based index of the first character that SQL position `left` selects.
pub open spec fn sql_start(left: int) -> int {
    if left < 1 { 0 } else { left - 1 }
}

/// `count` characters of `s` from SQL position `left`, as many as there are.
pub open spec fn substring_spec(s: Seq<char>, left: int, count: int) -> Seq<char> {
    if count < 0 {
        Seq::empty()
    } else {
        let from = min(sql_start(left), s.len() as int);
        s.subrange(from, min(from + count, s.len() as int))
    }
}

/// The characters of `s` from SQL position `left` to the end.
pub open spec fn suffix_spec(s: Seq<char>, left: int) -> Seq<char> {
    s.subrange(min(sql_start(left), s.len() as int), s.len() as int)
}

/// Concatenation.
pub fn concat_s_s(left: String, right: String) -> (r: String)
    ensures
        r@ == left@ + right@,
{
    let mut left = left;
    left.append(right.as_str());
    left
}

/// SQL `SUBSTRING(value FROM left FOR count)`.
pub fn substring3___(value: String, left: i32, count: i32) -> (r: String)
    ensures
        r@ == substring_spec(value@, left as int, count as int),
{
    if count < 0 {
        String::new()
    } else {
        let n = value.as_str().unicode_len();
        let start: usize = if left < 1 { 0 } else { (left - 1) as usize };
        let from: usize = if start < n { start } else { n };
        let to: usize = if (count as usize) < n - from { from + count as usize } else { n };
        let r = value.as_str().substring_char(from, to);
        String::from_str(r)
    }
}

/// SQL `SUBSTRING(value FROM left)`.
pub fn substring2__(value: String, left: i32) -> (r: String)
    ensures
        r@ == suffix_spec(value@, left as int),
{
    let n = value.as_str().unicode_len();
    let start: usize = if left < 1 { 0 } else { (left - 1) as usize };
    let from: usize = if start < n { start } else { n };
    let r = value.as_str().substring_char(from, n);
    String::from_str(r)
}

/// SQL `LEFT(source, size)`: the first `size` characters.
pub fn left__(source: String, size: i32) -> (r: String)
    ensures
        r@ == substring_spec(source@, 1, size as int),
{
    substring3___(source, 1, size)
}

/// The number of characters.
pub fn char_length_(value: String) -> (r: i32)
    requires
        value@.len() <= i32::MAX,
    ensures
        r == value@.len(),
{
    value.as_str().unicode_len() as i32
}

/// The number of characters of a borrowed string.
pub fn char_length_ref(value: &str) -> (r: i32)
    requires
        value@.len() <= i32::MAX,
    ensures
        r == value@.len(),
{
    value.unicode_len() as i32
}

/// The code point of the first character, 0 for the empty string.
pub fn ascii_(value: String) -> (r: i32)
    ensures
        value@.len() == 0 ==> r == 0,
        value@.len() > 0 ==> r == value@[0] as u32,
{
    let n = value.as_str().unicode_len();
    if n == 0 {
        0
    } else {
        let c = value.as_str().get_char(0);
        let code = c as u32;
        assert(code <= 0x10FFFF);
        code as i32
    }
}


/// A Unicode scalar value: a code point that is not a surrogate.
pub open spec fn is_scalar(code: u32) -> bool {
    code < 0xD800 || (0xE000 <= code && code <= 0x10FFFF)
}

/// Relies on `char::from_u32`: `Some` exactly for Unicode scalar values,
/// holding the character with that code point.
#[verifier::external_body]
fn char_from(code: u32) -> (r: Option<char>)
    ensures
        r is Some <==> is_scalar(code),
        r is Some ==> r->0 as u32 == code,
{
    char::from_u32(code)
}

/// SQL `CHR(code)`: the character with that code point, or the empty string
/// where `code` is negative or names no character.
pub fn chr_(code: i32) -> (r: String)
    ensures
        code < 0 || !is_scalar(code as u32) ==> r@.len() == 0,
        code >= 0 && is_scalar(code as u32) ==> r@.len() == 1 && r@[0] as u32 == code,
{
    let mut r = String::new();
    if code >= 0 {
        match char_from(code as u32) {
            None => {},
            Some(c) => push_char(&mut r, c),
        }
    }
    r
}

/// `s` written `n` times in a row.
pub open spec fn repeat_spec(s: Seq<char>, n: int) -> Seq<char>
    decreases n,
{
    if n <= 0 {
        Seq::empty()
    } else {
        repeat_spec(s, n - 1) + s
    }
}

/// SQL `REPEAT(value, count)`; empty where `count` is not positive.
pub fn repeat__(value: String, count: i32) -> (r: String)
    ensures
        r@ == repeat_spec(value@, count as int),
{
    let mut r = String::new();
    let mut i: i32 = 0;
    while i < count
        invariant
            0 <= i,
            count > 0 ==> i <= count,
            count <= 0 ==> i == 0,
            r@ == repeat_spec(value@, i as int),
        decreases count - i,
    {
        r.append(value.as_str());
        i += 1;
    }
    assert(count <= 0 ==> repeat_spec(value@, count as int) == repeat_spec(value@, 0));
    r
}

/// SQL `OVERLAY(source PLACING replacement FROM position FOR remove)`.
pub open spec fn overlay_spec(source: Seq<char>, replacement: Seq<char>, position: int, remove: int) -> Seq<char> {
    let rm = if remove < 0 { 0 } else { remove };
    if position <= 0 {
        source
    } else if position > source.len() {
        source + replacement
    } else {
        source.subrange(0, position - 1) + replacement + source.subrange(
            min(position - 1 + rm, source.len() as int),
            source.len() as int,
        )
    }
}

/// SQL `OVERLAY(source PLACING replacement FROM position FOR remove)`.
pub fn overlay4____(source: String, replacement: String, position: i32, remove: i32) -> (r: String)
    ensures
        r@ == overlay_spec(source@, replacement@, position as int, remove as int),
{
    let rm: usize = if remove < 0 { 0 } else { remove as usize };
    let n = source.as_str().unicode_len();
    if position <= 0 {
        source
    } else if position as usize > n {
        concat_s_s(source, replacement)
    } else {
        let head = (position - 1) as usize;
        let tail: usize = if rm >= n - head { n } else { head + rm };
        let mut r = String::from_str(source.as_str().substring_char(0, head));
        r.append(replacement.as_str());
        r.append(source.as_str().substring_char(tail, n));
        r
    }
}

/// SQL `OVERLAY(source PLACING replacement FROM position)`: removes as many
/// characters as `replacement` has.
pub fn overlay3___(source: String, replacement: String, position: i32) -> (r: String)
    requires
        replacement@.len() <= i32::MAX,
    ensures
        r@ == overlay_spec(source@, replacement@, position as int, replacement@.len() as int),
{
    let len = char_length_ref(replacement.as_str());
    overlay4____(source, replacement, position, len)
}

/// `s` without its leading run of `c`.
pub open spec fn trim_start_spec(s: Seq<char>, c: char) -> Seq<char>
    decreases s.len(),
{
    if s.len() > 0 && s[0] == c {
        trim_start_spec(s.drop_first(), c)
    } else {
        s
    }
}

/// `s` without its trailing run of `c`.
pub open spec fn trim_end_spec(s: Seq<char>, c: char) -> Seq<char>
    decreases s.len(),
{
    if s.len() > 0 && s.last() == c {
        trim_end_spec(s.drop_last(), c)
    } else {
        s
    }
}

/// The index of the first character of `v` from which on `trim_start_spec` keeps all.
fn trim_start_index(v: &Vec<char>, c: char) -> (i: usize)
    ensures
        i <= v@.len(),
        trim_start_spec(v@, c) == v@.subrange(i as int, v@.len() as int),
{
    let n = v.len();
    let mut i: usize = 0;
    assert(v@.subrange(0, n as int) =~= v@);
    while i < n && v[i] == c
        invariant
            i <= n == v@.len(),
            trim_start_spec(v@, c) == trim_start_spec(v@.subrange(i as int, n as int), c),
        decreases n - i,
    {
        assert(v@.subrange(i as int, n as int).drop_first() =~= v@.subrange(i + 1, n as int));
        i += 1;
    }
    i
}

/// The end of the run `v[from..j]` that `trim_end_spec` keeps of `v[from..]`.
fn trim_end_index(v: &Vec<char>, c: char, from: usize) -> (j: usize)
    requires
        from <= v@.len(),
    ensures
        from <= j <= v@.len(),
        trim_end_spec(v@.subrange(from as int, v@.len() as int), c) == v@.subrange(from as int, j as int),
{
    let n = v.len();
    let mut j: usize = n;
    while j > from && v[j - 1] == c
        invariant
            from <= j <= n == v@.len(),
            trim_end_spec(v@.subrange(from as int, n as int), c) == trim_end_spec(v@.subrange(from as int, j as int), c),
        decreases j,
    {
        assert(v@.subrange(from as int, j as int).drop_last() =~= v@.subrange(from as int, j - 1));
        j -= 1;
    }
    j
}

/// SQL `TRIM(BOTH remove FROM value)`, with the first character of `remove`.
pub fn trim_both_s_s(remove: String, value: String) -> (r: String)
    requires
        remove@.len() >= 1,
    ensures
        r@ == trim_end_spec(trim_start_spec(value@, remove@[0]), remove@[0]),
{
    let c = remove.as_str().get_char(0);
    let v = chars_of(value.as_str());
    let i = trim_start_index(&v, c);
    let j = trim_end_index(&v, c, i);
    string_of(&v, i, j)
}

/// SQL `TRIM(LEADING remove FROM value)`, with the first character of `remove`.
pub fn trim_leading_s_s(remove: String, value: String) -> (r: String)
    requires
        remove@.len() >= 1,
    ensures
        r@ == trim_start_spec(value@, remove@[0]),
{
    let c = remove.as_str().get_char(0);
    let v = chars_of(value.as_str());
    let i = trim_start_index(&v, c);
    string_of(&v, i, v.len())
}

/// SQL `TRIM(TRAILING remove FROM value)`, with the first character of `remove`.
pub fn trim_trailing_s_s(remove: String, value: String) -> (r: String)
    requires
        remove@.len() >= 1,
    ensures
        r@ == trim_end_spec(value@, remove@[0]),
{
    let c = remove.as_str().get_char(0);
    let v = chars_of(value.as_str());
    let j = trim_end_index(&v, c, 0);
    assert(v@.subrange(0, v@.len() as int) =~= v@);
    string_of(&v, 0, j)
}

} // verus!
