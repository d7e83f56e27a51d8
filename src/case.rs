//! Core functions that change letter case.
use vstd::prelude::*;
use vstd::string::*;
use crate::text::{chars_of, push_char};

verus! {

/// What `str::to_lowercase` makes of a string.
pub uninterp spec fn lower_of(s: Seq<char>) -> Seq<char>;

/// What `str::to_uppercase` makes of a string.
pub uninterp spec fn upper_of(s: Seq<char>) -> Seq<char>;

/// Whether `char::is_alphanumeric` holds of a character.
pub uninterp spec fn alnum(c: char) -> bool;

/// The characters that `char::to_uppercase` yields for a character.
pub uninterp spec fn upper_char(c: char) -> Seq<char>;

/// The characters that `char::to_lowercase` yields for a character.
pub uninterp spec fn lower_char(c: char) -> Seq<char>;

/// Relies on `str::to_lowercase`: the result depends on the characters alone.
#[verifier::external_body]
fn to_lower(s: &str) -> (r: String)
    ensures
        r@ == lower_of(s@),
{
    s.to_lowercase()
}

/// Relies on `str::to_uppercase`: the result depends on the characters alone.
#[verifier::external_body]
fn to_upper(s: &str) -> (r: String)
    ensures
        r@ == upper_of(s@),
{
    s.to_uppercase()
}

/// Relies on `char::is_alphanumeric`: a property of the character alone.
#[verifier::external_body]
fn is_alnum(c: char) -> (r: bool)
    ensures
        r == alnum(c),
{
    c.is_alphanumeric()
}

/// Relies on `char::to_uppercase`: appends the characters it yields.
#[verifier::external_body]
fn push_upper(s: &mut String, c: char)
    ensures
        final(s)@ == old(s)@ + upper_char(c),
{
    s.extend(c.to_uppercase())
}

/// Relies on `char::to_lowercase`: appends the characters it yields.
#[verifier::external_body]
fn push_lower(s: &mut String, c: char)
    ensures
        final(s)@ == old(s)@ + lower_char(c),
{
    s.extend(c.to_lowercase())
}

/// SQL `LOWER(source)`.
pub fn lower_(source: String) -> (r: String)
    ensures
        r@ == lower_of(source@),
{
    to_lower(source.as_str())
}

/// SQL `UPPER(source)`.
pub fn upper_(source: String) -> (r: String)
    ensures
        r@ == upper_of(source@),
{
    to_upper(source.as_str())
}

/// Whether the character at `i` begins a word: it is alphanumeric and the one
/// before it, if any, is not.
pub open spec fn starts_word(s: Seq<char>, i: int) -> bool {
    alnum(s[i]) && (i == 0 || !alnum(s[i - 1]))
}

/// What `INITCAP` writes for the character at `i`: the first character of a
/// run of alphanumeric characters in upper case, the others of the run in
/// lower case, any other character as it is.
pub open spec fn initcap_piece(s: Seq<char>, i: int) -> Seq<char> {
    if !alnum(s[i]) {
        seq![s[i]]
    } else if starts_word(s, i) {
        upper_char(s[i])
    } else {
        lower_char(s[i])
    }
}

/// `INITCAP` of `s`: the pieces of its characters, in order.
pub open spec fn initcap_spec(s: Seq<char>) -> Seq<char>
    decreases s.len(),
{
    if s.len() == 0 {
        Seq::empty()
    } else {
        initcap_spec(s.drop_last()) + initcap_piece(s, s.len() - 1)
    }
}

/// SQL `INITCAP(source)`: each word capitalised, where a word is a maximal
/// run of alphanumeric characters.
pub fn initcap_(source: String) -> (r: String)
    ensures
        r@ == initcap_spec(source@),
{
    let v = chars_of(source.as_str());
    let n = v.len();
    let mut result = String::new();
    let mut capitalize_next = true;
    let mut i: usize = 0;
    while i < n
        invariant
            n == v@.len(),
            v@ == source@,
            i <= n,
            result@ == initcap_spec(v@.subrange(0, i as int)),
            capitalize_next == (i == 0 || !alnum(v@[i - 1])),
        decreases n - i,
    {
        let c = v[i];
        let ghost pre = v@.subrange(0, i + 1);
        assert(pre.drop_last() =~= v@.subrange(0, i as int));
        assert(initcap_piece(pre, i as int) == initcap_piece(v@, i as int));
        if is_alnum(c) {
            if capitalize_next {
                push_upper(&mut result, c);
            } else {
                push_lower(&mut result, c);
            }
            capitalize_next = false;
        } else {
            capitalize_next = true;
            push_char(&mut result, c);
        }
        i += 1;
    }
    assert(v@.subrange(0, n as int) =~= v@);
    result
}

} // verus!
