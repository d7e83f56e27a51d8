//! The collection-to-string join family, SQL `ARRAY_TO_STRING`.
//!
//! The separator and the collection follow the propagate policy: either one
//! absent makes the result absent. Elements follow a custom policy: an absent
//! element is written as the placeholder where one is given, and left out
//! (with no separator of its own) where none is.
use vstd::prelude::*;
use vstd::string::*;
use crate::nullable::lift2;

verus! {

/// The view of an optional string.
pub open spec fn opt_view(o: Option<String>) -> Option<Seq<char>> {
    match o {
        Some(s) => Some(s@),
        None => None,
    }
}

/// A collection of present strings as a collection of nullable elements.
pub open spec fn present(v: Seq<String>) -> Seq<Option<String>> {
    v.map_values(|s: String| Some(s))
}

/// The tokens written for the elements, in order: a present element's text,
/// the placeholder for an absent one, nothing for an absent one without a
/// placeholder.
pub open spec fn emitted(elems: Seq<Option<String>>, null_value: Option<Seq<char>>) -> Seq<Seq<char>>
    decreases elems.len(),
{
    if elems.len() == 0 {
        Seq::empty()
    } else {
        let rest = emitted(elems.drop_last(), null_value);
        match elems.last() {
            Some(s) => rest.push(s@),
            None => match null_value {
                Some(p) => rest.push(p),
                None => rest,
            },
        }
    }
}

/// The tokens with `sep` between each two of them.
pub open spec fn joined(tokens: Seq<Seq<char>>, sep: Seq<char>) -> Seq<char>
    decreases tokens.len(),
{
    if tokens.len() == 0 {
        Seq::empty()
    } else if tokens.len() == 1 {
        tokens[0]
    } else {
        joined(tokens.drop_last(), sep) + sep + tokens.last()
    }
}

/// The text of `ARRAY_TO_STRING` on present arguments.
pub open spec fn array_to_string_spec(
    elems: Seq<Option<String>>,
    sep: Seq<char>,
    null_value: Option<Seq<char>>,
) -> Seq<char> {
    joined(emitted(elems, null_value), sep)
}

/// Where every element is present the placeholder plays no part.
pub proof fn lemma_present_ignores_placeholder(v: Seq<String>, p: Option<Seq<char>>)
    ensures
        emitted(present(v), p) == emitted(present(v), None),
    decreases v.len(),
{
    if v.len() > 0 {
        assert(present(v).drop_last() =~= present(v.drop_last()));
        lemma_present_ignores_placeholder(v.drop_last(), p);
    }
}

/// Appends one token, with a separator before it unless it is the first.
fn push_token(result: &mut String, first: bool, sep: &str, token: &str, tokens: Ghost<Seq<Seq<char>>>)
    requires
        old(result)@ == joined(tokens@, sep@),
        first == (tokens@.len() == 0),
    ensures
        final(result)@ == joined(tokens@.push(token@), sep@),
{
    assert(tokens@.push(token@).drop_last() =~= tokens@);
    if !first {
        result.append(sep);
    }
    result.append(token);
}

/// Joins nullable elements.
fn join_elements(value: &Vec<Option<String>>, separator: &str, null_value: &Option<String>) -> (r: String)
    ensures
        r@ == array_to_string_spec(value@, separator@, opt_view(*null_value)),
{
    let mut result = String::new();
    let mut first = true;
    let n = value.len();
    let mut i: usize = 0;
    while i < n
        invariant
            n == value@.len(),
            i <= n,
            result@ == joined(emitted(value@.subrange(0, i as int), opt_view(*null_value)), separator@),
            first == (emitted(value@.subrange(0, i as int), opt_view(*null_value)).len() == 0),
        decreases n - i,
    {
        let ghost tokens = emitted(value@.subrange(0, i as int), opt_view(*null_value));
        assert(value@.subrange(0, i + 1).drop_last() =~= value@.subrange(0, i as int));
        match &value[i] {
            Some(s) => {
                push_token(&mut result, first, separator, s.as_str(), Ghost(tokens));
                first = false;
            },
            None => match null_value {
                Some(p) => {
                    push_token(&mut result, first, separator, p.as_str(), Ghost(tokens));
                    first = false;
                },
                None => {},
            },
        }
        i += 1;
    }
    assert(value@.subrange(0, n as int) =~= value@);
    result
}

/// Joins present elements; any placeholder would go unused.
fn join_present(value: &Vec<String>, separator: &str) -> (r: String)
    ensures
        forall|p: Option<Seq<char>>| r@ == #[trigger] array_to_string_spec(present(value@), separator@, p),
{
    let mut result = String::new();
    let n = value.len();
    let mut i: usize = 0;
    while i < n
        invariant
            n == value@.len(),
            i <= n,
            result@ == joined(emitted(present(value@.subrange(0, i as int)), None), separator@),
            emitted(present(value@.subrange(0, i as int)), None).len() == i,
        decreases n - i,
    {
        let ghost tokens = emitted(present(value@.subrange(0, i as int)), None);
        assert(present(value@.subrange(0, i + 1)).drop_last() =~= present(value@.subrange(0, i as int)));
        push_token(&mut result, i == 0, separator, value[i].as_str(), Ghost(tokens));
        i += 1;
    }
    assert(value@.subrange(0, n as int) =~= value@);
    proof {
        assert forall|p: Option<Seq<char>>| result@ == #[trigger] array_to_string_spec(present(value@), separator@, p) by {
            lemma_present_ignores_placeholder(value@, p);
        }
    }
    result
}

/// Joins nullable elements: the core of the family.
pub fn array_to_string3_vecN_N_helper(
    value: Vec<Option<String>>,
    separator: String,
    null_value: Option<String>,
) -> (r: String)
    ensures
        r@ == array_to_string_spec(value@, separator@, opt_view(null_value)),
{
    join_elements(&value, separator.as_str(), &null_value)
}

/// `ARRAY_TO_STRING` with a collection of present elements, a separator.
pub fn array_to_string2_vec__(value: Vec<String>, separator: String) -> (r: String)
    ensures
        r@ == array_to_string_spec(present(value@), separator@, None),
{
    join_present(&value, separator.as_str())
}

/// `ARRAY_TO_STRING` with a collection of present elements, a nullable separator.
pub fn array_to_string2_vec_N(value: Vec<String>, separator: Option<String>) -> (r: Option<String>)
    ensures
        r is Some <==> (separator is Some),
        r is Some ==> r->0@ == array_to_string_spec(present(value@), separator->0@, None),
{
    let core = |v: Vec<String>, s: String| -> (r: String)
        ensures
            r@ == array_to_string_spec(present(v@), s@, None),
        { join_present(&v, s.as_str()) };
    lift2(
        core,
        Some(value),
        separator,
    )
}

/// `ARRAY_TO_STRING` with a collection of nullable elements, a separator.
pub fn array_to_string2_vecN_(value: Vec<Option<String>>, separator: String) -> (r: String)
    ensures
        r@ == array_to_string_spec(value@, separator@, None),
{
    let nv: Option<String> = None;
    join_elements(&value, separator.as_str(), &nv)
}

/// `ARRAY_TO_STRING` with a collection of nullable elements, a nullable separator.
pub fn array_to_string2_vecNN(value: Vec<Option<String>>, separator: Option<String>) -> (r: Option<String>)
    ensures
        r is Some <==> (separator is Some),
        r is Some ==> r->0@ == array_to_string_spec(value@, separator->0@, None),
{
    let nv: Option<String> = None;
    let core = |v: Vec<Option<String>>, s: String| -> (r: String)
        ensures
            r@ == array_to_string_spec(v@, s@, opt_view(nv)),
        { join_elements(&v, s.as_str(), &nv) };
    lift2(
        core,
        Some(value),
        separator,
    )
}

/// `ARRAY_TO_STRING` with a nullable collection of present elements, a separator.
pub fn array_to_string2Nvec__(value: Option<Vec<String>>, separator: String) -> (r: Option<String>)
    ensures
        r is Some <==> (value is Some),
        r is Some ==> r->0@ == array_to_string_spec(present(value->0@), separator@, None),
{
    let core = |v: Vec<String>, s: String| -> (r: String)
        ensures
            r@ == array_to_string_spec(present(v@), s@, None),
        { join_present(&v, s.as_str()) };
    lift2(
        core,
        value,
        Some(separator),
    )
}

/// `ARRAY_TO_STRING` with a nullable collection of present elements, a nullable separator.
pub fn array_to_string2Nvec_N(value: Option<Vec<String>>, separator: Option<String>) -> (r: Option<String>)
    ensures
        r is Some <==> (value is Some && separator is Some),
        r is Some ==> r->0@ == array_to_string_spec(present(value->0@), separator->0@, None),
{
    let core = |v: Vec<String>, s: String| -> (r: String)
        ensures
            r@ == array_to_string_spec(present(v@), s@, None),
        { join_present(&v, s.as_str()) };
    lift2(
        core,
        value,
        separator,
    )
}

/// `ARRAY_TO_STRING` with a nullable collection of nullable elements, a separator.
pub fn array_to_string2NvecN_(value: Option<Vec<Option<String>>>, separator: String) -> (r: Option<String>)
    ensures
        r is Some <==> (value is Some),
        r is Some ==> r->0@ == array_to_string_spec(value->0@, separator@, None),
{
    let nv: Option<String> = None;
    let core = |v: Vec<Option<String>>, s: String| -> (r: String)
        ensures
            r@ == array_to_string_spec(v@, s@, opt_view(nv)),
        { join_elements(&v, s.as_str(), &nv) };
    lift2(
        core,
        value,
        Some(separator),
    )
}

/// `ARRAY_TO_STRING` with a nullable collection of nullable elements, a nullable separator.
pub fn array_to_string2NvecNN(value: Option<Vec<Option<String>>>, separator: Option<String>) -> (r: Option<String>)
    ensures
        r is Some <==> (value is Some && separator is Some),
        r is Some ==> r->0@ == array_to_string_spec(value->0@, separator->0@, None),
{
    let nv: Option<String> = None;
    let core = |v: Vec<Option<String>>, s: String| -> (r: String)
        ensures
            r@ == array_to_string_spec(v@, s@, opt_view(nv)),
        { join_elements(&v, s.as_str(), &nv) };
    lift2(
        core,
        value,
        separator,
    )
}

/// `ARRAY_TO_STRING` with a collection of present elements, a separator and a placeholder.
pub fn array_to_string3_vec___(value: Vec<String>, separator: String, null_value: String) -> (r: String)
    ensures
        r@ == array_to_string_spec(present(value@), separator@, Some(null_value@)),
{
    join_present(&value, separator.as_str())
}

/// `ARRAY_TO_STRING` with a collection of present elements, a separator and a nullable placeholder.
pub fn array_to_string3_vec__N(value: Vec<String>, separator: String, null_value: Option<String>) -> (r: Option<String>)
    ensures
        r is Some,
        r->0@ == array_to_string_spec(present(value@), separator@, opt_view(null_value)),
{
    Some(join_present(&value, separator.as_str()))
}

/// `ARRAY_TO_STRING` with a collection of present elements, a nullable separator and a placeholder.
pub fn array_to_string3_vec_N_(value: Vec<String>, separator: Option<String>, null_value: String) -> (r: Option<String>)
    ensures
        r is Some <==> (separator is Some),
        r is Some ==> r->0@ == array_to_string_spec(present(value@), separator->0@, Some(null_value@)),
{
    let core = |v: Vec<String>, s: String| -> (r: String)
        ensures
            r@ == array_to_string_spec(present(v@), s@, Some(null_value@)),
        { join_present(&v, s.as_str()) };
    lift2(
        core,
        Some(value),
        separator,
    )
}

/// `ARRAY_TO_STRING` with a collection of present elements, a nullable separator and a nullable placeholder.
pub fn array_to_string3_vec_NN(value: Vec<String>, separator: Option<String>, null_value: Option<String>) -> (r: Option<String>)
    ensures
        r is Some <==> (separator is Some),
        r is Some ==> r->0@ == array_to_string_spec(present(value@), separator->0@, opt_view(null_value)),
{
    let core = |v: Vec<String>, s: String| -> (r: String)
        ensures
            r@ == array_to_string_spec(present(v@), s@, opt_view(null_value)),
        { join_present(&v, s.as_str()) };
    lift2(
        core,
        Some(value),
        separator,
    )
}

/// `ARRAY_TO_STRING` with a collection of nullable elements, a separator and a placeholder.
pub fn array_to_string3_vecN__(value: Vec<Option<String>>, separator: String, null_value: String) -> (r: String)
    ensures
        r@ == array_to_string_spec(value@, separator@, Some(null_value@)),
{
    let nv: Option<String> = Some(null_value);
    join_elements(&value, separator.as_str(), &nv)
}

/// Joins nullable elements with a placeholder that may be absent; the
/// result is always present.
pub fn array_to_string3_vecN_N(value: Vec<Option<String>>, separator: String, null_value: Option<String>) -> (r: Option<String>)
    ensures
        r is Some,
        r->0@ == array_to_string_spec(value@, separator@, opt_view(null_value)),
{
    let nv: Option<String> = null_value;
    Some(join_elements(&value, separator.as_str(), &nv))
}

/// `ARRAY_TO_STRING` with a collection of nullable elements, a nullable separator and a placeholder.
pub fn array_to_string3_vecNN_(value: Vec<Option<String>>, separator: Option<String>, null_value: String) -> (r: Option<String>)
    ensures
        r is Some <==> (separator is Some),
        r is Some ==> r->0@ == array_to_string_spec(value@, separator->0@, Some(null_value@)),
{
    let nv: Option<String> = Some(null_value);
    let core = |v: Vec<Option<String>>, s: String| -> (r: String)
        ensures
            r@ == array_to_string_spec(v@, s@, opt_view(nv)),
        { join_elements(&v, s.as_str(), &nv) };
    lift2(
        core,
        Some(value),
        separator,
    )
}

/// `ARRAY_TO_STRING` with a collection of nullable elements, a nullable separator and a nullable placeholder.
pub fn array_to_string3_vecNNN(value: Vec<Option<String>>, separator: Option<String>, null_value: Option<String>) -> (r: Option<String>)
    ensures
        r is Some <==> (separator is Some),
        r is Some ==> r->0@ == array_to_string_spec(value@, separator->0@, opt_view(null_value)),
{
    let nv: Option<String> = null_value;
    let core = |v: Vec<Option<String>>, s: String| -> (r: String)
        ensures
            r@ == array_to_string_spec(v@, s@, opt_view(nv)),
        { join_elements(&v, s.as_str(), &nv) };
    lift2(
        core,
        Some(value),
        separator,
    )
}

/// `ARRAY_TO_STRING` with a nullable collection of present elements, a separator and a placeholder.
pub fn array_to_string3Nvec___(value: Option<Vec<String>>, separator: String, null_value: String) -> (r: Option<String>)
    ensures
        r is Some <==> (value is Some),
        r is Some ==> r->0@ == array_to_string_spec(present(value->0@), separator@, Some(null_value@)),
{
    let core = |v: Vec<String>, s: String| -> (r: String)
        ensures
            r@ == array_to_string_spec(present(v@), s@, Some(null_value@)),
        { join_present(&v, s.as_str()) };
    lift2(
        core,
        value,
        Some(separator),
    )
}

/// `ARRAY_TO_STRING` with a nullable collection of present elements, a separator and a nullable placeholder.
pub fn array_to_string3Nvec__N(value: Option<Vec<String>>, separator: String, null_value: Option<String>) -> (r: Option<String>)
    ensures
        r is Some <==> (value is Some),
        r is Some ==> r->0@ == array_to_string_spec(present(value->0@), separator@, opt_view(null_value)),
{
    let core = |v: Vec<String>, s: String| -> (r: String)
        ensures
            r@ == array_to_string_spec(present(v@), s@, opt_view(null_value)),
        { join_present(&v, s.as_str()) };
    lift2(
        core,
        value,
        Some(separator),
    )
}

/// `ARRAY_TO_STRING` with a nullable collection of present elements, a nullable separator and a placeholder.
pub fn array_to_string3Nvec_N_(value: Option<Vec<String>>, separator: Option<String>, null_value: String) -> (r: Option<String>)
    ensures
        r is Some <==> (value is Some && separator is Some),
        r is Some ==> r->0@ == array_to_string_spec(present(value->0@), separator->0@, Some(null_value@)),
{
    let core = |v: Vec<String>, s: String| -> (r: String)
        ensures
            r@ == array_to_string_spec(present(v@), s@, Some(null_value@)),
        { join_present(&v, s.as_str()) };
    lift2(
        core,
        value,
        separator,
    )
}

/// `ARRAY_TO_STRING` with a nullable collection of present elements, a nullable separator and a nullable placeholder.
pub fn array_to_string3Nvec_NN(value: Option<Vec<String>>, separator: Option<String>, null_value: Option<String>) -> (r: Option<String>)
    ensures
        r is Some <==> (value is Some && separator is Some),
        r is Some ==> r->0@ == array_to_string_spec(present(value->0@), separator->0@, opt_view(null_value)),
{
    let core = |v: Vec<String>, s: String| -> (r: String)
        ensures
            r@ == array_to_string_spec(present(v@), s@, opt_view(null_value)),
        { join_present(&v, s.as_str()) };
    lift2(
        core,
        value,
        separator,
    )
}

/// `ARRAY_TO_STRING` with a nullable collection of nullable elements, a separator and a placeholder.
pub fn array_to_string3NvecN__(value: Option<Vec<Option<String>>>, separator: String, null_value: String) -> (r: Option<String>)
    ensures
        r is Some <==> (value is Some),
        r is Some ==> r->0@ == array_to_string_spec(value->0@, separator@, Some(null_value@)),
{
    let nv: Option<String> = Some(null_value);
    let core = |v: Vec<Option<String>>, s: String| -> (r: String)
        ensures
            r@ == array_to_string_spec(v@, s@, opt_view(nv)),
        { join_elements(&v, s.as_str(), &nv) };
    lift2(
        core,
        value,
        Some(separator),
    )
}

/// `ARRAY_TO_STRING` with a nullable collection of nullable elements, a separator and a nullable placeholder.
pub fn array_to_string3NvecN_N(value: Option<Vec<Option<String>>>, separator: String, null_value: Option<String>) -> (r: Option<String>)
    ensures
        r is Some <==> (value is Some),
        r is Some ==> r->0@ == array_to_string_spec(value->0@, separator@, opt_view(null_value)),
{
    let nv: Option<String> = null_value;
    let core = |v: Vec<Option<String>>, s: String| -> (r: String)
        ensures
            r@ == array_to_string_spec(v@, s@, opt_view(nv)),
        { join_elements(&v, s.as_str(), &nv) };
    lift2(
        core,
        value,
        Some(separator),
    )
}

/// `ARRAY_TO_STRING` with a nullable collection of nullable elements, a nullable separator and a placeholder.
pub fn array_to_string3NvecNN_(value: Option<Vec<Option<String>>>, separator: Option<String>, null_value: String) -> (r: Option<String>)
    ensures
        r is Some <==> (value is Some && separator is Some),
        r is Some ==> r->0@ == array_to_string_spec(value->0@, separator->0@, Some(null_value@)),
{
    let nv: Option<String> = Some(null_value);
    let core = |v: Vec<Option<String>>, s: String| -> (r: String)
        ensures
            r@ == array_to_string_spec(v@, s@, opt_view(nv)),
        { join_elements(&v, s.as_str(), &nv) };
    lift2(
        core,
        value,
        separator,
    )
}

/// `ARRAY_TO_STRING` with a nullable collection of nullable elements, a nullable separator and a nullable placeholder.
pub fn array_to_string3NvecNNN(value: Option<Vec<Option<String>>>, separator: Option<String>, null_value: Option<String>) -> (r: Option<String>)
    ensures
        r is Some <==> (value is Some && separator is Some),
        r is Some ==> r->0@ == array_to_string_spec(value->0@, separator->0@, opt_view(null_value)),
{
    let nv: Option<String> = null_value;
    let core = |v: Vec<Option<String>>, s: String| -> (r: String)
        ensures
            r@ == array_to_string_spec(v@, s@, opt_view(nv)),
        { join_elements(&v, s.as_str(), &nv) };
    lift2(
        core,
        value,
        separator,
    )
}

} // verus!
