//! The null policy model and the nullability lifter.
//!
//! A SQL value that may be NULL is an `Option`: `None` is NULL. A core
//! function is written once over present values; `lift1` .. `lift4` turn it
//! into the variant whose arguments are all nullable under the `Propagate`
//! policy. An argument with a custom policy is handed to the core function
//! in its wrapped form, by capture or as an argument of `Option` type.
use vstd::prelude::*;

verus! {

/// How a variant treats an absent argument.
#[derive(Clone, Copy, Debug, PartialEq, Eq, Structural)]
pub enum NullPolicy {
    /// An absent argument makes the result absent; the core function is not called.
    Propagate,
    /// The core function receives the argument wrapped and decides itself.
    Custom,
}

/// Lifts a one-argument core function over a nullable argument.
pub fn lift1<A, R, F: FnOnce(A) -> R>(core: F, a: Option<A>) -> (r: Option<R>)
    requires
        a is Some ==> core.requires((a->0,)),
    ensures
        a is None ==> r is None,
        a is Some ==> r is Some && core.ensures((a->0,), r->0),
{
    match a {
        None => None,
        Some(x) => Some(core(x)),
    }
}

/// Lifts a two-argument core function; the arguments are inspected in order.
pub fn lift2<A, B, R, F: FnOnce(A, B) -> R>(core: F, a: Option<A>, b: Option<B>) -> (r: Option<R>)
    requires
        a is Some && b is Some ==> core.requires((a->0, b->0)),
    ensures
        a is None || b is None ==> r is None,
        a is Some && b is Some ==> r is Some && core.ensures((a->0, b->0), r->0),
{
    let x = match a {
        None => { return None; },
        Some(x) => x,
    };
    let y = match b {
        None => { return None; },
        Some(y) => y,
    };
    Some(core(x, y))
}

/// Lifts a three-argument core function; the arguments are inspected in order.
pub fn lift3<A, B, C, R, F: FnOnce(A, B, C) -> R>(
    core: F,
    a: Option<A>,
    b: Option<B>,
    c: Option<C>,
) -> (r: Option<R>)
    requires
        a is Some && b is Some && c is Some ==> core.requires((a->0, b->0, c->0)),
    ensures
        a is None || b is None || c is None ==> r is None,
        a is Some && b is Some && c is Some ==> r is Some && core.ensures(
            (a->0, b->0, c->0),
            r->0,
        ),
{
    let x = match a {
        None => { return None; },
        Some(x) => x,
    };
    let y = match b {
        None => { return None; },
        Some(y) => y,
    };
    let z = match c {
        None => { return None; },
        Some(z) => z,
    };
    Some(core(x, y, z))
}

/// Lifts a four-argument core function; the arguments are inspected in order.
pub fn lift4<A, B, C, D, R, F: FnOnce(A, B, C, D) -> R>(
    core: F,
    a: Option<A>,
    b: Option<B>,
    c: Option<C>,
    d: Option<D>,
) -> (r: Option<R>)
    requires
        a is Some && b is Some && c is Some && d is Some ==> core.requires(
            (a->0, b->0, c->0, d->0),
        ),
    ensures
        a is None || b is None || c is None || d is None ==> r is None,
        a is Some && b is Some && c is Some && d is Some ==> r is Some && core.ensures(
            (a->0, b->0, c->0, d->0),
            r->0,
        ),
{
    let x = match a {
        None => { return None; },
        Some(x) => x,
    };
    let y = match b {
        None => { return None; },
        Some(y) => y,
    };
    let z = match c {
        None => { return None; },
        Some(z) => z,
    };
    let w = match d {
        None => { return None; },
        Some(w) => w,
    };
    Some(core(x, y, z, w))
}

} // verus!
