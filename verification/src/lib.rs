//! Small helpers in the functional style: projections of a pair, the identity,
//! an inline conditional, taking a collection apart at its front, and a list
//! that grows at its front.
use vstd::prelude::*;

pub mod laws;
pub mod list;
pub mod text;

use crate::list::uncons_of;

verus! {

/// The first component of a pair.
pub fn fst<A, B>(x: (A, B)) -> (first: A)
    ensures
        first == x.0,
{
    x.0
}

/// The second component of a pair.
pub fn snd<A, B>(x: (A, B)) -> (second: B)
    ensures
        second == x.1,
{
    x.1
}

/// The value itself, as the identity function of mathematics gives it.
pub fn identity<A>(x: A) -> (same: A)
    ensures
        same == x,
{
    x
}

/// An inline conditional: `x` if `b` holds, else `y`.
pub fn ifte<A>(x: A, y: A, b: bool) -> (chosen: A)
    ensures
        chosen == if b { x } else { y },
{
    if b {
        x
    } else {
        y
    }
}

/// Takes a vector apart as `List::uncons` takes a list apart: its first item
/// and the vector of the items that followed it, or `None` where it is empty.
pub fn uncons<A>(items: Vec<A>) -> (parts: Option<(A, Vec<A>)>)
    ensures
        match parts {
            Some((front, rest)) => uncons_of(items@) == Some((front, rest@)),
            None => uncons_of(items@) is None,
        },
{
    if items.len() == 0 {
        None
    } else {
        let mut rest = items;
        let front = rest.remove(0);
        Some((front, rest))
    }
}

} // verus!
