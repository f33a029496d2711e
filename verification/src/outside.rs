//! What the crate takes on trust from `std::task` and from the `branches` crate.
use std::task::{Poll, Waker};
use vstd::prelude::*;

verus! {

/// Declares `std::task::Waker`, the handle by which an executor is told to poll a task again.
/// Nothing is known of what is inside.
#[verifier::external_type_specification]
#[verifier::external_body]
pub struct ExWaker(Waker);

/// Declares `std::task::Poll`, with its two variants.
#[verifier::external_type_specification]
#[verifier::reject_recursive_types(T)]
pub struct ExPoll<T>(Poll<T>);

/// `Waker::clone` can be called on any waker. Nothing is claimed of the clone beyond that it is
/// one: contracts say so with `cloned`.
pub assume_specification[ <Waker as Clone>::clone ](waker: &Waker) -> (clone: Waker);

/// `Waker::will_wake` can be called on any two wakers. Nothing is claimed of its answer, which is
/// given on a best-effort basis: contracts say that an answer is the one that came from it.
pub assume_specification[ Waker::will_wake ](waker: &Waker, other: &Waker) -> (same: bool);

/// `branches::unlikely` returns the value passed to it; the hint that it gives to the optimizer
/// changes no result.
pub assume_specification[ branches::unlikely ](b: bool) -> (r: bool)
    ensures
        r == b,
;

} // verus!
