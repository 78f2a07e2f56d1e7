//! The count of calls that a stub still expects.
//!
//! `None` stands for a stub that accepts any number of calls, `Some(k)` for
//! one that expects exactly `k` more.

use crate::error::Failure;
use vstd::prelude::*;

verus! {

/// No further call is accepted.
pub open spec fn exhausted(remaining: Option<usize>) -> bool {
    remaining == Some(0usize)
}

/// What a call to the stub `name` brings to light: a call too many, if the
/// count is exhausted.
pub open spec fn refusal(name: Seq<char>, remaining: Option<usize>) -> Option<Failure> {
    if exhausted(remaining) {
        Some(Failure::Overcall { name })
    } else {
        None
    }
}

/// The count after one accepted call. An exhausted count stays as it is.
pub open spec fn after_call(remaining: Option<usize>) -> Option<usize> {
    match remaining {
        Some(k) => if k > 0 {
            Some((k - 1) as usize)
        } else {
            Some(0usize)
        },
        None => None,
    }
}

/// The count after `calls` attempts in a row, of which the refused ones
/// change nothing.
pub open spec fn after_calls(remaining: Option<usize>, calls: nat) -> Option<usize>
    decreases calls,
{
    if calls == 0 {
        remaining
    } else {
        after_calls(after_call(remaining), (calls - 1) as nat)
    }
}

/// The calls that are still owed: positive exactly when discarding the stub
/// now would break its expectation.
pub open spec fn owed(remaining: Option<usize>) -> nat {
    match remaining {
        Some(k) => k as nat,
        None => 0,
    }
}

/// What discarding the stub `name` brings to light: the calls that it still
/// expects, unless a failure is already unwinding.
pub open spec fn shortfall(name: Seq<char>, remaining: Option<usize>, unwinding: bool) -> Option<
    Failure,
> {
    if !unwinding && owed(remaining) > 0 {
        Some(Failure::Undercall { name, missing: owed(remaining) })
    } else {
        None
    }
}

/// Takes one call from the count, if it accepts one.
pub fn take_call(remaining: &mut Option<usize>) -> (accepted: bool)
    ensures
        accepted == !exhausted(*old(remaining)),
        accepted ==> *final(remaining) == after_call(*old(remaining)),
        !accepted ==> *final(remaining) == *old(remaining),
{
    match *remaining {
        Some(k) => {
            if k == 0 {
                false
            } else {
                *remaining = Some(k - 1);
                true
            }
        },
        None => true,
    }
}

} // verus!
