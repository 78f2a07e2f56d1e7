//! What a stub does when it is called.

use core::marker::PhantomData;
use vstd::prelude::*;

verus! {

/// A total function from arguments to results, known by what it may return.
///
/// `invoke` has no precondition: a behavior answers every argument.
pub trait Behavior<A, R>: Send {
    /// `out` is a result that the behavior may give for `args`.
    spec fn yields(&self, args: A, out: R) -> bool;

    fn invoke(&self, args: A) -> (out: R)
        ensures
            self.yields(args, out),
    ;
}

/// A closure that accepts every argument, as a [`Behavior`].
#[verifier::reject_recursive_types(A)]
#[verifier::reject_recursive_types(R)]
#[verifier::reject_recursive_types(F)]
pub struct FnBehavior<A, R, F: Fn(A) -> R> {
    f: F,
    types: PhantomData<Box<dyn Behavior<A, R>>>,
}

impl<A, R, F: Fn(A) -> R> FnBehavior<A, R, F> {
    #[verifier::type_invariant]
    spec fn accepts_everything(self) -> bool {
        forall|args: A| call_requires(self.f, (args,))
    }

    /// The closure that is wrapped.
    pub closed spec fn closure(self) -> F {
        self.f
    }

    /// Wraps a closure that has no precondition.
    pub fn new(f: F) -> (behavior: Self)
        requires
            forall|args: A| call_requires(f, (args,)),
        ensures
            behavior.closure() == f,
    {
        FnBehavior { f, types: PhantomData }
    }
}

impl<A, R, F: Fn(A) -> R + Send> Behavior<A, R> for FnBehavior<A, R, F> {
    open spec fn yields(&self, args: A, out: R) -> bool {
        call_ensures(self.closure(), (args,), out)
    }

    fn invoke(&self, args: A) -> (out: R) {
        proof {
            use_type_invariant(self);
        }
        (self.f)(args)
    }
}

} // verus!
