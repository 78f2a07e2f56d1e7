//! Behaviors of different signatures in one collection.

use crate::behavior::Behavior;
use std::any::Any;
use vstd::prelude::*;

verus! {

/// A boxed behavior whose argument and result types are no longer in its
/// type. Only [`unseal`] with the types it was sealed with gives it back.
///
/// The box is a `Box<dyn Any + Send>`, which the verifier cannot look into:
/// to it a sealed behavior is a value of which nothing is known.
#[verifier::external_body]
pub struct Sealed {
    inner: Box<dyn Any + Send>,
}

/// `Box::new` of the behavior, as a `Box<dyn Any + Send>`. Nothing is claimed
/// of the result.
#[verifier::external_body]
pub(crate) fn seal<A: 'static, R: 'static>(behavior: Box<dyn Behavior<A, R>>) -> (sealed: Sealed) {
    Sealed { inner: Box::new(behavior) }
}

/// `<dyn Any>::downcast_ref`: the behavior inside, if it was sealed with
/// these argument and result types. Nothing is claimed of the result.
#[verifier::external_body]
pub(crate) fn unseal<A: 'static, R: 'static>(sealed: &Sealed) -> (behavior: Option<
    &Box<dyn Behavior<A, R>>,
>) {
    sealed.inner.downcast_ref::<Box<dyn Behavior<A, R>>>()
}

} // verus!
