//! A registered stub, as the code under test holds it.

use crate::behavior::Behavior;
use crate::count::{after_call, refusal, take_call};
use crate::error::MockError;
use crate::record::Record;
use vstd::prelude::*;

verus! {

/// A stub retrieved from a registry: its name, the count of calls it still
/// expects, and its behavior. The count is the registry's own, so a call
/// through the stub is a call that the registry has seen.
#[verifier::reject_recursive_types(A)]
#[verifier::reject_recursive_types(R)]
pub struct Stub<'a, A, R> {
    pub name: &'a str,
    pub remaining: &'a mut Option<usize>,
    pub behavior: &'a Box<dyn Behavior<A, R>>,
}

impl<'a, A, R> Stub<'a, A, R> {
    /// The stub of `record` for a retrieval under `signature`, where
    /// `behavior` is what the record's payload holds for the argument and
    /// result types of the retrieval. The retrieval is refused unless the
    /// signature is the one registered and the payload holds such a behavior.
    pub fn bind(
        record: &'a mut Record,
        signature: &str,
        behavior: Option<&'a Box<dyn Behavior<A, R>>>,
    ) -> (out: Result<Self, MockError>)
        ensures
            match out {
                Ok(stub) => {
                    &&& old(record).signature@ == signature@
                    &&& behavior == Some(stub.behavior)
                    &&& stub.name@ == old(record).name@
                    &&& *stub.remaining == old(record).remaining
                    &&& final(record)@ == old(record)@.counting(*final(stub.remaining))
                },
                Err(error) => {
                    &&& old(record).signature@ != signature@ || behavior is None
                    &&& error@ == old(record)@.mismatch(signature@)
                    &&& *final(record) == *old(record)
                },
            },
    {
        let found = signature.to_owned();
        if behavior.is_some() && record.signature == found {
            Ok(
                Stub {
                    name: record.name.as_str(),
                    remaining: &mut record.remaining,
                    behavior: behavior.unwrap(),
                },
            )
        } else {
            Err(
                MockError::TypeMismatch {
                    name: record.name.clone(),
                    expected: record.signature.clone(),
                    found,
                },
            )
        }
    }

    /// Calls the stub: takes one call from its count and hands the arguments
    /// to its behavior. A stub whose count is exhausted refuses the call as
    /// one too many, and its behavior is not invoked.
    pub fn call(&mut self, args: A) -> (out: Result<R, MockError>)
        ensures
            final(self).name == old(self).name,
            final(self).behavior == old(self).behavior,
            *final(final(self).remaining) == *final(old(self).remaining),
            match out {
                Ok(result) => {
                    &&& refusal(old(self).name@, *old(self).remaining) is None
                    &&& *final(self).remaining == after_call(*old(self).remaining)
                    &&& old(self).behavior.yields(args, result)
                },
                Err(error) => {
                    &&& refusal(old(self).name@, *old(self).remaining) == Some(error@)
                    &&& *final(self).remaining == *old(self).remaining
                },
            },
    {
        if take_call(self.remaining) {
            Ok(self.behavior.invoke(args))
        } else {
            Err(MockError::Overcall { name: self.name.to_owned() })
        }
    }
}

} // verus!
