//! Configuring a stub before it is registered.

use crate::behavior::{Behavior, FnBehavior};
use crate::entry::Entry;
use crate::record::{Record, RecordView};
use crate::store::{lemma_placed, lookup, registered, with_entry, StubStore};
use core::marker::PhantomData;
use vstd::prelude::*;

verus! {

/// A stub in the making, for calls with arguments of type `A` and results of
/// type `R`. Nothing is registered until [`then`](StubBuilder::then) gives it
/// its behavior; a builder that is dropped before registers nothing.
#[verifier::reject_recursive_types(A)]
#[verifier::reject_recursive_types(R)]
pub struct StubBuilder<'a, A, R> {
    pub name: String,
    pub signature: String,
    pub store: &'a mut StubStore,
    pub times: Option<usize>,
    pub types: PhantomData<(A, R)>,
}

impl<'a, A: 'static, R: 'static> StubBuilder<'a, A, R> {
    /// Expects the stub to be called exactly `times` times, whatever was
    /// expected before.
    #[must_use]
    pub fn times(self, times: usize) -> (builder: Self)
        ensures
            builder == (StubBuilder { times: Some(times), ..self }),
    {
        let mut builder = self;
        builder.times = Some(times);
        builder
    }

    /// Expects the stub to be called exactly once.
    #[must_use]
    pub fn once(self) -> (builder: Self)
        ensures
            builder == (StubBuilder { times: Some(1usize), ..self }),
    {
        self.times(1)
    }

    /// Registers the stub with `behavior` as what a call does, and with the
    /// expected count if one was given. The stub that was registered under
    /// the name before, if any, is replaced, behavior included; its record is
    /// handed back to be settled. Every other stub stays as it was.
    #[must_use]
    pub fn then<F: Fn(A) -> R + Send + 'static>(self, behavior: F) -> (displaced: Option<Record>)
        requires
            old(self.store).wf(),
            forall|args: A| call_requires(behavior, (args,)),
        ensures
            final(self.store).wf(),
            final(self.store)@ == with_entry(
                old(self.store)@,
                lookup(final(self.store)@, self.name@),
            ),
            lookup(final(self.store)@, self.name@).record == (RecordView {
                name: self.name@,
                signature: self.signature@,
                remaining: self.times,
            }),
            match displaced {
                Some(record) => registered(old(self.store)@, self.name@) && record@ == lookup(
                    old(self.store)@,
                    self.name@,
                ).record,
                None => !registered(old(self.store)@, self.name@),
            },
    {
        let boxed: Box<dyn Behavior<A, R>> = Box::new(FnBehavior::new(behavior));
        let entry = Entry::new(self.name, self.signature, self.times, boxed);
        proof {
            lemma_placed(old(self.store)@, entry@);
        }
        self.store.insert(entry)
    }
}

} // verus!
