//! The registry as a test holds it.

use crate::builder::StubBuilder;
use crate::error::{reports, MockError};
use crate::entry::EntryView;
use crate::store::{denial, distinct_names, first_unsettled, lookup, with_count, StubStore};
use crate::stub::Stub;
use core::marker::PhantomData;
use vstd::prelude::*;

verus! {

/// One test's stubs: registered with [`when`](Mocker::when), retrieved with
/// [`get`](Mocker::get), settled with [`finish`](Mocker::finish).
pub struct Mocker {
    store: StubStore,
}

impl View for Mocker {
    type V = Seq<EntryView>;

    closed spec fn view(&self) -> Seq<EntryView> {
        self.store@
    }
}

impl Mocker {
    /// A name is registered at most once.
    pub open spec fn wf(&self) -> bool {
        distinct_names(self@)
    }

    /// A registry with nothing registered.
    pub fn new() -> (mocker: Self)
        ensures
            mocker@ == Seq::<EntryView>::empty(),
            mocker.wf(),
    {
        Mocker { store: StubStore::new() }
    }

    /// Begins a stub under `name`, for calls with arguments of type `A` and
    /// results of type `R`; `signature` is the tag of that pair of types.
    /// The registry changes only when the builder registers the stub.
    pub fn when<'a, A, R>(&'a mut self, name: &str, signature: &str) -> (builder: StubBuilder<
        'a,
        A,
        R,
    >)
        requires
            old(self).wf(),
        ensures
            builder.name@ == name@,
            builder.signature@ == signature@,
            builder.times is None,
            builder.store@ == old(self)@,
            builder.store.wf(),
            final(self)@ == final(builder.store)@,
    {
        StubBuilder {
            name: name.to_owned(),
            signature: signature.to_owned(),
            store: &mut self.store,
            times: None,
            types: PhantomData,
        }
    }

    /// Retrieves the stub registered under `name`, for calls with arguments
    /// of type `A` and results of type `R`, under the tag `signature` of that
    /// pair of types.
    ///
    /// A name that nothing is registered under is an unexpected call. A stub
    /// registered under another tag is refused; one registered under the
    /// same tag is refused all the same if its behavior is of other types
    /// than `A` and `R`. Whatever is refused, the registry stays as it was,
    /// and no behavior has run. The count of a stub that is handed out is
    /// the registry's own: the registry holds, once the stub is let go,
    /// whatever count the stub then has.
    pub fn get<'a, A: 'static, R: 'static>(&'a mut self, name: &str, signature: &str) -> (out:
        Result<Stub<'a, A, R>, MockError>)
        requires
            old(self).wf(),
        ensures
            final(self).wf(),
            match out {
                Ok(stub) => {
                    &&& denial(old(self)@, name@, signature@) is None
                    &&& stub.name@ == name@
                    &&& *stub.remaining == lookup(old(self)@, name@).record.remaining
                    &&& final(self)@ == with_count(old(self)@, name@, *final(stub.remaining))
                },
                Err(error) => {
                    &&& error@ == match denial(old(self)@, name@, signature@) {
                        Some(failure) => failure,
                        None => lookup(old(self)@, name@).record.mismatch(signature@),
                    }
                    &&& final(self)@ == old(self)@
                },
            },
            denial(old(self)@, name@, signature@) is Some ==> out is Err,
    {
        match self.store.get(name, signature) {
            Ok(Some(stub)) => Ok(stub),
            Ok(None) => Err(MockError::Unregistered { name: name.to_owned() }),
            Err(error) => Err(error),
        }
    }

    /// Settles every stub's expectation as the registry is discarded. The
    /// first stub that still expects calls is reported, unless a failure is
    /// already unwinding.
    pub fn finish(self, unwinding: bool) -> (out: Result<(), MockError>)
        ensures
            reports(out, first_unsettled(self@, unwinding)),
    {
        self.store.settle(unwinding)
    }
}

impl Default for Mocker {
    fn default() -> (mocker: Self)
        ensures
            mocker@ == Seq::<EntryView>::empty(),
            mocker.wf(),
    {
        Mocker::new()
    }
}

} // verus!
