//! A stub as a registry holds it.

use crate::behavior::Behavior;
use crate::error::MockError;
use crate::record::{Record, RecordView};
use crate::sealed::{seal, unseal, Sealed};
use crate::stub::Stub;
use vstd::prelude::*;

verus! {

/// A stub that can stand in a registry beside stubs of other signatures: its
/// record, and its behavior in sealed form. The two stay together: nothing
/// but [`open`](Entry::open) reaches the behavior, and it reaches no other.
pub struct Entry {
    record: Record,
    payload: Sealed,
}

/// An [`Entry`] as the contracts see it.
pub struct EntryView {
    pub record: RecordView,
    pub payload: Sealed,
}

impl EntryView {
    /// The same stub, with the same behavior, at another count.
    pub open spec fn counting(self, remaining: Option<usize>) -> EntryView {
        EntryView { record: self.record.counting(remaining), payload: self.payload }
    }
}

impl View for Entry {
    type V = EntryView;

    closed spec fn view(&self) -> EntryView {
        EntryView { record: self.record@, payload: self.payload }
    }
}

impl Entry {
    /// The stub `name` with `behavior`, for calls with arguments of type `A`
    /// and results of type `R` under the tag `signature`, expecting `times`
    /// calls if a count is given.
    pub fn new<A: 'static, R: 'static>(
        name: String,
        signature: String,
        times: Option<usize>,
        behavior: Box<dyn Behavior<A, R>>,
    ) -> (entry: Self)
        ensures
            entry@.record == (RecordView { name: name@, signature: signature@, remaining: times }),
    {
        Entry { record: Record { name, signature, remaining: times }, payload: seal(behavior) }
    }

    /// The stub's record.
    pub fn record(&self) -> (record: &Record)
        ensures
            record@ == self@.record,
    {
        &self.record
    }

    /// The stub's record, the behavior being dropped.
    pub fn into_record(self) -> (record: Record)
        ensures
            record@ == self@.record,
    {
        self.record
    }

    /// Opens the stub for calls with arguments of type `A` and results of
    /// type `R`, under the tag `signature` of that pair of types.
    ///
    /// Under another tag than the one registered the stub is refused.
    /// Under the tag registered it is handed out with the behavior that its
    /// own payload holds for `A` and `R`, and refused if the payload holds
    /// none of these types; whether it does, the payload decides. A stub
    /// that is handed out counts in this entry.
    pub fn open<'a, A: 'static, R: 'static>(&'a mut self, signature: &str) -> (out: Result<
        Stub<'a, A, R>,
        MockError,
    >)
        ensures
            match out {
                Ok(stub) => {
                    &&& old(self)@.record.signature == signature@
                    &&& stub.name@ == old(self)@.record.name
                    &&& *stub.remaining == old(self)@.record.remaining
                    &&& final(self)@ == old(self)@.counting(*final(stub.remaining))
                },
                Err(error) => {
                    &&& error@ == old(self)@.record.mismatch(signature@)
                    &&& final(self)@ == old(self)@
                },
            },
            old(self)@.record.signature != signature@ ==> out is Err,
    {
        let behavior = unseal::<A, R>(&self.payload);
        Stub::bind(&mut self.record, signature, behavior)
    }
}

} // verus!
