//! The registry proper: stubs by name, each a record with its sealed
//! behavior.

use crate::entry::{Entry, EntryView};
use crate::error::{reports, Failure, MockError};
use crate::record::Record;
use crate::stub::Stub;
use vstd::prelude::*;

verus! {

/// `entries[i]` is the stub of `name`.
pub open spec fn named_at(entries: Seq<EntryView>, name: Seq<char>, i: int) -> bool {
    0 <= i < entries.len() && entries[i].record.name == name
}

/// Something is registered under `name`.
pub open spec fn registered(entries: Seq<EntryView>, name: Seq<char>) -> bool {
    exists|i: int| named_at(entries, name, i)
}

/// Where the stub of `name` stands, if `name` is registered.
pub open spec fn slot(entries: Seq<EntryView>, name: Seq<char>) -> int {
    choose|i: int| named_at(entries, name, i)
}

/// The stub of `name`, if `name` is registered.
pub open spec fn lookup(entries: Seq<EntryView>, name: Seq<char>) -> EntryView {
    entries[slot(entries, name)]
}

/// No two stubs have one name.
pub open spec fn distinct_names(entries: Seq<EntryView>) -> bool {
    forall|i: int, j: int|
        0 <= i < entries.len() && 0 <= j < entries.len() && entries[i].record.name
            == entries[j].record.name ==> i == j
}

/// The stubs after `entry` is registered: in the place of the stub of the
/// same name, or behind the others if there is none.
pub open spec fn with_entry(entries: Seq<EntryView>, entry: EntryView) -> Seq<EntryView> {
    if registered(entries, entry.record.name) {
        entries.update(slot(entries, entry.record.name), entry)
    } else {
        entries.push(entry)
    }
}

/// The stubs after the stub of `name` has come back with the count
/// `remaining`.
pub open spec fn with_count(
    entries: Seq<EntryView>,
    name: Seq<char>,
    remaining: Option<usize>,
) -> Seq<EntryView> {
    entries.update(slot(entries, name), lookup(entries, name).counting(remaining))
}

/// What a retrieval of `name` under `signature` is refused with before the
/// stub's payload is looked at: nothing is registered under the name, or
/// what is registered has another signature.
pub open spec fn denial(entries: Seq<EntryView>, name: Seq<char>, signature: Seq<char>) -> Option<
    Failure,
> {
    if !registered(entries, name) {
        Some(Failure::Unregistered { name })
    } else if lookup(entries, name).record.signature != signature {
        Some(lookup(entries, name).record.mismatch(signature))
    } else {
        None
    }
}

/// What discarding all the stubs brings to light: what the first stub that
/// is not settled says. The later ones are discarded while that failure
/// unwinds.
pub open spec fn first_unsettled(entries: Seq<EntryView>, unwinding: bool) -> Option<Failure>
    decreases entries.len(),
{
    if entries.len() == 0 {
        None
    } else if entries[0].record.unsettled(unwinding) is Some {
        entries[0].record.unsettled(unwinding)
    } else {
        first_unsettled(entries.drop_first(), unwinding)
    }
}

/// Stubs that have, place by place, the names of distinctly named ones are
/// distinctly named too, and each name stands where it stood.
pub proof fn lemma_names_kept(before: Seq<EntryView>, after: Seq<EntryView>)
    requires
        distinct_names(before),
        after.len() == before.len(),
        forall|k: int| 0 <= k < before.len() ==> after[k].record.name == before[k].record.name,
    ensures
        distinct_names(after),
        forall|name: Seq<char>| registered(after, name) == registered(before, name),
        forall|name: Seq<char>|
            registered(before, name) ==> slot(after, name) == slot(before, name),
{
    assert forall|name: Seq<char>| registered(after, name) == registered(before, name) by {
        if registered(before, name) {
            assert(named_at(after, name, slot(before, name)));
        }
        if registered(after, name) {
            assert(named_at(before, name, slot(after, name)));
        }
    }
}

/// A stub that has been registered is found under its name, as it was
/// registered, and no name is registered twice.
pub proof fn lemma_placed(entries: Seq<EntryView>, entry: EntryView)
    requires
        distinct_names(entries),
    ensures
        distinct_names(with_entry(entries, entry)),
        registered(with_entry(entries, entry), entry.record.name),
        lookup(with_entry(entries, entry), entry.record.name) == entry,
{
    let after = with_entry(entries, entry);
    if registered(entries, entry.record.name) {
        assert(named_at(entries, entry.record.name, slot(entries, entry.record.name)));
        assert(named_at(after, entry.record.name, slot(entries, entry.record.name)));
        lemma_names_kept(entries, after);
    } else {
        assert(named_at(after, entry.record.name, entries.len() as int));
        assert forall|a: int, b: int|
            0 <= a < after.len() && 0 <= b < after.len() && after[a].record.name
                == after[b].record.name implies a == b by {
            if a < entries.len() && b == entries.len() {
                assert(named_at(entries, entry.record.name, a));
            }
            if b < entries.len() && a == entries.len() {
                assert(named_at(entries, entry.record.name, b));
            }
        }
    }
}

/// Stubs of any signature, by name.
pub struct StubStore {
    entries: Vec<Entry>,
}

impl View for StubStore {
    type V = Seq<EntryView>;

    closed spec fn view(&self) -> Seq<EntryView> {
        Seq::new(self.entries.len() as nat, |i: int| self.entries[i]@)
    }
}

impl StubStore {
    /// A name is registered at most once.
    pub open spec fn wf(&self) -> bool {
        distinct_names(self@)
    }

    /// A registry with nothing registered.
    pub fn new() -> (store: Self)
        ensures
            store@ == Seq::<EntryView>::empty(),
            store.wf(),
    {
        StubStore { entries: Vec::new() }
    }

    /// Where the stub of `name` stands.
    fn find(&self, name: &String) -> (found: Option<usize>)
        ensures
            match found {
                Some(i) => named_at(self@, name@, i as int),
                None => !registered(self@, name@),
            },
    {
        let mut i: usize = 0;
        while i < self.entries.len()
            invariant
                i <= self.entries.len(),
                forall|k: int| 0 <= k < i ==> !named_at(self@, name@, k),
            decreases self.entries.len() - i,
        {
            if self.entries[i].record().name == *name {
                return Some(i);
            }
            i += 1;
        }
        None
    }

    /// Registers `entry`, record and behavior, in the place of the stub that
    /// was registered under its name, if any. Of that one the record is
    /// handed back as it was, and the behavior is dropped: its expectation
    /// is not looked at here, and is still to be settled by whoever discards
    /// the record. Every other stub stays as it was.
    #[must_use]
    pub fn insert(&mut self, entry: Entry) -> (displaced: Option<Record>)
        requires
            old(self).wf(),
        ensures
            final(self).wf(),
            final(self)@ == with_entry(old(self)@, entry@),
            match displaced {
                Some(record) => registered(old(self)@, entry@.record.name) && record@ == lookup(
                    old(self)@,
                    entry@.record.name,
                ).record,
                None => !registered(old(self)@, entry@.record.name),
            },
    {
        let ghost placed = entry@;
        let mut entry = entry;
        proof {
            lemma_placed(old(self)@, placed);
        }
        match self.find(&entry.record().name) {
            Some(i) => {
                core::mem::swap(&mut self.entries[i], &mut entry);
                assert(self@ =~= old(self)@.update(i as int, placed));
                Some(entry.into_record())
            },
            None => {
                self.entries.push(entry);
                assert(self@ =~= old(self)@.push(placed));
                None
            },
        }
    }

    /// Retrieves the stub registered under `name`, for calls with arguments
    /// of type `A` and results of type `R`, under the tag `signature` of that
    /// pair of types. `Ok(None)` says that nothing is registered under `name`.
    ///
    /// The stub is the one that the entry of `name` opens to, and is refused
    /// where that entry refuses: under another tag than the one registered,
    /// or with no behavior of types `A` and `R` in its payload. Whatever is
    /// refused, the registry stays as it was. The count of a stub that is
    /// handed out is the registry's own: the registry holds, once the stub
    /// is let go, whatever count the stub then has, and no payload has
    /// changed.
    pub fn get<'a, A: 'static, R: 'static>(&'a mut self, name: &str, signature: &str) -> (out:
        Result<Option<Stub<'a, A, R>>, MockError>)
        requires
            old(self).wf(),
        ensures
            final(self).wf(),
            match out {
                Ok(Some(stub)) => {
                    &&& denial(old(self)@, name@, signature@) is None
                    &&& stub.name@ == name@
                    &&& *stub.remaining == lookup(old(self)@, name@).record.remaining
                    &&& final(self)@ == with_count(old(self)@, name@, *final(stub.remaining))
                },
                Ok(None) => !registered(old(self)@, name@) && final(self)@ == old(self)@,
                Err(error) => {
                    &&& registered(old(self)@, name@)
                    &&& error@ == lookup(old(self)@, name@).record.mismatch(signature@)
                    &&& final(self)@ == old(self)@
                },
            },
            registered(old(self)@, name@) && denial(old(self)@, name@, signature@) is Some
                ==> out is Err,
    {
        let key = name.to_owned();
        match self.find(&key) {
            Some(i) => {
                let opened = self.entries[i].open(signature);
                proof {
                    lemma_names_kept(old(self)@, after_borrow(*self)@);
                }
                match opened {
                    Ok(stub) => Ok(Some(stub)),
                    Err(error) => Err(error),
                }
            },
            None => Ok(None),
        }
    }

    /// Settles every stub's expectation, as when the registry is discarded:
    /// the first stub that is not settled is the one reported.
    pub fn settle(&self, unwinding: bool) -> (out: Result<(), MockError>)
        ensures
            reports(out, first_unsettled(self@, unwinding)),
    {
        let mut i: usize = 0;
        assert(self@.skip(0) =~= self@);
        while i < self.entries.len()
            invariant
                i <= self.entries.len(),
                first_unsettled(self@, unwinding) == first_unsettled(
                    self@.skip(i as int),
                    unwinding,
                ),
            decreases self.entries.len() - i,
        {
            let settled = self.entries[i].record().settle(unwinding);
            proof {
                let rest = self@.skip(i as int);
                assert(rest.drop_first() =~= self@.skip(i + 1));
            }
            if settled.is_err() {
                return settled;
            }
            i += 1;
        }
        Ok(())
    }
}

impl Default for StubStore {
    fn default() -> (store: Self)
        ensures
            store@ == Seq::<EntryView>::empty(),
            store.wf(),
    {
        StubStore::new()
    }
}

} // verus!
