//! What holds of every registry, whatever is registered and called.

use crate::count::{after_call, after_calls, exhausted, owed, refusal, shortfall};
use crate::error::Failure;
use crate::entry::EntryView;
use crate::store::{
    denial, distinct_names, first_unsettled, lemma_names_kept, lemma_placed, lookup, named_at,
    registered, slot, with_count, with_entry,
};
use vstd::prelude::*;

verus! {

/// A count of `n` stands at `n - calls` after `calls` calls, as long as
/// `calls` is at most `n`, and at zero from then on.
pub proof fn lemma_count_after_calls(n: usize, calls: nat)
    ensures
        after_calls(Some(n), calls) == Some(
            if calls <= n {
                (n - calls) as usize
            } else {
                0usize
            },
        ),
    decreases calls,
{
    if calls > 0 {
        if n > 0 {
            lemma_count_after_calls((n - 1) as usize, (calls - 1) as nat);
        } else {
            lemma_count_after_calls(0, (calls - 1) as nat);
        }
    }
}

/// A stub without a count keeps none, however often it is called.
pub proof fn lemma_no_count_after_calls(calls: nat)
    ensures
        after_calls(None, calls) == None::<usize>,
    decreases calls,
{
    if calls > 0 {
        lemma_no_count_after_calls((calls - 1) as nat);
    }
}

/// A stub registered for exactly `n` calls and called exactly `n` times: no
/// call is refused, and discarding the stub afterwards reports nothing.
pub proof fn law_exact_calls_settle(name: Seq<char>, n: usize, unwinding: bool)
    ensures
        forall|earlier: nat|
            earlier < n ==> refusal(name, #[trigger] after_calls(Some(n), earlier)) is None,
        shortfall(name, after_calls(Some(n), n as nat), unwinding) == None::<Failure>,
{
    assert forall|earlier: nat| earlier < n implies refusal(
        name,
        #[trigger] after_calls(Some(n), earlier),
    ) is None by {
        lemma_count_after_calls(n, earlier);
    }
    lemma_count_after_calls(n, n as nat);
}

/// A stub registered for exactly `n` calls and called once more: the first
/// `n` calls are accepted, the call after them is refused as one too many,
/// and so is every later one.
pub proof fn law_call_beyond_count_refused(name: Seq<char>, n: usize, calls: nat)
    requires
        calls >= n,
    ensures
        forall|earlier: nat|
            earlier < n ==> refusal(name, #[trigger] after_calls(Some(n), earlier)) is None,
        refusal(name, after_calls(Some(n), calls)) == Some(Failure::Overcall { name }),
        after_call(after_calls(Some(n), calls)) == after_calls(Some(n), calls),
{
    assert forall|earlier: nat| earlier < n implies refusal(
        name,
        #[trigger] after_calls(Some(n), earlier),
    ) is None by {
        lemma_count_after_calls(n, earlier);
    }
    lemma_count_after_calls(n, calls);
}

/// A stub registered for exactly `n` calls and called fewer times: no call is
/// refused, and nothing is amiss until the stub is discarded. Discarding it
/// reports the calls that are missing, unless a failure is already
/// unwinding.
pub proof fn law_missing_calls_reported(name: Seq<char>, n: usize, calls: nat)
    requires
        calls < n,
    ensures
        forall|earlier: nat|
            earlier <= calls ==> refusal(name, #[trigger] after_calls(Some(n), earlier)) is None,
        shortfall(name, after_calls(Some(n), calls), false) == Some(
            Failure::Undercall { name, missing: (n - calls) as nat },
        ),
        shortfall(name, after_calls(Some(n), calls), true) == None::<Failure>,
{
    assert forall|earlier: nat| earlier <= calls implies refusal(
        name,
        #[trigger] after_calls(Some(n), earlier),
    ) is None by {
        lemma_count_after_calls(n, earlier);
    }
    lemma_count_after_calls(n, calls);
}

/// A stub registered without a count: any number of calls is accepted, none
/// included, and discarding the stub reports nothing.
pub proof fn law_no_count_accepts_all(name: Seq<char>, calls: nat, unwinding: bool)
    ensures
        refusal(name, after_calls(None, calls)) == None::<Failure>,
        shortfall(name, after_calls(None, calls), unwinding) == None::<Failure>,
{
    lemma_no_count_after_calls(calls);
}

/// A count never grows, and an accepted call takes exactly one from it.
pub proof fn law_call_takes_one(remaining: Option<usize>)
    ensures
        owed(after_call(remaining)) <= owed(remaining),
        remaining is Some && !exhausted(remaining) ==> owed(after_call(remaining)) + 1 == owed(
            remaining,
        ),
        remaining is None <==> after_call(remaining) is None,
{
}

/// A retrieval under a name that was never registered is refused as an
/// unexpected call: in a registry that is new, and in one that only other
/// names were registered in.
pub proof fn law_unregistered_denied(
    entries: Seq<EntryView>,
    entry: EntryView,
    name: Seq<char>,
    signature: Seq<char>,
)
    requires
        distinct_names(entries),
        name != entry.record.name,
        !registered(entries, name),
    ensures
        denial(Seq::<EntryView>::empty(), name, signature) == Some(
            Failure::Unregistered { name },
        ),
        denial(entries, name, signature) == Some(Failure::Unregistered { name }),
        denial(with_entry(entries, entry), name, signature) == Some(
            Failure::Unregistered { name },
        ),
{
    law_registration_keeps_others(entries, entry, name);
}

/// A retrieval under another signature than the one a stub was registered
/// with is refused as a mismatch that names both; under the signature it was
/// registered with it is not refused.
pub proof fn law_other_signature_denied(
    entries: Seq<EntryView>,
    entry: EntryView,
    signature: Seq<char>,
)
    requires
        distinct_names(entries),
    ensures
        denial(with_entry(entries, entry), entry.record.name, signature) == if signature
            == entry.record.signature {
            None
        } else {
            Some(
                Failure::TypeMismatch {
                    name: entry.record.name,
                    expected: entry.record.signature,
                    found: signature,
                },
            )
        },
{
    law_registration_found(entries, entry);
}

/// A registration is found under its name, as it was registered, record and
/// payload: it stands where the earlier registration of that name stood,
/// which it replaces, so that neither the earlier record nor the earlier
/// payload is in the registry any more; and no name is registered twice.
pub proof fn law_registration_found(entries: Seq<EntryView>, entry: EntryView)
    requires
        distinct_names(entries),
    ensures
        distinct_names(with_entry(entries, entry)),
        registered(with_entry(entries, entry), entry.record.name),
        lookup(with_entry(entries, entry), entry.record.name) == entry,
        with_entry(entries, entry).len() == if registered(entries, entry.record.name) {
            entries.len()
        } else {
            entries.len() + 1
        },
        forall|i: int|
            0 <= i < with_entry(entries, entry).len() && i != slot(
                with_entry(entries, entry),
                entry.record.name,
            ) ==> #[trigger] with_entry(entries, entry)[i] == entries[i] && entries[i].record.name
                != entry.record.name,
{
    let after = with_entry(entries, entry);
    lemma_placed(entries, entry);
    assert forall|k: int| 0 <= k < after.len() && k != slot(after, entry.record.name) implies
        #[trigger] after[k] == entries[k] && entries[k].record.name != entry.record.name by {
        assert(named_at(after, entry.record.name, slot(after, entry.record.name)));
        if k < entries.len() && entries[k].record.name == entry.record.name {
            assert(named_at(entries, entry.record.name, k));
        }
    }
}

/// A registration leaves the stub of every other name as it was, record and
/// payload.
pub proof fn law_registration_keeps_others(
    entries: Seq<EntryView>,
    entry: EntryView,
    other: Seq<char>,
)
    requires
        distinct_names(entries),
        other != entry.record.name,
    ensures
        registered(with_entry(entries, entry), other) == registered(entries, other),
        registered(entries, other) ==> lookup(with_entry(entries, entry), other) == lookup(
            entries,
            other,
        ),
{
    let after = with_entry(entries, entry);
    law_registration_found(entries, entry);
    if registered(entries, other) {
        let i = slot(entries, other);
        assert(named_at(after, other, i));
    }
    if registered(after, other) {
        let i = slot(after, other);
        assert(named_at(entries, other, i));
    }
}

/// What discarding the stub at `i` brings to light.
pub open spec fn unsettled_at(entries: Seq<EntryView>, i: int, unwinding: bool) -> Option<Failure> {
    entries[i].record.unsettled(unwinding)
}

/// Discarding a registry reports nothing exactly when no stub in it is owed
/// a call, or a failure is already unwinding. What it reports otherwise is
/// what the first stub that is owed calls has to say.
pub proof fn law_teardown_reports_first(entries: Seq<EntryView>, unwinding: bool)
    ensures
        first_unsettled(entries, unwinding) is None <==> forall|i: int|
            0 <= i < entries.len() ==> unsettled_at(entries, i, unwinding) is None,
        first_unsettled(entries, unwinding) is Some ==> exists|i: int|
            {
                &&& 0 <= i < entries.len()
                &&& unsettled_at(entries, i, unwinding) == first_unsettled(entries, unwinding)
                &&& forall|j: int| 0 <= j < i ==> unsettled_at(entries, j, unwinding) is None
            },
        unwinding ==> first_unsettled(entries, unwinding) is None,
    decreases entries.len(),
{
    if entries.len() > 0 {
        let rest = entries.drop_first();
        law_teardown_reports_first(rest, unwinding);
        assert forall|i: int| 0 < i < entries.len() implies unsettled_at(entries, i, unwinding)
            == unsettled_at(rest, i - 1, unwinding) by {
            assert(entries[i] == rest[i - 1]);
        }
        if unsettled_at(entries, 0, unwinding) is Some {
            assert(forall|j: int| 0 <= j < 0 ==> unsettled_at(entries, j, unwinding) is None);
        } else if first_unsettled(rest, unwinding) is Some {
            let i = choose|i: int|
                {
                    &&& 0 <= i < rest.len()
                    &&& unsettled_at(rest, i, unwinding) == first_unsettled(rest, unwinding)
                    &&& forall|j: int| 0 <= j < i ==> unsettled_at(rest, j, unwinding) is None
                };
            assert(unsettled_at(entries, i + 1, unwinding) == unsettled_at(rest, i, unwinding));
            assert forall|j: int| 0 <= j < i + 1 implies unsettled_at(entries, j, unwinding)
                is None by {
                if j > 0 {
                    assert(unsettled_at(rest, j - 1, unwinding) is None);
                }
            }
        } else {
            assert forall|i: int| 0 <= i < entries.len() implies unsettled_at(
                entries,
                i,
                unwinding,
            ) is None by {
                if i > 0 {
                    assert(unsettled_at(rest, i - 1, unwinding) is None);
                }
            }
        }
    }
}

/// The calls made through a stub are the registry's: while the stub is out,
/// only its count changes, and the registry takes the count back as the stub
/// leaves it. Its payload, and every other stub, stay as they were.
pub proof fn law_calls_are_counted(
    entries: Seq<EntryView>,
    name: Seq<char>,
    remaining: Option<usize>,
    other: Seq<char>,
)
    requires
        distinct_names(entries),
        registered(entries, name),
    ensures
        distinct_names(with_count(entries, name, remaining)),
        registered(with_count(entries, name, remaining), other) == registered(entries, other),
        lookup(with_count(entries, name, remaining), name) == lookup(entries, name).counting(
            remaining,
        ),
        lookup(with_count(entries, name, remaining), name).payload == lookup(
            entries,
            name,
        ).payload,
        other != name && registered(entries, other) ==> lookup(
            with_count(entries, name, remaining),
            other,
        ) == lookup(entries, other),
{
    lemma_names_kept(entries, with_count(entries, name, remaining));
    if registered(entries, other) {
    }
}

} // verus!
