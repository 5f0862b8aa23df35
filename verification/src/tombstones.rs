//! The tombstone tracker: records Delete actions against an original action
//! hash and answers all-tombstones and oldest-tombstone queries. Tombstones
//! are a derived view of the action log — no separate state is stored.

use vstd::prelude::*;

use crate::store::{tombstones_of, Store};
use crate::types::{
    Action, Details, Operation, ProtocolError, Record, ANCHOR_SPACE_START,
};

verus! {

/// The tombstone with the minimum timestamp; ties go to the earliest in store
/// order (the substrate's natural ordering). Meaningful when `s` is non-empty.
pub open spec fn oldest_of(s: Seq<Record>) -> Record
    decreases s.len(),
{
    if s.len() <= 1 {
        s[0]
    } else {
        let prev = oldest_of(s.drop_last());
        if s.last().action.timestamp < prev.action.timestamp {
            s.last()
        } else {
            prev
        }
    }
}

/// Record one Delete action against `original`. Fails with NotFound when the
/// original cannot be resolved, and with MalformedDetails when the store's
/// detail view returns an entry-only projection — expected only for addresses
/// never recorded as full records, a protocol-invariant violation. On failure
/// the store is untouched.
pub fn record_delete(store: &mut Store, original: u64, author: u64, timestamp: u64) -> (r: Result<
    Record,
    ProtocolError,
>)
    requires
        old(store).wf(),
        old(store).next_address < ANCHOR_SPACE_START,
    ensures
        final(store).wf(),
        old(store).has_action(original) ==> (r matches Ok(rec) && rec == (Record {
            hash: old(store).next_address,
            action: Action { author, timestamp, op: Operation::Delete { target: original } },
        }) && final(store).actions@ == old(store).actions@.push(rec) && final(store).links@ == old(
            store,
        ).links@ && final(store).next_address == old(store).next_address + 1),
        !old(store).has_action(original) && original >= ANCHOR_SPACE_START ==> r == Err::<
            Record,
            ProtocolError,
        >(ProtocolError::MalformedDetails) && *final(store) == *old(store),
        !old(store).has_action(original) && original < ANCHOR_SPACE_START ==> r == Err::<
            Record,
            ProtocolError,
        >(ProtocolError::NotFound) && *final(store) == *old(store),
{
    match store.get_details(original) {
        None => Err(ProtocolError::NotFound),
        Some(Details::EntryOnly) => Err(ProtocolError::MalformedDetails),
        Some(Details::RecordDetails { .. }) => {
            let action = Action { author, timestamp, op: Operation::Delete { target: original } };
            let h = store.put_action(action);
            Ok(Record { hash: h, action })
        },
    }
}

/// The complete set of Delete actions ever recorded against `original`, in
/// store order. Returns an absent result — not an error — when the original
/// hash itself cannot be resolved, signalling "nothing here to delete".
pub fn all_tombstones(store: &Store, original: u64) -> (r: Result<
    Option<Vec<Record>>,
    ProtocolError,
>)
    requires
        store.wf(),
    ensures
        store.has_action(original) ==> (r matches Ok(v) && v matches Some(ds) && ds@
            == tombstones_of(store.actions@, original)),
        !store.has_action(original) && original < ANCHOR_SPACE_START ==> (r matches Ok(v)
            && v is None),
        !store.has_action(original) && original >= ANCHOR_SPACE_START ==> r == Err::<
            Option<Vec<Record>>,
            ProtocolError,
        >(ProtocolError::MalformedDetails),
{
    match store.get_details(original) {
        None => Ok(None),
        Some(Details::EntryOnly) => Err(ProtocolError::MalformedDetails),
        Some(Details::RecordDetails { record: _, deletes }) => Ok(Some(deletes)),
    }
}

/// The record with the minimum timestamp among `records`, ties resolved to the
/// earliest in store order; absent when `records` is empty.
pub fn oldest_record(records: &Vec<Record>) -> (r: Option<Record>)
    ensures
        records@.len() == 0 ==> r is None,
        records@.len() > 0 ==> r == Some(oldest_of(records@)),
{
    let n: usize = records.len();
    if n == 0 {
        return None;
    }
    let mut best: Record = records[0];
    let mut i: usize = 1;
    proof {
        assert(records@.take(1int).len() == 1);
        assert(records@.take(1int)[0] == records@[0]);
    }
    while i < n
        invariant
            n == records@.len(),
            1 <= i <= n,
            best == oldest_of(records@.take(i as int)),
        decreases n - i,
    {
        if records[i].action.timestamp < best.action.timestamp {
            best = records[i];
        }
        proof {
            assert(records@.take(i as int + 1).drop_last() =~= records@.take(i as int));
            assert(records@.take(i as int + 1).last() == records@[i as int]);
        }
        i = i + 1;
    }
    proof {
        assert(records@.take(n as int) =~= records@);
    }
    Some(best)
}

/// The oldest tombstone of `original`: the minimum by timestamp over
/// `all_tombstones`, with ties broken deterministically by the store's natural
/// ordering (callers must not rely on tie order). Absent when no tombstone
/// exists, and on an unresolvable original.
pub fn oldest_tombstone(store: &Store, original: u64) -> (r: Result<Option<Record>, ProtocolError>)
    requires
        store.wf(),
    ensures
        store.has_action(original) ==> ({
            let ds = tombstones_of(store.actions@, original);
            if ds.len() == 0 {
                r == Ok::<Option<Record>, ProtocolError>(None)
            } else {
                r == Ok::<Option<Record>, ProtocolError>(Some(oldest_of(ds)))
            }
        }),
        !store.has_action(original) && original < ANCHOR_SPACE_START ==> r == Ok::<
            Option<Record>,
            ProtocolError,
        >(None),
        !store.has_action(original) && original >= ANCHOR_SPACE_START ==> r == Err::<
            Option<Record>,
            ProtocolError,
        >(ProtocolError::MalformedDetails),
{
    match all_tombstones(store, original) {
        Err(e) => Err(e),
        Ok(None) => Ok(None),
        Ok(Some(deletes)) => Ok(oldest_record(&deletes)),
    }
}

} // verus!
