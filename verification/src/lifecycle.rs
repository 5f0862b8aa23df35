//! Entity lifecycle operations, composing the substrate with the link
//! indices: a create writes one action (and, for indexed entities, attaches
//! anchor links); an update writes a new action addressed relative to the
//! previous one and attaches one revision link from the original; a delete
//! writes a tombstone against the original (and, for indexed entities, removes
//! it from the anchors first).

use vstd::prelude::*;

use crate::anchors::{
    deregister_from_index, derive_anchor_address, register_in_author_index,
    register_in_global_index, without_anchor_refs,
};
use crate::revisions::{create_revision_link, revision_link_allowed};
use crate::store::Store;
use crate::types::{
    carries_entry, Action, Details, Entry, Link, LinkKind, LinkTarget, Operation, ProtocolError,
    Record, ANCHOR_SPACE_START,
};

verus! {

/// Create an entity: write one Create action and return its record. The
/// record's hash is the entity's original hash, the stable identifier for all
/// revision and tombstone lookups.
pub fn create_entity(store: &mut Store, author: u64, timestamp: u64, entry: Entry) -> (r: Record)
    requires
        old(store).wf(),
        old(store).next_address < ANCHOR_SPACE_START,
    ensures
        final(store).wf(),
        r == (Record {
            hash: old(store).next_address,
            action: Action { author, timestamp, op: Operation::Create { entry } },
        }),
        final(store).actions@ == old(store).actions@.push(r),
        final(store).links@ == old(store).links@,
        final(store).next_address == old(store).next_address + 1,
{
    let action = Action { author, timestamp, op: Operation::Create { entry } };
    let h = store.put_action(action);
    Record { hash: h, action }
}

/// Create an indexed entity: write the Create action and attach it to the
/// named global anchor and to the author-keyed index. The entity and its index
/// visibility are atomic from the caller's perspective: a failed anchor
/// attachment would abort the whole create.
pub fn create_indexed_entity(
    store: &mut Store,
    anchor_name: u64,
    author: u64,
    timestamp: u64,
    entry: Entry,
) -> (r: Record)
    requires
        old(store).wf(),
        old(store).next_address + 2 < ANCHOR_SPACE_START,
        anchor_name < ANCHOR_SPACE_START,
    ensures
        final(store).wf(),
        r == (Record {
            hash: old(store).next_address,
            action: Action { author, timestamp, op: Operation::Create { entry } },
        }),
        final(store).actions@ == old(store).actions@.push(r),
        final(store).links@ == old(store).links@.push(
            (Link {
                address: (old(store).next_address + 1) as u64,
                base: (ANCHOR_SPACE_START + anchor_name) as u64,
                target: LinkTarget::ActionRef(r.hash),
                kind: LinkKind::AnchorIndex,
                timestamp,
            }),
        ).push(
            (Link {
                address: (old(store).next_address + 2) as u64,
                base: author,
                target: LinkTarget::ActionRef(r.hash),
                kind: LinkKind::AnchorIndex,
                timestamp,
            }),
        ),
        final(store).next_address == old(store).next_address + 3,
{
    let record = create_entity(store, author, timestamp, entry);
    register_in_global_index(store, anchor_name, record.hash, timestamp);
    register_in_author_index(store, author, record.hash, timestamp);
    record
}

/// Update an entity: write a new Update action carrying the new payload,
/// addressed relative to the previous action, and attach one revision link
/// from the original action hash to the new action hash. The original and the
/// previous action must both resolve to entry-carrying actions.
pub fn update_entity(
    store: &mut Store,
    original: u64,
    previous: u64,
    author: u64,
    timestamp: u64,
    entry: Entry,
) -> (r: Record)
    requires
        old(store).wf(),
        old(store).next_address + 1 < ANCHOR_SPACE_START,
        old(store).has_action(original),
        carries_entry(old(store).action_record(original).action),
        old(store).has_action(previous),
        carries_entry(old(store).action_record(previous).action),
    ensures
        final(store).wf(),
        r == (Record {
            hash: old(store).next_address,
            action: Action { author, timestamp, op: Operation::Update { prev: previous, entry } },
        }),
        final(store).actions@ == old(store).actions@.push(r),
        final(store).links@ == old(store).links@.push(
            (Link {
                address: (old(store).next_address + 1) as u64,
                base: original,
                target: LinkTarget::ActionRef(r.hash),
                kind: LinkKind::RevisionChain,
                timestamp,
            }),
        ),
        final(store).next_address == old(store).next_address + 2,
{
    let action = Action { author, timestamp, op: Operation::Update { prev: previous, entry } };
    let h = store.put_action(action);
    proof {
        let i: int = old(store).action_index(original);
        assert(0 <= i < old(store).actions@.len() && old(store).actions@[i].hash == original);
        assert(store.actions@[i] == old(store).actions@[i]);
        store.lemma_record_at(original, i);
        store.lemma_record_at(h, store.actions@.len() - 1);
        assert(revision_link_allowed(*store, original, h));
    }
    create_revision_link(store, original, h, timestamp);
    Record { hash: h, action }
}

/// Delete an indexed entity: resolve the original record, remove the entity's
/// links from the named global anchor and from its author's index (idempotent,
/// by target scan), then write the tombstone. Fails with NotFound when the
/// original cannot be resolved and with MalformedDetails when the detail view
/// has the wrong shape; on failure the store is untouched.
pub fn delete_indexed_entity(
    store: &mut Store,
    anchor_name: u64,
    original: u64,
    author: u64,
    timestamp: u64,
) -> (r: Result<Record, ProtocolError>)
    requires
        old(store).wf(),
        old(store).next_address < ANCHOR_SPACE_START,
        anchor_name < ANCHOR_SPACE_START,
    ensures
        final(store).wf(),
        old(store).has_action(original) ==> (r matches Ok(rec) && rec == (Record {
            hash: old(store).next_address,
            action: Action { author, timestamp, op: Operation::Delete { target: original } },
        }) && final(store).actions@ == old(store).actions@.push(rec) && final(store).links@
            == without_anchor_refs(
            without_anchor_refs(
                old(store).links@,
                (ANCHOR_SPACE_START + anchor_name) as u64,
                original,
            ),
            old(store).action_record(original).action.author,
            original,
        ) && final(store).next_address == old(store).next_address + 1),
        !old(store).has_action(original) && original >= ANCHOR_SPACE_START ==> r == Err::<
            Record,
            ProtocolError,
        >(ProtocolError::MalformedDetails) && *final(store) == *old(store),
        !old(store).has_action(original) && original < ANCHOR_SPACE_START ==> r == Err::<
            Record,
            ProtocolError,
        >(ProtocolError::NotFound) && *final(store) == *old(store),
{
    let record = match store.get_details(original) {
        None => {
            return Err(ProtocolError::NotFound);
        },
        Some(Details::EntryOnly) => {
            return Err(ProtocolError::MalformedDetails);
        },
        Some(Details::RecordDetails { record, deletes: _ }) => record,
    };
    let anchor = derive_anchor_address(anchor_name);
    deregister_from_index(store, anchor, original);
    deregister_from_index(store, record.action.author, original);
    let action = Action { author, timestamp, op: Operation::Delete { target: original } };
    let h = store.put_action(action);
    Ok(Record { hash: h, action })
}

} // verus!
