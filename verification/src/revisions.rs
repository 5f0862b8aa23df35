//! The revision link index: "update" edges from an entity's original action
//! hash to each subsequent revision's action hash, each timestamped at
//! creation. The index is append-only by design — the revision chain is the
//! sole source of truth for lineage — so link deletion against it always fails
//! with a policy violation (see [`crate::store::Store::delete_link`]).

use vstd::prelude::*;

use crate::store::{links_from, Store};
use crate::types::{
    carries_entry, Link, LinkKind, LinkTarget, Operation, ANCHOR_SPACE_START,
};

verus! {

/// The revision links of `original`: the revision-chain edges whose base is
/// the original action hash, in discovery order.
pub open spec fn revision_links(store: Store, original: u64) -> Seq<Link> {
    links_from(store.links@, original, LinkKind::RevisionChain)
}

/// Whether a revision link from `base` to `target` may be created: both ends
/// must resolve to visible actions that carry an entry payload.
pub open spec fn revision_link_allowed(store: Store, base: u64, target: u64) -> bool {
    &&& store.has_action(base) && carries_entry(store.action_record(base).action)
    &&& store.has_action(target) && carries_entry(store.action_record(target).action)
}

/// Validation of a revision-link creation request, as the protocol's integrity
/// rules state it: the base and the target must each resolve to a visible
/// action that references an entry.
pub fn validate_revision_link(store: &Store, base: u64, target: u64) -> (r: bool)
    requires
        store.wf(),
    ensures
        r == revision_link_allowed(*store, base, target),
{
    let base_ok = match store.get_action(base) {
        Some(rec) => match rec.action.op {
            Operation::Delete { .. } => false,
            _ => true,
        },
        None => false,
    };
    let target_ok = match store.get_action(target) {
        Some(rec) => match rec.action.op {
            Operation::Delete { .. } => false,
            _ => true,
        },
        None => false,
    };
    base_ok && target_ok
}

/// Append one permanent revision edge from the original action hash to the new
/// action hash, carrying the current timestamp. Called once per successful
/// update; the edge can never be removed afterwards.
pub fn create_revision_link(store: &mut Store, original: u64, target: u64, timestamp: u64) -> (addr:
    u64)
    requires
        old(store).wf(),
        old(store).next_address < ANCHOR_SPACE_START,
        revision_link_allowed(*old(store), original, target),
    ensures
        final(store).wf(),
        addr == old(store).next_address,
        final(store).links@ == old(store).links@.push(
            (Link {
                address: addr,
                base: original,
                target: LinkTarget::ActionRef(target),
                kind: LinkKind::RevisionChain,
                timestamp,
            }),
        ),
        final(store).actions@ == old(store).actions@,
        final(store).next_address == old(store).next_address + 1,
{
    store.create_link(original, LinkTarget::ActionRef(target), LinkKind::RevisionChain, timestamp)
}

/// All revision edges whose base is `original`. The ordering is discovery
/// order, not timestamp order: callers requiring chronological order must sort
/// explicitly.
pub fn list_revisions(store: &Store, original: u64) -> (r: Vec<Link>)
    ensures
        r@ == revision_links(*store, original),
{
    store.get_links(original, LinkKind::RevisionChain)
}

} // verus!
