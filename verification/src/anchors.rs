//! Named index anchors: stable, well-known addressable nodes used to
//! enumerate all entities of a kind, plus an author-keyed index for "entities
//! authored by this agent". Anchor links are created at entity-create time and
//! removed at entity-delete time; they serve enumeration only, never version
//! resolution, and no automatic liveness filtering is performed here.

use vstd::prelude::*;

use crate::store::{links_from, Store};
use crate::types::{Link, LinkKind, LinkTarget, ANCHOR_SPACE_START};

verus! {

/// The deterministic address of the named global anchor: a well-known node in
/// the anchor space, a pure function of the name.
pub fn derive_anchor_address(name: u64) -> (a: u64)
    requires
        name < ANCHOR_SPACE_START,
    ensures
        a == ANCHOR_SPACE_START + name,
        a >= ANCHOR_SPACE_START,
{
    ANCHOR_SPACE_START + name
}

/// The links left after removing every anchor-index edge from `base` whose
/// target is the entity at `original`; everything else keeps its store order.
pub open spec fn without_anchor_refs(links: Seq<Link>, base: u64, original: u64) -> Seq<Link>
    decreases links.len(),
{
    if links.len() == 0 {
        Seq::empty()
    } else {
        let prefix = without_anchor_refs(links.drop_last(), base, original);
        let l = links.last();
        if l.base == base && l.kind == LinkKind::AnchorIndex && l.target == LinkTarget::ActionRef(
            original,
        ) {
            prefix
        } else {
            prefix.push(l)
        }
    }
}

/// Removing anchor references keeps a subsequence: every remaining link stood
/// in the original sequence, and distinct addresses stay distinct.
pub proof fn lemma_without_anchor_refs_wf(links: Seq<Link>, base: u64, original: u64)
    requires
        forall|i: int, j: int| 0 <= i < j < links.len() ==> links[i].address != links[j].address,
    ensures
        forall|k: int|
            0 <= k < without_anchor_refs(links, base, original).len() ==> links.contains(
                #[trigger] without_anchor_refs(links, base, original)[k],
            ),
        forall|a: int, b: int|
            0 <= a < b < without_anchor_refs(links, base, original).len()
                ==> without_anchor_refs(links, base, original)[a].address != without_anchor_refs(
                links,
                base,
                original,
            )[b].address,
    decreases links.len(),
{
    if links.len() > 0 {
        let prefix = links.drop_last();
        let kept = without_anchor_refs(links, base, original);
        let kept_prefix = without_anchor_refs(prefix, base, original);
        lemma_without_anchor_refs_wf(prefix, base, original);
        assert forall|k: int| 0 <= k < kept.len() implies links.contains(#[trigger] kept[k]) by {
            if k < kept_prefix.len() {
                assert(prefix.contains(kept_prefix[k]));
                let w: int = choose|w: int| 0 <= w < prefix.len() && prefix[w] == kept_prefix[k];
                assert(links[w] == kept[k]);
            } else {
                assert(kept[k] == links.last());
                assert(links[links.len() - 1] == links.last());
            }
        }
        assert forall|a: int, b: int| 0 <= a < b < kept.len() implies kept[a].address
            != kept[b].address by {
            if b < kept_prefix.len() {
            } else {
                // kept ends with links.last(); kept[a] stands somewhere in the
                // prefix, whose addresses all differ from the last one.
                assert(prefix.contains(kept_prefix[a]));
                let w: int = choose|w: int| 0 <= w < prefix.len() && prefix[w] == kept_prefix[a];
                assert(links[w].address != links[links.len() - 1].address);
            }
        }
    }
}

/// No remaining link matches the removed (base, target) pair, and removal is
/// idempotent: links absent from the index leave it unchanged.
pub proof fn lemma_without_anchor_refs_complete(links: Seq<Link>, base: u64, original: u64)
    ensures
        forall|k: int|
            0 <= k < without_anchor_refs(links, base, original).len() ==> !(
            (#[trigger] without_anchor_refs(links, base, original)[k]).base == base
                && without_anchor_refs(links, base, original)[k].kind == LinkKind::AnchorIndex
                && without_anchor_refs(links, base, original)[k].target == LinkTarget::ActionRef(
                original,
            )),
        without_anchor_refs(without_anchor_refs(links, base, original), base, original)
            == without_anchor_refs(links, base, original),
    decreases links.len(),
{
    if links.len() > 0 {
        lemma_without_anchor_refs_complete(links.drop_last(), base, original);
        let kept = without_anchor_refs(links, base, original);
        let kept_prefix = without_anchor_refs(links.drop_last(), base, original);
        let l = links.last();
        if !(l.base == base && l.kind == LinkKind::AnchorIndex && l.target
            == LinkTarget::ActionRef(original)) {
            assert(kept == kept_prefix.push(l));
            assert(kept.drop_last() =~= kept_prefix);
            assert(without_anchor_refs(kept, base, original) == without_anchor_refs(
                kept_prefix,
                base,
                original,
            ).push(l));
        }
    }
}

/// Remove from the index rooted at `base` exactly the anchor links whose
/// target equals `original`. Idempotent: with no matching link this is a
/// no-op, not an error. The action log is untouched.
pub fn deregister_from_index(store: &mut Store, base: u64, original: u64)
    requires
        old(store).wf(),
    ensures
        final(store).wf(),
        final(store).actions@ == old(store).actions@,
        final(store).next_address == old(store).next_address,
        final(store).links@ == without_anchor_refs(old(store).links@, base, original),
{
    let mut kept: Vec<Link> = Vec::new();
    let n: usize = store.links.len();
    let mut i: usize = 0;
    while i < n
        invariant
            store.wf(),
            *store == *old(store),
            n == store.links@.len(),
            0 <= i <= n,
            kept@ == without_anchor_refs(store.links@.take(i as int), base, original),
        decreases n - i,
    {
        let l = store.links[i];
        let matches_removal = l.base == base && (match l.kind {
            LinkKind::AnchorIndex => true,
            LinkKind::RevisionChain => false,
        }) && (match l.target {
            LinkTarget::ActionRef(t) => t == original,
            LinkTarget::ExternalRef(_) => false,
        });
        if !matches_removal {
            kept.push(l);
        }
        proof {
            assert(store.links@.take(i as int + 1).drop_last() =~= store.links@.take(i as int));
            assert(store.links@.take(i as int + 1).last() == store.links@[i as int]);
        }
        i = i + 1;
    }
    proof {
        assert(store.links@.take(n as int) =~= store.links@);
        lemma_without_anchor_refs_wf(store.links@, base, original);
    }
    store.links = kept;
    proof {
        assert forall|a: int, b: int|
            0 <= a < store.actions@.len() && 0 <= b
                < store.links@.len() implies store.actions@[a].hash
            != store.links@[b].address by {
            assert(old(store).links@.contains(store.links@[b]));
            let w: int = choose|w: int|
                0 <= w < old(store).links@.len() && old(store).links@[w] == store.links@[b];
            assert(old(store).actions@[a].hash != old(store).links@[w].address);
        }
        assert forall|b: int| 0 <= b < store.links@.len() implies store.links@[b].address
            < store.next_address by {
            assert(old(store).links@.contains(store.links@[b]));
            let w: int = choose|w: int|
                0 <= w < old(store).links@.len() && old(store).links@[w] == store.links@[b];
            assert(old(store).links@[w].address < old(store).next_address);
        }
    }
}

/// Attach the entity to the named global anchor so that enumeration of its
/// kind finds it. Part of the create operation: a failure here aborts the
/// whole create.
pub fn register_in_global_index(store: &mut Store, anchor_name: u64, entity_hash: u64, timestamp: u64) -> (addr:
    u64)
    requires
        old(store).wf(),
        old(store).next_address < ANCHOR_SPACE_START,
        anchor_name < ANCHOR_SPACE_START,
    ensures
        final(store).wf(),
        addr == old(store).next_address,
        final(store).links@ == old(store).links@.push(
            (Link {
                address: addr,
                base: (ANCHOR_SPACE_START + anchor_name) as u64,
                target: LinkTarget::ActionRef(entity_hash),
                kind: LinkKind::AnchorIndex,
                timestamp,
            }),
        ),
        final(store).actions@ == old(store).actions@,
        final(store).next_address == old(store).next_address + 1,
{
    let anchor = derive_anchor_address(anchor_name);
    store.create_link(anchor, LinkTarget::ActionRef(entity_hash), LinkKind::AnchorIndex, timestamp)
}

/// Attach the entity to the author-keyed index. The author identity address is
/// supplied by the caller's session context.
pub fn register_in_author_index(store: &mut Store, author: u64, entity_hash: u64, timestamp: u64) -> (addr:
    u64)
    requires
        old(store).wf(),
        old(store).next_address < ANCHOR_SPACE_START,
    ensures
        final(store).wf(),
        addr == old(store).next_address,
        final(store).links@ == old(store).links@.push(
            (Link {
                address: addr,
                base: author,
                target: LinkTarget::ActionRef(entity_hash),
                kind: LinkKind::AnchorIndex,
                timestamp,
            }),
        ),
        final(store).actions@ == old(store).actions@,
        final(store).next_address == old(store).next_address + 1,
{
    store.create_link(author, LinkTarget::ActionRef(entity_hash), LinkKind::AnchorIndex, timestamp)
}

/// The raw set of anchor links from a given anchor node, in store order.
/// Callers are responsible for filtering out entries whose target has since
/// been tombstoned.
pub fn enumerate(store: &Store, anchor: u64) -> (r: Vec<Link>)
    ensures
        r@ == links_from(store.links@, anchor, LinkKind::AnchorIndex),
{
    store.get_links(anchor, LinkKind::AnchorIndex)
}

} // verus!
