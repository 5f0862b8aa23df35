//! The protocol's general laws, stated and proved over the
//! specification-level views that the operations' contracts use.

use vstd::prelude::*;

use crate::resolve::{latest_of, resolved_targets, spec_resolve_latest};
use crate::revisions::revision_links;
use crate::store::{tombstones_of, Store};
use crate::tombstones::oldest_of;
use crate::types::{is_tombstone_of, Link, LinkTarget, ProtocolError, Record};

verus! {

/// With zero revision links, resolution returns the action at the original
/// hash itself.
pub proof fn lemma_resolve_latest_no_revisions(store: Store, original: u64)
    requires
        revision_links(store, original).len() == 0,
    ensures
        spec_resolve_latest(store, original) == Ok::<Option<Record>, ProtocolError>(
            store.lookup(original),
        ),
{
}

/// The selected link is one of the links, and no link carries a later
/// timestamp.
pub proof fn lemma_latest_is_max(s: Seq<Link>)
    requires
        s.len() > 0,
    ensures
        s.contains(latest_of(s)),
        forall|i: int| 0 <= i < s.len() ==> s[i].timestamp <= latest_of(s).timestamp,
    decreases s.len(),
{
    if s.len() == 1 {
        assert(latest_of(s) == s[0]);
        assert(s.contains(s[0]));
    } else {
        lemma_latest_is_max(s.drop_last());
        let prev = latest_of(s.drop_last());
        if s.last().timestamp >= prev.timestamp {
            assert(s[s.len() - 1] == s.last());
            assert(s.contains(s.last()));
        } else {
            let w: int = choose|w: int|
                0 <= w < s.drop_last().len() && s.drop_last()[w] == prev;
            assert(s[w] == prev);
            assert(s.contains(prev));
        }
        assert forall|i: int| 0 <= i < s.len() implies s[i].timestamp
            <= latest_of(s).timestamp by {
            if i < s.len() - 1 {
                assert(s.drop_last()[i] == s[i]);
                assert(s.drop_last()[i].timestamp <= prev.timestamp);
            }
        }
    }
}

/// With pairwise distinct timestamps, the link with the maximum timestamp is
/// the one the resolver selects.
pub proof fn lemma_latest_unique_max(s: Seq<Link>, i: int)
    requires
        0 <= i < s.len(),
        forall|a: int, b: int| 0 <= a < b < s.len() ==> s[a].timestamp != s[b].timestamp,
        forall|j: int| 0 <= j < s.len() ==> s[j].timestamp <= s[i].timestamp,
    ensures
        latest_of(s) == s[i],
{
    lemma_latest_is_max(s);
    let l = latest_of(s);
    let k: int = choose|k: int| 0 <= k < s.len() && s[k] == l;
    assert(s[i].timestamp <= l.timestamp);
    assert(s[k].timestamp <= s[i].timestamp);
    if k < i {
        assert(s[k].timestamp != s[i].timestamp);
    } else if i < k {
        assert(s[i].timestamp != s[k].timestamp);
    }
}

/// For an original with revision links of pairwise distinct timestamps,
/// resolution returns the record targeted by the link with the maximum
/// timestamp (and fails with MalformedLink when that target is no action
/// address).
pub proof fn lemma_resolve_latest_picks_max(store: Store, original: u64, i: int)
    requires
        0 <= i < revision_links(store, original).len(),
        forall|a: int, b: int|
            0 <= a < b < revision_links(store, original).len() ==> revision_links(
                store,
                original,
            )[a].timestamp != revision_links(store, original)[b].timestamp,
        forall|j: int|
            0 <= j < revision_links(store, original).len() ==> revision_links(
                store,
                original,
            )[j].timestamp <= revision_links(store, original)[i].timestamp,
    ensures
        spec_resolve_latest(store, original) == (match revision_links(store, original)[i].target {
            LinkTarget::ActionRef(h) => Ok::<Option<Record>, ProtocolError>(store.lookup(h)),
            LinkTarget::ExternalRef(_) => Err::<Option<Record>, ProtocolError>(
                ProtocolError::MalformedLink,
            ),
        }),
{
    lemma_latest_unique_max(revision_links(store, original), i);
}

/// Resolution is a function of the visible state alone: two calls over the
/// same state — no intervening writes — return the same result.
pub proof fn lemma_resolve_latest_idempotent(s1: Store, s2: Store, original: u64)
    requires
        s1 == s2,
    ensures
        spec_resolve_latest(s1, original) == spec_resolve_latest(s2, original),
{
}

/// A link whose target is fetched contributes exactly its record to the
/// history tail, in discovery order; an unresolvable target is skipped, not
/// erring the whole call.
pub proof fn lemma_history_skips_unresolvable(store: Store, links: Seq<Link>, l: Link)
    ensures
        resolved_targets(store, links.push(l)) == (match l.target {
            LinkTarget::ActionRef(h) => if store.has_action(h) {
                resolved_targets(store, links).push(store.action_record(h))
            } else {
                resolved_targets(store, links)
            },
            LinkTarget::ExternalRef(_) => resolved_targets(store, links),
        }),
{
    assert(links.push(l).drop_last() =~= links);
    assert(links.push(l).last() == l);
}

/// Whether a link's target can be fetched from the visible state.
pub open spec fn resolvable(store: Store, l: Link) -> bool {
    match l.target {
        LinkTarget::ActionRef(h) => store.has_action(h),
        LinkTarget::ExternalRef(_) => false,
    }
}

/// How many links of `links` resolve in the visible state.
pub open spec fn resolvable_count(store: Store, links: Seq<Link>) -> nat
    decreases links.len(),
{
    if links.len() == 0 {
        0
    } else {
        resolvable_count(store, links.drop_last()) + (if resolvable(store, links.last()) {
            1nat
        } else {
            0nat
        })
    }
}

/// The history tail holds exactly one record per resolvable revision link, so
/// a full history has length 1 + (number of resolvable links).
pub proof fn lemma_history_tail_len(store: Store, links: Seq<Link>)
    ensures
        resolved_targets(store, links).len() == resolvable_count(store, links),
    decreases links.len(),
{
    if links.len() > 0 {
        lemma_history_tail_len(store, links.drop_last());
    }
}

/// The tombstone view holds every Delete action recorded against `original`,
/// and no others.
pub proof fn lemma_tombstones_exact(log: Seq<Record>, original: u64, r: Record)
    ensures
        tombstones_of(log, original).contains(r) <==> (log.contains(r) && is_tombstone_of(
            r,
            original,
        )),
    decreases log.len(),
{
    if log.len() > 0 {
        let prefix = log.drop_last();
        lemma_tombstones_exact(prefix, original, r);
        let ts = tombstones_of(log, original);
        let tsp = tombstones_of(prefix, original);
        if ts.contains(r) {
            let k: int = choose|k: int| 0 <= k < ts.len() && ts[k] == r;
            if is_tombstone_of(log.last(), original) && k == ts.len() - 1 {
                assert(r == log.last());
                assert(log[log.len() - 1] == r);
                assert(log.contains(r));
            } else {
                assert(tsp[k] == r);
                assert(tsp.contains(r));
                let w: int = choose|w: int| 0 <= w < prefix.len() && prefix[w] == r;
                assert(log[w] == r);
                assert(log.contains(r));
            }
        }
        if log.contains(r) && is_tombstone_of(r, original) {
            let w: int = choose|w: int| 0 <= w < log.len() && log[w] == r;
            if w == log.len() - 1 {
                assert(r == log.last());
                assert(ts[ts.len() - 1] == r);
                assert(ts.contains(r));
            } else {
                assert(prefix[w] == r);
                assert(prefix.contains(r));
                let k: int = choose|k: int| 0 <= k < tsp.len() && tsp[k] == r;
                assert(ts[k] == r);
                assert(ts.contains(r));
            }
        }
    }
}

/// Appending one action to the log extends the tombstone view by that action
/// exactly when it is a Delete against `original`; any other write leaves the
/// view unchanged.
pub proof fn lemma_tombstones_after_append(log: Seq<Record>, r: Record, original: u64)
    ensures
        tombstones_of(log.push(r), original) == (if is_tombstone_of(r, original) {
            tombstones_of(log, original).push(r)
        } else {
            tombstones_of(log, original)
        }),
{
    assert(log.push(r).drop_last() =~= log);
    assert(log.push(r).last() == r);
}

/// The oldest tombstone is one of the set, and minimal by timestamp.
pub proof fn lemma_oldest_is_min(s: Seq<Record>)
    requires
        s.len() > 0,
    ensures
        s.contains(oldest_of(s)),
        forall|i: int|
            0 <= i < s.len() ==> oldest_of(s).action.timestamp <= s[i].action.timestamp,
    decreases s.len(),
{
    if s.len() == 1 {
        assert(oldest_of(s) == s[0]);
        assert(s.contains(s[0]));
    } else {
        lemma_oldest_is_min(s.drop_last());
        let prev = oldest_of(s.drop_last());
        if s.last().action.timestamp < prev.action.timestamp {
            assert(s[s.len() - 1] == s.last());
            assert(s.contains(s.last()));
        } else {
            let w: int = choose|w: int|
                0 <= w < s.drop_last().len() && s.drop_last()[w] == prev;
            assert(s[w] == prev);
            assert(s.contains(prev));
        }
        assert forall|i: int| 0 <= i < s.len() implies oldest_of(s).action.timestamp
            <= s[i].action.timestamp by {
            if i < s.len() - 1 {
                assert(s.drop_last()[i] == s[i]);
                assert(prev.action.timestamp <= s.drop_last()[i].action.timestamp);
            }
        }
    }
}

} // verus!
