//! The latest-version resolver and the revision history assembler: pure graph
//! traversal over the action store plus the revision link index, with no
//! side effects and no state of their own.
//!
//! Only the resolver compares timestamps; the history assembler keeps the raw
//! link-discovery order. That asymmetry is deliberate — downstream consumers
//! may depend on raw link order — and is preserved here.

use vstd::prelude::*;

use crate::revisions::{list_revisions, revision_links};
use crate::store::Store;
use crate::types::{Details, Link, LinkTarget, ProtocolError, Record, ANCHOR_SPACE_START};

verus! {

/// The link with the maximum creation timestamp; ties go to the latest in
/// store order. Meaningful when `s` is non-empty.
pub open spec fn latest_of(s: Seq<Link>) -> Link
    decreases s.len(),
{
    if s.len() <= 1 {
        s[0]
    } else {
        let prev = latest_of(s.drop_last());
        if s.last().timestamp >= prev.timestamp {
            s.last()
        } else {
            prev
        }
    }
}

/// What `resolve_latest` returns, as a total function of the visible state:
/// with no revision links the original is the latest; otherwise the
/// max-timestamp link's target is resolved, and a target that is no action
/// address is a structural-integrity error, never silently degraded to the
/// original.
pub open spec fn spec_resolve_latest(store: Store, original: u64) -> Result<
    Option<Record>,
    ProtocolError,
> {
    let links = revision_links(store, original);
    if links.len() == 0 {
        Ok(store.lookup(original))
    } else {
        match latest_of(links).target {
            LinkTarget::ActionRef(h) => Ok(store.lookup(h)),
            LinkTarget::ExternalRef(_) => Err(ProtocolError::MalformedLink),
        }
    }
}

/// The link with the maximum creation timestamp, ties resolved to the latest
/// in store order; absent when `links` is empty.
pub fn latest_link(links: &Vec<Link>) -> (r: Option<Link>)
    ensures
        links@.len() == 0 ==> r is None,
        links@.len() > 0 ==> r == Some(latest_of(links@)),
{
    let n: usize = links.len();
    if n == 0 {
        return None;
    }
    let mut best: Link = links[0];
    let mut i: usize = 1;
    proof {
        assert(links@.take(1int).len() == 1);
        assert(links@.take(1int)[0] == links@[0]);
    }
    while i < n
        invariant
            n == links@.len(),
            1 <= i <= n,
            best == latest_of(links@.take(i as int)),
        decreases n - i,
    {
        if links[i].timestamp >= best.timestamp {
            best = links[i];
        }
        proof {
            assert(links@.take(i as int + 1).drop_last() =~= links@.take(i as int));
            assert(links@.take(i as int + 1).last() == links@[i as int]);
        }
        i = i + 1;
    }
    proof {
        assert(links@.take(n as int) =~= links@);
    }
    Some(best)
}

/// Resolve the current head of the revision chain rooted at `original`. With
/// no revision links the original is the latest (absent if not visible);
/// otherwise the max-timestamp link is followed. A link whose target cannot be
/// interpreted as an action address fails the whole call with MalformedLink.
/// Idempotent: the result is a function of the visible state alone.
pub fn resolve_latest(store: &Store, original: u64) -> (r: Result<Option<Record>, ProtocolError>)
    requires
        store.wf(),
    ensures
        r == spec_resolve_latest(*store, original),
{
    let links = list_revisions(store, original);
    match latest_link(&links) {
        None => Ok(store.get_action(original)),
        Some(l) => match l.target {
            LinkTarget::ActionRef(h) => Ok(store.get_action(h)),
            LinkTarget::ExternalRef(_) => Err(ProtocolError::MalformedLink),
        },
    }
}

/// The original record of an entity: the full record at `original`, absent
/// when the address is not visible, MalformedDetails when the detail view has
/// the wrong shape for a record address.
pub fn get_original(store: &Store, original: u64) -> (r: Result<Option<Record>, ProtocolError>)
    requires
        store.wf(),
    ensures
        store.has_action(original) ==> r == Ok::<Option<Record>, ProtocolError>(
            Some(store.action_record(original)),
        ),
        !store.has_action(original) && original < ANCHOR_SPACE_START ==> r == Ok::<
            Option<Record>,
            ProtocolError,
        >(None),
        !store.has_action(original) && original >= ANCHOR_SPACE_START ==> r == Err::<
            Option<Record>,
            ProtocolError,
        >(ProtocolError::MalformedDetails),
{
    match store.get_details(original) {
        None => Ok(None),
        Some(Details::EntryOnly) => Err(ProtocolError::MalformedDetails),
        Some(Details::RecordDetails { record, deletes: _ }) => Ok(Some(record)),
    }
}

/// Whether every link's target can be interpreted as an action address.
pub open spec fn all_action_targets(links: Seq<Link>) -> bool {
    forall|i: int| 0 <= i < links.len() ==> links[i].target is ActionRef
}

/// The records the links resolve to, in link-discovery order; a target not
/// visible in the store contributes nothing.
pub open spec fn resolved_targets(store: Store, links: Seq<Link>) -> Seq<Record>
    decreases links.len(),
{
    if links.len() == 0 {
        Seq::empty()
    } else {
        let prefix = resolved_targets(store, links.drop_last());
        match links.last().target {
            LinkTarget::ActionRef(h) => if store.has_action(h) {
                prefix.push(store.action_record(h))
            } else {
                prefix
            },
            LinkTarget::ExternalRef(_) => prefix,
        }
    }
}

/// What `full_history` returns, as a total function of the visible state.
pub open spec fn spec_full_history(store: Store, original: u64) -> Result<
    Seq<Record>,
    ProtocolError,
> {
    if store.has_action(original) {
        let links = revision_links(store, original);
        if all_action_targets(links) {
            Ok(seq![store.action_record(original)] + resolved_targets(store, links))
        } else {
            Err(ProtocolError::MalformedLink)
        }
    } else if original >= ANCHOR_SPACE_START {
        Err(ProtocolError::MalformedDetails)
    } else {
        Ok(Seq::empty())
    }
}

/// Whether an executable history result carries the same outcome as the
/// specification-level one.
pub open spec fn history_matches(
    r: Result<Vec<Record>, ProtocolError>,
    s: Result<Seq<Record>, ProtocolError>,
) -> bool {
    match (r, s) {
        (Ok(v), Ok(sq)) => v@ == sq,
        (Err(e1), Err(e2)) => e1 == e2,
        _ => false,
    }
}

/// Reconstruct the ordered lineage of records from original to latest: the
/// original record first, then each revision link's record in link-discovery
/// order. An entity that never existed from this reader's viewpoint yields an
/// empty sequence, not an error; a link target that is not visible is skipped
/// (best-effort reconstruction under partial visibility); a link target that
/// is no action address fails the whole call with MalformedLink.
pub fn full_history(store: &Store, original: u64) -> (r: Result<Vec<Record>, ProtocolError>)
    requires
        store.wf(),
    ensures
        history_matches(r, spec_full_history(*store, original)),
{
    let original_record = match get_original(store, original) {
        Err(e) => {
            return Err(e);
        },
        Ok(None) => {
            return Ok(Vec::new());
        },
        Ok(Some(record)) => record,
    };
    let links = list_revisions(store, original);
    let mut out: Vec<Record> = Vec::new();
    out.push(original_record);
    proof {
        assert(out@ =~= seq![store.action_record(original)] + resolved_targets(
            *store,
            links@.take(0int),
        ));
    }
    let n: usize = links.len();
    let mut i: usize = 0;
    while i < n
        invariant
            store.wf(),
            store.has_action(original),
            n == links@.len(),
            links@ == revision_links(*store, original),
            0 <= i <= n,
            all_action_targets(links@.take(i as int)),
            out@ == seq![store.action_record(original)] + resolved_targets(
                *store,
                links@.take(i as int),
            ),
        decreases n - i,
    {
        match links[i].target {
            LinkTarget::ActionRef(h) => {
                match store.get_action(h) {
                    Some(record) => {
                        out.push(record);
                    },
                    None => {},
                }
            },
            LinkTarget::ExternalRef(_) => {
                proof {
                    assert(!(links@[i as int].target is ActionRef));
                }
                return Err(ProtocolError::MalformedLink);
            },
        }
        proof {
            assert(links@.take(i as int + 1).drop_last() =~= links@.take(i as int));
            assert(links@.take(i as int + 1).last() == links@[i as int]);
            assert(out@ =~= seq![store.action_record(original)] + resolved_targets(
                *store,
                links@.take(i as int + 1),
            ));
        }
        i = i + 1;
    }
    proof {
        assert(links@.take(n as int) =~= links@);
    }
    Ok(out)
}

} // verus!
