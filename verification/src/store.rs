//! The content-addressed substrate: durable, append-only storage of immutable
//! actions, plus the link layer. Actions are never mutated or physically
//! removed; a delete is itself an additional action. Links carry their own
//! content address; anchor-index links may be removed, revision-chain links
//! may not (a policy violation, rejected before any mutation).
//!
//! A `Store` value is the state visible to the calling node at call time;
//! partial visibility of a replicated substrate is modelled by a link being
//! present while its target action is not.

use vstd::prelude::*;

use crate::types::{
    is_tombstone_of, Action, Details, Link, LinkKind, LinkTarget, Operation, ProtocolError,
    Record, ANCHOR_SPACE_START,
};

verus! {

/// The tombstones recorded against `original`, in log order: exactly the
/// Delete actions of `log` whose target is `original`.
pub open spec fn tombstones_of(log: Seq<Record>, original: u64) -> Seq<Record>
    decreases log.len(),
{
    if log.len() == 0 {
        Seq::empty()
    } else {
        let prefix = tombstones_of(log.drop_last(), original);
        if is_tombstone_of(log.last(), original) {
            prefix.push(log.last())
        } else {
            prefix
        }
    }
}

/// The links of `links` whose base is `base` and whose kind is `kind`, in
/// store order. Store order is the substrate's natural ordering and is what
/// the protocol calls link-discovery order.
pub open spec fn links_from(links: Seq<Link>, base: u64, kind: LinkKind) -> Seq<Link>
    decreases links.len(),
{
    if links.len() == 0 {
        Seq::empty()
    } else {
        let prefix = links_from(links.drop_last(), base, kind);
        if links.last().base == base && links.last().kind == kind {
            prefix.push(links.last())
        } else {
            prefix
        }
    }
}

/// The visible state of the content-addressed store: the action log, the live
/// links, and the next address the store will assign. Addresses of actions and
/// links are drawn from one counter, so every stored item has a distinct
/// address; the anchor space above `ANCHOR_SPACE_START` is never assigned.
pub struct Store {
    pub actions: Vec<Record>,
    pub links: Vec<Link>,
    pub next_address: u64,
}

impl Store {
    /// Well-formedness: content addresses are unique across actions and links,
    /// all assigned addresses lie below the anchor space, and the counter has
    /// not entered it either.
    pub open spec fn wf(self) -> bool {
        &&& forall|i: int, j: int|
            0 <= i < j < self.actions@.len() ==> self.actions@[i].hash != self.actions@[j].hash
        &&& forall|i: int| 0 <= i < self.actions@.len() ==> self.actions@[i].hash < self.next_address
        &&& forall|i: int, j: int|
            0 <= i < j < self.links@.len() ==> self.links@[i].address != self.links@[j].address
        &&& forall|i: int| 0 <= i < self.links@.len() ==> self.links@[i].address < self.next_address
        &&& forall|i: int, j: int|
            0 <= i < self.actions@.len() && 0 <= j < self.links@.len()
                ==> self.actions@[i].hash != self.links@[j].address
        &&& self.next_address <= ANCHOR_SPACE_START
    }

    /// Whether an action with this address is visible in the store.
    pub open spec fn has_action(self, address: u64) -> bool {
        exists|i: int| 0 <= i < self.actions@.len() && self.actions@[i].hash == address
    }

    /// The log position of the action at `address` (meaningful when
    /// `has_action(address)`; unique under `wf`).
    pub open spec fn action_index(self, address: u64) -> int {
        choose|i: int| 0 <= i < self.actions@.len() && self.actions@[i].hash == address
    }

    /// The record at `address` (meaningful when `has_action(address)`).
    pub open spec fn action_record(self, address: u64) -> Record {
        self.actions@[self.action_index(address)]
    }

    /// Get-by-address as a total function of the visible state.
    pub open spec fn lookup(self, address: u64) -> Option<Record> {
        if self.has_action(address) {
            Some(self.action_record(address))
        } else {
            None
        }
    }

    /// Whether a live link with this address is visible in the store.
    pub open spec fn has_link(self, address: u64) -> bool {
        exists|i: int| 0 <= i < self.links@.len() && self.links@[i].address == address
    }

    /// The position of the link at `address` among the live links (meaningful
    /// when `has_link(address)`; unique under `wf`).
    pub open spec fn link_index(self, address: u64) -> int {
        choose|i: int| 0 <= i < self.links@.len() && self.links@[i].address == address
    }

    /// The link at `address` (meaningful when `has_link(address)`).
    pub open spec fn link_at(self, address: u64) -> Link {
        self.links@[self.link_index(address)]
    }

    /// Under `wf`, the log position of an address is unique: a position whose
    /// record carries `address` is the position `action_record` speaks of.
    pub proof fn lemma_record_at(self, address: u64, i: int)
        requires
            self.wf(),
            0 <= i < self.actions@.len(),
            self.actions@[i].hash == address,
        ensures
            self.has_action(address),
            self.action_index(address) == i,
            self.action_record(address) == self.actions@[i],
    {
        assert(self.has_action(address));
        let k: int = self.action_index(address);
        if k < i {
            assert(self.actions@[k].hash != self.actions@[i].hash);
        } else if i < k {
            assert(self.actions@[i].hash != self.actions@[k].hash);
        }
    }

    /// An empty store.
    pub fn new() -> (s: Store)
        ensures
            s.wf(),
            s.actions@ == Seq::<Record>::empty(),
            s.links@ == Seq::<Link>::empty(),
            s.next_address == 0,
    {
        Store { actions: Vec::new(), links: Vec::new(), next_address: 0 }
    }

    /// Content-addressed write of one immutable action. The address is
    /// deterministic for the written content: every action written through the
    /// protocol carries a distinct author/timestamp/operation content, and the
    /// store assigns it the next fresh address.
    pub fn put_action(&mut self, action: Action) -> (h: u64)
        requires
            old(self).wf(),
            old(self).next_address < ANCHOR_SPACE_START,
        ensures
            final(self).wf(),
            h == old(self).next_address,
            !old(self).has_action(h),
            final(self).actions@ == old(self).actions@.push((Record { hash: h, action })),
            final(self).links@ == old(self).links@,
            final(self).next_address == old(self).next_address + 1,
    {
        let h = self.next_address;
        self.next_address = self.next_address + 1;
        self.actions.push(Record { hash: h, action });
        proof {
            assert forall|i: int, j: int|
                0 <= i < j < self.actions@.len() implies self.actions@[i].hash
                != self.actions@[j].hash by {
                if j == self.actions@.len() - 1 {
                    assert(old(self).actions@[i].hash < h);
                }
            }
        }
        h
    }

    /// Get-by-hash: the record at `address`, or absent if no action with that
    /// address is visible here.
    pub fn get_action(&self, address: u64) -> (r: Option<Record>)
        requires
            self.wf(),
        ensures
            r == self.lookup(address),
    {
        let n: usize = self.actions.len();
        let mut i: usize = 0;
        while i < n
            invariant
                self.wf(),
                n == self.actions@.len(),
                0 <= i <= n,
                forall|j: int| 0 <= j < i ==> self.actions@[j].hash != address,
            decreases n - i,
        {
            if self.actions[i].hash == address {
                proof {
                    assert(self.has_action(address));
                    let k = self.action_index(address);
                    if k < i as int {
                        assert(self.actions@[k].hash != self.actions@[i as int].hash);
                    } else if (i as int) < k {
                        assert(self.actions@[i as int].hash != self.actions@[k].hash);
                    }
                }
                return Some(self.actions[i]);
            }
            i = i + 1;
        }
        None
    }

    /// The tombstones recorded against `original`, in log order.
    pub(crate) fn collect_tombstones(&self, original: u64) -> (r: Vec<Record>)
        ensures
            r@ == tombstones_of(self.actions@, original),
    {
        let mut out: Vec<Record> = Vec::new();
        let n: usize = self.actions.len();
        let mut i: usize = 0;
        while i < n
            invariant
                n == self.actions@.len(),
                0 <= i <= n,
                out@ == tombstones_of(self.actions@.take(i as int), original),
            decreases n - i,
        {
            let rec = self.actions[i];
            let is_match = match rec.action.op {
                Operation::Delete { target } => target == original,
                _ => false,
            };
            if is_match {
                out.push(rec);
            }
            proof {
                assert(self.actions@.take(i as int + 1).drop_last() =~= self.actions@.take(
                    i as int,
                ));
                assert(self.actions@.take(i as int + 1).last() == self.actions@[i as int]);
            }
            i = i + 1;
        }
        proof {
            assert(self.actions@.take(n as int) =~= self.actions@);
        }
        out
    }

    /// Get-details-by-hash: the full record with every tombstone recorded
    /// against it; the entry-only projection for anchor-space addresses, which
    /// are never recorded as full records; absent otherwise.
    pub fn get_details(&self, address: u64) -> (r: Option<Details>)
        requires
            self.wf(),
        ensures
            self.has_action(address) ==> (r matches Some(d) && d matches Details::RecordDetails {
                record,
                deletes,
            } && record == self.action_record(address) && deletes@ == tombstones_of(
                self.actions@,
                address,
            )),
            !self.has_action(address) && address >= ANCHOR_SPACE_START ==> (r matches Some(d)
                && d is EntryOnly),
            !self.has_action(address) && address < ANCHOR_SPACE_START ==> r is None,
    {
        match self.get_action(address) {
            Some(record) => {
                let deletes = self.collect_tombstones(address);
                Some(Details::RecordDetails { record, deletes })
            },
            None => {
                if address >= ANCHOR_SPACE_START {
                    Some(Details::EntryOnly)
                } else {
                    None
                }
            },
        }
    }

    /// Attach a new, permanent directed edge carrying the given timestamp; the
    /// link itself is content-addressed like any stored item.
    pub fn create_link(&mut self, base: u64, target: LinkTarget, kind: LinkKind, timestamp: u64) -> (addr:
        u64)
        requires
            old(self).wf(),
            old(self).next_address < ANCHOR_SPACE_START,
        ensures
            final(self).wf(),
            addr == old(self).next_address,
            final(self).links@ == old(self).links@.push(
                (Link { address: addr, base, target, kind, timestamp }),
            ),
            final(self).actions@ == old(self).actions@,
            final(self).next_address == old(self).next_address + 1,
    {
        let addr = self.next_address;
        self.next_address = self.next_address + 1;
        self.links.push(Link { address: addr, base, target, kind, timestamp });
        proof {
            assert forall|i: int, j: int|
                0 <= i < j < self.links@.len() implies self.links@[i].address
                != self.links@[j].address by {
                if j == self.links@.len() - 1 {
                    assert(old(self).links@[i].address < addr);
                }
            }
        }
        addr
    }

    /// The live links from `base` of the given kind, in store order.
    pub fn get_links(&self, base: u64, kind: LinkKind) -> (r: Vec<Link>)
        ensures
            r@ == links_from(self.links@, base, kind),
    {
        let mut out: Vec<Link> = Vec::new();
        let n: usize = self.links.len();
        let mut i: usize = 0;
        while i < n
            invariant
                n == self.links@.len(),
                0 <= i <= n,
                out@ == links_from(self.links@.take(i as int), base, kind),
            decreases n - i,
        {
            let l = self.links[i];
            if l.base == base && l.kind == kind {
                out.push(l);
            }
            proof {
                assert(self.links@.take(i as int + 1).drop_last() =~= self.links@.take(i as int));
                assert(self.links@.take(i as int + 1).last() == self.links@[i as int]);
            }
            i = i + 1;
        }
        proof {
            assert(self.links@.take(n as int) =~= self.links@);
        }
        out
    }

    /// Remove the link at `address`. A revision-chain link may never be
    /// deleted: the request fails with a policy violation before any mutation,
    /// whoever the caller is. An address that resolves to no live link fails
    /// with NotFound, also without mutation.
    pub fn delete_link(&mut self, address: u64) -> (r: Result<(), ProtocolError>)
        requires
            old(self).wf(),
        ensures
            final(self).wf(),
            final(self).actions@ == old(self).actions@,
            final(self).next_address == old(self).next_address,
            old(self).has_link(address) && old(self).link_at(address).kind
                == LinkKind::RevisionChain ==> r == Err::<(), ProtocolError>(
                ProtocolError::PolicyViolation,
            ) && final(self).links@ == old(self).links@,
            old(self).has_link(address) && old(self).link_at(address).kind == LinkKind::AnchorIndex
                ==> r == Ok::<(), ProtocolError>(()) && final(self).links@ == old(
                self,
            ).links@.remove(old(self).link_index(address)),
            !old(self).has_link(address) ==> r == Err::<(), ProtocolError>(ProtocolError::NotFound)
                && final(self).links@ == old(self).links@,
    {
        let n: usize = self.links.len();
        let mut i: usize = 0;
        while i < n
            invariant
                self.wf(),
                *self == *old(self),
                n == self.links@.len(),
                0 <= i <= n,
                forall|j: int| 0 <= j < i ==> self.links@[j].address != address,
            decreases n - i,
        {
            if self.links[i].address == address {
                proof {
                    assert(self.has_link(address));
                    let k = self.link_index(address);
                    if k < i as int {
                        assert(self.links@[k].address != self.links@[i as int].address);
                    } else if (i as int) < k {
                        assert(self.links@[i as int].address != self.links@[k].address);
                    }
                }
                match self.links[i].kind {
                    LinkKind::RevisionChain => {
                        return Err(ProtocolError::PolicyViolation);
                    },
                    LinkKind::AnchorIndex => {
                        let ghost pre = self.links@;
                        self.links.remove(i);
                        proof {
                            pre.remove_ensures(i as int);
                            assert forall|a: int, b: int|
                                0 <= a < b < self.links@.len() implies self.links@[a].address
                                != self.links@[b].address by {
                                let oa: int = if a < i as int {
                                    a
                                } else {
                                    a + 1
                                };
                                let ob: int = if b < i as int {
                                    b
                                } else {
                                    b + 1
                                };
                                assert(self.links@[a] == pre[oa]);
                                assert(self.links@[b] == pre[ob]);
                            }
                            assert forall|a: int|
                                0 <= a < self.links@.len() implies self.links@[a].address
                                < self.next_address by {
                                let oa: int = if a < i as int {
                                    a
                                } else {
                                    a + 1
                                };
                                assert(self.links@[a] == pre[oa]);
                            }
                            assert forall|a: int, b: int|
                                0 <= a < self.actions@.len() && 0 <= b
                                    < self.links@.len() implies self.actions@[a].hash
                                != self.links@[b].address by {
                                let ob: int = if b < i as int {
                                    b
                                } else {
                                    b + 1
                                };
                                assert(self.links@[b] == pre[ob]);
                            }
                        }
                        return Ok(());
                    },
                }
            }
            i = i + 1;
        }
        Err(ProtocolError::NotFound)
    }
}

} // verus!
