//! Data model of the versioned-entry protocol: content addresses, actions,
//! records, links, detail views and the error taxonomy.

use vstd::prelude::*;

verus! {

/// Content addresses below this bound are assigned by the store to actions and
/// links; addresses at or above it form the well-known anchor space, derived
/// deterministically from an anchor name.
pub const ANCHOR_SPACE_START: u64 = 0x8000_0000_0000_0000;

/// The versionable payload embedded in a Create or Update action. The protocol
/// never inspects it; it is carried as an opaque value.
#[derive(Clone, Copy, Debug, PartialEq, Eq, Structural)]
pub struct Entry {
    pub payload: u64,
}

/// What an action does: create an entity, revise a predecessor action, or
/// tombstone an action. Update and Delete carry the address of the action they
/// refer to.
#[derive(Clone, Copy, Debug, PartialEq, Eq, Structural)]
pub enum Operation {
    Create { entry: Entry },
    Update { prev: u64, entry: Entry },
    Delete { target: u64 },
}

/// An immutable unit of the append-only log: author identity, wall-clock
/// timestamp recorded at write time, and the operation performed.
#[derive(Clone, Copy, Debug, PartialEq, Eq, Structural)]
pub struct Action {
    pub author: u64,
    pub timestamp: u64,
    pub op: Operation,
}

/// An action together with the content address the store assigned to it.
#[derive(Clone, Copy, Debug, PartialEq, Eq, Structural)]
pub struct Record {
    pub hash: u64,
    pub action: Action,
}

/// What a link points at: an address that resolves to an action, or some
/// other addressable thing that cannot be interpreted as an action address.
#[derive(Clone, Copy, Debug, PartialEq, Eq, Structural)]
pub enum LinkTarget {
    ActionRef(u64),
    ExternalRef(u64),
}

/// The two link families of the protocol. Revision-chain links are append-only
/// by design and may never be deleted; anchor-index links exist only for
/// enumeration and are removed when an entity is deleted.
#[derive(Clone, Copy, Debug, PartialEq, Eq, Structural)]
pub enum LinkKind {
    RevisionChain,
    AnchorIndex,
}

/// A directed, timestamped edge from a base address to a target, with the
/// store-assigned address of the link itself.
#[derive(Clone, Copy, Debug, PartialEq, Eq, Structural)]
pub struct Link {
    pub address: u64,
    pub base: u64,
    pub target: LinkTarget,
    pub kind: LinkKind,
    pub timestamp: u64,
}

/// The per-address detail view of the store: a full record with every
/// tombstone recorded against it, or an entry-only projection for addresses
/// that were never recorded as full records (anchor nodes).
#[derive(Clone, Debug)]
pub enum Details {
    EntryOnly,
    RecordDetails { record: Record, deletes: Vec<Record> },
}

/// The error taxonomy of the protocol.
///
/// `NotFound`: an address or original is unresolvable where the operation's
/// contract does not allow an absent result. `MalformedLink`: a link's target
/// cannot be interpreted as an action address; always fatal, never silently
/// substituted. `MalformedDetails`: the detail view returned the wrong shape
/// for the requested operation. `PolicyViolation`: an operation the protocol
/// forbids by design, rejected before any mutation.
#[derive(Clone, Copy, Debug, PartialEq, Eq, Structural)]
pub enum ProtocolError {
    NotFound,
    MalformedLink,
    MalformedDetails,
    PolicyViolation,
}

/// Whether `r` is a tombstone of `original`: a Delete action recorded against
/// that address.
pub open spec fn is_tombstone_of(r: Record, original: u64) -> bool {
    match r.action.op {
        Operation::Delete { target } => target == original,
        _ => false,
    }
}

/// Whether an action carries an entry payload, i.e. is a Create or an Update.
/// Only such actions may stand at either end of a revision link.
pub open spec fn carries_entry(a: Action) -> bool {
    match a.op {
        Operation::Create { .. } => true,
        Operation::Update { .. } => true,
        Operation::Delete { .. } => false,
    }
}

} // verus!
