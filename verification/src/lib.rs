//! A versioned-entry resolution protocol over an immutable, content-addressed
//! action log.
//!
//! Entities are never overwritten in place: every update or delete is a new,
//! independently addressable action referencing its predecessor, and a link
//! layer lets readers discover the current head of a revision chain, its full
//! history, and its tombstones. The substrate (a content-addressed store of
//! actions and links) is modelled explicitly by [`store::Store`]; the protocol
//! components operate on it and are verified against it.

pub mod anchors;
pub mod laws;
pub mod lifecycle;
pub mod resolve;
pub mod revisions;
pub mod store;
pub mod tombstones;
pub mod types;
