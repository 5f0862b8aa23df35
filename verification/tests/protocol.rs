use versioned_entries::anchors::{derive_anchor_address, deregister_from_index, enumerate};
use versioned_entries::lifecycle::{
    create_entity, create_indexed_entity, delete_indexed_entity, update_entity,
};
use versioned_entries::resolve::{full_history, get_original, latest_link, resolve_latest};
use versioned_entries::revisions::{create_revision_link, list_revisions, validate_revision_link};
use versioned_entries::store::Store;
use versioned_entries::tombstones::{all_tombstones, oldest_record, oldest_tombstone, record_delete};
use versioned_entries::types::{
    Details, Entry, LinkKind, LinkTarget, Operation, ProtocolError,
};

const ALICE: u64 = 11;
const BOB: u64 = 22;
const PROFILES_ANCHOR: u64 = 1;

fn entry(payload: u64) -> Entry {
    Entry { payload }
}

#[test]
fn resolve_latest_without_revisions_returns_original() {
    let mut s = Store::new();
    let r0 = create_entity(&mut s, ALICE, 10, entry(7));
    assert_eq!(resolve_latest(&s, r0.hash), Ok(Some(r0)));
}

#[test]
fn resolve_latest_of_unknown_original_is_absent() {
    let s = Store::new();
    assert_eq!(resolve_latest(&s, 42), Ok(None));
}

#[test]
fn resolve_latest_follows_max_timestamp() {
    let mut s = Store::new();
    let r0 = create_entity(&mut s, ALICE, 10, entry(1));
    let r1 = update_entity(&mut s, r0.hash, r0.hash, ALICE, 100, entry(2));
    let r2 = update_entity(&mut s, r0.hash, r1.hash, BOB, 200, entry(3));
    assert_eq!(resolve_latest(&s, r0.hash), Ok(Some(r2)));
}

#[test]
fn resolve_latest_follows_max_timestamp_reordered() {
    // Same chain shape, but the first revision carries the later timestamp.
    let mut s = Store::new();
    let r0 = create_entity(&mut s, ALICE, 10, entry(1));
    let r1 = update_entity(&mut s, r0.hash, r0.hash, ALICE, 200, entry(2));
    let _r2 = update_entity(&mut s, r0.hash, r1.hash, BOB, 100, entry(3));
    assert_eq!(resolve_latest(&s, r0.hash), Ok(Some(r1)));
}

#[test]
fn resolve_latest_is_idempotent() {
    let mut s = Store::new();
    let r0 = create_entity(&mut s, ALICE, 10, entry(1));
    let _r1 = update_entity(&mut s, r0.hash, r0.hash, ALICE, 100, entry(2));
    let first = resolve_latest(&s, r0.hash);
    let second = resolve_latest(&s, r0.hash);
    assert_eq!(first, second);
}

#[test]
fn resolve_latest_breaks_timestamp_ties_by_store_order() {
    let mut s = Store::new();
    let r0 = create_entity(&mut s, ALICE, 10, entry(1));
    let r1 = update_entity(&mut s, r0.hash, r0.hash, ALICE, 100, entry(2));
    let r2 = update_entity(&mut s, r0.hash, r1.hash, BOB, 100, entry(3));
    // Both links carry timestamp 100: the later one in store order wins.
    assert_eq!(resolve_latest(&s, r0.hash), Ok(Some(r2)));
}

#[test]
fn resolve_latest_fails_loudly_on_malformed_link() {
    let mut s = Store::new();
    let r0 = create_entity(&mut s, ALICE, 10, entry(1));
    s.create_link(
        r0.hash,
        LinkTarget::ExternalRef(999),
        LinkKind::RevisionChain,
        500,
    );
    // A corrupt link must never silently degrade to "use the original".
    assert_eq!(resolve_latest(&s, r0.hash), Err(ProtocolError::MalformedLink));
}

#[test]
fn latest_link_of_empty_set_is_absent() {
    assert_eq!(latest_link(&Vec::new()), None);
}

#[test]
fn full_history_starts_with_original_and_keeps_link_order() {
    let mut s = Store::new();
    let r0 = create_entity(&mut s, ALICE, 10, entry(1));
    // Later link first by timestamp: history must keep discovery order anyway.
    let r1 = update_entity(&mut s, r0.hash, r0.hash, ALICE, 200, entry(2));
    let r2 = update_entity(&mut s, r0.hash, r1.hash, BOB, 100, entry(3));
    assert_eq!(full_history(&s, r0.hash), Ok(vec![r0, r1, r2]));
}

#[test]
fn full_history_of_unknown_original_is_empty() {
    let s = Store::new();
    assert_eq!(full_history(&s, 42), Ok(Vec::new()));
}

#[test]
fn full_history_skips_unresolvable_targets() {
    let mut s = Store::new();
    let r0 = create_entity(&mut s, ALICE, 10, entry(1));
    let r1 = update_entity(&mut s, r0.hash, r0.hash, ALICE, 100, entry(2));
    // A link to an action known elsewhere but not visible here: skipped, and
    // the length is 1 + (number of resolvable links).
    s.create_link(
        r0.hash,
        LinkTarget::ActionRef(7777),
        LinkKind::RevisionChain,
        150,
    );
    assert_eq!(full_history(&s, r0.hash), Ok(vec![r0, r1]));
}

#[test]
fn full_history_fails_on_malformed_link_target() {
    let mut s = Store::new();
    let r0 = create_entity(&mut s, ALICE, 10, entry(1));
    s.create_link(
        r0.hash,
        LinkTarget::ExternalRef(999),
        LinkKind::RevisionChain,
        150,
    );
    assert_eq!(full_history(&s, r0.hash), Err(ProtocolError::MalformedLink));
}

#[test]
fn get_original_returns_the_create_record() {
    let mut s = Store::new();
    let r0 = create_entity(&mut s, ALICE, 10, entry(1));
    let _r1 = update_entity(&mut s, r0.hash, r0.hash, ALICE, 100, entry(2));
    assert_eq!(get_original(&s, r0.hash), Ok(Some(r0)));
    assert_eq!(get_original(&s, 42), Ok(None));
}

#[test]
fn tombstones_accumulate_and_oldest_is_min_by_timestamp() {
    let mut s = Store::new();
    let r0 = create_entity(&mut s, ALICE, 10, entry(1));
    let d1 = record_delete(&mut s, r0.hash, ALICE, 50).unwrap();
    let d2 = record_delete(&mut s, r0.hash, BOB, 30).unwrap();
    assert_eq!(all_tombstones(&s, r0.hash), Ok(Some(vec![d1, d2])));
    assert_eq!(oldest_tombstone(&s, r0.hash), Ok(Some(d2)));
}

#[test]
fn tombstone_queries_on_vanished_original_are_absent_not_errors() {
    let s = Store::new();
    assert_eq!(all_tombstones(&s, 42), Ok(None));
    assert_eq!(oldest_tombstone(&s, 42), Ok(None));
}

#[test]
fn oldest_tombstone_absent_when_no_deletes_exist() {
    let mut s = Store::new();
    let r0 = create_entity(&mut s, ALICE, 10, entry(1));
    assert_eq!(all_tombstones(&s, r0.hash), Ok(Some(Vec::new())));
    assert_eq!(oldest_tombstone(&s, r0.hash), Ok(None));
}

#[test]
fn record_delete_fails_not_found_and_leaves_store_untouched() {
    let mut s = Store::new();
    let r0 = create_entity(&mut s, ALICE, 10, entry(1));
    assert_eq!(record_delete(&mut s, 42, ALICE, 50), Err(ProtocolError::NotFound));
    assert_eq!(all_tombstones(&s, r0.hash), Ok(Some(Vec::new())));
}

#[test]
fn entry_only_details_are_a_malformed_details_error() {
    let mut s = Store::new();
    let anchor = derive_anchor_address(PROFILES_ANCHOR);
    match s.get_details(anchor) {
        Some(Details::EntryOnly) => {}
        _ => panic!("anchor address must yield the entry-only projection"),
    }
    assert_eq!(
        record_delete(&mut s, anchor, ALICE, 50),
        Err(ProtocolError::MalformedDetails)
    );
    assert_eq!(all_tombstones(&s, anchor), Err(ProtocolError::MalformedDetails));
    assert_eq!(oldest_tombstone(&s, anchor), Err(ProtocolError::MalformedDetails));
}

#[test]
fn oldest_record_breaks_ties_by_store_order() {
    let mut s = Store::new();
    let r0 = create_entity(&mut s, ALICE, 10, entry(1));
    let d1 = record_delete(&mut s, r0.hash, ALICE, 30).unwrap();
    let _d2 = record_delete(&mut s, r0.hash, BOB, 30).unwrap();
    let deletes = all_tombstones(&s, r0.hash).unwrap().unwrap();
    assert_eq!(oldest_record(&deletes), Some(d1));
}

#[test]
fn deleting_a_revision_link_always_fails_with_policy_violation() {
    let mut s = Store::new();
    let r0 = create_entity(&mut s, ALICE, 10, entry(1));
    let r1 = update_entity(&mut s, r0.hash, r0.hash, ALICE, 100, entry(2));
    let links = list_revisions(&s, r0.hash);
    assert_eq!(links.len(), 1);
    let before = links.clone();
    // Regardless of caller identity: the request carries no identity at all.
    assert_eq!(
        s.delete_link(links[0].address),
        Err(ProtocolError::PolicyViolation)
    );
    assert_eq!(list_revisions(&s, r0.hash), before);
    assert_eq!(resolve_latest(&s, r0.hash), Ok(Some(r1)));
}

#[test]
fn deleting_an_absent_link_is_not_found() {
    let mut s = Store::new();
    assert_eq!(s.delete_link(42), Err(ProtocolError::NotFound));
}

#[test]
fn anchor_links_can_be_deleted() {
    let mut s = Store::new();
    let r0 = create_indexed_entity(&mut s, PROFILES_ANCHOR, ALICE, 10, entry(1));
    let anchor = derive_anchor_address(PROFILES_ANCHOR);
    let links = enumerate(&s, anchor);
    assert_eq!(links.len(), 1);
    assert_eq!(links[0].target, LinkTarget::ActionRef(r0.hash));
    assert_eq!(s.delete_link(links[0].address), Ok(()));
    assert_eq!(enumerate(&s, anchor).len(), 0);
}

#[test]
fn enumeration_sees_three_created_entities_then_two_after_a_delete() {
    let mut s = Store::new();
    let r0 = create_indexed_entity(&mut s, PROFILES_ANCHOR, ALICE, 10, entry(1));
    let r1 = create_indexed_entity(&mut s, PROFILES_ANCHOR, ALICE, 20, entry(2));
    let r2 = create_indexed_entity(&mut s, PROFILES_ANCHOR, BOB, 30, entry(3));
    let anchor = derive_anchor_address(PROFILES_ANCHOR);
    let links = enumerate(&s, anchor);
    let targets: Vec<LinkTarget> = links.iter().map(|l| l.target).collect();
    assert_eq!(
        targets,
        vec![
            LinkTarget::ActionRef(r0.hash),
            LinkTarget::ActionRef(r1.hash),
            LinkTarget::ActionRef(r2.hash),
        ]
    );
    let tombstone = delete_indexed_entity(&mut s, PROFILES_ANCHOR, r1.hash, ALICE, 40).unwrap();
    assert_eq!(
        tombstone.action.op,
        Operation::Delete { target: r1.hash }
    );
    let live: Vec<LinkTarget> = enumerate(&s, anchor).iter().map(|l| l.target).collect();
    assert_eq!(
        live,
        vec![
            LinkTarget::ActionRef(r0.hash),
            LinkTarget::ActionRef(r2.hash),
        ]
    );
    // The original action stays resolvable and delete-queryable.
    assert_eq!(get_original(&s, r1.hash), Ok(Some(r1)));
    assert_eq!(all_tombstones(&s, r1.hash), Ok(Some(vec![tombstone])));
}

#[test]
fn delete_removes_entity_from_the_author_index_too() {
    let mut s = Store::new();
    let r0 = create_indexed_entity(&mut s, PROFILES_ANCHOR, ALICE, 10, entry(1));
    let r1 = create_indexed_entity(&mut s, PROFILES_ANCHOR, ALICE, 20, entry(2));
    assert_eq!(enumerate(&s, ALICE).len(), 2);
    delete_indexed_entity(&mut s, PROFILES_ANCHOR, r0.hash, ALICE, 40).unwrap();
    let mine: Vec<LinkTarget> = enumerate(&s, ALICE).iter().map(|l| l.target).collect();
    assert_eq!(mine, vec![LinkTarget::ActionRef(r1.hash)]);
}

#[test]
fn deregistering_an_absent_entity_is_a_no_op() {
    let mut s = Store::new();
    let r0 = create_indexed_entity(&mut s, PROFILES_ANCHOR, ALICE, 10, entry(1));
    let anchor = derive_anchor_address(PROFILES_ANCHOR);
    deregister_from_index(&mut s, anchor, 4242);
    deregister_from_index(&mut s, anchor, 4242);
    assert_eq!(enumerate(&s, anchor).len(), 1);
    assert_eq!(get_original(&s, r0.hash), Ok(Some(r0)));
}

#[test]
fn delete_of_unknown_indexed_entity_fails_not_found() {
    let mut s = Store::new();
    assert_eq!(
        delete_indexed_entity(&mut s, PROFILES_ANCHOR, 42, ALICE, 40),
        Err(ProtocolError::NotFound)
    );
}

#[test]
fn concurrent_deletes_both_recorded_oldest_is_second_writer() {
    // Two racing deletes: D1 at t=50, then D2 at t=30.
    let mut s = Store::new();
    let r0 = create_entity(&mut s, ALICE, 10, entry(1));
    let d1 = record_delete(&mut s, r0.hash, ALICE, 50).unwrap();
    let d2 = record_delete(&mut s, r0.hash, BOB, 30).unwrap();
    let all = all_tombstones(&s, r0.hash).unwrap().unwrap();
    assert_eq!(all.len(), 2);
    assert!(all.contains(&d1) && all.contains(&d2));
    assert_eq!(oldest_tombstone(&s, r0.hash), Ok(Some(d2)));
}

#[test]
fn revision_link_validation_requires_entry_carrying_ends() {
    let mut s = Store::new();
    let r0 = create_entity(&mut s, ALICE, 10, entry(1));
    let r1 = update_entity(&mut s, r0.hash, r0.hash, ALICE, 100, entry(2));
    let d = record_delete(&mut s, r0.hash, ALICE, 200).unwrap();
    assert!(validate_revision_link(&s, r0.hash, r1.hash));
    assert!(!validate_revision_link(&s, r0.hash, d.hash));
    assert!(!validate_revision_link(&s, d.hash, r1.hash));
    assert!(!validate_revision_link(&s, r0.hash, 4242));
}

#[test]
fn created_revision_links_carry_base_target_and_timestamp() {
    let mut s = Store::new();
    let r0 = create_entity(&mut s, ALICE, 10, entry(1));
    let r1 = create_entity(&mut s, ALICE, 20, entry(2));
    create_revision_link(&mut s, r0.hash, r1.hash, 30);
    let links = list_revisions(&s, r0.hash);
    assert_eq!(links.len(), 1);
    assert_eq!(links[0].base, r0.hash);
    assert_eq!(links[0].target, LinkTarget::ActionRef(r1.hash));
    assert_eq!(links[0].kind, LinkKind::RevisionChain);
    assert_eq!(links[0].timestamp, 30);
}

#[test]
fn anchor_addresses_are_deterministic_and_distinct() {
    assert_eq!(derive_anchor_address(5), derive_anchor_address(5));
    assert_ne!(derive_anchor_address(5), derive_anchor_address(6));
}

#[test]
fn content_addresses_are_unique_per_write() {
    let mut s = Store::new();
    let a = create_entity(&mut s, ALICE, 10, entry(1));
    let b = create_entity(&mut s, ALICE, 10, entry(1));
    assert_ne!(a.hash, b.hash);
    assert_eq!(s.get_action(a.hash), Some(a));
    assert_eq!(s.get_action(b.hash), Some(b));
}

#[test]
fn updates_reference_their_previous_action() {
    let mut s = Store::new();
    let r0 = create_entity(&mut s, ALICE, 10, entry(1));
    let r1 = update_entity(&mut s, r0.hash, r0.hash, ALICE, 100, entry(2));
    let r2 = update_entity(&mut s, r0.hash, r1.hash, ALICE, 200, entry(3));
    match r2.action.op {
        Operation::Update { prev, entry: e } => {
            assert_eq!(prev, r1.hash);
            assert_eq!(e, entry(3));
        }
        _ => panic!("an update must carry an Update operation"),
    }
}

#[test]
fn full_history_of_anchor_address_is_malformed_details() {
    let s = Store::new();
    let anchor = derive_anchor_address(PROFILES_ANCHOR);
    assert_eq!(full_history(&s, anchor), Err(ProtocolError::MalformedDetails));
    assert_eq!(get_original(&s, anchor), Err(ProtocolError::MalformedDetails));
}

#[test]
fn resolve_latest_is_absent_when_latest_target_is_not_visible() {
    let mut s = Store::new();
    let r0 = create_entity(&mut s, ALICE, 10, entry(1));
    // The max-timestamp link names an action this node has not seen.
    s.create_link(
        r0.hash,
        LinkTarget::ActionRef(7777),
        LinkKind::RevisionChain,
        500,
    );
    assert_eq!(resolve_latest(&s, r0.hash), Ok(None));
}

#[test]
fn history_keeps_link_order_while_resolution_compares_timestamps() {
    let mut s = Store::new();
    let r0 = create_entity(&mut s, ALICE, 10, entry(1));
    let r1 = update_entity(&mut s, r0.hash, r0.hash, ALICE, 300, entry(2));
    let r2 = update_entity(&mut s, r0.hash, r1.hash, ALICE, 100, entry(3));
    let r3 = update_entity(&mut s, r0.hash, r2.hash, ALICE, 200, entry(4));
    assert_eq!(full_history(&s, r0.hash), Ok(vec![r0, r1, r2, r3]));
    assert_eq!(resolve_latest(&s, r0.hash), Ok(Some(r1)));
}

#[test]
fn details_of_record_address_carry_its_tombstones() {
    let mut s = Store::new();
    let r0 = create_entity(&mut s, ALICE, 10, entry(1));
    let d1 = record_delete(&mut s, r0.hash, ALICE, 50).unwrap();
    match s.get_details(r0.hash) {
        Some(Details::RecordDetails { record, deletes }) => {
            assert_eq!(record, r0);
            assert_eq!(deletes, vec![d1]);
        }
        _ => panic!("a record address must yield full record details"),
    }
    assert!(s.get_details(9999).is_none());
}
