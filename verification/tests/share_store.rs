use secure_share::db::{plan_sweep, ShareStore, SweepReport};
use secure_share::error::{Fault, ResolveError, StoreError};
use secure_share::models::SharedLink;

const SECOND: i64 = 1_000_000;
const HOUR: i64 = 3_600 * SECOND;
const NOW: i64 = 1_700_000_000 * SECOND;
const ALICE: u128 = 0xa11ce;
const BOB: u128 = 0xb0b;
const CAROL: u128 = 0xca401;

fn share(store: &mut ShareStore, recipient: u128, created: i64, expiration: i64, tag: u8) -> u128 {
    store
        .save_encrypted_file(
            ALICE,
            format!("file-{}.bin", tag),
            3,
            recipient,
            format!("hash-{}", tag),
            expiration,
            vec![tag; 256],
            vec![tag; 16],
            vec![tag; 16],
            created,
        )
        .expect("stored")
        .shared_id
}

fn link(id: u128, file_id: Option<u128>, expiration: Option<i64>) -> SharedLink {
    SharedLink {
        id,
        file_id,
        recipient_user_id: Some(BOB),
        password: "hash".to_string(),
        expiration_date: expiration,
        created_at: Some(NOW),
    }
}

#[test]
fn new_store_is_empty() {
    let store = ShareStore::new();
    assert_eq!(store.link_count(), 0);
    assert_eq!(store.file_count(), 0);
    assert!(store.get_shared(1, BOB, NOW).is_none());
    assert!(store.get_file(1).is_none());
}

#[test]
fn grant_and_payload_are_stored_together() {
    let mut store = ShareStore::new();
    let saved = store
        .save_encrypted_file(
            ALICE,
            "report.pdf".to_string(),
            1234,
            BOB,
            "hash".to_string(),
            NOW + HOUR,
            vec![1, 2, 3],
            vec![4, 5, 6, 7],
            vec![8; 16],
            NOW,
        )
        .expect("stored");
    assert_ne!(saved.shared_id, saved.file_id);
    assert_eq!(store.link_count(), 1);
    assert_eq!(store.file_count(), 1);
    let grant = store.get_shared(saved.shared_id, BOB, NOW).expect("grant");
    assert_eq!(grant.id, saved.shared_id);
    assert_eq!(grant.file_id, Some(saved.file_id));
    assert_eq!(grant.recipient_user_id, Some(BOB));
    assert_eq!(grant.password, "hash");
    assert_eq!(grant.expiration_date, Some(NOW + HOUR));
    assert_eq!(grant.created_at, Some(NOW));
    let payload = store.get_file(saved.file_id).expect("payload");
    assert_eq!(payload.id, saved.file_id);
    assert_eq!(payload.user_id, Some(ALICE));
    assert_eq!(payload.file_name, "report.pdf");
    assert_eq!(payload.file_size, 1234);
    assert_eq!(payload.encrypted_aes_key, vec![1, 2, 3]);
    assert_eq!(payload.encrypted_file, vec![4, 5, 6, 7]);
    assert_eq!(payload.iv, vec![8; 16]);
    assert_eq!(payload.created_at, Some(NOW));
}

#[test]
fn identifiers_are_fresh() {
    let mut store = ShareStore::new();
    let first = share(&mut store, BOB, NOW, NOW + HOUR, 1);
    let second = share(&mut store, BOB, NOW, NOW + HOUR, 2);
    let third = share(&mut store, CAROL, NOW, NOW + HOUR, 3);
    assert_ne!(first, second);
    assert_ne!(second, third);
    assert_ne!(first, third);
    assert_eq!(store.link_count(), 3);
    assert_eq!(store.file_count(), 3);
    assert_eq!(store.get_shared(second, BOB, NOW).expect("grant").password, "hash-2");
}

#[test]
fn expiration_must_lie_after_the_creation() {
    let mut store = ShareStore::new();
    for expiration in [NOW, NOW - 1, NOW - HOUR, i64::MIN] {
        let refused = store.save_encrypted_file(
            ALICE,
            "late.txt".to_string(),
            1,
            BOB,
            "hash".to_string(),
            expiration,
            vec![1],
            vec![2],
            vec![3],
            NOW,
        );
        assert_eq!(refused, Err(StoreError::InvalidExpiration));
        assert_eq!(store.link_count(), 0);
        assert_eq!(store.file_count(), 0);
    }
    let taken = store.save_encrypted_file(
        ALICE,
        "soon.txt".to_string(),
        1,
        BOB,
        "hash".to_string(),
        NOW + 1,
        vec![1],
        vec![2],
        vec![3],
        NOW,
    );
    assert!(taken.is_ok());
}

#[test]
fn grant_that_expired_a_second_ago_is_not_found() {
    let mut store = ShareStore::new();
    let id = share(&mut store, BOB, NOW - HOUR, NOW - SECOND, 1);
    assert!(store.get_shared(id, BOB, NOW).is_none());
    assert_eq!(store.resolve_grant(id, BOB, NOW, true).err(), Some(ResolveError::NotFound));
}

#[test]
fn grant_that_expires_in_an_hour_is_found() {
    let mut store = ShareStore::new();
    let id = share(&mut store, BOB, NOW - HOUR, NOW + HOUR, 1);
    assert!(store.get_shared(id, BOB, NOW).is_some());
    assert_eq!(store.resolve_grant(id, BOB, NOW, true).expect("payload").file_name, "file-1.bin");
}

#[test]
fn grant_that_expires_now_is_not_found() {
    let mut store = ShareStore::new();
    let id = share(&mut store, BOB, NOW - HOUR, NOW, 1);
    assert!(store.get_shared(id, BOB, NOW).is_none());
    assert_eq!(store.resolve_grant(id, BOB, NOW, true).err(), Some(ResolveError::NotFound));
    assert!(store.get_shared(id, BOB, NOW - 1).is_some());
}

#[test]
fn grant_without_an_expiration_never_resolves_and_never_expires() {
    let open_ended = link(1, Some(2), None);
    assert!(!open_ended.is_live(NOW));
    assert!(!open_ended.is_expired(NOW));
    assert!(!open_ended.resolves(1, BOB, NOW));
    let dated = link(1, Some(2), Some(NOW));
    assert!(dated.is_live(NOW - 1));
    assert!(!dated.is_live(NOW));
    assert!(!dated.is_expired(NOW));
    assert!(dated.is_expired(NOW + 1));
    assert!(dated.resolves(1, BOB, NOW - 1));
    assert!(!dated.resolves(2, BOB, NOW - 1));
    assert!(!dated.resolves(1, CAROL, NOW - 1));
}

#[test]
fn missing_grant_and_foreign_grant_fail_alike() {
    let mut store = ShareStore::new();
    let id = share(&mut store, BOB, NOW, NOW + HOUR, 1);
    let missing = id + 1000;
    for password_matches in [true, false] {
        let absent = store.resolve_grant(missing, CAROL, NOW, password_matches).err();
        let foreign = store.resolve_grant(id, CAROL, NOW, password_matches).err();
        assert_eq!(absent, Some(ResolveError::NotFound));
        assert_eq!(foreign, absent);
    }
    assert!(store.get_shared(id, CAROL, NOW).is_none());
    assert!(store.get_shared(missing, BOB, NOW).is_none());
    assert_eq!(
        ResolveError::NotFound.message(),
        "The requested shared link either does not exist or has expired."
    );
}

#[test]
fn wrong_password_is_denied() {
    let mut store = ShareStore::new();
    let id = share(&mut store, BOB, NOW, NOW + HOUR, 1);
    assert_eq!(store.resolve_grant(id, BOB, NOW, false).err(), Some(ResolveError::AccessDenied));
    assert_eq!(ResolveError::AccessDenied.message(), "The provided password is incorrect.");
}

#[test]
fn grant_resolves_again_and_again_until_it_expires() {
    let mut store = ShareStore::new();
    let id = share(&mut store, BOB, NOW, NOW + HOUR, 1);
    for offset in [0, 1, SECOND, HOUR - 1] {
        assert!(store.resolve_grant(id, BOB, NOW + offset, true).is_ok());
    }
    assert_eq!(store.link_count(), 1);
    assert_eq!(store.file_count(), 1);
    assert!(store.resolve_grant(id, BOB, NOW + HOUR, true).is_err());
}

#[test]
fn sweep_retires_expired_grants_with_their_payloads() {
    let mut store = ShareStore::new();
    let stale = share(&mut store, BOB, NOW - 2 * HOUR, NOW - HOUR, 1);
    let fresh = share(&mut store, BOB, NOW - 2 * HOUR, NOW + HOUR, 2);
    let old = share(&mut store, CAROL, NOW - 2 * HOUR, NOW - SECOND, 3);
    let stale_file = store.get_shared(stale, BOB, NOW - 2 * HOUR).expect("grant").file_id.unwrap();
    let fresh_file = store.get_shared(fresh, BOB, NOW).expect("grant").file_id.unwrap();
    let report = store.delete_expired_files(NOW);
    assert_eq!(report, SweepReport { links_deleted: 2, files_deleted: 2 });
    assert_eq!(store.link_count(), 1);
    assert_eq!(store.file_count(), 1);
    assert!(store.get_file(stale_file).is_none());
    assert!(store.get_file(fresh_file).is_some());
    assert!(store.get_shared(fresh, BOB, NOW).is_some());
    assert!(store.get_shared(stale, BOB, NOW - 2 * HOUR).is_none());
    assert!(store.get_shared(old, CAROL, NOW - 2 * HOUR).is_none());
}

#[test]
fn sweep_with_nothing_expired_changes_nothing() {
    let mut store = ShareStore::new();
    let id = share(&mut store, BOB, NOW, NOW + HOUR, 1);
    let report = store.delete_expired_files(NOW);
    assert_eq!(report, SweepReport { links_deleted: 0, files_deleted: 0 });
    assert!(store.resolve_grant(id, BOB, NOW, true).is_ok());
    let mut empty = ShareStore::new();
    assert_eq!(
        empty.delete_expired_files(NOW),
        SweepReport { links_deleted: 0, files_deleted: 0 }
    );
}

#[test]
fn sweep_keeps_a_grant_that_expires_at_the_sweep() {
    let mut store = ShareStore::new();
    let id = share(&mut store, BOB, NOW - HOUR, NOW, 1);
    let report = store.delete_expired_files(NOW);
    assert_eq!(report, SweepReport { links_deleted: 0, files_deleted: 0 });
    assert!(store.get_shared(id, BOB, NOW).is_none());
    let report = store.delete_expired_files(NOW + 1);
    assert_eq!(report, SweepReport { links_deleted: 1, files_deleted: 1 });
}

#[test]
fn second_sweep_finds_nothing_left() {
    let mut store = ShareStore::new();
    share(&mut store, BOB, NOW - 2 * HOUR, NOW - HOUR, 1);
    share(&mut store, BOB, NOW - 2 * HOUR, NOW + HOUR, 2);
    store.delete_expired_files(NOW);
    let again = store.delete_expired_files(NOW);
    assert_eq!(again, SweepReport { links_deleted: 0, files_deleted: 0 });
    assert_eq!(store.link_count(), 1);
    assert_eq!(store.file_count(), 1);
}

#[test]
fn sweep_after_an_interrupted_sweep_collects_the_orphans() {
    let mut store = ShareStore::new();
    share(&mut store, BOB, NOW - 2 * HOUR, NOW - HOUR, 1);
    share(&mut store, CAROL, NOW - 2 * HOUR, NOW - HOUR, 2);
    let kept = share(&mut store, BOB, NOW - 2 * HOUR, NOW + HOUR, 3);
    assert_eq!(store.delete_expired_links(NOW), 2);
    assert_eq!(store.link_count(), 1);
    assert_eq!(store.file_count(), 3);
    share(&mut store, BOB, NOW, NOW + HOUR, 4);
    let report = store.delete_expired_files(NOW);
    assert_eq!(report, SweepReport { links_deleted: 0, files_deleted: 2 });
    assert_eq!(store.link_count(), 2);
    assert_eq!(store.file_count(), 2);
    assert!(store.resolve_grant(kept, BOB, NOW, true).is_ok());
    assert_eq!(store.delete_unreferenced_files(), 0);
}

#[test]
fn steps_of_the_sweep_add_up_to_the_sweep() {
    let mut whole = ShareStore::new();
    let mut stepwise = ShareStore::new();
    for store in [&mut whole, &mut stepwise] {
        share(store, BOB, NOW - 2 * HOUR, NOW - HOUR, 1);
        share(store, BOB, NOW - 2 * HOUR, NOW + HOUR, 2);
        share(store, CAROL, NOW - 2 * HOUR, NOW - 1, 3);
    }
    let report = whole.delete_expired_files(NOW);
    let links_deleted = stepwise.delete_expired_links(NOW);
    let files_deleted = stepwise.delete_unreferenced_files();
    assert_eq!(report, SweepReport { links_deleted, files_deleted });
    assert_eq!(whole.link_count(), stepwise.link_count());
    assert_eq!(whole.file_count(), stepwise.file_count());
}

#[test]
fn plan_names_the_expired_grants_and_the_orphaned_payloads() {
    let links = vec![
        link(10, Some(1), Some(NOW - HOUR)),
        link(11, Some(2), Some(NOW + HOUR)),
        link(12, Some(3), Some(NOW)),
        link(13, Some(2), Some(NOW - 1)),
        link(14, None, Some(NOW - 1)),
        link(15, Some(5), None),
    ];
    let file_ids = vec![1, 2, 3, 4, 5];
    let plan = plan_sweep(&links, &file_ids, NOW);
    assert_eq!(plan.link_ids, vec![10, 13, 14]);
    assert_eq!(plan.file_ids, vec![1, 4]);
}

#[test]
fn plan_for_an_empty_store_is_empty() {
    let plan = plan_sweep(&[], &[], NOW);
    assert!(plan.link_ids.is_empty());
    assert!(plan.file_ids.is_empty());
    let plan = plan_sweep(&[], &[7, 8], NOW);
    assert_eq!(plan.file_ids, vec![7, 8]);
}

#[test]
fn refused_expiration_is_the_callers_fault() {
    assert_eq!(StoreError::InvalidExpiration.fault(), Fault::Caller);
    assert_eq!(StoreError::Full.fault(), Fault::Service);
    assert_eq!(
        ResolveError::PayloadMissing.message(),
        "The requested file either does not exist or has expired."
    );
}
