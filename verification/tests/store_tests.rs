//! Tests of the record store: deterministic addressing, create-if-absent,
//! and the end-to-end lease lifecycle through the store.

use rentflow_core::lease::{LeaseError, LeaseStatus};
use rentflow_core::store::{lease_address, LeaseStore, StoreError};

const MANAGER: [u8; 32] = [1; 32];
const TENANT: [u8; 32] = [2; 32];
const OUTSIDER: [u8; 32] = [7; 32];
const SIG_A: [u8; 32] = [10; 32];
const SIG_B: [u8; 32] = [11; 32];
const HASH: [u8; 32] = [9; 32];

fn store_with_l1() -> LeaseStore {
    let mut s = LeaseStore::new();
    s.create_lease(String::from("L1"), HASH, MANAGER, TENANT, 1000, 500, 1000, 2000, 5)
        .expect("valid inputs");
    s
}

#[test]
fn address_is_the_digest_of_tag_and_id() {
    // sha-256 of the namespace tag "lease" followed by "L1".
    let expected: [u8; 32] = [
        127, 45, 148, 11, 251, 159, 85, 213, 73, 60, 212, 194, 106, 82, 211, 42, 190, 231, 157,
        105, 143, 118, 132, 32, 196, 37, 190, 205, 44, 192, 163, 242,
    ];
    assert_eq!(lease_address(&String::from("L1")), expected);
}

#[test]
fn address_is_deterministic_and_separates_ids() {
    let a1 = lease_address(&String::from("L1"));
    let a2 = lease_address(&String::from("L1"));
    assert_eq!(a1, a2);
    let b = lease_address(&String::from("L2"));
    assert_ne!(a1, b);
}

#[test]
fn create_stores_the_record() {
    let s = store_with_l1();
    assert_eq!(s.len(), 1);
    assert!(s.contains_lease(&String::from("L1")));
    assert!(!s.contains_lease(&String::from("L2")));
    let l = s.get_lease(&String::from("L1")).expect("present");
    assert_eq!(l.lease_id, "L1");
    assert_eq!(l.status, LeaseStatus::Pending);
}

#[test]
fn create_same_id_collides() {
    let mut s = store_with_l1();
    // The second creation fails even with entirely different fields.
    let r = s.create_lease(
        String::from("L1"),
        [3; 32],
        [4; 32],
        [5; 32],
        77,
        0,
        10,
        20,
        99,
    );
    assert!(matches!(r, Err(StoreError::LeaseAlreadyExists)));
    assert_eq!(s.len(), 1);
    let l = s.get_lease(&String::from("L1")).expect("present");
    assert_eq!(l.monthly_rent, 1000);
}

#[test]
fn create_rejects_invalid_inputs() {
    let mut s = LeaseStore::new();
    let r = s.create_lease(String::from("L1"), HASH, MANAGER, TENANT, 0, 500, 1000, 2000, 5);
    assert!(matches!(r, Err(StoreError::Lease(LeaseError::InvalidRentAmount))));
    assert_eq!(s.len(), 0);
}

#[test]
fn operations_on_missing_record_fail() {
    let mut s = LeaseStore::new();
    let id = String::from("missing");
    assert!(matches!(
        s.sign_lease(&id, &MANAGER, SIG_A, 7),
        Err(StoreError::LeaseNotFound)
    ));
    assert!(matches!(
        s.update_lease_status(&id, &MANAGER, LeaseStatus::Terminated, 7),
        Err(StoreError::LeaseNotFound)
    ));
    assert!(matches!(s.verify_lease(&id), Err(StoreError::LeaseNotFound)));
    assert!(s.get_lease(&id).is_none());
}

#[test]
fn create_then_verify_is_false() {
    let s = store_with_l1();
    assert_eq!(s.verify_lease(&String::from("L1")), Ok(false));
}

#[test]
fn independent_records_do_not_interfere() {
    let mut s = store_with_l1();
    s.create_lease(String::from("L2"), HASH, MANAGER, TENANT, 2000, 0, 1000, 2000, 6)
        .expect("valid inputs");
    let id1 = String::from("L1");
    let id2 = String::from("L2");
    s.sign_lease(&id1, &MANAGER, SIG_A, 7).unwrap();
    s.sign_lease(&id1, &TENANT, SIG_B, 9).unwrap();
    assert_eq!(s.verify_lease(&id1), Ok(true));
    assert_eq!(s.verify_lease(&id2), Ok(false));
    let l2 = s.get_lease(&id2).unwrap();
    assert!(!l2.manager_signed && !l2.tenant_signed);
}

#[test]
fn end_to_end_scenario() {
    let mut s = LeaseStore::new();
    let id = String::from("L1");
    s.create_lease(id.clone(), HASH, MANAGER, TENANT, 1000, 500, 1000, 2000, 5)
        .expect("valid inputs");
    assert_eq!(s.get_lease(&id).unwrap().status, LeaseStatus::Pending);

    s.sign_lease(&id, &MANAGER, SIG_A, 7).unwrap();
    {
        let l = s.get_lease(&id).unwrap();
        assert!(l.manager_signed);
        assert_eq!(l.status, LeaseStatus::Pending);
    }

    s.sign_lease(&id, &TENANT, SIG_B, 9).unwrap();
    {
        let l = s.get_lease(&id).unwrap();
        assert!(l.tenant_signed);
        assert_eq!(l.status, LeaseStatus::Active);
        assert_eq!(l.activated_at, 9);
    }

    assert_eq!(s.verify_lease(&id), Ok(true));

    s.update_lease_status(&id, &MANAGER, LeaseStatus::Terminated, 10).unwrap();
    assert_eq!(s.get_lease(&id).unwrap().status, LeaseStatus::Terminated);

    let r = s.update_lease_status(&id, &MANAGER, LeaseStatus::Completed, 5000);
    assert!(matches!(r, Err(StoreError::Lease(LeaseError::InvalidStatusTransition))));
}

#[test]
fn sign_errors_surface_through_the_store() {
    let mut s = store_with_l1();
    let id = String::from("L1");
    let r = s.sign_lease(&id, &OUTSIDER, SIG_A, 7);
    assert!(matches!(r, Err(StoreError::Lease(LeaseError::UnauthorizedSigner))));
    s.sign_lease(&id, &MANAGER, SIG_A, 7).unwrap();
    let r = s.sign_lease(&id, &MANAGER, SIG_B, 8);
    assert!(matches!(r, Err(StoreError::Lease(LeaseError::AlreadySigned))));
}

#[test]
fn completion_gate_through_the_store() {
    let mut s = store_with_l1();
    let id = String::from("L1");
    s.sign_lease(&id, &MANAGER, SIG_A, 7).unwrap();
    s.sign_lease(&id, &TENANT, SIG_B, 9).unwrap();
    let r = s.update_lease_status(&id, &TENANT, LeaseStatus::Completed, 1500);
    assert!(matches!(r, Err(StoreError::Lease(LeaseError::LeaseNotEnded))));
    assert_eq!(s.get_lease(&id).unwrap().status, LeaseStatus::Active);
    s.update_lease_status(&id, &TENANT, LeaseStatus::Completed, 2000).unwrap();
    assert_eq!(s.get_lease(&id).unwrap().status, LeaseStatus::Completed);
}
