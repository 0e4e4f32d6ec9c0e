//! The addressable record store: one lease per identifier, reachable only
//! through a deterministic address derived from a fixed namespace tag and
//! the identifier, with create-if-absent semantics.

use crate::lease::{
    bytes32_eq, init_spec, sig_set, sign_spec, update_status_spec, initialize_lease, Lease,
    LeaseError, LeaseStatus, LeaseView,
};
use vstd::prelude::*;

verus! {

broadcast use vstd::array::group_array_axioms;

/// The address that a given identifier derives to. The derivation is a pure
/// digest, so equal identifiers always derive equal addresses.
pub uninterp spec fn lease_address_of(lease_id: Seq<char>) -> Seq<u8>;

/// Relies on sha2's `Sha256::digest`: the derived address is the digest of
/// the fixed namespace tag `"lease"` followed by the identifier's bytes,
/// and depends on the identifier alone.
#[verifier::external_body]
fn derive_address(lease_id: &String) -> (r: [u8; 32])
    ensures
        r@ == lease_address_of(lease_id@),
{
    let mut data: Vec<u8> = Vec::with_capacity(5 + lease_id.len());
    data.extend_from_slice(b"lease");
    data.extend_from_slice(lease_id.as_bytes());
    <sha2::Sha256 as sha2::Digest>::digest(&data).into()
}

/// The deterministic address of the record that `lease_id` names.
pub fn lease_address(lease_id: &String) -> (r: [u8; 32])
    ensures
        r@ == lease_address_of(lease_id@),
{
    derive_address(lease_id)
}

/// Failures of a store operation: either the storage layer refuses the
/// access, or the lease operation itself does.
#[derive(Clone, Copy, PartialEq, Eq, Structural, Debug)]
pub enum StoreError {
    LeaseAlreadyExists,
    LeaseNotFound,
    Lease(LeaseError),
}

struct LeaseSlot {
    address: [u8; 32],
    lease: Lease,
}

/// An in-memory record store: a set of leases keyed by derived address.
pub struct LeaseStore {
    slots: Vec<LeaseSlot>,
}

/// Whether the model holds a record at `addr`.
pub open spec fn store_contains(s: Seq<(Seq<u8>, LeaseView)>, addr: Seq<u8>) -> bool {
    exists|i: int| 0 <= i < s.len() && s[i].0 == addr
}

/// The position of the record at `addr` (meaningful when the store
/// contains it and its addresses are distinct).
pub open spec fn store_index_of(s: Seq<(Seq<u8>, LeaseView)>, addr: Seq<u8>) -> int {
    choose|i: int| 0 <= i < s.len() && s[i].0 == addr
}

/// No two records share an address.
pub open spec fn store_unique(s: Seq<(Seq<u8>, LeaseView)>) -> bool {
    forall|i: int, j: int|
        #![trigger s[i], s[j]]
        0 <= i < j < s.len() ==> s[i].0 != s[j].0
}

/// Well-formedness of the store model: distinct addresses, and every
/// record well-formed.
pub open spec fn store_wf(s: Seq<(Seq<u8>, LeaseView)>) -> bool {
    &&& store_unique(s)
    &&& forall|i: int| 0 <= i < s.len() ==> (#[trigger] s[i]).1.wf()
}

/// The record at `addr` can be found at `store_index_of`.
pub proof fn lemma_contains_index(s: Seq<(Seq<u8>, LeaseView)>, addr: Seq<u8>)
    requires
        store_contains(s, addr),
    ensures
        0 <= store_index_of(s, addr) < s.len(),
        s[store_index_of(s, addr)].0 == addr,
{
    let i = choose|i: int| 0 <= i < s.len() && s[i].0 == addr;
    assert(0 <= i < s.len() && s[i].0 == addr);
}

/// With distinct addresses, any position holding `addr` is the one that
/// `store_index_of` names.
pub proof fn lemma_index_agrees(s: Seq<(Seq<u8>, LeaseView)>, addr: Seq<u8>, i: int)
    requires
        store_unique(s),
        0 <= i < s.len(),
        s[i].0 == addr,
    ensures
        store_contains(s, addr),
        store_index_of(s, addr) == i,
{
    assert(store_contains(s, addr));
    lemma_contains_index(s, addr);
    let j = store_index_of(s, addr);
    if j < i {
        assert(s[j].0 != s[i].0);
    } else if i < j {
        assert(s[i].0 != s[j].0);
    }
}

/// What creating a lease does to the store: a collision at the derived
/// address fails first; then the lease validation runs; on success the new
/// record is appended under its derived address.
pub open spec fn store_create_spec(
    s: Seq<(Seq<u8>, LeaseView)>,
    lease_id: Seq<char>,
    lease_hash: Seq<u8>,
    manager_wallet: Seq<u8>,
    tenant_wallet: Seq<u8>,
    monthly_rent: int,
    security_deposit: int,
    start_date: int,
    end_date: int,
    now: int,
) -> (Seq<(Seq<u8>, LeaseView)>, Result<(), StoreError>) {
    let addr = lease_address_of(lease_id);
    if store_contains(s, addr) {
        (s, Err(StoreError::LeaseAlreadyExists))
    } else {
        match init_spec(
            lease_id,
            lease_hash,
            manager_wallet,
            tenant_wallet,
            monthly_rent,
            security_deposit,
            start_date,
            end_date,
            now,
        ) {
            Ok(v) => (s.push((addr, v)), Ok(())),
            Err(e) => (s, Err(StoreError::Lease(e))),
        }
    }
}

/// What signing through the store does: the record is loaded by its
/// derived address and the signing rule is applied to it alone.
pub open spec fn store_sign_spec(
    s: Seq<(Seq<u8>, LeaseView)>,
    lease_id: Seq<char>,
    signer: Seq<u8>,
    signature_hash: Seq<u8>,
    now: int,
) -> (Seq<(Seq<u8>, LeaseView)>, Result<(), StoreError>) {
    let addr = lease_address_of(lease_id);
    if !store_contains(s, addr) {
        (s, Err(StoreError::LeaseNotFound))
    } else {
        let i = store_index_of(s, addr);
        match sign_spec(s[i].1, signer, signature_hash, now) {
            Ok(v) => (s.update(i, (addr, v)), Ok(())),
            Err(e) => (s, Err(StoreError::Lease(e))),
        }
    }
}

/// What a status update through the store does.
pub open spec fn store_update_status_spec(
    s: Seq<(Seq<u8>, LeaseView)>,
    lease_id: Seq<char>,
    signer: Seq<u8>,
    new_status: LeaseStatus,
    now: int,
) -> (Seq<(Seq<u8>, LeaseView)>, Result<(), StoreError>) {
    let addr = lease_address_of(lease_id);
    if !store_contains(s, addr) {
        (s, Err(StoreError::LeaseNotFound))
    } else {
        let i = store_index_of(s, addr);
        match update_status_spec(s[i].1, signer, new_status, now) {
            Ok(v) => (s.update(i, (addr, v)), Ok(())),
            Err(e) => (s, Err(StoreError::Lease(e))),
        }
    }
}

/// What verification through the store returns: the predicate of the
/// record that the identifier derives to.
pub open spec fn store_verify_spec(s: Seq<(Seq<u8>, LeaseView)>, lease_id: Seq<char>) -> Result<
    bool,
    StoreError,
> {
    let addr = lease_address_of(lease_id);
    if !store_contains(s, addr) {
        Err(StoreError::LeaseNotFound)
    } else {
        Ok(s[store_index_of(s, addr)].1.verified())
    }
}

impl View for LeaseStore {
    type V = Seq<(Seq<u8>, LeaseView)>;

    /// The store as a sequence of address/record pairs.
    closed spec fn view(&self) -> Seq<(Seq<u8>, LeaseView)> {
        self.slots@.map_values(|slot: LeaseSlot| (slot.address@, slot.lease@))
    }
}

impl LeaseStore {
    /// Distinct addresses, every record well-formed.
    pub open spec fn wf(&self) -> bool {
        store_wf(self@)
    }

    /// An empty store.
    pub fn new() -> (r: LeaseStore)
        ensures
            r@ == Seq::<(Seq<u8>, LeaseView)>::empty(),
            r.wf(),
    {
        let r = LeaseStore { slots: Vec::new() };
        proof {
            assert(r@ =~= Seq::<(Seq<u8>, LeaseView)>::empty());
        }
        r
    }

    /// The number of records held.
    pub fn len(&self) -> (n: usize)
        ensures
            n == self@.len(),
    {
        self.slots.len()
    }

    fn find_slot(&self, addr: &[u8; 32]) -> (r: Option<usize>)
        ensures
            (r matches Some(i) ==> 0 <= i < self@.len() && self@[i as int].0 == addr@),
            (r is None ==> !store_contains(self@, addr@)),
    {
        let mut i: usize = 0;
        while i < self.slots.len()
            invariant
                i <= self.slots.len(),
                forall|j: int| 0 <= j < i ==> self@[j].0 != addr@,
            decreases self.slots.len() - i,
        {
            if bytes32_eq(&self.slots[i].address, addr) {
                return Some(i);
            }
            i += 1;
        }
        None
    }

    /// Creates the record that `lease_id` names: fails with
    /// `LeaseAlreadyExists` if its derived address is already occupied,
    /// then validates and stores the fresh lease. The caller is recorded
    /// as manager.
    pub fn create_lease(
        &mut self,
        lease_id: String,
        lease_hash: [u8; 32],
        manager_wallet: [u8; 32],
        tenant_wallet: [u8; 32],
        monthly_rent: u64,
        security_deposit: u64,
        start_date: i64,
        end_date: i64,
        now: i64,
    ) -> (r: Result<(), StoreError>)
        requires
            old(self).wf(),
            manager_wallet@ != tenant_wallet@,
        ensures
            final(self).wf(),
            final(self)@ == store_create_spec(
                old(self)@,
                lease_id@,
                lease_hash@,
                manager_wallet@,
                tenant_wallet@,
                monthly_rent as int,
                security_deposit as int,
                start_date as int,
                end_date as int,
                now as int,
            ).0,
            r == store_create_spec(
                old(self)@,
                lease_id@,
                lease_hash@,
                manager_wallet@,
                tenant_wallet@,
                monthly_rent as int,
                security_deposit as int,
                start_date as int,
                end_date as int,
                now as int,
            ).1,
    {
        let addr = derive_address(&lease_id);
        match self.find_slot(&addr) {
            Some(i) => {
                proof {
                    lemma_index_agrees(self@, addr@, i as int);
                }
                Err(StoreError::LeaseAlreadyExists)
            },
            None => {
                match initialize_lease(
                    lease_id,
                    lease_hash,
                    manager_wallet,
                    tenant_wallet,
                    monthly_rent,
                    security_deposit,
                    start_date,
                    end_date,
                    now,
                ) {
                    Ok(lease) => {
                        let ghost pre = self@;
                        let ghost v = lease@;
                        self.slots.push(LeaseSlot { address: addr, lease });
                        proof {
                            assert(self@ =~= pre.push((addr@, v)));
                        }
                        Ok(())
                    },
                    Err(e) => Err(StoreError::Lease(e)),
                }
            },
        }
    }

    /// Signs the record that `lease_id` names, on behalf of `signer`. The
    /// record alone is touched; on any error the store is unchanged.
    pub fn sign_lease(
        &mut self,
        lease_id: &String,
        signer: &[u8; 32],
        signature_hash: [u8; 32],
        now: i64,
    ) -> (r: Result<(), StoreError>)
        requires
            old(self).wf(),
            sig_set(signature_hash@),
        ensures
            final(self).wf(),
            final(self)@ == store_sign_spec(
                old(self)@,
                lease_id@,
                signer@,
                signature_hash@,
                now as int,
            ).0,
            r == store_sign_spec(old(self)@, lease_id@, signer@, signature_hash@, now as int).1,
    {
        let addr = derive_address(lease_id);
        match self.find_slot(&addr) {
            None => Err(StoreError::LeaseNotFound),
            Some(i) => {
                proof {
                    lemma_index_agrees(self@, addr@, i as int);
                }
                let ghost pre = self@;
                let mut slot = self.slots.remove(i);
                let res = slot.lease.sign_lease(signer, signature_hash, now);
                let ghost v = slot.lease@;
                self.slots.insert(i, slot);
                proof {
                    assert(self@ =~= pre.update(i as int, (addr@, v)));
                    if res is Err {
                        assert(self@ =~= pre);
                    }
                }
                match res {
                    Ok(_) => Ok(()),
                    Err(e) => Err(StoreError::Lease(e)),
                }
            },
        }
    }

    /// Updates the status of the record that `lease_id` names, on behalf
    /// of `signer`. The record alone is touched; on any error the store is
    /// unchanged.
    pub fn update_lease_status(
        &mut self,
        lease_id: &String,
        signer: &[u8; 32],
        new_status: LeaseStatus,
        now: i64,
    ) -> (r: Result<(), StoreError>)
        requires
            old(self).wf(),
        ensures
            final(self).wf(),
            final(self)@ == store_update_status_spec(
                old(self)@,
                lease_id@,
                signer@,
                new_status,
                now as int,
            ).0,
            r == store_update_status_spec(
                old(self)@,
                lease_id@,
                signer@,
                new_status,
                now as int,
            ).1,
    {
        let addr = derive_address(lease_id);
        match self.find_slot(&addr) {
            None => Err(StoreError::LeaseNotFound),
            Some(i) => {
                proof {
                    lemma_index_agrees(self@, addr@, i as int);
                }
                let ghost pre = self@;
                let mut slot = self.slots.remove(i);
                let res = slot.lease.update_lease_status(signer, new_status, now);
                let ghost v = slot.lease@;
                self.slots.insert(i, slot);
                proof {
                    assert(self@ =~= pre.update(i as int, (addr@, v)));
                    if res is Err {
                        assert(self@ =~= pre);
                    }
                }
                match res {
                    Ok(_) => Ok(()),
                    Err(e) => Err(StoreError::Lease(e)),
                }
            },
        }
    }

    /// The read-only verification predicate of the record that `lease_id`
    /// names: true iff both parties have signed and the lease is `Active`.
    pub fn verify_lease(&self, lease_id: &String) -> (r: Result<bool, StoreError>)
        requires
            self.wf(),
        ensures
            r == store_verify_spec(self@, lease_id@),
    {
        let addr = derive_address(lease_id);
        match self.find_slot(&addr) {
            None => Err(StoreError::LeaseNotFound),
            Some(i) => {
                proof {
                    lemma_index_agrees(self@, addr@, i as int);
                }
                Ok(self.slots[i].lease.verify_lease())
            },
        }
    }

    /// Whether a record exists under `lease_id`'s derived address.
    pub fn contains_lease(&self, lease_id: &String) -> (r: bool)
        requires
            self.wf(),
        ensures
            r == store_contains(self@, lease_address_of(lease_id@)),
    {
        let addr = derive_address(lease_id);
        match self.find_slot(&addr) {
            None => false,
            Some(i) => {
                proof {
                    lemma_index_agrees(self@, addr@, i as int);
                }
                true
            },
        }
    }

    /// The record that `lease_id` names, for inspection.
    pub fn get_lease(&self, lease_id: &String) -> (r: Option<&Lease>)
        requires
            self.wf(),
        ensures
            (r matches Some(l) ==> store_contains(self@, lease_address_of(lease_id@)) && l@
                == self@[store_index_of(self@, lease_address_of(lease_id@))].1),
            (r is None ==> !store_contains(self@, lease_address_of(lease_id@))),
    {
        let addr = derive_address(lease_id);
        match self.find_slot(&addr) {
            None => None,
            Some(i) => {
                proof {
                    lemma_index_agrees(self@, addr@, i as int);
                }
                Some(&self.slots[i].lease)
            },
        }
    }
}

} // verus!
