//! The lease record and its state machine: creation, the dual-signature
//! activation protocol, guarded status transitions, and the read-only
//! verification predicate.
//!
//! The host's ambient context — the authenticated identity of the caller and
//! the trusted current time — is passed in as plain values, so every rule
//! here is a pure function of its arguments.

use vstd::prelude::*;
use vstd::string::StrSliceExecFns;

verus! {

broadcast use vstd::array::group_array_axioms;

/// Lifecycle states of a lease record. `Pending` and `Active` are
/// non-terminal; `Terminated` and `Completed` are terminal.
#[derive(Clone, Copy, PartialEq, Eq, Structural, Debug)]
pub enum LeaseStatus {
    Pending,
    Active,
    Terminated,
    Completed,
}

/// Every way an operation on a lease can be refused. All are validation
/// failures surfaced before any mutation is applied.
#[derive(Clone, Copy, PartialEq, Eq, Structural, Debug)]
pub enum LeaseError {
    LeaseIdTooLong,
    InvalidRentAmount,
    InvalidDateRange,
    UnauthorizedSigner,
    LeaseNotPending,
    AlreadySigned,
    LeaseNotEnded,
    InvalidStatusTransition,
}

/// The persistent lease record. Identities and digests are 32-byte values
/// supplied by the host platform; the record itself performs no hashing.
pub struct Lease {
    pub lease_id: String,
    pub lease_hash: [u8; 32],
    pub manager_wallet: [u8; 32],
    pub tenant_wallet: [u8; 32],
    pub monthly_rent: u64,
    pub security_deposit: u64,
    pub start_date: i64,
    pub end_date: i64,
    pub manager_signed: bool,
    pub tenant_signed: bool,
    pub manager_signature: [u8; 32],
    pub tenant_signature: [u8; 32],
    pub status: LeaseStatus,
    pub created_at: i64,
    pub activated_at: i64,
}

/// The mathematical model of a lease record: every contract of this module
/// is stated over it.
#[verifier::ext_equal]
pub ghost struct LeaseView {
    pub lease_id: Seq<char>,
    pub lease_hash: Seq<u8>,
    pub manager_wallet: Seq<u8>,
    pub tenant_wallet: Seq<u8>,
    pub monthly_rent: int,
    pub security_deposit: int,
    pub start_date: int,
    pub end_date: int,
    pub manager_signed: bool,
    pub tenant_signed: bool,
    pub manager_signature: Seq<u8>,
    pub tenant_signature: Seq<u8>,
    pub status: LeaseStatus,
    pub created_at: int,
    pub activated_at: int,
}

impl View for Lease {
    type V = LeaseView;

    open spec fn view(&self) -> LeaseView {
        LeaseView {
            lease_id: self.lease_id@,
            lease_hash: self.lease_hash@,
            manager_wallet: self.manager_wallet@,
            tenant_wallet: self.tenant_wallet@,
            monthly_rent: self.monthly_rent as int,
            security_deposit: self.security_deposit as int,
            start_date: self.start_date as int,
            end_date: self.end_date as int,
            manager_signed: self.manager_signed,
            tenant_signed: self.tenant_signed,
            manager_signature: self.manager_signature@,
            tenant_signature: self.tenant_signature@,
            status: self.status,
            created_at: self.created_at as int,
            activated_at: self.activated_at as int,
        }
    }
}

/// A signature field is set when some byte of it is non-zero; the all-zero
/// digest is the reserved "absent" value.
pub open spec fn sig_set(s: Seq<u8>) -> bool {
    exists|i: int| 0 <= i < s.len() && s[i] != 0
}

/// The all-zero signature placeholder.
pub open spec fn zero_sig() -> Seq<u8> {
    Seq::new(32, |i: int| 0u8)
}

/// Whether `signer` is one of the two parties of record.
pub open spec fn authorized(l: LeaseView, signer: Seq<u8>) -> bool {
    signer == l.manager_wallet || signer == l.tenant_wallet
}

impl LeaseView {
    /// Well-formedness of a lease record; established by creation and
    /// preserved by every operation.
    pub open spec fn wf(self) -> bool {
        &&& self.lease_id.len() <= 64
        &&& self.monthly_rent > 0
        &&& self.end_date > self.start_date
        &&& self.manager_wallet != self.tenant_wallet
        &&& (self.status == LeaseStatus::Active ==> self.manager_signed && self.tenant_signed)
        &&& (self.status == LeaseStatus::Pending ==> self.activated_at == 0)
        &&& (self.manager_signed <==> sig_set(self.manager_signature))
        &&& (self.tenant_signed <==> sig_set(self.tenant_signature))
    }

    /// The canonical external liveness check: the agreement is in force.
    pub open spec fn verified(self) -> bool {
        self.manager_signed && self.tenant_signed && self.status == LeaseStatus::Active
    }
}

/// What creating a lease yields: the first failing validation, or the fresh
/// record with status `Pending`, both parties unsigned, and the caller of
/// record as manager.
pub open spec fn init_spec(
    lease_id: Seq<char>,
    lease_hash: Seq<u8>,
    manager_wallet: Seq<u8>,
    tenant_wallet: Seq<u8>,
    monthly_rent: int,
    security_deposit: int,
    start_date: int,
    end_date: int,
    now: int,
) -> Result<LeaseView, LeaseError> {
    if lease_id.len() > 64 {
        Err(LeaseError::LeaseIdTooLong)
    } else if monthly_rent <= 0 {
        Err(LeaseError::InvalidRentAmount)
    } else if end_date <= start_date {
        Err(LeaseError::InvalidDateRange)
    } else {
        Ok(
            LeaseView {
                lease_id: lease_id,
                lease_hash: lease_hash,
                manager_wallet: manager_wallet,
                tenant_wallet: tenant_wallet,
                monthly_rent: monthly_rent,
                security_deposit: security_deposit,
                start_date: start_date,
                end_date: end_date,
                manager_signed: false,
                tenant_signed: false,
                manager_signature: zero_sig(),
                tenant_signature: zero_sig(),
                status: LeaseStatus::Pending,
                created_at: now,
                activated_at: 0,
            },
        )
    }
}

/// What signing does to a record: records the matched party's signature,
/// and activates the lease in the same step when it completes the pair.
pub open spec fn sign_spec(
    l: LeaseView,
    signer: Seq<u8>,
    signature_hash: Seq<u8>,
    now: int,
) -> Result<LeaseView, LeaseError> {
    if l.status != LeaseStatus::Pending {
        Err(LeaseError::LeaseNotPending)
    } else if signer == l.manager_wallet {
        if l.manager_signed {
            Err(LeaseError::AlreadySigned)
        } else if l.tenant_signed {
            Ok(
                LeaseView {
                    manager_signed: true,
                    manager_signature: signature_hash,
                    status: LeaseStatus::Active,
                    activated_at: now,
                    ..l
                },
            )
        } else {
            Ok(LeaseView { manager_signed: true, manager_signature: signature_hash, ..l })
        }
    } else if signer == l.tenant_wallet {
        if l.tenant_signed {
            Err(LeaseError::AlreadySigned)
        } else if l.manager_signed {
            Ok(
                LeaseView {
                    tenant_signed: true,
                    tenant_signature: signature_hash,
                    status: LeaseStatus::Active,
                    activated_at: now,
                    ..l
                },
            )
        } else {
            Ok(LeaseView { tenant_signed: true, tenant_signature: signature_hash, ..l })
        }
    } else {
        Err(LeaseError::UnauthorizedSigner)
    }
}

/// The status transition table: only `Active -> Terminated` and, once the
/// end time has been reached, `Active -> Completed` are allowed.
pub open spec fn update_status_spec(
    l: LeaseView,
    signer: Seq<u8>,
    new_status: LeaseStatus,
    now: int,
) -> Result<LeaseView, LeaseError> {
    if !authorized(l, signer) {
        Err(LeaseError::UnauthorizedSigner)
    } else if l.status == LeaseStatus::Active && new_status == LeaseStatus::Terminated {
        Ok(LeaseView { status: LeaseStatus::Terminated, ..l })
    } else if l.status == LeaseStatus::Active && new_status == LeaseStatus::Completed {
        if now >= l.end_date {
            Ok(LeaseView { status: LeaseStatus::Completed, ..l })
        } else {
            Err(LeaseError::LeaseNotEnded)
        }
    } else {
        Err(LeaseError::InvalidStatusTransition)
    }
}

/// Maps a concrete operation result onto the model, so that contracts can
/// equate it with the spec-level transition.
pub open spec fn to_view_result(r: Result<Lease, LeaseError>) -> Result<LeaseView, LeaseError> {
    match r {
        Ok(l) => Ok(l@),
        Err(e) => Err(e),
    }
}

/// Byte-for-byte equality of two 32-byte values.
pub fn bytes32_eq(a: &[u8; 32], b: &[u8; 32]) -> (r: bool)
    ensures
        r == (a@ == b@),
{
    let mut i: usize = 0;
    while i < 32
        invariant
            i <= 32,
            forall|j: int| 0 <= j < i ==> a@[j] == b@[j],
        decreases 32 - i,
    {
        if a[i] != b[i] {
            return false;
        }
        i += 1;
    }
    proof {
        assert(a@ =~= b@);
    }
    true
}

/// Whether a 32-byte digest is set, that is, not all zero.
pub fn signature_is_set(s: &[u8; 32]) -> (r: bool)
    ensures
        r == sig_set(s@),
{
    let mut i: usize = 0;
    while i < 32
        invariant
            i <= 32,
            forall|j: int| 0 <= j < i ==> s@[j] == 0,
        decreases 32 - i,
    {
        if s[i] != 0 {
            return true;
        }
        i += 1;
    }
    false
}

/// Validates the inputs of a new lease — identifier length, rent, date
/// range, in that order, first failure winning — and builds the fresh
/// record: status `Pending`, both parties unsigned, both signature fields
/// zero. The caller acts as manager; the counter-party is the tenant.
pub fn initialize_lease(
    lease_id: String,
    lease_hash: [u8; 32],
    manager_wallet: [u8; 32],
    tenant_wallet: [u8; 32],
    monthly_rent: u64,
    security_deposit: u64,
    start_date: i64,
    end_date: i64,
    now: i64,
) -> (r: Result<Lease, LeaseError>)
    requires
        manager_wallet@ != tenant_wallet@,
    ensures
        to_view_result(r) == init_spec(
            lease_id@,
            lease_hash@,
            manager_wallet@,
            tenant_wallet@,
            monthly_rent as int,
            security_deposit as int,
            start_date as int,
            end_date as int,
            now as int,
        ),
        r matches Ok(l) ==> l@.wf(),
{
    if lease_id.as_str().unicode_len() > 64 {
        return Err(LeaseError::LeaseIdTooLong);
    }
    if monthly_rent == 0 {
        return Err(LeaseError::InvalidRentAmount);
    }
    if end_date <= start_date {
        return Err(LeaseError::InvalidDateRange);
    }
    let lease = Lease {
        lease_id,
        lease_hash,
        manager_wallet,
        tenant_wallet,
        monthly_rent,
        security_deposit,
        start_date,
        end_date,
        manager_signed: false,
        tenant_signed: false,
        manager_signature: [0; 32],
        tenant_signature: [0; 32],
        status: LeaseStatus::Pending,
        created_at: now,
        activated_at: 0,
    };
    proof {
        assert(lease.manager_signature@ =~= zero_sig());
        assert(lease.tenant_signature@ =~= zero_sig());
        assert(!sig_set(zero_sig()));
    }
    Ok(lease)
}

impl Lease {
    /// Records the signature of whichever party `signer` is. If the second
    /// signature completes the pair, the lease becomes `Active` in the same
    /// step, with `activated_at = now`. On any error the record is left
    /// unchanged.
    pub fn sign_lease(&mut self, signer: &[u8; 32], signature_hash: [u8; 32], now: i64) -> (r:
        Result<(), LeaseError>)
        requires
            old(self)@.wf(),
            sig_set(signature_hash@),
        ensures
            final(self)@.wf(),
            (match r {
                Ok(_) => sign_spec(old(self)@, signer@, signature_hash@, now as int) == Ok::<
                    LeaseView,
                    LeaseError,
                >(final(self)@),
                Err(e) => sign_spec(old(self)@, signer@, signature_hash@, now as int) == Err::<
                    LeaseView,
                    LeaseError,
                >(e) && *final(self) == *old(self),
            }),
    {
        if !matches!(self.status, LeaseStatus::Pending) {
            return Err(LeaseError::LeaseNotPending);
        }
        if bytes32_eq(signer, &self.manager_wallet) {
            if self.manager_signed {
                return Err(LeaseError::AlreadySigned);
            }
            self.manager_signed = true;
            self.manager_signature = signature_hash;
            if self.tenant_signed {
                self.status = LeaseStatus::Active;
                self.activated_at = now;
            }
            Ok(())
        } else if bytes32_eq(signer, &self.tenant_wallet) {
            if self.tenant_signed {
                return Err(LeaseError::AlreadySigned);
            }
            self.tenant_signed = true;
            self.tenant_signature = signature_hash;
            if self.manager_signed {
                self.status = LeaseStatus::Active;
                self.activated_at = now;
            }
            Ok(())
        } else {
            Err(LeaseError::UnauthorizedSigner)
        }
    }

    /// Moves the lease along the transition table: either party may
    /// terminate an active lease at any time, or complete it once the end
    /// time has been reached. On any error the record is left unchanged.
    pub fn update_lease_status(&mut self, signer: &[u8; 32], new_status: LeaseStatus, now: i64) -> (r:
        Result<(), LeaseError>)
        requires
            old(self)@.wf(),
        ensures
            final(self)@.wf(),
            (match r {
                Ok(_) => update_status_spec(old(self)@, signer@, new_status, now as int) == Ok::<
                    LeaseView,
                    LeaseError,
                >(final(self)@),
                Err(e) => update_status_spec(old(self)@, signer@, new_status, now as int) == Err::<
                    LeaseView,
                    LeaseError,
                >(e) && *final(self) == *old(self),
            }),
    {
        let is_manager = bytes32_eq(signer, &self.manager_wallet);
        let is_tenant = bytes32_eq(signer, &self.tenant_wallet);
        if !is_manager && !is_tenant {
            return Err(LeaseError::UnauthorizedSigner);
        }
        match (self.status, new_status) {
            (LeaseStatus::Active, LeaseStatus::Terminated) => {
                self.status = LeaseStatus::Terminated;
                Ok(())
            },
            (LeaseStatus::Active, LeaseStatus::Completed) => {
                if now < self.end_date {
                    return Err(LeaseError::LeaseNotEnded);
                }
                self.status = LeaseStatus::Completed;
                Ok(())
            },
            _ => Err(LeaseError::InvalidStatusTransition),
        }
    }

    /// True iff both parties have signed and the lease is `Active`: the
    /// read-only verification predicate, callable by anyone.
    pub fn verify_lease(&self) -> (r: bool)
        ensures
            r == self@.verified(),
    {
        self.manager_signed && self.tenant_signed && matches!(self.status, LeaseStatus::Active)
    }
}

} // verus!
