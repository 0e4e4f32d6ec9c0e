//! Laws of the lease state machine, proved once and for all inputs: what a
//! fresh record looks like, how the dual-signature protocol activates it,
//! who may act on it, and which transitions the table forbids.

use crate::lease::{
    authorized, init_spec, sig_set, sign_spec, update_status_spec, LeaseError, LeaseStatus,
    LeaseView,
};
use crate::store::{
    lease_address_of, store_contains, store_create_spec, store_verify_spec, StoreError,
};
use vstd::prelude::*;

verus! {

/// A freshly created lease never verifies: it starts `Pending` with both
/// signature flags false, so the verification predicate is false on it.
pub proof fn lemma_initialize_then_verify_false(
    lease_id: Seq<char>,
    lease_hash: Seq<u8>,
    manager_wallet: Seq<u8>,
    tenant_wallet: Seq<u8>,
    monthly_rent: int,
    security_deposit: int,
    start_date: int,
    end_date: int,
    now: int,
)
    ensures
        (init_spec(
            lease_id,
            lease_hash,
            manager_wallet,
            tenant_wallet,
            monthly_rent,
            security_deposit,
            start_date,
            end_date,
            now,
        ) matches Ok(l) ==> !l.verified()),
{
}

/// Creating a record and immediately verifying it through the store
/// returns false: the fresh record sits at the derived address, unsigned.
pub proof fn lemma_create_then_verify_false(
    s: Seq<(Seq<u8>, LeaseView)>,
    lease_id: Seq<char>,
    lease_hash: Seq<u8>,
    manager_wallet: Seq<u8>,
    tenant_wallet: Seq<u8>,
    monthly_rent: int,
    security_deposit: int,
    start_date: int,
    end_date: int,
    now: int,
)
    requires
        store_create_spec(
            s,
            lease_id,
            lease_hash,
            manager_wallet,
            tenant_wallet,
            monthly_rent,
            security_deposit,
            start_date,
            end_date,
            now,
        ).1 is Ok,
    ensures
        store_verify_spec(
            store_create_spec(
                s,
                lease_id,
                lease_hash,
                manager_wallet,
                tenant_wallet,
                monthly_rent,
                security_deposit,
                start_date,
                end_date,
                now,
            ).0,
            lease_id,
        ) == Ok::<bool, StoreError>(false),
{
    let addr = lease_address_of(lease_id);
    let post = store_create_spec(
        s,
        lease_id,
        lease_hash,
        manager_wallet,
        tenant_wallet,
        monthly_rent,
        security_deposit,
        start_date,
        end_date,
        now,
    ).0;
    assert(post[s.len() as int].0 == addr);
    assert(store_contains(post, addr));
    let j = choose|i: int| 0 <= i < post.len() && post[i].0 == addr;
    if j < s.len() {
        assert(s[j].0 == addr);
    }
}

/// Signing as manager then as tenant, or in the reverse order, succeeds
/// on a fresh record and activates it: afterwards verification returns
/// true, and the activation time is the time of the second signature.
pub proof fn lemma_sign_both_parties_verifies(
    l: LeaseView,
    sig_a: Seq<u8>,
    sig_b: Seq<u8>,
    t1: int,
    t2: int,
)
    requires
        l.wf(),
        l.status == LeaseStatus::Pending,
        !l.manager_signed,
        !l.tenant_signed,
    ensures
        (sign_spec(l, l.manager_wallet, sig_a, t1) matches Ok(l1) && sign_spec(
            l1,
            l.tenant_wallet,
            sig_b,
            t2,
        ) matches Ok(l2) && l2.verified() && l2.activated_at == t2),
        (sign_spec(l, l.tenant_wallet, sig_a, t1) matches Ok(l1) && sign_spec(
            l1,
            l.manager_wallet,
            sig_b,
            t2,
        ) matches Ok(l2) && l2.verified() && l2.activated_at == t2),
{
}

/// Signing twice as the same party is rejected with `AlreadySigned` while
/// the counter-party has not signed yet; by the operation's contract a
/// rejected signing leaves the record unchanged.
pub proof fn lemma_sign_twice_rejected(
    l: LeaseView,
    sig_a: Seq<u8>,
    sig_b: Seq<u8>,
    t1: int,
    t2: int,
)
    requires
        l.wf(),
        l.status == LeaseStatus::Pending,
        !l.manager_signed,
        !l.tenant_signed,
    ensures
        (sign_spec(l, l.manager_wallet, sig_a, t1) matches Ok(l1) ==> sign_spec(
            l1,
            l.manager_wallet,
            sig_b,
            t2,
        ) == Err::<LeaseView, LeaseError>(LeaseError::AlreadySigned)),
        (sign_spec(l, l.tenant_wallet, sig_a, t1) matches Ok(l1) ==> sign_spec(
            l1,
            l.tenant_wallet,
            sig_b,
            t2,
        ) == Err::<LeaseView, LeaseError>(LeaseError::AlreadySigned)),
{
}

/// On a pending record, signing by an identity that is neither manager nor
/// tenant fails with `UnauthorizedSigner`; by the operation's contract the
/// record is then unchanged. (On a non-pending record any signing fails
/// earlier, with `LeaseNotPending`.)
pub proof fn lemma_sign_unauthorized(l: LeaseView, signer: Seq<u8>, sig: Seq<u8>, now: int)
    requires
        l.status == LeaseStatus::Pending,
        signer != l.manager_wallet,
        signer != l.tenant_wallet,
    ensures
        sign_spec(l, signer, sig, now) == Err::<LeaseView, LeaseError>(
            LeaseError::UnauthorizedSigner,
        ),
{
}

/// Completion is time-gated: on an active record, either party's request
/// to complete fails with `LeaseNotEnded` before the end time, and
/// succeeds at or after it, changing the status alone.
pub proof fn lemma_complete_gated_by_end_time(l: LeaseView, signer: Seq<u8>, now: int)
    requires
        l.wf(),
        authorized(l, signer),
        l.status == LeaseStatus::Active,
    ensures
        now < l.end_date ==> update_status_spec(l, signer, LeaseStatus::Completed, now) == Err::<
            LeaseView,
            LeaseError,
        >(LeaseError::LeaseNotEnded),
        now >= l.end_date ==> update_status_spec(l, signer, LeaseStatus::Completed, now) == Ok::<
            LeaseView,
            LeaseError,
        >(LeaseView { status: LeaseStatus::Completed, ..l }),
{
}

/// No status change ever leaves `Pending`, and none leaves a terminal
/// state: from `Pending`, `Terminated` or `Completed`, every requested
/// target fails with `InvalidStatusTransition`, whoever asks.
pub proof fn lemma_no_exit_from_pending_or_terminal(
    l: LeaseView,
    signer: Seq<u8>,
    new_status: LeaseStatus,
    now: int,
)
    requires
        authorized(l, signer),
        l.status != LeaseStatus::Active,
    ensures
        update_status_spec(l, signer, new_status, now) == Err::<LeaseView, LeaseError>(
            LeaseError::InvalidStatusTransition,
        ),
{
}

/// On a well-formed record the verification predicate agrees with the
/// status alone: it is true exactly on `Active` records, since an `Active`
/// record always carries both signatures.
pub proof fn lemma_verified_iff_active(l: LeaseView)
    requires
        l.wf(),
    ensures
        l.verified() <==> l.status == LeaseStatus::Active,
{
}

/// A successful creation occupies the derived address of its identifier.
pub proof fn lemma_create_occupies_address(
    s: Seq<(Seq<u8>, LeaseView)>,
    lease_id: Seq<char>,
    lease_hash: Seq<u8>,
    manager_wallet: Seq<u8>,
    tenant_wallet: Seq<u8>,
    monthly_rent: int,
    security_deposit: int,
    start_date: int,
    end_date: int,
    now: int,
)
    requires
        store_create_spec(
            s,
            lease_id,
            lease_hash,
            manager_wallet,
            tenant_wallet,
            monthly_rent,
            security_deposit,
            start_date,
            end_date,
            now,
        ).1 is Ok,
    ensures
        store_contains(
            store_create_spec(
                s,
                lease_id,
                lease_hash,
                manager_wallet,
                tenant_wallet,
                monthly_rent,
                security_deposit,
                start_date,
                end_date,
                now,
            ).0,
            lease_address_of(lease_id),
        ),
{
    let post = store_create_spec(
        s,
        lease_id,
        lease_hash,
        manager_wallet,
        tenant_wallet,
        monthly_rent,
        security_deposit,
        start_date,
        end_date,
        now,
    ).0;
    assert(post[s.len() as int].0 == lease_address_of(lease_id));
}

/// Once the derived address of an identifier is occupied, creating under
/// the same identifier fails with `LeaseAlreadyExists` and changes
/// nothing, whatever the other fields of the second request are. Equal
/// identifiers always derive equal addresses, so two creations with the
/// same identifier can never both succeed.
pub proof fn lemma_second_create_collides(
    s: Seq<(Seq<u8>, LeaseView)>,
    lease_id: Seq<char>,
    lease_hash: Seq<u8>,
    manager_wallet: Seq<u8>,
    tenant_wallet: Seq<u8>,
    monthly_rent: int,
    security_deposit: int,
    start_date: int,
    end_date: int,
    now: int,
)
    requires
        store_contains(s, lease_address_of(lease_id)),
    ensures
        store_create_spec(
            s,
            lease_id,
            lease_hash,
            manager_wallet,
            tenant_wallet,
            monthly_rent,
            security_deposit,
            start_date,
            end_date,
            now,
        ) == (s, Err::<(), StoreError>(StoreError::LeaseAlreadyExists)),
{
}

/// Two creations under the same identifier can never both succeed: once
/// the first one has gone through, the second fails with
/// `LeaseAlreadyExists`, whatever its other fields hold.
pub proof fn lemma_two_creates_same_id(
    s: Seq<(Seq<u8>, LeaseView)>,
    lease_id: Seq<char>,
    lease_hash1: Seq<u8>,
    manager_wallet1: Seq<u8>,
    tenant_wallet1: Seq<u8>,
    monthly_rent1: int,
    security_deposit1: int,
    start_date1: int,
    end_date1: int,
    now1: int,
    lease_hash2: Seq<u8>,
    manager_wallet2: Seq<u8>,
    tenant_wallet2: Seq<u8>,
    monthly_rent2: int,
    security_deposit2: int,
    start_date2: int,
    end_date2: int,
    now2: int,
)
    requires
        store_create_spec(
            s,
            lease_id,
            lease_hash1,
            manager_wallet1,
            tenant_wallet1,
            monthly_rent1,
            security_deposit1,
            start_date1,
            end_date1,
            now1,
        ).1 is Ok,
    ensures
        store_create_spec(
            store_create_spec(
                s,
                lease_id,
                lease_hash1,
                manager_wallet1,
                tenant_wallet1,
                monthly_rent1,
                security_deposit1,
                start_date1,
                end_date1,
                now1,
            ).0,
            lease_id,
            lease_hash2,
            manager_wallet2,
            tenant_wallet2,
            monthly_rent2,
            security_deposit2,
            start_date2,
            end_date2,
            now2,
        ).1 == Err::<(), StoreError>(StoreError::LeaseAlreadyExists),
{
    lemma_create_occupies_address(
        s,
        lease_id,
        lease_hash1,
        manager_wallet1,
        tenant_wallet1,
        monthly_rent1,
        security_deposit1,
        start_date1,
        end_date1,
        now1,
    );
}

} // verus!
