//! The guarantees the state machine gives as a whole, each proved once and
//! for all over the registry's step functions.

use vstd::prelude::*;

use crate::errors::VaultError;
use crate::machine;
use crate::registry::{cancel_step, create_step, redirect_step, release_step, validate_step};
use crate::registry::{Payout, RegistryView};
use crate::vault::{Principal, VaultStatus, VaultView};

verus! {

/// `Active` is the only status from which any transition is reachable: a
/// vault in a terminal status refuses every transition attempt and its
/// record never changes. The rightful caller (the creator for cancellation,
/// the verifier for attestation) is told the status is at fault; redirects
/// and standalone releases are refused the same way for every caller.
pub proof fn lemma_terminal_states_are_frozen(
    r: RegistryView,
    vault_id: u32,
    caller: Principal,
    now: u64,
)
    requires
        r.vaults.contains_key(vault_id),
        r.vaults[vault_id].status.is_terminal(),
    ensures
        validate_step(r, vault_id, caller, now).0 == r,
        validate_step(r, vault_id, caller, now).1 is Err,
        release_step(r, vault_id).0 == r,
        release_step(r, vault_id).1 == Err::<bool, VaultError>(VaultError::InvalidState),
        redirect_step(r, vault_id, now).0 == r,
        redirect_step(r, vault_id, now).1 == Err::<bool, VaultError>(VaultError::InvalidState),
        cancel_step(r, vault_id, caller).0 == r,
        cancel_step(r, vault_id, caller).1 is Err,
        caller == r.vaults[vault_id].creator ==> cancel_step(r, vault_id, caller).1 == Err::<
            bool,
            VaultError,
        >(VaultError::InvalidState),
        r.vaults[vault_id].verifier == Some(caller) ==> validate_step(
            r,
            vault_id,
            caller,
            now,
        ).1 == Err::<bool, VaultError>(VaultError::InvalidState),
{
}

/// Cancellation succeeds exactly when the vault exists, the caller is its
/// creator, and it is still `Active`; each violated precondition yields its
/// own failure kind, checked in that order.
pub proof fn lemma_cancel_exact_conditions(r: RegistryView, vault_id: u32, caller: Principal)
    ensures
        cancel_step(r, vault_id, caller).1 is Ok <==> (r.vaults.contains_key(vault_id)
            && caller == r.vaults[vault_id].creator && r.vaults[vault_id].status
            == VaultStatus::Active),
        !r.vaults.contains_key(vault_id) ==> cancel_step(r, vault_id, caller).1 == Err::<
            bool,
            VaultError,
        >(VaultError::NotFound),
        r.vaults.contains_key(vault_id) && caller != r.vaults[vault_id].creator ==> cancel_step(
            r,
            vault_id,
            caller,
        ).1 == Err::<bool, VaultError>(VaultError::Unauthorized),
        r.vaults.contains_key(vault_id) && caller == r.vaults[vault_id].creator
            && r.vaults[vault_id].status != VaultStatus::Active ==> cancel_step(
            r,
            vault_id,
            caller,
        ).1 == Err::<bool, VaultError>(VaultError::InvalidState),
        cancel_step(r, vault_id, caller).1 is Err ==> cancel_step(r, vault_id, caller).0 == r,
{
}

/// A deadline sweep succeeds exactly when the vault exists, is `Active`,
/// and the supplied time has reached `end_timestamp`: one tick before the
/// deadline it is refused with the record untouched, at or after the
/// deadline it goes through.
pub proof fn lemma_redirect_deadline_boundary(r: RegistryView, vault_id: u32, now: u64)
    ensures
        redirect_step(r, vault_id, now).1 is Ok <==> (r.vaults.contains_key(vault_id)
            && r.vaults[vault_id].status == VaultStatus::Active && now
            >= r.vaults[vault_id].end_timestamp),
        r.vaults.contains_key(vault_id) && r.vaults[vault_id].status == VaultStatus::Active && now
            < r.vaults[vault_id].end_timestamp ==> redirect_step(r, vault_id, now) == (
            r,
            Err::<bool, VaultError>(VaultError::InvalidState),
        ),
        redirect_step(r, vault_id, now).1 is Err ==> redirect_step(r, vault_id, now).0 == r,
{
}

/// Only the vault's verifier may attest: any other caller — the creator
/// included — is refused as unauthorized with the record untouched, and a
/// vault without a verifier refuses every caller.
pub proof fn lemma_validate_requires_verifier(
    r: RegistryView,
    vault_id: u32,
    caller: Principal,
    now: u64,
)
    requires
        r.vaults.contains_key(vault_id),
        r.vaults[vault_id].verifier != Some(caller),
    ensures
        validate_step(r, vault_id, caller, now).0 == r,
        validate_step(r, vault_id, caller, now).1 == Err::<bool, VaultError>(
            VaultError::Unauthorized,
        ),
{
}

/// Round trip: a creation accepted by the registry stores, under the
/// identifier it returns, a record whose fields are exactly the inputs and
/// whose status is `Active`; the identifier is the counter's current value
/// and the counter advances past it, so no later creation reuses it.
pub proof fn lemma_create_then_get_round_trip(
    r: RegistryView,
    creator: Principal,
    amount: i128,
    start_timestamp: u64,
    end_timestamp: u64,
    milestone_hash: Seq<u8>,
    verifier: Option<Principal>,
    success_destination: Principal,
    failure_destination: Principal,
)
    requires
        machine::creation_inputs_ok(amount, start_timestamp, end_timestamp),
        r.next_id < u32::MAX,
    ensures
        ({
            let (r2, res) = create_step(
                r,
                creator,
                amount,
                start_timestamp,
                end_timestamp,
                milestone_hash,
                verifier,
                success_destination,
                failure_destination,
            );
            &&& res == Ok::<u32, VaultError>(r.next_id)
            &&& r2.vaults.contains_key(r.next_id)
            &&& r2.vaults[r.next_id] == (VaultView {
                creator,
                amount,
                start_timestamp,
                end_timestamp,
                milestone_hash,
                verifier,
                success_destination,
                failure_destination,
                status: VaultStatus::Active,
            })
            &&& r2.next_id == r.next_id + 1
            &&& r2.payouts == r.payouts
        }),
{
}

/// The deadline race is closed structurally: once `end_timestamp` is
/// reached, an `Active` vault can only leave along the failure path — the
/// verifier's attestation is refused while the permissionless sweep goes
/// through — so a late attestation can never race a redirect.
pub proof fn lemma_deadline_closes_validation(
    r: RegistryView,
    vault_id: u32,
    caller: Principal,
    now: u64,
)
    requires
        r.vaults.contains_key(vault_id),
        r.vaults[vault_id].status == VaultStatus::Active,
        now >= r.vaults[vault_id].end_timestamp,
    ensures
        validate_step(r, vault_id, caller, now).0 == r,
        validate_step(r, vault_id, caller, now).1 is Err,
        redirect_step(r, vault_id, now).1 == Ok::<bool, VaultError>(true),
{
}

/// Every stored record keeps a positive amount and a window whose start
/// lies strictly before its end.
pub open spec fn records_wf(r: RegistryView) -> bool {
    forall|id: u32| #[trigger] r.vaults.contains_key(id) ==> r.vaults[id].wf()
}

/// Every operation keeps the stored records well formed: creation only
/// accepts a positive amount and a non-empty window, and the transitions
/// change nothing but the status.
pub proof fn lemma_operations_preserve_well_formedness(
    r: RegistryView,
    vault_id: u32,
    caller: Principal,
    now: u64,
    creator: Principal,
    amount: i128,
    start_timestamp: u64,
    end_timestamp: u64,
    milestone_hash: Seq<u8>,
    verifier: Option<Principal>,
    success_destination: Principal,
    failure_destination: Principal,
)
    requires
        records_wf(r),
    ensures
        records_wf(
            create_step(
                r,
                creator,
                amount,
                start_timestamp,
                end_timestamp,
                milestone_hash,
                verifier,
                success_destination,
                failure_destination,
            ).0,
        ),
        records_wf(validate_step(r, vault_id, caller, now).0),
        records_wf(release_step(r, vault_id).0),
        records_wf(redirect_step(r, vault_id, now).0),
        records_wf(cancel_step(r, vault_id, caller).0),
{
}

/// Where a terminal vault's funds went: completion pays the success
/// destination, a deadline failure pays the failure destination, and a
/// cancellation returns the amount to the creator. (An `Active` vault has
/// no payout; its arm is never relied on.)
pub open spec fn payout_target(v: VaultView) -> Principal {
    match v.status {
        VaultStatus::Active => v.creator,
        VaultStatus::Completed => v.success_destination,
        VaultStatus::Failed => v.failure_destination,
        VaultStatus::Cancelled => v.creator,
    }
}

/// A payout order is accounted for: it names a stored vault that has
/// reached a terminal status, moves exactly that vault's amount, and pays
/// the destination its terminal status dictates.
pub open spec fn payout_matches(r: RegistryView, p: Payout) -> bool {
    &&& r.vaults.contains_key(p.vault_id)
    &&& r.vaults[p.vault_id].status.is_terminal()
    &&& p.amount == r.vaults[p.vault_id].amount
    &&& p.to == payout_target(r.vaults[p.vault_id])
}

/// The custody invariant: a vault in a terminal status has paid out exactly
/// once, to the destination its status dictates, and an `Active` vault has
/// paid out nothing — so funds can neither leave twice nor leave a vault
/// that is still open.
pub open spec fn custody_consistent(r: RegistryView) -> bool {
    &&& forall|i: int, j: int|
        0 <= i < r.payouts.len() && 0 <= j < r.payouts.len() && i != j ==> (
        #[trigger] r.payouts[i]).vault_id != (#[trigger] r.payouts[j]).vault_id
    &&& forall|i: int| 0 <= i < r.payouts.len() ==> payout_matches(r, #[trigger] r.payouts[i])
    &&& forall|id: u32|
        (#[trigger] r.vaults.contains_key(id)) && r.vaults[id].status.is_terminal()
            ==> exists|i: int| 0 <= i < r.payouts.len() && (#[trigger] r.payouts[i]).vault_id == id
}

/// Settling one `Active` vault — writing a terminal status and committing
/// the matching payout in the same step — keeps custody consistent.
proof fn lemma_settlement_preserves_custody(
    r: RegistryView,
    vault_id: u32,
    status: VaultStatus,
    r2: RegistryView,
)
    requires
        custody_consistent(r),
        r.vaults.contains_key(vault_id),
        r.vaults[vault_id].status == VaultStatus::Active,
        status.is_terminal(),
        r2.vaults == r.vaults.insert(vault_id, r.vaults[vault_id].with_status(status)),
        r2.payouts == r.payouts.push(
            Payout {
                vault_id,
                to: payout_target(r.vaults[vault_id].with_status(status)),
                amount: r.vaults[vault_id].amount,
            },
        ),
    ensures
        custody_consistent(r2),
{
    let n = r.payouts.len() as int;
    // No earlier payout names this vault: it was still `Active`.
    assert forall|i: int| 0 <= i < n implies (#[trigger] r.payouts[i]).vault_id != vault_id by {
        assert(payout_matches(r, r.payouts[i]));
    }
    assert forall|i: int| 0 <= i < r2.payouts.len() implies payout_matches(
        r2,
        #[trigger] r2.payouts[i],
    ) by {
        if i < n {
            assert(payout_matches(r, r.payouts[i]));
            assert(r2.payouts[i] == r.payouts[i]);
        } else {
            assert(r2.payouts[i] == r2.payouts[n]);
        }
    }
    assert forall|id: u32|
        (#[trigger] r2.vaults.contains_key(id)) && r2.vaults[id].status.is_terminal() implies exists|
        i: int,
    | 0 <= i < r2.payouts.len() && (#[trigger] r2.payouts[i]).vault_id == id by {
        if id == vault_id {
            assert(r2.payouts[n].vault_id == id);
        } else {
            assert(r.vaults.contains_key(id) && r.vaults[id].status.is_terminal());
            let i = choose|i: int| 0 <= i < n && (#[trigger] r.payouts[i]).vault_id == id;
            assert(r2.payouts[i].vault_id == id);
        }
    }
}

/// Creating a vault under a fresh identifier keeps custody consistent: the
/// new record is `Active` and no payout is committed for it.
pub proof fn lemma_create_preserves_custody(
    r: RegistryView,
    creator: Principal,
    amount: i128,
    start_timestamp: u64,
    end_timestamp: u64,
    milestone_hash: Seq<u8>,
    verifier: Option<Principal>,
    success_destination: Principal,
    failure_destination: Principal,
)
    requires
        custody_consistent(r),
        !r.vaults.contains_key(r.next_id),
    ensures
        custody_consistent(
            create_step(
                r,
                creator,
                amount,
                start_timestamp,
                end_timestamp,
                milestone_hash,
                verifier,
                success_destination,
                failure_destination,
            ).0,
        ),
{
    let r2 = create_step(
        r,
        creator,
        amount,
        start_timestamp,
        end_timestamp,
        milestone_hash,
        verifier,
        success_destination,
        failure_destination,
    ).0;
    if machine::creation_inputs_ok(amount, start_timestamp, end_timestamp) {
        assert forall|i: int| 0 <= i < r2.payouts.len() implies payout_matches(
            r2,
            #[trigger] r2.payouts[i],
        ) by {
            assert(payout_matches(r, r.payouts[i]));
        }
        assert forall|id: u32|
            (#[trigger] r2.vaults.contains_key(id)) && r2.vaults[id].status.is_terminal() implies exists|
            i: int,
        | 0 <= i < r2.payouts.len() && (#[trigger] r2.payouts[i]).vault_id == id by {
            assert(id != r.next_id);
            assert(r.vaults.contains_key(id) && r.vaults[id].status.is_terminal());
        }
    }
}

/// A milestone attestation keeps custody consistent.
pub proof fn lemma_validate_preserves_custody(
    r: RegistryView,
    vault_id: u32,
    caller: Principal,
    now: u64,
)
    requires
        custody_consistent(r),
    ensures
        custody_consistent(validate_step(r, vault_id, caller, now).0),
{
    if validate_step(r, vault_id, caller, now).1 is Ok {
        lemma_settlement_preserves_custody(
            r,
            vault_id,
            VaultStatus::Completed,
            validate_step(r, vault_id, caller, now).0,
        );
    }
}

/// A standalone release keeps custody consistent: it never changes anything.
pub proof fn lemma_release_preserves_custody(r: RegistryView, vault_id: u32)
    requires
        custody_consistent(r),
    ensures
        custody_consistent(release_step(r, vault_id).0),
{
}

/// A deadline sweep keeps custody consistent.
pub proof fn lemma_redirect_preserves_custody(r: RegistryView, vault_id: u32, now: u64)
    requires
        custody_consistent(r),
    ensures
        custody_consistent(redirect_step(r, vault_id, now).0),
{
    if redirect_step(r, vault_id, now).1 is Ok {
        lemma_settlement_preserves_custody(
            r,
            vault_id,
            VaultStatus::Failed,
            redirect_step(r, vault_id, now).0,
        );
    }
}

/// A cancellation keeps custody consistent.
pub proof fn lemma_cancel_preserves_custody(r: RegistryView, vault_id: u32, caller: Principal)
    requires
        custody_consistent(r),
    ensures
        custody_consistent(cancel_step(r, vault_id, caller).0),
{
    if cancel_step(r, vault_id, caller).1 is Ok {
        lemma_settlement_preserves_custody(
            r,
            vault_id,
            VaultStatus::Cancelled,
            cancel_step(r, vault_id, caller).0,
        );
    }
}

/// Every stored identifier lies below the allocation counter, so the next
/// identifier the counter hands out can never collide with — and silently
/// overwrite — an existing record.
pub open spec fn ids_bounded(r: RegistryView) -> bool {
    forall|id: u32| #[trigger] r.vaults.contains_key(id) ==> id < r.next_id
}

/// Everything that holds of a registry driven only through its production
/// operations: records stay well formed, identifiers stay below the
/// counter, and custody stays consistent.
pub open spec fn registry_invariant(r: RegistryView) -> bool {
    &&& records_wf(r)
    &&& ids_bounded(r)
    &&& custody_consistent(r)
}

/// The empty registry satisfies the invariant.
pub proof fn lemma_empty_registry_invariant(r: RegistryView)
    requires
        r.vaults == Map::<u32, VaultView>::empty(),
        r.payouts == Seq::<Payout>::empty(),
    ensures
        registry_invariant(r),
{
}

/// Each operation preserves the registry invariant, so it holds of every
/// state reachable from the empty registry through the production
/// operations. In particular a creation can never overwrite a record and a
/// vault's funds can never be paid out twice or while it is still open.
pub proof fn lemma_operations_preserve_invariant(
    r: RegistryView,
    vault_id: u32,
    caller: Principal,
    now: u64,
    creator: Principal,
    amount: i128,
    start_timestamp: u64,
    end_timestamp: u64,
    milestone_hash: Seq<u8>,
    verifier: Option<Principal>,
    success_destination: Principal,
    failure_destination: Principal,
)
    requires
        registry_invariant(r),
    ensures
        r.next_id < u32::MAX ==> registry_invariant(
            create_step(
                r,
                creator,
                amount,
                start_timestamp,
                end_timestamp,
                milestone_hash,
                verifier,
                success_destination,
                failure_destination,
            ).0,
        ),
        registry_invariant(validate_step(r, vault_id, caller, now).0),
        registry_invariant(release_step(r, vault_id).0),
        registry_invariant(redirect_step(r, vault_id, now).0),
        registry_invariant(cancel_step(r, vault_id, caller).0),
{
    lemma_operations_preserve_well_formedness(
        r,
        vault_id,
        caller,
        now,
        creator,
        amount,
        start_timestamp,
        end_timestamp,
        milestone_hash,
        verifier,
        success_destination,
        failure_destination,
    );
    if r.next_id < u32::MAX {
        lemma_create_preserves_custody(
            r,
            creator,
            amount,
            start_timestamp,
            end_timestamp,
            milestone_hash,
            verifier,
            success_destination,
            failure_destination,
        );
    }
    lemma_validate_preserves_custody(r, vault_id, caller, now);
    lemma_release_preserves_custody(r, vault_id);
    lemma_redirect_preserves_custody(r, vault_id, now);
    lemma_cancel_preserves_custody(r, vault_id, caller);
}

/// One request made of the registry, with the values the host would hand
/// in: the arguments of the matching operation.
pub enum RegistryOp {
    Create {
        creator: Principal,
        amount: i128,
        start_timestamp: u64,
        end_timestamp: u64,
        milestone_hash: Seq<u8>,
        verifier: Option<Principal>,
        success_destination: Principal,
        failure_destination: Principal,
    },
    Validate { vault_id: u32, caller: Principal, now: u64 },
    Release { vault_id: u32 },
    Redirect { vault_id: u32, now: u64 },
    Cancel { vault_id: u32, caller: Principal },
}

/// The registry before anything has happened.
pub open spec fn empty_registry() -> RegistryView {
    RegistryView { vaults: Map::empty(), next_id: 0u32, payouts: Seq::empty() }
}

/// The state after one request. A creation that finds the identifier space
/// exhausted is not served (the executable operation refuses to run there),
/// so the state is unchanged.
pub open spec fn apply_op(r: RegistryView, op: RegistryOp) -> RegistryView {
    match op {
        RegistryOp::Create {
            creator,
            amount,
            start_timestamp,
            end_timestamp,
            milestone_hash,
            verifier,
            success_destination,
            failure_destination,
        } => if r.next_id < u32::MAX {
            create_step(
                r,
                creator,
                amount,
                start_timestamp,
                end_timestamp,
                milestone_hash,
                verifier,
                success_destination,
                failure_destination,
            ).0
        } else {
            r
        },
        RegistryOp::Validate { vault_id, caller, now } => validate_step(
            r,
            vault_id,
            caller,
            now,
        ).0,
        RegistryOp::Release { vault_id } => release_step(r, vault_id).0,
        RegistryOp::Redirect { vault_id, now } => redirect_step(r, vault_id, now).0,
        RegistryOp::Cancel { vault_id, caller } => cancel_step(r, vault_id, caller).0,
    }
}

/// The state after a whole history of requests, served in order against the
/// empty registry.
pub open spec fn run_ops(ops: Seq<RegistryOp>) -> RegistryView
    decreases ops.len(),
{
    if ops.len() == 0 {
        empty_registry()
    } else {
        apply_op(run_ops(ops.drop_last()), ops.last())
    }
}

/// The registry invariant holds in every state reachable through the
/// production operations, whatever the history: no history can leave a
/// malformed record, a reusable identifier, an unpaid terminal vault, a
/// double payout, or a payout for an open vault.
pub proof fn lemma_invariant_holds_in_every_reachable_state(ops: Seq<RegistryOp>)
    ensures
        registry_invariant(run_ops(ops)),
    decreases ops.len(),
{
    if ops.len() == 0 {
        lemma_empty_registry_invariant(empty_registry());
    } else {
        let prev = run_ops(ops.drop_last());
        lemma_invariant_holds_in_every_reachable_state(ops.drop_last());
        let anyone = Principal { id: 0 };
        match ops.last() {
            RegistryOp::Create {
                creator,
                amount,
                start_timestamp,
                end_timestamp,
                milestone_hash,
                verifier,
                success_destination,
                failure_destination,
            } => {
                lemma_operations_preserve_invariant(
                    prev,
                    0u32,
                    anyone,
                    0u64,
                    creator,
                    amount,
                    start_timestamp,
                    end_timestamp,
                    milestone_hash,
                    verifier,
                    success_destination,
                    failure_destination,
                );
            },
            RegistryOp::Validate { vault_id, caller, now } => {
                lemma_operations_preserve_invariant(
                    prev,
                    vault_id,
                    caller,
                    now,
                    anyone,
                    0i128,
                    0u64,
                    0u64,
                    Seq::empty(),
                    None,
                    anyone,
                    anyone,
                );
            },
            RegistryOp::Release { vault_id } => {
                lemma_operations_preserve_invariant(
                    prev,
                    vault_id,
                    anyone,
                    0u64,
                    anyone,
                    0i128,
                    0u64,
                    0u64,
                    Seq::empty(),
                    None,
                    anyone,
                    anyone,
                );
            },
            RegistryOp::Redirect { vault_id, now } => {
                lemma_operations_preserve_invariant(
                    prev,
                    vault_id,
                    anyone,
                    now,
                    anyone,
                    0i128,
                    0u64,
                    0u64,
                    Seq::empty(),
                    None,
                    anyone,
                    anyone,
                );
            },
            RegistryOp::Cancel { vault_id, caller } => {
                lemma_operations_preserve_invariant(
                    prev,
                    vault_id,
                    caller,
                    0u64,
                    anyone,
                    0i128,
                    0u64,
                    0u64,
                    Seq::empty(),
                    None,
                    anyone,
                    anyone,
                );
            },
        }
    }
}

} // verus!
