//! The vault registry: the durable record store, the monotonic identifier
//! counter, and the operations that run one atomic transition per call.
//!
//! Funds never move inside the library; each fund-moving transition instead
//! appends one `Payout` order to the registry's ledger, and the host settles
//! the order with the same atomicity it gives the record write. The model
//! therefore shows exactly which transfer each transition commits to.

use std::collections::HashMap;

use vstd::prelude::*;

use crate::errors::VaultError;
use crate::machine;
use crate::vault::{Principal, ProductivityVault, VaultStatus, VaultView};

verus! {

broadcast use vstd::std_specs::hash::group_hash_axioms;

/// One committed transfer order: move `amount` out of custody to `to`, on
/// behalf of vault `vault_id`.
#[derive(Clone, Copy, Debug, PartialEq, Eq, Structural)]
pub struct Payout {
    pub vault_id: u32,
    pub to: Principal,
    pub amount: i128,
}

/// Mathematical model of the whole registry: the stored records, the next
/// identifier to hand out, and every transfer order committed so far.
#[verifier::ext_equal]
pub struct RegistryView {
    pub vaults: Map<u32, VaultView>,
    pub next_id: u32,
    pub payouts: Seq<Payout>,
}

/// The vault contract state: record store, identifier counter, payout
/// ledger.
pub struct DisciplrVault {
    store: HashMap<u32, ProductivityVault>,
    next_id: u32,
    payouts: Vec<Payout>,
}

/// The record store, seen as a map of models.
pub open spec fn views_of(m: Map<u32, ProductivityVault>) -> Map<u32, VaultView> {
    m.map_values(|v: ProductivityVault| v@)
}

pub proof fn lemma_views_of_empty()
    ensures
        views_of(Map::empty()) == Map::<u32, VaultView>::empty(),
{
    assert(views_of(Map::empty()) =~= Map::<u32, VaultView>::empty());
}

pub proof fn lemma_views_of_insert(m: Map<u32, ProductivityVault>, k: u32, v: ProductivityVault)
    ensures
        views_of(m.insert(k, v)) == views_of(m).insert(k, v@),
{
    assert(views_of(m.insert(k, v)) =~= views_of(m).insert(k, v@));
}

/// What one creation request does to the registry: on acceptable inputs,
/// the next identifier is allocated and an `Active` record with exactly the
/// given fields is stored; otherwise nothing changes and the request is
/// refused as invalid input.
pub open spec fn create_step(
    r: RegistryView,
    creator: Principal,
    amount: i128,
    start_timestamp: u64,
    end_timestamp: u64,
    milestone_hash: Seq<u8>,
    verifier: Option<Principal>,
    success_destination: Principal,
    failure_destination: Principal,
) -> (RegistryView, Result<u32, VaultError>) {
    if !machine::creation_inputs_ok(amount, start_timestamp, end_timestamp) {
        (r, Err(VaultError::InvalidInput))
    } else {
        let v = VaultView {
            creator,
            amount,
            start_timestamp,
            end_timestamp,
            milestone_hash,
            verifier,
            success_destination,
            failure_destination,
            status: VaultStatus::Active,
        };
        (
            RegistryView {
                vaults: r.vaults.insert(r.next_id, v),
                next_id: (r.next_id + 1) as u32,
                payouts: r.payouts,
            },
            Ok(r.next_id),
        )
    }
}

/// What one attestation request does: on the verifier's timely call against
/// an `Active` record, the record completes and one payout to its success
/// destination is committed; otherwise nothing changes.
pub open spec fn validate_step(r: RegistryView, vault_id: u32, caller: Principal, now: u64) -> (
    RegistryView,
    Result<bool, VaultError>,
) {
    if !r.vaults.contains_key(vault_id) {
        (r, Err(VaultError::NotFound))
    } else {
        let v = r.vaults[vault_id];
        match machine::validate_check(v, caller, now) {
            Err(e) => (r, Err(e)),
            Ok(_) => (
                RegistryView {
                    vaults: r.vaults.insert(vault_id, v.with_status(VaultStatus::Completed)),
                    next_id: r.next_id,
                    payouts: r.payouts.push(
                        Payout { vault_id, to: v.success_destination, amount: v.amount },
                    ),
                },
                Ok(true),
            ),
        }
    }
}

/// What one standalone release request does: nothing. Validation is merged
/// with release, so no record is ever awaiting release; an existing record
/// refuses the transition and a missing one is not found.
pub open spec fn release_step(r: RegistryView, vault_id: u32) -> (
    RegistryView,
    Result<bool, VaultError>,
) {
    if !r.vaults.contains_key(vault_id) {
        (r, Err(VaultError::NotFound))
    } else {
        match machine::release_check(r.vaults[vault_id]) {
            Err(e) => (r, Err(e)),
            Ok(_) => (r, Ok(true)),
        }
    }
}

/// What one deadline sweep does: at or after the deadline an `Active`
/// record fails and one payout to its failure destination is committed;
/// otherwise nothing changes.
pub open spec fn redirect_step(r: RegistryView, vault_id: u32, now: u64) -> (
    RegistryView,
    Result<bool, VaultError>,
) {
    if !r.vaults.contains_key(vault_id) {
        (r, Err(VaultError::NotFound))
    } else {
        let v = r.vaults[vault_id];
        match machine::redirect_check(v, now) {
            Err(e) => (r, Err(e)),
            Ok(_) => (
                RegistryView {
                    vaults: r.vaults.insert(vault_id, v.with_status(VaultStatus::Failed)),
                    next_id: r.next_id,
                    payouts: r.payouts.push(
                        Payout { vault_id, to: v.failure_destination, amount: v.amount },
                    ),
                },
                Ok(true),
            ),
        }
    }
}

/// What one cancellation request does: the creator cancels an `Active`
/// record and one payout returning the amount to the creator is committed;
/// otherwise nothing changes.
pub open spec fn cancel_step(r: RegistryView, vault_id: u32, caller: Principal) -> (
    RegistryView,
    Result<bool, VaultError>,
) {
    if !r.vaults.contains_key(vault_id) {
        (r, Err(VaultError::NotFound))
    } else {
        let v = r.vaults[vault_id];
        match machine::cancel_check(v, caller) {
            Err(e) => (r, Err(e)),
            Ok(_) => (
                RegistryView {
                    vaults: r.vaults.insert(vault_id, v.with_status(VaultStatus::Cancelled)),
                    next_id: r.next_id,
                    payouts: r.payouts.push(Payout { vault_id, to: v.creator, amount: v.amount }),
                },
                Ok(true),
            ),
        }
    }
}

impl View for DisciplrVault {
    type V = RegistryView;

    closed spec fn view(&self) -> RegistryView {
        RegistryView {
            vaults: views_of(self.store@),
            next_id: self.next_id,
            payouts: self.payouts@,
        }
    }
}

impl DisciplrVault {
    /// An empty registry: no records, no payouts, identifiers start at zero.
    pub fn new() -> (s: Self)
        ensures
            s@ == (RegistryView {
                vaults: Map::empty(),
                next_id: 0u32,
                payouts: Seq::empty(),
            }),
    {
        let s = DisciplrVault { store: HashMap::new(), next_id: 0, payouts: Vec::new() };
        proof {
            lemma_views_of_empty();
            assert(s@ =~= (RegistryView {
                vaults: Map::empty(),
                next_id: 0u32,
                payouts: Seq::empty(),
            }));
        }
        s
    }

    /// Pure read of one record; absence is a valid result, not an error.
    pub fn get_vault_state(&self, vault_id: u32) -> (r: Option<ProductivityVault>)
        ensures
            match r {
                Some(v) => self@.vaults.contains_key(vault_id) && v@ == self@.vaults[vault_id],
                None => !self@.vaults.contains_key(vault_id),
            },
    {
        match self.store.get(&vault_id) {
            Some(v) => Some(*v),
            None => None,
        }
    }

    /// Create a new vault. The host must have authenticated the caller as
    /// `creator` and pulled `amount` into custody before this call; on a
    /// refused request nothing is stored, so a failed funding transfer can
    /// abort the whole operation with no partial state.
    pub fn create_vault(
        &mut self,
        creator: Principal,
        amount: i128,
        start_timestamp: u64,
        end_timestamp: u64,
        milestone_hash: [u8; 32],
        verifier: Option<Principal>,
        success_destination: Principal,
        failure_destination: Principal,
    ) -> (r: Result<u32, VaultError>)
        requires
            old(self)@.next_id < u32::MAX,
        ensures
            final(self)@ == create_step(
                old(self)@,
                creator,
                amount,
                start_timestamp,
                end_timestamp,
                milestone_hash@,
                verifier,
                success_destination,
                failure_destination,
            ).0,
            r == create_step(
                old(self)@,
                creator,
                amount,
                start_timestamp,
                end_timestamp,
                milestone_hash@,
                verifier,
                success_destination,
                failure_destination,
            ).1,
    {
        if !machine::check_creation_inputs(amount, start_timestamp, end_timestamp) {
            return Err(VaultError::InvalidInput);
        }
        let vault_id = self.next_id;
        let vault = ProductivityVault {
            creator,
            amount,
            start_timestamp,
            end_timestamp,
            milestone_hash,
            verifier,
            success_destination,
            failure_destination,
            status: VaultStatus::Active,
        };
        let ghost old_store = self.store@;
        self.store.insert(vault_id, vault);
        self.next_id = vault_id + 1;
        proof {
            lemma_views_of_insert(old_store, vault_id, vault);
            assert(self@ =~= create_step(
                old(self)@,
                creator,
                amount,
                start_timestamp,
                end_timestamp,
                milestone_hash@,
                verifier,
                success_destination,
                failure_destination,
            ).0);
        }
        Ok(vault_id)
    }

    /// Attest the milestone and release the funds in one step: on success
    /// the vault completes and the payout to its success destination is
    /// committed atomically with the status change.
    pub fn validate_milestone(&mut self, vault_id: u32, caller: Principal, now: u64) -> (r: Result<
        bool,
        VaultError,
    >)
        ensures
            final(self)@ == validate_step(old(self)@, vault_id, caller, now).0,
            r == validate_step(old(self)@, vault_id, caller, now).1,
    {
        let vault_opt = self.get_vault_state(vault_id);
        match vault_opt {
            None => Err(VaultError::NotFound),
            Some(vault) => {
                match machine::validate_transition(&vault, caller, now) {
                    Err(e) => Err(e),
                    Ok(updated) => {
                        let payout = Payout {
                            vault_id,
                            to: updated.success_destination,
                            amount: updated.amount,
                        };
                        let ghost old_store = self.store@;
                        self.store.insert(vault_id, updated);
                        self.payouts.push(payout);
                        proof {
                            lemma_views_of_insert(old_store, vault_id, updated);
                            assert(self@ =~= validate_step(old(self)@, vault_id, caller, now).0);
                        }
                        Ok(true)
                    },
                }
            },
        }
    }

    /// Standalone release: always refused, since validation already releases
    /// in the same step and no record is ever awaiting release.
    pub fn release_funds(&mut self, vault_id: u32) -> (r: Result<bool, VaultError>)
        ensures
            final(self)@ == release_step(old(self)@, vault_id).0,
            r == release_step(old(self)@, vault_id).1,
    {
        let vault_opt = self.get_vault_state(vault_id);
        match vault_opt {
            None => Err(VaultError::NotFound),
            Some(vault) => match machine::release_transition(&vault) {
                Err(e) => Err(e),
                Ok(_) => Ok(true),
            },
        }
    }

    /// Deadline sweep, callable by anyone: at or after `end_timestamp` an
    /// `Active` vault fails and the payout to its failure destination is
    /// committed. A second call finds the vault no longer `Active` and is
    /// refused, so the sweep can never pay out twice.
    pub fn redirect_funds(&mut self, vault_id: u32, now: u64) -> (r: Result<bool, VaultError>)
        ensures
            final(self)@ == redirect_step(old(self)@, vault_id, now).0,
            r == redirect_step(old(self)@, vault_id, now).1,
    {
        let vault_opt = self.get_vault_state(vault_id);
        match vault_opt {
            None => Err(VaultError::NotFound),
            Some(vault) => {
                match machine::redirect_transition(&vault, now) {
                    Err(e) => Err(e),
                    Ok(updated) => {
                        let payout = Payout {
                            vault_id,
                            to: updated.failure_destination,
                            amount: updated.amount,
                        };
                        let ghost old_store = self.store@;
                        self.store.insert(vault_id, updated);
                        self.payouts.push(payout);
                        proof {
                            lemma_views_of_insert(old_store, vault_id, updated);
                            assert(self@ =~= redirect_step(old(self)@, vault_id, now).0);
                        }
                        Ok(true)
                    },
                }
            },
        }
    }

    /// Cancel an `Active` vault: the host must have authenticated the
    /// caller, and only the creator is obeyed; the payout returning the
    /// amount to the creator is committed with the status change.
    pub fn cancel_vault(&mut self, vault_id: u32, caller: Principal) -> (r: Result<
        bool,
        VaultError,
    >)
        ensures
            final(self)@ == cancel_step(old(self)@, vault_id, caller).0,
            r == cancel_step(old(self)@, vault_id, caller).1,
    {
        let vault_opt = self.get_vault_state(vault_id);
        match vault_opt {
            None => Err(VaultError::NotFound),
            Some(vault) => {
                match machine::cancel_transition(&vault, caller) {
                    Err(e) => Err(e),
                    Ok(updated) => {
                        let payout = Payout { vault_id, to: updated.creator, amount: updated.amount };
                        let ghost old_store = self.store@;
                        self.store.insert(vault_id, updated);
                        self.payouts.push(payout);
                        proof {
                            lemma_views_of_insert(old_store, vault_id, updated);
                            assert(self@ =~= cancel_step(old(self)@, vault_id, caller).0);
                        }
                        Ok(true)
                    },
                }
            },
        }
    }

    /// Test scaffolding: plant a record under a chosen identifier, bypassing
    /// creation. Not part of the production surface.
    pub fn set_vault_state_test(&mut self, vault_id: u32, vault: ProductivityVault)
        ensures
            final(self)@ == (RegistryView {
                vaults: old(self)@.vaults.insert(vault_id, vault@),
                ..old(self)@
            }),
    {
        let ghost old_store = self.store@;
        self.store.insert(vault_id, vault);
        proof {
            lemma_views_of_insert(old_store, vault_id, vault);
            assert(self@ =~= (RegistryView {
                vaults: old(self)@.vaults.insert(vault_id, vault@),
                ..old(self)@
            }));
        }
    }
}

} // verus!
