//! The per-record state machine: for each transition, a spec-level decision
//! on one vault record and the verified executable step that applies it.
//!
//! Authorization order is fixed: existence is checked by the registry first,
//! then the caller, then the status, then the deadline. Milestone validation
//! is a single merged step: a successful attestation releases the funds and
//! completes the vault in the same call, so no attested-but-unreleased
//! record ever exists and a separate release step can never find one.

use vstd::prelude::*;

use crate::errors::VaultError;
use crate::vault::{Principal, ProductivityVault, VaultStatus, VaultView};

verus! {

/// Decision on a cancellation request: only the creator may cancel, and
/// only while the vault is still `Active`.
pub open spec fn cancel_check(v: VaultView, caller: Principal) -> Result<(), VaultError> {
    if v.creator != caller {
        Err(VaultError::Unauthorized)
    } else if v.status != VaultStatus::Active {
        Err(VaultError::InvalidState)
    } else {
        Ok(())
    }
}

/// Decision on a milestone attestation: only the vault's verifier may
/// attest (a vault without one has no validation path at all), the vault
/// must still be `Active`, and the deadline must not have been reached —
/// at or after `end_timestamp` the redirect path owns the outcome.
pub open spec fn validate_check(v: VaultView, caller: Principal, now: u64) -> Result<
    (),
    VaultError,
> {
    if v.verifier != Some(caller) {
        Err(VaultError::Unauthorized)
    } else if v.status != VaultStatus::Active {
        Err(VaultError::InvalidState)
    } else if now >= v.end_timestamp {
        Err(VaultError::InvalidState)
    } else {
        Ok(())
    }
}

/// Decision on a deadline sweep: anyone may redirect, but only an `Active`
/// vault at or after `end_timestamp`.
pub open spec fn redirect_check(v: VaultView, now: u64) -> Result<(), VaultError> {
    if v.status != VaultStatus::Active {
        Err(VaultError::InvalidState)
    } else if now < v.end_timestamp {
        Err(VaultError::InvalidState)
    } else {
        Ok(())
    }
}

/// Decision on a standalone release: validation is merged with release, so
/// no record is ever awaiting release and the request is always refused.
pub open spec fn release_check(v: VaultView) -> Result<(), VaultError> {
    Err(VaultError::InvalidState)
}

/// Whether creation parameters are acceptable: a positive amount and a
/// window whose start lies strictly before its end.
pub open spec fn creation_inputs_ok(amount: i128, start_timestamp: u64, end_timestamp: u64) -> bool {
    amount > 0 && start_timestamp < end_timestamp
}

/// Executable form of `creation_inputs_ok`, for callers that must decide
/// before the funding transfer is attempted whether creation can succeed.
pub fn check_creation_inputs(amount: i128, start_timestamp: u64, end_timestamp: u64) -> (r: bool)
    ensures
        r == creation_inputs_ok(amount, start_timestamp, end_timestamp),
{
    amount > 0 && start_timestamp < end_timestamp
}

/// Apply a cancellation to one record.
pub fn cancel_transition(v: &ProductivityVault, caller: Principal) -> (r: Result<
    ProductivityVault,
    VaultError,
>)
    ensures
        match r {
            Ok(nv) => cancel_check(v@, caller) is Ok && nv@ == v@.with_status(
                VaultStatus::Cancelled,
            ),
            Err(e) => cancel_check(v@, caller) == Err::<(), VaultError>(e),
        },
{
    if v.creator != caller {
        Err(VaultError::Unauthorized)
    } else if v.status != VaultStatus::Active {
        Err(VaultError::InvalidState)
    } else {
        Ok(ProductivityVault { status: VaultStatus::Cancelled, ..*v })
    }
}

/// Apply a milestone attestation to one record.
pub fn validate_transition(v: &ProductivityVault, caller: Principal, now: u64) -> (r: Result<
    ProductivityVault,
    VaultError,
>)
    ensures
        match r {
            Ok(nv) => validate_check(v@, caller, now) is Ok && nv@ == v@.with_status(
                VaultStatus::Completed,
            ),
            Err(e) => validate_check(v@, caller, now) == Err::<(), VaultError>(e),
        },
{
    let authorized = match v.verifier {
        Some(ver) => ver == caller,
        None => false,
    };
    if !authorized {
        Err(VaultError::Unauthorized)
    } else if v.status != VaultStatus::Active {
        Err(VaultError::InvalidState)
    } else if now >= v.end_timestamp {
        Err(VaultError::InvalidState)
    } else {
        Ok(ProductivityVault { status: VaultStatus::Completed, ..*v })
    }
}

/// Apply a standalone release to one record: refused for every record,
/// since validation already released in the same step.
pub fn release_transition(v: &ProductivityVault) -> (r: Result<ProductivityVault, VaultError>)
    ensures
        r == Err::<ProductivityVault, VaultError>(VaultError::InvalidState),
        release_check(v@) == Err::<(), VaultError>(VaultError::InvalidState),
{
    Err(VaultError::InvalidState)
}

/// Apply a deadline redirect to one record.
pub fn redirect_transition(v: &ProductivityVault, now: u64) -> (r: Result<
    ProductivityVault,
    VaultError,
>)
    ensures
        match r {
            Ok(nv) => redirect_check(v@, now) is Ok && nv@ == v@.with_status(VaultStatus::Failed),
            Err(e) => redirect_check(v@, now) == Err::<(), VaultError>(e),
        },
{
    if v.status != VaultStatus::Active {
        Err(VaultError::InvalidState)
    } else if now < v.end_timestamp {
        Err(VaultError::InvalidState)
    } else {
        Ok(ProductivityVault { status: VaultStatus::Failed, ..*v })
    }
}

} // verus!
