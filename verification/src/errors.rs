//! Why a vault operation was refused.

use vstd::prelude::*;

verus! {

/// The failure taxonomy shared by every vault operation. Each operation's
/// contract states exactly which variant comes back on which inputs, so
/// callers can distinguish failure kinds programmatically.
#[derive(Clone, Copy, Debug, PartialEq, Eq, Structural)]
pub enum VaultError {
    /// The referenced vault identifier has no record.
    NotFound,
    /// The caller fails an authorization check.
    Unauthorized,
    /// The vault's status forbids the requested transition.
    InvalidState,
    /// The creation parameters are malformed.
    InvalidInput,
    /// The external asset movement did not complete.
    TransferFailed,
}

/// The reason string reported when a cancellation fails.
pub open spec fn cancel_reason_spec(e: VaultError) -> Seq<char> {
    match e {
        VaultError::NotFound => "Vault not found"@,
        VaultError::Unauthorized => "Only vault creator can cancel"@,
        VaultError::InvalidState => "Only Active vaults can be cancelled"@,
        VaultError::InvalidInput => "Invalid vault parameters"@,
        VaultError::TransferFailed => "Asset transfer failed"@,
    }
}

/// Stable, human-readable reason for a failed cancellation.
pub fn cancel_reason(e: VaultError) -> (r: &'static str)
    ensures
        r@ == cancel_reason_spec(e),
{
    match e {
        VaultError::NotFound => "Vault not found",
        VaultError::Unauthorized => "Only vault creator can cancel",
        VaultError::InvalidState => "Only Active vaults can be cancelled",
        VaultError::InvalidInput => "Invalid vault parameters",
        VaultError::TransferFailed => "Asset transfer failed",
    }
}

} // verus!
