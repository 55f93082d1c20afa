use disciplr_vault::errors::cancel_reason;
use disciplr_vault::{DisciplrVault, Principal, ProductivityVault, VaultError, VaultStatus};

fn create_test_vault(status: VaultStatus) -> (u32, Principal, ProductivityVault) {
    let creator = Principal { id: 1 };
    let verifier = Principal { id: 2 };
    let success_dest = Principal { id: 3 };
    let failure_dest = Principal { id: 4 };
    let milestone_hash = [0u8; 32];

    let vault = ProductivityVault {
        creator,
        amount: 1000,
        start_timestamp: 1000,
        end_timestamp: 2000,
        milestone_hash,
        verifier: Some(verifier),
        success_destination: success_dest,
        failure_destination: failure_dest,
        status,
    };

    let vault_id = 1u32;
    (vault_id, creator, vault)
}

#[test]
fn test_cancel_vault_when_completed_fails() {
    let mut contract = DisciplrVault::new();
    let (vault_id, creator, vault) = create_test_vault(VaultStatus::Completed);
    contract.set_vault_state_test(vault_id, vault);

    let result = contract.cancel_vault(vault_id, creator);
    assert_eq!(result, Err(VaultError::InvalidState));
    assert_eq!(
        cancel_reason(result.unwrap_err()),
        "Only Active vaults can be cancelled"
    );
    // The record is unchanged.
    let stored = contract.get_vault_state(vault_id).unwrap();
    assert_eq!(stored.status, VaultStatus::Completed);
    assert_eq!(stored.amount, 1000);
}

#[test]
fn test_cancel_vault_when_failed_fails() {
    let mut contract = DisciplrVault::new();
    let (vault_id, creator, vault) = create_test_vault(VaultStatus::Failed);
    contract.set_vault_state_test(vault_id, vault);

    let result = contract.cancel_vault(vault_id, creator);
    assert_eq!(result, Err(VaultError::InvalidState));
    assert_eq!(
        cancel_reason(result.unwrap_err()),
        "Only Active vaults can be cancelled"
    );
    assert_eq!(
        contract.get_vault_state(vault_id).unwrap().status,
        VaultStatus::Failed
    );
}

#[test]
fn test_cancel_vault_when_active_succeeds() {
    let mut contract = DisciplrVault::new();
    let (vault_id, creator, vault) = create_test_vault(VaultStatus::Active);
    contract.set_vault_state_test(vault_id, vault);

    let result = contract.cancel_vault(vault_id, creator);
    assert!(
        result == Ok(true),
        "Expected cancel_vault to succeed for Active vault"
    );
    assert_eq!(
        contract.get_vault_state(vault_id).unwrap().status,
        VaultStatus::Cancelled
    );
}

#[test]
fn test_cancel_vault_when_cancelled_fails() {
    let mut contract = DisciplrVault::new();
    let (vault_id, _creator, vault) = create_test_vault(VaultStatus::Cancelled);
    contract.set_vault_state_test(vault_id, vault);

    let result = contract.cancel_vault(vault_id, vault.creator);
    assert_eq!(result, Err(VaultError::InvalidState));
    assert_eq!(
        cancel_reason(result.unwrap_err()),
        "Only Active vaults can be cancelled"
    );
}

#[test]
fn test_cancel_vault_non_creator_fails() {
    let mut contract = DisciplrVault::new();
    let (vault_id, creator, vault) = create_test_vault(VaultStatus::Active);
    contract.set_vault_state_test(vault_id, vault);

    let non_creator = Principal { id: 99 };
    let result = contract.cancel_vault(vault_id, non_creator);
    assert_eq!(result, Err(VaultError::Unauthorized));
    assert_eq!(
        cancel_reason(result.unwrap_err()),
        "Only vault creator can cancel"
    );

    // The vault is untouched, so the creator's own call still succeeds.
    let result = contract.cancel_vault(vault_id, creator);
    assert_eq!(result, Ok(true));
}

#[test]
fn test_cancel_vault_nonexistent_fails() {
    let mut contract = DisciplrVault::new();
    let creator = Principal { id: 1 };
    let vault_id = 999u32;

    let result = contract.cancel_vault(vault_id, creator);
    assert_eq!(result, Err(VaultError::NotFound));
    assert_eq!(cancel_reason(result.unwrap_err()), "Vault not found");
}

#[test]
fn test_create_vault_round_trip() {
    let mut contract = DisciplrVault::new();
    let creator = Principal { id: 5 };
    let verifier = Principal { id: 6 };
    let success_dest = Principal { id: 7 };
    let failure_dest = Principal { id: 8 };
    let hash = [0xabu8; 32];

    let id = contract
        .create_vault(
            creator,
            1000,
            1000,
            2000,
            hash,
            Some(verifier),
            success_dest,
            failure_dest,
        )
        .unwrap();
    assert_eq!(id, 0);

    let stored = contract.get_vault_state(id).unwrap();
    assert_eq!(stored.creator, creator);
    assert_eq!(stored.amount, 1000);
    assert_eq!(stored.start_timestamp, 1000);
    assert_eq!(stored.end_timestamp, 2000);
    assert_eq!(stored.milestone_hash, hash);
    assert_eq!(stored.verifier, Some(verifier));
    assert_eq!(stored.success_destination, success_dest);
    assert_eq!(stored.failure_destination, failure_dest);
    assert_eq!(stored.status, VaultStatus::Active);
}

#[test]
fn test_create_vault_rejects_bad_inputs() {
    let mut contract = DisciplrVault::new();
    let p = Principal { id: 1 };
    let hash = [0u8; 32];

    // Non-positive amount.
    let r = contract.create_vault(p, 0, 1000, 2000, hash, None, p, p);
    assert_eq!(r, Err(VaultError::InvalidInput));
    let r = contract.create_vault(p, -5, 1000, 2000, hash, None, p, p);
    assert_eq!(r, Err(VaultError::InvalidInput));
    // Window must start strictly before it ends.
    let r = contract.create_vault(p, 1000, 2000, 2000, hash, None, p, p);
    assert_eq!(r, Err(VaultError::InvalidInput));
    let r = contract.create_vault(p, 1000, 3000, 2000, hash, None, p, p);
    assert_eq!(r, Err(VaultError::InvalidInput));
    // Nothing was stored and no identifier was consumed.
    assert!(contract.get_vault_state(0).is_none());
    let id = contract
        .create_vault(p, 1, 0, 1, hash, None, p, p)
        .unwrap();
    assert_eq!(id, 0);
}

#[test]
fn test_identifiers_allocate_monotonically() {
    let mut contract = DisciplrVault::new();
    let p = Principal { id: 1 };
    let hash = [0u8; 32];

    let a = contract
        .create_vault(p, 10, 100, 200, hash, None, p, p)
        .unwrap();
    let b = contract
        .create_vault(p, 20, 100, 200, hash, None, p, p)
        .unwrap();
    assert_eq!(a, 0);
    assert_eq!(b, 1);
    assert_ne!(a, b);
    assert_eq!(contract.get_vault_state(a).unwrap().amount, 10);
    assert_eq!(contract.get_vault_state(b).unwrap().amount, 20);
}

#[test]
fn test_validate_milestone_by_verifier_completes_vault() {
    let mut contract = DisciplrVault::new();
    let (vault_id, _creator, vault) = create_test_vault(VaultStatus::Active);
    let verifier = vault.verifier.unwrap();
    contract.set_vault_state_test(vault_id, vault);

    let result = contract.validate_milestone(vault_id, verifier, 1500);
    assert_eq!(result, Ok(true));
    assert_eq!(
        contract.get_vault_state(vault_id).unwrap().status,
        VaultStatus::Completed
    );

    // A second attestation finds the vault no longer Active.
    let result = contract.validate_milestone(vault_id, verifier, 1500);
    assert_eq!(result, Err(VaultError::InvalidState));
}

#[test]
fn test_validate_milestone_non_verifier_fails() {
    let mut contract = DisciplrVault::new();
    let (vault_id, creator, vault) = create_test_vault(VaultStatus::Active);
    contract.set_vault_state_test(vault_id, vault);

    // Even the creator is refused: only the verifier may attest.
    let result = contract.validate_milestone(vault_id, creator, 1500);
    assert_eq!(result, Err(VaultError::Unauthorized));
    assert_eq!(
        contract.get_vault_state(vault_id).unwrap().status,
        VaultStatus::Active
    );
}

#[test]
fn test_validate_milestone_without_verifier_always_fails() {
    let mut contract = DisciplrVault::new();
    let (vault_id, creator, mut vault) = create_test_vault(VaultStatus::Active);
    vault.verifier = None;
    contract.set_vault_state_test(vault_id, vault);

    // Absence of a verifier disables the validation path entirely.
    let result = contract.validate_milestone(vault_id, creator, 1500);
    assert_eq!(result, Err(VaultError::Unauthorized));
    let result = contract.validate_milestone(vault_id, Principal { id: 42 }, 1500);
    assert_eq!(result, Err(VaultError::Unauthorized));
}

#[test]
fn test_validate_milestone_at_deadline_fails() {
    let mut contract = DisciplrVault::new();
    let (vault_id, _creator, vault) = create_test_vault(VaultStatus::Active);
    let verifier = vault.verifier.unwrap();
    contract.set_vault_state_test(vault_id, vault);

    // At or after end_timestamp the redirect path owns the outcome.
    let result = contract.validate_milestone(vault_id, verifier, 2000);
    assert_eq!(result, Err(VaultError::InvalidState));
    let result = contract.validate_milestone(vault_id, verifier, 2500);
    assert_eq!(result, Err(VaultError::InvalidState));
    // One tick before the deadline it still succeeds.
    let result = contract.validate_milestone(vault_id, verifier, 1999);
    assert_eq!(result, Ok(true));
}

#[test]
fn test_validate_milestone_nonexistent_fails() {
    let mut contract = DisciplrVault::new();
    let result = contract.validate_milestone(999, Principal { id: 2 }, 1500);
    assert_eq!(result, Err(VaultError::NotFound));
}

#[test]
fn test_redirect_funds_deadline_boundary() {
    let mut contract = DisciplrVault::new();
    let (vault_id, _creator, vault) = create_test_vault(VaultStatus::Active);
    contract.set_vault_state_test(vault_id, vault);

    // One tick before the deadline the sweep must fail...
    let result = contract.redirect_funds(vault_id, 1999);
    assert_eq!(result, Err(VaultError::InvalidState));
    assert_eq!(
        contract.get_vault_state(vault_id).unwrap().status,
        VaultStatus::Active
    );
    // ...and exactly at the deadline it must succeed.
    let result = contract.redirect_funds(vault_id, 2000);
    assert_eq!(result, Ok(true));
    assert_eq!(
        contract.get_vault_state(vault_id).unwrap().status,
        VaultStatus::Failed
    );
    // A repeated sweep is refused rather than paying out twice.
    let result = contract.redirect_funds(vault_id, 2001);
    assert_eq!(result, Err(VaultError::InvalidState));
}

#[test]
fn test_redirect_funds_nonexistent_fails() {
    let mut contract = DisciplrVault::new();
    let result = contract.redirect_funds(999, 5000);
    assert_eq!(result, Err(VaultError::NotFound));
}

#[test]
fn test_terminal_states_refuse_every_transition() {
    for status in [
        VaultStatus::Completed,
        VaultStatus::Failed,
        VaultStatus::Cancelled,
    ] {
        let mut contract = DisciplrVault::new();
        let (vault_id, creator, vault) = create_test_vault(status);
        let verifier = vault.verifier.unwrap();
        contract.set_vault_state_test(vault_id, vault);

        assert_eq!(
            contract.validate_milestone(vault_id, verifier, 1500),
            Err(VaultError::InvalidState)
        );
        assert_eq!(
            contract.release_funds(vault_id),
            Err(VaultError::InvalidState)
        );
        assert_eq!(
            contract.redirect_funds(vault_id, 3000),
            Err(VaultError::InvalidState)
        );
        assert_eq!(
            contract.cancel_vault(vault_id, creator),
            Err(VaultError::InvalidState)
        );
        // The record never changed.
        let stored = contract.get_vault_state(vault_id).unwrap();
        assert_eq!(stored.status, status);
        assert_eq!(stored.amount, 1000);
    }
}

#[test]
fn test_release_funds_is_never_reachable() {
    let mut contract = DisciplrVault::new();
    let (vault_id, _creator, vault) = create_test_vault(VaultStatus::Active);
    contract.set_vault_state_test(vault_id, vault);

    // Validation releases in the same step, so a standalone release finds
    // no vault awaiting one.
    assert_eq!(
        contract.release_funds(vault_id),
        Err(VaultError::InvalidState)
    );
    assert_eq!(contract.release_funds(999), Err(VaultError::NotFound));
}

#[test]
fn test_get_vault_state_absent_is_none() {
    let contract = DisciplrVault::new();
    assert!(contract.get_vault_state(0).is_none());
}

#[test]
fn test_cancel_reason_strings_distinguish_failure_kinds() {
    assert_eq!(cancel_reason(VaultError::NotFound), "Vault not found");
    assert_eq!(
        cancel_reason(VaultError::Unauthorized),
        "Only vault creator can cancel"
    );
    assert_eq!(
        cancel_reason(VaultError::InvalidState),
        "Only Active vaults can be cancelled"
    );
    assert_eq!(
        cancel_reason(VaultError::InvalidInput),
        "Invalid vault parameters"
    );
    assert_eq!(
        cancel_reason(VaultError::TransferFailed),
        "Asset transfer failed"
    );
}
