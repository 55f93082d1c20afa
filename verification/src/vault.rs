//! The vault record and its mathematical model.

use vstd::prelude::*;

verus! {

/// An authenticated principal: the library's stand-in for a host account
/// address. The host proves control of a principal before an operation runs;
/// the library only compares principals for identity.
#[derive(Clone, Copy, Debug, PartialEq, Eq, Structural)]
pub struct Principal {
    pub id: u64,
}

/// Lifecycle status of a vault. `Active` is the initial status; the other
/// three are terminal and have no outbound transitions.
#[derive(Clone, Copy, Debug, PartialEq, Eq, Structural)]
pub enum VaultStatus {
    Active,
    Completed,
    Failed,
    Cancelled,
}

impl VaultStatus {
    /// A terminal status admits no further transition.
    pub open spec fn is_terminal(self) -> bool {
        self != VaultStatus::Active
    }
}

/// One custody record: who funded it, how much is held, the milestone
/// window, who may attest completion, and where the funds go on each
/// terminal path. All fields but `status` are immutable after creation.
#[derive(Clone, Copy, Debug)]
pub struct ProductivityVault {
    pub creator: Principal,
    pub amount: i128,
    pub start_timestamp: u64,
    pub end_timestamp: u64,
    pub milestone_hash: [u8; 32],
    pub verifier: Option<Principal>,
    pub success_destination: Principal,
    pub failure_destination: Principal,
    pub status: VaultStatus,
}

/// Mathematical model of a vault record; contracts speak in these terms.
#[verifier::ext_equal]
pub struct VaultView {
    pub creator: Principal,
    pub amount: i128,
    pub start_timestamp: u64,
    pub end_timestamp: u64,
    pub milestone_hash: Seq<u8>,
    pub verifier: Option<Principal>,
    pub success_destination: Principal,
    pub failure_destination: Principal,
    pub status: VaultStatus,
}

impl View for ProductivityVault {
    type V = VaultView;

    open spec fn view(&self) -> VaultView {
        VaultView {
            creator: self.creator,
            amount: self.amount,
            start_timestamp: self.start_timestamp,
            end_timestamp: self.end_timestamp,
            milestone_hash: self.milestone_hash@,
            verifier: self.verifier,
            success_destination: self.success_destination,
            failure_destination: self.failure_destination,
            status: self.status,
        }
    }
}

impl VaultView {
    /// What every stored vault satisfies: a positive custodied amount and a
    /// non-empty milestone window.
    pub open spec fn wf(self) -> bool {
        &&& self.amount > 0
        &&& self.start_timestamp < self.end_timestamp
    }

    /// The same record with a new status and every other field kept.
    pub open spec fn with_status(self, status: VaultStatus) -> VaultView {
        VaultView { status, ..self }
    }
}

} // verus!
