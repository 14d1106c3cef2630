//! The failures that an operation can end in.

use vstd::prelude::*;

verus! {

/// Why an operation was refused or aborted. No operation retries: the first
/// failure ends it, and the vault record is left as it was.
#[derive(Clone, Copy, Debug, PartialEq, Eq, Structural)]
pub enum VaultError {
    /// A deposit was asked of a vault whose position is already funded.
    PositionActive,
    /// A rebalance was asked of a vault that has no funded position.
    NoActivePosition,
    /// A deposit of zero units was asked.
    InvalidAmount,
    /// A reserve account holds another asset than the pool trades on that side.
    MintMismatch,
    /// A vault record already exists for the pool.
    AlreadyInitialized,
    /// A delegated call to the ledger or the pool failed; the code is the
    /// collaborator's own, handed on unchanged.
    CallFailed(u64),
}

impl VaultError {
    /// The text of this failure, as a reader of a log would want it.
    pub open spec fn message_spec(self) -> Seq<char> {
        match self {
            VaultError::PositionActive => "Position is already active"@,
            VaultError::NoActivePosition => "No active position to rebalance"@,
            VaultError::InvalidAmount => "Amount must be greater than zero"@,
            VaultError::MintMismatch => "Reserve account does not hold the pool's asset"@,
            VaultError::AlreadyInitialized => "Vault already exists for this pool"@,
            VaultError::CallFailed(_) => "Delegated call failed"@,
        }
    }

    /// The text of this failure.
    pub fn message(&self) -> (text: String)
        ensures
            text@ == self.message_spec(),
    {
        match self {
            VaultError::PositionActive => "Position is already active".to_owned(),
            VaultError::NoActivePosition => "No active position to rebalance".to_owned(),
            VaultError::InvalidAmount => "Amount must be greater than zero".to_owned(),
            VaultError::MintMismatch => "Reserve account does not hold the pool's asset".to_owned(),
            VaultError::AlreadyInitialized => "Vault already exists for this pool".to_owned(),
            VaultError::CallFailed(_) => "Delegated call failed".to_owned(),
        }
    }
}

} // verus!
