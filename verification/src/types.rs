//! The project record and the failures of the registry.

use soroban_sdk::Address;
use vstd::prelude::*;

verus! {

/// Where a project stands: `Funding` from creation on, `Completed` once its
/// proof has been accepted. Nothing leaves `Completed`.
#[derive(Clone, Copy, Debug, PartialEq, Eq, Structural)]
pub enum ProjectStatus {
    Funding,
    Completed,
}

/// A funding campaign held in escrow.
#[derive(Debug, PartialEq, Eq)]
pub struct Project {
    /// Assigned once at creation.
    pub id: u64,
    /// The party that registered the project.
    pub creator: Address,
    /// Amount to raise; strictly positive at creation.
    pub goal: i128,
    /// Funds accumulated so far; zero at creation.
    pub balance: i128,
    /// Commitment that a later proof has to match byte for byte.
    pub proof_hash: [u8; 32],
    /// Ledger timestamp; strictly in the future at creation.
    pub deadline: u64,
    pub status: ProjectStatus,
}

impl Clone for Project {
    /// The copy equals the project in every field.
    fn clone(&self) -> (copy: Self)
        ensures
            copy == *self,
    {
        Project {
            id: self.id,
            creator: self.creator.clone(),
            goal: self.goal,
            balance: self.balance,
            proof_hash: self.proof_hash,
            deadline: self.deadline,
            status: self.status,
        }
    }
}

/// Why an operation of the registry was refused.
#[derive(Clone, Copy, Debug, PartialEq, Eq, Structural)]
pub enum RegistryError {
    InvalidGoal,
    InvalidDeadline,
    NotFound,
    NotConfigured,
    AlreadyCompleted,
    HashMismatch,
}

impl RegistryError {
    /// The text under which each failure is reported.
    pub open spec fn spec_message(self) -> Seq<char> {
        match self {
            RegistryError::InvalidGoal => "goal must be positive"@,
            RegistryError::InvalidDeadline => "deadline must be in the future"@,
            RegistryError::NotFound => "project not found"@,
            RegistryError::NotConfigured => "oracle not set"@,
            RegistryError::AlreadyCompleted => "project already completed"@,
            RegistryError::HashMismatch => "proof verification failed: hash mismatch"@,
        }
    }

    /// Stable, human-readable message of this failure.
    pub fn message(&self) -> (text: &'static str)
        ensures
            text@ == self.spec_message(),
    {
        match self {
            RegistryError::InvalidGoal => "goal must be positive",
            RegistryError::InvalidDeadline => "deadline must be in the future",
            RegistryError::NotFound => "project not found",
            RegistryError::NotConfigured => "oracle not set",
            RegistryError::AlreadyCompleted => "project already completed",
            RegistryError::HashMismatch => "proof verification failed: hash mismatch",
        }
    }
}

} // verus!
