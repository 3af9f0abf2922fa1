use vstd::prelude::*;

verus! {

/// The ways in which an operation of the guard can be refused. Every refusal
/// aborts the whole operation and leaves the guard's state as it was.
#[derive(Clone, Copy, Debug, PartialEq, Eq, Structural)]
pub enum VestingError {
    /// The global state has not been set up.
    Uninitialized,
    /// The caller of an admin-only operation is not the admin.
    InvalidSuperOwner,
    /// The guard's protections are switched off.
    VestingDeactived,
    /// The address to remove is not on the whitelist.
    InvalidWhitelistAddress,
    /// Nobody involved in a protected thaw or transfer is on the whitelist.
    NotAllowedApplicant,
    /// The whitelist is full and the address to add is not yet on it.
    CapacityExceeded,
}

impl VestingError {
    /// The text of the message that goes with each kind of refusal.
    pub open spec fn spec_message(self) -> Seq<char> {
        match self {
            VestingError::Uninitialized => "Uninitialized account"@,
            VestingError::InvalidSuperOwner => "Invalid Super Owner"@,
            VestingError::VestingDeactived => "Vesting is deactived. Allowed for all thaw and transfer action."@,
            VestingError::InvalidWhitelistAddress => "Invalid Whitelist Address"@,
            VestingError::NotAllowedApplicant => "The Applicant Not Allowed In Whitelist"@,
            VestingError::CapacityExceeded => "The Whitelist Is Full"@,
        }
    }

    /// A human-readable message for this refusal.
    pub fn message(&self) -> (text: &'static str)
        ensures
            text@ == self.spec_message(),
    {
        match self {
            VestingError::Uninitialized => "Uninitialized account",
            VestingError::InvalidSuperOwner => "Invalid Super Owner",
            VestingError::VestingDeactived => "Vesting is deactived. Allowed for all thaw and transfer action.",
            VestingError::InvalidWhitelistAddress => "Invalid Whitelist Address",
            VestingError::NotAllowedApplicant => "The Applicant Not Allowed In Whitelist",
            VestingError::CapacityExceeded => "The Whitelist Is Full",
        }
    }
}

} // verus!
