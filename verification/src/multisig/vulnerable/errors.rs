//! Errors of the weakened multisig.
use vstd::prelude::*;

verus! {

/// The errors that the weakened multisig declares, in declaration order.
/// None of its instructions reports them.
#[derive(Clone, Copy, PartialEq, Eq, Debug, Structural)]
pub enum MultisigError {
    InvalidOperation,
    Unauthorized,
    InvalidState,
    NotAMember,
    InvalidThreshold,
    ProposalNotActive,
    InsufficientApprovals,
    Overflow,
}

/// The position of an error in the declaration.
pub open spec fn error_index(e: MultisigError) -> nat {
    match e {
        MultisigError::InvalidOperation => 0,
        MultisigError::Unauthorized => 1,
        MultisigError::InvalidState => 2,
        MultisigError::NotAMember => 3,
        MultisigError::InvalidThreshold => 4,
        MultisigError::ProposalNotActive => 5,
        MultisigError::InsufficientApprovals => 6,
        MultisigError::Overflow => 7,
    }
}

impl MultisigError {
    /// The custom program error number reported on chain: 6000 plus the
    /// error's position in the declaration.
    pub fn code(&self) -> (c: u32)
        ensures
            c == 6000 + error_index(*self),
    {
        match self {
            MultisigError::InvalidOperation => 6000,
            MultisigError::Unauthorized => 6001,
            MultisigError::InvalidState => 6002,
            MultisigError::NotAMember => 6003,
            MultisigError::InvalidThreshold => 6004,
            MultisigError::ProposalNotActive => 6005,
            MultisigError::InsufficientApprovals => 6006,
            MultisigError::Overflow => 6007,
        }
    }
}

} // verus!
