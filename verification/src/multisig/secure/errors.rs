//! Errors of the hardened multisig.
use vstd::prelude::*;

verus! {

/// The errors that the hardened multisig reports, in declaration order.
#[derive(Clone, Copy, PartialEq, Eq, Debug, Structural)]
pub enum MultisigError {
    NotAMember,
    AlreadyMember,
    CannotRemoveCreator,
    MaxMembersReached,
    MinimumOneMember,
    InsufficientPermissions,
    OnlyAdmin,
    CannotPropose,
    CannotExecute,
    CannotAddSelf,
    InvalidThreshold,
    ThresholdExceedsOwners,
    ProposalNotActive,
    AlreadyApproved,
    InsufficientApprovals,
    NotProposer,
    ProposalExpired,
    TimelockNotPassed,
    InvalidProposalType,
    InvalidProposal,
    InsufficientFunds,
    InvalidRecipient,
    Overflow,
    MultisigPaused,
    InvalidParameter,
}

/// The position of an error in the declaration.
pub open spec fn error_index(e: MultisigError) -> nat {
    match e {
        MultisigError::NotAMember => 0,
        MultisigError::AlreadyMember => 1,
        MultisigError::CannotRemoveCreator => 2,
        MultisigError::MaxMembersReached => 3,
        MultisigError::MinimumOneMember => 4,
        MultisigError::InsufficientPermissions => 5,
        MultisigError::OnlyAdmin => 6,
        MultisigError::CannotPropose => 7,
        MultisigError::CannotExecute => 8,
        MultisigError::CannotAddSelf => 9,
        MultisigError::InvalidThreshold => 10,
        MultisigError::ThresholdExceedsOwners => 11,
        MultisigError::ProposalNotActive => 12,
        MultisigError::AlreadyApproved => 13,
        MultisigError::InsufficientApprovals => 14,
        MultisigError::NotProposer => 15,
        MultisigError::ProposalExpired => 16,
        MultisigError::TimelockNotPassed => 17,
        MultisigError::InvalidProposalType => 18,
        MultisigError::InvalidProposal => 19,
        MultisigError::InsufficientFunds => 20,
        MultisigError::InvalidRecipient => 21,
        MultisigError::Overflow => 22,
        MultisigError::MultisigPaused => 23,
        MultisigError::InvalidParameter => 24,
    }
}

impl MultisigError {
    /// The custom program error number reported on chain: 6000 plus the
    /// error's position in the declaration.
    pub fn code(&self) -> (c: u32)
        ensures
            c == 6000 + error_index(*self),
    {
        match self {
            MultisigError::NotAMember => 6000,
            MultisigError::AlreadyMember => 6001,
            MultisigError::CannotRemoveCreator => 6002,
            MultisigError::MaxMembersReached => 6003,
            MultisigError::MinimumOneMember => 6004,
            MultisigError::InsufficientPermissions => 6005,
            MultisigError::OnlyAdmin => 6006,
            MultisigError::CannotPropose => 6007,
            MultisigError::CannotExecute => 6008,
            MultisigError::CannotAddSelf => 6009,
            MultisigError::InvalidThreshold => 6010,
            MultisigError::ThresholdExceedsOwners => 6011,
            MultisigError::ProposalNotActive => 6012,
            MultisigError::AlreadyApproved => 6013,
            MultisigError::InsufficientApprovals => 6014,
            MultisigError::NotProposer => 6015,
            MultisigError::ProposalExpired => 6016,
            MultisigError::TimelockNotPassed => 6017,
            MultisigError::InvalidProposalType => 6018,
            MultisigError::InvalidProposal => 6019,
            MultisigError::InsufficientFunds => 6020,
            MultisigError::InvalidRecipient => 6021,
            MultisigError::Overflow => 6022,
            MultisigError::MultisigPaused => 6023,
            MultisigError::InvalidParameter => 6024,
        }
    }
}

} // verus!
