//! Errors of the NFT staking programs.
use vstd::prelude::*;

verus! {

/// The errors that the NFT staking programs declare, in declaration order.
#[derive(Clone, Copy, PartialEq, Eq, Debug, Structural)]
pub enum NftError {
    CollectionAlreadyInitialized,
    CollectionAuthorityMismatch,
    InvalidCollection,
    AssetOwnerMismatch,
    AssetNotInCollection,
    AlreadyStaked,
    NotStaked,
    StakingNotInitialized,
    AttributesNotInitialized,
    InvalidTimestamp,
    Overflow,
    Underflow,
    NameTooLong,
    UriTooLong,
    EmptyName,
    EmptyUri,
    InvalidMplCoreProgram,
    UnauthorizedAuthority,
    UnauthorizedOwner,
    FreezeDelegateNotFound,
    MinimumStakeDurationNotMet,
    InvalidPayer,
}

/// The position of an error in the declaration.
pub open spec fn error_index(e: NftError) -> nat {
    match e {
        NftError::CollectionAlreadyInitialized => 0,
        NftError::CollectionAuthorityMismatch => 1,
        NftError::InvalidCollection => 2,
        NftError::AssetOwnerMismatch => 3,
        NftError::AssetNotInCollection => 4,
        NftError::AlreadyStaked => 5,
        NftError::NotStaked => 6,
        NftError::StakingNotInitialized => 7,
        NftError::AttributesNotInitialized => 8,
        NftError::InvalidTimestamp => 9,
        NftError::Overflow => 10,
        NftError::Underflow => 11,
        NftError::NameTooLong => 12,
        NftError::UriTooLong => 13,
        NftError::EmptyName => 14,
        NftError::EmptyUri => 15,
        NftError::InvalidMplCoreProgram => 16,
        NftError::UnauthorizedAuthority => 17,
        NftError::UnauthorizedOwner => 18,
        NftError::FreezeDelegateNotFound => 19,
        NftError::MinimumStakeDurationNotMet => 20,
        NftError::InvalidPayer => 21,
    }
}

impl NftError {
    /// The custom program error number reported on chain: 6000 plus the
    /// error's position in the declaration.
    pub fn code(&self) -> (c: u32)
        ensures
            c == 6000 + error_index(*self),
    {
        match self {
            NftError::CollectionAlreadyInitialized => 6000,
            NftError::CollectionAuthorityMismatch => 6001,
            NftError::InvalidCollection => 6002,
            NftError::AssetOwnerMismatch => 6003,
            NftError::AssetNotInCollection => 6004,
            NftError::AlreadyStaked => 6005,
            NftError::NotStaked => 6006,
            NftError::StakingNotInitialized => 6007,
            NftError::AttributesNotInitialized => 6008,
            NftError::InvalidTimestamp => 6009,
            NftError::Overflow => 6010,
            NftError::Underflow => 6011,
            NftError::NameTooLong => 6012,
            NftError::UriTooLong => 6013,
            NftError::EmptyName => 6014,
            NftError::EmptyUri => 6015,
            NftError::InvalidMplCoreProgram => 6016,
            NftError::UnauthorizedAuthority => 6017,
            NftError::UnauthorizedOwner => 6018,
            NftError::FreezeDelegateNotFound => 6019,
            NftError::MinimumStakeDurationNotMet => 6020,
            NftError::InvalidPayer => 6021,
        }
    }
}

} // verus!
