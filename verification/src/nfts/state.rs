//! Accounts of the NFT staking programs: the collection's tracking state and
//! the parts of Metaplex Core assets and collections that the programs read.
use super::attributes::Attribute;
use super::errors::NftError;
use crate::key::Pubkey;
use vstd::prelude::*;

verus! {

/// Longest collection or NFT name, in bytes.
pub const MAX_NAME_LENGTH: usize = 32;

/// Longest collection or NFT metadata URI, in bytes.
pub const MAX_URI_LENGTH: usize = 200;

/// Staking period that the programs advertise (30 days, in seconds); no
/// instruction enforces it.
pub const MIN_STAKE_DURATION: i64 = 30 * 24 * 60 * 60;

/// The address of the Metaplex Core program,
/// `CoREENxT6tW1HoK8ypY1SxRMZTcVPm7R94rH4PZNhX7d`.
pub open spec fn spec_mpl_core_id() -> Pubkey {
    Pubkey(
        [
            175, 84, 171, 16, 189, 151, 165, 66, 160, 158, 247, 179, 152, 137, 221, 12,
            211, 148, 164, 204, 233, 223, 166, 205, 201, 126, 190, 45, 35, 91, 167, 72,
        ],
    )
}

/// The address of the Metaplex Core program.
pub fn mpl_core_id() -> (k: Pubkey)
    ensures
        k == spec_mpl_core_id(),
{
    Pubkey(
        [
            175, 84, 171, 16, 189, 151, 165, 66, 160, 158, 247, 179, 152, 137, 221, 12,
            211, 148, 164, 204, 233, 223, 166, 205, 201, 126, 190, 45, 35, 91, 167, 72,
        ],
    )
}

/// Who may update an asset: nobody (`Nobody`), an address, or the collection it
/// belongs to.
#[derive(Clone, Copy, PartialEq, Eq, Debug)]
pub enum UpdateAuthority {
    Nobody,
    Address(Pubkey),
    Collection(Pubkey),
}

/// Who may manage a plugin of an asset (`Nobody` when no one may).
#[derive(Clone, Copy, PartialEq, Eq, Debug)]
pub enum PluginAuthority {
    Nobody,
    Owner,
    UpdateAuthority,
    Address(Pubkey),
}

/// A plugin that an asset may be created with.
#[derive(Clone, Copy, PartialEq, Eq, Debug, Structural)]
pub enum AssetPlugin {
    /// Freezes the asset's name and URI.
    ImmutableMetadata,
}

/// A plugin an asset is created with, and who manages it (`None`: the
/// plugin's default authority).
#[derive(Clone, Copy, PartialEq, Eq, Debug)]
pub struct PluginEntry {
    pub plugin: AssetPlugin,
    pub authority: Option<PluginAuthority>,
}

/// The Metaplex Core asset that a mint asks the caller to create: its
/// address, the collection it joins, the authority that signs for the
/// collection, the payer, its owner, its name and metadata URI, and the
/// plugins it starts with (`None`: no plugin list is given).
#[derive(PartialEq, Eq, Debug)]
pub struct AssetCreation {
    pub asset: Pubkey,
    pub collection: Pubkey,
    pub authority: Pubkey,
    pub payer: Pubkey,
    pub owner: Pubkey,
    pub name: String,
    pub uri: String,
    pub plugins: Option<Vec<PluginEntry>>,
}

/// The parts of a Metaplex Core asset that the programs read or change: its
/// owner, its update authority, the attribute list of its Attributes plugin
/// (`None` when it has no such plugin) and the authority of its
/// FreezeDelegate plugin (`None` when it has none).
pub struct Asset {
    pub owner: Pubkey,
    pub update_authority: UpdateAuthority,
    pub attributes: Option<Vec<Attribute>>,
    pub freeze_delegate: Option<PluginAuthority>,
}

/// The parts of a Metaplex Core collection that the programs read: its
/// address and its update authority.
#[derive(Clone, Copy, PartialEq, Eq, Debug)]
pub struct Collection {
    pub key: Pubkey,
    pub update_authority: Pubkey,
}

/// Tracking state of a collection: who controls it, which Metaplex Core
/// collection it is, and how many of its NFTs were minted and are staked.
#[derive(Clone, Copy, PartialEq, Eq, Debug)]
pub struct CollectionState {
    pub authority: Pubkey,
    pub collection: Pubkey,
    pub total_minted: u64,
    pub total_staked: u64,
    pub bump: u8,
}

impl CollectionState {
    /// Adds one to the minted counter, or fails with `Overflow` at the top of
    /// the range, leaving the state unchanged.
    pub fn increment_minted(&mut self) -> (r: Result<(), NftError>)
        ensures
            old(self).total_minted == u64::MAX ==> r == Err::<(), NftError>(NftError::Overflow)
                && *final(self) == *old(self),
            old(self).total_minted < u64::MAX ==> r is Ok && *final(self) == (CollectionState {
                total_minted: (old(self).total_minted + 1) as u64,
                ..*old(self)
            }),
    {
        match self.total_minted.checked_add(1) {
            Some(n) => {
                self.total_minted = n;
                Ok(())
            },
            None => Err(NftError::Overflow),
        }
    }

    /// Adds one to the staked counter, or fails with `Overflow` at the top of
    /// the range, leaving the state unchanged.
    pub fn increment_staked(&mut self) -> (r: Result<(), NftError>)
        ensures
            old(self).total_staked == u64::MAX ==> r == Err::<(), NftError>(NftError::Overflow)
                && *final(self) == *old(self),
            old(self).total_staked < u64::MAX ==> r is Ok && *final(self) == (CollectionState {
                total_staked: (old(self).total_staked + 1) as u64,
                ..*old(self)
            }),
    {
        match self.total_staked.checked_add(1) {
            Some(n) => {
                self.total_staked = n;
                Ok(())
            },
            None => Err(NftError::Overflow),
        }
    }

    /// Takes one from the staked counter, or fails with `Underflow` at zero,
    /// leaving the state unchanged.
    pub fn decrement_staked(&mut self) -> (r: Result<(), NftError>)
        ensures
            old(self).total_staked == 0 ==> r == Err::<(), NftError>(NftError::Underflow)
                && *final(self) == *old(self),
            old(self).total_staked > 0 ==> r is Ok && *final(self) == (CollectionState {
                total_staked: (old(self).total_staked - 1) as u64,
                ..*old(self)
            }),
    {
        match self.total_staked.checked_sub(1) {
            Some(n) => {
                self.total_staked = n;
                Ok(())
            },
            None => Err(NftError::Underflow),
        }
    }
}

} // verus!
