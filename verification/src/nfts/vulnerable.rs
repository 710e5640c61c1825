//! Instructions of the weakened NFT staking program: the same accounts as
//! the hardened one, but only the Metaplex Core program is checked. Names and
//! URIs are not validated, anyone may mint and stake, a staked asset can be
//! staked again, unreadable times count as zero, the freeze is placed under
//! the owner's authority, and the counters use unchecked arithmetic (which
//! aborts the program at the ends of the range; such inputs are excluded by
//! the `requires` clauses).
use super::attributes::{
    attrs_view, fresh_staking_attributes, has_key, loose_unstake_fold, stake_attributes,
    staked_key, staked_time_key, Attribute,
};
use super::errors::NftError;
use super::secure::{holds_attrs, staked_attrs, CreateCollectionBumps, PluginWrite};
use super::state::{
    mpl_core_id, spec_mpl_core_id, Asset, AssetCreation, Collection, CollectionState,
    PluginAuthority,
};
use super::attributes::{loose_unstake_fits, unstake_attributes_unchecked};
use crate::decimal::decimal;
use crate::key::Pubkey;
use vstd::prelude::*;

verus! {

/// The attribute texts of an asset after an unstake at `now` that trusts
/// the values, given those before.
pub open spec fn loose_unstaked_attrs(before: Seq<(Seq<char>, Seq<char>)>, now: i64) -> Seq<
    (Seq<char>, Seq<char>),
> {
    let st = loose_unstake_fold(before, now)->0;
    st.1.push((staked_time_key(), decimal(st.0)))
}

/// Accounts of `create_collection`: the authority (signer), the new
/// collection's address, its tracking state being initialised, and the
/// account given as the Metaplex Core program.
pub struct CreateCollection {
    pub authority: Pubkey,
    pub collection: Pubkey,
    pub collection_state: CollectionState,
    pub mpl_core_program: Pubkey,
}

impl CreateCollection {
    /// Initialises the collection's tracking state with zero counters,
    /// whatever the name and URI; the caller then creates the Metaplex Core
    /// collection.
    pub fn create_collection(&mut self, name: String, uri: String, bumps: &CreateCollectionBumps) -> (r:
        Result<(), NftError>)
        ensures
            old(self).mpl_core_program != spec_mpl_core_id() ==> r == Err::<(), NftError>(
                NftError::InvalidMplCoreProgram,
            ) && *final(self) == *old(self),
            old(self).mpl_core_program == spec_mpl_core_id() ==> r is Ok
                && final(self).collection_state == (CollectionState {
                authority: old(self).authority,
                collection: old(self).collection,
                total_minted: 0,
                total_staked: 0,
                bump: bumps.collection_state,
            }),
            final(self).authority == old(self).authority,
            final(self).collection == old(self).collection,
            final(self).mpl_core_program == old(self).mpl_core_program,
    {
        if !self.mpl_core_program.same(&mpl_core_id()) {
            return Err(NftError::InvalidMplCoreProgram);
        }
        self.collection_state = CollectionState {
            authority: self.authority,
            collection: self.collection,
            total_minted: 0,
            total_staked: 0,
            bump: bumps.collection_state,
        };
        Ok(())
    }
}

/// Accounts of `mint_nft`: the authority (signer), the new asset's address,
/// the collection, its tracking state, the NFT's owner, the payer, and the
/// account given as the Metaplex Core program.
pub struct MintNft {
    pub authority: Pubkey,
    pub asset: Pubkey,
    pub collection: Collection,
    pub collection_state: CollectionState,
    pub owner: Pubkey,
    pub payer: Pubkey,
    pub mpl_core_program: Pubkey,
}

impl MintNft {
    /// Whether `mint_nft` aborts: the minted counter is at the top of its
    /// range.
    pub open spec fn panics(self) -> bool {
        self.mpl_core_program == spec_mpl_core_id() && self.collection_state.total_minted == u64::MAX
    }

    /// Whether `mint_nft` would abort (see `panics`).
    pub fn would_panic(&self) -> (r: bool)
        ensures
            r == self.panics(),
    {
        self.mpl_core_program.same(&mpl_core_id()) && self.collection_state.total_minted == u64::MAX
    }

    /// Counts an NFT as minted, whoever signs and whatever the name and URI,
    /// and gives the asset that the caller then creates: at the asset's
    /// address, in the collection, signed for by the authority, paid by the
    /// payer, owned by the owner, with the name and URI as given and no
    /// plugin list.
    pub fn mint_nft(&mut self, name: String, uri: String) -> (r: Result<AssetCreation, NftError>)
        requires
            !old(self).panics(),
        ensures
            old(self).mpl_core_program != spec_mpl_core_id() ==> r == Err::<AssetCreation, NftError>(
                NftError::InvalidMplCoreProgram,
            ) && *final(self) == *old(self),
            old(self).mpl_core_program == spec_mpl_core_id() ==> (r matches Ok(c) && {
                &&& final(self).collection_state == (CollectionState {
                    total_minted: (old(self).collection_state.total_minted + 1) as u64,
                    ..old(self).collection_state
                })
                &&& c.asset == old(self).asset
                &&& c.collection == old(self).collection.key
                &&& c.authority == old(self).authority
                &&& c.payer == old(self).payer
                &&& c.owner == old(self).owner
                &&& c.name@ == name@
                &&& c.uri@ == uri@
                &&& c.plugins is None
            }),
            final(self).authority == old(self).authority,
            final(self).asset == old(self).asset,
            final(self).collection == old(self).collection,
            final(self).owner == old(self).owner,
            final(self).payer == old(self).payer,
            final(self).mpl_core_program == old(self).mpl_core_program,
    {
        if !self.mpl_core_program.same(&mpl_core_id()) {
            return Err(NftError::InvalidMplCoreProgram);
        }
        self.collection_state.total_minted = self.collection_state.total_minted + 1;
        Ok(
            AssetCreation {
                asset: self.asset,
                collection: self.collection.key,
                authority: self.authority,
                payer: self.payer,
                owner: self.owner,
                name,
                uri,
                plugins: None,
            },
        )
    }
}

/// Accounts of `stake`: the asset's owner, the collection's update
/// authority, the asset, the collection, its tracking state, and the account
/// given as the Metaplex Core program.
pub struct Stake {
    pub owner: Pubkey,
    pub update_authority: Pubkey,
    pub asset: Asset,
    pub collection: Collection,
    pub collection_state: CollectionState,
    pub mpl_core_program: Pubkey,
}

impl Stake {
    /// Whether `stake` aborts: the staked counter is at the top of its range.
    pub open spec fn panics(self) -> bool {
        self.mpl_core_program == spec_mpl_core_id() && self.collection_state.total_staked == u64::MAX
    }

    /// Whether `stake` would abort (see `panics`).
    pub fn would_panic(&self) -> (r: bool)
        ensures
            r == self.panics(),
    {
        self.mpl_core_program.same(&mpl_core_id()) && self.collection_state.total_staked == u64::MAX
    }

    /// Stakes the asset at `now` without checking who owns it, whether it
    /// belongs to the collection or whether it is already staked: restamps
    /// its `staked` attributes, freezes it under its owner's authority (so
    /// that the owner can thaw it outside the program), and counts it as
    /// staked.
    pub fn stake(&mut self, now: i64) -> (r: Result<PluginWrite, NftError>)
        requires
            !old(self).panics(),
        ensures
            old(self).mpl_core_program != spec_mpl_core_id() ==> r == Err::<PluginWrite, NftError>(
                NftError::InvalidMplCoreProgram,
            ) && *final(self) == *old(self),
            old(self).mpl_core_program == spec_mpl_core_id() ==> {
                &&& r == Ok::<PluginWrite, NftError>(
                    if old(self).asset.attributes is None {
                        PluginWrite::Add
                    } else {
                        PluginWrite::Update
                    },
                )
                &&& holds_attrs(final(self).asset.attributes, staked_attrs(old(self).asset.attributes, now))
                &&& final(self).asset.freeze_delegate == Some(PluginAuthority::Owner)
                &&& final(self).asset.owner == old(self).asset.owner
                &&& final(self).asset.update_authority == old(self).asset.update_authority
                &&& final(self).collection_state == (CollectionState {
                    total_staked: (old(self).collection_state.total_staked + 1) as u64,
                    ..old(self).collection_state
                })
            },
            final(self).owner == old(self).owner,
            final(self).update_authority == old(self).update_authority,
            final(self).collection == old(self).collection,
            final(self).mpl_core_program == old(self).mpl_core_program,
    {
        if !self.mpl_core_program.same(&mpl_core_id()) {
            return Err(NftError::InvalidMplCoreProgram);
        }
        let (list, write) = match &self.asset.attributes {
            Some(l) => (stake_attributes(l, now), PluginWrite::Update),
            None => {
                let empty: Vec<Attribute> = Vec::new();
                let fresh = stake_attributes(&empty, now);
                proof {
                    let e = attrs_view(empty@);
                    assert(e =~= Seq::<(Seq<char>, Seq<char>)>::empty());
                    assert(!has_key(e, staked_key()));
                    assert(e + fresh_staking_attributes(decimal(now as int)) =~= fresh_staking_attributes(
                        decimal(now as int),
                    ));
                }
                (fresh, PluginWrite::Add)
            },
        };
        self.collection_state.total_staked = self.collection_state.total_staked + 1;
        self.asset.attributes = Some(list);
        self.asset.freeze_delegate = Some(PluginAuthority::Owner);
        Ok(write)
    }
}

/// Accounts of `unstake`: the asset's owner, the collection's update
/// authority, the asset, the collection, its tracking state, and the account
/// given as the Metaplex Core program.
pub struct Unstake {
    pub owner: Pubkey,
    pub update_authority: Pubkey,
    pub asset: Asset,
    pub collection: Collection,
    pub collection_state: CollectionState,
    pub mpl_core_program: Pubkey,
}

impl Unstake {
    /// Whether `unstake` at `now` aborts: a sum of times leaves the `i64`
    /// range, or the staked counter is at zero.
    pub open spec fn panics(self, now: i64) -> bool {
        &&& self.mpl_core_program == spec_mpl_core_id()
        &&& self.asset.attributes matches Some(l) && (loose_unstake_fold(attrs_view(l@), now) is None
            || self.collection_state.total_staked == 0)
    }

    /// Whether `unstake` at `now` would abort (see `panics`).
    pub fn would_panic(&self, now: i64) -> (r: bool)
        ensures
            r == self.panics(now),
    {
        if !self.mpl_core_program.same(&mpl_core_id()) {
            return false;
        }
        match &self.asset.attributes {
            None => false,
            Some(l) => !loose_unstake_fits(l, now) || self.collection_state.total_staked == 0,
        }
    }

    /// Unstakes the asset at `now` without checking who owns it or whether
    /// it is staked: adds the seconds since each `staked` time (an unreadable
    /// one counts as `0`) to the accumulated time, marks it not staked, thaws
    /// it, and counts it as no longer staked.
    pub fn unstake(&mut self, now: i64) -> (r: Result<(), NftError>)
        requires
            !old(self).panics(now),
        ensures
            old(self).mpl_core_program != spec_mpl_core_id() ==> r == Err::<(), NftError>(
                NftError::InvalidMplCoreProgram,
            ) && *final(self) == *old(self),
            old(self).mpl_core_program == spec_mpl_core_id() && old(self).asset.attributes is None
                ==> r == Err::<(), NftError>(NftError::AttributesNotInitialized) && *final(self)
                == *old(self),
            old(self).mpl_core_program == spec_mpl_core_id() && old(self).asset.attributes is Some
                ==> {
                &&& r is Ok
                &&& holds_attrs(
                    final(self).asset.attributes,
                    loose_unstaked_attrs(attrs_view(old(self).asset.attributes->0@), now),
                )
                &&& final(self).asset.freeze_delegate is None
                &&& final(self).asset.owner == old(self).asset.owner
                &&& final(self).asset.update_authority == old(self).asset.update_authority
                &&& final(self).collection_state == (CollectionState {
                    total_staked: (old(self).collection_state.total_staked - 1) as u64,
                    ..old(self).collection_state
                })
            },
            final(self).owner == old(self).owner,
            final(self).update_authority == old(self).update_authority,
            final(self).collection == old(self).collection,
            final(self).mpl_core_program == old(self).mpl_core_program,
    {
        if !self.mpl_core_program.same(&mpl_core_id()) {
            return Err(NftError::InvalidMplCoreProgram);
        }
        let list = match &self.asset.attributes {
            None => {
                return Err(NftError::AttributesNotInitialized);
            },
            Some(l) => unstake_attributes_unchecked(l, now),
        };
        self.collection_state.total_staked = self.collection_state.total_staked - 1;
        self.asset.attributes = Some(list);
        self.asset.freeze_delegate = None;
        Ok(())
    }
}

} // verus!
