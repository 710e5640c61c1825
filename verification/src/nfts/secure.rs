//! Instructions of the hardened NFT staking program. Each instruction checks
//! its accounts and arguments and either fails, leaving them unchanged, or
//! updates them; the Metaplex Core calls that follow a success (creating the
//! collection or the asset, writing the plugins) are carried out by the
//! caller with the values left in the accounts, or, for a mint, with the
//! `AssetCreation` it returns.
use super::attributes::{
    already_staked, attrs_view, fresh_staking_attributes, find_active_stake, stake_attributes,
    stake_list, unstake_attributes, unstake_list, Attribute,
};
use super::errors::NftError;
use super::state::{
    mpl_core_id, spec_mpl_core_id, Asset, AssetCreation, AssetPlugin, Collection,
    CollectionState, PluginAuthority, PluginEntry,
    UpdateAuthority, MAX_NAME_LENGTH, MAX_URI_LENGTH,
};
use crate::decimal::decimal;
use crate::key::Pubkey;
use vstd::prelude::*;

verus! {

/// Length in bytes of the UTF-8 encoding of a text.
pub open spec fn byte_len(s: Seq<char>) -> nat {
    vstd::utf8::encode_utf8(s).len()
}

/// Why a name and a metadata URI are refused, if they are: both must be
/// non-empty and at most `MAX_NAME_LENGTH` and `MAX_URI_LENGTH` bytes long.
pub open spec fn metadata_error(name: Seq<char>, uri: Seq<char>) -> Option<NftError> {
    if name.len() == 0 {
        Some(NftError::EmptyName)
    } else if byte_len(name) > MAX_NAME_LENGTH {
        Some(NftError::NameTooLong)
    } else if uri.len() == 0 {
        Some(NftError::EmptyUri)
    } else if byte_len(uri) > MAX_URI_LENGTH {
        Some(NftError::UriTooLong)
    } else {
        None
    }
}

/// Checks a name and a metadata URI.
pub fn check_metadata(name: &String, uri: &String) -> (r: Result<(), NftError>)
    ensures
        match metadata_error(name@, uri@) {
            Some(e) => r == Err::<(), NftError>(e),
            None => r is Ok,
        },
{
    let name = name.as_str();
    let uri = uri.as_str();
    if name.is_empty() {
        return Err(NftError::EmptyName);
    }
    if !(name.as_bytes().len() <= MAX_NAME_LENGTH) {
        return Err(NftError::NameTooLong);
    }
    if uri.is_empty() {
        return Err(NftError::EmptyUri);
    }
    if !(uri.as_bytes().len() <= MAX_URI_LENGTH) {
        return Err(NftError::UriTooLong);
    }
    Ok(())
}

/// Whether the account given as the Metaplex Core program is that program.
fn is_mpl_core(program: &Pubkey) -> (r: bool)
    ensures
        r == (*program == spec_mpl_core_id()),
{
    program.same(&mpl_core_id())
}

/// Bump seed of the collection state account created by `create_collection`.
#[derive(Clone, Copy, PartialEq, Eq, Debug)]
pub struct CreateCollectionBumps {
    pub collection_state: u8,
}

/// Accounts of `create_collection`: the authority (signer), the new
/// collection's address, its tracking state being initialised, and the
/// account given as the Metaplex Core program.
pub struct CreateCollection {
    pub authority: Pubkey,
    pub collection: Pubkey,
    pub collection_state: CollectionState,
    pub mpl_core_program: Pubkey,
}

impl CreateCollection {
    /// Why `create_collection` fails, if it does.
    pub open spec fn error(self, name: Seq<char>, uri: Seq<char>) -> Option<NftError> {
        if self.mpl_core_program != spec_mpl_core_id() {
            Some(NftError::InvalidMplCoreProgram)
        } else {
            metadata_error(name, uri)
        }
    }

    /// Checks the collection's name and URI and initialises its tracking
    /// state with zero counters; the caller then creates the Metaplex Core
    /// collection with the authority as its update authority.
    pub fn create_collection(&mut self, name: String, uri: String, bumps: &CreateCollectionBumps) -> (r:
        Result<(), NftError>)
        ensures
            match old(self).error(name@, uri@) {
                Some(e) => r == Err::<(), NftError>(e) && *final(self) == *old(self),
                None => r is Ok && final(self).collection_state == (CollectionState {
                    authority: old(self).authority,
                    collection: old(self).collection,
                    total_minted: 0,
                    total_staked: 0,
                    bump: bumps.collection_state,
                }),
            },
            final(self).authority == old(self).authority,
            final(self).collection == old(self).collection,
            final(self).mpl_core_program == old(self).mpl_core_program,
    {
        if !is_mpl_core(&self.mpl_core_program) {
            return Err(NftError::InvalidMplCoreProgram);
        }
        match check_metadata(&name, &uri) {
            Ok(()) => {},
            Err(e) => {
                return Err(e);
            },
        }
        self.collection_state = CollectionState {
            authority: self.authority,
            collection: self.collection,
            total_minted: 0,
            total_staked: 0,
            bump: bumps.collection_state,
        };
        Ok(())
    }
}

/// Accounts of `mint_nft`: the authority (signer), the new asset's address,
/// the collection, its tracking state, the account given as the
/// collection's update authority, the NFT's owner, the payer, and the
/// account given as the Metaplex Core program.
pub struct MintNft {
    pub authority: Pubkey,
    pub asset: Pubkey,
    pub collection: Collection,
    pub collection_state: CollectionState,
    pub update_authority: Pubkey,
    pub owner: Pubkey,
    pub payer: Pubkey,
    pub mpl_core_program: Pubkey,
}

/// The one plugin a hardened mint gives the asset: ImmutableMetadata, with
/// no authority named.
pub open spec fn immutable_metadata_only() -> Seq<PluginEntry> {
    seq![PluginEntry { plugin: AssetPlugin::ImmutableMetadata, authority: None }]
}

impl MintNft {
    /// Why `mint_nft` fails, if it does.
    pub open spec fn error(self, name: Seq<char>, uri: Seq<char>) -> Option<NftError> {
        if self.collection.update_authority != self.update_authority {
            Some(NftError::CollectionAuthorityMismatch)
        } else if self.mpl_core_program != spec_mpl_core_id() {
            Some(NftError::InvalidMplCoreProgram)
        } else if metadata_error(name, uri) is Some {
            metadata_error(name, uri)
        } else if self.authority != self.collection_state.authority {
            Some(NftError::CollectionAuthorityMismatch)
        } else if self.collection.key != self.collection_state.collection {
            Some(NftError::InvalidCollection)
        } else if self.collection_state.total_minted == u64::MAX {
            Some(NftError::Overflow)
        } else {
            None
        }
    }

    /// Checks the NFT's name and URI and that the signer controls the
    /// collection, counts the NFT as minted, and gives the asset that the
    /// caller then creates: at the asset's address, in the collection,
    /// signed for by the authority, paid by the payer, owned by the owner,
    /// with the name and URI, and with the ImmutableMetadata plugin and no
    /// plugin authority.
    pub fn mint_nft(&mut self, name: String, uri: String) -> (r: Result<AssetCreation, NftError>)
        ensures
            match old(self).error(name@, uri@) {
                Some(e) => r == Err::<AssetCreation, NftError>(e) && *final(self) == *old(self),
                None => r matches Ok(c) && {
                    &&& final(self).collection_state == (CollectionState {
                        total_minted: (old(self).collection_state.total_minted + 1) as u64,
                        ..old(self).collection_state
                    })
                    &&& c.asset == old(self).asset
                    &&& c.collection == old(self).collection.key
                    &&& c.authority == old(self).authority
                    &&& c.payer == old(self).payer
                    &&& c.owner == old(self).owner
                    &&& c.name@ == name@
                    &&& c.uri@ == uri@
                    &&& c.plugins matches Some(ps) && ps@ == immutable_metadata_only()
                },
            },
            final(self).authority == old(self).authority,
            final(self).asset == old(self).asset,
            final(self).collection == old(self).collection,
            final(self).update_authority == old(self).update_authority,
            final(self).owner == old(self).owner,
            final(self).payer == old(self).payer,
            final(self).mpl_core_program == old(self).mpl_core_program,
    {
        if !self.collection.update_authority.same(&self.update_authority) {
            return Err(NftError::CollectionAuthorityMismatch);
        }
        if !is_mpl_core(&self.mpl_core_program) {
            return Err(NftError::InvalidMplCoreProgram);
        }
        match check_metadata(&name, &uri) {
            Ok(()) => {},
            Err(e) => {
                return Err(e);
            },
        }
        if !self.authority.same(&self.collection_state.authority) {
            return Err(NftError::CollectionAuthorityMismatch);
        }
        if !self.collection.key.same(&self.collection_state.collection) {
            return Err(NftError::InvalidCollection);
        }
        match self.collection_state.increment_minted() {
            Ok(()) => {},
            Err(e) => {
                return Err(e);
            },
        }
        let mut plugins: Vec<PluginEntry> = Vec::new();
        plugins.push(PluginEntry { plugin: AssetPlugin::ImmutableMetadata, authority: None });
        proof {
            assert(plugins@ =~= immutable_metadata_only());
        }
        Ok(
            AssetCreation {
                asset: self.asset,
                collection: self.collection.key,
                authority: self.authority,
                payer: self.payer,
                owner: self.owner,
                name,
                uri,
                plugins: Some(plugins),
            },
        )
    }
}

/// Which of the two ways a stake writes the asset's attributes: by adding
/// the Attributes plugin, or by updating it.
#[derive(Clone, Copy, PartialEq, Eq, Debug, Structural)]
pub enum PluginWrite {
    Add,
    Update,
}

/// The attribute texts of an asset after a stake at `now`, given those
/// before (`None` when it has no Attributes plugin).
pub open spec fn staked_attrs(before: Option<Vec<Attribute>>, now: i64) -> Seq<(Seq<char>, Seq<char>)> {
    match before {
        None => fresh_staking_attributes(decimal(now as int)),
        Some(l) => stake_list(attrs_view(l@), decimal(now as int)),
    }
}

/// Whether an asset's attributes are `Some` list with texts `a`.
pub open spec fn holds_attrs(attributes: Option<Vec<Attribute>>, a: Seq<(Seq<char>, Seq<char>)>) -> bool {
    attributes matches Some(l) && attrs_view(l@) == a
}

/// Whether the asset belongs to the collection with address `collection`.
fn in_collection(asset: &Asset, collection: &Pubkey) -> (r: bool)
    ensures
        r == (asset.update_authority == UpdateAuthority::Collection(*collection)),
{
    match asset.update_authority {
        UpdateAuthority::Collection(k) => k.same(collection),
        _ => false,
    }
}

/// Accounts of `stake`: the asset's owner (signer), the collection's update
/// authority (signer), the asset, the collection, its tracking state, and
/// the account given as the Metaplex Core program.
pub struct Stake {
    pub owner: Pubkey,
    pub update_authority: Pubkey,
    pub asset: Asset,
    pub collection: Collection,
    pub collection_state: CollectionState,
    pub mpl_core_program: Pubkey,
}

/// Why the accounts of a stake or an unstake are refused, if they are: the
/// owner must own the asset, the update authority must be the collection's
/// and the state's, the asset must belong to the collection, and the program
/// must be Metaplex Core.
pub open spec fn staking_accounts_error(
    owner: Pubkey,
    update_authority: Pubkey,
    asset: Asset,
    collection: Collection,
    collection_state: CollectionState,
    mpl_core_program: Pubkey,
) -> Option<NftError> {
    if asset.owner != owner {
        Some(NftError::AssetOwnerMismatch)
    } else if collection.update_authority != update_authority {
        Some(NftError::CollectionAuthorityMismatch)
    } else if mpl_core_program != spec_mpl_core_id() {
        Some(NftError::InvalidMplCoreProgram)
    } else if asset.update_authority != UpdateAuthority::Collection(collection.key) {
        Some(NftError::AssetNotInCollection)
    } else if update_authority != collection_state.authority {
        Some(NftError::CollectionAuthorityMismatch)
    } else {
        None
    }
}

/// Checks the accounts of a stake or an unstake.
fn check_staking_accounts(
    owner: &Pubkey,
    update_authority: &Pubkey,
    asset: &Asset,
    collection: &Collection,
    collection_state: &CollectionState,
    mpl_core_program: &Pubkey,
) -> (r: Result<(), NftError>)
    ensures
        match staking_accounts_error(
            *owner,
            *update_authority,
            *asset,
            *collection,
            *collection_state,
            *mpl_core_program,
        ) {
            Some(e) => r == Err::<(), NftError>(e),
            None => r is Ok,
        },
{
    if !asset.owner.same(owner) {
        return Err(NftError::AssetOwnerMismatch);
    }
    if !collection.update_authority.same(update_authority) {
        return Err(NftError::CollectionAuthorityMismatch);
    }
    if !is_mpl_core(mpl_core_program) {
        return Err(NftError::InvalidMplCoreProgram);
    }
    if !in_collection(asset, &collection.key) {
        return Err(NftError::AssetNotInCollection);
    }
    if !update_authority.same(&collection_state.authority) {
        return Err(NftError::CollectionAuthorityMismatch);
    }
    Ok(())
}

impl Stake {
    /// Why `stake` fails, if it does.
    pub open spec fn error(self) -> Option<NftError> {
        match staking_accounts_error(
            self.owner,
            self.update_authority,
            self.asset,
            self.collection,
            self.collection_state,
            self.mpl_core_program,
        ) {
            Some(e) => Some(e),
            None => if self.asset.attributes matches Some(l) && already_staked(attrs_view(l@)) {
                Some(NftError::AlreadyStaked)
            } else if self.collection_state.total_staked == u64::MAX {
                Some(NftError::Overflow)
            } else {
                None
            },
        }
    }

    /// Stakes the asset at `now` (the cluster clock): marks it staked at
    /// `now` in its attributes, freezes it under the collection's update
    /// authority (so that only this program can thaw it), and counts it as
    /// staked. A staked asset cannot be staked again. The result says whether
    /// the caller adds or updates the Attributes plugin.
    pub fn stake(&mut self, now: i64) -> (r: Result<PluginWrite, NftError>)
        ensures
            match old(self).error() {
                Some(e) => r == Err::<PluginWrite, NftError>(e) && *final(self) == *old(self),
                None => {
                    &&& r == Ok::<PluginWrite, NftError>(
                        if old(self).asset.attributes is None {
                            PluginWrite::Add
                        } else {
                            PluginWrite::Update
                        },
                    )
                    &&& holds_attrs(final(self).asset.attributes, staked_attrs(old(self).asset.attributes, now))
                    &&& final(self).asset.freeze_delegate == Some(PluginAuthority::UpdateAuthority)
                    &&& final(self).asset.owner == old(self).asset.owner
                    &&& final(self).asset.update_authority == old(self).asset.update_authority
                    &&& final(self).collection_state == (CollectionState {
                        total_staked: (old(self).collection_state.total_staked + 1) as u64,
                        ..old(self).collection_state
                    })
                },
            },
            final(self).owner == old(self).owner,
            final(self).update_authority == old(self).update_authority,
            final(self).collection == old(self).collection,
            final(self).mpl_core_program == old(self).mpl_core_program,
    {
        match check_staking_accounts(
            &self.owner,
            &self.update_authority,
            &self.asset,
            &self.collection,
            &self.collection_state,
            &self.mpl_core_program,
        ) {
            Ok(()) => {},
            Err(e) => {
                return Err(e);
            },
        }
        let (list, write) = match &self.asset.attributes {
            Some(l) => {
                if find_active_stake(l) {
                    return Err(NftError::AlreadyStaked);
                }
                (stake_attributes(l, now), PluginWrite::Update)
            },
            None => {
                let empty: Vec<Attribute> = Vec::new();
                let fresh = stake_attributes(&empty, now);
                proof {
                    let e = attrs_view(empty@);
                    assert(e =~= Seq::<(Seq<char>, Seq<char>)>::empty());
                    assert(!super::attributes::has_key(e, super::attributes::staked_key()));
                    assert(e + fresh_staking_attributes(decimal(now as int)) =~= fresh_staking_attributes(
                        decimal(now as int),
                    ));
                }
                (fresh, PluginWrite::Add)
            },
        };
        if self.collection_state.total_staked == u64::MAX {
            return Err(NftError::Overflow);
        }
        let _ = self.collection_state.increment_staked();
        self.asset.attributes = Some(list);
        self.asset.freeze_delegate = Some(PluginAuthority::UpdateAuthority);
        Ok(write)
    }
}

/// Accounts of `unstake`: the asset's owner (signer), the collection's
/// update authority (signer), the asset, the collection, its tracking state,
/// and the account given as the Metaplex Core program.
pub struct Unstake {
    pub owner: Pubkey,
    pub update_authority: Pubkey,
    pub asset: Asset,
    pub collection: Collection,
    pub collection_state: CollectionState,
    pub mpl_core_program: Pubkey,
}

impl Unstake {
    /// Why `unstake` fails, if it does.
    pub open spec fn error(self, now: i64) -> Option<NftError> {
        match staking_accounts_error(
            self.owner,
            self.update_authority,
            self.asset,
            self.collection,
            self.collection_state,
            self.mpl_core_program,
        ) {
            Some(e) => Some(e),
            None => match self.asset.attributes {
                None => Some(NftError::AttributesNotInitialized),
                Some(l) => match unstake_list(attrs_view(l@), now) {
                    Err(e) => Some(e),
                    Ok(_) => if self.collection_state.total_staked == 0 {
                        Some(NftError::Underflow)
                    } else {
                        None
                    },
                },
            },
        }
    }

    /// Unstakes the asset at `now` (the cluster clock): adds the seconds
    /// since the stake to the accumulated staking time, marks the asset not
    /// staked, thaws it (its FreezeDelegate plugin is removed), and counts it
    /// as no longer staked. The caller then updates the Attributes plugin.
    pub fn unstake(&mut self, now: i64) -> (r: Result<(), NftError>)
        ensures
            match old(self).error(now) {
                Some(e) => r == Err::<(), NftError>(e) && *final(self) == *old(self),
                None => {
                    &&& r is Ok
                    &&& holds_attrs(
                        final(self).asset.attributes,
                        unstake_list(attrs_view(old(self).asset.attributes->0@), now)->Ok_0,
                    )
                    &&& final(self).asset.freeze_delegate is None
                    &&& final(self).asset.owner == old(self).asset.owner
                    &&& final(self).asset.update_authority == old(self).asset.update_authority
                    &&& final(self).collection_state == (CollectionState {
                        total_staked: (old(self).collection_state.total_staked - 1) as u64,
                        ..old(self).collection_state
                    })
                },
            },
            final(self).owner == old(self).owner,
            final(self).update_authority == old(self).update_authority,
            final(self).collection == old(self).collection,
            final(self).mpl_core_program == old(self).mpl_core_program,
    {
        match check_staking_accounts(
            &self.owner,
            &self.update_authority,
            &self.asset,
            &self.collection,
            &self.collection_state,
            &self.mpl_core_program,
        ) {
            Ok(()) => {},
            Err(e) => {
                return Err(e);
            },
        }
        let list = match &self.asset.attributes {
            None => {
                return Err(NftError::AttributesNotInitialized);
            },
            Some(l) => match unstake_attributes(l, now) {
                Ok(v) => v,
                Err(e) => {
                    return Err(e);
                },
            },
        };
        if self.collection_state.total_staked == 0 {
            return Err(NftError::Underflow);
        }
        let _ = self.collection_state.decrement_staked();
        self.asset.attributes = Some(list);
        self.asset.freeze_delegate = None;
        Ok(())
    }
}

} // verus!
