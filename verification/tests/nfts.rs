use soteria::key::Pubkey;
use soteria::nfts::attributes::{Attribute, STAKED_KEY, STAKED_TIME_KEY};
use soteria::nfts::errors::NftError;
use soteria::nfts::secure::{
    check_metadata, CreateCollection, CreateCollectionBumps, MintNft, PluginWrite, Stake, Unstake,
};
use soteria::nfts::state::{
    mpl_core_id, Asset, AssetCreation, AssetPlugin, Collection, PluginEntry, CollectionState, PluginAuthority, UpdateAuthority, MAX_NAME_LENGTH,
    MIN_STAKE_DURATION,
};
use soteria::nfts::vulnerable;

fn key(n: u8) -> Pubkey {
    let mut b = [0u8; 32];
    b[0] = n;
    b[31] = 0x5a ^ n;
    Pubkey(b)
}

fn blank_state() -> CollectionState {
    CollectionState { authority: Pubkey([0u8; 32]), collection: Pubkey([0u8; 32]), total_minted: 0, total_staked: 0, bump: 0 }
}

fn attr(k: &str, v: &str) -> Attribute {
    Attribute { key: k.to_string(), value: v.to_string() }
}

fn texts(list: &Option<Vec<Attribute>>) -> Vec<(String, String)> {
    list.as_ref().expect("attributes expected").iter().map(|a| (a.key.clone(), a.value.clone())).collect()
}

fn pair(k: &str, v: &str) -> (String, String) {
    (k.to_string(), v.to_string())
}

fn fresh_asset(owner: Pubkey, collection: Pubkey) -> Asset {
    Asset { owner, update_authority: UpdateAuthority::Collection(collection), attributes: None, freeze_delegate: None }
}

fn stake_ctx(owner: Pubkey, authority: Pubkey, asset: Asset, collection: Collection, state: CollectionState) -> Stake {
    Stake { owner, update_authority: authority, asset, collection, collection_state: state, mpl_core_program: mpl_core_id() }
}

fn unstake_ctx(owner: Pubkey, authority: Pubkey, asset: Asset, collection: Collection, state: CollectionState) -> Unstake {
    Unstake { owner, update_authority: authority, asset, collection, collection_state: state, mpl_core_program: mpl_core_id() }
}

#[test]
fn test_happy_path_full_flow() {
    let authority = key(1);
    let owner = key(2);
    let collection_key = key(3);

    // Step 1: create the collection.
    let mut create = CreateCollection {
        authority,
        collection: collection_key,
        collection_state: blank_state(),
        mpl_core_program: mpl_core_id(),
    };
    create
        .create_collection(
            "Test Collection".to_string(),
            "https://example.com/collection.json".to_string(),
            &CreateCollectionBumps { collection_state: 254 },
        )
        .expect("create_collection failed");
    assert_eq!(create.collection_state.authority, authority);
    assert_eq!(create.collection_state.collection, collection_key);
    assert_eq!(create.collection_state.total_minted, 0);
    let collection = Collection { key: collection_key, update_authority: authority };

    // Step 2: mint an NFT.
    let mut mint = MintNft {
        authority,
        asset: key(40),
        collection,
        collection_state: create.collection_state,
        update_authority: authority,
        owner,
        payer: authority,
        mpl_core_program: mpl_core_id(),
    };
    let created = mint
        .mint_nft("Test NFT #1".to_string(), "https://example.com/nft1.json".to_string())
        .expect("mint_nft failed");
    assert_eq!(mint.collection_state.total_minted, 1);
    assert_eq!(
        created,
        AssetCreation {
            asset: key(40),
            collection: collection_key,
            authority,
            payer: authority,
            owner,
            name: "Test NFT #1".to_string(),
            uri: "https://example.com/nft1.json".to_string(),
            plugins: Some(vec![PluginEntry { plugin: AssetPlugin::ImmutableMetadata, authority: None }]),
        }
    );

    // Step 3: stake it.
    let start: i64 = 1_700_000_000;
    let mut stake = stake_ctx(owner, authority, fresh_asset(owner, collection_key), collection, mint.collection_state);
    assert_eq!(stake.stake(start), Ok(PluginWrite::Add));
    assert_eq!(stake.asset.freeze_delegate, Some(PluginAuthority::UpdateAuthority));
    assert_eq!(stake.collection_state.total_staked, 1);
    assert_eq!(texts(&stake.asset.attributes), vec![pair(STAKED_KEY, "1700000000"), pair(STAKED_TIME_KEY, "0")]);

    // Step 4: 30 days later, unstake it.
    let now = start + MIN_STAKE_DURATION;
    let mut unstake = unstake_ctx(owner, authority, stake.asset, collection, stake.collection_state);
    assert_eq!(unstake.unstake(now), Ok(()));
    assert_eq!(unstake.asset.freeze_delegate, None);
    assert_eq!(unstake.collection_state.total_staked, 0);
    assert_eq!(texts(&unstake.asset.attributes), vec![pair(STAKED_KEY, "0"), pair(STAKED_TIME_KEY, "2592000")]);
}

#[test]
fn second_cycle_accumulates_staking_time() {
    let authority = key(1);
    let owner = key(2);
    let collection = Collection { key: key(3), update_authority: authority };
    let state = CollectionState { authority, collection: key(3), total_minted: 1, total_staked: 0, bump: 1 };
    let asset = Asset {
        owner,
        update_authority: UpdateAuthority::Collection(key(3)),
        attributes: Some(vec![attr("level", "7"), attr(STAKED_KEY, "0"), attr(STAKED_TIME_KEY, "100")]),
        freeze_delegate: None,
    };
    let mut stake = stake_ctx(owner, authority, asset, collection, state);
    assert_eq!(stake.stake(500), Ok(PluginWrite::Update));
    assert_eq!(
        texts(&stake.asset.attributes),
        vec![pair("level", "7"), pair(STAKED_KEY, "500"), pair(STAKED_TIME_KEY, "100")]
    );
    let mut unstake = unstake_ctx(owner, authority, stake.asset, collection, stake.collection_state);
    assert_eq!(unstake.unstake(800), Ok(()));
    assert_eq!(
        texts(&unstake.asset.attributes),
        vec![pair("level", "7"), pair(STAKED_KEY, "0"), pair(STAKED_TIME_KEY, "400")]
    );
}

#[test]
fn staked_asset_cannot_be_staked_again() {
    let authority = key(1);
    let owner = key(2);
    let collection = Collection { key: key(3), update_authority: authority };
    let state = CollectionState { authority, collection: key(3), total_minted: 1, total_staked: 0, bump: 1 };
    let mut stake = stake_ctx(owner, authority, fresh_asset(owner, key(3)), collection, state);
    assert_eq!(stake.stake(10), Ok(PluginWrite::Add));
    let before = texts(&stake.asset.attributes);
    assert_eq!(stake.stake(20), Err(NftError::AlreadyStaked));
    assert_eq!(texts(&stake.asset.attributes), before);
    assert_eq!(stake.collection_state.total_staked, 1);
}

#[test]
fn stake_account_checks() {
    let authority = key(1);
    let owner = key(2);
    let collection = Collection { key: key(3), update_authority: authority };
    let state = CollectionState { authority, collection: key(3), total_minted: 1, total_staked: 0, bump: 1 };

    let mut s = stake_ctx(key(9), authority, fresh_asset(owner, key(3)), collection, state);
    assert_eq!(s.stake(10), Err(NftError::AssetOwnerMismatch));

    let mut s = stake_ctx(owner, key(8), fresh_asset(owner, key(3)), collection, state);
    assert_eq!(s.stake(10), Err(NftError::CollectionAuthorityMismatch));

    let mut s = stake_ctx(owner, authority, fresh_asset(owner, key(3)), collection, state);
    s.mpl_core_program = key(7);
    assert_eq!(s.stake(10), Err(NftError::InvalidMplCoreProgram));

    let mut s = stake_ctx(owner, authority, fresh_asset(owner, key(4)), collection, state);
    assert_eq!(s.stake(10), Err(NftError::AssetNotInCollection));

    let other_state = CollectionState { authority: key(6), ..state };
    let mut s = stake_ctx(owner, authority, fresh_asset(owner, key(3)), collection, other_state);
    assert_eq!(s.stake(10), Err(NftError::CollectionAuthorityMismatch));

    let full = CollectionState { total_staked: u64::MAX, ..state };
    let mut s = stake_ctx(owner, authority, fresh_asset(owner, key(3)), collection, full);
    assert_eq!(s.stake(10), Err(NftError::Overflow));
    assert!(s.asset.attributes.is_none());
}

#[test]
fn unstake_errors() {
    let authority = key(1);
    let owner = key(2);
    let collection = Collection { key: key(3), update_authority: authority };
    let state = CollectionState { authority, collection: key(3), total_minted: 1, total_staked: 1, bump: 1 };
    let with = |list: Vec<Attribute>| Asset {
        owner,
        update_authority: UpdateAuthority::Collection(key(3)),
        attributes: Some(list),
        freeze_delegate: Some(PluginAuthority::UpdateAuthority),
    };

    let mut u = unstake_ctx(owner, authority, fresh_asset(owner, key(3)), collection, state);
    assert_eq!(u.unstake(100), Err(NftError::AttributesNotInitialized));

    let mut u = unstake_ctx(owner, authority, with(vec![attr(STAKED_KEY, "0")]), collection, state);
    assert_eq!(u.unstake(100), Err(NftError::NotStaked));

    let mut u = unstake_ctx(owner, authority, with(vec![attr("level", "1")]), collection, state);
    assert_eq!(u.unstake(100), Err(NftError::StakingNotInitialized));

    let mut u = unstake_ctx(owner, authority, with(vec![attr(STAKED_KEY, "12x")]), collection, state);
    assert_eq!(u.unstake(100), Err(NftError::InvalidTimestamp));

    let mut u = unstake_ctx(owner, authority, with(vec![attr(STAKED_KEY, "5"), attr(STAKED_TIME_KEY, "")]), collection, state);
    assert_eq!(u.unstake(100), Err(NftError::InvalidTimestamp));

    let mut u = unstake_ctx(owner, authority, with(vec![attr(STAKED_KEY, "-9223372036854775808")]), collection, state);
    assert_eq!(u.unstake(100), Err(NftError::Underflow));

    let mut u = unstake_ctx(
        owner,
        authority,
        with(vec![attr(STAKED_KEY, "1"), attr(STAKED_TIME_KEY, "9223372036854775807")]),
        collection,
        state,
    );
    assert_eq!(u.unstake(100), Err(NftError::Overflow));

    let empty = CollectionState { total_staked: 0, ..state };
    let mut u = unstake_ctx(owner, authority, with(vec![attr(STAKED_KEY, "5")]), collection, empty);
    assert_eq!(u.unstake(100), Err(NftError::Underflow));
    assert_eq!(texts(&u.asset.attributes), vec![pair(STAKED_KEY, "5")]);
    assert_eq!(u.asset.freeze_delegate, Some(PluginAuthority::UpdateAuthority));
}

#[test]
fn metadata_checks() {
    let ok_name = "é".repeat(16);
    assert_eq!(ok_name.len(), MAX_NAME_LENGTH);
    assert_eq!(check_metadata(&ok_name, &"u".to_string()), Ok(()));
    assert_eq!(check_metadata(&"é".repeat(17), &"u".to_string()), Err(NftError::NameTooLong));
    assert_eq!(check_metadata(&String::new(), &"u".to_string()), Err(NftError::EmptyName));
    assert_eq!(check_metadata(&"n".to_string(), &String::new()), Err(NftError::EmptyUri));
    assert_eq!(check_metadata(&"n".to_string(), &"x".repeat(201)), Err(NftError::UriTooLong));
    assert_eq!(check_metadata(&"n".to_string(), &"x".repeat(200)), Ok(()));
}

#[test]
fn mint_checks() {
    let authority = key(1);
    let collection = Collection { key: key(3), update_authority: authority };
    let state = CollectionState { authority, collection: key(3), total_minted: 0, total_staked: 0, bump: 1 };
    let ctx = |a: Pubkey, c: Collection, s: CollectionState, ua: Pubkey| MintNft {
        authority: a,
        asset: key(40),
        collection: c,
        collection_state: s,
        update_authority: ua,
        owner: key(41),
        payer: key(42),
        mpl_core_program: mpl_core_id(),
    };
    let name = || "Test NFT #1".to_string();
    let uri = || "https://example.com/nft1.json".to_string();
    assert_eq!(ctx(authority, collection, state, key(5)).mint_nft(name(), uri()), Err(NftError::CollectionAuthorityMismatch));
    assert_eq!(ctx(key(5), collection, state, authority).mint_nft(name(), uri()), Err(NftError::CollectionAuthorityMismatch));
    let other = Collection { key: key(4), update_authority: authority };
    assert_eq!(ctx(authority, other, state, authority).mint_nft(name(), uri()), Err(NftError::InvalidCollection));
    let full = CollectionState { total_minted: u64::MAX, ..state };
    assert_eq!(ctx(authority, collection, full, authority).mint_nft(name(), uri()), Err(NftError::Overflow));
    assert_eq!(ctx(authority, collection, state, authority).mint_nft(String::new(), uri()), Err(NftError::EmptyName));
    let mut bad = ctx(authority, collection, state, authority);
    bad.mpl_core_program = key(9);
    assert_eq!(bad.mint_nft(name(), uri()), Err(NftError::InvalidMplCoreProgram));
}

#[test]
fn counters() {
    let mut s = CollectionState { authority: key(1), collection: key(2), total_minted: 5, total_staked: 0, bump: 3 };
    assert_eq!(s.decrement_staked(), Err(NftError::Underflow));
    assert_eq!(s.increment_staked(), Ok(()));
    assert_eq!(s.total_staked, 1);
    assert_eq!(s.increment_minted(), Ok(()));
    assert_eq!(s.total_minted, 6);
    assert_eq!(s.decrement_staked(), Ok(()));
    assert_eq!(s.total_staked, 0);
    s.total_minted = u64::MAX;
    assert_eq!(s.increment_minted(), Err(NftError::Overflow));
    assert_eq!(NftError::CollectionAlreadyInitialized.code(), 6000);
    assert_eq!(NftError::InvalidPayer.code(), 6021);
}

#[test]
fn weakened_program_behaviour() {
    let authority = key(1);
    let owner = key(2);
    let collection = Collection { key: key(3), update_authority: authority };
    let state = CollectionState { authority, collection: key(3), total_minted: 0, total_staked: 0, bump: 1 };

    let mut create = vulnerable::CreateCollection {
        authority,
        collection: key(3),
        collection_state: blank_state(),
        mpl_core_program: mpl_core_id(),
    };
    assert_eq!(create.create_collection(String::new(), String::new(), &CreateCollectionBumps { collection_state: 2 }), Ok(()));

    let mut mint = vulnerable::MintNft {
        authority: key(9),
        asset: key(40),
        collection,
        collection_state: state,
        owner: key(41),
        payer: key(9),
        mpl_core_program: mpl_core_id(),
    };
    let created = mint.mint_nft(String::new(), String::new()).unwrap();
    assert_eq!(created.asset, key(40));
    assert_eq!(created.collection, collection.key);
    assert_eq!(created.authority, key(9));
    assert_eq!(created.owner, key(41));
    assert_eq!(created.name, "");
    assert_eq!(created.plugins, None);
    assert_eq!(mint.collection_state.total_minted, 1);

    let mut stake = vulnerable::Stake {
        owner: key(9),
        update_authority: key(9),
        asset: fresh_asset(owner, key(4)),
        collection,
        collection_state: state,
        mpl_core_program: mpl_core_id(),
    };
    assert_eq!(stake.stake(50), Ok(PluginWrite::Add));
    assert_eq!(stake.asset.freeze_delegate, Some(PluginAuthority::Owner));
    assert_eq!(stake.stake(60), Ok(PluginWrite::Update));
    assert_eq!(stake.collection_state.total_staked, 2);
    assert_eq!(texts(&stake.asset.attributes), vec![pair(STAKED_KEY, "60"), pair(STAKED_TIME_KEY, "0")]);

    let mut unstake = vulnerable::Unstake {
        owner: key(9),
        update_authority: key(9),
        asset: Asset {
            owner,
            update_authority: UpdateAuthority::Collection(key(3)),
            attributes: Some(vec![attr(STAKED_KEY, "garbage"), attr(STAKED_TIME_KEY, "7")]),
            freeze_delegate: None,
        },
        collection,
        collection_state: CollectionState { total_staked: 1, ..state },
        mpl_core_program: mpl_core_id(),
    };
    assert_eq!(unstake.unstake(1000), Ok(()));
    assert_eq!(texts(&unstake.asset.attributes), vec![pair(STAKED_KEY, "0"), pair(STAKED_TIME_KEY, "1007")]);

    let mut bad = vulnerable::Stake {
        owner,
        update_authority: authority,
        asset: fresh_asset(owner, key(3)),
        collection,
        collection_state: state,
        mpl_core_program: key(5),
    };
    assert_eq!(bad.stake(1), Err(NftError::InvalidMplCoreProgram));
}
