use soteria::escrow::account::AccountView;
use soteria::escrow::dispatch::Plan;
use soteria::escrow::error::ProgramError;
use soteria::escrow::instruction::Instruction;
use soteria::escrow::propose_offer::{OfferAccounts, OfferSeeds, ProposalOfferData};
use soteria::escrow::secure;
use soteria::escrow::state::MakeState;
use soteria::escrow::take_offer::TakeOfferPlan;
use soteria::escrow::vulnerable;
use soteria::key::Pubkey;

const LAMPORTS_PER_SOL: u64 = 1_000_000_000;
const INITIAL_MINT_AMOUNT: u64 = 1_000_000_000_000;
const TOKEN_A_OFFER_AMOUNT: u64 = 100_000_000_000;
const TOKEN_B_WANTED_AMOUNT: u64 = 50_000_000_000;
const PROPOSE_OFFER_DISCRIMINATOR: u8 = 0;
const TAKE_OFFER_DISCRIMINATOR: u8 = 1;

fn key(n: u8) -> Pubkey {
    let mut b = [0u8; 32];
    b[0] = n;
    b[17] = n.wrapping_add(3);
    Pubkey(b)
}

fn account(address: Pubkey, lamports: u64, data: Vec<u8>, is_signer: bool) -> AccountView {
    AccountView { address, owner: Pubkey([0u8; 32]), lamports, data, is_signer, is_writable: true }
}

fn build_propose_offer_data(id: [u8; 8], token_b_wanted_amount: u64, token_a_offered_amount: u64, bump: u8) -> Vec<u8> {
    let mut data = Vec::with_capacity(33);
    data.push(PROPOSE_OFFER_DISCRIMINATOR);
    data.extend_from_slice(&id);
    data.extend_from_slice(&token_b_wanted_amount.to_le_bytes());
    data.extend_from_slice(&token_a_offered_amount.to_le_bytes());
    data.push(bump);
    data.extend_from_slice(&[0u8; 7]);
    data
}

fn build_take_offer_data() -> Vec<u8> {
    vec![TAKE_OFFER_DISCRIMINATOR]
}

/// Token balances of the token accounts in the scenario.
struct Tokens {
    maker_a: u64,
    vault_a: u64,
    taker_a: u64,
    taker_b: u64,
    proposer_b: Option<u64>,
}

/// Runs a proposal through the hardened program and carries out its plan
/// as the entry point does: creates the offer account and deposits into the
/// vault.
fn propose(accounts: &mut Vec<AccountView>, data: &[u8], tokens: &mut Tokens) {
    let plan = match secure::process_instruction(&secure::id(), accounts, data) {
        Ok(Plan::ProposeOffer(p)) => p,
        Ok(_) => panic!("expected a proposal"),
        Err(e) => panic!("ProposeOffer failed: {:?}", e),
    };
    assert_eq!(plan.seeds.maker, accounts[0].address);
    accounts[4].data = plan.offer_data.clone();
    accounts[4].owner = secure::id();
    accounts[4].lamports = 2_000_000;
    accounts[5].data = vec![1u8; 165];
    tokens.maker_a -= plan.deposit;
    tokens.vault_a += plan.deposit;
}

#[test]
fn test_propose_offer() {
    let payer = key(1);
    let mint_a = key(2);
    let mint_b = key(3);
    let maker_ata_a = key(4);
    let offer_pda = key(5);
    let vault_ata = key(6);
    let mut tokens = Tokens { maker_a: INITIAL_MINT_AMOUNT, vault_a: 0, taker_a: 0, taker_b: 0, proposer_b: None };
    assert_eq!(tokens.maker_a, INITIAL_MINT_AMOUNT);

    let offer_id: [u8; 8] = 1u64.to_le_bytes();
    let bump = 254u8;
    let ix_data = build_propose_offer_data(offer_id, TOKEN_B_WANTED_AMOUNT, TOKEN_A_OFFER_AMOUNT, bump);
    assert_eq!(ix_data.len(), 33);
    let mut accounts = vec![
        account(payer, 10 * LAMPORTS_PER_SOL, vec![], true),
        account(mint_a, 1, vec![], false),
        account(mint_b, 1, vec![], false),
        account(maker_ata_a, 1, vec![], false),
        account(offer_pda, 0, vec![], false),
        account(vault_ata, 0, vec![], false),
        account(key(7), 1, vec![], false),
        account(Pubkey([0u8; 32]), 1, vec![], false),
        account(key(8), 1, vec![], false),
    ];
    propose(&mut accounts, &ix_data, &mut tokens);

    assert_eq!(accounts[4].owner, secure::id());
    assert_eq!(accounts[4].data.len(), MakeState::LEN);
    assert_eq!(tokens.vault_a, TOKEN_A_OFFER_AMOUNT);
    assert_eq!(tokens.maker_a, INITIAL_MINT_AMOUNT - TOKEN_A_OFFER_AMOUNT);

    let state = MakeState::load(&accounts[4].data).unwrap();
    assert_eq!(state.id, offer_id);
    assert_eq!(state.proposer, payer);
    assert_eq!(state.token_mint_a, mint_a);
    assert_eq!(state.token_mint_b, mint_b);
    assert_eq!(state.token_b_wanted_amount, TOKEN_B_WANTED_AMOUNT);
    assert_eq!(state.token_a_offered_amount, TOKEN_A_OFFER_AMOUNT);
    assert_eq!(state.bump, bump);
    assert!(state.is_active());
}

#[test]
fn test_full_escrow_flow() {
    let proposer = key(1);
    let taker = key(2);
    let mint_a = key(3);
    let mint_b = key(4);
    let proposer_ata_a = key(5);
    let taker_ata_a = key(6);
    let taker_ata_b = key(7);
    let offer_pda = key(8);
    let vault_ata = key(9);
    let proposer_ata_b = key(10);
    let mut tokens = Tokens {
        maker_a: INITIAL_MINT_AMOUNT,
        vault_a: 0,
        taker_a: 0,
        taker_b: INITIAL_MINT_AMOUNT,
        proposer_b: None,
    };

    let offer_id: [u8; 8] = 1u64.to_le_bytes();
    let propose_ix_data = build_propose_offer_data(offer_id, TOKEN_B_WANTED_AMOUNT, TOKEN_A_OFFER_AMOUNT, 253);
    let mut propose_accounts = vec![
        account(proposer, 5 * LAMPORTS_PER_SOL, vec![], true),
        account(mint_a, 1, vec![], false),
        account(mint_b, 1, vec![], false),
        account(proposer_ata_a, 1, vec![1u8; 165], false),
        account(offer_pda, 0, vec![], false),
        account(vault_ata, 0, vec![], false),
        account(key(11), 1, vec![], false),
        account(Pubkey([0u8; 32]), 1, vec![], false),
        account(key(12), 1, vec![], false),
    ];
    propose(&mut propose_accounts, &propose_ix_data, &mut tokens);
    assert_eq!(tokens.vault_a, TOKEN_A_OFFER_AMOUNT);
    assert_eq!(tokens.maker_a, INITIAL_MINT_AMOUNT - TOKEN_A_OFFER_AMOUNT);

    let offer_account = propose_accounts.remove(4);
    let taker_a_before = tokens.taker_a;
    let taker_b_before = tokens.taker_b;
    let mut take_accounts = vec![
        account(taker, 5 * LAMPORTS_PER_SOL, vec![], true),
        account(proposer, 5 * LAMPORTS_PER_SOL, vec![], false),
        account(proposer_ata_b, 0, vec![], false),
        account(mint_b, 1, vec![], false),
        account(mint_a, 1, vec![], false),
        account(taker_ata_a, 1, vec![1u8; 165], false),
        account(taker_ata_b, 1, vec![1u8; 165], false),
        offer_account,
        account(vault_ata, 2_039_280, vec![1u8; 165], false),
        account(key(11), 1, vec![], false),
        account(Pubkey([0u8; 32]), 1, vec![], false),
        account(key(12), 1, vec![], false),
    ];
    let take_ix_data = build_take_offer_data();
    let plan = match secure::process_instruction(&secure::id(), &take_accounts, &take_ix_data) {
        Ok(Plan::TakeOffer(p)) => p,
        Ok(_) => panic!("expected a take"),
        Err(e) => panic!("TakeOffer failed: {:?}", e),
    };
    assert!(plan.create_proposer_ata_b);
    assert_eq!(plan.seeds.maker, proposer);
    assert_eq!(plan.seeds.id, offer_id);
    assert_eq!(plan.seeds.bump, 253);

    // The entry point carries out the plan.
    tokens.proposer_b = Some(0);
    tokens.taker_b -= plan.token_b_amount;
    tokens.proposer_b = tokens.proposer_b.map(|b| b + plan.token_b_amount);
    let payout = plan.payout(tokens.vault_a);
    tokens.vault_a -= payout;
    tokens.taker_a += payout;
    let (taker_slice, rest) = take_accounts.split_at_mut(7);
    let offer_lamports = rest[0].lamports;
    let taker_lamports = taker_slice[0].lamports;
    assert_eq!(plan.taker, taker);
    assert_eq!(plan.offer_account, rest[0].address);
    plan.close_offer(&mut taker_slice[0], &mut rest[0]);
    assert_eq!(taker_slice[0].lamports, taker_lamports + offer_lamports);
    assert_eq!(rest[0].lamports, 0);

    assert_eq!(tokens.taker_a, TOKEN_A_OFFER_AMOUNT);
    assert_eq!(tokens.taker_a - taker_a_before, TOKEN_A_OFFER_AMOUNT);
    assert_eq!(tokens.taker_b, INITIAL_MINT_AMOUNT - TOKEN_B_WANTED_AMOUNT);
    assert_eq!(taker_b_before - tokens.taker_b, TOKEN_B_WANTED_AMOUNT);
    assert_eq!(tokens.proposer_b, Some(TOKEN_B_WANTED_AMOUNT));
    assert_eq!(tokens.vault_a, 0, "Vault should be empty");
    assert!(take_accounts[7].data.is_empty(), "Offer PDA should be closed");
    assert_eq!(take_accounts[7].lamports, 0);
    assert_eq!(take_accounts[7].owner, Pubkey([0u8; 32]));

    // The closed offer cannot be taken again.
    assert!(matches!(
        secure::process_instruction(&secure::id(), &take_accounts, &take_ix_data),
        Err(ProgramError::InvalidAccountData)
    ));
}

#[test]
fn routing_errors() {
    let accounts: Vec<AccountView> = (0..9).map(|i| account(key(i), 1, vec![], false)).collect();
    let good = build_propose_offer_data([7u8; 8], 5, 6, 1);
    assert!(matches!(
        secure::process_instruction(&key(99), &accounts, &good),
        Err(ProgramError::IncorrectProgramId)
    ));
    assert!(matches!(vulnerable::process_instruction(&key(99), &accounts, &good), Ok(Plan::ProposeOffer(_))));
    assert!(matches!(
        secure::process_instruction(&secure::id(), &accounts, &[]),
        Err(ProgramError::InvalidInstructionData)
    ));
    assert!(matches!(
        secure::process_instruction(&secure::id(), &accounts, &[2u8]),
        Err(ProgramError::InvalidInstructionData)
    ));
    assert!(matches!(
        secure::process_instruction(&secure::id(), &accounts[..8], &good),
        Err(ProgramError::NotEnoughAccountKeys)
    ));
    assert!(matches!(
        secure::process_instruction(&secure::id(), &accounts, &good[..32]),
        Err(ProgramError::InvalidInstructionData)
    ));
    assert!(matches!(
        secure::process_instruction(&secure::id(), &accounts, &[1u8]),
        Err(ProgramError::NotEnoughAccountKeys)
    ));
    let eleven: Vec<AccountView> = (0..11).map(|i| account(key(i), 1, vec![0u8; 3], false)).collect();
    assert!(matches!(
        secure::process_instruction(&secure::id(), &eleven, &[1u8]),
        Err(ProgramError::InvalidAccountData)
    ));
}

#[test]
fn instruction_and_data_parsing() {
    assert!(matches!(Instruction::try_from(&0u8), Ok(Instruction::ProposeOffer)));
    assert!(matches!(Instruction::try_from(&1u8), Ok(Instruction::TakeOffer)));
    assert!(matches!(Instruction::try_from(&200u8), Err(ProgramError::InvalidInstructionData)));

    let bytes = build_propose_offer_data(*b"offer-01", 0x0102_0304_0506_0708, u64::MAX, 9);
    let d = ProposalOfferData::try_from(&bytes[1..]).unwrap();
    assert_eq!(d.id, *b"offer-01");
    assert_eq!(d.token_b_wanted_amount, 0x0102_0304_0506_0708);
    assert_eq!(d.token_a_offered_amount, u64::MAX);
    assert_eq!(d.bump, 9);
    assert!(matches!(ProposalOfferData::try_from(&bytes[..]), Err(ProgramError::InvalidInstructionData)));

    let nine: Vec<AccountView> = (0..9).map(|i| account(key(i), 1, vec![], false)).collect();
    let named = OfferAccounts::try_from(&nine).unwrap();
    assert_eq!(named.maker.address, key(0));
    assert_eq!(named.system_program.address, key(7));
    assert!(matches!(OfferAccounts::try_from(&nine[..8]), Err(ProgramError::NotEnoughAccountKeys)));
}

#[test]
fn make_state_roundtrip_and_flags() {
    let mut s = MakeState {
        id: [1, 2, 3, 4, 5, 6, 7, 8],
        proposer: key(1),
        token_mint_a: key(2),
        token_mint_b: key(3),
        token_b_wanted_amount: 12345,
        token_a_offered_amount: 678910,
        bump: 250,
        is_initialized: 1,
    };
    let mut bytes = vec![0xabu8; MakeState::LEN];
    s.store(&mut bytes);
    assert_eq!(&bytes[122..], &[0xabu8; 6]);
    assert_eq!(&bytes[104..112], &12345u64.to_le_bytes());
    assert_eq!(MakeState::load(&bytes).unwrap(), s);
    assert_eq!(MakeState::load_mut(&bytes).unwrap(), s);
    assert!(matches!(MakeState::load(&bytes[..127]), Err(ProgramError::InvalidAccountData)));
    assert!(s.is_active());
    s.close();
    assert!(!s.is_active());
    s.set_inner([9u8; 8], key(4), key(5), key(6), 1, 2, 3);
    assert!(s.is_active());
    assert_eq!(s.proposer, key(4));
    assert_eq!(s.token_a_offered_amount, 2);
}

#[test]
fn payout_is_capped_by_vault() {
    let mut accounts: Vec<AccountView> = (0..11).map(|i| account(key(i), 1, vec![], false)).collect();
    let s = MakeState {
        id: [0u8; 8],
        proposer: key(1),
        token_mint_a: key(4),
        token_mint_b: key(3),
        token_b_wanted_amount: 10,
        token_a_offered_amount: 100,
        bump: 1,
        is_initialized: 0,
    };
    let mut data = vec![0u8; MakeState::LEN];
    s.store(&mut data);
    accounts[7].data = data;
    accounts[2].data = vec![1u8; 165];
    let plan = match vulnerable::process_instruction(&key(50), &accounts, &[1u8, 42u8]) {
        Ok(Plan::TakeOffer(p)) => p,
        _ => panic!("take expected"),
    };
    assert!(!plan.create_proposer_ata_b);
    assert_eq!(plan.offer, s);
    assert_eq!(plan.payout(40), 40);
    assert_eq!(plan.payout(1000), 100);
}

#[test]
fn closing_saturates_taker_balance() {
    let mut taker = account(key(1), u64::MAX - 5, vec![], true);
    let mut offer = account(key(2), 10, vec![1u8; MakeState::LEN], false);
    offer.owner = key(3);
    let plan = TakeOfferPlan {
        offer: MakeState {
            id: [0u8; 8],
            proposer: key(4),
            token_mint_a: key(5),
            token_mint_b: key(6),
            token_b_wanted_amount: 1,
            token_a_offered_amount: 1,
            bump: 0,
            is_initialized: 1,
        },
        create_proposer_ata_b: false,
        token_b_amount: 1,
        token_a_amount: 1,
        seeds: OfferSeeds { maker: key(4), id: [0u8; 8], bump: 0 },
        taker: key(1),
        offer_account: key(2),
    };
    plan.close_offer(&mut taker, &mut offer);
    assert_eq!(taker.lamports, u64::MAX);
    assert_eq!(offer.lamports, 0);
    assert!(offer.data.is_empty());
    assert_eq!(offer.owner, Pubkey([0u8; 32]));
}
