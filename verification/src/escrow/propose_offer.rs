//! Proposing an offer: the maker's accounts, the instruction data (offer id,
//! amounts and bump seed), and the offer state that the instruction writes.
//! The account creation and token deposit that go with it are carried out by
//! the caller.
use super::account::AccountView;
use super::bytes::{le_u64, read_bytes8, read_u64_le};
use super::error::ProgramError;
use super::state::{encode, MakeState};
use crate::key::Pubkey;
use vstd::prelude::*;

verus! {

/// The accounts of a proposal, in the order they are passed: the maker, the
/// mints of token A (offered) and token B (wanted), the maker's token A
/// account, the offer account, the vault, and the token and system programs.
pub struct OfferAccounts<'a> {
    pub maker: &'a AccountView,
    pub token_mint_a: &'a AccountView,
    pub token_mint_b: &'a AccountView,
    pub maker_ata_a: &'a AccountView,
    pub offer: &'a AccountView,
    pub vault: &'a AccountView,
    pub token_program: &'a AccountView,
    pub system_program: &'a AccountView,
}

impl<'a> OfferAccounts<'a> {
    /// Names the accounts of a proposal; exactly nine accounts must be
    /// passed (the last is not used). None of them is checked.
    pub fn try_from(accounts: &'a [AccountView]) -> (r: Result<OfferAccounts<'a>, ProgramError>)
        ensures
            accounts@.len() != 9 ==> (r matches Err(e) && e == ProgramError::NotEnoughAccountKeys),
            accounts@.len() == 9 ==> (r matches Ok(a) && {
                &&& *a.maker == accounts@[0]
                &&& *a.token_mint_a == accounts@[1]
                &&& *a.token_mint_b == accounts@[2]
                &&& *a.maker_ata_a == accounts@[3]
                &&& *a.offer == accounts@[4]
                &&& *a.vault == accounts@[5]
                &&& *a.token_program == accounts@[6]
                &&& *a.system_program == accounts@[7]
            }),
    {
        if accounts.len() != 9 {
            return Err(ProgramError::NotEnoughAccountKeys);
        }
        Ok(
            OfferAccounts {
                maker: &accounts[0],
                token_mint_a: &accounts[1],
                token_mint_b: &accounts[2],
                maker_ata_a: &accounts[3],
                offer: &accounts[4],
                vault: &accounts[5],
                token_program: &accounts[6],
                system_program: &accounts[7],
            },
        )
    }
}

/// The data of a proposal: the offer id, the amount of token B wanted, the
/// amount of token A offered, and the bump seed of the offer address. In the
/// data they are laid out in this order, integers little-endian, followed by
/// seven bytes of padding.
#[derive(Clone, Copy, PartialEq, Eq, Debug)]
pub struct ProposalOfferData {
    pub id: [u8; 8],
    pub token_b_wanted_amount: u64,
    pub token_a_offered_amount: u64,
    pub bump: u8,
}

/// Whether the instruction data `b` holds the proposal `d`.
pub open spec fn offer_data_decodes(b: Seq<u8>, d: ProposalOfferData) -> bool {
    &&& b.len() == ProposalOfferData::LEN
    &&& d.id@ == b.subrange(0, 8)
    &&& d.token_b_wanted_amount == le_u64(b, 8)
    &&& d.token_a_offered_amount == le_u64(b, 16)
    &&& d.bump == b[24]
}

impl ProposalOfferData {
    /// Byte length of a proposal's instruction data (after the discriminator).
    pub const LEN: usize = 32;

    /// Reads a proposal from instruction data, which must be exactly
    /// `ProposalOfferData::LEN` bytes long.
    pub fn try_from(data: &[u8]) -> (r: Result<ProposalOfferData, ProgramError>)
        ensures
            data@.len() != ProposalOfferData::LEN ==> r == Err::<ProposalOfferData, ProgramError>(
                ProgramError::InvalidInstructionData,
            ),
            data@.len() == ProposalOfferData::LEN ==> r is Ok && offer_data_decodes(data@, r->Ok_0),
    {
        if data.len() != ProposalOfferData::LEN {
            return Err(ProgramError::InvalidInstructionData);
        }
        Ok(
            ProposalOfferData {
                id: read_bytes8(data, 0),
                token_b_wanted_amount: read_u64_le(data, 8),
                token_a_offered_amount: read_u64_le(data, 16),
                bump: data[24],
            },
        )
    }
}

/// The seeds that sign for an offer address: the fixed prefix `offer`, the
/// maker's address, the offer id and the bump seed.
#[derive(Clone, Copy, PartialEq, Eq, Debug)]
pub struct OfferSeeds {
    pub maker: Pubkey,
    pub id: [u8; 8],
    pub bump: u8,
}

/// A proposal: its accounts and its data.
pub struct ProposeOfferInstruction<'a> {
    pub accounts: OfferAccounts<'a>,
    pub data: ProposalOfferData,
}

impl<'a> ProposeOfferInstruction<'a> {
    /// Reads a proposal's accounts, then its data.
    pub fn try_from(accounts: &'a [AccountView], data: &'a [u8]) -> (r: Result<
        ProposeOfferInstruction<'a>,
        ProgramError,
    >)
        ensures
            accounts@.len() != 9 ==> (r matches Err(e) && e == ProgramError::NotEnoughAccountKeys),
            accounts@.len() == 9 && data@.len() != ProposalOfferData::LEN ==> (r matches Err(e) && e
                == ProgramError::InvalidInstructionData),
            accounts@.len() == 9 && data@.len() == ProposalOfferData::LEN ==> (r matches Ok(ix) && {
                &&& *ix.accounts.maker == accounts@[0]
                &&& *ix.accounts.token_mint_a == accounts@[1]
                &&& *ix.accounts.token_mint_b == accounts@[2]
                &&& *ix.accounts.maker_ata_a == accounts@[3]
                &&& *ix.accounts.offer == accounts@[4]
                &&& *ix.accounts.vault == accounts@[5]
                &&& *ix.accounts.token_program == accounts@[6]
                &&& *ix.accounts.system_program == accounts@[7]
                &&& offer_data_decodes(data@, ix.data)
            }),
    {
        let accounts = match OfferAccounts::try_from(accounts) {
            Ok(a) => a,
            Err(e) => {
                return Err(e);
            },
        };
        let data = match ProposalOfferData::try_from(data) {
            Ok(d) => d,
            Err(e) => {
                return Err(e);
            },
        };
        Ok(ProposeOfferInstruction { accounts, data })
    }

    /// The state of the offer that this proposal opens.
    pub open spec fn offer_state(self) -> MakeState {
        MakeState {
            id: self.data.id,
            proposer: self.accounts.maker.address,
            token_mint_a: self.accounts.token_mint_a.address,
            token_mint_b: self.accounts.token_mint_b.address,
            token_b_wanted_amount: self.data.token_b_wanted_amount,
            token_a_offered_amount: self.data.token_a_offered_amount,
            bump: self.data.bump,
            is_initialized: 1,
        }
    }

    /// What the proposal does: the offer account is created at the address
    /// signed for by `seeds` (the bump seed is the one in the data, taken as
    /// given) with `offer_data` as its data, the vault is created for the
    /// offer, and `deposit` token A is moved from the maker's account to the
    /// vault.
    pub fn handler(&self) -> (plan: ProposeOfferPlan)
        ensures
            plan.seeds == (OfferSeeds {
                maker: self.accounts.maker.address,
                id: self.data.id,
                bump: self.data.bump,
            }),
            plan.offer_data@ == encode(self.offer_state(), seq![0u8, 0u8, 0u8, 0u8, 0u8, 0u8]),
            plan.deposit == self.data.token_a_offered_amount,
    {
        let bump = self.data.bump;
        let mut offer_data: Vec<u8> = vec![0u8; MakeState::LEN];
        assert(offer_data@.subrange(122, 128) =~= seq![0u8, 0u8, 0u8, 0u8, 0u8, 0u8]);
        let mut offer_state = match MakeState::load_mut(offer_data.as_slice()) {
            Ok(s) => s,
            Err(_) => {
                proof {
                    assert(false);
                }
                return ProposeOfferPlan {
                    seeds: OfferSeeds { maker: self.accounts.maker.address, id: self.data.id, bump },
                    offer_data,
                    deposit: self.data.token_a_offered_amount,
                };
            },
        };
        offer_state.set_inner(
            self.data.id,
            self.accounts.maker.address,
            self.accounts.token_mint_a.address,
            self.accounts.token_mint_b.address,
            self.data.token_b_wanted_amount,
            self.data.token_a_offered_amount,
            bump,
        );
        offer_state.store(&mut offer_data);
        ProposeOfferPlan {
            seeds: OfferSeeds { maker: self.accounts.maker.address, id: self.data.id, bump },
            offer_data,
            deposit: self.data.token_a_offered_amount,
        }
    }
}

/// What a proposal asks of the caller: create the offer account (of
/// `offer_data`'s length, owned by the program, signed for by `seeds`) and
/// write `offer_data` into it, create the vault for the offer, and move
/// `deposit` token A from the maker's account to the vault.
pub struct ProposeOfferPlan {
    pub seeds: OfferSeeds,
    pub offer_data: Vec<u8>,
    pub deposit: u64,
}

} // verus!
