//! Taking an offer: the taker's accounts and the plan of the take, which
//! says what the offer asks of the caller (the token transfers and closing
//! the vault) and closes the offer account to the taker.
use super::account::AccountView;
use super::error::ProgramError;
use super::propose_offer::OfferSeeds;
use super::state::{decodes_to, MakeState};
use crate::key::Pubkey;
use vstd::prelude::*;

verus! {

/// The accounts of a take, in the order they are passed: the taker, the
/// proposer, the proposer's token B account, the mints of token B and token
/// A, the taker's token A and token B accounts, the offer, the vault, and
/// the token and system programs.
pub struct TakeOfferAccounts<'a> {
    pub taker: &'a AccountView,
    pub proposer: &'a AccountView,
    pub proposer_ata_b: &'a AccountView,
    pub token_mint_b: &'a AccountView,
    pub token_mint_a: &'a AccountView,
    pub taker_ata_a: &'a AccountView,
    pub taker_ata_b: &'a AccountView,
    pub offer: &'a AccountView,
    pub vault: &'a AccountView,
    pub token_program: &'a AccountView,
    pub system_program: &'a AccountView,
}

/// Whether `a` names the first eleven of `accounts` in order.
pub open spec fn names_take_accounts(a: TakeOfferAccounts, accounts: Seq<AccountView>) -> bool {
    &&& *a.taker == accounts[0]
    &&& *a.proposer == accounts[1]
    &&& *a.proposer_ata_b == accounts[2]
    &&& *a.token_mint_b == accounts[3]
    &&& *a.token_mint_a == accounts[4]
    &&& *a.taker_ata_a == accounts[5]
    &&& *a.taker_ata_b == accounts[6]
    &&& *a.offer == accounts[7]
    &&& *a.vault == accounts[8]
    &&& *a.token_program == accounts[9]
    &&& *a.system_program == accounts[10]
}

impl<'a> TakeOfferAccounts<'a> {
    /// Names the accounts of a take; at least eleven accounts must be
    /// passed (any more are ignored). None of them is checked.
    pub fn try_from(accounts: &'a [AccountView]) -> (r: Result<TakeOfferAccounts<'a>, ProgramError>)
        ensures
            accounts@.len() < 11 ==> (r matches Err(e) && e == ProgramError::NotEnoughAccountKeys),
            accounts@.len() >= 11 ==> (r matches Ok(a) && names_take_accounts(a, accounts@)),
    {
        if accounts.len() < 11 {
            return Err(ProgramError::NotEnoughAccountKeys);
        }
        Ok(
            TakeOfferAccounts {
                taker: &accounts[0],
                proposer: &accounts[1],
                proposer_ata_b: &accounts[2],
                token_mint_b: &accounts[3],
                token_mint_a: &accounts[4],
                taker_ata_a: &accounts[5],
                taker_ata_b: &accounts[6],
                offer: &accounts[7],
                vault: &accounts[8],
                token_program: &accounts[9],
                system_program: &accounts[10],
            },
        )
    }
}

/// A take: its accounts (it has no data).
pub struct TakeOfferInstruction<'a> {
    pub accounts: TakeOfferAccounts<'a>,
}

/// The plan of a take, in order: create the proposer's token B account if
/// `create_proposer_ata_b`; move `token_b_amount` token B from the taker to
/// the proposer; move `payout` of the vault's balance of token A to the
/// taker, signed for by `seeds`; close the vault to the proposer; and last,
/// `close_offer`: the offer account `offer_account` is closed and its
/// lamports go to `taker`. `offer` is the offer as read.
pub struct TakeOfferPlan {
    pub offer: MakeState,
    pub create_proposer_ata_b: bool,
    pub token_b_amount: u64,
    pub token_a_amount: u64,
    pub seeds: OfferSeeds,
    pub taker: Pubkey,
    pub offer_account: Pubkey,
}

/// `new_taker` and `new_offer` are `taker` and `offer` after the offer
/// account is closed to the taker: the offer's lamports move to the taker,
/// whose balance saturates at `u64::MAX`; the offer's data is emptied and it
/// is handed back to the system program; nothing else changes.
pub open spec fn offer_closed(
    taker: AccountView,
    offer: AccountView,
    new_taker: AccountView,
    new_offer: AccountView,
) -> bool {
    &&& new_taker.lamports == (if taker.lamports + offer.lamports > u64::MAX {
        u64::MAX as int
    } else {
        taker.lamports + offer.lamports
    })
    &&& new_taker.address == taker.address
    &&& new_taker.owner == taker.owner
    &&& new_taker.data == taker.data
    &&& new_taker.is_signer == taker.is_signer
    &&& new_taker.is_writable == taker.is_writable
    &&& new_offer.lamports == 0
    &&& new_offer.data@.len() == 0
    &&& new_offer.owner.is_zero()
    &&& new_offer.address == offer.address
    &&& new_offer.is_signer == offer.is_signer
    &&& new_offer.is_writable == offer.is_writable
}

impl TakeOfferPlan {
    /// The token A paid to the taker when the vault holds `vault_amount`:
    /// the amount offered, or the whole vault if it holds less.
    pub fn payout(&self, vault_amount: u64) -> (r: u64)
        ensures
            r == if vault_amount < self.token_a_amount {
                vault_amount
            } else {
                self.token_a_amount
            },
    {
        if vault_amount < self.token_a_amount {
            vault_amount
        } else {
            self.token_a_amount
        }
    }

    /// The last step of a take, once the token transfers are done: closes
    /// the plan's offer account to the plan's taker. It marks the offer's
    /// data, gives its lamports to the taker (the taker's balance saturates
    /// at `u64::MAX`), empties its data and hands it back to the system
    /// program.
    pub fn close_offer(&self, taker: &mut AccountView, offer: &mut AccountView)
        requires
            old(offer).data@.len() > 0,
            old(taker).address == self.taker,
            old(offer).address == self.offer_account,
        ensures
            offer_closed(*old(taker), *old(offer), *final(taker), *final(offer)),
    {
        offer.data.set(0, 0xff);
        let lamports = offer.lamports;
        taker.lamports = taker.lamports.saturating_add(lamports);
        offer.lamports = 0;
        offer.data.truncate(0);
        offer.owner = Pubkey::default_key();
    }
}

impl<'a> TakeOfferInstruction<'a> {
    /// Reads a take's accounts (its data is ignored).
    pub fn try_from(accounts: &'a [AccountView], data: &'a [u8]) -> (r: Result<
        TakeOfferInstruction<'a>,
        ProgramError,
    >)
        ensures
            accounts@.len() < 11 ==> (r matches Err(e) && e == ProgramError::NotEnoughAccountKeys),
            accounts@.len() >= 11 ==> (r matches Ok(ix) && names_take_accounts(ix.accounts, accounts@)),
    {
        match TakeOfferAccounts::try_from(accounts) {
            Ok(a) => Ok(TakeOfferInstruction { accounts: a }),
            Err(e) => Err(e),
        }
    }

    /// Reads the offer and gives the plan of the take, which ends by closing
    /// the offer account to the taker. The offer's data must be exactly
    /// `MakeState::LEN` bytes long; nothing else is checked: not
    /// that the offer is active, nor that the accounts passed are the ones
    /// it names.
    pub fn handler(&self) -> (r: Result<TakeOfferPlan, ProgramError>)
        ensures
            self.accounts.offer.data@.len() != MakeState::LEN ==> (r matches Err(e) && e
                == ProgramError::InvalidAccountData),
            self.accounts.offer.data@.len() == MakeState::LEN ==> (r matches Ok(plan) && {
                &&& decodes_to(self.accounts.offer.data@, plan.offer)
                &&& plan.create_proposer_ata_b == (self.accounts.proposer_ata_b.data@.len() == 0)
                &&& plan.token_b_amount == plan.offer.token_b_wanted_amount
                &&& plan.token_a_amount == plan.offer.token_a_offered_amount
                &&& plan.seeds == (OfferSeeds {
                    maker: self.accounts.proposer.address,
                    id: plan.offer.id,
                    bump: plan.offer.bump,
                })
                &&& plan.taker == self.accounts.taker.address
                &&& plan.offer_account == self.accounts.offer.address
            }),
    {
        let offer_state = match MakeState::load(self.accounts.offer.data.as_slice()) {
            Ok(s) => s,
            Err(e) => {
                return Err(e);
            },
        };
        let token_b_amount = offer_state.token_b_wanted_amount;
        let token_a_amount = offer_state.token_a_offered_amount;
        let bump = offer_state.bump;
        let offer_id = offer_state.id;
        Ok(
            TakeOfferPlan {
                offer: offer_state,
                create_proposer_ata_b: self.accounts.proposer_ata_b.data.len() == 0,
                token_b_amount,
                token_a_amount,
                seeds: OfferSeeds { maker: self.accounts.proposer.address, id: offer_id, bump },
                taker: self.accounts.taker.address,
                offer_account: self.accounts.offer.address,
            },
        )
    }
}

} // verus!
