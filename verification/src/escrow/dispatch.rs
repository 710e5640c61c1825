//! Routing instruction data to an instruction: the first byte selects the
//! instruction, the rest is its data.
use super::account::AccountView;
use super::error::ProgramError;
use super::instruction::Instruction;
use super::propose_offer::{
    offer_data_decodes, OfferSeeds, ProposalOfferData, ProposeOfferInstruction, ProposeOfferPlan,
};
use super::state::{decodes_to, encode, MakeState};
use super::take_offer::{TakeOfferInstruction, TakeOfferPlan};
use vstd::prelude::*;

verus! {

/// What an instruction asks of the caller.
pub enum Plan {
    ProposeOffer(ProposeOfferPlan),
    TakeOffer(TakeOfferPlan),
}

/// Why routing `data` with `accounts` fails, if it does: the data must
/// start with a known discriminator; a proposal needs exactly nine accounts
/// and `ProposalOfferData::LEN` bytes of data, a take at least eleven
/// accounts, the eighth (the offer) holding `MakeState::LEN` bytes.
pub open spec fn route_error(accounts: Seq<AccountView>, data: Seq<u8>) -> Option<ProgramError> {
    if data.len() == 0 {
        Some(ProgramError::InvalidInstructionData)
    } else if data[0] == 0 {
        if accounts.len() != 9 {
            Some(ProgramError::NotEnoughAccountKeys)
        } else if data.len() - 1 != ProposalOfferData::LEN {
            Some(ProgramError::InvalidInstructionData)
        } else {
            None
        }
    } else if data[0] == 1 {
        if accounts.len() < 11 {
            Some(ProgramError::NotEnoughAccountKeys)
        } else if accounts[7].data@.len() != MakeState::LEN {
            Some(ProgramError::InvalidAccountData)
        } else {
            None
        }
    } else {
        Some(ProgramError::InvalidInstructionData)
    }
}

/// Whether `plan` is what the instruction in `data` asks with `accounts`.
pub open spec fn routed_plan(accounts: Seq<AccountView>, data: Seq<u8>, plan: Plan) -> bool {
    if data[0] == 0 {
        plan matches Plan::ProposeOffer(p) && exists|d: ProposalOfferData|
            #![trigger offer_data_decodes(data.drop_first(), d)]
            {
                &&& offer_data_decodes(data.drop_first(), d)
                &&& p.seeds == (OfferSeeds { maker: accounts[0].address, id: d.id, bump: d.bump })
                &&& p.offer_data@ == encode(
                    MakeState {
                        id: d.id,
                        proposer: accounts[0].address,
                        token_mint_a: accounts[1].address,
                        token_mint_b: accounts[2].address,
                        token_b_wanted_amount: d.token_b_wanted_amount,
                        token_a_offered_amount: d.token_a_offered_amount,
                        bump: d.bump,
                        is_initialized: 1,
                    },
                    seq![0u8, 0u8, 0u8, 0u8, 0u8, 0u8],
                )
                &&& p.deposit == d.token_a_offered_amount
            }
    } else {
        plan matches Plan::TakeOffer(p) && {
            &&& decodes_to(accounts[7].data@, p.offer)
            &&& p.create_proposer_ata_b == (accounts[2].data@.len() == 0)
            &&& p.token_b_amount == p.offer.token_b_wanted_amount
            &&& p.token_a_amount == p.offer.token_a_offered_amount
            &&& p.seeds == (OfferSeeds { maker: accounts[1].address, id: p.offer.id, bump: p.offer.bump })
        }
    }
}

/// Reads the discriminator, builds the instruction it selects from the
/// accounts and the rest of the data, and runs its handler.
pub fn route(accounts: &[AccountView], instruction_data: &[u8]) -> (r: Result<Plan, ProgramError>)
    ensures
        match route_error(accounts@, instruction_data@) {
            Some(e) => r matches Err(x) && x == e,
            None => r matches Ok(plan) && routed_plan(accounts@, instruction_data@, plan),
        },
{
    if instruction_data.len() == 0 {
        return Err(ProgramError::InvalidInstructionData);
    }
    let (head, data) = instruction_data.split_at(1);
    let discriminator = &head[0];
    assert(data@ =~= instruction_data@.drop_first());
    match Instruction::try_from(discriminator) {
        Err(e) => Err(e),
        Ok(Instruction::ProposeOffer) => {
            let ix = match ProposeOfferInstruction::try_from(accounts, data) {
                Ok(ix) => ix,
                Err(e) => {
                    return Err(e);
                },
            };
            let plan = ix.handler();
            Ok(Plan::ProposeOffer(plan))
        },
        Ok(Instruction::TakeOffer) => {
            let ix = match TakeOfferInstruction::try_from(accounts, data) {
                Ok(ix) => ix,
                Err(e) => {
                    return Err(e);
                },
            };
            match ix.handler() {
                Ok(plan) => Ok(Plan::TakeOffer(plan)),
                Err(e) => Err(e),
            }
        },
    }
}

} // verus!
