//! Entry point of the weakened escrow program, which runs under whatever
//! program id it is invoked with.
use super::account::AccountView;
use super::dispatch::{route, route_error, routed_plan, Plan};
use super::error::ProgramError;
use crate::key::Pubkey;
use vstd::prelude::*;

verus! {

/// The program's address, `97G55caS2vz4RKqa34TMZN2s6ZmEG2FZeg9jkQBAnUtu`.
pub open spec fn spec_id() -> Pubkey {
    Pubkey(
        [
            120, 120, 5, 53, 160, 182, 239, 37, 201, 40, 45, 127, 74, 222, 31, 168,
            43, 10, 79, 82, 192, 245, 41, 219, 128, 213, 27, 77, 208, 106, 38, 166,
        ],
    )
}

/// The program's address.
pub fn id() -> (k: Pubkey)
    ensures
        k == spec_id(),
{
    Pubkey(
        [
            120, 120, 5, 53, 160, 182, 239, 37, 201, 40, 45, 127, 74, 222, 31, 168,
            43, 10, 79, 82, 192, 245, 41, 219, 128, 213, 27, 77, 208, 106, 38, 166,
        ],
    )
}

/// Runs an instruction without looking at the program id it was invoked
/// under: routes the instruction data.
pub fn process_instruction(
    program_id: &Pubkey,
    accounts: &[AccountView],
    instruction_data: &[u8],
) -> (r: Result<Plan, ProgramError>)
    ensures
        match route_error(accounts@, instruction_data@) {
            Some(e) => r matches Err(x) && x == e,
            None => r matches Ok(plan) && routed_plan(accounts@, instruction_data@, plan),
        },
{
    route(accounts, instruction_data)
}

} // verus!
