//! Entry point of the hardened escrow program, which refuses to run under
//! any program id but its own.
use super::account::AccountView;
use super::dispatch::{route, route_error, routed_plan, Plan};
use super::error::ProgramError;
use crate::key::Pubkey;
use vstd::prelude::*;

verus! {

/// The program's address, `J8Ru6Zti7EwTwVt35BGN2irvD1ELEjv2MkCYGAbCqaok`.
pub open spec fn spec_id() -> Pubkey {
    Pubkey(
        [
            254, 125, 229, 89, 238, 141, 210, 107, 110, 8, 96, 201, 45, 26, 97, 208,
            78, 133, 142, 13, 72, 214, 224, 176, 44, 70, 148, 110, 223, 234, 33, 107,
        ],
    )
}

/// The program's address.
pub fn id() -> (k: Pubkey)
    ensures
        k == spec_id(),
{
    Pubkey(
        [
            254, 125, 229, 89, 238, 141, 210, 107, 110, 8, 96, 201, 45, 26, 97, 208,
            78, 133, 142, 13, 72, 214, 224, 176, 44, 70, 148, 110, 223, 234, 33, 107,
        ],
    )
}

/// Runs an instruction: refuses with `IncorrectProgramId` unless invoked
/// as this program, then routes the instruction data.
pub fn process_instruction(
    program_id: &Pubkey,
    accounts: &[AccountView],
    instruction_data: &[u8],
) -> (r: Result<Plan, ProgramError>)
    ensures
        *program_id != spec_id() ==> (r matches Err(x) && x == ProgramError::IncorrectProgramId),
        *program_id == spec_id() ==> match route_error(accounts@, instruction_data@) {
            Some(e) => r matches Err(x) && x == e,
            None => r matches Ok(plan) && routed_plan(accounts@, instruction_data@, plan),
        },
{
    if !program_id.same(&id()) {
        return Err(ProgramError::IncorrectProgramId);
    }
    route(accounts, instruction_data)
}

} // verus!
