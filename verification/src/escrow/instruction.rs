//! The instructions that the escrow programs dispatch on.
use super::error::ProgramError;
use vstd::prelude::*;

verus! {

/// An escrow instruction, selected by the first byte of the instruction
/// data: `0` proposes an offer, `1` takes one.
#[derive(Clone, Copy, PartialEq, Eq, Debug, Structural)]
pub enum Instruction {
    ProposeOffer,
    TakeOffer,
}

impl Instruction {
    /// The instruction that a discriminator byte selects; any byte other
    /// than `0` and `1` is refused with `InvalidInstructionData`.
    pub fn try_from(value: &u8) -> (r: Result<Instruction, ProgramError>)
        ensures
            *value == 0 ==> r == Ok::<Instruction, ProgramError>(Instruction::ProposeOffer),
            *value == 1 ==> r == Ok::<Instruction, ProgramError>(Instruction::TakeOffer),
            *value > 1 ==> r == Err::<Instruction, ProgramError>(ProgramError::InvalidInstructionData),
    {
        match *value {
            0 => Ok(Instruction::ProposeOffer),
            1 => Ok(Instruction::TakeOffer),
            _ => Err(ProgramError::InvalidInstructionData),
        }
    }
}

} // verus!
