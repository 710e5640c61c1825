//! Errors that the escrow programs report.
use vstd::prelude::*;

verus! {

/// The runtime errors that the escrow programs return.
#[derive(Clone, Copy, PartialEq, Eq, Debug, Structural)]
pub enum ProgramError {
    /// The program was invoked under another program id.
    IncorrectProgramId,
    /// The instruction data is malformed.
    InvalidInstructionData,
    /// An account's data has the wrong length.
    InvalidAccountData,
    /// Fewer accounts were passed than the instruction needs.
    NotEnoughAccountKeys,
}

} // verus!
