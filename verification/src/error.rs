use vstd::prelude::*;

verus! {

/// The errors this program reports, one for each way an instruction is refused.
#[derive(Debug, Clone, Copy, PartialEq, Eq, Structural)]
pub enum ProgramError {
    InvalidArgument,
    InvalidInstructionData,
    InvalidAccountData,
    AccountAlreadyInitialized,
    NotEnoughAccountKeys,
    MissingRequiredSignature,
    IncorrectProgramId,
    ArithmeticOverflow,
    InvalidSeeds,
}

} // verus!
