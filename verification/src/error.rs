//! Errors that the program answers a refused instruction with.

use vstd::prelude::*;

verus! {

/// Errors of the fundraiser's own rules.
#[derive(Clone, Copy, Debug, PartialEq, Eq, Structural)]
pub enum FundraiserError {
    /// The target is not above the minimum for the mint's decimals.
    InvalidAmount,
    /// The contribution is not above the smallest accepted amount.
    ContributionTooSmall,
    /// The contribution is above the per-contributor cap.
    ContributionTooBig,
    /// The contributor's total would go above the per-contributor cap.
    MaximumContributionsReached,
    /// The campaign is over: no more contributions.
    FundraiserEnded,
    /// The campaign is still running: no refunds yet.
    FundraiserNotEnded,
    /// The vault reached the target: no refunds.
    TargetMet,
    /// The vault has not reached the target: the maker cannot collect.
    TargetNotMet,
}

/// The custom error code of each fundraiser error, in declaration order.
pub open spec fn fundraiser_error_code(e: FundraiserError) -> u32 {
    match e {
        FundraiserError::InvalidAmount => 0,
        FundraiserError::ContributionTooSmall => 1,
        FundraiserError::ContributionTooBig => 2,
        FundraiserError::MaximumContributionsReached => 3,
        FundraiserError::FundraiserEnded => 4,
        FundraiserError::FundraiserNotEnded => 5,
        FundraiserError::TargetMet => 6,
        FundraiserError::TargetNotMet => 7,
    }
}

impl FundraiserError {
    /// The custom error code that the runtime reports for this error.
    pub fn code(&self) -> (r: u32)
        ensures
            r == fundraiser_error_code(*self),
    {
        match self {
            FundraiserError::InvalidAmount => 0,
            FundraiserError::ContributionTooSmall => 1,
            FundraiserError::ContributionTooBig => 2,
            FundraiserError::MaximumContributionsReached => 3,
            FundraiserError::FundraiserEnded => 4,
            FundraiserError::FundraiserNotEnded => 5,
            FundraiserError::TargetMet => 6,
            FundraiserError::TargetNotMet => 7,
        }
    }
}

/// The errors that an instruction of this program can end with.
#[derive(Clone, Copy, Debug, PartialEq, Eq, Structural)]
pub enum ProgramError {
    /// The instruction data is too short or names no instruction.
    InvalidInstructionData,
    /// Fewer accounts than the instruction needs.
    NotEnoughAccountKeys,
    /// An account holds data of the wrong size or for the wrong mint or owner.
    InvalidAccountData,
    /// An account is not the address derived from its seeds.
    InvalidSeeds,
    /// The fundraiser account already belongs to the program.
    AccountAlreadyInitialized,
    /// A required signature is missing.
    MissingRequiredSignature,
    /// A recorded amount would leave the range of `u64`.
    ArithmeticOverflow,
    /// An error of the fundraiser's own rules.
    Custom(FundraiserError),
    /// An error that reading an account or a sysvar reported, by its code,
    /// passed on unchanged.
    Runtime(u64),
}

/// What a read that may fail gives the program: the value, or the read's own
/// error.
pub open spec fn read_outcome<T>(r: Result<T, u64>) -> Result<T, ProgramError> {
    match r {
        Ok(v) => Ok(v),
        Err(code) => Err(ProgramError::Runtime(code)),
    }
}

} // verus!
