//! The program's instructions: how each is named in the instruction data, and
//! the decisions of each, from the values read out of its accounts.

use vstd::prelude::*;

use crate::error::{read_outcome, ProgramError};
use crate::le::{decode_u64, lemma_encode_decode_u64, u64_from_le_bytes};
use crate::pda::{fundraiser_address, is_fundraiser_address};
use crate::state::{
    fundraiser_model_of_bytes, lemma_model_of_account_bytes, Contributor, Fundraiser, FundraiserModel,
};

pub mod checker;
pub mod contribute;
pub mod initialize;
pub mod refund;

verus! {

/// The four instructions, by their discriminator byte.
#[derive(Clone, Copy, Debug, PartialEq, Eq, Structural)]
pub enum FundraiserInstructions {
    /// Discriminator 0: the maker opens a fundraiser.
    Initialize,
    /// Discriminator 1: a contributor funds the vault.
    Contribute,
    /// Discriminator 2: the maker collects the vault once the target is met.
    CheckContributions,
    /// Discriminator 3: a contributor takes back their contribution.
    Refund,
}

/// The instruction that a discriminator byte names, if any.
pub open spec fn instruction_named(d: u8) -> Option<FundraiserInstructions> {
    if d == 0 {
        Some(FundraiserInstructions::Initialize)
    } else if d == 1 {
        Some(FundraiserInstructions::Contribute)
    } else if d == 2 {
        Some(FundraiserInstructions::CheckContributions)
    } else if d == 3 {
        Some(FundraiserInstructions::Refund)
    } else {
        None
    }
}

/// What the program answers for instruction data: the named instruction, or
/// `InvalidInstructionData` when the data is empty or names none.
pub open spec fn decode_outcome(data: Seq<u8>) -> Result<FundraiserInstructions, ProgramError> {
    if data.len() == 0 {
        Err(ProgramError::InvalidInstructionData)
    } else {
        match instruction_named(data[0]) {
            Some(i) => Ok(i),
            None => Err(ProgramError::InvalidInstructionData),
        }
    }
}

impl FundraiserInstructions {
    /// The instruction that a discriminator byte names.
    pub fn try_from_discriminator(d: u8) -> (r: Result<FundraiserInstructions, ProgramError>)
        ensures
            r == (match instruction_named(d) {
                Some(i) => Ok(i),
                None => Err(ProgramError::InvalidInstructionData),
            }),
    {
        match d {
            0 => Ok(FundraiserInstructions::Initialize),
            1 => Ok(FundraiserInstructions::Contribute),
            2 => Ok(FundraiserInstructions::CheckContributions),
            3 => Ok(FundraiserInstructions::Refund),
            _ => Err(ProgramError::InvalidInstructionData),
        }
    }
}

/// Reads the instruction that the first byte of the instruction data names;
/// the rest of the data is the instruction's own.
pub fn decode_instruction(instruction_data: &[u8]) -> (r: Result<FundraiserInstructions, ProgramError>)
    ensures
        r == decode_outcome(instruction_data@),
{
    if instruction_data.len() == 0 {
        return Err(ProgramError::InvalidInstructionData);
    }
    FundraiserInstructions::try_from_discriminator(instruction_data[0])
}

/// What the program needs of an SPL token account: its mint, its owner and the
/// tokens it holds.
#[derive(Clone, Copy, Debug, PartialEq, Eq)]
pub struct TokenAccountState {
    pub mint: [u8; 32],
    pub owner: [u8; 32],
    pub amount: u64,
}

/// Reads eight little-endian bytes of `data` from `start` on.
pub fn read_u64_le(data: &[u8], start: usize) -> (r: u64)
    requires
        start + 8 <= data@.len(),
    ensures
        r == decode_u64(data@.subrange(start as int, start + 8)),
{
    let b: [u8; 8] = [
        data[start],
        data[start + 1],
        data[start + 2],
        data[start + 3],
        data[start + 4],
        data[start + 5],
        data[start + 6],
        data[start + 7],
    ];
    assert(b@ =~= data@.subrange(start as int, start + 8));
    u64_from_le_bytes(b)
}

/// What the address check of a fundraiser answers: `InvalidSeeds` unless the
/// account is the fundraiser address of `maker` with `bump`.
pub open spec fn fundraiser_address_outcome(maker: Seq<u8>, bump: u8, fundraiser_key: Seq<u8>) -> Result<(), ProgramError> {
    if fundraiser_address(maker, bump) == fundraiser_key {
        Ok(())
    } else {
        Err(ProgramError::InvalidSeeds)
    }
}

/// Checks that the fundraiser account is the address that `maker` and `bump`
/// derive.
pub fn verify_fundraiser_address(maker: &[u8; 32], bump: u8, fundraiser_key: &[u8; 32]) -> (r: Result<(), ProgramError>)
    ensures
        r == fundraiser_address_outcome(maker@, bump, fundraiser_key@),
{
    if is_fundraiser_address(maker, bump, fundraiser_key) {
        Ok(())
    } else {
        Err(ProgramError::InvalidSeeds)
    }
}

/// The lamports of a closed account go to the recipient.
pub fn reclaim_lamports(recipient: u64, closed: u64) -> (r: u64)
    requires
        recipient + closed <= u64::MAX,
    ensures
        r == recipient + closed,
{
    recipient + closed
}

/// The bytes that a read of account data gave, or the read's error code.
pub open spec fn bytes_read(r: Result<&[u8], u64>) -> Result<Seq<u8>, u64> {
    match r {
        Ok(d) => Ok(d@),
        Err(code) => Err(code),
    }
}

/// What reading a fundraiser account gives: the read's error, a refusal of
/// data of the wrong size, or the fundraiser its bytes record.
pub open spec fn fundraiser_read_outcome(r: Result<Seq<u8>, u64>) -> Result<FundraiserModel, ProgramError> {
    match r {
        Err(code) => Err(ProgramError::Runtime(code)),
        Ok(d) => if d.len() == Fundraiser::LEN {
            Ok(fundraiser_model_of_bytes(d))
        } else {
            Err(ProgramError::InvalidAccountData)
        },
    }
}

/// What reading a contributor record gives: the read's error, a refusal of
/// data of the wrong size, or the recorded total.
pub open spec fn record_read_outcome(r: Result<Seq<u8>, u64>) -> Result<u64, ProgramError> {
    match r {
        Err(code) => Err(ProgramError::Runtime(code)),
        Ok(d) => if d.len() == Contributor::LEN {
            Ok(decode_u64(d) as u64)
        } else {
            Err(ProgramError::InvalidAccountData)
        },
    }
}

/// Reads the fundraiser that an account holds, passing on a failed read.
pub fn read_fundraiser(data: Result<&[u8], u64>) -> (r: Result<Fundraiser, ProgramError>)
    ensures
        match (r, fundraiser_read_outcome(bytes_read(data))) {
            (Ok(f), Ok(m)) => f@ == m && (data matches Ok(d) && f.account_bytes() == d@),
            (Err(a), Err(b)) => a == b,
            _ => false,
        },
{
    match data {
        Err(code) => Err(ProgramError::Runtime(code)),
        Ok(d) => {
            let r = Fundraiser::from_account_info(d);
            proof {
                if let Ok(f) = r {
                    lemma_model_of_account_bytes(f);
                }
            }
            r
        },
    }
}

/// Reads the contributor record that an account holds, passing on a failed
/// read.
pub fn read_contributor(data: Result<&[u8], u64>) -> (r: Result<Contributor, ProgramError>)
    ensures
        match (r, record_read_outcome(bytes_read(data))) {
            (Ok(c), Ok(t)) => c.total() == t && (data matches Ok(d) && c.account_bytes() == d@),
            (Err(a), Err(b)) => a == b,
            _ => false,
        },
{
    match data {
        Err(code) => Err(ProgramError::Runtime(code)),
        Ok(d) => Contributor::from_account_info(d),
    }
}

} // verus!
