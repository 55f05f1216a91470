//! Opening a fundraiser.

use vstd::prelude::*;
use vstd::arithmetic::power::pow;

use crate::arith::checked_pow;
use crate::constants::{INITIALIZE_ACCOUNTS, MIN_AMOUNT_TO_RAISE};
use crate::error::{read_outcome, FundraiserError, ProgramError};
use crate::instructions::{bytes_read, fundraiser_read_outcome, read_fundraiser, read_u64_le};
use crate::le::decode_u64;
use crate::pda::{bytes_eq, find_fundraiser_address, fundraiser_search};
use crate::state::{Fundraiser, FundraiserModel};

verus! {

/// The instruction data of `Initialize`: the target (8 little-endian bytes)
/// and the duration in days (1 byte).
#[derive(Clone, Copy, Debug, PartialEq, Eq, Structural)]
pub struct InitializeArgs {
    pub amount: u64,
    pub duration: u8,
}

/// What `Initialize` answers for its account count and instruction data,
/// before it reads any account.
pub open spec fn parse_initialize_outcome(n_accounts: nat, data: Seq<u8>) -> Result<InitializeArgs, ProgramError> {
    if n_accounts < INITIALIZE_ACCOUNTS {
        Err(ProgramError::NotEnoughAccountKeys)
    } else if data.len() < 9 {
        Err(ProgramError::InvalidInstructionData)
    } else {
        Ok(InitializeArgs { amount: decode_u64(data.subrange(0, 8)) as u64, duration: data[8] })
    }
}

/// Checks the account count and reads the instruction data of `Initialize`.
pub fn parse_initialize(n_accounts: usize, data: &[u8]) -> (r: Result<InitializeArgs, ProgramError>)
    ensures
        r == parse_initialize_outcome(n_accounts as nat, data@),
{
    if n_accounts < INITIALIZE_ACCOUNTS {
        return Err(ProgramError::NotEnoughAccountKeys);
    }
    if data.len() < 9 {
        return Err(ProgramError::InvalidInstructionData);
    }
    let amount: u64 = read_u64_le(data, 0);
    Ok(InitializeArgs { amount, duration: data[8] })
}

/// The smallest target is above 3 to the power of the mint's decimals.
pub open spec fn minimum_target(decimals: u8) -> int {
    pow(MIN_AMOUNT_TO_RAISE as int, decimals as nat)
}

/// What `Initialize` answers once it knows the mint's decimals, the canonical
/// fundraiser address of the maker with its bump, the fundraiser account's
/// address and whether the program owns it already: the bump to record, or
/// why the fundraiser cannot be opened.
pub open spec fn initialize_outcome(
    args: InitializeArgs,
    decimals: u8,
    fundraiser_pda: Seq<u8>,
    pda_bump: u8,
    fundraiser_key: Seq<u8>,
    fundraiser_owned_by_program: bool,
) -> Result<u8, ProgramError> {
    if args.amount <= minimum_target(decimals) {
        Err(ProgramError::Custom(FundraiserError::InvalidAmount))
    } else if fundraiser_pda != fundraiser_key {
        Err(ProgramError::InvalidSeeds)
    } else if fundraiser_owned_by_program {
        Err(ProgramError::AccountAlreadyInitialized)
    } else {
        Ok(pda_bump)
    }
}

/// Decides whether the fundraiser can be opened: the target must be above
/// `3^decimals`, the fundraiser account must be the canonical address of the
/// maker's fundraiser, and the program must not own it yet.
pub fn validate_initialize(
    args: &InitializeArgs,
    decimals: u8,
    fundraiser_pda: &[u8; 32],
    pda_bump: u8,
    fundraiser_key: &[u8; 32],
    fundraiser_owned_by_program: bool,
) -> (r: Result<u8, ProgramError>)
    ensures
        r == initialize_outcome(
            *args,
            decimals,
            fundraiser_pda@,
            pda_bump,
            fundraiser_key@,
            fundraiser_owned_by_program,
        ),
{
    let minimum: u64 = match checked_pow(MIN_AMOUNT_TO_RAISE, decimals as u32) {
        Some(v) => v,
        None => {
            return Err(ProgramError::Custom(FundraiserError::InvalidAmount));
        },
    };
    if !(args.amount > minimum) {
        return Err(ProgramError::Custom(FundraiserError::InvalidAmount));
    }
    if !bytes_eq(fundraiser_pda, fundraiser_key) {
        return Err(ProgramError::InvalidSeeds);
    }
    if fundraiser_owned_by_program {
        return Err(ProgramError::AccountAlreadyInitialized);
    }
    Ok(pda_bump)
}

/// The fundraiser as `Initialize` leaves it.
pub open spec fn opened_fundraiser(
    maker: Seq<u8>,
    mint_to_raise: Seq<u8>,
    args: InitializeArgs,
    bump: u8,
    now: i64,
) -> FundraiserModel {
    FundraiserModel {
        maker,
        mint_to_raise,
        amount_to_raise: args.amount,
        current_amount: 0,
        time_started: now,
        duration: args.duration,
        bump,
    }
}

/// Records a newly opened fundraiser: the maker, the mint, the target, nothing
/// collected yet, the start time, the duration and the bump.
pub fn record_new_fundraiser(
    fundraiser: &mut Fundraiser,
    maker: &[u8; 32],
    mint_to_raise: &[u8; 32],
    args: &InitializeArgs,
    bump: u8,
    now: i64,
)
    ensures
        final(fundraiser)@ == opened_fundraiser(maker@, mint_to_raise@, *args, bump, now),
{
    fundraiser.set_maker(maker);
    fundraiser.set_mint_to_raise(mint_to_raise);
    fundraiser.set_amount_to_raise(args.amount);
    fundraiser.set_current_amount(0);
    fundraiser.set_time_started(now);
    fundraiser.set_duration(args.duration);
    fundraiser.set_bump(bump);
}

/// What `Initialize` answers from what it reads, in order: the mint's
/// decimals (read), the target against `3^decimals`, the fundraiser account
/// against the canonical address of the maker's fundraiser (refused when the
/// search finds none), and whether the program owns it already. On success,
/// the bump to record.
pub open spec fn initialize_decision(
    args: InitializeArgs,
    decimals: Result<u8, u64>,
    maker: Seq<u8>,
    fundraiser_key: Seq<u8>,
    fundraiser_owned_by_program: bool,
) -> Result<u8, ProgramError> {
    match read_outcome(decimals) {
        Err(e) => Err(e),
        Ok(d) => if args.amount <= minimum_target(d) {
            Err(ProgramError::Custom(FundraiserError::InvalidAmount))
        } else {
            match fundraiser_search(maker) {
                None => Err(ProgramError::InvalidSeeds),
                Some(p) => initialize_outcome(
                    args,
                    d,
                    p.0,
                    p.1,
                    fundraiser_key,
                    fundraiser_owned_by_program,
                ),
            }
        },
    }
}

/// Decides `Initialize` from the values read from its accounts.
pub fn decide_initialize(
    args: &InitializeArgs,
    decimals: Result<u8, u64>,
    maker: &[u8; 32],
    fundraiser_key: &[u8; 32],
    fundraiser_owned_by_program: bool,
) -> (r: Result<u8, ProgramError>)
    ensures
        r == initialize_decision(
            *args,
            decimals,
            maker@,
            fundraiser_key@,
            fundraiser_owned_by_program,
        ),
{
    let d = match decimals {
        Ok(d) => d,
        Err(code) => {
            return Err(ProgramError::Runtime(code));
        },
    };
    let minimum = checked_pow(MIN_AMOUNT_TO_RAISE, d as u32);
    match minimum {
        Some(m) => {
            if !(args.amount > m) {
                return Err(ProgramError::Custom(FundraiserError::InvalidAmount));
            }
        },
        None => {
            return Err(ProgramError::Custom(FundraiserError::InvalidAmount));
        },
    }
    match find_fundraiser_address(maker) {
        None => Err(ProgramError::InvalidSeeds),
        Some((pda, bump)) => validate_initialize(
            args,
            d,
            &pda,
            bump,
            fundraiser_key,
            fundraiser_owned_by_program,
        ),
    }
}

/// Writes the newly opened fundraiser into its freshly created account, whose
/// data is read first (a failed read or data of the wrong size is refused).
pub fn open_fundraiser(
    data: Result<&[u8], u64>,
    maker: &[u8; 32],
    mint_to_raise: &[u8; 32],
    args: &InitializeArgs,
    bump: u8,
    now: i64,
) -> (r: Result<Fundraiser, ProgramError>)
    ensures
        match fundraiser_read_outcome(bytes_read(data)) {
            Err(e) => r == Err::<Fundraiser, ProgramError>(e),
            Ok(_) => r matches Ok(f) && f@ == opened_fundraiser(
                maker@,
                mint_to_raise@,
                *args,
                bump,
                now,
            ),
        },
{
    let mut f = match read_fundraiser(data) {
        Ok(f) => f,
        Err(e) => {
            return Err(e);
        },
    };
    record_new_fundraiser(&mut f, maker, mint_to_raise, args, bump, now);
    Ok(f)
}

} // verus!
