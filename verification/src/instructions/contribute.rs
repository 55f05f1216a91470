//! Contributing to a fundraiser.

use vstd::prelude::*;
use vstd::arithmetic::power::pow;

use crate::arith::{checked_pow, days_elapsed, elapsed_days};
use crate::constants::{CONTRIBUTE_ACCOUNTS, MAX_CONTRIBUTION_PERCENTAGE, PERCENTAGE_SCALER};
use crate::error::{read_outcome, FundraiserError, ProgramError};
use crate::instructions::{
    bytes_read, fundraiser_read_outcome, read_contributor, read_fundraiser, read_u64_le,
    record_read_outcome,
};
use crate::le::decode_u64;
use crate::pda::{
    bytes_eq, contributor_search, find_contributor_address, fundraiser_address, is_fundraiser_address,
};
use crate::state::{Contributor, Fundraiser, FundraiserModel};

verus! {

/// What `Contribute` answers for its account count and instruction data (the
/// amount, 8 little-endian bytes), before it reads any account.
pub open spec fn parse_contribute_outcome(n_accounts: nat, data: Seq<u8>) -> Result<u64, ProgramError> {
    if n_accounts < CONTRIBUTE_ACCOUNTS {
        Err(ProgramError::NotEnoughAccountKeys)
    } else if data.len() < 8 {
        Err(ProgramError::InvalidInstructionData)
    } else {
        Ok(decode_u64(data.subrange(0, 8)) as u64)
    }
}

/// Checks the account count and reads the amount of a contribution.
pub fn parse_contribute(n_accounts: usize, data: &[u8]) -> (r: Result<u64, ProgramError>)
    ensures
        r == parse_contribute_outcome(n_accounts as nat, data@),
{
    if n_accounts < CONTRIBUTE_ACCOUNTS {
        return Err(ProgramError::NotEnoughAccountKeys);
    }
    if data.len() < 8 {
        return Err(ProgramError::InvalidInstructionData);
    }
    Ok(read_u64_le(data, 0))
}

/// The most that one contributor may give: 10% of the target, rounded down.
pub open spec fn max_contribution(amount_to_raise: u64) -> int {
    amount_to_raise * MAX_CONTRIBUTION_PERCENTAGE / PERCENTAGE_SCALER as int
}

/// What `Contribute` answers once it has read the fundraiser: the mint must be
/// the fundraiser's and the fundraiser account the address of its recorded
/// maker and bump.
pub open spec fn contribute_fundraiser_outcome(f: FundraiserModel, mint_key: Seq<u8>, fundraiser_key: Seq<u8>) -> Result<(), ProgramError> {
    if f.mint_to_raise != mint_key {
        Err(ProgramError::InvalidAccountData)
    } else if fundraiser_address(f.maker, f.bump) != fundraiser_key {
        Err(ProgramError::InvalidSeeds)
    } else {
        Ok(())
    }
}

/// Checks that a contribution goes to a genuine fundraiser of the given mint.
pub fn validate_contribute_fundraiser(fundraiser: &Fundraiser, mint_key: &[u8; 32], fundraiser_key: &[u8; 32]) -> (r: Result<(), ProgramError>)
    ensures
        r == contribute_fundraiser_outcome(fundraiser@, mint_key@, fundraiser_key@),
{
    if !bytes_eq(&fundraiser.mint_to_raise, mint_key) {
        return Err(ProgramError::InvalidAccountData);
    }
    if !is_fundraiser_address(&fundraiser.maker, fundraiser.bump, fundraiser_key) {
        return Err(ProgramError::InvalidSeeds);
    }
    Ok(())
}

/// The cap per contributor of this fundraiser: 10% of the target, rounded
/// down, for every target.
pub fn contribution_cap(fundraiser: &Fundraiser) -> (r: u64)
    ensures
        r == max_contribution(fundraiser@.amount_to_raise),
{
    let target: u64 = fundraiser.amount_to_raise();
    proof {
        assert(target * 10 / 100 == target / 10) by (nonlinear_arith);
    }
    target / 10
}

/// What the check of a contributor record's address answers: `InvalidSeeds`
/// unless the account is the canonical address found for the record.
pub open spec fn record_address_outcome(record_pda: Seq<u8>, record_key: Seq<u8>) -> Result<(), ProgramError> {
    if record_pda == record_key {
        Ok(())
    } else {
        Err(ProgramError::InvalidSeeds)
    }
}

/// Checks that the contributor account is the canonical record address.
pub fn verify_record_address(record_pda: &[u8; 32], record_key: &[u8; 32]) -> (r: Result<(), ProgramError>)
    ensures
        r == record_address_outcome(record_pda@, record_key@),
{
    if bytes_eq(record_pda, record_key) {
        Ok(())
    } else {
        Err(ProgramError::InvalidSeeds)
    }
}

/// What the size check of a contribution answers: it must be above
/// `1^decimals` (that is, above 1) and at most the cap.
pub open spec fn contribution_amount_outcome(amount: u64, decimals: u8, max_contribution: u64) -> Result<(), ProgramError> {
    if amount <= pow(1, decimals as nat) {
        Err(ProgramError::Custom(FundraiserError::ContributionTooSmall))
    } else if amount > max_contribution {
        Err(ProgramError::Custom(FundraiserError::ContributionTooBig))
    } else {
        Ok(())
    }
}

/// Checks the size of a contribution.
pub fn check_contribution_amount(amount: u64, decimals: u8, max_contribution: u64) -> (r: Result<(), ProgramError>)
    ensures
        r == contribution_amount_outcome(amount, decimals, max_contribution),
{
    let smallest: u64 = match checked_pow(1, decimals as u32) {
        Some(v) => v,
        None => {
            proof {
                vstd::arithmetic::power::lemma1_pow(decimals as nat);
            }
            return Err(ProgramError::Custom(FundraiserError::ContributionTooSmall));
        },
    };
    if !(amount > smallest) {
        return Err(ProgramError::Custom(FundraiserError::ContributionTooSmall));
    }
    if !(amount <= max_contribution) {
        return Err(ProgramError::Custom(FundraiserError::ContributionTooBig));
    }
    Ok(())
}

/// Whether the campaign still takes contributions at `now`: fewer whole days
/// have passed since it started than it runs.
pub open spec fn contributions_open(f: FundraiserModel, now: i64) -> bool {
    elapsed_days(now, f.time_started) < f.duration as int
}

/// What the window and cap check of a contribution answers: the campaign must
/// still run, and the contributor's total with this amount must stay within
/// the cap.
pub open spec fn contribution_window_outcome(
    f: FundraiserModel,
    contributor_total: u64,
    amount: u64,
    max_contribution: u64,
    now: i64,
) -> Result<(), ProgramError> {
    if !contributions_open(f, now) {
        Err(ProgramError::Custom(FundraiserError::FundraiserEnded))
    } else if !(contributor_total <= max_contribution && contributor_total + amount
        <= max_contribution) {
        Err(ProgramError::Custom(FundraiserError::MaximumContributionsReached))
    } else {
        Ok(())
    }
}

/// Checks that the campaign still runs at `now` and that the contributor stays
/// within the cap.
pub fn check_contribution_window(
    fundraiser: &Fundraiser,
    contributor: &Contributor,
    amount: u64,
    max_contribution: u64,
    now: i64,
) -> (r: Result<(), ProgramError>)
    requires
        i64::MIN <= now - fundraiser@.time_started <= i64::MAX,
    ensures
        r == contribution_window_outcome(
            fundraiser@,
            contributor.total(),
            amount,
            max_contribution,
            now,
        ),
{
    let elapsed: i64 = days_elapsed(now, fundraiser.time_started());
    if elapsed >= fundraiser.duration as i64 {
        return Err(ProgramError::Custom(FundraiserError::FundraiserEnded));
    }
    let total: u64 = contributor.amount();
    if !(total <= max_contribution && amount <= max_contribution - total) {
        return Err(ProgramError::Custom(FundraiserError::MaximumContributionsReached));
    }
    Ok(())
}

/// Records a contribution that the vault received: the fundraiser's collected
/// amount and the contributor's total both grow by `amount`. Each sum that
/// would leave `u64` is refused with `ArithmeticOverflow`; the fundraiser is
/// written before the contributor's sum is checked.
pub fn record_contribution(fundraiser: &mut Fundraiser, contributor: &mut Contributor, amount: u64) -> (r: Result<(), ProgramError>)
    ensures
        match r {
            Ok(()) => {
                &&& old(fundraiser)@.current_amount + amount <= u64::MAX
                &&& old(contributor).total() + amount <= u64::MAX
                &&& final(fundraiser)@ == (FundraiserModel {
                    current_amount: (old(fundraiser)@.current_amount + amount) as u64,
                    ..old(fundraiser)@
                })
                &&& final(contributor).total() == old(contributor).total() + amount
            },
            Err(e) => {
                &&& e == ProgramError::ArithmeticOverflow
                &&& *final(contributor) == *old(contributor)
                &&& if old(fundraiser)@.current_amount + amount > u64::MAX {
                    *final(fundraiser) == *old(fundraiser)
                } else {
                    &&& old(contributor).total() + amount > u64::MAX
                    &&& final(fundraiser)@ == (FundraiserModel {
                        current_amount: (old(fundraiser)@.current_amount + amount) as u64,
                        ..old(fundraiser)@
                    })
                }
            },
        },
{
    let current: u64 = match fundraiser.current_amount().checked_add(amount) {
        Some(v) => v,
        None => {
            return Err(ProgramError::ArithmeticOverflow);
        },
    };
    fundraiser.set_current_amount(current);
    let total: u64 = match contributor.amount().checked_add(amount) {
        Some(v) => v,
        None => {
            return Err(ProgramError::ArithmeticOverflow);
        },
    };
    contributor.set_amount(total);
    Ok(())
}

/// What `Contribute` settles before it may create the contributor record:
/// the fundraiser, the mint's decimals, the cap, and the bump to create the
/// record with when the program does not own it yet.
#[derive(Clone, Copy, Debug, PartialEq, Eq)]
pub struct ContributePlan {
    pub fundraiser: Fundraiser,
    pub decimals: u8,
    pub max_contribution: u64,
    pub create_record: Option<u8>,
}

/// What `Contribute` answers from what it reads before creating the record,
/// in order: the mint's decimals (read), the fundraiser account (read, size,
/// mint, address), and the contributor account against the canonical record
/// address (refused when the search finds none).
pub open spec fn contribute_plan_outcome(
    decimals: Result<u8, u64>,
    mint_key: Seq<u8>,
    fundraiser_key: Seq<u8>,
    fundraiser_data: Result<Seq<u8>, u64>,
    contributor_key: Seq<u8>,
    record_key: Seq<u8>,
    record_owned_by_program: bool,
) -> Result<(FundraiserModel, u8, u64, Option<u8>), ProgramError> {
    match read_outcome(decimals) {
        Err(e) => Err(e),
        Ok(d) => match fundraiser_read_outcome(fundraiser_data) {
            Err(e) => Err(e),
            Ok(f) => match contribute_fundraiser_outcome(f, mint_key, fundraiser_key) {
                Err(e) => Err(e),
                Ok(_) => match contributor_search(fundraiser_key, contributor_key) {
                    Some(p) => if p.0 == record_key {
                        Ok(
                            (
                                f,
                                d,
                                max_contribution(f.amount_to_raise) as u64,
                                if record_owned_by_program {
                                    None
                                } else {
                                    Some(p.1)
                                },
                            ),
                        )
                    } else {
                        Err(ProgramError::InvalidSeeds)
                    },
                    None => Err(ProgramError::InvalidSeeds),
                },
            },
        },
    }
}

/// Decides the first part of `Contribute` from the values read from its
/// accounts.
pub fn decide_contribute(
    decimals: Result<u8, u64>,
    mint_key: &[u8; 32],
    fundraiser_key: &[u8; 32],
    fundraiser_data: Result<&[u8], u64>,
    contributor_key: &[u8; 32],
    record_key: &[u8; 32],
    record_owned_by_program: bool,
) -> (r: Result<ContributePlan, ProgramError>)
    ensures
        match contribute_plan_outcome(
            decimals,
            mint_key@,
            fundraiser_key@,
            bytes_read(fundraiser_data),
            contributor_key@,
            record_key@,
            record_owned_by_program,
        ) {
            Err(e) => r == Err::<ContributePlan, ProgramError>(e),
            Ok(t) => r matches Ok(p) && p.fundraiser@ == t.0 && p.decimals == t.1
                && p.max_contribution == t.2 && p.create_record == t.3,
        },
{
    let d = match decimals {
        Ok(d) => d,
        Err(code) => {
            return Err(ProgramError::Runtime(code));
        },
    };
    let f = match read_fundraiser(fundraiser_data) {
        Ok(f) => f,
        Err(e) => {
            return Err(e);
        },
    };
    if let Err(e) = validate_contribute_fundraiser(&f, mint_key, fundraiser_key) {
        return Err(e);
    }
    let max = contribution_cap(&f);
    match find_contributor_address(fundraiser_key, contributor_key) {
        None => Err(ProgramError::InvalidSeeds),
        Some((pda, bump)) => {
            if let Err(e) = verify_record_address(&pda, record_key) {
                return Err(e);
            }
            let create_record = if record_owned_by_program {
                None
            } else {
                Some(bump)
            };
            Ok(ContributePlan { fundraiser: f, decimals: d, max_contribution: max, create_record })
        },
    }
}

/// What recording a contribution gives: the fundraiser with `amount` more
/// collected and the contributor's new total, or `ArithmeticOverflow` when
/// either sum leaves `u64`.
pub open spec fn recording_outcome(f: FundraiserModel, total: u64, amount: u64) -> Result<(FundraiserModel, u64), ProgramError> {
    if f.current_amount + amount > u64::MAX || total + amount > u64::MAX {
        Err(ProgramError::ArithmeticOverflow)
    } else {
        Ok(
            (
                FundraiserModel { current_amount: (f.current_amount + amount) as u64, ..f },
                (total + amount) as u64,
            ),
        )
    }
}

/// What `Contribute` answers once the record exists, in order: the record
/// (read, size), the size of the contribution, the clock (read), the campaign
/// window and the cap. On success, the amount to transfer into the vault and
/// what recording it then gives.
pub open spec fn contribution_outcome(
    f: FundraiserModel,
    decimals: u8,
    max_contribution: u64,
    amount: u64,
    record_data: Result<Seq<u8>, u64>,
    now: Result<i64, u64>,
) -> Result<(u64, Result<(FundraiserModel, u64), ProgramError>), ProgramError> {
    match record_read_outcome(record_data) {
        Err(e) => Err(e),
        Ok(total) => match contribution_amount_outcome(amount, decimals, max_contribution) {
            Err(e) => Err(e),
            Ok(_) => match read_outcome(now) {
                Err(e) => Err(e),
                Ok(t) => match contribution_window_outcome(f, total, amount, max_contribution, t) {
                    Err(e) => Err(e),
                    Ok(_) => Ok((amount, recording_outcome(f, total, amount))),
                },
            },
        },
    }
}

/// The transfer that an accepted contribution makes, and the accounts to
/// write after it (or the error that ends the instruction after it).
#[derive(Clone, Copy, Debug, PartialEq, Eq)]
pub struct ContributionEffects {
    pub transfer_amount: u64,
    pub recorded: Result<(Fundraiser, Contributor), ProgramError>,
}

/// Whether written accounts are what a recording outcome describes.
pub open spec fn recorded_as(
    r: Result<(Fundraiser, Contributor), ProgramError>,
    o: Result<(FundraiserModel, u64), ProgramError>,
) -> bool {
    match (r, o) {
        (Ok(w), Ok(m)) => w.0@ == m.0 && w.1.total() == m.1,
        (Err(a), Err(b)) => a == b,
        _ => false,
    }
}

/// Decides the rest of `Contribute` from the record and the clock.
pub fn decide_contribution(
    plan: &ContributePlan,
    amount: u64,
    record_data: Result<&[u8], u64>,
    now: Result<i64, u64>,
) -> (r: Result<ContributionEffects, ProgramError>)
    requires
        now matches Ok(t) ==> i64::MIN <= t - plan.fundraiser@.time_started <= i64::MAX,
    ensures
        match contribution_outcome(
            plan.fundraiser@,
            plan.decimals,
            plan.max_contribution,
            amount,
            bytes_read(record_data),
            now,
        ) {
            Err(e) => r == Err::<ContributionEffects, ProgramError>(e),
            Ok(o) => r matches Ok(x) && x.transfer_amount == o.0 && recorded_as(x.recorded, o.1),
        },
{
    let record = match read_contributor(record_data) {
        Ok(c) => c,
        Err(e) => {
            return Err(e);
        },
    };
    if let Err(e) = check_contribution_amount(amount, plan.decimals, plan.max_contribution) {
        return Err(e);
    }
    let t = match now {
        Ok(t) => t,
        Err(code) => {
            return Err(ProgramError::Runtime(code));
        },
    };
    if let Err(e) = check_contribution_window(
        &plan.fundraiser,
        &record,
        amount,
        plan.max_contribution,
        t,
    ) {
        return Err(e);
    }
    let mut f = plan.fundraiser;
    let mut c = record;
    let recorded = match record_contribution(&mut f, &mut c, amount) {
        Ok(()) => Ok((f, c)),
        Err(e) => Err(e),
    };
    Ok(ContributionEffects { transfer_amount: amount, recorded })
}

} // verus!
