//! A contributor taking back their contribution after a failed campaign.

use vstd::prelude::*;

use crate::arith::{days_elapsed, elapsed_days};
use crate::constants::REFUND_ACCOUNTS;
use crate::error::{read_outcome, FundraiserError, ProgramError};
use crate::instructions::checker::{is_pinned_vault, is_vault_of, target_reached};
use crate::instructions::{
    bytes_read, fundraiser_read_outcome, read_contributor, read_fundraiser, record_read_outcome,
    TokenAccountState,
};
use crate::pda::{
    bytes_eq, contributor_search, find_contributor_address, find_vault_address, fundraiser_address,
    is_found_address, is_fundraiser_address, matches_found,
};
use crate::state::{Fundraiser, FundraiserModel};

verus! {

/// What `Refund` answers for its account count and the contributor's
/// signature, before it reads any account.
pub open spec fn parse_refund_outcome(n_accounts: nat, contributor_is_signer: bool) -> Result<(), ProgramError> {
    if n_accounts < REFUND_ACCOUNTS {
        Err(ProgramError::NotEnoughAccountKeys)
    } else if !contributor_is_signer {
        Err(ProgramError::MissingRequiredSignature)
    } else {
        Ok(())
    }
}

/// Checks the account count of `Refund` and that the contributor signed.
pub fn parse_refund(n_accounts: usize, contributor_is_signer: bool) -> (r: Result<(), ProgramError>)
    ensures
        r == parse_refund_outcome(n_accounts as nat, contributor_is_signer),
{
    if n_accounts < REFUND_ACCOUNTS {
        return Err(ProgramError::NotEnoughAccountKeys);
    }
    if !contributor_is_signer {
        return Err(ProgramError::MissingRequiredSignature);
    }
    Ok(())
}

/// What `Refund` answers once it has read the fundraiser: the mint must be
/// the fundraiser's, the fundraiser account the address of the given maker
/// and the recorded bump, and the contributor account the signer's canonical
/// record (refused when the search finds none).
pub open spec fn refund_accounts_outcome(
    f: FundraiserModel,
    mint_key: Seq<u8>,
    maker_key: Seq<u8>,
    fundraiser_key: Seq<u8>,
    contributor_key: Seq<u8>,
    record_key: Seq<u8>,
) -> Result<(), ProgramError> {
    if f.mint_to_raise != mint_key {
        Err(ProgramError::InvalidAccountData)
    } else if fundraiser_address(maker_key, f.bump) != fundraiser_key {
        Err(ProgramError::InvalidSeeds)
    } else if !is_found_address(contributor_search(fundraiser_key, contributor_key), record_key) {
        Err(ProgramError::InvalidSeeds)
    } else {
        Ok(())
    }
}

/// Checks the accounts of a refund.
pub fn validate_refund_accounts(
    fundraiser: &Fundraiser,
    mint_key: &[u8; 32],
    maker_key: &[u8; 32],
    fundraiser_key: &[u8; 32],
    contributor_key: &[u8; 32],
    record_key: &[u8; 32],
) -> (r: Result<(), ProgramError>)
    ensures
        r == refund_accounts_outcome(
            fundraiser@,
            mint_key@,
            maker_key@,
            fundraiser_key@,
            contributor_key@,
            record_key@,
        ),
{
    if !bytes_eq(&fundraiser.mint_to_raise, mint_key) {
        return Err(ProgramError::InvalidAccountData);
    }
    if !is_fundraiser_address(maker_key, fundraiser.bump, fundraiser_key) {
        return Err(ProgramError::InvalidSeeds);
    }
    let found = find_contributor_address(fundraiser_key, contributor_key);
    if !matches_found(&found, record_key) {
        return Err(ProgramError::InvalidSeeds);
    }
    Ok(())
}

/// Whether refunds are open at `now`: at least as many whole days have passed
/// since the start as the campaign runs.
pub open spec fn refunds_open(f: FundraiserModel, now: i64) -> bool {
    elapsed_days(now, f.time_started) >= f.duration as int
}

/// What the time check of a refund answers.
pub open spec fn refund_window_outcome(f: FundraiserModel, now: i64) -> Result<(), ProgramError> {
    if refunds_open(f, now) {
        Ok(())
    } else {
        Err(ProgramError::Custom(FundraiserError::FundraiserNotEnded))
    }
}

/// Checks that the campaign is over at `now`.
pub fn check_refund_window(fundraiser: &Fundraiser, now: i64) -> (r: Result<(), ProgramError>)
    requires
        i64::MIN <= now - fundraiser@.time_started <= i64::MAX,
    ensures
        r == refund_window_outcome(fundraiser@, now),
{
    let elapsed: i64 = days_elapsed(now, fundraiser.time_started());
    if elapsed < fundraiser.duration as i64 {
        return Err(ProgramError::Custom(FundraiserError::FundraiserNotEnded));
    }
    Ok(())
}

/// What the vault check of a refund answers: the vault must be the
/// fundraiser's and hold less than the target.
pub open spec fn refund_vault_outcome(f: FundraiserModel, fundraiser_key: Seq<u8>, vault: TokenAccountState) -> Result<(), ProgramError> {
    if !is_vault_of(f, fundraiser_key, vault) {
        Err(ProgramError::InvalidAccountData)
    } else if target_reached(f, vault.amount) {
        Err(ProgramError::Custom(FundraiserError::TargetMet))
    } else {
        Ok(())
    }
}

/// Checks that the vault is the fundraiser's and missed the target.
pub fn check_refund_vault(fundraiser: &Fundraiser, fundraiser_key: &[u8; 32], vault: &TokenAccountState) -> (r: Result<(), ProgramError>)
    ensures
        r == refund_vault_outcome(fundraiser@, fundraiser_key@, *vault),
{
    if !bytes_eq(&vault.mint, &fundraiser.mint_to_raise) || !bytes_eq(&vault.owner, fundraiser_key) {
        return Err(ProgramError::InvalidAccountData);
    }
    let amount_to_raise: u64 = fundraiser.amount_to_raise();
    if !(vault.amount < amount_to_raise) {
        return Err(ProgramError::Custom(FundraiserError::TargetMet));
    }
    Ok(())
}

/// Records a refund that left the vault: the fundraiser's collected amount
/// shrinks by the refunded amount, which is refused with `ArithmeticOverflow`
/// when it is more than was collected.
pub fn record_refund(fundraiser: &mut Fundraiser, refund_amount: u64) -> (r: Result<(), ProgramError>)
    ensures
        match r {
            Ok(()) => {
                &&& refund_amount <= old(fundraiser)@.current_amount
                &&& final(fundraiser)@ == (FundraiserModel {
                    current_amount: (old(fundraiser)@.current_amount - refund_amount) as u64,
                    ..old(fundraiser)@
                })
            },
            Err(e) => {
                &&& refund_amount > old(fundraiser)@.current_amount
                &&& e == ProgramError::ArithmeticOverflow
                &&& *final(fundraiser) == *old(fundraiser)
            },
        },
{
    let remaining: u64 = match fundraiser.current_amount().checked_sub(refund_amount) {
        Some(v) => v,
        None => {
            return Err(ProgramError::ArithmeticOverflow);
        },
    };
    fundraiser.set_current_amount(remaining);
    Ok(())
}

/// What recording a refund of `total` gives: the fundraiser with that much
/// less collected, or `ArithmeticOverflow` when it is more than was collected.
pub open spec fn refund_recording(f: FundraiserModel, total: u64) -> Result<FundraiserModel, ProgramError> {
    if total > f.current_amount {
        Err(ProgramError::ArithmeticOverflow)
    } else {
        Ok(FundraiserModel { current_amount: (f.current_amount - total) as u64, ..f })
    }
}

/// What `Refund` answers from what it reads, in order: the fundraiser account
/// (read, size), the accounts (mint, fundraiser address, record address), the
/// clock (read) and the campaign window, the vault's address, the vault
/// (read, mint, owner, target), and the record (read, size). On success, the
/// amount to pay back (the record's total), the bump that signs for the
/// fundraiser, and what recording the refund then gives.
pub open spec fn refund_outcome(
    mint_key: Seq<u8>,
    maker_key: Seq<u8>,
    fundraiser_key: Seq<u8>,
    fundraiser_data: Result<Seq<u8>, u64>,
    contributor_key: Seq<u8>,
    record_key: Seq<u8>,
    now: Result<i64, u64>,
    vault_key: Seq<u8>,
    vault: Result<TokenAccountState, u64>,
    record_data: Result<Seq<u8>, u64>,
) -> Result<(u64, u8, Result<FundraiserModel, ProgramError>), ProgramError> {
    match fundraiser_read_outcome(fundraiser_data) {
        Err(e) => Err(e),
        Ok(f) => match refund_accounts_outcome(
            f,
            mint_key,
            maker_key,
            fundraiser_key,
            contributor_key,
            record_key,
        ) {
            Err(e) => Err(e),
            Ok(_) => match read_outcome(now) {
                Err(e) => Err(e),
                Ok(t) => match refund_window_outcome(f, t) {
                    Err(e) => Err(e),
                    Ok(_) => if !is_pinned_vault(f, fundraiser_key, vault_key) {
                        Err(ProgramError::InvalidAccountData)
                    } else {
                        match read_outcome(vault) {
                            Err(e) => Err(e),
                            Ok(v) => match refund_vault_outcome(f, fundraiser_key, v) {
                                Err(e) => Err(e),
                                Ok(_) => match record_read_outcome(record_data) {
                                    Err(e) => Err(e),
                                    Ok(total) => Ok((total, f.bump, refund_recording(f, total))),
                                },
                            },
                        }
                    },
                },
            },
        },
    }
}

/// The transfer that an accepted refund makes, and the fundraiser to write
/// after it (or the error that ends the instruction after it).
#[derive(Clone, Copy, Debug, PartialEq, Eq)]
pub struct RefundPlan {
    pub refund_amount: u64,
    pub bump: u8,
    pub recorded: Result<Fundraiser, ProgramError>,
}

/// Whether the written fundraiser is what a refund's recording describes.
pub open spec fn refund_recorded_as(
    r: Result<Fundraiser, ProgramError>,
    o: Result<FundraiserModel, ProgramError>,
) -> bool {
    match (r, o) {
        (Ok(f), Ok(m)) => f@ == m,
        (Err(a), Err(b)) => a == b,
        _ => false,
    }
}

/// Whether the day count of a refund at `now` stays within `i64` (the
/// subtraction of the start time from `now` panics otherwise).
pub open spec fn refund_clock_in_range(fundraiser_data: Result<Seq<u8>, u64>, now: Result<i64, u64>) -> bool {
    match (fundraiser_read_outcome(fundraiser_data), now) {
        (Ok(f), Ok(t)) => i64::MIN <= t - f.time_started <= i64::MAX,
        _ => true,
    }
}

/// Decides `Refund` from the values read from its accounts.
pub fn decide_refund(
    mint_key: &[u8; 32],
    maker_key: &[u8; 32],
    fundraiser_key: &[u8; 32],
    fundraiser_data: Result<&[u8], u64>,
    contributor_key: &[u8; 32],
    record_key: &[u8; 32],
    now: Result<i64, u64>,
    vault_key: &[u8; 32],
    vault: Result<TokenAccountState, u64>,
    record_data: Result<&[u8], u64>,
) -> (r: Result<RefundPlan, ProgramError>)
    requires
        refund_clock_in_range(bytes_read(fundraiser_data), now),
    ensures
        match refund_outcome(
            mint_key@,
            maker_key@,
            fundraiser_key@,
            bytes_read(fundraiser_data),
            contributor_key@,
            record_key@,
            now,
            vault_key@,
            vault,
            bytes_read(record_data),
        ) {
            Err(e) => r == Err::<RefundPlan, ProgramError>(e),
            Ok(o) => r matches Ok(p) && p.refund_amount == o.0 && p.bump == o.1
                && refund_recorded_as(p.recorded, o.2),
        },
{
    let f = match read_fundraiser(fundraiser_data) {
        Ok(f) => f,
        Err(e) => {
            return Err(e);
        },
    };
    if let Err(e) = validate_refund_accounts(
        &f,
        mint_key,
        maker_key,
        fundraiser_key,
        contributor_key,
        record_key,
    ) {
        return Err(e);
    }
    let t = match now {
        Ok(t) => t,
        Err(code) => {
            return Err(ProgramError::Runtime(code));
        },
    };
    if let Err(e) = check_refund_window(&f, t) {
        return Err(e);
    }
    let found = find_vault_address(fundraiser_key, &f.mint_to_raise);
    if !matches_found(&found, vault_key) {
        return Err(ProgramError::InvalidAccountData);
    }
    let v = match vault {
        Ok(v) => v,
        Err(code) => {
            return Err(ProgramError::Runtime(code));
        },
    };
    if let Err(e) = check_refund_vault(&f, fundraiser_key, &v) {
        return Err(e);
    }
    let record = match read_contributor(record_data) {
        Ok(c) => c,
        Err(e) => {
            return Err(e);
        },
    };
    let refund_amount: u64 = record.amount();
    let mut after = f;
    let recorded = match record_refund(&mut after, refund_amount) {
        Ok(()) => Ok(after),
        Err(e) => Err(e),
    };
    Ok(RefundPlan { refund_amount, bump: f.bump, recorded })
}

} // verus!
