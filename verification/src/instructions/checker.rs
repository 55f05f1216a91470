//! The maker collecting a fundraiser whose vault reached the target.

use vstd::prelude::*;

use crate::constants::CHECK_CONTRIBUTIONS_ACCOUNTS;
use crate::error::{read_outcome, FundraiserError, ProgramError};
use crate::instructions::{
    bytes_read, fundraiser_read_outcome, read_fundraiser, verify_fundraiser_address,
    TokenAccountState,
};
use crate::pda::{
    bytes_eq, find_vault_address, fundraiser_address, is_found_address, matches_found, vault_search,
};
use crate::state::{Fundraiser, FundraiserModel};

verus! {

/// What `CheckContributions` answers for its account count and the maker's
/// signature, before it reads any account.
pub open spec fn parse_check_contributions_outcome(n_accounts: nat, maker_is_signer: bool) -> Result<(), ProgramError> {
    if n_accounts < CHECK_CONTRIBUTIONS_ACCOUNTS {
        Err(ProgramError::NotEnoughAccountKeys)
    } else if !maker_is_signer {
        Err(ProgramError::MissingRequiredSignature)
    } else {
        Ok(())
    }
}

/// Checks the account count of `CheckContributions` and that the maker signed.
pub fn parse_check_contributions(n_accounts: usize, maker_is_signer: bool) -> (r: Result<(), ProgramError>)
    ensures
        r == parse_check_contributions_outcome(n_accounts as nat, maker_is_signer),
{
    if n_accounts < CHECK_CONTRIBUTIONS_ACCOUNTS {
        return Err(ProgramError::NotEnoughAccountKeys);
    }
    if !maker_is_signer {
        return Err(ProgramError::MissingRequiredSignature);
    }
    Ok(())
}

/// Whether a token account is the fundraiser's vault: it holds the fundraiser's
/// mint and the fundraiser account owns it.
pub open spec fn is_vault_of(f: FundraiserModel, fundraiser_key: Seq<u8>, vault: TokenAccountState) -> bool {
    vault.mint@ == f.mint_to_raise && vault.owner@ == fundraiser_key
}

/// Whether the vault holds at least the target.
pub open spec fn target_reached(f: FundraiserModel, vault_amount: u64) -> bool {
    vault_amount >= f.amount_to_raise
}

/// What `CheckContributions` answers once it has read the vault: the whole
/// vault goes to the maker when it is the fundraiser's vault and holds at least
/// the target.
pub open spec fn settle_outcome(f: FundraiserModel, fundraiser_key: Seq<u8>, vault: TokenAccountState) -> Result<u64, ProgramError> {
    if !is_vault_of(f, fundraiser_key, vault) {
        Err(ProgramError::InvalidAccountData)
    } else if !target_reached(f, vault.amount) {
        Err(ProgramError::Custom(FundraiserError::TargetNotMet))
    } else {
        Ok(vault.amount)
    }
}

/// Decides the maker's collection: gives the amount to transfer from the vault
/// to the maker, which is all of the vault.
pub fn settle_fundraiser(fundraiser: &Fundraiser, fundraiser_key: &[u8; 32], vault: &TokenAccountState) -> (r: Result<u64, ProgramError>)
    ensures
        r == settle_outcome(fundraiser@, fundraiser_key@, *vault),
{
    if !bytes_eq(&vault.mint, &fundraiser.mint_to_raise) || !bytes_eq(&vault.owner, fundraiser_key) {
        return Err(ProgramError::InvalidAccountData);
    }
    let amount_to_raise: u64 = fundraiser.amount_to_raise();
    if !(vault.amount >= amount_to_raise) {
        return Err(ProgramError::Custom(FundraiserError::TargetNotMet));
    }
    Ok(vault.amount)
}

/// Whether `vault_key` is the fundraiser's vault: the associated token
/// account of the fundraiser account for its mint.
pub open spec fn is_pinned_vault(f: FundraiserModel, fundraiser_key: Seq<u8>, vault_key: Seq<u8>) -> bool {
    is_found_address(vault_search(fundraiser_key, f.mint_to_raise), vault_key)
}

/// What the maker's collection comes to: the whole vault, paid out under the
/// fundraiser's signature (its bump).
#[derive(Clone, Copy, Debug, PartialEq, Eq, Structural)]
pub struct Settlement {
    pub payout: u64,
    pub bump: u8,
}

/// What `CheckContributions` answers from what it reads, in order: the
/// fundraiser account (read and size), its address from the maker and the
/// recorded bump, the vault's address, the vault (read, mint, owner, target).
pub open spec fn check_contributions_outcome(
    maker_key: Seq<u8>,
    fundraiser_key: Seq<u8>,
    fundraiser_data: Result<Seq<u8>, u64>,
    vault_key: Seq<u8>,
    vault: Result<TokenAccountState, u64>,
) -> Result<Settlement, ProgramError> {
    match fundraiser_read_outcome(fundraiser_data) {
        Err(e) => Err(e),
        Ok(f) => if fundraiser_address(maker_key, f.bump) != fundraiser_key {
            Err(ProgramError::InvalidSeeds)
        } else if !is_pinned_vault(f, fundraiser_key, vault_key) {
            Err(ProgramError::InvalidAccountData)
        } else {
            match read_outcome(vault) {
                Err(e) => Err(e),
                Ok(v) => match settle_outcome(f, fundraiser_key, v) {
                    Err(e) => Err(e),
                    Ok(p) => Ok(Settlement { payout: p, bump: f.bump }),
                },
            }
        },
    }
}

/// Decides `CheckContributions` from the values read from its accounts.
pub fn decide_check_contributions(
    maker_key: &[u8; 32],
    fundraiser_key: &[u8; 32],
    fundraiser_data: Result<&[u8], u64>,
    vault_key: &[u8; 32],
    vault: Result<TokenAccountState, u64>,
) -> (r: Result<Settlement, ProgramError>)
    ensures
        r == check_contributions_outcome(
            maker_key@,
            fundraiser_key@,
            bytes_read(fundraiser_data),
            vault_key@,
            vault,
        ),
{
    let f = match read_fundraiser(fundraiser_data) {
        Ok(f) => f,
        Err(e) => {
            return Err(e);
        },
    };
    if let Err(e) = verify_fundraiser_address(maker_key, f.bump, fundraiser_key) {
        return Err(e);
    }
    let found = find_vault_address(fundraiser_key, &f.mint_to_raise);
    if !matches_found(&found, vault_key) {
        return Err(ProgramError::InvalidAccountData);
    }
    let v = match vault {
        Ok(v) => v,
        Err(code) => {
            return Err(ProgramError::Runtime(code));
        },
    };
    match settle_fundraiser(&f, fundraiser_key, &v) {
        Ok(payout) => Ok(Settlement { payout, bump: f.bump }),
        Err(e) => Err(e),
    }
}

} // verus!
