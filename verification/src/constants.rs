//! The program's identity and the numbers of its rules.

use vstd::prelude::*;

verus! {

/// The program's address: `2JqDFxyCiHvsJQbmTsna2kwCfV1gESP3BuH7uTU4PMnx`.
pub const ID: [u8; 32] = [
    19, 109, 18, 203, 206, 136, 3, 49, 74, 105, 46, 66, 229, 5, 115, 172, 224, 82, 79, 69, 248, 30,
    46, 168, 207, 135, 51, 251, 49, 175, 170, 57,
];

/// The SPL Token program: `TokenkegQfeZyiNwAJbNbGKPFXCWuBvf9Ss623VQ5DA`.
pub const TOKEN_PROGRAM_ID: [u8; 32] = [
    6, 221, 246, 225, 215, 101, 161, 147, 217, 203, 225, 70, 206, 235, 121, 172, 28, 180, 133, 237,
    95, 91, 55, 145, 58, 140, 245, 133, 126, 255, 0, 169,
];

/// The Associated Token Account program:
/// `ATokenGPvbdGVxr1b2hvZbsiqW5xWH25efTNsLJA8knL`.
pub const ASSOCIATED_TOKEN_PROGRAM_ID: [u8; 32] = [
    140, 151, 37, 143, 78, 36, 137, 241, 187, 61, 16, 41, 20, 142, 13, 131, 11, 90, 19, 153, 218,
    255, 16, 132, 4, 142, 123, 216, 219, 233, 248, 89,
];

/// The target must be above this base raised to the mint's decimals.
pub const MIN_AMOUNT_TO_RAISE: u64 = 3;

/// Seconds in a day.
pub const SECONDS_TO_DAYS: i64 = 86400;

/// A contributor may give at most this percentage of the target.
pub const MAX_CONTRIBUTION_PERCENTAGE: u64 = 10;

/// The whole, in percent.
pub const PERCENTAGE_SCALER: u64 = 100;

/// Bytes that the runtime charges every account for, beyond its data.
pub const ACCOUNT_STORAGE_OVERHEAD: u64 = 128;

/// Lamports per byte for an account to be exempt from rent (3480 lamports per
/// byte-year, over the two-year exemption threshold).
pub const LAMPORTS_PER_BYTE: u64 = 6960;

/// Seed of the fundraiser's address: `b"fundraiser"`.
pub const FUNDRAISER_SEED: [u8; 10] = [102, 117, 110, 100, 114, 97, 105, 115, 101, 114];

/// Seed of a contributor record's address: `b"contributor"`.
pub const CONTRIBUTOR_SEED: [u8; 11] = [99, 111, 110, 116, 114, 105, 98, 117, 116, 111, 114];

/// Accounts that each instruction needs, at least.
pub const INITIALIZE_ACCOUNTS: usize = 7;

/// Accounts that a contribution needs, at least.
pub const CONTRIBUTE_ACCOUNTS: usize = 8;

/// Accounts that the maker's collection needs, at least.
pub const CHECK_CONTRIBUTIONS_ACCOUNTS: usize = 6;

/// Accounts that a refund needs, at least.
pub const REFUND_ACCOUNTS: usize = 8;

/// Lamports for an account with `len` bytes of data to be exempt from rent.
pub fn rent_exempt_lamports(len: u64) -> (r: u64)
    requires
        (ACCOUNT_STORAGE_OVERHEAD + len) * LAMPORTS_PER_BYTE <= u64::MAX,
    ensures
        r == (ACCOUNT_STORAGE_OVERHEAD + len) * LAMPORTS_PER_BYTE,
{
    (ACCOUNT_STORAGE_OVERHEAD + len) * LAMPORTS_PER_BYTE
}

} // verus!
