//! Program-derived addresses: the fundraiser's and the contributor records'.

use vstd::prelude::*;

use crate::constants::{
    ASSOCIATED_TOKEN_PROGRAM_ID, CONTRIBUTOR_SEED, FUNDRAISER_SEED, ID, TOKEN_PROGRAM_ID,
};

verus! {

/// The address that `pinocchio_pubkey::derive_address_const` computes from two
/// seeds, a bump and a program id (a SHA-256 digest of them).
pub uninterp spec fn derived_address(seed0: Seq<u8>, seed1: Seq<u8>, bump: u8, program_id: Seq<u8>) -> Seq<u8>;

/// What `Address::try_find_program_address` answers for the seeds and the
/// program id: the first off-curve address, trying the bumps from 255 down, with
/// its bump; or none.
pub uninterp spec fn found_program_address(seeds: Seq<Seq<u8>>, program_id: Seq<u8>) -> Option<(Seq<u8>, u8)>;

/// Calls `pinocchio_pubkey::derive_address_const` with two seeds and a bump.
/// Trusted: the result is the named digest of exactly these arguments. (The
/// crate's `derive_address` computes the same digest through a runtime syscall
/// and is only available on-chain; the `const` form computes it everywhere.)
#[verifier::external_body]
fn derive_address(seed0: &[u8], seed1: &[u8], bump: u8, program_id: &[u8; 32]) -> (r: [u8; 32])
    ensures
        r@ == derived_address(seed0@, seed1@, bump, program_id@),
{
    pinocchio_pubkey::derive_address_const(&[seed0, seed1], Some(bump), program_id)
}

/// Calls `pinocchio::Address::try_find_program_address`. Trusted: the result is
/// the named search result for exactly these seeds and program id; and, as the
/// source shows (it hashes the seeds, the bump, the program id and the PDA
/// marker, as `derive_address_const` does), an address found for two seeds is
/// the derived address of those seeds with the found bump.
#[verifier::external_body]
fn try_find_program_address(seeds: &[&[u8]], program_id: &[u8; 32]) -> (r: Option<([u8; 32], u8)>)
    ensures
        found_program_address(seeds@.map_values(|s: &[u8]| s@), program_id@) == (match r {
            Some(p) => Some((p.0@, p.1)),
            None => None,
        }),
        seeds@.len() == 2 ==> (r matches Some(p) ==> p.0@ == derived_address(
            seeds@[0]@,
            seeds@[1]@,
            p.1,
            program_id@,
        )),
{
    let id = pinocchio::Address::new_from_array(*program_id);
    match pinocchio::Address::try_find_program_address(seeds, &id) {
        Some((address, bump)) => Some((address.to_bytes(), bump)),
        None => None,
    }
}

/// The seeds of the fundraiser that `maker` opens.
pub open spec fn fundraiser_seeds(maker: Seq<u8>) -> Seq<Seq<u8>> {
    seq![FUNDRAISER_SEED@, maker]
}

/// The seeds of the record of `contributor` in the fundraiser at `fundraiser`.
pub open spec fn contributor_seeds(fundraiser: Seq<u8>, contributor: Seq<u8>) -> Seq<Seq<u8>> {
    seq![CONTRIBUTOR_SEED@, fundraiser, contributor]
}

/// The seeds of the associated token account of `wallet` for `mint`.
pub open spec fn vault_seeds(wallet: Seq<u8>, mint: Seq<u8>) -> Seq<Seq<u8>> {
    seq![wallet, TOKEN_PROGRAM_ID@, mint]
}

/// Whether `key` is the address that a search found.
pub open spec fn is_found_address(found: Option<(Seq<u8>, u8)>, key: Seq<u8>) -> bool {
    found matches Some(p) && p.0 == key
}

/// The canonical search for the fundraiser that `maker` opens.
pub open spec fn fundraiser_search(maker: Seq<u8>) -> Option<(Seq<u8>, u8)> {
    found_program_address(fundraiser_seeds(maker), ID@)
}

/// The canonical search for the record of `contributor` in the fundraiser at
/// `fundraiser`.
pub open spec fn contributor_search(fundraiser: Seq<u8>, contributor: Seq<u8>) -> Option<(Seq<u8>, u8)> {
    found_program_address(contributor_seeds(fundraiser, contributor), ID@)
}

/// The search for the vault of the fundraiser at `fundraiser`: its associated
/// token account for `mint`.
pub open spec fn vault_search(fundraiser: Seq<u8>, mint: Seq<u8>) -> Option<(Seq<u8>, u8)> {
    found_program_address(vault_seeds(fundraiser, mint), ASSOCIATED_TOKEN_PROGRAM_ID@)
}

/// The address of the fundraiser that `maker` opens, with the given bump.
pub open spec fn fundraiser_address(maker: Seq<u8>, bump: u8) -> Seq<u8> {
    derived_address(FUNDRAISER_SEED@, maker, bump, ID@)
}

/// Finds the canonical address and bump of the fundraiser that `maker` opens.
pub fn find_fundraiser_address(maker: &[u8; 32]) -> (r: Option<([u8; 32], u8)>)
    ensures
        fundraiser_search(maker@) == (match r {
            Some(p) => Some((p.0@, p.1)),
            None => None,
        }),
        r matches Some(p) ==> p.0@ == fundraiser_address(maker@, p.1),
{
    let seeds: [&[u8]; 2] = [&FUNDRAISER_SEED, maker];
    let r = try_find_program_address(&seeds, &ID);
    proof {
        assert(seeds@.map_values(|s: &[u8]| s@) =~= fundraiser_seeds(maker@));
    }
    r
}

/// Finds the canonical address and bump of the record of `contributor` in the
/// fundraiser at `fundraiser`.
pub fn find_contributor_address(fundraiser: &[u8; 32], contributor: &[u8; 32]) -> (r: Option<([u8; 32], u8)>)
    ensures
        contributor_search(fundraiser@, contributor@) == (match r {
            Some(p) => Some((p.0@, p.1)),
            None => None,
        }),
{
    let seeds: [&[u8]; 3] = [&CONTRIBUTOR_SEED, fundraiser, contributor];
    let r = try_find_program_address(&seeds, &ID);
    proof {
        assert(seeds@.map_values(|s: &[u8]| s@) =~= contributor_seeds(fundraiser@, contributor@));
    }
    r
}

/// Finds the vault of the fundraiser at `fundraiser`: its associated token
/// account for `mint`.
pub fn find_vault_address(fundraiser: &[u8; 32], mint: &[u8; 32]) -> (r: Option<([u8; 32], u8)>)
    ensures
        vault_search(fundraiser@, mint@) == (match r {
            Some(p) => Some((p.0@, p.1)),
            None => None,
        }),
{
    let seeds: [&[u8]; 3] = [fundraiser, &TOKEN_PROGRAM_ID, mint];
    let r = try_find_program_address(&seeds, &ASSOCIATED_TOKEN_PROGRAM_ID);
    proof {
        assert(seeds@.map_values(|s: &[u8]| s@) =~= vault_seeds(fundraiser@, mint@));
    }
    r
}

/// Whether `key` is the address of a search's result.
pub fn matches_found(found: &Option<([u8; 32], u8)>, key: &[u8; 32]) -> (r: bool)
    ensures
        r == is_found_address(
            match *found {
                Some(p) => Some((p.0@, p.1)),
                None => None,
            },
            key@,
        ),
{
    match found {
        Some(p) => bytes_eq(&p.0, key),
        None => false,
    }
}

/// Whether the fundraiser account at `fundraiser_key` is the address of the
/// fundraiser that `maker` opened with `bump`.
pub fn is_fundraiser_address(maker: &[u8; 32], bump: u8, fundraiser_key: &[u8; 32]) -> (r: bool)
    ensures
        r == (fundraiser_address(maker@, bump) == fundraiser_key@),
{
    let expected = derive_address(&FUNDRAISER_SEED, maker, bump, &ID);
    bytes_eq(&expected, fundraiser_key)
}

/// Compares two addresses byte by byte.
pub fn bytes_eq(a: &[u8; 32], b: &[u8; 32]) -> (r: bool)
    ensures
        r == (a@ == b@),
{
    let mut i: usize = 0;
    while i < 32
        invariant
            i <= 32,
            a@.len() == 32,
            b@.len() == 32,
            forall|k: int| 0 <= k < i ==> a@[k] == b@[k],
        decreases 32 - i,
    {
        if a[i] != b[i] {
            return false;
        }
        i = i + 1;
    }
    assert(a@ =~= b@);
    true
}

} // verus!
