use pinocchio_fundraiser::constants::{ASSOCIATED_TOKEN_PROGRAM_ID, ID, TOKEN_PROGRAM_ID};
use pinocchio_fundraiser::error::{FundraiserError, ProgramError};
use pinocchio_fundraiser::instructions::checker::{
    decide_check_contributions, parse_check_contributions, Settlement,
};
use pinocchio_fundraiser::instructions::contribute::{
    decide_contribute, decide_contribution, parse_contribute,
};
use pinocchio_fundraiser::instructions::initialize::{
    decide_initialize, open_fundraiser, parse_initialize,
};
use pinocchio_fundraiser::instructions::refund::{decide_refund, parse_refund};
use pinocchio_fundraiser::instructions::TokenAccountState;
use pinocchio_fundraiser::pda::{
    find_contributor_address, find_fundraiser_address, find_vault_address,
};
use pinocchio_fundraiser::state::{Contributor, Fundraiser};

const DECIMALS: u8 = 6;
const SECONDS_PER_DAY: i64 = 86_400;
const START: i64 = 1_700_000_000;
const MAKER: [u8; 32] = [7u8; 32];
const MINT: [u8; 32] = [9u8; 32];

fn u64_at(data: &[u8], off: usize) -> u64 {
    u64::from_le_bytes(data[off..off + 8].try_into().unwrap())
}

struct Ctx {
    fundraiser: Fundraiser,
    fundraiser_key: [u8; 32],
    vault_key: [u8; 32],
    bump: u8,
}

/// Opens a fundraiser the way `Initialize` does, or gives the error it ends with.
fn initialize(amount_to_raise: u64, duration: u8) -> Result<Ctx, ProgramError> {
    let mut data = amount_to_raise.to_le_bytes().to_vec();
    data.push(duration);
    let args = parse_initialize(7, &data)?;
    let (pda, _) = find_fundraiser_address(&MAKER).expect("no fundraiser address");
    let bump = decide_initialize(&args, Ok(DECIMALS), &MAKER, &pda, false)?;
    let fresh = vec![0u8; Fundraiser::LEN];
    let fundraiser = open_fundraiser(Ok(&fresh), &MAKER, &MINT, &args, bump, START)?;
    let (vault_key, _) = find_vault_address(&pda, &MINT).expect("no vault address");
    Ok(Ctx { fundraiser, fundraiser_key: pda, vault_key, bump })
}

fn contributor_key(seed: u8) -> [u8; 32] {
    [seed; 32]
}

fn record_key(ctx: &Ctx, contributor: &[u8; 32]) -> [u8; 32] {
    find_contributor_address(&ctx.fundraiser_key, contributor).expect("no address").0
}

/// Runs a contribution the way `Contribute` does, at `now`.
fn contribute(
    ctx: &mut Ctx,
    contributor: &[u8; 32],
    record: &mut Contributor,
    amount: u64,
    now: i64,
) -> Result<(), ProgramError> {
    let amount = parse_contribute(8, &amount.to_le_bytes())?;
    let key = record_key(ctx, contributor);
    let data = ctx.fundraiser.to_account_data();
    let plan = decide_contribute(Ok(DECIMALS), &MINT, &ctx.fundraiser_key, Ok(&data), contributor, &key, true)?;
    let record_data = record.to_account_data();
    let effects = decide_contribution(&plan, amount, Ok(&record_data), Ok(now))?;
    assert_eq!(effects.transfer_amount, amount);
    let (f, c) = effects.recorded?;
    ctx.fundraiser = f;
    *record = c;
    Ok(())
}

fn vault(ctx: &Ctx, amount: u64) -> TokenAccountState {
    TokenAccountState { mint: MINT, owner: ctx.fundraiser_key, amount }
}

/// Runs the maker's collection the way `CheckContributions` does.
fn check(ctx: &Ctx, vault_key: &[u8; 32], vault_amount: u64) -> Result<Settlement, ProgramError> {
    assert_eq!(parse_check_contributions(8, true), Ok(()));
    let data = ctx.fundraiser.to_account_data();
    decide_check_contributions(&MAKER, &ctx.fundraiser_key, Ok(&data), vault_key, Ok(vault(ctx, vault_amount)))
}

/// Runs a refund the way `Refund` does, at `now`, for `signer` passing the
/// record at `record_key`; gives the refunded amount.
fn refund(
    ctx: &mut Ctx,
    signer: &[u8; 32],
    record_key: &[u8; 32],
    record: &Contributor,
    vault_amount: u64,
    now: i64,
) -> Result<u64, ProgramError> {
    parse_refund(8, true)?;
    let data = ctx.fundraiser.to_account_data();
    let record_data = record.to_account_data();
    let vault_key = ctx.vault_key;
    let plan = decide_refund(
        &MINT,
        &MAKER,
        &ctx.fundraiser_key,
        Ok(&data),
        signer,
        record_key,
        Ok(now),
        &vault_key,
        Ok(vault(ctx, vault_amount)),
        Ok(&record_data),
    )?;
    assert_eq!(plan.bump, ctx.bump);
    ctx.fundraiser = plan.recorded?;
    Ok(plan.refund_amount)
}

#[test]
fn initialize_creates_fundraiser_and_vault() {
    let amount = 1_000_000_000u64;
    let ctx = initialize(amount, 5).expect("initialize failed");
    let data = ctx.fundraiser.to_account_data();
    assert_eq!(data.len(), 90);
    assert_eq!(&data[0..32], &MAKER[..]);
    assert_eq!(&data[32..64], &MINT[..]);
    assert_eq!(u64_at(&data, 64), amount);
    assert_eq!(u64_at(&data, 72), 0);
    assert_eq!(data[88], 5);
    assert_eq!(data[89], find_fundraiser_address(&MAKER).unwrap().1);
    assert_eq!(data[89], ctx.bump);
    assert_eq!(i64::from_le_bytes(data[80..88].try_into().unwrap()), START);
}

#[test]
fn initialize_rejects_amount_below_minimum() {
    // 3^DECIMALS = 729, so anything <= 729 must be rejected
    assert!(initialize(700, 5).is_err());
    assert_eq!(
        initialize(729, 5).err(),
        Some(ProgramError::Custom(FundraiserError::InvalidAmount))
    );
    assert!(initialize(730, 5).is_ok());
}

#[test]
fn contribute_moves_tokens_and_updates_state() {
    let mut ctx = initialize(1_000_000_000, 5).unwrap();
    let contributor = contributor_key(1);
    let mut record = Contributor { amount: [0u8; 8] };
    let amount = 100_000_000u64; // exactly the 10% cap
    assert_eq!(contribute(&mut ctx, &contributor, &mut record, amount, START + 10), Ok(()));
    assert_eq!(u64_at(&record.to_account_data(), 0), amount);
    assert_eq!(u64_at(&ctx.fundraiser.to_account_data(), 72), amount);
}

#[test]
fn contribute_rejects_too_small() {
    let mut ctx = initialize(1_000_000_000, 5).unwrap();
    let mut record = Contributor { amount: [0u8; 8] };
    // amount must be > 1
    assert_eq!(
        contribute(&mut ctx, &contributor_key(1), &mut record, 1, START),
        Err(ProgramError::Custom(FundraiserError::ContributionTooSmall))
    );
}

#[test]
fn contribute_rejects_too_big() {
    let mut ctx = initialize(1_000_000_000, 5).unwrap();
    let mut record = Contributor { amount: [0u8; 8] };
    // 200_000_000 > 10% of 1_000_000_000
    assert_eq!(
        contribute(&mut ctx, &contributor_key(1), &mut record, 200_000_000, START),
        Err(ProgramError::Custom(FundraiserError::ContributionTooBig))
    );
}

#[test]
fn contribute_rejects_exceeding_per_contributor_cap() {
    let mut ctx = initialize(1_000_000_000, 5).unwrap();
    let contributor = contributor_key(1);
    let mut record = Contributor { amount: [0u8; 8] };
    assert!(contribute(&mut ctx, &contributor, &mut record, 100_000_000, START).is_ok());
    // already at the 10% cap; any further contribution must fail
    assert_eq!(
        contribute(&mut ctx, &contributor, &mut record, 1_000, START),
        Err(ProgramError::Custom(FundraiserError::MaximumContributionsReached))
    );
    assert_eq!(record.amount(), 100_000_000);
    assert_eq!(ctx.fundraiser.current_amount(), 100_000_000);
}

#[test]
fn contribute_rejects_after_deadline() {
    let mut ctx = initialize(1_000_000_000, 1).unwrap();
    let mut record = Contributor { amount: [0u8; 8] };
    let now = START + 2 * SECONDS_PER_DAY;
    assert_eq!(
        contribute(&mut ctx, &contributor_key(1), &mut record, 100_000_000, now),
        Err(ProgramError::Custom(FundraiserError::FundraiserEnded))
    );
}

#[test]
fn check_contributions_pays_maker_and_closes_when_target_met() {
    let target = 1_000_000_000u64;
    let ctx = initialize(target, 5).unwrap();
    assert_eq!(check(&ctx, &ctx.vault_key, target), Ok(Settlement { payout: target, bump: ctx.bump }));
}

#[test]
fn check_contributions_rejected_when_target_not_met() {
    let mut ctx = initialize(1_000_000_000, 5).unwrap();
    let mut record = Contributor { amount: [0u8; 8] };
    assert!(contribute(&mut ctx, &contributor_key(1), &mut record, 100_000_000, START).is_ok());
    assert_eq!(
        check(&ctx, &ctx.vault_key, 100_000_000),
        Err(ProgramError::Custom(FundraiserError::TargetNotMet))
    );
    // fundraiser untouched
    assert_eq!(ctx.fundraiser.current_amount(), 100_000_000);
}

#[test]
fn refund_returns_tokens_and_closes_contributor_after_deadline() {
    let contribution = 100_000_000u64;
    let mut ctx = initialize(1_000_000_000, 1).unwrap();
    let contributor = contributor_key(1);
    let record_key = record_key(&ctx, &contributor);
    let mut record = Contributor { amount: [0u8; 8] };
    assert!(contribute(&mut ctx, &contributor, &mut record, contribution, START).is_ok());
    let now = START + 2 * SECONDS_PER_DAY;
    assert_eq!(refund(&mut ctx, &contributor, &record_key, &record, contribution, now), Ok(contribution));
    assert_eq!(u64_at(&ctx.fundraiser.to_account_data(), 72), 0);
}

#[test]
fn refund_rejected_before_deadline() {
    let mut ctx = initialize(1_000_000_000, 5).unwrap();
    let contributor = contributor_key(1);
    let record_key = record_key(&ctx, &contributor);
    let mut record = Contributor { amount: [0u8; 8] };
    assert!(contribute(&mut ctx, &contributor, &mut record, 100_000_000, START).is_ok());
    // still within the fundraising window
    assert_eq!(
        refund(&mut ctx, &contributor, &record_key, &record, 100_000_000, START + 10),
        Err(ProgramError::Custom(FundraiserError::FundraiserNotEnded))
    );
    assert_eq!(ctx.fundraiser.current_amount(), 100_000_000);
}

#[test]
fn refund_rejects_another_contributors_account() {
    let mut ctx = initialize(1_000_000_000, 1).unwrap();
    let victim = contributor_key(1);
    let victim_record_key = record_key(&ctx, &victim);
    let mut victim_record = Contributor { amount: [0u8; 8] };
    assert!(contribute(&mut ctx, &victim, &mut victim_record, 100_000_000, START).is_ok());
    let attacker = contributor_key(2);
    let now = START + 2 * SECONDS_PER_DAY;
    // attacker signs as themselves but passes the victim's contributor account
    assert_eq!(
        refund(&mut ctx, &attacker, &victim_record_key, &victim_record, 100_000_000, now),
        Err(ProgramError::InvalidSeeds)
    );
    assert_eq!(ctx.fundraiser.current_amount(), 100_000_000);
    assert_eq!(victim_record.amount(), 100_000_000);
}

#[test]
fn refund_rejected_when_target_met() {
    let mut ctx = initialize(1_000_000_000, 1).unwrap();
    let contributor = contributor_key(1);
    let record_key = record_key(&ctx, &contributor);
    let record = Contributor { amount: 0u64.to_le_bytes() };
    let now = START + 2 * SECONDS_PER_DAY;
    assert_eq!(
        refund(&mut ctx, &contributor, &record_key, &record, 1_000_000_000, now),
        Err(ProgramError::Custom(FundraiserError::TargetMet))
    );
}

#[test]
fn program_id_matches_declared_address() {
    assert_eq!(ID[0], 19);
    assert_eq!(ID[31], 57);
}

#[test]
fn first_contribution_creates_the_record() {
    let ctx = initialize(1_000_000_000, 5).unwrap();
    let contributor = contributor_key(1);
    let key = record_key(&ctx, &contributor);
    let (_, bump) = find_contributor_address(&ctx.fundraiser_key, &contributor).unwrap();
    let data = ctx.fundraiser.to_account_data();
    let plan = decide_contribute(Ok(DECIMALS), &MINT, &ctx.fundraiser_key, Ok(&data), &contributor, &key, false)
        .unwrap();
    assert_eq!(plan.create_record, Some(bump));
    assert_eq!(plan.max_contribution, 100_000_000);
    assert_eq!(plan.decimals, DECIMALS);
    // a read failure of the mint comes first
    assert_eq!(
        decide_contribute(Err(11), &MINT, &ctx.fundraiser_key, Ok(&data), &contributor, &key, false),
        Err(ProgramError::Runtime(11))
    );
    // a closed record (no data) is refused
    assert_eq!(
        decide_contribution(&plan, 5_000, Ok(&[]), Ok(START)).err(),
        Some(ProgramError::InvalidAccountData)
    );
}

#[test]
fn contributions_close_and_refunds_open_for_good_after_the_deadline() {
    // a 5-day campaign, 256 days after its start
    let mut ctx = initialize(1_000_000_000, 5).unwrap();
    let contributor = contributor_key(1);
    let key = record_key(&ctx, &contributor);
    let mut record = Contributor { amount: [0u8; 8] };
    assert!(contribute(&mut ctx, &contributor, &mut record, 100_000_000, START).is_ok());
    let late = START + 256 * SECONDS_PER_DAY;
    assert_eq!(
        contribute(&mut ctx, &contributor, &mut record, 2, late),
        Err(ProgramError::Custom(FundraiserError::FundraiserEnded))
    );
    assert_eq!(refund(&mut ctx, &contributor, &key, &record, 100_000_000, late), Ok(100_000_000));
}

#[test]
fn collection_refuses_a_side_account_as_vault() {
    let target = 1_000_000_000u64;
    let ctx = initialize(target, 5).unwrap();
    // a token account of the mint owned by the fundraiser, but not its vault
    let side = [42u8; 32];
    assert_eq!(check(&ctx, &side, target), Err(ProgramError::InvalidAccountData));
    assert_eq!(check(&ctx, &ctx.vault_key, target).map(|s| s.payout), Ok(target));
}

#[test]
fn refund_refuses_a_side_account_as_vault() {
    let mut ctx = initialize(1_000_000_000, 1).unwrap();
    let contributor = contributor_key(1);
    let key = record_key(&ctx, &contributor);
    let mut record = Contributor { amount: [0u8; 8] };
    assert!(contribute(&mut ctx, &contributor, &mut record, 100_000_000, START).is_ok());
    ctx.vault_key = [42u8; 32];
    let now = START + 2 * SECONDS_PER_DAY;
    assert_eq!(
        refund(&mut ctx, &contributor, &key, &record, 0, now),
        Err(ProgramError::InvalidAccountData)
    );
}

#[test]
fn refund_of_a_closed_record_is_refused() {
    let ctx = initialize(1_000_000_000, 1).unwrap();
    let contributor = contributor_key(1);
    let key = record_key(&ctx, &contributor);
    let data = ctx.fundraiser.to_account_data();
    let vault_key = ctx.vault_key;
    let now = START + 2 * SECONDS_PER_DAY;
    let r = decide_refund(
        &MINT,
        &MAKER,
        &ctx.fundraiser_key,
        Ok(&data),
        &contributor,
        &key,
        Ok(now),
        &vault_key,
        Ok(vault(&ctx, 0)),
        Ok(&[]),
    );
    assert_eq!(r.err(), Some(ProgramError::InvalidAccountData));
}

#[test]
fn second_initialize_is_refused() {
    let (pda, _) = find_fundraiser_address(&MAKER).unwrap();
    let args = parse_initialize(7, &[0, 0xca, 0x9a, 0x3b, 0, 0, 0, 0, 5]).unwrap();
    assert_eq!(
        decide_initialize(&args, Ok(DECIMALS), &MAKER, &pda, true),
        Err(ProgramError::AccountAlreadyInitialized)
    );
    assert_eq!(
        decide_initialize(&args, Ok(DECIMALS), &MAKER, &[3u8; 32], false),
        Err(ProgramError::InvalidSeeds)
    );
    assert_eq!(decide_initialize(&args, Err(3), &MAKER, &pda, false), Err(ProgramError::Runtime(3)));
    // no target exceeds 3^41, which is beyond u64
    let max = parse_initialize(7, &[255, 255, 255, 255, 255, 255, 255, 255, 5]).unwrap();
    assert_eq!(
        decide_initialize(&max, Ok(41), &MAKER, &pda, false),
        Err(ProgramError::Custom(FundraiserError::InvalidAmount))
    );
    assert!(decide_initialize(&max, Ok(40), &MAKER, &pda, false).is_ok());
}

#[test]
fn pinned_program_ids_match_the_token_crates() {
    assert_eq!(TOKEN_PROGRAM_ID, pinocchio_token::ID.to_bytes());
    assert_eq!(ASSOCIATED_TOKEN_PROGRAM_ID, pinocchio_associated_token_account::ID.to_bytes());
    let (vault_a, _) = find_vault_address(&[1u8; 32], &MINT).unwrap();
    let (vault_b, _) = find_vault_address(&[2u8; 32], &MINT).unwrap();
    assert_ne!(vault_a, vault_b);
    assert_ne!(vault_a, [1u8; 32]);
}
