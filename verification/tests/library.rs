use pinocchio_fundraiser::arith::{checked_pow, days_elapsed};
use pinocchio_fundraiser::constants::{rent_exempt_lamports, ID};
use pinocchio_fundraiser::error::{FundraiserError, ProgramError};
use pinocchio_fundraiser::instructions::checker::{parse_check_contributions, settle_fundraiser};
use pinocchio_fundraiser::instructions::contribute::{
    check_contribution_amount, check_contribution_window, contribution_cap, parse_contribute,
    record_contribution, validate_contribute_fundraiser, verify_record_address,
};
use pinocchio_fundraiser::instructions::initialize::{parse_initialize, validate_initialize, InitializeArgs};
use pinocchio_fundraiser::instructions::refund::{
    check_refund_vault, check_refund_window, parse_refund, record_refund,
};
use pinocchio_fundraiser::instructions::{
    decode_instruction, reclaim_lamports, verify_fundraiser_address, FundraiserInstructions,
    TokenAccountState,
};
use pinocchio_fundraiser::le::{i64_from_le_bytes, i64_to_le_bytes, u64_from_le_bytes, u64_to_le_bytes};
use pinocchio_fundraiser::pda::{
    bytes_eq, find_contributor_address, find_fundraiser_address, is_fundraiser_address,
};
use pinocchio_fundraiser::state::{Contributor, Fundraiser};

const DAY: i64 = 86_400;

fn fundraiser(amount_to_raise: u64, current: u64, start: i64, duration: u8) -> Fundraiser {
    let mut f = Fundraiser::default();
    f.set_maker(&[1u8; 32]);
    f.set_mint_to_raise(&[2u8; 32]);
    f.set_amount_to_raise(amount_to_raise);
    f.set_current_amount(current);
    f.set_time_started(start);
    f.set_duration(duration);
    f.set_bump(254);
    f
}

#[test]
fn le_encoding_matches_std() {
    for x in [0u64, 1, 255, 256, 0x0102_0304_0506_0708, u64::MAX] {
        assert_eq!(u64_to_le_bytes(x), x.to_le_bytes());
        assert_eq!(u64_from_le_bytes(x.to_le_bytes()), x);
    }
    for t in [0i64, -1, 1, i64::MIN, i64::MAX, -86_400, 1_700_000_000] {
        assert_eq!(i64_to_le_bytes(t), t.to_le_bytes());
        assert_eq!(i64_from_le_bytes(t.to_le_bytes()), t);
    }
}

#[test]
fn fundraiser_fields_read_back_what_was_written() {
    let f = fundraiser(1_000_000_000, 42, -5, 7);
    assert_eq!(f.amount_to_raise(), 1_000_000_000);
    assert_eq!(f.current_amount(), 42);
    assert_eq!(f.time_started(), -5);
    assert_eq!(f.duration, 7);
    assert_eq!(f.bump, 254);
    let data = f.to_account_data();
    assert_eq!(data.len(), Fundraiser::LEN);
    assert_eq!(Fundraiser::from_account_info(&data), Ok(f));
}

#[test]
fn account_data_of_wrong_size_is_refused() {
    assert_eq!(Fundraiser::from_account_info(&[0u8; 89]), Err(ProgramError::InvalidAccountData));
    assert_eq!(Fundraiser::from_account_info(&[0u8; 91]), Err(ProgramError::InvalidAccountData));
    assert_eq!(Contributor::from_account_info(&[0u8; 7]), Err(ProgramError::InvalidAccountData));
    let c = Contributor::from_account_info(&77u64.to_le_bytes()).unwrap();
    assert_eq!(c.amount(), 77);
    assert_eq!(c.to_account_data(), 77u64.to_le_bytes().to_vec());
    let mut c = c;
    c.set_amount(5);
    assert_eq!(c.amount(), 5);
    assert_eq!(Contributor::LEN, 8);
}

#[test]
fn default_fundraiser_is_all_zero() {
    assert_eq!(Fundraiser::default().to_account_data(), vec![0u8; 90]);
}

#[test]
fn instruction_discriminators() {
    assert_eq!(decode_instruction(&[]), Err(ProgramError::InvalidInstructionData));
    assert_eq!(decode_instruction(&[0, 9, 9]), Ok(FundraiserInstructions::Initialize));
    assert_eq!(decode_instruction(&[1]), Ok(FundraiserInstructions::Contribute));
    assert_eq!(decode_instruction(&[2]), Ok(FundraiserInstructions::CheckContributions));
    assert_eq!(decode_instruction(&[3]), Ok(FundraiserInstructions::Refund));
    assert_eq!(decode_instruction(&[4]), Err(ProgramError::InvalidInstructionData));
    assert_eq!(
        FundraiserInstructions::try_from_discriminator(255),
        Err(ProgramError::InvalidInstructionData)
    );
}

#[test]
fn instruction_data_parsing() {
    let mut data = 1234u64.to_le_bytes().to_vec();
    assert_eq!(parse_initialize(7, &data), Err(ProgramError::InvalidInstructionData));
    data.push(3);
    assert_eq!(parse_initialize(6, &data), Err(ProgramError::NotEnoughAccountKeys));
    assert_eq!(parse_initialize(7, &data), Ok(InitializeArgs { amount: 1234, duration: 3 }));
    assert_eq!(parse_contribute(8, &data[..7]), Err(ProgramError::InvalidInstructionData));
    assert_eq!(parse_contribute(7, &data), Err(ProgramError::NotEnoughAccountKeys));
    assert_eq!(parse_contribute(8, &data), Ok(1234));
    assert_eq!(parse_check_contributions(5, true), Err(ProgramError::NotEnoughAccountKeys));
    assert_eq!(parse_check_contributions(6, false), Err(ProgramError::MissingRequiredSignature));
    assert_eq!(parse_check_contributions(6, true), Ok(()));
    assert_eq!(parse_refund(7, true), Err(ProgramError::NotEnoughAccountKeys));
    assert_eq!(parse_refund(8, false), Err(ProgramError::MissingRequiredSignature));
    assert_eq!(parse_refund(9, true), Ok(()));
}

#[test]
fn rent_exemption_formula() {
    assert_eq!(rent_exempt_lamports(0), 128 * 6960);
    assert_eq!(rent_exempt_lamports(90), 1_517_280);
    assert_eq!(rent_exempt_lamports(8), 946_560);
}

#[test]
fn powers() {
    assert_eq!(checked_pow(3, 6), Some(729));
    assert_eq!(checked_pow(3, 0), Some(1));
    assert_eq!(checked_pow(1, 200), Some(1));
    assert_eq!(checked_pow(0, 5), Some(0));
    assert_eq!(checked_pow(3, 40), Some(12_157_665_459_056_928_801));
    assert_eq!(checked_pow(3, 41), None);
    assert_eq!(checked_pow(2, 64), None);
}

#[test]
fn day_count_rounds_toward_zero() {
    assert_eq!(days_elapsed(DAY - 1, 0), 0);
    assert_eq!(days_elapsed(DAY, 0), 1);
    assert_eq!(days_elapsed(2 * DAY + 5, 5), 2);
    assert_eq!(days_elapsed(-DAY + 1, 0), 0);
    assert_eq!(days_elapsed(-DAY, 0), -1);
    assert_eq!(days_elapsed(256 * DAY, 0), 256);
    assert_eq!(days_elapsed(300 * DAY, 0), 300);
    assert_eq!(days_elapsed(i64::MAX, 0), i64::MAX / DAY);
    assert_eq!(days_elapsed(i64::MIN, 0), i64::MIN / DAY);
}

#[test]
fn contribution_cap_is_a_tenth_for_every_target() {
    assert_eq!(contribution_cap(&fundraiser(u64::MAX, 0, 0, 1)), u64::MAX / 10);
    assert_eq!(contribution_cap(&fundraiser(1_000_000_000, 0, 0, 1)), 100_000_000);
    assert_eq!(contribution_cap(&fundraiser(19, 0, 0, 1)), 1);
}

#[test]
fn amount_validation_edges() {
    let args = InitializeArgs { amount: 730, duration: 1 };
    let pda = [5u8; 32];
    assert_eq!(validate_initialize(&args, 6, &pda, 250, &pda, false), Ok(250));
    assert_eq!(
        validate_initialize(&args, 6, &pda, 250, &[6u8; 32], false),
        Err(ProgramError::InvalidSeeds)
    );
    assert_eq!(
        validate_initialize(&args, 6, &pda, 250, &pda, true),
        Err(ProgramError::AccountAlreadyInitialized)
    );
    let small = InitializeArgs { amount: 3, duration: 1 };
    assert_eq!(validate_initialize(&small, 0, &pda, 1, &pda, false), Ok(1));
    assert_eq!(
        validate_initialize(&small, 1, &pda, 1, &pda, false),
        Err(ProgramError::Custom(FundraiserError::InvalidAmount))
    );
}

#[test]
fn contribution_checks() {
    assert_eq!(check_contribution_amount(2, 9, 10), Ok(()));
    assert_eq!(
        check_contribution_amount(1, 0, 10),
        Err(ProgramError::Custom(FundraiserError::ContributionTooSmall))
    );
    assert_eq!(
        check_contribution_amount(11, 0, 10),
        Err(ProgramError::Custom(FundraiserError::ContributionTooBig))
    );
    let f = fundraiser(1000, 0, 0, 2);
    let c = Contributor { amount: 60u64.to_le_bytes() };
    assert_eq!(check_contribution_window(&f, &c, 40, 100, 2 * DAY - 1), Ok(()));
    assert_eq!(
        check_contribution_window(&f, &c, 41, 100, 0),
        Err(ProgramError::Custom(FundraiserError::MaximumContributionsReached))
    );
    assert_eq!(
        check_contribution_window(&f, &c, 1, 100, 2 * DAY),
        Err(ProgramError::Custom(FundraiserError::FundraiserEnded))
    );
    let over = Contributor { amount: 101u64.to_le_bytes() };
    assert_eq!(
        check_contribution_window(&f, &over, 0, 100, 0),
        Err(ProgramError::Custom(FundraiserError::MaximumContributionsReached))
    );
}

#[test]
fn phases_partition_time() {
    // law: at every moment exactly one of contributing and refunding is open
    let f = fundraiser(1000, 0, 100, 3);
    let c = Contributor { amount: [0u8; 8] };
    for now in [100, 100 + DAY, 100 + 3 * DAY - 1, 100 + 3 * DAY, 100 + 10 * DAY, 100 - DAY, 100 + 256 * DAY] {
        let contributing = check_contribution_window(&f, &c, 1, 100, now).is_ok();
        let refunding = check_refund_window(&f, now).is_ok();
        assert_ne!(contributing, refunding, "at {now}");
    }
}

#[test]
fn collection_and_refund_exclude_each_other() {
    let f = fundraiser(1000, 0, 0, 1);
    let key = [3u8; 32];
    for amount in [0u64, 999, 1000, 5000] {
        let v = TokenAccountState { mint: [2u8; 32], owner: key, amount };
        let settle = settle_fundraiser(&f, &key, &v);
        let refund = check_refund_vault(&f, &key, &v);
        assert_ne!(settle.is_ok(), refund.is_ok());
        if let Ok(p) = settle {
            assert_eq!(p, amount);
        }
    }
    let wrong_mint = TokenAccountState { mint: [9u8; 32], owner: key, amount: 5000 };
    assert_eq!(settle_fundraiser(&f, &key, &wrong_mint), Err(ProgramError::InvalidAccountData));
    assert_eq!(check_refund_vault(&f, &key, &wrong_mint), Err(ProgramError::InvalidAccountData));
    let wrong_owner = TokenAccountState { mint: [2u8; 32], owner: [4u8; 32], amount: 0 };
    assert_eq!(settle_fundraiser(&f, &key, &wrong_owner), Err(ProgramError::InvalidAccountData));
    assert_eq!(check_refund_vault(&f, &key, &wrong_owner), Err(ProgramError::InvalidAccountData));
}

#[test]
fn ledger_balances_over_contributions_and_refunds() {
    // law: the collected amount is the sum of the open contributor records
    let mut f = fundraiser(1_000_000, 0, 0, 1);
    let mut a = Contributor { amount: [0u8; 8] };
    let mut b = Contributor { amount: [0u8; 8] };
    record_contribution(&mut f, &mut a, 30).unwrap();
    record_contribution(&mut f, &mut b, 50).unwrap();
    record_contribution(&mut f, &mut a, 20).unwrap();
    assert_eq!(f.current_amount(), a.amount() + b.amount());
    record_refund(&mut f, a.amount()).unwrap();
    assert_eq!(f.current_amount(), b.amount());
    record_refund(&mut f, b.amount()).unwrap();
    assert_eq!(f.current_amount(), 0);
}

#[test]
fn recording_overflows_are_refused() {
    let mut f = fundraiser(10, u64::MAX - 1, 0, 1);
    let mut c = Contributor { amount: [0u8; 8] };
    assert_eq!(record_contribution(&mut f, &mut c, 2), Err(ProgramError::ArithmeticOverflow));
    assert_eq!(f.current_amount(), u64::MAX - 1);
    assert_eq!(c.amount(), 0);
    let mut f = fundraiser(10, 0, 0, 1);
    let mut full = Contributor { amount: u64::MAX.to_le_bytes() };
    assert_eq!(record_contribution(&mut f, &mut full, 1), Err(ProgramError::ArithmeticOverflow));
    assert_eq!(full.amount(), u64::MAX);
    let mut f = fundraiser(10, 5, 0, 1);
    assert_eq!(record_refund(&mut f, 6), Err(ProgramError::ArithmeticOverflow));
    assert_eq!(f.current_amount(), 5);
    assert_eq!(record_refund(&mut f, 5), Ok(()));
    assert_eq!(f.current_amount(), 0);
}

#[test]
fn addresses_are_derived_not_copied() {
    let maker = [7u8; 32];
    let (pda, bump) = find_fundraiser_address(&maker).unwrap();
    assert_ne!(pda, maker);
    assert_ne!(pda, ID);
    assert!(is_fundraiser_address(&maker, bump, &pda));
    assert_eq!(verify_fundraiser_address(&maker, bump, &pda), Ok(()));
    assert_eq!(
        verify_fundraiser_address(&maker, bump.wrapping_sub(1), &pda),
        Err(ProgramError::InvalidSeeds)
    );
    assert_eq!(verify_fundraiser_address(&[8u8; 32], bump, &pda), Err(ProgramError::InvalidSeeds));
    let (a, _) = find_contributor_address(&pda, &[1u8; 32]).unwrap();
    let (b, _) = find_contributor_address(&pda, &[2u8; 32]).unwrap();
    assert_ne!(a, b);
    assert_ne!(a, pda);
}

#[test]
fn contribute_accounts_checks() {
    let maker = [1u8; 32];
    let (pda, bump) = find_fundraiser_address(&maker).unwrap();
    let mut f = fundraiser(1_000_000_009, 0, 0, 1);
    f.set_bump(bump);
    assert_eq!(validate_contribute_fundraiser(&f, &[2u8; 32], &pda), Ok(()));
    assert_eq!(contribution_cap(&f), 100_000_000);
    assert_eq!(
        validate_contribute_fundraiser(&f, &[3u8; 32], &pda),
        Err(ProgramError::InvalidAccountData)
    );
    assert_eq!(
        validate_contribute_fundraiser(&f, &[2u8; 32], &[0u8; 32]),
        Err(ProgramError::InvalidSeeds)
    );
    let rec = [4u8; 32];
    assert_eq!(verify_record_address(&rec, &rec), Ok(()));
    assert_eq!(verify_record_address(&rec, &[5u8; 32]), Err(ProgramError::InvalidSeeds));
}

#[test]
fn misc_helpers() {
    assert_eq!(reclaim_lamports(5, 7), 12);
    assert!(bytes_eq(&[1u8; 32], &[1u8; 32]));
    assert!(!bytes_eq(&[1u8; 32], &[2u8; 32]));
    assert_eq!(FundraiserError::InvalidAmount.code(), 0);
    assert_eq!(FundraiserError::TargetNotMet.code(), 7);
    assert_eq!(FundraiserError::FundraiserEnded.code(), 4);
}
