//! What holds of the program across its instructions.

use vstd::prelude::*;
use vstd::arithmetic::power::{lemma1_pow, pow};

use crate::arith::{elapsed_days, trunc_div};
use crate::error::{FundraiserError, ProgramError};
use crate::instructions::checker::{
    check_contributions_outcome, is_pinned_vault, is_vault_of, settle_outcome, target_reached,
    Settlement,
};
use crate::instructions::contribute::{
    contribution_amount_outcome, contribution_outcome, contribution_window_outcome,
    contributions_open, max_contribution, record_address_outcome, recording_outcome,
};
use crate::instructions::initialize::{
    initialize_decision, initialize_outcome, opened_fundraiser, InitializeArgs,
};
use crate::instructions::refund::{
    refund_accounts_outcome, refund_outcome, refund_recording, refund_vault_outcome,
    refund_window_outcome, refunds_open,
};
use crate::instructions::{fundraiser_address_outcome, fundraiser_read_outcome, TokenAccountState};
use crate::le::decode_u64;
use crate::pda::{contributor_search, fundraiser_address, fundraiser_search};
use crate::state::FundraiserModel;

verus! {

/// At every moment exactly one of the two phases is on: contributions are
/// taken while refunds are refused, and refunds are taken once contributions
/// are refused.
pub proof fn law_phases_partition_time(f: FundraiserModel, now: i64)
    ensures
        contributions_open(f, now) != refunds_open(f, now),
        (refund_window_outcome(f, now) is Ok) == !contributions_open(f, now),
{
}

/// A contribution is refused as too late exactly when a refund at the same
/// moment passes its time check.
pub proof fn law_contribution_ended_iff_refund_started(
    f: FundraiserModel,
    contributor_total: u64,
    amount: u64,
    max_contribution: u64,
    now: i64,
)
    ensures
        (contribution_window_outcome(f, contributor_total, amount, max_contribution, now) == Err::<
            (),
            ProgramError,
        >(ProgramError::Custom(FundraiserError::FundraiserEnded))) == (refund_window_outcome(f, now)
            is Ok),
{
}

/// For the fundraiser's own vault, the maker's collection and a refund exclude
/// each other: the collection passes exactly when the refund is refused
/// because the target was met, and the refund's vault check passes exactly
/// when the collection is refused because the target was not met.
pub proof fn law_collection_excludes_refund(f: FundraiserModel, fundraiser_key: Seq<u8>, vault: TokenAccountState)
    requires
        is_vault_of(f, fundraiser_key, vault),
    ensures
        (settle_outcome(f, fundraiser_key, vault) is Ok) == (refund_vault_outcome(
            f,
            fundraiser_key,
            vault,
        ) == Err::<(), ProgramError>(ProgramError::Custom(FundraiserError::TargetMet))),
        (refund_vault_outcome(f, fundraiser_key, vault) is Ok) == (settle_outcome(
            f,
            fundraiser_key,
            vault,
        ) == Err::<u64, ProgramError>(ProgramError::Custom(FundraiserError::TargetNotMet))),
        (settle_outcome(f, fundraiser_key, vault) is Ok) != (refund_vault_outcome(
            f,
            fundraiser_key,
            vault,
        ) is Ok),
{
}

/// The maker's collection always takes the whole vault.
pub proof fn law_collection_takes_whole_vault(f: FundraiserModel, fundraiser_key: Seq<u8>, vault: TokenAccountState)
    ensures
        settle_outcome(f, fundraiser_key, vault) matches Ok(v) ==> v == vault.amount
            && v >= f.amount_to_raise,
{
}

/// An accepted contribution keeps the contributor's total within the cap, and
/// the cap is at most a tenth of the target.
pub proof fn law_accepted_contribution_within_cap(
    f: FundraiserModel,
    contributor_total: u64,
    amount: u64,
    decimals: u8,
    now: i64,
)
    ensures
        max_contribution(f.amount_to_raise) * 10 <= f.amount_to_raise,
        ({
            let max: u64 = max_contribution(f.amount_to_raise) as u64;
            (contribution_amount_outcome(amount, decimals, max) is Ok
                && contribution_window_outcome(f, contributor_total, amount, max, now) is Ok)
                ==> contributor_total + amount <= max
        }),
{
}

/// A freshly opened fundraiser has collected nothing, and its account is the
/// address that its recorded maker and bump derive whenever it was opened at
/// the canonical address that the search found, so the later instructions'
/// address check passes.
pub proof fn law_opened_fundraiser_passes_address_check(
    maker: Seq<u8>,
    mint_to_raise: Seq<u8>,
    args: InitializeArgs,
    bump: u8,
    now: i64,
    fundraiser_key: Seq<u8>,
)
    requires
        fundraiser_key == fundraiser_address(maker, bump),
    ensures
        opened_fundraiser(maker, mint_to_raise, args, bump, now).current_amount == 0,
        fundraiser_address_outcome(
            opened_fundraiser(maker, mint_to_raise, args, bump, now).maker,
            opened_fundraiser(maker, mint_to_raise, args, bump, now).bump,
            fundraiser_key,
        ) == Ok::<(), ProgramError>(()),
{
}

/// The sum of the contributors' recorded totals.
pub open spec fn ledger_sum(totals: Seq<u64>) -> int
    decreases totals.len(),
{
    if totals.len() == 0 {
        0
    } else {
        ledger_sum(totals.drop_last()) + totals.last()
    }
}

proof fn lemma_ledger_sum_nonneg(totals: Seq<u64>)
    ensures
        ledger_sum(totals) >= 0,
    decreases totals.len(),
{
    if totals.len() > 0 {
        lemma_ledger_sum_nonneg(totals.drop_last());
    }
}

proof fn lemma_ledger_sum_update(totals: Seq<u64>, i: int, v: u64)
    requires
        0 <= i < totals.len(),
    ensures
        ledger_sum(totals.update(i, v)) == ledger_sum(totals) - totals[i] + v,
    decreases totals.len(),
{
    let u = totals.update(i, v);
    if i == totals.len() - 1 {
        assert(u.drop_last() =~= totals.drop_last());
    } else {
        lemma_ledger_sum_update(totals.drop_last(), i, v);
        assert(u.drop_last() =~= totals.drop_last().update(i, v));
    }
}

proof fn lemma_ledger_sum_remove(totals: Seq<u64>, i: int)
    requires
        0 <= i < totals.len(),
    ensures
        ledger_sum(totals.remove(i)) == ledger_sum(totals) - totals[i],
        totals[i] <= ledger_sum(totals),
    decreases totals.len(),
{
    let r = totals.remove(i);
    lemma_ledger_sum_nonneg(totals.drop_last());
    if i == totals.len() - 1 {
        assert(r =~= totals.drop_last());
    } else {
        lemma_ledger_sum_remove(totals.drop_last(), i);
        assert(r.drop_last() =~= totals.drop_last().remove(i));
        assert(r.last() == totals.last());
    }
}

/// When the fundraiser's collected amount is the sum of the open contributor
/// records, a recorded contribution of `amount` by contributor `i` keeps it so:
/// the collected amount and that contributor's total grow by the same amount.
pub proof fn law_contribution_keeps_ledger(
    before: FundraiserModel,
    after: FundraiserModel,
    totals: Seq<u64>,
    i: int,
    amount: u64,
)
    requires
        0 <= i < totals.len(),
        before.current_amount == ledger_sum(totals),
        totals[i] + amount <= u64::MAX,
        after == (FundraiserModel {
            current_amount: (before.current_amount + amount) as u64,
            ..before
        }),
        before.current_amount + amount <= u64::MAX,
    ensures
        after.current_amount == ledger_sum(totals.update(i, (totals[i] + amount) as u64)),
{
    lemma_ledger_sum_update(totals, i, (totals[i] + amount) as u64);
}

/// When the fundraiser's collected amount is the sum of the open contributor
/// records, refunding contributor `i` their recorded total always succeeds (the
/// total is never more than the collected amount) and keeps it so once that
/// record is closed.
pub proof fn law_refund_keeps_ledger(before: FundraiserModel, after: FundraiserModel, totals: Seq<u64>, i: int)
    requires
        0 <= i < totals.len(),
        before.current_amount == ledger_sum(totals),
        after == (FundraiserModel {
            current_amount: (before.current_amount - totals[i]) as u64,
            ..before
        }),
    ensures
        totals[i] <= before.current_amount,
        after.current_amount == ledger_sum(totals.remove(i)),
{
    lemma_ledger_sum_remove(totals, i);
}

/// A contributor has one record per fundraiser: two contributor accounts that
/// pass the record address check for the same fundraiser and contributor,
/// against the canonical address that the search finds, are the same account;
/// so the per-contributor cap cannot be spread over several records.
pub proof fn law_one_record_per_contributor(
    fundraiser: Seq<u8>,
    contributor: Seq<u8>,
    pda1: Seq<u8>,
    bump1: u8,
    key1: Seq<u8>,
    pda2: Seq<u8>,
    bump2: u8,
    key2: Seq<u8>,
)
    requires
        contributor_search(fundraiser, contributor) == Some((pda1, bump1)),
        contributor_search(fundraiser, contributor) == Some((pda2, bump2)),
        record_address_outcome(pda1, key1) is Ok,
        record_address_outcome(pda2, key2) is Ok,
    ensures
        key1 == key2,
{
}

/// A refund closes only the signer's own record: the contributor account that
/// a refund accepts is the record that the signer's contributions were
/// accepted into.
pub proof fn law_refund_closes_own_record(
    f: FundraiserModel,
    mint_key: Seq<u8>,
    maker_key: Seq<u8>,
    fundraiser_key: Seq<u8>,
    signer: Seq<u8>,
    pda: Seq<u8>,
    bump: u8,
    refunded_key: Seq<u8>,
    contributed_key: Seq<u8>,
)
    requires
        contributor_search(fundraiser_key, signer) == Some((pda, bump)),
        refund_accounts_outcome(f, mint_key, maker_key, fundraiser_key, signer, refunded_key) is Ok,
        record_address_outcome(pda, contributed_key) is Ok,
    ensures
        refunded_key == contributed_key,
{
}

/// Funds leave only the fundraiser's own vault: a collection or a refund that
/// the program accepts names as the vault the associated token account of the
/// fundraiser account for the fundraiser's mint, as the search finds it.
pub proof fn law_payouts_only_from_pinned_vault(
    maker_key: Seq<u8>,
    mint_key: Seq<u8>,
    fundraiser_key: Seq<u8>,
    fundraiser_data: Result<Seq<u8>, u64>,
    contributor_key: Seq<u8>,
    record_key: Seq<u8>,
    now: Result<i64, u64>,
    vault_key: Seq<u8>,
    vault: Result<TokenAccountState, u64>,
    record_data: Result<Seq<u8>, u64>,
)
    ensures
        fundraiser_read_outcome(fundraiser_data) matches Ok(f) ==> {
            &&& check_contributions_outcome(maker_key, fundraiser_key, fundraiser_data, vault_key, vault)
                is Ok ==> is_pinned_vault(f, fundraiser_key, vault_key)
            &&& refund_outcome(
                mint_key,
                maker_key,
                fundraiser_key,
                fundraiser_data,
                contributor_key,
                record_key,
                now,
                vault_key,
                vault,
                record_data,
            ) is Ok ==> is_pinned_vault(f, fundraiser_key, vault_key)
        },
{
}

/// A closed contributor record (an account with no data) is never refunded:
/// the refund is refused, whatever else it is given.
pub proof fn law_closed_record_is_not_refunded(
    mint_key: Seq<u8>,
    maker_key: Seq<u8>,
    fundraiser_key: Seq<u8>,
    fundraiser_data: Result<Seq<u8>, u64>,
    contributor_key: Seq<u8>,
    record_key: Seq<u8>,
    now: Result<i64, u64>,
    vault_key: Seq<u8>,
    vault: Result<TokenAccountState, u64>,
)
    ensures
        refund_outcome(
            mint_key,
            maker_key,
            fundraiser_key,
            fundraiser_data,
            contributor_key,
            record_key,
            now,
            vault_key,
            vault,
            Ok(Seq::<u8>::empty()),
        ) is Err,
{
}

/// A second `Initialize` for a fundraiser the program already owns is always
/// refused, and with `AccountAlreadyInitialized` once the target and the
/// address pass.
pub proof fn law_second_initialize_refused(
    args: InitializeArgs,
    decimals: Result<u8, u64>,
    maker: Seq<u8>,
    fundraiser_key: Seq<u8>,
)
    ensures
        initialize_decision(args, decimals, maker, fundraiser_key, true) is Err,
        (decimals is Ok && initialize_decision(args, decimals, maker, fundraiser_key, false) is Ok)
            ==> initialize_decision(args, decimals, maker, fundraiser_key, true) == Err::<
            u8,
            ProgramError,
        >(ProgramError::AccountAlreadyInitialized),
{
}

/// One event in the life of a fundraiser's ledger: contributor `who` gives
/// `amount` at `now`, or takes back their record at `now` while the vault
/// holds `vault_amount`.
pub enum LedgerEvent {
    Contribute { who: int, amount: u64, decimals: u8, now: i64 },
    Refund { who: int, now: i64, vault_amount: u64 },
}

/// The fundraiser with the recorded total of each contributor (0 for a closed
/// or never opened record), and what each has contributed and been refunded
/// in all.
pub struct Ledger {
    pub fundraiser: FundraiserModel,
    pub totals: Seq<u64>,
    pub contributed: Seq<int>,
    pub refunded: Seq<int>,
}

/// The ledger after one event, as the instructions' decisions make it: an
/// accepted contribution is recorded in the fundraiser and in the record, an
/// accepted refund pays back the whole record and closes it; a refused event
/// changes nothing.
pub open spec fn ledger_step(l: Ledger, e: LedgerEvent) -> Ledger {
    match e {
        LedgerEvent::Contribute { who, amount, decimals, now } => {
            let max = max_contribution(l.fundraiser.amount_to_raise) as u64;
            if 0 <= who < l.totals.len() && contribution_amount_outcome(amount, decimals, max) is Ok
                && contribution_window_outcome(l.fundraiser, l.totals[who], amount, max, now) is Ok {
                match recording_outcome(l.fundraiser, l.totals[who], amount) {
                    Ok(m) => Ledger {
                        fundraiser: m.0,
                        totals: l.totals.update(who, m.1),
                        contributed: l.contributed.update(who, l.contributed[who] + amount),
                        refunded: l.refunded,
                    },
                    Err(_) => l,
                }
            } else {
                l
            }
        },
        LedgerEvent::Refund { who, now, vault_amount } => {
            if 0 <= who < l.totals.len() && refund_window_outcome(l.fundraiser, now) is Ok
                && !target_reached(l.fundraiser, vault_amount) {
                match refund_recording(l.fundraiser, l.totals[who]) {
                    Ok(m) => Ledger {
                        fundraiser: m,
                        totals: l.totals.update(who, 0),
                        contributed: l.contributed,
                        refunded: l.refunded.update(who, l.refunded[who] + l.totals[who]),
                    },
                    Err(_) => l,
                }
            } else {
                l
            }
        },
    }
}

/// The ledger after a sequence of events.
pub open spec fn ledger_run(l: Ledger, events: Seq<LedgerEvent>) -> Ledger
    decreases events.len(),
{
    if events.len() == 0 {
        l
    } else {
        ledger_step(ledger_run(l, events.drop_last()), events.last())
    }
}

/// The ledger is balanced: the collected amount is the sum of the open
/// records, each record is within the cap, and each contributor's record plus
/// what they were refunded is what they contributed.
pub open spec fn ledger_balanced(l: Ledger) -> bool {
    &&& l.contributed.len() == l.totals.len()
    &&& l.refunded.len() == l.totals.len()
    &&& l.fundraiser.current_amount == ledger_sum(l.totals)
    &&& forall|i: int|
        0 <= i < l.totals.len() ==> #[trigger] l.totals[i] <= max_contribution(
            l.fundraiser.amount_to_raise,
        )
    &&& forall|i: int|
        0 <= i < l.totals.len() ==> l.refunded[i] + #[trigger] l.totals[i] == l.contributed[i]
}

/// A freshly opened fundraiser with no records yet is balanced.
pub proof fn law_opened_ledger_balanced(
    maker: Seq<u8>,
    mint_to_raise: Seq<u8>,
    args: InitializeArgs,
    bump: u8,
    now: i64,
    n: nat,
)
    ensures
        ledger_balanced(
            Ledger {
                fundraiser: opened_fundraiser(maker, mint_to_raise, args, bump, now),
                totals: Seq::new(n, |i: int| 0u64),
                contributed: Seq::new(n, |i: int| 0int),
                refunded: Seq::new(n, |i: int| 0int),
            },
        ),
{
    lemma_ledger_sum_zero(n);
}

proof fn lemma_ledger_sum_zero(n: nat)
    ensures
        ledger_sum(Seq::new(n, |i: int| 0u64)) == 0,
    decreases n,
{
    if n > 0 {
        lemma_ledger_sum_zero((n - 1) as nat);
        assert(Seq::new(n, |i: int| 0u64).drop_last() =~= Seq::new((n - 1) as nat, |i: int| 0u64));
    }
}

proof fn lemma_ledger_step_balanced(l: Ledger, e: LedgerEvent)
    requires
        ledger_balanced(l),
    ensures
        ledger_balanced(ledger_step(l, e)),
        ledger_step(l, e).fundraiser.amount_to_raise == l.fundraiser.amount_to_raise,
        ledger_step(l, e).totals.len() == l.totals.len(),
{
    match e {
        LedgerEvent::Contribute { who, amount, decimals, now } => {
            if 0 <= who < l.totals.len() {
                lemma_ledger_sum_update(l.totals, who, (l.totals[who] + amount) as u64);
            }
        },
        LedgerEvent::Refund { who, now, vault_amount } => {
            if 0 <= who < l.totals.len() {
                lemma_ledger_sum_update(l.totals, who, 0);
            }
        },
    }
}

/// Whatever events follow, a balanced ledger stays balanced: the collected
/// amount is always the sum of the open records, no record passes the cap,
/// and no contributor is ever refunded more than they contributed (each
/// contribution is refunded at most once).
pub proof fn law_ledger_stays_balanced(l: Ledger, events: Seq<LedgerEvent>)
    requires
        ledger_balanced(l),
    ensures
        ledger_balanced(ledger_run(l, events)),
        ledger_run(l, events).fundraiser.amount_to_raise == l.fundraiser.amount_to_raise,
        ledger_run(l, events).totals.len() == l.totals.len(),
        forall|i: int|
            0 <= i < l.totals.len() ==> #[trigger] ledger_run(l, events).refunded[i]
                <= ledger_run(l, events).contributed[i],
    decreases events.len(),
{
    if events.len() > 0 {
        law_ledger_stays_balanced(l, events.drop_last());
        lemma_ledger_step_balanced(ledger_run(l, events.drop_last()), events.last());
    }
    let r = ledger_run(l, events);
    assert forall|i: int| 0 <= i < l.totals.len() implies #[trigger] r.refunded[i] <= r.contributed[i] by {
        assert(r.refunded[i] + r.totals[i] == r.contributed[i]);
    }
}


proof fn lemma_day_count_bounds(d: int)
    ensures
        d >= 0 ==> 86400 * trunc_div(d, 86400) <= d < 86400 * (trunc_div(d, 86400) + 1),
        d < 0 ==> 86400 * (trunc_div(d, 86400) - 1) < d <= 86400 * trunc_div(d, 86400),
{
}

/// The campaign clock counts elapsed seconds only: the day count from `start`
/// to `now` is `now - start` divided by the 86400 seconds of a day and rounded
/// toward zero, so two moments the same number of seconds after their starts
/// have the same count, and the first 86400 seconds after the start are day 0
/// whatever time of day the campaign started.
pub proof fn law_day_count_of_elapsed_seconds(now: i64, start: i64, later_now: i64, later_start: i64)
    ensures
        now - start >= 0 ==> 86400 * elapsed_days(now, start) <= now - start < 86400 * (
        elapsed_days(now, start) + 1),
        now - start < 0 ==> 86400 * (elapsed_days(now, start) - 1) < now - start <= 86400
            * elapsed_days(now, start),
        0 <= now - start < 86400 ==> elapsed_days(now, start) == 0,
        now - start == later_now - later_start ==> elapsed_days(now, start) == elapsed_days(
            later_now,
            later_start,
        ),
{
    lemma_day_count_bounds(now - start);
}

/// A campaign of `duration` days takes contributions for exactly
/// `duration * 86400` seconds from its start (and before it), and refunds from
/// then on; a campaign of no days takes them only a full day or more before
/// its start.
pub proof fn law_campaign_runs_for_its_duration(f: FundraiserModel, now: i64)
    ensures
        f.duration > 0 ==> (contributions_open(f, now) <==> now - f.time_started < f.duration
            * 86400),
        f.duration == 0 ==> (contributions_open(f, now) <==> now - f.time_started <= -86400),
        refunds_open(f, now) <==> !contributions_open(f, now),
{
    lemma_day_count_bounds(now - f.time_started);
}

/// Within the campaign, the window and cap check of a contribution reads only
/// the contributor's own total: it passes exactly when that total with the
/// amount stays within the cap (and refuses with `MaximumContributionsReached`
/// otherwise), and what the fundraiser has collected from anyone never
/// changes its answer.
pub proof fn law_contribution_window_reads_own_total(
    f: FundraiserModel,
    contributor_total: u64,
    amount: u64,
    cap: u64,
    now: i64,
    collected: u64,
)
    ensures
        (0 <= now - f.time_started < f.duration * 86400 && contributor_total + amount <= cap)
            ==> contribution_window_outcome(f, contributor_total, amount, cap, now) == Ok::<
            (),
            ProgramError,
        >(()),
        (0 <= now - f.time_started < f.duration * 86400 && contributor_total + amount > cap)
            ==> contribution_window_outcome(f, contributor_total, amount, cap, now) == Err::<
            (),
            ProgramError,
        >(ProgramError::Custom(FundraiserError::MaximumContributionsReached)),
        contribution_window_outcome(
            FundraiserModel { current_amount: collected, ..f },
            contributor_total,
            amount,
            cap,
            now,
        ) == contribution_window_outcome(f, contributor_total, amount, cap, now),
{
    lemma_day_count_bounds(now - f.time_started);
}

/// A contribution above 1 made while the campaign runs, by a contributor whose
/// own recorded total with it stays within the cap, is accepted whatever the
/// others have given: exactly `amount` moves into the vault, and recording it
/// grows both the fundraiser's collected amount and the contributor's total by
/// `amount` (when the collected amount stays within `u64`).
pub proof fn law_contribution_accepted_within_own_cap(
    f: FundraiserModel,
    decimals: u8,
    cap: u64,
    amount: u64,
    record: Seq<u8>,
    now: i64,
)
    requires
        record.len() == 8,
        1 < amount,
        decode_u64(record) + amount <= cap,
        0 <= now - f.time_started < f.duration * 86400,
        f.current_amount + amount <= u64::MAX,
    ensures
        contribution_outcome(f, decimals, cap, amount, Ok(record), Ok(now)) == Ok::<
            (u64, Result<(FundraiserModel, u64), ProgramError>),
            ProgramError,
        >(
            (
                amount,
                Ok(
                    (
                        FundraiserModel { current_amount: (f.current_amount + amount) as u64, ..f },
                        (decode_u64(record) + amount) as u64,
                    ),
                ),
            ),
        ),
{
    lemma1_pow(decimals as nat);
    crate::le::lemma_encode_decode_u64(record);
    law_contribution_window_reads_own_total(
        f,
        decode_u64(record) as u64,
        amount,
        cap,
        now,
        f.current_amount,
    );
}

/// An accepted refund pays back exactly the refunding contributor's recorded
/// total (the 8 bytes of their record), signs with the fundraiser's recorded
/// bump, and takes that same amount off the fundraiser's collected amount,
/// leaving the rest of the fundraiser as it was. What the vault holds matters
/// only through whether it reached the target: two vaults alike but for
/// balances on the same side of the target give the same answer.
pub proof fn law_refund_pays_recorded_total(
    mint_key: Seq<u8>,
    maker_key: Seq<u8>,
    fundraiser_key: Seq<u8>,
    fundraiser_data: Result<Seq<u8>, u64>,
    contributor_key: Seq<u8>,
    record_key: Seq<u8>,
    now: Result<i64, u64>,
    vault_key: Seq<u8>,
    vault: Result<TokenAccountState, u64>,
    record_data: Result<Seq<u8>, u64>,
    other_balance: u64,
)
    ensures
        match refund_outcome(
            mint_key,
            maker_key,
            fundraiser_key,
            fundraiser_data,
            contributor_key,
            record_key,
            now,
            vault_key,
            vault,
            record_data,
        ) {
            Ok(o) => match (fundraiser_read_outcome(fundraiser_data), record_data) {
                (Ok(f), Ok(d)) => {
                    &&& d.len() == 8
                    &&& o.0 == decode_u64(d)
                    &&& o.1 == f.bump
                    &&& (o.2 is Ok) == (o.0 <= f.current_amount)
                    &&& o.2 matches Ok(m) ==> m.current_amount + o.0 == f.current_amount && m == (
                    FundraiserModel { current_amount: m.current_amount, ..f })
                },
                _ => false,
            },
            Err(_) => true,
        },
        match (fundraiser_read_outcome(fundraiser_data), vault) {
            (Ok(f), Ok(v)) => (v.amount < f.amount_to_raise) == (other_balance < f.amount_to_raise)
                ==> refund_outcome(
                mint_key,
                maker_key,
                fundraiser_key,
                fundraiser_data,
                contributor_key,
                record_key,
                now,
                vault_key,
                Ok(TokenAccountState { amount: other_balance, ..v }),
                record_data,
            ) == refund_outcome(
                mint_key,
                maker_key,
                fundraiser_key,
                fundraiser_data,
                contributor_key,
                record_key,
                now,
                vault_key,
                vault,
                record_data,
            ),
            _ => true,
        },
{
}

/// A successful collection pays the maker the vault's whole balance, which is
/// at least the target, under the fundraiser's recorded bump; and whenever the
/// fundraiser account, its address, the vault's address and the vault itself
/// pass, the collection succeeds with exactly that, however far the vault went
/// past the target.
pub proof fn law_collection_pays_whole_vault(
    maker_key: Seq<u8>,
    fundraiser_key: Seq<u8>,
    fundraiser_data: Result<Seq<u8>, u64>,
    vault_key: Seq<u8>,
    vault: Result<TokenAccountState, u64>,
)
    ensures
        match check_contributions_outcome(
            maker_key,
            fundraiser_key,
            fundraiser_data,
            vault_key,
            vault,
        ) {
            Ok(s) => match (fundraiser_read_outcome(fundraiser_data), vault) {
                (Ok(f), Ok(v)) => s.payout == v.amount && s.payout >= f.amount_to_raise && s.bump
                    == f.bump,
                _ => false,
            },
            Err(_) => true,
        },
        match (fundraiser_read_outcome(fundraiser_data), vault) {
            (Ok(f), Ok(v)) => (fundraiser_address(maker_key, f.bump) == fundraiser_key
                && is_pinned_vault(f, fundraiser_key, vault_key) && is_vault_of(
                f,
                fundraiser_key,
                v,
            ) && v.amount >= f.amount_to_raise) ==> check_contributions_outcome(
                maker_key,
                fundraiser_key,
                fundraiser_data,
                vault_key,
                vault,
            ) == Ok::<Settlement, ProgramError>(Settlement { payout: v.amount, bump: f.bump }),
            _ => true,
        },
{
}

/// Opening a fundraiser does not depend on its duration: every duration byte
/// gives the same answer, and a target above `3^decimals` at the canonical
/// fundraiser address that the search finds for the maker, not yet owned by
/// the program, is accepted with the found bump. The opened fundraiser keeps
/// the duration as given.
pub proof fn law_initialize_ignores_duration(
    args: InitializeArgs,
    duration: u8,
    decimals: u8,
    read_decimals: Result<u8, u64>,
    maker: Seq<u8>,
    mint_to_raise: Seq<u8>,
    fundraiser_pda: Seq<u8>,
    bump: u8,
    fundraiser_key: Seq<u8>,
    owned_by_program: bool,
    now: i64,
)
    ensures
        initialize_outcome(
            InitializeArgs { duration, ..args },
            decimals,
            fundraiser_pda,
            bump,
            fundraiser_key,
            owned_by_program,
        ) == initialize_outcome(
            args,
            decimals,
            fundraiser_pda,
            bump,
            fundraiser_key,
            owned_by_program,
        ),
        initialize_decision(
            InitializeArgs { duration, ..args },
            read_decimals,
            maker,
            fundraiser_key,
            owned_by_program,
        ) == initialize_decision(args, read_decimals, maker, fundraiser_key, owned_by_program),
        args.amount > pow(3, decimals as nat) ==> initialize_outcome(
            args,
            decimals,
            fundraiser_key,
            bump,
            fundraiser_key,
            false,
        ) == Ok::<u8, ProgramError>(bump),
        (args.amount > pow(3, decimals as nat) && fundraiser_search(maker) == Some(
            (fundraiser_key, bump),
        )) ==> initialize_decision(args, Ok(decimals), maker, fundraiser_key, false) == Ok::<
            u8,
            ProgramError,
        >(bump),
        opened_fundraiser(maker, mint_to_raise, args, bump, now).duration == args.duration,
{
}

} // verus!
