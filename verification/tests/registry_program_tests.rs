use std::str::FromStr;

use voter_stake_registry::error::GovernanceError;
use voter_stake_registry::governance::TokenOwnerRecord;
use voter_stake_registry::governance_registry::access_control::rate_is_empty;
use voter_stake_registry::governance_registry::account::{
    DepositEntry, ExchangeRateEntry, Lockup, LockupKind, Registrar, Voter, SECS_PER_DAY,
};
use voter_stake_registry::governance_registry::error::{Error, ErrorCode};
use voter_stake_registry::governance_registry::instructions::{
    clawback, close_deposit, close_voter, create_deposit, create_exchange_rate, create_registrar,
    create_voter, reset_lockup, set_time_offset, update_deposit, update_max_vote_weight,
    update_voter_weight_record, withdraw,
};
use voter_stake_registry::pubkey::Pubkey;
use voter_stake_registry::state::voter_weight_record::{VoterWeightAccountType, VoterWeightRecord};

const T0: i64 = 1_000_000;
const HOUR: i64 = 3600;

fn key(b: u8) -> Pubkey {
    Pubkey::new_from_array([b; 32])
}

fn unused_entry() -> DepositEntry {
    DepositEntry {
        is_used: false,
        rate_idx: 0,
        amount_deposited_native: 0,
        amount_initially_locked_native: 0,
        allow_clawback: false,
        lockup: Lockup {
            kind: LockupKind::NoLockup,
            start_ts: 0,
            end_ts: 0,
            padding: [0u8; 16],
        },
    }
}

fn registrar() -> Registrar {
    Registrar {
        governance_program_id: key(1),
        authority: key(2),
        realm: key(3),
        realm_community_mint: key(4),
        bump: 0,
        rates: [ExchangeRateEntry::default(), ExchangeRateEntry::default()],
        common_decimals: 6,
        clawback_authority: key(5),
        time_offset: 0,
    }
}

/// A registrar accepting the mint `key(10)` at rate 1 with six decimals.
fn registrar_with_rate() -> Registrar {
    let mut r = registrar();
    create_exchange_rate(&mut r, 0, key(10), 1, 6).unwrap();
    r
}

fn voter() -> Voter {
    Voter {
        authority: key(20),
        registrar: key(21),
        voter_bump: 0,
        voter_weight_record_bump: 0,
        deposits: [unused_entry(); 32],
        last_deposit_slot: 0,
    }
}

fn free_record() -> TokenOwnerRecord {
    TokenOwnerRecord {
        realm: key(3),
        governing_token_mint: key(4),
        governing_token_owner: key(20),
        unrelinquished_votes_count: 0,
        outstanding_proposal_count: 0,
    }
}

fn weight_record() -> VoterWeightRecord {
    VoterWeightRecord {
        account_type: VoterWeightAccountType::Uninitialized,
        realm: Pubkey::default(),
        governing_token_mint: Pubkey::default(),
        governing_token_owner: Pubkey::default(),
        voter_weight: 0,
        voter_weight_expiry: None,
    }
}

#[test]
fn registry_create_registrar_sets_fields() {
    let mut r = registrar();
    r.time_offset = 77;
    create_registrar(&mut r, key(30), key(31), key(32), key(33), key(34), 9, 254).unwrap();
    assert_eq!(r.governance_program_id, key(30));
    assert_eq!(r.realm, key(31));
    assert_eq!(r.realm_community_mint, key(32));
    assert_eq!(r.authority, key(33));
    assert_eq!(r.clawback_authority, key(34));
    assert_eq!(r.common_decimals, 9);
    assert_eq!(r.bump, 254);
    assert_eq!(r.time_offset, 0);
}

#[test]
fn registry_rate_is_empty_checks_slot() {
    let r = registrar_with_rate();
    assert_eq!(rate_is_empty(&r, 0), Err(ErrorCode::RateNotZero));
    assert_eq!(rate_is_empty(&r, 1), Ok(()));
    assert_eq!(rate_is_empty(&r, 2), Err(ErrorCode::InvalidIndex));
}

#[test]
fn registry_create_exchange_rate_conversion_factor() {
    let mut r = registrar();
    create_exchange_rate(&mut r, 1, key(11), 5, 3).unwrap();
    assert_eq!(r.rates[1].mint, key(11));
    assert_eq!(r.rates[1].rate, 5);
    assert_eq!(r.rates[1].decimals, 3);
    assert_eq!(r.rates[1].conversion_factor, 5000);
    assert_eq!(r.rates[1].convert(7), 35000);
    assert_eq!(r.rates[0].rate, 0);
}

#[test]
fn registry_create_exchange_rate_errors() {
    let mut r = registrar_with_rate();
    let before = r;
    assert_eq!(create_exchange_rate(&mut r, 2, key(11), 1, 6), Err(ErrorCode::InvalidIndex));
    assert_eq!(create_exchange_rate(&mut r, 0, key(11), 1, 6), Err(ErrorCode::RateNotZero));
    assert_eq!(create_exchange_rate(&mut r, 1, key(11), 0, 6), Err(ErrorCode::InvalidRate));
    assert_eq!(create_exchange_rate(&mut r, 1, key(11), 1, 7), Err(ErrorCode::InvalidDecimals));
    assert_eq!(r.rates[1].rate, before.rates[1].rate);
    assert_eq!(r.rates[1].mint, before.rates[1].mint);
}

#[test]
fn registry_create_voter_forbids_cpi() {
    let r = registrar_with_rate();
    let mut v = voter();
    let mut rec = weight_record();
    assert_eq!(
        create_voter(key(40), key(41), key(21), &r, &mut v, &mut rec, key(50), 1, 2),
        Err(ErrorCode::ForbiddenCpi)
    );
    assert_eq!(v.authority, key(20));
    assert_eq!(rec.account_type, VoterWeightAccountType::Uninitialized);
    create_voter(key(40), key(40), key(60), &r, &mut v, &mut rec, key(50), 1, 2).unwrap();
    assert_eq!(rec.account_type, VoterWeightAccountType::VoterWeightRecord);
    assert_eq!(v.authority, key(50));
    assert_eq!(v.registrar, key(60));
    assert_eq!(v.voter_bump, 1);
    assert_eq!(v.voter_weight_record_bump, 2);
    assert_eq!(rec.realm, key(3));
    assert_eq!(rec.governing_token_mint, key(4));
    assert_eq!(rec.governing_token_owner, key(50));
}

#[test]
fn test_deposit_no_locking() {
    let r = registrar_with_rate();
    let mut v = voter();
    let mut rec = weight_record();

    create_deposit(&r, &mut v, key(10), LockupKind::NoLockup, 10000, 0, false, 5, T0).unwrap();
    assert_eq!(v.deposits[0].amount_deposited_native, 10000);
    assert_eq!(v.last_deposit_slot, 5);

    // add to the existing deposit 0
    update_deposit(&r, &mut v, key(10), 0, 5000, 6, T0).unwrap();
    assert_eq!(v.deposits[0].amount_deposited_native, 15000);
    update_voter_weight_record(&r, &v, &mut rec, T0, 6).unwrap();
    assert_eq!(rec.voter_weight, 15000);
    assert_eq!(rec.voter_weight_expiry, Some(6));

    // create a separate deposit (index 1)
    create_deposit(&r, &mut v, key(10), LockupKind::NoLockup, 7000, 0, false, 7, T0).unwrap();
    assert_eq!(v.deposits[1].amount_deposited_native, 7000);
    assert_eq!(
        withdraw(&r, &mut v, free_record(), key(10), 0, 10000, 7, T0),
        Err(Error::ErrorCode(ErrorCode::InvalidToDepositAndWithdrawInOneSlot))
    );
    update_voter_weight_record(&r, &v, &mut rec, T0, 8).unwrap();
    assert_eq!(rec.voter_weight, 22000);

    withdraw(&r, &mut v, free_record(), key(10), 0, 10000, 8, T0).unwrap();
    assert_eq!(v.deposits[0].amount_deposited_native, 5000);
    assert_eq!(
        withdraw(&r, &mut v, free_record(), key(10), 0, 5001, 9, T0),
        Err(Error::ErrorCode(ErrorCode::InsufficientVestedTokens))
    );
    withdraw(&r, &mut v, free_record(), key(10), 0, 5000, 9, T0).unwrap();
    assert_eq!(v.deposits[0].amount_deposited_native, 0);

    // Close the empty deposit (closing deposits 1 and 2 fails)
    assert_eq!(close_deposit(&mut v, 2), Err(ErrorCode::InvalidDepositId));
    assert_eq!(close_deposit(&mut v, 1), Err(ErrorCode::VotingTokenNonZero));
    close_deposit(&mut v, 0).unwrap();
    assert!(!v.deposits[0].is_used);
    assert_eq!(close_voter(&v), Err(ErrorCode::VotingTokenNonZero));
}

#[test]
fn registry_daily_vesting_scenario() {
    let r = registrar_with_rate();
    let mut v = voter();
    create_deposit(&r, &mut v, key(10), LockupKind::Daily, 9000, 3, false, 1, T0).unwrap();
    let d = v.deposits[0];
    assert_eq!(d.lockup.start_ts, T0);
    assert_eq!(d.lockup.end_ts, T0 + 3 * SECS_PER_DAY);
    assert_eq!(d.amount_initially_locked_native, 9000);

    // cannot withdraw yet, nothing is vested
    assert_eq!(
        withdraw(&r, &mut v, free_record(), key(10), 0, 1, 2, T0),
        Err(Error::ErrorCode(ErrorCode::InsufficientVestedTokens))
    );

    // a day later a third has vested
    let t1 = T0 + 25 * HOUR;
    assert_eq!(
        withdraw(&r, &mut v, free_record(), key(10), 0, 3001, 2, t1),
        Err(Error::ErrorCode(ErrorCode::InsufficientVestedTokens))
    );
    withdraw(&r, &mut v, free_record(), key(10), 0, 3000, 2, t1).unwrap();
    assert_eq!(v.deposits[0].amount_deposited_native, 6000);

    // two periods are left: the new tokens and the rest vest over them
    update_deposit(&r, &mut v, key(10), 0, 5000, 3, t1).unwrap();
    let d = v.deposits[0];
    assert_eq!(d.amount_deposited_native, 11000);
    assert_eq!(d.amount_initially_locked_native, 11000);
    assert_eq!(d.lockup.start_ts, T0 + SECS_PER_DAY);
    assert_eq!(d.vested(t1), Ok(0));
    assert_eq!(
        withdraw(&r, &mut v, free_record(), key(10), 0, 1, 4, t1),
        Err(Error::ErrorCode(ErrorCode::InsufficientVestedTokens))
    );

    // another day later one period is left
    let t2 = T0 + 49 * HOUR;
    update_deposit(&r, &mut v, key(10), 0, 1000, 5, t2).unwrap();
    assert_eq!(v.deposits[0].amount_initially_locked_native, 6500);
    assert_eq!(
        withdraw(&r, &mut v, free_record(), key(10), 0, 5501, 6, t2),
        Err(Error::ErrorCode(ErrorCode::InsufficientVestedTokens))
    );
    withdraw(&r, &mut v, free_record(), key(10), 0, 5500, 6, t2).unwrap();
    assert_eq!(v.deposits[0].amount_deposited_native, 6500);

    // after the end everything can be withdrawn
    let t3 = T0 + 73 * HOUR;
    withdraw(&r, &mut v, free_record(), key(10), 0, 6500, 7, t3).unwrap();
    assert_eq!(v.deposits[0].amount_deposited_native, 0);
    close_deposit(&mut v, 0).unwrap();
    assert_eq!(close_voter(&v), Ok(()));
}

#[test]
fn registry_withdraw_errors() {
    let r = registrar_with_rate();
    let mut v = voter();
    create_deposit(&r, &mut v, key(10), LockupKind::NoLockup, 100, 0, false, 1, T0).unwrap();
    let busy = TokenOwnerRecord { unrelinquished_votes_count: 1, ..free_record() };
    assert_eq!(
        withdraw(&r, &mut v, busy, key(10), 0, 1, 2, T0),
        Err(Error::Governance(
            GovernanceError::AllVotesMustBeRelinquishedToWithdrawGoverningTokens
        ))
    );
    let proposing = TokenOwnerRecord { outstanding_proposal_count: 1, ..free_record() };
    assert_eq!(
        withdraw(&r, &mut v, proposing, key(10), 0, 1, 2, T0),
        Err(Error::Governance(
            GovernanceError::AllProposalsMustBeFinalisedToWithdrawGoverningTokens
        ))
    );
    assert_eq!(
        withdraw(&r, &mut v, free_record(), key(10), 32, 1, 2, T0),
        Err(Error::ErrorCode(ErrorCode::InvalidDepositId))
    );
    assert_eq!(
        withdraw(&r, &mut v, free_record(), key(10), 1, 1, 2, T0),
        Err(Error::ErrorCode(ErrorCode::InvalidDepositId))
    );
    assert_eq!(
        withdraw(&r, &mut v, free_record(), key(12), 0, 1, 2, T0),
        Err(Error::ErrorCode(ErrorCode::ExchangeRateEntryNotFound))
    );
    let mut r2 = r;
    create_exchange_rate(&mut r2, 1, key(12), 1, 6).unwrap();
    assert_eq!(
        withdraw(&r2, &mut v, free_record(), key(12), 0, 1, 2, T0),
        Err(Error::ErrorCode(ErrorCode::InvalidMint))
    );
    assert_eq!(v.deposits[0].amount_deposited_native, 100);
}

#[test]
fn registry_deposit_errors() {
    let r = registrar_with_rate();
    let mut v = voter();
    assert_eq!(
        create_deposit(&r, &mut v, key(12), LockupKind::Daily, 1, 1, false, 1, T0),
        Err(ErrorCode::ExchangeRateEntryNotFound)
    );
    assert_eq!(
        update_deposit(&r, &mut v, key(10), 0, 1, 1, T0),
        Err(ErrorCode::InvalidDepositId)
    );
    assert_eq!(
        update_deposit(&r, &mut v, key(10), 40, 1, 1, T0),
        Err(ErrorCode::InvalidDepositId)
    );
    assert_eq!(v.last_deposit_slot, 0);
    for _ in 0..32 {
        create_deposit(&r, &mut v, key(10), LockupKind::NoLockup, 1, 0, false, 1, T0).unwrap();
    }
    assert_eq!(
        create_deposit(&r, &mut v, key(10), LockupKind::NoLockup, 1, 0, false, 2, T0),
        Err(ErrorCode::DepositEntryFull)
    );
    assert_eq!(v.last_deposit_slot, 1);
}

#[test]
fn registry_clawback_splits_deposit() {
    let r = registrar_with_rate();
    let mut v = voter();
    create_deposit(&r, &mut v, key(10), LockupKind::Daily, 9000, 3, true, 1, T0).unwrap();
    create_deposit(&r, &mut v, key(10), LockupKind::Daily, 9000, 3, false, 1, T0).unwrap();
    let t1 = T0 + 25 * HOUR;
    assert_eq!(clawback(&r, &mut v, 1, t1), Err(ErrorCode::ClawbackNotAllowedOnDeposit));
    assert_eq!(clawback(&r, &mut v, 32, t1), Err(ErrorCode::InvalidDepositId));
    assert_eq!(clawback(&r, &mut v, 0, t1), Ok(6000));
    let d = v.deposits[0];
    assert_eq!(d.amount_deposited_native, 3000);
    assert_eq!(d.amount_initially_locked_native, 0);
    assert_eq!(d.lockup.kind, LockupKind::NoLockup);
    assert_eq!(v.deposits[1].amount_deposited_native, 9000);
}

#[test]
fn registry_reset_lockup_extends() {
    let r = registrar_with_rate();
    let mut v = voter();
    create_deposit(&r, &mut v, key(10), LockupKind::Daily, 9000, 3, false, 1, T0).unwrap();
    let t1 = T0 + 25 * HOUR;
    assert_eq!(v.deposits[0].lockup.periods_left(t1), Ok(2));
    assert_eq!(reset_lockup(&r, &mut v, 0, 1, t1), Err(ErrorCode::InvalidDays));
    assert_eq!(reset_lockup(&r, &mut v, 1, 5, t1), Err(ErrorCode::InvalidDepositId));
    reset_lockup(&r, &mut v, 0, 2, t1).unwrap();
    let d = v.deposits[0];
    assert_eq!(d.lockup.start_ts, t1);
    assert_eq!(d.lockup.end_ts, t1 + 2 * SECS_PER_DAY);
    assert_eq!(d.amount_initially_locked_native, 9000);
    assert_eq!(d.lockup.periods_left(t1), Ok(2));
    assert_eq!(d.vested(t1), Ok(0));
}

#[test]
fn registry_reset_lockup_negative_periods_pass_the_check() {
    let r = registrar_with_rate();
    let mut v = voter();
    create_deposit(&r, &mut v, key(10), LockupKind::Daily, 9000, 3, false, 1, T0).unwrap();
    // -1 read as an unsigned number exceeds the periods left.
    reset_lockup(&r, &mut v, 0, -1, T0).unwrap();
    let d = v.deposits[0];
    assert_eq!(d.lockup.start_ts, T0);
    assert_eq!(d.lockup.end_ts, T0 - SECS_PER_DAY);
}

#[test]
fn registry_update_max_vote_weight_sums_supplies() {
    let mut r = registrar_with_rate();
    create_exchange_rate(&mut r, 1, key(11), 5, 3).unwrap();
    let mints = vec![(key(10), 1000u64), (key(11), 7u64)];
    assert_eq!(update_max_vote_weight(&r, &mints), Ok(1000 + 35000));
    let bad = vec![(key(10), 1000u64), (key(12), 7u64)];
    assert_eq!(update_max_vote_weight(&r, &bad), Err(ErrorCode::ExchangeRateEntryNotFound));
    assert_eq!(update_max_vote_weight(&r, &Vec::new()), Ok(0));
}

#[test]
fn registry_set_time_offset_only_for_test_program() {
    let allowed = anchor_lang::prelude::Pubkey::from_str("GovernanceProgram11111111111111111111111111")
        .unwrap();
    let mut r = registrar();
    r.governance_program_id = Pubkey::new_from_array(allowed.to_bytes());
    assert_eq!(set_time_offset(&mut r, 3600), Some(Ok(())));
    assert_eq!(r.time_offset, 3600);
    let mut other = registrar();
    assert_eq!(set_time_offset(&mut other, 3600), Some(Err(ErrorCode::DebugInstruction)));
    assert_eq!(other.time_offset, 0);
}

#[test]
fn registry_time_offset_moves_the_clock() {
    let mut r = registrar_with_rate();
    r.time_offset = 25 * HOUR;
    let mut v = voter();
    create_deposit(&r, &mut v, key(10), LockupKind::Daily, 9000, 3, false, 1, T0).unwrap();
    assert_eq!(v.deposits[0].lockup.start_ts, T0 + 25 * HOUR);
}

#[test]
fn registry_close_voter_requires_empty_deposits() {
    let mut v = voter();
    assert_eq!(close_voter(&v), Ok(()));
    v.deposits[31].amount_deposited_native = 1;
    assert_eq!(close_voter(&v), Err(ErrorCode::VotingTokenNonZero));
}

#[test]
fn test_basic() {
    let r = registrar_with_rate();
    let mut v = voter();
    create_deposit(&r, &mut v, key(10), LockupKind::Cliff, 10000, 0, false, 1, T0).unwrap();
    assert_eq!(v.deposits[0].amount_deposited_native, 10000);
    assert_eq!(
        withdraw(&r, &mut v, free_record(), key(10), 0, 10000, 1, T0),
        Err(Error::ErrorCode(ErrorCode::InvalidToDepositAndWithdrawInOneSlot))
    );
    // Must advance slots because withdrawing in the same slot as the deposit is forbidden
    withdraw(&r, &mut v, free_record(), key(10), 0, 10000, 2, T0).unwrap();
    assert_eq!(v.deposits[0].amount_deposited_native, 0);
}

#[test]
fn test_deposit_cliff() {
    let r = registrar_with_rate();
    let mut v = voter();
    let mut rec = weight_record();
    create_deposit(&r, &mut v, key(10), LockupKind::Cliff, 9000, 3, false, 1, T0).unwrap();
    update_voter_weight_record(&r, &v, &mut rec, T0, 1).unwrap();
    assert_eq!(rec.voter_weight, 9000);
    assert_eq!(v.deposits[0].amount_deposited_native, 9000);
    assert_eq!(
        withdraw(&r, &mut v, free_record(), key(10), 0, 1, 2, T0),
        Err(Error::ErrorCode(ErrorCode::InsufficientVestedTokens))
    );

    // advance to just before the cliff
    let t1 = T0 + 71 * HOUR;
    assert_eq!(
        withdraw(&r, &mut v, free_record(), key(10), 0, 1, 3, t1),
        Err(Error::ErrorCode(ErrorCode::InsufficientVestedTokens))
    );
    update_deposit(&r, &mut v, key(10), 0, 1000, 4, t1).unwrap();

    // advance past the cliff
    let t2 = T0 + 73 * HOUR;
    update_voter_weight_record(&r, &v, &mut rec, t2, 5).unwrap();
    assert_eq!(rec.voter_weight, 10000);
    assert_eq!(v.deposits[0].amount_deposited_native, 10000);
    assert_eq!(
        withdraw(&r, &mut v, free_record(), key(10), 0, 10001, 5, t2),
        Err(Error::ErrorCode(ErrorCode::InsufficientVestedTokens))
    );
    withdraw(&r, &mut v, free_record(), key(10), 0, 10000, 5, t2).unwrap();
    assert_eq!(v.deposits[0].amount_deposited_native, 0);
}
