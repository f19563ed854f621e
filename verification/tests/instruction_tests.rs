use std::str::FromStr;

use voter_stake_registry::error::{Error, ErrorCode, GovernanceError};
use voter_stake_registry::governance::TokenOwnerRecord;
use voter_stake_registry::instructions::clawback::clawback;
use voter_stake_registry::instructions::close_deposit_entry::close_deposit_entry;
use voter_stake_registry::instructions::close_voter::close_voter;
use voter_stake_registry::instructions::create_deposit_entry::create_deposit_entry;
use voter_stake_registry::instructions::create_exchange_rate::create_exchange_rate;
use voter_stake_registry::instructions::create_voter::create_voter;
use voter_stake_registry::instructions::grant::{grant, is_freshly_initialized};
use voter_stake_registry::instructions::set_time_offset::set_time_offset;
use voter_stake_registry::instructions::deposit::deposit;
use voter_stake_registry::instructions::reset_lockup::reset_lockup;
use voter_stake_registry::instructions::update_max_vote_weight::update_max_vote_weight;
use voter_stake_registry::instructions::update_voter_weight_record::update_voter_weight_record;
use voter_stake_registry::instructions::withdraw::withdraw;
use voter_stake_registry::pubkey::Pubkey;
use voter_stake_registry::state::deposit_entry::DepositEntry;
use voter_stake_registry::state::exchange_entry::ExchangeRateEntry;
use voter_stake_registry::state::lockup::{Lockup, LockupKind, SECS_PER_DAY};
use voter_stake_registry::state::registrar::Registrar;
use voter_stake_registry::state::voter::Voter;
use voter_stake_registry::state::voter_weight_record::{VoterWeightAccountType, VoterWeightRecord};
use voter_stake_registry::state::voting_mint_config::{VotingMintConfig, SCALED_FACTOR_BASE};

const T0: i64 = 2_000_000;
const HOUR: i64 = 3600;
const DAY: i64 = SECS_PER_DAY as i64;

fn key(b: u8) -> Pubkey {
    Pubkey::new_from_array([b; 32])
}

/// A registrar whose mint `key(10)` has exchange rate 1 and counts one vote
/// per token, without lockup bonus.
fn registrar() -> Registrar {
    let mut r = Registrar {
        governance_program_id: key(1),
        realm: key(2),
        realm_governing_token_mint: key(3),
        realm_authority: key(4),
        clawback_authority: key(5),
        bump: 0,
        rates: [ExchangeRateEntry::default(), ExchangeRateEntry::default()],
        vote_weight_decimals: 6,
        time_offset: 0,
        voting_mints: [VotingMintConfig::default(); 4],
    };
    create_exchange_rate(&mut r, key(10), 0, 1, 6).unwrap();
    r.voting_mints[0] = VotingMintConfig {
        mint: key(10),
        unlocked_scaled_factor: SCALED_FACTOR_BASE,
        ..VotingMintConfig::default()
    };
    r
}

fn voter() -> Voter {
    Voter {
        voter_authority: key(20),
        registrar: key(21),
        deposits: [DepositEntry::default(); 32],
        voter_bump: 0,
        voter_weight_record_bump: 0,
        last_deposit_slot: 0,
        padding: [0u8; 30],
    }
}

fn record() -> TokenOwnerRecord {
    TokenOwnerRecord {
        realm: key(2),
        governing_token_mint: key(3),
        governing_token_owner: key(20),
        unrelinquished_votes_count: 0,
        outstanding_proposal_count: 0,
    }
}

/// The lockup length, initially locked and deposited amounts of an entry.
fn status(v: &Voter, i: usize) -> (i64, u64, u64) {
    let d = v.deposits[i];
    (
        d.lockup.end_ts - d.lockup.start_ts,
        d.amount_initially_locked_native,
        d.amount_deposited_native,
    )
}

/// Runs the instructions against one voter, each in its own slot.
struct Bench {
    registrar: Registrar,
    voter: Voter,
    slot: u64,
    now: i64,
}

impl Bench {
    fn new() -> Self {
        Bench { registrar: registrar(), voter: voter(), slot: 1, now: T0 }
    }

    fn create(&mut self, i: u8, kind: LockupKind, periods: u32, allow_clawback: bool) {
        create_deposit_entry(
            &self.registrar,
            &mut self.voter,
            key(10),
            i,
            kind,
            None,
            periods,
            allow_clawback,
            self.now,
        )
        .unwrap();
    }

    fn deposit(&mut self, i: u8, amount: u64) -> Result<(), ErrorCode> {
        self.slot += 1;
        deposit(&self.registrar, &mut self.voter, key(10), i, amount, self.slot, self.now)
    }

    fn withdraw(&mut self, i: u8, amount: u64) -> Result<(), Error> {
        self.slot += 1;
        withdraw(&self.registrar, &mut self.voter, record(), key(10), i, amount, 0, self.slot, self.now)
    }

    fn reset(&mut self, i: u8, periods: u32) -> Result<(), ErrorCode> {
        reset_lockup(&self.registrar, &mut self.voter, i, periods, self.now)
    }
}

#[test]
fn test_deposit_daily_vesting() {
    let mut b = Bench::new();
    b.create(0, LockupKind::Daily, 3, false);
    b.deposit(0, 9000).unwrap();
    assert_eq!(status(&b.voter, 0), (3 * DAY, 9000, 9000));

    // cannot withdraw yet, nothing is vested
    assert_eq!(b.withdraw(0, 1), Err(Error::ErrorCode(ErrorCode::InsufficientVestedTokens)));

    // advance a day
    b.now = T0 + 25 * HOUR;
    assert_eq!(b.withdraw(0, 3001), Err(Error::ErrorCode(ErrorCode::InsufficientVestedTokens)));
    b.withdraw(0, 3000).unwrap();
    assert_eq!(b.voter.deposits[0].amount_deposited_native, 6000);

    // There are two vesting periods left, if we add 5000 to the deposit,
    // half of that should vest each day.
    b.deposit(0, 5000).unwrap();
    assert_eq!(b.voter.deposits[0].amount_deposited_native, 11000);
    assert_eq!(b.withdraw(0, 1), Err(Error::ErrorCode(ErrorCode::InsufficientVestedTokens)));

    // advance another day: there is just one period left
    b.now = T0 + 49 * HOUR;
    b.deposit(0, 1000).unwrap();
    // can withdraw 3000 (first deposit) plus 2500 (second deposit)
    // nothing from the third deposit is vested
    assert_eq!(b.withdraw(0, 5501), Err(Error::ErrorCode(ErrorCode::InsufficientVestedTokens)));
    b.withdraw(0, 5500).unwrap();
    assert_eq!(b.voter.deposits[0].amount_deposited_native, 6500);

    // advance another day: can withdraw the rest
    b.now = T0 + 73 * HOUR;
    b.withdraw(0, 6500).unwrap();
    assert_eq!(b.voter.deposits[0].amount_deposited_native, 0);

    // if we deposit now, we can immediately withdraw
    b.deposit(0, 1000).unwrap();
    b.withdraw(0, 1000).unwrap();
    assert_eq!(b.voter.deposits[0].amount_deposited_native, 0);
    close_deposit_entry(&mut b.voter, 0, b.now).unwrap();
    assert!(!b.voter.deposits[0].is_used);
}

#[test]
fn test_reset_lockup() {
    let mut b = Bench::new();
    b.create(7, LockupKind::Daily, 3, false);
    b.deposit(7, 8000).unwrap();
    assert_eq!(status(&b.voter, 7), (3 * DAY, 8000, 8000));
    b.deposit(7, 1000).unwrap();
    assert_eq!(status(&b.voter, 7), (3 * DAY, 9000, 9000));
    assert_eq!(b.reset(7, 2), Err(ErrorCode::InvalidDays));
    b.reset(7, 3).unwrap();
    assert_eq!(status(&b.voter, 7), (3 * DAY, 9000, 9000));

    // advance more than a day
    b.now = T0 + 25 * HOUR;
    b.deposit(7, 1000).unwrap();
    assert_eq!(status(&b.voter, 7), (2 * DAY, 7000, 10000)); // 3000 vested
    b.reset(7, 10).unwrap();
    assert_eq!(status(&b.voter, 7), (10 * DAY, 10000, 10000));

    // advance four more days
    b.now = T0 + 5 * 25 * HOUR;
    b.withdraw(7, 2000).unwrap(); // partially withdraw vested
    assert_eq!(status(&b.voter, 7), (10 * DAY, 10000, 8000));
    assert_eq!(b.reset(7, 5), Err(ErrorCode::InvalidDays));
    b.reset(7, 6).unwrap();
    assert_eq!(status(&b.voter, 7), (6 * DAY, 8000, 8000));
    b.reset(7, 8).unwrap();
    assert_eq!(status(&b.voter, 7), (8 * DAY, 8000, 8000));

    // advance three more days
    b.now = T0 + 8 * 25 * HOUR;
    b.deposit(7, 1000).unwrap();
    assert_eq!(status(&b.voter, 7), (5 * DAY, 6000, 9000)); // 3000 vested
    b.withdraw(7, 2000).unwrap(); // partially withdraw vested
    assert_eq!(status(&b.voter, 7), (5 * DAY, 6000, 7000));
    b.reset(7, 10).unwrap();
    assert_eq!(status(&b.voter, 7), (10 * DAY, 7000, 7000));
}

#[test]
fn test_reset_lockup_cliff() {
    let mut b = Bench::new();
    b.create(5, LockupKind::Cliff, 3, false);
    b.deposit(5, 8000).unwrap();
    assert_eq!(status(&b.voter, 5), (3 * DAY, 8000, 8000));
    assert_eq!(b.reset(5, 2), Err(ErrorCode::InvalidDays));
    b.reset(5, 3).unwrap();
    assert_eq!(status(&b.voter, 5), (3 * DAY, 8000, 8000));
    b.reset(5, 4).unwrap();
    assert_eq!(status(&b.voter, 5), (4 * DAY, 8000, 8000));

    // advance to end of cliff
    b.now = T0 + 4 * 25 * HOUR;
    b.reset(5, 1).unwrap();
    assert_eq!(status(&b.voter, 5), (DAY, 8000, 8000));
    assert_eq!(b.withdraw(5, 1000), Err(Error::ErrorCode(ErrorCode::InsufficientVestedTokens)));

    // advance to end of cliff again
    b.now = T0 + 5 * 25 * HOUR;
    b.withdraw(5, 1000).unwrap();
    assert_eq!(status(&b.voter, 5), (DAY, 8000, 7000));
    b.deposit(5, 500).unwrap();
    assert_eq!(status(&b.voter, 5), (0, 500, 7500));
    b.reset(5, 1).unwrap();
    assert_eq!(status(&b.voter, 5), (DAY, 7500, 7500));
    b.deposit(5, 1500).unwrap();
    assert_eq!(status(&b.voter, 5), (DAY, 9000, 9000));
    assert_eq!(b.reset(5, 0), Err(ErrorCode::InvalidDays));
}

#[test]
fn vsr_clawback_takes_locked_tokens() {
    let mut b = Bench::new();
    b.create(0, LockupKind::Daily, 3, true);
    b.create(1, LockupKind::Daily, 3, false);
    b.deposit(0, 9000).unwrap();
    b.deposit(1, 9000).unwrap();
    b.now = T0 + 25 * HOUR;
    assert_eq!(
        clawback(&b.registrar, &mut b.voter, 1, b.now),
        Err(ErrorCode::ClawbackNotAllowedOnDeposit)
    );
    assert_eq!(
        clawback(&b.registrar, &mut b.voter, 2, b.now),
        Err(ErrorCode::UnusedDepositEntryIndex)
    );
    assert_eq!(
        clawback(&b.registrar, &mut b.voter, 32, b.now),
        Err(ErrorCode::OutOfBoundsDepositEntryIndex)
    );
    assert_eq!(clawback(&b.registrar, &mut b.voter, 0, b.now), Ok(6000));
    let d = b.voter.deposits[0];
    assert_eq!(d.amount_deposited_native, 3000);
    assert_eq!(d.amount_initially_locked_native, 0);
    assert_eq!(d.lockup.kind, LockupKind::NoLockup);
    assert!(!d.allow_clawback);
    assert_eq!(d.amount_locked(b.now + 10 * DAY), 0);
    // the vested tokens stay withdrawable
    b.withdraw(0, 3000).unwrap();
}

#[test]
fn vsr_withdraw_errors() {
    let mut b = Bench::new();
    b.create(0, LockupKind::NoLockup, 0, false);
    b.deposit(0, 100).unwrap();
    let slot = b.slot;
    let r = b.registrar;
    let v = &mut b.voter;
    assert_eq!(
        withdraw(&r, v, record(), key(10), 0, 1, 1, slot + 1, T0),
        Err(Error::ErrorCode(ErrorCode::ShouldBeTheFirstIxInATx))
    );
    let stranger = TokenOwnerRecord { governing_token_owner: key(99), ..record() };
    assert_eq!(
        withdraw(&r, v, stranger, key(10), 0, 1, 0, slot + 1, T0),
        Err(Error::ErrorCode(ErrorCode::InvalidTokenOwnerRecord))
    );
    let voting = TokenOwnerRecord { unrelinquished_votes_count: 2, ..record() };
    assert_eq!(
        withdraw(&r, v, voting, key(10), 0, 1, 0, slot + 1, T0),
        Err(Error::Governance(
            GovernanceError::AllVotesMustBeRelinquishedToWithdrawGoverningTokens
        ))
    );
    assert_eq!(
        withdraw(&r, v, record(), key(10), 0, 1, 0, slot, T0),
        Err(Error::ErrorCode(ErrorCode::InvalidToDepositAndWithdrawInOneSlot))
    );
    assert_eq!(
        withdraw(&r, v, record(), key(10), 40, 1, 0, slot + 1, T0),
        Err(Error::ErrorCode(ErrorCode::OutOfBoundsDepositEntryIndex))
    );
    assert_eq!(
        withdraw(&r, v, record(), key(10), 3, 1, 0, slot + 1, T0),
        Err(Error::ErrorCode(ErrorCode::UnusedDepositEntryIndex))
    );
    assert_eq!(
        withdraw(&r, v, record(), key(11), 0, 1, 0, slot + 1, T0),
        Err(Error::ErrorCode(ErrorCode::VotingMintNotFound))
    );
    assert_eq!(v.deposits[0].amount_deposited_native, 100);
    withdraw(&r, v, record(), key(10), 0, 100, 0, slot + 1, T0).unwrap();
    assert_eq!(v.deposits[0].amount_deposited_native, 0);
}

#[test]
fn vsr_deposit_errors() {
    let mut b = Bench::new();
    b.create(0, LockupKind::Daily, 2, false);
    assert_eq!(
        deposit(&b.registrar, &mut b.voter, key(11), 0, 1, 5, T0),
        Err(ErrorCode::ExchangeRateEntryNotFound)
    );
    assert_eq!(
        deposit(&b.registrar, &mut b.voter, key(10), 1, 1, 5, T0),
        Err(ErrorCode::InvalidDepositEntryIndex)
    );
    assert_eq!(
        deposit(&b.registrar, &mut b.voter, key(10), 32, 1, 5, T0),
        Err(ErrorCode::InvalidDepositEntryIndex)
    );
    assert_eq!(b.voter.last_deposit_slot, 0);
    deposit(&b.registrar, &mut b.voter, key(10), 0, 1, 5, T0).unwrap();
    assert_eq!(b.voter.last_deposit_slot, 5);
}

#[test]
fn vsr_deposit_locks_new_tokens() {
    let mut b = Bench::new();
    b.create(0, LockupKind::Daily, 4, false);
    b.deposit(0, 8000).unwrap();
    b.now = T0 + 25 * HOUR;
    let before = b.voter.deposits[0].amount_locked(b.now);
    assert_eq!(before, 6000);
    b.deposit(0, 1000).unwrap();
    assert_eq!(b.voter.deposits[0].amount_locked(b.now), 7000);
    // an ended lockup locks nothing new
    b.now = T0 + 10 * DAY;
    b.deposit(0, 1000).unwrap();
    assert_eq!(b.voter.deposits[0].amount_locked(b.now), 0);
    assert_eq!(b.voter.deposits[0].amount_deposited_native, 10000);
}

#[test]
fn vsr_voter_weight_counts_deposits() {
    let mut b = Bench::new();
    b.create(0, LockupKind::NoLockup, 0, false);
    b.create(1, LockupKind::Cliff, 5, false);
    b.deposit(0, 1500).unwrap();
    b.deposit(1, 2500).unwrap();
    let mut rec = VoterWeightRecord {
        account_type: VoterWeightAccountType::Uninitialized,
        realm: key(2),
        governing_token_mint: key(3),
        governing_token_owner: key(20),
        voter_weight: 0,
        voter_weight_expiry: None,
    };
    update_voter_weight_record(&b.registrar, &b.voter, &mut rec, b.now, 77).unwrap();
    assert_eq!(rec.voter_weight, 4000);
    assert_eq!(rec.voter_weight_expiry, Some(77));
    assert_eq!(rec.realm, key(2));
}

#[test]
fn vsr_close_voter_checks_deposits_and_owners() {
    let mut b = Bench::new();
    let voter_key = key(30);
    assert_eq!(close_voter(&b.voter, voter_key, &vec![voter_key, voter_key]), Ok(()));
    assert_eq!(
        close_voter(&b.voter, voter_key, &vec![voter_key, key(31)]),
        Err(ErrorCode::InvalidAuthority)
    );
    b.create(0, LockupKind::NoLockup, 0, false);
    b.deposit(0, 1).unwrap();
    assert_eq!(
        close_voter(&b.voter, voter_key, &vec![voter_key]),
        Err(ErrorCode::VotingTokenNonZero)
    );
}

#[test]
fn vsr_update_max_vote_weight_sums_supplies() {
    let mut r = registrar();
    create_exchange_rate(&mut r, key(11), 1, 5, 3).unwrap();
    assert_eq!(r.rates[1].conversion_factor, 5000);
    assert_eq!(update_max_vote_weight(&r, &vec![(key(10), 10), (key(11), 2)]), Ok(10010));
    assert_eq!(
        update_max_vote_weight(&r, &vec![(key(12), 10)]),
        Err(ErrorCode::ExchangeRateEntryNotFound)
    );
}

#[test]
fn vsr_set_time_offset_only_for_test_program() {
    let allowed = anchor_lang::prelude::Pubkey::from_str("GovernanceProgram11111111111111111111111111")
        .unwrap();
    let mut r = registrar();
    r.governance_program_id = Pubkey::new_from_array(allowed.to_bytes());
    assert_eq!(set_time_offset(&mut r, -7200), Some(Ok(())));
    assert_eq!(r.time_offset, -7200);
    let mut other = registrar();
    assert_eq!(set_time_offset(&mut other, 5), Some(Err(ErrorCode::DebugInstruction)));
    assert_eq!(other.time_offset, 0);
}

#[test]
fn vsr_create_exchange_rate_errors() {
    let mut r = registrar();
    assert_eq!(create_exchange_rate(&mut r, key(11), 1, 0, 6), Err(ErrorCode::InvalidRate));
    assert_eq!(create_exchange_rate(&mut r, key(11), 2, 1, 6), Err(ErrorCode::OutOfBoundsRatesIndex));
    assert_eq!(create_exchange_rate(&mut r, key(11), 0, 1, 6), Err(ErrorCode::RatesIndexAlreadyInUse));
    assert_eq!(create_exchange_rate(&mut r, key(11), 1, 1, 7), Err(ErrorCode::InvalidDecimals));
    assert_eq!(r.rates[1].rate, 0);
}

#[test]
fn vsr_create_deposit_entry_errors() {
    let mut b = Bench::new();
    let r = b.registrar;
    assert_eq!(
        create_deposit_entry(&r, &mut b.voter, key(11), 0, LockupKind::Daily, None, 1, false, T0),
        Err(ErrorCode::VotingMintNotFound)
    );
    assert_eq!(
        create_deposit_entry(&r, &mut b.voter, key(10), 32, LockupKind::Daily, None, 1, false, T0),
        Err(ErrorCode::OutOfBoundsDepositEntryIndex)
    );
    b.create(0, LockupKind::Daily, 1, false);
    assert_eq!(
        create_deposit_entry(&r, &mut b.voter, key(10), 0, LockupKind::Daily, None, 1, false, T0),
        Err(ErrorCode::UnusedDepositEntryIndex)
    );
    create_deposit_entry(&r, &mut b.voter, key(10), 1, LockupKind::Monthly, Some(5000), 2, true, T0)
        .unwrap();
    let d = b.voter.deposits[1];
    assert_eq!(d.lockup.start_ts, 5000);
    assert_eq!(d.lockup.kind, LockupKind::Monthly);
    assert!(d.allow_clawback);
    assert_eq!(d.voting_mint_config_idx, 0);
}

#[test]
fn vsr_create_voter_forbids_cpi() {
    let r = registrar();
    let mut v = voter();
    let mut rec = VoterWeightRecord {
        account_type: VoterWeightAccountType::Uninitialized,
        realm: Pubkey::default(),
        governing_token_mint: Pubkey::default(),
        governing_token_owner: Pubkey::default(),
        voter_weight: 0,
        voter_weight_expiry: None,
    };
    assert_eq!(
        create_voter(key(40), key(41), key(21), &r, &mut v, &mut rec, key(50), 1, 2),
        Err(ErrorCode::ForbiddenCpi)
    );
    assert_eq!(v.voter_authority, key(20));
    assert_eq!(rec.account_type, VoterWeightAccountType::Uninitialized);
    create_voter(key(40), key(40), key(60), &r, &mut v, &mut rec, key(50), 1, 2).unwrap();
    assert_eq!(v.voter_authority, key(50));
    assert_eq!(v.registrar, key(60));
    assert_eq!(rec.account_type, VoterWeightAccountType::VoterWeightRecord);
    assert_eq!(rec.realm, key(2));
    assert_eq!(rec.governing_token_mint, key(3));
    assert_eq!(rec.governing_token_owner, key(50));
}

#[test]
fn vsr_grant_locks_granted_tokens() {
    let r = registrar();
    let mut v = voter();
    v.deposits[0].is_used = true;
    let mut rec = VoterWeightRecord {
        account_type: VoterWeightAccountType::Uninitialized,
        realm: Pubkey::default(),
        governing_token_mint: Pubkey::default(),
        governing_token_owner: Pubkey::default(),
        voter_weight: 0,
        voter_weight_expiry: None,
    };
    assert_eq!(
        grant(
            key(21), &r, &mut v, &mut rec, false, key(20), 0, 0, key(10), key(99),
            LockupKind::Daily, 10, true, 1000, T0,
        ),
        Err(ErrorCode::InvalidAuthority)
    );
    let idx = grant(
        key(21), &r, &mut v, &mut rec, false, key(20), 0, 0, key(10), key(4),
        LockupKind::Daily, 10, true, 1000, T0,
    )
    .unwrap();
    assert_eq!(idx, 1);
    assert_eq!(v.voter_authority, key(20));
    assert_eq!(rec.account_type, VoterWeightAccountType::Uninitialized);

    // a freshly created voter is set up by its first grant
    let mut v = voter();
    let idx = grant(
        key(21), &r, &mut v, &mut rec, true, key(50), 3, 4, key(10), key(4),
        LockupKind::Daily, 10, true, 1000, T0,
    )
    .unwrap();
    assert_eq!(idx, 0);
    assert_eq!(rec.account_type, VoterWeightAccountType::VoterWeightRecord);
    let d = v.deposits[0];
    assert_eq!(d.amount_deposited_native, 1000);
    assert_eq!(d.amount_initially_locked_native, 1000);
    assert_eq!(d.lockup.start_ts, T0);
    assert_eq!(d.lockup.end_ts, T0 + 10 * DAY);
    assert!(d.allow_clawback);
    assert_eq!(v.voter_authority, key(50));
    assert_eq!(v.voter_bump, 3);
    assert_eq!(rec.governing_token_owner, key(50));
    assert_eq!(d.amount_locked(T0), 1000);
}

#[test]
fn vsr_is_freshly_initialized_reads_discriminator() {
    assert!(is_freshly_initialized(&[0u8; 16]));
    let mut data = [0u8; 16];
    data[7] = 1;
    assert!(!is_freshly_initialized(&data));
    data[7] = 0;
    data[8] = 1;
    assert!(is_freshly_initialized(&data));
}

#[test]
fn test_basic_deposit_withdraw() {
    let mut b = Bench::new();
    b.create(0, LockupKind::Cliff, 0, false);
    b.deposit(0, 10000).unwrap();
    assert_eq!(b.voter.deposits[0].amount_deposited_native, 10000);
    b.withdraw(0, 10000).unwrap();
    assert_eq!(b.voter.deposits[0].amount_deposited_native, 0);
}

#[test]
fn test_clawback() {
    let mut b = Bench::new();
    b.create(0, LockupKind::Daily, 10, true);
    b.deposit(0, 10000).unwrap();
    assert_eq!(b.voter.deposits[0].amount_deposited_native, 10000);
    assert_eq!(b.withdraw(0, 10000), Err(Error::ErrorCode(ErrorCode::InsufficientVestedTokens)));

    // Advance almost three days for some vesting to kick in
    b.now = T0 + (3 * 24 - 1) * HOUR;
    b.withdraw(0, 999).unwrap();
    let clawed_back = clawback(&b.registrar, &mut b.voter, 0, b.now).unwrap();
    assert_eq!(clawed_back, 8000);
    b.withdraw(0, 1001).unwrap();
    // the realm got back all but the 2000 vested tokens, the voter those
    assert_eq!(10000 - clawed_back, 999 + 1001);
    assert_eq!(b.voter.deposits[0].amount_deposited_native, 0);
}

#[test]
fn test_grants() {
    let mut r = registrar();
    r.voting_mints[0].unlocked_scaled_factor = 2 * SCALED_FACTOR_BASE;
    r.voting_mints[0].lockup_saturation_secs = 5 * 365 * 24 * 60 * 60;
    r.voting_mints[0].grant_authority = key(77);
    let mut voter1 = voter();
    let mut rec = VoterWeightRecord {
        account_type: VoterWeightAccountType::Uninitialized,
        realm: key(2),
        governing_token_mint: key(3),
        governing_token_owner: key(20),
        voter_weight: 0,
        voter_weight_expiry: None,
    };

    // use up entry 0
    create_deposit_entry(&r, &mut voter1, key(10), 0, LockupKind::NoLockup, None, 0, false, T0).unwrap();

    // grant funds to voter (existing)
    let i1 = grant(
        key(21), &r, &mut voter1, &mut rec, false, key(20), 0, 0, key(10), key(77),
        LockupKind::Monthly, 12, true, 12000, T0,
    )
    .unwrap();
    // grant funds to voter2 (new)
    let mut voter2 = voter();
    voter2.voter_authority = Pubkey::default();
    let mut rec2 = rec;
    let i2 = grant(
        key(21), &r, &mut voter2, &mut rec2, true, key(30), 5, 6, key(10), key(77),
        LockupKind::Monthly, 12, true, 24000, T0,
    )
    .unwrap();

    assert_eq!(voter1.deposits[0].amount_deposited_native, 0);
    assert_eq!(i1, 1);
    assert_eq!(voter1.deposits[1].amount_deposited_native, 12000);
    assert_eq!(i2, 0);
    assert_eq!(voter2.deposits[0].amount_deposited_native, 24000);
    assert_eq!(voter2.voter_authority, key(30));
    assert_eq!(rec2.governing_token_owner, key(30));

    let deposit = voter1.deposits[1];
    assert!(deposit.is_used);
    assert_eq!(deposit.amount_deposited_native, 12000);
    assert_eq!(deposit.amount_initially_locked_native, 12000);
    assert!(deposit.allow_clawback);
    assert_eq!(deposit.lockup.kind, LockupKind::Monthly);
    assert_eq!(deposit.lockup.periods_total(), Ok(12));
}

#[test]
fn test_all_deposits() {
    let mut b = Bench::new();
    for i in 0..32u8 {
        b.create(i, LockupKind::Monthly, 12, false);
        b.deposit(i, 12000).unwrap();
    }
    b.now = T0 + 32 * DAY;
    let mut rec = VoterWeightRecord {
        account_type: VoterWeightAccountType::Uninitialized,
        realm: key(2),
        governing_token_mint: key(3),
        governing_token_owner: key(20),
        voter_weight: 0,
        voter_weight_expiry: None,
    };
    b.slot += 1;
    update_voter_weight_record(&b.registrar, &b.voter, &mut rec, b.now, b.slot).unwrap();
    assert_eq!(rec.voter_weight, 12000 * 32);
    b.withdraw(0, 1000).unwrap();
    assert_eq!(b.voter.deposits[0].amount_deposited_native, 11000);
}

#[test]
fn vsr_locked_tokens_only_unlock() {
    let mut b = Bench::new();
    b.create(0, LockupKind::Daily, 4, false);
    b.deposit(0, 8000).unwrap();
    let d = b.voter.deposits[0];
    assert_eq!(d.amount_locked(T0 - DAY), 8000);
    assert_eq!(d.amount_locked(T0), 8000);
    assert_eq!(d.amount_locked(T0 + DAY), 6000);
    assert_eq!(d.amount_locked(T0 + 2 * DAY + HOUR), 4000);
    assert_eq!(d.amount_locked(T0 + 5 * DAY), 0);
    assert_eq!(d.amount_withdrawable(T0 + 2 * DAY), 4000);
}

#[test]
fn vsr_voter_weight_decays() {
    let mut b = Bench::new();
    b.registrar.voting_mints[0].lockup_scaled_factor = SCALED_FACTOR_BASE;
    b.registrar.voting_mints[0].lockup_saturation_secs = 10 * SECS_PER_DAY;
    b.create(0, LockupKind::Cliff, 5, false);
    b.deposit(0, 1000).unwrap();
    let mut rec = VoterWeightRecord {
        account_type: VoterWeightAccountType::Uninitialized,
        realm: key(2),
        governing_token_mint: key(3),
        governing_token_owner: key(20),
        voter_weight: 0,
        voter_weight_expiry: None,
    };
    let mut weights = Vec::new();
    for t in [T0, T0 + 2 * DAY, T0 + 5 * DAY, T0 + 10 * DAY] {
        update_voter_weight_record(&b.registrar, &b.voter, &mut rec, t, 9).unwrap();
        weights.push(rec.voter_weight);
    }
    assert_eq!(weights, vec![1500, 1300, 1000, 1000]);
}

#[test]
fn vsr_linear_vesting_power_of_a_future_lockup() {
    // The lockup starts two days from now: every one of its three cliffs is
    // at least the saturation time away and counts in full.
    let mut d = DepositEntry::default();
    d.is_used = true;
    d.amount_deposited_native = 3000;
    d.amount_initially_locked_native = 3000;
    d.lockup = Lockup::new_from_periods(LockupKind::Daily, 2 * DAY, 3).unwrap();
    assert_eq!(d.voting_power_locked(0, 3000, SECS_PER_DAY), Ok(3000));
}

#[test]
fn vsr_linear_vesting_power_beyond_saturation() {
    // An hour into a three-day daily lockup the closest cliff is 23 hours
    // away, beyond the one-hour saturation: all three cliffs count in full.
    let mut d = DepositEntry::default();
    d.is_used = true;
    d.amount_deposited_native = 3000;
    d.amount_initially_locked_native = 3000;
    d.lockup = Lockup::new_from_periods(LockupKind::Daily, 0, 3).unwrap();
    assert_eq!(d.voting_power_locked(HOUR, 3000, 3600), Ok(3000));
    // With a two-day saturation the cliffs 23, 47 and 71 hours away count
    // 23, 47 and 48 hours out of 48 each.
    assert_eq!(d.voting_power_locked(HOUR, 3000, 2 * SECS_PER_DAY), Ok(3000 * (23 + 47 + 48) / (3 * 48)));
}
