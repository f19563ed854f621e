use vstd::prelude::*;
use crate::error::ErrorCode;
use crate::pubkey::Pubkey;
use crate::state::deposit_entry::DepositEntry;
use crate::state::registrar::{Registrar, first_index_of};
use crate::state::voter::Voter;

verus! {

/// The deposit entry after `amount` more tokens came in at `curr_ts`: the
/// vested part of the running lockup is settled, and the rest plus the new
/// tokens is locked again from the start of the current period.
pub open spec fn spec_entry_after_deposit(d: DepositEntry, amount: int, curr_ts: int) -> DepositEntry {
    DepositEntry {
        amount_deposited_native: (d.amount_deposited_native + amount) as u64,
        amount_initially_locked_native: (d.amount_initially_locked_native - d.spec_vested(
            curr_ts,
        )->Ok_0 + amount) as u64,
        lockup: d.lockup.spec_without_past_periods(curr_ts),
        ..d
    }
}

/// The error a deposit reports, if any.
pub open spec fn spec_deposit_error(
    registrar: Registrar,
    voter: Voter,
    deposit_mint: Pubkey,
    deposit_entry_index: u8,
) -> Option<ErrorCode> {
    if first_index_of(registrar.rate_mints(), deposit_mint) is None {
        Some(ErrorCode::ExchangeRateEntryNotFound)
    } else if deposit_entry_index >= 32 || !voter.deposits@[deposit_entry_index as int].is_used {
        Some(ErrorCode::InvalidDepositEntryIndex)
    } else if voter.deposits@[deposit_entry_index as int].lockup.spec_periods_total() is Err {
        Some(ErrorCode::InvalidLockupPeriod)
    } else {
        None
    }
}

/// The deposit's bookkeeping stays within `u64` and the lockup computations
/// within the timestamp range.
pub open spec fn deposit_fits(
    registrar: Registrar,
    voter: Voter,
    deposit_mint: Pubkey,
    deposit_entry_index: u8,
    amount: u64,
    unix_timestamp: i64,
) -> bool {
    let curr_ts = unix_timestamp + registrar.time_offset;
    (first_index_of(registrar.rate_mints(), deposit_mint) is Some && deposit_entry_index < 32
        && voter.deposits@[deposit_entry_index as int].is_used) ==> {
        let d = voter.deposits@[deposit_entry_index as int];
        &&& i64::MIN <= curr_ts <= i64::MAX
        &&& d.vested_fits(curr_ts)
        &&& d.lockup.total_fits()
        &&& d.lockup.left_fits(curr_ts)
        &&& d.amount_deposited_native + amount <= u64::MAX
        &&& d.lockup.spec_periods_total() is Ok ==> d.amount_initially_locked_native
            - d.spec_vested(curr_ts)->Ok_0 + amount <= u64::MAX
    }
}

/// Adds tokens to a deposit entry.
///
/// The caller transfers `amount` native tokens from the depositor into the
/// vault. The deposit entry must have been initialized with
/// create_deposit_entry. On error nothing changes.
pub fn deposit(
    registrar: &Registrar,
    voter: &mut Voter,
    deposit_mint: Pubkey,
    deposit_entry_index: u8,
    amount: u64,
    slot: u64,
    unix_timestamp: i64,
) -> (r: Result<(), ErrorCode>)
    requires
        deposit_fits(
            *registrar,
            *old(voter),
            deposit_mint,
            deposit_entry_index,
            amount,
            unix_timestamp,
        ),
    ensures
        match spec_deposit_error(*registrar, *old(voter), deposit_mint, deposit_entry_index) {
            Some(e) => r == Err::<(), ErrorCode>(e) && final(voter).same_state(*old(voter)),
            None => r is Ok && final(voter).deposits@ == old(voter).deposits@.update(
                deposit_entry_index as int,
                spec_entry_after_deposit(
                    old(voter).deposits@[deposit_entry_index as int],
                    amount as int,
                    unix_timestamp + registrar.time_offset,
                ),
            ) && final(voter).last_deposit_slot == slot && final(voter).same_identity(*old(voter)),
        },
{
    let _er_idx = registrar.exchange_rate_index_for_mint(deposit_mint)?;
    if !(deposit_entry_index < 32) {
        return Err(ErrorCode::InvalidDepositEntryIndex);
    }
    let idx = deposit_entry_index as usize;
    let mut d = voter.deposits[idx];
    if !d.is_used {
        return Err(ErrorCode::InvalidDepositEntryIndex);
    }
    let curr_ts = registrar.clock_unix_timestamp(unix_timestamp);
    proof {
        if d.lockup.spec_periods_total() is Err {
            assert(d.lockup.spec_period_current(curr_ts as int) is Err);
        }
    }
    let periods = d.lockup.period_current(curr_ts)?;
    let vested = d.vested(curr_ts)?;
    let period_secs = d.lockup.kind.period_secs();
    proof {
        d.lockup.lemma_without_past_periods(curr_ts as int);
    }
    d.amount_deposited_native = d.amount_deposited_native + amount;
    d.amount_initially_locked_native = d.amount_initially_locked_native - vested;
    d.amount_initially_locked_native = d.amount_initially_locked_native + amount;
    d.lockup.start_ts = d.lockup.start_ts + (periods * period_secs) as i64;
    voter.deposits[idx] = d;
    voter.last_deposit_slot = slot;
    Ok(())
}

} // verus!
