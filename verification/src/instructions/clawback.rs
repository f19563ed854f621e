use vstd::prelude::*;
use crate::error::ErrorCode;
use crate::state::deposit_entry::DepositEntry;
use crate::state::lockup::{Lockup, LockupKind, zero_padding};
use crate::state::registrar::Registrar;
use crate::state::voter::Voter;

verus! {

/// The deposit entry after its locked tokens were clawed back at `curr_ts`:
/// only the vested tokens stay, and the lockup ends now.
pub open spec fn spec_entry_after_clawback(d: DepositEntry, curr_ts: int) -> DepositEntry {
    DepositEntry {
        amount_deposited_native: (d.amount_deposited_native - d.spec_amount_locked(curr_ts)) as u64,
        amount_initially_locked_native: 0,
        allow_clawback: false,
        lockup: Lockup {
            kind: LockupKind::NoLockup,
            start_ts: curr_ts as i64,
            end_ts: curr_ts as i64,
            padding: zero_padding(),
        },
        ..d
    }
}

/// The error a clawback reports, if any.
pub open spec fn spec_clawback_error(voter: Voter, deposit_entry_index: u8) -> Option<ErrorCode> {
    if deposit_entry_index >= 32 {
        Some(ErrorCode::OutOfBoundsDepositEntryIndex)
    } else if !voter.deposits@[deposit_entry_index as int].is_used {
        Some(ErrorCode::UnusedDepositEntryIndex)
    } else if !voter.deposits@[deposit_entry_index as int].allow_clawback {
        Some(ErrorCode::ClawbackNotAllowedOnDeposit)
    } else {
        None
    }
}

/// The locked amount can be computed and does not exceed the deposit.
pub open spec fn clawback_fits(
    registrar: Registrar,
    voter: Voter,
    deposit_entry_index: u8,
    unix_timestamp: i64,
) -> bool {
    let curr_ts = unix_timestamp + registrar.time_offset;
    let d = voter.deposits@[deposit_entry_index as int];
    spec_clawback_error(voter, deposit_entry_index) is None ==> {
        &&& i64::MIN <= curr_ts <= i64::MAX
        &&& d.vested_fits(curr_ts)
        &&& d.spec_vested(curr_ts) is Ok
        &&& d.spec_amount_locked(curr_ts) <= d.amount_deposited_native
    }
}

/// Claws back locked tokens from a deposit entry.
///
/// The deposit entry must have been created with `allow_clawback=true`.
/// All locked tokens are reclaimed, while tokens that have already vested
/// stay. Returns the amount the caller transfers from the vault to the
/// clawback destination; on error nothing changes.
pub fn clawback(
    registrar: &Registrar,
    voter: &mut Voter,
    deposit_entry_index: u8,
    unix_timestamp: i64,
) -> (r: Result<u64, ErrorCode>)
    requires
        clawback_fits(*registrar, *old(voter), deposit_entry_index, unix_timestamp),
    ensures
        match spec_clawback_error(*old(voter), deposit_entry_index) {
            Some(e) => r == Err::<u64, ErrorCode>(e) && final(voter).same_state(*old(voter)),
            None => {
                let curr_ts = unix_timestamp + registrar.time_offset;
                let d = old(voter).deposits@[deposit_entry_index as int];
                &&& r == Ok::<u64, ErrorCode>(d.spec_amount_locked(curr_ts) as u64)
                &&& final(voter).deposits@ == old(voter).deposits@.update(
                    deposit_entry_index as int,
                    spec_entry_after_clawback(d, curr_ts),
                )
                &&& final(voter).last_deposit_slot == old(voter).last_deposit_slot
                &&& final(voter).same_identity(*old(voter))
            },
        },
{
    let mut deposit_entry = match voter.active_deposit_mut(deposit_entry_index) {
        Ok(d) => *d,
        Err(e) => {
            return Err(e);
        },
    };
    proof {
        assert(voter.deposits@ =~= old(voter).deposits@);
    }
    if !deposit_entry.allow_clawback {
        return Err(ErrorCode::ClawbackNotAllowedOnDeposit);
    }
    let curr_ts = registrar.clock_unix_timestamp(unix_timestamp);
    let locked_amount = deposit_entry.amount_locked(curr_ts);

    deposit_entry.amount_deposited_native = deposit_entry.amount_deposited_native - locked_amount;

    // Now that all locked funds are withdrawn, end the lockup
    deposit_entry.amount_initially_locked_native = 0;
    deposit_entry.lockup = Lockup::new_from_periods(
        LockupKind::NoLockup,
        registrar.clock_unix_timestamp(unix_timestamp),
        0,
    )?;
    deposit_entry.allow_clawback = false;
    let d = voter.active_deposit_mut(deposit_entry_index).unwrap();
    *d = deposit_entry;
    Ok(locked_amount)
}

} // verus!
