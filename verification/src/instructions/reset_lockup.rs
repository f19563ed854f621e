use vstd::prelude::*;
use crate::error::ErrorCode;
use crate::state::lockup::zero_padding;
use crate::state::registrar::Registrar;
use crate::state::voter::Voter;

verus! {

/// The error resetting a lockup reports, if any.
pub open spec fn spec_reset_lockup_error(
    voter: Voter,
    deposit_entry_index: u8,
    periods: u32,
    curr_ts: int,
) -> Option<ErrorCode> {
    let d = voter.deposits@[deposit_entry_index as int];
    if deposit_entry_index >= 32 {
        Some(ErrorCode::OutOfBoundsDepositEntryIndex)
    } else if !d.is_used {
        Some(ErrorCode::UnusedDepositEntryIndex)
    } else if d.lockup.spec_periods_left(curr_ts) is Err {
        Some(d.lockup.spec_periods_left(curr_ts)->Err_0)
    } else if periods < d.lockup.spec_periods_left(curr_ts)->Ok_0 {
        Some(ErrorCode::InvalidDays)
    } else if periods == 0 {
        Some(ErrorCode::InvalidDays)
    } else {
        None
    }
}

/// The periods left can be computed and the new lockup's end is a timestamp.
pub open spec fn reset_lockup_fits(
    registrar: Registrar,
    voter: Voter,
    deposit_entry_index: u8,
    periods: u32,
    unix_timestamp: i64,
) -> bool {
    let curr_ts = unix_timestamp + registrar.time_offset;
    let d = voter.deposits@[deposit_entry_index as int];
    (deposit_entry_index < 32 && d.is_used) ==> {
        &&& i64::MIN <= curr_ts <= i64::MAX
        &&& d.lockup.left_fits(curr_ts)
        &&& spec_reset_lockup_error(voter, deposit_entry_index, periods, curr_ts) is None
            ==> curr_ts + periods * d.lockup.kind.spec_period_secs() <= i64::MAX
    }
}

/// Resets a lockup to start at the current slot timestamp and to last for
/// `periods`, which must be >= the number of periods left on the lockup.
/// This will re-lock any non-withdrawn vested funds. On error nothing changes.
pub fn reset_lockup(
    registrar: &Registrar,
    voter: &mut Voter,
    deposit_entry_index: u8,
    periods: u32,
    unix_timestamp: i64,
) -> (r: Result<(), ErrorCode>)
    requires
        reset_lockup_fits(*registrar, *old(voter), deposit_entry_index, periods, unix_timestamp),
    ensures
        match spec_reset_lockup_error(
            *old(voter),
            deposit_entry_index,
            periods,
            unix_timestamp + registrar.time_offset,
        ) {
            Some(e) => r == Err::<(), ErrorCode>(e) && final(voter).same_state(*old(voter)),
            None => {
                let curr_ts = unix_timestamp + registrar.time_offset;
                let d = old(voter).deposits@[deposit_entry_index as int];
                let n = final(voter).deposits@[deposit_entry_index as int];
                &&& r is Ok
                &&& final(voter).deposits@.len() == 32
                &&& forall|i: int|
                    0 <= i < 32 && i != deposit_entry_index ==> final(voter).deposits@[i]
                        == old(voter).deposits@[i]
                &&& n.amount_initially_locked_native == d.amount_deposited_native
                &&& n.amount_deposited_native == d.amount_deposited_native
                &&& n.lockup.kind == d.lockup.kind
                &&& n.lockup.start_ts == curr_ts
                &&& n.lockup.end_ts == curr_ts + periods * d.lockup.kind.spec_period_secs()
                &&& n.lockup.padding == zero_padding()
                &&& n.padding == d.padding
                &&& n.is_used == d.is_used
                &&& n.allow_clawback == d.allow_clawback
                &&& n.voting_mint_config_idx == d.voting_mint_config_idx
                &&& final(voter).last_deposit_slot == old(voter).last_deposit_slot
                &&& final(voter).same_identity(*old(voter))
            },
        },
{
    let mut d = match voter.active_deposit_mut(deposit_entry_index) {
        Ok(d) => *d,
        Err(e) => {
            return Err(e);
        },
    };
    proof {
        assert(voter.deposits@ =~= old(voter).deposits@);
    }

    // The lockup period can only be increased.
    let curr_ts = registrar.clock_unix_timestamp(unix_timestamp);
    let periods_left = d.lockup.periods_left(curr_ts)?;
    if !(periods as u64 >= periods_left) {
        return Err(ErrorCode::InvalidDays);
    }
    if !(periods > 0) {
        return Err(ErrorCode::InvalidDays);
    }

    // Lock up every deposited token again
    d.amount_initially_locked_native = d.amount_deposited_native;
    d.lockup = crate::state::lockup::Lockup::new_from_periods(d.lockup.kind, curr_ts, periods)?;
    let entry = voter.active_deposit_mut(deposit_entry_index).unwrap();
    *entry = d;
    Ok(())
}

} // verus!
