use vstd::prelude::*;
use crate::error::ErrorCode;
use crate::state::deposit_entry::DepositEntry;
use crate::state::voter::Voter;

verus! {

/// The error closing a deposit entry reports, if any.
pub open spec fn spec_close_deposit_entry_error(
    voter: Voter,
    deposit_entry_index: u8,
    unix_timestamp: i64,
) -> Option<ErrorCode> {
    let d = voter.deposits@[deposit_entry_index as int];
    if deposit_entry_index >= 32 {
        Some(ErrorCode::OutOfBoundsDepositEntryIndex)
    } else if !d.is_used {
        Some(ErrorCode::UnusedDepositEntryIndex)
    } else if d.amount_deposited_native != 0 {
        Some(ErrorCode::VotingTokenNonZero)
    } else if d.allow_clawback && !(d.lockup.end_ts < unix_timestamp) {
        Some(ErrorCode::DepositStillLocked)
    } else {
        None
    }
}

/// Close an empty deposit entry, allowing it to be reused in the future.
///
/// Deposit entries can only be closed when they don't hold any tokens.
/// If the deposit entry has `allow_clawback` set, it can only be closed once
/// the lockup period has expired by the cluster clock `unix_timestamp`.
/// On error nothing changes.
pub fn close_deposit_entry(voter: &mut Voter, deposit_entry_index: u8, unix_timestamp: i64) -> (r:
    Result<(), ErrorCode>)
    ensures
        match spec_close_deposit_entry_error(*old(voter), deposit_entry_index, unix_timestamp) {
            Some(e) => r == Err::<(), ErrorCode>(e) && final(voter).same_state(*old(voter)),
            None => {
                let d = final(voter).deposits@[deposit_entry_index as int];
                &&& r is Ok
                &&& final(voter).deposits@.len() == 32
                &&& forall|i: int|
                    0 <= i < 32 && i != deposit_entry_index ==> final(voter).deposits@[i]
                        == old(voter).deposits@[i]
                &&& d.is_unused_default()
                &&& final(voter).last_deposit_slot == old(voter).last_deposit_slot
                &&& final(voter).same_identity(*old(voter))
            },
        },
{
    let entry = match voter.active_deposit_mut(deposit_entry_index) {
        Ok(d) => *d,
        Err(e) => {
            return Err(e);
        },
    };
    proof {
        assert(voter.deposits@ =~= old(voter).deposits@);
    }
    if !(entry.amount_deposited_native == 0) {
        return Err(ErrorCode::VotingTokenNonZero);
    }
    // Deposits that have clawback enabled are guaranteed to live until the end
    // of their locking period.
    if entry.allow_clawback {
        if !(entry.lockup.end_ts < unix_timestamp) {
            return Err(ErrorCode::DepositStillLocked);
        }
    }
    let d = voter.active_deposit_mut(deposit_entry_index).unwrap();
    *d = DepositEntry::default();
    d.is_used = false;
    Ok(())
}

} // verus!
