use vstd::prelude::*;
use crate::error::ErrorCode;
use crate::pubkey::Pubkey;
use crate::state::deposit_entry::{DepositEntry, zero_entry_padding};
use crate::state::lockup::{Lockup, LockupKind, zero_padding};
use crate::state::registrar::{Registrar, first_index_of};
use crate::state::voter::Voter;

verus! {

/// The error creating a deposit entry reports, if any.
pub open spec fn spec_create_deposit_entry_error(
    registrar: Registrar,
    voter: Voter,
    deposit_mint: Pubkey,
    deposit_entry_index: u8,
) -> Option<ErrorCode> {
    if first_index_of(registrar.voting_mint_keys(), deposit_mint) is None {
        Some(ErrorCode::VotingMintNotFound)
    } else if deposit_entry_index >= 32 {
        Some(ErrorCode::OutOfBoundsDepositEntryIndex)
    } else if voter.deposits@[deposit_entry_index as int].is_used {
        Some(ErrorCode::UnusedDepositEntryIndex)
    } else {
        None
    }
}

/// The lockup's start: the given timestamp, or else the registrar's clock.
pub open spec fn spec_lockup_start(registrar: Registrar, start_ts: Option<u64>, unix_timestamp: i64) -> int {
    match start_ts {
        Some(v) => v as int,
        None => unix_timestamp + registrar.time_offset,
    }
}

/// The start is a timestamp and the lockup's end is one too.
pub open spec fn create_deposit_entry_fits(
    registrar: Registrar,
    voter: Voter,
    deposit_mint: Pubkey,
    deposit_entry_index: u8,
    kind: LockupKind,
    start_ts: Option<u64>,
    periods: u32,
    unix_timestamp: i64,
) -> bool {
    spec_create_deposit_entry_error(registrar, voter, deposit_mint, deposit_entry_index) is None ==> {
        let start = spec_lockup_start(registrar, start_ts, unix_timestamp);
        &&& i64::MIN <= start <= i64::MAX
        &&& start + periods * kind.spec_period_secs() <= i64::MAX
    }
}

/// Creates a new deposit entry.
///
/// Initializes an unused deposit entry for the voting mint of `deposit_mint`
/// with the requested lockup: it starts at `start_ts`, or at the registrar's
/// clock if none is given, and lasts `periods` periods of its kind. On error
/// nothing changes.
pub fn create_deposit_entry(
    registrar: &Registrar,
    voter: &mut Voter,
    deposit_mint: Pubkey,
    deposit_entry_index: u8,
    kind: LockupKind,
    start_ts: Option<u64>,
    periods: u32,
    allow_clawback: bool,
    unix_timestamp: i64,
) -> (r: Result<(), ErrorCode>)
    requires
        create_deposit_entry_fits(
            *registrar,
            *old(voter),
            deposit_mint,
            deposit_entry_index,
            kind,
            start_ts,
            periods,
            unix_timestamp,
        ),
    ensures
        match spec_create_deposit_entry_error(
            *registrar,
            *old(voter),
            deposit_mint,
            deposit_entry_index,
        ) {
            Some(e) => r == Err::<(), ErrorCode>(e) && final(voter).same_state(*old(voter)),
            None => {
                let start = spec_lockup_start(*registrar, start_ts, unix_timestamp);
                let n = final(voter).deposits@[deposit_entry_index as int];
                &&& r is Ok
                &&& final(voter).deposits@.len() == 32
                &&& forall|i: int|
                    0 <= i < 32 && i != deposit_entry_index ==> final(voter).deposits@[i]
                        == old(voter).deposits@[i]
                &&& n.is_used
                &&& n.voting_mint_config_idx == first_index_of(
                    registrar.voting_mint_keys(),
                    deposit_mint,
                )->Some_0
                &&& n.amount_deposited_native == 0
                &&& n.amount_initially_locked_native == 0
                &&& n.allow_clawback == allow_clawback
                &&& n.lockup.kind == kind
                &&& n.lockup.start_ts == start
                &&& n.lockup.end_ts == start + periods * kind.spec_period_secs()
                &&& n.lockup.padding == zero_padding()
                &&& n.padding == zero_entry_padding()
                &&& final(voter).last_deposit_slot == old(voter).last_deposit_slot
                &&& final(voter).same_identity(*old(voter))
            },
        },
{
    // Get the voting mint associated with this deposit.
    let mint_idx = registrar.voting_mint_config_index(deposit_mint)?;

    // Get and set up the deposit entry.
    if !(deposit_entry_index < 32) {
        return Err(ErrorCode::OutOfBoundsDepositEntryIndex);
    }
    let idx = deposit_entry_index as usize;
    if voter.deposits[idx].is_used {
        return Err(ErrorCode::UnusedDepositEntryIndex);
    }

    let start_ts = match start_ts {
        Some(v) => v as i64,
        None => registrar.clock_unix_timestamp(unix_timestamp),
    };

    let mut d_entry = DepositEntry::default();
    d_entry.is_used = true;
    d_entry.voting_mint_config_idx = mint_idx as u8;
    d_entry.amount_deposited_native = 0;
    d_entry.amount_initially_locked_native = 0;
    d_entry.allow_clawback = allow_clawback;
    d_entry.lockup = Lockup::new_from_periods(kind, start_ts, periods)?;
    voter.deposits[idx] = d_entry;

    Ok(())
}

} // verus!
