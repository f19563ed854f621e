use vstd::prelude::*;
use crate::error::{Error, ErrorCode};
use crate::governance::TokenOwnerRecord;
use crate::pubkey::Pubkey;
use crate::state::registrar::{Registrar, first_index_of};
use crate::state::voter::Voter;

verus! {

/// The error a withdrawal reports, if any.
pub open spec fn spec_withdraw_error(
    registrar: Registrar,
    voter: Voter,
    token_owner_record: TokenOwnerRecord,
    destination_mint: Pubkey,
    deposit_entry_index: u8,
    amount: u64,
    current_instruction_index: u16,
    slot: u64,
    curr_ts: int,
) -> Option<Error> {
    let d = voter.deposits@[deposit_entry_index as int];
    if current_instruction_index != 0 {
        Some(Error::ErrorCode(ErrorCode::ShouldBeTheFirstIxInATx))
    } else if !token_owner_record.governing_token_owner.key_eq(voter.voter_authority) {
        Some(Error::ErrorCode(ErrorCode::InvalidTokenOwnerRecord))
    } else if token_owner_record.spec_can_withdraw() is Err {
        Some(Error::Governance(token_owner_record.spec_can_withdraw()->Err_0))
    } else if !(voter.last_deposit_slot < slot) {
        Some(Error::ErrorCode(ErrorCode::InvalidToDepositAndWithdrawInOneSlot))
    } else if deposit_entry_index >= 32 {
        Some(Error::ErrorCode(ErrorCode::OutOfBoundsDepositEntryIndex))
    } else if !d.is_used {
        Some(Error::ErrorCode(ErrorCode::UnusedDepositEntryIndex))
    } else if d.amount_deposited_native - d.spec_amount_locked(curr_ts) < amount {
        Some(Error::ErrorCode(ErrorCode::InsufficientVestedTokens))
    } else if first_index_of(registrar.voting_mint_keys(), destination_mint) is None {
        Some(Error::ErrorCode(ErrorCode::VotingMintNotFound))
    } else if first_index_of(registrar.voting_mint_keys(), destination_mint)->Some_0
        != d.voting_mint_config_idx {
        Some(Error::ErrorCode(ErrorCode::InvalidMint))
    } else {
        None
    }
}

/// Once the governance and slot checks pass, the withdrawable amount can be
/// computed: the clock is in range, and the entry's vesting is defined and
/// never leaves fewer tokens than are locked.
pub open spec fn withdraw_fits(
    registrar: Registrar,
    voter: Voter,
    token_owner_record: TokenOwnerRecord,
    deposit_entry_index: u8,
    current_instruction_index: u16,
    slot: u64,
    unix_timestamp: i64,
) -> bool {
    let curr_ts = unix_timestamp + registrar.time_offset;
    let d = voter.deposits@[deposit_entry_index as int];
    (current_instruction_index == 0 && token_owner_record.governing_token_owner.key_eq(
        voter.voter_authority,
    ) && token_owner_record.spec_can_withdraw() is Ok && voter.last_deposit_slot < slot) ==> {
        &&& i64::MIN <= curr_ts <= i64::MAX
        &&& (deposit_entry_index < 32 && d.is_used) ==> {
            &&& d.vested_fits(curr_ts)
            &&& d.spec_vested(curr_ts) is Ok
            &&& d.spec_amount_locked(curr_ts) <= d.amount_deposited_native
        }
    }
}

/// Withdraws tokens from a deposit entry, if they are unlocked according
/// to the deposit's vesting schedule.
///
/// The withdrawal must be the first instruction of its transaction, the
/// governance program must allow the voter to withdraw, and no deposit may
/// have happened in the same slot. On success the caller transfers `amount`
/// native tokens from the vault to the destination; on error nothing changes.
pub fn withdraw(
    registrar: &Registrar,
    voter: &mut Voter,
    token_owner_record: TokenOwnerRecord,
    destination_mint: Pubkey,
    deposit_entry_index: u8,
    amount: u64,
    current_instruction_index: u16,
    slot: u64,
    unix_timestamp: i64,
) -> (r: Result<(), Error>)
    requires
        withdraw_fits(
            *registrar,
            *old(voter),
            token_owner_record,
            deposit_entry_index,
            current_instruction_index,
            slot,
            unix_timestamp,
        ),
    ensures
        match spec_withdraw_error(
            *registrar,
            *old(voter),
            token_owner_record,
            destination_mint,
            deposit_entry_index,
            amount,
            current_instruction_index,
            slot,
            unix_timestamp + registrar.time_offset,
        ) {
            Some(e) => r == Err::<(), Error>(e) && final(voter).same_state(*old(voter)),
            None => r is Ok && final(voter).deposits@ == old(voter).deposits@.update(
                deposit_entry_index as int,
                old(voter).deposits@[deposit_entry_index as int].spec_with_deposited(
                    old(voter).deposits@[deposit_entry_index as int].amount_deposited_native
                        - amount,
                ),
            ) && final(voter).last_deposit_slot == old(voter).last_deposit_slot
                && final(voter).same_identity(*old(voter)),
        },
{
    if current_instruction_index != 0 {
        return Err(Error::ErrorCode(ErrorCode::ShouldBeTheFirstIxInATx));
    }
    let token_owner_record = match voter.load_token_owner_record(token_owner_record) {
        Ok(record) => record,
        Err(e) => {
            return Err(Error::ErrorCode(e));
        },
    };
    match token_owner_record.assert_can_withdraw_governing_tokens() {
        Ok(()) => {},
        Err(e) => {
            return Err(Error::Governance(e));
        },
    }
    if !(voter.last_deposit_slot < slot) {
        return Err(Error::ErrorCode(ErrorCode::InvalidToDepositAndWithdrawInOneSlot));
    }
    let curr_ts = registrar.clock_unix_timestamp(unix_timestamp);
    let deposit_entry = match voter.active_deposit_mut(deposit_entry_index) {
        Ok(d) => *d,
        Err(e) => {
            return Err(Error::ErrorCode(e));
        },
    };
    proof {
        assert(voter.deposits@ =~= old(voter).deposits@);
        deposit_entry.lemma_vested_bounds(curr_ts as int);
    }
    if !(deposit_entry.amount_withdrawable(curr_ts) >= amount) {
        return Err(Error::ErrorCode(ErrorCode::InsufficientVestedTokens));
    }
    let mint_idx = match registrar.voting_mint_config_index(destination_mint) {
        Ok(i) => i,
        Err(e) => {
            return Err(Error::ErrorCode(e));
        },
    };
    if !(mint_idx == deposit_entry.voting_mint_config_idx as usize) {
        return Err(Error::ErrorCode(ErrorCode::InvalidMint));
    }
    let d = voter.active_deposit_mut(deposit_entry_index).unwrap();
    d.amount_deposited_native = d.amount_deposited_native - amount;
    Ok(())
}

} // verus!
