use vstd::prelude::*;
use crate::governance::TokenOwnerRecord;
use crate::instructions::clawback::{clawback_fits, spec_clawback_error, spec_entry_after_clawback};
use crate::instructions::close_voter::{deposited_upto, lemma_deposited_upto_update, spec_close_voter_error};
use crate::instructions::deposit::{deposit_fits, spec_deposit_error, spec_entry_after_deposit};
use crate::instructions::reset_lockup::{reset_lockup_fits, spec_reset_lockup_error};
use crate::instructions::withdraw::{spec_withdraw_error, withdraw_fits};
use crate::error::ErrorCode;
use crate::pubkey::Pubkey;
use crate::state::deposit_entry::DepositEntry;
use crate::state::lockup::{Lockup, LockupKind, lemma_ceil_div_exact, lemma_whole_periods_total};
use crate::state::registrar::Registrar;
use crate::state::voter::Voter;

verus! {

/// A lockup that starts now locks every token it holds: an entry whose
/// lockup starts at `curr_ts` and lasts `periods` periods, as grants,
/// new deposit entries and reset lockups have, has vested nothing yet,
/// unless it has no lockup or no periods at all.
pub proof fn law_new_lockup_locks_all(d: DepositEntry, periods: u32, curr_ts: int)
    requires
        d.lockup.start_ts == curr_ts,
        d.lockup.end_ts == curr_ts + periods * d.lockup.kind.spec_period_secs(),
    ensures
        d.spec_vested(curr_ts) is Ok,
        d.spec_amount_locked(curr_ts) == if d.lockup.kind == LockupKind::NoLockup || periods == 0 {
            0
        } else {
            d.amount_initially_locked_native as int
        },
{
    let l = d.lockup;
    if l.kind != LockupKind::NoLockup && periods > 0 {
        let ps = l.period_len();
        lemma_whole_periods_total(l, periods as int);
        assert(periods * ps > 0) by (nonlinear_arith)
            requires
                periods > 0,
                ps > 0,
        ;
        assert(l.spec_seconds_left(curr_ts) == periods * ps);
        lemma_ceil_div_exact(periods as int, ps);
        l.lemma_periods_partition(curr_ts);
        assert(l.spec_period_current(curr_ts) == Ok::<int, ErrorCode>(0));
    } else if l.kind != LockupKind::NoLockup {
        assert(periods * l.kind.spec_period_secs() == 0);
    }
}

/// Tokens only unlock as time passes: what an entry has locked never grows
/// between two times and stays between nothing and what was initially
/// locked. So an entry that holds its locked tokens at one time still does
/// later.
pub proof fn law_locked_tokens_only_unlock(
    d: DepositEntry,
    t1: int,
    t2: int,
)
    requires
        t1 <= t2,
        d.spec_vested(t1) is Ok,
        d.spec_vested(t2) is Ok,
    ensures
        0 <= d.spec_amount_locked(t2) <= d.spec_amount_locked(t1)
            <= d.amount_initially_locked_native,
        d.spec_amount_locked(t1) <= d.amount_deposited_native ==> d.spec_amount_locked(t2)
            <= d.amount_deposited_native,
{
    d.lemma_vested_monotonic(t1, t2);
    d.lemma_vested_bounds(t1);
    d.lemma_vested_bounds(t2);
}

/// A deposit locks the new tokens under the entry's running schedule: what
/// is locked grows by exactly the deposited amount while the lockup runs,
/// and nothing is locked by a deposit without lockup or into a lockup that
/// has ended. The deposited tokens grow by the amount in every case.
pub proof fn law_deposit_locks_new_tokens(
    registrar: Registrar,
    voter: Voter,
    deposit_mint: Pubkey,
    deposit_entry_index: u8,
    amount: u64,
    unix_timestamp: i64,
)
    requires
        deposit_fits(registrar, voter, deposit_mint, deposit_entry_index, amount, unix_timestamp),
        spec_deposit_error(registrar, voter, deposit_mint, deposit_entry_index) is None,
    ensures
        ({
            let curr_ts = unix_timestamp + registrar.time_offset;
            let d = voter.deposits@[deposit_entry_index as int];
            let n = spec_entry_after_deposit(d, amount as int, curr_ts);
            &&& n.amount_deposited_native == d.amount_deposited_native + amount
            &&& n.spec_vested(curr_ts) is Ok
            &&& n.spec_amount_locked(curr_ts) == d.spec_amount_locked(curr_ts) + if d.lockup.spec_expired(
                curr_ts,
            ) || d.lockup.kind == LockupKind::NoLockup {
                0
            } else {
                amount as int
            }
        }),
{
    let curr_ts = unix_timestamp + registrar.time_offset;
    let d = voter.deposits@[deposit_entry_index as int];
    let n = spec_entry_after_deposit(d, amount as int, curr_ts);
    d.lockup.lemma_without_past_periods(curr_ts);
    d.lemma_vested_bounds(curr_ts);
    let l = d.lockup;
    let l2 = n.lockup;
    assert(l2 == l.spec_without_past_periods(curr_ts));
    if l.kind == LockupKind::Constant {
        l.lemma_constant_never_progresses(curr_ts);
        assert(l.spec_period_current(curr_ts)->Ok_0 * l.period_len() == 0);
        assert(l2.start_ts == l.start_ts);
    }
    assert(l2.spec_seconds_left(curr_ts) == l.spec_seconds_left(curr_ts));
    assert(l2.spec_expired(curr_ts) == l.spec_expired(curr_ts));
    if !l.spec_expired(curr_ts) && (l.kind == LockupKind::Daily || l.kind == LockupKind::Monthly) {
        assert(l2.spec_period_current(curr_ts) == Ok::<int, ErrorCode>(0));
        assert(n.spec_vested(curr_ts) == Ok::<int, ErrorCode>(0));
    }
}

/// Locked tokens never leave: a withdrawal that succeeds takes at most the
/// unlocked tokens of the entry, leaves what is locked unchanged, and the
/// entry still holds all of its locked tokens afterwards.
pub proof fn law_withdraw_keeps_locked_tokens(
    registrar: Registrar,
    voter: Voter,
    token_owner_record: TokenOwnerRecord,
    destination_mint: Pubkey,
    deposit_entry_index: u8,
    amount: u64,
    current_instruction_index: u16,
    slot: u64,
    unix_timestamp: i64,
)
    requires
        withdraw_fits(
            registrar,
            voter,
            token_owner_record,
            deposit_entry_index,
            current_instruction_index,
            slot,
            unix_timestamp,
        ),
        spec_withdraw_error(
            registrar,
            voter,
            token_owner_record,
            destination_mint,
            deposit_entry_index,
            amount,
            current_instruction_index,
            slot,
            unix_timestamp + registrar.time_offset,
        ) is None,
    ensures
        ({
            let curr_ts = unix_timestamp + registrar.time_offset;
            let d = voter.deposits@[deposit_entry_index as int];
            let n = d.spec_with_deposited(d.amount_deposited_native - amount);
            &&& amount <= d.amount_deposited_native - d.spec_amount_locked(curr_ts)
            &&& n.spec_amount_locked(curr_ts) == d.spec_amount_locked(curr_ts)
            &&& n.spec_amount_locked(curr_ts) <= n.amount_deposited_native
        }),
{
}

/// Clawback takes exactly the locked tokens: what it returns and what the
/// entry keeps add up to what the entry held, and afterwards no token of
/// the entry is locked at any time, nor can it be clawed back again.
pub proof fn law_clawback_takes_locked_tokens(
    registrar: Registrar,
    voter: Voter,
    deposit_entry_index: u8,
    unix_timestamp: i64,
    later_ts: int,
)
    requires
        clawback_fits(registrar, voter, deposit_entry_index, unix_timestamp),
        spec_clawback_error(voter, deposit_entry_index) is None,
    ensures
        ({
            let curr_ts = unix_timestamp + registrar.time_offset;
            let d = voter.deposits@[deposit_entry_index as int];
            let n = spec_entry_after_clawback(d, curr_ts);
            &&& n.amount_deposited_native + d.spec_amount_locked(curr_ts) == d.amount_deposited_native
            &&& n.spec_vested(later_ts) is Ok
            &&& n.spec_amount_locked(later_ts) == 0
            &&& !n.allow_clawback
        }),
{
    let curr_ts = unix_timestamp + registrar.time_offset;
    voter.deposits@[deposit_entry_index as int].lemma_vested_bounds(curr_ts);
}

/// Resetting a lockup never shortens it and locks every deposited token
/// again: any lockup of the same kind that starts now and lasts `periods`
/// periods, as reset_lockup leaves it, has at least as many periods left
/// as the lockup it replaces, and with a lockup kind that locks, all
/// deposited tokens are locked (without lockup, none is).
pub proof fn law_reset_lockup_extends(
    registrar: Registrar,
    voter: Voter,
    deposit_entry_index: u8,
    periods: u32,
    unix_timestamp: i64,
    new_lockup: Lockup,
)
    requires
        reset_lockup_fits(registrar, voter, deposit_entry_index, periods, unix_timestamp),
        spec_reset_lockup_error(
            voter,
            deposit_entry_index,
            periods,
            unix_timestamp + registrar.time_offset,
        ) is None,
        new_lockup.kind == voter.deposits@[deposit_entry_index as int].lockup.kind,
        new_lockup.start_ts == unix_timestamp + registrar.time_offset,
        new_lockup.end_ts == unix_timestamp + registrar.time_offset + periods
            * new_lockup.kind.spec_period_secs(),
    ensures
        ({
            let curr_ts = unix_timestamp + registrar.time_offset;
            let d = voter.deposits@[deposit_entry_index as int];
            let n = DepositEntry {
                amount_initially_locked_native: d.amount_deposited_native,
                lockup: new_lockup,
                ..d
            };
            &&& new_lockup.spec_periods_left(curr_ts) is Ok
            &&& new_lockup.spec_periods_left(curr_ts)->Ok_0 >= d.lockup.spec_periods_left(
                curr_ts,
            )->Ok_0
            &&& n.spec_vested(curr_ts) is Ok
            &&& n.spec_amount_locked(curr_ts) == if new_lockup.kind == LockupKind::NoLockup {
                0
            } else {
                d.amount_deposited_native as int
            }
        }),
{
    let curr_ts = unix_timestamp + registrar.time_offset;
    let d = voter.deposits@[deposit_entry_index as int];
    let n = DepositEntry {
        amount_initially_locked_native: d.amount_deposited_native,
        lockup: new_lockup,
        ..d
    };
    law_new_lockup_locks_all(n, periods, curr_ts);
    let l = new_lockup;
    if l.kind != LockupKind::NoLockup {
        let ps = l.period_len();
        assert(periods * ps > 0) by (nonlinear_arith)
            requires
                periods > 0,
                ps > 0,
        ;
        lemma_ceil_div_exact(periods as int, ps);
    }
}

/// The voter's tokens move with the vault: a successful withdrawal lowers
/// the tokens held by all of the voter's entries by exactly the amount the
/// caller transfers out of the vault.
pub proof fn law_withdraw_moves_exactly_the_amount(
    registrar: Registrar,
    voter: Voter,
    token_owner_record: TokenOwnerRecord,
    destination_mint: Pubkey,
    deposit_entry_index: u8,
    amount: u64,
    current_instruction_index: u16,
    slot: u64,
    unix_timestamp: i64,
)
    requires
        withdraw_fits(
            registrar,
            voter,
            token_owner_record,
            deposit_entry_index,
            current_instruction_index,
            slot,
            unix_timestamp,
        ),
        spec_withdraw_error(
            registrar,
            voter,
            token_owner_record,
            destination_mint,
            deposit_entry_index,
            amount,
            current_instruction_index,
            slot,
            unix_timestamp + registrar.time_offset,
        ) is None,
    ensures
        ({
            let d = voter.deposits@[deposit_entry_index as int];
            let after = voter.deposits@.update(
                deposit_entry_index as int,
                d.spec_with_deposited(d.amount_deposited_native - amount),
            );
            deposited_upto(after, 32) == deposited_upto(voter.deposits@, 32) - amount
        }),
{
    let curr_ts = unix_timestamp + registrar.time_offset;
    let d = voter.deposits@[deposit_entry_index as int];
    d.lemma_vested_bounds(curr_ts);
    lemma_deposited_upto_update(
        voter.deposits@,
        deposit_entry_index as int,
        d.spec_with_deposited(d.amount_deposited_native - amount),
        32,
    );
}

/// A successful deposit raises the tokens held by all of the voter's
/// entries by exactly the amount the caller transfers into the vault.
pub proof fn law_deposit_moves_exactly_the_amount(
    registrar: Registrar,
    voter: Voter,
    deposit_mint: Pubkey,
    deposit_entry_index: u8,
    amount: u64,
    unix_timestamp: i64,
)
    requires
        deposit_fits(registrar, voter, deposit_mint, deposit_entry_index, amount, unix_timestamp),
        spec_deposit_error(registrar, voter, deposit_mint, deposit_entry_index) is None,
    ensures
        ({
            let curr_ts = unix_timestamp + registrar.time_offset;
            let d = voter.deposits@[deposit_entry_index as int];
            let after = voter.deposits@.update(
                deposit_entry_index as int,
                spec_entry_after_deposit(d, amount as int, curr_ts),
            );
            deposited_upto(after, 32) == deposited_upto(voter.deposits@, 32) + amount
        }),
{
    let curr_ts = unix_timestamp + registrar.time_offset;
    let d = voter.deposits@[deposit_entry_index as int];
    lemma_deposited_upto_update(
        voter.deposits@,
        deposit_entry_index as int,
        spec_entry_after_deposit(d, amount as int, curr_ts),
        32,
    );
}

/// A successful clawback lowers the tokens held by all of the voter's
/// entries by exactly the amount it returns for the caller to transfer out
/// of the vault.
pub proof fn law_clawback_moves_exactly_the_amount(
    registrar: Registrar,
    voter: Voter,
    deposit_entry_index: u8,
    unix_timestamp: i64,
)
    requires
        clawback_fits(registrar, voter, deposit_entry_index, unix_timestamp),
        spec_clawback_error(voter, deposit_entry_index) is None,
    ensures
        ({
            let curr_ts = unix_timestamp + registrar.time_offset;
            let d = voter.deposits@[deposit_entry_index as int];
            let after = voter.deposits@.update(
                deposit_entry_index as int,
                spec_entry_after_clawback(d, curr_ts),
            );
            deposited_upto(after, 32) == deposited_upto(voter.deposits@, 32) - d.spec_amount_locked(
                curr_ts,
            )
        }),
{
    let curr_ts = unix_timestamp + registrar.time_offset;
    let d = voter.deposits@[deposit_entry_index as int];
    d.lemma_vested_bounds(curr_ts);
    lemma_deposited_upto_update(
        voter.deposits@,
        deposit_entry_index as int,
        spec_entry_after_clawback(d, curr_ts),
        32,
    );
}

/// Every entry of a voter holds no tokens when the first `n` entries hold
/// none in total.
pub proof fn lemma_deposited_upto_zero(deposits: Seq<DepositEntry>, n: nat)
    requires
        deposited_upto(deposits, n) == 0,
    ensures
        forall|i: int| 0 <= i < n ==> (#[trigger] deposits[i]).amount_deposited_native == 0,
    decreases n,
{
    if n > 0 {
        crate::instructions::close_voter::lemma_deposited_upto_monotonic(
            deposits,
            (n - 1) as nat,
            (n - 1) as nat,
        );
        lemma_deposited_upto_zero(deposits, (n - 1) as nat);
    }
}

/// Only empty voters close: when closing a voter succeeds, none of its
/// deposit entries holds tokens.
pub proof fn law_close_voter_only_when_empty(
    voter: Voter,
    voter_key: Pubkey,
    token_account_owners: Seq<Pubkey>,
)
    requires
        spec_close_voter_error(voter, voter_key, token_account_owners) is None,
    ensures
        forall|i: int| 0 <= i < 32 ==> (#[trigger] voter.deposits@[i]).amount_deposited_native == 0,
{
    lemma_deposited_upto_zero(voter.deposits@, 32);
}

} // verus!
