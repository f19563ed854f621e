use vstd::prelude::*;
use crate::governance::TokenOwnerRecord;
use crate::governance_registry::account::{DepositEntry, Lockup, LockupKind, Registrar, Voter, trunc_div};
use crate::governance_registry::error::ErrorCode;
use crate::governance_registry::instructions::{
    as_unsigned,
    clawback_fits,
    deposited_upto,
    lemma_deposited_upto_monotonic,
    lemma_deposited_upto_update,
    spec_clawback_error,
    spec_reset_lockup_error,
    spec_total_supply_upto,
    spec_update_deposit,
    spec_withdraw_error,
    update_deposit_fits,
    withdraw_fits,
};
use crate::pubkey::Pubkey;
use crate::state::registrar::first_index_of;

verus! {

/// A deposit restarts the vesting of a running lockup: the deposited tokens
/// grow by the amount, and while a vesting lockup runs, right after the
/// deposit nothing of the entry counts as vested, so what is locked is what
/// was locked before plus the new tokens.
pub proof fn law_update_deposit_locks_new_tokens(
    registrar: Registrar,
    voter: Voter,
    deposit_mint: Pubkey,
    id: u8,
    amount: u64,
    unix_timestamp: i64,
)
    requires
        update_deposit_fits(registrar, voter, deposit_mint, id, amount, unix_timestamp),
        spec_update_deposit(
            registrar,
            voter,
            deposit_mint,
            id,
            amount,
            unix_timestamp + registrar.time_offset,
        ) is Ok,
    ensures
        ({
            let curr_ts = unix_timestamp + registrar.time_offset;
            let d = voter.deposits@[id as int];
            let n = spec_update_deposit(registrar, voter, deposit_mint, id, amount, curr_ts)->Ok_0;
            &&& n.amount_deposited_native == d.amount_deposited_native + amount
            &&& (d.lockup.start_ts <= curr_ts < d.lockup.end_ts && d.lockup.kind
                != LockupKind::NoLockup) ==> {
                &&& n.spec_vested(curr_ts) == Ok::<int, ErrorCode>(0)
                &&& n.amount_initially_locked_native == d.amount_initially_locked_native
                    - d.spec_vested(curr_ts)->Ok_0 + amount
            }
        }),
{
    let curr_ts = unix_timestamp + registrar.time_offset;
    let d = voter.deposits@[id as int];
    let n = spec_update_deposit(registrar, voter, deposit_mint, id, amount, curr_ts)->Ok_0;
    if d.lockup.start_ts <= curr_ts < d.lockup.end_ts && d.lockup.kind != LockupKind::NoLockup {
        let secs = d.lockup.kind_secs();
        let x = curr_ts - d.lockup.start_ts;
        if d.lockup.kind != LockupKind::Cliff {
            assert(x <= i64::MAX);
            let c = x / secs;
            vstd::arithmetic::div_mod::lemma_fundamental_div_mod(x, secs);
            assert(d.lockup.spec_period_current(curr_ts, secs) == Ok::<int, ErrorCode>(c));
            assert(n.lockup.start_ts == d.lockup.start_ts + c * secs);
            assert(curr_ts - n.lockup.start_ts == x % secs);
            vstd::arithmetic::div_mod::lemma_basic_div(x % secs, secs);
            assert(trunc_div(x % secs, secs) == 0);
            assert(n.lockup.spec_period_current(curr_ts, secs) == Ok::<int, ErrorCode>(0));
            let l2 = n.lockup.end_ts - n.lockup.start_ts;
            let l1 = d.lockup.end_ts - d.lockup.start_ts;
            assert(l2 == l1 - c * secs);
            vstd::arithmetic::div_mod::lemma_fundamental_div_mod(l1, secs);
            assert(l1 == secs * (l1 / secs));
            assert(l2 == secs * (l1 / secs - c)) by (nonlinear_arith)
                requires
                    l2 == l1 - c * secs,
                    l1 == secs * (l1 / secs),
            ;
            vstd::arithmetic::div_mod::lemma_mod_multiples_basic(l1 / secs - c, secs);
            assert((secs * (l1 / secs - c)) % secs == 0) by (nonlinear_arith)
                requires
                    ((l1 / secs - c) * secs) % secs == 0,
            ;
            assert(l2 > 0);
            assert(l2 / secs >= 1) by (nonlinear_arith)
                requires
                    l2 == secs * (l1 / secs - c),
                    l2 > 0,
                    secs > 0,
            {
                vstd::arithmetic::div_mod::lemma_div_by_multiple(l1 / secs - c, secs);
                assert((l1 / secs - c) * secs == secs * (l1 / secs - c));
                assert(l1 / secs - c > 0);
            }
        }
    }
}

/// Tokens only unlock as time passes: with a lockup, what an entry has
/// locked (initially locked minus vested) never grows between two times
/// and stays between nothing and what was initially locked.
pub proof fn law_locked_tokens_only_unlock(d: DepositEntry, t1: int, t2: int)
    requires
        t1 <= t2,
        d.lockup.kind != LockupKind::NoLockup,
        d.spec_vested(t1) is Ok,
        d.spec_vested(t2) is Ok,
    ensures
        ({
            let locked1 = d.amount_initially_locked_native - d.spec_vested(t1)->Ok_0;
            let locked2 = d.amount_initially_locked_native - d.spec_vested(t2)->Ok_0;
            0 <= locked2 <= locked1 <= d.amount_initially_locked_native
        }),
{
    d.lemma_vested_monotonic(t1, t2);
}

/// Locked tokens never leave: a withdrawal that succeeds takes at most the
/// tokens that are not locked, so the entry still holds at least what was
/// locked.
pub proof fn law_withdraw_keeps_locked_tokens(
    registrar: Registrar,
    voter: Voter,
    token_owner_record: TokenOwnerRecord,
    withdraw_mint: Pubkey,
    deposit_id: u8,
    amount: u64,
    slot: u64,
    unix_timestamp: i64,
)
    requires
        withdraw_fits(registrar, voter, token_owner_record, deposit_id, slot, unix_timestamp),
        spec_withdraw_error(
            registrar,
            voter,
            token_owner_record,
            withdraw_mint,
            deposit_id,
            amount,
            slot,
            unix_timestamp + registrar.time_offset,
        ) is None,
    ensures
        ({
            let curr_ts = unix_timestamp + registrar.time_offset;
            let d = voter.deposits@[deposit_id as int];
            let locked = d.amount_initially_locked_native - d.spec_vested(curr_ts)->Ok_0;
            &&& amount <= d.amount_deposited_native - locked
            &&& d.amount_deposited_native - amount >= locked
        }),
{
}

/// Clawback splits the entry: what it returns and what the entry keeps add
/// up to what the entry held, the entry keeps exactly its vested tokens,
/// and nothing of it stays locked.
pub proof fn law_clawback_splits_deposit(
    registrar: Registrar,
    voter: Voter,
    deposit_id: u8,
    unix_timestamp: i64,
)
    requires
        clawback_fits(registrar, voter, deposit_id, unix_timestamp),
        spec_clawback_error(voter, deposit_id) is None,
    ensures
        ({
            let curr_ts = unix_timestamp + registrar.time_offset;
            let d = voter.deposits@[deposit_id as int];
            let vested = d.spec_vested(curr_ts)->Ok_0;
            let returned = d.amount_deposited_native - vested;
            &&& 0 <= returned <= d.amount_deposited_native
            &&& returned + vested == d.amount_deposited_native
        }),
{
    let curr_ts = unix_timestamp + registrar.time_offset;
    let d = voter.deposits@[deposit_id as int];
    assert(d.spec_vested(curr_ts) is Ok);
    assert(d.spec_vested(curr_ts)->Ok_0 >= 0) by {
        if d.lockup.start_ts <= curr_ts < d.lockup.end_ts && (d.lockup.kind == LockupKind::Daily
            || d.lockup.kind == LockupKind::Monthly) {
            let secs = d.lockup.kind_secs();
            let c = d.lockup.spec_period_current(curr_ts, secs)->Ok_0;
            let t = d.lockup.spec_periods_total(secs)->Ok_0;
            if c < t {
                assert(c >= 0);
                assert(d.amount_initially_locked_native * c >= 0) by (nonlinear_arith)
                    requires
                        c >= 0,
                ;
                assert(t > 0);
                vstd::arithmetic::div_mod::lemma_div_pos_is_pos(
                    d.amount_initially_locked_native * c,
                    t,
                );
            }
        }
    }
}

/// Resetting a lockup to a non-negative number of periods never shortens
/// it: the new lockup has `periods` periods left (none without lockup),
/// at least as many as the lockup it replaces.
pub proof fn law_reset_lockup_extends(
    registrar: Registrar,
    voter: Voter,
    deposit_id: u8,
    periods: i64,
    unix_timestamp: i64,
)
    requires
        periods >= 0,
        deposit_id < 32,
        i64::MIN <= unix_timestamp + registrar.time_offset <= i64::MAX,
        voter.deposits@[deposit_id as int].lockup.kind_totals_fit(),
        spec_reset_lockup_error(
            voter,
            deposit_id,
            periods,
            unix_timestamp + registrar.time_offset,
        ) is None,
        i64::MIN <= unix_timestamp + registrar.time_offset + periods
            * voter.deposits@[deposit_id as int].lockup.kind.spec_period_secs() <= i64::MAX,
    ensures
        ({
            let curr_ts = unix_timestamp + registrar.time_offset;
            let d = voter.deposits@[deposit_id as int];
            let n = Lockup {
                start_ts: curr_ts as i64,
                end_ts: (curr_ts + periods * d.lockup.kind.spec_period_secs()) as i64,
                ..d.lockup
            };
            let left = if d.lockup.kind == LockupKind::NoLockup {
                0
            } else {
                periods as int
            };
            &&& n.spec_kind_periods_left(curr_ts) == Ok::<int, ErrorCode>(left)
            &&& left >= d.lockup.spec_kind_periods_left(curr_ts)->Ok_0
        }),
{
    let curr_ts = unix_timestamp + registrar.time_offset;
    let d = voter.deposits@[deposit_id as int];
    if d.lockup.kind != LockupKind::NoLockup {
        let secs = d.lockup.kind_secs();
        let n = Lockup {
            start_ts: curr_ts as i64,
            end_ts: (curr_ts + periods * d.lockup.kind.spec_period_secs()) as i64,
            ..d.lockup
        };
        assert(n.end_ts - n.start_ts == periods * secs);
        vstd::arithmetic::div_mod::lemma_mod_multiples_basic(periods as int, secs);
        vstd::arithmetic::div_mod::lemma_div_by_multiple(periods as int, secs);
        assert(n.spec_periods_total(secs) == Ok::<int, ErrorCode>(periods as int));
        assert(trunc_div(0, secs) == 0);
        assert(n.spec_period_current(curr_ts, secs) == Ok::<int, ErrorCode>(0));
        assert(as_unsigned(periods) == periods);
    }
}

/// The voter's tokens move with the vault: a successful withdrawal lowers
/// the tokens held by all of the voter's entries by exactly the amount the
/// caller transfers out of the vault.
pub proof fn law_withdraw_moves_exactly_the_amount(
    registrar: Registrar,
    voter: Voter,
    token_owner_record: TokenOwnerRecord,
    withdraw_mint: Pubkey,
    deposit_id: u8,
    amount: u64,
    slot: u64,
    unix_timestamp: i64,
)
    requires
        withdraw_fits(registrar, voter, token_owner_record, deposit_id, slot, unix_timestamp),
        spec_withdraw_error(
            registrar,
            voter,
            token_owner_record,
            withdraw_mint,
            deposit_id,
            amount,
            slot,
            unix_timestamp + registrar.time_offset,
        ) is None,
    ensures
        ({
            let d = voter.deposits@[deposit_id as int];
            let after = voter.deposits@.update(
                deposit_id as int,
                DepositEntry {
                    amount_deposited_native: (d.amount_deposited_native - amount) as u64,
                    ..d
                },
            );
            deposited_upto(after, 32) == deposited_upto(voter.deposits@, 32) - amount
        }),
{
    let d = voter.deposits@[deposit_id as int];
    lemma_deposited_upto_update(
        voter.deposits@,
        deposit_id as int,
        DepositEntry { amount_deposited_native: (d.amount_deposited_native - amount) as u64, ..d },
        32,
    );
}

/// A successful deposit raises the tokens held by all of the voter's
/// entries by exactly the amount the caller transfers into the vault.
pub proof fn law_update_deposit_moves_exactly_the_amount(
    registrar: Registrar,
    voter: Voter,
    deposit_mint: Pubkey,
    id: u8,
    amount: u64,
    unix_timestamp: i64,
)
    requires
        update_deposit_fits(registrar, voter, deposit_mint, id, amount, unix_timestamp),
        spec_update_deposit(
            registrar,
            voter,
            deposit_mint,
            id,
            amount,
            unix_timestamp + registrar.time_offset,
        ) is Ok,
    ensures
        ({
            let curr_ts = unix_timestamp + registrar.time_offset;
            let n = spec_update_deposit(registrar, voter, deposit_mint, id, amount, curr_ts)->Ok_0;
            deposited_upto(voter.deposits@.update(id as int, n), 32) == deposited_upto(
                voter.deposits@,
                32,
            ) + amount
        }),
{
    let curr_ts = unix_timestamp + registrar.time_offset;
    let n = spec_update_deposit(registrar, voter, deposit_mint, id, amount, curr_ts)->Ok_0;
    lemma_deposited_upto_update(voter.deposits@, id as int, n, 32);
}

/// A successful clawback lowers the tokens held by all of the voter's
/// entries by exactly the amount it returns for the caller to transfer out
/// of the vault.
pub proof fn law_clawback_moves_exactly_the_amount(
    registrar: Registrar,
    voter: Voter,
    deposit_id: u8,
    unix_timestamp: i64,
)
    requires
        clawback_fits(registrar, voter, deposit_id, unix_timestamp),
        spec_clawback_error(voter, deposit_id) is None,
    ensures
        ({
            let curr_ts = unix_timestamp + registrar.time_offset;
            let d = voter.deposits@[deposit_id as int];
            let vested = d.spec_vested(curr_ts)->Ok_0;
            let after = voter.deposits@.update(
                deposit_id as int,
                DepositEntry {
                    amount_deposited_native: vested as u64,
                    amount_initially_locked_native: 0,
                    lockup: Lockup { kind: LockupKind::NoLockup, ..d.lockup },
                    ..d
                },
            );
            deposited_upto(after, 32) == deposited_upto(voter.deposits@, 32) - (
            d.amount_deposited_native - vested)
        }),
{
    let curr_ts = unix_timestamp + registrar.time_offset;
    let d = voter.deposits@[deposit_id as int];
    let vested = d.spec_vested(curr_ts)->Ok_0;
    law_clawback_splits_deposit(registrar, voter, deposit_id, unix_timestamp);
    lemma_deposited_upto_update(
        voter.deposits@,
        deposit_id as int,
        DepositEntry {
            amount_deposited_native: vested as u64,
            amount_initially_locked_native: 0,
            lockup: Lockup { kind: LockupKind::NoLockup, ..d.lockup },
            ..d
        },
        32,
    );
}

/// Every entry holds no tokens when the first `n` entries hold none in
/// total.
pub proof fn lemma_deposited_upto_zero(deposits: Seq<DepositEntry>, n: nat)
    requires
        deposited_upto(deposits, n) == 0,
    ensures
        forall|i: int| 0 <= i < n ==> (#[trigger] deposits[i]).amount_deposited_native == 0,
    decreases n,
{
    if n > 0 {
        lemma_deposited_upto_monotonic(deposits, (n - 1) as nat, (n - 1) as nat);
        lemma_deposited_upto_zero(deposits, (n - 1) as nat);
    }
}

/// Only empty voters close: closing a voter succeeds exactly when none of
/// its deposit entries holds tokens.
pub proof fn law_close_voter_only_when_empty(voter: Voter)
    ensures
        deposited_upto(voter.deposits@, 32) == 0 <==> forall|i: int|
            0 <= i < 32 ==> (#[trigger] voter.deposits@[i]).amount_deposited_native == 0,
{
    if deposited_upto(voter.deposits@, 32) == 0 {
        lemma_deposited_upto_zero(voter.deposits@, 32);
    }
    if forall|i: int| 0 <= i < 32 ==> (#[trigger] voter.deposits@[i]).amount_deposited_native == 0 {
        lemma_all_empty_deposit_nothing(voter.deposits@, 32);
    }
}

/// Entries that all hold no tokens hold none in total.
pub proof fn lemma_all_empty_deposit_nothing(deposits: Seq<DepositEntry>, n: nat)
    requires
        n <= deposits.len(),
        forall|i: int| 0 <= i < n ==> (#[trigger] deposits[i]).amount_deposited_native == 0,
    ensures
        deposited_upto(deposits, n) == 0,
    decreases n,
{
    if n > 0 {
        assert(deposits[n - 1].amount_deposited_native == 0);
        lemma_all_empty_deposit_nothing(deposits, (n - 1) as nat);
    }
}

/// The supply sum of the first `n` mints reads no mint at or beyond `n`.
pub proof fn lemma_total_supply_upto_prefix(
    registrar: Registrar,
    mints: Seq<(Pubkey, u64)>,
    other: Seq<(Pubkey, u64)>,
    n: nat,
)
    requires
        n <= mints.len(),
        n <= other.len(),
        forall|k: int| 0 <= k < n ==> mints[k] == other[k],
    ensures
        spec_total_supply_upto(registrar, mints, n) == spec_total_supply_upto(registrar, other, n),
    decreases n,
{
    if n > 0 {
        lemma_total_supply_upto_prefix(registrar, mints, other, (n - 1) as nat);
        assert(mints[n - 1] == other[n - 1]);
    }
}

/// The maximum vote weight counts every mint's supply, whichever exchange
/// rate it has: one more mint adds its supply times the conversion factor
/// of the first exchange rate for it, a mint without exchange rate makes
/// the sum fail, and an earlier failure stays. One mint alone counts its
/// converted supply.
pub proof fn law_max_vote_weight_adds_each_supply(
    registrar: Registrar,
    mints: Seq<(Pubkey, u64)>,
    mint: Pubkey,
    supply: u64,
)
    ensures
        ({
            let all = mints.push((mint, supply));
            match first_index_of(registrar.rate_mints(), mint) {
                None => spec_total_supply_upto(registrar, all, all.len()) == match spec_total_supply_upto(
                    registrar,
                    mints,
                    mints.len(),
                ) {
                    Err(e) => Err::<int, ErrorCode>(e),
                    Ok(_) => Err::<int, ErrorCode>(ErrorCode::ExchangeRateEntryNotFound),
                },
                Some(i) => spec_total_supply_upto(registrar, all, all.len()) == match spec_total_supply_upto(
                    registrar,
                    mints,
                    mints.len(),
                ) {
                    Err(e) => Err::<int, ErrorCode>(e),
                    Ok(s) => Ok::<int, ErrorCode>(
                        s + supply * registrar.rates@[i].conversion_factor,
                    ),
                },
            }
        }),
        first_index_of(registrar.rate_mints(), mint) matches Some(i) ==> spec_total_supply_upto(
            registrar,
            seq![(mint, supply)],
            1,
        ) == Ok::<int, ErrorCode>(supply * registrar.rates@[i].conversion_factor),
{
    let all = mints.push((mint, supply));
    lemma_total_supply_upto_prefix(registrar, mints, all, mints.len());
    assert(all[mints.len() as int] == (mint, supply));
    assert(all.len() == mints.len() + 1);
    assert(spec_total_supply_upto(registrar, all, all.len()) == match spec_total_supply_upto(
        registrar,
        all,
        mints.len(),
    ) {
        Err(e) => Err(e),
        Ok(s) => match first_index_of(registrar.rate_mints(), mint) {
            None => Err(ErrorCode::ExchangeRateEntryNotFound),
            Some(i) => Ok(s + supply * registrar.rates@[i].conversion_factor),
        },
    });
    let one = seq![(mint, supply)];
    assert(one[0] == (mint, supply));
    assert(spec_total_supply_upto(registrar, one, 0) == Ok::<int, ErrorCode>(0));
}


} // verus!
