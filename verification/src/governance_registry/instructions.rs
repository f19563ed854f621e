use vstd::prelude::*;
use crate::governance_registry::access_control::{rate_is_empty, spec_rate_is_empty};
use crate::governance_registry::account::{
    DepositEntry,
    ExchangeRateEntry,
    FIXED_VOTE_WEIGHT_FACTOR,
    LOCKING_VOTE_WEIGHT_FACTOR,
    Lockup,
    LockupKind,
    Registrar,
    SECS_PER_MONTH,
    Voter,
    lemma_fresh_lockup,
    lemma_period_shift,
    weight_fits_upto,
};
use crate::governance::TokenOwnerRecord;
use crate::governance_registry::error::{Error, ErrorCode};
use crate::instructions::set_time_offset::{base58_pubkey, pubkey_from_str};
use crate::math::pow10;
use crate::pubkey::Pubkey;
use crate::state::registrar::first_index_of;
use crate::state::voter_weight_record::{VoterWeightAccountType, VoterWeightRecord};

verus! {

/// Sets up a new voting registrar for a governance realm. There can only
/// be a single registrar per governance realm.
pub fn create_registrar(
    registrar: &mut Registrar,
    governance_program_id: Pubkey,
    realm: Pubkey,
    realm_community_mint: Pubkey,
    registrar_authority: Pubkey,
    clawback_authority: Pubkey,
    vote_weight_decimals: u8,
    registrar_bump: u8,
) -> (r: Result<(), ErrorCode>)
    ensures
        r is Ok,
        *final(registrar) == (Registrar {
            bump: registrar_bump,
            governance_program_id,
            realm,
            realm_community_mint,
            authority: registrar_authority,
            clawback_authority,
            common_decimals: vote_weight_decimals,
            time_offset: 0,
            ..*old(registrar)
        }),
{
    registrar.bump = registrar_bump;
    registrar.governance_program_id = governance_program_id;
    registrar.realm = realm;
    registrar.realm_community_mint = realm_community_mint;
    registrar.authority = registrar_authority;
    registrar.clawback_authority = clawback_authority;
    registrar.common_decimals = vote_weight_decimals;
    registrar.time_offset = 0;
    Ok(())
}

/// The error creating an exchange rate reports, if any.
pub open spec fn spec_create_exchange_rate_error(
    registrar: Registrar,
    idx: u16,
    rate: u64,
    decimals: u8,
) -> Option<ErrorCode> {
    if spec_rate_is_empty(registrar, idx) is Err {
        Some(spec_rate_is_empty(registrar, idx)->Err_0)
    } else if rate == 0 {
        Some(ErrorCode::InvalidRate)
    } else if registrar.common_decimals < decimals {
        Some(ErrorCode::InvalidDecimals)
    } else {
        None
    }
}

/// Creates a new exchange rate for a given mint in the empty slot `idx`.
/// This allows a voter to deposit the mint in exchange for vote tokens.
/// On error nothing changes.
pub fn create_exchange_rate(
    registrar: &mut Registrar,
    idx: u16,
    mint: Pubkey,
    rate: u64,
    decimals: u8,
) -> (r: Result<(), ErrorCode>)
    requires
        spec_create_exchange_rate_error(*old(registrar), idx, rate, decimals) is None ==> old(
            registrar,
        ).new_rate_fits(rate, decimals),
    ensures
        match spec_create_exchange_rate_error(*old(registrar), idx, rate, decimals) {
            Some(e) => r == Err::<(), ErrorCode>(e) && *final(registrar) == *old(registrar),
            None => r is Ok && final(registrar).rates@ == old(registrar).rates@.update(
                idx as int,
                ExchangeRateEntry {
                    mint,
                    rate,
                    decimals,
                    conversion_factor: (rate * pow10(
                        (old(registrar).common_decimals - decimals) as nat,
                    )) as u64,
                },
            ) && *final(registrar) == (Registrar {
                rates: final(registrar).rates,
                ..*old(registrar)
            }),
        },
{
    rate_is_empty(registrar, idx)?;
    if !(rate > 0) {
        return Err(ErrorCode::InvalidRate);
    }
    let entry = registrar.new_rate(mint, rate, decimals)?;
    registrar.rates[idx as usize] = entry;
    Ok(())
}

/// Sets up a new voter and its voter weight record for `voter_authority`;
/// the voter account comes freshly allocated, with no deposit entry in use.
///
/// Creating voters from another program is forbidden: the instruction that
/// runs must belong to this program. On error nothing changes.
pub fn create_voter(
    program_id: Pubkey,
    current_instruction_program_id: Pubkey,
    registrar_key: Pubkey,
    registrar: &Registrar,
    voter: &mut Voter,
    voter_weight_record: &mut VoterWeightRecord,
    voter_authority: Pubkey,
    voter_bump: u8,
    voter_weight_record_bump: u8,
) -> (r: Result<(), ErrorCode>)
    requires
        old(voter).all_deposits_unused(),
    ensures
        !current_instruction_program_id.key_eq(program_id) ==> r == Err::<(), ErrorCode>(
            ErrorCode::ForbiddenCpi,
        ) && *final(voter) == *old(voter) && *final(voter_weight_record) == *old(
            voter_weight_record,
        ),
        current_instruction_program_id.key_eq(program_id) ==> r is Ok && *final(voter) == (Voter {
            voter_bump,
            voter_weight_record_bump,
            authority: voter_authority,
            registrar: registrar_key,
            ..*old(voter)
        }) && *final(voter_weight_record) == (VoterWeightRecord {
            account_type: VoterWeightAccountType::VoterWeightRecord,
            realm: registrar.realm,
            governing_token_mint: registrar.realm_community_mint,
            governing_token_owner: voter_authority,
            ..*old(voter_weight_record)
        }),
{
    if !(current_instruction_program_id == program_id) {
        return Err(ErrorCode::ForbiddenCpi);
    }
    voter.voter_bump = voter_bump;
    voter.voter_weight_record_bump = voter_weight_record_bump;
    voter.authority = voter_authority;
    voter.registrar = registrar_key;

    voter_weight_record.account_type = VoterWeightAccountType::VoterWeightRecord;
    voter_weight_record.realm = registrar.realm;
    voter_weight_record.governing_token_mint = registrar.realm_community_mint;
    voter_weight_record.governing_token_owner = voter_authority;
    Ok(())
}

/// The entry after `amount` more tokens were deposited into it at
/// `curr_ts`. Adding funds to a lockup in progress wraps up the current
/// lockup and starts a new one for the remaining duration: the tokens not
/// vested yet and the new ones are locked anew, from the start of the
/// current period on.
pub open spec fn spec_deposit_into(d: DepositEntry, amount: u64, curr_ts: int) -> Result<
    DepositEntry,
    ErrorCode,
> {
    let d1 = DepositEntry {
        amount_deposited_native: (d.amount_deposited_native + amount) as u64,
        ..d
    };
    match d1.spec_vested(curr_ts) {
        Err(e) => Err(e),
        Ok(v) => match d1.lockup.spec_kind_period_current(curr_ts) {
            Err(e) => Err(e),
            Ok(c) => Ok(
                DepositEntry {
                    amount_initially_locked_native: (d1.amount_initially_locked_native - v
                        + amount) as u64,
                    lockup: Lockup {
                        start_ts: (d1.lockup.start_ts + c * d1.lockup.kind.spec_period_secs()) as i64,
                        ..d1.lockup
                    },
                    ..d1
                },
            ),
        },
    }
}

/// Depositing `amount` into `d` at `curr_ts` stays within `u64`: the new
/// deposited total, the vesting, and the amount locked anew.
pub open spec fn deposit_into_fits(d: DepositEntry, amount: u64, curr_ts: int) -> bool {
    let d1 = DepositEntry {
        amount_deposited_native: (d.amount_deposited_native + amount) as u64,
        ..d
    };
    &&& d.amount_deposited_native + amount <= u64::MAX
    &&& d1.vested_fits(curr_ts)
    &&& d1.spec_vested(curr_ts) matches Ok(v) ==> v <= d1.amount_initially_locked_native
        && d1.amount_initially_locked_native - v + amount <= u64::MAX
}

/// The entry a deposit of `amount` tokens of `deposit_mint` into entry `id`
/// yields, or the error it reports.
pub open spec fn spec_update_deposit(
    registrar: Registrar,
    voter: Voter,
    deposit_mint: Pubkey,
    id: u8,
    amount: u64,
    curr_ts: int,
) -> Result<DepositEntry, ErrorCode> {
    if first_index_of(registrar.rate_mints(), deposit_mint) is None {
        Err(ErrorCode::ExchangeRateEntryNotFound)
    } else if id >= 32 || !voter.deposits@[id as int].is_used {
        Err(ErrorCode::InvalidDepositId)
    } else {
        spec_deposit_into(voter.deposits@[id as int], amount, curr_ts)
    }
}

/// The registrar's clock is in range, and a deposit the checks let through
/// stays within `u64`.
pub open spec fn update_deposit_fits(
    registrar: Registrar,
    voter: Voter,
    deposit_mint: Pubkey,
    id: u8,
    amount: u64,
    unix_timestamp: i64,
) -> bool {
    let curr_ts = unix_timestamp + registrar.time_offset;
    (first_index_of(registrar.rate_mints(), deposit_mint) is Some && id < 32
        && voter.deposits@[id as int].is_used) ==> {
        &&& i64::MIN <= curr_ts <= i64::MAX
        &&& deposit_into_fits(voter.deposits@[id as int], amount, curr_ts)
    }
}

/// Updates a deposit entry by depositing `amount` tokens of `deposit_mint`
/// into it at `slot`. The caller transfers the tokens into the vault and
/// mints as many frozen vote tokens to the depositor; those are not used
/// for anything other than displaying the amount in wallets. On error
/// nothing changes.
pub fn update_deposit(
    registrar: &Registrar,
    voter: &mut Voter,
    deposit_mint: Pubkey,
    id: u8,
    amount: u64,
    slot: u64,
    unix_timestamp: i64,
) -> (r: Result<(), ErrorCode>)
    requires
        update_deposit_fits(*registrar, *old(voter), deposit_mint, id, amount, unix_timestamp),
    ensures
        match spec_update_deposit(
            *registrar,
            *old(voter),
            deposit_mint,
            id,
            amount,
            unix_timestamp + registrar.time_offset,
        ) {
            Err(e) => r == Err::<(), ErrorCode>(e) && *final(voter) == *old(voter),
            Ok(d) => r is Ok && final(voter).deposits@ == old(voter).deposits@.update(id as int, d)
                && *final(voter) == (Voter {
                last_deposit_slot: slot,
                deposits: final(voter).deposits,
                ..*old(voter)
            }),
        },
{
    // Get the exchange rate entry associated with this deposit.
    let _er_idx = registrar.exchange_rate_index_for_mint(deposit_mint)?;
    if !((id as usize) < voter.deposits.len()) {
        return Err(ErrorCode::InvalidDepositId);
    }
    let mut d = voter.deposits[id as usize];
    if !d.is_used {
        return Err(ErrorCode::InvalidDepositId);
    }
    d.amount_deposited_native = d.amount_deposited_native + amount;

    // Wrap up the current lockup and create a new one for the remaining
    // duration: what vested stays unlocked, the rest and the new tokens are
    // locked from the start of the current period on.
    let curr_ts = registrar.clock_unix_timestamp(unix_timestamp);
    let vested = d.vested(curr_ts)?;
    d.amount_initially_locked_native = d.amount_initially_locked_native - vested;
    d.amount_initially_locked_native = d.amount_initially_locked_native + amount;
    let current = d.lockup.period_current(curr_ts)?;
    proof {
        if d.lockup.kind != LockupKind::NoLockup {
            lemma_period_shift(d.lockup, curr_ts as int, d.lockup.kind_secs());
        }
    }
    let shift = (current as i64) * d.lockup.kind.period_secs();
    d.lockup.start_ts = d.lockup.start_ts + shift;

    voter.last_deposit_slot = slot;
    voter.deposits[id as usize] = d;
    Ok(())
}

/// The first deposit entry that is not in use, if any.
pub open spec fn first_unused_entry(deposits: Seq<DepositEntry>) -> Option<int> {
    if exists|i: int| 0 <= i < deposits.len() && !(#[trigger] deposits[i]).is_used {
        Some(
            choose|i: int|
                0 <= i < deposits.len() && !(#[trigger] deposits[i]).is_used && forall|j: int|
                    0 <= j < i ==> (#[trigger] deposits[j]).is_used,
        )
    } else {
        None
    }
}

/// The error creating a deposit reports, if any.
pub open spec fn spec_create_deposit_error(
    registrar: Registrar,
    voter: Voter,
    deposit_mint: Pubkey,
) -> Option<ErrorCode> {
    if first_index_of(registrar.rate_mints(), deposit_mint) is None {
        Some(ErrorCode::ExchangeRateEntryNotFound)
    } else if first_unused_entry(voter.deposits@) is None {
        Some(ErrorCode::DepositEntryFull)
    } else {
        None
    }
}

/// Creates a new deposit entry in the first unused slot, locking from the
/// registrar's clock on for `periods` periods of `kind`, and updates it by
/// depositing `amount` tokens of `deposit_mint` (see `update_deposit`).
/// On error nothing changes.
pub fn create_deposit(
    registrar: &Registrar,
    voter: &mut Voter,
    deposit_mint: Pubkey,
    kind: LockupKind,
    amount: u64,
    periods: i32,
    allow_clawback: bool,
    slot: u64,
    unix_timestamp: i64,
) -> (r: Result<(), ErrorCode>)
    requires
        i64::MIN <= unix_timestamp + registrar.time_offset <= i64::MAX,
        spec_create_deposit_error(*registrar, *old(voter), deposit_mint) is None ==> i64::MIN
            <= unix_timestamp + registrar.time_offset + periods * kind.spec_period_secs()
            <= i64::MAX,
    ensures
        match spec_create_deposit_error(*registrar, *old(voter), deposit_mint) {
            Some(e) => r == Err::<(), ErrorCode>(e) && *final(voter) == *old(voter),
            None => {
                let curr_ts = unix_timestamp + registrar.time_offset;
                let free = first_unused_entry(old(voter).deposits@)->Some_0;
                let n = final(voter).deposits@[free];
                &&& r is Ok
                &&& final(voter).deposits@ == old(voter).deposits@.update(free, n)
                &&& n.is_used
                &&& n.rate_idx == first_index_of(registrar.rate_mints(), deposit_mint)->Some_0
                &&& n.amount_deposited_native == amount
                &&& n.amount_initially_locked_native == amount
                &&& n.allow_clawback == allow_clawback
                &&& n.lockup.kind == kind
                &&& n.lockup.start_ts == curr_ts
                &&& n.lockup.end_ts == curr_ts + periods * kind.spec_period_secs()
                &&& forall|i: int| 0 <= i < 16 ==> n.lockup.padding[i] == 0
                &&& *final(voter) == (Voter {
                    last_deposit_slot: slot,
                    deposits: final(voter).deposits,
                    ..*old(voter)
                })
            },
        },
{
    // Set the lockup start timestamp.
    let start_ts = registrar.clock_unix_timestamp(unix_timestamp);

    // Get the exchange rate entry associated with this deposit.
    let er_idx = registrar.exchange_rate_index_for_mint(deposit_mint)?;

    // Get and set up the first free deposit entry.
    let mut free_entry_idx: usize = 0;
    while free_entry_idx < 32 && voter.deposits[free_entry_idx].is_used
        invariant
            free_entry_idx <= 32,
            forall|j: int| 0 <= j < free_entry_idx ==> (#[trigger] voter.deposits@[j]).is_used,
        decreases 32 - free_entry_idx,
    {
        free_entry_idx = free_entry_idx + 1;
    }
    if free_entry_idx == 32 {
        proof {
            assert(first_unused_entry(voter.deposits@) is None);
        }
        return Err(ErrorCode::DepositEntryFull);
    }
    proof {
        let i = free_entry_idx as int;
        assert(!voter.deposits@[i].is_used);
        let k = choose|k: int|
            0 <= k < voter.deposits@.len() && !(#[trigger] voter.deposits@[k]).is_used
                && forall|j: int| 0 <= j < k ==> (#[trigger] voter.deposits@[j]).is_used;
        assert(0 <= i < 32 && !voter.deposits@[i].is_used && forall|j: int|
            0 <= j < i ==> (#[trigger] voter.deposits@[j]).is_used);
        if k < i {
            assert(voter.deposits@[k].is_used);
        } else if k > i {
            assert(voter.deposits@[i].is_used);
        }
        assert(first_unused_entry(voter.deposits@) == Some(i));
    }
    let secs = kind.period_secs();
    assert(i32::MIN * SECS_PER_MONTH <= periods * secs <= i32::MAX * SECS_PER_MONTH)
        by (nonlinear_arith)
        requires
            i32::MIN <= periods <= i32::MAX,
            0 <= secs <= SECS_PER_MONTH,
    ;
    let end_ts = start_ts + (periods as i64) * secs;
    let entry = DepositEntry {
        is_used: true,
        rate_idx: er_idx as u8,
        amount_deposited_native: 0,
        amount_initially_locked_native: 0,
        allow_clawback,
        lockup: Lockup { kind, start_ts, end_ts, padding: [0u8; 16] },
    };
    let mut created = *voter;
    created.deposits[free_entry_idx] = entry;
    proof {
        if kind != LockupKind::NoLockup {
            lemma_fresh_lockup(entry.lockup, periods as int, entry.lockup.kind_secs());
        }
        let d1 = DepositEntry { amount_deposited_native: amount, ..entry };
        assert(d1.lockup == entry.lockup);
        if d1.lockup.start_ts < d1.lockup.end_ts && kind != LockupKind::NoLockup {
            assert(d1.spec_vested(start_ts as int) == Ok::<int, ErrorCode>(0));
        }
        assert(d1.spec_vested(start_ts as int) == Ok::<int, ErrorCode>(0));
        assert(d1.vested_fits(start_ts as int));
        assert(created.deposits@[free_entry_idx as int] == entry);
    }

    // Update the entry by depositing the tokens.
    update_deposit(
        registrar,
        &mut created,
        deposit_mint,
        free_entry_idx as u8,
        amount,
        slot,
        unix_timestamp,
    ).unwrap();
    *voter = created;
    Ok(())
}

/// The error clawing back deposit `deposit_id` reports, if any.
pub open spec fn spec_clawback_error(voter: Voter, deposit_id: u8) -> Option<ErrorCode> {
    if deposit_id >= 32 {
        Some(ErrorCode::InvalidDepositId)
    } else if !voter.deposits@[deposit_id as int].allow_clawback {
        Some(ErrorCode::ClawbackNotAllowedOnDeposit)
    } else {
        None
    }
}

/// The registrar's clock is in range, and a deposit that allows clawback
/// has a vested amount no larger than what it holds.
pub open spec fn clawback_fits(
    registrar: Registrar,
    voter: Voter,
    deposit_id: u8,
    unix_timestamp: i64,
) -> bool {
    let curr_ts = unix_timestamp + registrar.time_offset;
    let d = voter.deposits@[deposit_id as int];
    &&& deposit_id < 32 ==> i64::MIN <= curr_ts <= i64::MAX
    &&& spec_clawback_error(voter, deposit_id) is None ==> {
        &&& d.vested_fits(curr_ts)
        &&& d.spec_vested(curr_ts) matches Ok(v) && v <= d.amount_deposited_native
    }
}

/// Claws back the tokens of deposit `deposit_id` that have not vested yet.
/// The deposit keeps its vested tokens, without lockup. Returns the amount
/// clawed back, which the caller transfers out of the vault (burning as
/// many vote tokens). On error nothing changes.
pub fn clawback(registrar: &Registrar, voter: &mut Voter, deposit_id: u8, unix_timestamp: i64) -> (r:
    Result<u64, ErrorCode>)
    requires
        clawback_fits(*registrar, *old(voter), deposit_id, unix_timestamp),
    ensures
        match spec_clawback_error(*old(voter), deposit_id) {
            Some(e) => r == Err::<u64, ErrorCode>(e) && *final(voter) == *old(voter),
            None => {
                let d = old(voter).deposits@[deposit_id as int];
                let vested = d.spec_vested(unix_timestamp + registrar.time_offset)->Ok_0;
                &&& r == Ok::<u64, ErrorCode>((d.amount_deposited_native - vested) as u64)
                &&& final(voter).deposits@ == old(voter).deposits@.update(
                    deposit_id as int,
                    DepositEntry {
                        amount_deposited_native: vested as u64,
                        amount_initially_locked_native: 0,
                        lockup: Lockup { kind: LockupKind::NoLockup, ..d.lockup },
                        ..d
                    },
                )
                &&& *final(voter) == (Voter { deposits: final(voter).deposits, ..*old(voter) })
            },
        },
{
    if !((deposit_id as usize) < voter.deposits.len()) {
        return Err(ErrorCode::InvalidDepositId);
    }
    let curr_ts = registrar.clock_unix_timestamp(unix_timestamp);
    let mut d = voter.deposits[deposit_id as usize];
    if !d.allow_clawback {
        return Err(ErrorCode::ClawbackNotAllowedOnDeposit);
    }
    let vested = d.vested(curr_ts).unwrap();
    let amount_not_yet_vested = d.amount_deposited_native - vested;

    // Update deposit book keeping.
    d.amount_deposited_native = vested;
    d.amount_initially_locked_native = 0;
    d.lockup.kind = LockupKind::NoLockup;
    voter.deposits[deposit_id as usize] = d;
    Ok(amount_not_yet_vested)
}

/// The error a withdrawal reports, if any.
pub open spec fn spec_withdraw_error(
    registrar: Registrar,
    voter: Voter,
    token_owner_record: TokenOwnerRecord,
    withdraw_mint: Pubkey,
    deposit_id: u8,
    amount: u64,
    slot: u64,
    curr_ts: int,
) -> Option<Error> {
    let d = voter.deposits@[deposit_id as int];
    let mint_idx = first_index_of(registrar.rate_mints(), withdraw_mint);
    if deposit_id >= 32 {
        Some(Error::ErrorCode(ErrorCode::InvalidDepositId))
    } else if token_owner_record.spec_can_withdraw() is Err {
        Some(Error::Governance(token_owner_record.spec_can_withdraw()->Err_0))
    } else if !(voter.last_deposit_slot < slot) {
        Some(Error::ErrorCode(ErrorCode::InvalidToDepositAndWithdrawInOneSlot))
    } else if !d.is_used {
        Some(Error::ErrorCode(ErrorCode::InvalidDepositId))
    } else if d.amount_deposited_native - (d.amount_initially_locked_native - d.spec_vested(
        curr_ts,
    )->Ok_0) < amount || d.amount_deposited_native < amount {
        Some(Error::ErrorCode(ErrorCode::InsufficientVestedTokens))
    } else if mint_idx is None {
        Some(Error::ErrorCode(ErrorCode::ExchangeRateEntryNotFound))
    } else if mint_idx->Some_0 != d.rate_idx {
        Some(Error::ErrorCode(ErrorCode::InvalidMint))
    } else {
        None
    }
}

/// The registrar's clock is in range, and the withdrawable amount of a
/// deposit the earlier checks let through can be computed: its vesting is
/// defined, no larger than what was locked, and leaves no more locked than
/// it holds.
pub open spec fn withdraw_fits(
    registrar: Registrar,
    voter: Voter,
    token_owner_record: TokenOwnerRecord,
    deposit_id: u8,
    slot: u64,
    unix_timestamp: i64,
) -> bool {
    let curr_ts = unix_timestamp + registrar.time_offset;
    let d = voter.deposits@[deposit_id as int];
    &&& (deposit_id < 32 && token_owner_record.spec_can_withdraw() is Ok && voter.last_deposit_slot
        < slot) ==> i64::MIN <= curr_ts <= i64::MAX
    &&& (deposit_id < 32 && token_owner_record.spec_can_withdraw() is Ok && voter.last_deposit_slot
        < slot && d.is_used) ==> {
        &&& d.vested_fits(curr_ts)
        &&& d.spec_vested(curr_ts) matches Ok(v) && v <= d.amount_initially_locked_native
            && d.amount_initially_locked_native - v <= d.amount_deposited_native
    }
}

/// Withdraws `amount` tokens from deposit `deposit_id`, if they are
/// unlocked according to its vesting schedule.
///
/// `token_owner_record` is the voter's token owner record at the address
/// the governance program derives from the registrar's realm and community
/// mint and the voter's authority; the governance program may forbid
/// withdrawals, for example while the owner is engaged in a vote. Tokens
/// may not be withdrawn in the slot of a deposit, so that depositing,
/// updating the vote weight, withdrawing and voting cannot happen at once.
/// On success the caller transfers `amount` tokens of `withdraw_mint` from
/// the vault and burns as many vote tokens; on error nothing changes.
pub fn withdraw(
    registrar: &Registrar,
    voter: &mut Voter,
    token_owner_record: TokenOwnerRecord,
    withdraw_mint: Pubkey,
    deposit_id: u8,
    amount: u64,
    slot: u64,
    unix_timestamp: i64,
) -> (r: Result<(), Error>)
    requires
        withdraw_fits(*registrar, *old(voter), token_owner_record, deposit_id, slot, unix_timestamp),
    ensures
        match spec_withdraw_error(
            *registrar,
            *old(voter),
            token_owner_record,
            withdraw_mint,
            deposit_id,
            amount,
            slot,
            unix_timestamp + registrar.time_offset,
        ) {
            Some(e) => r == Err::<(), Error>(e) && *final(voter) == *old(voter),
            None => {
                let d = old(voter).deposits@[deposit_id as int];
                &&& r is Ok
                &&& final(voter).deposits@ == old(voter).deposits@.update(
                    deposit_id as int,
                    DepositEntry {
                        amount_deposited_native: (d.amount_deposited_native - amount) as u64,
                        ..d
                    },
                )
                &&& *final(voter) == (Voter { deposits: final(voter).deposits, ..*old(voter) })
            },
        },
{
    if !((deposit_id as usize) < voter.deposits.len()) {
        return Err(Error::ErrorCode(ErrorCode::InvalidDepositId));
    }

    // Governance may forbid withdraws, for example when engaged in a vote.
    match token_owner_record.assert_can_withdraw_governing_tokens() {
        Ok(()) => {},
        Err(e) => {
            return Err(Error::Governance(e));
        },
    }

    // Must not withdraw in the same slot as depositing, to prevent people
    // depositing, having the vote weight updated, withdrawing and then
    // voting.
    if !(voter.last_deposit_slot < slot) {
        return Err(Error::ErrorCode(ErrorCode::InvalidToDepositAndWithdrawInOneSlot));
    }

    // Get the deposit being withdrawn from.
    let curr_ts = registrar.clock_unix_timestamp(unix_timestamp);
    let mut d = voter.deposits[deposit_id as usize];
    if !d.is_used {
        return Err(Error::ErrorCode(ErrorCode::InvalidDepositId));
    }
    if !(d.amount_withdrawable(curr_ts) >= amount) {
        return Err(Error::ErrorCode(ErrorCode::InsufficientVestedTokens));
    }
    if !(d.amount_deposited_native >= amount) {
        return Err(Error::ErrorCode(ErrorCode::InsufficientVestedTokens));
    }

    // Get the exchange rate for the token being withdrawn.
    let er_idx = match registrar.exchange_rate_index_for_mint(withdraw_mint) {
        Ok(i) => i,
        Err(e) => {
            return Err(Error::ErrorCode(e));
        },
    };
    if !(er_idx == d.rate_idx as usize) {
        return Err(Error::ErrorCode(ErrorCode::InvalidMint));
    }

    // Update deposit book keeping.
    d.amount_deposited_native = d.amount_deposited_native - amount;
    voter.deposits[deposit_id as usize] = d;
    Ok(())
}

/// `periods` read as an unsigned number, as two's complement does.
pub open spec fn as_unsigned(periods: i64) -> int {
    if periods >= 0 {
        periods as int
    } else {
        periods + 0x1_0000_0000_0000_0000
    }
}

/// The error resetting the lockup of deposit `deposit_id` reports, if any.
pub open spec fn spec_reset_lockup_error(
    voter: Voter,
    deposit_id: u8,
    periods: i64,
    curr_ts: int,
) -> Option<ErrorCode> {
    let d = voter.deposits@[deposit_id as int];
    if deposit_id >= 32 || !d.is_used {
        Some(ErrorCode::InvalidDepositId)
    } else if d.lockup.spec_kind_periods_left(curr_ts) is Err {
        Some(d.lockup.spec_kind_periods_left(curr_ts)->Err_0)
    } else if as_unsigned(periods) < d.lockup.spec_kind_periods_left(curr_ts)->Ok_0 {
        Some(ErrorCode::InvalidDays)
    } else {
        None
    }
}

/// Resets the lockup of deposit `deposit_id` to start at the registrar's
/// clock and to last for `periods`, which must be at least the number of
/// periods left on the lockup: the lockup period can only be increased.
/// This re-locks any non-withdrawn vested funds. On error nothing changes.
pub fn reset_lockup(
    registrar: &Registrar,
    voter: &mut Voter,
    deposit_id: u8,
    periods: i64,
    unix_timestamp: i64,
) -> (r: Result<(), ErrorCode>)
    requires
        deposit_id < 32 && old(voter).deposits@[deposit_id as int].is_used ==> {
            let d = old(voter).deposits@[deposit_id as int];
            let curr_ts = unix_timestamp + registrar.time_offset;
            &&& i64::MIN <= curr_ts <= i64::MAX
            &&& d.lockup.kind_totals_fit()
            &&& spec_reset_lockup_error(*old(voter), deposit_id, periods, curr_ts) is None
                ==> i64::MIN <= periods * d.lockup.kind.spec_period_secs() <= i64::MAX
                && i64::MIN <= curr_ts + periods * d.lockup.kind.spec_period_secs() <= i64::MAX
        },
    ensures
        match spec_reset_lockup_error(
            *old(voter),
            deposit_id,
            periods,
            unix_timestamp + registrar.time_offset,
        ) {
            Some(e) => r == Err::<(), ErrorCode>(e) && *final(voter) == *old(voter),
            None => {
                let d = old(voter).deposits@[deposit_id as int];
                let curr_ts = unix_timestamp + registrar.time_offset;
                &&& r is Ok
                &&& final(voter).deposits@ == old(voter).deposits@.update(
                    deposit_id as int,
                    DepositEntry {
                        amount_initially_locked_native: d.amount_deposited_native,
                        lockup: Lockup {
                            start_ts: curr_ts as i64,
                            end_ts: (curr_ts + periods * d.lockup.kind.spec_period_secs()) as i64,
                            ..d.lockup
                        },
                        ..d
                    },
                )
                &&& *final(voter) == (Voter { deposits: final(voter).deposits, ..*old(voter) })
            },
        },
{
    if !((deposit_id as usize) < voter.deposits.len()) {
        return Err(ErrorCode::InvalidDepositId);
    }
    let mut d = voter.deposits[deposit_id as usize];
    if !d.is_used {
        return Err(ErrorCode::InvalidDepositId);
    }

    // The lockup period can only be increased.
    let curr_ts = registrar.clock_unix_timestamp(unix_timestamp);
    let periods_left = d.lockup.periods_left(curr_ts)?;
    let periods_unsigned: u64 = if periods >= 0 {
        periods as u64
    } else {
        u64::MAX - ((-(periods + 1)) as u64)
    };
    if !(periods_unsigned >= periods_left) {
        return Err(ErrorCode::InvalidDays);
    }

    d.amount_initially_locked_native = d.amount_deposited_native;
    d.lockup.start_ts = curr_ts;
    d.lockup.end_ts = curr_ts + periods * d.lockup.kind.period_secs();
    voter.deposits[deposit_id as usize] = d;
    Ok(())
}

/// The error closing the deposit `deposit_id` reports, if any.
pub open spec fn spec_close_deposit_error(voter: Voter, deposit_id: u8) -> Option<ErrorCode> {
    if deposit_id >= 32 || !voter.deposits@[deposit_id as int].is_used {
        Some(ErrorCode::InvalidDepositId)
    } else if voter.deposits@[deposit_id as int].amount_deposited_native != 0 {
        Some(ErrorCode::VotingTokenNonZero)
    } else {
        None
    }
}

/// Closes an empty deposit, allowing it to be reused in the future. On
/// error nothing changes.
pub fn close_deposit(voter: &mut Voter, deposit_id: u8) -> (r: Result<(), ErrorCode>)
    ensures
        match spec_close_deposit_error(*old(voter), deposit_id) {
            Some(e) => r == Err::<(), ErrorCode>(e) && *final(voter) == *old(voter),
            None => r is Ok && final(voter).deposits@ == old(voter).deposits@.update(
                deposit_id as int,
                DepositEntry { is_used: false, ..old(voter).deposits@[deposit_id as int] },
            ) && *final(voter) == (Voter { deposits: final(voter).deposits, ..*old(voter) }),
        },
{
    if !((deposit_id as usize) < voter.deposits.len()) {
        return Err(ErrorCode::InvalidDepositId);
    }
    if !voter.deposits[deposit_id as usize].is_used {
        return Err(ErrorCode::InvalidDepositId);
    }
    if !(voter.deposits[deposit_id as usize].amount_deposited_native == 0) {
        return Err(ErrorCode::VotingTokenNonZero);
    }
    // The fact that the deposit contains no tokens is sufficient: its
    // initially locked amount and lockup need no check.
    voter.deposits[deposit_id as usize].is_used = false;
    Ok(())
}

/// The tokens held by the first `n` deposit entries.
pub open spec fn deposited_upto(deposits: Seq<DepositEntry>, n: nat) -> int
    decreases n,
{
    if n == 0 {
        0
    } else {
        deposited_upto(deposits, (n - 1) as nat) + deposits[n - 1].amount_deposited_native
    }
}

pub proof fn lemma_deposited_upto_monotonic(deposits: Seq<DepositEntry>, k: nat, n: nat)
    requires
        k <= n,
    ensures
        0 <= deposited_upto(deposits, k) <= deposited_upto(deposits, n),
    decreases n,
{
    if k < n {
        lemma_deposited_upto_monotonic(deposits, k, (n - 1) as nat);
    } else if n > 0 {
        lemma_deposited_upto_monotonic(deposits, (n - 1) as nat, (n - 1) as nat);
    }
}

/// Replacing entry `i` changes the tokens held by the first `n` entries by
/// what the new entry holds more or less, when `i` is among them.
pub proof fn lemma_deposited_upto_update(deposits: Seq<DepositEntry>, i: int, e: DepositEntry, n: nat)
    requires
        0 <= i < deposits.len(),
        n <= deposits.len(),
    ensures
        deposited_upto(deposits.update(i, e), n) == deposited_upto(deposits, n) + if i < n {
            e.amount_deposited_native - deposits[i].amount_deposited_native
        } else {
            0
        },
    decreases n,
{
    if n > 0 {
        lemma_deposited_upto_update(deposits, i, e, (n - 1) as nat);
    }
}

/// Checks that the voter account can be closed: only accounts with no
/// remaining deposits can be. The caller then closes it, retrieving the
/// rent exemption SOL.
pub fn close_voter(voter: &Voter) -> (r: Result<(), ErrorCode>)
    requires
        deposited_upto(voter.deposits@, 32) <= u64::MAX,
    ensures
        deposited_upto(voter.deposits@, 32) == 0 ==> r is Ok,
        deposited_upto(voter.deposits@, 32) != 0 ==> r == Err::<(), ErrorCode>(
            ErrorCode::VotingTokenNonZero,
        ),
{
    let mut amount: u64 = 0;
    let mut i: usize = 0;
    while i < 32
        invariant
            i <= 32,
            amount == deposited_upto(voter.deposits@, i as nat),
            deposited_upto(voter.deposits@, 32) <= u64::MAX,
        decreases 32 - i,
    {
        proof {
            lemma_deposited_upto_monotonic(voter.deposits@, (i + 1) as nat, 32);
        }
        amount = amount.checked_add(voter.deposits[i].amount_deposited_native).unwrap();
        i = i + 1;
    }
    if !(amount == 0) {
        return Err(ErrorCode::VotingTokenNonZero);
    }
    Ok(())
}

/// Computes the lockup-scaled, time-decayed voting power of the voter at
/// the cluster time `unix_timestamp` and writes it into its voter weight
/// record, valid for the current `slot` only. On error the record does not
/// change.
pub fn update_voter_weight_record(
    registrar: &Registrar,
    voter: &Voter,
    voter_weight_record: &mut VoterWeightRecord,
    unix_timestamp: i64,
    slot: u64,
) -> (r: Result<(), ErrorCode>)
    requires
        weight_fits_upto(voter.deposits@, registrar.rates@, unix_timestamp as int, 32),
    ensures
        match voter.spec_weight(*registrar, unix_timestamp as int) {
            Err(e) => r == Err::<(), ErrorCode>(e) && *final(voter_weight_record) == *old(
                voter_weight_record,
            ),
            Ok(w) => r is Ok && *final(voter_weight_record) == (VoterWeightRecord {
                voter_weight: w as u64,
                voter_weight_expiry: Some(slot),
                ..*old(voter_weight_record)
            }),
        },
{
    let weight = voter.weight(registrar, unix_timestamp)?;
    voter_weight_record.voter_weight = weight;
    voter_weight_record.voter_weight_expiry = Some(slot);
    Ok(())
}

/// The supply of the first `n` mints in the registrar's common currency;
/// a mint without exchange rate ends the sum with an error.
pub open spec fn spec_total_supply_upto(
    registrar: Registrar,
    mints: Seq<(Pubkey, u64)>,
    n: nat,
) -> Result<int, ErrorCode>
    decreases n,
{
    if n == 0 {
        Ok(0)
    } else {
        match spec_total_supply_upto(registrar, mints, (n - 1) as nat) {
            Err(e) => Err(e),
            Ok(s) => match first_index_of(registrar.rate_mints(), mints[n - 1].0) {
                None => Err(ErrorCode::ExchangeRateEntryNotFound),
                Some(i) => Ok(s + mints[n - 1].1 * registrar.rates@[i].conversion_factor),
            },
        }
    }
}

/// Converting and summing the first `n` supplies stays within `u64`, up to
/// the first error.
pub open spec fn total_supply_fits_upto(
    registrar: Registrar,
    mints: Seq<(Pubkey, u64)>,
    n: nat,
) -> bool
    decreases n,
{
    n == 0 || {
        &&& total_supply_fits_upto(registrar, mints, (n - 1) as nat)
        &&& (spec_total_supply_upto(registrar, mints, (n - 1) as nat) is Ok && first_index_of(
            registrar.rate_mints(),
            mints[n - 1].0,
        ) is Some) ==> {
            let s = spec_total_supply_upto(registrar, mints, (n - 1) as nat)->Ok_0;
            let c = mints[n - 1].1 * registrar.rates@[first_index_of(
                registrar.rate_mints(),
                mints[n - 1].0,
            )->Some_0].conversion_factor;
            &&& c <= u64::MAX
            &&& s + c <= u64::MAX
        }
    }
}

pub proof fn lemma_total_supply_fits_prefix(
    registrar: Registrar,
    mints: Seq<(Pubkey, u64)>,
    k: nat,
    n: nat,
)
    requires
        k <= n,
        total_supply_fits_upto(registrar, mints, n),
    ensures
        total_supply_fits_upto(registrar, mints, k),
    decreases n,
{
    if k < n {
        lemma_total_supply_fits_prefix(registrar, mints, k, (n - 1) as nat);
    }
}

pub proof fn lemma_total_supply_err_propagates(
    registrar: Registrar,
    mints: Seq<(Pubkey, u64)>,
    k: nat,
    n: nat,
)
    requires
        k <= n,
        spec_total_supply_upto(registrar, mints, k) is Err,
    ensures
        spec_total_supply_upto(registrar, mints, n) == spec_total_supply_upto(registrar, mints, k),
    decreases n,
{
    if k < n {
        lemma_total_supply_err_propagates(registrar, mints, k, (n - 1) as nat);
    }
}

/// Calculates the max vote weight for the registry: the total supply of
/// all exchange rate mints, each given with its supply and converted into
/// the common currency with common decimals, scaled by the vote weight
/// factors.
///
/// This is only safe to use if the cumulative supply for all tokens fits
/// into a u64 *after* converting into common decimals.
pub fn update_max_vote_weight(registrar: &Registrar, mints: &Vec<(Pubkey, u64)>) -> (r: Result<
    u64,
    ErrorCode,
>)
    requires
        total_supply_fits_upto(*registrar, mints@, mints@.len()),
        spec_total_supply_upto(*registrar, mints@, mints@.len()) matches Ok(t) ==> t * (
        FIXED_VOTE_WEIGHT_FACTOR + LOCKING_VOTE_WEIGHT_FACTOR) <= u64::MAX,
    ensures
        match spec_total_supply_upto(*registrar, mints@, mints@.len()) {
            Err(e) => r == Err::<u64, ErrorCode>(e),
            Ok(t) => r == Ok::<u64, ErrorCode>(
                (t * (FIXED_VOTE_WEIGHT_FACTOR + LOCKING_VOTE_WEIGHT_FACTOR)) as u64,
            ),
        },
{
    let mut total: u64 = 0;
    let mut i: usize = 0;
    while i < mints.len()
        invariant
            i <= mints@.len(),
            total_supply_fits_upto(*registrar, mints@, mints@.len()),
            spec_total_supply_upto(*registrar, mints@, i as nat) == Ok::<int, ErrorCode>(
                total as int,
            ),
        decreases mints@.len() - i,
    {
        proof {
            lemma_total_supply_fits_prefix(*registrar, mints@, (i + 1) as nat, mints@.len());
        }
        let (mint, supply) = mints[i];
        let er_idx = match registrar.exchange_rate_index_for_mint(mint) {
            Ok(idx) => idx,
            Err(e) => {
                proof {
                    assert(spec_total_supply_upto(*registrar, mints@, (i + 1) as nat) == Err::<
                        int,
                        ErrorCode,
                    >(e));
                    lemma_total_supply_err_propagates(
                        *registrar,
                        mints@,
                        (i + 1) as nat,
                        mints@.len(),
                    );
                }
                return Err(e);
            },
        };
        let amount = registrar.rates[er_idx].convert(supply);
        total = total.checked_add(amount).unwrap();
        i = i + 1;
    }
    Ok(total.checked_mul(FIXED_VOTE_WEIGHT_FACTOR + LOCKING_VOTE_WEIGHT_FACTOR).unwrap())
}

/// Sets the debug time offset, which is allowed only on a registrar whose
/// governance program is `allowed_program`. On error nothing changes.
pub fn set_time_offset_for(registrar: &mut Registrar, allowed_program: Pubkey, time_offset: i64) -> (r:
    Result<(), ErrorCode>)
    ensures
        old(registrar).governance_program_id.key_eq(allowed_program) ==> r == Ok::<(), ErrorCode>(())
            && *final(registrar) == (Registrar { time_offset, ..*old(registrar) }),
        !old(registrar).governance_program_id.key_eq(allowed_program) ==> r == Err::<(), ErrorCode>(
            ErrorCode::DebugInstruction,
        ) && *final(registrar) == *old(registrar),
{
    if !(registrar.governance_program_id == allowed_program) {
        return Err(ErrorCode::DebugInstruction);
    }
    registrar.time_offset = time_offset;
    Ok(())
}

/// Debug instruction for moving time forward in tests: only registrars of
/// the test governance program `GovernanceProgram11111111111111111111111111`
/// accept it. Returns `None`, changing nothing, if that text does not parse
/// as an address.
pub fn set_time_offset(registrar: &mut Registrar, time_offset: i64) -> (r: Option<
    Result<(), ErrorCode>,
>)
    ensures
        match base58_pubkey("GovernanceProgram11111111111111111111111111"@) {
            None => r is None && *final(registrar) == *old(registrar),
            Some(allowed) => if old(registrar).governance_program_id.bytes@ == allowed {
                r == Some(Ok::<(), ErrorCode>(())) && *final(registrar) == (Registrar {
                    time_offset,
                    ..*old(registrar)
                })
            } else {
                r == Some(Err::<(), ErrorCode>(ErrorCode::DebugInstruction)) && *final(registrar)
                    == *old(registrar)
            },
        },
{
    match pubkey_from_str("GovernanceProgram11111111111111111111111111") {
        None => None,
        Some(allowed_program) => Some(set_time_offset_for(registrar, allowed_program, time_offset)),
    }
}

} // verus!
