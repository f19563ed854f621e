use vstd::prelude::*;
use crate::error::ErrorCode;
use crate::instructions::create_voter::init_voter;
use crate::pubkey::Pubkey;
use crate::state::deposit_entry::{DepositEntry, zero_entry_padding};
use crate::state::lockup::{Lockup, LockupKind, zero_padding};
use crate::state::registrar::{Registrar, first_index_of};
use crate::state::voter::Voter;
use crate::state::voter_weight_record::{VoterWeightAccountType, VoterWeightRecord};

verus! {

/// Returns if the anchor discriminator, the first eight bytes of an
/// account's data, is still unset.
pub fn is_freshly_initialized(data: &[u8]) -> (r: bool)
    requires
        data@.len() >= 8,
    ensures
        r == forall|i: int| 0 <= i < 8 ==> #[trigger] data@[i] == 0u8,
{
    let mut i: usize = 0;
    while i < 8
        invariant
            i <= 8,
            data@.len() >= 8,
            forall|j: int| 0 <= j < i ==> #[trigger] data@[j] == 0u8,
        decreases 8 - i,
    {
        if data[i] != 0 {
            return false;
        }
        i = i + 1;
    }
    true
}

/// The first deposit entry that is not in use, if any.
pub open spec fn first_free_entry(deposits: Seq<DepositEntry>) -> Option<int> {
    if exists|i: int| 0 <= i < deposits.len() && !(#[trigger] deposits[i]).is_used {
        Some(
            choose|i: int|
                0 <= i < deposits.len() && !(#[trigger] deposits[i]).is_used && forall|j: int|
                    0 <= j < i ==> (#[trigger] deposits[j]).is_used,
        )
    } else {
        None
    }
}

/// The error a grant reports, if any.
pub open spec fn spec_grant_error(
    registrar: Registrar,
    voter: Voter,
    new_voter: bool,
    deposit_mint: Pubkey,
    authority: Pubkey,
) -> Option<ErrorCode> {
    let mint_idx = first_index_of(registrar.voting_mint_keys(), deposit_mint);
    if mint_idx is None {
        Some(ErrorCode::VotingMintNotFound)
    } else if !(authority.key_eq(registrar.realm_authority) || authority.key_eq(
        registrar.voting_mints@[mint_idx->Some_0].grant_authority,
    )) {
        Some(ErrorCode::InvalidAuthority)
    } else if first_free_entry(voter.deposits@) is None {
        Some(ErrorCode::DepositEntryFull)
    } else {
        None
    }
}

/// Gives a grant to a voter.
///
/// The voter may or may not exist in advance (`new_voter` tells whether its
/// account is freshly created). The grant occupies the first free deposit
/// entry, locking all `amount` granted tokens from the registrar's clock on
/// for `periods` periods of `kind`. Only the realm authority or the voting
/// mint's grant authority may grant. Returns the index of the deposit entry;
/// the caller transfers `amount` tokens into the vault. On error nothing
/// changes.
pub fn grant(
    registrar_key: Pubkey,
    registrar: &Registrar,
    voter: &mut Voter,
    voter_weight_record: &mut VoterWeightRecord,
    new_voter: bool,
    voter_authority: Pubkey,
    voter_bump: u8,
    voter_weight_record_bump: u8,
    deposit_mint: Pubkey,
    authority: Pubkey,
    kind: LockupKind,
    periods: u32,
    allow_clawback: bool,
    amount: u64,
    unix_timestamp: i64,
) -> (r: Result<usize, ErrorCode>)
    requires
        new_voter ==> old(voter).all_deposits_unused(),
        spec_grant_error(*registrar, *old(voter), new_voter, deposit_mint, authority) is None ==> {
            let curr_ts = unix_timestamp + registrar.time_offset;
            &&& i64::MIN <= curr_ts <= i64::MAX
            &&& curr_ts + periods * kind.spec_period_secs() <= i64::MAX
        },
    ensures
        match spec_grant_error(*registrar, *old(voter), new_voter, deposit_mint, authority) {
            Some(e) => r == Err::<usize, ErrorCode>(e) && final(voter).same_state(*old(voter))
                && *final(voter_weight_record) == *old(voter_weight_record),
            None => {
                let curr_ts = unix_timestamp + registrar.time_offset;
                let free = first_free_entry(old(voter).deposits@)->Some_0;
                let n = final(voter).deposits@[free];
                &&& r == Ok::<usize, ErrorCode>(free as usize)
                &&& final(voter).deposits@.len() == 32
                &&& forall|i: int|
                    0 <= i < 32 && i != free ==> final(voter).deposits@[i]
                        == old(voter).deposits@[i]
                &&& n.is_used
                &&& n.voting_mint_config_idx == first_index_of(
                    registrar.voting_mint_keys(),
                    deposit_mint,
                )->Some_0
                &&& n.allow_clawback == allow_clawback
                &&& n.amount_deposited_native == amount
                &&& n.amount_initially_locked_native == amount
                &&& n.lockup.kind == kind
                &&& n.lockup.start_ts == curr_ts
                &&& n.lockup.end_ts == curr_ts + periods * kind.spec_period_secs()
                &&& n.lockup.padding == zero_padding()
                &&& n.padding == zero_entry_padding()
                &&& final(voter).last_deposit_slot == old(voter).last_deposit_slot
                &&& new_voter ==> {
                    &&& final(voter).voter_authority == voter_authority
                    &&& final(voter).registrar == registrar_key
                    &&& final(voter).voter_bump == voter_bump
                    &&& final(voter).voter_weight_record_bump == voter_weight_record_bump
                    &&& final(voter_weight_record).account_type
                        == VoterWeightAccountType::VoterWeightRecord
                    &&& final(voter_weight_record).realm == registrar.realm
                    &&& final(voter_weight_record).governing_token_mint
                        == registrar.realm_governing_token_mint
                    &&& final(voter_weight_record).governing_token_owner == voter_authority
                }
                &&& !new_voter ==> final(voter).same_identity(*old(voter))
                    && *final(voter_weight_record) == *old(voter_weight_record)
            },
        },
{
    // Get the voting mint associated with this deposit.
    let mint_idx = registrar.voting_mint_config_index(deposit_mint)?;
    let grant_authority = registrar.voting_mints[mint_idx].grant_authority;
    if !(authority == registrar.realm_authority || authority == grant_authority) {
        return Err(ErrorCode::InvalidAuthority);
    }

    // Find the first free deposit entry.
    let mut free_entry_idx: usize = 0;
    while free_entry_idx < 32 && voter.deposits[free_entry_idx].is_used
        invariant
            free_entry_idx <= 32,
            forall|j: int| 0 <= j < free_entry_idx ==> (#[trigger] voter.deposits@[j]).is_used,
        decreases 32 - free_entry_idx,
    {
        free_entry_idx = free_entry_idx + 1;
    }
    if free_entry_idx == 32 {
        proof {
            assert(first_free_entry(voter.deposits@) is None);
        }
        return Err(ErrorCode::DepositEntryFull);
    }
    proof {
        let i = free_entry_idx as int;
        assert(!voter.deposits@[i].is_used);
        let k = choose|k: int|
            0 <= k < voter.deposits@.len() && !(#[trigger] voter.deposits@[k]).is_used
                && forall|j: int| 0 <= j < k ==> (#[trigger] voter.deposits@[j]).is_used;
        assert(0 <= i < 32 && !voter.deposits@[i].is_used && forall|j: int|
            0 <= j < i ==> (#[trigger] voter.deposits@[j]).is_used);
        if k < i {
            assert(voter.deposits@[k].is_used);
        } else if k > i {
            assert(voter.deposits@[i].is_used);
        }
        assert(first_free_entry(voter.deposits@) == Some(i));
    }

    // Init the voter if it hasn't been already.
    if new_voter {
        init_voter(
            registrar_key,
            registrar,
            voter,
            voter_weight_record,
            voter_authority,
            voter_bump,
            voter_weight_record_bump,
        );
    }

    // Set up a deposit, locking all granted tokens.
    let curr_ts = registrar.clock_unix_timestamp(unix_timestamp);
    let mut d_entry = DepositEntry::default();
    d_entry.is_used = true;
    d_entry.voting_mint_config_idx = mint_idx as u8;
    d_entry.allow_clawback = allow_clawback;
    d_entry.lockup = Lockup::new_from_periods(kind, curr_ts, periods)?;
    d_entry.amount_deposited_native = amount;
    d_entry.amount_initially_locked_native = amount;
    voter.deposits[free_entry_idx] = d_entry;

    Ok(free_entry_idx)
}

} // verus!
