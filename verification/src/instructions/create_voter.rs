use vstd::prelude::*;
use crate::error::ErrorCode;
use crate::pubkey::Pubkey;
use crate::state::registrar::Registrar;
use crate::state::voter::Voter;
use crate::state::voter_weight_record::{VoterWeightAccountType, VoterWeightRecord};

verus! {

/// Sets up a fresh voter and its voter weight record for `voter_authority`.
pub fn init_voter(
    registrar_key: Pubkey,
    registrar: &Registrar,
    voter: &mut Voter,
    voter_weight_record: &mut VoterWeightRecord,
    voter_authority: Pubkey,
    voter_bump: u8,
    voter_weight_record_bump: u8,
)
    requires
        old(voter).all_deposits_unused(),
    ensures
        final(voter).voter_bump == voter_bump,
        final(voter).voter_weight_record_bump == voter_weight_record_bump,
        final(voter).voter_authority == voter_authority,
        final(voter).registrar == registrar_key,
        final(voter).deposits@ == old(voter).deposits@,
        final(voter).last_deposit_slot == old(voter).last_deposit_slot,
        final(voter).padding == old(voter).padding,
        final(voter_weight_record).account_type == VoterWeightAccountType::VoterWeightRecord,
        final(voter_weight_record).realm == registrar.realm,
        final(voter_weight_record).governing_token_mint == registrar.realm_governing_token_mint,
        final(voter_weight_record).governing_token_owner == voter_authority,
        final(voter_weight_record).voter_weight == old(voter_weight_record).voter_weight,
        final(voter_weight_record).voter_weight_expiry == old(voter_weight_record).voter_weight_expiry,
{
    voter.voter_bump = voter_bump;
    voter.voter_weight_record_bump = voter_weight_record_bump;
    voter.voter_authority = voter_authority;
    voter.registrar = registrar_key;

    voter_weight_record.account_type = VoterWeightAccountType::VoterWeightRecord;
    voter_weight_record.realm = registrar.realm;
    voter_weight_record.governing_token_mint = registrar.realm_governing_token_mint;
    voter_weight_record.governing_token_owner = voter_authority;
}

/// Creates a new voter account. There can only be a single voter per
/// voter_authority; the account comes freshly allocated, with no deposit
/// entry in use.
///
/// Creating voters from another program is forbidden: the instruction that
/// runs must belong to this program. On error nothing changes.
pub fn create_voter(
    program_id: Pubkey,
    current_instruction_program_id: Pubkey,
    registrar_key: Pubkey,
    registrar: &Registrar,
    voter: &mut Voter,
    voter_weight_record: &mut VoterWeightRecord,
    voter_authority: Pubkey,
    voter_bump: u8,
    voter_weight_record_bump: u8,
) -> (r: Result<(), ErrorCode>)
    requires
        old(voter).all_deposits_unused(),
    ensures
        !current_instruction_program_id.key_eq(program_id) ==> r == Err::<(), ErrorCode>(
            ErrorCode::ForbiddenCpi,
        ) && *final(voter) == *old(voter) && *final(voter_weight_record) == *old(
            voter_weight_record,
        ),
        current_instruction_program_id.key_eq(program_id) ==> {
            &&& r is Ok
            &&& final(voter).voter_bump == voter_bump
            &&& final(voter).voter_weight_record_bump == voter_weight_record_bump
            &&& final(voter).voter_authority == voter_authority
            &&& final(voter).registrar == registrar_key
            &&& final(voter).deposits@ == old(voter).deposits@
            &&& final(voter).last_deposit_slot == old(voter).last_deposit_slot
            &&& final(voter_weight_record).account_type == VoterWeightAccountType::VoterWeightRecord
            &&& final(voter_weight_record).realm == registrar.realm
            &&& final(voter_weight_record).governing_token_mint
                == registrar.realm_governing_token_mint
            &&& final(voter_weight_record).governing_token_owner == voter_authority
        },
{
    if !(current_instruction_program_id == program_id) {
        return Err(ErrorCode::ForbiddenCpi);
    }
    init_voter(
        registrar_key,
        registrar,
        voter,
        voter_weight_record,
        voter_authority,
        voter_bump,
        voter_weight_record_bump,
    );
    Ok(())
}

} // verus!
