use vstd::prelude::*;
use crate::error::ErrorCode;
use crate::state::registrar::Registrar;
use crate::state::voter::{Voter, weight_fits_upto};
use crate::state::voter_weight_record::VoterWeightRecord;

verus! {

/// Calculates the lockup-scaled, time-decayed voting power for the given
/// voter and writes it into its voter weight record, valid for the current
/// `slot` only. On error the record does not change.
pub fn update_voter_weight_record(
    registrar: &Registrar,
    voter: &Voter,
    voter_weight_record: &mut VoterWeightRecord,
    unix_timestamp: i64,
    slot: u64,
) -> (r: Result<(), ErrorCode>)
    requires
        i64::MIN <= unix_timestamp + registrar.time_offset <= i64::MAX,
        weight_fits_upto(
            voter.deposits@,
            registrar.voting_mints@,
            unix_timestamp + registrar.time_offset,
            32,
        ),
    ensures
        match voter.spec_weight(*registrar, unix_timestamp + registrar.time_offset) {
            Err(e) => r == Err::<(), ErrorCode>(e) && *final(voter_weight_record) == *old(
                voter_weight_record,
            ),
            Ok(w) => r is Ok && *final(voter_weight_record) == (VoterWeightRecord {
                voter_weight: w as u64,
                voter_weight_expiry: Some(slot),
                ..*old(voter_weight_record)
            }),
        },
{
    let weight = voter.weight(registrar, unix_timestamp)?;
    voter_weight_record.voter_weight = weight;
    voter_weight_record.voter_weight_expiry = Some(slot);
    Ok(())
}

} // verus!
