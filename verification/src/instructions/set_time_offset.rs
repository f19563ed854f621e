use vstd::prelude::*;
use std::str::FromStr;
use crate::error::ErrorCode;
use crate::pubkey::Pubkey;
use crate::state::registrar::Registrar;

verus! {

/// The 32 bytes that a base58 text names as a Solana address, if it names one.
pub uninterp spec fn base58_pubkey(s: Seq<char>) -> Option<Seq<u8>>;

/// Parses a base58 address with `Pubkey::from_str` of anchor-lang (from
/// solana-program): the result is the address that the text names, or none
/// if the text is longer than 44 characters, not base58, or not 32 bytes.
#[verifier::external_body]
pub(crate) fn pubkey_from_str(s: &str) -> (r: Option<Pubkey>)
    ensures
        match r {
            Some(k) => base58_pubkey(s@) == Some(k.bytes@),
            None => base58_pubkey(s@) is None,
        },
{
    match anchor_lang::prelude::Pubkey::from_str(s) {
        Ok(k) => Some(Pubkey { bytes: k.to_bytes() }),
        Err(_) => None,
    }
}

/// Sets the debug time offset, which is allowed only on a registrar whose
/// governance program is `allowed_program`. On error nothing changes.
pub fn set_time_offset_for(registrar: &mut Registrar, allowed_program: Pubkey, time_offset: i64) -> (r:
    Result<(), ErrorCode>)
    ensures
        old(registrar).governance_program_id.key_eq(allowed_program) ==> r == Ok::<(), ErrorCode>(())
            && *final(registrar) == (Registrar { time_offset, ..*old(registrar) }),
        !old(registrar).governance_program_id.key_eq(allowed_program) ==> r == Err::<(), ErrorCode>(
            ErrorCode::DebugInstruction,
        ) && *final(registrar) == *old(registrar),
{
    if !(registrar.governance_program_id == allowed_program) {
        return Err(ErrorCode::DebugInstruction);
    }
    registrar.time_offset = time_offset;
    Ok(())
}

/// Debug instruction for moving time forward in tests: only registrars of
/// the test governance program `GovernanceProgram11111111111111111111111111`
/// accept it. Returns `None`, changing nothing, if that text does not parse
/// as an address.
pub fn set_time_offset(registrar: &mut Registrar, time_offset: i64) -> (r: Option<
    Result<(), ErrorCode>,
>)
    ensures
        match base58_pubkey("GovernanceProgram11111111111111111111111111"@) {
            None => r is None && *final(registrar) == *old(registrar),
            Some(allowed) => if old(registrar).governance_program_id.bytes@ == allowed {
                r == Some(Ok::<(), ErrorCode>(())) && *final(registrar) == (Registrar {
                    time_offset,
                    ..*old(registrar)
                })
            } else {
                r == Some(Err::<(), ErrorCode>(ErrorCode::DebugInstruction)) && *final(registrar)
                    == *old(registrar)
            },
        },
{
    match pubkey_from_str("GovernanceProgram11111111111111111111111111") {
        None => None,
        Some(allowed_program) => Some(set_time_offset_for(registrar, allowed_program, time_offset)),
    }
}

} // verus!
