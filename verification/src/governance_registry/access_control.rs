use vstd::prelude::*;
use crate::governance_registry::account::Registrar;
use crate::governance_registry::error::ErrorCode;

verus! {

/// The error the exchange rate slot `idx` reports, if any: the index must
/// name one of the registrar's slots, and that slot must be unused.
pub open spec fn spec_rate_is_empty(registrar: Registrar, idx: u16) -> Result<(), ErrorCode> {
    if idx >= 2 {
        Err(ErrorCode::InvalidIndex)
    } else if registrar.rates@[idx as int].rate != 0 {
        Err(ErrorCode::RateNotZero)
    } else {
        Ok(())
    }
}

/// Checks that the exchange rate slot `idx` exists and is still empty.
pub fn rate_is_empty(registrar: &Registrar, idx: u16) -> (r: Result<(), ErrorCode>)
    ensures
        r == spec_rate_is_empty(*registrar, idx),
{
    if !((idx as usize) < registrar.rates.len()) {
        return Err(ErrorCode::InvalidIndex);
    }
    if !(registrar.rates[idx as usize].rate == 0) {
        return Err(ErrorCode::RateNotZero);
    }
    Ok(())
}

} // verus!
