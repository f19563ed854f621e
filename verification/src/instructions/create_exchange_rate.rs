use vstd::prelude::*;
use crate::error::ErrorCode;
use crate::math::pow10;
use crate::pubkey::Pubkey;
use crate::state::registrar::Registrar;

verus! {

/// The error creating an exchange rate reports, if any.
pub open spec fn spec_create_exchange_rate_error(
    registrar: Registrar,
    idx: u16,
    rate: u64,
    decimals: u8,
) -> Option<ErrorCode> {
    if !(rate > 0) {
        Some(ErrorCode::InvalidRate)
    } else if idx >= 2 {
        Some(ErrorCode::OutOfBoundsRatesIndex)
    } else if registrar.rates@[idx as int].rate != 0 {
        Some(ErrorCode::RatesIndexAlreadyInUse)
    } else if registrar.vote_weight_decimals < decimals {
        Some(ErrorCode::InvalidDecimals)
    } else {
        None
    }
}

/// Creates a new exchange rate for a given mint. This allows a voter to
/// deposit the mint in exchange for vote weight. There can only be a single
/// exchange rate per mint.
///
/// `idx`: index of the rate to be set
/// `rate`: multiplier to apply for converting tokens to vote weight
/// `decimals`: number of decimals of mint that make one unit of token
///
/// The vote weight for one native token will be
/// `rate * 10^vote_weight_decimals / 10^decimals`. On error nothing changes.
pub fn create_exchange_rate(
    registrar: &mut Registrar,
    mint: Pubkey,
    idx: u16,
    rate: u64,
    decimals: u8,
) -> (r: Result<(), ErrorCode>)
    requires
        spec_create_exchange_rate_error(*old(registrar), idx, rate, decimals) is None
            ==> old(registrar).new_rate_fits(decimals, rate),
    ensures
        match spec_create_exchange_rate_error(*old(registrar), idx, rate, decimals) {
            Some(e) => r == Err::<(), ErrorCode>(e) && *final(registrar) == *old(registrar),
            None => {
                let e = final(registrar).rates@[idx as int];
                &&& r is Ok
                &&& *final(registrar) == Registrar { rates: final(registrar).rates, ..*old(registrar) }
                &&& final(registrar).rates@[1 - idx] == old(registrar).rates@[1 - idx]
                &&& e.mint == mint
                &&& e.rate == rate
                &&& e.mint_decimals == decimals
                &&& e.conversion_factor == rate * pow10(
                    (old(registrar).vote_weight_decimals - decimals) as nat,
                )
            },
        },
{
    if !(rate > 0) {
        return Err(ErrorCode::InvalidRate);
    }
    if !((idx as usize) < 2) {
        return Err(ErrorCode::OutOfBoundsRatesIndex);
    }
    if !(registrar.rates[idx as usize].rate == 0) {
        return Err(ErrorCode::RatesIndexAlreadyInUse);
    }
    let entry = registrar.new_rate(mint, decimals, rate)?;
    registrar.rates[idx as usize] = entry;
    Ok(())
}

} // verus!
