use vstd::prelude::*;
use crate::pubkey::Pubkey;

verus! {

/// Exchange rate for an asset that can be used to mint voting rights.
#[derive(Clone, Copy, Debug)]
pub struct ExchangeRateEntry {
    /// Mint for this entry.
    pub mint: Pubkey,
    /// Exchange rate for 1.0 decimal-respecting unit of mint currency
    /// into the common vote currency.
    pub rate: u64,
    /// Mint decimals.
    pub mint_decimals: u8,
    /// Factor for converting mint native currency to common vote currency,
    /// including decimal handling.
    pub conversion_factor: u64,
}

impl Default for ExchangeRateEntry {
    fn default() -> (r: Self)
        ensures
            r.mint.is_zero(),
            r.rate == 0,
            r.mint_decimals == 0,
            r.conversion_factor == 0,
    {
        ExchangeRateEntry { mint: Pubkey::default(), rate: 0, mint_decimals: 0, conversion_factor: 0 }
    }
}

impl ExchangeRateEntry {
    /// Converts an amount in this ExchangeRateEntry's mint's native currency
    /// to the equivalent common registrar vote currency amount.
    pub fn convert(&self, amount_native: u64) -> (r: u64)
        requires
            amount_native * self.conversion_factor <= u64::MAX,
        ensures
            r == amount_native * self.conversion_factor,
    {
        amount_native.checked_mul(self.conversion_factor).unwrap()
    }
}

} // verus!
