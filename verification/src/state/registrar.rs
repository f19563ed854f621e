use vstd::prelude::*;
use crate::error::ErrorCode;
use crate::math::{pow10, pow10_u64};
use crate::pubkey::Pubkey;
use crate::state::exchange_entry::ExchangeRateEntry;
use crate::state::voting_mint_config::VotingMintConfig;

verus! {

/// Instance of a voting rights distributor.
#[derive(Clone, Copy, Debug)]
pub struct Registrar {
    pub governance_program_id: Pubkey,
    pub realm: Pubkey,
    pub realm_governing_token_mint: Pubkey,
    pub realm_authority: Pubkey,
    pub clawback_authority: Pubkey,
    pub bump: u8,
    /// The length should be adjusted for one's use case.
    pub rates: [ExchangeRateEntry; 2],
    /// The decimals to use when converting deposits into a common currency.
    ///
    /// This must be larger or equal to the max of decimals over all accepted
    /// token mints.
    pub vote_weight_decimals: u8,
    /// Debug only: time offset, to allow tests to move forward in time.
    pub time_offset: i64,
    /// The mints whose tokens can be deposited, with their vote weight factors.
    pub voting_mints: [VotingMintConfig; 4],
}

/// The first index in `keys` that holds `key`, if any.
pub open spec fn first_index_of(keys: Seq<Pubkey>, key: Pubkey) -> Option<int> {
    if exists|i: int| 0 <= i < keys.len() && (#[trigger] keys[i]).key_eq(key) {
        Some(
            choose|i: int|
                0 <= i < keys.len() && (#[trigger] keys[i]).key_eq(key) && forall|j: int|
                    0 <= j < i ==> !(#[trigger] keys[j]).key_eq(key),
        )
    } else {
        None
    }
}

/// A scan from the front finds the first index that holds the key.
pub proof fn lemma_first_index_of(keys: Seq<Pubkey>, key: Pubkey, i: int)
    requires
        0 <= i < keys.len(),
        keys[i].key_eq(key),
        forall|j: int| 0 <= j < i ==> !(#[trigger] keys[j]).key_eq(key),
    ensures
        first_index_of(keys, key) == Some(i),
{
    let k = choose|k: int|
        0 <= k < keys.len() && (#[trigger] keys[k]).key_eq(key) && forall|j: int|
            0 <= j < k ==> !(#[trigger] keys[j]).key_eq(key);
    assert(0 <= i < keys.len() && keys[i].key_eq(key) && forall|j: int|
        0 <= j < i ==> !(#[trigger] keys[j]).key_eq(key));
    if k < i {
        assert(!keys[k].key_eq(key));
    } else if k > i {
        assert(!keys[i].key_eq(key));
    }
}

impl Registrar {
    pub open spec fn rate_mints(self) -> Seq<Pubkey> {
        Seq::new(2, |i: int| self.rates@[i].mint)
    }

    pub open spec fn voting_mint_keys(self) -> Seq<Pubkey> {
        Seq::new(4, |i: int| self.voting_mints@[i].mint)
    }

    /// A new exchange rate can be built: the power of ten for the decimal
    /// difference and its product with the rate fit in a `u64`.
    pub open spec fn new_rate_fits(self, mint_decimals: u8, rate: u64) -> bool {
        self.vote_weight_decimals >= mint_decimals ==> {
            let diff = (self.vote_weight_decimals - mint_decimals) as nat;
            &&& pow10(diff) <= u64::MAX
            &&& rate * pow10(diff) <= u64::MAX
        }
    }

    /// An exchange rate entry for `mint`, converting its native amounts to the
    /// registrar's common decimals.
    pub fn new_rate(&self, mint: Pubkey, mint_decimals: u8, rate: u64) -> (r: Result<
        ExchangeRateEntry,
        ErrorCode,
    >)
        requires
            self.new_rate_fits(mint_decimals, rate),
        ensures
            self.vote_weight_decimals < mint_decimals ==> r == Err::<ExchangeRateEntry, ErrorCode>(
                ErrorCode::InvalidDecimals,
            ),
            self.vote_weight_decimals >= mint_decimals ==> (r matches Ok(e) && e.mint == mint
                && e.rate == rate && e.mint_decimals == mint_decimals && e.conversion_factor
                == rate * pow10((self.vote_weight_decimals - mint_decimals) as nat)),
    {
        if !(self.vote_weight_decimals >= mint_decimals) {
            return Err(ErrorCode::InvalidDecimals);
        }
        let decimal_diff = self.vote_weight_decimals.checked_sub(mint_decimals).unwrap();
        let factor = pow10_u64(decimal_diff as u32);
        Ok(
            ExchangeRateEntry {
                mint,
                rate,
                mint_decimals,
                conversion_factor: rate.checked_mul(factor).unwrap(),
            },
        )
    }

    /// The registrar's clock: the cluster's unix timestamp plus the debug offset.
    pub fn clock_unix_timestamp(&self, unix_timestamp: i64) -> (r: i64)
        requires
            i64::MIN <= unix_timestamp + self.time_offset <= i64::MAX,
        ensures
            r == unix_timestamp + self.time_offset,
    {
        unix_timestamp + self.time_offset
    }

    /// The index of the exchange rate entry for `mint`.
    pub fn exchange_rate_index_for_mint(&self, mint: Pubkey) -> (r: Result<usize, ErrorCode>)
        ensures
            match first_index_of(self.rate_mints(), mint) {
                Some(i) => r == Ok::<usize, ErrorCode>(i as usize),
                None => r == Err::<usize, ErrorCode>(ErrorCode::ExchangeRateEntryNotFound),
            },
    {
        let mut i: usize = 0;
        while i < 2
            invariant
                i <= 2,
                forall|j: int| 0 <= j < i ==> !(#[trigger] self.rate_mints()[j]).key_eq(mint),
            decreases 2 - i,
        {
            if self.rates[i].mint == mint {
                proof {
                    lemma_first_index_of(self.rate_mints(), mint, i as int);
                }
                return Ok(i);
            }
            i = i + 1;
        }
        Err(ErrorCode::ExchangeRateEntryNotFound)
    }

    /// The index of the voting mint configuration for `mint`.
    pub fn voting_mint_config_index(&self, mint: Pubkey) -> (r: Result<usize, ErrorCode>)
        ensures
            match first_index_of(self.voting_mint_keys(), mint) {
                Some(i) => r == Ok::<usize, ErrorCode>(i as usize),
                None => r == Err::<usize, ErrorCode>(ErrorCode::VotingMintNotFound),
            },
    {
        let mut i: usize = 0;
        while i < 4
            invariant
                i <= 4,
                forall|j: int| 0 <= j < i ==> !(#[trigger] self.voting_mint_keys()[j]).key_eq(mint),
            decreases 4 - i,
        {
            if self.voting_mints[i].mint == mint {
                proof {
                    lemma_first_index_of(self.voting_mint_keys(), mint, i as int);
                }
                return Ok(i);
            }
            i = i + 1;
        }
        Err(ErrorCode::VotingMintNotFound)
    }
}

} // verus!
