use vstd::prelude::*;
use crate::error::ErrorCode;
use crate::pubkey::Pubkey;
use crate::state::deposit_entry::{FIXED_VOTE_WEIGHT_FACTOR, LOCKING_VOTE_WEIGHT_FACTOR};
use crate::state::registrar::{Registrar, first_index_of};

verus! {

/// The supply of the first `n` mints in the registrar's common currency;
/// a mint without exchange rate ends the sum with an error.
pub open spec fn spec_total_supply_upto(
    registrar: Registrar,
    mints: Seq<(Pubkey, u64)>,
    n: nat,
) -> Result<int, ErrorCode>
    decreases n,
{
    if n == 0 {
        Ok(0)
    } else {
        match spec_total_supply_upto(registrar, mints, (n - 1) as nat) {
            Err(e) => Err(e),
            Ok(s) => match first_index_of(registrar.rate_mints(), mints[n - 1].0) {
                None => Err(ErrorCode::ExchangeRateEntryNotFound),
                Some(i) => Ok(s + mints[n - 1].1 * registrar.rates@[i].conversion_factor),
            },
        }
    }
}

/// Converting and summing the first `n` supplies stays within `u64`, up to
/// the first error.
pub open spec fn total_supply_fits_upto(
    registrar: Registrar,
    mints: Seq<(Pubkey, u64)>,
    n: nat,
) -> bool
    decreases n,
{
    n == 0 || {
        &&& total_supply_fits_upto(registrar, mints, (n - 1) as nat)
        &&& (spec_total_supply_upto(registrar, mints, (n - 1) as nat) is Ok && first_index_of(
            registrar.rate_mints(),
            mints[n - 1].0,
        ) is Some) ==> {
            let s = spec_total_supply_upto(registrar, mints, (n - 1) as nat)->Ok_0;
            let c = mints[n - 1].1 * registrar.rates@[first_index_of(
                registrar.rate_mints(),
                mints[n - 1].0,
            )->Some_0].conversion_factor;
            &&& c <= u64::MAX
            &&& s + c <= u64::MAX
        }
    }
}

pub proof fn lemma_total_supply_fits_prefix(
    registrar: Registrar,
    mints: Seq<(Pubkey, u64)>,
    k: nat,
    n: nat,
)
    requires
        k <= n,
        total_supply_fits_upto(registrar, mints, n),
    ensures
        total_supply_fits_upto(registrar, mints, k),
    decreases n,
{
    if k < n {
        lemma_total_supply_fits_prefix(registrar, mints, k, (n - 1) as nat);
    }
}

pub proof fn lemma_total_supply_err_propagates(
    registrar: Registrar,
    mints: Seq<(Pubkey, u64)>,
    k: nat,
    n: nat,
)
    requires
        k <= n,
        spec_total_supply_upto(registrar, mints, k) is Err,
    ensures
        spec_total_supply_upto(registrar, mints, n) == spec_total_supply_upto(registrar, mints, k),
    decreases n,
{
    if k < n {
        lemma_total_supply_err_propagates(registrar, mints, k, (n - 1) as nat);
    }
}

/// Calculates the max vote weight for the registry: the total supply of
/// all exchange rate mints, each given with its supply and converted into
/// the common currency, scaled by the vote weight factors.
///
/// This is only safe to use if the cumulative supply for all tokens fits
/// into a u64 *after* converting into common decimals.
pub fn update_max_vote_weight(registrar: &Registrar, mints: &Vec<(Pubkey, u64)>) -> (r: Result<
    u64,
    ErrorCode,
>)
    requires
        total_supply_fits_upto(*registrar, mints@, mints@.len()),
        spec_total_supply_upto(*registrar, mints@, mints@.len()) matches Ok(t) ==> t * (
        FIXED_VOTE_WEIGHT_FACTOR + LOCKING_VOTE_WEIGHT_FACTOR) <= u64::MAX,
    ensures
        match spec_total_supply_upto(*registrar, mints@, mints@.len()) {
            Err(e) => r == Err::<u64, ErrorCode>(e),
            Ok(t) => r == Ok::<u64, ErrorCode>(
                (t * (FIXED_VOTE_WEIGHT_FACTOR + LOCKING_VOTE_WEIGHT_FACTOR)) as u64,
            ),
        },
{
    let mut total: u64 = 0;
    let mut i: usize = 0;
    while i < mints.len()
        invariant
            i <= mints@.len(),
            total_supply_fits_upto(*registrar, mints@, mints@.len()),
            spec_total_supply_upto(*registrar, mints@, i as nat) == Ok::<int, ErrorCode>(
                total as int,
            ),
        decreases mints@.len() - i,
    {
        proof {
            lemma_total_supply_fits_prefix(*registrar, mints@, (i + 1) as nat, mints@.len());
        }
        let (mint, supply) = mints[i];
        let er_idx = match registrar.exchange_rate_index_for_mint(mint) {
            Ok(idx) => idx,
            Err(e) => {
                proof {
                    assert(spec_total_supply_upto(*registrar, mints@, (i + 1) as nat) == Err::<
                        int,
                        ErrorCode,
                    >(e));
                    lemma_total_supply_err_propagates(
                        *registrar,
                        mints@,
                        (i + 1) as nat,
                        mints@.len(),
                    );
                }
                return Err(e);
            },
        };
        let amount = registrar.rates[er_idx].convert(supply);
        total = total.checked_add(amount).unwrap();
        i = i + 1;
    }
    Ok(total.checked_mul(FIXED_VOTE_WEIGHT_FACTOR + LOCKING_VOTE_WEIGHT_FACTOR).unwrap())
}


/// The supply sum of the first `n` mints reads no mint at or beyond `n`.
pub proof fn lemma_total_supply_upto_prefix(
    registrar: Registrar,
    mints: Seq<(Pubkey, u64)>,
    other: Seq<(Pubkey, u64)>,
    n: nat,
)
    requires
        n <= mints.len(),
        n <= other.len(),
        forall|k: int| 0 <= k < n ==> mints[k] == other[k],
    ensures
        spec_total_supply_upto(registrar, mints, n) == spec_total_supply_upto(registrar, other, n),
    decreases n,
{
    if n > 0 {
        lemma_total_supply_upto_prefix(registrar, mints, other, (n - 1) as nat);
        assert(mints[n - 1] == other[n - 1]);
    }
}

/// The maximum vote weight counts every mint's supply, whichever exchange
/// rate it has: one more mint adds its supply times the conversion factor
/// of the first exchange rate for it, a mint without exchange rate makes
/// the sum fail, and an earlier failure stays. One mint alone counts its
/// converted supply.
pub proof fn law_max_vote_weight_adds_each_supply(
    registrar: Registrar,
    mints: Seq<(Pubkey, u64)>,
    mint: Pubkey,
    supply: u64,
)
    ensures
        ({
            let all = mints.push((mint, supply));
            match first_index_of(registrar.rate_mints(), mint) {
                None => spec_total_supply_upto(registrar, all, all.len()) == match spec_total_supply_upto(
                    registrar,
                    mints,
                    mints.len(),
                ) {
                    Err(e) => Err::<int, ErrorCode>(e),
                    Ok(_) => Err::<int, ErrorCode>(ErrorCode::ExchangeRateEntryNotFound),
                },
                Some(i) => spec_total_supply_upto(registrar, all, all.len()) == match spec_total_supply_upto(
                    registrar,
                    mints,
                    mints.len(),
                ) {
                    Err(e) => Err::<int, ErrorCode>(e),
                    Ok(s) => Ok::<int, ErrorCode>(
                        s + supply * registrar.rates@[i].conversion_factor,
                    ),
                },
            }
        }),
        first_index_of(registrar.rate_mints(), mint) matches Some(i) ==> spec_total_supply_upto(
            registrar,
            seq![(mint, supply)],
            1,
        ) == Ok::<int, ErrorCode>(supply * registrar.rates@[i].conversion_factor),
{
    let all = mints.push((mint, supply));
    lemma_total_supply_upto_prefix(registrar, mints, all, mints.len());
    assert(all[mints.len() as int] == (mint, supply));
    assert(all.len() == mints.len() + 1);
    assert(spec_total_supply_upto(registrar, all, all.len()) == match spec_total_supply_upto(
        registrar,
        all,
        mints.len(),
    ) {
        Err(e) => Err(e),
        Ok(s) => match first_index_of(registrar.rate_mints(), mint) {
            None => Err(ErrorCode::ExchangeRateEntryNotFound),
            Some(i) => Ok(s + supply * registrar.rates@[i].conversion_factor),
        },
    });
    let one = seq![(mint, supply)];
    assert(one[0] == (mint, supply));
    assert(spec_total_supply_upto(registrar, one, 0) == Ok::<int, ErrorCode>(0));
}

} // verus!
