use vstd::prelude::*;
use crate::error::ErrorCode;
use crate::math::{pow10, pow10_u128, lemma_pow10_bounds, lemma_pow10_monotonic, lemma_pow10_positive};
use crate::pubkey::Pubkey;

verus! {

/// Vote weight factors are expressed in units of one over this base.
pub const SCALED_FACTOR_BASE: u64 = 1_000_000_000;

/// Exchange rate for an asset that can be used to mint voting rights.
///
/// Native token amounts convert to vote weight by first shifting their
/// digits (`digit_shift`) and then applying a scaled factor.
#[derive(Clone, Copy, Debug)]
pub struct VotingMintConfig {
    /// Mint for this entry.
    pub mint: Pubkey,
    /// The authority that is allowed to push grants into voters
    pub grant_authority: Pubkey,
    /// Vote weight factor for unlocked deposits, in 1/SCALED_FACTOR_BASE units.
    pub unlocked_scaled_factor: u64,
    /// Maximum vote weight factor for lockups, in 1/SCALED_FACTOR_BASE units.
    pub lockup_scaled_factor: u64,
    /// Number of seconds of lockup needed to reach the maximum lockup bonus.
    pub lockup_saturation_secs: u64,
    /// Number of digits to shift native amounts, applying a 10^digit_shift factor.
    pub digit_shift: i8,
    /// Empty bytes for future upgrades.
    pub reserved1: [u8; 7],
    pub reserved2: [u64; 7],
}

impl Default for VotingMintConfig {
    fn default() -> (r: Self)
        ensures
            r.mint.is_zero(),
            r.grant_authority.is_zero(),
            r.unlocked_scaled_factor == 0,
            r.lockup_scaled_factor == 0,
            r.lockup_saturation_secs == 0,
            r.digit_shift == 0,
    {
        VotingMintConfig {
            mint: Pubkey::default(),
            grant_authority: Pubkey::default(),
            unlocked_scaled_factor: 0,
            lockup_scaled_factor: 0,
            lockup_saturation_secs: 0,
            digit_shift: 0,
            reserved1: [0u8; 7],
            reserved2: [0u64; 7],
        }
    }
}

/// A weight scaled by `factor / SCALED_FACTOR_BASE`, if it fits in a `u64`.
pub open spec fn spec_apply_factor(base_vote_weight: int, factor: int) -> Option<int> {
    let v = base_vote_weight * factor / (SCALED_FACTOR_BASE as int);
    if v <= u64::MAX {
        Some(v)
    } else {
        None
    }
}

/// The error every vote weight conversion reports when its result does not fit.
pub open spec fn weight_result(v: Option<int>) -> Result<u64, ErrorCode> {
    match v {
        Some(x) => Ok(x as u64),
        None => Err(ErrorCode::VoterWeightOverflow),
    }
}

impl VotingMintConfig {
    /// The digit shift is one that powers of ten in `u128` can apply.
    pub open spec fn shift_fits(self) -> bool {
        -38 <= self.digit_shift <= 38
    }

    /// The native amount with its digits shifted by `digit_shift`, if it fits in a `u64`.
    pub open spec fn spec_base_vote_weight(self, amount_native: int) -> Option<int> {
        if self.digit_shift < 0 {
            Some(amount_native / pow10((-self.digit_shift) as nat))
        } else {
            let v = amount_native * pow10(self.digit_shift as nat);
            if v <= u64::MAX {
                Some(v)
            } else {
                None
            }
        }
    }

    pub open spec fn spec_unlocked_vote_weight(self, amount_native: int) -> Option<int> {
        match self.spec_base_vote_weight(amount_native) {
            Some(b) => spec_apply_factor(b, self.unlocked_scaled_factor as int),
            None => None,
        }
    }

    pub open spec fn spec_max_lockup_vote_weight(self, amount_native: int) -> Option<int> {
        match self.spec_base_vote_weight(amount_native) {
            Some(b) => spec_apply_factor(b, self.lockup_scaled_factor as int),
            None => None,
        }
    }

    /// Converts an amount in this voting mints's native currency
    /// to the base vote weight (without the deposit or lockup scalings)
    /// by applying the digit_shift factor.
    pub fn base_vote_weight(&self, amount_native: u64) -> (r: Result<u64, ErrorCode>)
        requires
            self.shift_fits(),
        ensures
            r == weight_result(self.spec_base_vote_weight(amount_native as int)),
            self.spec_base_vote_weight(amount_native as int) matches Some(v) ==> 0 <= v <= u64::MAX,
    {
        proof {
            lemma_pow10_bounds();
            if self.digit_shift < 0 {
                lemma_pow10_positive((-self.digit_shift) as nat);
            } else {
                lemma_pow10_positive(self.digit_shift as nat);
                let p = pow10(self.digit_shift as nat);
                assert(amount_native * p >= 0) by (nonlinear_arith)
                    requires
                        amount_native >= 0,
                        p >= 1,
                ;
            }
        }
        let val: Option<u128> = if self.digit_shift < 0 {
            proof {
                lemma_pow10_monotonic((-self.digit_shift) as nat, 38);
                lemma_pow10_positive((-self.digit_shift) as nat);
            }
            let p = pow10_u128((-self.digit_shift) as u32);
            (amount_native as u128).checked_div(p)
        } else {
            proof {
                lemma_pow10_monotonic(self.digit_shift as nat, 38);
            }
            let p = pow10_u128(self.digit_shift as u32);
            (amount_native as u128).checked_mul(p)
        };
        match val {
            Some(v) => match u64::try_from(v) {
                Ok(w) => Ok(w),
                Err(_) => Err(ErrorCode::VoterWeightOverflow),
            },
            None => Err(ErrorCode::VoterWeightOverflow),
        }
    }

    /// Apply a factor in SCALED_FACTOR_BASE units.
    fn apply_factor(base_vote_weight: u64, factor: u64) -> (r: Result<u64, ErrorCode>)
        ensures
            r == weight_result(spec_apply_factor(base_vote_weight as int, factor as int)),
            spec_apply_factor(base_vote_weight as int, factor as int) matches Some(v) ==> 0 <= v
                <= u64::MAX,
    {
        assert(base_vote_weight * factor >= 0) by (nonlinear_arith)
            requires
                base_vote_weight >= 0,
                factor >= 0,
        ;
        assert(base_vote_weight * factor <= u128::MAX) by (nonlinear_arith)
            requires
                base_vote_weight <= u64::MAX,
                factor <= u64::MAX,
        ;
        let val = (base_vote_weight as u128).checked_mul(factor as u128);
        let val = match val {
            Some(v) => v.checked_div(SCALED_FACTOR_BASE as u128),
            None => None,
        };
        match val {
            Some(v) => match u64::try_from(v) {
                Ok(w) => Ok(w),
                Err(_) => Err(ErrorCode::VoterWeightOverflow),
            },
            None => Err(ErrorCode::VoterWeightOverflow),
        }
    }

    /// The vote weight a deposit of a number of native tokens should have.
    pub fn unlocked_vote_weight(&self, amount_native: u64) -> (r: Result<u64, ErrorCode>)
        requires
            self.shift_fits(),
        ensures
            r == weight_result(self.spec_unlocked_vote_weight(amount_native as int)),
            self.spec_unlocked_vote_weight(amount_native as int) matches Some(v) ==> 0 <= v
                <= u64::MAX,
    {
        let base = self.base_vote_weight(amount_native)?;
        Self::apply_factor(base, self.unlocked_scaled_factor)
    }

    /// The maximum vote weight a number of locked up native tokens can have.
    /// Will be multiplied with a factor between 0 and 1 for the lockup duration.
    pub fn max_lockup_vote_weight(&self, amount_native: u64) -> (r: Result<u64, ErrorCode>)
        requires
            self.shift_fits(),
        ensures
            r == weight_result(self.spec_max_lockup_vote_weight(amount_native as int)),
            self.spec_max_lockup_vote_weight(amount_native as int) matches Some(v) ==> 0 <= v
                <= u64::MAX,
    {
        let base = self.base_vote_weight(amount_native)?;
        Self::apply_factor(base, self.lockup_scaled_factor)
    }

    /// Whether this voting mint is configured: its mint is set.
    pub fn in_use(&self) -> (r: bool)
        ensures
            r == !self.mint.is_zero(),
    {
        let unset = Pubkey::default();
        let same = self.mint == unset;
        proof {
            if self.mint.is_zero() {
                assert(self.mint.bytes@ =~= unset.bytes@);
            }
        }
        !same
    }

    /// Do tokens of this mint contribute to voting weight?
    ///
    /// DAOs may configure mints without any vote weight contributions if they
    /// want to use the grant / vesting / clawback functionality for non-voting
    /// tokens like USDC.
    pub fn grants_vote_weight(&self) -> (r: bool)
        ensures
            r == (self.unlocked_scaled_factor > 0 || self.lockup_scaled_factor > 0),
    {
        self.unlocked_scaled_factor > 0 || self.lockup_scaled_factor > 0
    }
}

impl VotingMintConfig {
    /// Vote weights that could be computed lie in the `u64` range.
    pub proof fn lemma_vote_weights_in_range(self, deposited: int, locked: int)
        requires
            self.shift_fits(),
            0 <= deposited <= u64::MAX,
            0 <= locked <= u64::MAX,
        ensures
            self.spec_unlocked_vote_weight(deposited) matches Some(v) ==> 0 <= v <= u64::MAX,
            self.spec_max_lockup_vote_weight(locked) matches Some(v) ==> 0 <= v <= u64::MAX,
    {
        self.lemma_base_in_range(deposited);
        self.lemma_base_in_range(locked);
        if self.spec_base_vote_weight(deposited) is Some {
            let b = self.spec_base_vote_weight(deposited)->Some_0;
            assert(b * self.unlocked_scaled_factor >= 0) by (nonlinear_arith)
                requires
                    b >= 0,
                    self.unlocked_scaled_factor >= 0,
            ;
        }
        if self.spec_base_vote_weight(locked) is Some {
            let b = self.spec_base_vote_weight(locked)->Some_0;
            assert(b * self.lockup_scaled_factor >= 0) by (nonlinear_arith)
                requires
                    b >= 0,
                    self.lockup_scaled_factor >= 0,
            ;
        }
    }

    pub proof fn lemma_base_in_range(self, amount: int)
        requires
            0 <= amount <= u64::MAX,
        ensures
            self.spec_base_vote_weight(amount) matches Some(v) ==> 0 <= v <= u64::MAX,
    {
        if self.digit_shift < 0 {
            lemma_pow10_positive((-self.digit_shift) as nat);
            vstd::arithmetic::div_mod::lemma_div_is_ordered_by_denominator(
                amount,
                1,
                pow10((-self.digit_shift) as nat),
            );
            vstd::arithmetic::div_mod::lemma_div_pos_is_pos(amount, pow10((-self.digit_shift) as nat));
        } else {
            lemma_pow10_positive(self.digit_shift as nat);
            let p = pow10(self.digit_shift as nat);
            assert(amount * p >= 0) by (nonlinear_arith)
                requires
                    amount >= 0,
                    p >= 1,
            ;
        }
    }
}


impl VotingMintConfig {
    /// Digits shift first: a non-negative shift multiplies the native amount
    /// by `10^digit_shift` (no weight if that leaves `u64`), a negative one
    /// divides it by `10^-digit_shift`, rounding down. In particular a shift
    /// of zero keeps the amount as it is.
    pub proof fn law_base_vote_weight_shifts_digits(self, amount: int)
        requires
            0 <= amount <= u64::MAX,
        ensures
            self.digit_shift >= 0 ==> self.spec_base_vote_weight(amount) == if amount * pow10(
                self.digit_shift as nat,
            ) <= u64::MAX {
                Some(amount * pow10(self.digit_shift as nat))
            } else {
                None::<int>
            },
            self.digit_shift < 0 ==> self.spec_base_vote_weight(amount) == Some(
                amount / pow10((-self.digit_shift) as nat),
            ),
            self.digit_shift == 0 ==> self.spec_base_vote_weight(amount) == Some(amount),
    {
        assert(pow10(0) == 1);
        assert(amount * 1 == amount);
    }

    /// The configured factors scale the base weight: the unlocked weight is
    /// the base weight times `unlocked_scaled_factor / 1_000_000_000` and the
    /// maximum lockup weight the base weight times
    /// `lockup_scaled_factor / 1_000_000_000`, rounded down, each only where
    /// the result fits in a `u64`. A factor of `k` whole units multiplies the
    /// base weight by `k`: a factor of two units doubles it.
    pub proof fn law_vote_weights_apply_factors(self, amount: int)
        requires
            0 <= amount <= u64::MAX,
            self.spec_base_vote_weight(amount) is Some,
        ensures
            ({
                let b = self.spec_base_vote_weight(amount)->Some_0;
                let u = b * self.unlocked_scaled_factor / 1_000_000_000;
                let m = b * self.lockup_scaled_factor / 1_000_000_000;
                &&& self.spec_unlocked_vote_weight(amount) == if u <= u64::MAX {
                    Some(u)
                } else {
                    None::<int>
                }
                &&& self.spec_max_lockup_vote_weight(amount) == if m <= u64::MAX {
                    Some(m)
                } else {
                    None::<int>
                }
            }),
            forall|k: int|
                #![trigger k * 1_000_000_000]
                k >= 0 && self.unlocked_scaled_factor == k * 1_000_000_000
                    && self.spec_base_vote_weight(amount)->Some_0 * k <= u64::MAX
                    ==> self.spec_unlocked_vote_weight(amount) == Some(
                    self.spec_base_vote_weight(amount)->Some_0 * k,
                ),
            forall|k: int|
                #![trigger k * 1_000_000_000]
                k >= 0 && self.lockup_scaled_factor == k * 1_000_000_000
                    && self.spec_base_vote_weight(amount)->Some_0 * k <= u64::MAX
                    ==> self.spec_max_lockup_vote_weight(amount) == Some(
                    self.spec_base_vote_weight(amount)->Some_0 * k,
                ),
    {
        let b = self.spec_base_vote_weight(amount)->Some_0;
        assert forall|k: int|
            #![trigger k * 1_000_000_000]
            k >= 0 ==> (b * (k * 1_000_000_000)) / 1_000_000_000 == b * k by {
            if k >= 0 {
                assert(b * (k * 1_000_000_000) == (b * k) * 1_000_000_000) by (nonlinear_arith);
                vstd::arithmetic::div_mod::lemma_div_multiples_vanish(b * k, 1_000_000_000);
                assert(1_000_000_000 * (b * k) == (b * k) * 1_000_000_000) by (nonlinear_arith);
            }
        }
    }
}

} // verus!
