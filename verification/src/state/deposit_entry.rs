use vstd::prelude::*;
use crate::error::ErrorCode;
use crate::state::lockup::{
    Lockup, LockupKind, SECS_PER_DAY, SECS_PER_MONTH, lemma_ceil_div, lemma_ceil_div_unique, zero_padding,
};
use crate::state::voting_mint_config::VotingMintConfig;

verus! {

/// Vote weight is `amount * FIXED_VOTE_WEIGHT_FACTOR` plus
/// `LOCKING_VOTE_WEIGHT_FACTOR * amount * time / max time`; the maximum vote
/// weight of the registry scales the supply by their sum.
pub const FIXED_VOTE_WEIGHT_FACTOR: u64 = 1;
pub const LOCKING_VOTE_WEIGHT_FACTOR: u64 = 0;

/// Bookkeeping for a single deposit for a given mint and lockup schedule.
#[derive(Clone, Copy, Debug)]
pub struct DepositEntry {
    /// Locked state.
    pub lockup: Lockup,
    /// Amount in deposited, in native currency. Withdraws of vested tokens
    /// directly reduce this amount.
    ///
    /// This directly tracks the total amount added by the user. They may
    /// never withdraw more than this amount.
    pub amount_deposited_native: u64,
    /// Amount in locked when the lockup began, in native currency.
    ///
    /// Note that this is not adjusted for withdraws. It is possible for this
    /// value to be bigger than amount_deposited_native after some vesting
    /// and withdrawals.
    ///
    /// This value is needed to compute the amount that vests each peroid,
    /// which should not change due to withdraws.
    pub amount_initially_locked_native: u64,
    /// True if the deposit entry is being used.
    pub is_used: bool,
    /// If the clawback authority is allowed to extract locked tokens.
    pub allow_clawback: bool,
    /// Points to the VotingMintConfig this deposit uses.
    pub voting_mint_config_idx: u8,
    pub padding: [u8; 13],
}

/// The unused bytes of a fresh deposit entry: all zero.
pub open spec fn zero_entry_padding() -> [u8; 13] {
    [0u8, 0u8, 0u8, 0u8, 0u8, 0u8, 0u8, 0u8, 0u8, 0u8, 0u8, 0u8, 0u8]
}

impl Default for DepositEntry {
    fn default() -> (r: Self)
        ensures
            r.is_unused_default(),
    {
        let padding = [0u8; 13];
        assert(padding == zero_entry_padding());
        DepositEntry {
            lockup: Lockup::default(),
            amount_deposited_native: 0,
            amount_initially_locked_native: 0,
            is_used: false,
            allow_clawback: false,
            voting_mint_config_idx: 0,
            padding,
        }
    }
}

pub open spec fn min_int(a: int, b: int) -> int {
    if a <= b {
        a
    } else {
        b
    }
}

/// The seconds that `n` vesting cliffs count toward the lockup bonus: the
/// k-th cliff (counting from 1) vests `first + (k - 1) * ps` seconds from
/// now, and no cliff counts for more than `sat` seconds.
pub open spec fn cliff_secs_sum(first: int, ps: int, sat: int, n: nat) -> int
    decreases n,
{
    if n == 0 {
        0
    } else {
        cliff_secs_sum(first, ps, sat, (n - 1) as nat) + min_int(first + (n - 1) * ps, sat)
    }
}

/// `0 + 1 + ... + (q - 1)`.
pub open spec fn triangle(q: nat) -> int
    decreases q,
{
    if q == 0 {
        0
    } else {
        triangle((q - 1) as nat) + (q - 1)
    }
}

pub proof fn lemma_triangle(q: nat)
    ensures
        2 * triangle(q) == q * (q - 1),
        triangle(q) >= 0,
        q * (q - 1) / 2 == triangle(q),
    decreases q,
{
    if q > 0 {
        lemma_triangle((q - 1) as nat);
        assert(q * (q - 1) == (q - 1) * (q - 2) + 2 * (q - 1)) by (nonlinear_arith);
    }
}

/// For a whole number `k` of periods of length `p > 0`: `k <= x / p` exactly
/// when `k * p <= x`.
pub proof fn lemma_floor_le(k: int, x: int, p: int)
    requires
        p > 0,
    ensures
        k <= x / p <==> k * p <= x,
{
    vstd::arithmetic::div_mod::lemma_fundamental_div_mod(x, p);
    let d = x / p;
    let m = x % p;
    assert(0 <= m < p);
    if k <= d {
        assert(k * p <= d * p) by (nonlinear_arith)
            requires
                k <= d,
                p > 0,
        ;
        assert(d * p == p * d) by (nonlinear_arith);
    } else {
        assert(k * p >= (d + 1) * p) by (nonlinear_arith)
            requires
                k >= d + 1,
                p > 0,
        ;
        assert((d + 1) * p == p * d + p) by (nonlinear_arith);
    }
}

/// Every cliff counts between one second and `sat`: the sum of `n` cliffs is
/// between `n` and `n * sat`.
pub proof fn lemma_cliff_secs_sum_bounds(first: int, ps: int, sat: int, n: nat)
    requires
        first >= 1,
        ps >= 0,
        sat >= 1,
    ensures
        n <= cliff_secs_sum(first, ps, sat, n) <= n * sat,
    decreases n,
{
    if n > 0 {
        lemma_cliff_secs_sum_bounds(first, ps, sat, (n - 1) as nat);
        assert((n - 1) * ps >= 0) by (nonlinear_arith)
            requires
                n >= 1,
                ps >= 0,
        ;
        assert((n - 1) * sat + sat == n * sat) by (nonlinear_arith);
    }
}

/// Cliffs that all lie at or beyond saturation count `sat` each.
pub proof fn lemma_cliff_secs_sum_saturated(first: int, ps: int, sat: int, n: nat)
    requires
        ps >= 0,
        first >= sat,
    ensures
        cliff_secs_sum(first, ps, sat, n) == n * sat,
    decreases n,
{
    if n > 0 {
        lemma_cliff_secs_sum_saturated(first, ps, sat, (n - 1) as nat);
        assert((n - 1) * ps >= 0) by (nonlinear_arith)
            requires
                n >= 1,
                ps >= 0,
        ;
        assert(min_int(first + (n - 1) * ps, sat) == sat);
        assert((n - 1) * sat + sat == n * sat) by (nonlinear_arith);
        assert(cliff_secs_sum(first, ps, sat, n) == cliff_secs_sum(first, ps, sat, (n - 1) as nat)
            + min_int(first + (n - 1) * ps, sat));
    } else {
        assert(n * sat == 0) by (nonlinear_arith)
            requires
                n == 0,
        ;
    }
}

/// The closed form of the cliff sum: the first `q` cliffs are below
/// saturation and count `first + (k - 1) * ps` each, the remaining `n - q`
/// count `sat` each, where `q` is the number of cliffs that vest within
/// saturation.
#[verifier::spinoff_prover]
pub proof fn lemma_cliff_secs_sum_closed_form(first: int, ps: int, sat: int, n: nat)
    requires
        ps > 0,
        1 <= first <= sat,
    ensures
        ({
            let q = min_int((sat + ps - first) / ps, n as int);
            &&& 1 <= (sat + ps - first) / ps
            &&& 0 <= q <= n
            &&& cliff_secs_sum(first, ps, sat, n) == q * first + triangle(q as nat) * ps + (n - q)
                * sat
        }),
    decreases n,
{
    let l = (sat + ps - first) / ps;
    lemma_floor_le(1, sat + ps - first, ps);
    if n > 0 {
        lemma_cliff_secs_sum_closed_form(first, ps, sat, (n - 1) as nat);
        lemma_floor_le(n as int, sat + ps - first, ps);
        assert(n * ps <= sat + ps - first <==> first + (n - 1) * ps <= sat) by (nonlinear_arith);
        let q = min_int(l, n as int);
        if n <= l {
            assert(q == n);
            assert(triangle(n) == triangle((n - 1) as nat) + (n - 1));
            assert((n - 1) * first + triangle((n - 1) as nat) * ps + first + (n - 1) * ps == n
                * first + (triangle((n - 1) as nat) + (n - 1)) * ps) by (nonlinear_arith);
        } else {
            assert(q == l);
            assert((n - 1 - l) * sat + sat == (n - l) * sat) by (nonlinear_arith);
        }
    }
}

impl DepositEntry {
    /// The entry is what `Default` gives: unused, empty and without lockup.
    pub open spec fn is_unused_default(self) -> bool {
        &&& !self.is_used
        &&& !self.allow_clawback
        &&& self.amount_deposited_native == 0
        &&& self.amount_initially_locked_native == 0
        &&& self.voting_mint_config_idx == 0
        &&& self.lockup.kind == LockupKind::NoLockup
        &&& self.lockup.start_ts == 0
        &&& self.lockup.end_ts == 0
        &&& self.lockup.padding == zero_padding()
        &&& self.padding == zero_entry_padding()
    }

    /// The entry holding `amount` deposited tokens, all else unchanged.
    pub open spec fn spec_with_deposited(self, amount: int) -> DepositEntry {
        DepositEntry { amount_deposited_native: amount as u64, ..self }
    }

    /// Seconds from now to the next vesting cliff of a linear vesting lockup.
    pub open spec fn spec_secs_to_closest_cliff(self, curr_ts: int) -> int {
        self.lockup.spec_seconds_left(curr_ts) - self.lockup.period_len() * (
        self.lockup.spec_periods_left(curr_ts)->Ok_0 - 1)
    }

    /// The seconds all remaining vesting cliffs count toward the lockup bonus.
    pub open spec fn spec_locked_secs(self, curr_ts: int, lockup_saturation_secs: int) -> int {
        cliff_secs_sum(
            self.spec_secs_to_closest_cliff(curr_ts),
            self.lockup.period_len(),
            lockup_saturation_secs,
            self.lockup.spec_periods_left(curr_ts)->Ok_0 as nat,
        )
    }

    /// Vote power of a linear vesting lockup, seen as one cliff lockup per
    /// remaining period, each holding one `periods_total`-th of the tokens:
    /// `max_locked_vote_weight * locked_secs / (periods_total * saturation)`.
    pub open spec fn spec_voting_power_linear_vesting(
        self,
        curr_ts: int,
        max_locked_vote_weight: int,
        lockup_saturation_secs: int,
    ) -> Result<int, ErrorCode> {
        match self.lockup.spec_periods_total() {
            Err(e) => Err(e),
            Ok(total) => if self.lockup.spec_periods_left(curr_ts)->Ok_0 == 0 {
                Ok(0)
            } else {
                Ok(
                    max_locked_vote_weight * self.spec_locked_secs(curr_ts, lockup_saturation_secs)
                        / (total * lockup_saturation_secs),
                )
            },
        }
    }

    /// The linear vesting computation stays within `u64` and never divides by zero.
    pub open spec fn linear_vesting_fits(self, curr_ts: int, lockup_saturation_secs: int) -> bool {
        &&& self.lockup.secs_fit(curr_ts)
        &&& self.lockup.total_fits()
        &&& self.lockup.left_fits(curr_ts)
        &&& (self.lockup.spec_periods_total() is Ok && self.lockup.spec_periods_left(
            curr_ts,
        )->Ok_0 > 0) ==> {
            &&& self.lockup.spec_periods_total()->Ok_0 * lockup_saturation_secs <= u64::MAX
            &&& lockup_saturation_secs > 0
            &&& lockup_saturation_secs + self.lockup.period_len() <= u64::MAX
            &&& self.spec_locked_secs(curr_ts, lockup_saturation_secs) <= u64::MAX
        }
    }

    /// Vote power of a cliff lockup: the full weight scaled by the time left,
    /// capped at saturation.
    pub open spec fn spec_voting_power_cliff(
        self,
        curr_ts: int,
        max_locked_vote_weight: int,
        lockup_saturation_secs: int,
    ) -> int {
        max_locked_vote_weight * min_int(
            self.lockup.spec_seconds_left(curr_ts),
            lockup_saturation_secs,
        ) / lockup_saturation_secs
    }

    pub open spec fn spec_voting_power_locked(
        self,
        curr_ts: int,
        max_locked_vote_weight: int,
        lockup_saturation_secs: int,
    ) -> Result<int, ErrorCode> {
        if self.lockup.spec_expired(curr_ts) || max_locked_vote_weight == 0 {
            Ok(0)
        } else {
            match self.lockup.kind {
                LockupKind::NoLockup => Ok(0),
                LockupKind::Daily | LockupKind::Monthly => self.spec_voting_power_linear_vesting(
                    curr_ts,
                    max_locked_vote_weight,
                    lockup_saturation_secs,
                ),
                LockupKind::Cliff | LockupKind::Constant => Ok(
                    self.spec_voting_power_cliff(
                        curr_ts,
                        max_locked_vote_weight,
                        lockup_saturation_secs,
                    ),
                ),
            }
        }
    }

    /// The locked vote power computation neither overflows nor divides by zero.
    pub open spec fn voting_power_locked_fits(
        self,
        curr_ts: int,
        max_locked_vote_weight: int,
        lockup_saturation_secs: int,
    ) -> bool {
        &&& self.lockup.secs_fit(curr_ts)
        &&& !(self.lockup.spec_expired(curr_ts) || max_locked_vote_weight == 0) ==> match self.lockup.kind {
            LockupKind::Daily | LockupKind::Monthly => self.linear_vesting_fits(
                curr_ts,
                lockup_saturation_secs,
            ),
            LockupKind::Cliff | LockupKind::Constant => lockup_saturation_secs > 0,
            LockupKind::NoLockup => true,
        }
    }

    /// Vote power contribution from locked funds only.
    pub fn voting_power_locked(
        &self,
        curr_ts: i64,
        max_locked_vote_weight: u64,
        lockup_saturation_secs: u64,
    ) -> (r: Result<u64, ErrorCode>)
        requires
            self.voting_power_locked_fits(
                curr_ts as int,
                max_locked_vote_weight as int,
                lockup_saturation_secs as int,
            ),
        ensures
            match (
                r,
                self.spec_voting_power_locked(
                    curr_ts as int,
                    max_locked_vote_weight as int,
                    lockup_saturation_secs as int,
                ),
            ) {
                (Ok(v), Ok(s)) => v == s,
                (Err(e), Err(s)) => e == s,
                _ => false,
            },
            r matches Ok(v) ==> v <= max_locked_vote_weight,
    {
        if self.lockup.expired(curr_ts) || max_locked_vote_weight == 0 {
            return Ok(0);
        }
        match self.lockup.kind {
            LockupKind::NoLockup => Ok(0),
            LockupKind::Daily => self.voting_power_linear_vesting(
                curr_ts,
                max_locked_vote_weight,
                lockup_saturation_secs,
            ),
            LockupKind::Monthly => self.voting_power_linear_vesting(
                curr_ts,
                max_locked_vote_weight,
                lockup_saturation_secs,
            ),
            LockupKind::Cliff => Ok(
                self.voting_power_cliff(curr_ts, max_locked_vote_weight, lockup_saturation_secs),
            ),
            LockupKind::Constant => Ok(
                self.voting_power_cliff(curr_ts, max_locked_vote_weight, lockup_saturation_secs),
            ),
        }
    }

    /// Vote power contribution from cliff-locked funds.
    fn voting_power_cliff(
        &self,
        curr_ts: i64,
        max_locked_vote_weight: u64,
        lockup_saturation_secs: u64,
    ) -> (r: u64)
        requires
            self.lockup.secs_fit(curr_ts as int),
            lockup_saturation_secs > 0,
        ensures
            r == self.spec_voting_power_cliff(
                curr_ts as int,
                max_locked_vote_weight as int,
                lockup_saturation_secs as int,
            ),
            r <= max_locked_vote_weight,
    {
        let secs_left = self.lockup.seconds_left(curr_ts);
        let remaining = if secs_left < lockup_saturation_secs {
            secs_left
        } else {
            lockup_saturation_secs
        };
        proof {
            let w = max_locked_vote_weight as int;
            let rem = remaining as int;
            let sat = lockup_saturation_secs as int;
            assert(w * rem <= w * sat) by (nonlinear_arith)
                requires
                    0 <= rem <= sat,
                    w >= 0,
            ;
            assert(w * rem <= u128::MAX) by (nonlinear_arith)
                requires
                    0 <= w <= u64::MAX,
                    0 <= rem <= u64::MAX,
            ;
            assert(w * rem >= 0) by (nonlinear_arith)
                requires
                    0 <= w,
                    0 <= rem,
            ;
            vstd::arithmetic::div_mod::lemma_div_is_ordered(w * rem, w * sat, sat);
            vstd::arithmetic::div_mod::lemma_div_multiples_vanish(w, sat);
            assert(sat * w == w * sat) by (nonlinear_arith);
        }
        let v = (max_locked_vote_weight as u128).checked_mul(remaining as u128).unwrap().checked_div(
            lockup_saturation_secs as u128,
        ).unwrap();
        u64::try_from(v).unwrap()
    }

    /// Vote power contribution from funds with linear vesting.
    ///
    /// Linear vesting is treated as a sequence of vesting cliffs, one per
    /// period left, each with `max_locked_vote_weight / periods_total` of the
    /// weight. With `q` the number of cliffs that vest before saturation and
    /// `r` the others, the seconds they count sum to
    /// `q * secs_to_closest_cliff + period_secs * q * (q - 1) / 2 + r * lockup_saturation_secs`.
    fn voting_power_linear_vesting(
        &self,
        curr_ts: i64,
        max_locked_vote_weight: u64,
        lockup_saturation_secs: u64,
    ) -> (r: Result<u64, ErrorCode>)
        requires
            self.lockup.kind == LockupKind::Daily || self.lockup.kind == LockupKind::Monthly,
            self.linear_vesting_fits(curr_ts as int, lockup_saturation_secs as int),
        ensures
            match (
                r,
                self.spec_voting_power_linear_vesting(
                    curr_ts as int,
                    max_locked_vote_weight as int,
                    lockup_saturation_secs as int,
                ),
            ) {
                (Ok(v), Ok(s)) => v == s,
                (Err(e), Err(s)) => e == s,
                _ => false,
            },
            r matches Ok(v) ==> v <= max_locked_vote_weight,
    {
        let periods_left = self.lockup.periods_left(curr_ts)?;
        let periods_total = self.lockup.periods_total()?;
        let period_secs = self.lockup.kind.period_secs();

        if periods_left == 0 {
            return Ok(0);
        }
        proof {
            self.lockup.lemma_periods_partition(curr_ts as int);
            let sl = self.lockup.spec_seconds_left(curr_ts as int);
            if curr_ts < self.lockup.start_ts {
                let d = self.lockup.spec_seconds_left(self.lockup.start_ts as int);
                vstd::arithmetic::div_mod::lemma_fundamental_div_mod(d, period_secs as int);
                assert(d == periods_total * period_secs) by (nonlinear_arith)
                    requires
                        d == period_secs * (d / period_secs as int) + d % period_secs as int,
                        d % period_secs as int == 0,
                        periods_total == d / period_secs as int,
                ;
                assert(sl >= d);
            } else {
                lemma_ceil_div(sl, period_secs as int);
            }
            assert(period_secs * (periods_left - 1) < sl) by (nonlinear_arith)
                requires
                    (periods_left - 1) * period_secs < sl || (periods_left * period_secs <= sl
                        && periods_left >= 1),
                    period_secs > 0,
            ;
            assert(period_secs * (periods_left - 1) >= 0) by (nonlinear_arith)
                requires
                    periods_left >= 1,
                    period_secs > 0,
            ;
        }

        let denominator = periods_total * lockup_saturation_secs;

        let secs_to_closest_cliff = self.lockup.seconds_left(curr_ts).checked_sub(
            period_secs * (periods_left - 1),
        ).unwrap();

        // A cliff that vests beyond saturation counts the saturation; when
        // even the closest one does, no cliff vests before saturation.
        let lockup_saturation_periods = if secs_to_closest_cliff <= lockup_saturation_secs
            + period_secs {
            (lockup_saturation_secs + period_secs - secs_to_closest_cliff) / period_secs
        } else {
            0
        };
        let q = if lockup_saturation_periods < periods_left {
            lockup_saturation_periods
        } else {
            periods_left
        };
        let r = if q < periods_left {
            periods_left - q
        } else {
            0
        };

        let ghost first = secs_to_closest_cliff as int;
        let ghost ps = period_secs as int;
        let ghost sat = lockup_saturation_secs as int;
        let ghost n = periods_left as nat;
        proof {
            lemma_cliff_secs_sum_bounds(first, ps, sat, n);
            lemma_triangle(q as nat);
            if first <= sat {
                lemma_cliff_secs_sum_closed_form(first, ps, sat, n);
            } else {
                lemma_cliff_secs_sum_saturated(first, ps, sat, n);
                if first <= sat + ps {
                    vstd::arithmetic::div_mod::lemma_basic_div(sat + ps - first, ps);
                }
                assert(q == 0);
                assert(q * first == 0) by (nonlinear_arith)
                    requires
                        q == 0,
                ;
                assert(triangle(q as nat) == 0);
            }
            assert(cliff_secs_sum(first, ps, sat, n) == q * first + triangle(q as nat) * ps + r
                * sat);
            assert(q * first >= 0 && triangle(q as nat) * ps >= 0 && r * sat >= 0)
                by (nonlinear_arith)
                requires
                    q >= 0,
                    first >= 0,
                    triangle(q as nat) >= 0,
                    ps >= 0,
                    r >= 0,
                    sat >= 0,
            ;
            assert(ps >= 2);
            assert(q * (q - 1) <= triangle(q as nat) * ps) by (nonlinear_arith)
                requires
                    q * (q - 1) == 2 * triangle(q as nat),
                    triangle(q as nat) >= 0,
                    ps >= 2,
            ;
        }

        let sum_full_periods = if q == 0 {
            0
        } else {
            q * (q - 1) / 2
        };

        let lockup_secs = q * secs_to_closest_cliff + sum_full_periods * period_secs + r
            * lockup_saturation_secs;

        proof {
            let w = max_locked_vote_weight as int;
            let s = lockup_secs as int;
            let den = denominator as int;
            assert(s <= n * sat);
            assert(n * sat <= den) by (nonlinear_arith)
                requires
                    n <= periods_total,
                    sat >= 0,
                    den == periods_total * sat,
            ;
            assert(den > 0) by (nonlinear_arith)
                requires
                    den == periods_total * sat,
                    periods_total >= n,
                    n >= 1,
                    sat >= 1,
            ;
            assert(w * s <= w * den) by (nonlinear_arith)
                requires
                    0 <= s <= den,
                    w >= 0,
            ;
            assert(w * s <= u128::MAX) by (nonlinear_arith)
                requires
                    0 <= w <= u64::MAX,
                    0 <= s <= u64::MAX,
            ;
            assert(w * s >= 0) by (nonlinear_arith)
                requires
                    0 <= w,
                    0 <= s,
            ;
            vstd::arithmetic::div_mod::lemma_div_is_ordered(w * s, w * den, den);
            vstd::arithmetic::div_mod::lemma_div_multiples_vanish(w, den);
            assert(den * w == w * den) by (nonlinear_arith);
        }

        let v = (max_locked_vote_weight as u128).checked_mul(lockup_secs as u128).unwrap().checked_div(
            denominator as u128,
        ).unwrap();
        Ok(u64::try_from(v).unwrap())
    }
}

impl DepositEntry {
    /// Vested amount of a linear vesting lockup: the initially locked amount
    /// times the fraction of periods that have passed.
    pub open spec fn spec_vested_linearly(self, curr_ts: int) -> Result<int, ErrorCode> {
        match self.lockup.spec_period_current(curr_ts) {
            Err(e) => Err(e),
            Ok(pc) => match self.lockup.spec_periods_total() {
                Err(e) => Err(e),
                Ok(t) => Ok(
                    if pc == 0 {
                        0
                    } else if pc >= t {
                        self.amount_initially_locked_native as int
                    } else {
                        self.amount_initially_locked_native * pc / t
                    },
                ),
            },
        }
    }

    /// The amount of unlocked tokens, in native units.
    pub open spec fn spec_vested(self, curr_ts: int) -> Result<int, ErrorCode> {
        if self.lockup.spec_expired(curr_ts) {
            Ok(self.amount_initially_locked_native as int)
        } else {
            match self.lockup.kind {
                LockupKind::NoLockup => Ok(self.amount_initially_locked_native as int),
                LockupKind::Daily | LockupKind::Monthly => self.spec_vested_linearly(curr_ts),
                LockupKind::Cliff | LockupKind::Constant => Ok(0),
            }
        }
    }

    /// Computing the vested amount neither overflows nor divides by zero.
    pub open spec fn vested_fits(self, curr_ts: int) -> bool {
        &&& self.lockup.secs_fit(curr_ts)
        &&& (!self.lockup.spec_expired(curr_ts) && (self.lockup.kind == LockupKind::Daily
            || self.lockup.kind == LockupKind::Monthly)) ==> {
            &&& self.lockup.total_fits()
            &&& self.lockup.left_fits(curr_ts)
            &&& (self.lockup.spec_period_current(curr_ts) is Ok && 0
                < self.lockup.spec_period_current(curr_ts)->Ok_0
                < self.lockup.spec_periods_total()->Ok_0) ==> self.amount_initially_locked_native
                * self.lockup.spec_period_current(curr_ts)->Ok_0 <= u64::MAX
        }
    }

    /// The amount still locked: what was initially locked minus what has vested.
    pub open spec fn spec_amount_locked(self, curr_ts: int) -> int {
        self.amount_initially_locked_native - self.spec_vested(curr_ts)->Ok_0
    }

    /// Returns the amount of unlocked tokens for this deposit--in native units
    /// of the deposited token (not scaled by the exchange rate).
    pub fn vested(&self, curr_ts: i64) -> (r: Result<u64, ErrorCode>)
        requires
            self.vested_fits(curr_ts as int),
        ensures
            match (r, self.spec_vested(curr_ts as int)) {
                (Ok(v), Ok(s)) => v == s,
                (Err(e), Err(s)) => e == s,
                _ => false,
            },
            r matches Ok(v) ==> v <= self.amount_initially_locked_native,
    {
        if self.lockup.expired(curr_ts) {
            return Ok(self.amount_initially_locked_native);
        }
        match self.lockup.kind {
            LockupKind::NoLockup => Ok(self.amount_initially_locked_native),
            LockupKind::Daily => self.vested_linearly(curr_ts),
            LockupKind::Monthly => self.vested_linearly(curr_ts),
            LockupKind::Cliff => Ok(0),
            LockupKind::Constant => Ok(0),
        }
    }

    fn vested_linearly(&self, curr_ts: i64) -> (r: Result<u64, ErrorCode>)
        requires
            self.lockup.total_fits(),
            self.lockup.left_fits(curr_ts as int),
            (self.lockup.spec_period_current(curr_ts as int) is Ok && 0
                < self.lockup.spec_period_current(curr_ts as int)->Ok_0
                < self.lockup.spec_periods_total()->Ok_0) ==> self.amount_initially_locked_native
                * self.lockup.spec_period_current(curr_ts as int)->Ok_0 <= u64::MAX,
        ensures
            match (r, self.spec_vested_linearly(curr_ts as int)) {
                (Ok(v), Ok(s)) => v == s,
                (Err(e), Err(s)) => e == s,
                _ => false,
            },
            r matches Ok(v) ==> v <= self.amount_initially_locked_native,
    {
        let period_current = self.lockup.period_current(curr_ts)?;
        let periods_total = self.lockup.periods_total()?;
        if period_current == 0 {
            return Ok(0);
        }
        if period_current >= periods_total {
            return Ok(self.amount_initially_locked_native);
        }
        let a = self.amount_initially_locked_native;
        proof {
            assert(a * period_current <= a * periods_total) by (nonlinear_arith)
                requires
                    period_current <= periods_total,
                    a >= 0,
            ;
            assert(a * period_current >= 0) by (nonlinear_arith)
                requires
                    period_current >= 0,
                    a >= 0,
            ;
            vstd::arithmetic::div_mod::lemma_div_is_ordered(
                a * period_current,
                a * periods_total,
                periods_total as int,
            );
            vstd::arithmetic::div_mod::lemma_div_multiples_vanish(a as int, periods_total as int);
            assert(periods_total * a == a * periods_total) by (nonlinear_arith);
        }
        let vested = a.checked_mul(period_current).unwrap().checked_div(periods_total).unwrap();
        Ok(vested)
    }

    /// Returns native tokens still locked.
    pub fn amount_locked(&self, curr_ts: i64) -> (r: u64)
        requires
            self.vested_fits(curr_ts as int),
            self.spec_vested(curr_ts as int) is Ok,
        ensures
            r == self.spec_amount_locked(curr_ts as int),
    {
        self.amount_initially_locked_native.checked_sub(self.vested(curr_ts).unwrap()).unwrap()
    }

    /// Returns the amount that may be withdrawn given current vesting
    /// and previous withdraws.
    pub fn amount_withdrawable(&self, curr_ts: i64) -> (r: u64)
        requires
            self.vested_fits(curr_ts as int),
            self.spec_vested(curr_ts as int) is Ok,
            self.spec_amount_locked(curr_ts as int) <= self.amount_deposited_native,
        ensures
            r == self.amount_deposited_native - self.spec_amount_locked(curr_ts as int),
    {
        self.amount_deposited_native.checked_sub(self.amount_locked(curr_ts)).unwrap()
    }

    /// The vote power of the deposit: the weight of the deposited tokens plus
    /// the lockup bonus of the initially locked tokens.
    pub open spec fn spec_voting_power(self, config: VotingMintConfig, curr_ts: int) -> Result<
        int,
        ErrorCode,
    > {
        match config.spec_unlocked_vote_weight(self.amount_deposited_native as int) {
            None => Err(ErrorCode::VoterWeightOverflow),
            Some(u) => match config.spec_max_lockup_vote_weight(
                self.amount_initially_locked_native as int,
            ) {
                None => Err(ErrorCode::VoterWeightOverflow),
                Some(m) => match self.spec_voting_power_locked(
                    curr_ts,
                    m,
                    config.lockup_saturation_secs as int,
                ) {
                    Err(e) => Err(e),
                    Ok(l) => if u + l <= u64::MAX {
                        Ok(u + l)
                    } else {
                        Err(ErrorCode::VoterWeightOverflow)
                    },
                },
            },
        }
    }

    /// Computing the vote power neither overflows nor divides by zero.
    pub open spec fn voting_power_fits(self, config: VotingMintConfig, curr_ts: int) -> bool {
        &&& config.shift_fits()
        &&& (config.spec_unlocked_vote_weight(self.amount_deposited_native as int) is Some
            && config.spec_max_lockup_vote_weight(
            self.amount_initially_locked_native as int,
        ) is Some) ==> self.voting_power_locked_fits(
            curr_ts,
            config.spec_max_lockup_vote_weight(self.amount_initially_locked_native as int)->Some_0,
            config.lockup_saturation_secs as int,
        )
    }

    /// Returns the voting power for the deposit, giving locked tokens boosted
    /// voting power that scales linearly with the lockup time.
    ///
    /// For each cliff-locked token the vote weight is the unlocked weight plus
    /// the maximum lockup weight times `lockup_time_remaining / saturation`,
    /// capped at one; linear vesting counts as a sequence of cliffs.
    pub fn voting_power(&self, voting_mint_config: &VotingMintConfig, curr_ts: i64) -> (r: Result<
        u64,
        ErrorCode,
    >)
        requires
            self.voting_power_fits(*voting_mint_config, curr_ts as int),
        ensures
            match (r, self.spec_voting_power(*voting_mint_config, curr_ts as int)) {
                (Ok(v), Ok(s)) => v == s,
                (Err(e), Err(s)) => e == s,
                _ => false,
            },
    {
        let deposit_vote_weight = voting_mint_config.unlocked_vote_weight(
            self.amount_deposited_native,
        )?;
        let max_locked_vote_weight = voting_mint_config.max_lockup_vote_weight(
            self.amount_initially_locked_native,
        )?;
        let locked = self.voting_power_locked(
            curr_ts,
            max_locked_vote_weight,
            voting_mint_config.lockup_saturation_secs,
        )?;
        match deposit_vote_weight.checked_add(locked) {
            Some(v) => Ok(v),
            None => Err(ErrorCode::VoterWeightOverflow),
        }
    }
}

/// The seconds that `m` vesting cliffs count toward the lockup bonus, the
/// nearest `secs` seconds away and each further one `ps` seconds later,
/// counted from the nearest cliff outward.
pub open spec fn cliff_secs_from_nearest(secs: int, ps: int, sat: int, m: nat) -> int
    decreases m,
{
    if m == 0 {
        0
    } else {
        min_int(secs, sat) + cliff_secs_from_nearest(secs - ps, ps, sat, (m - 1) as nat)
    }
}

/// Both sums count the same cliffs: from the farthest inward or from the
/// nearest outward.
pub proof fn lemma_cliff_sum_reindex(sl: int, ps: int, sat: int, m: nat)
    requires
        m >= 1,
    ensures
        cliff_secs_sum(sl - ps * (m - 1), ps, sat, m) == cliff_secs_from_nearest(sl, ps, sat, m),
    decreases m,
{
    let f = sl - ps * (m - 1);
    assert(f + (m - 1) * ps == sl) by (nonlinear_arith)
        requires
            f == sl - ps * (m - 1),
    ;
    assert(cliff_secs_sum(f, ps, sat, m) == cliff_secs_sum(f, ps, sat, (m - 1) as nat) + min_int(
        sl,
        sat,
    ));
    if m > 1 {
        let m1 = (m - 1) as nat;
        assert(f == (sl - ps) - ps * (m1 - 1)) by (nonlinear_arith)
            requires
                f == sl - ps * (m - 1),
                m1 == m - 1,
        ;
        lemma_cliff_sum_reindex(sl - ps, ps, sat, m1);
        assert(cliff_secs_sum(f, ps, sat, m1) == cliff_secs_from_nearest(sl - ps, ps, sat, m1));
    } else {
        assert(cliff_secs_sum(f, ps, sat, 0) == 0);
        assert(cliff_secs_from_nearest(sl - ps, ps, sat, 0) == 0);
    }
    assert(cliff_secs_from_nearest(sl, ps, sat, m) == min_int(sl, sat) + cliff_secs_from_nearest(
        sl - ps,
        ps,
        sat,
        (m - 1) as nat,
    ));
}

pub proof fn lemma_cliff_from_nearest_nonneg(secs: int, ps: int, sat: int, m: nat)
    requires
        sat >= 0,
        ps >= 0,
        secs - (m - 1) * ps >= 0,
    ensures
        cliff_secs_from_nearest(secs, ps, sat, m) >= 0,
    decreases m,
{
    if m > 0 {
        assert(secs >= 0) by (nonlinear_arith)
            requires
                secs - (m - 1) * ps >= 0,
                m >= 1,
                ps >= 0,
        ;
        assert((secs - ps) - (m - 2) * ps == secs - (m - 1) * ps) by (nonlinear_arith);
        lemma_cliff_from_nearest_nonneg(secs - ps, ps, sat, (m - 1) as nat);
    }
}

/// Cliffs that are nearer count for less.
pub proof fn lemma_cliff_from_nearest_mono_secs(s1: int, s2: int, ps: int, sat: int, m: nat)
    requires
        s2 <= s1,
    ensures
        cliff_secs_from_nearest(s2, ps, sat, m) <= cliff_secs_from_nearest(s1, ps, sat, m),
    decreases m,
{
    if m > 0 {
        lemma_cliff_from_nearest_mono_secs(s1 - ps, s2 - ps, ps, sat, (m - 1) as nat);
    }
}

/// Fewer cliffs count for less, as long as every counted cliff is ahead.
pub proof fn lemma_cliff_from_nearest_mono_count(secs: int, ps: int, sat: int, m2: nat, m1: nat)
    requires
        m2 <= m1,
        sat >= 0,
        ps >= 0,
        secs - (m1 - 1) * ps >= 0,
    ensures
        cliff_secs_from_nearest(secs, ps, sat, m2) <= cliff_secs_from_nearest(secs, ps, sat, m1),
    decreases m1,
{
    if m2 == 0 {
        lemma_cliff_from_nearest_nonneg(secs, ps, sat, m1);
    } else {
        assert((secs - ps) - (m1 - 2) * ps == secs - (m1 - 1) * ps) by (nonlinear_arith);
        lemma_cliff_from_nearest_mono_count(secs - ps, ps, sat, (m2 - 1) as nat, (m1 - 1) as nat);
    }
}

impl DepositEntry {
    /// The vested amount is never negative and never exceeds what was
    /// initially locked.
    pub proof fn lemma_vested_bounds(self, curr_ts: int)
        requires
            self.spec_vested(curr_ts) is Ok,
        ensures
            0 <= self.spec_vested(curr_ts)->Ok_0 <= self.amount_initially_locked_native,
    {
        if !self.lockup.spec_expired(curr_ts) && (self.lockup.kind == LockupKind::Daily
            || self.lockup.kind == LockupKind::Monthly) {
            let pc = self.lockup.spec_period_current(curr_ts)->Ok_0;
            let t = self.lockup.spec_periods_total()->Ok_0;
            let a = self.amount_initially_locked_native as int;
            if 0 < pc < t {
                assert(a * pc <= a * t) by (nonlinear_arith)
                    requires
                        pc <= t,
                        a >= 0,
                ;
                assert(a * pc >= 0) by (nonlinear_arith)
                    requires
                        pc >= 0,
                        a >= 0,
                ;
                vstd::arithmetic::div_mod::lemma_div_is_ordered(a * pc, a * t, t);
                vstd::arithmetic::div_mod::lemma_div_multiples_vanish(a, t);
                assert(t * a == a * t) by (nonlinear_arith);
                vstd::arithmetic::div_mod::lemma_div_pos_is_pos(a * pc, t);
            }
        }
    }

    /// Vesting only progresses: the vested amount never decreases as time passes.
    pub proof fn lemma_vested_monotonic(self, t1: int, t2: int)
        requires
            t1 <= t2,
            self.spec_vested(t1) is Ok,
            self.spec_vested(t2) is Ok,
        ensures
            self.spec_vested(t1)->Ok_0 <= self.spec_vested(t2)->Ok_0,
    {
        self.lemma_vested_bounds(t1);
        self.lemma_vested_bounds(t2);
        if !self.lockup.spec_expired(t2) && (self.lockup.kind == LockupKind::Daily
            || self.lockup.kind == LockupKind::Monthly) {
            assert(!self.lockup.spec_expired(t1));
            self.lockup.lemma_periods_monotonic(t1, t2);
            let p1 = self.lockup.spec_period_current(t1)->Ok_0;
            let p2 = self.lockup.spec_period_current(t2)->Ok_0;
            let t = self.lockup.spec_periods_total()->Ok_0;
            let a = self.amount_initially_locked_native as int;
            if 0 < p1 < t && 0 < p2 < t {
                assert(a * p1 <= a * p2) by (nonlinear_arith)
                    requires
                        p1 <= p2,
                        a >= 0,
                ;
                vstd::arithmetic::div_mod::lemma_div_is_ordered(a * p1, a * p2, t);
            }
        }
    }

    /// The locked vote power is never negative and never exceeds the maximum
    /// lockup weight.
    pub proof fn lemma_voting_power_locked_bounds(
        self,
        curr_ts: int,
        max_locked_vote_weight: int,
        lockup_saturation_secs: int,
    )
        requires
            max_locked_vote_weight >= 0,
            self.voting_power_locked_fits(curr_ts, max_locked_vote_weight, lockup_saturation_secs),
            self.spec_voting_power_locked(
                curr_ts,
                max_locked_vote_weight,
                lockup_saturation_secs,
            ) is Ok,
        ensures
            0 <= self.spec_voting_power_locked(
                curr_ts,
                max_locked_vote_weight,
                lockup_saturation_secs,
            )->Ok_0 <= max_locked_vote_weight,
    {
        let w = max_locked_vote_weight;
        let sat = lockup_saturation_secs;
        if !(self.lockup.spec_expired(curr_ts) || w == 0) {
            match self.lockup.kind {
                LockupKind::Daily | LockupKind::Monthly => {
                    let t = self.lockup.spec_periods_total()->Ok_0;
                    let pl = self.lockup.spec_periods_left(curr_ts)->Ok_0;
                    self.lockup.lemma_periods_partition(curr_ts);
                    if pl > 0 {
                        self.lemma_linear_locked_secs_bounds(curr_ts, sat);
                        let s = self.spec_locked_secs(curr_ts, sat);
                        assert(pl * sat <= t * sat) by (nonlinear_arith)
                            requires
                                pl <= t,
                                sat >= 0,
                        ;
                        assert(w * s <= w * (t * sat)) by (nonlinear_arith)
                            requires
                                0 <= s <= t * sat,
                                w >= 0,
                        ;
                        assert(w * s >= 0) by (nonlinear_arith)
                            requires
                                0 <= s,
                                w >= 0,
                        ;
                        assert(t * sat > 0) by (nonlinear_arith)
                            requires
                                t >= 1,
                                sat >= 1,
                        ;
                        vstd::arithmetic::div_mod::lemma_div_is_ordered(w * s, w * (t * sat), t * sat);
                        vstd::arithmetic::div_mod::lemma_div_multiples_vanish(w, t * sat);
                        assert((t * sat) * w == w * (t * sat)) by (nonlinear_arith);
                        vstd::arithmetic::div_mod::lemma_div_pos_is_pos(w * s, t * sat);
                    }
                },
                LockupKind::Cliff | LockupKind::Constant => {
                    let rem = min_int(self.lockup.spec_seconds_left(curr_ts), sat);
                    assert(w * rem <= w * sat) by (nonlinear_arith)
                        requires
                            0 <= rem <= sat,
                            w >= 0,
                    ;
                    assert(w * rem >= 0) by (nonlinear_arith)
                        requires
                            0 <= rem,
                            w >= 0,
                    ;
                    vstd::arithmetic::div_mod::lemma_div_is_ordered(w * rem, w * sat, sat);
                    vstd::arithmetic::div_mod::lemma_div_multiples_vanish(w, sat);
                    assert(sat * w == w * sat) by (nonlinear_arith);
                    vstd::arithmetic::div_mod::lemma_div_pos_is_pos(w * rem, sat);
                },
                LockupKind::NoLockup => {},
            }
        }
    }

    /// For a linear vesting lockup with periods left: every remaining cliff is
    /// ahead, the cliffs together count between one second per cliff and
    /// `saturation` per cliff, and the sum equals the count from the nearest
    /// cliff outward.
    pub proof fn lemma_linear_locked_secs_bounds(self, curr_ts: int, lockup_saturation_secs: int)
        requires
            self.lockup.kind == LockupKind::Daily || self.lockup.kind == LockupKind::Monthly,
            self.lockup.spec_periods_total() is Ok,
            self.lockup.spec_periods_left(curr_ts)->Ok_0 > 0,
            lockup_saturation_secs >= 1,
        ensures
            ({
                let pl = self.lockup.spec_periods_left(curr_ts)->Ok_0;
                let sl = self.lockup.spec_seconds_left(curr_ts);
                let ps = self.lockup.period_len();
                &&& self.spec_secs_to_closest_cliff(curr_ts) >= 1
                &&& sl - (pl - 1) * ps >= 1
                &&& pl <= self.spec_locked_secs(curr_ts, lockup_saturation_secs) <= pl
                    * lockup_saturation_secs
                &&& self.spec_locked_secs(curr_ts, lockup_saturation_secs)
                    == cliff_secs_from_nearest(sl, ps, lockup_saturation_secs, pl as nat)
            }),
    {
        let ps = self.lockup.period_len();
        let pl = self.lockup.spec_periods_left(curr_ts)->Ok_0;
        let t = self.lockup.spec_periods_total()->Ok_0;
        let sl = self.lockup.spec_seconds_left(curr_ts);
        self.lockup.lemma_periods_partition(curr_ts);
        if curr_ts < self.lockup.start_ts {
            let d = self.lockup.spec_seconds_left(self.lockup.start_ts as int);
            vstd::arithmetic::div_mod::lemma_fundamental_div_mod(d, ps);
            assert(d == t * ps) by (nonlinear_arith)
                requires
                    d == ps * (d / ps) + d % ps,
                    d % ps == 0,
                    t == d / ps,
            ;
            assert(pl == t);
            assert(sl > d);
            assert((pl - 1) * ps < sl) by (nonlinear_arith)
                requires
                    pl == t,
                    d == t * ps,
                    sl > d,
                    ps > 0,
            ;
        } else {
            lemma_ceil_div(sl, ps);
        }
        assert(ps * (pl - 1) == (pl - 1) * ps) by (nonlinear_arith);
        lemma_cliff_secs_sum_bounds(
            self.spec_secs_to_closest_cliff(curr_ts),
            ps,
            lockup_saturation_secs,
            pl as nat,
        );
        lemma_cliff_sum_reindex(sl, ps, lockup_saturation_secs, pl as nat);
    }

    /// A cliff lockup weighs like a fresh lockup for the remaining time: moving
    /// its start to the current time changes neither its expiry nor its
    /// locked vote power.
    pub proof fn lemma_cliff_power_as_fresh_lockup(
        self,
        curr_ts: int,
        max_locked_vote_weight: int,
        lockup_saturation_secs: int,
    )
        requires
            self.lockup.kind == LockupKind::Cliff,
            i64::MIN <= curr_ts <= i64::MAX,
        ensures
            ({
                let fresh = DepositEntry {
                    lockup: Lockup { start_ts: curr_ts as i64, ..self.lockup },
                    ..self
                };
                &&& fresh.lockup.spec_expired(curr_ts) == self.lockup.spec_expired(curr_ts)
                &&& fresh.spec_voting_power_locked(
                    curr_ts,
                    max_locked_vote_weight,
                    lockup_saturation_secs,
                ) == self.spec_voting_power_locked(
                    curr_ts,
                    max_locked_vote_weight,
                    lockup_saturation_secs,
                )
            }),
    {
    }

    /// As time passes the locked vote power decays: at a later time it is
    /// never larger than at an earlier one.
    pub proof fn lemma_voting_power_locked_decays(
        self,
        t1: int,
        t2: int,
        max_locked_vote_weight: int,
        lockup_saturation_secs: int,
    )
        requires
            t1 <= t2,
            max_locked_vote_weight >= 0,
            self.voting_power_locked_fits(t1, max_locked_vote_weight, lockup_saturation_secs),
            self.voting_power_locked_fits(t2, max_locked_vote_weight, lockup_saturation_secs),
            self.spec_voting_power_locked(t1, max_locked_vote_weight, lockup_saturation_secs) is Ok,
            self.spec_voting_power_locked(t2, max_locked_vote_weight, lockup_saturation_secs) is Ok,
        ensures
            self.spec_voting_power_locked(t2, max_locked_vote_weight, lockup_saturation_secs)->Ok_0
                <= self.spec_voting_power_locked(
                t1,
                max_locked_vote_weight,
                lockup_saturation_secs,
            )->Ok_0,
    {
        let w = max_locked_vote_weight;
        let sat = lockup_saturation_secs;
        self.lemma_voting_power_locked_bounds(t1, w, sat);
        self.lemma_voting_power_locked_bounds(t2, w, sat);
        let sl1 = self.lockup.spec_seconds_left(t1);
        let sl2 = self.lockup.spec_seconds_left(t2);
        assert(sl2 <= sl1);
        if !(self.lockup.spec_expired(t2) || w == 0) {
            match self.lockup.kind {
                LockupKind::Daily | LockupKind::Monthly => {
                    let t = self.lockup.spec_periods_total()->Ok_0;
                    self.lockup.lemma_periods_monotonic(t1, t2);
                    let pl1 = self.lockup.spec_periods_left(t1)->Ok_0;
                    let pl2 = self.lockup.spec_periods_left(t2)->Ok_0;
                    self.lockup.lemma_periods_partition(t2);
                    if pl2 > 0 {
                        let ps = self.lockup.period_len();
                        self.lemma_linear_locked_secs_bounds(t1, sat);
                        self.lemma_linear_locked_secs_bounds(t2, sat);
                        let s1 = self.spec_locked_secs(t1, sat);
                        let s2 = self.spec_locked_secs(t2, sat);
                        lemma_cliff_from_nearest_mono_secs(sl1, sl2, ps, sat, pl2 as nat);
                        lemma_cliff_from_nearest_mono_count(sl1, ps, sat, pl2 as nat, pl1 as nat);
                        assert(s2 <= s1);
                        assert(w * s2 <= w * s1) by (nonlinear_arith)
                            requires
                                s2 <= s1,
                                w >= 0,
                        ;
                        assert(t * sat > 0) by (nonlinear_arith)
                            requires
                                t >= 1,
                                sat >= 1,
                        ;
                        vstd::arithmetic::div_mod::lemma_div_is_ordered(w * s2, w * s1, t * sat);
                    }
                },
                LockupKind::Cliff | LockupKind::Constant => {
                    let r1 = min_int(sl1, sat);
                    let r2 = min_int(sl2, sat);
                    assert(w * r2 <= w * r1) by (nonlinear_arith)
                        requires
                            r2 <= r1,
                            w >= 0,
                    ;
                    vstd::arithmetic::div_mod::lemma_div_is_ordered(w * r2, w * r1, sat);
                },
                LockupKind::NoLockup => {},
            }
        }
    }
}


impl DepositEntry {
    /// A cliff lockup weighs by the time left until its end, capped at
    /// saturation: `max_locked_vote_weight * min(time left, saturation) /
    /// saturation`, so with at least saturation left it has the full
    /// weight. A constant lockup measures the time left from its start, so
    /// its power does not change as time passes.
    pub proof fn law_cliff_power_scales_with_time_left(
        self,
        curr_ts: int,
        later_ts: int,
        max_locked_vote_weight: int,
        lockup_saturation_secs: int,
    )
        requires
            self.lockup.kind == LockupKind::Cliff || self.lockup.kind == LockupKind::Constant,
            max_locked_vote_weight >= 0,
            lockup_saturation_secs >= 1,
            curr_ts <= later_ts,
        ensures
            ({
                let from = if self.lockup.kind == LockupKind::Constant {
                    self.lockup.start_ts as int
                } else {
                    curr_ts
                };
                let left = self.lockup.end_ts - from;
                let counted = if left >= lockup_saturation_secs {
                    lockup_saturation_secs
                } else {
                    left
                };
                &&& left <= 0 ==> self.spec_voting_power_locked(
                    curr_ts,
                    max_locked_vote_weight,
                    lockup_saturation_secs,
                ) == Ok::<int, ErrorCode>(0)
                &&& left > 0 ==> self.spec_voting_power_locked(
                    curr_ts,
                    max_locked_vote_weight,
                    lockup_saturation_secs,
                ) == Ok::<int, ErrorCode>(
                    max_locked_vote_weight * counted / lockup_saturation_secs,
                )
                &&& left >= lockup_saturation_secs ==> self.spec_voting_power_locked(
                    curr_ts,
                    max_locked_vote_weight,
                    lockup_saturation_secs,
                ) == Ok::<int, ErrorCode>(max_locked_vote_weight)
                &&& self.lockup.kind == LockupKind::Constant ==> self.spec_voting_power_locked(
                    later_ts,
                    max_locked_vote_weight,
                    lockup_saturation_secs,
                ) == self.spec_voting_power_locked(
                    curr_ts,
                    max_locked_vote_weight,
                    lockup_saturation_secs,
                )
            }),
    {
        let w = max_locked_vote_weight;
        let sat = lockup_saturation_secs;
        if w == 0 {
            vstd::arithmetic::div_mod::lemma_div_basics(sat);
            assert(w * sat == 0);
        }
        vstd::arithmetic::div_mod::lemma_div_multiples_vanish(w, sat);
        assert(sat * w == w * sat) by (nonlinear_arith);
    }

    /// A deposit's vote power is the unlocked vote weight of its deposited
    /// tokens plus the locked vote power of its initially locked tokens,
    /// whose maximum is their lockup vote weight; a deposit without lockup
    /// weighs exactly its unlocked vote weight.
    pub proof fn law_voting_power_adds_lockup_bonus(self, config: VotingMintConfig, curr_ts: int)
        requires
            config.spec_unlocked_vote_weight(self.amount_deposited_native as int) is Some,
            config.spec_max_lockup_vote_weight(self.amount_initially_locked_native as int) is Some,
            self.spec_voting_power_locked(
                curr_ts,
                config.spec_max_lockup_vote_weight(
                    self.amount_initially_locked_native as int,
                )->Some_0,
                config.lockup_saturation_secs as int,
            ) is Ok,
        ensures
            ({
                let u = config.spec_unlocked_vote_weight(self.amount_deposited_native as int)->Some_0;
                let l = self.spec_voting_power_locked(
                    curr_ts,
                    config.spec_max_lockup_vote_weight(
                        self.amount_initially_locked_native as int,
                    )->Some_0,
                    config.lockup_saturation_secs as int,
                )->Ok_0;
                &&& u + l <= u64::MAX ==> self.spec_voting_power(config, curr_ts) == Ok::<
                    int,
                    ErrorCode,
                >(u + l)
                &&& u + l > u64::MAX ==> self.spec_voting_power(config, curr_ts) == Err::<
                    int,
                    ErrorCode,
                >(ErrorCode::VoterWeightOverflow)
                &&& self.lockup.kind == LockupKind::NoLockup ==> l == 0
            }),
    {
    }

    /// Daily and monthly lockups vest linearly: strictly inside a lockup of
    /// whole periods, the vested amount is the initially locked amount times
    /// the whole periods passed since the start, over the periods in the
    /// lockup, rounded down. Once a period has passed and at least one token
    /// per period was locked, something has vested.
    pub proof fn law_linear_vesting_is_proportional(self, curr_ts: int)
        requires
            self.lockup.kind == LockupKind::Daily || self.lockup.kind == LockupKind::Monthly,
            self.lockup.start_ts <= curr_ts < self.lockup.end_ts,
            (self.lockup.end_ts - self.lockup.start_ts) % (if self.lockup.kind
                == LockupKind::Monthly {
                SECS_PER_MONTH as int
            } else {
                SECS_PER_DAY as int
            }) == 0,
        ensures
            ({
                let ps: int = if self.lockup.kind == LockupKind::Monthly {
                    SECS_PER_MONTH as int
                } else {
                    SECS_PER_DAY as int
                };
                let total = (self.lockup.end_ts - self.lockup.start_ts) / ps;
                let passed = (curr_ts - self.lockup.start_ts) / ps;
                let a = self.amount_initially_locked_native as int;
                &&& 0 <= passed < total
                &&& self.spec_vested(curr_ts) == Ok::<int, ErrorCode>(a * passed / total)
                &&& (curr_ts - self.lockup.start_ts >= ps && a >= total) ==> self.spec_vested(
                    curr_ts,
                )->Ok_0 >= 1
            }),
    {
        let ps = self.lockup.period_len();
        let l = self.lockup;
        let d = l.end_ts - l.start_ts;
        let x = curr_ts - l.start_ts;
        let sl = l.end_ts - curr_ts;
        let a = self.amount_initially_locked_native as int;
        assert(l.spec_seconds_left(curr_ts) == sl);
        assert(l.spec_seconds_left(l.start_ts as int) == d);
        assert(!l.spec_expired(curr_ts));
        vstd::arithmetic::div_mod::lemma_fundamental_div_mod(d, ps);
        vstd::arithmetic::div_mod::lemma_fundamental_div_mod(x, ps);
        let t = d / ps;
        let c = x / ps;
        let r = x % ps;
        vstd::arithmetic::div_mod::lemma_div_pos_is_pos(x, ps);
        assert(c < t) by (nonlinear_arith)
            requires
                d == ps * t,
                x == ps * c + r,
                0 <= r,
                x < d,
                ps > 0,
        ;
        assert(l.spec_periods_total() == Ok::<int, ErrorCode>(t));
        let k = t - c;
        assert((k - 1) * ps == sl + r - ps && k * ps == sl + r) by (nonlinear_arith)
            requires
                k == t - c,
                d == ps * t,
                x == ps * c + r,
                sl == d - x,
        ;
        lemma_ceil_div_unique(sl, ps, k);
        assert(l.spec_periods_left(curr_ts) == Ok::<int, ErrorCode>(k));
        l.lemma_periods_partition(curr_ts);
        assert(l.spec_period_current(curr_ts) == Ok::<int, ErrorCode>(c));
        if c == 0 {
            assert(a * c == 0) by (nonlinear_arith)
                requires
                    c == 0,
            ;
            vstd::arithmetic::div_mod::lemma_div_basics(t);
        }
        if x >= ps && a >= t {
            vstd::arithmetic::div_mod::lemma_div_is_ordered(ps, x, ps);
            vstd::arithmetic::div_mod::lemma_div_by_self(ps);
            assert(a * c >= t) by (nonlinear_arith)
                requires
                    c >= 1,
                    a >= t,
                    t >= 1,
            ;
            vstd::arithmetic::div_mod::lemma_div_is_ordered(t, a * c, t);
            vstd::arithmetic::div_mod::lemma_div_by_self(t);
        }
    }

    /// Linear vesting counts as a sequence of cliffs, one per period left:
    /// for a daily or monthly lockup of whole periods that has not ended,
    /// the locked vote power is `max_locked_vote_weight` times the seconds
    /// the remaining cliffs count (each capped at saturation) over
    /// `periods_total * saturation`. The nearest cliff is the time left
    /// less the whole periods after it; before the start every period is
    /// left. Once the time left reaches saturation and the weight is at least
    /// one unit per period, the power is positive.
    pub proof fn law_linear_vesting_power_is_cliff_sum(
        self,
        curr_ts: int,
        max_locked_vote_weight: int,
        lockup_saturation_secs: int,
    )
        requires
            self.lockup.kind == LockupKind::Daily || self.lockup.kind == LockupKind::Monthly,
            self.lockup.start_ts < self.lockup.end_ts,
            curr_ts < self.lockup.end_ts,
            max_locked_vote_weight >= 0,
            lockup_saturation_secs >= 1,
            (self.lockup.end_ts - self.lockup.start_ts) % (if self.lockup.kind
                == LockupKind::Monthly {
                SECS_PER_MONTH as int
            } else {
                SECS_PER_DAY as int
            }) == 0,
        ensures
            ({
                let ps: int = if self.lockup.kind == LockupKind::Monthly {
                    SECS_PER_MONTH as int
                } else {
                    SECS_PER_DAY as int
                };
                let total = (self.lockup.end_ts - self.lockup.start_ts) / ps;
                let secs_left = self.lockup.end_ts - curr_ts;
                let left = if curr_ts < self.lockup.start_ts {
                    total
                } else {
                    (secs_left + ps - 1) / ps
                };
                let closest = secs_left - ps * (left - 1);
                &&& total >= 1
                &&& 1 <= left <= total
                &&& closest >= 1
                &&& self.spec_voting_power_locked(
                    curr_ts,
                    max_locked_vote_weight,
                    lockup_saturation_secs,
                ) == Ok::<int, ErrorCode>(
                    max_locked_vote_weight * cliff_secs_sum(
                        closest,
                        ps,
                        lockup_saturation_secs,
                        left as nat,
                    ) / (total * lockup_saturation_secs),
                )
                &&& (secs_left >= lockup_saturation_secs
                    && max_locked_vote_weight >= total) ==> self.spec_voting_power_locked(
                    curr_ts,
                    max_locked_vote_weight,
                    lockup_saturation_secs,
                )->Ok_0 >= 1
            }),
    {
        let ps = self.lockup.period_len();
        let w = max_locked_vote_weight;
        let sat = lockup_saturation_secs;
        let d = self.lockup.end_ts - self.lockup.start_ts;
        let sl = self.lockup.end_ts - curr_ts;
        assert(self.lockup.spec_seconds_left(curr_ts) == sl);
        assert(self.lockup.spec_seconds_left(self.lockup.start_ts as int) == d);
        assert(!self.lockup.spec_expired(curr_ts));
        vstd::arithmetic::div_mod::lemma_fundamental_div_mod(d, ps);
        let total = d / ps;
        assert(d == ps * total);
        assert(total >= 1) by (nonlinear_arith)
            requires
                d == ps * total,
                d > 0,
                ps > 0,
        ;
        assert(self.lockup.spec_periods_total() == Ok::<int, ErrorCode>(total));
        self.lockup.lemma_periods_partition(curr_ts);
        let left = self.lockup.spec_periods_left(curr_ts)->Ok_0;
        if curr_ts < self.lockup.start_ts {
            assert(left == total);
            assert(sl > d);
            assert(ps * (left - 1) < sl) by (nonlinear_arith)
                requires
                    left == total,
                    d == ps * total,
                    sl > d,
                    ps > 0,
            ;
        } else {
            lemma_ceil_div(sl, ps);
            assert(ps * (left - 1) == (left - 1) * ps) by (nonlinear_arith);
        }
        assert(left >= 1);
        let first = sl - ps * (left - 1);
        assert(first >= 1);
        assert(self.spec_secs_to_closest_cliff(curr_ts) == first);
        let sum = cliff_secs_sum(first, ps, sat, left as nat);
        assert(self.spec_locked_secs(curr_ts, sat) == sum);
        let den = total * sat;
        assert(den >= 1) by (nonlinear_arith)
            requires
                den == total * sat,
                total >= 1,
                sat >= 1,
        ;
        if w == 0 {
            assert(w * sum == 0);
            vstd::arithmetic::div_mod::lemma_div_basics(den);
        }
        if sl >= sat && w >= total {
            lemma_cliff_secs_sum_bounds(first, ps, sat, (left - 1) as nat);
            assert(first + (left - 1) * ps == sl) by (nonlinear_arith)
                requires
                    first == sl - ps * (left - 1),
            ;
            assert(sum == cliff_secs_sum(first, ps, sat, (left - 1) as nat) + min_int(
                first + (left - 1) * ps,
                sat,
            ));
            assert(sum >= sat);
            assert(w * sum >= den) by (nonlinear_arith)
                requires
                    w >= total,
                    total >= 1,
                    sum >= sat,
                    sat >= 1,
                    den == total * sat,
            ;
            vstd::arithmetic::div_mod::lemma_div_is_ordered(den, w * sum, den);
            vstd::arithmetic::div_mod::lemma_div_by_self(den);
        }
    }
}

} // verus!
