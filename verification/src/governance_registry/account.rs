use vstd::prelude::*;
use crate::governance_registry::error::ErrorCode;
use crate::math::{pow10, pow10_u64};
use crate::pubkey::Pubkey;
use crate::state::registrar::{first_index_of, lemma_first_index_of};

verus! {

/// Seconds in one day.
pub const SECS_PER_DAY: i64 = 86_400;

/// Seconds in one month.
pub const SECS_PER_MONTH: i64 = 86_400 * 30;

/// Maximum number of days one can lock for.
pub const MAX_DAYS_LOCKED: u64 = 2555;

/// Maximum number of months one can lock for.
pub const MAX_MONTHS_LOCKED: u64 = 2555;

/// Vote weight is amount * FIXED_VOTE_WEIGHT_FACTOR +
/// LOCKING_VOTE_WEIGHT_FACTOR * amount * time / max time
pub const FIXED_VOTE_WEIGHT_FACTOR: u64 = 1;
pub const LOCKING_VOTE_WEIGHT_FACTOR: u64 = 0;

/// Signed division as Rust computes it: the quotient rounded toward zero.
pub open spec fn trunc_div(x: int, d: int) -> int {
    if x >= 0 {
        x / d
    } else {
        -((-x) / d)
    }
}

/// `x` clamped to the `i64` range.
pub open spec fn saturate_i64(x: int) -> int {
    if x > i64::MAX {
        i64::MAX as int
    } else if x < i64::MIN {
        i64::MIN as int
    } else {
        x
    }
}

/// `1 + 2 + ... + n`.
pub open spec fn sum_to(n: nat) -> int
    decreases n,
{
    if n == 0 {
        0
    } else {
        sum_to((n - 1) as nat) + n
    }
}

pub proof fn lemma_sum_to(n: nat)
    ensures
        2 * sum_to(n) == n * (n + 1),
        sum_to(n) >= 0,
        n * (n + 1) / 2 == sum_to(n),
    decreases n,
{
    if n > 0 {
        lemma_sum_to((n - 1) as nat);
        assert(n * (n + 1) == (n - 1) * n + 2 * n) by (nonlinear_arith);
    }
}

/// The remainder of Rust's signed division is zero exactly when the
/// Euclidean one is, and the quotient times the divisor lies between zero
/// and the dividend.
pub proof fn lemma_trunc_rem(l: int, s: int)
    requires
        s > 0,
    ensures
        0 <= l ==> 0 <= trunc_div(l, s) * s <= l,
        l < 0 ==> l <= trunc_div(l, s) * s <= 0,
        (l - trunc_div(l, s) * s == 0) <==> (l % s == 0),
{
    let q = trunc_div(l, s);
    if l >= 0 {
        vstd::arithmetic::div_mod::lemma_fundamental_div_mod(l, s);
        assert(q * s == s * q) by (nonlinear_arith);
        assert(q >= 0) by (nonlinear_arith)
            requires
                l == s * q + l % s,
                0 <= l % s < s,
                l >= 0,
                s > 0,
        ;
        assert(q * s >= 0) by (nonlinear_arith)
            requires
                q >= 0,
                s > 0,
        ;
    } else {
        let m = -l;
        let k = m / s;
        vstd::arithmetic::div_mod::lemma_fundamental_div_mod(m, s);
        assert(q == -k);
        assert(q * s == -(s * k)) by (nonlinear_arith)
            requires
                q == -k,
        ;
        assert(k >= 0) by (nonlinear_arith)
            requires
                m == s * k + m % s,
                0 <= m % s < s,
                m > 0,
                s > 0,
        ;
        assert(s * k >= 0) by (nonlinear_arith)
            requires
                k >= 0,
                s > 0,
        ;
        assert(l - q * s == -(m % s));
        if m % s == 0 {
            assert(l == (-k) * s) by (nonlinear_arith)
                requires
                    m == s * k + m % s,
                    m % s == 0,
                    l == -m,
            ;
            vstd::arithmetic::div_mod::lemma_mod_multiples_basic(-k, s);
        } else {
            if l % s == 0 {
                vstd::arithmetic::div_mod::lemma_fundamental_div_mod(l, s);
                let j = l / s;
                assert(m == (-j) * s) by (nonlinear_arith)
                    requires
                        l == s * j + l % s,
                        l % s == 0,
                        m == -l,
                ;
                vstd::arithmetic::div_mod::lemma_mod_multiples_basic(-j, s);
            }
        }
    }
}

/// `a - b` for timestamps, saturating at the bounds of `i64`.
fn saturating_sub_i64(a: i64, b: i64) -> (r: i64)
    ensures
        r == saturate_i64(a - b),
{
    let d = a as i128 - b as i128;
    if d > i64::MAX as i128 {
        i64::MAX
    } else if d < i64::MIN as i128 {
        i64::MIN
    } else {
        d as i64
    }
}

/// Instance of a voting rights distributor.
#[derive(Clone, Copy, Debug)]
pub struct Registrar {
    pub governance_program_id: Pubkey,
    pub authority: Pubkey,
    pub realm: Pubkey,
    pub realm_community_mint: Pubkey,
    pub bump: u8,
    /// The length should be adjusted for one's use case.
    pub rates: [ExchangeRateEntry; 2],
    /// The decimals to use when converting deposits into a common currency.
    ///
    /// This must be larger or equal to the max of decimals over all accepted
    /// token mints.
    pub common_decimals: u8,
    /// The authority that may claw back locked tokens.
    pub clawback_authority: Pubkey,
    /// Debug only: time offset, to allow tests to move forward in time.
    pub time_offset: i64,
}

impl Registrar {
    /// The registrar's clock: the cluster's unix timestamp plus the debug offset.
    pub fn clock_unix_timestamp(&self, unix_timestamp: i64) -> (r: i64)
        requires
            i64::MIN <= unix_timestamp + self.time_offset <= i64::MAX,
        ensures
            r == unix_timestamp + self.time_offset,
    {
        unix_timestamp + self.time_offset
    }

    pub open spec fn rate_mints(self) -> Seq<Pubkey> {
        Seq::new(2, |i: int| self.rates@[i].mint)
    }

    /// The index of the exchange rate entry for `mint`.
    pub fn exchange_rate_index_for_mint(&self, mint: Pubkey) -> (r: Result<usize, ErrorCode>)
        ensures
            match first_index_of(self.rate_mints(), mint) {
                Some(i) => r == Ok::<usize, ErrorCode>(i as usize),
                None => r == Err::<usize, ErrorCode>(ErrorCode::ExchangeRateEntryNotFound),
            },
    {
        let mut i: usize = 0;
        while i < 2
            invariant
                i <= 2,
                forall|j: int| 0 <= j < i ==> !(#[trigger] self.rate_mints()[j]).key_eq(mint),
            decreases 2 - i,
        {
            if self.rates[i].mint == mint {
                proof {
                    lemma_first_index_of(self.rate_mints(), mint, i as int);
                }
                return Ok(i);
            }
            i = i + 1;
        }
        Err(ErrorCode::ExchangeRateEntryNotFound)
    }

    /// A new exchange rate can be built: the power of ten for the decimal
    /// difference and its product with the rate fit in a `u64`.
    pub open spec fn new_rate_fits(self, rate: u64, decimals: u8) -> bool {
        self.common_decimals >= decimals ==> {
            let diff = (self.common_decimals - decimals) as nat;
            &&& pow10(diff) <= u64::MAX
            &&& rate * pow10(diff) <= u64::MAX
        }
    }

    /// An exchange rate entry for `mint`, converting its native amounts to
    /// the registrar's common decimals.
    pub fn new_rate(&self, mint: Pubkey, rate: u64, decimals: u8) -> (r: Result<
        ExchangeRateEntry,
        ErrorCode,
    >)
        requires
            self.new_rate_fits(rate, decimals),
        ensures
            self.common_decimals < decimals ==> r == Err::<ExchangeRateEntry, ErrorCode>(
                ErrorCode::InvalidDecimals,
            ),
            self.common_decimals >= decimals ==> (r matches Ok(e) && e.mint == mint && e.rate
                == rate && e.decimals == decimals && e.conversion_factor == rate * pow10(
                (self.common_decimals - decimals) as nat,
            )),
    {
        if !(self.common_decimals >= decimals) {
            return Err(ErrorCode::InvalidDecimals);
        }
        let decimal_diff = self.common_decimals.checked_sub(decimals).unwrap();
        let factor = pow10_u64(decimal_diff as u32);
        Ok(
            ExchangeRateEntry {
                mint,
                rate,
                decimals,
                conversion_factor: rate.checked_mul(factor).unwrap(),
            },
        )
    }
}

/// User account for minting voting rights.
#[derive(Clone, Copy, Debug)]
pub struct Voter {
    pub authority: Pubkey,
    pub registrar: Pubkey,
    pub voter_bump: u8,
    pub voter_weight_record_bump: u8,
    pub deposits: [DepositEntry; 32],
    /// The most recent slot a deposit was made in.
    pub last_deposit_slot: u64,
}

/// Exchange rate for an asset that can be used to mint voting rights.
#[derive(Clone, Copy, Debug)]
pub struct ExchangeRateEntry {
    /// Mint for this entry.
    pub mint: Pubkey,
    /// Exchange rate for 1.0 decimal-respecting unit of mint currency
    /// into the common vote currency.
    ///
    /// Example: If rate=2, then 1.000 of mint currency has a vote weight
    /// of 2.000000 in common vote currency. In the example mint decimals
    /// was 3 and common_decimals was 6.
    pub rate: u64,
    /// Mint decimals.
    pub decimals: u8,
    /// Factor for converting mint native currency to common vote currency,
    /// including decimal handling.
    ///
    /// Examples:
    /// - if common and mint have the same number of decimals, this is the same as 'rate'
    /// - common decimals = 6, mint decimals = 3, rate = 5 -> 5000
    pub conversion_factor: u64,
}

impl Default for ExchangeRateEntry {
    fn default() -> (r: Self)
        ensures
            r.mint.is_zero(),
            r.rate == 0,
            r.decimals == 0,
            r.conversion_factor == 0,
    {
        ExchangeRateEntry { mint: Pubkey::default(), rate: 0, decimals: 0, conversion_factor: 0 }
    }
}

impl ExchangeRateEntry {
    /// Converts an amount in this ExchangeRateEntry's mint's native currency
    /// to the equivalent common registrar vote currency amount.
    pub fn convert(&self, amount_native: u64) -> (r: u64)
        requires
            amount_native * self.conversion_factor <= u64::MAX,
        ensures
            r == amount_native * self.conversion_factor,
    {
        amount_native.checked_mul(self.conversion_factor).unwrap()
    }
}

/// The schedule by which deposited tokens are locked and vest.
#[derive(Clone, Copy, Debug, PartialEq, Eq, Structural)]
pub enum LockupKind {
    NoLockup,
    Daily,
    Monthly,
    Cliff,
}

impl LockupKind {
    pub open spec fn spec_period_secs(self) -> i64 {
        match self {
            LockupKind::NoLockup => 0,
            LockupKind::Daily => SECS_PER_DAY,
            LockupKind::Monthly => SECS_PER_MONTH,
            LockupKind::Cliff => SECS_PER_DAY,
        }
    }

    /// The length of one period of the lockup: a day, a month, or nothing
    /// for deposits without lockup. Cliffs are counted in days.
    pub fn period_secs(&self) -> (r: i64)
        ensures
            r == self.spec_period_secs(),
    {
        match self {
            LockupKind::NoLockup => 0,
            LockupKind::Daily => SECS_PER_DAY,
            LockupKind::Monthly => SECS_PER_MONTH,
            LockupKind::Cliff => SECS_PER_DAY,
        }
    }
}

#[derive(Clone, Copy, Debug)]
pub struct Lockup {
    pub kind: LockupKind,
    /// Start of the lockup.
    pub start_ts: i64,
    /// End of the lockup.
    pub end_ts: i64,
    /// Empty bytes for future upgrades.
    pub padding: [u8; 16],
}

impl Lockup {
    /// The number of whole periods of `secs` seconds since the start, an
    /// error a full period or more before the start.
    pub open spec fn spec_period_current(self, curr_ts: int, secs: int) -> Result<int, ErrorCode> {
        let q = trunc_div(saturate_i64(curr_ts - self.start_ts), secs);
        if q >= 0 {
            Ok(q)
        } else {
            Err(ErrorCode::UnableToConvert)
        }
    }

    /// The number of periods of `secs` seconds in the lockup, an error if the
    /// lockup is not a whole number of them.
    pub open spec fn spec_periods_total(self, secs: int) -> Result<int, ErrorCode> {
        let l = self.end_ts - self.start_ts;
        if l % secs != 0 {
            Err(ErrorCode::InvalidLockupPeriod)
        } else {
            Ok(l / secs)
        }
    }

    /// The number of periods not yet passed.
    pub open spec fn spec_periods_left(self, curr_ts: int, secs: int) -> Result<int, ErrorCode> {
        match self.spec_periods_total(secs) {
            Err(e) => Err(e),
            Ok(t) => match self.spec_period_current(curr_ts, secs) {
                Err(e) => Err(e),
                Ok(c) => Ok(
                    if c <= t {
                        t - c
                    } else {
                        0
                    },
                ),
            },
        }
    }

    /// The lockup length is a signed timestamp difference, and a whole number
    /// of periods of `secs` seconds is never negative.
    pub open spec fn totals_fit(self, secs: int) -> bool {
        &&& i64::MIN <= self.end_ts - self.start_ts <= i64::MAX
        &&& (self.end_ts - self.start_ts) % secs == 0 ==> self.end_ts >= self.start_ts
    }

    fn period_current_in(&self, curr_ts: i64, secs: i64) -> (r: Result<u64, ErrorCode>)
        requires
            secs > 0,
        ensures
            match (r, self.spec_period_current(curr_ts as int, secs as int)) {
                (Ok(v), Ok(s)) => v == s,
                (Err(e), Err(s)) => e == s,
                _ => false,
            },
    {
        let secs_elapsed = saturating_sub_i64(curr_ts, self.start_ts);
        let d = secs_elapsed.checked_div(secs).unwrap();
        match u64::try_from(d) {
            Ok(v) => Ok(v),
            Err(_) => Err(ErrorCode::UnableToConvert),
        }
    }

    fn periods_total_in(&self, secs: i64) -> (r: Result<u64, ErrorCode>)
        requires
            secs > 0,
            self.totals_fit(secs as int),
        ensures
            match (r, self.spec_periods_total(secs as int)) {
                (Ok(v), Ok(s)) => v == s,
                (Err(e), Err(s)) => e == s,
                _ => false,
            },
    {
        // Number of seconds in the entire lockup.
        let lockup_secs = self.end_ts.checked_sub(self.start_ts).unwrap();
        let q = lockup_secs.checked_div(secs).unwrap();
        proof {
            lemma_trunc_rem(lockup_secs as int, secs as int);
        }
        // Whole periods only.
        if lockup_secs - q * secs != 0 {
            return Err(ErrorCode::InvalidLockupPeriod);
        }
        let periods = u64::try_from(q).unwrap();
        Ok(periods)
    }

    fn periods_left_in(&self, curr_ts: i64, secs: i64) -> (r: Result<u64, ErrorCode>)
        requires
            secs > 0,
            self.totals_fit(secs as int),
        ensures
            match (r, self.spec_periods_left(curr_ts as int, secs as int)) {
                (Ok(v), Ok(s)) => v == s,
                (Err(e), Err(s)) => e == s,
                _ => false,
            },
    {
        let total = self.periods_total_in(secs)?;
        let current = self.period_current_in(curr_ts, secs)?;
        Ok(total.saturating_sub(current))
    }

    /// Returns the number of days left on the lockup.
    pub fn days_left(&self, curr_ts: i64) -> (r: Result<u64, ErrorCode>)
        requires
            self.totals_fit(SECS_PER_DAY as int),
        ensures
            match (r, self.spec_periods_left(curr_ts as int, SECS_PER_DAY as int)) {
                (Ok(v), Ok(s)) => v == s,
                (Err(e), Err(s)) => e == s,
                _ => false,
            },
    {
        self.periods_left_in(curr_ts, SECS_PER_DAY)
    }

    /// Returns the current day in the vesting schedule.
    pub fn day_current(&self, curr_ts: i64) -> (r: Result<u64, ErrorCode>)
        ensures
            match (r, self.spec_period_current(curr_ts as int, SECS_PER_DAY as int)) {
                (Ok(v), Ok(s)) => v == s,
                (Err(e), Err(s)) => e == s,
                _ => false,
            },
    {
        self.period_current_in(curr_ts, SECS_PER_DAY)
    }

    /// Returns the total amount of days in the lockup period.
    pub fn days_total(&self) -> (r: Result<u64, ErrorCode>)
        requires
            self.totals_fit(SECS_PER_DAY as int),
        ensures
            match (r, self.spec_periods_total(SECS_PER_DAY as int)) {
                (Ok(v), Ok(s)) => v == s,
                (Err(e), Err(s)) => e == s,
                _ => false,
            },
    {
        self.periods_total_in(SECS_PER_DAY)
    }

    /// Returns the number of months left on the lockup.
    pub fn months_left(&self, curr_ts: i64) -> (r: Result<u64, ErrorCode>)
        requires
            self.totals_fit(SECS_PER_MONTH as int),
        ensures
            match (r, self.spec_periods_left(curr_ts as int, SECS_PER_MONTH as int)) {
                (Ok(v), Ok(s)) => v == s,
                (Err(e), Err(s)) => e == s,
                _ => false,
            },
    {
        self.periods_left_in(curr_ts, SECS_PER_MONTH)
    }

    /// Returns the current month in the vesting schedule.
    pub fn month_current(&self, curr_ts: i64) -> (r: Result<u64, ErrorCode>)
        ensures
            match (r, self.spec_period_current(curr_ts as int, SECS_PER_MONTH as int)) {
                (Ok(v), Ok(s)) => v == s,
                (Err(e), Err(s)) => e == s,
                _ => false,
            },
    {
        self.period_current_in(curr_ts, SECS_PER_MONTH)
    }

    /// Returns the total amount of months in the lockup period.
    pub fn months_total(&self) -> (r: Result<u64, ErrorCode>)
        requires
            self.totals_fit(SECS_PER_MONTH as int),
        ensures
            match (r, self.spec_periods_total(SECS_PER_MONTH as int)) {
                (Ok(v), Ok(s)) => v == s,
                (Err(e), Err(s)) => e == s,
                _ => false,
            },
    {
        self.periods_total_in(SECS_PER_MONTH)
    }

    /// The length in seconds of the periods the lockup's kind counts in.
    pub open spec fn kind_secs(self) -> int {
        match self.kind {
            LockupKind::Monthly => SECS_PER_MONTH as int,
            _ => SECS_PER_DAY as int,
        }
    }

    /// The lockup is well formed for its kind's periods (see `totals_fit`).
    pub open spec fn kind_totals_fit(self) -> bool {
        self.kind != LockupKind::NoLockup ==> self.totals_fit(self.kind_secs())
    }

    /// The current period of the lockup's kind: days for daily and cliff
    /// lockups, months for monthly ones, and zero without lockup.
    pub open spec fn spec_kind_period_current(self, curr_ts: int) -> Result<int, ErrorCode> {
        if self.kind == LockupKind::NoLockup {
            Ok(0)
        } else {
            self.spec_period_current(curr_ts, self.kind_secs())
        }
    }

    /// The periods of the lockup's kind that are left: days for daily and
    /// cliff lockups, months for monthly ones, and zero without lockup.
    pub open spec fn spec_kind_periods_left(self, curr_ts: int) -> Result<int, ErrorCode> {
        if self.kind == LockupKind::NoLockup {
            Ok(0)
        } else {
            self.spec_periods_left(curr_ts, self.kind_secs())
        }
    }

    /// Returns the current period in the vesting schedule, counted in the
    /// lockup kind's periods.
    pub fn period_current(&self, curr_ts: i64) -> (r: Result<u64, ErrorCode>)
        ensures
            match (r, self.spec_kind_period_current(curr_ts as int)) {
                (Ok(v), Ok(s)) => v == s,
                (Err(e), Err(s)) => e == s,
                _ => false,
            },
    {
        match self.kind {
            LockupKind::NoLockup => Ok(0),
            LockupKind::Monthly => self.month_current(curr_ts),
            LockupKind::Daily => self.day_current(curr_ts),
            LockupKind::Cliff => self.day_current(curr_ts),
        }
    }

    /// Returns the number of periods left on the lockup, counted in the
    /// lockup kind's periods.
    pub fn periods_left(&self, curr_ts: i64) -> (r: Result<u64, ErrorCode>)
        requires
            self.kind_totals_fit(),
        ensures
            match (r, self.spec_kind_periods_left(curr_ts as int)) {
                (Ok(v), Ok(s)) => v == s,
                (Err(e), Err(s)) => e == s,
                _ => false,
            },
    {
        match self.kind {
            LockupKind::NoLockup => Ok(0),
            LockupKind::Monthly => self.months_left(curr_ts),
            LockupKind::Daily => self.days_left(curr_ts),
            LockupKind::Cliff => self.days_left(curr_ts),
        }
    }
}

/// Moving a lockup's start forward by the whole periods that have passed
/// keeps it a valid timestamp no later than the current time.
pub proof fn lemma_period_shift(l: Lockup, curr_ts: int, secs: int)
    requires
        secs > 0,
        i64::MIN <= curr_ts <= i64::MAX,
        l.spec_period_current(curr_ts, secs) is Ok,
    ensures
        ({
            let c = l.spec_period_current(curr_ts, secs)->Ok_0;
            &&& 0 <= c <= i64::MAX
            &&& 0 <= c * secs <= i64::MAX
            &&& l.start_ts + c * secs <= i64::MAX
            &&& c > 0 ==> l.start_ts + c * secs <= curr_ts
        }),
{
    let d = saturate_i64(curr_ts - l.start_ts);
    let c = l.spec_period_current(curr_ts, secs)->Ok_0;
    lemma_trunc_rem(d, secs);
    assert(c == trunc_div(d, secs));
    assert(c * secs >= 0) by (nonlinear_arith)
        requires
            c >= 0,
            secs > 0,
    ;
    assert(c <= c * secs) by (nonlinear_arith)
        requires
            c >= 0,
            secs >= 1,
    ;
    if d < 0 {
        assert(c * secs == 0);
        assert(c == 0) by (nonlinear_arith)
            requires
                c * secs == 0,
                secs > 0,
        ;
    } else {
        assert(c * secs <= d);
    }
}

/// A lockup of `periods` whole periods that starts now: no period has
/// passed, and when it has any, it has exactly `periods` of them.
pub proof fn lemma_fresh_lockup(l: Lockup, periods: int, secs: int)
    requires
        secs > 0,
        i32::MIN <= periods <= i32::MAX,
        secs <= SECS_PER_MONTH,
        l.end_ts == l.start_ts + periods * secs,
    ensures
        l.spec_period_current(l.start_ts as int, secs) == Ok::<int, ErrorCode>(0),
        l.end_ts > l.start_ts ==> l.spec_periods_total(secs) == Ok::<int, ErrorCode>(periods)
            && periods > 0 && l.totals_fit(secs),
{
    vstd::arithmetic::div_mod::lemma_mod_multiples_basic(periods, secs);
    if l.end_ts > l.start_ts {
        assert(periods > 0) by (nonlinear_arith)
            requires
                periods * secs > 0,
                secs > 0,
        ;
        vstd::arithmetic::div_mod::lemma_div_by_multiple(periods, secs);
        assert(periods * secs <= i32::MAX * SECS_PER_MONTH) by (nonlinear_arith)
            requires
                0 < periods <= i32::MAX,
                0 < secs <= SECS_PER_MONTH,
        ;
    }
}

/// Bookkeeping for a single deposit for a given mint and lockup schedule.
#[derive(Clone, Copy, Debug)]
pub struct DepositEntry {
    /// True if the deposit entry is being used.
    pub is_used: bool,
    /// Points to the ExchangeRate this deposit uses.
    pub rate_idx: u8,
    /// Amount in deposited, in native currency. Withdraws of vested tokens
    /// directly reduce this amount.
    pub amount_deposited_native: u64,
    /// Amount in locked when the lockup began, in native currency.
    pub amount_initially_locked_native: u64,
    /// If the clawback authority is allowed to extract locked tokens.
    pub allow_clawback: bool,
    /// Locked state.
    pub lockup: Lockup,
}

impl DepositEntry {
    /// Vote power of tokens vesting once per period over `total` periods
    /// with `n` periods left: each remaining period's share of `amount`
    /// counts its periods left out of `max` periods, so the power is
    /// `amount * (1 + 2 + ... + n) / (max * total)`.
    pub open spec fn spec_decayed_power(self, curr_ts: int, amount_scaled: int, secs: int, max: int) -> Result<
        int,
        ErrorCode,
    > {
        match self.lockup.spec_periods_left(curr_ts, secs) {
            Err(e) => Err(e),
            Ok(n) => if n == 0 {
                Ok(0)
            } else {
                Ok(
                    amount_scaled * sum_to(n as nat) / (max * self.lockup.spec_periods_total(
                        secs,
                    )->Ok_0),
                )
            },
        }
    }

    /// The linear vesting computation stays within `u64`.
    pub open spec fn decayed_power_fits(self, curr_ts: int, amount_scaled: int, secs: int, max: int) -> bool {
        &&& self.lockup.totals_fit(secs)
        &&& (self.lockup.spec_periods_left(curr_ts, secs) is Ok && self.lockup.spec_periods_left(
            curr_ts,
            secs,
        )->Ok_0 > 0) ==> {
            let n = self.lockup.spec_periods_left(curr_ts, secs)->Ok_0;
            &&& n * (n + 1) <= u64::MAX
            &&& amount_scaled * sum_to(n as nat) <= u64::MAX
            &&& max * self.lockup.spec_periods_total(secs)->Ok_0 <= u64::MAX
        }
    }

    /// Vote power of a cliff lockup: the amount times the days left out of
    /// the maximum number of days.
    pub open spec fn spec_cliff_power(self, curr_ts: int, amount_scaled: int) -> Result<int, ErrorCode> {
        match self.lockup.spec_periods_left(curr_ts, SECS_PER_DAY as int) {
            Err(e) => Err(e),
            Ok(n) => Ok(n * amount_scaled / (MAX_DAYS_LOCKED as int)),
        }
    }

    pub open spec fn spec_voting_power_locked(self, curr_ts: int, amount_scaled: int) -> Result<
        int,
        ErrorCode,
    > {
        if curr_ts < self.lockup.start_ts {
            Ok(0)
        } else {
            match self.lockup.kind {
                LockupKind::NoLockup => Ok(0),
                LockupKind::Daily => self.spec_decayed_power(
                    curr_ts,
                    amount_scaled,
                    SECS_PER_DAY as int,
                    MAX_DAYS_LOCKED as int,
                ),
                LockupKind::Monthly => self.spec_decayed_power(
                    curr_ts,
                    amount_scaled,
                    SECS_PER_MONTH as int,
                    MAX_MONTHS_LOCKED as int,
                ),
                LockupKind::Cliff => self.spec_cliff_power(curr_ts, amount_scaled),
            }
        }
    }

    /// Computing the locked vote power stays within `u64`.
    pub open spec fn voting_power_locked_fits(self, curr_ts: int, amount_scaled: int) -> bool {
        curr_ts >= self.lockup.start_ts ==> match self.lockup.kind {
            LockupKind::NoLockup => true,
            LockupKind::Daily => self.decayed_power_fits(
                curr_ts,
                amount_scaled,
                SECS_PER_DAY as int,
                MAX_DAYS_LOCKED as int,
            ),
            LockupKind::Monthly => self.decayed_power_fits(
                curr_ts,
                amount_scaled,
                SECS_PER_MONTH as int,
                MAX_MONTHS_LOCKED as int,
            ),
            LockupKind::Cliff => {
                &&& self.lockup.totals_fit(SECS_PER_DAY as int)
                &&& self.lockup.spec_periods_left(curr_ts, SECS_PER_DAY as int) matches Ok(n)
                    ==> n * amount_scaled <= u64::MAX
            },
        }
    }

    pub open spec fn spec_voting_power(self, rate: ExchangeRateEntry, curr_ts: int) -> Result<
        int,
        ErrorCode,
    > {
        let fixed = self.amount_deposited_native * rate.conversion_factor * FIXED_VOTE_WEIGHT_FACTOR;
        if LOCKING_VOTE_WEIGHT_FACTOR > 0 {
            match self.spec_voting_power_locked(
                curr_ts,
                self.amount_initially_locked_native * rate.conversion_factor,
            ) {
                Err(e) => Err(e),
                Ok(l) => Ok(fixed + l * LOCKING_VOTE_WEIGHT_FACTOR),
            }
        } else {
            Ok(fixed)
        }
    }

    /// Computing the vote power stays within `u64`.
    pub open spec fn voting_power_fits(self, rate: ExchangeRateEntry, curr_ts: int) -> bool {
        &&& self.amount_deposited_native * rate.conversion_factor * FIXED_VOTE_WEIGHT_FACTOR
            <= u64::MAX
        &&& LOCKING_VOTE_WEIGHT_FACTOR > 0 ==> {
            &&& self.amount_initially_locked_native * rate.conversion_factor <= u64::MAX
            &&& self.voting_power_locked_fits(
                curr_ts,
                self.amount_initially_locked_native * rate.conversion_factor,
            )
            &&& self.spec_voting_power_locked(
                curr_ts,
                self.amount_initially_locked_native * rate.conversion_factor,
            ) matches Ok(l) ==> l * LOCKING_VOTE_WEIGHT_FACTOR + self.amount_deposited_native
                * rate.conversion_factor * FIXED_VOTE_WEIGHT_FACTOR <= u64::MAX
        }
    }

    /// Returns the voting power for the deposit, giving locked tokens boosted
    /// voting power that scales linearly with the lockup time:
    /// `amount * (fixed_factor + locking_factor * time_factor)`, with
    /// linear vesting schedules counted as a sequence of cliffs.
    pub fn voting_power(&self, rate: &ExchangeRateEntry, curr_ts: i64) -> (r: Result<
        u64,
        ErrorCode,
    >)
        requires
            self.voting_power_fits(*rate, curr_ts as int),
        ensures
            match (r, self.spec_voting_power(*rate, curr_ts as int)) {
                (Ok(v), Ok(s)) => v == s,
                (Err(e), Err(s)) => e == s,
                _ => false,
            },
    {
        let fixed_contribution = rate.convert(self.amount_deposited_native).checked_mul(
            FIXED_VOTE_WEIGHT_FACTOR,
        ).unwrap();
        if LOCKING_VOTE_WEIGHT_FACTOR > 0 {
            let amount_scaled = rate.convert(self.amount_initially_locked_native);
            let locked = self.voting_power_locked(curr_ts, amount_scaled)?;
            Ok(fixed_contribution + locked.checked_mul(LOCKING_VOTE_WEIGHT_FACTOR).unwrap())
        } else {
            Ok(fixed_contribution)
        }
    }

    /// Vote contribution from locked funds only, not scaled by
    /// LOCKING_VOTE_WEIGHT_FACTOR yet.
    pub fn voting_power_locked(&self, curr_ts: i64, amount_scaled: u64) -> (r: Result<
        u64,
        ErrorCode,
    >)
        requires
            self.voting_power_locked_fits(curr_ts as int, amount_scaled as int),
        ensures
            match (r, self.spec_voting_power_locked(curr_ts as int, amount_scaled as int)) {
                (Ok(v), Ok(s)) => v == s,
                (Err(e), Err(s)) => e == s,
                _ => false,
            },
    {
        if curr_ts < self.lockup.start_ts {
            return Ok(0);
        }
        match self.lockup.kind {
            LockupKind::NoLockup => Ok(0),
            LockupKind::Daily => self.voting_power_daily(curr_ts, amount_scaled),
            LockupKind::Monthly => self.voting_power_monthly(curr_ts, amount_scaled),
            LockupKind::Cliff => self.voting_power_cliff(curr_ts, amount_scaled),
        }
    }

    fn decayed_power(&self, n: u64, total: u64, amount_scaled: u64, max: u64) -> (r: u64)
        requires
            n > 0,
            n * (n + 1) <= u64::MAX,
            amount_scaled * sum_to(n as nat) <= u64::MAX,
            max * total <= u64::MAX,
            max * total > 0,
        ensures
            r == amount_scaled * sum_to(n as nat) / (max * total),
    {
        proof {
            lemma_sum_to(n as nat);
            assert(n + 1 <= n * (n + 1)) by (nonlinear_arith)
                requires
                    n >= 1,
            ;
        }
        let n_plus_one = n.checked_add(1).unwrap();
        let doubled = n.checked_mul(n_plus_one).unwrap();
        // Dividing by two is exact: n * (n + 1) is even.
        let sum = doubled.checked_div(2).unwrap();
        amount_scaled.checked_mul(sum).unwrap().checked_div(max.checked_mul(total).unwrap()).unwrap()
    }

    fn voting_power_daily(&self, curr_ts: i64, amount_scaled: u64) -> (r: Result<u64, ErrorCode>)
        requires
            self.decayed_power_fits(
                curr_ts as int,
                amount_scaled as int,
                SECS_PER_DAY as int,
                MAX_DAYS_LOCKED as int,
            ),
        ensures
            match (
                r,
                self.spec_decayed_power(
                    curr_ts as int,
                    amount_scaled as int,
                    SECS_PER_DAY as int,
                    MAX_DAYS_LOCKED as int,
                ),
            ) {
                (Ok(v), Ok(s)) => v == s,
                (Err(e), Err(s)) => e == s,
                _ => false,
            },
    {
        let m = MAX_DAYS_LOCKED;
        let n = self.lockup.days_left(curr_ts)?;
        let days_total = self.lockup.days_total()?;

        if n == 0 {
            return Ok(0);
        }
        proof {
            assert(days_total > 0);
            assert(m * days_total > 0) by (nonlinear_arith)
                requires
                    m > 0,
                    days_total > 0,
            ;
        }
        Ok(self.decayed_power(n, days_total, amount_scaled, m))
    }

    fn voting_power_monthly(&self, curr_ts: i64, amount_scaled: u64) -> (r: Result<u64, ErrorCode>)
        requires
            self.decayed_power_fits(
                curr_ts as int,
                amount_scaled as int,
                SECS_PER_MONTH as int,
                MAX_MONTHS_LOCKED as int,
            ),
        ensures
            match (
                r,
                self.spec_decayed_power(
                    curr_ts as int,
                    amount_scaled as int,
                    SECS_PER_MONTH as int,
                    MAX_MONTHS_LOCKED as int,
                ),
            ) {
                (Ok(v), Ok(s)) => v == s,
                (Err(e), Err(s)) => e == s,
                _ => false,
            },
    {
        let m = MAX_MONTHS_LOCKED;
        let n = self.lockup.months_left(curr_ts)?;
        let months_total = self.lockup.months_total()?;

        if n == 0 {
            return Ok(0);
        }
        proof {
            assert(months_total > 0);
            assert(m * months_total > 0) by (nonlinear_arith)
                requires
                    m > 0,
                    months_total > 0,
            ;
        }
        Ok(self.decayed_power(n, months_total, amount_scaled, m))
    }

    fn voting_power_cliff(&self, curr_ts: i64, amount_scaled: u64) -> (r: Result<u64, ErrorCode>)
        requires
            self.lockup.totals_fit(SECS_PER_DAY as int),
            self.lockup.spec_periods_left(curr_ts as int, SECS_PER_DAY as int) matches Ok(n) ==> n
                * amount_scaled <= u64::MAX,
        ensures
            match (r, self.spec_cliff_power(curr_ts as int, amount_scaled as int)) {
                (Ok(v), Ok(s)) => v == s,
                (Err(e), Err(s)) => e == s,
                _ => false,
            },
    {
        let decayed_voting_weight = self.lockup.days_left(curr_ts)?.checked_mul(
            amount_scaled,
        ).unwrap().checked_div(MAX_DAYS_LOCKED).unwrap();
        Ok(decayed_voting_weight)
    }

    /// Vested amount of a linear vesting lockup: the initially locked amount
    /// times the fraction of periods that have passed.
    pub open spec fn spec_vested_linearly(self, curr_ts: int, secs: int) -> Result<int, ErrorCode> {
        match self.lockup.spec_period_current(curr_ts, secs) {
            Err(e) => Err(e),
            Ok(c) => match self.lockup.spec_periods_total(secs) {
                Err(e) => Err(e),
                Ok(t) => Ok(
                    if c >= t {
                        self.amount_initially_locked_native as int
                    } else {
                        self.amount_initially_locked_native * c / t
                    },
                ),
            },
        }
    }

    /// Vesting stays within `u64`.
    pub open spec fn vested_linearly_fits(self, curr_ts: int, secs: int) -> bool {
        &&& self.lockup.totals_fit(secs)
        &&& (self.lockup.spec_period_current(curr_ts, secs) is Ok
            && self.lockup.spec_periods_total(secs) is Ok
            && self.lockup.spec_period_current(curr_ts, secs)->Ok_0
            < self.lockup.spec_periods_total(secs)->Ok_0)
            ==> self.amount_initially_locked_native * self.lockup.spec_period_current(
            curr_ts,
            secs,
        )->Ok_0 <= u64::MAX
    }

    /// The amount of unlocked tokens: nothing before the start, everything
    /// initially locked after the end, and in between as the kind vests; a
    /// deposit without lockup counts its deposited tokens.
    pub open spec fn spec_vested(self, curr_ts: int) -> Result<int, ErrorCode> {
        if curr_ts < self.lockup.start_ts {
            Ok(0)
        } else if curr_ts >= self.lockup.end_ts {
            Ok(self.amount_initially_locked_native as int)
        } else {
            match self.lockup.kind {
                LockupKind::NoLockup => Ok(self.amount_deposited_native as int),
                LockupKind::Daily => self.spec_vested_linearly(curr_ts, SECS_PER_DAY as int),
                LockupKind::Monthly => self.spec_vested_linearly(curr_ts, SECS_PER_MONTH as int),
                LockupKind::Cliff => Ok(0),
            }
        }
    }

    pub open spec fn vested_fits(self, curr_ts: int) -> bool {
        (self.lockup.start_ts <= curr_ts < self.lockup.end_ts) ==> match self.lockup.kind {
            LockupKind::Daily => self.vested_linearly_fits(curr_ts, SECS_PER_DAY as int),
            LockupKind::Monthly => self.vested_linearly_fits(curr_ts, SECS_PER_MONTH as int),
            _ => true,
        }
    }

    /// Returns the amount of unlocked tokens for this deposit--in native units
    /// of the deposited token (not scaled by the exchange rate).
    pub fn vested(&self, curr_ts: i64) -> (r: Result<u64, ErrorCode>)
        requires
            self.vested_fits(curr_ts as int),
        ensures
            match (r, self.spec_vested(curr_ts as int)) {
                (Ok(v), Ok(s)) => v == s,
                (Err(e), Err(s)) => e == s,
                _ => false,
            },
    {
        if curr_ts < self.lockup.start_ts {
            return Ok(0);
        }
        if curr_ts >= self.lockup.end_ts {
            return Ok(self.amount_initially_locked_native);
        }
        match self.lockup.kind {
            LockupKind::NoLockup => self.lockup_none(),
            LockupKind::Daily => self.vested_daily(curr_ts),
            LockupKind::Monthly => self.vested_monthly(curr_ts),
            LockupKind::Cliff => self.vested_cliff(curr_ts),
        }
    }

    fn lockup_none(&self) -> (r: Result<u64, ErrorCode>)
        ensures
            r == Ok::<u64, ErrorCode>(self.amount_deposited_native),
    {
        Ok(self.amount_deposited_native)
    }

    fn vested_linearly(&self, curr_ts: i64, secs: i64) -> (r: Result<u64, ErrorCode>)
        requires
            secs > 0,
            self.vested_linearly_fits(curr_ts as int, secs as int),
        ensures
            match (r, self.spec_vested_linearly(curr_ts as int, secs as int)) {
                (Ok(v), Ok(s)) => v == s,
                (Err(e), Err(s)) => e == s,
                _ => false,
            },
    {
        let current = self.lockup.period_current_in(curr_ts, secs)?;
        let total = self.lockup.periods_total_in(secs)?;
        if current >= total {
            return Ok(self.amount_initially_locked_native);
        }
        let vested = self.amount_initially_locked_native.checked_mul(current).unwrap().checked_div(
            total,
        ).unwrap();
        Ok(vested)
    }

    fn vested_daily(&self, curr_ts: i64) -> (r: Result<u64, ErrorCode>)
        requires
            self.vested_linearly_fits(curr_ts as int, SECS_PER_DAY as int),
        ensures
            match (r, self.spec_vested_linearly(curr_ts as int, SECS_PER_DAY as int)) {
                (Ok(v), Ok(s)) => v == s,
                (Err(e), Err(s)) => e == s,
                _ => false,
            },
    {
        self.vested_linearly(curr_ts, SECS_PER_DAY)
    }

    fn vested_monthly(&self, curr_ts: i64) -> (r: Result<u64, ErrorCode>)
        requires
            self.vested_linearly_fits(curr_ts as int, SECS_PER_MONTH as int),
        ensures
            match (r, self.spec_vested_linearly(curr_ts as int, SECS_PER_MONTH as int)) {
                (Ok(v), Ok(s)) => v == s,
                (Err(e), Err(s)) => e == s,
                _ => false,
            },
    {
        self.vested_linearly(curr_ts, SECS_PER_MONTH)
    }

    fn vested_cliff(&self, curr_ts: i64) -> (r: Result<u64, ErrorCode>)
        ensures
            r == Ok::<u64, ErrorCode>(
                if curr_ts < self.lockup.end_ts {
                    0
                } else {
                    self.amount_initially_locked_native
                },
            ),
    {
        if curr_ts < self.lockup.end_ts {
            return Ok(0);
        }
        Ok(self.amount_initially_locked_native)
    }

    /// Returns the amount that may be withdrawn given current vesting
    /// and previous withdraws: the deposited tokens that are not still locked.
    pub fn amount_withdrawable(&self, curr_ts: i64) -> (r: u64)
        requires
            self.vested_fits(curr_ts as int),
            self.spec_vested(curr_ts as int) matches Ok(v) && v <= self.amount_initially_locked_native
                && self.amount_initially_locked_native - v <= self.amount_deposited_native,
        ensures
            r == self.amount_deposited_native - (self.amount_initially_locked_native
                - self.spec_vested(curr_ts as int)->Ok_0),
    {
        let still_locked = self.amount_initially_locked_native.checked_sub(
            self.vested(curr_ts).unwrap(),
        ).unwrap();
        self.amount_deposited_native.checked_sub(still_locked).unwrap()
    }
}

/// Once started, periods only pass: the periods left never grow.
pub proof fn lemma_periods_left_monotonic(l: Lockup, t1: int, t2: int, secs: int)
    requires
        secs > 0,
        l.start_ts <= t1 <= t2,
        l.spec_periods_left(t1, secs) is Ok,
    ensures
        l.spec_periods_left(t2, secs) is Ok,
        0 <= l.spec_periods_left(t2, secs)->Ok_0 <= l.spec_periods_left(t1, secs)->Ok_0,
{
    let d1 = saturate_i64(t1 - l.start_ts);
    let d2 = saturate_i64(t2 - l.start_ts);
    assert(0 <= d1 <= d2);
    vstd::arithmetic::div_mod::lemma_div_is_ordered(d1, d2, secs);
    vstd::arithmetic::div_mod::lemma_div_pos_is_pos(d1, secs);
}

/// `1 + 2 + ... + n` grows with `n`.
pub proof fn lemma_sum_to_monotonic(m: nat, n: nat)
    requires
        m <= n,
    ensures
        0 <= sum_to(m) <= sum_to(n),
    decreases n,
{
    lemma_sum_to(m);
    if m < n {
        lemma_sum_to_monotonic(m, (n - 1) as nat);
    }
}

impl DepositEntry {
    /// Tokens only vest: with a lockup, the vested amount never exceeds what
    /// was initially locked and never decreases as time passes.
    pub proof fn lemma_vested_monotonic(self, t1: int, t2: int)
        requires
            t1 <= t2,
            self.lockup.kind != LockupKind::NoLockup,
            self.spec_vested(t1) is Ok,
            self.spec_vested(t2) is Ok,
        ensures
            0 <= self.spec_vested(t1)->Ok_0 <= self.spec_vested(t2)->Ok_0
                <= self.amount_initially_locked_native,
    {
        let l = self.lockup;
        let a = self.amount_initially_locked_native as int;
        if l.kind != LockupKind::Cliff {
            let secs = l.kind_secs();
            if l.start_ts <= t1 < l.end_ts {
                self.lemma_vested_linearly_bounds(t1, secs);
            }
            if l.start_ts <= t2 < l.end_ts {
                self.lemma_vested_linearly_bounds(t2, secs);
                if l.start_ts <= t1 {
                    let d1 = saturate_i64(t1 - l.start_ts);
                    let d2 = saturate_i64(t2 - l.start_ts);
                    vstd::arithmetic::div_mod::lemma_div_is_ordered(d1, d2, secs);
                    let c1 = l.spec_period_current(t1, secs)->Ok_0;
                    let c2 = l.spec_period_current(t2, secs)->Ok_0;
                    let t = l.spec_periods_total(secs)->Ok_0;
                    if c2 < t {
                        assert(a * c1 <= a * c2) by (nonlinear_arith)
                            requires
                                c1 <= c2,
                                a >= 0,
                        ;
                        vstd::arithmetic::div_mod::lemma_div_is_ordered(a * c1, a * c2, t);
                    }
                }
            }
        }
    }

    /// Linear vesting stays between nothing and all initially locked tokens.
    pub proof fn lemma_vested_linearly_bounds(self, curr_ts: int, secs: int)
        requires
            secs > 0,
            self.lockup.start_ts <= curr_ts,
            self.spec_vested_linearly(curr_ts, secs) is Ok,
        ensures
            0 <= self.spec_vested_linearly(curr_ts, secs)->Ok_0
                <= self.amount_initially_locked_native,
    {
        let l = self.lockup;
        let a = self.amount_initially_locked_native as int;
        let d = saturate_i64(curr_ts - l.start_ts);
        vstd::arithmetic::div_mod::lemma_div_pos_is_pos(d, secs);
        let c = l.spec_period_current(curr_ts, secs)->Ok_0;
        let t = l.spec_periods_total(secs)->Ok_0;
        if c < t {
            assert(0 <= a * c <= a * t) by (nonlinear_arith)
                requires
                    0 <= c <= t,
                    a >= 0,
            ;
            vstd::arithmetic::div_mod::lemma_div_is_ordered(a * c, a * t, t);
            vstd::arithmetic::div_mod::lemma_div_multiples_vanish(a, t);
            assert(t * a == a * t) by (nonlinear_arith);
            vstd::arithmetic::div_mod::lemma_div_pos_is_pos(a * c, t);
        }
    }
}

impl DepositEntry {
    /// Locked vote power decays: once the lockup has started, the vote power
    /// of the locked tokens never grows as time passes, for cliffs as for
    /// linear vesting.
    pub proof fn lemma_voting_power_locked_decays(self, t1: int, t2: int, amount_scaled: int)
        requires
            self.lockup.start_ts <= t1 <= t2,
            amount_scaled >= 0,
            self.spec_voting_power_locked(t1, amount_scaled) is Ok,
            self.spec_voting_power_locked(t2, amount_scaled) is Ok,
        ensures
            0 <= self.spec_voting_power_locked(t2, amount_scaled)->Ok_0
                <= self.spec_voting_power_locked(t1, amount_scaled)->Ok_0,
    {
        let l = self.lockup;
        match l.kind {
            LockupKind::NoLockup => {},
            LockupKind::Cliff => {
                let secs = SECS_PER_DAY as int;
                lemma_periods_left_monotonic(l, t1, t2, secs);
                let n1 = l.spec_periods_left(t1, secs)->Ok_0;
                let n2 = l.spec_periods_left(t2, secs)->Ok_0;
                assert(0 <= n2 * amount_scaled <= n1 * amount_scaled) by (nonlinear_arith)
                    requires
                        0 <= n2 <= n1,
                        amount_scaled >= 0,
                ;
                vstd::arithmetic::div_mod::lemma_div_is_ordered(
                    n2 * amount_scaled,
                    n1 * amount_scaled,
                    MAX_DAYS_LOCKED as int,
                );
                vstd::arithmetic::div_mod::lemma_div_pos_is_pos(
                    n2 * amount_scaled,
                    MAX_DAYS_LOCKED as int,
                );
            },
            _ => {
                let secs = l.kind_secs();
                let max = if l.kind == LockupKind::Daily {
                    MAX_DAYS_LOCKED as int
                } else {
                    MAX_MONTHS_LOCKED as int
                };
                lemma_periods_left_monotonic(l, t1, t2, secs);
                let n1 = l.spec_periods_left(t1, secs)->Ok_0;
                let n2 = l.spec_periods_left(t2, secs)->Ok_0;
                if n2 > 0 {
                    let t = l.spec_periods_total(secs)->Ok_0;
                    assert(t >= n1) by {
                        let c = l.spec_period_current(t1, secs)->Ok_0;
                        assert(c >= 0);
                    }
                    lemma_sum_to_monotonic(n2 as nat, n1 as nat);
                    let s1 = sum_to(n1 as nat);
                    let s2 = sum_to(n2 as nat);
                    assert(0 <= amount_scaled * s2 <= amount_scaled * s1) by (nonlinear_arith)
                        requires
                            0 <= s2 <= s1,
                            amount_scaled >= 0,
                    ;
                    assert(max * t > 0) by (nonlinear_arith)
                        requires
                            max > 0,
                            t > 0,
                    ;
                    vstd::arithmetic::div_mod::lemma_div_is_ordered(
                        amount_scaled * s2,
                        amount_scaled * s1,
                        max * t,
                    );
                    vstd::arithmetic::div_mod::lemma_div_pos_is_pos(amount_scaled * s2, max * t);
                } else if n1 > 0 {
                    let t = l.spec_periods_total(secs)->Ok_0;
                    assert(t >= n1) by {
                        let c = l.spec_period_current(t1, secs)->Ok_0;
                        assert(c >= 0);
                    }
                    lemma_sum_to(n1 as nat);
                    let s1 = sum_to(n1 as nat);
                    assert(amount_scaled * s1 >= 0) by (nonlinear_arith)
                        requires
                            s1 >= 0,
                            amount_scaled >= 0,
                    ;
                    assert(max * t > 0) by (nonlinear_arith)
                        requires
                            max > 0,
                            t > 0,
                    ;
                    vstd::arithmetic::div_mod::lemma_div_pos_is_pos(amount_scaled * s1, max * t);
                }
            },
        }
    }
}

/// The total vote power of the first `n` deposits, skipping unused ones;
/// the first error of a deposit's vote power ends the sum.
pub open spec fn spec_weight_upto(
    deposits: Seq<DepositEntry>,
    rates: Seq<ExchangeRateEntry>,
    curr_ts: int,
    n: nat,
) -> Result<int, ErrorCode>
    decreases n,
{
    if n == 0 {
        Ok(0)
    } else {
        match spec_weight_upto(deposits, rates, curr_ts, (n - 1) as nat) {
            Err(e) => Err(e),
            Ok(s) => {
                let d = deposits[n - 1];
                if !d.is_used {
                    Ok(s)
                } else {
                    match d.spec_voting_power(rates[d.rate_idx as int], curr_ts) {
                        Err(e) => Err(e),
                        Ok(v) => Ok(s + v),
                    }
                }
            },
        }
    }
}

/// Summing the first `n` deposits neither overflows nor reads an exchange
/// rate out of bounds, up to the first error.
pub open spec fn weight_fits_upto(
    deposits: Seq<DepositEntry>,
    rates: Seq<ExchangeRateEntry>,
    curr_ts: int,
    n: nat,
) -> bool
    decreases n,
{
    n == 0 || {
        &&& weight_fits_upto(deposits, rates, curr_ts, (n - 1) as nat)
        &&& (spec_weight_upto(deposits, rates, curr_ts, (n - 1) as nat) is Ok && deposits[n
            - 1].is_used) ==> {
            let d = deposits[n - 1];
            let s = spec_weight_upto(deposits, rates, curr_ts, (n - 1) as nat)->Ok_0;
            &&& d.rate_idx < rates.len()
            &&& d.voting_power_fits(rates[d.rate_idx as int], curr_ts)
            &&& d.spec_voting_power(rates[d.rate_idx as int], curr_ts) matches Ok(v) ==> s + v
                <= u64::MAX
        }
    }
}

pub proof fn lemma_weight_fits_prefix(
    deposits: Seq<DepositEntry>,
    rates: Seq<ExchangeRateEntry>,
    curr_ts: int,
    k: nat,
    n: nat,
)
    requires
        k <= n,
        weight_fits_upto(deposits, rates, curr_ts, n),
    ensures
        weight_fits_upto(deposits, rates, curr_ts, k),
    decreases n,
{
    if k < n {
        lemma_weight_fits_prefix(deposits, rates, curr_ts, k, (n - 1) as nat);
    }
}

pub proof fn lemma_weight_err_propagates(
    deposits: Seq<DepositEntry>,
    rates: Seq<ExchangeRateEntry>,
    curr_ts: int,
    k: nat,
    n: nat,
)
    requires
        k <= n,
        spec_weight_upto(deposits, rates, curr_ts, k) is Err,
    ensures
        spec_weight_upto(deposits, rates, curr_ts, n) == spec_weight_upto(deposits, rates, curr_ts, k),
    decreases n,
{
    if k < n {
        lemma_weight_err_propagates(deposits, rates, curr_ts, k, (n - 1) as nat);
    }
}

impl Voter {
    /// No deposit entry is in use, as in a freshly created voter account.
    pub open spec fn all_deposits_unused(self) -> bool {
        forall|i: int| 0 <= i < 32 ==> !(#[trigger] self.deposits@[i]).is_used
    }

    pub open spec fn spec_weight(self, registrar: Registrar, curr_ts: int) -> Result<int, ErrorCode> {
        spec_weight_upto(self.deposits@, registrar.rates@, curr_ts, 32)
    }

    /// The voter's total vote power at `curr_ts`: the sum of the vote power of
    /// every used deposit.
    pub fn weight(&self, registrar: &Registrar, curr_ts: i64) -> (r: Result<u64, ErrorCode>)
        requires
            weight_fits_upto(self.deposits@, registrar.rates@, curr_ts as int, 32),
        ensures
            match (r, self.spec_weight(*registrar, curr_ts as int)) {
                (Ok(v), Ok(s)) => v == s,
                (Err(e), Err(s)) => e == s,
                _ => false,
            },
    {
        let ghost deposits = self.deposits@;
        let ghost rates = registrar.rates@;
        let mut sum: u64 = 0;
        let mut i: usize = 0;
        while i < 32
            invariant
                0 <= i <= 32,
                deposits == self.deposits@,
                rates == registrar.rates@,
                weight_fits_upto(deposits, rates, curr_ts as int, 32),
                spec_weight_upto(deposits, rates, curr_ts as int, i as nat) == Ok::<int, ErrorCode>(
                    sum as int,
                ),
            decreases 32 - i,
        {
            proof {
                lemma_weight_fits_prefix(deposits, rates, curr_ts as int, (i + 1) as nat, 32);
            }
            let d = &self.deposits[i];
            if d.is_used {
                match d.voting_power(&registrar.rates[d.rate_idx as usize], curr_ts) {
                    Ok(v) => {
                        proof {
                            assert(deposits[i as int] == *d);
                        }
                        sum = sum + v;
                    },
                    Err(e) => {
                        proof {
                            assert(deposits[i as int] == *d);
                            assert(spec_weight_upto(deposits, rates, curr_ts as int, (i + 1) as nat)
                                == Err::<int, ErrorCode>(e));
                            lemma_weight_err_propagates(
                                deposits,
                                rates,
                                curr_ts as int,
                                (i + 1) as nat,
                                32,
                            );
                        }
                        return Err(e);
                    },
                }
            }
            i = i + 1;
        }
        Ok(sum)
    }
}


impl DepositEntry {
    /// Daily and monthly lockups vest linearly: strictly inside a lockup of
    /// whole periods, the vested amount is the initially locked amount times
    /// the whole periods passed since the start, over the periods in the
    /// lockup, rounded down. Once a period has passed and at least one token
    /// per period was locked, something has vested.
    pub proof fn law_linear_vesting_is_proportional(self, curr_ts: int)
        requires
            self.lockup.kind == LockupKind::Daily || self.lockup.kind == LockupKind::Monthly,
            self.lockup.start_ts <= curr_ts < self.lockup.end_ts,
            self.lockup.end_ts - self.lockup.start_ts <= i64::MAX,
            (self.lockup.end_ts - self.lockup.start_ts) % (if self.lockup.kind
                == LockupKind::Monthly {
                SECS_PER_MONTH as int
            } else {
                SECS_PER_DAY as int
            }) == 0,
        ensures
            ({
                let ps: int = if self.lockup.kind == LockupKind::Monthly {
                    SECS_PER_MONTH as int
                } else {
                    SECS_PER_DAY as int
                };
                let total = (self.lockup.end_ts - self.lockup.start_ts) / ps;
                let passed = (curr_ts - self.lockup.start_ts) / ps;
                let a = self.amount_initially_locked_native as int;
                &&& 0 <= passed < total
                &&& self.spec_vested(curr_ts) == Ok::<int, ErrorCode>(a * passed / total)
                &&& (curr_ts - self.lockup.start_ts >= ps && a >= total) ==> self.spec_vested(
                    curr_ts,
                )->Ok_0 >= 1
            }),
    {
        let ps = self.lockup.kind_secs();
        let l = self.lockup;
        let d = l.end_ts - l.start_ts;
        let x = curr_ts - l.start_ts;
        let a = self.amount_initially_locked_native as int;
        assert(saturate_i64(x) == x);
        assert(trunc_div(x, ps) == x / ps);
        let c = x / ps;
        vstd::arithmetic::div_mod::lemma_fundamental_div_mod(d, ps);
        vstd::arithmetic::div_mod::lemma_fundamental_div_mod(x, ps);
        let t = d / ps;
        vstd::arithmetic::div_mod::lemma_div_pos_is_pos(x, ps);
        assert(c < t) by (nonlinear_arith)
            requires
                d == ps * t,
                x == ps * c + x % ps,
                0 <= x % ps,
                x < d,
                ps > 0,
        ;
        assert(l.spec_period_current(curr_ts, ps) == Ok::<int, ErrorCode>(c));
        assert(l.spec_periods_total(ps) == Ok::<int, ErrorCode>(t));
        if x >= ps && a >= t {
            vstd::arithmetic::div_mod::lemma_div_is_ordered(ps, x, ps);
            vstd::arithmetic::div_mod::lemma_div_by_self(ps);
            assert(a * c >= t) by (nonlinear_arith)
                requires
                    c >= 1,
                    a >= t,
                    t >= 1,
            ;
            vstd::arithmetic::div_mod::lemma_div_is_ordered(t, a * c, t);
            vstd::arithmetic::div_mod::lemma_div_by_self(t);
        }
    }

    /// Locked tokens weigh by the periods left: strictly inside a lockup of
    /// whole periods (days, or months for a monthly lockup), with `n` the
    /// periods not yet passed out of `total`, a daily or monthly lockup counts
    /// one cliff per period left, `amount * (1 + 2 + ... + n) / (2555 * total)`,
    /// and a cliff lockup counts `n * amount / 2555`; at least one period is
    /// always left.
    pub proof fn law_locked_power_by_periods_left(self, curr_ts: int, amount_scaled: int)
        requires
            self.lockup.kind != LockupKind::NoLockup,
            self.lockup.start_ts <= curr_ts < self.lockup.end_ts,
            self.lockup.end_ts - self.lockup.start_ts <= i64::MAX,
            (self.lockup.end_ts - self.lockup.start_ts) % (if self.lockup.kind
                == LockupKind::Monthly {
                SECS_PER_MONTH as int
            } else {
                SECS_PER_DAY as int
            }) == 0,
        ensures
            ({
                let ps: int = if self.lockup.kind == LockupKind::Monthly {
                    SECS_PER_MONTH as int
                } else {
                    SECS_PER_DAY as int
                };
                let total = (self.lockup.end_ts - self.lockup.start_ts) / ps;
                let n = total - (curr_ts - self.lockup.start_ts) / ps;
                &&& 1 <= n <= total
                &&& self.spec_voting_power_locked(curr_ts, amount_scaled) == if self.lockup.kind
                    == LockupKind::Cliff {
                    Ok::<int, ErrorCode>(n * amount_scaled / 2555)
                } else {
                    Ok::<int, ErrorCode>(amount_scaled * sum_to(n as nat) / (2555 * total))
                }
            }),
    {
        let ps = self.lockup.kind_secs();
        let l = self.lockup;
        let d = l.end_ts - l.start_ts;
        let x = curr_ts - l.start_ts;
        assert(saturate_i64(x) == x);
        assert(trunc_div(x, ps) == x / ps);
        let c = x / ps;
        vstd::arithmetic::div_mod::lemma_fundamental_div_mod(d, ps);
        vstd::arithmetic::div_mod::lemma_fundamental_div_mod(x, ps);
        let t = d / ps;
        vstd::arithmetic::div_mod::lemma_div_pos_is_pos(x, ps);
        assert(c < t) by (nonlinear_arith)
            requires
                d == ps * t,
                x == ps * c + x % ps,
                0 <= x % ps,
                x < d,
                ps > 0,
        ;
        assert(l.spec_period_current(curr_ts, ps) == Ok::<int, ErrorCode>(c));
        assert(l.spec_periods_total(ps) == Ok::<int, ErrorCode>(t));
        assert(l.spec_periods_left(curr_ts, ps) == Ok::<int, ErrorCode>(t - c));
    }

    /// A deposit's vote weight is its deposited amount converted into the
    /// common vote currency by the exchange rate's conversion factor, times
    /// the fixed vote weight factor of one; the locking factor is zero, so a
    /// lockup adds nothing. It scales with the conversion factor.
    pub proof fn law_voting_power_is_converted_deposit(
        self,
        rate: ExchangeRateEntry,
        curr_ts: int,
    )
        ensures
            self.spec_voting_power(rate, curr_ts) == Ok::<int, ErrorCode>(
                self.amount_deposited_native * rate.conversion_factor,
            ),
    {
    }
}


/// The sum of the first `n` deposits reads no deposit at or beyond `n`.
pub proof fn lemma_weight_upto_prefix(
    deposits: Seq<DepositEntry>,
    other: Seq<DepositEntry>,
    rates: Seq<ExchangeRateEntry>,
    curr_ts: int,
    n: nat,
)
    requires
        n <= deposits.len(),
        n <= other.len(),
        forall|k: int| 0 <= k < n ==> deposits[k] == other[k],
    ensures
        spec_weight_upto(deposits, rates, curr_ts, n) == spec_weight_upto(other, rates, curr_ts, n),
    decreases n,
{
    if n > 0 {
        lemma_weight_upto_prefix(deposits, other, rates, curr_ts, (n - 1) as nat);
        assert(deposits[n - 1] == other[n - 1]);
    }
}

/// Setting aside a used deposit `i` among the first `n` takes exactly its
/// vote power off their sum, whichever exchange rate it uses; an error of
/// another deposit stays the same error.
pub proof fn lemma_weight_upto_without(
    deposits: Seq<DepositEntry>,
    rates: Seq<ExchangeRateEntry>,
    curr_ts: int,
    i: int,
    v: int,
    n: nat,
)
    requires
        0 <= i < n <= deposits.len(),
        deposits[i].is_used,
        deposits[i].spec_voting_power(rates[deposits[i].rate_idx as int], curr_ts) == Ok::<
            int,
            ErrorCode,
        >(v),
    ensures
        ({
            let without = deposits.update(i, DepositEntry { is_used: false, ..deposits[i] });
            match spec_weight_upto(deposits, rates, curr_ts, n) {
                Ok(s) => spec_weight_upto(without, rates, curr_ts, n) == Ok::<int, ErrorCode>(s - v),
                Err(e) => spec_weight_upto(without, rates, curr_ts, n) == Err::<int, ErrorCode>(e),
            }
        }),
    decreases n,
{
    let without = deposits.update(i, DepositEntry { is_used: false, ..deposits[i] });
    if n == i + 1 {
        lemma_weight_upto_prefix(deposits, without, rates, curr_ts, i as nat);
    } else {
        lemma_weight_upto_without(deposits, rates, curr_ts, i, v, (n - 1) as nat);
        assert(without[n - 1] == deposits[n - 1]);
    }
}

/// With one deposit `i` possibly used and all others unused, the sum of the
/// first `n` deposits is that deposit's vote power once it is counted.
pub proof fn lemma_weight_upto_single(
    deposits: Seq<DepositEntry>,
    rates: Seq<ExchangeRateEntry>,
    curr_ts: int,
    i: int,
    n: nat,
)
    requires
        0 <= i < deposits.len(),
        n <= deposits.len(),
        forall|k: int| 0 <= k < deposits.len() && k != i ==> !(#[trigger] deposits[k]).is_used,
    ensures
        spec_weight_upto(deposits, rates, curr_ts, n) == if n <= i || !deposits[i].is_used {
            Ok::<int, ErrorCode>(0)
        } else {
            match deposits[i].spec_voting_power(rates[deposits[i].rate_idx as int], curr_ts) {
                Ok(v) => Ok::<int, ErrorCode>(v),
                Err(e) => Err(e),
            }
        },
    decreases n,
{
    if n > 0 {
        lemma_weight_upto_single(deposits, rates, curr_ts, i, (n - 1) as nat);
        if n - 1 != i {
            assert(!deposits[n - 1].is_used);
        }
    }
}

impl Voter {
    /// The weight sums the vote power of every used deposit, whichever
    /// exchange rate each uses: setting aside one used deposit lowers the
    /// voter's weight by exactly its vote power, its deposited amount times
    /// its rate's conversion factor.
    pub proof fn law_weight_counts_each_used_deposit(
        self,
        without: Voter,
        registrar: Registrar,
        curr_ts: int,
        i: int,
    )
        requires
            0 <= i < 32,
            self.deposits@[i].is_used,
            without.deposits@ == self.deposits@.update(
                i,
                DepositEntry { is_used: false, ..self.deposits@[i] },
            ),
        ensures
            ({
                let d = self.deposits@[i];
                let v = d.amount_deposited_native * registrar.rates@[d.rate_idx as int].conversion_factor;
                match self.spec_weight(registrar, curr_ts) {
                    Ok(s) => without.spec_weight(registrar, curr_ts) == Ok::<int, ErrorCode>(s - v),
                    Err(e) => without.spec_weight(registrar, curr_ts) == Err::<int, ErrorCode>(e),
                }
            }),
    {
        let d = self.deposits@[i];
        let rate = registrar.rates@[d.rate_idx as int];
        d.law_voting_power_is_converted_deposit(rate, curr_ts);
        let v = d.amount_deposited_native * rate.conversion_factor;
        lemma_weight_upto_without(self.deposits@, registrar.rates@, curr_ts, i, v, 32);
    }

    /// A voter whose only used deposit is `i` weighs exactly that deposit's
    /// deposited amount times its exchange rate's conversion factor.
    pub proof fn law_weight_of_single_deposit(self, registrar: Registrar, curr_ts: int, i: int)
        requires
            0 <= i < 32,
            self.deposits@[i].is_used,
            forall|k: int| 0 <= k < 32 && k != i ==> !(#[trigger] self.deposits@[k]).is_used,
        ensures
            self.spec_weight(registrar, curr_ts) == Ok::<int, ErrorCode>(
                self.deposits@[i].amount_deposited_native
                    * registrar.rates@[self.deposits@[i].rate_idx as int].conversion_factor,
            ),
    {
        let d = self.deposits@[i];
        d.law_voting_power_is_converted_deposit(registrar.rates@[d.rate_idx as int], curr_ts);
        lemma_weight_upto_single(self.deposits@, registrar.rates@, curr_ts, i, 32);
    }
}

} // verus!
