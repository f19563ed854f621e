use vstd::prelude::*;
use crate::error::ErrorCode;

verus! {

/// Seconds in one day.
pub const SECS_PER_DAY: u64 = 86_400;

/// Seconds in one month.
pub const SECS_PER_MONTH: u64 = 365 * SECS_PER_DAY / 12;

/// The schedule by which deposited tokens are locked and vest.
#[derive(Clone, Copy, Debug, PartialEq, Eq, Structural)]
pub enum LockupKind {
    /// No lockup, tokens can be withdrawn as long as not engaged in a proposal.
    NoLockup,
    /// Lock up for a number of days, where a linear fraction vests each day.
    Daily,
    /// Lock up for a number of months, where a linear fraction vests each month.
    Monthly,
    /// Lock up for a number of days, no vesting.
    Cliff,
    /// Lock up permanently. The number of days specified becomes the minimum
    /// unlock period when the deposit (or a part of it) is changed to Cliff.
    Constant,
}

impl LockupKind {
    pub open spec fn spec_period_secs(self) -> u64 {
        match self {
            LockupKind::NoLockup => 0,
            LockupKind::Daily => SECS_PER_DAY,
            LockupKind::Monthly => SECS_PER_MONTH,
            LockupKind::Cliff => SECS_PER_DAY,
            LockupKind::Constant => SECS_PER_DAY,
        }
    }

    /// The length of one lockup period. For vesting lockups this is also the
    /// vesting period; a lockup without periods has length zero.
    pub fn period_secs(&self) -> (r: u64)
        ensures
            r == self.spec_period_secs(),
    {
        match self {
            LockupKind::NoLockup => 0,
            LockupKind::Daily => SECS_PER_DAY,
            LockupKind::Monthly => SECS_PER_MONTH,
            LockupKind::Cliff => SECS_PER_DAY,
            LockupKind::Constant => SECS_PER_DAY,
        }
    }

    pub open spec fn spec_strictness(self) -> u8 {
        match self {
            LockupKind::NoLockup => 0,
            LockupKind::Daily => 1,
            LockupKind::Monthly => 2,
            LockupKind::Cliff => 3,
            LockupKind::Constant => 3,
        }
    }

    /// Lockups cannot decrease in strictness; Cliff and Constant are equally strict.
    pub fn strictness(&self) -> (r: u8)
        ensures
            r == self.spec_strictness(),
    {
        match self {
            LockupKind::NoLockup => 0,
            LockupKind::Daily => 1,
            LockupKind::Monthly => 2,
            LockupKind::Cliff => 3,
            LockupKind::Constant => 3,
        }
    }
}

/// A lockup: from `start_ts` to `end_ts`, of the given kind.
///
/// If `start_ts` is in the future the funds are nevertheless locked, and the
/// time left is measured from now to `end_ts`.
#[derive(Clone, Copy, Debug)]
pub struct Lockup {
    /// Start of the lockup.
    pub start_ts: i64,
    /// End of the lockup.
    pub end_ts: i64,
    /// Type of lockup.
    pub kind: LockupKind,
    /// Empty bytes for future upgrades.
    pub padding: [u8; 15],
}

impl Default for Lockup {
    fn default() -> (r: Self)
        ensures
            r.kind == LockupKind::NoLockup,
            r.start_ts == 0,
            r.end_ts == 0,
            r.padding == zero_padding(),
    {
        let padding = [0u8; 15];
        assert(padding == zero_padding());
        Lockup { kind: LockupKind::NoLockup, start_ts: 0, end_ts: 0, padding }
    }
}

/// The unused bytes of a fresh lockup: all zero.
pub open spec fn zero_padding() -> [u8; 15] {
    [0u8, 0u8, 0u8, 0u8, 0u8, 0u8, 0u8, 0u8, 0u8, 0u8, 0u8, 0u8, 0u8, 0u8, 0u8]
}

/// `(s + p - 1) / p` is the least number of periods of length `p` that cover `s`.
pub proof fn lemma_ceil_div(s: int, p: int)
    requires
        s >= 0,
        p > 0,
    ensures
        (s + p - 1) / p >= 0,
        ((s + p - 1) / p) * p >= s,
        s == 0 ==> (s + p - 1) / p == 0,
        s > 0 ==> ((s + p - 1) / p - 1) * p < s,
        s > 0 ==> (s + p - 1) / p >= 1,
{
    let l = (s + p - 1) / p;
    let r = (s + p - 1) % p;
    vstd::arithmetic::div_mod::lemma_fundamental_div_mod(s + p - 1, p);
    assert(0 <= r < p);
    assert(s + p - 1 == p * l + r);
    assert(l * p == p * l) by (nonlinear_arith);
    assert((l - 1) * p == l * p - p) by (nonlinear_arith);
    if s == 0 {
        assert(l == 0) by (nonlinear_arith)
            requires
                p - 1 == p * l + r,
                0 <= r < p,
                p > 0,
        ;
    }
    if s > 0 {
        assert(l >= 1) by (nonlinear_arith)
            requires
                s + p - 1 == p * l + r,
                0 <= r < p,
                p > 0,
                s > 0,
        ;
    }
    assert(l >= 0) by (nonlinear_arith)
        requires
            s + p - 1 == p * l + r,
            0 <= r < p,
            p > 0,
            s >= 0,
    ;
}

/// A count `k` of periods covers `s` exactly as the ceiling does.
pub proof fn lemma_ceil_div_unique(s: int, p: int, k: int)
    requires
        s > 0,
        p > 0,
        k >= 1,
        (k - 1) * p < s,
        s <= k * p,
    ensures
        (s + p - 1) / p == k,
{
    lemma_ceil_div(s, p);
    let l = (s + p - 1) / p;
    if l < k {
        assert(l * p <= (k - 1) * p) by (nonlinear_arith)
            requires
                l <= k - 1,
                p > 0,
        ;
    } else if l > k {
        assert(k * p <= (l - 1) * p) by (nonlinear_arith)
            requires
                k <= l - 1,
                p > 0,
        ;
    }
}

impl Lockup {
    /// The timestamp the lockup measures from: a constant lockup never
    /// progresses past its start.
    pub open spec fn effective_ts(self, curr_ts: int) -> int {
        if self.kind == LockupKind::Constant {
            self.start_ts as int
        } else {
            curr_ts
        }
    }

    pub open spec fn spec_seconds_left(self, curr_ts: int) -> int {
        let c = self.effective_ts(curr_ts);
        if c >= self.end_ts {
            0
        } else {
            self.end_ts - c
        }
    }

    /// The seconds left are representable as a signed timestamp difference.
    pub open spec fn secs_fit(self, curr_ts: int) -> bool {
        self.spec_seconds_left(curr_ts) <= i64::MAX
    }

    pub open spec fn spec_expired(self, curr_ts: int) -> bool {
        self.spec_seconds_left(curr_ts) == 0
    }

    pub open spec fn period_len(self) -> int {
        self.kind.spec_period_secs() as int
    }

    /// The total number of periods: the lockup length divided by the period
    /// length, an error if the lockup is not a whole number of periods.
    pub open spec fn spec_periods_total(self) -> Result<int, ErrorCode> {
        let ps = self.period_len();
        if ps == 0 {
            Ok(0)
        } else {
            let secs = self.spec_seconds_left(self.start_ts as int);
            if secs % ps != 0 {
                Err(ErrorCode::InvalidLockupPeriod)
            } else {
                Ok(secs / ps)
            }
        }
    }

    /// The number of periods not yet fully passed: the seconds left rounded
    /// up to whole periods; all periods before the start.
    pub open spec fn spec_periods_left(self, curr_ts: int) -> Result<int, ErrorCode> {
        let ps = self.period_len();
        if ps == 0 {
            Ok(0)
        } else if curr_ts < self.start_ts {
            self.spec_periods_total()
        } else {
            Ok((self.spec_seconds_left(curr_ts) + ps - 1) / ps)
        }
    }

    /// The number of periods that have passed.
    pub open spec fn spec_period_current(self, curr_ts: int) -> Result<int, ErrorCode> {
        match self.spec_periods_total() {
            Err(e) => Err(e),
            Ok(t) => match self.spec_periods_left(curr_ts) {
                Err(e) => Err(e),
                Ok(l) => Ok(
                    if l <= t {
                        t - l
                    } else {
                        0
                    },
                ),
            },
        }
    }

    /// Computing the total number of periods does not overflow.
    pub open spec fn total_fits(self) -> bool {
        self.period_len() == 0 || self.secs_fit(self.start_ts as int)
    }

    /// Computing the number of periods left does not overflow.
    pub open spec fn left_fits(self, curr_ts: int) -> bool {
        self.period_len() == 0 || if curr_ts < self.start_ts {
            self.secs_fit(self.start_ts as int)
        } else {
            self.secs_fit(curr_ts)
        }
    }

    /// Create lockup for a given period
    pub fn new_from_periods(kind: LockupKind, start_ts: i64, periods: u32) -> (r: Result<
        Self,
        ErrorCode,
    >)
        requires
            start_ts + periods * kind.spec_period_secs() <= i64::MAX,
        ensures
            r matches Ok(l) && l.kind == kind && l.start_ts == start_ts && l.end_ts == start_ts
                + periods * kind.spec_period_secs() && l.padding == zero_padding(),
    {
        let ps = kind.period_secs();
        assert(periods * ps <= u32::MAX * SECS_PER_MONTH) by (nonlinear_arith)
            requires
                periods <= u32::MAX,
                ps <= SECS_PER_MONTH,
        ;
        let secs = (periods as u64).checked_mul(ps).unwrap();
        let secs = secs as i64;
        let padding = [0u8; 15];
        assert(padding == zero_padding());
        Ok(Self { kind, start_ts, end_ts: start_ts.checked_add(secs).unwrap(), padding })
    }

    /// True when the lockup is finished.
    pub fn expired(&self, curr_ts: i64) -> (r: bool)
        requires
            self.secs_fit(curr_ts as int),
        ensures
            r == self.spec_expired(curr_ts as int),
    {
        self.seconds_left(curr_ts) == 0
    }

    /// Number of seconds left in the lockup.
    /// May be more than end_ts-start_ts if curr_ts < start_ts.
    pub fn seconds_left(&self, curr_ts: i64) -> (r: u64)
        requires
            self.secs_fit(curr_ts as int),
        ensures
            r == self.spec_seconds_left(curr_ts as int),
    {
        let curr_ts = if self.kind == LockupKind::Constant {
            self.start_ts
        } else {
            curr_ts
        };
        if curr_ts >= self.end_ts {
            0
        } else {
            (self.end_ts - curr_ts) as u64
        }
    }

    /// Returns the number of periods left on the lockup.
    /// Returns 0 after lockup has expired and periods_total before start_ts.
    pub fn periods_left(&self, curr_ts: i64) -> (r: Result<u64, ErrorCode>)
        requires
            self.left_fits(curr_ts as int),
        ensures
            match (r, self.spec_periods_left(curr_ts as int)) {
                (Ok(v), Ok(s)) => v == s,
                (Err(e), Err(s)) => e == s,
                _ => false,
            },
    {
        let period_secs = self.kind.period_secs();
        if period_secs == 0 {
            return Ok(0);
        }
        if curr_ts < self.start_ts {
            return self.periods_total();
        }
        Ok((self.seconds_left(curr_ts) + period_secs - 1) / period_secs)
    }

    /// Returns the current period in the vesting schedule.
    /// Will report periods_total() after lockup has expired and 0 before start_ts.
    pub fn period_current(&self, curr_ts: i64) -> (r: Result<u64, ErrorCode>)
        requires
            self.total_fits(),
            self.left_fits(curr_ts as int),
        ensures
            match (r, self.spec_period_current(curr_ts as int)) {
                (Ok(v), Ok(s)) => v == s,
                (Err(e), Err(s)) => e == s,
                _ => false,
            },
    {
        let total = self.periods_total()?;
        let left = self.periods_left(curr_ts)?;
        Ok(total.saturating_sub(left))
    }

    /// Returns the total amount of periods in the lockup.
    pub fn periods_total(&self) -> (r: Result<u64, ErrorCode>)
        requires
            self.total_fits(),
        ensures
            match (r, self.spec_periods_total()) {
                (Ok(v), Ok(s)) => v == s,
                (Err(e), Err(s)) => e == s,
                _ => false,
            },
    {
        let period_secs = self.kind.period_secs();
        if period_secs == 0 {
            return Ok(0);
        }
        let lockup_secs = self.seconds_left(self.start_ts);
        if lockup_secs % period_secs != 0 {
            return Err(ErrorCode::InvalidLockupPeriod);
        }
        Ok(lockup_secs / period_secs)
    }
}


impl Lockup {
    /// The lockup with its start moved past the periods that have already
    /// passed at `curr_ts`.
    pub open spec fn spec_without_past_periods(self, curr_ts: int) -> Lockup {
        Lockup {
            start_ts: (self.start_ts + self.spec_period_current(curr_ts)->Ok_0 * self.period_len()) as i64,
            ..self
        }
    }

    /// Moving the start past the passed periods keeps the end and the
    /// periods left, and leaves no period passed.
    pub proof fn lemma_without_past_periods(self, curr_ts: int)
        requires
            self.spec_periods_total() is Ok,
        ensures
            ({
                let n = self.spec_without_past_periods(curr_ts);
                &&& 0 <= self.spec_period_current(curr_ts)->Ok_0 * self.period_len()
                    <= self.spec_seconds_left(self.start_ts as int)
                &&& self.start_ts <= n.start_ts
                &&& n.start_ts <= self.end_ts || n.start_ts == self.start_ts
                &&& n.spec_periods_total() == self.spec_periods_left(curr_ts)
                &&& n.spec_periods_left(curr_ts) == self.spec_periods_left(curr_ts)
                &&& n.spec_period_current(curr_ts) == Ok::<int, ErrorCode>(0)
                &&& n.spec_seconds_left(n.start_ts as int) <= self.spec_seconds_left(self.start_ts as int)
            }),
    {
        self.lemma_periods_partition(curr_ts);
        let ps = self.period_len();
        let n = self.spec_without_past_periods(curr_ts);
        if ps == 0 {
            assert(self.spec_period_current(curr_ts)->Ok_0 * ps == 0);
            assert(n.start_ts == self.start_ts);
        } else if curr_ts < self.start_ts {
            assert(self.spec_seconds_left(self.start_ts as int) >= 0);
            self.lemma_before_start(curr_ts);
            assert(self.spec_period_current(curr_ts)->Ok_0 == 0);
            assert(0 * ps == 0);
            assert(n.start_ts == self.start_ts);
        } else if self.kind == LockupKind::Constant {
            self.lemma_constant_never_progresses(curr_ts);
            assert(self.spec_period_current(curr_ts)->Ok_0 == 0);
            assert(0 * ps == 0);
            assert(n.start_ts == self.start_ts);
        } else {
            let t = self.spec_periods_total()->Ok_0;
            let pl = self.spec_periods_left(curr_ts)->Ok_0;
            let pc = t - pl;
            let d = self.spec_seconds_left(self.start_ts as int);
            vstd::arithmetic::div_mod::lemma_fundamental_div_mod(d, ps);
            assert(d == t * ps) by (nonlinear_arith)
                requires
                    d == ps * (d / ps) + d % ps,
                    d % ps == 0,
                    t == d / ps,
            ;
            assert(pc * ps + pl * ps == t * ps) by (nonlinear_arith)
                requires
                    pc == t - pl,
            ;
            assert(pc * ps >= 0 && pl * ps >= 0) by (nonlinear_arith)
                requires
                    pc >= 0,
                    pl >= 0,
                    ps > 0,
            ;
            assert(n.start_ts == self.start_ts + pc * ps);
            if pl == 0 {
                assert(n.start_ts == self.end_ts || d == 0);
                assert(n.spec_seconds_left(n.start_ts as int) == 0);
                lemma_ceil_div(0, ps);
                lemma_total_of_whole_secs(n, 0);
            } else {
                assert(pl * ps > 0) by (nonlinear_arith)
                    requires
                        pl > 0,
                        ps > 0,
                ;
                assert(n.spec_seconds_left(n.start_ts as int) == pl * ps);
                lemma_total_of_whole_secs(n, pl);
            }
            assert(n.spec_periods_total() == Ok::<int, ErrorCode>(pl));
            n.lemma_periods_partition(curr_ts);
        }
    }

    /// Remove the vesting periods that are now in the past.
    pub fn remove_past_periods(&mut self, curr_ts: i64) -> (r: Result<(), ErrorCode>)
        requires
            old(self).total_fits(),
            old(self).left_fits(curr_ts as int),
        ensures
            match old(self).spec_period_current(curr_ts as int) {
                Err(e) => r == Err::<(), ErrorCode>(e) && *final(self) == *old(self),
                Ok(_) => *final(self) == old(self).spec_without_past_periods(curr_ts as int) && r
                    == if old(self).start_ts <= old(self).end_ts {
                    Ok::<(), ErrorCode>(())
                } else {
                    Err(ErrorCode::InternalProgramError)
                },
            },
    {
        let periods = self.period_current(curr_ts)?;
        let period_secs = self.kind.period_secs();
        proof {
            self.lemma_without_past_periods(curr_ts as int);
            assert(periods * period_secs <= i64::MAX);
        }
        let shift = periods.checked_mul(period_secs).unwrap();
        let shift = shift as i64;
        self.start_ts = self.start_ts.checked_add(shift).unwrap();
        if !(self.start_ts <= self.end_ts) {
            return Err(ErrorCode::InternalProgramError);
        }
        if self.period_current(curr_ts)? != 0 {
            return Err(ErrorCode::InternalProgramError);
        }
        Ok(())
    }
}

/// A whole number of periods covers itself exactly: the ceiling of `t * p`
/// periods of length `p` is `t`.
pub proof fn lemma_ceil_div_exact(t: int, p: int)
    requires
        t >= 0,
        p > 0,
    ensures
        (t * p + p - 1) / p == t,
{
    if t == 0 {
        lemma_ceil_div(0, p);
    } else {
        assert(t * p > 0) by (nonlinear_arith)
            requires
                t > 0,
                p > 0,
        ;
        assert((t - 1) * p == t * p - p) by (nonlinear_arith);
        lemma_ceil_div_unique(t * p, p, t);
    }
}

impl Lockup {
    /// The periods left never exceed the total, and the current period is
    /// the total minus the periods left: every period is either past or left.
    pub proof fn lemma_periods_partition(self, curr_ts: int)
        requires
            self.spec_periods_total() is Ok,
        ensures
            self.spec_periods_left(curr_ts) is Ok,
            0 <= self.spec_periods_left(curr_ts)->Ok_0 <= self.spec_periods_total()->Ok_0,
            self.spec_period_current(curr_ts) == Ok::<int, ErrorCode>(
                self.spec_periods_total()->Ok_0 - self.spec_periods_left(curr_ts)->Ok_0,
            ),
    {
        let ps = self.period_len();
        if ps > 0 && curr_ts >= self.start_ts {
            let t = self.spec_periods_total()->Ok_0;
            let d = self.spec_seconds_left(self.start_ts as int);
            let sl = self.spec_seconds_left(curr_ts);
            vstd::arithmetic::div_mod::lemma_fundamental_div_mod(d, ps);
            assert(d == ps * t);
            assert(ps * t == t * ps) by (nonlinear_arith);
            assert(t >= 0) by (nonlinear_arith)
                requires
                    d == ps * t,
                    d >= 0,
                    ps > 0,
            ;
            assert(sl <= d);
            lemma_ceil_div(sl, ps);
            lemma_ceil_div_exact(t, ps);
            vstd::arithmetic::div_mod::lemma_div_is_ordered(sl + ps - 1, d + ps - 1, ps);
        }
    }

    /// Before the start no period has passed and all are left.
    pub proof fn lemma_before_start(self, curr_ts: int)
        requires
            self.spec_periods_total() is Ok,
            curr_ts < self.start_ts,
        ensures
            self.spec_periods_left(curr_ts) == self.spec_periods_total(),
            self.spec_period_current(curr_ts) == Ok::<int, ErrorCode>(0),
    {
        self.lemma_periods_partition(curr_ts);
    }

    /// Once a non-constant lockup has ended no period is left and all have passed.
    pub proof fn lemma_after_end(self, curr_ts: int)
        requires
            self.spec_periods_total() is Ok,
            self.kind != LockupKind::Constant,
            curr_ts >= self.end_ts,
            curr_ts >= self.start_ts,
        ensures
            self.spec_periods_left(curr_ts) == Ok::<int, ErrorCode>(0),
            self.spec_period_current(curr_ts) == self.spec_periods_total(),
    {
        if self.period_len() > 0 {
            lemma_ceil_div(0, self.period_len());
        }
        self.lemma_periods_partition(curr_ts);
    }

    /// A constant lockup never progresses: no period ever passes.
    pub proof fn lemma_constant_never_progresses(self, curr_ts: int)
        requires
            self.spec_periods_total() is Ok,
            self.kind == LockupKind::Constant,
        ensures
            self.spec_periods_left(curr_ts) == self.spec_periods_total(),
            self.spec_period_current(curr_ts) == Ok::<int, ErrorCode>(0),
    {
        let ps = self.period_len();
        let t = self.spec_periods_total()->Ok_0;
        let d = self.spec_seconds_left(self.start_ts as int);
        vstd::arithmetic::div_mod::lemma_fundamental_div_mod(d, ps);
        assert(ps * t == t * ps) by (nonlinear_arith);
        assert(t >= 0) by (nonlinear_arith)
            requires
                d == ps * t,
                d >= 0,
                ps > 0,
        ;
        lemma_ceil_div_exact(t, ps);
        self.lemma_periods_partition(curr_ts);
    }

    /// As time passes, periods only ever pass: the periods left never grow
    /// and the current period never shrinks.
    pub proof fn lemma_periods_monotonic(self, t1: int, t2: int)
        requires
            self.spec_periods_total() is Ok,
            t1 <= t2,
        ensures
            self.spec_periods_left(t2)->Ok_0 <= self.spec_periods_left(t1)->Ok_0,
            self.spec_period_current(t1)->Ok_0 <= self.spec_period_current(t2)->Ok_0,
    {
        self.lemma_periods_partition(t1);
        self.lemma_periods_partition(t2);
        let ps = self.period_len();
        if ps > 0 {
            if t1 < self.start_ts {
                if t2 >= self.start_ts {
                    let t = self.spec_periods_total()->Ok_0;
                    let d = self.spec_seconds_left(self.start_ts as int);
                    let sl = self.spec_seconds_left(t2);
                    vstd::arithmetic::div_mod::lemma_fundamental_div_mod(d, ps);
                    assert(ps * t == t * ps) by (nonlinear_arith);
                    assert(t >= 0) by (nonlinear_arith)
                        requires
                            d == ps * t,
                            d >= 0,
                            ps > 0,
                    ;
                    lemma_ceil_div_exact(t, ps);
                    lemma_ceil_div(sl, ps);
                    vstd::arithmetic::div_mod::lemma_div_is_ordered(sl + ps - 1, d + ps - 1, ps);
                }
            } else {
                let s1 = self.spec_seconds_left(t1);
                let s2 = self.spec_seconds_left(t2);
                assert(s2 <= s1);
                vstd::arithmetic::div_mod::lemma_div_is_ordered(s2 + ps - 1, s1 + ps - 1, ps);
            }
        }
    }
}

/// A lockup whose length is `k` whole periods has `k` periods in total.
pub proof fn lemma_total_of_whole_secs(l: Lockup, k: int)
    requires
        k >= 0,
        l.period_len() > 0,
        l.spec_seconds_left(l.start_ts as int) == k * l.period_len(),
    ensures
        l.spec_periods_total() == Ok::<int, ErrorCode>(k),
{
    let ps = l.period_len();
    vstd::arithmetic::div_mod::lemma_mod_multiples_basic(k, ps);
    vstd::arithmetic::div_mod::lemma_div_multiples_vanish(k, ps);
    assert(ps * k == k * ps) by (nonlinear_arith);
}

/// A lockup made of `periods` whole periods has exactly that many in total.
pub proof fn lemma_whole_periods_total(l: Lockup, periods: int)
    requires
        0 <= periods,
        l.kind != LockupKind::NoLockup,
        l.end_ts == l.start_ts + periods * l.kind.spec_period_secs(),
    ensures
        l.spec_periods_total() == Ok::<int, ErrorCode>(periods),
{
    let ps = l.period_len();
    assert(periods * ps >= 0) by (nonlinear_arith)
        requires
            periods >= 0,
            ps > 0,
    ;
    vstd::arithmetic::div_mod::lemma_mod_multiples_basic(periods, ps);
    vstd::arithmetic::div_mod::lemma_div_multiples_vanish(periods, ps);
    assert(ps * periods == periods * ps) by (nonlinear_arith);
}

} // verus!
