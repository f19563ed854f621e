use vstd::prelude::*;

verus! {

/// Ten to the power `n`.
pub open spec fn pow10(n: nat) -> int
    decreases n,
{
    if n == 0 {
        1
    } else {
        10 * pow10((n - 1) as nat)
    }
}

pub proof fn lemma_pow10_positive(n: nat)
    ensures
        pow10(n) >= 1,
    decreases n,
{
    if n > 0 {
        lemma_pow10_positive((n - 1) as nat);
    }
}

/// Powers of ten grow with the exponent.
pub proof fn lemma_pow10_monotonic(a: nat, b: nat)
    requires
        a <= b,
    ensures
        pow10(a) <= pow10(b),
    decreases b,
{
    if a < b {
        lemma_pow10_monotonic(a, (b - 1) as nat);
        lemma_pow10_positive((b - 1) as nat);
    }
}

pub proof fn lemma_pow10_bounds()
    ensures
        pow10(19) <= u64::MAX,
        pow10(20) > u64::MAX,
        pow10(38) <= u128::MAX,
        pow10(39) > u128::MAX,
{
    reveal_with_fuel(pow10, 40);
    assert(pow10(19) == 10000000000000000000);
    assert(pow10(20) == 100000000000000000000);
    assert(pow10(38) == 100000000000000000000000000000000000000);
    assert(pow10(39) == 1000000000000000000000000000000000000000);
}

/// `10^exp` as a `u64`; the power must be representable.
pub fn pow10_u64(exp: u32) -> (r: u64)
    requires
        pow10(exp as nat) <= u64::MAX,
    ensures
        r == pow10(exp as nat),
{
    let mut r: u64 = 1;
    let mut i: u32 = 0;
    while i < exp
        invariant
            i <= exp,
            r == pow10(i as nat),
            pow10(exp as nat) <= u64::MAX,
        decreases exp - i,
    {
        proof {
            lemma_pow10_monotonic((i + 1) as nat, exp as nat);
        }
        r = r * 10;
        i = i + 1;
    }
    r
}

/// `10^exp` as a `u128`; the power must be representable.
pub fn pow10_u128(exp: u32) -> (r: u128)
    requires
        pow10(exp as nat) <= u128::MAX,
    ensures
        r == pow10(exp as nat),
{
    let mut r: u128 = 1;
    let mut i: u32 = 0;
    while i < exp
        invariant
            i <= exp,
            r == pow10(i as nat),
            pow10(exp as nat) <= u128::MAX,
        decreases exp - i,
    {
        proof {
            lemma_pow10_monotonic((i + 1) as nat, exp as nat);
        }
        r = r * 10;
        i = i + 1;
    }
    r
}

} // verus!
