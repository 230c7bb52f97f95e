use vstd::prelude::*;

verus! {

/// `10^n`.
pub open spec fn pow10(n: nat) -> nat
    decreases n,
{
    if n == 0 {
        1
    } else {
        10 * pow10((n - 1) as nat)
    }
}

/// Powers of ten grow with the exponent and stay positive.
pub proof fn lemma_pow10_monotone(a: nat, b: nat)
    requires
        a <= b,
    ensures
        1 <= pow10(a) <= pow10(b),
    decreases b,
{
    if b > a {
        lemma_pow10_monotone(a, (b - 1) as nat);
    } else if a > 0 {
        lemma_pow10_monotone(0, (a - 1) as nat);
    }
}

/// `10^18`.
pub proof fn lemma_pow10_18()
    ensures
        pow10(18) == 1_000_000_000_000_000_000,
{
    reveal_with_fuel(pow10, 19);
}

/// `10^decimals` as a 128-bit integer, for the decimal exponents the curve accepts.
pub fn pow10_u128(decimals: u8) -> (r: u128)
    requires
        decimals <= 18,
    ensures
        r == pow10(decimals as nat),
        1 <= r <= 1_000_000_000_000_000_000,
{
    proof {
        lemma_pow10_18();
    }
    let mut m: u128 = 1;
    let mut i: u8 = 0;
    while i < decimals
        invariant
            i <= decimals <= 18,
            m == pow10(i as nat),
        decreases decimals - i,
    {
        proof {
            lemma_pow10_18();
            lemma_pow10_monotone((i + 1) as nat, 18);
            assert(pow10((i + 1) as nat) == 10 * pow10(i as nat));
        }
        m = m * 10;
        i = i + 1;
    }
    proof {
        lemma_pow10_monotone(decimals as nat, 18);
    }
    m
}

/// Products of two 64-bit values, and the triangle numbers of 64-bit values,
/// fit in 128 bits.
pub proof fn lemma_wide_products(a: u64, b: u64)
    ensures
        0 <= a * b <= u128::MAX,
        0 <= b * (b + 1) <= u128::MAX,
{
    assert(0 <= a * b <= u128::MAX) by (nonlinear_arith)
        requires
            a <= u64::MAX,
            b <= u64::MAX,
    ;
    assert(0 <= b * (b + 1) <= u128::MAX) by (nonlinear_arith)
        requires
            0 <= b <= u64::MAX,
    ;
}

} // verus!
