//! Integer facts shared by the risk engine and the liquidation rules.
use vstd::prelude::*;

verus! {

/// The smaller of two integers.
pub open spec fn min_int(a: int, b: int) -> int {
    if a <= b {
        a
    } else {
        b
    }
}

/// The larger of two integers.
pub open spec fn max_int(a: int, b: int) -> int {
    if a >= b {
        a
    } else {
        b
    }
}

/// Flooring a quotient keeps the order of numerators.
pub proof fn lemma_div_monotone(x: int, y: int, d: int)
    requires
        0 <= x <= y,
        0 < d,
    ensures
        x / d <= y / d,
{
    vstd::arithmetic::div_mod::lemma_div_is_ordered(x, y, d);
}

/// Multiplying by a non-negative factor keeps the order.
pub proof fn lemma_mul_monotone(x: int, y: int, z: int)
    requires
        x <= y,
        0 <= z,
    ensures
        x * z <= y * z,
        z * x <= z * y,
{
    vstd::arithmetic::mul::lemma_mul_inequality(x, y, z);
    vstd::arithmetic::mul::lemma_mul_is_commutative(x, z);
    vstd::arithmetic::mul::lemma_mul_is_commutative(y, z);
}

/// A share `part / whole`, expressed in basis points, never exceeds one whole.
pub proof fn lemma_share_bps_bounded(part: int, whole: int)
    requires
        0 <= part <= whole,
        0 < whole,
    ensures
        0 <= part * 10000 / whole <= 10000,
{
    lemma_mul_monotone(part, whole, 10000);
    lemma_div_monotone(part * 10000, whole * 10000, whole);
    vstd::arithmetic::div_mod::lemma_div_by_multiple(10000, whole);
    vstd::arithmetic::mul::lemma_mul_is_commutative(whole, 10000);
    vstd::arithmetic::div_mod::lemma_div_pos_is_pos(part * 10000, whole);
}

/// Taking basis points of a value: `value * bps / 10_000` is monotone in both inputs.
pub proof fn lemma_bps_monotone(v1: int, v2: int, b1: int, b2: int)
    requires
        0 <= v1 <= v2,
        0 <= b1 <= b2,
    ensures
        0 <= v1 * b1 / 10000 <= v2 * b2 / 10000,
{
    lemma_mul_monotone(v1, v2, b1);
    lemma_mul_monotone(b1, b2, v2);
    assert(0 <= v1 * b1) by (nonlinear_arith)
        requires
            0 <= v1,
            0 <= b1,
    ;
    lemma_div_monotone(v1 * b1, v2 * b2, 10000);
    vstd::arithmetic::div_mod::lemma_div_pos_is_pos(v1 * b1, 10000);
}

/// Ten to the power `n`.
pub open spec fn spec_pow10(n: nat) -> int
    decreases n,
{
    if n == 0 {
        1
    } else {
        10 * spec_pow10((n - 1) as nat)
    }
}

/// Powers of ten grow with the exponent and are positive.
pub proof fn lemma_pow10_monotone(a: nat, b: nat)
    requires
        a <= b,
    ensures
        1 <= spec_pow10(a) <= spec_pow10(b),
    decreases b,
{
    if b > 0 {
        if a == b {
            lemma_pow10_monotone((b - 1) as nat, (b - 1) as nat);
        } else {
            lemma_pow10_monotone(a, (b - 1) as nat);
        }
    }
}

/// The largest power of ten that fits in a `u64` is ten to the nineteenth.
pub proof fn lemma_pow10_u64_limit()
    ensures
        spec_pow10(19) == 10_000_000_000_000_000_000,
        spec_pow10(19) <= u64::MAX,
        spec_pow10(20) > u64::MAX,
{
    reveal_with_fuel(spec_pow10, 21);
}

/// A multiple of `q` stays within `m` when its factor is at most `m / q`.
pub proof fn lemma_mul_within_bound(j: int, m: int, q: int)
    requires
        0 <= j <= m / q,
        0 <= m,
        0 < q,
    ensures
        j * q <= m,
{
    lemma_mul_monotone(j, m / q, q);
    vstd::arithmetic::div_mod::lemma_fundamental_div_mod(m, q);
    vstd::arithmetic::mul::lemma_mul_is_commutative(q, m / q);
}

/// Below the ceiling of `x / q`, a multiple of `q` stays below `x`.
pub proof fn lemma_below_ceil_div(j: int, x: int, q: int)
    requires
        0 <= j,
        0 <= x,
        0 < q,
        j + 1 <= (x + q - 1) / q,
    ensures
        j * q < x,
{
    lemma_mul_monotone(j + 1, (x + q - 1) / q, q);
    vstd::arithmetic::div_mod::lemma_fundamental_div_mod(x + q - 1, q);
    vstd::arithmetic::mul::lemma_mul_is_commutative(q, (x + q - 1) / q);
    vstd::arithmetic::mul::lemma_mul_is_distributive_add_other_way(q, j, 1);
}

/// A quotient by `c` of a number below `b * c` is below `b`.
pub proof fn lemma_div_below(a: int, b: int, c: int)
    requires
        0 <= a < b * c,
        0 < c,
    ensures
        a / c < b,
{
    vstd::arithmetic::div_mod::lemma_fundamental_div_mod(a, c);
    if a / c >= b {
        lemma_mul_monotone(b, a / c, c);
        vstd::arithmetic::mul::lemma_mul_is_commutative(c, a / c);
        vstd::arithmetic::div_mod::lemma_mod_pos_bound(a, c);
    }
}

/// Ten to the power `exponent`, which must fit in a `u64`.
pub fn pow10_u64(exponent: u8) -> (r: u64)
    requires
        exponent <= 19,
    ensures
        r == spec_pow10(exponent as nat),
{
    let mut r: u64 = 1;
    let mut i: u8 = 0;
    while i < exponent
        invariant
            i <= exponent <= 19,
            r == spec_pow10(i as nat),
        decreases exponent - i,
    {
        proof {
            lemma_pow10_monotone((i + 1) as nat, 19);
            lemma_pow10_u64_limit();
        }
        r = r * 10;
        i = i + 1;
    }
    r
}

/// Ten to the power `exponent` as a `u128`, or `None` where it does not fit.
pub fn checked_pow10_u128(exponent: u8) -> (r: Option<u128>)
    ensures
        r == (if spec_pow10(exponent as nat) > u128::MAX {
            None::<u128>
        } else {
            Some(spec_pow10(exponent as nat) as u128)
        }),
{
    let mut r: u128 = 1;
    let mut i: u8 = 0;
    while i < exponent
        invariant
            i <= exponent,
            r == spec_pow10(i as nat),
        decreases exponent - i,
    {
        match r.checked_mul(10) {
            Some(next) => {
                r = next;
            },
            None => {
                proof {
                    lemma_pow10_monotone((i + 1) as nat, exponent as nat);
                }
                return None;
            },
        }
        i = i + 1;
    }
    Some(r)
}

} // verus!
