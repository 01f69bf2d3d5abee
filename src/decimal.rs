use bigdecimal::num_bigint::BigUint;
use bigdecimal::BigDecimal;
use vstd::arithmetic::div_mod::lemma_fundamental_div_mod;
use vstd::arithmetic::mul::{lemma_mul_is_distributive_add, lemma_mul_is_distributive_add_other_way};
use vstd::prelude::*;

verus! {

#[verifier::external_type_specification]
#[verifier::external_body]
pub struct ExBigDecimal(BigDecimal);

/// How many significant digits every returned decimal keeps.
pub const SIGNIFICANT_DIGITS: u64 = 2;

/// The largest scale a rounded decimal may be built at.
pub const MAX_DECIMAL_SCALE: i64 = 40;

/// The base of one digit of a wide mantissa.
pub const DIGIT_BASE: u128 = 0x1_0000_0000;

/// The base of one half of a 128-bit word.
pub const HALF_BASE: u128 = 0x1_0000_0000_0000_0000;

/// The decimal `mantissa * 10^(-scale)` rounded to `prec` significant digits.
pub uninterp spec fn rounded_decimal_of(mantissa: int, scale: int, prec: int) -> BigDecimal;

/// The number whose base-2^32 digits, least significant first, are `d[0..8]`.
pub open spec fn wide_value(d: Seq<u32>) -> int {
    let b = DIGIT_BASE as int;
    d[0] + b * (d[1] + b * (d[2] + b * (d[3] + b * (d[4] + b * (d[5] + b * (d[6] + b
        * d[7]))))))
}

/// Relies on `BigUint::new`, which reads base-2^32 digits least significant
/// first, on `BigDecimal::from((BigUint, i64))`, which builds
/// `mantissa * 10^(-scale)` exactly, and on `BigDecimal::with_prec`, which rounds
/// it to `prec` significant digits. The bounds on `scale` and `prec` keep the
/// scale arithmetic inside `with_prec` from overflowing.
#[verifier::external_body]
fn rounded_wide_decimal(digits: Vec<u32>, scale: i64, prec: u64) -> (r: BigDecimal)
    requires
        digits@.len() == 8,
        0 <= scale <= MAX_DECIMAL_SCALE,
        1 <= prec <= 40,
    ensures
        r == rounded_decimal_of(wide_value(digits@), scale as int, prec as int),
{
    BigDecimal::from((BigUint::new(digits), scale)).with_prec(prec)
}

/// Recombining the four half products of `x * y`, with their carries.
proof fn lemma_wide_product(
    x: int,
    y: int,
    x0: int,
    x1: int,
    y0: int,
    y1: int,
    b: int,
    q00: int,
    r00: int,
    q01: int,
    r01: int,
    q10: int,
    r10: int,
    qm: int,
    rm: int,
)
    requires
        x == b * x1 + x0,
        y == b * y1 + y0,
        x0 * y0 == b * q00 + r00,
        x0 * y1 == b * q01 + r01,
        x1 * y0 == b * q10 + r10,
        q00 + r01 + r10 == b * qm + rm,
    ensures
        x * y == (x1 * y1 + q01 + q10 + qm) * (b * b) + rm * b + r00,
{
    lemma_mul_is_distributive_add_other_way(b * y1 + y0, b * x1, x0);
    lemma_mul_is_distributive_add(b * x1, b * y1, y0);
    lemma_mul_is_distributive_add(x0, b * y1, y0);
    assert((b * x1) * (b * y1) == (x1 * y1) * (b * b)) by (nonlinear_arith);
    assert((b * x1) * y0 == (x1 * y0) * b) by (nonlinear_arith);
    assert(x0 * (b * y1) == (x0 * y1) * b) by (nonlinear_arith);
    assert(x * y == (b * x1 + x0) * (b * y1 + y0));
    assert((x0 * y1) * b == (b * q01 + r01) * b);
    assert((x1 * y0) * b == (b * q10 + r10) * b);
    assert((b * q01 + r01) * b == q01 * (b * b) + r01 * b) by (nonlinear_arith);
    assert((b * q10 + r10) * b == q10 * (b * b) + r10 * b) by (nonlinear_arith);
    assert((q00 + r01 + r10) * b == (b * qm + rm) * b);
    assert((b * qm + rm) * b == qm * (b * b) + rm * b) by (nonlinear_arith);
    assert((q00 + r01 + r10) * b == q00 * b + r01 * b + r10 * b) by (nonlinear_arith);
    assert((x1 * y1 + q01 + q10 + qm) * (b * b) == (x1 * y1) * (b * b) + q01 * (b * b) + q10 * (b
        * b) + qm * (b * b)) by (nonlinear_arith);
}

/// The full product `x * y` as its low and high 128-bit halves.
fn mul_wide(x: u128, y: u128) -> (r: (u128, u128))
    ensures
        r.0 + r.1 * (u128::MAX as int + 1) == x * y,
{
    let x0 = x % HALF_BASE;
    let x1 = x / HALF_BASE;
    let y0 = y % HALF_BASE;
    let y1 = y / HALF_BASE;
    proof {
        assert(x0 * y0 < u128::MAX) by (nonlinear_arith)
            requires
                x0 < HALF_BASE,
                y0 < HALF_BASE,
        ;
        assert(x0 * y1 < u128::MAX) by (nonlinear_arith)
            requires
                x0 < HALF_BASE,
                y1 < HALF_BASE,
        ;
        assert(x1 * y0 < u128::MAX) by (nonlinear_arith)
            requires
                x1 < HALF_BASE,
                y0 < HALF_BASE,
        ;
        assert(x1 * y1 < u128::MAX) by (nonlinear_arith)
            requires
                x1 < HALF_BASE,
                y1 < HALF_BASE,
        ;
    }
    let p00 = x0 * y0;
    let p01 = x0 * y1;
    let p10 = x1 * y0;
    let p11 = x1 * y1;
    let mid = p00 / HALF_BASE + p01 % HALF_BASE + p10 % HALF_BASE;
    let lo = (mid % HALF_BASE) * HALF_BASE + p00 % HALF_BASE;
    proof {
        let b = HALF_BASE as int;
        let (xi, yi, x0i, x1i, y0i, y1i) = (x as int, y as int, x0 as int, x1 as int, y0 as int, y1 as int);
        let (q00, q01, q10, q11) = (p00 as int, p01 as int, p10 as int, p11 as int);
        let (m, l) = (mid as int, lo as int);
        let hi = q11 + q01 / b + q10 / b + m / b;
        lemma_fundamental_div_mod(xi, b);
        lemma_fundamental_div_mod(yi, b);
        lemma_fundamental_div_mod(q00, b);
        lemma_fundamental_div_mod(q01, b);
        lemma_fundamental_div_mod(q10, b);
        lemma_fundamental_div_mod(m, b);
        lemma_wide_product(
            xi,
            yi,
            x0i,
            x1i,
            y0i,
            y1i,
            b,
            q00 / b,
            q00 % b,
            q01 / b,
            q01 % b,
            q10 / b,
            q10 % b,
            m / b,
            m % b,
        );
        assert(xi * yi == hi * (b * b) + l);
        assert(xi * yi <= u128::MAX * u128::MAX) by (nonlinear_arith)
            requires
                0 <= xi <= u128::MAX,
                0 <= yi <= u128::MAX,
        ;
        assert(hi <= u128::MAX) by (nonlinear_arith)
            requires
                xi * yi == hi * (b * b) + l,
                l >= 0,
                xi * yi <= u128::MAX * u128::MAX,
                b * b == u128::MAX + 1,
        ;
    }
    let hi = p11 + p01 / HALF_BASE + p10 / HALF_BASE + mid / HALF_BASE;
    (lo, hi)
}

/// The four base-2^32 digits of `x`, least significant first.
fn split_digits(x: u128) -> (r: (u32, u32, u32, u32))
    ensures
        x == r.0 + DIGIT_BASE * (r.1 + DIGIT_BASE * (r.2 + DIGIT_BASE * r.3)),
{
    let d0 = x % DIGIT_BASE;
    let q0 = x / DIGIT_BASE;
    let d1 = q0 % DIGIT_BASE;
    let q1 = q0 / DIGIT_BASE;
    let d2 = q1 % DIGIT_BASE;
    let d3 = q1 / DIGIT_BASE;
    (d0 as u32, d1 as u32, d2 as u32, d3 as u32)
}

/// The exact product `x * y` at `scale`, rounded to `prec` significant digits.
pub fn rounded_product(x: u128, y: u128, scale: i64, prec: u64) -> (r: BigDecimal)
    requires
        0 <= scale <= MAX_DECIMAL_SCALE,
        1 <= prec <= 40,
    ensures
        r == rounded_decimal_of(x * y, scale as int, prec as int),
{
    let (lo, hi) = mul_wide(x, y);
    let (a0, a1, a2, a3) = split_digits(lo);
    let (a4, a5, a6, a7) = split_digits(hi);
    let digits = vec![a0, a1, a2, a3, a4, a5, a6, a7];
    proof {
        let b = DIGIT_BASE as int;
        assert(digits@ =~= seq![a0, a1, a2, a3, a4, a5, a6, a7]);
        assert(b * b * b * b == u128::MAX + 1);
        let (c0, c1, c2, c3, c4, c5, c6, c7) = (
            a0 as int,
            a1 as int,
            a2 as int,
            a3 as int,
            a4 as int,
            a5 as int,
            a6 as int,
            a7 as int,
        );
        assert(wide_value(digits@) == lo + (b * b * b * b) * hi) by (nonlinear_arith)
            requires
                wide_value(digits@) == c0 + b * (c1 + b * (c2 + b * (c3 + b * (c4 + b * (c5 + b
                    * (c6 + b * c7)))))),
                lo == c0 + b * (c1 + b * (c2 + b * c3)),
                hi == c4 + b * (c5 + b * (c6 + b * c7)),
        ;
    }
    rounded_wide_decimal(digits, scale, prec)
}

} // verus!
