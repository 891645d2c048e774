//! A fixed-point scalar whose arithmetic is exact integer arithmetic.

use vstd::prelude::*;
use crate::cost::{mean_squared_error_spec, squared_error_sum};
use crate::random::{lower_part, unit_interval_spec, upper_part};
use crate::scalar::{sigmoid_spec, Scalar};

verus! {

/// How many raw units make up the number one.
pub const SCALE: i64 = 65536;

/// A signed fixed-point number with sixteen fractional bits.
///
/// The number that a value stands for is `raw / 65536`. Every operation
/// saturates at the ends of the `i64` range instead of overflowing.
/// Quotients are Euclidean: what is left over is never negative. A
/// quotient by zero is zero.
#[derive(Clone, Copy, Debug, PartialEq, Eq)]
pub struct Fixed {
    /// The number times 65536.
    pub raw: i64,
}

/// The `i64` nearest to `v`.
pub open spec fn saturate(v: int) -> i64 {
    if v > i64::MAX {
        i64::MAX
    } else if v < i64::MIN {
        i64::MIN
    } else {
        v as i64
    }
}

/// The fixed-point number with the raw value nearest to `v`.
pub open spec fn fixed(v: int) -> Fixed {
    Fixed { raw: saturate(v) }
}

fn clamp(v: i128) -> (r: Fixed)
    ensures
        r == fixed(v as int),
{
    if v > 9223372036854775807 {
        Fixed { raw: i64::MAX }
    } else if v < -9223372036854775808 {
        Fixed { raw: i64::MIN }
    } else {
        Fixed { raw: v as i64 }
    }
}

impl Fixed {
    /// The square of `self`.
    pub open spec fn squared(self) -> Fixed {
        self.times_spec(self)
    }
}

impl Scalar for Fixed {
    open spec fn from_count_spec(n: u64) -> Fixed {
        fixed(n * SCALE)
    }

    open spec fn plus_spec(self, rhs: Fixed) -> Fixed {
        fixed(self.raw + rhs.raw)
    }

    open spec fn minus_spec(self, rhs: Fixed) -> Fixed {
        fixed(self.raw - rhs.raw)
    }

    open spec fn times_spec(self, rhs: Fixed) -> Fixed {
        fixed((self.raw * rhs.raw) / (SCALE as int))
    }

    open spec fn over_spec(self, rhs: Fixed) -> Fixed {
        if rhs.raw == 0 {
            Fixed { raw: 0 }
        } else {
            fixed((self.raw * SCALE) / (rhs.raw as int))
        }
    }

    open spec fn negated_spec(self) -> Fixed {
        fixed(-self.raw)
    }

    /// `(1 + self/64)` raised to the power 64, and zero where `self <= -64`.
    open spec fn exp_spec(self) -> Fixed {
        if self.raw <= -64 * SCALE {
            Fixed { raw: 0 }
        } else {
            Self::from_count_spec(1).plus_spec(
                self.over_spec(Self::from_count_spec(64)),
            ).squared().squared().squared().squared().squared().squared()
        }
    }

    open spec fn less_than_spec(self, rhs: Fixed) -> bool {
        self.raw < rhs.raw
    }

    fn from_count(n: u64) -> (r: Fixed) {
        let wide: i128 = n as i128;
        clamp(wide * 65536)
    }

    fn plus(self, rhs: Fixed) -> (r: Fixed) {
        let a: i128 = self.raw as i128;
        let b: i128 = rhs.raw as i128;
        clamp(a + b)
    }

    fn minus(self, rhs: Fixed) -> (r: Fixed) {
        let a: i128 = self.raw as i128;
        let b: i128 = rhs.raw as i128;
        clamp(a - b)
    }

    fn times(self, rhs: Fixed) -> (r: Fixed) {
        let a: i128 = self.raw as i128;
        let b: i128 = rhs.raw as i128;
        proof {
            lemma_product_fits(a as int, b as int);
        }
        let product: i128 = a * b;
        proof {
            lemma_quotient_fits(product as int, 65536);
        }
        match product.checked_div_euclid(65536) {
            Some(q) => clamp(q),
            None => Fixed { raw: 0 },
        }
    }

    fn over(self, rhs: Fixed) -> (r: Fixed) {
        if rhs.raw == 0 {
            Fixed { raw: 0 }
        } else {
            let a: i128 = self.raw as i128;
            let b: i128 = rhs.raw as i128;
            let scaled: i128 = a * 65536;
            proof {
                lemma_quotient_fits(scaled as int, b as int);
            }
            match scaled.checked_div_euclid(b) {
                Some(q) => clamp(q),
                None => Fixed { raw: 0 },
            }
        }
    }

    fn negated(self) -> (r: Fixed) {
        let a: i128 = self.raw as i128;
        clamp(-a)
    }

    fn exp(self) -> (r: Fixed) {
        if self.raw <= -4194304 {
            Fixed { raw: 0 }
        } else {
            let base = Fixed::from_count(1).plus(self.over(Fixed::from_count(64)));
            let second = base.times(base);
            let fourth = second.times(second);
            let eighth = fourth.times(fourth);
            let sixteenth = eighth.times(eighth);
            let thirty_second = sixteenth.times(sixteenth);
            thirty_second.times(thirty_second)
        }
    }

    fn less_than(self, rhs: Fixed) -> (r: bool) {
        self.raw < rhs.raw
    }
}

/// The product of two `i64` values fits in 127 bits.
proof fn lemma_product_fits(a: int, b: int)
    requires
        i64::MIN <= a <= i64::MAX,
        i64::MIN <= b <= i64::MAX,
    ensures
        -0x4000_0000_0000_0000_0000_0000_0000_0000 <= a * b
            <= 0x4000_0000_0000_0000_0000_0000_0000_0000,
{
    assert(-0x4000_0000_0000_0000_0000_0000_0000_0000 <= a * b
        <= 0x4000_0000_0000_0000_0000_0000_0000_0000) by (nonlinear_arith)
        requires
            -0x8000_0000_0000_0000 <= a <= 0x8000_0000_0000_0000,
            -0x8000_0000_0000_0000 <= b <= 0x8000_0000_0000_0000,
    ;
}

/// A quotient is no larger in magnitude than its dividend.
proof fn lemma_quotient_fits(n: int, d: int)
    requires
        d != 0,
        -0x4000_0000_0000_0000_0000_0000_0000_0000 <= n
            <= 0x4000_0000_0000_0000_0000_0000_0000_0000,
    ensures
        i128::MIN <= n / d <= i128::MAX,
{
    assert(-0x4000_0000_0000_0000_0000_0000_0000_0000 - 1 <= n / d
        <= 0x4000_0000_0000_0000_0000_0000_0000_0000 + 1) by (nonlinear_arith)
        requires
            d != 0,
            -0x4000_0000_0000_0000_0000_0000_0000_0000 <= n
                <= 0x4000_0000_0000_0000_0000_0000_0000_0000,
    ;
}

/// In fixed point the logistic function of zero is exactly one half.
pub proof fn lemma_sigmoid_of_zero()
    ensures
        sigmoid_spec(Fixed { raw: 0 }) == (Fixed { raw: 32768 }),
{
    let unit = Fixed::from_count_spec(1);
    assert(unit == Fixed { raw: 65536 });
    assert(unit.squared() == unit) by {
        assert(65536int * 65536int == 4294967296int) by (nonlinear_arith);
    }
    assert(Fixed::from_count_spec(64) == Fixed { raw: 4194304 });
    assert((Fixed { raw: 0 }).negated_spec() == Fixed { raw: 0 });
    assert((Fixed { raw: 0 }).over_spec(Fixed::from_count_spec(64)) == Fixed { raw: 0 });
    assert((Fixed { raw: 0 }).exp_spec() == unit);
    assert(unit.plus_spec(unit) == Fixed { raw: 131072 });
}

/// Squaring keeps the order of two numbers that are not negative, and
/// gives numbers that are not negative.
proof fn lemma_square_monotone(s: Fixed, t: Fixed)
    requires
        0 <= s.raw <= t.raw,
    ensures
        0 <= s.squared().raw <= t.squared().raw,
{
    let a = s.raw as int;
    let b = t.raw as int;
    assert(0 <= (a * a) / 65536 <= (b * b) / 65536) by (nonlinear_arith)
        requires
            0 <= a <= b,
    {
        assert(a * a <= b * b);
    }
}

/// The number that the exponential raises to the power 64.
spec fn exp_base(x: Fixed) -> Fixed {
    Fixed::from_count_spec(1).plus_spec(x.over_spec(Fixed::from_count_spec(64)))
}

proof fn lemma_exp_base_monotone(x: Fixed, y: Fixed)
    requires
        -64 * SCALE < x.raw <= y.raw,
    ensures
        0 <= exp_base(x).raw <= exp_base(y).raw,
{
    let a = x.raw as int;
    let b = y.raw as int;
    assert(Fixed::from_count_spec(64).raw == 4194304);
    assert(Fixed::from_count_spec(1).raw == 65536);
    assert(-65536 <= (a * 65536) / 4194304 <= (b * 65536) / 4194304) by (nonlinear_arith)
        requires
            -4194304 < a <= b,
    ;
}

/// In fixed point the exponential is never negative.
pub proof fn lemma_exp_not_negative(x: Fixed)
    ensures
        x.exp_spec().raw >= 0,
{
    if x.raw > -64 * SCALE {
        lemma_exp_monotone(x, x);
    }
}

/// In fixed point the exponential never falls where its argument rises.
pub proof fn lemma_exp_monotone(x: Fixed, y: Fixed)
    requires
        x.raw <= y.raw,
    ensures
        0 <= x.exp_spec().raw <= y.exp_spec().raw,
{
    if y.raw > -64 * SCALE {
        let t0 = exp_base(y);
        let t1 = t0.squared();
        let t2 = t1.squared();
        let t3 = t2.squared();
        let t4 = t3.squared();
        let t5 = t4.squared();
        if x.raw > -64 * SCALE {
            let s0 = exp_base(x);
            let s1 = s0.squared();
            let s2 = s1.squared();
            let s3 = s2.squared();
            let s4 = s3.squared();
            let s5 = s4.squared();
            lemma_exp_base_monotone(x, y);
            lemma_square_monotone(s0, t0);
            lemma_square_monotone(s1, t1);
            lemma_square_monotone(s2, t2);
            lemma_square_monotone(s3, t3);
            lemma_square_monotone(s4, t4);
            lemma_square_monotone(s5, t5);
        } else {
            lemma_exp_base_monotone(y, y);
            lemma_square_monotone(t0, t0);
            lemma_square_monotone(t1, t1);
            lemma_square_monotone(t2, t2);
            lemma_square_monotone(t3, t3);
            lemma_square_monotone(t4, t4);
            lemma_square_monotone(t5, t5);
        }
    }
}

/// In fixed point the logistic function never falls where its argument
/// rises, and its values lie between zero and one, both included. It is
/// not strictly increasing: towards both ends its values repeat.
pub proof fn lemma_sigmoid_monotone(x: Fixed, y: Fixed)
    requires
        x.raw <= y.raw,
    ensures
        0 <= sigmoid_spec(x).raw <= sigmoid_spec(y).raw <= SCALE,
{
    let unit = Fixed::from_count_spec(1);
    assert(unit.raw == 65536);
    lemma_exp_monotone(y.negated_spec(), x.negated_spec());
    let low = unit.plus_spec(y.negated_spec().exp_spec()).raw as int;
    let high = unit.plus_spec(x.negated_spec().exp_spec()).raw as int;
    assert(65536 <= low <= high);
    assert(0 <= (65536int * 65536int) / high <= (65536int * 65536int) / low <= 65536)
        by (nonlinear_arith)
        requires
            65536 <= low <= high,
    ;
}

/// In fixed point the logistic function reaches both ends of its range:
/// it is one at 64 and zero at minus 64.
pub proof fn lemma_sigmoid_reaches_its_ends()
    ensures
        sigmoid_spec(Fixed::from_count_spec(64)) == Fixed::from_count_spec(1),
        sigmoid_spec(Fixed::from_count_spec(64).negated_spec()) == Fixed::from_count_spec(0),
{
    let unit = Fixed::from_count_spec(1);
    let top = Fixed::from_count_spec(64);
    assert(unit.raw == 65536);
    assert(top.raw == 4194304);
    assert(top.negated_spec().raw == -4194304);
    assert(top.negated_spec().exp_spec().raw == 0);
    assert(unit.plus_spec(top.negated_spec().exp_spec()) == unit);
    assert((65536int * 65536int) / 65536 == 65536) by (nonlinear_arith);
    assert(top.negated_spec().negated_spec() == top);
    lemma_exp_of_sixty_four();
}

/// In fixed point the exponential of 64 is the largest number there is.
proof fn lemma_exp_of_sixty_four()
    ensures
        Fixed::from_count_spec(64).exp_spec().raw == i64::MAX,
        sigmoid_spec(Fixed::from_count_spec(64).negated_spec()).raw == 0,
{
    let unit = Fixed::from_count_spec(1);
    let top = Fixed::from_count_spec(64);
    assert(unit.raw == 65536);
    assert(top.raw == 4194304);
    assert((4194304int * 65536int) / 4194304 == 65536) by (nonlinear_arith);
    let b0 = exp_base(top);
    assert(b0.raw == 131072);
    assert((131072int * 131072int) / 65536 == 262144) by (nonlinear_arith);
    let b1 = b0.squared();
    assert(b1.raw == 262144);
    assert((262144int * 262144int) / 65536 == 1048576) by (nonlinear_arith);
    let b2 = b1.squared();
    assert(b2.raw == 1048576);
    assert((1048576int * 1048576int) / 65536 == 16777216) by (nonlinear_arith);
    let b3 = b2.squared();
    assert(b3.raw == 16777216);
    assert((16777216int * 16777216int) / 65536 == 4294967296) by (nonlinear_arith);
    let b4 = b3.squared();
    assert(b4.raw == 4294967296);
    assert((4294967296int * 4294967296int) / 65536 == 281474976710656) by (nonlinear_arith);
    let b5 = b4.squared();
    assert(b5.raw == 281474976710656);
    assert((281474976710656int * 281474976710656int) / 65536 > 9223372036854775807)
        by (nonlinear_arith);
    let b6 = b5.squared();
    assert(b6.raw == i64::MAX);
    assert(top.exp_spec() == b6);
    assert(top.negated_spec().negated_spec() == top);
    let den = unit.plus_spec(b6);
    assert(den.raw == i64::MAX);
    assert((65536int * 65536int) / 9223372036854775807 == 0) by (nonlinear_arith);
}

/// In fixed point the mean squared error can be zero although a prediction
/// differs from its expected value: the square of a difference of one raw
/// unit is below what the sixteen fractional bits can hold.
pub proof fn lemma_cost_zero_despite_error()
    ensures
        mean_squared_error_spec(seq![Fixed { raw: 1 }], seq![Fixed { raw: 0 }]) == (Fixed {
            raw: 0,
        }),
{
    let predicted = seq![Fixed { raw: 1 }];
    let expected = seq![Fixed { raw: 0 }];
    reveal_with_fuel(squared_error_sum, 2);
    assert(predicted[0].minus_spec(expected[0]) == Fixed { raw: 1 });
    assert(squared_error_sum(predicted, expected, 1) == Fixed { raw: 0 });
}

/// In fixed point every scalar that `unit_interval` makes of 64 bits lies
/// in `[0, 1)`: at zero or above, and strictly below one. It is the upper
/// 27 bits and the lower 26 bits as one number of raw units, cut down to
/// sixteen fractional bits.
pub proof fn lemma_unit_interval_range(bits: u64)
    ensures
        0 <= unit_interval_spec::<Fixed>(bits).raw < SCALE,
        unit_interval_spec::<Fixed>(bits).raw == (upper_part(bits) * 65536 + lower_part(bits)
            / 1024) / 134217728,
{
    let upper = upper_part(bits) as int;
    let lower = lower_part(bits) as int;
    assert(0 <= upper < 134217728);
    assert(0 <= lower < 67108864);
    let whole = Fixed::from_count_spec(upper_part(bits));
    assert(whole.raw == upper * 65536);
    let part = Fixed::from_count_spec(lower_part(bits));
    assert(part.raw == lower * 65536);
    let steps = Fixed::from_count_spec(67108864);
    assert(steps.raw == 4398046511104);
    let fraction = part.over_spec(steps);
    assert((lower * 65536 * 65536) / 4398046511104 == lower / 1024) by (nonlinear_arith)
        requires
            0 <= lower,
    ;
    assert(fraction.raw == lower / 1024);
    let total = whole.plus_spec(fraction);
    assert(total.raw == upper * 65536 + lower / 1024);
    assert(0 <= total.raw < 8796093022208);
    let span = Fixed::from_count_spec(134217728);
    assert(span.raw == 8796093022208);
    let t = total.raw as int;
    assert((t * 65536) / 8796093022208 == t / 134217728 && 0 <= t / 134217728 < 65536)
        by (nonlinear_arith)
        requires
            0 <= t < 8796093022208,
    ;
    assert(total.over_spec(span).raw == t / 134217728);
}

} // verus!
