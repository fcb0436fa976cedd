//! Saturating decimal fixed-point numbers with nine fractional digits.
//!
//! Every physical quantity of the simulation (pressure in psi, volume in
//! gallons, flow in gallons per second, time in seconds, ratios) is a
//! [`Fixed`]: a signed 64-bit count of billionths of the unit. Products and
//! quotients are computed exactly in 128 bits, rounded toward zero and then
//! clamped to the 64-bit range, so every operation is total.
use vstd::prelude::*;

verus! {

/// Number of raw steps in one unit.
pub const SCALE: i64 = 1_000_000_000;

/// Clamps an integer to the range of the raw representation.
pub open spec fn saturate(x: int) -> int {
    if x > i64::MAX {
        i64::MAX as int
    } else if x < i64::MIN {
        i64::MIN as int
    } else {
        x
    }
}

/// Quotient rounded toward zero. Meaningful for `d != 0`.
pub open spec fn trunc_div(n: int, d: int) -> int {
    if n >= 0 {
        if d > 0 {
            n / d
        } else {
            -(n / (-d))
        }
    } else {
        if d > 0 {
            -((-n) / d)
        } else {
            (-n) / (-d)
        }
    }
}

/// Raw product of two raw values: exact product, rescaled, rounded toward
/// zero, clamped.
pub open spec fn raw_times(a: int, b: int) -> int {
    saturate(trunc_div(a * b, SCALE as int))
}

/// Raw quotient of two raw values. A zero divisor gives the extreme value
/// with the sign of the dividend, and zero for a zero dividend.
pub open spec fn raw_over(a: int, b: int) -> int {
    if b == 0 {
        if a > 0 {
            i64::MAX as int
        } else if a < 0 {
            i64::MIN as int
        } else {
            0
        }
    } else {
        saturate(trunc_div(a * SCALE, b))
    }
}

#[derive(Clone, Copy, Debug, PartialEq, Eq, Structural)]
pub struct Fixed {
    pub raw: i64,
}

fn clamp_raw(x: i128) -> (r: i64)
    ensures
        r == saturate(x as int),
{
    if x > i64::MAX as i128 {
        i64::MAX
    } else if x < i64::MIN as i128 {
        i64::MIN
    } else {
        x as i64
    }
}

impl Fixed {
    pub open spec fn spec_plus(self, rhs: Fixed) -> Fixed {
        Fixed { raw: saturate(self.raw + rhs.raw) as i64 }
    }

    pub open spec fn spec_minus(self, rhs: Fixed) -> Fixed {
        Fixed { raw: saturate(self.raw - rhs.raw) as i64 }
    }

    pub open spec fn spec_times(self, rhs: Fixed) -> Fixed {
        Fixed { raw: raw_times(self.raw as int, rhs.raw as int) as i64 }
    }

    pub open spec fn spec_over(self, rhs: Fixed) -> Fixed {
        Fixed { raw: raw_over(self.raw as int, rhs.raw as int) as i64 }
    }

    pub open spec fn spec_negate(self) -> Fixed {
        Fixed { raw: saturate(-self.raw) as i64 }
    }

    pub open spec fn spec_abs(self) -> Fixed {
        if self.raw < 0 {
            self.spec_negate()
        } else {
            self
        }
    }

    pub open spec fn spec_min(self, rhs: Fixed) -> Fixed {
        if rhs.raw < self.raw {
            rhs
        } else {
            self
        }
    }

    pub open spec fn spec_max(self, rhs: Fixed) -> Fixed {
        if rhs.raw > self.raw {
            rhs
        } else {
            self
        }
    }

    pub open spec fn spec_new(raw: i64) -> Fixed {
        Fixed { raw }
    }

    /// The value with the given raw count of billionths.
    #[verifier::when_used_as_spec(spec_new)]
    pub fn new(raw: i64) -> (r: Fixed)
        ensures
            r == Fixed::spec_new(raw),
    {
        Fixed { raw }
    }

    /// The whole number `units`.
    pub fn from_int(units: i32) -> (r: Fixed)
        ensures
            r.raw == units * SCALE,
    {
        Fixed { raw: (units as i64) * SCALE }
    }

    pub open spec fn spec_from_nanos(nanos: u64) -> Fixed {
        Fixed { raw: saturate(nanos as int) as i64 }
    }

    /// A time in seconds from a count of nanoseconds, clamped to the
    /// representable range.
    #[verifier::when_used_as_spec(spec_from_nanos)]
    pub fn from_nanos(nanos: u64) -> (r: Fixed)
        ensures
            r == Fixed::spec_from_nanos(nanos),
            r.raw >= 0,
    {
        if nanos > i64::MAX as u64 {
            Fixed { raw: i64::MAX }
        } else {
            Fixed { raw: nanos as i64 }
        }
    }

    #[verifier::when_used_as_spec(spec_plus)]
    pub fn plus(self, rhs: Fixed) -> (r: Fixed)
        ensures
            r == self.spec_plus(rhs),
    {
        Fixed { raw: clamp_raw(self.raw as i128 + rhs.raw as i128) }
    }

    #[verifier::when_used_as_spec(spec_minus)]
    pub fn minus(self, rhs: Fixed) -> (r: Fixed)
        ensures
            r == self.spec_minus(rhs),
    {
        Fixed { raw: clamp_raw(self.raw as i128 - rhs.raw as i128) }
    }

    #[verifier::when_used_as_spec(spec_times)]
    pub fn times(self, rhs: Fixed) -> (r: Fixed)
        ensures
            r == self.spec_times(rhs),
    {
        let a: i128 = self.raw as i128;
        let b: i128 = rhs.raw as i128;
        proof {
            lemma_product_bound(a as int, b as int, 0x8000_0000_0000_0000, 0x8000_0000_0000_0000);
        }
        let p: i128 = a * b;
        Fixed { raw: clamp_raw(p / (SCALE as i128)) }
    }

    #[verifier::when_used_as_spec(spec_over)]
    pub fn over(self, rhs: Fixed) -> (r: Fixed)
        ensures
            r == self.spec_over(rhs),
    {
        if rhs.raw == 0 {
            if self.raw > 0 {
                Fixed { raw: i64::MAX }
            } else if self.raw < 0 {
                Fixed { raw: i64::MIN }
            } else {
                Fixed { raw: 0 }
            }
        } else {
            let a: i128 = self.raw as i128;
            proof {
                lemma_product_bound(a as int, SCALE as int, 0x8000_0000_0000_0000, 1_000_000_000);
            }
            let n: i128 = a * (SCALE as i128);
            let d: i128 = rhs.raw as i128;
            if d > 0 {
                Fixed { raw: clamp_raw(n / d) }
            } else {
                Fixed { raw: clamp_raw((-n) / (-d)) }
            }
        }
    }

    #[verifier::when_used_as_spec(spec_negate)]
    pub fn negate(self) -> (r: Fixed)
        ensures
            r == self.spec_negate(),
    {
        Fixed { raw: clamp_raw(-(self.raw as i128)) }
    }

    #[verifier::when_used_as_spec(spec_abs)]
    pub fn abs(self) -> (r: Fixed)
        ensures
            r == self.spec_abs(),
    {
        if self.raw < 0 {
            self.negate()
        } else {
            self
        }
    }

    #[verifier::when_used_as_spec(spec_min)]
    pub fn min(self, rhs: Fixed) -> (r: Fixed)
        ensures
            r == self.spec_min(rhs),
    {
        if rhs.raw < self.raw {
            rhs
        } else {
            self
        }
    }

    #[verifier::when_used_as_spec(spec_max)]
    pub fn max(self, rhs: Fixed) -> (r: Fixed)
        ensures
            r == self.spec_max(rhs),
    {
        if rhs.raw > self.raw {
            rhs
        } else {
            self
        }
    }
}

/// First-order low-pass filter: the state moves toward the input by the
/// fraction `alpha` of their distance, `state + alpha * (input - state)`,
/// which is `alpha * input + (1 - alpha) * state`.
pub open spec fn spec_low_pass(alpha: Fixed, input: Fixed, state: Fixed) -> Fixed {
    state.spec_plus(alpha.spec_times(input.spec_minus(state)))
}

#[verifier::when_used_as_spec(spec_low_pass)]
pub fn low_pass(alpha: Fixed, input: Fixed, state: Fixed) -> (r: Fixed)
    ensures
        r == spec_low_pass(alpha, input, state),
{
    state.plus(alpha.times(input.minus(state)))
}

/// The product of two integers bounded in magnitude is bounded by the
/// product of the bounds.
pub proof fn lemma_product_bound(a: int, b: int, ma: int, mb: int)
    requires
        -ma <= a <= ma,
        -mb <= b <= mb,
    ensures
        -(ma * mb) <= a * b <= ma * mb,
{
    assert(-(ma * mb) <= a * b <= ma * mb) by (nonlinear_arith)
        requires
            -ma <= a <= ma,
            -mb <= b <= mb,
    ;
}

/// The product of two values that are not negative is not negative.
pub proof fn lemma_times_non_negative(a: Fixed, b: Fixed)
    requires
        a.raw >= 0,
        b.raw >= 0,
    ensures
        a.spec_times(b).raw >= 0,
{
    assert(a.raw * b.raw >= 0) by (nonlinear_arith)
        requires
            a.raw >= 0,
            b.raw >= 0,
    ;
}

/// The quotient of a value that is not negative by a positive one is not
/// negative.
pub proof fn lemma_over_non_negative(a: Fixed, b: Fixed)
    requires
        a.raw >= 0,
        b.raw > 0,
    ensures
        a.spec_over(b).raw >= 0,
{
    assert(a.raw * SCALE >= 0) by (nonlinear_arith)
        requires
            a.raw >= 0,
    ;
    vstd::arithmetic::div_mod::lemma_div_pos_is_pos(a.raw * SCALE, b.raw as int);
}

/// With a coefficient in `[0, 1]`, the filter keeps a state and an input that
/// are not negative from going negative.
pub proof fn lemma_low_pass_non_negative(alpha: Fixed, input: Fixed, state: Fixed)
    requires
        0 <= alpha.raw <= SCALE,
        input.raw >= 0,
        state.raw >= 0,
    ensures
        spec_low_pass(alpha, input, state).raw >= 0,
{
    let d = input.spec_minus(state);
    assert(d.raw == input.raw - state.raw);
    lemma_times_fraction(alpha, d);
}

/// Multiplying by a coefficient in `[0, 1]` keeps the sign and does not grow
/// the magnitude.
pub proof fn lemma_times_fraction(alpha: Fixed, d: Fixed)
    requires
        0 <= alpha.raw <= SCALE,
    ensures
        d.raw >= 0 ==> 0 <= alpha.spec_times(d).raw <= d.raw,
        d.raw <= 0 ==> d.raw <= alpha.spec_times(d).raw <= 0,
{
    let a = alpha.raw as int;
    let x = d.raw as int;
    let s = SCALE as int;
    if x >= 0 {
        assert(0 <= a * x <= s * x) by (nonlinear_arith)
            requires
                0 <= a <= s,
                x >= 0,
        ;
        vstd::arithmetic::div_mod::lemma_div_is_ordered(0, a * x, s);
        vstd::arithmetic::div_mod::lemma_div_is_ordered(a * x, s * x, s);
        vstd::arithmetic::div_mod::lemma_div_multiples_vanish(x, s);
        assert(s * x == x * s) by (nonlinear_arith);
    } else {
        assert(0 <= -(a * x) <= s * (-x)) by (nonlinear_arith)
            requires
                0 <= a <= s,
                x < 0,
        ;
        vstd::arithmetic::div_mod::lemma_div_is_ordered(0, -(a * x), s);
        vstd::arithmetic::div_mod::lemma_div_is_ordered(-(a * x), s * (-x), s);
        vstd::arithmetic::div_mod::lemma_div_multiples_vanish(-x, s);
        assert(s * (-x) == (-x) * s) by (nonlinear_arith);
    }
}

/// A product with nothing is nothing.
pub proof fn lemma_times_zero(a: Fixed)
    ensures
        a.spec_times(Fixed::new(0)).raw == 0,
        Fixed::new(0).spec_times(a).raw == 0,
{
    assert(a.raw * 0 == 0 && 0 * a.raw == 0) by (nonlinear_arith);
}

/// Division that rounds toward zero keeps the order of the dividends, for a
/// positive divisor.
pub proof fn lemma_trunc_div_monotone(n1: int, n2: int, d: int)
    requires
        n1 <= n2,
        d > 0,
    ensures
        trunc_div(n1, d) <= trunc_div(n2, d),
{
    if n1 >= 0 {
        vstd::arithmetic::div_mod::lemma_div_is_ordered(n1, n2, d);
    } else if n2 < 0 {
        vstd::arithmetic::div_mod::lemma_div_is_ordered(-n2, -n1, d);
    } else {
        vstd::arithmetic::div_mod::lemma_div_pos_is_pos(-n1, d);
        vstd::arithmetic::div_mod::lemma_div_pos_is_pos(n2, d);
    }
}

/// Multiplying by a value that is not negative keeps the order, on either
/// side of the product.
pub proof fn lemma_times_monotone(a1: Fixed, a2: Fixed, c: Fixed)
    requires
        a1.raw <= a2.raw,
        c.raw >= 0,
    ensures
        a1.spec_times(c).raw <= a2.spec_times(c).raw,
        c.spec_times(a1).raw <= c.spec_times(a2).raw,
{
    let x1 = a1.raw as int;
    let x2 = a2.raw as int;
    let k = c.raw as int;
    assert(x1 * k <= x2 * k && k * x1 <= k * x2) by (nonlinear_arith)
        requires
            x1 <= x2,
            k >= 0,
    ;
    lemma_trunc_div_monotone(x1 * k, x2 * k, SCALE as int);
    lemma_trunc_div_monotone(k * x1, k * x2, SCALE as int);
}

/// Dividing by a positive value keeps the order.
pub proof fn lemma_over_monotone(a1: Fixed, a2: Fixed, d: Fixed)
    requires
        a1.raw <= a2.raw,
        d.raw > 0,
    ensures
        a1.spec_over(d).raw <= a2.spec_over(d).raw,
{
    let x1 = a1.raw as int;
    let x2 = a2.raw as int;
    let s = SCALE as int;
    assert(x1 * s <= x2 * s) by (nonlinear_arith)
        requires
            x1 <= x2,
            s > 0,
    ;
    lemma_trunc_div_monotone(x1 * s, x2 * s, d.raw as int);
}

/// With a coefficient that is not negative, a larger input gives no smaller
/// state.
pub proof fn lemma_low_pass_monotone(alpha: Fixed, input1: Fixed, input2: Fixed, state: Fixed)
    requires
        alpha.raw >= 0,
        input1.raw <= input2.raw,
    ensures
        spec_low_pass(alpha, input1, state).raw <= spec_low_pass(alpha, input2, state).raw,
{
    lemma_times_monotone(input1.spec_minus(state), input2.spec_minus(state), alpha);
}

} // verus!
