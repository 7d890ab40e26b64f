//! Integer helpers shared by the rest of the crate: floor division, clamping
//! to a machine type, ratios of unsigned integers and a clamped linear remap.

use vstd::prelude::*;

verus! {

/// `v` clamped to the range of `i64`.
pub open spec fn sat_i64(v: int) -> i64 {
    if v < i64::MIN {
        i64::MIN
    } else if v > i64::MAX {
        i64::MAX
    } else {
        v as i64
    }
}

/// `v` clamped to the range of `i32`.
pub open spec fn sat_i32(v: int) -> i32 {
    if v < i32::MIN {
        i32::MIN
    } else if v > i32::MAX {
        i32::MAX
    } else {
        v as i32
    }
}

/// Floor division by a positive divisor.
pub fn div_floor(a: i128, b: i128) -> (q: i128)
    requires
        b > 0,
    ensures
        q == a / b,
{
    if a >= 0 {
        a / b
    } else {
        let n: i128 = -(a + 1);
        let q: i128 = n / b;
        assert(a / b == -(n / b) - 1) by (nonlinear_arith)
            requires
                n == -(a + 1),
                b > 0,
                n >= 0,
        ;
        -q - 1
    }
}

/// Whether `mul_div_floor` can multiply `a` by `n` within `i128`: one factor
/// may be wide as long as the other is narrow.
pub open spec fn mul_fits(a: int, n: int) -> bool {
    ||| (-0x4_0000_0000_0000_0000 <= a <= 0x4_0000_0000_0000_0000 && -0x1000_0000_0000_0000 <= n
        <= 0x1000_0000_0000_0000)
    ||| (-0x400_0000_0000_0000_0000_0000 <= a <= 0x400_0000_0000_0000_0000_0000 && -0x2_0000_0000
        <= n <= 0x2_0000_0000)
}

/// `a * n / d`, rounded down.
pub fn mul_div_floor(a: i128, n: i128, d: i128) -> (q: i128)
    requires
        mul_fits(a as int, n as int),
        d > 0,
    ensures
        q == (a * n) / (d as int),
        a * n >= 0 ==> 0 <= q <= a * n,
        a * n < 0 ==> a * n <= q < 0,
        -0x4000_0000_0000_0000_0000_0000_0000_0000 <= a * n <= 0x4000_0000_0000_0000_0000_0000_0000_0000,
{
    assert(-0x4000_0000_0000_0000_0000_0000_0000_0000 <= a * n
        <= 0x4000_0000_0000_0000_0000_0000_0000_0000) by (nonlinear_arith)
        requires
            mul_fits(a as int, n as int),
    ;
    let p: i128 = a * n;
    let q: i128 = div_floor(p, d);
    assert(p >= 0 ==> 0 <= q <= p) by (nonlinear_arith)
        requires
            q == p / d,
            d > 0,
    ;
    assert(p < 0 ==> p <= q < 0) by (nonlinear_arith)
        requires
            q == p / d,
            d > 0,
    ;
    q
}

/// Clamps a wide integer to `i64`.
pub fn clamp_i64(v: i128) -> (r: i64)
    ensures
        r == sat_i64(v as int),
{
    if v < i64::MIN as i128 {
        i64::MIN
    } else if v > i64::MAX as i128 {
        i64::MAX
    } else {
        v as i64
    }
}

/// Clamps a wide integer to `i32`.
pub fn clamp_i32(v: i128) -> (r: i32)
    ensures
        r == sat_i32(v as int),
{
    if v < i32::MIN as i128 {
        i32::MIN
    } else if v > i32::MAX as i128 {
        i32::MAX
    } else {
        v as i32
    }
}

/// A non-negative rational number `num / den` with a non-zero denominator.
///
/// Margins, zoom factors and aspect ratios are given as ratios.
#[derive(Clone, Copy, Debug, PartialEq, Eq)]
pub struct Ratio {
    num: u32,
    den: u32,
}

impl Ratio {
    /// The numerator.
    pub closed spec fn num(self) -> int {
        self.num as int
    }

    /// The denominator.
    pub closed spec fn den(self) -> int {
        self.den as int
    }

    /// The denominator is not zero. This holds of every ratio that a program
    /// can make.
    #[verifier::type_invariant]
    pub open spec fn wf(self) -> bool {
        self.den() > 0
    }

    /// `num / den`, or `None` when `den` is zero.
    pub fn new(num: u32, den: u32) -> (r: Option<Ratio>)
        ensures
            r.is_some() <==> den != 0,
            r.is_some() ==> r.unwrap().num() == num && r.unwrap().den() == den,
    {
        if den == 0 {
            None
        } else {
            Some(Ratio { num, den })
        }
    }

    /// The ratio `1 / 1`.
    pub fn one() -> (r: Ratio)
        ensures
            r.num() == 1,
            r.den() == 1,
    {
        Ratio { num: 1, den: 1 }
    }

    pub fn numer(&self) -> (r: u32)
        ensures
            r == self.num(),
    {
        self.num
    }

    pub fn denom(&self) -> (r: u32)
        ensures
            r == self.den(),
            r > 0,
    {
        proof {
            use_type_invariant(self);
        }
        self.den
    }

    /// Whether the ratio equals one.
    pub fn is_one(&self) -> (r: bool)
        ensures
            r == (self.num() == self.den()),
    {
        self.num == self.den
    }

    /// `v` times the ratio, rounded down and clamped to `i32`.
    pub open spec fn spec_times(self, v: int) -> i32 {
        sat_i32(v * self.num() / self.den())
    }

    /// `v` divided by the ratio, rounded down and clamped to `i32`. Divided
    /// by zero, a positive `v` gives the largest value and any other `v`
    /// the smallest.
    pub open spec fn spec_divide(self, v: int) -> i32 {
        if self.num() == 0 {
            if v > 0 {
                i32::MAX
            } else {
                i32::MIN
            }
        } else {
            sat_i32(v * self.den() / self.num())
        }
    }

    /// `v` times the ratio, rounded down and clamped to `i32`.
    pub fn times(&self, v: i32) -> (r: i32)
        ensures
            r == self.spec_times(v as int),
    {
        proof {
            use_type_invariant(self);
        }
        clamp_i32(mul_div_floor(v as i128, self.num as i128, self.den as i128))
    }

    /// `v` divided by the ratio, rounded down and clamped to `i32`.
    pub fn divide(&self, v: i32) -> (r: i32)
        ensures
            r == self.spec_divide(v as int),
    {
        if self.num == 0 {
            if v > 0 {
                i32::MAX
            } else {
                i32::MIN
            }
        } else {
            clamp_i32(mul_div_floor(v as i128, self.den as i128, self.num as i128))
        }
    }
}

/// Linear remap of `x` from `[from_lo, from_hi]` to `[to_lo, to_hi]`, clamped
/// to the target range; the quotient is a floor division.
pub open spec fn remap_clamp_spec(x: int, from_lo: int, from_hi: int, to_lo: int, to_hi: int) -> int {
    if x <= from_lo {
        to_lo
    } else if from_hi <= x {
        to_hi
    } else {
        to_lo + (x - from_lo) * (to_hi - to_lo) / (from_hi - from_lo)
    }
}

/// Remaps `x` from an input range to an output range and clamps the result
/// to the output range.
pub fn remap_clamp(x: i128, from_lo: u16, from_hi: u16, to_lo: u16, to_hi: u16) -> (r: u16)
    requires
        from_lo < from_hi,
        to_lo <= to_hi,
    ensures
        r == remap_clamp_spec(x as int, from_lo as int, from_hi as int, to_lo as int, to_hi as int),
        to_lo <= r <= to_hi,
{
    if x <= from_lo as i128 {
        to_lo
    } else if from_hi as i128 <= x {
        to_hi
    } else {
        let dx: u64 = (x - from_lo as i128) as u64;
        let span: u64 = (from_hi - from_lo) as u64;
        let out: u64 = (to_hi - to_lo) as u64;
        assert(0 <= dx * out <= 0xffff * 0xffff) by (nonlinear_arith)
            requires
                0 < dx < span,
                span <= 0xffff,
                0 <= out <= 0xffff,
        ;
        let q: u64 = dx * out / span;
        assert(q <= out) by (nonlinear_arith)
            requires
                q == (dx * out) / (span as int),
                0 < dx < span,
                out >= 0,
        ;
        to_lo + q as u16
    }
}

/// A larger input never remaps to a smaller output.
pub proof fn lemma_remap_clamp_monotonic(
    x1: int,
    x2: int,
    from_lo: int,
    from_hi: int,
    to_lo: int,
    to_hi: int,
)
    requires
        from_lo < from_hi,
        to_lo <= to_hi,
        x1 <= x2,
    ensures
        remap_clamp_spec(x1, from_lo, from_hi, to_lo, to_hi) <= remap_clamp_spec(
            x2,
            from_lo,
            from_hi,
            to_lo,
            to_hi,
        ),
        to_lo <= remap_clamp_spec(x1, from_lo, from_hi, to_lo, to_hi) <= to_hi,
{
    let span = from_hi - from_lo;
    let out = to_hi - to_lo;
    if from_lo < x1 && x1 < from_hi {
        let d1 = x1 - from_lo;
        assert(0 <= d1 * out / span <= out) by (nonlinear_arith)
            requires
                0 < d1 < span,
                out >= 0,
        ;
        if x2 < from_hi {
            let d2 = x2 - from_lo;
            assert(d1 * out / span <= d2 * out / span) by (nonlinear_arith)
                requires
                    0 < d1 <= d2,
                    span > 0,
                    out >= 0,
            ;
        }
    } else if from_lo < x2 && x2 < from_hi {
        let d2 = x2 - from_lo;
        assert(0 <= d2 * out / span <= out) by (nonlinear_arith)
            requires
                0 < d2 < span,
                out >= 0,
        ;
    }
}

} // verus!
