//! The visible rectangle in data space.

use vstd::prelude::*;
use crate::geometry::Value;
use crate::numeric::{clamp_i64, mul_div_floor, sat_i64, Ratio};

verus! {

/// The largest magnitude of a finite data coordinate. Anything beyond it
/// counts as infinite.
pub const COORD_LIMIT: i64 = 0x10_0000_0000_0000;

/// What `add_relative_margin` adds on each side of an axis whose range is a
/// single value.
pub const MARGIN_FALLBACK: i64 = 1;

/// Whether a data coordinate is finite.
pub open spec fn is_finite_coord(v: int) -> bool {
    -COORD_LIMIT <= v <= COORD_LIMIT
}

/// The padding that a relative margin adds on each side of an axis of the
/// given width: the fallback for a single value, nothing for an inverted
/// axis, the fraction of the width otherwise, clamped to `i64`.
pub open spec fn margin_pad(width: int, fraction: Ratio) -> int {
    if width == 0 {
        MARGIN_FALLBACK as int
    } else if width < 0 {
        0
    } else {
        sat_i64(width * fraction.num() / fraction.den()) as int
    }
}

/// The magnitude that makes an axis symmetric around zero: the larger of the
/// two magnitudes of its ends, clamped to `i64`.
pub open spec fn symmetric_extent(lo: int, hi: int) -> int {
    let a = if lo < 0 { -lo } else { lo };
    let b = if hi < 0 { -hi } else { hi };
    let m = if a >= b { a } else { b };
    if m > i64::MAX { i64::MAX as int } else { m }
}

/// An axis-aligned rectangle in data space, `min[0]..max[0]` on the x axis
/// and `min[1]..max[1]` on the y axis.
#[derive(Clone, Copy, Debug, PartialEq, Eq)]
pub struct PlotBounds {
    pub min: [i64; 2],
    pub max: [i64; 2],
}

impl PlotBounds {
    /// The bounds that hold no value: the identity of `merge`.
    pub open spec fn spec_nothing() -> PlotBounds {
        PlotBounds { min: [i64::MAX, i64::MAX], max: [i64::MIN, i64::MIN] }
    }

    /// Bounds from the two corners.
    pub open spec fn spec_from_min_max(min_x: int, min_y: int, max_x: int, max_y: int) -> PlotBounds {
        PlotBounds { min: [sat_i64(min_x), sat_i64(min_y)], max: [sat_i64(max_x), sat_i64(max_y)] }
    }

    pub open spec fn spec_width(self) -> int {
        self.max[0] - self.min[0]
    }

    pub open spec fn spec_height(self) -> int {
        self.max[1] - self.min[1]
    }

    /// The extent of the given axis (0 is x, 1 is y).
    pub open spec fn spec_span(self, axis: int) -> int {
        self.max[axis] - self.min[axis]
    }

    pub open spec fn spec_is_finite(self) -> bool {
        &&& is_finite_coord(self.min[0] as int)
        &&& is_finite_coord(self.min[1] as int)
        &&& is_finite_coord(self.max[0] as int)
        &&& is_finite_coord(self.max[1] as int)
    }

    /// Finite, with a positive extent on both axes.
    pub open spec fn spec_is_valid(self) -> bool {
        self.spec_is_finite() && self.spec_width() > 0 && self.spec_height() > 0
    }

    /// The per-axis union of two bounds.
    pub open spec fn spec_merge(self, other: PlotBounds) -> PlotBounds {
        PlotBounds {
            min: [
                if other.min[0] < self.min[0] { other.min[0] } else { self.min[0] },
                if other.min[1] < self.min[1] { other.min[1] } else { self.min[1] },
            ],
            max: [
                if other.max[0] > self.max[0] { other.max[0] } else { self.max[0] },
                if other.max[1] > self.max[1] { other.max[1] } else { self.max[1] },
            ],
        }
    }

    pub open spec fn spec_extend_with_x(self, x: i64) -> PlotBounds {
        PlotBounds {
            min: [if x < self.min[0] { x } else { self.min[0] }, self.min[1]],
            max: [if x > self.max[0] { x } else { self.max[0] }, self.max[1]],
        }
    }

    pub open spec fn spec_extend_with_y(self, y: i64) -> PlotBounds {
        PlotBounds {
            min: [self.min[0], if y < self.min[1] { y } else { self.min[1] }],
            max: [self.max[0], if y > self.max[1] { y } else { self.max[1] }],
        }
    }

    pub open spec fn spec_extend_with(self, value: Value) -> PlotBounds {
        self.spec_extend_with_x(value.x).spec_extend_with_y(value.y)
    }

    pub open spec fn spec_expand_x(self, pad: int) -> PlotBounds {
        PlotBounds {
            min: [sat_i64(self.min[0] - pad), self.min[1]],
            max: [sat_i64(self.max[0] + pad), self.max[1]],
        }
    }

    pub open spec fn spec_expand_y(self, pad: int) -> PlotBounds {
        PlotBounds {
            min: [self.min[0], sat_i64(self.min[1] - pad)],
            max: [self.max[0], sat_i64(self.max[1] + pad)],
        }
    }

    pub open spec fn spec_translate(self, dx: int, dy: int) -> PlotBounds {
        PlotBounds {
            min: [sat_i64(self.min[0] + dx), sat_i64(self.min[1] + dy)],
            max: [sat_i64(self.max[0] + dx), sat_i64(self.max[1] + dy)],
        }
    }

    pub open spec fn spec_add_relative_margin(self, margin_x: Ratio, margin_y: Ratio) -> PlotBounds {
        self.spec_expand_x(margin_pad(self.spec_width(), margin_x)).spec_expand_y(
            margin_pad(self.spec_height(), margin_y),
        )
    }

    pub open spec fn spec_make_x_symmetrical(self) -> PlotBounds {
        let e = symmetric_extent(self.min[0] as int, self.max[0] as int);
        PlotBounds { min: [(-e) as i64, self.min[1]], max: [e as i64, self.max[1]] }
    }

    pub open spec fn spec_make_y_symmetrical(self) -> PlotBounds {
        let e = symmetric_extent(self.min[1] as int, self.max[1] as int);
        PlotBounds { min: [self.min[0], (-e) as i64], max: [self.max[0], e as i64] }
    }

    /// Two bounds are equal when their four coordinates are.
    pub proof fn lemma_eq(self, other: PlotBounds)
        requires
            self.min[0] == other.min[0],
            self.min[1] == other.min[1],
            self.max[0] == other.max[0],
            self.max[1] == other.max[1],
        ensures
            self == other,
    {
        assert(self.min =~= other.min);
        assert(self.max =~= other.max);
    }

    /// The bounds that hold no value.
    pub fn nothing() -> (r: PlotBounds)
        ensures
            r == PlotBounds::spec_nothing(),
            !r.spec_is_valid(),
    {
        PlotBounds { min: [i64::MAX, i64::MAX], max: [i64::MIN, i64::MIN] }
    }

    /// Bounds from the two corners `min` and `max`.
    pub fn from_min_max(min: [i64; 2], max: [i64; 2]) -> (r: PlotBounds)
        ensures
            r == (PlotBounds { min, max }),
    {
        PlotBounds { min, max }
    }

    /// The square from `-half_extent` to `half_extent` on both axes.
    pub fn new_symmetrical(half_extent: i64) -> (r: PlotBounds)
        requires
            half_extent > i64::MIN,
        ensures
            r == (PlotBounds {
                min: [(-half_extent) as i64, (-half_extent) as i64],
                max: [half_extent, half_extent],
            }),
    {
        PlotBounds { min: [-half_extent, -half_extent], max: [half_extent, half_extent] }
    }

    pub fn min(&self) -> (r: [i64; 2])
        ensures
            r == self.min,
    {
        self.min
    }

    pub fn max(&self) -> (r: [i64; 2])
        ensures
            r == self.max,
    {
        self.max
    }

    pub fn width(&self) -> (r: i128)
        ensures
            r == self.spec_width(),
    {
        self.max[0] as i128 - self.min[0] as i128
    }

    pub fn height(&self) -> (r: i128)
        ensures
            r == self.spec_height(),
    {
        self.max[1] as i128 - self.min[1] as i128
    }

    /// The extent of the given axis (0 is x, 1 is y).
    pub fn span(&self, axis: usize) -> (r: i128)
        requires
            axis < 2,
        ensures
            r == self.spec_span(axis as int),
    {
        self.max[axis] as i128 - self.min[axis] as i128
    }

    pub fn is_finite(&self) -> (r: bool)
        ensures
            r == self.spec_is_finite(),
    {
        -COORD_LIMIT <= self.min[0] && self.min[0] <= COORD_LIMIT && -COORD_LIMIT <= self.min[1]
            && self.min[1] <= COORD_LIMIT && -COORD_LIMIT <= self.max[0] && self.max[0]
            <= COORD_LIMIT && -COORD_LIMIT <= self.max[1] && self.max[1] <= COORD_LIMIT
    }

    /// Whether the bounds are finite and have a positive area.
    pub fn is_valid(&self) -> (r: bool)
        ensures
            r == self.spec_is_valid(),
    {
        self.is_finite() && self.width() > 0 && self.height() > 0
    }

    /// Whether the four coordinates of the two bounds are equal.
    pub fn equals(&self, other: &PlotBounds) -> (r: bool)
        ensures
            r == (*self == *other),
    {
        let r = self.min[0] == other.min[0] && self.min[1] == other.min[1] && self.max[0]
            == other.max[0] && self.max[1] == other.max[1];
        proof {
            if r {
                self.lemma_eq(*other);
            }
        }
        r
    }

    /// Grows the x axis to hold `x`.
    pub fn extend_with_x(&mut self, x: i64)
        ensures
            *final(self) == old(self).spec_extend_with_x(x),
    {
        if x < self.min[0] {
            self.min[0] = x;
        }
        if x > self.max[0] {
            self.max[0] = x;
        }
        proof {
            self.lemma_eq(old(self).spec_extend_with_x(x));
        }
    }

    /// Grows the y axis to hold `y`.
    pub fn extend_with_y(&mut self, y: i64)
        ensures
            *final(self) == old(self).spec_extend_with_y(y),
    {
        if y < self.min[1] {
            self.min[1] = y;
        }
        if y > self.max[1] {
            self.max[1] = y;
        }
        proof {
            self.lemma_eq(old(self).spec_extend_with_y(y));
        }
    }

    /// Grows both axes to hold `value`.
    pub fn extend_with(&mut self, value: &Value)
        ensures
            *final(self) == old(self).spec_extend_with(*value),
    {
        self.extend_with_x(value.x);
        self.extend_with_y(value.y);
    }

    /// Moves both ends of the x axis outwards by `pad`.
    pub fn expand_x(&mut self, pad: i64)
        ensures
            *final(self) == old(self).spec_expand_x(pad as int),
    {
        self.min[0] = clamp_i64(self.min[0] as i128 - pad as i128);
        self.max[0] = clamp_i64(self.max[0] as i128 + pad as i128);
        proof {
            self.lemma_eq(old(self).spec_expand_x(pad as int));
        }
    }

    /// Moves both ends of the y axis outwards by `pad`.
    pub fn expand_y(&mut self, pad: i64)
        ensures
            *final(self) == old(self).spec_expand_y(pad as int),
    {
        self.min[1] = clamp_i64(self.min[1] as i128 - pad as i128);
        self.max[1] = clamp_i64(self.max[1] as i128 + pad as i128);
        proof {
            self.lemma_eq(old(self).spec_expand_y(pad as int));
        }
    }

    /// Replaces the bounds by their per-axis union with `other`.
    pub fn merge(&mut self, other: &PlotBounds)
        ensures
            *final(self) == old(self).spec_merge(*other),
    {
        if other.min[0] < self.min[0] {
            self.min[0] = other.min[0];
        }
        if other.min[1] < self.min[1] {
            self.min[1] = other.min[1];
        }
        if other.max[0] > self.max[0] {
            self.max[0] = other.max[0];
        }
        if other.max[1] > self.max[1] {
            self.max[1] = other.max[1];
        }
        proof {
            self.lemma_eq(old(self).spec_merge(*other));
        }
    }

    /// Shifts the bounds by `(dx, dy)`, each coordinate clamped to `i64`.
    pub fn translate(&mut self, dx: i64, dy: i64)
        ensures
            *final(self) == old(self).spec_translate(dx as int, dy as int),
    {
        self.min[0] = clamp_i64(self.min[0] as i128 + dx as i128);
        self.max[0] = clamp_i64(self.max[0] as i128 + dx as i128);
        self.min[1] = clamp_i64(self.min[1] as i128 + dy as i128);
        self.max[1] = clamp_i64(self.max[1] as i128 + dy as i128);
        proof {
            self.lemma_eq(old(self).spec_translate(dx as int, dy as int));
        }
    }

    /// Widens each axis by the given fraction of its extent on both sides,
    /// by `MARGIN_FALLBACK` where the extent is zero, and not at all where
    /// the axis is inverted.
    pub fn add_relative_margin(&mut self, margin_x: Ratio, margin_y: Ratio)
        ensures
            *final(self) == old(self).spec_add_relative_margin(margin_x, margin_y),
    {
        let pad_x: i64 = Self::pad_for(self.width(), margin_x);
        let pad_y: i64 = Self::pad_for(self.height(), margin_y);
        self.expand_x(pad_x);
        self.expand_y(pad_y);
    }

    fn pad_for(width: i128, fraction: Ratio) -> (r: i64)
        requires
            i64::MIN - i64::MAX <= width <= i64::MAX - i64::MIN,
        ensures
            r == margin_pad(width as int, fraction),
            r >= 0,
    {
        if width == 0 {
            MARGIN_FALLBACK
        } else if width < 0 {
            0
        } else {
            let q: i128 = mul_div_floor(width, fraction.numer() as i128, fraction.denom() as i128);
            clamp_i64(q)
        }
    }

    /// The ends of the x axis.
    pub fn range_x(&self) -> (r: (i64, i64))
        ensures
            r == (self.min[0], self.max[0]),
    {
        (self.min[0], self.max[0])
    }

    /// The ends of the y axis.
    pub fn range_y(&self) -> (r: (i64, i64))
        ensures
            r == (self.min[1], self.max[1]),
    {
        (self.min[1], self.max[1])
    }

    fn extent(lo: i64, hi: i64) -> (e: i64)
        ensures
            e == symmetric_extent(lo as int, hi as int),
            e >= 0,
    {
        let a: i128 = if lo < 0 { -(lo as i128) } else { lo as i128 };
        let b: i128 = if hi < 0 { -(hi as i128) } else { hi as i128 };
        let m: i128 = if a >= b { a } else { b };
        if m > i64::MAX as i128 { i64::MAX } else { m as i64 }
    }

    /// Makes the x axis symmetric around zero without losing any of it.
    pub fn make_x_symmetrical(&mut self)
        ensures
            *final(self) == old(self).spec_make_x_symmetrical(),
    {
        let e: i64 = Self::extent(self.min[0], self.max[0]);
        self.min[0] = -e;
        self.max[0] = e;
        proof {
            self.lemma_eq(old(self).spec_make_x_symmetrical());
        }
    }

    /// Makes the y axis symmetric around zero without losing any of it.
    pub fn make_y_symmetrical(&mut self)
        ensures
            *final(self) == old(self).spec_make_y_symmetrical(),
    {
        let e: i64 = Self::extent(self.min[1], self.max[1]);
        self.min[1] = -e;
        self.max[1] = e;
        proof {
            self.lemma_eq(old(self).spec_make_y_symmetrical());
        }
    }

    /// Merging is commutative.
    pub proof fn lemma_merge_commutative(a: PlotBounds, b: PlotBounds)
        ensures
            a.spec_merge(b) == b.spec_merge(a),
    {
        a.spec_merge(b).lemma_eq(b.spec_merge(a));
    }

    /// Merging with the empty bounds, on either side, changes nothing.
    pub proof fn lemma_merge_nothing(a: PlotBounds)
        ensures
            a.spec_merge(PlotBounds::spec_nothing()) == a,
            PlotBounds::spec_nothing().spec_merge(a) == a,
    {
        a.spec_merge(PlotBounds::spec_nothing()).lemma_eq(a);
        PlotBounds::spec_nothing().spec_merge(a).lemma_eq(a);
    }
}

} // verus!
