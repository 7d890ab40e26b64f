//! The map between data space and one screen rectangle.

use vstd::prelude::*;
use crate::bounds::{PlotBounds, COORD_LIMIT};
use crate::geometry::{Pos2, Rect, Value, Vec2};
use crate::numeric::{clamp_i32, clamp_i64, div_floor, mul_div_floor, sat_i32, sat_i64, Ratio};

verus! {

/// The bounds that a transform stores for the bounds it is given: the square
/// from -1 to 1 where they are not valid, and each centered axis made
/// symmetric around zero.
pub open spec fn resolved_bounds(bounds: PlotBounds, x_centered: bool, y_centered: bool) -> PlotBounds {
    let b0 = if bounds.spec_is_valid() {
        bounds
    } else {
        PlotBounds { min: [-1i64, -1i64], max: [1i64, 1i64] }
    };
    let b1 = if x_centered { b0.spec_make_x_symmetrical() } else { b0 };
    if y_centered { b1.spec_make_y_symmetrical() } else { b1 }
}

/// One end of an axis after a zoom around `center`: its distance to the
/// center divided by the factor.
pub open spec fn zoomed_end(end: int, center: int, factor: Ratio) -> i64 {
    sat_i64(center + (end - center) * factor.den() / factor.num())
}

/// The extent that gives an axis the wanted aspect when the other axis has
/// the extent `other_span`: `other_span * k * screen / divisor`, where
/// `screen` is the frame's extent along the axis, `divisor` the frame's
/// extent along the other axis times one part of the ratio, and `k` the
/// other part.
pub open spec fn aspect_span(other_span: int, k: int, screen: int, divisor: int) -> int {
    (other_span * k) * screen / divisor
}

/// Bidirectional affine map between a fixed screen rectangle and mutable
/// data bounds. The y axis is flipped: the bottom of the frame shows the
/// lower end of the bounds.
#[derive(Clone, Copy, Debug, PartialEq, Eq)]
pub struct ScreenTransform {
    frame: Rect,
    bounds: PlotBounds,
}

impl ScreenTransform {
    /// The screen rectangle.
    pub closed spec fn spec_frame(self) -> Rect {
        self.frame
    }

    /// The data bounds shown in the frame.
    pub closed spec fn spec_bounds(self) -> PlotBounds {
        self.bounds
    }

    /// The stored bounds are valid. This holds of every transform that a
    /// program can make.
    #[verifier::type_invariant]
    pub open spec fn wf(self) -> bool {
        self.spec_bounds().spec_is_valid()
    }

    /// The same transform with other bounds.
    pub closed spec fn with_bounds(self, bounds: PlotBounds) -> ScreenTransform {
        ScreenTransform { bounds, ..self }
    }

    /// The transform that `new` makes.
    pub closed spec fn spec_new(frame: Rect, bounds: PlotBounds, x_centered: bool, y_centered: bool) -> ScreenTransform {
        ScreenTransform { frame, bounds: resolved_bounds(bounds, x_centered, y_centered) }
    }

    /// The data bounds between the values shown at two opposite corners of
    /// a rectangle on the screen, whichever two corners they are.
    pub open spec fn spec_box_bounds(self, a: Pos2, b: Pos2) -> PlotBounds {
        let va = self.spec_value_from_position(a);
        let vb = self.spec_value_from_position(b);
        PlotBounds {
            min: [if va.x <= vb.x { va.x } else { vb.x }, if va.y <= vb.y { va.y } else { vb.y }],
            max: [if va.x <= vb.x { vb.x } else { va.x }, if va.y <= vb.y { vb.y } else { va.y }],
        }
    }

    /// The screen position that shows `value`.
    pub open spec fn spec_position_from_value(self, value: Value) -> Pos2 {
        let f = self.spec_frame();
        let b = self.spec_bounds();
        Pos2 {
            x: sat_i32(f.min.x + (value.x - b.min[0]) * f.spec_width() / b.spec_width()),
            y: sat_i32(f.max.y - (value.y - b.min[1]) * f.spec_height() / b.spec_height()),
        }
    }

    /// The data value shown at `pos`. On an axis along which the frame has
    /// no positive extent, it is the lower end of the bounds.
    pub open spec fn spec_value_from_position(self, pos: Pos2) -> Value {
        let f = self.spec_frame();
        let b = self.spec_bounds();
        Value {
            x: if f.spec_width() > 0 {
                sat_i64(b.min[0] + (pos.x - f.min.x) * b.spec_width() / f.spec_width())
            } else {
                b.min[0]
            },
            y: if f.spec_height() > 0 {
                sat_i64(b.min[1] + (f.max.y - pos.y) * b.spec_height() / f.spec_height())
            } else {
                b.min[1]
            },
        }
    }

    /// The displacement in data space that a displacement on the screen
    /// stands for, clamped to `i64`; zero along an axis on which the frame
    /// has no positive extent.
    pub open spec fn spec_value_delta(self, delta: Vec2) -> (i64, i64) {
        let f = self.spec_frame();
        let b = self.spec_bounds();
        (
            if f.spec_width() > 0 {
                sat_i64(delta.x * b.spec_width() / f.spec_width())
            } else {
                0
            },
            if f.spec_height() > 0 {
                sat_i64((-delta.y) * b.spec_height() / f.spec_height())
            } else {
                0
            },
        )
    }

    /// The bounds after a shift by a screen displacement. A shift that would
    /// leave the finite range is not made.
    pub open spec fn spec_translated(self, delta: Vec2) -> PlotBounds {
        let d = self.spec_value_delta(delta);
        let moved = self.spec_bounds().spec_translate(d.0 as int, d.1 as int);
        if moved.spec_is_valid() {
            moved
        } else {
            self.spec_bounds()
        }
    }

    /// The bounds that a zoom aims at: each end's distance to the data value
    /// under `center` divided by the factor of its axis.
    pub open spec fn spec_zoom_target(self, factor_x: Ratio, factor_y: Ratio, center: Pos2) -> PlotBounds {
        let c = self.spec_value_from_position(center);
        let b = self.spec_bounds();
        PlotBounds {
            min: [
                zoomed_end(b.min[0] as int, c.x as int, factor_x),
                zoomed_end(b.min[1] as int, c.y as int, factor_y),
            ],
            max: [
                zoomed_end(b.max[0] as int, c.x as int, factor_x),
                zoomed_end(b.max[1] as int, c.y as int, factor_y),
            ],
        }
    }

    /// The bounds after a zoom: the target where both factors are positive
    /// and the target is valid, the old bounds otherwise.
    pub open spec fn spec_zoomed(self, factor_x: Ratio, factor_y: Ratio, center: Pos2) -> PlotBounds {
        let target = self.spec_zoom_target(factor_x, factor_y, center);
        if factor_x.num() > 0 && factor_y.num() > 0 && target.spec_is_valid() {
            target
        } else {
            self.spec_bounds()
        }
    }

    /// The bounds that `set_aspect` aims at. With `preserve_y` the x axis
    /// gets the extent `frame_width * height * den / (frame_height * num)`
    /// around its old middle; otherwise the y axis gets
    /// `frame_height * width * num / (frame_width * den)`.
    pub open spec fn spec_aspect_target(self, aspect: Ratio, preserve_y: bool) -> PlotBounds {
        let f = self.spec_frame();
        let b = self.spec_bounds();
        if preserve_y {
            let span = aspect_span(
                b.spec_height(),
                aspect.den(),
                f.spec_width(),
                f.spec_height() * aspect.num(),
            );
            let lo = b.min[0] - (span - b.spec_width()) / 2;
            PlotBounds { min: [sat_i64(lo), b.min[1]], max: [sat_i64(lo + span), b.max[1]] }
        } else {
            let span = aspect_span(
                b.spec_width(),
                aspect.num(),
                f.spec_height(),
                f.spec_width() * aspect.den(),
            );
            let lo = b.min[1] - (span - b.spec_height()) / 2;
            PlotBounds { min: [b.min[0], sat_i64(lo)], max: [b.max[0], sat_i64(lo + span)] }
        }
    }

    /// The bounds after `set_aspect`: the target where the frame has a
    /// positive area, the ratio is positive and the target is valid, the old
    /// bounds otherwise.
    pub open spec fn spec_with_aspect(self, aspect: Ratio, preserve_y: bool) -> PlotBounds {
        let f = self.spec_frame();
        let target = self.spec_aspect_target(aspect, preserve_y);
        if f.spec_width() > 0 && f.spec_height() > 0 && aspect.num() > 0 && target.spec_is_valid() {
            target
        } else {
            self.spec_bounds()
        }
    }

    /// What `with_bounds` changes and what it keeps.
    pub proof fn lemma_with_bounds(self, bounds: PlotBounds)
        ensures
            self.with_bounds(bounds).spec_bounds() == bounds,
            self.with_bounds(bounds).spec_frame() == self.spec_frame(),
            self.with_bounds(self.spec_bounds()) == self,
    {
    }

    /// What the transform that `new` makes holds.
    pub proof fn lemma_spec_new(frame: Rect, bounds: PlotBounds, x_centered: bool, y_centered: bool)
        ensures
            Self::spec_new(frame, bounds, x_centered, y_centered).wf(),
            Self::spec_new(frame, bounds, x_centered, y_centered).spec_frame() == frame,
            Self::spec_new(frame, bounds, x_centered, y_centered).spec_bounds() == resolved_bounds(
                bounds,
                x_centered,
                y_centered,
            ),
    {
        Self::lemma_resolved_valid(bounds, x_centered, y_centered);
    }

    /// A valid axis stays valid when it is made symmetric.
    pub proof fn lemma_symmetric_valid(b: PlotBounds)
        requires
            b.spec_is_valid(),
        ensures
            b.spec_make_x_symmetrical().spec_is_valid(),
            b.spec_make_y_symmetrical().spec_is_valid(),
    {
    }

    /// What a transform stores is always valid.
    pub proof fn lemma_resolved_valid(bounds: PlotBounds, x_centered: bool, y_centered: bool)
        ensures
            resolved_bounds(bounds, x_centered, y_centered).spec_is_valid(),
    {
        let b0 = if bounds.spec_is_valid() {
            bounds
        } else {
            PlotBounds { min: [-1i64, -1i64], max: [1i64, 1i64] }
        };
        assert(b0.spec_is_valid());
        Self::lemma_symmetric_valid(b0);
        let b1 = if x_centered { b0.spec_make_x_symmetrical() } else { b0 };
        Self::lemma_symmetric_valid(b1);
    }

    /// A transform of `frame` that shows `bounds`, or the square from -1 to
    /// 1 where `bounds` is not valid. With `x_centered` or `y_centered`, the
    /// origin of that axis is put in the middle of the frame.
    pub fn new(frame: Rect, bounds: PlotBounds, x_centered: bool, y_centered: bool) -> (r: ScreenTransform)
        ensures
            r == Self::spec_new(frame, bounds, x_centered, y_centered),
            r.wf(),
            r.spec_frame() == frame,
            r.spec_bounds() == resolved_bounds(bounds, x_centered, y_centered),
    {
        let ghost given = bounds;
        let mut bounds = bounds;
        if !bounds.is_valid() {
            bounds = PlotBounds::new_symmetrical(1);
        }
        if x_centered {
            bounds.make_x_symmetrical();
        }
        if y_centered {
            bounds.make_y_symmetrical();
        }
        proof {
            Self::lemma_resolved_valid(given, x_centered, y_centered);
        }
        ScreenTransform { frame, bounds }
    }

    pub fn frame(&self) -> (r: &Rect)
        ensures
            *r == self.spec_frame(),
    {
        &self.frame
    }

    pub fn bounds(&self) -> (r: &PlotBounds)
        ensures
            *r == self.spec_bounds(),
    {
        &self.bounds
    }

    /// Replaces the bounds by `bounds` if they are valid, and says whether
    /// it did.
    pub fn set_bounds(&mut self, bounds: PlotBounds) -> (done: bool)
        ensures
            final(self).wf(),
            done == bounds.spec_is_valid(),
            *final(self) == old(self).with_bounds(if done { bounds } else { old(self).spec_bounds() }),
            final(self).spec_frame() == old(self).spec_frame(),
            final(self).spec_bounds() == if done { bounds } else { old(self).spec_bounds() },
    {
        proof {
            use_type_invariant(&*self);
        }
        if bounds.is_valid() {
            self.bounds = bounds;
            true
        } else {
            false
        }
    }

    /// The screen position that shows `value`.
    pub fn position_from_value(&self, value: &Value) -> (r: Pos2)
        ensures
            r == self.spec_position_from_value(*value),
    {
        proof {
            use_type_invariant(&*self);
        }
        let fw: i128 = self.frame.width() as i128;
        let fh: i128 = self.frame.height() as i128;
        let bw: i128 = self.bounds.width();
        let bh: i128 = self.bounds.height();
        let ax: i128 = value.x as i128 - self.bounds.min[0] as i128;
        let ay: i128 = value.y as i128 - self.bounds.min[1] as i128;
        let qx: i128 = mul_div_floor(ax, fw, bw);
        let qy: i128 = mul_div_floor(ay, fh, bh);
        Pos2 { x: clamp_i32(self.frame.min.x as i128 + qx), y: clamp_i32(self.frame.max.y as i128 - qy) }
    }

    /// The data value shown at `pos`.
    pub fn value_from_position(&self, pos: Pos2) -> (r: Value)
        ensures
            r == self.spec_value_from_position(pos),
    {
        proof {
            use_type_invariant(&*self);
        }
        let fw: i128 = self.frame.width() as i128;
        let fh: i128 = self.frame.height() as i128;
        let x: i64 = if fw > 0 {
            let a: i128 = pos.x as i128 - self.frame.min.x as i128;
            let q: i128 = mul_div_floor(a, self.bounds.width(), fw);
            clamp_i64(self.bounds.min[0] as i128 + q)
        } else {
            self.bounds.min[0]
        };
        let y: i64 = if fh > 0 {
            let a: i128 = self.frame.max.y as i128 - pos.y as i128;
            let q: i128 = mul_div_floor(a, self.bounds.height(), fh);
            clamp_i64(self.bounds.min[1] as i128 + q)
        } else {
            self.bounds.min[1]
        };
        Value { x, y }
    }

    /// The data bounds between the values shown at two opposite corners of
    /// a rectangle on the screen. Whichever two corners they are, the lower
    /// end of each axis is not above its upper end.
    pub fn box_bounds(&self, a: Pos2, b: Pos2) -> (r: PlotBounds)
        ensures
            r == self.spec_box_bounds(a, b),
            r.min[0] <= r.max[0],
            r.min[1] <= r.max[1],
    {
        let va: Value = self.value_from_position(a);
        let vb: Value = self.value_from_position(b);
        let r = PlotBounds {
            min: [if va.x <= vb.x { va.x } else { vb.x }, if va.y <= vb.y { va.y } else { vb.y }],
            max: [if va.x <= vb.x { vb.x } else { va.x }, if va.y <= vb.y { vb.y } else { va.y }],
        };
        proof {
            r.lemma_eq(self.spec_box_bounds(a, b));
        }
        r
    }

    /// The displacement in data space that `delta` on the screen stands
    /// for.
    pub fn value_delta(&self, delta: Vec2) -> (r: (i64, i64))
        ensures
            r == self.spec_value_delta(delta),
    {
        proof {
            use_type_invariant(&*self);
        }
        let fw: i128 = self.frame.width() as i128;
        let fh: i128 = self.frame.height() as i128;
        let dx: i64 = if fw > 0 {
            clamp_i64(mul_div_floor(delta.x as i128, self.bounds.width(), fw))
        } else {
            0
        };
        let dy: i64 = if fh > 0 {
            clamp_i64(mul_div_floor(-(delta.y as i128), self.bounds.height(), fh))
        } else {
            0
        };
        (dx, dy)
    }

    /// Shifts the bounds by the data displacement that `delta` on the screen
    /// stands for.
    pub fn translate_bounds(&mut self, delta: Vec2)
        ensures
            final(self).wf(),
            *final(self) == old(self).with_bounds(old(self).spec_translated(delta)),
            final(self).spec_bounds() == old(self).spec_translated(delta),
            final(self).spec_frame() == old(self).spec_frame(),
    {
        proof {
            use_type_invariant(&*self);
        }
        let d: (i64, i64) = self.value_delta(delta);
        let mut moved: PlotBounds = self.bounds;
        moved.translate(d.0, d.1);
        if moved.is_valid() {
            self.bounds = moved;
        }
    }

    fn zoom_end(end: i64, center: i64, factor: Ratio) -> (r: i64)
        requires
            factor.num() > 0,
        ensures
            r == zoomed_end(end as int, center as int, factor),
    {
        let a: i128 = end as i128 - center as i128;
        let q: i128 = mul_div_floor(a, factor.denom() as i128, factor.numer() as i128);
        clamp_i64(center as i128 + q)
    }

    /// Zooms by `factor_x` and `factor_y` around the data value shown at
    /// `center`: the extent of each axis is divided by its factor, and the
    /// value under `center` keeps its place. A zoom by a factor of zero, or
    /// one that would leave no valid bounds, is not made.
    pub fn zoom(&mut self, factor_x: Ratio, factor_y: Ratio, center: Pos2)
        ensures
            final(self).wf(),
            *final(self) == old(self).with_bounds(old(self).spec_zoomed(factor_x, factor_y, center)),
            final(self).spec_bounds() == old(self).spec_zoomed(factor_x, factor_y, center),
            final(self).spec_frame() == old(self).spec_frame(),
    {
        proof {
            use_type_invariant(&*self);
        }
        if factor_x.numer() == 0 || factor_y.numer() == 0 {
            return ;
        }
        let c: Value = self.value_from_position(center);
        let target = PlotBounds {
            min: [
                Self::zoom_end(self.bounds.min[0], c.x, factor_x),
                Self::zoom_end(self.bounds.min[1], c.y, factor_y),
            ],
            max: [
                Self::zoom_end(self.bounds.max[0], c.x, factor_x),
                Self::zoom_end(self.bounds.max[1], c.y, factor_y),
            ],
        };
        proof {
            target.lemma_eq(self.spec_zoom_target(factor_x, factor_y, center));
        }
        if target.is_valid() {
            self.bounds = target;
        }
    }

    fn span_for_aspect(other_span: i128, k: u32, screen: i64, other_screen: i64, m: u32) -> (r: i128)
        requires
            0 < other_span <= 2 * COORD_LIMIT,
            0 < screen <= 0xffff_ffff,
            0 < other_screen <= 0xffff_ffff,
            m > 0,
        ensures
            r == aspect_span(other_span as int, k as int, screen as int, other_screen * m),
            r >= 0,
    {
        assert(0 <= other_span * k <= 0x20_0000_0000_0000 * 0x1_0000_0000) by (nonlinear_arith)
            requires
                0 < other_span <= 0x20_0000_0000_0000,
                0 <= k <= 0x1_0000_0000,
        ;
        assert(0 < other_screen * m <= 0x1_0000_0000 * 0x1_0000_0000) by (nonlinear_arith)
            requires
                0 < other_screen <= 0x1_0000_0000,
                0 < m <= 0x1_0000_0000,
        ;
        let a: i128 = other_span * k as i128;
        let d: i128 = other_screen as i128 * m as i128;
        assert(a * screen >= 0) by (nonlinear_arith)
            requires
                a >= 0,
                screen > 0,
        ;
        mul_div_floor(a, screen as i128, d)
    }

    /// Changes the extent of one axis so that the frame's width over its
    /// height equals `aspect` times the bounds' width over their height,
    /// up to rounding. With `preserve_y` the y axis is kept and the x axis
    /// changes around its middle; otherwise the x axis is kept. The frame
    /// never changes. Nothing changes where the frame has no positive area,
    /// the ratio is zero, or the new bounds would not be valid.
    pub fn set_aspect(&mut self, aspect: Ratio, preserve_y: bool)
        ensures
            final(self).wf(),
            *final(self) == old(self).with_bounds(old(self).spec_with_aspect(aspect, preserve_y)),
            final(self).spec_bounds() == old(self).spec_with_aspect(aspect, preserve_y),
            final(self).spec_frame() == old(self).spec_frame(),
    {
        proof {
            use_type_invariant(&*self);
        }
        let fw: i64 = self.frame.width();
        let fh: i64 = self.frame.height();
        if fw <= 0 || fh <= 0 || aspect.numer() == 0 {
            return ;
        }
        let bw: i128 = self.bounds.width();
        let bh: i128 = self.bounds.height();
        let target = if preserve_y {
            let span: i128 = Self::span_for_aspect(bh, aspect.denom(), fw, fh, aspect.numer());
            let pad: i128 = div_floor(span - bw, 2);
            let lo: i128 = self.bounds.min[0] as i128 - pad;
            PlotBounds {
                min: [clamp_i64(lo), self.bounds.min[1]],
                max: [clamp_i64(lo + span), self.bounds.max[1]],
            }
        } else {
            let span: i128 = Self::span_for_aspect(bw, aspect.numer(), fh, fw, aspect.denom());
            let pad: i128 = div_floor(span - bh, 2);
            let lo: i128 = self.bounds.min[1] as i128 - pad;
            PlotBounds {
                min: [self.bounds.min[0], clamp_i64(lo)],
                max: [self.bounds.max[0], clamp_i64(lo + span)],
            }
        };
        proof {
            target.lemma_eq(self.spec_aspect_target(aspect, preserve_y));
        }
        if target.is_valid() {
            self.bounds = target;
        }
    }
}

} // verus!
