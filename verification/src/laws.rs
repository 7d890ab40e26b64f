//! What holds of the transform and of the interaction whatever their
//! inputs are.

use vstd::prelude::*;
use crate::bounds::PlotBounds;
use crate::geometry::{Pos2, Rect, Value, Vec2};
use crate::input::{InputState, Response};
use crate::numeric::Ratio;
use crate::interaction::{DragState, ViewState};
use crate::plot::Plot;
use crate::transform::ScreenTransform;

verus! {

/// Whether a screen position lies within a rectangle, its edges included.
pub open spec fn within_frame(frame: Rect, pos: Pos2) -> bool {
    frame.min.x <= pos.x <= frame.max.x && frame.min.y <= pos.y <= frame.max.y
}

/// Whether a value lies within bounds, their ends included.
pub open spec fn within_bounds(bounds: PlotBounds, value: Value) -> bool {
    bounds.min[0] <= value.x <= bounds.max[0] && bounds.min[1] <= value.y <= bounds.max[1]
}

proof fn lemma_round_trip_axis(a: int, screen: int, span: int) -> (r: (int, int))
    requires
        0 <= a <= span,
        0 < screen,
        0 < span,
    ensures
        r.0 == a * screen / span,
        r.1 == r.0 * span / screen,
        0 <= r.0 <= screen,
        0 <= r.1 <= a,
        (a - r.1 - 1) * screen < span,
{
    let k = a * screen / span;
    assert(k * span <= a * screen < (k + 1) * span && 0 <= k) by (nonlinear_arith)
        requires
            k == a * screen / span,
            0 <= a,
            0 < screen,
            0 < span,
    ;
    assert(k <= screen) by (nonlinear_arith)
        requires
            k * span <= a * screen,
            a <= span,
            0 < span,
            0 < screen,
            0 <= k,
            0 <= a,
    ;
    let m = k * span / screen;
    assert(m * screen <= k * span < (m + 1) * screen && 0 <= m) by (nonlinear_arith)
        requires
            m == k * span / screen,
            0 <= k,
            0 < screen,
            0 < span,
    ;
    assert(m <= a) by (nonlinear_arith)
        requires
            m * screen <= k * span,
            k * span <= a * screen,
            0 < screen,
    ;
    assert((a - m - 1) * screen < span) by (nonlinear_arith)
        requires
            k * span < (m + 1) * screen,
            a * screen < (k + 1) * span,
    ;
    (k, m)
}

/// The value shown at the position of a value within the bounds is that
/// value again, up to rounding: it is not above the value, and below it by
/// less than one point's worth of data and one unit.
pub proof fn lemma_round_trip(t: ScreenTransform, value: Value)
    requires
        t.wf(),
        t.spec_frame().spec_width() > 0,
        t.spec_frame().spec_height() > 0,
        within_bounds(t.spec_bounds(), value),
    ensures
        ({
            let back = t.spec_value_from_position(t.spec_position_from_value(value));
            &&& within_frame(t.spec_frame(), t.spec_position_from_value(value))
            &&& back.x <= value.x
            &&& back.y <= value.y
            &&& (value.x - back.x - 1) * t.spec_frame().spec_width() < t.spec_bounds().spec_width()
            &&& (value.y - back.y - 1) * t.spec_frame().spec_height()
                < t.spec_bounds().spec_height()
        }),
{
    let f = t.spec_frame();
    let b = t.spec_bounds();
    let rx = lemma_round_trip_axis(value.x - b.min[0], f.spec_width(), b.spec_width());
    let ry = lemma_round_trip_axis(value.y - b.min[1], f.spec_height(), b.spec_height());
    let p = t.spec_position_from_value(value);
    assert(p.x == f.min.x + rx.0);
    assert(p.y == f.max.y - ry.0);
}

/// The arithmetic of a zoom along one axis. `k` is the anchor's distance
/// from the near edge of a frame of the extent `screen`, `span` the extent
/// of the axis, and `num / den` the factor.
proof fn lemma_anchor_axis(k: int, screen: int, span: int, num: int, den: int) -> (r: (int, int, int))
    requires
        0 <= k <= screen,
        0 < screen,
        0 < span,
        0 < num,
        0 < den,
    ensures
        r.0 == k * span / screen,
        0 <= r.0 <= span,
        r.1 == -((-r.0) * den / num),
        r.2 == (span - r.0) * den / num,
        r.1 >= 0,
        r.2 >= 0,
        ({
            let q = r.0 * screen / span;
            0 <= q <= k && (k - q - 1) * span < screen
        }),
        r.1 + r.2 > 0 ==> ({
            let q = r.1 * screen / (r.1 + r.2);
            &&& 0 <= q <= screen
            &&& (q - k) * (r.1 + r.2) < 2 * screen
            &&& (k - q - 1) * (r.1 + r.2) * num < screen * (den + num)
        }),
{
    let a = k * span / screen;
    assert(a * screen <= k * span < (a + 1) * screen && 0 <= a) by (nonlinear_arith)
        requires
            a == k * span / screen,
            0 <= k,
            0 < screen,
            0 < span,
    ;
    assert(a <= span) by (nonlinear_arith)
        requires
            a * screen <= k * span,
            k <= screen,
            0 < span,
            0 < screen,
            0 <= a,
            0 <= k,
    ;
    let x = (-a) * den / num;
    assert(x * num <= (-a) * den < (x + 1) * num) by (nonlinear_arith)
        requires
            x == (-a) * den / num,
            0 < num,
    ;
    let l = -x;
    assert(a * den <= l * num < a * den + num) by (nonlinear_arith)
        requires
            x * num <= (-a) * den < (x + 1) * num,
            l == -x,
    ;
    assert(l >= 0) by (nonlinear_arith)
        requires
            l * num >= a * den,
            a >= 0,
            den > 0,
            num > 0,
    ;
    let r = (span - a) * den / num;
    assert(r * num <= (span - a) * den < (r + 1) * num) by (nonlinear_arith)
        requires
            r == (span - a) * den / num,
            0 < num,
    ;
    assert(r >= 0) by (nonlinear_arith)
        requires
            (span - a) * den < (r + 1) * num,
            span - a >= 0,
            den > 0,
            num > 0,
    ;
    // without the zoom
    let q0 = a * screen / span;
    assert(q0 * span <= a * screen < (q0 + 1) * span && 0 <= q0) by (nonlinear_arith)
        requires
            q0 == a * screen / span,
            0 <= a,
            0 < screen,
            0 < span,
    ;
    assert(q0 <= k) by (nonlinear_arith)
        requires
            q0 * span <= a * screen,
            a * screen <= k * span,
            0 < span,
    ;
    assert((k - q0 - 1) * span < screen) by (nonlinear_arith)
        requires
            a * screen < (q0 + 1) * span,
            k * span < (a + 1) * screen,
    ;
    // with the zoom
    if l + r > 0 {
        let w = l + r;
        let q = l * screen / w;
        assert(q * w <= l * screen < (q + 1) * w && 0 <= q) by (nonlinear_arith)
            requires
                q == l * screen / w,
                0 <= l,
                0 < screen,
                0 < w,
        ;
        assert(q <= screen) by (nonlinear_arith)
            requires
                q * w <= l * screen,
                l <= w,
                0 < w,
                0 < screen,
                0 <= q,
                0 <= l,
        ;
        assert(span * den - num < w * num < span * den + num) by (nonlinear_arith)
            requires
                w == l + r,
                a * den <= l * num < a * den + num,
                r * num <= (span - a) * den < (r + 1) * num,
        ;
        // upper side
        assert(q * w * num <= l * num * screen) by (nonlinear_arith)
            requires
                q * w <= l * screen,
                num > 0,
        ;
        assert(l * num * screen < a * den * screen + num * screen) by (nonlinear_arith)
            requires
                l * num < a * den + num,
                screen > 0,
        ;
        assert(a * den * screen <= k * span * den) by (nonlinear_arith)
            requires
                a * screen <= k * span,
                den > 0,
        ;
        assert(k * w * num >= k * span * den - k * num) by (nonlinear_arith)
            requires
                span * den - num < w * num,
                k >= 0,
        ;
        assert(k * num <= screen * num) by (nonlinear_arith)
            requires
                k <= screen,
                num > 0,
        ;
        assert((q - k) * w * num < 2 * screen * num) by (nonlinear_arith)
            requires
                q * w * num <= l * num * screen,
                l * num * screen < a * den * screen + num * screen,
                a * den * screen <= k * span * den,
                k * w * num >= k * span * den - k * num,
                k * num <= screen * num,
        ;
        assert((q - k) * w < 2 * screen) by (nonlinear_arith)
            requires
                (q - k) * w * num < 2 * screen * num,
                num > 0,
        ;
        // lower side
        assert((q + 1) * w * num > l * num * screen) by (nonlinear_arith)
            requires
                l * screen < (q + 1) * w,
                num > 0,
        ;
        assert(l * num * screen >= a * den * screen) by (nonlinear_arith)
            requires
                a * den <= l * num,
                screen > 0,
        ;
        assert(a * den * screen > k * span * den - screen * den) by (nonlinear_arith)
            requires
                k * span < (a + 1) * screen,
                den > 0,
        ;
        assert(k * w * num <= k * span * den + k * num) by (nonlinear_arith)
            requires
                w * num < span * den + num,
                k >= 0,
        ;
        assert((k - q - 1) * w * num < screen * (den + num)) by (nonlinear_arith)
            requires
                (q + 1) * w * num > l * num * screen,
                l * num * screen >= a * den * screen,
                a * den * screen > k * span * den - screen * den,
                k * w * num <= k * span * den + k * num,
                k * num <= screen * num,
        ;
    }
    (a, l, r)
}

/// A zoom keeps the value under its anchor in place, up to rounding. For an
/// anchor within the frame and positive factors: the value that was shown
/// at the anchor lies within the bounds after the zoom, and its position
/// then differs from the anchor by less than two points' worth of the new
/// scale on one side, and by less than one point and the rounding of the
/// old and the new scale on the other.
pub proof fn lemma_zoom_anchor(t: ScreenTransform, factor_x: Ratio, factor_y: Ratio, anchor: Pos2)
    requires
        t.wf(),
        factor_x.wf(),
        factor_y.wf(),
        factor_x.num() > 0,
        factor_y.num() > 0,
        t.spec_frame().spec_width() > 0,
        t.spec_frame().spec_height() > 0,
        within_frame(t.spec_frame(), anchor),
    ensures
        ({
            let value = t.spec_value_from_position(anchor);
            let zoomed = t.spec_zoomed(factor_x, factor_y, anchor);
            let pos = t.with_bounds(zoomed).spec_position_from_value(value);
            let f = t.spec_frame();
            &&& zoomed.spec_is_valid()
            &&& within_bounds(zoomed, value)
            &&& within_frame(f, pos)
            &&& (pos.x - anchor.x) * zoomed.spec_width() < 2 * f.spec_width()
            &&& (anchor.x - pos.x - 1) * zoomed.spec_width() * factor_x.num() < f.spec_width() * (
            factor_x.den() + factor_x.num())
            &&& (anchor.y - pos.y) * zoomed.spec_height() < 2 * f.spec_height()
            &&& (pos.y - anchor.y - 1) * zoomed.spec_height() * factor_y.num() < f.spec_height() * (
            factor_y.den() + factor_y.num())
        }),
{
    let f = t.spec_frame();
    let b = t.spec_bounds();
    let value = t.spec_value_from_position(anchor);
    let target = t.spec_zoom_target(factor_x, factor_y, anchor);
    let zoomed = t.spec_zoomed(factor_x, factor_y, anchor);
    let after = t.with_bounds(zoomed);
    t.lemma_with_bounds(zoomed);
    let kx = anchor.x - f.min.x;
    let ky = f.max.y - anchor.y;
    let rx = lemma_anchor_axis(kx, f.spec_width(), b.spec_width(), factor_x.num(), factor_x.den());
    let ry = lemma_anchor_axis(ky, f.spec_height(), b.spec_height(), factor_y.num(), factor_y.den());
    assert(value.x == b.min[0] + rx.0);
    assert(value.y == b.min[1] + ry.0);
    if target.spec_is_valid() {
        assert(b.min[0] - value.x == -rx.0);
        assert(b.max[0] - value.x == b.spec_width() - rx.0);
        assert(b.min[1] - value.y == -ry.0);
        assert(b.max[1] - value.y == b.spec_height() - ry.0);
        assert(target.min[0] == value.x - rx.1);
        assert(target.max[0] == value.x + rx.2);
        assert(target.min[1] == value.y - ry.1);
        assert(target.max[1] == value.y + ry.2);
        assert(zoomed == target);
        assert(zoomed.spec_width() == rx.1 + rx.2);
        assert(zoomed.spec_height() == ry.1 + ry.2);
        let pos = after.spec_position_from_value(value);
        assert(value.x - zoomed.min[0] == rx.1);
        assert(value.y - zoomed.min[1] == ry.1);
        assert(pos.x == f.min.x + rx.1 * f.spec_width() / (rx.1 + rx.2));
        assert(pos.y == f.max.y - ry.1 * f.spec_height() / (ry.1 + ry.2));
    } else {
        assert(zoomed == b);
        let pos = after.spec_position_from_value(value);
        assert(pos.x == f.min.x + rx.0 * f.spec_width() / b.spec_width());
        assert(pos.y == f.max.y - ry.0 * f.spec_height() / b.spec_height());
        let qx = rx.0 * f.spec_width() / b.spec_width();
        let qy = ry.0 * f.spec_height() / b.spec_height();
        assert((qx - kx) * b.spec_width() <= 0) by (nonlinear_arith)
            requires
                qx <= kx,
                b.spec_width() > 0,
        ;
        assert((qy - ky) * b.spec_height() <= 0) by (nonlinear_arith)
            requires
                qy <= ky,
                b.spec_height() > 0,
        ;
        assert((kx - qx - 1) * b.spec_width() * factor_x.num() < f.spec_width() * (factor_x.den()
            + factor_x.num())) by (nonlinear_arith)
            requires
                (kx - qx - 1) * b.spec_width() < f.spec_width(),
                factor_x.num() > 0,
                factor_x.den() > 0,
                f.spec_width() > 0,
        ;
        assert((ky - qy - 1) * b.spec_height() * factor_y.num() < f.spec_height() * (
        factor_y.den() + factor_y.num())) by (nonlinear_arith)
            requires
                (ky - qy - 1) * b.spec_height() < f.spec_height(),
                factor_y.num() > 0,
                factor_y.den() > 0,
                f.spec_height() > 0,
        ;
    }
}

/// The bounds of a box zoom do not depend on which two opposite corners
/// of the box are given, nor in which order, and their lower ends are not
/// above their upper ends.
pub proof fn lemma_box_bounds(t: ScreenTransform, a: Pos2, b: Pos2)
    ensures
        t.spec_box_bounds(a, b).min[0] <= t.spec_box_bounds(a, b).max[0],
        t.spec_box_bounds(a, b).min[1] <= t.spec_box_bounds(a, b).max[1],
        t.spec_box_bounds(b, a) == t.spec_box_bounds(a, b),
        t.spec_box_bounds(Pos2 { x: a.x, y: b.y }, Pos2 { x: b.x, y: a.y }) == t.spec_box_bounds(
            a,
            b,
        ),
        t.spec_box_bounds(Pos2 { x: b.x, y: a.y }, Pos2 { x: a.x, y: b.y }) == t.spec_box_bounds(
            a,
            b,
        ),
{
    let r = t.spec_box_bounds(a, b);
    t.spec_box_bounds(b, a).lemma_eq(r);
    t.spec_box_bounds(Pos2 { x: a.x, y: b.y }, Pos2 { x: b.x, y: a.y }).lemma_eq(r);
    t.spec_box_bounds(Pos2 { x: b.x, y: a.y }, Pos2 { x: a.x, y: b.y }).lemma_eq(r);
}

/// A committed box zoom replaces the bounds by those of the box and
/// switches automatic bounds off, unless the box has no valid bounds: then
/// the bounds stay and automatic bounds are switched on.
pub proof fn lemma_box_zoom_commit(
    plot: Plot,
    state: ViewState,
    last_click: Option<Pos2>,
    response: Response,
)
    requires
        plot.spec_box_commit(last_click, response),
    ensures
        ({
            let target = state.transform.spec_box_bounds(
                plot.spec_click(last_click, response).unwrap(),
                response.hover_pos.unwrap(),
            );
            let after = plot.spec_after_box_zoom(state, last_click, response);
            &&& after.auto_bounds == !target.spec_is_valid()
            &&& after.transform.spec_bounds() == if target.spec_is_valid() {
                target
            } else {
                state.transform.spec_bounds()
            }
            &&& after.transform.spec_frame() == state.transform.spec_frame()
            &&& plot.spec_click_after(last_click, response) is None
        }),
{
    let target = state.transform.spec_box_bounds(
        plot.spec_click(last_click, response).unwrap(),
        response.hover_pos.unwrap(),
    );
    state.transform.lemma_with_bounds(target);
}

/// While a box zoom is pending or dragging, it changes neither the bounds
/// nor the automatic bounds, and the plot is not panned; the place of the
/// press is kept. While nothing is dragged, neither the box zoom nor
/// panning changes anything.
pub proof fn lemma_drag_states(
    plot: Plot,
    state: ViewState,
    last_click: Option<Pos2>,
    response: Response,
)
    ensures
        ({
            let drag = plot.spec_drag_state(last_click, response);
            let boxed = plot.spec_after_box_zoom(state, last_click, response);
            &&& (drag == DragState::BoxZoomPending || drag == DragState::BoxZoomDragging) ==> {
                &&& boxed == state
                &&& plot.spec_after_pan(boxed, response) == state
                &&& plot.spec_click_after(last_click, response) == plot.spec_click(
                    last_click,
                    response,
                )
            }
            &&& drag == DragState::BoxZoomPending ==> plot.spec_click_after(last_click, response)
                == response.hover_pos
            &&& drag == DragState::Idle ==> plot.spec_after_pan(boxed, response) == state
            &&& drag == DragState::Panning ==> boxed == state && !plot.spec_after_pan(
                boxed,
                response,
            ).auto_bounds
            &&& drag == DragState::BoxZoomCommit ==> plot.spec_click_after(last_click, response)
                is None
        }),
{
}

/// A shift by no displacement leaves the bounds as they are.
pub proof fn lemma_translate_zero(t: ScreenTransform)
    requires
        t.wf(),
    ensures
        t.spec_translated(Vec2 { x: 0, y: 0 }) == t.spec_bounds(),
{
    let b = t.spec_bounds();
    let zero = Vec2 { x: 0, y: 0 };
    assert(t.spec_value_delta(zero) == (0i64, 0i64)) by {
        assert(0 * b.spec_width() == 0);
        assert(0 * b.spec_height() == 0);
        if t.spec_frame().spec_width() > 0 {
            assert(0int / t.spec_frame().spec_width() == 0) by (nonlinear_arith)
                requires
                    t.spec_frame().spec_width() > 0,
            ;
        }
        if t.spec_frame().spec_height() > 0 {
            assert(0int / t.spec_frame().spec_height() == 0) by (nonlinear_arith)
                requires
                    t.spec_frame().spec_height() > 0,
            ;
        }
    }
    b.spec_translate(0, 0).lemma_eq(b);
}

/// A scroll of zero leaves the bounds and the automatic bounds as they
/// are.
pub proof fn lemma_zero_scroll(plot: Plot, state: ViewState, response: Response, input: InputState)
    requires
        input.scroll_delta == (Vec2 { x: 0, y: 0 }),
    ensures
        plot.spec_after_scroll(state, response, input) == state,
{
}

/// In a frame without a drag, a double click, a zoom or a scroll, the view
/// is the one with which the frame starts.
pub proof fn lemma_idle_frame(
    plot: Plot,
    last: PlotBounds,
    auto_bounds: bool,
    last_click: Option<Pos2>,
    response: Response,
    input: InputState,
    fit: PlotBounds,
)
    requires
        !response.dragged,
        !response.drag_released,
        input.scroll_delta == (Vec2 { x: 0, y: 0 }),
        input.zoom_delta.num() == input.zoom_delta.den(),
        input.zoom_delta_2d.0.num() == input.zoom_delta_2d.0.den(),
        input.zoom_delta_2d.1.num() == input.zoom_delta_2d.1.den(),
    ensures
        ({
            let start = plot.spec_start(
                response.rect,
                last,
                auto_bounds,
                response.double_clicked_primary,
                fit,
            );
            let r = plot.spec_interact(last, auto_bounds, last_click, response, input, fit);
            &&& r.transform == start.transform
            &&& r.auto_bounds == start.auto_bounds
            &&& r.last_click_pos_for_zoom == last_click
            &&& r.boxed_zoom_rect is None
        }),
{
}

/// A double click switches automatic bounds on even while a link group
/// hands in bounds, and the frame still shows the bounds of the group:
/// where both axes are linked, the group's bounds are valid, no axis is
/// centered and no data aspect is set, the frame starts with exactly the
/// group's bounds, whatever the items would fit.
pub proof fn lemma_link_overrides_double_click(
    plot: Plot,
    rect: Rect,
    last: PlotBounds,
    auto_bounds: bool,
    double_clicked: bool,
    fit: PlotBounds,
)
    requires
        plot.linked_axes matches Some(g) && g.spec_link_x() && g.spec_link_y() && (
        g.spec_get() matches Some(shared) && shared.spec_is_valid()),
        !plot.center_x_axis,
        !plot.center_y_axis,
        plot.data_aspect is None,
    ensures
        plot.spec_start(rect, last, auto_bounds, double_clicked, fit).transform.spec_bounds()
            == plot.linked_axes.unwrap().spec_get().unwrap(),
        plot.spec_start(rect, last, auto_bounds, double_clicked, fit).auto_bounds == double_clicked,
{
    let g = plot.linked_axes.unwrap();
    let shared = g.spec_get().unwrap();
    let linked = plot.spec_linked_bounds(last);
    linked.lemma_eq(shared);
    plot.spec_fitted(linked, fit).lemma_eq(shared);
    ScreenTransform::lemma_spec_new(rect, shared, false, false);
}

/// Where `set_aspect` changes the bounds, it reaches the wanted aspect up
/// to rounding: the axis that is kept keeps its extent, and the other gets
/// the largest extent for which the frame's width over its height is still
/// at least the aspect times the bounds' width over their height (with
/// `preserve_y`), or at most that (without).
pub proof fn lemma_aspect_reached(t: ScreenTransform, aspect: Ratio, preserve_y: bool)
    requires
        t.wf(),
        aspect.wf(),
        aspect.num() > 0,
        t.spec_frame().spec_width() > 0,
        t.spec_frame().spec_height() > 0,
        t.spec_aspect_target(aspect, preserve_y).spec_is_valid(),
    ensures
        ({
            let f = t.spec_frame();
            let b = t.spec_bounds();
            let after = t.spec_with_aspect(aspect, preserve_y);
            &&& preserve_y ==> after.spec_height() == b.spec_height() && after.spec_width() * (
            f.spec_height() * aspect.num()) <= f.spec_width() * (b.spec_height() * aspect.den()) < (
            after.spec_width() + 1) * (f.spec_height() * aspect.num())
            &&& !preserve_y ==> after.spec_width() == b.spec_width() && after.spec_height() * (
            f.spec_width() * aspect.den()) <= f.spec_height() * (b.spec_width() * aspect.num()) < (
            after.spec_height() + 1) * (f.spec_width() * aspect.den())
        }),
{
    let f = t.spec_frame();
    let b = t.spec_bounds();
    let after = t.spec_with_aspect(aspect, preserve_y);
    assert(after == t.spec_aspect_target(aspect, preserve_y));
    if preserve_y {
        let top = (b.spec_height() * aspect.den()) * f.spec_width();
        let div = f.spec_height() * aspect.num();
        let span = top / div;
        assert(div > 0) by (nonlinear_arith)
            requires
                div == f.spec_height() * aspect.num(),
                f.spec_height() > 0,
                aspect.num() > 0,
        ;
        assert(span * div <= top < (span + 1) * div) by (nonlinear_arith)
            requires
                span == top / div,
                div > 0,
        ;
        assert(top == f.spec_width() * (b.spec_height() * aspect.den())) by (nonlinear_arith)
            requires
                top == (b.spec_height() * aspect.den()) * f.spec_width(),
        ;
        assert(after.spec_width() == span);
    } else {
        let top = (b.spec_width() * aspect.num()) * f.spec_height();
        let div = f.spec_width() * aspect.den();
        let span = top / div;
        assert(div > 0) by (nonlinear_arith)
            requires
                div == f.spec_width() * aspect.den(),
                f.spec_width() > 0,
                aspect.den() > 0,
        ;
        assert(span * div <= top < (span + 1) * div) by (nonlinear_arith)
            requires
                span == top / div,
                div > 0,
        ;
        assert(top == f.spec_height() * (b.spec_width() * aspect.num())) by (nonlinear_arith)
            requires
                top == (b.spec_width() * aspect.num()) * f.spec_height(),
        ;
        assert(after.spec_height() == span);
    }
}

} // verus!
