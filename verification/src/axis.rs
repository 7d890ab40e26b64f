//! Grid lines and axis labels: the step between two lines, where the lines
//! stand and how opaque they are.

use vstd::prelude::*;
use crate::bounds::PlotBounds;
use crate::geometry::{Pos2, Rect, Value, Vec2};
use crate::numeric::{
    clamp_i32, div_floor, lemma_remap_clamp_monotonic, mul_div_floor, remap_clamp,
    remap_clamp_spec, sat_i32,
};
use crate::transform::ScreenTransform;

verus! {

/// Two neighbouring grid lines are at least this many points apart; at this
/// distance a line is fully transparent.
pub const MIN_LINE_SPACING: u16 = 6;

/// From this distance on a grid line has its full opacity.
pub const MAX_LINE_SPACING: u16 = 300;

/// The full opacity of a grid line, in thousandths.
pub const MAX_LINE_ALPHA: u16 = 150;

/// Up to this distance between lines, labels are fully transparent.
pub const MIN_TEXT_SPACING: u16 = 40;

/// From this distance on a label has its full opacity.
pub const MAX_TEXT_SPACING: u16 = 150;

/// The full opacity of a label, in thousandths.
pub const MAX_TEXT_ALPHA: u16 = 400;

/// The largest step between two grid lines, 10^18: the step where no smaller
/// power of ten keeps the lines apart, as in a frame without extent.
pub const MAX_STEP: i64 = 1_000_000_000_000_000_000;

/// The exponent of `MAX_STEP`.
pub const MAX_STEP_EXPONENT: u32 = 18;

/// Full opacity, in thousandths.
pub const OPAQUE: u16 = 1000;

/// 10 to the power of `k`.
pub open spec fn pow10(k: nat) -> int
    decreases k,
{
    if k == 0 {
        1
    } else {
        10 * pow10((k - 1) as nat)
    }
}

/// The extent of the frame along an axis (0 is x, 1 is y).
pub open spec fn frame_extent(frame: Rect, axis: int) -> int {
    if axis == 0 {
        frame.spec_width()
    } else {
        frame.spec_height()
    }
}

/// Whether grid lines `step` apart in data space are at least
/// `MIN_LINE_SPACING` points apart on a screen of the extent `screen` that
/// shows the data extent `span`.
pub open spec fn step_is_wide_enough(step: int, screen: int, span: int) -> bool {
    step * screen >= MIN_LINE_SPACING * span
}

/// The smallest exponent from `k` on, and at most 18, whose power of ten is
/// a wide enough step; 18 if there is none.
pub open spec fn step_exponent_from(k: nat, screen: int, span: int) -> nat
    decreases 18 - k,
{
    if k >= 18 || step_is_wide_enough(pow10(k), screen, span) {
        k
    } else {
        step_exponent_from(k + 1, screen, span)
    }
}

/// The step between two grid lines: the smallest power of ten that keeps
/// them `MIN_LINE_SPACING` points apart, and `MAX_STEP` at most.
pub open spec fn spec_tick_step(screen: int, span: int) -> int {
    pow10(step_exponent_from(0, screen, span))
}

/// The distance in points between two grid lines that are `step` apart in
/// data space; zero on a screen without positive extent.
pub open spec fn base_spacing(step: int, screen: int, span: int) -> int {
    if screen > 0 {
        step * screen / span
    } else {
        0
    }
}

/// How much further apart the lines of the tier of `n` are than those of
/// the finest tier: the line at a multiple of 100 steps is a thick one, at a
/// multiple of 10 a medium one, any other a thin one.
pub open spec fn tier_factor(n: int) -> int {
    if n % 100 == 0 {
        100
    } else if n % 10 == 0 {
        10
    } else {
        1
    }
}

/// The opacity of a grid line whose tier is `spacing` points apart.
pub open spec fn spec_line_alpha(spacing: int) -> int {
    remap_clamp_spec(
        spacing,
        MIN_LINE_SPACING as int,
        MAX_LINE_SPACING as int,
        0,
        MAX_LINE_ALPHA as int,
    )
}

/// The opacity of a label on a grid line whose tier is `spacing` points
/// apart.
pub open spec fn spec_text_alpha(spacing: int) -> int {
    remap_clamp_spec(
        spacing,
        MIN_TEXT_SPACING as int,
        MAX_TEXT_SPACING as int,
        0,
        MAX_TEXT_ALPHA as int,
    )
}

/// The value on the other axis at which labels stand: zero, clamped to the
/// bounds of that axis.
pub open spec fn cross_value(bounds: PlotBounds, axis: int) -> i64 {
    let lo = bounds.min[1 - axis];
    let hi = bounds.max[1 - axis];
    if 0 < lo {
        lo
    } else if hi < 0 {
        hi
    } else {
        0
    }
}

/// One grid line of an axis.
#[derive(Clone, Copy, Debug, PartialEq, Eq, Structural)]
pub struct GridLine {
    /// The data value on the axis at which the line stands.
    pub value: i64,
    /// Where the label of the line is anchored.
    pub position: Pos2,
    /// One end of the line, on the near edge of the frame.
    pub start: Pos2,
    /// The other end, on the far edge of the frame.
    pub end: Pos2,
    /// The opacity of the line in thousandths, never zero.
    pub line_alpha: u16,
    /// The opacity of the label in thousandths; zero for no label.
    pub text_alpha: u16,
}

impl GridLine {
    /// Whether the line gets a label: its label is not fully transparent
    /// and the text for it is not empty. An empty text leaves out the label
    /// and keeps the line.
    pub fn has_label(&self, text: &str) -> (r: bool)
        ensures
            r == (self.text_alpha > 0 && text@.len() > 0),
    {
        self.text_alpha > 0 && !text.is_empty()
    }
}

/// The number of the first candidate line: the last multiple of `step` that
/// is not above the lower end of the axis, counted in steps.
pub open spec fn first_index(bounds: PlotBounds, axis: int, step: int) -> int {
    (bounds.min[axis] as int) / step
}

/// How many candidate lines an axis has: the multiples of `step` from the
/// first one up to the upper end of the axis.
pub open spec fn candidate_count(bounds: PlotBounds, axis: int, step: int) -> nat {
    let above = (bounds.max[axis] - first_index(bounds, axis, step) * step) / step;
    if above >= 0 {
        (above + 1) as nat
    } else {
        0
    }
}

/// How many points apart the lines of the tier of the `i`-th candidate
/// line are.
pub open spec fn candidate_spacing(t: ScreenTransform, axis: int, step: int, i: int) -> int {
    base_spacing(step, frame_extent(t.spec_frame(), axis), t.spec_bounds().spec_span(axis))
        * tier_factor(first_index(t.spec_bounds(), axis, step) + i)
}

/// The `i`-th candidate line of an axis.
pub open spec fn candidate(t: ScreenTransform, axis: int, step: int, i: int) -> GridLine {
    let b = t.spec_bounds();
    let f = t.spec_frame();
    let n = first_index(b, axis, step) + i;
    let main = (n * step) as i64;
    let cross = cross_value(b, axis);
    let position = t.spec_position_from_value(
        if axis == 0 {
            Value { x: main, y: cross }
        } else {
            Value { x: cross, y: main }
        },
    );
    let spacing = candidate_spacing(t, axis, step, i);
    GridLine {
        value: main,
        position,
        start: if axis == 0 {
            Pos2 { x: position.x, y: f.min.y }
        } else {
            Pos2 { x: f.min.x, y: position.y }
        },
        end: if axis == 0 {
            Pos2 { x: position.x, y: f.max.y }
        } else {
            Pos2 { x: f.max.x, y: position.y }
        },
        line_alpha: spec_line_alpha(spacing) as u16,
        text_alpha: spec_text_alpha(spacing) as u16,
    }
}

/// The first `count` candidate lines of an axis, in rising order of their
/// value.
pub open spec fn first_candidates(t: ScreenTransform, axis: int, step: int, count: nat) -> Seq<
    GridLine,
> {
    Seq::new(count, |i: int| candidate(t, axis, step, i))
}

/// All candidate lines of an axis, in rising order of their value.
pub open spec fn candidates(t: ScreenTransform, axis: int, step: int) -> Seq<GridLine> {
    first_candidates(t, axis, step, candidate_count(t.spec_bounds(), axis, step))
}

/// The lines among `lines` that are not fully transparent, in their order.
pub open spec fn visible(lines: Seq<GridLine>) -> Seq<GridLine> {
    lines.filter(|g: GridLine| g.line_alpha > 0)
}

/// The grid lines of an axis: the candidates that are not fully transparent.
pub open spec fn spec_grid_lines(t: ScreenTransform, axis: int) -> Seq<GridLine> {
    let step = spec_tick_step(
        frame_extent(t.spec_frame(), axis),
        t.spec_bounds().spec_span(axis),
    );
    visible(candidates(t, axis, step))
}

/// Where the top-left corner of a label goes: one point right of the anchor
/// and above it, then moved along the other axis so that the label stays
/// inside the frame, two points from its far edge and one from its near
/// edge; the near edge wins.
pub open spec fn spec_label_position(anchor: Pos2, size: Vec2, axis: int, frame: Rect) -> Pos2 {
    let x = anchor.x + 1;
    let y = anchor.y - size.y;
    if axis == 0 {
        let hi = frame.max.y - size.y - 2;
        let lo = frame.min.y + 1;
        let y1 = if y > hi { hi } else { y };
        Pos2 { x: sat_i32(x), y: sat_i32(if y1 < lo { lo } else { y1 }) }
    } else {
        let hi = frame.max.x - size.x - 2;
        let lo = frame.min.x + 1;
        let x1 = if x > hi { hi } else { x };
        Pos2 { x: sat_i32(if x1 < lo { lo } else { x1 }), y: sat_i32(y) }
    }
}

/// The opacity with which a line or label of the opacity `alpha` is drawn:
/// unchanged on a dark background, four times as much and at most fully
/// opaque on a light one.
pub open spec fn spec_shade_alpha(dark_mode: bool, alpha: u16) -> int {
    if dark_mode {
        alpha as int
    } else if 4 * alpha > OPAQUE {
        OPAQUE as int
    } else {
        4 * alpha
    }
}

/// The powers of ten grow.
pub proof fn lemma_pow10_monotonic(j: nat, k: nat)
    requires
        j <= k,
    ensures
        1 <= pow10(j) <= pow10(k),
    decreases k,
{
    if k == 0 {
    } else if j == k {
        lemma_pow10_monotonic((k - 1) as nat, (k - 1) as nat);
    } else {
        lemma_pow10_monotonic(j, (k - 1) as nat);
    }
}

/// 10^18 is `MAX_STEP`.
pub proof fn lemma_pow10_max()
    ensures
        pow10(18) == MAX_STEP,
{
    reveal_with_fuel(pow10, 20);
}

/// The step's exponent is the smallest one whose power of ten is wide
/// enough, among those from `k` to 18.
pub proof fn lemma_step_exponent_from(k: nat, screen: int, span: int)
    requires
        k <= 18,
    ensures
        k <= step_exponent_from(k, screen, span) <= 18,
        step_exponent_from(k, screen, span) < 18 ==> step_is_wide_enough(
            pow10(step_exponent_from(k, screen, span)),
            screen,
            span,
        ),
        forall|j: nat|
            k <= j < step_exponent_from(k, screen, span) ==> !step_is_wide_enough(
                #[trigger] pow10(j),
                screen,
                span,
            ),
    decreases 18 - k,
{
    if k >= 18 || step_is_wide_enough(pow10(k), screen, span) {
    } else {
        lemma_step_exponent_from(k + 1, screen, span);
    }
}

/// The step is a power of ten between 1 and `MAX_STEP`. Below `MAX_STEP` it
/// keeps the lines `MIN_LINE_SPACING` points apart, and no smaller power of
/// ten does.
pub proof fn lemma_tick_step(screen: int, span: int)
    ensures
        1 <= spec_tick_step(screen, span) <= MAX_STEP,
        spec_tick_step(screen, span) < MAX_STEP ==> step_is_wide_enough(
            spec_tick_step(screen, span),
            screen,
            span,
        ),
        forall|j: nat|
            pow10(j) < spec_tick_step(screen, span) ==> !step_is_wide_enough(
                #[trigger] pow10(j),
                screen,
                span,
            ),
{
    let k = step_exponent_from(0, screen, span);
    lemma_step_exponent_from(0, screen, span);
    lemma_pow10_max();
    lemma_pow10_monotonic(k, 18);
    assert forall|j: nat| pow10(j) < spec_tick_step(screen, span) implies !step_is_wide_enough(
        #[trigger] pow10(j),
        screen,
        span,
    ) by {
        if j >= k {
            lemma_pow10_monotonic(k, j);
        }
    }
}

/// A grid line is the more opaque, the further apart the lines of its tier
/// are, and so is its label.
pub proof fn lemma_alpha_monotonic(spacing1: int, spacing2: int)
    requires
        spacing1 <= spacing2,
    ensures
        0 <= spec_line_alpha(spacing1) <= spec_line_alpha(spacing2) <= MAX_LINE_ALPHA,
        0 <= spec_text_alpha(spacing1) <= spec_text_alpha(spacing2) <= MAX_TEXT_ALPHA,
{
    lemma_remap_clamp_monotonic(
        spacing1,
        spacing2,
        MIN_LINE_SPACING as int,
        MAX_LINE_SPACING as int,
        0,
        MAX_LINE_ALPHA as int,
    );
    lemma_remap_clamp_monotonic(
        spacing2,
        spacing2,
        MIN_LINE_SPACING as int,
        MAX_LINE_SPACING as int,
        0,
        MAX_LINE_ALPHA as int,
    );
    lemma_remap_clamp_monotonic(
        spacing1,
        spacing2,
        MIN_TEXT_SPACING as int,
        MAX_TEXT_SPACING as int,
        0,
        MAX_TEXT_ALPHA as int,
    );
    lemma_remap_clamp_monotonic(
        spacing2,
        spacing2,
        MIN_TEXT_SPACING as int,
        MAX_TEXT_SPACING as int,
        0,
        MAX_TEXT_ALPHA as int,
    );
}

/// A line that is not fully transparent belongs to a tier whose lines are
/// more than `MIN_LINE_SPACING` points apart, and one with a visible label
/// to a tier more than `MIN_TEXT_SPACING` points apart.
pub proof fn lemma_visible_spacing(spacing: int)
    ensures
        spec_line_alpha(spacing) > 0 ==> spacing > MIN_LINE_SPACING,
        spec_text_alpha(spacing) > 0 ==> spacing > MIN_TEXT_SPACING,
        spec_text_alpha(spacing) > 0 ==> spec_line_alpha(spacing) > 0,
{
    if spec_text_alpha(spacing) > 0 {
        assert(spacing > 40);
        if spacing < 300 {
            assert((spacing - 6) * 150 / 294 >= 1) by (nonlinear_arith)
                requires
                    40 < spacing < 300,
            ;
        }
    }
}

/// What one more line adds to the visible ones.
pub proof fn lemma_visible_push(lines: Seq<GridLine>, line: GridLine)
    ensures
        visible(lines.push(line)) == if line.line_alpha > 0 {
            visible(lines).push(line)
        } else {
            visible(lines)
        },
        visible(Seq::<GridLine>::empty()) == Seq::<GridLine>::empty(),
{
    reveal(Seq::filter);
    assert(lines.push(line).drop_last() =~= lines);
    assert(lines.push(line).last() == line);
}

/// Every grid line of an axis is a candidate that is not fully transparent.
pub proof fn lemma_grid_lines_visible(t: ScreenTransform, axis: int)
    ensures
        forall|j: int|
            0 <= j < spec_grid_lines(t, axis).len() ==> (#[trigger] spec_grid_lines(
                t,
                axis,
            )[j]).line_alpha > 0,
{
    let step = spec_tick_step(
        frame_extent(t.spec_frame(), axis),
        t.spec_bounds().spec_span(axis),
    );
    broadcast use vstd::seq_lib::group_filter_ensures;

}

/// A line among the visible ones is one of the lines, and not fully
/// transparent.
pub proof fn lemma_visible_contains(lines: Seq<GridLine>, line: GridLine)
    requires
        visible(lines).contains(line),
    ensures
        lines.contains(line),
        line.line_alpha > 0,
    decreases lines.len(),
{
    reveal(Seq::filter);
    if lines.len() > 0 {
        let rest = lines.drop_last();
        let last = lines.last();
        let j = choose|j: int| 0 <= j < visible(lines).len() && visible(lines)[j] == line;
        if last.line_alpha > 0 && j == visible(rest).len() {
            assert(lines[lines.len() - 1] == line);
        } else {
            assert(visible(rest)[j] == line);
            lemma_visible_contains(rest, line);
            let k = choose|k: int| 0 <= k < rest.len() && rest[k] == line;
            assert(lines[k] == line);
        }
    }
}

/// Every grid line of an axis is one of its candidates, and belongs to a
/// tier whose lines are more than `MIN_LINE_SPACING` points apart.
pub proof fn lemma_grid_line_spacing(t: ScreenTransform, axis: int, j: int)
    requires
        0 <= j < spec_grid_lines(t, axis).len(),
    ensures
        ({
            let step = spec_tick_step(
                frame_extent(t.spec_frame(), axis),
                t.spec_bounds().spec_span(axis),
            );
            exists|i: int|
                0 <= i < candidate_count(t.spec_bounds(), axis, step) && spec_grid_lines(t, axis)[j]
                    == #[trigger] candidate(t, axis, step, i) && candidate_spacing(t, axis, step, i)
                    > MIN_LINE_SPACING
        }),
{
    let step = spec_tick_step(
        frame_extent(t.spec_frame(), axis),
        t.spec_bounds().spec_span(axis),
    );
    let all = candidates(t, axis, step);
    let line = spec_grid_lines(t, axis)[j];
    assert(visible(all).contains(line));
    lemma_visible_contains(all, line);
    let i = choose|i: int| 0 <= i < all.len() && all[i] == line;
    assert(all[i] == candidate(t, axis, step, i));
    lemma_visible_spacing(candidate_spacing(t, axis, step, i));
    assert(line.line_alpha == spec_line_alpha(candidate_spacing(t, axis, step, i)) as u16);
    lemma_alpha_monotonic(candidate_spacing(t, axis, step, i), candidate_spacing(t, axis, step, i));
    assert(all.len() == candidate_count(t.spec_bounds(), axis, step));
    assert(0 <= i < candidate_count(t.spec_bounds(), axis, step));
    assert(spec_line_alpha(candidate_spacing(t, axis, step, i)) > 0);
    assert(candidate_spacing(t, axis, step, i) > MIN_LINE_SPACING);
    assert(spec_grid_lines(t, axis)[j] == candidate(t, axis, step, i));
}

fn wide_enough(step: i64, screen: i128, span: i128) -> (r: bool)
    requires
        1 <= step <= MAX_STEP,
        -0x1_0000_0000 <= screen <= 0x1_0000_0000,
        0 < span <= 0x20_0000_0000_0000,
    ensures
        r == step_is_wide_enough(step as int, screen as int, span as int),
{
    assert(-1_000_000_000_000_000_000 * 0x1_0000_0000 <= step * screen
        <= 1_000_000_000_000_000_000 * 0x1_0000_0000) by (nonlinear_arith)
        requires
            1 <= step <= 1_000_000_000_000_000_000,
            -0x1_0000_0000 <= screen <= 0x1_0000_0000,
    ;
    let least: i128 = MIN_LINE_SPACING as i128;
    assert(0 <= least * span <= 6 * 0x20_0000_0000_0000) by (nonlinear_arith)
        requires
            least == 6,
            0 < span <= 0x20_0000_0000_0000,
    ;
    let need: i128 = least * span;
    step as i128 * screen >= need
}

fn extent_of(frame: &Rect, axis: usize) -> (r: i128)
    ensures
        r == frame_extent(*frame, axis as int),
        -0x1_0000_0000 <= r <= 0x1_0000_0000,
{
    if axis == 0 {
        frame.width() as i128
    } else {
        frame.height() as i128
    }
}

/// The step in data space between two grid lines of an axis: the smallest
/// power of ten that keeps the lines `MIN_LINE_SPACING` points apart, and
/// `MAX_STEP` at most.
pub fn tick_step(transform: &ScreenTransform, axis: usize) -> (step: i64)
    requires
        axis < 2,
    ensures
        step == spec_tick_step(
            frame_extent(transform.spec_frame(), axis as int),
            transform.spec_bounds().spec_span(axis as int),
        ),
        1 <= step <= MAX_STEP,
{
    proof {
        use_type_invariant(transform);
    }
    let screen: i128 = extent_of(transform.frame(), axis);
    let span: i128 = transform.bounds().span(axis);
    let mut step: i64 = 1;
    let mut k: u32 = 0;
    let mut enough: bool = wide_enough(step, screen, span);
    proof {
        lemma_pow10_max();
        lemma_pow10_monotonic(0, 18);
    }
    while k < MAX_STEP_EXPONENT && !enough
        invariant
            k <= 18,
            step == pow10(k as nat),
            1 <= step <= MAX_STEP,
            enough == step_is_wide_enough(step as int, screen as int, span as int),
            step_exponent_from(k as nat, screen as int, span as int) == step_exponent_from(
                0,
                screen as int,
                span as int,
            ),
            -0x1_0000_0000 <= screen <= 0x1_0000_0000,
            0 < span <= 0x20_0000_0000_0000,
        decreases 18 - k,
    {
        proof {
            lemma_pow10_monotonic((k + 1) as nat, 18);
            lemma_pow10_max();
        }
        step = step * 10;
        k = k + 1;
        enough = wide_enough(step, screen, span);
    }
    step
}

fn tier_of(n: i128) -> (r: i128)
    requires
        -0x1000_0000_0000_0000 <= n <= 0x1000_0000_0000_0000,
    ensures
        r == tier_factor(n as int),
{
    let q100: i128 = div_floor(n, 100);
    let q10: i128 = div_floor(n, 10);
    if n - 100 * q100 == 0 {
        100
    } else if n - 10 * q10 == 0 {
        10
    } else {
        1
    }
}

fn cross_of(bounds: &PlotBounds, axis: usize) -> (r: i64)
    requires
        axis < 2,
    ensures
        r == cross_value(*bounds, axis as int),
{
    let lo: i64 = bounds.min[1 - axis];
    let hi: i64 = bounds.max[1 - axis];
    if 0 < lo {
        lo
    } else if hi < 0 {
        hi
    } else {
        0
    }
}

/// The grid lines of an axis (0 is x, 1 is y), in rising order of their
/// value: one at each multiple of the step from the last one that is not
/// above the lower end of the axis up to the upper end, left out where it
/// would be fully transparent.
pub fn grid_lines(transform: &ScreenTransform, axis: usize) -> (lines: Vec<GridLine>)
    requires
        axis < 2,
    ensures
        lines@ == spec_grid_lines(*transform, axis as int),
{
    proof {
        use_type_invariant(transform);
    }
    let step: i64 = tick_step(transform, axis);
    let frame: Rect = *transform.frame();
    let bounds: PlotBounds = *transform.bounds();
    let screen: i128 = extent_of(&frame, axis);
    let span: i128 = bounds.span(axis);
    let lo: i64 = bounds.min[axis];
    let hi: i64 = bounds.max[axis];
    let n0: i128 = div_floor(lo as i128, step as i128);
    let base: i128 = if screen > 0 {
        mul_div_floor(step as i128, screen, span)
    } else {
        0
    };
    let cross: i64 = cross_of(&bounds, axis);
    assert(lo - step < n0 * step <= lo) by (nonlinear_arith)
        requires
            n0 == lo as int / step as int,
            step > 0,
    ;
    let ghost count: int = (hi - n0 * step) / (step as int) + 1;
    assert(count == candidate_count(bounds, axis as int, step as int)) by (nonlinear_arith)
        requires
            count == (hi - n0 * step) / (step as int) + 1,
            hi - n0 * step >= 0,
            step > 0,
            candidate_count(bounds, axis as int, step as int) == if (hi - n0 * step) / (
            step as int) >= 0 {
                ((hi - n0 * step) / (step as int) + 1) as nat
            } else {
                0
            },
    ;
    let mut lines: Vec<GridLine> = Vec::new();
    let mut n: i128 = n0;
    let mut main: i128 = n0 * step as i128;
    proof {
        lemma_visible_push(Seq::empty(), candidate(*transform, axis as int, step as int, 0));
        assert(first_candidates(*transform, axis as int, step as int, 0) =~= Seq::empty());
    }
    while main <= hi as i128
        invariant
            transform.wf(),
            axis < 2,
            frame == transform.spec_frame(),
            bounds == transform.spec_bounds(),
            1 <= step <= MAX_STEP,
            screen == frame_extent(frame, axis as int),
            span == bounds.spec_span(axis as int),
            0 < span <= 0x20_0000_0000_0000,
            hi == bounds.max[axis as int],
            lo == bounds.min[axis as int],
            -0x10_0000_0000_0000 <= lo < hi <= 0x10_0000_0000_0000,
            n0 == first_index(bounds, axis as int, step as int),
            lo - step < n0 * step <= lo,
            base == base_spacing(step as int, screen as int, span as int),
            0 <= base <= 0x4000_0000_0000_0000_0000_0000_0000_0000,
            screen > 0 ==> base <= step * screen,
            -0x1_0000_0000 <= screen <= 0x1_0000_0000,
            cross == cross_value(bounds, axis as int),
            count == (hi - n0 * step) / (step as int) + 1,
            n >= n0,
            main == n * step,
            lo - step < main <= hi + step,
            n == n0 || main - step <= hi,
            lines@ == visible(
                first_candidates(*transform, axis as int, step as int, (n - n0) as nat),
            ),
        decreases hi + step - main,
    {
        let ghost i: int = n - n0;
        assert(-0x1000_0000_0000_0000 <= n <= 0x1000_0000_0000_0000) by (nonlinear_arith)
            requires
                main == n * step,
                step >= 1,
                -0x1000_0000_0000_0000 <= main <= 0x1000_0000_0000_0000,
        ;
        let factor: i128 = tier_of(n);
        assert(0 <= base * factor <= base * 100) by (nonlinear_arith)
            requires
                base >= 0,
                1 <= factor <= 100,
        ;
        assert(base <= 1_000_000_000_000_000_000 * 0x1_0000_0000) by (nonlinear_arith)
            requires
                screen > 0 ==> base <= step * screen,
                base >= 0,
                screen <= 0 ==> base == 0,
                1 <= step <= 1_000_000_000_000_000_000,
                screen <= 0x1_0000_0000,
        ;
        let spacing: i128 = base * factor;
        let line_alpha: u16 = remap_clamp(
            spacing,
            MIN_LINE_SPACING,
            MAX_LINE_SPACING,
            0,
            MAX_LINE_ALPHA,
        );
        let text_alpha: u16 = remap_clamp(
            spacing,
            MIN_TEXT_SPACING,
            MAX_TEXT_SPACING,
            0,
            MAX_TEXT_ALPHA,
        );
        let value: Value = if axis == 0 {
            Value { x: main as i64, y: cross }
        } else {
            Value { x: cross, y: main as i64 }
        };
        let position: Pos2 = transform.position_from_value(&value);
        let line = GridLine {
            value: main as i64,
            position,
            start: if axis == 0 {
                Pos2 { x: position.x, y: frame.min.y }
            } else {
                Pos2 { x: frame.min.x, y: position.y }
            },
            end: if axis == 0 {
                Pos2 { x: position.x, y: frame.max.y }
            } else {
                Pos2 { x: frame.max.x, y: position.y }
            },
            line_alpha,
            text_alpha,
        };
        proof {
            assert(line == candidate(*transform, axis as int, step as int, i));
            let before = first_candidates(*transform, axis as int, step as int, i as nat);
            let after = first_candidates(*transform, axis as int, step as int, (i + 1) as nat);
            assert(after =~= before.push(line));
            lemma_visible_push(before, line);
        }
        if line_alpha > 0 {
            lines.push(line);
        }
        n = n + 1;
        main = main + step as i128;
        assert(main == n * step) by (nonlinear_arith)
            requires
                main - step == (n - 1) * step,
        ;
    }
    proof {
        let d: int = hi - n0 * step;
        let m: int = n - n0;
        assert(m == d / (step as int) + 1) by (nonlinear_arith)
            requires
                step > 0,
                m >= 0,
                main == (n0 + m) * step,
                main > hi,
                m == 0 || main - step <= hi,
                d == hi - n0 * step,
                d >= 0,
        ;
    }
    lines
}

/// Where the top-left corner of a label of the given size goes, for the
/// grid line anchored at `anchor`.
pub fn label_position(anchor: Pos2, size: Vec2, axis: usize, frame: &Rect) -> (r: Pos2)
    ensures
        r == spec_label_position(anchor, size, axis as int, *frame),
{
    let x: i128 = anchor.x as i128 + 1;
    let y: i128 = anchor.y as i128 - size.y as i128;
    if axis == 0 {
        let hi: i128 = frame.max.y as i128 - size.y as i128 - 2;
        let lo: i128 = frame.min.y as i128 + 1;
        let y1: i128 = if y > hi { hi } else { y };
        Pos2 { x: clamp_i32(x), y: clamp_i32(if y1 < lo { lo } else { y1 }) }
    } else {
        let hi: i128 = frame.max.x as i128 - size.x as i128 - 2;
        let lo: i128 = frame.min.x as i128 + 1;
        let x1: i128 = if x > hi { hi } else { x };
        Pos2 { x: clamp_i32(if x1 < lo { lo } else { x1 }), y: clamp_i32(y) }
    }
}

/// The opacity, in thousandths, with which a line or label of the opacity
/// `alpha` is drawn on a dark or a light background.
pub fn shade_alpha(dark_mode: bool, alpha: u16) -> (r: u16)
    ensures
        r == spec_shade_alpha(dark_mode, alpha),
{
    if dark_mode {
        alpha
    } else if alpha > OPAQUE / 4 {
        OPAQUE
    } else {
        4 * alpha
    }
}

} // verus!
