use plot::bounds::{PlotBounds, COORD_LIMIT};
use plot::geometry::{Pos2, Rect, Value, Vec2};
use plot::numeric::{clamp_i32, clamp_i64, div_floor, mul_div_floor, remap_clamp, Ratio};
use plot::transform::ScreenTransform;

fn b(min: [i64; 2], max: [i64; 2]) -> PlotBounds {
    PlotBounds::from_min_max(min, max)
}

fn frame100() -> Rect {
    Rect::from_min_max(Pos2::new(0, 0), Pos2::new(100, 100))
}

fn t(bounds: PlotBounds) -> ScreenTransform {
    ScreenTransform::new(frame100(), bounds, false, false)
}

#[test]
fn floor_division() {
    assert_eq!(div_floor(7, 2), 3);
    assert_eq!(div_floor(-7, 2), -4);
    assert_eq!(div_floor(-8, 2), -4);
    assert_eq!(div_floor(0, 5), 0);
    assert_eq!(div_floor(-1, 5), -1);
    assert_eq!(mul_div_floor(-7, 3, 2), -11);
    assert_eq!(mul_div_floor(7, -3, 2), -11);
    assert_eq!(mul_div_floor(7, 3, 2), 10);
    assert_eq!(clamp_i64(i64::MAX as i128 + 1), i64::MAX);
    assert_eq!(clamp_i64(i64::MIN as i128 - 1), i64::MIN);
    assert_eq!(clamp_i64(-5), -5);
    assert_eq!(clamp_i32(i32::MAX as i128 + 1), i32::MAX);
    assert_eq!(clamp_i32(i32::MIN as i128 - 1), i32::MIN);
    assert_eq!(clamp_i32(9), 9);
}

#[test]
fn remap_clamp_values() {
    assert_eq!(remap_clamp(6, 6, 300, 0, 150), 0);
    assert_eq!(remap_clamp(-1000, 6, 300, 0, 150), 0);
    assert_eq!(remap_clamp(300, 6, 300, 0, 150), 150);
    assert_eq!(remap_clamp(1 << 100, 6, 300, 0, 150), 150);
    assert_eq!(remap_clamp(153, 6, 300, 0, 150), 75);
    assert_eq!(remap_clamp(100, 6, 300, 0, 150), 47);
    assert_eq!(remap_clamp(7, 6, 300, 0, 150), 0);
    assert_eq!(remap_clamp(8, 6, 300, 0, 150), 1);
    assert_eq!(remap_clamp(50, 40, 150, 10, 400), 45);
}

#[test]
fn remap_clamp_never_falls() {
    let mut last = 0;
    for x in 0..400 {
        let a = remap_clamp(x, 6, 300, 0, 150);
        assert!(a >= last);
        assert!(a <= 150);
        last = a;
    }
    assert_eq!(last, 150);
}

#[test]
fn new_keeps_valid_bounds() {
    let tr = t(b([0, 0], [10, 10]));
    assert_eq!(*tr.bounds(), b([0, 0], [10, 10]));
    assert_eq!(*tr.frame(), frame100());
}

#[test]
fn new_replaces_bounds_that_are_not_valid() {
    assert_eq!(*t(PlotBounds::nothing()).bounds(), b([-1, -1], [1, 1]));
    assert_eq!(*t(b([0, 0], [0, 10])).bounds(), b([-1, -1], [1, 1]));
    assert_eq!(*t(b([0, 0], [COORD_LIMIT + 1, 10])).bounds(), b([-1, -1], [1, 1]));
}

#[test]
fn new_centers_an_axis() {
    let tr = ScreenTransform::new(frame100(), b([-2, 1], [6, 3]), true, false);
    assert_eq!(*tr.bounds(), b([-6, 1], [6, 3]));
    assert_eq!(tr.position_from_value(&Value::new(0, 1)), Pos2::new(50, 100));
    let tr = ScreenTransform::new(frame100(), b([-2, 1], [6, 3]), false, true);
    assert_eq!(*tr.bounds(), b([-2, -3], [6, 3]));
    let tr = ScreenTransform::new(frame100(), b([-2, 1], [6, 3]), true, true);
    assert_eq!(*tr.bounds(), b([-6, -3], [6, 3]));
    assert_eq!(tr.position_from_value(&Value::new(0, 0)), Pos2::new(50, 50));
}

#[test]
fn position_from_value_flips_y() {
    let tr = t(b([0, 0], [10, 10]));
    assert_eq!(tr.position_from_value(&Value::new(2, 7)), Pos2::new(20, 30));
    assert_eq!(tr.position_from_value(&Value::new(0, 0)), Pos2::new(0, 100));
    assert_eq!(tr.position_from_value(&Value::new(10, 10)), Pos2::new(100, 0));
    assert_eq!(tr.position_from_value(&Value::new(-1, 11)), Pos2::new(-10, -10));
}

#[test]
fn position_from_value_rounds_down_and_clamps() {
    let tr = t(b([0, 0], [3, 3]));
    assert_eq!(tr.position_from_value(&Value::new(1, 1)), Pos2::new(33, 67));
    assert_eq!(tr.position_from_value(&Value::new(-1, -1)), Pos2::new(-34, 134));
    assert_eq!(
        tr.position_from_value(&Value::new(i64::MAX, i64::MIN)),
        Pos2::new(i32::MAX, i32::MAX)
    );
}

#[test]
fn value_from_position_is_the_inverse_on_the_grid() {
    let tr = t(b([0, 0], [10, 10]));
    assert_eq!(tr.value_from_position(Pos2::new(20, 30)), Value::new(2, 7));
    assert_eq!(tr.value_from_position(Pos2::new(80, 70)), Value::new(8, 3));
    assert_eq!(tr.value_from_position(Pos2::new(25, 30)), Value::new(2, 7));
    assert_eq!(tr.value_from_position(Pos2::new(-5, 105)), Value::new(-1, -1));
}

#[test]
fn value_from_position_in_a_frame_without_extent() {
    let frame = Rect::from_min_max(Pos2::new(10, 10), Pos2::new(10, 5));
    let tr = ScreenTransform::new(frame, b([2, 3], [10, 10]), false, false);
    assert_eq!(tr.value_from_position(Pos2::new(50, 50)), Value::new(2, 3));
    assert_eq!(tr.value_delta(Vec2::new(5, 5)), (0, 0));
}

#[test]
fn round_trip_stays_within_one_point() {
    let tr = t(b([0, 0], [1000, 250]));
    for x in [0i64, 1, 9, 10, 499, 500, 777, 999, 1000] {
        for y in [0i64, 1, 2, 3, 100, 249, 250] {
            let v = Value::new(x, y);
            let back = tr.value_from_position(tr.position_from_value(&v));
            assert!(back.x <= v.x && back.y <= v.y);
            assert!((v.x - back.x - 1) * 100 < 1000);
            assert!((v.y - back.y - 1) * 100 < 250);
        }
    }
    let exact = t(b([0, 0], [10, 10]));
    for x in 0..=10 {
        let v = Value::new(x, 10 - x);
        assert_eq!(exact.value_from_position(exact.position_from_value(&v)), v);
    }
}

#[test]
fn zoom_keeps_the_anchor() {
    let mut tr = t(b([0, 0], [1000, 1000]));
    let anchor = Pos2::new(50, 50);
    let value = tr.value_from_position(anchor);
    assert_eq!(value, Value::new(500, 500));
    tr.zoom(Ratio::new(2, 1).unwrap(), Ratio::new(2, 1).unwrap(), anchor);
    assert_eq!(*tr.bounds(), b([250, 250], [750, 750]));
    assert_eq!(tr.position_from_value(&value), anchor);
}

#[test]
fn zoom_keeps_an_anchor_off_the_middle() {
    let mut tr = t(b([0, 0], [1000, 1000]));
    let anchor = Pos2::new(20, 90);
    let value = tr.value_from_position(anchor);
    assert_eq!(value, Value::new(200, 100));
    tr.zoom(Ratio::new(4, 1).unwrap(), Ratio::new(1, 2).unwrap(), anchor);
    assert_eq!(*tr.bounds(), b([150, -100], [400, 1900]));
    assert_eq!(tr.position_from_value(&value), anchor);
}

#[test]
fn zoom_rounds_within_its_tolerance() {
    let mut tr = t(b([0, 0], [10, 10]));
    let anchor = Pos2::new(50, 50);
    let value = tr.value_from_position(anchor);
    tr.zoom(Ratio::new(2, 1).unwrap(), Ratio::new(2, 1).unwrap(), anchor);
    assert_eq!(*tr.bounds(), b([2, 2], [7, 7]));
    let pos = tr.position_from_value(&value);
    assert_eq!(pos, Pos2::new(60, 40));
    assert!(((pos.x - anchor.x) as i64) * 5 < 2 * 100);
    assert!(((anchor.y - pos.y) as i64) * 5 < 2 * 100);
}

#[test]
fn zoom_that_leaves_no_valid_bounds_is_not_made() {
    let mut tr = t(b([0, 0], [10, 10]));
    tr.zoom(Ratio::new(100, 1).unwrap(), Ratio::new(1, 1).unwrap(), Pos2::new(0, 0));
    assert_eq!(*tr.bounds(), b([0, 0], [10, 10]));
    tr.zoom(Ratio::new(0, 1).unwrap(), Ratio::new(1, 1).unwrap(), Pos2::new(50, 50));
    assert_eq!(*tr.bounds(), b([0, 0], [10, 10]));
    tr.zoom(Ratio::new(1, u32::MAX).unwrap(), Ratio::new(1, u32::MAX).unwrap(), Pos2::new(50, 50));
    assert_eq!(*tr.bounds(), b([-21474836470, -21474836470], [21474836480, 21474836480]));
    let mut wide = t(b([0, 0], [COORD_LIMIT, COORD_LIMIT]));
    wide.zoom(Ratio::new(1, 4).unwrap(), Ratio::new(1, 4).unwrap(), Pos2::new(50, 50));
    assert_eq!(*wide.bounds(), b([0, 0], [COORD_LIMIT, COORD_LIMIT]));
}

#[test]
fn zoom_by_one_changes_nothing() {
    let mut tr = t(b([-3, 4], [17, 9]));
    tr.zoom(Ratio::one(), Ratio::new(7, 7).unwrap(), Pos2::new(13, 77));
    assert_eq!(*tr.bounds(), b([-3, 4], [17, 9]));
}

#[test]
fn translate_bounds_converts_points_to_data() {
    let mut tr = t(b([0, 0], [1000, 1000]));
    assert_eq!(tr.value_delta(Vec2::new(10, 10)), (100, -100));
    tr.translate_bounds(Vec2::new(10, 0));
    assert_eq!(*tr.bounds(), b([100, 0], [1100, 1000]));
    tr.translate_bounds(Vec2::new(0, 10));
    assert_eq!(*tr.bounds(), b([100, -100], [1100, 900]));
    tr.translate_bounds(Vec2::new(-1, -1));
    assert_eq!(*tr.bounds(), b([90, -90], [1090, 910]));
}

#[test]
fn translate_bounds_by_zero_changes_nothing() {
    let mut tr = t(b([0, 0], [1000, 1000]));
    tr.translate_bounds(Vec2::zero());
    assert_eq!(*tr.bounds(), b([0, 0], [1000, 1000]));
    tr.translate_bounds(Vec2::new(0, 0));
    assert_eq!(tr, t(b([0, 0], [1000, 1000])));
}

#[test]
fn translate_bounds_moves_a_centered_axis_too() {
    let mut tr = ScreenTransform::new(frame100(), b([-200, 0], [500, 1000]), true, false);
    assert_eq!(*tr.bounds(), b([-500, 0], [500, 1000]));
    tr.translate_bounds(Vec2::new(10, 10));
    assert_eq!(*tr.bounds(), b([-400, -100], [600, 900]));
}

#[test]
fn translate_bounds_stays_finite() {
    let mut tr = t(b([COORD_LIMIT - 1000, 0], [COORD_LIMIT, 1000]));
    tr.translate_bounds(Vec2::new(1, 0));
    assert_eq!(*tr.bounds(), b([COORD_LIMIT - 1000, 0], [COORD_LIMIT, 1000]));
    tr.translate_bounds(Vec2::new(-1, 0));
    assert_eq!(*tr.bounds(), b([COORD_LIMIT - 1010, 0], [COORD_LIMIT - 10, 1000]));
}

#[test]
fn set_aspect_changes_one_axis() {
    let frame = Rect::from_min_max(Pos2::new(0, 0), Pos2::new(200, 100));
    let mut tr = ScreenTransform::new(frame, b([0, 0], [100, 100]), false, false);
    tr.set_aspect(Ratio::one(), true);
    assert_eq!(*tr.bounds(), b([-50, 0], [150, 100]));
    assert_eq!(*tr.frame(), frame);
    let mut tr = ScreenTransform::new(frame, b([0, 0], [100, 100]), false, false);
    tr.set_aspect(Ratio::one(), false);
    assert_eq!(*tr.bounds(), b([0, 25], [100, 75]));
    let mut tr = ScreenTransform::new(frame, b([0, 0], [100, 100]), false, false);
    tr.set_aspect(Ratio::new(2, 1).unwrap(), true);
    assert_eq!(*tr.bounds(), b([0, 0], [100, 100]));
    tr.set_aspect(Ratio::new(4, 1).unwrap(), false);
    assert_eq!(*tr.bounds(), b([0, -50], [100, 150]));
}

#[test]
fn set_aspect_twice_is_set_aspect_once() {
    let frame = Rect::from_min_max(Pos2::new(0, 0), Pos2::new(300, 100));
    let mut tr = ScreenTransform::new(frame, b([0, 0], [100, 70]), false, false);
    tr.set_aspect(Ratio::new(3, 2).unwrap(), true);
    let once = tr;
    tr.set_aspect(Ratio::new(3, 2).unwrap(), true);
    assert_eq!(tr, once);
    assert_eq!(*tr.bounds(), b([-20, 0], [120, 70]));
}

#[test]
fn set_aspect_without_effect() {
    let mut tr = t(b([0, 0], [100, 100]));
    tr.set_aspect(Ratio::new(0, 1).unwrap(), true);
    assert_eq!(*tr.bounds(), b([0, 0], [100, 100]));
    let flat = Rect::from_min_max(Pos2::new(0, 0), Pos2::new(200, 0));
    let mut tr = ScreenTransform::new(flat, b([0, 0], [100, 100]), false, false);
    tr.set_aspect(Ratio::one(), true);
    assert_eq!(*tr.bounds(), b([0, 0], [100, 100]));
    let mut tr = t(b([0, 0], [100, 100]));
    tr.set_aspect(Ratio::new(u32::MAX, 1).unwrap(), true);
    assert_eq!(*tr.bounds(), b([0, 0], [100, 100]));
}

#[test]
fn box_bounds_for_all_four_orderings() {
    let tr = t(b([0, 0], [10, 10]));
    let want = b([2, 3], [8, 7]);
    assert_eq!(tr.box_bounds(Pos2::new(20, 30), Pos2::new(80, 70)), want);
    assert_eq!(tr.box_bounds(Pos2::new(80, 70), Pos2::new(20, 30)), want);
    assert_eq!(tr.box_bounds(Pos2::new(20, 70), Pos2::new(80, 30)), want);
    assert_eq!(tr.box_bounds(Pos2::new(80, 30), Pos2::new(20, 70)), want);
    let flat = tr.box_bounds(Pos2::new(20, 30), Pos2::new(20, 70));
    assert_eq!(flat, b([2, 3], [2, 7]));
    assert!(!flat.is_valid());
}

#[test]
fn set_bounds_takes_valid_bounds_only() {
    let mut tr = t(b([0, 0], [10, 10]));
    assert!(tr.set_bounds(b([1, 2], [3, 4])));
    assert_eq!(*tr.bounds(), b([1, 2], [3, 4]));
    assert!(!tr.set_bounds(b([1, 2], [1, 4])));
    assert_eq!(*tr.bounds(), b([1, 2], [3, 4]));
    assert!(!tr.set_bounds(PlotBounds::nothing()));
    assert_eq!(*tr.bounds(), b([1, 2], [3, 4]));
}

#[test]
fn geometry_helpers() {
    assert_eq!(Pos2::new(0, 0).distance_sq(&Pos2::new(3, 4)), 25);
    assert_eq!(
        Pos2::new(i32::MIN, i32::MIN).distance_sq(&Pos2::new(i32::MAX, i32::MAX)),
        2 * (u32::MAX as u128) * (u32::MAX as u128)
    );
    assert_eq!(Vec2::new(3, -4).neg(), Vec2::new(-3, 4));
    assert_eq!(Vec2::new(i32::MIN, 0).neg(), Vec2::new(i32::MAX, 0));
    let r = Rect::from_two_pos(Pos2::new(5, 1), Pos2::new(2, 9));
    assert_eq!(r, Rect::from_min_max(Pos2::new(2, 1), Pos2::new(5, 9)));
    assert_eq!((r.width(), r.height()), (3, 8));
}
