use plot::axis::{
    grid_lines, label_position, shade_alpha, tick_step, GridLine, MAX_LINE_ALPHA, MAX_STEP,
    MAX_TEXT_ALPHA, MIN_LINE_SPACING,
};
use plot::bounds::PlotBounds;
use plot::geometry::{Pos2, Rect, Vec2};
use plot::transform::ScreenTransform;

fn transform(width: i32, height: i32, min: [i64; 2], max: [i64; 2]) -> ScreenTransform {
    ScreenTransform::new(
        Rect::from_min_max(Pos2::new(0, 0), Pos2::new(width, height)),
        PlotBounds::from_min_max(min, max),
        false,
        false,
    )
}

#[test]
fn tick_step_is_the_smallest_power_of_ten_that_is_wide_enough() {
    let t = transform(100, 100, [0, 0], [1000, 10]);
    assert_eq!(tick_step(&t, 0), 100);
    assert_eq!(tick_step(&t, 1), 1);
    let t = transform(600, 599, [0, 0], [1000, 1000]);
    assert_eq!(tick_step(&t, 0), 10);
    assert_eq!(tick_step(&t, 1), 100);
    let t = transform(100, 100, [0, 0], [16, 17]);
    assert_eq!(tick_step(&t, 0), 1);
    assert_eq!(tick_step(&t, 1), 10);
}

#[test]
fn tick_step_has_a_fallback() {
    let t = transform(0, -5, [0, 0], [1000, 10]);
    assert_eq!(tick_step(&t, 0), MAX_STEP);
    assert_eq!(tick_step(&t, 1), MAX_STEP);
    assert_eq!(MAX_STEP, 1_000_000_000_000_000_000);
}

#[test]
fn grid_lines_of_three_tiers() {
    let t = transform(100, 100, [0, 0], [1000, 1000]);
    let lines = grid_lines(&t, 0);
    assert_eq!(lines.len(), 11);
    let values: Vec<i64> = lines.iter().map(|l| l.value).collect();
    assert_eq!(values, vec![0, 100, 200, 300, 400, 500, 600, 700, 800, 900, 1000]);
    assert_eq!(
        lines[0],
        GridLine {
            value: 0,
            position: Pos2::new(0, 100),
            start: Pos2::new(0, 0),
            end: Pos2::new(0, 100),
            line_alpha: 150,
            text_alpha: 400,
        }
    );
    assert_eq!(
        lines[1],
        GridLine {
            value: 100,
            position: Pos2::new(10, 100),
            start: Pos2::new(10, 0),
            end: Pos2::new(10, 100),
            line_alpha: 2,
            text_alpha: 0,
        }
    );
    assert_eq!(lines[10].line_alpha, 47);
    assert_eq!(lines[10].text_alpha, 218);
    assert_eq!(lines[10].position, Pos2::new(100, 100));
}

#[test]
fn grid_lines_of_the_y_axis() {
    let t = transform(100, 100, [-500, 0], [500, 1000]);
    let lines = grid_lines(&t, 1);
    assert_eq!(lines.len(), 11);
    assert_eq!(lines[3].value, 300);
    assert_eq!(lines[3].position, Pos2::new(50, 70));
    assert_eq!(lines[3].start, Pos2::new(0, 70));
    assert_eq!(lines[3].end, Pos2::new(100, 70));
}

#[test]
fn grid_lines_start_at_the_last_multiple_below() {
    let t = transform(100, 100, [-250, 0], [250, 1000]);
    let lines = grid_lines(&t, 0);
    let values: Vec<i64> = lines.iter().map(|l| l.value).collect();
    assert_eq!(values, vec![-300, -200, -100, 0, 100, 200]);
    assert_eq!(lines[3].line_alpha, 150);
    assert_eq!(lines[0].position.x, -10);
}

#[test]
fn grid_lines_leave_out_transparent_lines() {
    let t = transform(600, 600, [0, 0], [1000, 1000]);
    let lines = grid_lines(&t, 0);
    let values: Vec<i64> = lines.iter().map(|l| l.value).collect();
    assert_eq!(values, vec![0, 100, 200, 300, 400, 500, 600, 700, 800, 900, 1000]);
    for line in &lines {
        assert!(line.line_alpha > 0);
    }
    assert_eq!(lines[1].line_alpha, 27);
    assert_eq!(lines[1].text_alpha, 72);
    assert_eq!(lines[0].line_alpha, MAX_LINE_ALPHA);
    assert_eq!(lines[0].text_alpha, MAX_TEXT_ALPHA);
    assert_eq!(MIN_LINE_SPACING, 6);
}

#[test]
fn grid_lines_in_a_frame_without_extent() {
    let t = transform(0, 0, [5, 5], [1000, 1000]);
    assert!(grid_lines(&t, 0).is_empty());
    assert!(grid_lines(&t, 1).is_empty());
}

#[test]
fn grid_line_alpha_never_falls_with_the_spacing() {
    let mut last_line = 0;
    let mut last_text = 0;
    for width in [60, 100, 200, 400, 600, 1000, 3000, 6000] {
        let t = transform(width, 100, [0, 0], [1000, 1000]);
        let step = tick_step(&t, 0);
        if step != 100 {
            continue;
        }
        let lines = grid_lines(&t, 0);
        let thin = lines.iter().find(|l| l.value == 300);
        let (line, text) = match thin {
            Some(l) => (l.line_alpha, l.text_alpha),
            None => (0, 0),
        };
        assert!(line >= last_line);
        assert!(text >= last_text);
        last_line = line;
        last_text = text;
    }
    assert_eq!(last_line, 17);
}

#[test]
fn label_position_stays_in_the_frame() {
    let frame = Rect::from_min_max(Pos2::new(0, 0), Pos2::new(100, 100));
    let size = Vec2::new(30, 10);
    assert_eq!(label_position(Pos2::new(50, 100), size, 0, &frame), Pos2::new(51, 88));
    assert_eq!(label_position(Pos2::new(50, 50), size, 0, &frame), Pos2::new(51, 40));
    assert_eq!(label_position(Pos2::new(50, 5), size, 0, &frame), Pos2::new(51, 1));
    assert_eq!(label_position(Pos2::new(0, 50), size, 1, &frame), Pos2::new(1, 40));
    assert_eq!(label_position(Pos2::new(90, 50), size, 1, &frame), Pos2::new(68, 40));
    assert_eq!(label_position(Pos2::new(-20, 50), size, 1, &frame), Pos2::new(1, 40));
    let huge = Vec2::new(500, 500);
    assert_eq!(label_position(Pos2::new(50, 50), huge, 0, &frame), Pos2::new(51, 1));
}

#[test]
fn shade_alpha_on_both_backgrounds() {
    assert_eq!(shade_alpha(true, 150), 150);
    assert_eq!(shade_alpha(false, 150), 600);
    assert_eq!(shade_alpha(false, 250), 1000);
    assert_eq!(shade_alpha(false, 400), 1000);
    assert_eq!(shade_alpha(false, 0), 0);
    assert_eq!(shade_alpha(true, 400), 400);
}

#[test]
fn empty_text_leaves_out_the_label_only() {
    let t = transform(100, 100, [0, 0], [1000, 1000]);
    let lines = grid_lines(&t, 0);
    assert!(lines[0].has_label("0"));
    assert!(!lines[0].has_label(""));
    assert!(!lines[1].has_label("100"));
    assert!(lines[1].line_alpha > 0);
}
