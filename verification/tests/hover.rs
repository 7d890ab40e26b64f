use plot::format::{default_axis_label, default_hover_text, push_decimal};
use plot::geometry::Value;
use plot::hover::{
    closest_candidate, hovered_candidate, ClosestElem, HoverConfig, HoverLine, INTERACT_RADIUS_SQ,
};
use plot::plot::Plot;

fn elem(index: usize, dist_sq: u128) -> Option<ClosestElem> {
    Some(ClosestElem { index, dist_sq })
}

#[test]
fn hover_line_modes() {
    assert_eq!(
        HoverLine::all(),
        vec![HoverLine::Off, HoverLine::X, HoverLine::Y, HoverLine::XY]
    );
    assert!(!HoverLine::Off.show_x_line() && !HoverLine::Off.show_y_line());
    assert!(HoverLine::X.show_x_line() && !HoverLine::X.show_y_line());
    assert!(!HoverLine::Y.show_x_line() && HoverLine::Y.show_y_line());
    assert!(HoverLine::XY.show_x_line() && HoverLine::XY.show_y_line());
    assert_eq!(HoverLine::default(), HoverLine::XY);
    assert!(HoverLine::Off.is_off());
    assert!(!HoverLine::XY.is_off());
}

#[test]
fn equal_distances_select_the_first_item() {
    let candidates = vec![elem(0, 5), elem(0, 5)];
    assert_eq!(hovered_candidate(&candidates), Some(0));
    assert_eq!(closest_candidate(&candidates), Some(0));
    let candidates = vec![elem(3, 9), elem(1, 5), None, elem(2, 5), elem(0, 7)];
    assert_eq!(hovered_candidate(&candidates), Some(1));
}

#[test]
fn closest_is_the_smallest_distance() {
    let candidates = vec![elem(0, 50), None, elem(7, 3), elem(1, 4)];
    assert_eq!(closest_candidate(&candidates), Some(2));
    assert_eq!(hovered_candidate(&candidates), Some(2));
}

#[test]
fn hover_needs_an_element_within_the_radius() {
    assert_eq!(INTERACT_RADIUS_SQ, 256);
    assert_eq!(hovered_candidate(&vec![elem(0, 256)]), Some(0));
    assert_eq!(hovered_candidate(&vec![elem(0, 257)]), None);
    assert_eq!(closest_candidate(&vec![elem(0, 257)]), Some(0));
    assert_eq!(hovered_candidate(&vec![None, None]), None);
    assert_eq!(closest_candidate(&vec![None, None]), None);
    assert_eq!(hovered_candidate(&vec![]), None);
    assert_eq!(hovered_candidate(&vec![elem(0, 1000), elem(0, 300), elem(0, 256)]), Some(2));
}

#[test]
fn decimal_texts() {
    assert_eq!(default_axis_label(0), "0");
    assert_eq!(default_axis_label(7), "7");
    assert_eq!(default_axis_label(10), "10");
    assert_eq!(default_axis_label(-120), "-120");
    assert_eq!(default_axis_label(1234567890), "1234567890");
    assert_eq!(default_axis_label(i64::MAX), i64::MAX.to_string());
    assert_eq!(default_axis_label(i64::MIN), i64::MIN.to_string());
    let mut text = String::from("v: ");
    push_decimal(&mut text, -45);
    assert_eq!(text, "v: -45");
}

#[test]
fn default_hover_texts() {
    let value = Value::new(12, -3);
    let cfg = |hover_line| HoverConfig { hover_line, show_hover_label: true };
    assert_eq!(default_hover_text(&cfg(HoverLine::Off), "sin", &value), "");
    assert_eq!(default_hover_text(&cfg(HoverLine::X), "sin", &value), "sin\nx = 12");
    assert_eq!(default_hover_text(&cfg(HoverLine::Y), "sin", &value), "sin\ny = -3");
    assert_eq!(default_hover_text(&cfg(HoverLine::XY), "sin", &value), "sin\nx = 12\ny = -3");
    assert_eq!(default_hover_text(&cfg(HoverLine::XY), "", &value), "x = 12\ny = -3");
    assert_eq!(default_hover_text(&cfg(HoverLine::X), "", &value), "x = 12");
    assert_eq!(
        Plot::default_hover_formatter(&cfg(HoverLine::Y), "a b", &Value::new(0, 100)),
        "a b\ny = 100"
    );
}
