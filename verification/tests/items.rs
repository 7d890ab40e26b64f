use plot::bounds::PlotBounds;
use plot::geometry::{Pos2, Rect, Value};
use plot::hover::ClosestElem;
use plot::input::{Context, InputState, Response};
use plot::items::{
    Arrows, Bar, BarChart, BoxElem, BoxPlot, Color32, HLine, ItemColor, Line, PlotImage, PlotItem,
    Points, Polygon, Text, VLine,
};
use plot::plot_ui::PlotUi;
use plot::transform::ScreenTransform;

fn b(min: [i64; 2], max: [i64; 2]) -> PlotBounds {
    PlotBounds::from_min_max(min, max)
}

fn frame100() -> Rect {
    Rect::from_min_max(Pos2::new(0, 0), Pos2::new(100, 100))
}

fn transform() -> ScreenTransform {
    ScreenTransform::new(frame100(), b([0, 0], [1000, 1000]), false, false)
}

fn values(points: &[(i64, i64)]) -> Vec<Value> {
    points.iter().map(|&(x, y)| Value::new(x, y)).collect()
}

fn line(name: &str, points: &[(i64, i64)]) -> Line {
    Line {
        series: values(points),
        color: ItemColor::unassigned(),
        name: name.to_string(),
        highlight: false,
    }
}

fn red() -> ItemColor {
    ItemColor::Fixed(Color32::from_rgba(255, 0, 0, 255))
}

fn plot_ui() -> PlotUi {
    PlotUi::new(
        transform(),
        Response::idle(frame100()),
        Context::new(InputState::idle(), true),
    )
}

#[test]
fn colours() {
    assert!(ItemColor::unassigned().is_unassigned());
    assert!(ItemColor::Fixed(Color32::transparent()).is_unassigned());
    assert!(!red().is_unassigned());
    assert!(!ItemColor::Auto(0).is_unassigned());
    assert!(!ItemColor::Fixed(Color32::from_rgba(0, 0, 0, 1)).is_unassigned());
}

#[test]
fn bounds_of_a_series() {
    let item = PlotItem::Line(line("a", &[(3, 4), (-1, 10), (7, 0)]));
    assert_eq!(item.get_bounds(), b([-1, 0], [7, 10]));
    let empty = PlotItem::Points(Points {
        series: vec![],
        color: red(),
        name: String::new(),
        highlight: false,
    });
    assert_eq!(empty.get_bounds(), PlotBounds::nothing());
    let polygon = PlotItem::Polygon(Polygon {
        series: values(&[(0, 0), (5, 5)]),
        color: red(),
        name: String::new(),
        highlight: false,
    });
    assert_eq!(polygon.get_bounds(), b([0, 0], [5, 5]));
}

#[test]
fn bounds_of_the_other_items() {
    let text = PlotItem::Text(Text {
        text: "t".to_string(),
        position: Value::new(3, 4),
        color: red(),
        name: String::new(),
        highlight: false,
    });
    assert_eq!(text.get_bounds(), b([3, 4], [3, 4]));
    let arrows = PlotItem::Arrows(Arrows {
        origins: values(&[(0, 0), (1, 1)]),
        tips: values(&[(5, -5), (2, 9)]),
        color: red(),
        name: String::new(),
        highlight: false,
    });
    assert_eq!(arrows.get_bounds(), b([0, -5], [5, 9]));
    let image = PlotItem::Image(PlotImage {
        area: b([1, 2], [3, 4]),
        name: String::new(),
        highlight: false,
    });
    assert_eq!(image.get_bounds(), b([1, 2], [3, 4]));
    let hline =
        PlotItem::HLine(HLine { y: 7, color: red(), name: String::new(), highlight: false });
    assert_eq!(hline.get_bounds(), b([i64::MAX, 7], [i64::MIN, 7]));
    let vline =
        PlotItem::VLine(VLine { x: -7, color: red(), name: String::new(), highlight: false });
    assert_eq!(vline.get_bounds(), b([-7, i64::MAX], [-7, i64::MIN]));
    let bars = PlotItem::BarChart(BarChart {
        bars: vec![Bar { area: b([0, 0], [1, 5]) }, Bar { area: b([2, 0], [3, 9]) }],
        default_color: red(),
        name: String::new(),
        highlight: false,
    });
    assert_eq!(bars.get_bounds(), b([0, 0], [3, 9]));
    let boxes = PlotItem::BoxPlot(BoxPlot {
        boxes: vec![BoxElem { area: b([0, -2], [1, 5]) }],
        default_color: red(),
        name: String::new(),
        highlight: false,
    });
    assert_eq!(boxes.get_bounds(), b([0, -2], [1, 5]));
}

#[test]
fn closest_value_of_a_series() {
    let t = transform();
    let item = PlotItem::Line(line("a", &[(0, 0), (500, 500), (600, 500), (400, 500)]));
    assert_eq!(
        item.find_closest(Pos2::new(52, 50), &t),
        Some(ClosestElem { index: 1, dist_sq: 4 })
    );
    assert_eq!(
        item.find_closest(Pos2::new(50, 50), &t),
        Some(ClosestElem { index: 1, dist_sq: 0 })
    );
    assert_eq!(
        item.find_closest(Pos2::new(55, 47), &t),
        Some(ClosestElem { index: 1, dist_sq: 34 })
    );
    assert_eq!(
        item.find_closest(Pos2::new(0, 100), &t),
        Some(ClosestElem { index: 0, dist_sq: 0 })
    );
}

#[test]
fn closest_value_is_the_first_of_equals() {
    let t = transform();
    let item = PlotItem::Points(Points {
        series: values(&[(400, 500), (600, 500), (400, 500)]),
        color: red(),
        name: String::new(),
        highlight: false,
    });
    assert_eq!(
        item.find_closest(Pos2::new(50, 50), &t),
        Some(ClosestElem { index: 0, dist_sq: 100 })
    );
}

#[test]
fn closest_bar() {
    let t = transform();
    let bars = PlotItem::BarChart(BarChart {
        bars: vec![
            Bar { area: b([0, 0], [100, 500]) },
            Bar { area: b([200, 0], [300, 900]) },
            Bar { area: b([200, 0], [300, 900]) },
        ],
        default_color: red(),
        name: String::new(),
        highlight: false,
    });
    assert_eq!(
        bars.find_closest(Pos2::new(25, 50), &t),
        Some(ClosestElem { index: 1, dist_sq: 0 })
    );
    assert_eq!(
        bars.find_closest(Pos2::new(5, 40), &t),
        Some(ClosestElem { index: 0, dist_sq: 100 })
    );
    assert_eq!(
        bars.find_closest(Pos2::new(33, 5), &t),
        Some(ClosestElem { index: 1, dist_sq: 34 })
    );
}

#[test]
fn items_without_elements() {
    let t = transform();
    let hline =
        PlotItem::HLine(HLine { y: 500, color: red(), name: String::new(), highlight: false });
    assert_eq!(hline.find_closest(Pos2::new(50, 50), &t), None);
    let empty = PlotItem::Line(line("a", &[]));
    assert_eq!(empty.find_closest(Pos2::new(50, 50), &t), None);
    let image = PlotItem::Image(PlotImage {
        area: b([1, 2], [3, 4]),
        name: String::new(),
        highlight: false,
    });
    assert_eq!(image.find_closest(Pos2::new(50, 50), &t), None);
}

#[test]
fn names_and_highlights() {
    let item = PlotItem::Line(line("sin", &[(0, 0)]));
    assert_eq!(item.name(), "sin");
    assert!(!item.highlighted());
    let mut item = item;
    item.highlight();
    assert!(item.highlighted());
    assert_eq!(item.name(), "sin");
    assert_eq!(item.get_bounds(), b([0, 0], [0, 0]));
}

#[test]
fn plot_ui_hands_out_automatic_colours() {
    let mut ui = plot_ui();
    ui.line(line("a", &[(0, 0)]));
    ui.line(Line { color: red(), ..line("b", &[(1, 1)]) });
    ui.line(line("c", &[(2, 2)]));
    ui.line(line("empty", &[]));
    ui.hline(HLine {
        y: 1,
        color: ItemColor::unassigned(),
        name: "h".to_string(),
        highlight: false,
    });
    let (items, _, _, _) = ui.into_parts();
    assert_eq!(items.len(), 4);
    let colours: Vec<ItemColor> = items
        .iter()
        .map(|item| match item {
            PlotItem::Line(l) => l.color,
            PlotItem::HLine(h) => h.color,
            _ => panic!("an item of another kind"),
        })
        .collect();
    assert_eq!(
        colours,
        vec![ItemColor::Auto(0), red(), ItemColor::Auto(1), ItemColor::Auto(2)]
    );
    let names: Vec<&str> = items.iter().map(|item| item.name().as_str()).collect();
    assert_eq!(names, vec!["a", "b", "c", "h"]);
}

#[test]
fn plot_ui_leaves_out_empty_items() {
    let mut ui = plot_ui();
    ui.polygon(Polygon { series: vec![], color: red(), name: String::new(), highlight: false });
    ui.points(Points { series: vec![], color: red(), name: String::new(), highlight: false });
    ui.text(Text {
        text: String::new(),
        position: Value::new(0, 0),
        color: red(),
        name: String::new(),
        highlight: false,
    });
    ui.arrows(Arrows {
        origins: values(&[(0, 0)]),
        tips: vec![],
        color: red(),
        name: String::new(),
        highlight: false,
    });
    ui.box_plot(BoxPlot {
        boxes: vec![],
        default_color: red(),
        name: String::new(),
        highlight: false,
    });
    ui.bar_chart(BarChart {
        bars: vec![],
        default_color: red(),
        name: String::new(),
        highlight: false,
    });
    let (items, _, _, _) = ui.into_parts();
    assert!(items.is_empty());
}

#[test]
fn plot_ui_keeps_every_kind_of_item() {
    let mut ui = plot_ui();
    ui.polygon(Polygon {
        series: values(&[(0, 0)]),
        color: ItemColor::unassigned(),
        name: String::new(),
        highlight: false,
    });
    ui.points(Points {
        series: values(&[(0, 0)]),
        color: ItemColor::unassigned(),
        name: String::new(),
        highlight: false,
    });
    ui.text(Text {
        text: "t".to_string(),
        position: Value::new(0, 0),
        color: ItemColor::unassigned(),
        name: String::new(),
        highlight: false,
    });
    ui.arrows(Arrows {
        origins: values(&[(0, 0)]),
        tips: values(&[(1, 1)]),
        color: ItemColor::unassigned(),
        name: String::new(),
        highlight: false,
    });
    ui.image(PlotImage { area: b([0, 0], [1, 1]), name: String::new(), highlight: false });
    ui.vline(VLine {
        x: 0,
        color: ItemColor::unassigned(),
        name: String::new(),
        highlight: false,
    });
    ui.box_plot(BoxPlot {
        boxes: vec![BoxElem { area: b([0, 0], [1, 1]) }],
        default_color: ItemColor::unassigned(),
        name: String::new(),
        highlight: false,
    });
    ui.bar_chart(BarChart {
        bars: vec![Bar { area: b([0, 0], [1, 1]) }],
        default_color: ItemColor::unassigned(),
        name: String::new(),
        highlight: false,
    });
    let (items, _, _, _) = ui.into_parts();
    assert_eq!(items.len(), 8);
    assert!(matches!(&items[0], PlotItem::Polygon(p) if p.color == ItemColor::Auto(0)));
    assert!(matches!(&items[1], PlotItem::Points(p) if p.color == ItemColor::Auto(1)));
    assert!(matches!(&items[2], PlotItem::Text(t) if t.color.is_unassigned()));
    assert!(matches!(&items[3], PlotItem::Arrows(a) if a.color == ItemColor::Auto(2)));
    assert!(matches!(&items[4], PlotItem::Image(_)));
    assert!(matches!(&items[5], PlotItem::VLine(v) if v.color == ItemColor::Auto(3)));
    assert!(matches!(&items[6], PlotItem::BoxPlot(p) if p.default_color == ItemColor::Auto(4)));
    assert!(matches!(&items[7], PlotItem::BarChart(c) if c.default_color == ItemColor::Auto(5)));
}

#[test]
fn plot_ui_answers_from_the_last_frame() {
    let mut response = Response::idle(frame100());
    response.hovered = true;
    response.drag_delta = plot::geometry::Vec2::new(10, -5);
    let mut input = InputState::idle();
    input.latest_pos = Some(Pos2::new(60, 45));
    let ctx = Context::new(input, false);
    let ui = PlotUi::new(transform(), response, ctx);
    assert_eq!(ui.plot_bounds(), b([0, 0], [1000, 1000]));
    assert!(ui.plot_hovered());
    assert_eq!(ui.pointer_coordinate(), Some(Value::new(500, 500)));
    assert_eq!(ui.pointer_coordinate_drag_delta(), (100, 50));
    assert_eq!(ui.screen_from_plot(Value::new(250, 750)), Pos2::new(25, 25));
    assert_eq!(ui.plot_from_screen(Pos2::new(25, 25)), Value::new(250, 750));
    assert_eq!(*ui.ctx(), ctx);
    assert_eq!(ui.ctx().input().latest_pos, Some(Pos2::new(60, 45)));
    let ui = PlotUi::new(transform(), response, Context::new(InputState::idle(), false));
    assert_eq!(ui.pointer_coordinate(), None);
}
