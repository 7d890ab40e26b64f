//! What a plot shows: lines, points, bars and the like, each with a name,
//! the rectangle it covers in data space and its element closest to a
//! pointer.

use vstd::prelude::*;
use crate::bounds::PlotBounds;
use crate::geometry::{Pos2, Rect, Value};
use crate::hover::{first_min, ClosestElem};
use crate::transform::ScreenTransform;

verus! {

/// A colour with its opacity.
#[derive(Clone, Copy, Debug, PartialEq, Eq, Structural)]
pub struct Color32 {
    pub r: u8,
    pub g: u8,
    pub b: u8,
    pub a: u8,
}

impl Color32 {
    /// The fully transparent colour, which stands for "no colour chosen".
    pub open spec fn spec_transparent() -> Color32 {
        Color32 { r: 0, g: 0, b: 0, a: 0 }
    }

    /// The fully transparent colour, which stands for "no colour chosen".
    pub fn transparent() -> (c: Color32)
        ensures
            c == Color32::spec_transparent(),
    {
        Color32 { r: 0, g: 0, b: 0, a: 0 }
    }

    pub fn from_rgba(r: u8, g: u8, b: u8, a: u8) -> (c: Color32)
        ensures
            c == (Color32 { r, g, b, a }),
    {
        Color32 { r, g, b, a }
    }
}

/// The colour of an item: one that its author chose, or the automatic
/// colour of a given number.
#[derive(Clone, Copy, Debug, PartialEq, Eq, Structural)]
pub enum ItemColor {
    Fixed(Color32),
    Auto(usize),
}

impl ItemColor {
    /// Whether no colour was chosen.
    pub open spec fn spec_is_unassigned(self) -> bool {
        self == ItemColor::Fixed(Color32::spec_transparent())
    }

    /// The colour that stands for "no colour chosen".
    pub fn unassigned() -> (c: ItemColor)
        ensures
            c.spec_is_unassigned(),
    {
        ItemColor::Fixed(Color32::transparent())
    }

    /// Whether no colour was chosen.
    pub fn is_unassigned(&self) -> (r: bool)
        ensures
            r == self.spec_is_unassigned(),
    {
        match self {
            ItemColor::Fixed(c) => c.r == 0 && c.g == 0 && c.b == 0 && c.a == 0,
            ItemColor::Auto(_) => false,
        }
    }
}

/// A series of values joined by a line.
pub struct Line {
    pub series: Vec<Value>,
    pub color: ItemColor,
    pub name: String,
    pub highlight: bool,
}

/// A convex polygon.
pub struct Polygon {
    pub series: Vec<Value>,
    pub color: ItemColor,
    pub name: String,
    pub highlight: bool,
}

/// A text anchored at a value.
pub struct Text {
    pub text: String,
    pub position: Value,
    pub color: ItemColor,
    pub name: String,
    pub highlight: bool,
}

/// A set of markers.
pub struct Points {
    pub series: Vec<Value>,
    pub color: ItemColor,
    pub name: String,
    pub highlight: bool,
}

/// A set of arrows, the `i`-th from `origins[i]` to `tips[i]`.
pub struct Arrows {
    pub origins: Vec<Value>,
    pub tips: Vec<Value>,
    pub color: ItemColor,
    pub name: String,
    pub highlight: bool,
}

/// An image that covers a rectangle in data space.
pub struct PlotImage {
    pub area: PlotBounds,
    pub name: String,
    pub highlight: bool,
}

/// A horizontal line over the full width of the plot.
pub struct HLine {
    pub y: i64,
    pub color: ItemColor,
    pub name: String,
    pub highlight: bool,
}

/// A vertical line over the full height of the plot.
pub struct VLine {
    pub x: i64,
    pub color: ItemColor,
    pub name: String,
    pub highlight: bool,
}

/// An element that covers a rectangle in data space.
pub trait Area {
    /// The rectangle that the element covers.
    spec fn spec_area(&self) -> PlotBounds;

    /// The rectangle that the element covers.
    fn area(&self) -> (r: PlotBounds)
        ensures
            r == self.spec_area(),
    ;
}

/// One box of a box plot, by the rectangle it covers with its whiskers.
#[derive(Clone, Copy, Debug, PartialEq, Eq)]
pub struct BoxElem {
    pub area: PlotBounds,
}

impl Area for BoxElem {
    open spec fn spec_area(&self) -> PlotBounds {
        self.area
    }

    fn area(&self) -> (r: PlotBounds) {
        self.area
    }
}

/// A box plot diagram.
pub struct BoxPlot {
    pub boxes: Vec<BoxElem>,
    pub default_color: ItemColor,
    pub name: String,
    pub highlight: bool,
}

/// One bar of a bar chart, by the rectangle it covers.
#[derive(Clone, Copy, Debug, PartialEq, Eq)]
pub struct Bar {
    pub area: PlotBounds,
}

impl Area for Bar {
    open spec fn spec_area(&self) -> PlotBounds {
        self.area
    }

    fn area(&self) -> (r: PlotBounds) {
        self.area
    }
}

/// A bar chart.
pub struct BarChart {
    pub bars: Vec<Bar>,
    pub default_color: ItemColor,
    pub name: String,
    pub highlight: bool,
}

/// Anything that a plot can show.
pub enum PlotItem {
    Line(Line),
    Polygon(Polygon),
    Text(Text),
    Points(Points),
    Arrows(Arrows),
    Image(PlotImage),
    HLine(HLine),
    VLine(VLine),
    BoxPlot(BoxPlot),
    BarChart(BarChart),
}

/// The smallest bounds that hold all the values.
pub open spec fn points_bounds(points: Seq<Value>) -> PlotBounds
    decreases points.len(),
{
    if points.len() == 0 {
        PlotBounds::spec_nothing()
    } else {
        points_bounds(points.drop_last()).spec_extend_with(points.last())
    }
}

/// The smallest bounds that hold all the rectangles.
pub open spec fn areas_bounds(areas: Seq<PlotBounds>) -> PlotBounds
    decreases areas.len(),
{
    if areas.len() == 0 {
        PlotBounds::spec_nothing()
    } else {
        areas_bounds(areas.drop_last()).spec_merge(areas.last())
    }
}

/// The squared distance on the screen from each value to the pointer.
pub open spec fn point_distances(points: Seq<Value>, pointer: Pos2, t: ScreenTransform) -> Seq<
    Option<int>,
> {
    Seq::new(
        points.len(),
        |i: int| Some(t.spec_position_from_value(points[i]).spec_distance_sq(pointer)),
    )
}

/// The squared distance from a point to a rectangle on the screen: zero
/// inside it.
pub open spec fn rect_distance_sq(rect: Rect, p: Pos2) -> int {
    let dx = if p.x < rect.min.x {
        rect.min.x - p.x
    } else if p.x > rect.max.x {
        p.x - rect.max.x
    } else {
        0
    };
    let dy = if p.y < rect.min.y {
        rect.min.y - p.y
    } else if p.y > rect.max.y {
        p.y - rect.max.y
    } else {
        0
    };
    dx * dx + dy * dy
}

/// The rectangle on the screen that shows a rectangle of data space.
pub open spec fn screen_area(area: PlotBounds, t: ScreenTransform) -> Rect {
    Rect::spec_from_two_pos(
        t.spec_position_from_value(Value { x: area.min[0], y: area.min[1] }),
        t.spec_position_from_value(Value { x: area.max[0], y: area.max[1] }),
    )
}

/// The squared distance on the screen from each rectangle to the pointer.
pub open spec fn area_distances(areas: Seq<PlotBounds>, pointer: Pos2, t: ScreenTransform) -> Seq<
    Option<int>,
> {
    Seq::new(areas.len(), |i: int| Some(rect_distance_sq(screen_area(areas[i], t), pointer)))
}

/// The first of the entries of `dists` with the smallest distance, as an
/// element.
pub open spec fn closest_of(dists: Seq<Option<int>>) -> Option<ClosestElem> {
    match first_min(dists) {
        Some(i) => Some(ClosestElem { index: i as usize, dist_sq: dists[i].unwrap() as u128 }),
        None => None,
    }
}

/// The rectangles that the elements cover, in the order of the elements.
pub open spec fn areas_of<T: Area>(elements: Seq<T>) -> Seq<PlotBounds> {
    Seq::new(elements.len(), |i: int| elements[i].spec_area())
}

fn bounds_of_points(points: &Vec<Value>) -> (r: PlotBounds)
    ensures
        r == points_bounds(points@),
{
    let mut r: PlotBounds = PlotBounds::nothing();
    let mut i: usize = 0;
    assert(points@.take(0) =~= Seq::empty());
    while i < points.len()
        invariant
            i <= points.len(),
            r == points_bounds(points@.take(i as int)),
        decreases points.len() - i,
    {
        assert(points@.take(i + 1).drop_last() =~= points@.take(i as int));
        r.extend_with(&points[i]);
        i = i + 1;
    }
    assert(points@.take(i as int) =~= points@);
    r
}

fn closest_point(points: &Vec<Value>, pointer: Pos2, transform: &ScreenTransform) -> (r: Option<
    ClosestElem,
>)
    ensures
        r == closest_of(point_distances(points@, pointer, *transform)),
{
    proof {
        use_type_invariant(transform);
    }
    let ghost dists = point_distances(points@, pointer, *transform);
    let mut best: Option<ClosestElem> = None;
    let mut i: usize = 0;
    assert(dists.take(0) =~= Seq::empty());
    while i < points.len()
        invariant
            transform.wf(),
            i <= points.len(),
            dists == point_distances(points@, pointer, *transform),
            best == closest_of(dists.take(i as int)),
            best is None ==> first_min(dists.take(i as int)) is None,
            best matches Some(e) ==> e.index < i && first_min(dists.take(i as int)) == Some(
                e.index as int,
            ) && dists[e.index as int] == Some(e.dist_sq as int),
        decreases points.len() - i,
    {
        proof {
            assert(dists.take(i + 1).drop_last() =~= dists.take(i as int));
            assert(dists.take(i + 1).last() == dists[i as int]);
            if best is Some {
                assert(dists.take(i + 1)[best.unwrap().index as int] == dists.take(i as int)[best.unwrap().index as int]);
            }
        }
        let d: u128 = transform.position_from_value(&points[i]).distance_sq(&pointer);
        let better: bool = match best {
            Some(e) => d < e.dist_sq,
            None => true,
        };
        if better {
            best = Some(ClosestElem { index: i, dist_sq: d });
        }
        i = i + 1;
    }
    assert(dists.take(i as int) =~= dists);
    best
}

fn bounds_of_areas<T: Area>(elements: &Vec<T>) -> (r: PlotBounds)
    ensures
        r == areas_bounds(areas_of(elements@)),
{
    let ghost areas = areas_of(elements@);
    let mut r: PlotBounds = PlotBounds::nothing();
    let mut i: usize = 0;
    assert(areas.take(0) =~= Seq::empty());
    while i < elements.len()
        invariant
            i <= elements.len(),
            areas == areas_of(elements@),
            r == areas_bounds(areas.take(i as int)),
        decreases elements.len() - i,
    {
        assert(areas.take(i + 1).drop_last() =~= areas.take(i as int));
        assert(areas.take(i + 1).last() == elements@[i as int].spec_area());
        let area: PlotBounds = elements[i].area();
        r.merge(&area);
        i = i + 1;
    }
    assert(areas.take(i as int) =~= areas);
    r
}

fn rect_distance(rect: &Rect, p: Pos2) -> (r: u128)
    ensures
        r == rect_distance_sq(*rect, p),
{
    let dx: i64 = if p.x < rect.min.x {
        rect.min.x as i64 - p.x as i64
    } else if p.x > rect.max.x {
        p.x as i64 - rect.max.x as i64
    } else {
        0
    };
    let dy: i64 = if p.y < rect.min.y {
        rect.min.y as i64 - p.y as i64
    } else if p.y > rect.max.y {
        p.y as i64 - rect.max.y as i64
    } else {
        0
    };
    assert(0 <= dx * dx <= 0x1_0000_0000 * 0x1_0000_0000) by (nonlinear_arith)
        requires
            0 <= dx <= 0x1_0000_0000,
    ;
    assert(0 <= dy * dy <= 0x1_0000_0000 * 0x1_0000_0000) by (nonlinear_arith)
        requires
            0 <= dy <= 0x1_0000_0000,
    ;
    let sx: i128 = dx as i128 * dx as i128;
    let sy: i128 = dy as i128 * dy as i128;
    (sx + sy) as u128
}

fn closest_area<T: Area>(elements: &Vec<T>, pointer: Pos2, transform: &ScreenTransform) -> (r:
    Option<ClosestElem>)
    ensures
        r == closest_of(area_distances(areas_of(elements@), pointer, *transform)),
{
    proof {
        use_type_invariant(transform);
    }
    let ghost areas = areas_of(elements@);
    let ghost dists = area_distances(areas, pointer, *transform);
    let mut best: Option<ClosestElem> = None;
    let mut i: usize = 0;
    assert(dists.take(0) =~= Seq::empty());
    while i < elements.len()
        invariant
            transform.wf(),
            i <= elements.len(),
            areas == areas_of(elements@),
            dists == area_distances(areas, pointer, *transform),
            best == closest_of(dists.take(i as int)),
            best is None ==> first_min(dists.take(i as int)) is None,
            best matches Some(e) ==> e.index < i && first_min(dists.take(i as int)) == Some(
                e.index as int,
            ) && dists[e.index as int] == Some(e.dist_sq as int),
        decreases elements.len() - i,
    {
        proof {
            assert(dists.take(i + 1).drop_last() =~= dists.take(i as int));
            assert(dists.take(i + 1).last() == dists[i as int]);
            if best is Some {
                assert(dists.take(i + 1)[best.unwrap().index as int] == dists.take(i as int)[best.unwrap().index as int]);
            }
        }
        let area: PlotBounds = elements[i].area();
        let a: Pos2 = transform.position_from_value(&Value { x: area.min[0], y: area.min[1] });
        let b: Pos2 = transform.position_from_value(&Value { x: area.max[0], y: area.max[1] });
        let d: u128 = rect_distance(&Rect::from_two_pos(a, b), pointer);
        let better: bool = match best {
            Some(e) => d < e.dist_sq,
            None => true,
        };
        if better {
            best = Some(ClosestElem { index: i, dist_sq: d });
        }
        i = i + 1;
    }
    assert(dists.take(i as int) =~= dists);
    best
}

impl PlotItem {
    /// The name under which the item is listed.
    pub open spec fn spec_name(self) -> Seq<char> {
        match self {
            PlotItem::Line(i) => i.name@,
            PlotItem::Polygon(i) => i.name@,
            PlotItem::Text(i) => i.name@,
            PlotItem::Points(i) => i.name@,
            PlotItem::Arrows(i) => i.name@,
            PlotItem::Image(i) => i.name@,
            PlotItem::HLine(i) => i.name@,
            PlotItem::VLine(i) => i.name@,
            PlotItem::BoxPlot(i) => i.name@,
            PlotItem::BarChart(i) => i.name@,
        }
    }

    /// Whether the item is drawn highlighted.
    pub open spec fn spec_highlighted(self) -> bool {
        match self {
            PlotItem::Line(i) => i.highlight,
            PlotItem::Polygon(i) => i.highlight,
            PlotItem::Text(i) => i.highlight,
            PlotItem::Points(i) => i.highlight,
            PlotItem::Arrows(i) => i.highlight,
            PlotItem::Image(i) => i.highlight,
            PlotItem::HLine(i) => i.highlight,
            PlotItem::VLine(i) => i.highlight,
            PlotItem::BoxPlot(i) => i.highlight,
            PlotItem::BarChart(i) => i.highlight,
        }
    }

    /// The same item, highlighted.
    pub open spec fn spec_highlight(self) -> PlotItem {
        match self {
            PlotItem::Line(i) => PlotItem::Line(Line { highlight: true, ..i }),
            PlotItem::Polygon(i) => PlotItem::Polygon(Polygon { highlight: true, ..i }),
            PlotItem::Text(i) => PlotItem::Text(Text { highlight: true, ..i }),
            PlotItem::Points(i) => PlotItem::Points(Points { highlight: true, ..i }),
            PlotItem::Arrows(i) => PlotItem::Arrows(Arrows { highlight: true, ..i }),
            PlotItem::Image(i) => PlotItem::Image(PlotImage { highlight: true, ..i }),
            PlotItem::HLine(i) => PlotItem::HLine(HLine { highlight: true, ..i }),
            PlotItem::VLine(i) => PlotItem::VLine(VLine { highlight: true, ..i }),
            PlotItem::BoxPlot(i) => PlotItem::BoxPlot(BoxPlot { highlight: true, ..i }),
            PlotItem::BarChart(i) => PlotItem::BarChart(BarChart { highlight: true, ..i }),
        }
    }

    /// The rectangle of data space that the item covers. A horizontal or
    /// vertical line covers its own coordinate and nothing of the other
    /// axis.
    pub open spec fn spec_bounds(self) -> PlotBounds {
        match self {
            PlotItem::Line(i) => points_bounds(i.series@),
            PlotItem::Polygon(i) => points_bounds(i.series@),
            PlotItem::Text(i) => PlotBounds::spec_nothing().spec_extend_with(i.position),
            PlotItem::Points(i) => points_bounds(i.series@),
            PlotItem::Arrows(i) => points_bounds(i.origins@).spec_merge(points_bounds(i.tips@)),
            PlotItem::Image(i) => i.area,
            PlotItem::HLine(i) => PlotBounds::spec_nothing().spec_extend_with_y(i.y),
            PlotItem::VLine(i) => PlotBounds::spec_nothing().spec_extend_with_x(i.x),
            PlotItem::BoxPlot(i) => areas_bounds(areas_of(i.boxes@)),
            PlotItem::BarChart(i) => areas_bounds(areas_of(i.bars@)),
        }
    }

    /// The element of the item that is closest to the pointer on the
    /// screen, the first of them if several are: a value of a line, a
    /// polygon or a set of points, the origin of an arrow, a box or a bar.
    /// Texts, images and the lines over the full plot have no elements.
    pub open spec fn spec_find_closest(self, pointer: Pos2, t: ScreenTransform) -> Option<
        ClosestElem,
    > {
        match self {
            PlotItem::Line(i) => closest_of(point_distances(i.series@, pointer, t)),
            PlotItem::Polygon(i) => closest_of(point_distances(i.series@, pointer, t)),
            PlotItem::Text(_) => None,
            PlotItem::Points(i) => closest_of(point_distances(i.series@, pointer, t)),
            PlotItem::Arrows(i) => closest_of(point_distances(i.origins@, pointer, t)),
            PlotItem::Image(_) => None,
            PlotItem::HLine(_) => None,
            PlotItem::VLine(_) => None,
            PlotItem::BoxPlot(i) => closest_of(area_distances(areas_of(i.boxes@), pointer, t)),
            PlotItem::BarChart(i) => closest_of(area_distances(areas_of(i.bars@), pointer, t)),
        }
    }

    /// The name under which the item is listed.
    pub fn name(&self) -> (r: &String)
        ensures
            r@ == self.spec_name(),
    {
        match self {
            PlotItem::Line(i) => &i.name,
            PlotItem::Polygon(i) => &i.name,
            PlotItem::Text(i) => &i.name,
            PlotItem::Points(i) => &i.name,
            PlotItem::Arrows(i) => &i.name,
            PlotItem::Image(i) => &i.name,
            PlotItem::HLine(i) => &i.name,
            PlotItem::VLine(i) => &i.name,
            PlotItem::BoxPlot(i) => &i.name,
            PlotItem::BarChart(i) => &i.name,
        }
    }

    /// Whether the item is drawn highlighted.
    pub fn highlighted(&self) -> (r: bool)
        ensures
            r == self.spec_highlighted(),
    {
        match self {
            PlotItem::Line(i) => i.highlight,
            PlotItem::Polygon(i) => i.highlight,
            PlotItem::Text(i) => i.highlight,
            PlotItem::Points(i) => i.highlight,
            PlotItem::Arrows(i) => i.highlight,
            PlotItem::Image(i) => i.highlight,
            PlotItem::HLine(i) => i.highlight,
            PlotItem::VLine(i) => i.highlight,
            PlotItem::BoxPlot(i) => i.highlight,
            PlotItem::BarChart(i) => i.highlight,
        }
    }

    /// Marks the item as highlighted.
    pub fn highlight(&mut self)
        ensures
            *final(self) == old(self).spec_highlight(),
            final(self).spec_highlighted(),
            final(self).spec_name() == old(self).spec_name(),
    {
        match self {
            PlotItem::Line(i) => {
                i.highlight = true;
            },
            PlotItem::Polygon(i) => {
                i.highlight = true;
            },
            PlotItem::Text(i) => {
                i.highlight = true;
            },
            PlotItem::Points(i) => {
                i.highlight = true;
            },
            PlotItem::Arrows(i) => {
                i.highlight = true;
            },
            PlotItem::Image(i) => {
                i.highlight = true;
            },
            PlotItem::HLine(i) => {
                i.highlight = true;
            },
            PlotItem::VLine(i) => {
                i.highlight = true;
            },
            PlotItem::BoxPlot(i) => {
                i.highlight = true;
            },
            PlotItem::BarChart(i) => {
                i.highlight = true;
            },
        }
    }

    /// The rectangle of data space that the item covers.
    pub fn get_bounds(&self) -> (r: PlotBounds)
        ensures
            r == self.spec_bounds(),
    {
        match self {
            PlotItem::Line(i) => bounds_of_points(&i.series),
            PlotItem::Polygon(i) => bounds_of_points(&i.series),
            PlotItem::Text(i) => {
                let mut b: PlotBounds = PlotBounds::nothing();
                b.extend_with(&i.position);
                b
            },
            PlotItem::Points(i) => bounds_of_points(&i.series),
            PlotItem::Arrows(i) => {
                let mut b: PlotBounds = bounds_of_points(&i.origins);
                let tips: PlotBounds = bounds_of_points(&i.tips);
                b.merge(&tips);
                b
            },
            PlotItem::Image(i) => i.area,
            PlotItem::HLine(i) => {
                let mut b: PlotBounds = PlotBounds::nothing();
                b.extend_with_y(i.y);
                b
            },
            PlotItem::VLine(i) => {
                let mut b: PlotBounds = PlotBounds::nothing();
                b.extend_with_x(i.x);
                b
            },
            PlotItem::BoxPlot(i) => bounds_of_areas(&i.boxes),
            PlotItem::BarChart(i) => bounds_of_areas(&i.bars),
        }
    }

    /// The element of the item that is closest to the pointer on the
    /// screen, with its squared distance; the first of them if several are
    /// equally close.
    pub fn find_closest(&self, pointer: Pos2, transform: &ScreenTransform) -> (r: Option<
        ClosestElem,
    >)
        ensures
            r == self.spec_find_closest(pointer, *transform),
    {
        proof {
            use_type_invariant(transform);
        }
        match self {
            PlotItem::Line(i) => closest_point(&i.series, pointer, transform),
            PlotItem::Polygon(i) => closest_point(&i.series, pointer, transform),
            PlotItem::Text(_) => None,
            PlotItem::Points(i) => closest_point(&i.series, pointer, transform),
            PlotItem::Arrows(i) => closest_point(&i.origins, pointer, transform),
            PlotItem::Image(_) => None,
            PlotItem::HLine(_) => None,
            PlotItem::VLine(_) => None,
            PlotItem::BoxPlot(i) => closest_area(&i.boxes, pointer, transform),
            PlotItem::BarChart(i) => closest_area(&i.bars, pointer, transform),
        }
    }
}

} // verus!
