//! The handle through which the items of a plot are added.

use vstd::prelude::*;
use crate::bounds::PlotBounds;
use crate::geometry::{Pos2, Value};
use crate::input::{Context, Response};
use crate::items::{
    Arrows, BarChart, BoxPlot, HLine, ItemColor, Line, PlotImage, PlotItem, Points, Polygon, Text,
    VLine,
};
use crate::numeric::{clamp_i32, sat_i32};
use crate::transform::ScreenTransform;

verus! {

/// The colour that an item gets: its own, or the automatic colour of the
/// number `next` where it has none.
pub open spec fn resolved_color(color: ItemColor, next: usize) -> ItemColor {
    if color.spec_is_unassigned() {
        ItemColor::Auto(next)
    } else {
        color
    }
}

/// The number of the next automatic colour after one was handed out; it
/// stops at the largest number.
pub open spec fn following(next: usize) -> usize {
    if next < usize::MAX {
        (next + 1) as usize
    } else {
        next
    }
}

/// The number of the next automatic colour after an item of the colour
/// `color` was added.
pub open spec fn next_after(color: ItemColor, next: usize) -> usize {
    if color.spec_is_unassigned() {
        following(next)
    } else {
        next
    }
}

/// Collects the items of a plot while it is built, and answers questions
/// about the plot as it was in the last frame.
pub struct PlotUi {
    items: Vec<PlotItem>,
    next_auto_color_idx: usize,
    last_screen_transform: ScreenTransform,
    response: Response,
    ctx: Context,
}

impl PlotUi {
    /// The items added so far, in the order in which they were added.
    pub closed spec fn spec_items(self) -> Seq<PlotItem> {
        self.items@
    }

    /// The number of the next automatic colour.
    pub closed spec fn spec_next_auto_color_idx(self) -> usize {
        self.next_auto_color_idx
    }

    /// The transform of the last frame.
    pub closed spec fn spec_last_screen_transform(self) -> ScreenTransform {
        self.last_screen_transform
    }

    pub closed spec fn spec_response(self) -> Response {
        self.response
    }

    pub closed spec fn spec_ctx(self) -> Context {
        self.ctx
    }

    /// The handle after `item` was added, or was left out because it is
    /// empty, where `color` is the colour that the item came with.
    pub open spec fn spec_added(self, after: PlotUi, empty: bool, color: ItemColor, item: PlotItem) -> bool {
        &&& after.spec_last_screen_transform() == self.spec_last_screen_transform()
        &&& after.spec_response() == self.spec_response()
        &&& after.spec_ctx() == self.spec_ctx()
        &&& empty ==> after.spec_items() == self.spec_items() && after.spec_next_auto_color_idx()
            == self.spec_next_auto_color_idx()
        &&& !empty ==> after.spec_items() == self.spec_items().push(item)
            && after.spec_next_auto_color_idx() == next_after(color, self.spec_next_auto_color_idx())
    }

    /// A handle without items.
    pub fn new(last_screen_transform: ScreenTransform, response: Response, ctx: Context) -> (r: PlotUi)
        ensures
            r.spec_items() == Seq::<PlotItem>::empty(),
            r.spec_next_auto_color_idx() == 0,
            r.spec_last_screen_transform() == last_screen_transform,
            r.spec_response() == response,
            r.spec_ctx() == ctx,
    {
        PlotUi { items: Vec::new(), next_auto_color_idx: 0, last_screen_transform, response, ctx }
    }

    /// Hands out the items, and what the handle was made with.
    pub fn into_parts(self) -> (r: (Vec<PlotItem>, Response, ScreenTransform, Context))
        ensures
            r.0@ == self.spec_items(),
            r.1 == self.spec_response(),
            r.2 == self.spec_last_screen_transform(),
            r.3 == self.spec_ctx(),
    {
        (self.items, self.response, self.last_screen_transform, self.ctx)
    }

    fn auto_color(&mut self) -> (c: ItemColor)
        ensures
            c == ItemColor::Auto(old(self).spec_next_auto_color_idx()),
            final(self).spec_next_auto_color_idx() == following(old(self).spec_next_auto_color_idx()),
            final(self).spec_items() == old(self).spec_items(),
            final(self).spec_last_screen_transform() == old(self).spec_last_screen_transform(),
            final(self).spec_response() == old(self).spec_response(),
            final(self).spec_ctx() == old(self).spec_ctx(),
    {
        let i: usize = self.next_auto_color_idx;
        if i < usize::MAX {
            self.next_auto_color_idx = i + 1;
        }
        ItemColor::Auto(i)
    }

    fn resolve_color(&mut self, color: ItemColor) -> (c: ItemColor)
        ensures
            c == resolved_color(color, old(self).spec_next_auto_color_idx()),
            final(self).spec_next_auto_color_idx() == next_after(
                color,
                old(self).spec_next_auto_color_idx(),
            ),
            final(self).spec_items() == old(self).spec_items(),
            final(self).spec_last_screen_transform() == old(self).spec_last_screen_transform(),
            final(self).spec_response() == old(self).spec_response(),
            final(self).spec_ctx() == old(self).spec_ctx(),
    {
        if color.is_unassigned() {
            self.auto_color()
        } else {
            color
        }
    }

    pub fn ctx(&self) -> (r: &Context)
        ensures
            *r == self.spec_ctx(),
    {
        &self.ctx
    }

    /// The plot bounds as they were in the last frame. The bounds do not
    /// change until the plot is drawn.
    pub fn plot_bounds(&self) -> (r: PlotBounds)
        ensures
            r == self.spec_last_screen_transform().spec_bounds(),
    {
        *self.last_screen_transform.bounds()
    }

    /// Whether the pointer is over the plot.
    pub fn plot_hovered(&self) -> (r: bool)
        ensures
            r == self.spec_response().hovered,
    {
        self.response.hovered()
    }

    /// The pointer position in plot coordinates, whether or not the pointer
    /// is over the plot: the value that the last frame showed where the
    /// pointer was before the drag of this frame.
    pub fn pointer_coordinate(&self) -> (r: Option<Value>)
        ensures
            r == match self.spec_ctx().input.latest_pos {
                Some(p) => Some(
                    self.spec_last_screen_transform().spec_value_from_position(
                        Pos2 {
                            x: sat_i32(p.x - self.spec_response().drag_delta.x),
                            y: sat_i32(p.y - self.spec_response().drag_delta.y),
                        },
                    ),
                ),
                None => None,
            },
    {
        match self.ctx.input.latest_pos {
            Some(p) => {
                let last_pos = Pos2 {
                    x: clamp_i32(p.x as i128 - self.response.drag_delta.x as i128),
                    y: clamp_i32(p.y as i128 - self.response.drag_delta.y as i128),
                };
                Some(self.plot_from_screen(last_pos))
            },
            None => None,
        }
    }

    /// The drag of this frame in plot coordinates.
    pub fn pointer_coordinate_drag_delta(&self) -> (r: (i64, i64))
        ensures
            r == self.spec_last_screen_transform().spec_value_delta(self.spec_response().drag_delta),
    {
        self.last_screen_transform.value_delta(self.response.drag_delta)
    }

    /// Transforms plot coordinates to screen coordinates.
    pub fn screen_from_plot(&self, position: Value) -> (r: Pos2)
        ensures
            r == self.spec_last_screen_transform().spec_position_from_value(position),
    {
        self.last_screen_transform.position_from_value(&position)
    }

    /// Transforms screen coordinates to plot coordinates.
    pub fn plot_from_screen(&self, position: Pos2) -> (r: Value)
        ensures
            r == self.spec_last_screen_transform().spec_value_from_position(position),
    {
        self.last_screen_transform.value_from_position(position)
    }

    /// Adds a data line, unless it holds no value. A line without a colour
    /// gets the next automatic one.
    pub fn line(&mut self, line: Line)
        ensures
            old(self).spec_added(
                *final(self),
                line.series@.len() == 0,
                line.color,
                PlotItem::Line(
                    Line {
                        color: resolved_color(line.color, old(self).spec_next_auto_color_idx()),
                        ..line
                    },
                ),
            ),
    {
        if line.series.len() == 0 {
            return ;
        }
        let mut line = line;
        line.color = self.resolve_color(line.color);
        self.items.push(PlotItem::Line(line));
    }

    /// Adds a polygon, unless it holds no value. The polygon has to be
    /// convex. One without a colour gets the next automatic one.
    pub fn polygon(&mut self, polygon: Polygon)
        ensures
            old(self).spec_added(
                *final(self),
                polygon.series@.len() == 0,
                polygon.color,
                PlotItem::Polygon(
                    Polygon {
                        color: resolved_color(polygon.color, old(self).spec_next_auto_color_idx()),
                        ..polygon
                    },
                ),
            ),
    {
        if polygon.series.len() == 0 {
            return ;
        }
        let mut polygon = polygon;
        polygon.color = self.resolve_color(polygon.color);
        self.items.push(PlotItem::Polygon(polygon));
    }

    /// Adds a text, unless it is empty. A text keeps the colour it has.
    pub fn text(&mut self, text: Text)
        ensures
            old(self).spec_added(
                *final(self),
                text.text@.len() == 0,
                ItemColor::Auto(0),
                PlotItem::Text(text),
            ),
    {
        if text.text.as_str().is_empty() {
            return ;
        }
        self.items.push(PlotItem::Text(text));
    }

    /// Adds data points, unless there is none. Points without a colour get
    /// the next automatic one.
    pub fn points(&mut self, points: Points)
        ensures
            old(self).spec_added(
                *final(self),
                points.series@.len() == 0,
                points.color,
                PlotItem::Points(
                    Points {
                        color: resolved_color(points.color, old(self).spec_next_auto_color_idx()),
                        ..points
                    },
                ),
            ),
    {
        if points.series.len() == 0 {
            return ;
        }
        let mut points = points;
        points.color = self.resolve_color(points.color);
        self.items.push(PlotItem::Points(points));
    }

    /// Adds arrows, unless there are no origins or no tips. Arrows without
    /// a colour get the next automatic one.
    pub fn arrows(&mut self, arrows: Arrows)
        ensures
            old(self).spec_added(
                *final(self),
                arrows.origins@.len() == 0 || arrows.tips@.len() == 0,
                arrows.color,
                PlotItem::Arrows(
                    Arrows {
                        color: resolved_color(arrows.color, old(self).spec_next_auto_color_idx()),
                        ..arrows
                    },
                ),
            ),
    {
        if arrows.origins.len() == 0 || arrows.tips.len() == 0 {
            return ;
        }
        let mut arrows = arrows;
        arrows.color = self.resolve_color(arrows.color);
        self.items.push(PlotItem::Arrows(arrows));
    }

    /// Adds an image.
    pub fn image(&mut self, image: PlotImage)
        ensures
            old(self).spec_added(*final(self), false, ItemColor::Auto(0), PlotItem::Image(image)),
    {
        self.items.push(PlotItem::Image(image));
    }

    /// Adds a horizontal line over the full width of the plot. One without
    /// a colour gets the next automatic one.
    pub fn hline(&mut self, hline: HLine)
        ensures
            old(self).spec_added(
                *final(self),
                false,
                hline.color,
                PlotItem::HLine(
                    HLine {
                        color: resolved_color(hline.color, old(self).spec_next_auto_color_idx()),
                        ..hline
                    },
                ),
            ),
    {
        let mut hline = hline;
        hline.color = self.resolve_color(hline.color);
        self.items.push(PlotItem::HLine(hline));
    }

    /// Adds a vertical line over the full height of the plot. One without a
    /// colour gets the next automatic one.
    pub fn vline(&mut self, vline: VLine)
        ensures
            old(self).spec_added(
                *final(self),
                false,
                vline.color,
                PlotItem::VLine(
                    VLine {
                        color: resolved_color(vline.color, old(self).spec_next_auto_color_idx()),
                        ..vline
                    },
                ),
            ),
    {
        let mut vline = vline;
        vline.color = self.resolve_color(vline.color);
        self.items.push(PlotItem::VLine(vline));
    }

    /// Adds a box plot diagram, unless it holds no box. One without a
    /// colour gets the next automatic one.
    pub fn box_plot(&mut self, box_plot: BoxPlot)
        ensures
            old(self).spec_added(
                *final(self),
                box_plot.boxes@.len() == 0,
                box_plot.default_color,
                PlotItem::BoxPlot(
                    BoxPlot {
                        default_color: resolved_color(
                            box_plot.default_color,
                            old(self).spec_next_auto_color_idx(),
                        ),
                        ..box_plot
                    },
                ),
            ),
    {
        if box_plot.boxes.len() == 0 {
            return ;
        }
        let mut box_plot = box_plot;
        box_plot.default_color = self.resolve_color(box_plot.default_color);
        self.items.push(PlotItem::BoxPlot(box_plot));
    }

    /// Adds a bar chart, unless it holds no bar. One without a colour gets
    /// the next automatic one.
    pub fn bar_chart(&mut self, chart: BarChart)
        ensures
            old(self).spec_added(
                *final(self),
                chart.bars@.len() == 0,
                chart.default_color,
                PlotItem::BarChart(
                    BarChart {
                        default_color: resolved_color(
                            chart.default_color,
                            old(self).spec_next_auto_color_idx(),
                        ),
                        ..chart
                    },
                ),
            ),
    {
        if chart.bars.len() == 0 {
            return ;
        }
        let mut chart = chart;
        chart.default_color = self.resolve_color(chart.default_color);
        self.items.push(PlotItem::BarChart(chart));
    }
}

} // verus!
