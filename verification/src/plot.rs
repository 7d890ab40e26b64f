//! The configuration of a plot.

use vstd::prelude::*;
use crate::bounds::PlotBounds;
use crate::format::{default_hover_text, spec_default_hover_text};
use crate::geometry::{Value, Vec2};
use crate::hover::{HoverConfig, HoverLine};
use crate::input::PointerButton;
use crate::link::LinkedAxisGroup;
use crate::numeric::Ratio;

verus! {


/// A corner of the plot.
#[derive(Clone, Copy, Debug, PartialEq, Eq, Structural)]
pub enum Corner {
    LeftTop,
    RightTop,
    LeftBottom,
    RightBottom,
}

/// Where the legend of a plot stands.
#[derive(Clone, Copy, Debug, PartialEq, Eq, Structural)]
pub struct Legend {
    pub position: Corner,
}

/// A 2D plot: how it is laid out and what the user may do with it.
#[derive(Debug, PartialEq, Eq)]
pub struct Plot {
    pub id_source: u64,
    pub center_x_axis: bool,
    pub center_y_axis: bool,
    pub allow_zoom: bool,
    pub allow_drag: bool,
    pub min_auto_bounds: PlotBounds,
    pub margin_fraction: (Ratio, Ratio),
    pub allow_boxed_zoom: bool,
    pub boxed_zoom_pointer_button: PointerButton,
    pub linked_axes: Option<LinkedAxisGroup>,
    pub min_size: Vec2,
    pub width: Option<i32>,
    pub height: Option<i32>,
    pub data_aspect: Option<Ratio>,
    pub view_aspect: Option<Ratio>,
    pub hover_line: HoverLine,
    pub show_hover_label: bool,
    pub legend_config: Option<Legend>,
    pub show_background: bool,
    pub show_axes: [bool; 2],
}

/// The larger of two screen extents.
pub open spec fn at_least(v: i32, least: i32) -> i32 {
    if v < least {
        least
    } else {
        v
    }
}

impl Plot {
    /// The width that the plot takes where `available` is free: the width
    /// that was set; else the height that was set times the view aspect,
    /// where both were set; else the free width; and the minimum width at
    /// least.
    pub open spec fn spec_width(self, available: Vec2) -> i32 {
        at_least(
            match self.width {
                Some(w) => w,
                None => match (self.height, self.view_aspect) {
                    (Some(h), Some(aspect)) => aspect.spec_times(h as int),
                    _ => available.x,
                },
            },
            self.min_size.x,
        )
    }

    /// The height that the plot takes where `available` is free: the height
    /// that was set; else the plot's width divided by the view aspect, where
    /// one was set; else the free height; and the minimum height at least.
    pub open spec fn spec_height(self, available: Vec2) -> i32 {
        at_least(
            match self.height {
                Some(h) => h,
                None => match self.view_aspect {
                    Some(aspect) => aspect.spec_divide(self.spec_width(available) as int),
                    None => available.y,
                },
            },
            self.min_size.y,
        )
    }

    /// A plot with the default configuration: zoom, drag and boxed zoom
    /// with the secondary button allowed, a margin of a twentieth, a
    /// minimum size of 64 by 64 points, both rulers and the label on hover,
    /// background and both axes shown, no legend, no link, no fixed size
    /// or aspect, and no minimum bounds.
    pub fn new(id_source: u64) -> (r: Plot)
        ensures
            r.id_source == id_source,
            !r.center_x_axis && !r.center_y_axis,
            r.allow_zoom && r.allow_drag && r.allow_boxed_zoom,
            r.min_auto_bounds == PlotBounds::spec_nothing(),
            r.margin_fraction.0.num() == 1 && r.margin_fraction.0.den() == 20,
            r.margin_fraction.1.num() == 1 && r.margin_fraction.1.den() == 20,
            r.boxed_zoom_pointer_button == PointerButton::Secondary,
            r.linked_axes is None,
            r.min_size == (Vec2 { x: 64, y: 64 }),
            r.width is None && r.height is None && r.data_aspect is None && r.view_aspect is None,
            r.hover_line == HoverLine::XY,
            r.show_hover_label,
            r.legend_config is None,
            r.show_background,
            r.show_axes[0] && r.show_axes[1],
    {
        let margin: Ratio = match Ratio::new(1, 20) {
            Some(m) => m,
            None => Ratio::one(),
        };
        Plot {
            id_source,
            center_x_axis: false,
            center_y_axis: false,
            allow_zoom: true,
            allow_drag: true,
            min_auto_bounds: PlotBounds::nothing(),
            margin_fraction: (margin, margin),
            allow_boxed_zoom: true,
            boxed_zoom_pointer_button: PointerButton::Secondary,
            linked_axes: None,
            min_size: Vec2 { x: 64, y: 64 },
            width: None,
            height: None,
            data_aspect: None,
            view_aspect: None,
            hover_line: HoverLine::XY,
            show_hover_label: true,
            legend_config: None,
            show_background: true,
            show_axes: [true, true],
        }
    }

    /// Width over height of one unit of data on the screen.
    pub fn data_aspect(self, data_aspect: Ratio) -> (r: Plot)
        ensures
            r == (Plot { data_aspect: Some(data_aspect), ..self }),
    {
        Plot { data_aspect: Some(data_aspect), ..self }
    }

    /// Width over height of the plot region.
    pub fn view_aspect(self, view_aspect: Ratio) -> (r: Plot)
        ensures
            r == (Plot { view_aspect: Some(view_aspect), ..self }),
    {
        Plot { view_aspect: Some(view_aspect), ..self }
    }

    /// Width of the plot, which is then its minimum width too.
    pub fn width(self, width: i32) -> (r: Plot)
        ensures
            r == (Plot {
                min_size: Vec2 { x: width, y: self.min_size.y },
                width: Some(width),
                ..self
            }),
    {
        Plot { min_size: Vec2 { x: width, y: self.min_size.y }, width: Some(width), ..self }
    }

    /// Height of the plot, which is then its minimum height too.
    pub fn height(self, height: i32) -> (r: Plot)
        ensures
            r == (Plot {
                min_size: Vec2 { x: self.min_size.x, y: height },
                height: Some(height),
                ..self
            }),
    {
        Plot { min_size: Vec2 { x: self.min_size.x, y: height }, height: Some(height), ..self }
    }

    /// Minimum size of the plot view.
    pub fn min_size(self, min_size: Vec2) -> (r: Plot)
        ensures
            r == (Plot { min_size, ..self }),
    {
        Plot { min_size, ..self }
    }

    /// Which rulers mark the hovered value.
    pub fn hover_line(self, hover_line: HoverLine) -> (r: Plot)
        ensures
            r == (Plot { hover_line, ..self }),
    {
        Plot { hover_line, ..self }
    }

    /// Always keep the x axis centered.
    pub fn center_x_axis(self, on: bool) -> (r: Plot)
        ensures
            r == (Plot { center_x_axis: on, ..self }),
    {
        Plot { center_x_axis: on, ..self }
    }

    /// Always keep the y axis centered.
    pub fn center_y_axis(self, on: bool) -> (r: Plot)
        ensures
            r == (Plot { center_y_axis: on, ..self }),
    {
        Plot { center_y_axis: on, ..self }
    }

    /// Whether to allow zooming in the plot.
    pub fn allow_zoom(self, on: bool) -> (r: Plot)
        ensures
            r == (Plot { allow_zoom: on, ..self }),
    {
        Plot { allow_zoom: on, ..self }
    }

    /// Whether to allow zooming by dragging out a box.
    pub fn allow_boxed_zoom(self, on: bool) -> (r: Plot)
        ensures
            r == (Plot { allow_boxed_zoom: on, ..self }),
    {
        Plot { allow_boxed_zoom: on, ..self }
    }

    /// The button that drags out the box of a boxed zoom.
    pub fn boxed_zoom_pointer_button(self, boxed_zoom_pointer_button: PointerButton) -> (r: Plot)
        ensures
            r == (Plot { boxed_zoom_pointer_button, ..self }),
    {
        Plot { boxed_zoom_pointer_button, ..self }
    }

    /// Whether to allow dragging in the plot to move the bounds.
    pub fn allow_drag(self, on: bool) -> (r: Plot)
        ensures
            r == (Plot { allow_drag: on, ..self }),
    {
        Plot { allow_drag: on, ..self }
    }

    /// Whether to show a label at the hovered value.
    pub fn show_hover_label(self, show_hover_label: bool) -> (r: Plot)
        ensures
            r == (Plot { show_hover_label, ..self }),
    {
        Plot { show_hover_label, ..self }
    }

    /// The fraction of its extent by which each axis is widened on both
    /// sides when the bounds follow the items.
    pub fn margin_fraction(self, x: Ratio, y: Ratio) -> (r: Plot)
        ensures
            r == (Plot { margin_fraction: (x, y), ..self }),
    {
        Plot { margin_fraction: (x, y), ..self }
    }

    /// Expands the minimum bounds to include the given x value.
    pub fn include_x(self, x: i64) -> (r: Plot)
        ensures
            r == (Plot { min_auto_bounds: self.min_auto_bounds.spec_extend_with_x(x), ..self }),
    {
        let mut bounds: PlotBounds = self.min_auto_bounds;
        bounds.extend_with_x(x);
        Plot { min_auto_bounds: bounds, ..self }
    }

    /// Expands the minimum bounds to include the given y value.
    pub fn include_y(self, y: i64) -> (r: Plot)
        ensures
            r == (Plot { min_auto_bounds: self.min_auto_bounds.spec_extend_with_y(y), ..self }),
    {
        let mut bounds: PlotBounds = self.min_auto_bounds;
        bounds.extend_with_y(y);
        Plot { min_auto_bounds: bounds, ..self }
    }

    /// Show a legend that lists all named items.
    pub fn legend(self, legend: Legend) -> (r: Plot)
        ensures
            r == (Plot { legend_config: Some(legend), ..self }),
    {
        Plot { legend_config: Some(legend), ..self }
    }

    /// Whether to show the background.
    pub fn show_background(self, show: bool) -> (r: Plot)
        ensures
            r == (Plot { show_background: show, ..self }),
    {
        Plot { show_background: show, ..self }
    }

    /// Whether to show the x axis and the y axis.
    pub fn show_axes(self, show: [bool; 2]) -> (r: Plot)
        ensures
            r == (Plot { show_axes: show, ..self }),
    {
        Plot { show_axes: show, ..self }
    }

    /// Makes the plot share its bounds with the other plots of the group.
    pub fn link_axis(self, group: LinkedAxisGroup) -> (r: Plot)
        ensures
            r == (Plot { linked_axes: Some(group), ..self }),
    {
        Plot { linked_axes: Some(group), ..self }
    }

    /// The text of the hover label where the host sets no formatter of its
    /// own: the name of the item on a line of its own, if it has one, then
    /// `x = ` and `y = ` with the coordinates for which rulers are drawn.
    pub fn default_hover_formatter(config: &HoverConfig, name: &str, value: &Value) -> (r: String)
        ensures
            r@ == spec_default_hover_text(*config, name@, *value),
    {
        default_hover_text(config, name, value)
    }

    /// The size that the plot takes where `available` is free.
    pub fn size(&self, available: Vec2) -> (r: Vec2)
        ensures
            r == (Vec2 { x: self.spec_width(available), y: self.spec_height(available) }),
    {
        let width: i32 = match self.width {
            Some(w) => w,
            None => match (self.height, self.view_aspect) {
                (Some(h), Some(aspect)) => aspect.times(h),
                _ => available.x,
            },
        };
        let width: i32 = if width < self.min_size.x { self.min_size.x } else { width };
        let height: i32 = match self.height {
            Some(h) => h,
            None => match self.view_aspect {
                Some(aspect) => aspect.divide(width),
                None => available.y,
            },
        };
        let height: i32 = if height < self.min_size.y { self.min_size.y } else { height };
        Vec2 { x: width, y: height }
    }
}

} // verus!
