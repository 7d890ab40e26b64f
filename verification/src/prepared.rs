//! A plot that is ready to be drawn: its items in drawing order, its
//! transform, and what it shows under the pointer.

use vstd::prelude::*;
use crate::axis::{grid_lines, spec_grid_lines, GridLine};
use crate::geometry::{Pos2, Value};
use crate::hover::{hovered_candidate, spec_hovered, ClosestElem, HoverConfig, HoverLine};
use crate::items::PlotItem;
use crate::transform::ScreenTransform;

verus! {

/// What a plot shows under the pointer.
#[derive(Clone, Copy, Debug, PartialEq, Eq, Structural)]
pub enum Hover {
    /// Nothing: neither rulers nor a label are wanted.
    Nothing,
    /// The element `elem` of the item at the position `item`, which draws
    /// its own marker, rulers and label.
    Item { item: usize, elem: ClosestElem },
    /// Plain rulers at the value under the pointer, without a name.
    Rulers { value: Value },
}

/// What a plot draws in one frame, apart from its items.
pub struct PlotShapes {
    /// The grid lines of the x axis; empty where the axis is not shown.
    pub x_grid: Vec<GridLine>,
    /// The grid lines of the y axis; empty where the axis is not shown.
    pub y_grid: Vec<GridLine>,
    /// What is shown under the pointer; `None` where the pointer is not
    /// over the plot.
    pub hover: Option<Hover>,
}

/// A plot that is ready to be drawn.
pub struct PreparedPlot {
    pub items: Vec<PlotItem>,
    pub hover_line: HoverLine,
    pub show_hover_label: bool,
    pub show_axes: [bool; 2],
    pub transform: ScreenTransform,
}

/// The closest element of each item, in the order of the items.
pub open spec fn closest_elements(items: Seq<PlotItem>, pointer: Pos2, t: ScreenTransform) -> Seq<
    Option<ClosestElem>,
> {
    Seq::new(items.len(), |i: int| items[i].spec_find_closest(pointer, t))
}

impl PreparedPlot {
    /// How an item draws the hovered element.
    pub open spec fn spec_hover_config(self) -> HoverConfig {
        HoverConfig { hover_line: self.hover_line, show_hover_label: self.show_hover_label }
    }

    /// What the plot shows under the pointer: nothing where neither rulers
    /// nor a label are wanted; else the closest element of the first of the
    /// items whose closest element is nearest to the pointer, if that is
    /// within the interaction radius; else plain rulers at the pointer's
    /// value.
    pub open spec fn spec_hover(self, pointer: Pos2) -> Hover {
        if self.hover_line == HoverLine::Off && !self.show_hover_label {
            Hover::Nothing
        } else {
            let closest = closest_elements(self.items@, pointer, self.transform);
            match spec_hovered(closest) {
                Some(i) => Hover::Item { item: i as usize, elem: closest[i].unwrap() },
                None => Hover::Rulers { value: self.transform.spec_value_from_position(pointer) },
            }
        }
    }

    /// The grid lines of an axis that is shown, none of one that is not.
    pub open spec fn spec_axis_lines(self, axis: int) -> Seq<GridLine> {
        if self.show_axes[axis] {
            spec_grid_lines(self.transform, axis)
        } else {
            Seq::empty()
        }
    }

    /// How an item draws the hovered element.
    pub fn hover_config(&self) -> (r: HoverConfig)
        ensures
            r == self.spec_hover_config(),
    {
        HoverConfig { hover_line: self.hover_line, show_hover_label: self.show_hover_label }
    }

    /// The grid lines of an axis (0 is x, 1 is y), in rising order of their
    /// value.
    pub fn paint_axis(&self, axis: usize) -> (lines: Vec<GridLine>)
        requires
            axis < 2,
        ensures
            lines@ == spec_grid_lines(self.transform, axis as int),
    {
        grid_lines(&self.transform, axis)
    }

    /// What the plot shows under the pointer.
    pub fn hover(&self, pointer: Pos2) -> (r: Hover)
        ensures
            r == self.spec_hover(pointer),
    {
        if self.hover_line.is_off() && !self.show_hover_label {
            return Hover::Nothing;
        }
        let ghost closest = closest_elements(self.items@, pointer, self.transform);
        let mut candidates: Vec<Option<ClosestElem>> = Vec::new();
        let mut i: usize = 0;
        while i < self.items.len()
            invariant
                i <= self.items.len(),
                closest == closest_elements(self.items@, pointer, self.transform),
                candidates@ == closest.take(i as int),
            decreases self.items.len() - i,
        {
            let c: Option<ClosestElem> = self.items[i].find_closest(pointer, &self.transform);
            candidates.push(c);
            assert(candidates@ =~= closest.take(i + 1));
            i = i + 1;
        }
        assert(candidates@ =~= closest);
        match hovered_candidate(&candidates) {
            Some(j) => {
                match candidates[j] {
                    Some(elem) => Hover::Item { item: j, elem },
                    None => Hover::Rulers { value: self.transform.value_from_position(pointer) },
                }
            },
            None => Hover::Rulers { value: self.transform.value_from_position(pointer) },
        }
    }

    /// What the plot draws in this frame apart from its items: the grid
    /// lines of the axes that are shown and, where the pointer is over the
    /// plot, what is under it.
    pub fn ui(&self, hover_pos: Option<Pos2>) -> (r: PlotShapes)
        ensures
            r.x_grid@ == self.spec_axis_lines(0),
            r.y_grid@ == self.spec_axis_lines(1),
            r.hover == match hover_pos {
                Some(pointer) => Some(self.spec_hover(pointer)),
                None => None,
            },
    {
        let x_grid: Vec<GridLine> = if self.show_axes[0] {
            self.paint_axis(0)
        } else {
            Vec::new()
        };
        let y_grid: Vec<GridLine> = if self.show_axes[1] {
            self.paint_axis(1)
        } else {
            Vec::new()
        };
        let hover: Option<Hover> = match hover_pos {
            Some(pointer) => Some(self.hover(pointer)),
            None => None,
        };
        PlotShapes { x_grid, y_grid, hover }
    }
}

} // verus!
