//! What the input of one frame does to the bounds of a plot: link
//! override, double click, fit to the items, data aspect, box zoom, pan,
//! zoom and scroll.

use vstd::prelude::*;
use crate::bounds::PlotBounds;
use crate::geometry::{Pos2, Rect, Vec2};
use crate::input::{CursorIcon, InputState, PointerButton, Response};
use crate::items::PlotItem;
use crate::numeric::Ratio;
use crate::plot::Plot;
use crate::transform::ScreenTransform;

verus! {

/// The bounds of a plot and whether they follow the items.
#[derive(Clone, Copy, Debug, PartialEq, Eq)]
pub struct ViewState {
    pub transform: ScreenTransform,
    pub auto_bounds: bool,
}

/// Where the drag of the pointer stands in a frame.
#[derive(Clone, Copy, Debug, PartialEq, Eq, Structural)]
pub enum DragState {
    /// No drag moves the bounds or a box.
    Idle,
    /// The primary button drags the bounds along.
    Panning,
    /// The button of the box zoom starts a drag: the place of the press is
    /// recorded.
    BoxZoomPending,
    /// The button of the box zoom is held: the box is tracked, the bounds
    /// stay.
    BoxZoomDragging,
    /// The drag of the box zoom ended: the box becomes the bounds.
    BoxZoomCommit,
}

/// What the input of one frame does to a plot.
#[derive(Clone, Copy, Debug, PartialEq, Eq)]
pub struct Interaction {
    /// Where the drag of the pointer stands.
    pub state: DragState,
    /// The transform with which the frame is drawn.
    pub transform: ScreenTransform,
    /// Whether the bounds follow the items from now on.
    pub auto_bounds: bool,
    /// Where the drag of a box zoom started, while one is going on.
    pub last_click_pos_for_zoom: Option<Pos2>,
    /// The box that a box zoom is dragging out, to be drawn over the plot.
    pub boxed_zoom_rect: Option<Rect>,
    /// The shape of the pointer that the interaction asks for.
    pub cursor: Option<CursorIcon>,
}

/// The smallest bounds that hold `start` and the bounds of all the items.
pub open spec fn merged_bounds(start: PlotBounds, items: Seq<PlotItem>) -> PlotBounds
    decreases items.len(),
{
    if items.len() == 0 {
        start
    } else {
        merged_bounds(start, items.drop_last()).spec_merge(items.last().spec_bounds())
    }
}

impl Plot {
    /// Whether a link group hands the plot bounds in this frame.
    pub open spec fn spec_link_supplied(self) -> bool {
        self.linked_axes matches Some(g) && g.spec_get() is Some
    }

    /// Whether the x axis comes from a link group in this frame.
    pub open spec fn spec_keeps_x(self) -> bool {
        self.linked_axes matches Some(g) && g.spec_get() is Some && g.spec_link_x()
    }

    /// Whether the y axis comes from a link group in this frame.
    pub open spec fn spec_keeps_y(self) -> bool {
        self.linked_axes matches Some(g) && g.spec_get() is Some && g.spec_link_y()
    }

    /// The bounds of the last frame with each linked axis replaced by that
    /// of the link group.
    pub open spec fn spec_linked_bounds(self, last: PlotBounds) -> PlotBounds {
        match self.linked_axes {
            Some(g) => g.spec_apply(last),
            None => last,
        }
    }

    /// The bounds that follow the items: the minimum bounds merged with the
    /// bounds of every item, and the margin around that.
    pub open spec fn spec_fit(self, items: Seq<PlotItem>) -> PlotBounds {
        merged_bounds(self.min_auto_bounds, items).spec_add_relative_margin(
            self.margin_fraction.0,
            self.margin_fraction.1,
        )
    }

    /// The fitted bounds, but for an axis that a link group hands in, which
    /// keeps its linked range.
    pub open spec fn spec_fitted(self, linked: PlotBounds, fit: PlotBounds) -> PlotBounds {
        PlotBounds {
            min: [
                if self.spec_keeps_x() { linked.min[0] } else { fit.min[0] },
                if self.spec_keeps_y() { linked.min[1] } else { fit.min[1] },
            ],
            max: [
                if self.spec_keeps_x() { linked.max[0] } else { fit.max[0] },
                if self.spec_keeps_y() { linked.max[1] } else { fit.max[1] },
            ],
        }
    }

    /// Whether a fixed data aspect changes the x axis: it does when only
    /// the y axis is linked.
    pub open spec fn spec_preserve_y(self) -> bool {
        self.linked_axes matches Some(g) && g.spec_link_y() && !g.spec_link_x()
    }

    /// The view before pointer input is applied. A link group's bounds
    /// override those of the last frame and switch automatic bounds off; a
    /// double click switches them on. Where the bounds are automatic or not
    /// valid, every axis that is not linked is fitted to the items. Then
    /// the data aspect is enforced.
    pub open spec fn spec_start(
        self,
        rect: Rect,
        last: PlotBounds,
        auto_bounds: bool,
        double_clicked: bool,
        fit: PlotBounds,
    ) -> ViewState {
        let linked = self.spec_linked_bounds(last);
        let auto1 = (auto_bounds && !self.spec_link_supplied()) || double_clicked;
        let bounds = if auto1 || !linked.spec_is_valid() {
            self.spec_fitted(linked, fit)
        } else {
            linked
        };
        let t0 = ScreenTransform::spec_new(rect, bounds, self.center_x_axis, self.center_y_axis);
        let t1 = match self.data_aspect {
            Some(aspect) => t0.with_bounds(t0.spec_with_aspect(aspect, self.spec_preserve_y())),
            None => t0,
        };
        ViewState { transform: t1, auto_bounds: auto1 }
    }

    /// Whether the button of the box zoom is dragging.
    pub open spec fn spec_box_dragging(self, response: Response) -> bool {
        self.allow_boxed_zoom && response.spec_dragged_by(self.boxed_zoom_pointer_button)
    }

    /// Where the drag of the box zoom started: the pointer's place in the
    /// frame in which that drag starts, what was remembered otherwise.
    pub open spec fn spec_click(self, last_click: Option<Pos2>, response: Response) -> Option<Pos2> {
        if self.spec_box_dragging(response) && response.drag_started {
            response.hover_pos
        } else {
            last_click
        }
    }

    /// Whether both corners of the box are known.
    pub open spec fn spec_has_box(self, last_click: Option<Pos2>, response: Response) -> bool {
        self.allow_boxed_zoom && self.spec_click(last_click, response) is Some
            && response.hover_pos is Some
    }

    /// The box to draw over the plot while the box zoom is dragging.
    pub open spec fn spec_boxed_zoom_rect(self, last_click: Option<Pos2>, response: Response) -> Option<Rect> {
        if self.spec_has_box(last_click, response) && self.spec_box_dragging(response) {
            Some(
                Rect::spec_from_two_pos(
                    self.spec_click(last_click, response).unwrap(),
                    response.hover_pos.unwrap(),
                ),
            )
        } else {
            None
        }
    }

    /// Whether the box zoom is committed in this frame: the drag ended and
    /// both corners of the box are known.
    pub open spec fn spec_box_commit(self, last_click: Option<Pos2>, response: Response) -> bool {
        self.spec_has_box(last_click, response) && response.drag_released
    }

    /// The view after the box zoom. A committed box with valid bounds
    /// replaces the bounds and switches automatic bounds off; one without
    /// switches them on.
    pub open spec fn spec_after_box_zoom(
        self,
        state: ViewState,
        last_click: Option<Pos2>,
        response: Response,
    ) -> ViewState {
        if self.spec_box_commit(last_click, response) {
            let target = state.transform.spec_box_bounds(
                self.spec_click(last_click, response).unwrap(),
                response.hover_pos.unwrap(),
            );
            if target.spec_is_valid() {
                ViewState { transform: state.transform.with_bounds(target), auto_bounds: false }
            } else {
                ViewState { transform: state.transform, auto_bounds: true }
            }
        } else {
            state
        }
    }

    /// What is remembered of the start of the drag after this frame:
    /// nothing once the box zoom is committed.
    pub open spec fn spec_click_after(self, last_click: Option<Pos2>, response: Response) -> Option<Pos2> {
        if self.spec_box_commit(last_click, response) {
            None
        } else {
            self.spec_click(last_click, response)
        }
    }

    /// Whether the plot is panned in this frame: the primary button drags,
    /// and the box zoom does not.
    pub open spec fn spec_pans(self, response: Response) -> bool {
        self.allow_drag && response.spec_dragged_by(PointerButton::Primary)
            && !self.spec_box_dragging(response)
    }

    /// The view after panning: the bounds move against the drag, and
    /// automatic bounds are off.
    pub open spec fn spec_after_pan(self, state: ViewState, response: Response) -> ViewState {
        if self.spec_pans(response) {
            ViewState {
                transform: state.transform.with_bounds(
                    state.transform.spec_translated(response.drag_delta.spec_neg()),
                ),
                auto_bounds: false,
            }
        } else {
            state
        }
    }

    /// The zoom factors of this frame: one factor for both axes where the
    /// data aspect is fixed.
    pub open spec fn spec_zoom_factor(self, input: InputState) -> (Ratio, Ratio) {
        if self.data_aspect is Some {
            (input.zoom_delta, input.zoom_delta)
        } else {
            input.zoom_delta_2d
        }
    }

    /// Whether the plot is zoomed in this frame: the pointer is over it and
    /// a factor differs from one.
    pub open spec fn spec_zooms(self, response: Response, input: InputState) -> bool {
        let f = self.spec_zoom_factor(input);
        self.allow_zoom && response.hover_pos is Some && !(f.0.num() == f.0.den() && f.1.num()
            == f.1.den())
    }

    /// The view after zooming around the pointer; automatic bounds are off
    /// after a zoom.
    pub open spec fn spec_after_zoom(self, state: ViewState, response: Response, input: InputState) -> ViewState {
        if self.spec_zooms(response, input) {
            let f = self.spec_zoom_factor(input);
            ViewState {
                transform: state.transform.with_bounds(
                    state.transform.spec_zoomed(f.0, f.1, response.hover_pos.unwrap()),
                ),
                auto_bounds: false,
            }
        } else {
            state
        }
    }

    /// Whether the plot is scrolled in this frame: the pointer is over it
    /// and the scroll is not zero.
    pub open spec fn spec_scrolls(self, response: Response, input: InputState) -> bool {
        self.allow_zoom && response.hover_pos is Some && input.scroll_delta != (Vec2 { x: 0, y: 0 })
    }

    /// The view after scrolling: the bounds move against the scroll, and
    /// automatic bounds are off.
    pub open spec fn spec_after_scroll(self, state: ViewState, response: Response, input: InputState) -> ViewState {
        if self.spec_scrolls(response, input) {
            ViewState {
                transform: state.transform.with_bounds(
                    state.transform.spec_translated(input.scroll_delta.spec_neg()),
                ),
                auto_bounds: false,
            }
        } else {
            state
        }
    }

    /// Where the drag of the pointer stands in this frame. A box zoom that
    /// is committed comes before one that is dragged, and that before
    /// panning.
    pub open spec fn spec_drag_state(self, last_click: Option<Pos2>, response: Response) -> DragState {
        if self.spec_box_commit(last_click, response) {
            DragState::BoxZoomCommit
        } else if self.spec_box_dragging(response) {
            if response.drag_started {
                DragState::BoxZoomPending
            } else {
                DragState::BoxZoomDragging
            }
        } else if self.spec_pans(response) {
            DragState::Panning
        } else {
            DragState::Idle
        }
    }

    /// The shape of the pointer that the interaction asks for: that of the
    /// box zoom before that of panning.
    pub open spec fn spec_cursor(self, last_click: Option<Pos2>, response: Response) -> Option<CursorIcon> {
        if self.spec_boxed_zoom_rect(last_click, response) is Some {
            Some(CursorIcon::ZoomIn)
        } else if self.spec_pans(response) {
            Some(CursorIcon::Grabbing)
        } else {
            None
        }
    }

    /// What the input of one frame does to the plot, in this order: link
    /// override, double click, fit to the items, data aspect, box zoom,
    /// pan, zoom, scroll.
    pub open spec fn spec_interact(
        self,
        last: PlotBounds,
        auto_bounds: bool,
        last_click: Option<Pos2>,
        response: Response,
        input: InputState,
        fit: PlotBounds,
    ) -> Interaction {
        let s0 = self.spec_start(
            response.rect,
            last,
            auto_bounds,
            response.double_clicked_primary,
            fit,
        );
        let s1 = self.spec_after_box_zoom(s0, last_click, response);
        let s2 = self.spec_after_pan(s1, response);
        let s3 = self.spec_after_zoom(s2, response, input);
        let s4 = self.spec_after_scroll(s3, response, input);
        Interaction {
            state: self.spec_drag_state(last_click, response),
            transform: s4.transform,
            auto_bounds: s4.auto_bounds,
            last_click_pos_for_zoom: self.spec_click_after(last_click, response),
            boxed_zoom_rect: self.spec_boxed_zoom_rect(last_click, response),
            cursor: self.spec_cursor(last_click, response),
        }
    }

    /// The bounds that follow the items.
    pub fn fit(&self, items: &Vec<PlotItem>) -> (r: PlotBounds)
        ensures
            r == self.spec_fit(items@),
    {
        let mut bounds: PlotBounds = self.min_auto_bounds;
        let mut i: usize = 0;
        assert(items@.take(0) =~= Seq::empty());
        while i < items.len()
            invariant
                i <= items.len(),
                bounds == merged_bounds(self.min_auto_bounds, items@.take(i as int)),
            decreases items.len() - i,
        {
            assert(items@.take(i + 1).drop_last() =~= items@.take(i as int));
            let b: PlotBounds = items[i].get_bounds();
            bounds.merge(&b);
            i = i + 1;
        }
        assert(items@.take(i as int) =~= items@);
        bounds.add_relative_margin(self.margin_fraction.0, self.margin_fraction.1);
        bounds
    }

    fn start(
        &self,
        rect: Rect,
        last: &PlotBounds,
        auto_bounds: bool,
        double_clicked: bool,
        fit: &PlotBounds,
    ) -> (r: ViewState)
        ensures
            r == self.spec_start(rect, *last, auto_bounds, double_clicked, *fit),
    {
        let mut bounds: PlotBounds = *last;
        let mut auto_bounds: bool = auto_bounds;
        let mut keeps_x: bool = false;
        let mut keeps_y: bool = false;
        let mut preserve_y: bool = false;
        match &self.linked_axes {
            Some(group) => {
                preserve_y = group.link_y() && !group.link_x();
                if group.get().is_some() {
                    bounds = group.apply(bounds);
                    keeps_x = group.link_x();
                    keeps_y = group.link_y();
                    auto_bounds = false;
                }
            },
            None => {},
        }
        auto_bounds = auto_bounds || double_clicked;
        if auto_bounds || !bounds.is_valid() {
            let fitted = PlotBounds {
                min: [
                    if keeps_x { bounds.min[0] } else { fit.min[0] },
                    if keeps_y { bounds.min[1] } else { fit.min[1] },
                ],
                max: [
                    if keeps_x { bounds.max[0] } else { fit.max[0] },
                    if keeps_y { bounds.max[1] } else { fit.max[1] },
                ],
            };
            proof {
                fitted.lemma_eq(self.spec_fitted(bounds, *fit));
            }
            bounds = fitted;
        }
        let mut transform = ScreenTransform::new(
            rect,
            bounds,
            self.center_x_axis,
            self.center_y_axis,
        );
        match self.data_aspect {
            Some(aspect) => {
                transform.set_aspect(aspect, preserve_y);
            },
            None => {},
        }
        ViewState { transform, auto_bounds }
    }

    /// What the input of one frame does to the plot: the transform with
    /// which the frame is drawn and what the plot remembers for the next
    /// one. `last` are the bounds of the last frame, `auto_bounds` and
    /// `last_click` what the plot remembered, and `fit` the bounds that
    /// follow the items.
    pub fn interact(
        &self,
        last: &PlotBounds,
        auto_bounds: bool,
        last_click: Option<Pos2>,
        response: &Response,
        input: &InputState,
        fit: &PlotBounds,
    ) -> (r: Interaction)
        ensures
            r == self.spec_interact(*last, auto_bounds, last_click, *response, *input, *fit),
    {
        let s0: ViewState = self.start(
            response.rect,
            last,
            auto_bounds,
            response.double_clicked_primary,
            fit,
        );
        let mut transform: ScreenTransform = s0.transform;
        let mut auto_bounds: bool = s0.auto_bounds;
        proof {
            transform.lemma_with_bounds(transform.spec_bounds());
        }

        let box_dragging: bool = self.allow_boxed_zoom && response.dragged_by(
            self.boxed_zoom_pointer_button,
        );
        let mut click: Option<Pos2> = last_click;
        if box_dragging && response.drag_started {
            click = response.hover_pos;
        }
        let mut boxed_zoom_rect: Option<Rect> = None;
        let mut cursor: Option<CursorIcon> = None;
        let pans: bool = self.allow_drag && response.dragged_by(PointerButton::Primary)
            && !box_dragging;
        let mut state: DragState = DragState::Idle;
        if pans {
            cursor = Some(CursorIcon::Grabbing);
            state = DragState::Panning;
        }
        if box_dragging {
            state = if response.drag_started {
                DragState::BoxZoomPending
            } else {
                DragState::BoxZoomDragging
            };
        }
        if self.allow_boxed_zoom {
            match (click, response.hover_pos) {
                (Some(start), Some(end)) => {
                    if box_dragging {
                        cursor = Some(CursorIcon::ZoomIn);
                        boxed_zoom_rect = Some(Rect::from_two_pos(start, end));
                    }
                    if response.drag_released {
                        let target: PlotBounds = transform.box_bounds(start, end);
                        if transform.set_bounds(target) {
                            auto_bounds = false;
                        } else {
                            auto_bounds = true;
                        }
                        click = None;
                        state = DragState::BoxZoomCommit;
                    }
                },
                _ => {},
            }
        }
        assert(ViewState { transform, auto_bounds } == self.spec_after_box_zoom(
            s0,
            last_click,
            *response,
        ));
        let ghost s1 = ViewState { transform, auto_bounds };

        if pans {
            transform.translate_bounds(response.drag_delta.neg());
            auto_bounds = false;
        }
        let ghost s2 = ViewState { transform, auto_bounds };
        assert(s2 == self.spec_after_pan(s1, *response));

        if self.allow_zoom {
            match response.hover_pos {
                Some(hover_pos) => {
                    let factor: (Ratio, Ratio) = if self.data_aspect.is_some() {
                        (input.zoom_delta, input.zoom_delta)
                    } else {
                        input.zoom_delta_2d
                    };
                    if !(factor.0.is_one() && factor.1.is_one()) {
                        transform.zoom(factor.0, factor.1, hover_pos);
                        auto_bounds = false;
                    }
                    let ghost s3 = ViewState { transform, auto_bounds };
                    assert(s3 == self.spec_after_zoom(s2, *response, *input));
                    if input.scroll_delta.x != 0 || input.scroll_delta.y != 0 {
                        transform.translate_bounds(input.scroll_delta.neg());
                        auto_bounds = false;
                    }
                },
                None => {},
            }
        }
        Interaction {
            state,
            transform,
            auto_bounds,
            last_click_pos_for_zoom: click,
            boxed_zoom_rect,
            cursor,
        }
    }
}

} // verus!
