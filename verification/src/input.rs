//! What the host reports to a plot for one frame.

use vstd::prelude::*;
use crate::geometry::{Pos2, Rect, Vec2};
use crate::numeric::Ratio;

verus! {

/// A button of the pointer.
#[derive(Clone, Copy, Debug, PartialEq, Eq, Structural)]
pub enum PointerButton {
    Primary,
    Secondary,
    Middle,
}

/// The shape that the pointer takes over the plot.
#[derive(Clone, Copy, Debug, PartialEq, Eq, Structural)]
pub enum CursorIcon {
    Grabbing,
    ZoomIn,
    Crosshair,
}

/// What happened in the area of the plot during one frame.
#[derive(Clone, Copy, Debug, PartialEq, Eq, Structural)]
pub struct Response {
    /// The area that the plot was given.
    pub rect: Rect,
    /// Whether the pointer is over the area.
    pub hovered: bool,
    /// Where the pointer is, if it is over the area.
    pub hover_pos: Option<Pos2>,
    /// Whether the area is being dragged.
    pub dragged: bool,
    /// Whether a drag started in this frame.
    pub drag_started: bool,
    /// Whether a drag ended in this frame.
    pub drag_released: bool,
    /// How far the pointer moved while dragging.
    pub drag_delta: Vec2,
    /// Whether the primary button is down.
    pub primary_down: bool,
    /// Whether the secondary button is down.
    pub secondary_down: bool,
    /// Whether the middle button is down.
    pub middle_down: bool,
    /// Whether the area was double-clicked with the primary button.
    pub double_clicked_primary: bool,
}

impl Response {
    /// Whether the area is being dragged while `button` is down.
    pub open spec fn spec_dragged_by(self, button: PointerButton) -> bool {
        self.dragged && match button {
            PointerButton::Primary => self.primary_down,
            PointerButton::Secondary => self.secondary_down,
            PointerButton::Middle => self.middle_down,
        }
    }

    /// A response in which nothing happened.
    pub fn idle(rect: Rect) -> (r: Response)
        ensures
            r == (Response {
                rect,
                hovered: false,
                hover_pos: None,
                dragged: false,
                drag_started: false,
                drag_released: false,
                drag_delta: Vec2 { x: 0, y: 0 },
                primary_down: false,
                secondary_down: false,
                middle_down: false,
                double_clicked_primary: false,
            }),
    {
        Response {
            rect,
            hovered: false,
            hover_pos: None,
            dragged: false,
            drag_started: false,
            drag_released: false,
            drag_delta: Vec2 { x: 0, y: 0 },
            primary_down: false,
            secondary_down: false,
            middle_down: false,
            double_clicked_primary: false,
        }
    }

    /// Whether the area is being dragged while `button` is down.
    pub fn dragged_by(&self, button: PointerButton) -> (r: bool)
        ensures
            r == self.spec_dragged_by(button),
    {
        self.dragged && match button {
            PointerButton::Primary => self.primary_down,
            PointerButton::Secondary => self.secondary_down,
            PointerButton::Middle => self.middle_down,
        }
    }

    /// Whether the pointer is over the area.
    pub fn hovered(&self) -> (r: bool)
        ensures
            r == self.hovered,
    {
        self.hovered
    }
}

/// The input of one frame that does not belong to one area.
#[derive(Clone, Copy, Debug, PartialEq, Eq)]
pub struct InputState {
    /// The zoom of this frame as one factor; one for no zoom.
    pub zoom_delta: Ratio,
    /// The zoom of this frame along x and along y.
    pub zoom_delta_2d: (Ratio, Ratio),
    /// How far the view was scrolled.
    pub scroll_delta: Vec2,
    /// Where the pointer was seen last.
    pub latest_pos: Option<Pos2>,
}

impl InputState {
    /// No zoom, no scroll, no pointer.
    pub fn idle() -> (r: InputState)
        ensures
            r.zoom_delta.num() == 1 && r.zoom_delta.den() == 1,
            r.zoom_delta_2d.0.num() == 1 && r.zoom_delta_2d.0.den() == 1,
            r.zoom_delta_2d.1.num() == 1 && r.zoom_delta_2d.1.den() == 1,
            r.scroll_delta == (Vec2 { x: 0, y: 0 }),
            r.latest_pos is None,
    {
        InputState {
            zoom_delta: Ratio::one(),
            zoom_delta_2d: (Ratio::one(), Ratio::one()),
            scroll_delta: Vec2 { x: 0, y: 0 },
            latest_pos: None,
        }
    }
}

/// What a plot sees of its host: the input of the frame and the kind of
/// background it is drawn on.
#[derive(Clone, Copy, Debug, PartialEq, Eq)]
pub struct Context {
    pub input: InputState,
    pub dark_mode: bool,
}

impl Context {
    pub fn new(input: InputState, dark_mode: bool) -> (r: Context)
        ensures
            r == (Context { input, dark_mode }),
    {
        Context { input, dark_mode }
    }

    /// The input of the frame.
    pub fn input(&self) -> (r: &InputState)
        ensures
            *r == self.input,
    {
        &self.input
    }
}

} // verus!
