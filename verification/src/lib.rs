//! Coordinate transforms and per-frame interaction logic of a 2D plot.
//!
//! Data space and screen space are both integer grids. A data value is an
//! `i64` in whatever fixed-point unit the host picks; a screen coordinate is
//! an `i32` counted in points. Every quotient is a floor division, and every
//! result that leaves its type's range is clamped to it. A data coordinate
//! beyond `bounds::COORD_LIMIT` counts as infinite, and bounds that hold one
//! are not valid.
//!
//! A frame of a plot runs in this order: `memory::PlotMemory::resolve` picks
//! the memory of the last frame, the host adds items through a
//! `plot_ui::PlotUi`, `plot::Plot::show` applies the input of the frame and
//! hands back a `prepared::PreparedPlot`, whose `ui` gives the grid lines
//! and what is shown under the pointer. The module `laws` states what
//! holds of these whatever the inputs are.

pub mod numeric;
pub mod geometry;
pub mod bounds;
pub mod transform;
pub mod axis;
pub mod hover;
pub mod format;
pub mod items;
pub mod link;
pub mod input;
pub mod memory;
pub mod plot_ui;
pub mod prepared;
pub mod plot;
pub mod interaction;
pub mod frame;
pub mod laws;
