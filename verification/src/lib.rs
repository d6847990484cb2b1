//! Layout of a Cartesian coordinate overlay.
//!
//! Given a viewport rectangle and a style, the renderers in this crate compute
//! the drawing commands of an overlay: four axis arrows with their labels and
//! the tick marks along both axes. Nothing is drawn here: a host walks the
//! returned commands and issues them to its own drawing surface.
//!
//! Inputs are whole units. Every coordinate and length in a command is a
//! [`Scalar`], a number on the half-unit grid, so that midpoints and half
//! tick lengths are exact.

pub mod axis;
pub mod color;
pub mod command;
pub mod decimal;
pub mod geom;
pub mod sample;
pub mod ticks;

pub use axis::Axis;
pub use color::ColorRGB;
pub use command::{
    views, Align, Arrow, ArrowView, Cap, Command, CommandView, Justify, Line, LineView, Text,
    TextView,
};
pub use decimal::to_decimal;
pub use geom::{units, Point2D, Rect, RectView, Scalar, Span, SpanView};
pub use sample::{sample, sample_between};
pub use ticks::{ints, tick_count, tick_positions, ticks_between, Increment, Xticks, Yticks};
