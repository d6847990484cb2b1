//! Drawing commands: what a renderer hands to the host.

use vstd::prelude::*;
use crate::color::ColorRGB;
use crate::geom::{Point2D, Scalar};

verus! {

/// The shape of the end of a stroke.
#[derive(Clone, Copy, Debug, PartialEq, Eq, Hash)]
pub enum Cap {
    Butt,
    Round,
    Square,
}

/// Where the lines of a text lie between the left and the right side of its
/// box.
#[derive(Clone, Copy, Debug, PartialEq, Eq, Hash)]
pub enum Justify {
    Left,
    Center,
    Right,
}

/// Where a text lies between the bottom and the top of its box.
#[derive(Clone, Copy, Debug, PartialEq, Eq, Hash)]
pub enum Align {
    Bottom,
    Middle,
    Top,
}

/// A stroke from `start` to `end` with an arrow head at `end`.
#[derive(Clone, Copy, Debug, PartialEq, Eq, Hash)]
pub struct Arrow {
    pub start: Point2D,
    pub end: Point2D,
    pub head_length: Scalar,
    pub head_width: Scalar,
    pub start_cap: Cap,
    pub color: ColorRGB,
}

/// The mathematical model of an [`Arrow`]: positions and lengths in half
/// units.
pub struct ArrowView {
    pub start: (int, int),
    pub end: (int, int),
    pub head_length: int,
    pub head_width: int,
    pub start_cap: Cap,
    pub color: ColorRGB,
}

impl View for Arrow {
    type V = ArrowView;

    open spec fn view(&self) -> ArrowView {
        ArrowView {
            start: self.start@,
            end: self.end@,
            head_length: self.head_length@,
            head_width: self.head_width@,
            start_cap: self.start_cap,
            color: self.color,
        }
    }
}

/// A straight stroke from `start` to `end`, `weight` thick.
#[derive(Clone, Copy, Debug, PartialEq, Eq, Hash)]
pub struct Line {
    pub start: Point2D,
    pub end: Point2D,
    pub weight: Scalar,
    pub color: ColorRGB,
}

/// The mathematical model of a [`Line`]: positions and weight in half units.
pub struct LineView {
    pub start: (int, int),
    pub end: (int, int),
    pub weight: int,
    pub color: ColorRGB,
}

impl View for Line {
    type V = LineView;

    open spec fn view(&self) -> LineView {
        LineView {
            start: self.start@,
            end: self.end@,
            weight: self.weight@,
            color: self.color,
        }
    }
}

/// A text in a box. A field that is `None` is left to the host: it keeps the
/// value that the host gives to a text of which nothing else is said.
#[derive(Clone, Debug, PartialEq, Eq, Hash)]
pub struct Text {
    pub content: String,
    /// The x coordinate of the centre of the box.
    pub x: Option<Scalar>,
    /// The y coordinate of the centre of the box.
    pub y: Option<Scalar>,
    /// The width of the box.
    pub width: Option<Scalar>,
    /// The height of the box.
    pub height: Option<Scalar>,
    pub justify: Option<Justify>,
    pub align: Option<Align>,
    pub font_size: u32,
    pub color: ColorRGB,
}

/// The mathematical model of a [`Text`]: the content as a sequence of
/// characters, positions and lengths in half units.
pub struct TextView {
    pub content: Seq<char>,
    pub x: Option<int>,
    pub y: Option<int>,
    pub width: Option<int>,
    pub height: Option<int>,
    pub justify: Option<Justify>,
    pub align: Option<Align>,
    pub font_size: int,
    pub color: ColorRGB,
}

/// The model of a scalar that may be missing.
pub open spec fn scalar_view(s: Option<Scalar>) -> Option<int> {
    match s {
        Some(s) => Some(s@),
        None => None,
    }
}

impl View for Text {
    type V = TextView;

    open spec fn view(&self) -> TextView {
        TextView {
            content: self.content@,
            x: scalar_view(self.x),
            y: scalar_view(self.y),
            width: scalar_view(self.width),
            height: scalar_view(self.height),
            justify: self.justify,
            align: self.align,
            font_size: self.font_size as int,
            color: self.color,
        }
    }
}

/// One drawing command.
#[derive(Clone, Debug, PartialEq, Eq, Hash)]
pub enum Command {
    Arrow(Arrow),
    Line(Line),
    Text(Text),
}

/// The mathematical model of a [`Command`].
pub enum CommandView {
    Arrow(ArrowView),
    Line(LineView),
    Text(TextView),
}

impl View for Command {
    type V = CommandView;

    open spec fn view(&self) -> CommandView {
        match *self {
            Command::Arrow(a) => CommandView::Arrow(a@),
            Command::Line(l) => CommandView::Line(l@),
            Command::Text(t) => CommandView::Text(t@),
        }
    }
}

/// The models of a sequence of commands, in the same order.
pub open spec fn views(commands: Seq<Command>) -> Seq<CommandView> {
    commands.map_values(|c: Command| c@)
}

} // verus!
