//! The axes: four arrows from the centre of the viewport to the middle of
//! each edge, and the labels at the origin and at the four extents.

use vstd::prelude::*;
use crate::color::ColorRGB;
use crate::command::{
    views, Align, Arrow, ArrowView, Cap, Command, CommandView, Justify, Text, TextView,
};
use crate::decimal::{decimal, to_decimal};
use crate::geom::{units, Point2D, Rect, RectView, Scalar};

verus! {

/// The font size of a label where the style names none.
pub const DEFAULT_TEXT_SIZE: u32 = 14;

/// The length of an arrow head, in whole units.
pub const HEAD_LENGTH: i32 = 10;

/// The width of an arrow head, in whole units.
pub const HEAD_WIDTH: i32 = 4;

/// A drawable pair of axes.
#[derive(Clone, Copy, Debug, PartialEq, Eq)]
pub struct Axis {
    /// The colour of the arrows.
    pub color: ColorRGB,
    /// Whether the labels are drawn.
    pub text: bool,
    /// The colour of the labels; that of the arrows where `None`.
    pub textcolor: Option<ColorRGB>,
    /// The font size of the labels; [`DEFAULT_TEXT_SIZE`] where `None`.
    pub textsize: Option<u32>,
    /// The distance that sets the labels off from the axes and the edges, in
    /// whole units.
    pub padding: i32,
}

impl Default for Axis {
    fn default() -> (axis: Axis)
        ensures
            axis == (Axis {
                color: ColorRGB::black(),
                text: true,
                textcolor: Some(ColorRGB::black()),
                textsize: Some(14u32),
                padding: 10,
            }),
    {
        Axis {
            color: ColorRGB::black(),
            text: true,
            textcolor: Some(ColorRGB::black()),
            textsize: Some(14),
            padding: 10,
        }
    }
}

impl Axis {
    /// The colour in which the labels are drawn.
    pub open spec fn spec_label_color(&self) -> ColorRGB {
        match self.textcolor {
            Some(color) => color,
            None => self.color,
        }
    }

    /// The font size in which the labels are drawn.
    pub open spec fn spec_label_size(&self) -> u32 {
        match self.textsize {
            Some(size) => size,
            None => DEFAULT_TEXT_SIZE,
        }
    }

    /// The arrow from `start` to `end`.
    pub open spec fn spec_arrow(&self, start: (int, int), end: (int, int)) -> CommandView {
        CommandView::Arrow(
            ArrowView {
                start,
                end,
                head_length: units(HEAD_LENGTH as int),
                head_width: units(HEAD_WIDTH as int),
                start_cap: Cap::Round,
                color: self.color,
            },
        )
    }

    /// The four arrows: to the middle of the top, the right, the bottom and
    /// the left edge of `win`, each from its centre.
    pub open spec fn spec_arrows(&self, win: RectView) -> Seq<CommandView> {
        seq![
            self.spec_arrow(win.center(), win.mid_top()),
            self.spec_arrow(win.center(), win.mid_right()),
            self.spec_arrow(win.center(), win.mid_bottom()),
            self.spec_arrow(win.center(), win.mid_left()),
        ]
    }

    /// A label in the size and the colour of this style.
    pub open spec fn spec_label(
        &self,
        content: Seq<char>,
        x: Option<int>,
        y: Option<int>,
        width: Option<int>,
        height: Option<int>,
        justify: Option<Justify>,
        align: Option<Align>,
    ) -> CommandView {
        CommandView::Text(
            TextView {
                content,
                x,
                y,
                width,
                height,
                justify,
                align,
                font_size: self.spec_label_size() as int,
                color: self.spec_label_color(),
            },
        )
    }

    /// The five labels, with `x_offset` three times and `y_offset` twice the
    /// padding, and `inner` the viewport shrunk by the padding:
    /// - `0.0`, off the centre of `win` by both offsets;
    /// - the top edge of `win`, at `x_offset`, at the top of a box as high as
    ///   `inner`;
    /// - the bottom edge, at `x_offset`, at the bottom of such a box;
    /// - at `y_offset`, on the left of a box as wide as `inner`, the top edge
    ///   again: the labels on the x axis show the extent of the y axis;
    /// - the same on the right of such a box.
    pub open spec fn spec_labels(&self, win: RectView) -> Seq<CommandView> {
        let x_offset = units(3 * self.padding);
        let y_offset = units(2 * self.padding);
        let inner = win.pad(self.padding as int);
        seq![
            self.spec_label(
                seq!['0', '.', '0'],
                Some(win.center().0 + x_offset),
                Some(win.center().1 + y_offset),
                None,
                None,
                None,
                None,
            ),
            self.spec_label(
                decimal(win.top()),
                Some(x_offset),
                None,
                None,
                Some(units(inner.h())),
                None,
                Some(Align::Top),
            ),
            self.spec_label(
                decimal(win.bottom()),
                Some(x_offset),
                None,
                None,
                Some(units(inner.h())),
                None,
                Some(Align::Bottom),
            ),
            self.spec_label(
                decimal(win.top()),
                None,
                Some(y_offset),
                Some(units(inner.w())),
                None,
                Some(Justify::Left),
                None,
            ),
            self.spec_label(
                decimal(win.top()),
                None,
                Some(y_offset),
                Some(units(inner.w())),
                None,
                Some(Justify::Right),
                None,
            ),
        ]
    }

    /// What [`Axis::draw`] returns for `win`: the arrows, then the labels
    /// where the style asks for them.
    pub open spec fn spec_draw(&self, win: RectView) -> Seq<CommandView> {
        if self.text {
            self.spec_arrows(win) + self.spec_labels(win)
        } else {
            self.spec_arrows(win)
        }
    }

    /// The colour in which the labels are drawn: the text colour of the
    /// style, or the colour of the arrows where it has none.
    pub fn label_color(&self) -> (color: ColorRGB)
        ensures
            color == self.spec_label_color(),
    {
        match self.textcolor {
            Some(color) => color,
            None => self.color,
        }
    }

    /// The font size in which the labels are drawn: the text size of the
    /// style, or [`DEFAULT_TEXT_SIZE`] where it has none.
    pub fn label_size(&self) -> (size: u32)
        ensures
            size == self.spec_label_size(),
    {
        match self.textsize {
            Some(size) => size,
            None => DEFAULT_TEXT_SIZE,
        }
    }

    fn arrow(&self, start: Point2D, end: Point2D) -> (command: Command)
        ensures
            command@ == self.spec_arrow(start@, end@),
    {
        Command::Arrow(
            Arrow {
                start,
                end,
                head_length: Scalar::from_units(HEAD_LENGTH),
                head_width: Scalar::from_units(HEAD_WIDTH),
                start_cap: Cap::Round,
                color: self.color,
            },
        )
    }

    fn label(
        &self,
        content: String,
        x: Option<Scalar>,
        y: Option<Scalar>,
        width: Option<Scalar>,
        height: Option<Scalar>,
        justify: Option<Justify>,
        align: Option<Align>,
    ) -> (command: Command)
        ensures
            command@ == self.spec_label(
                content@,
                crate::command::scalar_view(x),
                crate::command::scalar_view(y),
                crate::command::scalar_view(width),
                crate::command::scalar_view(height),
                justify,
                align,
            ),
    {
        Command::Text(
            Text {
                content,
                x,
                y,
                width,
                height,
                justify,
                align,
                font_size: self.label_size(),
                color: self.label_color(),
            },
        )
    }

    /// Lays the axes out in `win`: four arrows and, where the style asks for
    /// them, five labels.
    pub fn draw(&self, win: &Rect) -> (commands: Vec<Command>)
        ensures
            views(commands@) == self.spec_draw(win@),
            commands@.len() == if self.text { 9int } else { 4int },
    {
        let center = win.center();
        let mut commands: Vec<Command> = Vec::new();
        commands.push(self.arrow(center, win.mid_top()));
        commands.push(self.arrow(center, win.mid_right()));
        commands.push(self.arrow(center, win.mid_bottom()));
        commands.push(self.arrow(center, win.mid_left()));
        assert(views(commands@) =~= self.spec_arrows(win@));
        if self.text {
            let padding: i64 = self.padding as i64;
            let x_offset = Scalar { halves: 2 * (3 * padding) };
            let y_offset = Scalar { halves: 2 * (2 * padding) };
            let width = Scalar { halves: 2 * win.x.padded_len(self.padding) };
            let height = Scalar { halves: 2 * win.y.padded_len(self.padding) };
            let origin_x = Scalar { halves: center.x.halves + x_offset.halves };
            let origin_y = Scalar { halves: center.y.halves + y_offset.halves };
            proof {
                reveal_strlit("0.0");
                assert("0.0"@ =~= seq!['0', '.', '0']);
            }
            commands.push(
                self.label(
                    String::from_str("0.0"),
                    Some(origin_x),
                    Some(origin_y),
                    None,
                    None,
                    None,
                    None,
                ),
            );
            commands.push(
                self.label(
                    to_decimal(win.top()),
                    Some(x_offset),
                    None,
                    None,
                    Some(height),
                    None,
                    Some(Align::Top),
                ),
            );
            commands.push(
                self.label(
                    to_decimal(win.bottom()),
                    Some(x_offset),
                    None,
                    None,
                    Some(height),
                    None,
                    Some(Align::Bottom),
                ),
            );
            commands.push(
                self.label(
                    to_decimal(win.top()),
                    None,
                    Some(y_offset),
                    Some(width),
                    None,
                    Some(Justify::Left),
                    None,
                ),
            );
            commands.push(
                self.label(
                    to_decimal(win.top()),
                    None,
                    Some(y_offset),
                    Some(width),
                    None,
                    Some(Justify::Right),
                    None,
                ),
            );
            assert(views(commands@) =~= self.spec_draw(win@));
        }
        commands
    }
}

/// The axes are four arrows, and five labels where the style asks for them.
///
/// Whatever the viewport and the style, the first four commands are arrows.
/// Each starts at the centre of the viewport; they end at the middle of its
/// top, right, bottom and left edge, in this order. With labels switched on
/// exactly five commands follow, each of them a text; with labels switched
/// off nothing follows.
pub proof fn lemma_axis_commands(axis: Axis, win: RectView)
    ensures
        ({
            let commands = axis.spec_draw(win);
            &&& commands.len() == if axis.text {
                9int
            } else {
                4int
            }
            &&& forall|i: int|
                0 <= i < 4 ==> (#[trigger] commands[i]) is Arrow && commands[i]->Arrow_0.start
                    == win.center()
            &&& commands[0]->Arrow_0.end == win.mid_top()
            &&& commands[1]->Arrow_0.end == win.mid_right()
            &&& commands[2]->Arrow_0.end == win.mid_bottom()
            &&& commands[3]->Arrow_0.end == win.mid_left()
            &&& forall|i: int| 4 <= i < commands.len() ==> (#[trigger] commands[i]) is Text
        }),
{
}

/// Drawing the axes again gives the same commands.
///
/// Two sequences of commands that [`Axis::draw`] may return for one style
/// and one viewport are equally long and agree, command by command, in
/// every character, number and choice that a command holds.
pub proof fn lemma_axis_redraw(axis: Axis, win: Rect, first: Seq<Command>, second: Seq<Command>)
    requires
        views(first) == axis.spec_draw(win@),
        views(second) == axis.spec_draw(win@),
    ensures
        first.len() == second.len(),
        forall|i: int| 0 <= i < first.len() ==> (#[trigger] first[i])@ == second[i]@,
{
    assert(views(first).len() == first.len());
    assert(views(second).len() == second.len());
    assert forall|i: int| 0 <= i < first.len() implies (#[trigger] first[i])@ == second[i]@ by {
        assert(views(first)[i] == first[i]@);
        assert(views(second)[i] == second[i]@);
    }
}

} // verus!
