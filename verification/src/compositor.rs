//! The compositor: the ordered list of draw commands for one frame.
//!
//! Only active circles are drawn. The roster is walked from the topmost
//! circle down to the oldest, and a circle that sits exactly where the circle
//! drawn just before it sits is moved aside so that both stay visible.

use vstd::prelude::*;
use vstd::string::StringExecFns;
use crate::approach::{ApproachCircle, ApproachView};
use crate::circle::{Color, HitCircle};
use crate::geometry::{Point, RenderPoint};
use crate::roster::Roster;

verus! {

/// How far the outline reaches beyond the circle it surrounds.
pub const OUTLINE_MARGIN: u32 = 500;

/// The stroke width of the outline.
pub const OUTLINE_WIDTH: u32 = 500;

/// The stroke width of the approach ring.
pub const APPROACH_WIDTH: u32 = 1_000;

/// How far, on both axes, a circle is moved aside when it sits exactly where
/// the circle drawn just before it sits.
pub const OVERLAP_SHIFT: i64 = 8_000;

/// One instruction to the drawing backend.
#[derive(Clone, Copy, Debug, PartialEq, Eq, Structural)]
pub enum DrawCommand {
    /// The outline of a circle, drawn with a stroke of the given width.
    Stroke { center: RenderPoint, radius: u64, width: u32, color: Color },
    /// A filled disc.
    Fill { center: RenderPoint, radius: u64, color: Color },
    /// The combo tag of a circle as text, centred on `center`.
    Label { center: RenderPoint, tag: u64, color: Color },
}

/// The colour of outlines and labels.
pub open spec fn ink() -> Color {
    Color { red: 0, green: 0, blue: 0 }
}

/// The colour of the approach ring.
pub open spec fn approach_ink() -> Color {
    Color { red: 0, green: 255, blue: 0 }
}

/// Where a circle at `position` is drawn when the circle drawn just before
/// it sat at `previous`: moved aside if the two positions are the same, and
/// in place otherwise.
pub open spec fn draw_center(position: Point, previous: Option<Point>) -> RenderPoint {
    if previous == Some(position) {
        RenderPoint {
            x: (position.x - OVERLAP_SHIFT) as i64,
            y: (position.y - OVERLAP_SHIFT) as i64,
        }
    } else {
        position.on_surface()
    }
}

/// The commands that draw one circle around `center`, in order: the outline,
/// the filled disc, the approach ring while it is still closing in, and the
/// label.
pub open spec fn circle_commands(
    circle: HitCircle,
    center: RenderPoint,
    approach: ApproachView,
) -> Seq<DrawCommand> {
    let outline = DrawCommand::Stroke {
        center,
        radius: (circle.radius + OUTLINE_MARGIN) as u64,
        width: OUTLINE_WIDTH,
        color: ink(),
    };
    let disc = DrawCommand::Fill { center, radius: circle.radius as u64, color: circle.color };
    let ring = DrawCommand::Stroke {
        center,
        radius: approach.radius as u64,
        width: APPROACH_WIDTH,
        color: approach_ink(),
    };
    let label = DrawCommand::Label { center, tag: circle.combo_tag, color: ink() };
    if approach.animating() {
        seq![outline, disc, ring, label]
    } else {
        seq![outline, disc, label]
    }
}

/// The draw list of `circles`, given the position of the circle that was
/// drawn just before them, if any.
///
/// The topmost circle, the last of `circles`, comes first. An inactive
/// circle contributes nothing and is not remembered as the previous one.
pub open spec fn draw_list(
    circles: Seq<HitCircle>,
    previous: Option<Point>,
    approach: ApproachView,
) -> Seq<DrawCommand>
    decreases circles.len(),
{
    if circles.len() == 0 {
        Seq::empty()
    } else {
        let top = circles.last();
        let below = circles.drop_last();
        if top.active {
            circle_commands(top, draw_center(top.position, previous), approach) + draw_list(
                below,
                Some(top.position),
                approach,
            )
        } else {
            draw_list(below, previous, approach)
        }
    }
}

/// The number of active circles among `circles`.
pub open spec fn active_count(circles: Seq<HitCircle>) -> nat
    decreases circles.len(),
{
    if circles.len() == 0 {
        0
    } else if circles.last().active {
        active_count(circles.drop_last()) + 1
    } else {
        active_count(circles.drop_last())
    }
}

/// The number of commands that draw one circle.
pub open spec fn commands_per_circle(approach: ApproachView) -> nat {
    if approach.animating() {
        4
    } else {
        3
    }
}

/// Every active circle is drawn with the same number of commands and an
/// inactive circle with none.
pub proof fn lemma_draw_list_len(
    circles: Seq<HitCircle>,
    previous: Option<Point>,
    approach: ApproachView,
)
    ensures
        draw_list(circles, previous, approach).len() == commands_per_circle(approach)
            * active_count(circles),
    decreases circles.len(),
{
    assert(commands_per_circle(approach) == 3 || commands_per_circle(approach) == 4);
    if circles.len() > 0 {
        let top = circles.last();
        let below = circles.drop_last();
        if top.active {
            lemma_draw_list_len(below, Some(top.position), approach);
            assert(circle_commands(top, draw_center(top.position, previous), approach).len()
                == commands_per_circle(approach));
        } else {
            lemma_draw_list_len(below, previous, approach);
        }
    }
}

/// Inactive circles leave no trace in the draw list: it is the draw list of
/// the active circles alone.
pub proof fn lemma_draw_list_ignores_inactive(
    circles: Seq<HitCircle>,
    previous: Option<Point>,
    approach: ApproachView,
)
    ensures
        draw_list(circles, previous, approach) == draw_list(
            circles.filter(|circle: HitCircle| circle.active),
            previous,
            approach,
        ),
    decreases circles.len(),
{
    reveal(Seq::filter);
    if circles.len() > 0 {
        let top = circles.last();
        let below = circles.drop_last();
        if top.active {
            let shown = below.filter(|circle: HitCircle| circle.active);
            lemma_draw_list_ignores_inactive(below, Some(top.position), approach);
            assert(shown.push(top).drop_last() == shown);
        } else {
            lemma_draw_list_ignores_inactive(below, previous, approach);
        }
    }
}

/// The black used for outlines and labels.
pub fn ink_color() -> (color: Color)
    ensures
        color == ink(),
{
    Color { red: 0, green: 0, blue: 0 }
}

/// The green used for the approach ring.
pub fn approach_color() -> (color: Color)
    ensures
        color == approach_ink(),
{
    Color { red: 0, green: 255, blue: 0 }
}

/// Composes the draw list of a frame: the commands for every active circle
/// of `roster`, topmost circle first. Reads the roster and changes nothing.
pub fn render(roster: &Roster, approach: &ApproachCircle) -> (commands: Vec<DrawCommand>)
    ensures
        commands@ == draw_list(roster@, None, approach@),
{
    let circles: &Vec<HitCircle> = roster.circles();
    let animating: bool = approach.is_animating();
    let ring_radius: u32 = approach.radius();
    let mut commands: Vec<DrawCommand> = Vec::new();
    let mut previous: Option<Point> = None;
    let mut remaining: usize = circles.len();
    assert(circles@.take(remaining as int) == circles@);
    while remaining > 0
        invariant
            remaining <= circles@.len(),
            circles@ == roster@,
            animating == approach@.animating(),
            ring_radius == approach@.radius,
            commands@ + draw_list(circles@.take(remaining as int), previous, approach@)
                == draw_list(roster@, None, approach@),
        decreases remaining,
    {
        let ghost before = circles@.take(remaining as int);
        remaining = remaining - 1;
        let circle: HitCircle = circles[remaining];
        assert(before.drop_last() == circles@.take(remaining as int));
        if circle.active {
            let center: RenderPoint = if previous == Some(circle.position) {
                RenderPoint {
                    x: circle.position.x as i64 - OVERLAP_SHIFT,
                    y: circle.position.y as i64 - OVERLAP_SHIFT,
                }
            } else {
                RenderPoint { x: circle.position.x as i64, y: circle.position.y as i64 }
            };
            commands.push(
                DrawCommand::Stroke {
                    center,
                    radius: circle.radius as u64 + OUTLINE_MARGIN as u64,
                    width: OUTLINE_WIDTH,
                    color: ink_color(),
                },
            );
            commands.push(
                DrawCommand::Fill { center, radius: circle.radius as u64, color: circle.color },
            );
            if animating {
                commands.push(
                    DrawCommand::Stroke {
                        center,
                        radius: ring_radius as u64,
                        width: APPROACH_WIDTH,
                        color: approach_color(),
                    },
                );
            }
            commands.push(DrawCommand::Label { center, tag: circle.combo_tag, color: ink_color() });
            assert(draw_list(before, previous, approach@) == circle_commands(
                circle,
                draw_center(circle.position, previous),
                approach@,
            ) + draw_list(circles@.take(remaining as int), Some(circle.position), approach@));
            previous = Some(circle.position);
        }
    }
    commands
}

/// Where a label of the given measured size starts so that it is centred
/// on `center`.
pub open spec fn centered_origin(center: RenderPoint, width: u32, height: u32) -> RenderPoint {
    RenderPoint { x: (center.x - width / 2) as i64, y: (center.y - height / 2) as i64 }
}

/// The top left corner at which the backend places a label that it measured
/// as `width` by `height`, so that the label is centred on `center`.
pub fn label_origin(center: RenderPoint, width: u32, height: u32) -> (origin: RenderPoint)
    requires
        center.x - width / 2 >= i64::MIN,
        center.y - height / 2 >= i64::MIN,
    ensures
        origin == centered_origin(center, width, height),
        origin.x == center.x - width / 2,
        origin.y == center.y - height / 2,
{
    RenderPoint { x: center.x - (width / 2) as i64, y: center.y - (height / 2) as i64 }
}

/// The character that stands for a decimal digit.
pub open spec fn digit_char(digit: nat) -> char
    recommends
        digit < 10,
{
    if digit == 0 {
        '0'
    } else if digit == 1 {
        '1'
    } else if digit == 2 {
        '2'
    } else if digit == 3 {
        '3'
    } else if digit == 4 {
        '4'
    } else if digit == 5 {
        '5'
    } else if digit == 6 {
        '6'
    } else if digit == 7 {
        '7'
    } else if digit == 8 {
        '8'
    } else {
        '9'
    }
}

/// A number written in decimal, most significant digit first and without
/// leading zeros.
pub open spec fn decimal_text(number: nat) -> Seq<char>
    decreases number,
{
    if number < 10 {
        seq![digit_char(number)]
    } else {
        decimal_text(number / 10).push(digit_char(number % 10))
    }
}

/// The one-character text of a decimal digit.
fn digit_text(digit: u64) -> (text: &'static str)
    requires
        digit < 10,
    ensures
        text@ == seq![digit_char(digit as nat)],
{
    proof {
        reveal_strlit("0");
        reveal_strlit("1");
        reveal_strlit("2");
        reveal_strlit("3");
        reveal_strlit("4");
        reveal_strlit("5");
        reveal_strlit("6");
        reveal_strlit("7");
        reveal_strlit("8");
        reveal_strlit("9");
    }
    let text: &'static str = match digit {
        0 => "0",
        1 => "1",
        2 => "2",
        3 => "3",
        4 => "4",
        5 => "5",
        6 => "6",
        7 => "7",
        8 => "8",
        _ => "9",
    };
    text
}

/// The text that a label shows for a combo tag: the tag in decimal.
pub fn label_text(tag: u64) -> (text: String)
    ensures
        text@ == decimal_text(tag as nat),
    decreases tag,
{
    if tag < 10 {
        String::from_str(digit_text(tag))
    } else {
        let mut text: String = label_text(tag / 10);
        let last: &'static str = digit_text(tag % 10);
        text.append(last);
        text
    }
}

} // verus!
