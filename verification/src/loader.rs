//! The timeline loader: from an ordered list of timed hit objects and a
//! palette of combo colours to the roster of a session.
//!
//! Only circles are kept. Each circle gets its 1-based tag within its combo
//! and the colour of its combo; combos take the colours of the palette in
//! turn, starting with the first colour and wrapping around at the end.

use vstd::prelude::*;
use crate::circle::{Color, HitCircle, CIRCLE_RADIUS};
use crate::geometry::Point;
use crate::roster::{valid_roster, Roster};

verus! {

/// The kinds of object a timeline may hold.
#[derive(Clone, Copy, Debug, PartialEq, Eq, Structural)]
pub enum HitObjectKind {
    Circle,
    Slider,
    Spinner,
    Hold,
}

/// One timed object of a timeline, as the beatmap describes it.
#[derive(Clone, Copy, Debug, PartialEq, Eq, Structural)]
pub struct HitObject {
    /// Where the object sits on the playfield.
    pub position: Point,
    /// When the object starts, in milliseconds since the start of the map.
    pub start_time_ms: i64,
    /// What kind of object this is.
    pub kind: HitObjectKind,
    /// Whether the object opens a new combo.
    pub new_combo: bool,
}

/// Why a session cannot be set up.
#[derive(Clone, Copy, Debug, PartialEq, Eq, Structural)]
pub enum ConfigurationError {
    /// The palette of combo colours holds no colour.
    EmptyPalette,
}

/// The circles among `objects`, in their order.
pub open spec fn circle_objects(objects: Seq<HitObject>) -> Seq<HitObject> {
    objects.filter(|object: HitObject| object.kind == HitObjectKind::Circle)
}

/// Whether the circle at `index` is the first of its combo: it is the first
/// circle of all, or it is marked as opening a new combo.
pub open spec fn opens_combo(circles: Seq<HitObject>, index: int) -> bool {
    index <= 0 || circles[index].new_combo
}

/// The tag of the circle at `index`: 1 for a circle that opens a combo, and
/// one more than the tag of the circle before it for any other.
pub open spec fn combo_tag(circles: Seq<HitObject>, index: int) -> nat
    decreases index,
{
    if opens_combo(circles, index) {
        1
    } else {
        combo_tag(circles, index - 1) + 1
    }
}

/// The ordinal of the combo that the circle at `index` belongs to: the
/// number of combos opened after the first circle, up to and including the
/// circle at `index`. The first circle always belongs to combo 0.
pub open spec fn combo_ordinal(circles: Seq<HitObject>, index: int) -> nat
    decreases index,
{
    if index <= 0 {
        0
    } else if circles[index].new_combo {
        combo_ordinal(circles, index - 1) + 1
    } else {
        combo_ordinal(circles, index - 1)
    }
}

/// The index into a palette of `palette_len` colours of the colour of the
/// circle at `index`.
pub open spec fn color_index(circles: Seq<HitObject>, index: int, palette_len: nat) -> int
    recommends
        palette_len > 0,
{
    combo_ordinal(circles, index) as int % palette_len as int
}

/// The hit circle made from the circle at `index` of `circles`.
pub open spec fn loaded_circle(
    circles: Seq<HitObject>,
    palette: Seq<Color>,
    index: int,
) -> HitCircle
    recommends
        0 <= index < circles.len(),
        palette.len() > 0,
{
    HitCircle {
        id: index as usize,
        position: circles[index].position,
        radius: CIRCLE_RADIUS,
        combo_tag: combo_tag(circles, index) as u64,
        color: palette[color_index(circles, index, palette.len())],
        start_time_ms: circles[index].start_time_ms,
        active: false,
    }
}

/// The circles of the roster that loading `objects` with `palette` gives.
pub open spec fn loaded(objects: Seq<HitObject>, palette: Seq<Color>) -> Seq<HitCircle>
    recommends
        palette.len() > 0,
{
    let circles = circle_objects(objects);
    Seq::new(circles.len(), |index: int| loaded_circle(circles, palette, index))
}

/// The index at which the combo of the circle at `index` opens.
pub open spec fn combo_start(circles: Seq<HitObject>, index: int) -> int
    decreases index,
{
    if opens_combo(circles, index) {
        index
    } else {
        combo_start(circles, index - 1)
    }
}

/// A tag is the 1-based position of a circle within its combo: the combo
/// opens at `combo_start`, no circle between there and `index` opens
/// another, and the tag counts the circles from there.
pub proof fn lemma_combo_tag_counts_within_combo(circles: Seq<HitObject>, index: int)
    requires
        0 <= index < circles.len(),
    ensures
        0 <= combo_start(circles, index) <= index,
        opens_combo(circles, combo_start(circles, index)),
        forall|k: int| combo_start(circles, index) < k <= index ==> !opens_combo(circles, k),
        combo_tag(circles, index) == index - combo_start(circles, index) + 1,
        1 <= combo_tag(circles, index) <= index + 1,
    decreases index,
{
    if !opens_combo(circles, index) {
        lemma_combo_tag_counts_within_combo(circles, index - 1);
    }
}

/// Colours follow the combos around the palette: the first circle takes the
/// first colour, a circle that opens a later combo takes the colour after
/// that of the circle before it, wrapping around at the end of the palette,
/// and every other circle takes the colour of the circle before it.
pub proof fn lemma_color_index_cycles(circles: Seq<HitObject>, index: int, palette_len: nat)
    requires
        0 <= index < circles.len(),
        palette_len > 0,
    ensures
        0 <= color_index(circles, index, palette_len) < palette_len,
        index == 0 ==> color_index(circles, index, palette_len) == 0,
        index > 0 && circles[index].new_combo ==> color_index(circles, index, palette_len) == (
        if color_index(circles, index - 1, palette_len) + 1 == palette_len {
            0
        } else {
            color_index(circles, index - 1, palette_len) + 1
        }),
        index > 0 && !circles[index].new_combo ==> color_index(circles, index, palette_len)
            == color_index(circles, index - 1, palette_len),
{
    let n = palette_len as int;
    assert(0int % n == 0) by (nonlinear_arith)
        requires
            n > 0,
    ;
    assert(0 <= combo_ordinal(circles, index) as int % n < n) by (nonlinear_arith)
        requires
            n > 0,
    ;
    if index > 0 && circles[index].new_combo {
        let before = combo_ordinal(circles, index - 1) as int;
        assert((before + 1) % n == if before % n + 1 == n {
            0
        } else {
            before % n + 1
        }) by (nonlinear_arith)
            requires
                before >= 0,
                n > 0,
        ;
    }
}

/// Tags and combo ordinals of the circles already seen do not depend on the
/// circles that follow.
pub proof fn lemma_combo_of_prefix(circles: Seq<HitObject>, longer: Seq<HitObject>, index: int)
    requires
        0 <= index < circles.len() <= longer.len(),
        forall|k: int| 0 <= k < circles.len() ==> circles[k] == longer[k],
    ensures
        combo_tag(circles, index) == combo_tag(longer, index),
        combo_ordinal(circles, index) == combo_ordinal(longer, index),
    decreases index,
{
    if index > 0 {
        lemma_combo_of_prefix(circles, longer, index - 1);
    }
}

/// Loading gives a valid roster with one inactive circle for each circle of
/// the timeline, in order, each with its position and start time.
pub proof fn lemma_loaded_is_valid(objects: Seq<HitObject>, palette: Seq<Color>)
    requires
        palette.len() > 0,
        circle_objects(objects).len() <= usize::MAX,
    ensures
        valid_roster(loaded(objects, palette)),
        loaded(objects, palette).len() == circle_objects(objects).len(),
        forall|i: int|
            0 <= i < loaded(objects, palette).len() ==> {
                let circle = #[trigger] loaded(objects, palette)[i];
                &&& circle.id == i
                &&& !circle.active
                &&& circle.position == circle_objects(objects)[i].position
                &&& circle.start_time_ms == circle_objects(objects)[i].start_time_ms
                &&& circle.combo_tag == combo_tag(circle_objects(objects), i)
                &&& circle.color == palette[color_index(circle_objects(objects), i, palette.len())]
            },
{
    let circles = circle_objects(objects);
    assert forall|i: int| 0 <= i < circles.len() implies (#[trigger] loaded(
        objects,
        palette,
    )[i]).combo_tag == combo_tag(circles, i) && loaded(objects, palette)[i].combo_tag >= 1 by {
        lemma_combo_tag_counts_within_combo(circles, i);
    }
}

/// Loads a timeline: keeps the circles of `hit_objects`, in order, and gives
/// each its identity, tag and combo colour. Fails exactly when the palette
/// is empty.
pub fn load(hit_objects: &Vec<HitObject>, combo_colors: &Vec<Color>) -> (result: Result<
    Roster,
    ConfigurationError,
>)
    ensures
        result is Err <==> combo_colors@.len() == 0,
        result matches Err(error) ==> error == ConfigurationError::EmptyPalette,
        result matches Ok(roster) ==> roster@ == loaded(hit_objects@, combo_colors@)
            && valid_roster(roster@),
{
    if combo_colors.len() == 0 {
        return Err(ConfigurationError::EmptyPalette);
    }
    let palette_len: usize = combo_colors.len();
    let mut circles: Vec<HitCircle> = Vec::new();
    let mut last_tag: u64 = 0;
    let mut color: usize = 0;
    let ghost is_circle = |object: HitObject| object.kind == HitObjectKind::Circle;
    proof {
        reveal(Seq::filter);
    }
    let mut next: usize = 0;
    while next < hit_objects.len()
        invariant
            next <= hit_objects@.len(),
            palette_len == combo_colors@.len(),
            palette_len > 0,
            is_circle == |object: HitObject| object.kind == HitObjectKind::Circle,
            circles@.len() == hit_objects@.take(next as int).filter(is_circle).len(),
            circles@.len() <= next,
            forall|i: int|
                0 <= i < circles@.len() ==> #[trigger] circles@[i] == loaded_circle(
                    hit_objects@.take(next as int).filter(is_circle),
                    combo_colors@,
                    i,
                ),
            circles@.len() == 0 ==> last_tag == 0 && color == 0,
            circles@.len() > 0 ==> last_tag == combo_tag(
                hit_objects@.take(next as int).filter(is_circle),
                circles@.len() - 1,
            ) && color == color_index(
                hit_objects@.take(next as int).filter(is_circle),
                circles@.len() - 1,
                palette_len as nat,
            ),
            last_tag <= circles@.len(),
            color < palette_len,
        decreases hit_objects@.len() - next,
    {
        let object: HitObject = hit_objects[next];
        let ghost seen = hit_objects@.take(next as int).filter(is_circle);
        let ghost grown = hit_objects@.take(next as int + 1).filter(is_circle);
        proof {
            reveal(Seq::filter);
            let longer = hit_objects@.take(next as int + 1);
            assert(longer.drop_last() == hit_objects@.take(next as int));
            assert(grown == if is_circle(object) {
                seen.push(object)
            } else {
                seen
            });
        }
        match object.kind {
            HitObjectKind::Circle => {
                let ghost index = circles@.len() as int;
                let opens: bool = circles.len() == 0 || object.new_combo;
                let tag: u64 = if opens {
                    1
                } else {
                    last_tag + 1
                };
                if circles.len() > 0 && object.new_combo {
                    color = if color + 1 == palette_len {
                        0
                    } else {
                        color + 1
                    };
                }
                proof {
                    assert forall|i: int| 0 <= i < index implies #[trigger] circles@[i]
                        == loaded_circle(grown, combo_colors@, i) by {
                        lemma_combo_of_prefix(seen, grown, i);
                    }
                    lemma_combo_tag_counts_within_combo(grown, index);
                    lemma_color_index_cycles(grown, index, palette_len as nat);
                    if index > 0 {
                        lemma_combo_of_prefix(seen, grown, index - 1);
                    }
                }
                circles.push(
                    HitCircle {
                        id: circles.len(),
                        position: object.position,
                        radius: CIRCLE_RADIUS,
                        combo_tag: tag,
                        color: combo_colors[color],
                        start_time_ms: object.start_time_ms,
                        active: false,
                    },
                );
                last_tag = tag;
            },
            _ => {},
        }
        next = next + 1;
    }
    proof {
        assert(hit_objects@.take(next as int) == hit_objects@);
        assert(circles@ == loaded(hit_objects@, combo_colors@));
        lemma_loaded_is_valid(hit_objects@, combo_colors@);
    }
    Ok(Roster::from_circles(circles))
}

} // verus!
