//! The hit circle: a timed, positioned, coloured target.

use vstd::prelude::*;
use crate::geometry::Point;

verus! {

/// The radius shared by every hit circle, in thousandths of a playfield unit.
pub const CIRCLE_RADIUS: u32 = 40_000;

/// An opaque colour given by its red, green and blue channels.
#[derive(Clone, Copy, Debug, PartialEq, Eq, Structural)]
pub struct Color {
    pub red: u8,
    pub green: u8,
    pub blue: u8,
}

/// One target of the timeline.
///
/// Everything but `active` is fixed when the circle is created; `active`
/// turns from `false` to `true` once and never back.
#[derive(Clone, Copy, Debug, PartialEq, Eq, Structural)]
pub struct HitCircle {
    /// The identity of the circle: its ordinal among the circles of the
    /// timeline it was created from.
    pub id: usize,
    /// Where the circle sits on the playfield.
    pub position: Point,
    /// The radius used both to draw the circle and to hit it.
    pub radius: u32,
    /// The 1-based sequence number of the circle within its combo.
    pub combo_tag: u64,
    /// The colour of the combo the circle belongs to.
    pub color: Color,
    /// The time at which the circle becomes active, in milliseconds since the
    /// start of the map.
    pub start_time_ms: i64,
    /// Whether the scheduled start time has been reached.
    pub active: bool,
}

impl HitCircle {
    /// Whether a query at `query` may resolve to this circle: the circle is
    /// active and the query lies strictly inside its disc.
    pub open spec fn is_candidate(self, query: Point) -> bool {
        self.active && query.inside(self.position, self.radius as nat)
    }

    /// This circle as an activation step at `elapsed_ms` leaves it: active if
    /// it was active before or if its start time has been reached, and
    /// otherwise untouched.
    pub open spec fn activated_at(self, elapsed_ms: int) -> HitCircle {
        if !self.active && elapsed_ms >= self.start_time_ms {
            HitCircle { active: true, ..self }
        } else {
            self
        }
    }

    /// Whether both values describe the same circle, whatever its activation.
    pub open spec fn same_circle(self, other: HitCircle) -> bool {
        HitCircle { active: other.active, ..self } == other
    }

    /// Decides [`HitCircle::is_candidate`].
    pub fn accepts(&self, query: &Point) -> (b: bool)
        ensures
            b == self.is_candidate(*query),
    {
        self.active && query.is_inside(&self.position, self.radius)
    }

    /// Whether an activation step at `elapsed_ms` turns this circle active.
    pub fn is_due(&self, elapsed_ms: i64) -> (b: bool)
        ensures
            b == (!self.active && elapsed_ms >= self.start_time_ms),
            b == (self.activated_at(elapsed_ms as int) != *self),
    {
        !self.active && elapsed_ms >= self.start_time_ms
    }
}

} // verus!
