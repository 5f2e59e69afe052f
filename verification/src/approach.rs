//! The approach circle: one shrinking ring shared by all active circles.

use vstd::prelude::*;
use crate::circle::CIRCLE_RADIUS;

verus! {

/// The ring that closes in on the hit circles while any of them is active.
///
/// Its radius never drops below [`CIRCLE_RADIUS`], the radius of the hit
/// circles it closes in on.
pub struct ApproachCircle {
    radius: u32,
    closing_speed: u32,
}

/// What an [`ApproachCircle`] holds, as plain numbers.
pub struct ApproachView {
    /// The current radius, in thousandths of a playfield unit.
    pub radius: nat,
    /// The shrink rate in playfield units per second, which is the same as
    /// thousandths of a unit per millisecond.
    pub closing_speed: nat,
}

impl ApproachView {
    /// The ring has not gone below the radius of the hit circles.
    pub open spec fn valid(self) -> bool {
        self.radius >= CIRCLE_RADIUS
    }

    /// The ring is still closing in: it has not reached the hit circles.
    pub open spec fn animating(self) -> bool {
        self.radius > CIRCLE_RADIUS
    }

    /// The ring after `delta_ms` milliseconds of shrinking.
    ///
    /// A clock that stood still or ran backwards changes nothing; otherwise
    /// the radius drops by `closing_speed * delta_ms`, but not below the
    /// radius of the hit circles.
    pub open spec fn shrunk(self, delta_ms: int) -> ApproachView
        recommends
            self.valid(),
    {
        if delta_ms <= 0 {
            self
        } else if self.radius - self.closing_speed * delta_ms <= CIRCLE_RADIUS {
            ApproachView { radius: CIRCLE_RADIUS as nat, ..self }
        } else {
            ApproachView { radius: (self.radius - self.closing_speed * delta_ms) as nat, ..self }
        }
    }

    /// Shrinking never takes the radius below the radius of the hit circles,
    /// never raises it, and does not touch the speed, however long or short
    /// the time that passed.
    pub proof fn lemma_shrunk_stays_above_floor(self, delta_ms: int)
        requires
            self.valid(),
        ensures
            self.shrunk(delta_ms).valid(),
            self.shrunk(delta_ms).radius <= self.radius,
            self.shrunk(delta_ms).closing_speed == self.closing_speed,
    {
        if delta_ms > 0 {
            assert(self.closing_speed * delta_ms >= 0) by (nonlinear_arith)
                requires
                    self.closing_speed >= 0,
                    delta_ms > 0,
            ;
        }
    }

    /// While the ring is still closing in, a positive speed and a clock that
    /// advanced make the radius strictly smaller.
    pub proof fn lemma_shrunk_strictly_decreases(self, delta_ms: int)
        requires
            self.animating(),
            self.closing_speed > 0,
            delta_ms > 0,
        ensures
            self.shrunk(delta_ms).radius < self.radius,
    {
        assert(self.closing_speed * delta_ms > 0) by (nonlinear_arith)
            requires
                self.closing_speed > 0,
                delta_ms > 0,
        ;
    }

    /// A clock that did not advance leaves the ring as it is.
    pub proof fn lemma_shrunk_without_progress(self, delta_ms: int)
        requires
            delta_ms <= 0,
        ensures
            self.shrunk(delta_ms) == self,
    {
    }
}

impl View for ApproachCircle {
    type V = ApproachView;

    closed spec fn view(&self) -> ApproachView {
        ApproachView { radius: self.radius as nat, closing_speed: self.closing_speed as nat }
    }
}

impl ApproachCircle {
    /// Holds of every approach circle at all times.
    #[verifier::type_invariant]
    pub open spec fn well_formed(self) -> bool {
        self@.valid()
    }

    /// A ring with the given speed that starts at `radius`, or at the radius
    /// of the hit circles if `radius` is below it.
    pub fn new(radius: u32, closing_speed: u32) -> (ring: ApproachCircle)
        ensures
            ring@.valid(),
            ring@.radius == if radius < CIRCLE_RADIUS { CIRCLE_RADIUS } else { radius },
            ring@.closing_speed == closing_speed,
    {
        ApproachCircle {
            radius: if radius < CIRCLE_RADIUS {
                CIRCLE_RADIUS
            } else {
                radius
            },
            closing_speed,
        }
    }

    /// The current radius; it is never below the radius of the hit circles.
    pub fn radius(&self) -> (r: u32)
        ensures
            r == self@.radius,
            r >= CIRCLE_RADIUS,
    {
        proof {
            use_type_invariant(self);
        }
        self.radius
    }

    /// The shrink rate, in playfield units per second.
    pub fn closing_speed(&self) -> (r: u32)
        ensures
            r == self@.closing_speed,
    {
        self.closing_speed
    }

    /// Whether the ring is still closing in.
    pub fn is_animating(&self) -> (b: bool)
        ensures
            b == self@.animating(),
    {
        self.radius > CIRCLE_RADIUS
    }

    /// Shrinks the ring by `delta_ms` milliseconds of closing in.
    pub fn shrink(&mut self, delta_ms: i64)
        ensures
            final(self)@ == old(self)@.shrunk(delta_ms as int),
            final(self)@.valid(),
    {
        proof {
            use_type_invariant(&*self);
        }
        if delta_ms > 0 {
            let room: u32 = self.radius - CIRCLE_RADIUS;
            assert(0 <= self.closing_speed * delta_ms <= 0x1_0000_0000 * 0x8000_0000_0000_0000)
                by (nonlinear_arith)
                requires
                    0 <= self.closing_speed <= 0x1_0000_0000,
                    0 < delta_ms <= 0x8000_0000_0000_0000,
            ;
            let drop: u128 = (self.closing_speed as u128) * (delta_ms as u128);
            if drop >= room as u128 {
                self.radius = CIRCLE_RADIUS;
            } else {
                self.radius = self.radius - drop as u32;
            }
        }
    }
}

} // verus!
