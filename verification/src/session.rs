//! The session: the roster, the approach circle and the clock of one play
//! through a timeline, behind the operations of the frame loop.

use vstd::prelude::*;
use crate::approach::{ApproachCircle, ApproachView};
use crate::circle::{Color, HitCircle, CIRCLE_RADIUS};
use crate::clock::{Clock, Tick};
use crate::compositor::{draw_list, render, DrawCommand};
use crate::engine::{activated, animated, step};
use crate::geometry::Point;
use crate::loader::{load, loaded, ConfigurationError, HitObject};
use crate::resolve::{after_query, resolve, topmost_hit};
use crate::roster::{valid_roster, Roster};

verus! {

/// How far outside the hit circles the approach circle starts.
pub const APPROACH_LEAD: u32 = 60_000;

/// The shrink rate of the approach circle, in playfield units per second.
pub const CLOSING_SPEED: u32 = 10;

/// The keys a session tells apart.
#[derive(Clone, Copy, Debug, PartialEq, Eq, Structural)]
pub enum Key {
    /// Ends the session.
    Escape,
    /// The first hit key.
    A,
    /// The second hit key.
    D,
    /// Any key without a meaning to the session.
    Other,
}

/// What a key press came to.
#[derive(Clone, Copy, Debug, PartialEq, Eq, Structural)]
pub enum KeyOutcome {
    /// The player asked to end the session.
    Quit,
    /// A hit key was pressed over this circle, which has left the roster.
    Hit(HitCircle),
    /// A hit key was pressed where no active circle is.
    Miss,
    /// The press means nothing to the session.
    Ignored,
}

/// The state of one play through a timeline.
pub struct Session {
    roster: Roster,
    approach: ApproachCircle,
    clock: Clock,
}

/// What a [`Session`] holds, as plain values.
pub struct SessionView {
    /// The live circles, oldest first.
    pub roster: Seq<HitCircle>,
    /// The approach circle.
    pub approach: ApproachView,
    /// The elapsed time last reported by the clock, in milliseconds.
    pub elapsed_ms: int,
}

impl SessionView {
    /// What holds of every session: the roster is valid, the approach circle
    /// is not below the hit circles, and no negative time has elapsed.
    pub open spec fn valid(self) -> bool {
        &&& valid_roster(self.roster)
        &&& self.approach.valid()
        &&& self.elapsed_ms >= 0
    }

    /// The session at the start of a play through `objects`.
    pub open spec fn opening(objects: Seq<HitObject>, palette: Seq<Color>) -> SessionView {
        SessionView {
            roster: loaded(objects, palette),
            approach: ApproachView {
                radius: (CIRCLE_RADIUS + APPROACH_LEAD) as nat,
                closing_speed: CLOSING_SPEED as nat,
            },
            elapsed_ms: 0,
        }
    }

    /// The session after a step for which the timer read `reading_ms`: the
    /// clock moves to the reading unless that is a move backwards, circles
    /// whose start time has been reached turn active, and the approach circle
    /// shrinks by the time the clock moved if any circle is active.
    pub open spec fn stepped(self, reading_ms: int) -> SessionView {
        let elapsed_ms = Clock::advanced(self.elapsed_ms, reading_ms);
        let roster = activated(self.roster, elapsed_ms);
        SessionView {
            roster,
            approach: animated(self.approach, roster, elapsed_ms - self.elapsed_ms),
            elapsed_ms,
        }
    }

    /// What pressing `key` with the pointer at `pointer` comes to.
    pub open spec fn key_outcome(self, key: Option<Key>, pointer: Point) -> KeyOutcome {
        match key {
            Some(Key::Escape) => KeyOutcome::Quit,
            Some(Key::A) | Some(Key::D) => match topmost_hit(self.roster, pointer) {
                Some(index) => KeyOutcome::Hit(self.roster[index]),
                None => KeyOutcome::Miss,
            },
            _ => KeyOutcome::Ignored,
        }
    }

    /// The session after `key` was pressed with the pointer at `pointer`:
    /// a hit key takes the circle it hit out of the roster, and nothing else
    /// changes anything.
    pub open spec fn after_key(self, key: Option<Key>, pointer: Point) -> SessionView {
        match key {
            Some(Key::A) | Some(Key::D) => SessionView {
                roster: after_query(self.roster, pointer),
                ..self
            },
            _ => self,
        }
    }

    /// A step keeps a session valid. In particular the approach circle is
    /// never below the radius of the hit circles after it, whatever the timer
    /// read.
    pub proof fn lemma_stepped_is_valid(self, reading_ms: int)
        requires
            self.valid(),
        ensures
            self.stepped(reading_ms).valid(),
            self.stepped(reading_ms).approach.radius >= CIRCLE_RADIUS,
            self.stepped(reading_ms).approach.radius <= self.approach.radius,
            self.stepped(reading_ms).elapsed_ms >= self.elapsed_ms,
    {
        let elapsed_ms = Clock::advanced(self.elapsed_ms, reading_ms);
        crate::engine::lemma_activation_only_activates(self.roster, elapsed_ms);
        crate::engine::lemma_animation_stays_above_floor(
            self.approach,
            activated(self.roster, elapsed_ms),
            elapsed_ms - self.elapsed_ms,
        );
    }

    /// A key press keeps a session valid, and a press that is not a hit
    /// leaves the session exactly as it was.
    pub proof fn lemma_after_key_is_valid(self, key: Option<Key>, pointer: Point)
        requires
            self.valid(),
        ensures
            self.after_key(key, pointer).valid(),
            !(self.key_outcome(key, pointer) is Hit) ==> self.after_key(key, pointer) == self,
            self.key_outcome(key, pointer) is Hit ==> self.after_key(key, pointer).roster.len()
                == self.roster.len() - 1,
    {
        if topmost_hit(self.roster, pointer) is Some {
            crate::resolve::lemma_hit_removes_one(self.roster, pointer);
        }
    }
}

impl View for Session {
    type V = SessionView;

    closed spec fn view(&self) -> SessionView {
        SessionView { roster: self.roster@, approach: self.approach@, elapsed_ms: self.clock@ }
    }
}

impl Session {
    /// Sets up a session for a timeline: loads the roster, puts the approach
    /// circle at its starting radius and starts the clock. Fails exactly when
    /// the palette is empty.
    pub fn new(hit_objects: &Vec<HitObject>, combo_colors: &Vec<Color>) -> (result: Result<
        Session,
        ConfigurationError,
    >)
        ensures
            result is Err <==> combo_colors@.len() == 0,
            result matches Err(error) ==> error == ConfigurationError::EmptyPalette,
            result matches Ok(session) ==> session@ == SessionView::opening(
                hit_objects@,
                combo_colors@,
            ) && session@.valid(),
    {
        match load(hit_objects, combo_colors) {
            Ok(roster) => Ok(
                Session {
                    roster,
                    approach: ApproachCircle::new(CIRCLE_RADIUS + APPROACH_LEAD, CLOSING_SPEED),
                    clock: Clock::start(),
                },
            ),
            Err(error) => Err(error),
        }
    }

    /// The live circles.
    pub fn roster(&self) -> (roster: &Roster)
        ensures
            roster@ == self@.roster,
            valid_roster(roster@),
    {
        proof {
            use_type_invariant(&self.roster);
        }
        &self.roster
    }

    /// The approach circle.
    pub fn approach_circle(&self) -> (approach: &ApproachCircle)
        ensures
            approach@ == self@.approach,
            approach@.valid(),
    {
        proof {
            use_type_invariant(&self.approach);
        }
        &self.approach
    }

    /// The elapsed time last reported by the clock, in milliseconds.
    pub fn elapsed_ms(&self) -> (elapsed: i64)
        ensures
            elapsed == self@.elapsed_ms,
            elapsed >= 0,
    {
        self.clock.elapsed_ms()
    }

    /// One simulation step for a timer reading of `reading_ms` milliseconds
    /// since the start of the session.
    pub fn advance(&mut self, reading_ms: i64) -> (tick: Tick)
        ensures
            final(self)@ == old(self)@.stepped(reading_ms as int),
            final(self)@.valid(),
            tick.elapsed_ms == final(self)@.elapsed_ms,
            tick.delta_ms == final(self)@.elapsed_ms - old(self)@.elapsed_ms,
    {
        let tick: Tick = self.clock.advance(reading_ms);
        step(&mut self.roster, &mut self.approach, tick);
        proof {
            use_type_invariant(&self.clock);
        }
        tick
    }

    /// One simulation step at the time the session's own timer shows.
    ///
    /// Whatever the timer shows, the session ends up as [`Session::advance`]
    /// leaves it for the elapsed time that the clock reports afterwards, and
    /// that time is not before the one reported last.
    pub fn update(&mut self) -> (tick: Tick)
        ensures
            final(self)@ == old(self)@.stepped(final(self)@.elapsed_ms),
            final(self)@.elapsed_ms >= old(self)@.elapsed_ms,
            final(self)@.valid(),
            tick.elapsed_ms == final(self)@.elapsed_ms,
            tick.delta_ms == final(self)@.elapsed_ms - old(self)@.elapsed_ms,
    {
        let tick: Tick = self.clock.tick();
        step(&mut self.roster, &mut self.approach, tick);
        proof {
            use_type_invariant(&self.clock);
        }
        tick
    }

    /// Resolves a query at `position`: the topmost active circle that
    /// strictly contains it leaves the roster and is returned; without such
    /// a circle nothing changes.
    pub fn detect_circle(&mut self, position: Point) -> (hit: Option<HitCircle>)
        ensures
            match topmost_hit(old(self)@.roster, position) {
                Some(index) => hit == Some(old(self)@.roster[index]),
                None => hit is None,
            },
            final(self)@ == (SessionView {
                roster: after_query(old(self)@.roster, position),
                ..old(self)@
            }),
            hit is None ==> final(self)@ == old(self)@,
            final(self)@.valid(),
    {
        proof {
            use_type_invariant(&self.clock);
            use_type_invariant(&self.approach);
        }
        resolve(&mut self.roster, position)
    }

    /// The draw list of the current frame.
    pub fn draw(&self) -> (commands: Vec<DrawCommand>)
        ensures
            commands@ == draw_list(self@.roster, None, self@.approach),
    {
        render(&self.roster, &self.approach)
    }

    /// Handles a key press with the pointer at `pointer`. Escape asks to end
    /// the session, a hit key resolves a query at the pointer, and any other
    /// key, or none, is ignored.
    pub fn key_down_event(&mut self, key: Option<Key>, pointer: Point) -> (outcome: KeyOutcome)
        ensures
            outcome == old(self)@.key_outcome(key, pointer),
            final(self)@ == old(self)@.after_key(key, pointer),
            final(self)@.valid(),
    {
        proof {
            use_type_invariant(&self.clock);
            use_type_invariant(&self.approach);
            use_type_invariant(&self.roster);
        }
        match key {
            Some(Key::Escape) => KeyOutcome::Quit,
            Some(Key::A) | Some(Key::D) => match self.detect_circle(pointer) {
                Some(circle) => KeyOutcome::Hit(circle),
                None => KeyOutcome::Miss,
            },
            _ => KeyOutcome::Ignored,
        }
    }
}

} // verus!
