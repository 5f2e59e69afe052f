//! Activation and animation: what one simulation step does to the roster
//! and to the approach circle.

use vstd::prelude::*;
use crate::approach::{ApproachCircle, ApproachView};
use crate::circle::HitCircle;
use crate::clock::Tick;
use crate::roster::{valid_roster, Roster};

verus! {

/// The circles after an activation step at `elapsed_ms`: every circle whose
/// start time has been reached is active, and nothing else has changed.
pub open spec fn activated(circles: Seq<HitCircle>, elapsed_ms: int) -> Seq<HitCircle> {
    Seq::new(circles.len(), |i: int| circles[i].activated_at(elapsed_ms))
}

/// Whether at least one of `circles` is active.
pub open spec fn any_active(circles: Seq<HitCircle>) -> bool {
    exists|i: int| 0 <= i < circles.len() && (#[trigger] circles[i]).active
}

/// The approach circle after a step that left the roster as `circles`: it
/// shrinks while any circle is active and rests otherwise.
pub open spec fn animated(approach: ApproachView, circles: Seq<HitCircle>, delta_ms: int)
    -> ApproachView {
    if any_active(circles) {
        approach.shrunk(delta_ms)
    } else {
        approach
    }
}

/// The circles after one activation step for each of `times`, in order.
pub open spec fn activated_through(circles: Seq<HitCircle>, times: Seq<int>) -> Seq<HitCircle>
    decreases times.len(),
{
    if times.len() == 0 {
        circles
    } else {
        activated(activated_through(circles, times.drop_last()), times.last())
    }
}

/// An activation step keeps every circle in its place and changes nothing
/// of a circle but its activation: a circle that was active stays active,
/// and an inactive one is active afterwards exactly if its start time has
/// been reached.
pub proof fn lemma_activation_only_activates(circles: Seq<HitCircle>, elapsed_ms: int)
    ensures
        activated(circles, elapsed_ms).len() == circles.len(),
        forall|i: int|
            0 <= i < circles.len() ==> {
                let after = #[trigger] activated(circles, elapsed_ms)[i];
                &&& circles[i].same_circle(after)
                &&& circles[i].active ==> after.active
                &&& after.active <==> circles[i].active || elapsed_ms >= circles[i].start_time_ms
            },
        valid_roster(circles) ==> valid_roster(activated(circles, elapsed_ms)),
{
}

/// Once a circle is active, no later step turns it inactive again, whatever
/// the clock readings of those steps are.
pub proof fn lemma_active_stays_active(circles: Seq<HitCircle>, times: Seq<int>, index: int)
    requires
        0 <= index < circles.len(),
        circles[index].active,
    ensures
        activated_through(circles, times).len() == circles.len(),
        activated_through(circles, times)[index] == circles[index],
    decreases times.len(),
{
    lemma_steps_keep_circles(circles, times);
    if times.len() > 0 {
        lemma_active_stays_active(circles, times.drop_last(), index);
    }
}

/// However many steps are taken, the roster keeps its length and every
/// circle stays the same circle in the same place.
pub proof fn lemma_steps_keep_circles(circles: Seq<HitCircle>, times: Seq<int>)
    ensures
        activated_through(circles, times).len() == circles.len(),
        forall|i: int|
            0 <= i < circles.len() ==> circles[i].same_circle(
                #[trigger] activated_through(circles, times)[i],
            ),
    decreases times.len(),
{
    if times.len() > 0 {
        lemma_steps_keep_circles(circles, times.drop_last());
        let before = activated_through(circles, times.drop_last());
        assert forall|i: int| 0 <= i < circles.len() implies circles[i].same_circle(
            #[trigger] activated_through(circles, times)[i],
        ) by {
            assert(circles[i].same_circle(before[i]));
        }
    }
}

/// With a clock that does not run backwards, a circle is active after a run
/// of steps exactly if it was active before or its start time was reached
/// by the last of them.
pub proof fn lemma_activation_follows_the_clock(
    circles: Seq<HitCircle>,
    times: Seq<int>,
    index: int,
)
    requires
        0 <= index < circles.len(),
        times.len() > 0,
        forall|a: int, b: int| 0 <= a <= b < times.len() ==> times[a] <= times[b],
    ensures
        activated_through(circles, times)[index].active <==> circles[index].active
            || times.last() >= circles[index].start_time_ms,
    decreases times.len(),
{
    let earlier = times.drop_last();
    lemma_steps_keep_circles(circles, earlier);
    if earlier.len() > 0 {
        assert forall|a: int, b: int| 0 <= a <= b < earlier.len() implies earlier[a]
            <= earlier[b] by {
            assert(earlier[a] == times[a] && earlier[b] == times[b]);
        }
        lemma_activation_follows_the_clock(circles, earlier, index);
    }
}

/// Repeating a step with the same clock reading changes nothing more.
pub proof fn lemma_activation_is_idempotent(circles: Seq<HitCircle>, elapsed_ms: int)
    ensures
        activated(activated(circles, elapsed_ms), elapsed_ms) == activated(circles, elapsed_ms),
{
    assert(activated(activated(circles, elapsed_ms), elapsed_ms) =~= activated(
        circles,
        elapsed_ms,
    ));
}

/// The approach circle never ends a step below the radius of the hit
/// circles, and never above where it started, whatever the clock says.
pub proof fn lemma_animation_stays_above_floor(
    approach: ApproachView,
    circles: Seq<HitCircle>,
    delta_ms: int,
)
    requires
        approach.valid(),
    ensures
        animated(approach, circles, delta_ms).valid(),
        animated(approach, circles, delta_ms).radius <= approach.radius,
        delta_ms <= 0 ==> animated(approach, circles, delta_ms) == approach,
{
    approach.lemma_shrunk_stays_above_floor(delta_ms);
}

/// Marks every circle whose start time has been reached as active.
pub fn activate_due(roster: &mut Roster, elapsed_ms: i64)
    ensures
        final(roster)@ == activated(old(roster)@, elapsed_ms as int),
        valid_roster(final(roster)@),
{
    let mut next: usize = 0;
    while next < roster.len()
        invariant
            next <= roster@.len(),
            roster@.len() == old(roster)@.len(),
            forall|i: int|
                0 <= i < next ==> #[trigger] roster@[i] == old(roster)@[i].activated_at(
                    elapsed_ms as int,
                ),
            forall|i: int| next <= i < roster@.len() ==> #[trigger] roster@[i] == old(roster)@[i],
        decreases roster@.len() - next,
    {
        let due: bool = match roster.get(next) {
            Some(circle) => circle.is_due(elapsed_ms),
            None => false,
        };
        if due {
            roster.activate(next);
        }
        next = next + 1;
    }
    proof {
        use_type_invariant(&*roster);
    }
}

/// Whether at least one circle of the roster is active.
pub fn has_active(roster: &Roster) -> (found: bool)
    ensures
        found == any_active(roster@),
{
    let circles: &Vec<HitCircle> = roster.circles();
    let mut next: usize = 0;
    while next < circles.len()
        invariant
            next <= circles@.len(),
            circles@ == roster@,
            forall|i: int| 0 <= i < next ==> !(#[trigger] circles@[i]).active,
        decreases circles@.len() - next,
    {
        if circles[next].active {
            return true;
        }
        next = next + 1;
    }
    false
}

/// One simulation step: activates every circle whose start time has been
/// reached at `tick.elapsed_ms`, and then, if any circle is active, shrinks
/// the approach circle by `tick.delta_ms` of closing in.
pub fn step(roster: &mut Roster, approach: &mut ApproachCircle, tick: Tick)
    ensures
        final(roster)@ == activated(old(roster)@, tick.elapsed_ms as int),
        final(approach)@ == animated(old(approach)@, final(roster)@, tick.delta_ms as int),
        forall|i: int|
            #![trigger old(roster)@[i]]
            0 <= i < old(roster)@.len() && old(roster)@[i].active ==> final(roster)@[i].active,
        final(approach)@.valid(),
        valid_roster(final(roster)@),
{
    proof {
        use_type_invariant(&*approach);
        approach@.lemma_shrunk_stays_above_floor(tick.delta_ms as int);
    }
    activate_due(roster, tick.elapsed_ms);
    if has_active(roster) {
        approach.shrink(tick.delta_ms);
    }
}

} // verus!
