//! The roster: the live, ordered sequence of hit circles of a session.
//!
//! The order of the roster is the order in which the circles were created,
//! and it is also their stacking order: the last circle is the topmost.

use vstd::prelude::*;
use crate::circle::{HitCircle, CIRCLE_RADIUS};

verus! {

/// What holds of the circles of every roster: identities grow strictly along
/// the roster, every circle has the shared radius, and combo tags count
/// from 1.
pub open spec fn valid_roster(circles: Seq<HitCircle>) -> bool {
    &&& forall|i: int, j: int| 0 <= i < j < circles.len() ==> circles[i].id < circles[j].id
    &&& forall|i: int| 0 <= i < circles.len() ==> (#[trigger] circles[i]).radius == CIRCLE_RADIUS
    &&& forall|i: int| 0 <= i < circles.len() ==> (#[trigger] circles[i]).combo_tag >= 1
}

/// No two circles of a valid roster share an identity.
pub proof fn lemma_identities_distinct(circles: Seq<HitCircle>, i: int, j: int)
    requires
        valid_roster(circles),
        0 <= i < circles.len(),
        0 <= j < circles.len(),
        i != j,
    ensures
        circles[i].id != circles[j].id,
{
}

/// Taking a circle out of a valid roster leaves a valid roster that has
/// lost that circle's identity and kept every other circle as it was.
pub proof fn lemma_removal_keeps_validity(circles: Seq<HitCircle>, index: int)
    requires
        valid_roster(circles),
        0 <= index < circles.len(),
    ensures
        valid_roster(circles.remove(index)),
        circles.remove(index).len() == circles.len() - 1,
        forall|k: int|
            0 <= k < circles.len() - 1 ==> #[trigger] circles.remove(index)[k] == circles[if k
                < index {
                k
            } else {
                k + 1
            }],
        forall|k: int|
            0 <= k < circles.len() - 1 ==> (#[trigger] circles.remove(index)[k]).id
                != circles[index].id,
{
    let rest = circles.remove(index);
    assert forall|k: int| 0 <= k < circles.len() - 1 implies #[trigger] rest[k] == circles[if k
        < index {
        k
    } else {
        k + 1
    }] by {}
    assert forall|k: int| 0 <= k < circles.len() - 1 implies (#[trigger] rest[k]).id
        != circles[index].id by {
        lemma_identities_distinct(circles, if k < index { k } else { k + 1 }, index);
    }
}

/// The live circles of a session, oldest first.
///
/// A roster is created by loading a timeline. After that its circles can
/// only be activated and removed: no circle is added, reordered or edited.
pub struct Roster {
    circles: Vec<HitCircle>,
}

impl View for Roster {
    type V = Seq<HitCircle>;

    closed spec fn view(&self) -> Seq<HitCircle> {
        self.circles@
    }
}

impl Roster {
    /// Holds of every roster at all times.
    #[verifier::type_invariant]
    pub open spec fn well_formed(self) -> bool {
        valid_roster(self@)
    }

    /// The roster that holds exactly `circles`.
    pub(crate) fn from_circles(circles: Vec<HitCircle>) -> (roster: Roster)
        requires
            valid_roster(circles@),
        ensures
            roster@ == circles@,
    {
        Roster { circles }
    }

    /// The number of live circles.
    pub fn len(&self) -> (n: usize)
        ensures
            n == self@.len(),
    {
        self.circles.len()
    }

    /// Whether no circle is left.
    pub fn is_empty(&self) -> (b: bool)
        ensures
            b == (self@.len() == 0),
    {
        self.circles.len() == 0
    }

    /// The circle at `index`, counted from the oldest, if there is one.
    pub fn get(&self, index: usize) -> (circle: Option<HitCircle>)
        ensures
            circle == if index < self@.len() {
                Some(self@[index as int])
            } else {
                None
            },
    {
        if index < self.circles.len() {
            Some(self.circles[index])
        } else {
            None
        }
    }

    /// All live circles, oldest first.
    pub fn circles(&self) -> (circles: &Vec<HitCircle>)
        ensures
            circles@ == self@,
            valid_roster(circles@),
    {
        proof {
            use_type_invariant(self);
        }
        &self.circles
    }

    /// Marks the circle at `index` active.
    pub(crate) fn activate(&mut self, index: usize)
        requires
            index < old(self)@.len(),
        ensures
            final(self)@ == old(self)@.update(
                index as int,
                HitCircle { active: true, ..old(self)@[index as int] },
            ),
    {
        proof {
            use_type_invariant(&*self);
        }
        let mut circles: Vec<HitCircle> = Vec::new();
        std::mem::swap(&mut circles, &mut self.circles);
        let mut circle: HitCircle = circles[index];
        circle.active = true;
        circles.set(index, circle);
        self.circles = circles;
    }

    /// Takes the circle at `index` out of the roster and returns it.
    pub(crate) fn take(&mut self, index: usize) -> (circle: HitCircle)
        requires
            index < old(self)@.len(),
        ensures
            circle == old(self)@[index as int],
            final(self)@ == old(self)@.remove(index as int),
    {
        proof {
            use_type_invariant(&*self);
            lemma_removal_keeps_validity(self.circles@, index as int);
        }
        let mut circles: Vec<HitCircle> = Vec::new();
        std::mem::swap(&mut circles, &mut self.circles);
        let circle: HitCircle = circles.remove(index);
        self.circles = circles;
        circle
    }
}

} // verus!
