//! Hit resolution: which circle a query point resolves to.
//!
//! Among the active circles whose disc strictly contains the query point,
//! the topmost one, the last in the roster, is hit and leaves the roster. A
//! query that no such circle contains is a miss and changes nothing.

use vstd::prelude::*;
use crate::circle::HitCircle;
use crate::geometry::Point;
use crate::roster::{lemma_removal_keeps_validity, valid_roster, Roster};

verus! {

/// The index of the topmost circle that a query at `query` may resolve to,
/// if there is one.
pub open spec fn topmost_hit(circles: Seq<HitCircle>, query: Point) -> Option<int>
    decreases circles.len(),
{
    if circles.len() == 0 {
        None
    } else if circles.last().is_candidate(query) {
        Some(circles.len() - 1)
    } else {
        topmost_hit(circles.drop_last(), query)
    }
}

/// The roster as a query at `query` leaves it: without the circle that was
/// hit, or unchanged after a miss.
pub open spec fn after_query(circles: Seq<HitCircle>, query: Point) -> Seq<HitCircle> {
    match topmost_hit(circles, query) {
        Some(index) => circles.remove(index),
        None => circles,
    }
}

/// The hit is the candidate with the greatest index, and a miss means that
/// there is no candidate at all.
pub proof fn lemma_topmost_hit_is_last_candidate(circles: Seq<HitCircle>, query: Point)
    ensures
        match topmost_hit(circles, query) {
            Some(index) => {
                &&& 0 <= index < circles.len()
                &&& circles[index].is_candidate(query)
                &&& forall|k: int| index < k < circles.len() ==> !circles[k].is_candidate(query)
            },
            None => forall|k: int| 0 <= k < circles.len() ==> !circles[k].is_candidate(query),
        },
    decreases circles.len(),
{
    if circles.len() > 0 && !circles.last().is_candidate(query) {
        let below = circles.drop_last();
        lemma_topmost_hit_is_last_candidate(below, query);
        assert forall|k: int| 0 <= k < below.len() implies below[k] == circles[k] by {}
    }
}

/// A candidate above which no circle is a candidate is the hit.
pub proof fn lemma_last_candidate_is_topmost_hit(
    circles: Seq<HitCircle>,
    query: Point,
    index: int,
)
    requires
        0 <= index < circles.len(),
        circles[index].is_candidate(query),
        forall|k: int| index < k < circles.len() ==> !circles[k].is_candidate(query),
    ensures
        topmost_hit(circles, query) == Some(index),
{
    lemma_topmost_hit_is_last_candidate(circles, query);
}

/// An inactive circle is never hit, wherever the query lands.
pub proof fn lemma_inactive_is_never_hit(circles: Seq<HitCircle>, query: Point)
    ensures
        topmost_hit(circles, query) matches Some(index) ==> circles[index].active,
{
    lemma_topmost_hit_is_last_candidate(circles, query);
}

/// Of two active circles at the same position, a query at that position
/// never resolves to the one that was inserted first: it resolves to the
/// later one, unless a circle above that one contains the point too. Either
/// way exactly one circle leaves the roster.
pub proof fn lemma_topmost_wins(circles: Seq<HitCircle>, earlier: int, later: int)
    requires
        valid_roster(circles),
        0 <= earlier < later < circles.len(),
        circles[earlier].position == circles[later].position,
        circles[earlier].active,
        circles[later].active,
    ensures
        topmost_hit(circles, circles[later].position) matches Some(index) && later <= index,
        (forall|k: int|
            later < k < circles.len() ==> !circles[k].is_candidate(circles[later].position))
            ==> topmost_hit(circles, circles[later].position) == Some(later),
        after_query(circles, circles[later].position).len() == circles.len() - 1,
{
    let query = circles[later].position;
    assert(0 < circles[later].radius * circles[later].radius) by (nonlinear_arith)
        requires
            circles[later].radius > 0,
    ;
    assert(circles[later].is_candidate(query));
    lemma_topmost_hit_is_last_candidate(circles, query);
}

/// A query that no active circle contains changes nothing.
pub proof fn lemma_miss_changes_nothing(circles: Seq<HitCircle>, query: Point)
    requires
        forall|k: int| 0 <= k < circles.len() ==> !circles[k].is_candidate(query),
    ensures
        topmost_hit(circles, query) is None,
        after_query(circles, query) == circles,
{
    lemma_topmost_hit_is_last_candidate(circles, query);
}

/// A hit takes exactly the circle that was hit out of the roster: the
/// circles below it and above it stay as they were, in their order.
pub proof fn lemma_hit_removes_one(circles: Seq<HitCircle>, query: Point)
    requires
        valid_roster(circles),
        topmost_hit(circles, query) is Some,
    ensures
        valid_roster(after_query(circles, query)),
        after_query(circles, query).len() == circles.len() - 1,
        forall|k: int|
            0 <= k < circles.len() - 1 ==> (#[trigger] after_query(circles, query)[k]).id
                != circles[topmost_hit(circles, query).unwrap()].id,
{
    lemma_topmost_hit_is_last_candidate(circles, query);
    lemma_removal_keeps_validity(circles, topmost_hit(circles, query).unwrap());
}

/// Finds the topmost circle that a query at `query` may resolve to. The scan
/// starts at the top of the roster and stops at the first candidate.
pub fn find_topmost(roster: &Roster, query: Point) -> (found: Option<usize>)
    ensures
        match found {
            Some(index) => topmost_hit(roster@, query) == Some(index as int),
            None => topmost_hit(roster@, query) is None,
        },
{
    let circles: &Vec<HitCircle> = roster.circles();
    let mut remaining: usize = circles.len();
    assert(circles@.take(remaining as int) == circles@);
    while remaining > 0
        invariant
            remaining <= circles@.len(),
            circles@ == roster@,
            topmost_hit(circles@.take(remaining as int), query) == topmost_hit(roster@, query),
        decreases remaining,
    {
        let ghost before = circles@.take(remaining as int);
        remaining = remaining - 1;
        assert(before.drop_last() == circles@.take(remaining as int));
        if circles[remaining].accepts(&query) {
            return Some(remaining);
        }
    }
    None
}

/// Resolves a query: takes the topmost active circle that strictly contains
/// `query` out of the roster and returns it, or returns `None` and leaves
/// the roster unchanged if there is no such circle.
pub fn resolve(roster: &mut Roster, query: Point) -> (hit: Option<HitCircle>)
    ensures
        match topmost_hit(old(roster)@, query) {
            Some(index) => {
                &&& hit == Some(old(roster)@[index])
                &&& final(roster)@ == old(roster)@.remove(index)
                &&& final(roster)@.len() == old(roster)@.len() - 1
            },
            None => hit is None && final(roster)@ == old(roster)@,
        },
        final(roster)@ == after_query(old(roster)@, query),
        hit is None <==> forall|k: int|
            0 <= k < old(roster)@.len() ==> !old(roster)@[k].is_candidate(query),
        hit matches Some(circle) ==> circle.is_candidate(query),
        valid_roster(final(roster)@),
{
    proof {
        lemma_topmost_hit_is_last_candidate(roster@, query);
    }
    let hit: Option<HitCircle> = match find_topmost(roster, query) {
        Some(index) => Some(roster.take(index)),
        None => None,
    };
    proof {
        use_type_invariant(&*roster);
    }
    hit
}

} // verus!
