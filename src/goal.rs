use vstd::prelude::*;
use crate::door::DoorPose;

verus! {

/// The hinge angle at which the door counts as opened, in milliradians.
pub const GOAL_ANGLE: i64 = -1900;

/// The target the door must reach, and a latch that records that it has.
#[derive(Clone, Copy, Debug, PartialEq, Eq, Structural)]
pub struct Goal {
    /// Fixed when the scene is set up.
    pub target: i64,
    /// Once set, never cleared.
    pub reached: bool,
}

/// The door has swung at least as far as the target: the angle is at or
/// below it, since opening goes toward negative angles.
pub open spec fn at_target(pose: DoorPose, goal: Goal) -> bool {
    pose.angle <= goal.target
}

/// The latch flips on this evaluation.
pub open spec fn transitions(pose: DoorPose, goal: Goal) -> bool {
    !goal.reached && at_target(pose, goal)
}

/// The goal after one evaluation.
pub open spec fn goal_after(pose: DoorPose, goal: Goal) -> Goal {
    Goal { target: goal.target, reached: goal.reached || at_target(pose, goal) }
}

impl Goal {
    /// A goal at `target`, not yet reached.
    pub fn new(target: i64) -> (r: Goal)
        ensures
            r.target == target,
            !r.reached,
    {
        Goal { target, reached: false }
    }
}

/// Checks the door against the goal; returns whether the goal became reached
/// on this call.
pub fn evaluate(pose: &DoorPose, goal: &mut Goal) -> (r: bool)
    ensures
        r == transitions(*pose, *old(goal)),
        *final(goal) == goal_after(*pose, *old(goal)),
{
    if goal.reached {
        false
    } else if pose.angle <= goal.target {
        goal.reached = true;
        true
    } else {
        false
    }
}

/// Once the goal is reached it stays reached, and no later evaluation reports
/// a transition, whatever the door's pose.
pub proof fn lemma_latch_holds(pose: DoorPose, goal: Goal)
    requires
        goal.reached,
    ensures
        goal_after(pose, goal) == goal,
        !transitions(pose, goal),
{
}

} // verus!
