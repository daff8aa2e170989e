use vstd::prelude::*;
use crate::door::{advance, cue_for, cue_of, pose_after, DoorPose, SoundCue};
use crate::gesture::{FrameInput, GestureTracker, MoveInstruction};
use crate::goal::{evaluate, goal_after, transitions, Goal};

verus! {

/// What one frame hands back to the host.
#[derive(Clone, Copy, Debug, PartialEq, Eq, Structural)]
pub struct FrameOutput {
    /// The door's pose after the frame, to be rendered.
    pub pose: DoorPose,
    /// A sound to play, if the door moved.
    pub cue: Option<SoundCue>,
    /// The goal became reached during this frame.
    pub goal_reached_now: bool,
}

/// All the state of the scene: the tracker, the one-slot command mailbox,
/// the door and the goal.
#[derive(Clone, Copy, Debug, PartialEq, Eq, Structural)]
pub struct Controller {
    pub tracker: GestureTracker,
    pub mailbox: MoveInstruction,
    pub pose: DoorPose,
    pub goal: Goal,
}

/// The command the door carries out this frame: a new one from the tracker,
/// or else whatever waits in the mailbox.
pub open spec fn pending(emitted: Option<MoveInstruction>, mailbox: MoveInstruction) -> MoveInstruction {
    match emitted {
        Some(c) => c,
        None => mailbox,
    }
}

impl Controller {
    /// The command carried out by a frame from this state.
    pub open spec fn command_of(self, input: FrameInput) -> MoveInstruction {
        pending(self.tracker.emitted(input.samples@, input.pressed), self.mailbox)
    }

    /// The state after one frame.
    pub open spec fn after(self, input: FrameInput) -> Controller {
        if self.goal.reached {
            self
        } else {
            let pose = pose_after(self.command_of(input), self.pose);
            Controller {
                tracker: self.tracker.after(input),
                mailbox: MoveInstruction::Nothing,
                pose,
                goal: goal_after(pose, self.goal),
            }
        }
    }

    /// A fresh scene: door at rest, nothing pending, goal at `target` and not
    /// reached.
    pub fn new(target: i64) -> (r: Controller)
        ensures
            r.tracker == GestureTracker::new_spec(),
            r.mailbox == MoveInstruction::Nothing,
            r.pose == DoorPose::rest_spec(),
            r.goal == (Goal { target, reached: false }),
    {
        Controller {
            tracker: GestureTracker::new(),
            mailbox: MoveInstruction::Nothing,
            pose: DoorPose::rest(),
            goal: Goal::new(target),
        }
    }

    /// Runs one frame: stops at once if the goal is reached; otherwise
    /// feeds the input to the tracker, carries out the pending command on the
    /// door, and evaluates the goal on the new pose.
    pub fn tick(&mut self, input: &FrameInput) -> (r: FrameOutput)
        ensures
            *final(self) == old(self).after(*input),
            r.pose == final(self).pose,
            r.cue == if old(self).goal.reached {
                None
            } else {
                cue_of(old(self).command_of(*input))
            },
            r.goal_reached_now == (!old(self).goal.reached && transitions(
                final(self).pose,
                old(self).goal,
            )),
    {
        if self.goal.reached {
            return FrameOutput { pose: self.pose, cue: None, goal_reached_now: false };
        }
        let emitted = self.tracker.update(
            &input.samples,
            input.pressed,
            input.just_pressed,
            input.just_released,
        );
        if let Some(c) = emitted {
            self.mailbox = c;
        }
        let cue = cue_for(self.mailbox);
        self.mailbox = advance(self.mailbox, &mut self.pose);
        let goal_reached_now = evaluate(&self.pose, &mut self.goal);
        FrameOutput { pose: self.pose, cue, goal_reached_now }
    }
}

} // verus!
