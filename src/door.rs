use vstd::prelude::*;
use crate::gesture::MoveInstruction;

verus! {

/// How far one `Open` swings the door, in milliradians.
pub const OPEN_STEP: i64 = 100;

/// The door's place about its hinge.
///
/// Every pose the door can take is the rest pose turned about the fixed
/// pivot, so the hinge angle determines both its rotation and its
/// translation. The angle is in milliradians; 0 is the rest pose (closed,
/// unrotated, untranslated) and opening goes toward negative angles.
#[derive(Clone, Copy, Debug, PartialEq, Eq, Structural)]
pub struct DoorPose {
    pub angle: i64,
}

/// A sound the host is asked to play.
#[derive(Clone, Copy, Debug, PartialEq, Eq, Structural)]
pub enum SoundCue {
    DoorOpen,
    DoorShut,
}

impl DoorPose {
    /// The closed door.
    pub open spec fn rest_spec() -> DoorPose {
        DoorPose { angle: 0 }
    }

    /// The closed door.
    pub fn rest() -> (r: DoorPose)
        ensures
            r == DoorPose::rest_spec(),
    {
        DoorPose { angle: 0 }
    }
}

/// The angle one step further open, held at the least angle the pose can
/// store.
pub open spec fn opened_once(angle: i64) -> i64 {
    if angle - OPEN_STEP < i64::MIN {
        i64::MIN
    } else {
        (angle - OPEN_STEP) as i64
    }
}

/// The pose after a command: `Open` turns one step, `Close` snaps to rest,
/// `Nothing` keeps the pose.
pub open spec fn pose_after(cmd: MoveInstruction, pose: DoorPose) -> DoorPose {
    match cmd {
        MoveInstruction::Open => DoorPose { angle: opened_once(pose.angle) },
        MoveInstruction::Close => DoorPose::rest_spec(),
        MoveInstruction::Nothing => pose,
    }
}

/// The sound that goes with a command.
pub open spec fn cue_of(cmd: MoveInstruction) -> Option<SoundCue> {
    match cmd {
        MoveInstruction::Open => Some(SoundCue::DoorOpen),
        MoveInstruction::Close => Some(SoundCue::DoorShut),
        MoveInstruction::Nothing => None,
    }
}

/// The sound to request when `cmd` is carried out: one per `Open` step, one
/// per `Close`, none for `Nothing`.
pub fn cue_for(cmd: MoveInstruction) -> (r: Option<SoundCue>)
    ensures
        r == cue_of(cmd),
{
    match cmd {
        MoveInstruction::Open => Some(SoundCue::DoorOpen),
        MoveInstruction::Close => Some(SoundCue::DoorShut),
        MoveInstruction::Nothing => None,
    }
}

/// Carries out `cmd` on the door and returns what is left of it, which is
/// always `Nothing`.
pub fn advance(cmd: MoveInstruction, pose: &mut DoorPose) -> (r: MoveInstruction)
    ensures
        r == MoveInstruction::Nothing,
        *final(pose) == pose_after(cmd, *old(pose)),
        cmd == MoveInstruction::Close ==> *final(pose) == DoorPose::rest_spec(),
{
    match cmd {
        MoveInstruction::Open => {
            if pose.angle >= i64::MIN + OPEN_STEP {
                pose.angle = pose.angle - OPEN_STEP;
            } else {
                pose.angle = i64::MIN;
            }
        },
        MoveInstruction::Close => {
            *pose = DoorPose::rest();
        },
        MoveInstruction::Nothing => {},
    }
    MoveInstruction::Nothing
}

/// The pose after `n` consecutive `Open` commands from rest.
pub open spec fn opened_from_rest(n: nat) -> DoorPose
    decreases n,
{
    if n == 0 {
        DoorPose::rest_spec()
    } else {
        pose_after(MoveInstruction::Open, opened_from_rest((n - 1) as nat))
    }
}

/// Each `Open` swings the door by exactly one step: after `n` of them from
/// rest the angle is `n` steps, as long as that angle fits in the pose.
pub proof fn lemma_open_steps_accumulate(n: nat)
    requires
        n * OPEN_STEP <= i64::MAX,
    ensures
        opened_from_rest(n).angle == -(n * OPEN_STEP),
    decreases n,
{
    if n > 0 {
        lemma_open_steps_accumulate((n - 1) as nat);
    }
}

/// Whatever `Open` steps came before, a `Close` puts the door back at rest.
pub proof fn lemma_close_returns_to_rest(n: nat)
    ensures
        pose_after(MoveInstruction::Close, opened_from_rest(n)) == DoorPose::rest_spec(),
{
}

} // verus!
