use openthedoor::controller::{Controller, FrameOutput};
use openthedoor::door::{advance, cue_for, DoorPose, SoundCue, OPEN_STEP};
use openthedoor::gesture::{FrameInput, GestureTracker, MoveInstruction, Point};
use openthedoor::goal::{evaluate, Goal, GOAL_ANGLE};

fn at(y: i64) -> Point {
    Point { x: 0, y }
}

fn frame(ys: &[i64], pressed: bool, just_pressed: bool, just_released: bool) -> FrameInput {
    FrameInput {
        samples: ys.iter().map(|&y| at(y)).collect(),
        pressed,
        just_pressed,
        just_released,
    }
}

fn feed(t: &mut GestureTracker, f: &FrameInput) -> Option<MoveInstruction> {
    t.update(&f.samples, f.pressed, f.just_pressed, f.just_released)
}

/// A tracker that is held with its baseline at `y`.
fn held_at(y: i64) -> GestureTracker {
    let mut t = GestureTracker::new();
    assert_eq!(feed(&mut t, &frame(&[y], true, true, false)), None);
    assert!(t.is_held);
    assert_eq!(t.last_position, at(y));
    t
}

#[test]
fn new_tracker_is_idle() {
    let t = GestureTracker::new();
    assert_eq!(t.last_position, at(0));
    assert!(!t.is_held);
    assert!(!t.gesture_consumed);
}

#[test]
fn samples_rebaseline_while_not_held() {
    let mut t = GestureTracker::new();
    assert_eq!(feed(&mut t, &frame(&[5, 9, 3], false, false, false)), None);
    assert_eq!(t.last_position, at(3));
    assert_eq!(feed(&mut t, &frame(&[], false, false, false)), None);
    assert_eq!(t.last_position, at(3));
}

#[test]
fn baseline_fixed_while_held() {
    let mut t = held_at(10);
    assert_eq!(feed(&mut t, &frame(&[10, 10], true, false, false)), None);
    assert_eq!(t.last_position, at(10));
    assert_eq!(feed(&mut t, &frame(&[30], true, false, false)), Some(MoveInstruction::Open));
    assert_eq!(t.last_position, at(10));
}

#[test]
fn level_drag_emits_nothing() {
    let mut t = held_at(7);
    for _ in 0..4 {
        assert_eq!(feed(&mut t, &frame(&[7, 7, 7], true, false, false)), None);
    }
    assert_eq!(feed(&mut t, &frame(&[7], false, false, true)), None);
    assert!(!t.gesture_consumed);
}

#[test]
fn press_release_without_movement_emits_nothing() {
    let mut t = GestureTracker::new();
    assert_eq!(feed(&mut t, &frame(&[20], true, true, false)), None);
    assert_eq!(feed(&mut t, &frame(&[], false, false, true)), None);
    assert!(!t.is_held);
}

#[test]
fn upward_first_move_opens() {
    let mut t = held_at(100);
    assert_eq!(feed(&mut t, &frame(&[100, 101, 50], true, false, false)), Some(MoveInstruction::Open));
    assert!(t.gesture_consumed);
}

#[test]
fn downward_first_move_closes() {
    let mut t = held_at(100);
    assert_eq!(feed(&mut t, &frame(&[100, 99, 150], true, false, false)), Some(MoveInstruction::Close));
    assert!(t.gesture_consumed);
}

#[test]
fn one_command_per_hold() {
    let mut t = held_at(0);
    assert_eq!(feed(&mut t, &frame(&[-3], true, false, false)), Some(MoveInstruction::Close));
    assert_eq!(feed(&mut t, &frame(&[8, -8, 40], true, false, false)), None);
    assert_eq!(feed(&mut t, &frame(&[-40], true, false, false)), None);
}

#[test]
fn release_rearms_tracker() {
    let mut t = held_at(0);
    assert_eq!(feed(&mut t, &frame(&[4], true, false, false)), Some(MoveInstruction::Open));
    assert_eq!(feed(&mut t, &frame(&[], false, false, true)), None);
    assert!(!t.gesture_consumed);
    assert!(!t.is_held);
    assert_eq!(feed(&mut t, &frame(&[4], true, true, false)), None);
    assert_eq!(feed(&mut t, &frame(&[9], true, false, false)), Some(MoveInstruction::Open));
}

#[test]
fn held_but_not_pressed_ignores_samples() {
    let mut t = held_at(0);
    assert_eq!(feed(&mut t, &frame(&[50], false, false, false)), None);
    assert!(!t.gesture_consumed);
    assert_eq!(t.last_position, at(0));
}

#[test]
fn press_and_release_in_one_frame() {
    let mut t = GestureTracker::new();
    assert_eq!(feed(&mut t, &frame(&[2], true, true, true)), None);
    assert!(!t.is_held);
    assert_eq!(t.last_position, at(2));
}

#[test]
fn drag_down_then_up_gives_close_then_open() {
    let mut t = GestureTracker::new();
    let frames = [
        frame(&[50], true, true, false),
        frame(&[40], true, false, false),
        frame(&[], false, false, true),
        frame(&[40], true, true, false),
        frame(&[60], true, false, false),
        frame(&[], false, false, true),
    ];
    let mut commands = Vec::new();
    for f in frames.iter() {
        if let Some(c) = feed(&mut t, f) {
            commands.push(c);
        }
    }
    assert_eq!(commands, vec![MoveInstruction::Close, MoveInstruction::Open]);
}

#[test]
fn open_turns_one_step() {
    let mut pose = DoorPose::rest();
    assert_eq!(advance(MoveInstruction::Open, &mut pose), MoveInstruction::Nothing);
    assert_eq!(pose.angle, -100);
    assert_eq!(pose.angle, -OPEN_STEP);
}

#[test]
fn open_stops_at_least_angle() {
    let mut pose = DoorPose { angle: i64::MIN + 30 };
    advance(MoveInstruction::Open, &mut pose);
    assert_eq!(pose.angle, i64::MIN);
    advance(MoveInstruction::Open, &mut pose);
    assert_eq!(pose.angle, i64::MIN);
}

#[test]
fn nothing_keeps_pose() {
    let mut pose = DoorPose { angle: -700 };
    assert_eq!(advance(MoveInstruction::Nothing, &mut pose), MoveInstruction::Nothing);
    assert_eq!(pose.angle, -700);
}

#[test]
fn close_returns_to_rest() {
    let mut pose = DoorPose::rest();
    for _ in 0..7 {
        advance(MoveInstruction::Open, &mut pose);
    }
    assert_eq!(pose.angle, -700);
    assert_eq!(advance(MoveInstruction::Close, &mut pose), MoveInstruction::Nothing);
    assert_eq!(pose, DoorPose::rest());
    assert_eq!(pose.angle, 0);
}

#[test]
fn cues_follow_commands() {
    assert_eq!(cue_for(MoveInstruction::Open), Some(SoundCue::DoorOpen));
    assert_eq!(cue_for(MoveInstruction::Close), Some(SoundCue::DoorShut));
    assert_eq!(cue_for(MoveInstruction::Nothing), None);
}

#[test]
fn five_opens_accumulate_then_goal_latches_once() {
    let mut pose = DoorPose::rest();
    let mut goal = Goal::new(GOAL_ANGLE);
    for n in 1..=5i64 {
        let before = pose.angle;
        advance(MoveInstruction::Open, &mut pose);
        assert_eq!(before - pose.angle, OPEN_STEP);
        assert_eq!(pose.angle, -n * OPEN_STEP);
        assert!(!evaluate(&pose, &mut goal));
    }
    let mut transitions = 0;
    let mut n: i64 = 5;
    while n < 25 {
        advance(MoveInstruction::Open, &mut pose);
        n += 1;
        assert_eq!(pose.angle, -n * OPEN_STEP);
        if evaluate(&pose, &mut goal) {
            transitions += 1;
            assert_eq!(n, 19);
            assert!(pose.angle <= GOAL_ANGLE);
        }
        assert_eq!(goal.reached, n >= 19);
    }
    assert_eq!(transitions, 1);
}

#[test]
fn goal_latch_is_idempotent() {
    let mut goal = Goal::new(-500);
    assert!(!goal.reached);
    assert!(!evaluate(&DoorPose { angle: -400 }, &mut goal));
    assert!(evaluate(&DoorPose { angle: -500 }, &mut goal));
    assert!(goal.reached);
    assert!(!evaluate(&DoorPose { angle: -600 }, &mut goal));
    assert!(!evaluate(&DoorPose::rest(), &mut goal));
    assert!(goal.reached);
    assert_eq!(goal.target, -500);
}

fn hold_and_drag(c: &mut Controller, from: i64, to: i64) -> Vec<FrameOutput> {
    vec![
        c.tick(&frame(&[from], true, true, false)),
        c.tick(&frame(&[to], true, false, false)),
        c.tick(&frame(&[], false, false, true)),
    ]
}

#[test]
fn new_controller_is_at_rest() {
    let c = Controller::new(GOAL_ANGLE);
    assert_eq!(c.pose, DoorPose::rest());
    assert_eq!(c.mailbox, MoveInstruction::Nothing);
    assert_eq!(c.goal, Goal { target: GOAL_ANGLE, reached: false });
    assert_eq!(c.tracker, GestureTracker::new());
}

#[test]
fn controller_close_then_open() {
    let mut c = Controller::new(GOAL_ANGLE);
    c.pose = DoorPose { angle: -300 };
    let out = hold_and_drag(&mut c, 50, 40);
    assert_eq!(out[1].cue, Some(SoundCue::DoorShut));
    assert_eq!(out[1].pose, DoorPose::rest());
    assert_eq!(out[0].cue, None);
    assert_eq!(out[2].cue, None);
    let out = hold_and_drag(&mut c, 40, 60);
    assert_eq!(out[1].cue, Some(SoundCue::DoorOpen));
    assert_eq!(out[1].pose.angle, -OPEN_STEP);
    assert_eq!(c.mailbox, MoveInstruction::Nothing);
}

#[test]
fn controller_reaches_goal_then_stops() {
    let mut c = Controller::new(GOAL_ANGLE);
    let mut reached_at = None;
    for hold in 1..=19i64 {
        let out = hold_and_drag(&mut c, 0, 10);
        assert_eq!(out[1].pose.angle, -hold * OPEN_STEP);
        if out[1].goal_reached_now {
            reached_at = Some(hold);
        }
        assert!(!out[0].goal_reached_now && !out[2].goal_reached_now);
    }
    assert_eq!(reached_at, Some(19));
    assert!(c.goal.reached);
    let frozen = c;
    let out = hold_and_drag(&mut c, 10, 0);
    for o in out.iter() {
        assert_eq!(o.cue, None);
        assert!(!o.goal_reached_now);
        assert_eq!(o.pose.angle, -1900);
    }
    assert_eq!(c, frozen);
}

#[test]
fn mailbox_leftover_is_carried_out() {
    let mut c = Controller::new(GOAL_ANGLE);
    c.mailbox = MoveInstruction::Open;
    let out = c.tick(&frame(&[], false, false, false));
    assert_eq!(out.cue, Some(SoundCue::DoorOpen));
    assert_eq!(out.pose.angle, -OPEN_STEP);
    assert_eq!(c.mailbox, MoveInstruction::Nothing);
}
