use vstd::prelude::*;

verus! {

/// A pointer position, in the host's integer screen units.
#[derive(Clone, Copy, Debug, PartialEq, Eq, Structural)]
pub struct Point {
    pub x: i64,
    pub y: i64,
}

/// What the door is asked to do.
#[derive(Clone, Copy, Debug, PartialEq, Eq, Structural)]
pub enum MoveInstruction {
    Open,
    Close,
    Nothing,
}

/// The pointer and button state of one frame, as the host delivers it.
pub struct FrameInput {
    /// Pointer positions since the last frame, in order of arrival.
    pub samples: Vec<Point>,
    pub pressed: bool,
    pub just_pressed: bool,
    pub just_released: bool,
}

/// Turns pointer drags into door commands, at most one per hold.
#[derive(Clone, Copy, Debug, PartialEq, Eq, Structural)]
pub struct GestureTracker {
    /// Where the pointer was last seen while the button was not held.
    pub last_position: Point,
    /// The button is down (set on press, cleared on release).
    pub is_held: bool,
    /// A direction has been decided during the current hold.
    pub gesture_consumed: bool,
}

/// The command chosen by the first sample whose height differs from `base`:
/// higher opens, lower closes; `None` when every sample is level.
pub open spec fn first_direction(base: i64, samples: Seq<Point>) -> Option<MoveInstruction>
    decreases samples.len(),
{
    if samples.len() == 0 {
        None
    } else if samples[0].y > base {
        Some(MoveInstruction::Open)
    } else if samples[0].y < base {
        Some(MoveInstruction::Close)
    } else {
        first_direction(base, samples.drop_first())
    }
}

impl GestureTracker {
    /// Held, pressed, and no direction taken yet in this hold.
    pub open spec fn armed(self, pressed: bool) -> bool {
        self.is_held && pressed && !self.gesture_consumed
    }

    /// The command that one frame emits from this state.
    pub open spec fn emitted(self, samples: Seq<Point>, pressed: bool) -> Option<MoveInstruction> {
        if self.armed(pressed) {
            first_direction(self.last_position.y, samples)
        } else {
            None
        }
    }

    /// The state after one frame.
    pub open spec fn next(
        self,
        samples: Seq<Point>,
        pressed: bool,
        just_pressed: bool,
        just_released: bool,
    ) -> GestureTracker {
        GestureTracker {
            last_position: if !self.is_held && samples.len() > 0 {
                samples.last()
            } else {
                self.last_position
            },
            is_held: if just_released {
                false
            } else if just_pressed {
                true
            } else {
                self.is_held
            },
            gesture_consumed: !just_released && (self.gesture_consumed || self.emitted(
                samples,
                pressed,
            ) is Some),
        }
    }

    /// `next` applied to a whole frame.
    pub open spec fn after(self, f: FrameInput) -> GestureTracker {
        self.next(f.samples@, f.pressed, f.just_pressed, f.just_released)
    }

    /// A tracker that has seen nothing: pointer at the origin, button up.
    pub open spec fn new_spec() -> GestureTracker {
        GestureTracker { last_position: Point { x: 0, y: 0 }, is_held: false, gesture_consumed: false }
    }

    /// A tracker that has seen nothing: pointer at the origin, button up.
    pub fn new() -> (r: GestureTracker)
        ensures
            r == GestureTracker::new_spec(),
    {
        GestureTracker { last_position: Point { x: 0, y: 0 }, is_held: false, gesture_consumed: false }
    }

    /// Takes one frame of input and returns the command it decides, if any.
    ///
    /// While the button is not held every sample moves the baseline. While it
    /// is held and pressed, the first sample above or below the baseline
    /// decides `Open` or `Close`, once per hold. A press marks the button held;
    /// a release clears the hold and re-arms the tracker.
    pub fn update(
        &mut self,
        samples: &Vec<Point>,
        pressed: bool,
        just_pressed: bool,
        just_released: bool,
    ) -> (r: Option<MoveInstruction>)
        ensures
            r == old(self).emitted(samples@, pressed),
            *final(self) == old(self).next(samples@, pressed, just_pressed, just_released),
    {
        let mut r: Option<MoveInstruction> = None;
        if !self.is_held {
            if samples.len() > 0 {
                self.last_position = samples[samples.len() - 1];
            }
        } else if pressed && !self.gesture_consumed {
            r = scan_direction(self.last_position.y, samples);
            if r.is_some() {
                self.gesture_consumed = true;
            }
        }
        if just_pressed {
            self.is_held = true;
        }
        if just_released {
            self.is_held = false;
            self.gesture_consumed = false;
        }
        r
    }
}

/// Finds the first sample above or below `base`.
fn scan_direction(base: i64, samples: &Vec<Point>) -> (r: Option<MoveInstruction>)
    ensures
        r == first_direction(base, samples@),
{
    let n = samples.len();
    let mut i: usize = 0;
    assert(samples@.subrange(0, n as int) =~= samples@);
    while i < n
        invariant
            n == samples@.len(),
            i <= n,
            first_direction(base, samples@.subrange(i as int, n as int)) == first_direction(
                base,
                samples@,
            ),
        decreases n - i,
    {
        let y = samples[i].y;
        let ghost rest = samples@.subrange(i as int, n as int);
        assert(rest[0] == samples@[i as int]);
        if y > base {
            return Some(MoveInstruction::Open);
        }
        if y < base {
            return Some(MoveInstruction::Close);
        }
        assert(rest.drop_first() =~= samples@.subrange(i + 1, n as int));
        i = i + 1;
    }
    assert(samples@.subrange(n as int, n as int).len() == 0);
    None
}

/// The number of commands a run of frames emits, starting from `s`.
pub open spec fn emissions(s: GestureTracker, frames: Seq<FrameInput>) -> nat
    decreases frames.len(),
{
    if frames.len() == 0 {
        0
    } else {
        let f = frames[0];
        (if s.emitted(f.samples@, f.pressed) is Some {
            1nat
        } else {
            0nat
        }) + emissions(s.after(f), frames.drop_first())
    }
}

/// No frame but possibly the last releases the button: the frames lie
/// within one hold.
pub open spec fn within_one_hold(frames: Seq<FrameInput>) -> bool {
    forall|i: int| 0 <= i < frames.len() - 1 ==> !(#[trigger] frames[i]).just_released
}

/// Where every sample is level with the baseline, no direction is found.
pub proof fn lemma_level_samples_decide_nothing(base: i64, samples: Seq<Point>)
    requires
        forall|i: int| 0 <= i < samples.len() ==> (#[trigger] samples[i]).y == base,
    ensures
        first_direction(base, samples) is None,
    decreases samples.len(),
{
    if samples.len() > 0 {
        assert(samples[0].y == base);
        lemma_level_samples_decide_nothing(base, samples.drop_first());
    }
}

/// The first sample off the baseline decides: above opens, below closes.
pub proof fn lemma_first_off_level_sample_decides(base: i64, samples: Seq<Point>, k: int)
    requires
        0 <= k < samples.len(),
        samples[k].y != base,
        forall|j: int| 0 <= j < k ==> (#[trigger] samples[j]).y == base,
    ensures
        first_direction(base, samples) == Some(
            if samples[k].y > base {
                MoveInstruction::Open
            } else {
                MoveInstruction::Close
            },
        ),
    decreases k,
{
    if k > 0 {
        assert(samples[0].y == base);
        let rest = samples.drop_first();
        assert forall|j: int| 0 <= j < k - 1 implies (#[trigger] rest[j]).y == base by {
            assert(rest[j] == samples[j + 1]);
        }
        lemma_first_off_level_sample_decides(base, rest, k - 1);
    }
}

/// A hold whose samples all stay level with the baseline emits no command,
/// over any number of frames.
pub proof fn lemma_level_hold_emits_nothing(s: GestureTracker, frames: Seq<FrameInput>)
    requires
        s.is_held,
        within_one_hold(frames),
        forall|i: int, j: int|
            0 <= i < frames.len() && 0 <= j < frames[i].samples@.len() ==> (
            #[trigger] frames[i].samples@[j]).y == s.last_position.y,
    ensures
        emissions(s, frames) == 0,
    decreases frames.len(),
{
    if frames.len() > 0 {
        let f = frames[0];
        assert forall|j: int| 0 <= j < f.samples@.len() implies (
        #[trigger] f.samples@[j]).y == s.last_position.y by {
            assert(frames[0].samples@[j].y == s.last_position.y);
        }
        lemma_level_samples_decide_nothing(s.last_position.y, f.samples@);
        let t = s.after(f);
        assert(emissions(t, frames.drop_first()) == 0 ==> emissions(s, frames) == 0);
        if frames.len() == 1 {
            assert(emissions(t, frames.drop_first()) == 0);
        }
        if frames.len() > 1 {
            let rest = frames.drop_first();
            assert(!frames[0].just_released);
            assert forall|i: int| 0 <= i < rest.len() - 1 implies !(
            #[trigger] rest[i]).just_released by {
                assert(rest[i] == frames[i + 1]);
            }
            assert forall|i: int, j: int|
                0 <= i < rest.len() && 0 <= j < rest[i].samples@.len() implies (
                #[trigger] rest[i].samples@[j]).y == t.last_position.y by {
                assert(rest[i] == frames[i + 1]);
                assert(frames[i + 1].samples@[j].y == s.last_position.y);
            }
            lemma_level_hold_emits_nothing(t, rest);
        }
    }
}

/// In a hold that is under way and undecided, the first sample off the
/// baseline decides the command: above opens, below closes.
pub proof fn lemma_first_direction_wins(
    s: GestureTracker,
    samples: Seq<Point>,
    pressed: bool,
    k: int,
)
    requires
        s.armed(pressed),
        0 <= k < samples.len(),
        samples[k].y != s.last_position.y,
        forall|j: int| 0 <= j < k ==> (#[trigger] samples[j]).y == s.last_position.y,
    ensures
        samples[k].y > s.last_position.y ==> s.emitted(samples, pressed) == Some(
            MoveInstruction::Open,
        ),
        samples[k].y < s.last_position.y ==> s.emitted(samples, pressed) == Some(
            MoveInstruction::Close,
        ),
{
    lemma_first_off_level_sample_decides(s.last_position.y, samples, k);
}

/// Once a hold has decided, it emits nothing more until it is released.
proof fn lemma_consumed_hold_is_silent(s: GestureTracker, frames: Seq<FrameInput>)
    requires
        s.gesture_consumed,
        within_one_hold(frames),
    ensures
        emissions(s, frames) == 0,
    decreases frames.len(),
{
    if frames.len() == 1 {
        assert(emissions(s.after(frames[0]), frames.drop_first()) == 0);
    }
    if frames.len() > 1 {
        let rest = frames.drop_first();
        assert(!frames[0].just_released);
        assert forall|i: int| 0 <= i < rest.len() - 1 implies !(
        #[trigger] rest[i]).just_released by {
            assert(rest[i] == frames[i + 1]);
        }
        lemma_consumed_hold_is_silent(s.after(frames[0]), rest);
    }
}

/// However many frames and directional samples a hold spans, it emits at
/// most one command.
pub proof fn lemma_one_command_per_hold(s: GestureTracker, frames: Seq<FrameInput>)
    requires
        within_one_hold(frames),
    ensures
        emissions(s, frames) <= 1,
    decreases frames.len(),
{
    if frames.len() == 1 {
        assert(emissions(s.after(frames[0]), frames.drop_first()) == 0);
    }
    if frames.len() > 1 {
        let rest = frames.drop_first();
        assert(!frames[0].just_released);
        assert forall|i: int| 0 <= i < rest.len() - 1 implies !(
        #[trigger] rest[i]).just_released by {
            assert(rest[i] == frames[i + 1]);
        }
        let f = frames[0];
        if s.emitted(f.samples@, f.pressed) is Some {
            lemma_consumed_hold_is_silent(s.after(f), rest);
        } else {
            lemma_one_command_per_hold(s.after(f), rest);
        }
    }
}

/// A release re-arms the tracker: after it, a press starts a hold in which
/// any sample off the new baseline emits a command, whatever the earlier
/// hold emitted.
pub proof fn lemma_release_rearms(
    s: GestureTracker,
    release: FrameInput,
    press: FrameInput,
    samples: Seq<Point>,
    k: int,
)
    requires
        release.just_released,
        press.just_pressed,
        !press.just_released,
        0 <= k < samples.len(),
        samples[k].y != s.after(release).after(press).last_position.y,
    ensures
        !s.after(release).gesture_consumed,
        !s.after(release).is_held,
        s.after(release).after(press).armed(true),
        s.after(release).after(press).emitted(samples, true) is Some,
    decreases k,
{
    let t = s.after(release).after(press);
    let base = t.last_position.y;
    if samples[0].y == base {
        if k > 0 {
            let rest = samples.drop_first();
            assert(rest[k - 1] == samples[k]);
            lemma_release_rearms(s, release, press, rest, k - 1);
        }
    }
}

} // verus!
