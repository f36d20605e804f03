//! Animation states, their frame schedules and the frame-advance logic of the
//! animation player (the GTK side only displays what this decides).

use vstd::arithmetic::div_mod::{lemma_mod_self_0, lemma_small_mod};
use vstd::prelude::*;

verus! {

/// The visual states Milo can display.
#[derive(Clone, Copy, Debug, PartialEq, Eq, Structural)]
pub enum MiloState {
    Idle,
    Sleeping,
    Curious,
    Concerned,
    PlayWithYarn,
}

impl Default for MiloState {
    fn default() -> (state: Self)
        ensures
            state == MiloState::Idle,
    {
        MiloState::Idle
    }
}

impl MiloState {
    pub open spec fn spec_next(self) -> MiloState {
        match self {
            MiloState::Idle => MiloState::Sleeping,
            MiloState::Sleeping => MiloState::Curious,
            MiloState::Curious => MiloState::Concerned,
            MiloState::Concerned => MiloState::PlayWithYarn,
            MiloState::PlayWithYarn => MiloState::Idle,
        }
    }

    /// The manual debug cycle: Idle, Sleeping, Curious, Concerned,
    /// PlayWithYarn, and back to Idle.
    pub fn next(self) -> (next: Self)
        ensures
            next == self.spec_next(),
    {
        match self {
            MiloState::Idle => MiloState::Sleeping,
            MiloState::Sleeping => MiloState::Curious,
            MiloState::Curious => MiloState::Concerned,
            MiloState::Concerned => MiloState::PlayWithYarn,
            MiloState::PlayWithYarn => MiloState::Idle,
        }
    }
}

/// Applying the debug cycle five times returns to the starting state, so the
/// cycle visits every animation state.
pub proof fn lemma_debug_cycle_visits_every_state(state: MiloState, other: MiloState)
    ensures
        state.spec_next().spec_next().spec_next().spec_next().spec_next() == state,
        other == state || other == state.spec_next() || other == state.spec_next().spec_next()
            || other == state.spec_next().spec_next().spec_next() || other
            == state.spec_next().spec_next().spec_next().spec_next(),
{
}

/// One displayed frame and how long it stays.
#[derive(Clone, Copy, Debug, PartialEq, Eq, Structural)]
pub struct AnimationStep {
    pub frame: usize,
    pub duration_ms: u64,
}

/// Number of distinct frame images each state owns.
pub open spec fn spec_frame_count(state: MiloState) -> nat {
    match state {
        MiloState::PlayWithYarn => 8,
        _ => 4,
    }
}

/// The frame order and per-frame durations (milliseconds) of each state.
pub open spec fn spec_steps(state: MiloState) -> Seq<AnimationStep> {
    match state {
        MiloState::Idle => seq![
            AnimationStep { frame: 0, duration_ms: 600 },
            AnimationStep { frame: 1, duration_ms: 350 },
            AnimationStep { frame: 2, duration_ms: 150 },
            AnimationStep { frame: 3, duration_ms: 350 },
            AnimationStep { frame: 0, duration_ms: 900 },
        ],
        MiloState::Sleeping => seq![
            AnimationStep { frame: 0, duration_ms: 700 },
            AnimationStep { frame: 1, duration_ms: 450 },
            AnimationStep { frame: 2, duration_ms: 450 },
            AnimationStep { frame: 3, duration_ms: 700 },
        ],
        MiloState::Curious => seq![
            AnimationStep { frame: 0, duration_ms: 350 },
            AnimationStep { frame: 1, duration_ms: 250 },
            AnimationStep { frame: 2, duration_ms: 300 },
            AnimationStep { frame: 3, duration_ms: 350 },
        ],
        MiloState::Concerned => seq![
            AnimationStep { frame: 0, duration_ms: 500 },
            AnimationStep { frame: 1, duration_ms: 400 },
            AnimationStep { frame: 2, duration_ms: 650 },
            AnimationStep { frame: 3, duration_ms: 400 },
        ],
        MiloState::PlayWithYarn => seq![
            AnimationStep { frame: 0, duration_ms: 180 },
            AnimationStep { frame: 1, duration_ms: 180 },
            AnimationStep { frame: 2, duration_ms: 180 },
            AnimationStep { frame: 3, duration_ms: 220 },
            AnimationStep { frame: 4, duration_ms: 180 },
            AnimationStep { frame: 5, duration_ms: 220 },
            AnimationStep { frame: 6, duration_ms: 220 },
            AnimationStep { frame: 7, duration_ms: 260 },
        ],
    }
}

/// Every step of every state names one of that state's frames, and every
/// state has at least one step.
pub proof fn lemma_steps_are_well_formed(state: MiloState)
    ensures
        spec_steps(state).len() > 0,
        forall|i: int|
            0 <= i < spec_steps(state).len() ==> #[trigger] spec_steps(state)[i].frame
                < spec_frame_count(state),
{
}

/// Every frame image a state owns is shown: a state owns four frames
/// (PlayWithYarn eight), its schedule opens with them in order, each step
/// shows one of them, and every step stays on screen for some time.
pub proof fn lemma_every_frame_is_shown(state: MiloState)
    ensures
        ({
            let steps = spec_steps(state);
            let count: int = if state == MiloState::PlayWithYarn {
                8
            } else {
                4
            };
            &&& count <= steps.len()
            &&& forall|i: int| 0 <= i < count ==> #[trigger] steps[i].frame == i
            &&& forall|i: int| 0 <= i < steps.len() ==> #[trigger] steps[i].frame < count
            &&& forall|i: int| 0 <= i < steps.len() ==> #[trigger] steps[i].duration_ms > 0
        }),
{
}

/// The documented timings: Concerned loops through its four frames for
/// 500, 400, 650 and 400 milliseconds, and PlayWithYarn through its eight
/// frames for 180, 180, 180, 220, 180, 220, 220 and 260 milliseconds.
pub proof fn lemma_documented_timings()
    ensures
        spec_steps(MiloState::Concerned).len() == 4,
        spec_steps(MiloState::Concerned)[0].duration_ms == 500,
        spec_steps(MiloState::Concerned)[1].duration_ms == 400,
        spec_steps(MiloState::Concerned)[2].duration_ms == 650,
        spec_steps(MiloState::Concerned)[3].duration_ms == 400,
        spec_steps(MiloState::PlayWithYarn).len() == 8,
        spec_steps(MiloState::PlayWithYarn)[0].duration_ms == 180,
        spec_steps(MiloState::PlayWithYarn)[1].duration_ms == 180,
        spec_steps(MiloState::PlayWithYarn)[2].duration_ms == 180,
        spec_steps(MiloState::PlayWithYarn)[3].duration_ms == 220,
        spec_steps(MiloState::PlayWithYarn)[4].duration_ms == 180,
        spec_steps(MiloState::PlayWithYarn)[5].duration_ms == 220,
        spec_steps(MiloState::PlayWithYarn)[6].duration_ms == 220,
        spec_steps(MiloState::PlayWithYarn)[7].duration_ms == 260,
{
}

/// The frame schedule of `state`.
pub fn animation_steps(state: MiloState) -> (steps: Vec<AnimationStep>)
    ensures
        steps@ == spec_steps(state),
{
    let steps = match state {
        MiloState::Idle => vec![
            AnimationStep { frame: 0, duration_ms: 600 },
            AnimationStep { frame: 1, duration_ms: 350 },
            AnimationStep { frame: 2, duration_ms: 150 },
            AnimationStep { frame: 3, duration_ms: 350 },
            AnimationStep { frame: 0, duration_ms: 900 },
        ],
        MiloState::Sleeping => vec![
            AnimationStep { frame: 0, duration_ms: 700 },
            AnimationStep { frame: 1, duration_ms: 450 },
            AnimationStep { frame: 2, duration_ms: 450 },
            AnimationStep { frame: 3, duration_ms: 700 },
        ],
        MiloState::Curious => vec![
            AnimationStep { frame: 0, duration_ms: 350 },
            AnimationStep { frame: 1, duration_ms: 250 },
            AnimationStep { frame: 2, duration_ms: 300 },
            AnimationStep { frame: 3, duration_ms: 350 },
        ],
        MiloState::Concerned => vec![
            AnimationStep { frame: 0, duration_ms: 500 },
            AnimationStep { frame: 1, duration_ms: 400 },
            AnimationStep { frame: 2, duration_ms: 650 },
            AnimationStep { frame: 3, duration_ms: 400 },
        ],
        MiloState::PlayWithYarn => vec![
            AnimationStep { frame: 0, duration_ms: 180 },
            AnimationStep { frame: 1, duration_ms: 180 },
            AnimationStep { frame: 2, duration_ms: 180 },
            AnimationStep { frame: 3, duration_ms: 220 },
            AnimationStep { frame: 4, duration_ms: 180 },
            AnimationStep { frame: 5, duration_ms: 220 },
            AnimationStep { frame: 6, duration_ms: 220 },
            AnimationStep { frame: 7, duration_ms: 260 },
        ],
    };
    assert(steps@ =~= spec_steps(state));
    steps
}

/// Counts down the loops of a finite playback.
#[derive(Clone, Copy, Debug, PartialEq, Eq, Structural)]
pub struct LoopCountdown {
    pub remaining: usize,
}

impl LoopCountdown {
    /// Finite playback needs at least one loop.
    pub fn new(loops: usize) -> (countdown: Self)
        requires
            loops > 0,
        ensures
            countdown.remaining == loops,
    {
        LoopCountdown { remaining: loops }
    }

    /// Records one completed loop; true when it was the last one.
    pub fn completed_loop(&mut self) -> (finished: bool)
        requires
            old(self).remaining > 0,
        ensures
            final(self).remaining == old(self).remaining - 1,
            finished == (final(self).remaining == 0),
    {
        self.remaining = self.remaining - 1;
        self.remaining == 0
    }
}

/// What the player does after the current frame's time has elapsed.
#[derive(Clone, Copy, Debug, PartialEq, Eq, Structural)]
pub enum FrameAdvance {
    /// Display `frame` for `duration_ms`, then advance again.
    Show { frame: usize, duration_ms: u64 },
    /// The finite playback finished its last loop; nothing more is shown.
    Completed,
}

/// Position of the animation player within the schedule of its state.
#[derive(Clone, Copy, Debug, PartialEq, Eq, Structural)]
pub struct PlaybackCursor {
    pub state: MiloState,
    pub step_index: usize,
    pub countdown: Option<LoopCountdown>,
}

impl PlaybackCursor {
    pub open spec fn well_formed(self) -> bool {
        &&& self.step_index < spec_steps(self.state).len()
        &&& self.countdown matches Some(c) ==> c.remaining > 0
    }

    /// Starts `state` at its first step, looping forever (`loops` is
    /// `None`) or for the given positive number of loops.
    pub fn start(state: MiloState, loops: Option<usize>) -> (cursor: (Self, AnimationStep))
        requires
            loops matches Some(n) ==> n > 0,
        ensures
            cursor.0.well_formed(),
            cursor.0.state == state,
            cursor.0.step_index == 0,
            cursor.0.countdown == (match loops {
                Some(n) => Some(LoopCountdown { remaining: n }),
                None => None,
            }),
            cursor.1 == spec_steps(state)[0],
    {
        let steps = animation_steps(state);
        let countdown = match loops {
            Some(n) => Some(LoopCountdown::new(n)),
            None => None,
        };
        (PlaybackCursor { state, step_index: 0, countdown }, steps[0])
    }

    /// The effect of one advance: the next step of the schedule, counting
    /// one loop whenever the schedule wraps around during a finite playback;
    /// after the last loop the playback completes instead.
    pub open spec fn spec_advance(self) -> (PlaybackCursor, FrameAdvance) {
        let steps = spec_steps(self.state);
        let next = (self.step_index + 1) % (steps.len() as int);
        if next == 0 && self.countdown == Some(LoopCountdown { remaining: 1 }) {
            (PlaybackCursor { countdown: None, ..self }, FrameAdvance::Completed)
        } else {
            let countdown = if next == 0 {
                match self.countdown {
                    Some(c) => Some(LoopCountdown { remaining: (c.remaining - 1) as usize }),
                    None => None,
                }
            } else {
                self.countdown
            };
            (
                PlaybackCursor { step_index: next as usize, countdown, ..self },
                FrameAdvance::Show {
                    frame: steps[next].frame,
                    duration_ms: steps[next].duration_ms,
                },
            )
        }
    }

    /// Advances to the next step (see `spec_advance`).
    pub fn advance(&mut self) -> (advance: FrameAdvance)
        requires
            old(self).well_formed(),
        ensures
            (*final(self), advance) == old(self).spec_advance(),
            final(self).well_formed() || advance is Completed,
    {
        let steps = animation_steps(self.state);
        let next = (self.step_index + 1) % steps.len();
        if next == 0 {
            match self.countdown {
                Some(mut countdown) => {
                    if countdown.completed_loop() {
                        self.countdown = None;
                        return FrameAdvance::Completed;
                    }
                    self.countdown = Some(countdown);
                },
                None => {},
            }
        }
        self.step_index = next;
        let step = steps[next];
        FrameAdvance::Show { frame: step.frame, duration_ms: step.duration_ms }
    }

    /// Number of advances until a finite playback completes.
    pub open spec fn advances_until_completion(self) -> int {
        let len = spec_steps(self.state).len() as int;
        match self.countdown {
            Some(c) => (len - 1 - self.step_index) + (c.remaining - 1) * len + 1,
            None => 0,
        }
    }

    /// The cursor after `k` advances.
    pub open spec fn advanced(self, k: nat) -> PlaybackCursor
        decreases k,
    {
        if k == 0 {
            self
        } else {
            self.advanced((k - 1) as nat).spec_advance().0
        }
    }
}

proof fn lemma_one_advance(cursor: PlaybackCursor)
    requires
        cursor.well_formed(),
        cursor.countdown is Some,
    ensures
        cursor.advances_until_completion() >= 1,
        cursor.advances_until_completion() == 1 ==> cursor.spec_advance().1 is Completed,
        cursor.advances_until_completion() > 1 ==> {
            &&& cursor.spec_advance().1 is Show
            &&& cursor.spec_advance().0.well_formed()
            &&& cursor.spec_advance().0.countdown is Some
            &&& cursor.spec_advance().0.state == cursor.state
            &&& cursor.spec_advance().0.advances_until_completion()
                == cursor.advances_until_completion() - 1
        },
{
    let len = spec_steps(cursor.state).len() as int;
    let r = cursor.countdown->0.remaining as int;
    let i = cursor.step_index as int;
    lemma_steps_are_well_formed(cursor.state);
    assert((r - 1) * len >= 0) by (nonlinear_arith)
        requires
            r >= 1,
            len >= 1,
    ;
    if i + 1 < len {
        lemma_small_mod((i + 1) as nat, len as nat);
        let next = cursor.spec_advance().0;
        assert(next.step_index == i + 1);
        assert(next.countdown == cursor.countdown);
    } else {
        assert(i + 1 == len);
        lemma_mod_self_0(len);
        if r > 1 {
            let next = cursor.spec_advance().0;
            assert(next.step_index == 0);
            assert(next.countdown->0.remaining == r - 1);
            assert((r - 1) * len == (r - 2) * len + len) by (nonlinear_arith);
            assert(next.advances_until_completion() == (len - 1) + (r - 2) * len + 1);
        } else {
            assert((r - 1) * len == 0) by (nonlinear_arith)
                requires
                    r == 1,
            ;
        }
    }
}

/// A playback of `loops` loops completes on exactly the `loops * len`-th
/// advance, where `len` is the number of steps of its state: every earlier
/// advance shows a frame.
pub proof fn lemma_finite_playback_completes_after_its_loops(
    state: MiloState,
    loops: usize,
    k: nat,
)
    requires
        loops > 0,
        k < loops * spec_steps(state).len(),
    ensures
        ({
            let start = PlaybackCursor {
                state,
                step_index: 0,
                countdown: Some(LoopCountdown { remaining: loops }),
            };
            &&& k + 1 < loops * spec_steps(state).len() ==> start.advanced(k).spec_advance().1 is Show
            &&& k + 1 == loops * spec_steps(state).len()
                ==> start.advanced(k).spec_advance().1 is Completed
        }),
{
    let start = PlaybackCursor {
        state,
        step_index: 0,
        countdown: Some(LoopCountdown { remaining: loops }),
    };
    let len = spec_steps(state).len() as int;
    lemma_steps_are_well_formed(state);
    assert(start.advances_until_completion() == loops * len) by (nonlinear_arith)
        requires
            start.advances_until_completion() == (len - 1 - 0) + (loops - 1) * len + 1,
    ;
    lemma_advanced_progress(start, k);
    lemma_one_advance(start.advanced(k));
}

proof fn lemma_advanced_progress(cursor: PlaybackCursor, k: nat)
    requires
        cursor.well_formed(),
        cursor.countdown is Some,
        k < cursor.advances_until_completion(),
    ensures
        cursor.advanced(k).well_formed(),
        cursor.advanced(k).countdown is Some,
        cursor.advanced(k).state == cursor.state,
        cursor.advanced(k).advances_until_completion() == cursor.advances_until_completion() - k,
    decreases k,
{
    if k > 0 {
        lemma_advanced_progress(cursor, (k - 1) as nat);
        lemma_one_advance(cursor.advanced((k - 1) as nat));
    }
}

} // verus!
