//! The dash: a second tap to the same side while the window is open.
//!
//! A tap to a side on flat ground opens a window of 200 ms and is
//! remembered. Each tap to the same side while the window is open dashes:
//! for that frame the actor is pushed to that side and gravity is
//! suspended. Once the window has closed, the dash is over and gravity is
//! restored.
//!
//! The window is a timer of the engine. The rules read and run it through
//! a few calls whose contracts are taken from the engine's source and are
//! not proved here; they speak of what the timer holds, [`TimerState`].
use vstd::prelude::*;
use crate::player::{Direction, Player, SurfaceNormal};

verus! {

/// The length of the window in which a second tap dashes, in nanoseconds.
pub const DASH_WINDOW_NANOS: u64 = 200_000_000;

/// The engine's timer. Nothing inside it is visible to the rules; what it
/// holds is named by [`timer_state`].
#[verifier::external_type_specification]
#[verifier::external_body]
pub struct ExTimer(bevy::time::Timer);

/// What a timer holds, as far as the rules read it. Times are nanoseconds.
/// `once` says that the timer runs once and is not paused.
pub struct TimerState {
    pub elapsed: nat,
    pub duration: nat,
    pub finished: bool,
    pub once: bool,
}

impl TimerState {
    /// The state after the timer is started again from zero.
    pub open spec fn reset(self) -> TimerState {
        TimerState { elapsed: 0, finished: false, ..self }
    }

    /// The state of a timer that runs once after `delta` more nanoseconds: a
    /// finished timer stays as it is, a running one advances, and stops at
    /// its duration and is finished once it has reached it.
    pub open spec fn ticked(self, delta: nat) -> TimerState {
        if self.finished {
            self
        } else if self.elapsed + delta >= self.duration {
            TimerState { elapsed: self.duration, finished: true, ..self }
        } else {
            TimerState { elapsed: self.elapsed + delta, finished: false, ..self }
        }
    }
}

/// What the engine's timer holds.
pub uninterp spec fn timer_state(timer: bevy::time::Timer) -> TimerState;

/// `Timer::new` of the engine, with `TimerMode::Once`: a timer of the given
/// duration that runs once, is not paused, has not run and is not finished.
#[verifier::external_body]
fn new_timer(duration: u64) -> (timer: bevy::time::Timer)
    ensures
        timer_state(timer) == (TimerState {
            elapsed: 0,
            duration: duration as nat,
            finished: false,
            once: true,
        }),
{
    bevy::time::Timer::new(std::time::Duration::from_nanos(duration), bevy::time::TimerMode::Once)
}

/// `Timer::finished` of the engine: the flag that the last tick or reset
/// left.
#[verifier::external_body]
fn timer_finished(timer: &bevy::time::Timer) -> (finished: bool)
    ensures
        finished == timer_state(*timer).finished,
{
    timer.finished()
}

/// `Timer::elapsed` of the engine, in nanoseconds, where they fit.
#[verifier::external_body]
fn timer_elapsed(timer: &bevy::time::Timer) -> (elapsed: u64)
    requires
        timer_state(*timer).elapsed <= u64::MAX,
    ensures
        elapsed == timer_state(*timer).elapsed,
{
    timer.elapsed().as_nanos() as u64
}

/// `Timer::reset` of the engine: the time run is zero again and the timer is
/// not finished; duration, mode and pause stay. It cannot panic.
#[verifier::external_body]
fn reset_timer(timer: &mut bevy::time::Timer)
    ensures
        timer_state(*final(timer)) == timer_state(*old(timer)).reset(),
    no_unwind
{
    timer.reset();
}

/// `Timer::tick` of the engine, for a timer that runs once and is not
/// paused: a finished timer is left as it is; a running one advances by
/// `delta`, and where that reaches its duration it stops there and is
/// finished. The time run must fit in 64 bits: then the sum stays in the
/// range of the engine's durations, and the call cannot panic.
#[verifier::external_body]
fn tick_timer(timer: &mut bevy::time::Timer, delta: u64)
    requires
        timer_state(*old(timer)).once,
        timer_state(*old(timer)).elapsed <= u64::MAX,
    ensures
        timer_state(*final(timer)) == timer_state(*old(timer)).ticked(delta as nat),
    no_unwind
{
    timer.tick(std::time::Duration::from_nanos(delta));
}

/// What the dash rules keep between frames: the window, and the side of the
/// tap that opened it.
pub struct DashState {
    pub input_timer: TimerState,
    pub direction: Direction,
}

impl DashState {
    /// The state after `delta` more nanoseconds.
    pub open spec fn ticked(self, delta: nat) -> DashState {
        DashState { input_timer: self.input_timer.ticked(delta), direction: self.direction }
    }

    /// Whether the window is a timer that the rules can run: it runs once,
    /// and has not run past its duration.
    pub open spec fn wf(self) -> bool {
        &&& self.input_timer.once
        &&& self.input_timer.elapsed <= self.input_timer.duration <= u64::MAX
    }
}

/// What the dash rules keep between frames, with the window in a timer of
/// the engine.
#[derive(Debug)]
pub struct DashInput {
    input_timer: bevy::time::Timer,
    direction: Direction,
}

impl View for DashInput {
    type V = DashState;

    closed spec fn view(&self) -> DashState {
        DashState { input_timer: timer_state(self.input_timer), direction: self.direction }
    }
}

impl Default for DashInput {
    /// No side, and a closed window of 200 ms: the first tap opens it.
    fn default() -> (dash_input: DashInput)
        ensures
            dash_input@ == (DashState {
                input_timer: TimerState {
                    elapsed: DASH_WINDOW_NANOS as nat,
                    duration: DASH_WINDOW_NANOS as nat,
                    finished: true,
                    once: true,
                },
                direction: Direction::Neutral,
            }),
            dash_input@.wf(),
    {
        let mut input_timer = new_timer(DASH_WINDOW_NANOS);
        tick_timer(&mut input_timer, DASH_WINDOW_NANOS);
        DashInput { input_timer, direction: Direction::Neutral }
    }
}

impl DashInput {
    /// The window is a timer that the rules can run.
    #[verifier::type_invariant]
    closed spec fn is_valid(self) -> bool {
        self@.wf()
    }

    /// The side of the tap that opened the window last.
    pub fn direction(&self) -> (direction: Direction)
        ensures
            direction == self@.direction,
    {
        self.direction
    }

    /// Whether the window is closed.
    pub fn finished(&self) -> (finished: bool)
        ensures
            finished == self@.input_timer.finished,
    {
        timer_finished(&self.input_timer)
    }

    /// The nanoseconds for which the window has been open.
    pub fn elapsed(&self) -> (elapsed: u64)
        ensures
            elapsed == self@.input_timer.elapsed,
    {
        proof {
            use_type_invariant(self);
        }
        timer_elapsed(&self.input_timer)
    }

    /// Lets `delta` nanoseconds pass: to be called once at the end of each
    /// frame.
    pub fn tick(&mut self, delta: u64)
        ensures
            final(self)@ == old(self)@.ticked(delta as nat),
    {
        proof {
            use_type_invariant(&*self);
        }
        if !timer_finished(&self.input_timer) {
            tick_timer(&mut self.input_timer, delta);
        }
    }
}

/// What a frame does to the gravity scale of an actor.
#[derive(Clone, Copy, Debug, PartialEq, Eq, Structural, Hash)]
pub enum GravityChange {
    /// Nothing.
    Keep,
    /// Set it to the configured scale.
    Restore,
    /// Set it to zero.
    Suspend,
}

/// What a frame of the dash rules does to an actor's body: the side to push
/// it to at dash speed (`Neutral` for no push), and the change of its
/// gravity scale.
#[derive(Clone, Copy, Debug, PartialEq, Eq, Structural, Hash)]
pub struct DashEffect {
    pub boost: Direction,
    pub gravity: GravityChange,
}

/// Whether the frame has a tap that counts: to a side, on flat ground.
pub open spec fn taps_on_flat(tap: Direction, standing_normal: Option<SurfaceNormal>) -> bool {
    &&& tap != Direction::Neutral
    &&& standing_normal is Some
    &&& standing_normal->0.spec_is_flat()
}

/// Whether the frame dashes: a tap that counts, to the remembered side,
/// while the window is open.
pub open spec fn dashes(
    dash_input: DashState,
    tap: Direction,
    standing_normal: Option<SurfaceNormal>,
) -> bool {
    &&& taps_on_flat(tap, standing_normal)
    &&& !dash_input.input_timer.finished
    &&& tap == dash_input.direction
}

/// What the rules keep after a frame, before time passes: a tap that counts
/// and finds the window closed is remembered and opens it.
pub open spec fn dash_input_after(
    dash_input: DashState,
    tap: Direction,
    standing_normal: Option<SurfaceNormal>,
) -> DashState {
    if taps_on_flat(tap, standing_normal) && dash_input.input_timer.finished {
        DashState { input_timer: dash_input.input_timer.reset(), direction: tap }
    } else {
        dash_input
    }
}

/// Whether the frame leaves the window closed.
pub open spec fn window_closed_after(
    dash_input: DashState,
    tap: Direction,
    standing_normal: Option<SurfaceNormal>,
) -> bool {
    dash_input_after(dash_input, tap, standing_normal).input_timer.finished
}

/// Whether the actor is dashing after a frame: a dash begins with a frame
/// that dashes and ends with a frame that leaves the window closed.
pub open spec fn dashing_after(
    dash_input: DashState,
    dashing: bool,
    tap: Direction,
    standing_normal: Option<SurfaceNormal>,
) -> bool {
    if dashes(dash_input, tap, standing_normal) {
        true
    } else if window_closed_after(dash_input, tap, standing_normal) {
        false
    } else {
        dashing
    }
}

/// What a frame does to the actor's body: a frame that dashes pushes it and
/// suspends gravity; any other tap that counts restores gravity, and so does
/// the frame that ends a dash.
pub open spec fn dash_effect(
    dash_input: DashState,
    dashing: bool,
    tap: Direction,
    standing_normal: Option<SurfaceNormal>,
) -> DashEffect {
    if dashes(dash_input, tap, standing_normal) {
        DashEffect { boost: tap, gravity: GravityChange::Suspend }
    } else if taps_on_flat(tap, standing_normal) {
        DashEffect { boost: Direction::Neutral, gravity: GravityChange::Restore }
    } else if window_closed_after(dash_input, tap, standing_normal) && dashing {
        DashEffect { boost: Direction::Neutral, gravity: GravityChange::Restore }
    } else {
        DashEffect { boost: Direction::Neutral, gravity: GravityChange::Keep }
    }
}

/// Resolves the dash of one actor for one frame, from the side keys pressed
/// in this frame and the surface that the actor touches. Time passes
/// separately, with [`DashInput::tick`].
pub fn dash(
    dash_input: &mut DashInput,
    player: &mut Player,
    just_pressed_left: bool,
    just_pressed_right: bool,
    standing_normal: Option<SurfaceNormal>,
) -> (effect: DashEffect)
    ensures
        final(dash_input)@ == dash_input_after(
            old(dash_input)@,
            Direction::spec_from_keys(just_pressed_left, just_pressed_right),
            standing_normal,
        ),
        *final(player) == (Player {
            dashing: dashing_after(
                old(dash_input)@,
                old(player).dashing,
                Direction::spec_from_keys(just_pressed_left, just_pressed_right),
                standing_normal,
            ),
            ..*old(player)
        }),
        effect == dash_effect(
            old(dash_input)@,
            old(player).dashing,
            Direction::spec_from_keys(just_pressed_left, just_pressed_right),
            standing_normal,
        ),
{
    proof {
        use_type_invariant(&*dash_input);
    }
    let tap = Direction::from_keys(just_pressed_left, just_pressed_right);
    let mut effect = DashEffect { boost: Direction::Neutral, gravity: GravityChange::Keep };
    if let Some(normal) = standing_normal {
        if normal.is_flat() && tap != Direction::Neutral {
            if timer_finished(&dash_input.input_timer) {
                // Remember the side, to compare the next tap with it.
                dash_input.direction = tap;
                reset_timer(&mut dash_input.input_timer);
                effect.gravity = GravityChange::Restore;
            } else if tap == dash_input.direction {
                effect.boost = tap;
                player.dashing = true;
                effect.gravity = GravityChange::Suspend;
            } else {
                effect.gravity = GravityChange::Restore;
            }
        }
    }
    if timer_finished(&dash_input.input_timer) && player.dashing {
        player.dashing = false;
        // Without this an actor that dashes into a jump would keep flying.
        effect.gravity = GravityChange::Restore;
    }
    effect
}

/// One frame as the dash rules see it: the side tapped, the surface that
/// the actor touches, and the nanoseconds that pass at the end of the frame.
#[derive(Clone, Copy, Debug, PartialEq, Eq, Hash)]
pub struct DashFrame {
    pub tap: Direction,
    pub standing_normal: Option<SurfaceNormal>,
    pub delta: u64,
}

/// What the rules keep, and whether the actor is dashing, when frame `k` of
/// `frames` begins: each earlier frame was resolved and then its time
/// passed.
pub open spec fn state_before_frame(
    dash_input: DashState,
    dashing: bool,
    frames: Seq<DashFrame>,
    k: int,
) -> (DashState, bool)
    decreases k,
{
    if k <= 0 {
        (dash_input, dashing)
    } else {
        let (kept, was_dashing) = state_before_frame(dash_input, dashing, frames, k - 1);
        let frame = frames[k - 1];
        (
            dash_input_after(kept, frame.tap, frame.standing_normal).ticked(frame.delta as nat),
            dashing_after(kept, was_dashing, frame.tap, frame.standing_normal),
        )
    }
}

/// What frame `k` of `frames` does to the actor's body.
pub open spec fn effect_of_frame(
    dash_input: DashState,
    dashing: bool,
    frames: Seq<DashFrame>,
    k: int,
) -> DashEffect {
    let (kept, was_dashing) = state_before_frame(dash_input, dashing, frames, k);
    dash_effect(kept, was_dashing, frames[k].tap, frames[k].standing_normal)
}

/// The time that the frames before frame `k` take.
pub open spec fn time_before_frame(frames: Seq<DashFrame>, k: int) -> int
    decreases k,
{
    if k <= 0 {
        0
    } else {
        time_before_frame(frames, k - 1) + frames[k - 1].delta
    }
}

proof fn lemma_time_before_frame_grows(frames: Seq<DashFrame>, i: int, k: int)
    requires
        0 <= i <= k,
    ensures
        0 <= time_before_frame(frames, i) <= time_before_frame(frames, k),
    decreases k,
{
    if i < k {
        lemma_time_before_frame_grows(frames, i, k - 1);
    } else if 0 < k {
        lemma_time_before_frame_grows(frames, i - 1, k - 1);
    }
}

proof fn lemma_open_window_runs(
    dash_input: DashState,
    dashing: bool,
    frames: Seq<DashFrame>,
    tap: Direction,
    k: int,
)
    requires
        0 <= k <= frames.len(),
        dash_input.direction == tap,
        forall|i: int| 0 <= i < k ==> frames[i].tap == tap && taps_on_flat(tap, frames[i].standing_normal),
        !dash_input.input_timer.finished,
        dash_input.input_timer.elapsed + time_before_frame(frames, k)
            < dash_input.input_timer.duration,
    ensures
        state_before_frame(dash_input, dashing, frames, k).0 == (DashState {
            input_timer: TimerState {
                elapsed: (dash_input.input_timer.elapsed + time_before_frame(frames, k)) as nat,
                ..dash_input.input_timer
            },
            direction: tap,
        }),
        0 < k ==> state_before_frame(dash_input, dashing, frames, k).1,
    decreases k,
{
    if 0 < k {
        lemma_time_before_frame_grows(frames, k - 1, k);
        lemma_time_before_frame_grows(frames, 0, k - 1);
        lemma_open_window_runs(dash_input, dashing, frames, tap, k - 1);
    }
}

/// Taps to the same side keep the dash going while the window is open: if
/// every frame up to frame `k` taps, on flat ground, to the side that opened
/// the window, and the window is still open when frame `k` begins, then
/// frame `k` pushes the actor to that side and suspends gravity, and the
/// actor is dashing after it.
pub proof fn lemma_repeated_taps_keep_dashing(
    dash_input: DashState,
    dashing: bool,
    frames: Seq<DashFrame>,
    tap: Direction,
    k: int,
)
    requires
        0 <= k < frames.len(),
        dash_input.direction == tap,
        forall|i: int| 0 <= i <= k ==> frames[i].tap == tap && taps_on_flat(tap, frames[i].standing_normal),
        !dash_input.input_timer.finished,
        dash_input.input_timer.elapsed + time_before_frame(frames, k)
            < dash_input.input_timer.duration,
    ensures
        effect_of_frame(dash_input, dashing, frames, k) == (DashEffect {
            boost: tap,
            gravity: GravityChange::Suspend,
        }),
        state_before_frame(dash_input, dashing, frames, k + 1).1,
{
    lemma_time_before_frame_grows(frames, 0, k);
    lemma_open_window_runs(dash_input, dashing, frames, tap, k);
}

proof fn lemma_closed_window_stays(
    dash_input: DashState,
    dashing: bool,
    frames: Seq<DashFrame>,
    k: int,
)
    requires
        0 <= k <= frames.len(),
        dash_input.input_timer.finished,
        forall|i: int| 0 <= i < k ==> !taps_on_flat(frames[i].tap, frames[i].standing_normal),
    ensures
        state_before_frame(dash_input, dashing, frames, k).0 == dash_input,
        0 < k ==> !state_before_frame(dash_input, dashing, frames, k).1,
    decreases k,
{
    if 0 < k {
        lemma_closed_window_stays(dash_input, dashing, frames, k - 1);
    }
}

/// Once the window has closed on a dash, gravity is restored exactly once:
/// of the frames without a tap that counts, the first restores gravity and
/// ends the dash, and each later one leaves gravity as it is.
pub proof fn lemma_closed_window_restores_gravity_once(
    dash_input: DashState,
    frames: Seq<DashFrame>,
    k: int,
)
    requires
        0 <= k < frames.len(),
        dash_input.input_timer.finished,
        forall|i: int| 0 <= i <= k ==> !taps_on_flat(frames[i].tap, frames[i].standing_normal),
    ensures
        effect_of_frame(dash_input, true, frames, k) == (DashEffect {
            boost: Direction::Neutral,
            gravity: if k == 0 {
                GravityChange::Restore
            } else {
                GravityChange::Keep
            },
        }),
        !state_before_frame(dash_input, true, frames, k + 1).1,
{
    lemma_closed_window_stays(dash_input, true, frames, k);
    lemma_closed_window_stays(dash_input, true, frames, k + 1);
}

} // verus!
