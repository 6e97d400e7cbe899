//! Decisions of the frame loop: how many simulation ticks a frame runs, with
//! which time step, how long to sleep after it, and what each input event does.
use crate::movement::{with_key, Key, MoveState};
use vstd::prelude::*;

verus! {

/// Duration of one fixed simulation tick, in nanoseconds.
pub const TARGET_TIME_STEP: u64 = 16666667;

/// How simulation time advances.
#[derive(Clone, Copy, Debug, PartialEq, Eq, Structural)]
pub enum StepMode {
    /// Whole ticks of `TARGET_TIME_STEP`, the remainder carried to the next frame.
    Fixed,
    /// One update per frame by the time measured since the previous frame.
    Variable,
}

/// Timing state carried from frame to frame.
#[derive(Clone, Copy, Debug, PartialEq, Eq, Structural)]
pub struct FrameClock {
    pub mode: StepMode,
    /// Clock reading at the previous frame, in nanoseconds.
    pub prev_time: u64,
    /// Elapsed time not yet consumed by a tick, in nanoseconds.
    pub frame_time: u64,
}

/// What one frame does: `updates` calls of the update with step `dt_ns`, then
/// a sleep of `sleep_ns`.
#[derive(Clone, Copy, Debug, PartialEq, Eq, Structural)]
pub struct FramePlan {
    pub updates: u64,
    pub dt_ns: u64,
    pub sleep_ns: u64,
}

impl FrameClock {
    /// The carried remainder is always less than one tick.
    pub open spec fn wf(&self) -> bool {
        self.frame_time < TARGET_TIME_STEP
    }

    /// A clock started at `start_time` with nothing carried over.
    pub fn new(mode: StepMode, start_time: u64) -> (c: FrameClock)
        ensures
            c.mode == mode,
            c.prev_time == start_time,
            c.frame_time == 0,
            c.wf(),
    {
        FrameClock { mode, prev_time: start_time, frame_time: 0 }
    }

    /// Plans the frame that ends at clock reading `now`.
    pub fn advance(&mut self, now: u64) -> (plan: FramePlan)
        requires
            old(self).wf(),
            now >= old(self).prev_time,
        ensures
            final(self).wf(),
            final(self).mode == old(self).mode,
            final(self).prev_time == now,
            old(self).mode == StepMode::Fixed ==> {
                let total = old(self).frame_time + (now - old(self).prev_time);
                &&& plan.updates == total / TARGET_TIME_STEP as int
                &&& plan.dt_ns == TARGET_TIME_STEP
                &&& final(self).frame_time == total % TARGET_TIME_STEP as int
                &&& plan.sleep_ns == TARGET_TIME_STEP - final(self).frame_time
            },
            old(self).mode == StepMode::Variable ==> {
                &&& plan.updates == 1
                &&& plan.dt_ns == now - old(self).prev_time
                &&& (plan.dt_ns == 0 <==> now == old(self).prev_time)
                &&& plan.sleep_ns == 0
                &&& final(self).frame_time == old(self).frame_time
            },
    {
        let elapsed = now - self.prev_time;
        self.prev_time = now;
        match self.mode {
            StepMode::Fixed => {
                let mut updates = elapsed / TARGET_TIME_STEP;
                let mut rest = self.frame_time + elapsed % TARGET_TIME_STEP;
                if rest >= TARGET_TIME_STEP {
                    updates = updates + 1;
                    rest = rest - TARGET_TIME_STEP;
                }
                proof {
                    lemma_split_ticks(self.frame_time as int, elapsed as int);
                }
                self.frame_time = rest;
                FramePlan {
                    updates,
                    dt_ns: TARGET_TIME_STEP,
                    sleep_ns: TARGET_TIME_STEP - rest,
                }
            },
            StepMode::Variable => FramePlan { updates: 1, dt_ns: elapsed, sleep_ns: 0 },
        }
    }
}

proof fn lemma_split_ticks(carried: int, elapsed: int)
    requires
        0 <= carried < TARGET_TIME_STEP,
        0 <= elapsed,
    ensures
        ({
            let k = TARGET_TIME_STEP as int;
            let rest = carried + elapsed % k;
            &&& rest < k ==> (carried + elapsed) / k == elapsed / k && (carried + elapsed) % k
                == rest
            &&& rest >= k ==> (carried + elapsed) / k == elapsed / k + 1 && (carried + elapsed)
                % k == rest - k
        }),
{
    let k = TARGET_TIME_STEP as int;
    vstd::arithmetic::div_mod::lemma_fundamental_div_mod(elapsed, k);
    let q = elapsed / k;
    let rest = carried + elapsed % k;
    if rest < k {
        vstd::arithmetic::div_mod::lemma_fundamental_div_mod_converse(carried + elapsed, k, q, rest);
    } else {
        vstd::arithmetic::div_mod::lemma_fundamental_div_mod_converse(
            carried + elapsed,
            k,
            q + 1,
            rest - k,
        );
    }
}

/// An input event, as the loop sees it.
#[derive(Clone, Copy, Debug, PartialEq, Eq, Structural)]
pub enum Event {
    KeyPressed(Key),
    KeyReleased(Key),
    Resized(u32, u32),
    Closed,
    Other,
}

/// What the loop does after an event.
#[derive(Clone, Copy, Debug, PartialEq, Eq, Structural)]
pub enum Control {
    Continue,
    Resize(u32, u32),
    Quit,
}

/// Effect of an event on the held keys and on the loop: Escape (pressed or
/// released) and closing the window end the loop, other keys go down or up,
/// a resize is handed on, anything else is ignored.
pub open spec fn event_outcome(s: MoveState, event: Event) -> (MoveState, Control) {
    match event {
        Event::KeyPressed(Key::Escape) => (s, Control::Quit),
        Event::KeyReleased(Key::Escape) => (s, Control::Quit),
        Event::KeyPressed(k) => (with_key(s, k, true), Control::Continue),
        Event::KeyReleased(k) => (with_key(s, k, false), Control::Continue),
        Event::Resized(w, h) => (s, Control::Resize(w, h)),
        Event::Closed => (s, Control::Quit),
        Event::Other => (s, Control::Continue),
    }
}

/// Applies one event to the held keys and says what the loop does next.
pub fn handle_event(state: &mut MoveState, event: Event) -> (c: Control)
    ensures
        (*final(state), c) == event_outcome(*old(state), event),
{
    match event {
        Event::KeyPressed(Key::Escape) => Control::Quit,
        Event::KeyReleased(Key::Escape) => Control::Quit,
        Event::KeyPressed(k) => {
            state.keydown(k);
            Control::Continue
        },
        Event::KeyReleased(k) => {
            state.keyup(k);
            Control::Continue
        },
        Event::Resized(w, h) => Control::Resize(w, h),
        Event::Closed => Control::Quit,
        Event::Other => Control::Continue,
    }
}

} // verus!
