use vstd::prelude::*;
use crate::scene::ViewAction;

verus! {

/// Frames per second the driver aims at.
pub const FPS: u32 = 60;

/// Shortest time between two frames, in milliseconds.
pub const INTERVAL_MS: u32 = 1000 / FPS;

/// Whether the driver still runs.
#[derive(Debug, Clone, Copy, PartialEq, Eq, Structural)]
pub enum DriverState {
    Running,
    Stopped,
}

/// What the platform layer does next.
#[derive(Debug, Clone, Copy, PartialEq, Eq, Structural)]
pub enum Step {
    /// Sleep this many milliseconds, then ask again.
    Wait(u32),
    /// Poll the input and draw a frame of this many elapsed milliseconds.
    Frame(u32),
    /// The driver has stopped.
    Stop,
}

/// Milliseconds from tick `before` to tick `now` of a wrapping 32-bit
/// millisecond counter.
pub open spec fn ticks_between(before: u32, now: u32) -> int {
    if now >= before {
        now - before
    } else {
        now + 0x1_0000_0000 - before
    }
}

/// The fixed-interval frame clock: `before` is the tick of the last frame.
#[derive(Debug, Clone, Copy, PartialEq, Eq, Structural)]
pub struct FrameDriver {
    pub state: DriverState,
    pub before: u32,
}

impl FrameDriver {
    /// What the driver asks for at tick `now`.
    pub open spec fn step_at(self, now: u32) -> Step {
        let dt = ticks_between(self.before, now);
        if self.state == DriverState::Stopped {
            Step::Stop
        } else if dt < INTERVAL_MS {
            Step::Wait((INTERVAL_MS - dt) as u32)
        } else {
            Step::Frame(dt as u32)
        }
    }

    /// The driver after it was asked at tick `now`: the frame's tick is kept
    /// when a frame is due, else nothing changes.
    pub open spec fn after_step(self, now: u32) -> FrameDriver {
        match self.step_at(now) {
            Step::Frame(_) => FrameDriver { before: now, ..self },
            _ => self,
        }
    }

    /// A running driver whose last frame was at tick `start`.
    pub fn new(start: u32) -> (r: FrameDriver)
        ensures
            r == (FrameDriver { state: DriverState::Running, before: start }),
    {
        FrameDriver { state: DriverState::Running, before: start }
    }

    /// Decides, at tick `now`, whether to wait out the rest of the interval
    /// or to draw a frame, and records the frame's tick.
    pub fn tick(&mut self, now: u32) -> (r: Step)
        ensures
            r == old(self).step_at(now),
            *final(self) == old(self).after_step(now),
    {
        if self.state == DriverState::Stopped {
            return Step::Stop;
        }
        let dt = now.wrapping_sub(self.before);
        if dt < INTERVAL_MS {
            Step::Wait(INTERVAL_MS - dt)
        } else {
            self.before = now;
            Step::Frame(dt)
        }
    }

    /// Acts on a view's answer: stops on `Quit`; otherwise the drawn frame is
    /// to be presented, which the result says.
    pub fn finish(&mut self, action: ViewAction) -> (present: bool)
        ensures
            present == (action == ViewAction::Continue),
            final(self).before == old(self).before,
            final(self).state == if action == ViewAction::Quit {
                DriverState::Stopped
            } else {
                old(self).state
            },
    {
        match action {
            ViewAction::Quit => {
                self.state = DriverState::Stopped;
                false
            },
            ViewAction::Continue => true,
        }
    }
}

/// Before a full interval has passed since the last frame the driver only
/// waits, and keeps waiting while that holds; once it has passed, exactly one
/// frame is drawn, and the next one is again a full interval away.
pub proof fn lemma_one_frame_per_interval(d: FrameDriver, t1: u32, t2: u32)
    requires
        d.state == DriverState::Running,
    ensures
        ticks_between(d.before, t1) < INTERVAL_MS ==> d.step_at(t1) is Wait
            && d.after_step(t1) == d,
        ticks_between(d.before, t1) >= INTERVAL_MS ==> d.step_at(t1) == Step::Frame(
            ticks_between(d.before, t1) as u32,
        ) && d.after_step(t1).before == t1,
        ticks_between(d.before, t1) >= INTERVAL_MS && ticks_between(t1, t2) < INTERVAL_MS
            ==> d.after_step(t1).step_at(t2) is Wait,
{
}

} // verus!
