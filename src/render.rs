use vstd::prelude::*;

use crate::bridge::{is_close, plan_events, RawEvent};

verus! {

/// The target time between frame starts, in microseconds (about 60 frames a second).
pub const FRAME_INTERVAL_US: u64 = 16_000;

/// The phases of a render loop.
#[derive(Debug, Clone, Copy, PartialEq, Eq, Structural)]
pub enum LoopState {
    Running,
    Closing,
    Closed,
}

/// What the loop learns from its surroundings at each step.
pub enum LoopInput {
    /// The top of an iteration, with the editor's cancellation flag.
    FrameStart { cancelled: bool },
    /// One poll's events were examined; `close` says whether a close signal was among them.
    EventsPolled { close: bool },
    /// A frame was presented, or presenting it failed.
    Presented { ok: bool },
    /// The window's resources were released.
    Released,
}

/// The loop's transition relation. Only `Running` reacts to the frame inputs,
/// only `Closing` to the release, and `Closed` is terminal.
pub open spec fn step(s: LoopState, input: LoopInput) -> LoopState {
    match s {
        LoopState::Running => match input {
            LoopInput::FrameStart { cancelled } => if cancelled {
                LoopState::Closing
            } else {
                LoopState::Running
            },
            LoopInput::EventsPolled { close } => if close {
                LoopState::Closing
            } else {
                LoopState::Running
            },
            LoopInput::Presented { ok } => if ok {
                LoopState::Running
            } else {
                LoopState::Closing
            },
            LoopInput::Released => LoopState::Running,
        },
        LoopState::Closing => match input {
            LoopInput::Released => LoopState::Closed,
            _ => LoopState::Closing,
        },
        LoopState::Closed => LoopState::Closed,
    }
}

/// How long to wait before the next frame, given the time since the last frame start.
pub open spec fn pacing(elapsed_us: int) -> int {
    if elapsed_us < FRAME_INTERVAL_US {
        FRAME_INTERVAL_US - elapsed_us
    } else {
        0
    }
}

/// The wait that keeps frame starts at least one frame interval apart.
pub fn pacing_delay(elapsed_us: u64) -> (r: u64)
    ensures
        r == pacing(elapsed_us as int),
        r <= FRAME_INTERVAL_US,
{
    if elapsed_us < FRAME_INTERVAL_US {
        FRAME_INTERVAL_US - elapsed_us
    } else {
        0
    }
}

/// The decisions of an editor's frame loop; the thread that owns the window
/// performs the waits, polls and draws that they call for.
pub struct RenderLoop {
    pub state: LoopState,
    /// Frames presented so far (saturating).
    pub frames: u64,
}

impl RenderLoop {
    /// A loop that has just started.
    pub fn new() -> (r: RenderLoop)
        ensures
            r.state == LoopState::Running,
            r.frames == 0,
    {
        RenderLoop { state: LoopState::Running, frames: 0 }
    }

    /// The top of an iteration: a set cancellation flag starts the teardown at
    /// once; otherwise the result is the wait before polling. `None` means no
    /// frame is to be made.
    pub fn begin_frame(&mut self, cancelled: bool, elapsed_us: u64) -> (r: Option<u64>)
        ensures
            final(self).state == step(old(self).state, LoopInput::FrameStart { cancelled }),
            final(self).frames == old(self).frames,
            r == if old(self).state == LoopState::Running && !cancelled {
                Some(pacing(elapsed_us as int) as u64)
            } else {
                None::<u64>
            },
    {
        match self.state {
            LoopState::Running => {
                if cancelled {
                    self.state = LoopState::Closing;
                    None
                } else {
                    Some(pacing_delay(elapsed_us))
                }
            },
            _ => None,
        }
    }

    /// Examines one poll's events and returns how many of them, from the
    /// first, are to be translated and handed to the UI library.
    pub fn take_events(&mut self, events: &Vec<RawEvent>) -> (r: usize)
        ensures
            final(self).frames == old(self).frames,
            old(self).state != LoopState::Running ==> r == 0 && final(self).state == old(
                self,
            ).state,
            old(self).state == LoopState::Running ==> {
                &&& r <= events@.len()
                &&& forall|i: int| 0 <= i < r ==> !is_close(#[trigger] events@[i])
                &&& r < events@.len() ==> is_close(events@[r as int])
                &&& final(self).state == step(
                    old(self).state,
                    LoopInput::EventsPolled { close: r < events@.len() },
                )
            },
    {
        match self.state {
            LoopState::Running => {
                let plan = plan_events(events);
                if plan.close {
                    self.state = LoopState::Closing;
                }
                plan.deliver
            },
            _ => 0,
        }
    }

    /// Whether the current iteration goes on to build and present a frame.
    pub fn should_draw(&self) -> (r: bool)
        ensures
            r == (self.state == LoopState::Running),
    {
        match self.state {
            LoopState::Running => true,
            _ => false,
        }
    }

    /// Records the outcome of presenting a frame; a failure ends the session.
    pub fn frame_presented(&mut self, ok: bool)
        ensures
            final(self).state == step(old(self).state, LoopInput::Presented { ok }),
            final(self).frames == if old(self).state == LoopState::Running && ok
                && old(self).frames < u64::MAX {
                (old(self).frames + 1) as u64
            } else {
                old(self).frames
            },
    {
        match self.state {
            LoopState::Running => {
                if ok {
                    if self.frames < u64::MAX {
                        self.frames = self.frames + 1;
                    }
                } else {
                    self.state = LoopState::Closing;
                }
            },
            _ => {},
        }
    }

    /// Records that the window's resources were released; returns whether the
    /// loop has now finished.
    pub fn released(&mut self) -> (r: bool)
        ensures
            final(self).state == step(old(self).state, LoopInput::Released),
            final(self).frames == old(self).frames,
            r == (final(self).state == LoopState::Closed),
    {
        match self.state {
            LoopState::Closing => {
                self.state = LoopState::Closed;
                true
            },
            LoopState::Closed => true,
            LoopState::Running => false,
        }
    }

    /// Whether the loop has reached its terminal state.
    pub fn is_closed(&self) -> (r: bool)
        ensures
            r == (self.state == LoopState::Closed),
    {
        match self.state {
            LoopState::Closed => true,
            _ => false,
        }
    }
}

/// `Closed` is terminal: no input leaves it.
pub proof fn law_closed_is_terminal(input: LoopInput)
    ensures
        step(LoopState::Closed, input) == LoopState::Closed,
{
}

/// A set cancellation flag is seen at the top of the next iteration, with no
/// wait before it, and the loop is finished after the single release that follows.
/// The wait between two iterations is never longer than one frame interval.
pub proof fn law_cancel_finishes(elapsed_us: int)
    ensures
        step(
            step(LoopState::Running, LoopInput::FrameStart { cancelled: true }),
            LoopInput::Released,
        ) == LoopState::Closed,
        0 <= elapsed_us ==> 0 <= pacing(elapsed_us) <= FRAME_INTERVAL_US,
{
}

/// Once closing, the loop only ever closes: no input brings it back to `Running`.
pub proof fn law_no_restart(s: LoopState, input: LoopInput)
    requires
        s != LoopState::Running,
    ensures
        step(s, input) != LoopState::Running,
{
}

} // verus!
