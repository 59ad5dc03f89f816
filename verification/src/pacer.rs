//! Frame pacing: at most one frame per `MAIN_LOOP_TIME_FREQUENCY`
//! milliseconds, and no spinning while nothing happens.
//!
//! The pacer only decides. Its owner sleeps, drains the input queue and waits
//! for input, and reports back what happened.

use crate::config::MAIN_LOOP_TIME_NANOS;
use std::time::Instant;
use vstd::prelude::*;

verus! {

/// What the owner of the loop reports to the pacer.
#[derive(Clone, Copy, Debug, PartialEq, Eq, Structural)]
pub enum LoopEvent {
    /// A new frame begins.
    FrameStart,
    /// The sleep that the pacer asked for is over.
    Slept,
    /// The input queue was emptied without waiting; it held `events` events.
    Drained { events: usize },
    /// The wait for input ended with an event.
    Woken,
}

/// What the pacer asks its owner to do next.
#[derive(Clone, Copy, Debug, PartialEq, Eq, Structural)]
pub enum LoopAction {
    /// Sleep for `nanos` nanoseconds, then report `Slept`.
    Sleep { nanos: u64 },
    /// Empty the input queue without waiting, then report `Drained`.
    Drain,
    /// Wait until an input event arrives, then report `Woken`.
    Park,
    /// Hand the collected events to the application: the frame is over.
    Yield,
}

/// The pacer's answer to `event`, `elapsed_nanos` nanoseconds after the last
/// frame was handed out, while images are (`load_pending`) or are not waiting
/// to be loaded.
pub open spec fn spec_next(event: LoopEvent, load_pending: bool, elapsed_nanos: nat) -> LoopAction {
    match event {
        LoopEvent::FrameStart => if elapsed_nanos < MAIN_LOOP_TIME_NANOS {
            LoopAction::Sleep { nanos: (MAIN_LOOP_TIME_NANOS - elapsed_nanos) as u64 }
        } else {
            LoopAction::Drain
        },
        LoopEvent::Slept => LoopAction::Drain,
        LoopEvent::Drained { events } => if events == 0 && !load_pending {
            LoopAction::Park
        } else {
            LoopAction::Yield
        },
        LoopEvent::Woken => LoopAction::Yield,
    }
}

/// Computes `spec_next`.
pub fn decide(event: LoopEvent, load_pending: bool, elapsed_nanos: u128) -> (action: LoopAction)
    ensures
        action == spec_next(event, load_pending, elapsed_nanos as nat),
{
    match event {
        LoopEvent::FrameStart => {
            if elapsed_nanos < MAIN_LOOP_TIME_NANOS as u128 {
                let nanos: u128 = MAIN_LOOP_TIME_NANOS as u128 - elapsed_nanos;
                LoopAction::Sleep { nanos: nanos as u64 }
            } else {
                LoopAction::Drain
            }
        },
        LoopEvent::Slept => LoopAction::Drain,
        LoopEvent::Drained { events } => {
            if events == 0 && !load_pending {
                LoopAction::Park
            } else {
                LoopAction::Yield
            }
        },
        LoopEvent::Woken => LoopAction::Yield,
    }
}

/// Throttles the main loop to the frame rate and parks it while it is idle.
pub struct EventLoop {
    last_update: Instant,
}

impl EventLoop {
    /// When the last frame was handed out.
    pub closed spec fn last_update(&self) -> Instant {
        self.last_update
    }

    /// A pacer whose first frame starts now.
    pub fn new() -> (pacer: Self) {
        EventLoop { last_update: Instant::now() }
    }

    /// Decides the next step of the frame.
    ///
    /// The clock decides only how long to sleep at the start of a frame. With
    /// an empty input queue and no image waiting to be loaded the pacer parks,
    /// and it parks in no other case. The time of the last frame moves only
    /// when the frame is handed out.
    pub fn next(&mut self, event: LoopEvent, load_pending: bool) -> (action: LoopAction)
        ensures
            exists|elapsed_nanos: nat| action == spec_next(event, load_pending, elapsed_nanos),
            action == LoopAction::Park <==> event == (LoopEvent::Drained { events: 0 })
                && !load_pending,
            action != LoopAction::Yield ==> final(self).last_update() == old(self).last_update(),
    {
        let elapsed_nanos: u128 = Instant::now().saturating_duration_since(
            self.last_update,
        ).as_nanos();
        let action = decide(event, load_pending, elapsed_nanos);
        match action {
            LoopAction::Yield => {
                self.last_update = Instant::now();
            },
            _ => {},
        }
        action
    }
}

} // verus!
