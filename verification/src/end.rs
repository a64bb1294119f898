//! The ending scene: shows the closing text, reveals the "press any key"
//! prompt once a three second timer has run out, and exits on a key
//! press — immediately for a quit key, otherwise only after the reveal.

use vstd::prelude::*;
use crate::{FrameInput, MainState};
use crate::timer::{Timer, ticked};

verus! {

/// How long the ending text is shown before the prompt appears, in
/// milliseconds.
pub const END_REVEAL_MS: u64 = 3000;

/// The transition the ending scene requests: a quit key exits at once;
/// any other key exits only after the reveal timer has finished.
pub open spec fn end_transition(input: FrameInput, timer_finished: bool) -> Option<MainState> {
    if input.any_key {
        if input.quit {
            Some(MainState::EXIT)
        } else if timer_finished {
            Some(MainState::EXIT)
        } else {
            None
        }
    } else {
        None
    }
}

/// What one ending frame asks of the surrounding program.
#[derive(Debug, Clone, Copy)]
pub struct EndStep {
    /// Whether the first of the two closing texts is the one to draw.
    pub show_first_text: bool,
    /// Whether the "press any key" prompt is revealed this frame.
    pub show_prompt: bool,
    /// The requested next state, if any.
    pub transition: Option<MainState>,
}

/// The ending scene.
#[derive(Debug, Clone, Copy)]
pub struct End {
    /// Which of the two closing texts is shown.
    pub show_text1: bool,
    /// Gates the "press any key" prompt and the ordinary exit.
    pub timer: Timer,
}

impl End {
    /// The per-frame effect of `run` on the scene's own state.
    pub open spec fn stepped(o: End, n: End, delta: i64) -> bool {
        &&& n.show_text1 == o.show_text1
        &&& n.timer.duration == o.timer.duration
        &&& n.timer.elapsed == ticked(o.timer.elapsed, delta)
    }

    pub fn init() -> (e: End)
        ensures
            e.show_text1,
            e.timer.duration == END_REVEAL_MS,
            e.timer.elapsed == 0,
    {
        End { show_text1: true, timer: Timer::new(END_REVEAL_MS) }
    }

    /// One frame: advance the reveal timer, report what to draw, and
    /// decide the transition from this frame's input.
    pub fn run(&mut self, input: &FrameInput, delta: i64) -> (r: EndStep)
        ensures
            Self::stepped(*old(self), *final(self), delta),
            r.show_first_text == old(self).show_text1,
            r.show_prompt == (final(self).timer.elapsed >= final(self).timer.duration),
            r.transition == end_transition(
                *input, final(self).timer.elapsed >= final(self).timer.duration),
    {
        self.timer.tick(delta);
        let finished = self.timer.finished();
        let transition = if input.any_key {
            if input.quit {
                Some(MainState::EXIT)
            } else if finished {
                Some(MainState::EXIT)
            } else {
                None
            }
        } else {
            None
        };
        EndStep { show_first_text: self.show_text1, show_prompt: finished, transition }
    }
}

} // verus!
