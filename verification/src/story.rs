//! The story scene: plays its entry music once and hands control to the
//! gameplay scene when the story has been completed. The completion
//! signal itself (text fully revealed and acknowledged) is an event of
//! the frame, supplied by the surrounding program.

use vstd::prelude::*;
use crate::MainState;

verus! {

/// The transition the story scene requests: completing the story starts
/// the game.
pub open spec fn story_transition(completed: bool) -> Option<MainState> {
    if completed {
        Some(MainState::GAME)
    } else {
        None
    }
}

/// What one story frame asks of the surrounding program.
#[derive(Debug, Clone, Copy)]
pub struct StoryStep {
    /// The scene entry music should start this frame (true exactly once).
    pub start_music: bool,
    /// The requested next state, if any.
    pub transition: Option<MainState>,
}

/// The story scene.
#[derive(Debug, Clone, Copy)]
pub struct Story {
    /// One-shot flag: the entry music has not started yet.
    pub start: bool,
}

impl Story {
    pub fn init() -> (s: Story)
        ensures
            s.start,
    {
        Story { start: true }
    }

    /// One frame: start the music on the first frame only, and request
    /// the game once the story is completed.
    pub fn run(&mut self, completed: bool) -> (r: StoryStep)
        ensures
            final(self).start == false,
            r.start_music == old(self).start,
            r.transition == story_transition(completed),
    {
        let start_music = self.start;
        self.start = false;
        let transition = if completed {
            Some(MainState::GAME)
        } else {
            None
        };
        StoryStep { start_music, transition }
    }
}

} // verus!
