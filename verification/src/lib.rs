//! Scene state machine and keyframe/tween animation engine.
//!
//! Time is measured in integer milliseconds; animated values are carried in
//! thousandths (a value of 1.5 is stored as 1500), so every computation is
//! exact integer arithmetic.

use vstd::prelude::*;

pub mod driver;
pub mod easing;
pub mod end;
pub mod game;
pub mod story;
pub mod timer;
pub mod title;
pub mod tween;

verus! {

/// The discrete tag naming the active scene of the application.
#[derive(Debug, Clone, Copy, PartialEq, Eq, Hash, Structural)]
pub enum MainState {
    TITLE,
    STORY,
    GAME,
    EXIT,
    RUN,
    END,
}

/// The discrete events of one frame, polled once by the surrounding
/// program and handed to the scenes.
#[derive(Debug, Clone, Copy)]
pub struct FrameInput {
    /// Some key was pressed this frame.
    pub any_key: bool,
    /// The pressed key was one of the quit keys.
    pub quit: bool,
    /// The story scene reported that the story text has been completed.
    pub story_completed: bool,
    /// Transition requested by the gameplay scene, whose rules live
    /// outside this library.
    pub game_request: Option<MainState>,
}

} // verus!
