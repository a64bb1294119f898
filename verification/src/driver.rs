//! The application driver: owns the active-scene tag, the scenes and the
//! shared progress, and applies at most one scene transition per frame,
//! strictly at the frame boundary. `EXIT` is terminal: once reached, a
//! frame changes nothing.

use vstd::prelude::*;
use crate::{FrameInput, MainState};
use crate::end::{End, EndStep, end_transition};
use crate::game::Game;
use crate::story::{Story, StoryStep, story_transition};
use crate::timer::{pos_delta, ticked};
use crate::title::{Title, TitleStep, title_transition};
use crate::tween::value_at;

verus! {

/// What the frame that just ran asks of the surrounding program:
/// which scene ran, and its drawing and audio requests.
#[derive(Debug, Clone, Copy)]
pub enum SceneStep {
    /// The application has exited; stop processing frames.
    Halted,
    /// A state with no per-frame work of its own.
    Idle,
    Title(TitleStep),
    Story(StoryStep),
    Game,
    End(EndStep),
}

/// The state named by `r`, or `current` if the scene requested none.
pub open spec fn applied(current: MainState, r: Option<MainState>) -> MainState {
    match r {
        Some(next) => next,
        None => current,
    }
}

/// The whole application: the active-scene tag, the four scenes, and the
/// shared progress.
#[derive(Debug)]
pub struct App {
    pub state: MainState,
    pub title: Title,
    pub story: Story,
    pub game: Game,
    pub end: End,
}

impl App {
    pub open spec fn wf(self) -> bool {
        self.title.wf()
    }

    /// Builds the application at the title screen, every scene fresh.
    pub fn init() -> (a: App)
        ensures
            a.wf(),
            a.state == MainState::TITLE,
            a.title.start,
            a.story.start,
            a.game.ingredients == 0,
            a.game.bonus == 0,
            a.end.show_text1,
            a.end.timer.duration == crate::end::END_REVEAL_MS,
            a.end.timer.elapsed == 0,
    {
        App {
            state: MainState::TITLE,
            title: Title::init(),
            story: Story::init(),
            game: Game::init(),
            end: End::init(),
        }
    }

    /// Runs one frame: the active scene steps by `delta` milliseconds
    /// under this frame's input, and its transition request, if any, is
    /// applied before the next frame. Leaving the story scene with
    /// progress accumulated resets the gameplay progress, exactly once,
    /// before the game becomes active.
    pub fn frame(&mut self, input: &FrameInput, delta: i64) -> (r: SceneStep)
        requires
            old(self).wf(),
        ensures
            final(self).wf(),
            old(self).state == MainState::EXIT ==> {
                &&& *final(self) == *old(self)
                &&& r == SceneStep::Halted
            },
            old(self).state == MainState::RUN ==> {
                &&& *final(self) == *old(self)
                &&& r == SceneStep::Idle
            },
            old(self).state == MainState::TITLE ==> {
                &&& final(self).story == old(self).story
                &&& final(self).game == old(self).game
                &&& final(self).end == old(self).end
                &&& Title::stepped(old(self).title, final(self).title, pos_delta(delta))
                &&& final(self).state == applied(MainState::TITLE, title_transition(*input))
                &&& r == SceneStep::Title(TitleStep {
                    start_music: old(self).title.start,
                    title_offset: value_at(
                        final(self).title.anim_title.keyframes@,
                        final(self).title.anim_title.clock as int) as i64,
                    prompt_offset: value_at(
                        final(self).title.anim_prompt.keyframes@,
                        final(self).title.anim_prompt.clock as int) as i64,
                    angle: value_at(
                        final(self).title.anim_angle.keyframes@,
                        final(self).title.anim_angle.clock as int) as i64,
                    transition: title_transition(*input),
                })
            },
            old(self).state == MainState::STORY ==> {
                &&& final(self).title == old(self).title
                &&& final(self).end == old(self).end
                &&& final(self).story.start == false
                &&& final(self).state == applied(
                    MainState::STORY, story_transition(input.story_completed))
                &&& final(self).game == (if input.story_completed
                        && old(self).game.ingredients > 0 {
                    Game { ingredients: 0, bonus: 0 }
                } else {
                    old(self).game
                })
                &&& r == SceneStep::Story(StoryStep {
                    start_music: old(self).story.start,
                    transition: story_transition(input.story_completed),
                })
            },
            old(self).state == MainState::GAME ==> {
                &&& final(self).title == old(self).title
                &&& final(self).story == old(self).story
                &&& final(self).game == old(self).game
                &&& final(self).end == old(self).end
                &&& final(self).state == applied(MainState::GAME, input.game_request)
                &&& r == SceneStep::Game
            },
            old(self).state == MainState::END ==> {
                &&& final(self).title == old(self).title
                &&& final(self).story == old(self).story
                &&& final(self).game == old(self).game
                &&& End::stepped(old(self).end, final(self).end, delta)
                &&& final(self).state == applied(MainState::END, end_transition(
                    *input,
                    ticked(old(self).end.timer.elapsed, delta)
                        >= old(self).end.timer.duration))
                &&& r == SceneStep::End(EndStep {
                    show_first_text: old(self).end.show_text1,
                    show_prompt: ticked(old(self).end.timer.elapsed, delta)
                        >= old(self).end.timer.duration,
                    transition: end_transition(
                        *input,
                        ticked(old(self).end.timer.elapsed, delta)
                            >= old(self).end.timer.duration),
                })
            },
    {
        match self.state {
            MainState::EXIT => SceneStep::Halted,
            MainState::RUN => SceneStep::Idle,
            MainState::TITLE => {
                let step = self.title.run(input, delta);
                if let Some(next) = step.transition {
                    self.state = next;
                }
                SceneStep::Title(step)
            }
            MainState::STORY => {
                let step = self.story.run(input.story_completed);
                if let Some(next) = step.transition {
                    self.state = next;
                    if self.game.ingredients > 0 {
                        self.game.reset();
                    }
                }
                SceneStep::Story(step)
            }
            MainState::GAME => {
                if let Some(next) = input.game_request {
                    self.state = next;
                }
                SceneStep::Game
            }
            MainState::END => {
                let step = self.end.run(input, delta);
                if let Some(next) = step.transition {
                    self.state = next;
                }
                SceneStep::End(step)
            }
        }
    }
}

} // verus!
