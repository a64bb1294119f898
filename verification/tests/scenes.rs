//! Tests of the scenes and the application driver's state machine.

use vollmond::driver::{App, SceneStep};
use vollmond::end::End;
use vollmond::game::Game;
use vollmond::story::Story;
use vollmond::title::Title;
use vollmond::{FrameInput, MainState};

fn no_input() -> FrameInput {
    FrameInput { any_key: false, quit: false, story_completed: false, game_request: None }
}

fn key_press() -> FrameInput {
    FrameInput { any_key: true, quit: false, story_completed: false, game_request: None }
}

fn quit_press() -> FrameInput {
    FrameInput { any_key: true, quit: true, story_completed: false, game_request: None }
}

#[test]
fn title_quit_key_exits() {
    let mut app = App::init();
    assert_eq!(app.state, MainState::TITLE);
    app.frame(&quit_press(), 16);
    assert_eq!(app.state, MainState::EXIT);
}

#[test]
fn title_other_key_starts_story() {
    let mut app = App::init();
    app.frame(&key_press(), 16);
    assert_eq!(app.state, MainState::STORY);
}

#[test]
fn title_no_key_stays() {
    let mut app = App::init();
    app.frame(&no_input(), 16);
    assert_eq!(app.state, MainState::TITLE);
}

#[test]
fn title_music_starts_exactly_once() {
    let mut title = Title::init();
    let step = title.run(&no_input(), 16);
    assert!(step.start_music);
    let step = title.run(&no_input(), 16);
    assert!(!step.start_music);
}

#[test]
fn title_animations_advance_each_frame() {
    let mut title = Title::init();
    let step = title.run(&no_input(), 500);
    assert_eq!(step.title_offset, 8000);
    assert_eq!(step.prompt_offset, 4000);
    assert_eq!(step.angle, 3141);
}

#[test]
fn story_completion_with_no_progress_keeps_game_untouched() {
    let mut app = App::init();
    app.frame(&key_press(), 16);
    assert_eq!(app.state, MainState::STORY);
    app.game.bonus = 7;
    let input = FrameInput { story_completed: true, ..no_input() };
    app.frame(&input, 16);
    assert_eq!(app.state, MainState::GAME);
    // No reset happened: the bonus survives.
    assert_eq!(app.game.bonus, 7);
}

#[test]
fn story_completion_with_progress_resets_game_once() {
    let mut app = App::init();
    app.frame(&key_press(), 16);
    app.game.ingredients = 2;
    app.game.bonus = 7;
    let input = FrameInput { story_completed: true, ..no_input() };
    app.frame(&input, 16);
    assert_eq!(app.state, MainState::GAME);
    assert_eq!(app.game.ingredients, 0);
    assert_eq!(app.game.bonus, 0);
}

#[test]
fn story_without_completion_stays() {
    let mut app = App::init();
    app.frame(&key_press(), 16);
    app.frame(&no_input(), 16);
    assert_eq!(app.state, MainState::STORY);
}

#[test]
fn story_music_starts_exactly_once() {
    let mut story = Story::init();
    let step = story.run(false);
    assert!(step.start_music);
    let step = story.run(false);
    assert!(!step.start_music);
}

#[test]
fn game_request_is_applied() {
    let mut app = App::init();
    app.state = MainState::GAME;
    let input = FrameInput { game_request: Some(MainState::END), ..no_input() };
    let step = app.frame(&input, 16);
    assert!(matches!(step, SceneStep::Game));
    assert_eq!(app.state, MainState::END);
}

#[test]
fn game_without_request_stays() {
    let mut app = App::init();
    app.state = MainState::GAME;
    app.frame(&no_input(), 16);
    assert_eq!(app.state, MainState::GAME);
}

#[test]
fn game_progress_accumulates() {
    let mut game = Game::init();
    game.add_ingredient();
    game.add_ingredient();
    game.add_bonus(5);
    assert_eq!(game.ingredients, 2);
    assert_eq!(game.bonus, 5);
    game.reset();
    assert_eq!(game.ingredients, 0);
    assert_eq!(game.bonus, 0);
}

#[test]
fn end_prompt_reveals_at_three_seconds() {
    // A 3-second reveal: no prompt at 2.9 s, prompt at 3.0 s.
    let mut end = End::init();
    let step = end.run(&no_input(), 2900);
    assert!(!step.show_prompt);
    let step = end.run(&no_input(), 100);
    assert!(step.show_prompt);
}

#[test]
fn end_prompt_via_driver() {
    let mut app = App::init();
    app.state = MainState::END;
    let step = app.frame(&no_input(), 2900);
    match step {
        SceneStep::End(s) => assert!(!s.show_prompt),
        _ => panic!("expected the ending scene to run"),
    }
    let step = app.frame(&no_input(), 100);
    match step {
        SceneStep::End(s) => assert!(s.show_prompt),
        _ => panic!("expected the ending scene to run"),
    }
    assert_eq!(app.state, MainState::END);
}

#[test]
fn end_quit_key_exits_before_reveal() {
    let mut app = App::init();
    app.state = MainState::END;
    app.frame(&quit_press(), 16);
    assert_eq!(app.state, MainState::EXIT);
}

#[test]
fn end_plain_key_exits_only_after_reveal() {
    let mut app = App::init();
    app.state = MainState::END;
    app.frame(&key_press(), 2900);
    assert_eq!(app.state, MainState::END);
    app.frame(&key_press(), 100);
    assert_eq!(app.state, MainState::EXIT);
}

#[test]
fn end_shows_first_text_by_default() {
    let mut end = End::init();
    let step = end.run(&no_input(), 16);
    assert!(step.show_first_text);
}

#[test]
fn exit_is_terminal() {
    let mut app = App::init();
    app.frame(&quit_press(), 16);
    assert_eq!(app.state, MainState::EXIT);
    let step = app.frame(&key_press(), 16);
    assert!(matches!(step, SceneStep::Halted));
    assert_eq!(app.state, MainState::EXIT);
}

#[test]
fn run_state_is_idle() {
    let mut app = App::init();
    app.state = MainState::RUN;
    let step = app.frame(&key_press(), 16);
    assert!(matches!(step, SceneStep::Idle));
    assert_eq!(app.state, MainState::RUN);
}
