//! The title scene: three ping-pong animation tracks (the hovering title
//! image, the bobbing key prompt, and a slow rotation), a one-shot music
//! start, and the opening transition decision.

use vstd::prelude::*;
use crate::{FrameInput, MainState};
use crate::timer::pos_delta;
use crate::tween::{
    Tween, Keyframe, Repeat, advance, value_at, valid_keyframes,
};
use crate::easing::Easing;

verus! {

/// One tween advanced by `delta`, keyframes and policy untouched.
pub open spec fn tween_advanced(o: Tween, n: Tween, delta: int) -> bool {
    &&& n.keyframes@ == o.keyframes@
    &&& n.ping_pong == o.ping_pong
    &&& n.state() == advance(o.dur(), o.ping_pong, o.state(), delta)
}

/// The transition the title scene requests: any key starts the story,
/// except a quit key, which exits.
pub open spec fn title_transition(input: FrameInput) -> Option<MainState> {
    if input.any_key {
        if input.quit {
            Some(MainState::EXIT)
        } else {
            Some(MainState::STORY)
        }
    } else {
        None
    }
}

/// The track hovering the title image: rises by 8 units and sinks back
/// over one second, three passes back and forth.
pub open spec fn title_track() -> Seq<Keyframe> {
    seq![
        Keyframe { time: 0, value: 0, easing: Easing::EaseOut },
        Keyframe { time: 500, value: 8000, easing: Easing::EaseOut },
        Keyframe { time: 1000, value: 0, easing: Easing::EaseInOut },
    ]
}

/// The track bobbing the key prompt: half the sweep of the title track,
/// two passes back and forth.
pub open spec fn prompt_track() -> Seq<Keyframe> {
    seq![
        Keyframe { time: 0, value: 0, easing: Easing::EaseOut },
        Keyframe { time: 500, value: 4000, easing: Easing::EaseOut },
        Keyframe { time: 1000, value: 0, easing: Easing::EaseIn },
    ]
}

/// The slow rotation track: one full turn (two pi, in thousandths of a
/// radian) per second, ten passes back and forth.
pub open spec fn angle_track() -> Seq<Keyframe> {
    seq![
        Keyframe { time: 0, value: 0, easing: Easing::Linear },
        Keyframe { time: 1000, value: 6283, easing: Easing::Linear },
    ]
}

/// What one title frame asks of the surrounding program: start the music
/// once, draw at the given animated offsets, and maybe leave the scene.
#[derive(Debug, Clone, Copy)]
pub struct TitleStep {
    /// The scene entry music should start this frame (true exactly once).
    pub start_music: bool,
    /// Vertical offset of the title image, in thousandths.
    pub title_offset: i64,
    /// Vertical offset of the key prompt, in thousandths.
    pub prompt_offset: i64,
    /// Rotation angle, in thousandths of a radian.
    pub angle: i64,
    /// The requested next state, if any.
    pub transition: Option<MainState>,
}

/// The title scene.
#[derive(Debug)]
pub struct Title {
    pub anim_title: Tween,
    pub anim_prompt: Tween,
    pub anim_angle: Tween,
    /// One-shot flag: the entry music has not started yet.
    pub start: bool,
}

impl Title {
    pub open spec fn wf(self) -> bool {
        &&& self.anim_title.wf()
        &&& self.anim_prompt.wf()
        &&& self.anim_angle.wf()
    }

    /// The per-frame effect of `run` on the scene's own state.
    pub open spec fn stepped(o: Title, n: Title, delta: int) -> bool {
        &&& n.start == false
        &&& tween_advanced(o.anim_title, n.anim_title, delta)
        &&& tween_advanced(o.anim_prompt, n.anim_prompt, delta)
        &&& tween_advanced(o.anim_angle, n.anim_angle, delta)
    }

    /// Builds the scene with its three fixed tracks, music pending.
    pub fn init() -> (t: Title)
        ensures
            t.wf(),
            t.start,
            t.anim_title.keyframes@ == title_track(),
            t.anim_title.ping_pong && t.anim_title.forward && t.anim_title.clock == 0,
            t.anim_title.repeats_left == Repeat::Finite(3u32),
            t.anim_prompt.keyframes@ == prompt_track(),
            t.anim_prompt.ping_pong && t.anim_prompt.forward && t.anim_prompt.clock == 0,
            t.anim_prompt.repeats_left == Repeat::Finite(2u32),
            t.anim_angle.keyframes@ == angle_track(),
            t.anim_angle.ping_pong && t.anim_angle.forward && t.anim_angle.clock == 0,
            t.anim_angle.repeats_left == Repeat::Finite(10u32),
    {
        let mut k_title: Vec<Keyframe> = Vec::new();
        k_title.push(Keyframe::new(0, 0, Easing::EaseOut));
        k_title.push(Keyframe::new(8000, 500, Easing::EaseOut));
        k_title.push(Keyframe::new(0, 1000, Easing::EaseInOut));
        assert(k_title@ =~= title_track());
        assert(valid_keyframes(title_track()));
        let anim_title = Tween::from_keyframes(k_title, 0, Repeat::Finite(3), true).unwrap();

        let mut k_prompt: Vec<Keyframe> = Vec::new();
        k_prompt.push(Keyframe::new(0, 0, Easing::EaseOut));
        k_prompt.push(Keyframe::new(4000, 500, Easing::EaseOut));
        k_prompt.push(Keyframe::new(0, 1000, Easing::EaseIn));
        assert(k_prompt@ =~= prompt_track());
        assert(valid_keyframes(prompt_track()));
        let anim_prompt = Tween::from_keyframes(k_prompt, 0, Repeat::Finite(2), true).unwrap();

        let mut k_angle: Vec<Keyframe> = Vec::new();
        k_angle.push(Keyframe::new(0, 0, Easing::Linear));
        k_angle.push(Keyframe::new(6283, 1000, Easing::Linear));
        assert(k_angle@ =~= angle_track());
        assert(valid_keyframes(angle_track()));
        let anim_angle = Tween::from_keyframes(k_angle, 0, Repeat::Finite(10), true).unwrap();

        Title { anim_title, anim_prompt, anim_angle, start: true }
    }

    /// One frame: advance the three tracks, report the offsets to draw
    /// at, start the music on the first frame only, and decide the
    /// transition from this frame's input.
    pub fn run(&mut self, input: &FrameInput, delta: i64) -> (r: TitleStep)
        requires
            old(self).wf(),
        ensures
            final(self).wf(),
            Self::stepped(*old(self), *final(self), pos_delta(delta)),
            r.start_music == old(self).start,
            r.title_offset == value_at(
                final(self).anim_title.keyframes@, final(self).anim_title.clock as int),
            r.prompt_offset == value_at(
                final(self).anim_prompt.keyframes@, final(self).anim_prompt.clock as int),
            r.angle == value_at(
                final(self).anim_angle.keyframes@, final(self).anim_angle.clock as int),
            r.transition == title_transition(*input),
    {
        let start_music = self.start;
        self.start = false;
        let d: u64 = if delta <= 0 {
            0
        } else {
            delta as u64
        };
        self.anim_title.update(d);
        self.anim_prompt.update(d);
        self.anim_angle.update(d);
        let title_offset = self.anim_title.value();
        let prompt_offset = self.anim_prompt.value();
        let angle = self.anim_angle.value();
        let transition = if input.any_key {
            if input.quit {
                Some(MainState::EXIT)
            } else {
                Some(MainState::STORY)
            }
        } else {
            None
        };
        TitleStep { start_music, title_offset, prompt_offset, angle, transition }
    }
}

} // verus!
