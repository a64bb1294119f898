//! Keyframe tracks: piecewise eased interpolation with repeat, loop and
//! ping-pong playback.
//!
//! A track is an ordered sequence of keyframes. Times are integer
//! milliseconds; values are carried in thousandths. The playback clock
//! always stays within `[0, duration]`, where the duration is the last
//! keyframe's time. Advancing past an end either wraps (loop), reverses
//! (ping-pong) or, once the repeat budget is spent, clamps to the terminal
//! position and holds.

use vstd::prelude::*;
use vstd::arithmetic::div_mod::{
    lemma_div_is_ordered, lemma_div_is_ordered_by_denominator, lemma_div_by_multiple,
};
use crate::easing::{Easing, SCALE, eased, apply, lemma_eased_endpoints};

verus! {

/// Largest keyframe time accepted, in milliseconds.
pub const MAX_TIME: u64 = 1_000_000_000_000;

/// Largest magnitude of a keyframe value, in thousandths.
pub const MAX_VALUE: i64 = 1_000_000_000;

/// One point of a track: the value reached at `time`, and the easing
/// shaping the interpolation into it from the previous keyframe.
#[derive(Debug, Clone, Copy)]
pub struct Keyframe {
    pub time: u64,
    pub value: i64,
    pub easing: Easing,
}

impl Keyframe {
    /// Builds a keyframe, value first, as tracks are usually written.
    pub fn new(value: i64, time: u64, easing: Easing) -> (k: Keyframe)
        ensures
            k.time == time,
            k.value == value,
            k.easing == easing,
    {
        Keyframe { time, value, easing }
    }
}

/// How often a track plays: a finite number of passes, or forever.
/// `Finite(0)` marks a track that has stopped.
#[derive(Debug, Clone, Copy, PartialEq, Eq, Structural)]
pub enum Repeat {
    Finite(u32),
    Infinite,
}

/// The playback portion of a track's state, abstracted from the keyframes:
/// the clock within the current pass, the direction, and the passes left.
pub ghost struct PlayState {
    pub clock: int,
    pub forward: bool,
    pub left: Repeat,
}

/// A stopped track holds its position forever.
pub open spec fn is_stopped(left: Repeat) -> bool {
    left == Repeat::Finite(0u32)
}

/// One pass consumed.
pub open spec fn spend(left: Repeat) -> Repeat {
    match left {
        Repeat::Finite(n) => Repeat::Finite((n - 1) as u32),
        Repeat::Infinite => Repeat::Infinite,
    }
}

/// The playback state is consistent with a track of duration `dur` and
/// ping-pong flag `ping`: the clock stays in range, a running forward
/// pass has room ahead, a running backward pass has room behind, and only
/// ping-pong tracks ever run backward.
pub open spec fn play_inv(dur: int, ping: bool, st: PlayState) -> bool {
    &&& 0 <= st.clock <= dur
    &&& (!is_stopped(st.left) && st.forward ==> st.clock < dur)
    &&& (!is_stopped(st.left) && !st.forward ==> st.clock > 0)
    &&& (!ping ==> st.forward)
}

/// The playback state after advancing by `delta` milliseconds: the clock
/// moves along the current pass; reaching an end of the track completes
/// the pass and either stops (repeat budget spent), reverses (ping-pong)
/// or wraps to the start (loop), carrying the overshoot into the next
/// pass.
pub open spec fn advance(dur: int, ping: bool, st: PlayState, delta: int) -> PlayState
    decreases delta
    when dur > 0 && play_inv(dur, ping, st) && delta >= 0
{
    if is_stopped(st.left) || delta == 0 {
        st
    } else if st.forward {
        let room = dur - st.clock;
        if delta < room {
            PlayState { clock: st.clock + delta, forward: st.forward, left: st.left }
        } else if st.left == Repeat::Finite(1u32) {
            PlayState { clock: dur, forward: true, left: Repeat::Finite(0u32) }
        } else if ping {
            advance(dur, ping, PlayState { clock: dur, forward: false, left: spend(st.left) }, delta - room)
        } else {
            advance(dur, ping, PlayState { clock: 0, forward: true, left: spend(st.left) }, delta - room)
        }
    } else {
        let room = st.clock;
        if delta < room {
            PlayState { clock: st.clock - delta, forward: st.forward, left: st.left }
        } else if st.left == Repeat::Finite(1u32) {
            PlayState { clock: 0, forward: false, left: Repeat::Finite(0u32) }
        } else {
            advance(dur, ping, PlayState { clock: 0, forward: true, left: spend(st.left) }, delta - room)
        }
    }
}

/// Keyframe times are strictly increasing.
pub open spec fn times_sorted(s: Seq<Keyframe>) -> bool {
    forall|i: int, j: int| 0 <= i < j < s.len() ==> s[i].time < s[j].time
}

/// Every keyframe time is at most `MAX_TIME`.
pub open spec fn times_in_range(s: Seq<Keyframe>) -> bool {
    forall|i: int| 0 <= i < s.len() ==> s[i].time <= MAX_TIME
}

/// Every keyframe value has magnitude at most `MAX_VALUE`.
pub open spec fn values_in_range(s: Seq<Keyframe>) -> bool {
    forall|i: int| 0 <= i < s.len() ==> -MAX_VALUE <= #[trigger] s[i].value <= MAX_VALUE
}

/// A well-formed keyframe list: at least two points, strictly increasing
/// times, and times and values within the representable bounds.
pub open spec fn valid_keyframes(s: Seq<Keyframe>) -> bool {
    &&& s.len() >= 2
    &&& times_sorted(s)
    &&& times_in_range(s)
    &&& values_in_range(s)
}

/// Linear interpolation from `a` to `b` at eased progress `p` (in
/// thousandths): exactly `a` at 0 and exactly `b` at `SCALE`.
pub open spec fn lerp(a: int, b: int, p: int) -> int {
    if b >= a {
        a + (b - a) * p / (SCALE as int)
    } else {
        a - (a - b) * p / (SCALE as int)
    }
}

/// The index of the segment bracketing clock `c`, scanning from `i`:
/// the last index whose keyframe time is at most `c`, capped at the
/// second-to-last keyframe.
pub open spec fn seg_from(s: Seq<Keyframe>, c: int, i: int) -> int
    decreases s.len() - i
    when 0 <= i < s.len()
{
    if i + 2 >= s.len() {
        i
    } else if c < s[i + 1].time {
        i
    } else {
        seg_from(s, c, i + 1)
    }
}

/// The eased interpolated value between keyframes `a` and `b` at clock
/// `c`: local progress is eased by the easing of the keyframe being
/// approached.
pub open spec fn segment_value(a: Keyframe, b: Keyframe, c: int) -> int {
    let p = (c - a.time) * (SCALE as int) / (b.time as int - a.time as int);
    lerp(a.value as int, b.value as int, eased(b.easing, p))
}

/// The track's reported value at clock `c`: the first keyframe's value
/// before the first time, the last keyframe's value at or past the last
/// time, and the eased interpolation over the bracketing segment between.
pub open spec fn value_at(s: Seq<Keyframe>, c: int) -> int {
    if c <= s[0].time {
        s[0].value as int
    } else if c >= s.last().time {
        s.last().value as int
    } else {
        let i = seg_from(s, c, 0);
        segment_value(s[i], s[i + 1], c)
    }
}

/// `seg_from` scanning from `j` finds segment `i` whenever `i` brackets
/// `c` and every keyframe from `j` up to `i` lies at or before `c`.
proof fn lemma_seg_from_locates(s: Seq<Keyframe>, c: int, j: int, i: int)
    requires
        valid_keyframes(s),
        0 <= j <= i,
        i < s.len() - 1,
        s[i].time <= c,
        c < s[i + 1].time,
        s[j].time <= c,
    ensures
        seg_from(s, c, j) == i,
    decreases i - j,
{
    if j < i {
        assert(s[j + 1].time <= s[i].time);
        lemma_seg_from_locates(s, c, j + 1, i);
    }
}

/// Boundary exactness: on a valid track the reported value at a
/// keyframe's own time is exactly that keyframe's value.
pub proof fn lemma_keyframe_boundary_exact(s: Seq<Keyframe>, i: int)
    requires
        valid_keyframes(s),
        0 <= i < s.len(),
    ensures
        value_at(s, s[i].time as int) == s[i].value,
{
    let c = s[i].time as int;
    if i == 0 {
    } else if i == s.len() - 1 {
        assert(s[0].time < s[i].time);
    } else {
        assert(s[0].time < s[i].time);
        assert(s[i].time < s[s.len() - 1].time);
        lemma_seg_from_locates(s, c, 0, i);
        let a = s[i];
        let b = s[i + 1];
        let den = b.time as int - a.time as int;
        assert((c - a.time) * (SCALE as int) == 0);
        lemma_div_by_multiple(0, den);
        assert(0 * den == 0);
        assert((c - a.time) * (SCALE as int) / den == 0);
        lemma_eased_endpoints(b.easing);
        lemma_div_by_multiple(0, SCALE as int);
        assert(segment_value(a, b, c) == a.value);
    }
}

/// Terminal hold: a fresh loop track with `count` repeats, advanced by
/// exactly `count` track durations, stops clamped at the end; advancing
/// it further changes nothing, so the reported value holds.
pub proof fn lemma_terminal_hold(dur: int, count: u32, extra: int)
    requires
        dur > 0,
        count >= 1,
        extra >= 0,
    ensures
        ({
            let start = PlayState { clock: 0, forward: true, left: Repeat::Finite(count) };
            let done = advance(dur, false, start, count * dur);
            &&& done == (PlayState { clock: dur, forward: true, left: Repeat::Finite(0u32) })
            &&& advance(dur, false, done, extra) == done
        }),
    decreases count,
{
    let start = PlayState { clock: 0, forward: true, left: Repeat::Finite(count) };
    assert(count * dur >= 1 * dur) by (nonlinear_arith)
        requires dur > 0, count >= 1;
    if count == 1 {
        assert(1 * dur == dur);
    } else {
        assert(count * dur - dur == (count - 1) * dur) by (nonlinear_arith);
        lemma_terminal_hold(dur, (count - 1) as u32, extra);
    }
}

/// Ping-pong round trip: with enough repeats left, one full forward pass
/// followed by one full backward pass returns the clock to where it
/// started.
pub proof fn lemma_ping_pong_round_trip(dur: int, st: PlayState)
    requires
        dur > 0,
        play_inv(dur, true, st),
        st.forward,
        !is_stopped(st.left),
        match st.left {
            Repeat::Finite(n) => n >= 3 || (st.clock == 0 && n >= 2),
            Repeat::Infinite => true,
        },
    ensures
        advance(dur, true, advance(dur, true, st, dur), dur).clock == st.clock,
{
    reveal_with_fuel(advance, 4);
    let c0 = st.clock;
    let mid = advance(dur, true, st, dur);
    assert(mid == PlayState { clock: dur - c0, forward: false, left: spend(st.left) });
    assert(advance(dur, true, mid, dur).clock == c0);
}

/// The starting state that `from_keyframes` builds for a ping-pong track
/// with `start` as the starting repeat index is exactly the state of a
/// fresh track advanced by `start` whole passes: an even index stands at
/// the near end moving forward, an odd index at the far end moving back.
pub proof fn lemma_start_index_is_elapsed_passes(dur: int, total: u32, start: u32)
    requires
        dur > 0,
        start < total,
    ensures
        advance(
            dur,
            true,
            PlayState { clock: 0, forward: true, left: Repeat::Finite(total) },
            start * dur,
        ) == (PlayState {
            clock: if start % 2 == 0 { 0int } else { dur },
            forward: start % 2 == 0,
            left: Repeat::Finite((total - start) as u32),
        }),
    decreases start,
{
    reveal_with_fuel(advance, 3);
    let fresh = PlayState { clock: 0, forward: true, left: Repeat::Finite(total) };
    if start == 0 {
        assert(start * dur == 0) by (nonlinear_arith)
            requires start == 0;
    } else if start == 1 {
        assert(1 * dur == dur);
    } else {
        assert(start * dur - dur - dur == (start - 2) * dur) by (nonlinear_arith);
        assert(start * dur >= 2 * dur) by (nonlinear_arith)
            requires dur > 0, start >= 2;
        let back = PlayState {
            clock: dur,
            forward: false,
            left: Repeat::Finite((total - 1) as u32),
        };
        assert(advance(dur, true, fresh, start * dur)
            == advance(dur, true, back, start * dur - dur));
        let fresh2 = PlayState {
            clock: 0,
            forward: true,
            left: Repeat::Finite((total - 2) as u32),
        };
        assert(advance(dur, true, back, start * dur - dur)
            == advance(dur, true, fresh2, (start - 2) * dur));
        lemma_start_index_is_elapsed_passes(dur, (total - 2) as u32, (start - 2) as u32);
        assert((start - 2) % 2 == start % 2);
    }
}

/// Why a keyframe list was rejected at construction.
#[derive(Debug, Clone, Copy, PartialEq, Eq, Structural)]
pub enum TweenError {
    /// Fewer than two keyframes define no segment.
    TooFewKeyframes,
    /// Keyframe times must be strictly increasing.
    TimesNotIncreasing,
    /// A keyframe time exceeds `MAX_TIME`.
    TimeOutOfRange,
    /// A keyframe value exceeds `MAX_VALUE` in magnitude.
    ValueOutOfRange,
    /// The starting repeat index must leave at least one pass to play.
    StartIndexOutOfRange,
}

/// A keyframe track with its playback state.
#[derive(Debug)]
pub struct Tween {
    pub keyframes: Vec<Keyframe>,
    pub clock: u64,
    pub forward: bool,
    pub repeats_left: Repeat,
    pub ping_pong: bool,
}

impl Tween {
    /// The track duration: the last keyframe's time.
    pub open spec fn dur(self) -> int {
        self.keyframes@.last().time as int
    }

    /// The playback portion of the state.
    pub open spec fn state(self) -> PlayState {
        PlayState { clock: self.clock as int, forward: self.forward, left: self.repeats_left }
    }

    /// Well-formed track: valid keyframes and a consistent playback state.
    pub open spec fn wf(self) -> bool {
        &&& valid_keyframes(self.keyframes@)
        &&& self.dur() > 0
        &&& play_inv(self.dur(), self.ping_pong, self.state())
    }

    /// Whether the starting repeat index leaves passes to play.
    pub open spec fn start_index_ok(start_repeat_index: u32, total_repeats: Repeat) -> bool {
        match total_repeats {
            Repeat::Finite(n) => start_repeat_index < n,
            Repeat::Infinite => true,
        }
    }

    /// Builds a track from a keyframe list, or rejects a malformed one.
    ///
    /// `start_repeat_index` starts playback as if that many passes had
    /// already completed, which desynchronizes ping-pong tracks that share
    /// one shape: an odd index starts on a backward pass at the far end.
    pub fn from_keyframes(
        keyframes: Vec<Keyframe>,
        start_repeat_index: u32,
        total_repeats: Repeat,
        ping_pong: bool,
    ) -> (r: Result<Tween, TweenError>)
        ensures
            r is Ok <==> (valid_keyframes(keyframes@)
                && Self::start_index_ok(start_repeat_index, total_repeats)),
            r == Result::<Tween, TweenError>::Err(TweenError::TooFewKeyframes)
                <==> keyframes@.len() < 2,
            r == Result::<Tween, TweenError>::Err(TweenError::TimesNotIncreasing)
                <==> (keyframes@.len() >= 2 && !times_sorted(keyframes@)),
            r == Result::<Tween, TweenError>::Err(TweenError::TimeOutOfRange)
                <==> (keyframes@.len() >= 2 && times_sorted(keyframes@)
                    && !times_in_range(keyframes@)),
            r == Result::<Tween, TweenError>::Err(TweenError::ValueOutOfRange)
                <==> (keyframes@.len() >= 2 && times_sorted(keyframes@)
                    && times_in_range(keyframes@) && !values_in_range(keyframes@)),
            r == Result::<Tween, TweenError>::Err(TweenError::StartIndexOutOfRange)
                <==> (valid_keyframes(keyframes@)
                    && !Self::start_index_ok(start_repeat_index, total_repeats)),
            r matches Ok(t) ==> {
                &&& t.wf()
                &&& t.keyframes@ == keyframes@
                &&& t.ping_pong == ping_pong
                &&& t.forward == (!ping_pong || start_repeat_index % 2 == 0)
                &&& t.clock == (if !ping_pong || start_repeat_index % 2 == 0 { 0int } else { t.dur() })
                &&& t.repeats_left == (match total_repeats {
                    Repeat::Finite(n) => Repeat::Finite((n - start_repeat_index) as u32),
                    Repeat::Infinite => Repeat::Infinite,
                })
            },
    {
        let n = keyframes.len();
        if n < 2 {
            return Err(TweenError::TooFewKeyframes);
        }
        let mut i: usize = 0;
        while i + 1 < n
            invariant
                n == keyframes@.len(),
                2 <= n,
                i < n,
                forall|p: int, q: int| 0 <= p < q <= i ==> keyframes@[p].time < keyframes@[q].time,
            decreases n - i,
        {
            if keyframes[i].time >= keyframes[i + 1].time {
                return Err(TweenError::TimesNotIncreasing);
            }
            i = i + 1;
        }
        let mut j: usize = 0;
        while j < n
            invariant
                n == keyframes@.len(),
                2 <= n,
                j <= n,
                times_sorted(keyframes@),
                forall|p: int| 0 <= p < j ==> keyframes@[p].time <= MAX_TIME,
            decreases n - j,
        {
            if keyframes[j].time > MAX_TIME {
                return Err(TweenError::TimeOutOfRange);
            }
            j = j + 1;
        }
        let mut m: usize = 0;
        while m < n
            invariant
                n == keyframes@.len(),
                2 <= n,
                m <= n,
                times_sorted(keyframes@),
                times_in_range(keyframes@),
                forall|p: int| 0 <= p < m ==> -MAX_VALUE <= #[trigger] keyframes@[p].value <= MAX_VALUE,
            decreases n - m,
        {
            if keyframes[m].value > MAX_VALUE || keyframes[m].value < -MAX_VALUE {
                return Err(TweenError::ValueOutOfRange);
            }
            m = m + 1;
        }
        let repeats_left = match total_repeats {
            Repeat::Finite(total) => {
                if start_repeat_index >= total {
                    return Err(TweenError::StartIndexOutOfRange);
                }
                Repeat::Finite(total - start_repeat_index)
            }
            Repeat::Infinite => Repeat::Infinite,
        };
        let forward = !ping_pong || start_repeat_index % 2 == 0;
        let clock: u64 = if forward {
            0
        } else {
            keyframes[n - 1].time
        };
        assert(keyframes@[0].time < keyframes@[n - 1].time);
        Ok(Tween { keyframes, clock, forward, repeats_left, ping_pong })
    }

    /// Exact integer interpolation between two bounded values.
    fn lerp_exec(a: i64, b: i64, p: i64) -> (r: i64)
        requires
            -MAX_VALUE <= a <= MAX_VALUE,
            -MAX_VALUE <= b <= MAX_VALUE,
            0 <= p <= SCALE,
        ensures
            r == lerp(a as int, b as int, p as int),
    {
        proof {
            let d = if b >= a { b as int - a } else { a as int - b };
            assert(0 <= d * p) by (nonlinear_arith)
                requires 0 <= d, 0 <= p;
            assert(d * p <= d * (SCALE as int)) by (nonlinear_arith)
                requires 0 <= d, p <= SCALE;
            lemma_div_is_ordered(0, d * p, SCALE as int);
            lemma_div_is_ordered(d * p, d * (SCALE as int), SCALE as int);
            lemma_div_by_multiple(d, SCALE as int);
        }
        if b >= a {
            a + (b - a) * p / SCALE
        } else {
            a - (a - b) * p / SCALE
        }
    }

    /// The current interpolated value: a pure read at the current clock.
    pub fn value(&self) -> (r: i64)
        requires
            self.wf(),
        ensures
            r == value_at(self.keyframes@, self.clock as int),
    {
        let ghost s = self.keyframes@;
        let n = self.keyframes.len();
        let c = self.clock;
        if c <= self.keyframes[0].time {
            return self.keyframes[0].value;
        }
        if c >= self.keyframes[n - 1].time {
            return self.keyframes[n - 1].value;
        }
        let mut i: usize = 0;
        while i + 2 < n && self.keyframes[i + 1].time <= c
            invariant
                self.wf(),
                s == self.keyframes@,
                n == s.len(),
                c == self.clock,
                s[0].time < c < s[n - 1].time,
                i + 2 <= n,
                s[i as int].time <= c,
                seg_from(s, c as int, 0) == seg_from(s, c as int, i as int),
            decreases n - i,
        {
            i = i + 1;
        }
        let a = self.keyframes[i];
        let b = self.keyframes[i + 1];
        assert(seg_from(s, c as int, i as int) == i);
        assert(s[n - 1].time <= MAX_TIME);
        assert(a.time <= c <= MAX_TIME);
        let diff: u64 = c - a.time;
        assert(diff * (SCALE as u64) <= MAX_TIME * (SCALE as u64)) by (nonlinear_arith)
            requires diff <= MAX_TIME;
        let num: u64 = diff * (SCALE as u64);
        let den: u64 = b.time - a.time;
        proof {
            lemma_div_is_ordered_by_denominator(num as int, 1, den as int);
        }
        let p64: u64 = num / den;
        let p: i64 = p64 as i64;
        let pe: i64 = apply(b.easing, p);
        Self::lerp_exec(a.value, b.value, pe)
    }

    /// Advances the playback clock by `delta` milliseconds, completing as
    /// many passes as the delta covers, per the repeat and ping-pong
    /// policy of `advance`.
    pub fn update(&mut self, delta: u64)
        requires
            old(self).wf(),
        ensures
            final(self).wf(),
            final(self).keyframes@ == old(self).keyframes@,
            final(self).ping_pong == old(self).ping_pong,
            final(self).state() == advance(
                old(self).dur(), old(self).ping_pong, old(self).state(), delta as int),
    {
        let ghost s0 = self.keyframes@;
        let ghost gdur = self.dur();
        let ghost ping0 = self.ping_pong;
        let ghost st0 = self.state();
        let n = self.keyframes.len();
        let dur = self.keyframes[n - 1].time;
        let mut rem: u64 = delta;
        loop
            invariant
                self.keyframes@ == s0,
                self.ping_pong == ping0,
                valid_keyframes(s0),
                dur as int == gdur,
                gdur > 0,
                self.dur() == gdur,
                play_inv(gdur, ping0, self.state()),
                advance(gdur, ping0, st0, delta as int)
                    == advance(gdur, ping0, self.state(), rem as int),
            ensures
                self.keyframes@ == s0,
                self.ping_pong == ping0,
                play_inv(gdur, ping0, self.state()),
                self.state() == advance(gdur, ping0, st0, delta as int),
            decreases rem,
        {
            let stopped = match self.repeats_left {
                Repeat::Finite(count) => count == 0,
                Repeat::Infinite => false,
            };
            if stopped || rem == 0 {
                break;
            }
            if self.forward {
                let room = dur - self.clock;
                if rem < room {
                    self.clock = self.clock + rem;
                    rem = 0;
                } else {
                    let last_pass = match self.repeats_left {
                        Repeat::Finite(count) => count == 1,
                        Repeat::Infinite => false,
                    };
                    if last_pass {
                        self.clock = dur;
                        self.repeats_left = Repeat::Finite(0);
                        rem = 0;
                    } else {
                        rem = rem - room;
                        self.repeats_left = match self.repeats_left {
                            Repeat::Finite(count) => Repeat::Finite(count - 1),
                            Repeat::Infinite => Repeat::Infinite,
                        };
                        if self.ping_pong {
                            self.forward = false;
                            self.clock = dur;
                        } else {
                            self.clock = 0;
                        }
                    }
                }
            } else {
                let room = self.clock;
                if rem < room {
                    self.clock = self.clock - rem;
                    rem = 0;
                } else {
                    let last_pass = match self.repeats_left {
                        Repeat::Finite(count) => count == 1,
                        Repeat::Infinite => false,
                    };
                    if last_pass {
                        self.clock = 0;
                        self.repeats_left = Repeat::Finite(0);
                        rem = 0;
                    } else {
                        rem = rem - room;
                        self.repeats_left = match self.repeats_left {
                            Repeat::Finite(count) => Repeat::Finite(count - 1),
                            Repeat::Infinite => Repeat::Infinite,
                        };
                        self.forward = true;
                        self.clock = 0;
                    }
                }
            }
        }
    }
}

} // verus!
