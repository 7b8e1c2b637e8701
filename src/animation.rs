//! Repeating frame timers and sprite frame cycling.
use vstd::prelude::*;
use vstd::arithmetic::div_mod::{
    lemma_add_mod_noop, lemma_add_mod_noop_right, lemma_fundamental_div_mod, lemma_hoist_over_denominator,
    lemma_mod_bound, lemma_mod_multiples_basic, lemma_div_multiples_vanish,
};

verus! {

/// A repeating timer: `elapsed_us` is the time since the last completed period.
#[derive(Clone, Copy, PartialEq, Eq, Structural, Debug)]
pub struct Timer {
    pub period_us: u64,
    pub elapsed_us: u64,
}

impl Timer {
    pub open spec fn wf(&self) -> bool {
        0 < self.period_us && self.elapsed_us < self.period_us
    }

    /// The timer after `dt_us` more microseconds.
    pub open spec fn after(self, dt_us: u64) -> Timer {
        Timer {
            period_us: self.period_us,
            elapsed_us: ((self.elapsed_us + dt_us) % (self.period_us as int)) as u64,
        }
    }

    /// How many periods complete during the next `dt_us` microseconds.
    pub open spec fn completions(self, dt_us: u64) -> nat {
        ((self.elapsed_us + dt_us) / (self.period_us as int)) as nat
    }

    /// A repeating timer with the given period, at its start.
    pub fn repeating(period_us: u64) -> (r: Timer)
        requires
            0 < period_us,
        ensures
            r.wf(),
            r.period_us == period_us,
            r.elapsed_us == 0,
    {
        Timer { period_us, elapsed_us: 0 }
    }

    /// Advances the timer and returns how many periods completed.
    pub fn tick(&mut self, dt_us: u64) -> (finished: u64)
        requires
            old(self).wf(),
        ensures
            *final(self) == old(self).after(dt_us),
            final(self).wf(),
            finished == old(self).completions(dt_us),
    {
        let p = self.period_us as u128;
        let sum = self.elapsed_us as u128 + dt_us as u128;
        let c = sum / p;
        proof {
            let e = self.elapsed_us as int;
            let pi = p as int;
            let d = dt_us as int;
            lemma_mod_bound(sum as int, pi);
            if pi == 1 {
                assert(e == 0);
                assert(sum as int / 1 == sum as int);
            } else {
                assert(c <= u64::MAX) by (nonlinear_arith)
                    requires
                        pi >= 2,
                        e < pi,
                        d <= u64::MAX,
                        sum as int == e + d,
                        c as int == (e + d) / pi,
                ;
            }
        }
        self.elapsed_us = (sum % p) as u64;
        c as u64
    }
}

/// Where a sprite's frame count comes from.
#[derive(Clone, Copy, PartialEq, Eq, Structural, Debug)]
pub enum FrameCount {
    /// A count fixed when the animation was made.
    Fixed(usize),
    /// The number of frames in the atlas layout with this index.
    FromAtlas(usize),
}

/// A sprite that steps to its next frame at every completed timer period.
#[derive(Clone, Copy, PartialEq, Eq, Structural, Debug)]
pub struct SpriteAnimation {
    pub timer: Timer,
    pub paused: bool,
    pub index: usize,
    pub frames: FrameCount,
}

pub const MICROS_PER_SECOND: u64 = 1_000_000;

impl SpriteAnimation {
    pub open spec fn wf(&self) -> bool {
        &&& self.timer.wf()
        &&& self.frames matches FrameCount::Fixed(n) ==> 1 <= n && self.index < n
    }

    /// The number of frames, given the length of the sprite's atlas layout.
    pub open spec fn frame_count(&self, atlas_len: usize) -> usize {
        match self.frames {
            FrameCount::Fixed(n) => n,
            FrameCount::FromAtlas(_) => atlas_len,
        }
    }

    /// The animation after `dt_us` microseconds: paused ones, and ones whose
    /// atlas layout is not loaded yet (no frames), stay as they are; the
    /// others advance one frame per completed period, wrapping to the first
    /// frame.
    pub open spec fn after(self, dt_us: u64, atlas_len: usize) -> SpriteAnimation {
        if self.paused || self.frame_count(atlas_len) == 0 {
            self
        } else {
            SpriteAnimation {
                timer: self.timer.after(dt_us),
                index: ((self.index + self.timer.completions(dt_us)) % (self.frame_count(atlas_len) as int)) as usize,
                ..self
            }
        }
    }

    /// An animation at `fps` frames per second, at its first frame, whose
    /// frame count is read from atlas layout 0.
    pub fn new(fps: u64, paused: bool) -> (r: SpriteAnimation)
        requires
            1 <= fps <= MICROS_PER_SECOND,
        ensures
            r.wf(),
            r.timer.period_us == MICROS_PER_SECOND / fps,
            r.timer.elapsed_us == 0,
            r.paused == paused,
            r.index == 0,
            r.frames == FrameCount::FromAtlas(0),
    {
        assert(MICROS_PER_SECOND / fps >= 1) by (nonlinear_arith)
            requires
                1 <= fps <= MICROS_PER_SECOND,
        ;
        SpriteAnimation {
            timer: Timer::repeating(MICROS_PER_SECOND / fps),
            paused,
            index: 0,
            frames: FrameCount::FromAtlas(0),
        }
    }

    /// The same animation with its frame count read from atlas layout
    /// `layout`.
    pub fn with_layout(self, layout: usize) -> (r: SpriteAnimation)
        ensures
            r == (SpriteAnimation { frames: FrameCount::FromAtlas(layout), ..self }),
            self.wf() ==> r.wf(),
    {
        SpriteAnimation { frames: FrameCount::FromAtlas(layout), ..self }
    }

    /// The same animation with a fixed frame count.
    pub fn with_frames(self, count: usize) -> (r: SpriteAnimation)
        requires
            self.index < count,
        ensures
            self.wf() ==> r.wf(),
            r == (SpriteAnimation { frames: FrameCount::Fixed(count), ..self }),
    {
        SpriteAnimation { frames: FrameCount::Fixed(count), ..self }
    }

    /// The number of frames, given the length of the sprite's atlas layout.
    pub fn count(&self, atlas_len: usize) -> (r: usize)
        ensures
            r == self.frame_count(atlas_len),
    {
        match self.frames {
            FrameCount::Fixed(n) => n,
            FrameCount::FromAtlas(_) => atlas_len,
        }
    }

    /// Advances the animation by `dt_us` microseconds.
    pub fn tick(&mut self, dt_us: u64, atlas_len: usize)
        requires
            old(self).wf(),
        ensures
            *final(self) == old(self).after(dt_us, atlas_len),
            final(self).wf(),
            !old(self).paused && old(self).frame_count(atlas_len) >= 1 ==> final(self).index
                < old(self).frame_count(atlas_len),
    {
        if self.paused {
            return;
        }
        let frame_count = self.count(atlas_len);
        if frame_count == 0 {
            return;
        }
        let finished = self.timer.tick(dt_us);
        let f = frame_count as u128;
        let next = (self.index as u128 + (finished as u128 % f)) % f;
        proof {
            lemma_add_mod_noop_right(self.index as int, finished as int, f as int);
            lemma_mod_bound(self.index as int + finished as int, f as int);
        }
        self.index = next as usize;
    }
}

/// The animation after each of `dts` in turn.
pub open spec fn run_animation(a: SpriteAnimation, dts: Seq<u64>, atlas_len: usize) -> SpriteAnimation
    decreases dts.len(),
{
    if dts.len() == 0 {
        a
    } else {
        run_animation(a, dts.drop_last(), atlas_len).after(dts.last(), atlas_len)
    }
}

/// The sum of a run of durations.
pub open spec fn total_time(dts: Seq<u64>) -> int
    decreases dts.len(),
{
    if dts.len() == 0 {
        0
    } else {
        total_time(dts.drop_last()) + dts.last()
    }
}

/// A running animation that starts at its first frame with a fresh timer
/// shows, after any run of ticks, the frame numbered by the count of whole
/// periods elapsed, taken modulo the frame count.
pub proof fn frame_follows_elapsed_periods(a: SpriteAnimation, dts: Seq<u64>, atlas_len: usize)
    requires
        a.wf(),
        !a.paused,
        a.index == 0,
        a.timer.elapsed_us == 0,
        a.frame_count(atlas_len) >= 1,
    ensures
        run_animation(a, dts, atlas_len).index as int == (total_time(dts) / (a.timer.period_us as int)) % (a.frame_count(
            atlas_len,
        ) as int),
        run_animation(a, dts, atlas_len).timer.elapsed_us as int == total_time(dts) % (a.timer.period_us as int),
        run_animation(a, dts, atlas_len).timer.period_us == a.timer.period_us,
        run_animation(a, dts, atlas_len).frames == a.frames,
        !run_animation(a, dts, atlas_len).paused,
    decreases dts.len(),
{
    let p = a.timer.period_us as int;
    let f = a.frame_count(atlas_len) as int;
    if dts.len() == 0 {
        assert(0int / p == 0);
        assert(0int % p == 0);
        assert(0int % f == 0);
    } else {
        let prev = dts.drop_last();
        let d = dts.last() as int;
        frame_follows_elapsed_periods(a, prev, atlas_len);
        let b = run_animation(a, prev, atlas_len);
        let t = total_time(prev);
        lemma_fundamental_div_mod(t, p);
        lemma_mod_bound(t, p);
        // the timer carries the remainder of the whole run
        lemma_add_mod_noop(t, d, p);
        lemma_mod_bound(d, p);
        assert((t % p + d) % p == (t + d) % p) by {
            lemma_add_mod_noop(t % p, d, p);
            lemma_mod_bound(t % p, p);
            assert((t % p) % p == t % p) by {
                lemma_mod_multiples_basic(0, p);
                lemma_small_mod(t % p, p);
            }
        }
        // and the frame counts the whole periods
        let c = (t % p + d) / p;
        assert(t / p + c == (t + d) / p) by {
            lemma_hoist_over_denominator(t % p + d, t / p, p as nat);
            assert(t % p + d + (t / p) * p == t + d) by (nonlinear_arith)
                requires
                    t == p * (t / p) + t % p,
            ;
        }
        assert(((t / p) % f + c) % f == (t / p + c) % f) by {
            lemma_add_mod_noop(t / p, c, f);
            lemma_add_mod_noop((t / p) % f, c, f);
            lemma_mod_bound(t / p, f);
            lemma_small_mod((t / p) % f, f);
        }
    }
}

proof fn lemma_small_mod(x: int, m: int)
    requires
        0 <= x < m,
    ensures
        x % m == x,
{
    vstd::arithmetic::div_mod::lemma_small_mod(x as nat, m as nat);
}

/// After `k` whole periods from a fresh start the frame index is `k` modulo
/// the frame count.
pub proof fn frame_after_whole_periods(a: SpriteAnimation, dts: Seq<u64>, atlas_len: usize, k: nat)
    requires
        a.wf(),
        !a.paused,
        a.index == 0,
        a.timer.elapsed_us == 0,
        a.frame_count(atlas_len) >= 1,
        total_time(dts) == k * a.timer.period_us,
    ensures
        run_animation(a, dts, atlas_len).index as int == (k as int) % (a.frame_count(atlas_len) as int),
{
    frame_follows_elapsed_periods(a, dts, atlas_len);
    let p = a.timer.period_us as int;
    assert((k as int) * p == p * (k as int)) by (nonlinear_arith);
    lemma_div_multiples_vanish(k as int, p);
}

} // verus!
