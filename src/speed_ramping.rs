//! Speed ramps: a keyframe track over the playback speed, and the mapping
//! from sequence time to source time that integrates it.
use crate::animation::{insert_sorted, value_at_spec, Keyframe, KeyframeTrack};
use crate::easing::{easing_of, Easing};
use crate::fixed::{floor_div, saturate, saturate_i128, ONE};
use vstd::prelude::*;

verus! {

/// A speed control point: `value` is the speed multiplier (`ONE` is normal speed).
pub type SpeedKeyframe = Keyframe;

/// Speed at `t`: `ONE` for an empty ramp, else the track's value at `t`.
pub open spec fn speed_at_spec(kfs: Seq<Keyframe>, t: int) -> int {
    if kfs.len() == 0 {
        ONE as int
    } else {
        value_at_spec(kfs, t)
    }
}

/// Sum of `speed(k * step) * step` over the first `n` steps.
pub open spec fn speed_sum(kfs: Seq<Keyframe>, step: int, n: nat) -> int
    decreases n,
{
    if n == 0 {
        0
    } else {
        speed_sum(kfs, step, (n - 1) as nat) + speed_at_spec(kfs, (n - 1) * step) * step
    }
}

/// Source time reached at sequence time `t`: the speed, held over each step
/// of length `step` from its start, integrated over `[0, t]`; `0` for `t <= 0`.
pub open spec fn source_time_spec(kfs: Seq<Keyframe>, t: int, step: int) -> int {
    if t <= 0 {
        0
    } else {
        let n = t / step;
        saturate(
            (speed_sum(kfs, step, n as nat) + speed_at_spec(kfs, n * step) * (t - n * step)) / (
            ONE as int),
        )
    }
}

/// A playback-speed curve.
#[derive(Debug)]
pub struct SpeedRamp {
    pub keyframes: KeyframeTrack,
    pub frame_blending: bool,
    pub optical_flow: bool,
}

proof fn lemma_sum_bound(kfs: Seq<Keyframe>, step: int, n: nat)
    requires
        step > 0,
    ensures
        -0x8000_0000_0000_0000 * (n * step) <= speed_sum(kfs, step, n) <= 0x8000_0000_0000_0000 * (n
            * step),
    decreases n,
{
    if n > 0 {
        lemma_sum_bound(kfs, step, (n - 1) as nat);
        let s = speed_at_spec(kfs, (n - 1) * step);
        assert(-0x8000_0000_0000_0000 <= s <= 0x8000_0000_0000_0000);
        assert(-0x8000_0000_0000_0000 * step <= s * step <= 0x8000_0000_0000_0000 * step)
            by (nonlinear_arith)
            requires
                -0x8000_0000_0000_0000 <= s <= 0x8000_0000_0000_0000,
                step > 0,
        ;
        assert(0x8000_0000_0000_0000 * (n * step) == 0x8000_0000_0000_0000 * ((n - 1) * step)
            + 0x8000_0000_0000_0000 * step) by (nonlinear_arith);
    }
}

impl SpeedRamp {
    /// A ramp at normal speed: one linear keyframe of speed `ONE` at `0`.
    pub fn new() -> (r: SpeedRamp)
        ensures
            r.keyframes@ == seq![Keyframe { time: 0, value: ONE, easing: Easing::Linear }],
            !r.frame_blending,
            !r.optical_flow,
    {
        SpeedRamp {
            keyframes: KeyframeTrack::with_keyframe(0, ONE, Easing::Linear),
            frame_blending: false,
            optical_flow: false,
        }
    }

    /// Adds a speed keyframe; the easing is looked up by name.
    pub fn add_keyframe(&mut self, time: i64, speed: i64, ease: &str)
        ensures
            final(self).keyframes@ == insert_sorted(
                old(self).keyframes@,
                Keyframe { time, value: speed, easing: easing_of(ease@) },
            ),
            final(self).frame_blending == old(self).frame_blending,
            final(self).optical_flow == old(self).optical_flow,
    {
        let e = Easing::from_name(ease);
        self.keyframes.add_keyframe(time, speed, e);
    }

    /// Speed multiplier at sequence time `time`.
    pub fn get_speed_at_time(&self, time: i64) -> (r: i64)
        ensures
            r == speed_at_spec(self.keyframes@, time as int),
    {
        if self.keyframes.len() == 0 {
            ONE
        } else {
            self.keyframes.value_at(time)
        }
    }

    /// Source time reached at sequence time `time`, integrating the speed in
    /// steps of `step` (see `source_time_spec`).
    pub fn source_time_at(&self, time: i64, step: i64) -> (r: i64)
        requires
            step > 0,
        ensures
            r == source_time_spec(self.keyframes@, time as int, step as int),
    {
        if time <= 0 {
            return 0;
        }
        let n = time / step;
        let mut acc: i128 = 0;
        let mut k: i64 = 0;
        while k < n
            invariant
                0 <= k <= n,
                n == time / step,
                0 < step,
                0 < time,
                acc == speed_sum(self.keyframes@, step as int, k as nat),
            decreases n - k,
        {
            proof {
                lemma_sum_bound(self.keyframes@, step as int, k as nat);
                assert(k * step <= time && (k + 1) * step <= time) by (nonlinear_arith)
                    requires
                        0 <= k < n,
                        n as int == time as int / step as int,
                        step > 0,
                        time > 0,
                ;
            }
            let t = k * step;
            let s = self.get_speed_at_time(t);
            proof {
                let (kk, st, ss) = (k as int, step as int, s as int);
                assert(-0x8000_0000_0000_0000 * ((kk + 1) * st) <= acc + ss * st
                    <= 0x8000_0000_0000_0000 * ((kk + 1) * st)) by (nonlinear_arith)
                    requires
                        -0x8000_0000_0000_0000 * (kk * st) <= acc <= 0x8000_0000_0000_0000 * (kk
                            * st),
                        -0x8000_0000_0000_0000 <= ss < 0x8000_0000_0000_0000,
                        st > 0,
                ;
                assert(0x8000_0000_0000_0000 * ((kk + 1) * st) <= 0x8000_0000_0000_0000
                    * 0x8000_0000_0000_0000) by (nonlinear_arith)
                    requires
                        (kk + 1) * st <= 0x8000_0000_0000_0000,
                        kk * st <= time,
                        time < 0x8000_0000_0000_0000,
                        kk < n,
                        n as int == time as int / st,
                        st > 0,
                ;
            }
            acc = acc + (s as i128) * (step as i128);
            k = k + 1;
        }
        proof {
            lemma_sum_bound(self.keyframes@, step as int, n as nat);
            assert(0 <= n * step <= time && time - n * step < step) by (nonlinear_arith)
                requires
                    n as int == time as int / step as int,
                    step > 0,
                    time > 0,
            ;
        }
        let tail_start = n * step;
        let s = self.get_speed_at_time(tail_start);
        let rest = (time - tail_start) as i128;
        assert(0 <= rest < step);
        proof {
            let (ss, rr, a, ns) = (s as int, rest as int, acc as int, (n * step) as int);
            assert(-0x8000_0000_0000_0000 * 0x8000_0000_0000_0000 <= ss * rr <= 0x8000_0000_0000_0000
                * 0x8000_0000_0000_0000) by (nonlinear_arith)
                requires
                    -0x8000_0000_0000_0000 <= ss < 0x8000_0000_0000_0000,
                    0 <= rr < 0x8000_0000_0000_0000,
            ;
            assert(-0x8000_0000_0000_0000 * (time as int) <= a + ss * rr <= 0x8000_0000_0000_0000
                * (time as int)) by (nonlinear_arith)
                requires
                    -0x8000_0000_0000_0000 * ns <= a <= 0x8000_0000_0000_0000 * ns,
                    -0x8000_0000_0000_0000 <= ss < 0x8000_0000_0000_0000,
                    0 <= rr,
                    ns + rr == time,
            ;
            assert(0x8000_0000_0000_0000 * (time as int) < 0x4000_0000_0000_0000_0000_0000_0000_0000)
                by (nonlinear_arith)
                requires
                    0 < time < 0x8000_0000_0000_0000,
            ;
        }
        let total = acc + (s as i128) * rest;
        saturate_i128(floor_div(total, ONE as i128))
    }
}

/// A time remap: a speed ramp plus whether audio keeps its pitch (which
/// only the audio side reads).
#[derive(Debug)]
pub struct TimeRemap {
    pub speed_ramp: SpeedRamp,
    pub maintain_pitch: bool,
}

impl TimeRemap {
    pub fn new() -> (r: TimeRemap)
        ensures
            r.speed_ramp.keyframes@ == seq![Keyframe { time: 0, value: ONE, easing: Easing::Linear }],
            !r.maintain_pitch,
    {
        TimeRemap { speed_ramp: SpeedRamp::new(), maintain_pitch: false }
    }

    /// Sets speed `speed` at `time` with a linear segment after it.
    pub fn set_speed(&mut self, time: i64, speed: i64)
        ensures
            final(self).speed_ramp.keyframes@ == insert_sorted(
                old(self).speed_ramp.keyframes@,
                Keyframe { time, value: speed, easing: Easing::Linear },
            ),
            final(self).maintain_pitch == old(self).maintain_pitch,
            final(self).speed_ramp.frame_blending == old(self).speed_ramp.frame_blending,
            final(self).speed_ramp.optical_flow == old(self).speed_ramp.optical_flow,
    {
        self.speed_ramp.keyframes.add_keyframe(time, speed, Easing::Linear);
    }
}

/// At a constant speed the source time is exact: `speed * t`, rounded down.
pub proof fn lemma_constant_speed_exact(kfs: Seq<Keyframe>, t: int, step: int)
    requires
        step > 0,
        t > 0,
        forall|u: int| #[trigger] speed_at_spec(kfs, u) == speed_at_spec(kfs, 0),
    ensures
        source_time_spec(kfs, t, step) == saturate(speed_at_spec(kfs, 0) * t / (ONE as int)),
{
    let s = speed_at_spec(kfs, 0);
    let n = t / step;
    assert(n >= 0) by (nonlinear_arith)
        requires
            t > 0,
            step > 0,
            n == t / step,
    ;
    lemma_constant_sum(kfs, step, n as nat, s);
    assert(speed_at_spec(kfs, n * step) == s);
    assert(s * (n * step) + s * (t - n * step) == s * t) by (nonlinear_arith);
}

proof fn lemma_constant_sum(kfs: Seq<Keyframe>, step: int, n: nat, s: int)
    requires
        forall|u: int| #[trigger] speed_at_spec(kfs, u) == s,
    ensures
        speed_sum(kfs, step, n) == s * (n * step),
    decreases n,
{
    if n > 0 {
        let m = (n - 1) as nat;
        lemma_constant_sum(kfs, step, m, s);
        assert(speed_at_spec(kfs, m * step) == s);
        assert(speed_sum(kfs, step, n) == speed_sum(kfs, step, m) + s * step);
        assert(s * (m * step) + s * step == s * (n * step)) by (nonlinear_arith)
            requires
                m + 1 == n,
        ;
    } else {
        assert(s * (n * step) == 0) by (nonlinear_arith)
            requires
                n == 0,
        ;
    }
}

} // verus!
