//! Transitions between the frames of two scenes.
use crate::easing::{ease_function, ease_named_spec};
use crate::fixed::{clamp_i64, clamp_spec, floor_div, ONE};
use crate::text::str_eq;
use vstd::prelude::*;

verus! {

/// The transition effects a project can name.
#[derive(Debug)]
pub enum TransitionType {
    Fade,
    SlideLeft,
    SlideRight,
    SlideUp,
    SlideDown,
    ZoomIn,
    ZoomOut,
    Rotate,
    WipeLeft,
    WipeRight,
    WipeUp,
    WipeDown,
    Blur,
    Glitch,
    Pixelate,
    Custom(String),
}

/// Names of the directional transitions, which switch frames half way.
pub open spec fn is_switch_name(name: Seq<char>) -> bool {
    name == "slide_left"@ || name == "slide_right"@ || name == "slide_up"@ || name == "slide_down"@
        || name == "zoom_in"@ || name == "zoom_out"@ || name == "wipe_left"@ || name
        == "wipe_right"@ || name == "wipe_up"@ || name == "wipe_down"@
}

/// One byte of a cross-fade at weight `a` of the `to` frame.
pub open spec fn fade_byte(f: u8, t: u8, a: int) -> u8 {
    ((f * (ONE - a) + t * a) / (ONE as int)) as u8
}

/// Cross-fade of two frames at `progress` (clamped to `[0, ONE]`), over the
/// bytes both frames have.
pub open spec fn fade_spec(from: Seq<u8>, to: Seq<u8>, progress: int) -> Seq<u8> {
    let a = clamp_spec(progress, 0, ONE as int);
    let n = if from.len() < to.len() {
        from.len()
    } else {
        to.len()
    };
    Seq::new(n, |i: int| fade_byte(from[i], to[i], a))
}

/// The frame a transition named `name` shows at `progress`: the directional
/// ones show `from` before half way and `to` from half way on; every other
/// name cross-fades.
pub open spec fn transition_spec(name: Seq<char>, progress: int, from: Seq<u8>, to: Seq<u8>) -> Seq<
    u8,
> {
    if is_switch_name(name) {
        if 2 * progress < ONE {
            from
        } else {
            to
        }
    } else {
        fade_spec(from, to, progress)
    }
}

fn copy_bytes(v: &[u8]) -> (r: Vec<u8>)
    ensures
        r@ == v@,
{
    let mut out: Vec<u8> = Vec::new();
    let mut i: usize = 0;
    while i < v.len()
        invariant
            i <= v@.len(),
            out@ == v@.subrange(0, i as int),
        decreases v@.len() - i,
    {
        out.push(v[i]);
        assert(out@ =~= v@.subrange(0, i as int + 1));
        i = i + 1;
    }
    assert(out@ =~= v@);
    out
}

fn fade_frames(progress: i64, from: &[u8], to: &[u8]) -> (r: Vec<u8>)
    ensures
        r@ == fade_spec(from@, to@, progress as int),
{
    let a = clamp_i64(progress, 0, ONE);
    let n = if from.len() < to.len() {
        from.len()
    } else {
        to.len()
    };
    let mut out: Vec<u8> = Vec::new();
    let mut i: usize = 0;
    while i < n
        invariant
            i <= n,
            n <= from@.len(),
            n <= to@.len(),
            n == fade_spec(from@, to@, progress as int).len(),
            0 <= a <= ONE,
            a == clamp_spec(progress as int, 0, ONE as int),
            out@ == fade_spec(from@, to@, progress as int).subrange(0, i as int),
        decreases n - i,
    {
        let f = from[i] as i64;
        let t = to[i] as i64;
        assert(0 <= f * (ONE - a) + t * a <= 255 * ONE) by (nonlinear_arith)
            requires
                0 <= f <= 255,
                0 <= t <= 255,
                0 <= a <= ONE,
        ;
        let b = ((f * (ONE - a) + t * a) / ONE) as u8;
        out.push(b);
        assert(out@ =~= fade_spec(from@, to@, progress as int).subrange(0, i as int + 1));
        i = i + 1;
    }
    assert(out@ =~= fade_spec(from@, to@, progress as int));
    out
}

fn is_switch(name: &str) -> (r: bool)
    ensures
        r == is_switch_name(name@),
{
    str_eq(name, "slide_left") || str_eq(name, "slide_right") || str_eq(name, "slide_up")
        || str_eq(name, "slide_down") || str_eq(name, "zoom_in") || str_eq(name, "zoom_out")
        || str_eq(name, "wipe_left") || str_eq(name, "wipe_right") || str_eq(name, "wipe_up")
        || str_eq(name, "wipe_down")
}

/// The frame that transition `transition_type` shows at `progress` between
/// `from_frame` and `to_frame` (see `transition_spec`). The frame size is
/// carried for the effects and does not change the result.
pub fn apply_transition(
    transition_type: &str,
    progress: i64,
    from_frame: &[u8],
    to_frame: &[u8],
    width: u32,
    height: u32,
) -> (r: Vec<u8>)
    ensures
        r@ == transition_spec(transition_type@, progress as int, from_frame@, to_frame@),
{
    if is_switch(transition_type) {
        if progress < ONE / 2 {
            copy_bytes(from_frame)
        } else {
            copy_bytes(to_frame)
        }
    } else {
        fade_frames(progress, from_frame, to_frame)
    }
}

/// Normalised progress of `t` into a window of length `duration`, in
/// `[0, ONE]`; a window of no length is complete at once.
pub open spec fn window_progress(t: int, duration: int) -> int {
    if duration <= 0 {
        ONE as int
    } else {
        clamp_spec(t * ONE / duration, 0, ONE as int)
    }
}

/// A transition between two scenes: an effect, a length and an easing.
#[derive(Debug)]
pub struct Transition {
    pub effect: String,
    pub duration: i64,
    pub easing: String,
}

impl Transition {
    /// A transition eased by `ease_in_out`.
    pub fn new(effect: String, duration: i64) -> (r: Transition)
        ensures
            r.effect@ == effect@,
            r.duration == duration,
            r.easing@ == "ease_in_out"@,
    {
        Transition { effect, duration, easing: String::from_str("ease_in_out") }
    }

    pub fn with_easing(&mut self, easing: String)
        ensures
            final(self).easing@ == easing@,
            final(self).effect == old(self).effect,
            final(self).duration == old(self).duration,
    {
        self.easing = easing;
    }

    /// Eased progress at time `t` into the transition window.
    pub fn progress_at(&self, t: i64) -> (r: i64)
        ensures
            r == ease_named_spec(self.easing@, window_progress(t as int, self.duration as int)),
    {
        let u = if self.duration <= 0 {
            ONE
        } else {
            let q = floor_div(t as i128 * 1_000_000, self.duration as i128);
            if q < 0 {
                0
            } else if q > ONE as i128 {
                ONE
            } else {
                q as i64
            }
        };
        ease_function(self.easing.as_str(), u)
    }

    /// The frame shown at time `t` into the transition window.
    pub fn frame_at(&self, t: i64, from_frame: &[u8], to_frame: &[u8], width: u32, height: u32) -> (r:
        Vec<u8>)
        ensures
            r@ == transition_spec(
                self.effect@,
                ease_named_spec(self.easing@, window_progress(t as int, self.duration as int)),
                from_frame@,
                to_frame@,
            ),
    {
        let p = self.progress_at(t);
        apply_transition(self.effect.as_str(), p, from_frame, to_frame, width, height)
    }
}

/// Progress `0` shows the `from` frame and full progress the `to` frame,
/// whichever transition is named (for frames of one size).
pub proof fn lemma_transition_ends(name: Seq<char>, from: Seq<u8>, to: Seq<u8>)
    requires
        from.len() == to.len(),
    ensures
        transition_spec(name, 0, from, to) == from,
        transition_spec(name, ONE as int, from, to) == to,
{
    if !is_switch_name(name) {
        assert forall|i: int| 0 <= i < from.len() implies #[trigger] fade_byte(from[i], to[i], 0)
            == from[i] by {
            assert((from[i] * 1_000_000 + to[i] * 0) / 1_000_000 == from[i]) by (nonlinear_arith);
        }
        assert forall|i: int| 0 <= i < from.len() implies #[trigger] fade_byte(
            from[i],
            to[i],
            ONE as int,
        ) == to[i] by {
            assert((from[i] * 0 + to[i] * 1_000_000) / 1_000_000 == to[i]) by (nonlinear_arith);
        }
        assert(fade_spec(from, to, 0) =~= from);
        assert(fade_spec(from, to, ONE as int) =~= to);
    }
}

} // verus!
