//! Keyframe tracks: time-ordered control points evaluated at any query time.
use crate::easing::{ease, ease_spec, easing_of, lemma_ease_boundaries, Easing};
use crate::fixed::{floor_div, saturate, saturate_i128, ONE};
use vstd::prelude::*;

verus! {

/// A control point: at `time` the animated property has `value`; the segment
/// that starts here is eased with `easing`.
#[derive(Clone, Copy, Debug, PartialEq, Eq, Structural)]
pub struct Keyframe {
    pub time: i64,
    pub value: i64,
    pub easing: Easing,
}

/// Keyframe times never decrease along the sequence.
pub open spec fn sorted(kfs: Seq<Keyframe>) -> bool {
    forall|i: int, j: int| 0 <= i < j < kfs.len() ==> kfs[i].time <= kfs[j].time
}

/// The first index at or after `i` whose keyframe lies strictly after `t`
/// (the length when there is none).
pub open spec fn first_after(kfs: Seq<Keyframe>, t: int, i: int) -> int
    decreases kfs.len() - i,
{
    if i < 0 || i >= kfs.len() {
        kfs.len() as int
    } else if kfs[i].time > t {
        i
    } else {
        first_after(kfs, t, i + 1)
    }
}

/// Local progress of `t` between the times of `k1` and `k2`, in `[0, ONE)`.
pub open spec fn progress_spec(k1: Keyframe, k2: Keyframe, t: int) -> int {
    (t - k1.time) * ONE / (k2.time - k1.time)
}

/// `a + (b - a) * e`, for a fixed-point weight `e`, saturated to `i64`.
pub open spec fn lerp_spec(a: int, b: int, e: int) -> int {
    saturate(a + (b - a) * e / (ONE as int))
}

/// The value between `k1` and `k2` at `t`, eased by the curve of `k1`.
pub open spec fn segment_value(k1: Keyframe, k2: Keyframe, t: int) -> int {
    lerp_spec(k1.value as int, k2.value as int, ease_spec(k1.easing, progress_spec(k1, k2, t)))
}

/// The value of a keyframe sequence at time `t`: `0` when empty; held at the
/// first value before the first keyframe and at the last value after the last
/// one; otherwise interpolated in the segment that holds `t`. Among keyframes
/// at one time the one that comes last (the latest inserted) wins.
pub open spec fn value_at_spec(kfs: Seq<Keyframe>, t: int) -> int {
    if kfs.len() == 0 {
        0
    } else {
        let q = if t < kfs[0].time {
            kfs[0].time as int
        } else {
            t
        };
        let j = first_after(kfs, q, 0);
        if j >= kfs.len() {
            kfs.last().value as int
        } else {
            segment_value(kfs[j - 1], kfs[j], q)
        }
    }
}

/// `kfs` with `k` placed after every keyframe at or before its time: what a
/// stable sort by time gives after appending `k`.
pub open spec fn insert_sorted(kfs: Seq<Keyframe>, k: Keyframe) -> Seq<Keyframe> {
    kfs.insert(first_after(kfs, k.time as int, 0), k)
}

pub proof fn lemma_first_after_bounds(kfs: Seq<Keyframe>, t: int, i: int)
    requires
        0 <= i <= kfs.len(),
    ensures
        i <= first_after(kfs, t, i) <= kfs.len(),
        forall|k: int| i <= k < first_after(kfs, t, i) ==> kfs[k].time <= t,
        first_after(kfs, t, i) < kfs.len() ==> kfs[first_after(kfs, t, i)].time > t,
    decreases kfs.len() - i,
{
    if i < kfs.len() && kfs[i].time <= t {
        lemma_first_after_bounds(kfs, t, i + 1);
    }
}

/// `first_after` is the index `m` that splits the keyframes at `t`.
pub proof fn lemma_first_after_is(kfs: Seq<Keyframe>, t: int, i: int, m: int)
    requires
        0 <= i <= m <= kfs.len(),
        forall|k: int| i <= k < m ==> kfs[k].time <= t,
        m < kfs.len() ==> kfs[m].time > t,
    ensures
        first_after(kfs, t, i) == m,
    decreases m - i,
{
    if i < m {
        lemma_first_after_is(kfs, t, i + 1, m);
    }
}

/// Index of the first keyframe strictly after `t`.
fn find_after(kfs: &[Keyframe], t: i64) -> (j: usize)
    ensures
        j == first_after(kfs@, t as int, 0),
        j <= kfs@.len(),
{
    let n = kfs.len();
    let mut i: usize = 0;
    while i < n && kfs[i].time <= t
        invariant
            i <= n == kfs@.len(),
            first_after(kfs@, t as int, 0) == first_after(kfs@, t as int, i as int),
        decreases n - i,
    {
        i = i + 1;
    }
    proof {
        lemma_first_after_bounds(kfs@, t as int, i as int);
    }
    i
}

/// `a + (b - a) * e / ONE`, saturated to `i64`.
pub fn lerp(a: i64, b: i64, e: i64) -> (r: i64)
    requires
        -3 * ONE <= e <= 3 * ONE,
    ensures
        r == lerp_spec(a as int, b as int, e as int),
        e == 0 ==> r == a,
        e == ONE ==> r == b,
{
    let d = b as i128 - a as i128;
    assert(-0x100_0000_0000_0000_0000_0000 <= d * (e as i128) <= 0x100_0000_0000_0000_0000_0000)
        by (nonlinear_arith)
        requires
            -0x2_0000_0000_0000_0000 <= d <= 0x2_0000_0000_0000_0000,
            -3_000_000 <= e <= 3_000_000,
    ;
    let p = d * (e as i128);
    let q = floor_div(p, ONE as i128);
    proof {
        let (x, y) = (d as int, e as int);
        assert(-0x100_0000_0000_0000_0000 <= x * y / 1_000_000 <= 0x100_0000_0000_0000_0000)
            by (nonlinear_arith)
            requires
                -0x100_0000_0000_0000_0000_0000 <= x * y <= 0x100_0000_0000_0000_0000_0000,
        ;
        assert(y == 0 ==> x * y / 1_000_000 == 0) by (nonlinear_arith);
        assert(y == 1_000_000 ==> x * y / 1_000_000 == x) by (nonlinear_arith);
    }
    saturate_i128(a as i128 + q)
}

/// Value between `k1` and `k2` at `t`, for `k1.time <= t < k2.time`.
fn segment(k1: Keyframe, k2: Keyframe, t: i64) -> (r: i64)
    requires
        k1.time <= t < k2.time,
    ensures
        r == segment_value(k1, k2, t as int),
{
    let span = k2.time as i128 - k1.time as i128;
    let off = t as i128 - k1.time as i128;
    assert(0 <= off * 1_000_000 < span * 1_000_000);
    let u = (off * (ONE as i128)) / span;
    proof {
        let (o, sp, uu) = (off as int, span as int, u as int);
        assert(0 <= uu < 1_000_000) by (nonlinear_arith)
            requires
                0 <= o < sp,
                uu == (o * 1_000_000) / sp,
        ;
    }
    let e = ease(k1.easing, u as i64);
    lerp(k1.value, k2.value, e)
}

/// Value of a keyframe sequence at `time` (see `value_at_spec`).
pub fn interpolate_keyframes(keyframes: &[Keyframe], time: i64) -> (r: i64)
    ensures
        r == value_at_spec(keyframes@, time as int),
{
    let n = keyframes.len();
    if n == 0 {
        return 0;
    }
    let q = if time < keyframes[0].time {
        keyframes[0].time
    } else {
        time
    };
    let j = find_after(keyframes, q);
    proof {
        lemma_first_after_bounds(keyframes@, q as int, 0);
    }
    if j >= n {
        keyframes[n - 1].value
    } else {
        segment(keyframes[j - 1], keyframes[j], q)
    }
}

/// A time-ordered sequence of keyframes.
#[derive(Debug)]
pub struct KeyframeTrack {
    keyframes: Vec<Keyframe>,
}

impl View for KeyframeTrack {
    type V = Seq<Keyframe>;

    closed spec fn view(&self) -> Seq<Keyframe> {
        self.keyframes@
    }
}

impl KeyframeTrack {
    #[verifier::type_invariant]
    spec fn inv(&self) -> bool {
        sorted(self.keyframes@)
    }

    /// An empty track.
    pub fn new() -> (r: KeyframeTrack)
        ensures
            r@ == Seq::<Keyframe>::empty(),
            sorted(r@),
    {
        KeyframeTrack { keyframes: Vec::new() }
    }

    /// A track with a single keyframe.
    pub fn with_keyframe(time: i64, value: i64, easing: Easing) -> (r: KeyframeTrack)
        ensures
            r@ == seq![Keyframe { time, value, easing }],
            sorted(r@),
    {
        let mut v: Vec<Keyframe> = Vec::new();
        v.push(Keyframe { time, value, easing });
        assert(sorted(v@));
        let r = KeyframeTrack { keyframes: v };
        assert(r@ =~= seq![Keyframe { time, value, easing }]);
        r
    }

    /// Adds a keyframe after every keyframe at or before its time, so that the
    /// track stays sorted and, among equal times, the later insertion comes last.
    pub fn add_keyframe(&mut self, time: i64, value: i64, easing: Easing)
        ensures
            final(self)@ == insert_sorted(old(self)@, Keyframe { time, value, easing }),
            sorted(final(self)@),
    {
        proof {
            use_type_invariant(&*self);
        }
        let k = Keyframe { time, value, easing };
        let mut v: Vec<Keyframe> = Vec::new();
        std::mem::swap(&mut v, &mut self.keyframes);
        let p = find_after(v.as_slice(), time);
        proof {
            lemma_first_after_bounds(v@, time as int, 0);
        }
        let ghost before = v@;
        v.insert(p, k);
        assert(sorted(v@)) by {
            assert forall|i: int, j: int| 0 <= i < j < v@.len() implies v@[i].time <= v@[j].time by {
                if i < p && j > p {
                    assert(before[i].time <= time);
                } else if i == p && j > p {
                    if before[j - 1].time <= time {
                        assert(before[p as int].time <= before[j - 1].time);
                    }
                } else if j == p {
                    assert(before[i].time <= time);
                }
            }
        }
        self.keyframes = v;
    }

    /// Number of keyframes.
    pub fn len(&self) -> (r: usize)
        ensures
            r == self@.len(),
    {
        self.keyframes.len()
    }

    /// The keyframes, in time order.
    pub fn keyframes(&self) -> (r: &[Keyframe])
        ensures
            r@ == self@,
            sorted(r@),
    {
        proof {
            use_type_invariant(self);
        }
        self.keyframes.as_slice()
    }

    /// Value of the track at `time` (see `value_at_spec`).
    pub fn value_at(&self, time: i64) -> (r: i64)
        ensures
            r == value_at_spec(self@, time as int),
    {
        interpolate_keyframes(self.keyframes.as_slice(), time)
    }
}

/// Adding a keyframe keeps any sorted sequence sorted.
pub proof fn lemma_insert_keeps_sorted(kfs: Seq<Keyframe>, k: Keyframe)
    requires
        sorted(kfs),
    ensures
        sorted(insert_sorted(kfs, k)),
{
    let p = first_after(kfs, k.time as int, 0);
    lemma_first_after_bounds(kfs, k.time as int, 0);
    let v = insert_sorted(kfs, k);
    assert forall|i: int, j: int| 0 <= i < j < v.len() implies v[i].time <= v[j].time by {
        if i < p && j > p {
            assert(kfs[i].time <= k.time);
        } else if i == p && j > p {
            if kfs[j - 1].time <= k.time {
                assert(kfs[p].time <= kfs[j - 1].time);
            }
        } else if j == p {
            assert(kfs[i].time <= k.time);
        }
    }
}

/// The keyframe added last takes effect at its own time: right after
/// `add_keyframe(time, value, easing)`, the track's value at `time` is `value`,
/// whatever other keyframes share that time.
pub proof fn lemma_added_keyframe_wins(kfs: Seq<Keyframe>, k: Keyframe)
    requires
        sorted(kfs),
    ensures
        value_at_spec(insert_sorted(kfs, k), k.time as int) == k.value,
{
    let t = k.time as int;
    let p = first_after(kfs, t, 0);
    lemma_first_after_bounds(kfs, t, 0);
    lemma_insert_keeps_sorted(kfs, k);
    let v = insert_sorted(kfs, k);
    assert(v[p] == k);
    assert(v[0].time <= t);
    assert forall|i: int| 0 <= i < p + 1 implies v[i].time <= t by {
        if i < p {
            assert(v[i] == kfs[i]);
        }
    }
    if p + 1 < v.len() {
        assert(v[p + 1] == kfs[p]);
    }
    lemma_first_after_is(v, t, 0, p + 1);
    if p + 1 < v.len() {
        lemma_ease_boundaries(k.easing);
        assert(progress_spec(v[p], v[p + 1], t) == 0);
    }
}

/// Querying a track twice at one time gives one value: the value depends on
/// the keyframes and the time alone.
pub proof fn lemma_value_at_deterministic(a: Seq<Keyframe>, b: Seq<Keyframe>, t: int)
    requires
        a == b,
    ensures
        value_at_spec(a, t) == value_at_spec(b, t),
{
}

/// The largest duration in `anims`, or `0` when none is larger.
pub open spec fn max_duration(anims: Seq<Animation>) -> int
    decreases anims.len(),
{
    if anims.len() == 0 {
        0
    } else {
        let rest = max_duration(anims.drop_last());
        if anims.last().duration > rest {
            anims.last().duration as int
        } else {
            rest
        }
    }
}

/// An animation of one named property.
#[derive(Debug)]
pub struct Animation {
    pub property: String,
    pub keyframes: KeyframeTrack,
    pub duration: i64,
    /// How many times the animation plays; `-1` plays it forever.
    pub loop_count: i32,
}

impl Animation {
    /// An animation of `property` with no keyframes that plays once.
    pub fn new(property: String, duration: i64) -> (r: Animation)
        ensures
            r.property@ == property@,
            r.keyframes@ == Seq::<Keyframe>::empty(),
            r.duration == duration,
            r.loop_count == 1,
    {
        Animation { property, keyframes: KeyframeTrack::new(), duration, loop_count: 1 }
    }

    /// Adds a keyframe; the easing is looked up by name, unknown names being linear.
    pub fn add_keyframe(&mut self, time: i64, value: i64, easing: &str)
        ensures
            final(self).keyframes@ == insert_sorted(
                old(self).keyframes@,
                Keyframe { time, value, easing: easing_of(easing@) },
            ),
            final(self).property == old(self).property,
            final(self).duration == old(self).duration,
            final(self).loop_count == old(self).loop_count,
    {
        let e = Easing::from_name(easing);
        self.keyframes.add_keyframe(time, value, e);
    }

    pub fn set_loop(&mut self, count: i32)
        ensures
            final(self).loop_count == count,
            final(self).keyframes@ == old(self).keyframes@,
            final(self).duration == old(self).duration,
    {
        self.loop_count = count;
    }

    /// Makes the animation loop forever.
    pub fn infinite(&mut self)
        ensures
            final(self).loop_count == -1,
            final(self).keyframes@ == old(self).keyframes@,
            final(self).duration == old(self).duration,
    {
        self.loop_count = -1;
    }

    /// Value of the animated property at `time`.
    pub fn value_at(&self, time: i64) -> (r: i64)
        ensures
            r == value_at_spec(self.keyframes@, time as int),
    {
        self.keyframes.value_at(time)
    }
}

/// Animations that play together.
#[derive(Debug)]
pub struct AnimationSequence {
    pub animations: Vec<Animation>,
    pub duration: i64,
}

impl AnimationSequence {
    pub fn new() -> (r: AnimationSequence)
        ensures
            r.animations@.len() == 0,
            r.duration == 0,
    {
        AnimationSequence { animations: Vec::new(), duration: 0 }
    }

    /// Appends one animation.
    pub fn add(&mut self, animation: Animation)
        ensures
            final(self).animations@ == old(self).animations@.push(animation),
            final(self).duration == old(self).duration,
    {
        self.animations.push(animation);
    }

    /// Appends animations that start together.
    pub fn parallel(&mut self, animations: Vec<Animation>)
        ensures
            final(self).animations@ == old(self).animations@ + animations@,
            final(self).duration == old(self).duration,
    {
        let mut more = animations;
        self.animations.append(&mut more);
    }

    /// Sets `duration` to the longest duration among the animations (at least `0`).
    pub fn calculate_duration(&mut self)
        ensures
            final(self).duration == max_duration(old(self).animations@),
            final(self).animations@ == old(self).animations@,
    {
        let mut d: i64 = 0;
        let mut i: usize = 0;
        let n = self.animations.len();
        while i < n
            invariant
                i <= n == self.animations@.len(),
                d == max_duration(self.animations@.subrange(0, i as int)),
            decreases n - i,
        {
            proof {
                let s = self.animations@.subrange(0, i as int + 1);
                assert(s.drop_last() =~= self.animations@.subrange(0, i as int));
            }
            if self.animations[i].duration > d {
                d = self.animations[i].duration;
            }
            i = i + 1;
        }
        assert(self.animations@.subrange(0, n as int) =~= self.animations@);
        self.duration = d;
    }
}

} // verus!
