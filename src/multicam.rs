//! Multi-camera sequences: synchronised angles and time-ordered cuts.
use crate::errors::FluxError;
use crate::fixed::{saturate, saturate_i128};
use crate::text::str_eq;
use vstd::prelude::*;

verus! {

#[derive(Clone, Copy, Debug, PartialEq, Eq, Structural)]
pub enum SyncMethod {
    Timecode,
    Audio,
    Manual,
    InPoint,
}

/// The method a name selects, if any.
pub open spec fn sync_method_of(name: Seq<char>) -> Option<SyncMethod> {
    if name == "timecode"@ {
        Some(SyncMethod::Timecode)
    } else if name == "audio"@ {
        Some(SyncMethod::Audio)
    } else if name == "manual"@ {
        Some(SyncMethod::Manual)
    } else if name == "in_point"@ {
        Some(SyncMethod::InPoint)
    } else {
        None
    }
}

impl SyncMethod {
    pub fn from_name(name: &str) -> (r: Option<SyncMethod>)
        ensures
            r == sync_method_of(name@),
    {
        if str_eq(name, "timecode") {
            Some(SyncMethod::Timecode)
        } else if str_eq(name, "audio") {
            Some(SyncMethod::Audio)
        } else if str_eq(name, "manual") {
            Some(SyncMethod::Manual)
        } else if str_eq(name, "in_point") {
            Some(SyncMethod::InPoint)
        } else {
            None
        }
    }
}

/// One camera of a multi-camera shoot.
#[derive(Debug)]
pub struct CameraAngle {
    pub name: String,
    /// Video file path or device id.
    pub source: String,
    /// Time offset of this source.
    pub offset: i64,
    pub enabled: bool,
    pub sync_method: SyncMethod,
}

impl CameraAngle {
    pub fn new(name: String, source: String) -> (r: CameraAngle)
        ensures
            r.name@ == name@,
            r.source@ == source@,
            r.offset == 0,
            r.enabled,
            r.sync_method == SyncMethod::Timecode,
    {
        CameraAngle { name, source, offset: 0, enabled: true, sync_method: SyncMethod::Timecode }
    }

    /// Sets the sync method by name; an unknown name fails with
    /// `InvalidEnum` and changes nothing.
    pub fn set_sync_method(&mut self, method: &str) -> (r: Result<(), FluxError>)
        ensures
            sync_method_of(method@) is Some ==> r is Ok && final(self).sync_method
                == sync_method_of(method@)->0,
            sync_method_of(method@) is None ==> (r matches Err(FluxError::InvalidEnum { value })
                && value@ == method@) && final(self).sync_method == old(self).sync_method,
            final(self).offset == old(self).offset,
            final(self).name == old(self).name,
            final(self).enabled == old(self).enabled,
            final(self).source == old(self).source,
    {
        match SyncMethod::from_name(method) {
            Some(m) => {
                self.sync_method = m;
                Ok(())
            },
            None => Err(FluxError::invalid_enum(method)),
        }
    }

    pub fn set_offset(&mut self, offset: i64)
        ensures
            final(self).offset == offset,
            final(self).sync_method == old(self).sync_method,
            final(self).name == old(self).name,
            final(self).source == old(self).source,
            final(self).enabled == old(self).enabled,
    {
        self.offset = offset;
    }

    pub fn get_offset(&self) -> (r: i64)
        ensures
            r == self.offset,
    {
        self.offset
    }
}

/// A switch to angle `angle_index` at `time`.
#[derive(Debug)]
pub struct MultiCamCut {
    pub time: i64,
    pub angle_index: usize,
    pub transition: String,
}

/// Cut times never decrease along the sequence.
pub open spec fn cuts_sorted(cuts: Seq<MultiCamCut>) -> bool {
    forall|i: int, j: int| 0 <= i < j < cuts.len() ==> cuts[i].time <= cuts[j].time
}

/// The first index at or after `i` whose cut lies strictly after `t`.
pub open spec fn first_cut_after(cuts: Seq<MultiCamCut>, t: int, i: int) -> int
    decreases cuts.len() - i,
{
    if i < 0 || i >= cuts.len() {
        cuts.len() as int
    } else if cuts[i].time > t {
        i
    } else {
        first_cut_after(cuts, t, i + 1)
    }
}

/// The angle of the latest cut at or before `t`, scanning from the last cut
/// back; `fallback` when no cut qualifies.
pub open spec fn active_angle_spec(cuts: Seq<MultiCamCut>, fallback: usize, t: int) -> usize
    decreases cuts.len(),
{
    if cuts.len() == 0 {
        fallback
    } else if cuts.last().time <= t {
        cuts.last().angle_index
    } else {
        active_angle_spec(cuts.drop_last(), fallback, t)
    }
}

proof fn lemma_first_cut_after_bounds(cuts: Seq<MultiCamCut>, t: int, i: int)
    requires
        0 <= i <= cuts.len(),
    ensures
        i <= first_cut_after(cuts, t, i) <= cuts.len(),
        forall|k: int| i <= k < first_cut_after(cuts, t, i) ==> cuts[k].time <= t,
        first_cut_after(cuts, t, i) < cuts.len() ==> cuts[first_cut_after(cuts, t, i)].time > t,
    decreases cuts.len() - i,
{
    if i < cuts.len() && cuts[i].time <= t {
        lemma_first_cut_after_bounds(cuts, t, i + 1);
    }
}

/// Cuts kept in time order.
#[derive(Debug)]
pub struct CutList {
    cuts: Vec<MultiCamCut>,
}

impl View for CutList {
    type V = Seq<MultiCamCut>;

    closed spec fn view(&self) -> Seq<MultiCamCut> {
        self.cuts@
    }
}

impl CutList {
    #[verifier::type_invariant]
    spec fn inv(&self) -> bool {
        cuts_sorted(self.cuts@)
    }

    pub fn new() -> (r: CutList)
        ensures
            r@.len() == 0,
    {
        CutList { cuts: Vec::new() }
    }

    /// Inserts a cut after every cut at or before its time.
    pub fn insert(&mut self, cut: MultiCamCut)
        ensures
            final(self)@ == old(self)@.insert(first_cut_after(old(self)@, cut.time as int, 0), cut),
            cuts_sorted(final(self)@),
    {
        proof {
            use_type_invariant(&*self);
        }
        let time = cut.time;
        let mut v: Vec<MultiCamCut> = Vec::new();
        std::mem::swap(&mut v, &mut self.cuts);
        let n = v.len();
        let mut p: usize = 0;
        while p < n && v[p].time <= time
            invariant
                p <= n == v@.len(),
                first_cut_after(v@, time as int, 0) == first_cut_after(v@, time as int, p as int),
            decreases n - p,
        {
            p = p + 1;
        }
        proof {
            lemma_first_cut_after_bounds(v@, time as int, p as int);
            lemma_first_cut_after_bounds(v@, time as int, 0);
        }
        let ghost before = v@;
        v.insert(p, cut);
        assert(cuts_sorted(v@)) by {
            assert forall|i: int, j: int| 0 <= i < j < v@.len() implies v@[i].time
                <= v@[j].time by {
                if i < p && j > p {
                    assert(before[i].time <= time);
                } else if i == p && j > p {
                    if before[j - 1].time <= time {
                        assert(before[p as int].time <= before[j - 1].time);
                    }
                } else if j == p {
                    assert(before[i].time <= time);
                }
            }
        }
        self.cuts = v;
    }

    pub fn len(&self) -> (r: usize)
        ensures
            r == self@.len(),
    {
        self.cuts.len()
    }

    /// Cut `i`, as `(time, angle_index)`.
    pub fn get(&self, i: usize) -> (r: (i64, usize))
        requires
            i < self@.len(),
        ensures
            r == (self@[i as int].time, self@[i as int].angle_index),
    {
        (self.cuts[i].time, self.cuts[i].angle_index)
    }

    /// The angle of the latest cut at or before `time`, else `fallback`.
    pub fn angle_at(&self, fallback: usize, time: i64) -> (r: usize)
        ensures
            r == active_angle_spec(self@, fallback, time as int),
    {
        let mut i = self.cuts.len();
        assert(self.cuts@.subrange(0, i as int) =~= self.cuts@);
        while i > 0
            invariant
                i <= self.cuts@.len(),
                active_angle_spec(self.cuts@, fallback, time as int) == active_angle_spec(
                    self.cuts@.subrange(0, i as int),
                    fallback,
                    time as int,
                ),
            decreases i,
        {
            let ghost s = self.cuts@.subrange(0, i as int);
            assert(s.drop_last() =~= self.cuts@.subrange(0, i - 1));
            if self.cuts[i - 1].time <= time {
                return self.cuts[i - 1].angle_index;
            }
            i = i - 1;
        }
        assert(self.cuts@.subrange(0, 0) =~= Seq::<MultiCamCut>::empty());
        fallback
    }
}

/// `a` is `o` with its offset set to `offset`.
pub open spec fn shifted_angle(a: CameraAngle, o: CameraAngle, offset: int) -> bool {
    &&& a.offset == offset
    &&& a.name == o.name
    &&& a.source == o.source
    &&& a.enabled == o.enabled
    &&& a.sync_method == o.sync_method
}

/// Angles, cuts and the fallback angle of a multi-camera edit.
#[derive(Debug)]
pub struct MultiCamSequence {
    pub angles: Vec<CameraAngle>,
    /// The angle shown where no cut precedes the time.
    pub active_angle: usize,
    pub cuts: CutList,
    pub sync_point: i64,
}

impl MultiCamSequence {
    /// The cuts, in time order.
    pub open spec fn cuts_view(&self) -> Seq<MultiCamCut> {
        self.cuts@
    }

    pub fn new() -> (r: MultiCamSequence)
        ensures
            r.angles@.len() == 0,
            r.active_angle == 0,
            r.cuts_view().len() == 0,
            r.sync_point == 0,
    {
        MultiCamSequence { angles: Vec::new(), active_angle: 0, cuts: CutList::new(), sync_point: 0 }
    }

    pub fn add_angle(&mut self, angle: CameraAngle)
        ensures
            final(self).angles@ == old(self).angles@.push(angle),
            final(self).cuts_view() == old(self).cuts_view(),
            final(self).active_angle == old(self).active_angle,
            final(self).sync_point == old(self).sync_point,
    {
        self.angles.push(angle);
    }

    /// Removes angle `index`; an index past the end fails with
    /// `IndexOutOfRange` and changes nothing.
    pub fn remove_angle(&mut self, index: usize) -> (r: Result<(), FluxError>)
        ensures
            index < old(self).angles@.len() ==> r is Ok && final(self).angles@ == old(self).angles@.remove(index as int),
            index >= old(self).angles@.len() ==> r == Err::<(), FluxError>(
                FluxError::IndexOutOfRange { index, len: old(self).angles@.len() as usize },
            ) && final(self).angles@ == old(self).angles@,
            final(self).cuts_view() == old(self).cuts_view(),
            final(self).active_angle == old(self).active_angle,
            final(self).sync_point == old(self).sync_point,
    {
        if index < self.angles.len() {
            self.angles.remove(index);
            Ok(())
        } else {
            Err(FluxError::IndexOutOfRange { index, len: self.angles.len() })
        }
    }

    /// Synchronises the angles. `in_point` sets every offset to minus the
    /// sync point (saturated); `timecode` and `audio` are aligned by an
    /// outside collaborator and change nothing here; any other name fails
    /// with `InvalidEnum` and changes nothing.
    pub fn sync_angles(&mut self, method: &str) -> (r: Result<(), FluxError>)
        ensures
            (method@ == "timecode"@ || method@ == "audio"@) ==> r is Ok && final(self).angles@
                == old(self).angles@,
            method@ == "in_point"@ ==> r is Ok && final(self).angles@.len() == old(self).angles@.len() && forall|i: int|
                0 <= i < old(self).angles@.len() ==> shifted_angle(
                    #[trigger] final(self).angles@[i],
                    old(self).angles@[i],
                    saturate(-old(self).sync_point),
                ),
            !(method@ == "timecode"@ || method@ == "audio"@ || method@ == "in_point"@) ==> (r matches Err(
                FluxError::InvalidEnum { value },
            ) && value@ == method@) && final(self).angles@ == old(self).angles@,
            final(self).cuts_view() == old(self).cuts_view(),
            final(self).sync_point == old(self).sync_point,
            final(self).active_angle == old(self).active_angle,
    {
        proof {
            reveal_strlit("timecode");
            reveal_strlit("audio");
            reveal_strlit("in_point");
            assert("timecode"@[0] != "in_point"@[0]);
            assert("audio"@[0] != "in_point"@[0]);
        }
        if str_eq(method, "timecode") || str_eq(method, "audio") {
            Ok(())
        } else if str_eq(method, "in_point") {
            let off = saturate_i128(-(self.sync_point as i128));
            let mut rest: Vec<CameraAngle> = Vec::new();
            std::mem::swap(&mut rest, &mut self.angles);
            let ghost orig = rest@;
            let mut out: Vec<CameraAngle> = Vec::new();
            while rest.len() > 0
                invariant
                    off == saturate(-self.sync_point),
                    orig == old(self).angles@,
                    self.sync_point == old(self).sync_point,
                    out@.len() + rest@.len() == orig.len(),
                    rest@ == orig.subrange(out@.len() as int, orig.len() as int),
                    forall|i: int|
                        0 <= i < out@.len() ==> shifted_angle(#[trigger] out@[i], orig[i], off as int),
                decreases rest@.len(),
            {
                let ghost k = out@.len();
                let ghost prev = out@;
                let mut a = rest.remove(0);
                assert(a == orig[k as int]);
                assert(rest@ =~= orig.subrange(k as int + 1, orig.len() as int));
                a.offset = off;
                out.push(a);
                assert forall|i: int| 0 <= i < out@.len() implies shifted_angle(
                    #[trigger] out@[i],
                    orig[i],
                    off as int,
                ) by {
                    if i < k {
                        assert(out@[i] == prev[i]);
                    }
                }
            }
            self.angles = out;
            Ok(())
        } else {
            Err(FluxError::invalid_enum(method))
        }
    }

    /// Adds a cut to angle `angle_index` at `time`, after every cut at or
    /// before that time; an index past the angles fails with
    /// `IndexOutOfRange` and changes nothing.
    pub fn add_cut(&mut self, time: i64, angle_index: usize, transition: String) -> (r: Result<
        (),
        FluxError,
    >)
        ensures
            angle_index < old(self).angles@.len() ==> r is Ok && final(self).cuts_view() == old(self).cuts_view().insert(
                first_cut_after(old(self).cuts_view(), time as int, 0),
                MultiCamCut { time, angle_index, transition },
            ),
            angle_index >= old(self).angles@.len() ==> r == Err::<(), FluxError>(
                FluxError::IndexOutOfRange { index: angle_index, len: old(self).angles@.len() as usize },
            ) && final(self).cuts_view() == old(self).cuts_view(),
            cuts_sorted(final(self).cuts_view()),
            final(self).angles@ == old(self).angles@,
            final(self).active_angle == old(self).active_angle,
            final(self).sync_point == old(self).sync_point,
    {
        proof {
            use_type_invariant(&self.cuts);
        }
        if angle_index >= self.angles.len() {
            return Err(FluxError::IndexOutOfRange { index: angle_index, len: self.angles.len() });
        }
        self.cuts.insert(MultiCamCut { time, angle_index, transition });
        Ok(())
    }

    /// The angle in effect at `time`: that of the latest cut at or before it,
    /// else `active_angle`.
    pub fn get_active_angle_at(&self, time: i64) -> (r: Option<usize>)
        ensures
            r == Some(active_angle_spec(self.cuts_view(), self.active_angle, time as int)),
    {
        Some(self.cuts.angle_at(self.active_angle, time))
    }

    /// Makes angle `angle_index` the fallback; an index past the end fails
    /// with `IndexOutOfRange` and changes nothing.
    pub fn switch_angle(&mut self, angle_index: usize) -> (r: Result<(), FluxError>)
        ensures
            angle_index < old(self).angles@.len() ==> r is Ok && final(self).active_angle
                == angle_index,
            angle_index >= old(self).angles@.len() ==> r == Err::<(), FluxError>(
                FluxError::IndexOutOfRange { index: angle_index, len: old(self).angles@.len() as usize },
            ) && final(self).active_angle == old(self).active_angle,
            final(self).angles@ == old(self).angles@,
            final(self).cuts_view() == old(self).cuts_view(),
            final(self).sync_point == old(self).sync_point,
    {
        if angle_index < self.angles.len() {
            self.active_angle = angle_index;
            Ok(())
        } else {
            Err(FluxError::IndexOutOfRange { index: angle_index, len: self.angles.len() })
        }
    }

    /// One `"name: source"` line per angle.
    pub fn preview_all_angles(&self) -> (r: Vec<String>)
        ensures
            r@.len() == self.angles@.len(),
            forall|i: int|
                0 <= i < r@.len() ==> #[trigger] r@[i]@ == self.angles@[i].name@ + ": "@
                    + self.angles@[i].source@,
    {
        let mut out: Vec<String> = Vec::new();
        let mut i: usize = 0;
        while i < self.angles.len()
            invariant
                i <= self.angles@.len(),
                out@.len() == i,
                forall|k: int|
                    0 <= k < i ==> #[trigger] out@[k]@ == self.angles@[k].name@ + ": "@
                        + self.angles@[k].source@,
            decreases self.angles@.len() - i,
        {
            let mut line = String::from_str(self.angles[i].name.as_str());
            line.append(": ");
            line.append(self.angles[i].source.as_str());
            out.push(line);
            i = i + 1;
        }
        out
    }

    /// Number of cuts.
    pub fn cut_count(&self) -> (r: usize)
        ensures
            r == self.cuts_view().len(),
    {
        self.cuts.len()
    }

    /// Cut `i`, as `(time, angle_index)`.
    pub fn cut_at(&self, i: usize) -> (r: (i64, usize))
        requires
            i < self.cuts_view().len(),
        ensures
            r == (self.cuts_view()[i as int].time, self.cuts_view()[i as int].angle_index),
    {
        self.cuts.get(i)
    }
}

/// An editor around one multi-camera sequence.
#[derive(Debug)]
pub struct MultiCamEditor {
    pub sequence: MultiCamSequence,
    /// "active", "all" or "quad".
    pub preview_mode: String,
    pub show_timecode: bool,
}

/// `after` is `before` with a cut at `time` to angle `index`, carrying
/// transition `transition`, placed after every cut at or before `time`.
pub open spec fn inserted_cut(
    before: Seq<MultiCamCut>,
    after: Seq<MultiCamCut>,
    time: i64,
    index: int,
    transition: Seq<char>,
) -> bool {
    let p = first_cut_after(before, time as int, 0);
    &&& after.len() == before.len() + 1
    &&& forall|k: int| 0 <= k < p ==> #[trigger] after[k] == before[k]
    &&& forall|k: int| p < k < after.len() ==> #[trigger] after[k] == before[k - 1]
    &&& after[p].time == time
    &&& after[p].angle_index == index
    &&& after[p].transition@ == transition
}

/// Index of the first angle named `name`, if any.
pub open spec fn angle_named(angles: Seq<CameraAngle>, name: Seq<char>) -> Option<int> {
    if exists|i: int| 0 <= i < angles.len() && angles[i].name@ == name {
        Some(
            choose|i: int|
                0 <= i < angles.len() && angles[i].name@ == name && forall|k: int|
                    0 <= k < i ==> angles[k].name@ != name,
        )
    } else {
        None
    }
}

impl MultiCamEditor {
    pub fn new() -> (r: MultiCamEditor)
        ensures
            r.sequence.angles@.len() == 0,
            r.sequence.cuts_view().len() == 0,
            r.preview_mode@ == "active"@,
            r.show_timecode,
    {
        MultiCamEditor {
            sequence: MultiCamSequence::new(),
            preview_mode: String::from_str("active"),
            show_timecode: true,
        }
    }

    /// Adds an angle named `name` reading `source`.
    pub fn add_camera(&mut self, name: String, source: String)
        ensures
            final(self).sequence.angles@.len() == old(self).sequence.angles@.len() + 1,
            final(self).sequence.angles@.last().name@ == name@,
            final(self).sequence.angles@.last().source@ == source@,
            final(self).sequence.angles@.drop_last() == old(self).sequence.angles@,
            final(self).sequence.cuts_view() == old(self).sequence.cuts_view(),
    {
        let angle = CameraAngle::new(name, source);
        self.sequence.add_angle(angle);
        assert(self.sequence.angles@.drop_last() =~= old(self).sequence.angles@);
    }

    /// Synchronises the angles by audio, which the alignment collaborator does.
    pub fn auto_sync(&mut self) -> (r: Result<(), FluxError>)
        ensures
            r is Ok,
            final(self).sequence.angles@ == old(self).sequence.angles@,
            final(self).sequence.cuts_view() == old(self).sequence.cuts_view(),
    {
        proof {
            reveal_strlit("audio");
            reveal_strlit("timecode");
        }
        self.sequence.sync_angles("audio")
    }

    /// Cuts to the first angle named `angle_name` at `time`; an unknown name
    /// fails with `InvalidEnum` and changes nothing.
    pub fn cut_to_angle(&mut self, time: i64, angle_name: &str) -> (r: Result<(), FluxError>)
        ensures
            angle_named(old(self).sequence.angles@, angle_name@) is Some ==> r is Ok && inserted_cut(
                old(self).sequence.cuts_view(),
                final(self).sequence.cuts_view(),
                time,
                angle_named(old(self).sequence.angles@, angle_name@)->0,
                "cut"@,
            ),
            final(self).sequence.active_angle == old(self).sequence.active_angle,
            final(self).sequence.sync_point == old(self).sequence.sync_point,
            angle_named(old(self).sequence.angles@, angle_name@) is None ==> (r matches Err(
                FluxError::InvalidEnum { value },
            ) && value@ == angle_name@) && final(self).sequence.cuts_view() == old(self).sequence.cuts_view(),
            final(self).sequence.angles@ == old(self).sequence.angles@,
    {
        let n = self.sequence.angles.len();
        let mut i: usize = 0;
        while i < n
            invariant
                i <= n == self.sequence.angles@.len(),
                forall|k: int| 0 <= k < i ==> self.sequence.angles@[k].name@ != angle_name@,
                self.sequence.angles@ == old(self).sequence.angles@,
                self.sequence.cuts_view() == old(self).sequence.cuts_view(),
                self.sequence.active_angle == old(self).sequence.active_angle,
                self.sequence.sync_point == old(self).sequence.sync_point,
            decreases n - i,
        {
            if str_eq(self.sequence.angles[i].name.as_str(), angle_name) {
                proof {
                    let angles = self.sequence.angles@;
                    let c = choose|j: int|
                        0 <= j < angles.len() && angles[j].name@ == angle_name@ && forall|k: int|
                            0 <= k < j ==> angles[k].name@ != angle_name@;
                    assert(0 <= i < angles.len() && angles[i as int].name@ == angle_name@ && forall|
                        k: int,
                    | 0 <= k < i ==> angles[k].name@ != angle_name@);
                    if c > i {
                        assert(angles[i as int].name@ != angle_name@);
                    }
                    assert(c == i);
                }
                let r = self.sequence.add_cut(time, i, String::from_str("cut"));
                proof {
                    lemma_first_cut_after_bounds(old(self).sequence.cuts_view(), time as int, 0);
                    let p = first_cut_after(old(self).sequence.cuts_view(), time as int, 0);
                    assert(self.sequence.cuts_view()[p].angle_index == i);
                    reveal_strlit("cut");
                }
                return r;
            }
            i = i + 1;
        }
        Err(FluxError::invalid_enum(angle_name))
    }
}

} // verus!
