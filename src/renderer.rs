//! The renderer: walks the frames of its scenes at a fixed frame rate.
use crate::node::NodeProperties;
use crate::scene::{sample_spec, Scene};
use crate::time::{
    frames_to_seconds, frames_to_seconds_spec, seconds_to_frames, seconds_to_frames_spec,
};
use vstd::prelude::*;

verus! {

/// Frames each scene lasts at `fps`.
pub open spec fn frame_counts(scenes: Seq<Scene>, fps: u32) -> Seq<int> {
    scenes.map_values(|sc: Scene| seconds_to_frames_spec(sc.duration as int, fps as int))
}

/// Scene index and frame within it of global frame `f`, counting from scene
/// `i` on; `None` past the last scene.
pub open spec fn locate_from(counts: Seq<int>, f: int, i: int) -> Option<(int, int)>
    decreases counts.len() - i,
{
    if i < 0 || i >= counts.len() {
        None
    } else if f < counts[i] {
        Some((i, f))
    } else {
        locate_from(counts, f - counts[i], i + 1)
    }
}

/// Output size, frame rate and the scenes to play one after another.
#[derive(Debug)]
pub struct Renderer {
    pub width: u32,
    pub height: u32,
    pub fps: u32,
    pub scenes: Vec<Scene>,
}

impl Renderer {
    pub fn new(width: u32, height: u32, fps: u32) -> (r: Renderer)
        ensures
            r.width == width,
            r.height == height,
            r.fps == fps,
            r.scenes@.len() == 0,
    {
        Renderer { width, height, fps, scenes: Vec::new() }
    }

    pub fn add_scene(&mut self, scene: Scene)
        ensures
            final(self).scenes@ == old(self).scenes@.push(scene),
            final(self).fps == old(self).fps,
    {
        self.scenes.push(scene);
    }

    /// Number of frames scene `index` lasts.
    pub fn scene_frames(&self, index: usize) -> (r: u32)
        requires
            index < self.scenes@.len(),
        ensures
            r == seconds_to_frames_spec(self.scenes@[index as int].duration as int, self.fps as int),
    {
        seconds_to_frames(self.scenes[index].duration, self.fps)
    }

    /// Time, within its scene, of frame `frame`.
    pub fn frame_time(&self, frame: u32) -> (r: i64)
        ensures
            r == frames_to_seconds_spec(frame as int, self.fps as int),
    {
        frames_to_seconds(frame, self.fps)
    }

    /// The state of every node of scene `index` at frame `frame`, in z-order.
    pub fn frame_state(&self, index: usize, frame: u32) -> (r: Vec<NodeProperties>)
        requires
            index < self.scenes@.len(),
        ensures
            r@ == sample_spec(
                self.scenes@[index as int].nodes@,
                frames_to_seconds_spec(frame as int, self.fps as int),
            ),
    {
        let t = self.frame_time(frame);
        self.scenes[index].sample(t)
    }

    /// Scene index and frame within that scene of global frame `frame`, the
    /// scenes playing back to back; `None` past the end.
    pub fn locate(&self, frame: u64) -> (r: Option<(usize, u32)>)
        ensures
            match locate_from(frame_counts(self.scenes@, self.fps), frame as int, 0) {
                Some((i, f)) => r == Some((i as usize, f as u32)),
                None => r is None,
            },
    {
        let ghost counts = frame_counts(self.scenes@, self.fps);
        let mut rem = frame;
        let mut i: usize = 0;
        while i < self.scenes.len()
            invariant
                i <= self.scenes@.len(),
                counts == frame_counts(self.scenes@, self.fps),
                counts.len() == self.scenes@.len(),
                locate_from(counts, frame as int, 0) == locate_from(counts, rem as int, i as int),
            decreases self.scenes@.len() - i,
        {
            let n = self.scene_frames(i);
            assert(counts[i as int] == n);
            if rem < n as u64 {
                return Some((i, rem as u32));
            }
            rem = rem - n as u64;
            i = i + 1;
        }
        None
    }

    /// Node states of global frame `frame`, if it falls within a scene.
    pub fn global_frame_state(&self, frame: u64) -> (r: Option<Vec<NodeProperties>>)
        ensures
            match locate_from(frame_counts(self.scenes@, self.fps), frame as int, 0) {
                Some((i, f)) => r is Some && r->0@ == sample_spec(
                    self.scenes@[i].nodes@,
                    frames_to_seconds_spec(f, self.fps as int),
                ),
                None => r is None,
            },
    {
        let loc = self.locate(frame);
        let n = self.scenes.len();
        match loc {
            Some((i, f)) => {
                proof {
                    let counts = frame_counts(self.scenes@, self.fps);
                    assert forall|k: int| 0 <= k < counts.len() implies 0 <= #[trigger] counts[k] <= u32::MAX by {
                        assert(counts[k] == seconds_to_frames_spec(
                            self.scenes@[k].duration as int,
                            self.fps as int,
                        ));
                    }
                    lemma_locate_in_range(counts, frame as int, 0);
                    let (j, g) = locate_from(counts, frame as int, 0)->0;
                    assert(counts.len() == n);
                    assert(0 <= j < counts.len() && 0 <= g < counts[j]);
                    assert(counts[j] <= u32::MAX);
                    assert(loc == Some((j as usize, g as u32)));
                }
                Some(self.frame_state(i, f))
            },
            None => None,
        }
    }
}

/// A located frame names an existing scene and a frame before its end.
pub proof fn lemma_locate_in_range(counts: Seq<int>, f: int, i: int)
    requires
        0 <= i,
        0 <= f,
        forall|k: int| 0 <= k < counts.len() ==> counts[k] >= 0,
    ensures
        locate_from(counts, f, i) matches Some((j, g)) ==> i <= j < counts.len() && 0 <= g
            < counts[j] && g <= f,
    decreases counts.len() - i,
{
    if 0 <= i < counts.len() && f >= counts[i] {
        lemma_locate_in_range(counts, f - counts[i], i + 1);
    }
}

} // verus!
