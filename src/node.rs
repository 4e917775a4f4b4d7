//! Scene-graph nodes: spatial state plus keyframe tracks per property.
use crate::animation::{insert_sorted, value_at_spec, Keyframe, KeyframeTrack};
use crate::easing::{easing_of, Easing};
use crate::fixed::{clamp_i64, clamp_spec, saturate, saturate_i128, ONE};
use crate::geometry::Point;
use crate::text::{decimal_spec, push_decimal, str_eq};
use vstd::prelude::*;
use vstd::utf8::encode_utf8;

verus! {

/// Length of the animations that `scale` and `slide` register (one second).
pub const MOVE_DURATION: i64 = ONE;

/// Offset of the `left`/`right`/`top`/`bottom` alignments from the centre.
pub const ALIGN_OFFSET: i64 = 500_000;

/// The live (unanimated) state of a node.
#[derive(Clone, Copy, Debug, PartialEq, Eq, Structural)]
pub struct NodeProperties {
    pub position: Point,
    /// Horizontal (`x`) and vertical (`y`) scale factors.
    pub scale: Point,
    /// Rotation in degrees.
    pub rotation: i64,
    pub opacity: i64,
    pub visible: bool,
}

/// At the origin, unscaled, unrotated, opaque and visible.
pub open spec fn default_properties() -> NodeProperties {
    NodeProperties {
        position: Point { x: 0, y: 0 },
        scale: Point { x: ONE, y: ONE },
        rotation: 0,
        opacity: ONE,
        visible: true,
    }
}

impl Default for NodeProperties {
    /// See `default_properties`.
    fn default() -> (r: NodeProperties)
        ensures
            r == default_properties(),
    {
        NodeProperties {
            position: Point { x: 0, y: 0 },
            scale: Point { x: ONE, y: ONE },
            rotation: 0,
            opacity: ONE,
            visible: true,
        }
    }
}

/// The properties a keyframe track can drive.
#[derive(Clone, Copy, Debug, PartialEq, Eq, Structural)]
pub enum Property {
    Opacity,
    PositionX,
    PositionY,
    ScaleX,
    ScaleY,
    Rotation,
}

/// The tracks attached to a node, at most one per property.
#[derive(Debug)]
pub struct NodeTracks {
    pub opacity: Option<KeyframeTrack>,
    pub position_x: Option<KeyframeTrack>,
    pub position_y: Option<KeyframeTrack>,
    pub scale_x: Option<KeyframeTrack>,
    pub scale_y: Option<KeyframeTrack>,
    pub rotation: Option<KeyframeTrack>,
}

/// Keyframes of an optional track; `None` when there is no track.
pub open spec fn track_view(t: Option<KeyframeTrack>) -> Option<Seq<Keyframe>> {
    match t {
        Some(k) => Some(k@),
        None => None,
    }
}

impl NodeTracks {
    pub open spec fn get(&self, p: Property) -> Option<Seq<Keyframe>> {
        match p {
            Property::Opacity => track_view(self.opacity),
            Property::PositionX => track_view(self.position_x),
            Property::PositionY => track_view(self.position_y),
            Property::ScaleX => track_view(self.scale_x),
            Property::ScaleY => track_view(self.scale_y),
            Property::Rotation => track_view(self.rotation),
        }
    }

    pub fn new() -> (r: NodeTracks)
        ensures
            forall|p: Property| #[trigger] r.get(p) is None,
    {
        NodeTracks {
            opacity: None,
            position_x: None,
            position_y: None,
            scale_x: None,
            scale_y: None,
            rotation: None,
        }
    }

    /// Replaces the track of `p` with `track`.
    pub fn set(&mut self, p: Property, track: KeyframeTrack)
        ensures
            final(self).get(p) == Some(track@),
            forall|q: Property| q != p ==> #[trigger] final(self).get(q) == old(self).get(q),
    {
        match p {
            Property::Opacity => self.opacity = Some(track),
            Property::PositionX => self.position_x = Some(track),
            Property::PositionY => self.position_y = Some(track),
            Property::ScaleX => self.scale_x = Some(track),
            Property::ScaleY => self.scale_y = Some(track),
            Property::Rotation => self.rotation = Some(track),
        }
    }

    /// Adds a keyframe to the track of `p`, starting the track if there is none.
    pub fn add_keyframe(&mut self, p: Property, k: Keyframe)
        ensures
            final(self).get(p) == Some(
                match old(self).get(p) {
                    Some(s) => insert_sorted(s, k),
                    None => seq![k],
                },
            ),
            forall|q: Property| q != p ==> #[trigger] final(self).get(q) == old(self).get(q),
    {
        let slot = match p {
            Property::Opacity => &mut self.opacity,
            Property::PositionX => &mut self.position_x,
            Property::PositionY => &mut self.position_y,
            Property::ScaleX => &mut self.scale_x,
            Property::ScaleY => &mut self.scale_y,
            Property::Rotation => &mut self.rotation,
        };
        add_to_slot(slot, k);
    }

    /// Value of `p` at `t`: its track's value, or `live` without a track.
    pub fn sample(&self, p: Property, live: i64, t: i64) -> (r: i64)
        ensures
            r == sampled(self.get(p), live as int, t as int),
    {
        let slot = match p {
            Property::Opacity => &self.opacity,
            Property::PositionX => &self.position_x,
            Property::PositionY => &self.position_y,
            Property::ScaleX => &self.scale_x,
            Property::ScaleY => &self.scale_y,
            Property::Rotation => &self.rotation,
        };
        match slot {
            Some(track) => track.value_at(t),
            None => live,
        }
    }
}

fn add_to_slot(slot: &mut Option<KeyframeTrack>, k: Keyframe)
    ensures
        track_view(*final(slot)) == Some(
            match track_view(*old(slot)) {
                Some(s) => insert_sorted(s, k),
                None => seq![k],
            },
        ),
{
    match slot {
        Some(track) => track.add_keyframe(k.time, k.value, k.easing),
        None => {
            *slot = Some(KeyframeTrack::with_keyframe(k.time, k.value, k.easing));
        },
    }
}

/// The value a property takes at `t`: from its track if it has one, else `live`.
pub open spec fn sampled(track: Option<Seq<Keyframe>>, live: int, t: int) -> int {
    match track {
        Some(s) => value_at_spec(s, t),
        None => live,
    }
}

/// The state of a node at `t`: every tracked property sampled at `t`, the
/// others live; opacity kept in `[0, ONE]`.
pub open spec fn animated_spec(p: NodeProperties, tr: NodeTracks, t: int) -> NodeProperties {
    NodeProperties {
        position: Point {
            x: sampled(tr.get(Property::PositionX), p.position.x as int, t) as i64,
            y: sampled(tr.get(Property::PositionY), p.position.y as int, t) as i64,
        },
        scale: Point {
            x: sampled(tr.get(Property::ScaleX), p.scale.x as int, t) as i64,
            y: sampled(tr.get(Property::ScaleY), p.scale.y as int, t) as i64,
        },
        rotation: sampled(tr.get(Property::Rotation), p.rotation as int, t) as i64,
        opacity: clamp_spec(sampled(tr.get(Property::Opacity), p.opacity as int, t), 0, ONE as int)
            as i64,
        visible: p.visible,
    }
}

/// A two-keyframe track: `from` at `0`, `to` at `duration`.
pub open spec fn ramp(from: i64, to: i64, duration: i64, easing: Easing) -> Seq<Keyframe> {
    insert_sorted(
        seq![Keyframe { time: 0, value: from, easing }],
        Keyframe { time: duration, value: to, easing: Easing::Linear },
    )
}

fn ramp_track(from: i64, to: i64, duration: i64, easing: Easing) -> (r: KeyframeTrack)
    ensures
        r@ == ramp(from, to, duration, easing),
{
    let mut t = KeyframeTrack::with_keyframe(0, from, easing);
    t.add_keyframe(duration, to, Easing::Linear);
    t
}

/// A scene-graph entity with an id, live properties and property tracks.
#[derive(Debug)]
pub struct Node {
    pub id: String,
    pub properties: NodeProperties,
    pub tracks: NodeTracks,
}

/// Where an alignment name puts a position; unknown names leave it.
pub open spec fn aligned(pos: Point, alignment: Seq<char>) -> Point {
    if alignment == "center"@ {
        Point { x: 0, y: 0 }
    } else if alignment == "left"@ {
        Point { x: (0 - ALIGN_OFFSET) as i64, y: pos.y }
    } else if alignment == "right"@ {
        Point { x: ALIGN_OFFSET, y: pos.y }
    } else if alignment == "top"@ {
        Point { x: pos.x, y: ALIGN_OFFSET }
    } else if alignment == "bottom"@ {
        Point { x: pos.x, y: (0 - ALIGN_OFFSET) as i64 }
    } else {
        pos
    }
}

impl Node {
    /// A node with default properties and no tracks.
    pub fn new(id: String) -> (r: Node)
        ensures
            r.id@ == id@,
            r.properties == default_properties(),
            forall|p: Property| #[trigger] r.tracks.get(p) is None,
    {
        Node { id, properties: NodeProperties::default(), tracks: NodeTracks::new() }
    }

    /// Moves to a canonical position: `center` is the origin, `left`/`right`
    /// and `top`/`bottom` sit `ALIGN_OFFSET` from it on one axis.
    pub fn align(&mut self, alignment: &str)
        ensures
            final(self).properties == (NodeProperties {
                position: aligned(old(self).properties.position, alignment@),
                ..old(self).properties
            }),
            final(self).tracks == old(self).tracks,
            final(self).id == old(self).id,
    {
        let p = self.properties.position;
        let np = if str_eq(alignment, "center") {
            Point { x: 0, y: 0 }
        } else if str_eq(alignment, "left") {
            Point { x: -ALIGN_OFFSET, y: p.y }
        } else if str_eq(alignment, "right") {
            Point { x: ALIGN_OFFSET, y: p.y }
        } else if str_eq(alignment, "top") {
            Point { x: p.x, y: ALIGN_OFFSET }
        } else if str_eq(alignment, "bottom") {
            Point { x: p.x, y: -ALIGN_OFFSET }
        } else {
            p
        };
        self.properties.position = np;
    }

    /// Fades in over `duration`: an opacity track from `0` at `0` to `ONE` at
    /// `duration`, with live opacity `0`.
    pub fn fade_in(&mut self, duration: i64)
        ensures
            final(self).tracks.get(Property::Opacity) == Some(ramp(0, ONE, duration, Easing::Linear)),
            forall|q: Property|
                q != Property::Opacity ==> #[trigger] final(self).tracks.get(q) == old(
                    self,
                ).tracks.get(q),
            final(self).properties == (NodeProperties { opacity: 0, ..old(self).properties }),
            final(self).id == old(self).id,
    {
        self.properties.opacity = 0;
        self.tracks.set(Property::Opacity, ramp_track(0, ONE, duration, Easing::Linear));
    }

    /// Fades out over `duration`: an opacity track from `ONE` at `0` to `0`
    /// at `duration`, with live opacity `ONE`.
    pub fn fade_out(&mut self, duration: i64)
        ensures
            final(self).tracks.get(Property::Opacity) == Some(ramp(ONE, 0, duration, Easing::Linear)),
            forall|q: Property|
                q != Property::Opacity ==> #[trigger] final(self).tracks.get(q) == old(
                    self,
                ).tracks.get(q),
            final(self).properties == (NodeProperties { opacity: ONE, ..old(self).properties }),
            final(self).id == old(self).id,
    {
        self.properties.opacity = ONE;
        self.tracks.set(Property::Opacity, ramp_track(ONE, 0, duration, Easing::Linear));
    }

    /// Scales uniformly from `start` to `end` over `MOVE_DURATION`, eased by
    /// the curve named `ease`; the live scale becomes `start`.
    pub fn scale(&mut self, start: i64, end: i64, ease: &str)
        ensures
            final(self).tracks.get(Property::ScaleX) == Some(
                ramp(start, end, MOVE_DURATION, easing_of(ease@)),
            ),
            final(self).tracks.get(Property::ScaleY) == Some(
                ramp(start, end, MOVE_DURATION, easing_of(ease@)),
            ),
            final(self).tracks.get(Property::Opacity) == old(self).tracks.get(Property::Opacity),
            final(self).properties == (NodeProperties {
                scale: Point { x: start, y: start },
                ..old(self).properties
            }),
            final(self).id == old(self).id,
    {
        let e = Easing::from_name(ease);
        self.properties.scale = Point { x: start, y: start };
        self.tracks.set(Property::ScaleX, ramp_track(start, end, MOVE_DURATION, e));
        self.tracks.set(Property::ScaleY, ramp_track(start, end, MOVE_DURATION, e));
    }

    /// Slides from `(start_x, start_y)` to `(end_x, end_y)` over
    /// `MOVE_DURATION`, eased by the curve named `ease`; the live position
    /// becomes the start.
    pub fn slide(&mut self, start_x: i64, start_y: i64, end_x: i64, end_y: i64, ease: &str)
        ensures
            final(self).tracks.get(Property::PositionX) == Some(
                ramp(start_x, end_x, MOVE_DURATION, easing_of(ease@)),
            ),
            final(self).tracks.get(Property::PositionY) == Some(
                ramp(start_y, end_y, MOVE_DURATION, easing_of(ease@)),
            ),
            final(self).tracks.get(Property::Opacity) == old(self).tracks.get(Property::Opacity),
            final(self).properties == (NodeProperties {
                position: Point { x: start_x, y: start_y },
                ..old(self).properties
            }),
            final(self).id == old(self).id,
    {
        let e = Easing::from_name(ease);
        self.properties.position = Point { x: start_x, y: start_y };
        self.tracks.set(Property::PositionX, ramp_track(start_x, end_x, MOVE_DURATION, e));
        self.tracks.set(Property::PositionY, ramp_track(start_y, end_y, MOVE_DURATION, e));
    }

    /// Adds a keyframe to the track of `property`.
    pub fn add_keyframe(&mut self, property: Property, time: i64, value: i64, easing: Easing)
        ensures
            final(self).tracks.get(property) == Some(
                match old(self).tracks.get(property) {
                    Some(s) => insert_sorted(s, Keyframe { time, value, easing }),
                    None => seq![Keyframe { time, value, easing }],
                },
            ),
            forall|q: Property|
                q != property ==> #[trigger] final(self).tracks.get(q) == old(self).tracks.get(q),
            final(self).properties == old(self).properties,
            final(self).id == old(self).id,
    {
        self.tracks.add_keyframe(property, Keyframe { time, value, easing });
    }

    pub fn move_to(&mut self, x: i64, y: i64)
        ensures
            final(self).properties == (NodeProperties {
                position: Point { x, y },
                ..old(self).properties
            }),
            final(self).id == old(self).id,
            final(self).tracks == old(self).tracks,
    {
        self.properties.position = Point { x, y };
    }

    /// Moves by `(dx, dy)`, saturating at the ends of `i64`.
    pub fn move_by(&mut self, dx: i64, dy: i64)
        ensures
            final(self).properties == (NodeProperties {
                position: Point {
                    x: saturate(old(self).properties.position.x + dx) as i64,
                    y: saturate(old(self).properties.position.y + dy) as i64,
                },
                ..old(self).properties
            }),
            final(self).id == old(self).id,
            final(self).tracks == old(self).tracks,
    {
        let p = self.properties.position;
        self.properties.position = Point {
            x: saturate_i128(p.x as i128 + dx as i128),
            y: saturate_i128(p.y as i128 + dy as i128),
        };
    }

    pub fn rotate(&mut self, angle: i64)
        ensures
            final(self).properties == (NodeProperties { rotation: angle, ..old(self).properties }),
            final(self).id == old(self).id,
            final(self).tracks == old(self).tracks,
    {
        self.properties.rotation = angle;
    }

    /// Rotates by `angle` more, saturating at the ends of `i64`.
    pub fn rotate_by(&mut self, angle: i64)
        ensures
            final(self).properties == (NodeProperties {
                rotation: saturate(old(self).properties.rotation + angle) as i64,
                ..old(self).properties
            }),
            final(self).id == old(self).id,
            final(self).tracks == old(self).tracks,
    {
        self.properties.rotation = saturate_i128(self.properties.rotation as i128 + angle as i128);
    }

    /// Sets the opacity, clamped to `[0, ONE]`.
    pub fn set_opacity(&mut self, opacity: i64)
        ensures
            final(self).properties == (NodeProperties {
                opacity: clamp_spec(opacity as int, 0, ONE as int) as i64,
                ..old(self).properties
            }),
            final(self).id == old(self).id,
            final(self).tracks == old(self).tracks,
    {
        self.properties.opacity = clamp_i64(opacity, 0, ONE);
    }

    pub fn set_scale(&mut self, scale_x: i64, scale_y: i64)
        ensures
            final(self).properties == (NodeProperties {
                scale: Point { x: scale_x, y: scale_y },
                ..old(self).properties
            }),
            final(self).id == old(self).id,
            final(self).tracks == old(self).tracks,
    {
        self.properties.scale = Point { x: scale_x, y: scale_y };
    }

    pub fn set_visible(&mut self, visible: bool)
        ensures
            final(self).properties == (NodeProperties { visible, ..old(self).properties }),
            final(self).id == old(self).id,
            final(self).tracks == old(self).tracks,
    {
        self.properties.visible = visible;
    }

    /// The node's state at `t` (see `animated_spec`).
    pub fn animated_properties(&self, t: i64) -> (r: NodeProperties)
        ensures
            r == animated_spec(self.properties, self.tracks, t as int),
    {
        let p = self.properties;
        let x = self.tracks.sample(Property::PositionX, p.position.x, t);
        let y = self.tracks.sample(Property::PositionY, p.position.y, t);
        let sx = self.tracks.sample(Property::ScaleX, p.scale.x, t);
        let sy = self.tracks.sample(Property::ScaleY, p.scale.y, t);
        let rot = self.tracks.sample(Property::Rotation, p.rotation, t);
        let op = self.tracks.sample(Property::Opacity, p.opacity, t);
        NodeProperties {
            position: Point { x, y },
            scale: Point { x: sx, y: sy },
            rotation: rot,
            opacity: clamp_i64(op, 0, ONE),
            visible: p.visible,
        }
    }
}

/// `prefix` followed by the decimal notation of `n`.
pub open spec fn numbered_id(prefix: Seq<char>, n: nat) -> Seq<char> {
    prefix + decimal_spec(n)
}

fn make_id(prefix: &str, n: usize) -> (r: String)
    ensures
        r@ == numbered_id(prefix@, n as nat),
{
    let mut s = String::from_str(prefix);
    push_decimal(&mut s, n as u64);
    s
}

/// A text node; its id is `text_` followed by the text's length in bytes.
#[derive(Debug)]
pub struct TextNode {
    pub node: Node,
    pub text: String,
    pub size: i64,
    pub color: String,
    pub font: Option<String>,
}

impl TextNode {
    pub fn new(text: String, size: i64, color: String) -> (r: TextNode)
        ensures
            r.node.id@ == numbered_id("text_"@, (encode_utf8(text@).len() as usize) as nat),
            r.node.properties == default_properties(),
            forall|p: Property| #[trigger] r.node.tracks.get(p) is None,
            r.text@ == text@,
            r.size == size,
            r.color@ == color@,
            r.font is None,
    {
        let id = make_id("text_", text.as_str().len());
        TextNode { node: Node::new(id), text, size, color, font: None }
    }

    pub fn align(&mut self, alignment: &str)
        ensures
            final(self).node.properties == (NodeProperties {
                position: aligned(old(self).node.properties.position, alignment@),
                ..old(self).node.properties
            }),
            final(self).node.tracks == old(self).node.tracks,
    {
        self.node.align(alignment);
    }

    pub fn fade_in(&mut self, duration: i64)
        ensures
            final(self).node.tracks.get(Property::Opacity) == Some(
                ramp(0, ONE, duration, Easing::Linear),
            ),
            final(self).node.properties == (NodeProperties {
                opacity: 0,
                ..old(self).node.properties
            }),
    {
        self.node.fade_in(duration);
    }

    pub fn scale(&mut self, start: i64, end: i64, ease: &str)
        ensures
            final(self).node.tracks.get(Property::ScaleX) == Some(
                ramp(start, end, MOVE_DURATION, easing_of(ease@)),
            ),
            final(self).node.tracks.get(Property::ScaleY) == Some(
                ramp(start, end, MOVE_DURATION, easing_of(ease@)),
            ),
    {
        self.node.scale(start, end, ease);
    }
}

/// An image node; its id is `image_` followed by the path's length in bytes.
#[derive(Debug)]
pub struct ImageNode {
    pub node: Node,
    pub path: String,
}

impl ImageNode {
    pub fn new(path: String) -> (r: ImageNode)
        ensures
            r.node.id@ == numbered_id("image_"@, (encode_utf8(path@).len() as usize) as nat),
            r.node.properties == default_properties(),
            r.path@ == path@,
    {
        let id = make_id("image_", path.as_str().len());
        ImageNode { node: Node::new(id), path }
    }

    pub fn align(&mut self, alignment: &str)
        ensures
            final(self).node.properties == (NodeProperties {
                position: aligned(old(self).node.properties.position, alignment@),
                ..old(self).node.properties
            }),
    {
        self.node.align(alignment);
    }

    pub fn fade_in(&mut self, duration: i64)
        ensures
            final(self).node.tracks.get(Property::Opacity) == Some(
                ramp(0, ONE, duration, Easing::Linear),
            ),
    {
        self.node.fade_in(duration);
    }
}

/// A video node; its id is `video_` followed by the path's length in bytes.
#[derive(Debug)]
pub struct VideoNode {
    pub node: Node,
    pub path: String,
}

impl VideoNode {
    pub fn new(path: String) -> (r: VideoNode)
        ensures
            r.node.id@ == numbered_id("video_"@, (encode_utf8(path@).len() as usize) as nat),
            r.node.properties == default_properties(),
            r.path@ == path@,
    {
        let id = make_id("video_", path.as_str().len());
        VideoNode { node: Node::new(id), path }
    }
}

/// A shape node; its id is `shape_` followed by the shape type.
#[derive(Debug)]
pub struct ShapeNode {
    pub node: Node,
    pub shape_type: String,
    pub color: String,
}

impl ShapeNode {
    pub fn new(shape_type: String, color: String) -> (r: ShapeNode)
        ensures
            r.node.id@ == "shape_"@ + shape_type@,
            r.node.properties == default_properties(),
            r.shape_type@ == shape_type@,
            r.color@ == color@,
    {
        let mut id = String::from_str("shape_");
        id.append(shape_type.as_str());
        ShapeNode { node: Node::new(id), shape_type, color }
    }
}

} // verus!
