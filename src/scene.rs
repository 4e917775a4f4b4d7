//! Scenes: named, timed containers that own their nodes.
use crate::node::{
    animated_spec, ImageNode, Node, NodeProperties, ShapeNode, TextNode, VideoNode,
};
use vstd::prelude::*;

verus! {

/// A one-segment animation of a scene property.
#[derive(Debug)]
pub struct SceneAnimation {
    pub property: String,
    pub start_value: i64,
    pub end_value: i64,
    pub duration: i64,
    pub ease: String,
    pub start_time: i64,
}

/// A node in a scene, of one of the specialised kinds or plain.
#[derive(Debug)]
pub enum SceneNode {
    Plain(Node),
    Text(TextNode),
    Image(ImageNode),
    Video(VideoNode),
    Shape(ShapeNode),
}

impl SceneNode {
    /// The base node every kind carries.
    pub open spec fn base_spec(&self) -> Node {
        match self {
            SceneNode::Plain(n) => *n,
            SceneNode::Text(t) => t.node,
            SceneNode::Image(i) => i.node,
            SceneNode::Video(v) => v.node,
            SceneNode::Shape(s) => s.node,
        }
    }

    pub fn base(&self) -> (r: &Node)
        ensures
            *r == self.base_spec(),
    {
        match self {
            SceneNode::Plain(n) => n,
            SceneNode::Text(t) => &t.node,
            SceneNode::Image(i) => &i.node,
            SceneNode::Video(v) => &v.node,
            SceneNode::Shape(s) => &s.node,
        }
    }
}

/// The state of every node of `nodes` at `t`, in registration order.
pub open spec fn sample_spec(nodes: Seq<SceneNode>, t: int) -> Seq<NodeProperties> {
    Seq::new(
        nodes.len(),
        |i: int| animated_spec(nodes[i].base_spec().properties, nodes[i].base_spec().tracks, t),
    )
}

/// A named container of nodes with a duration.
#[derive(Debug)]
pub struct Scene {
    pub name: String,
    pub duration: i64,
    pub animations: Vec<SceneAnimation>,
    /// Nodes in z-order: the first is drawn first (lowest).
    pub nodes: Vec<SceneNode>,
}

impl Scene {
    pub fn new(name: String) -> (r: Scene)
        ensures
            r.name@ == name@,
            r.duration == 0,
            r.animations@.len() == 0,
            r.nodes@.len() == 0,
    {
        Scene { name, duration: 0, animations: Vec::new(), nodes: Vec::new() }
    }

    pub fn set_duration(&mut self, duration: i64)
        ensures
            final(self).duration == duration,
            final(self).nodes@ == old(self).nodes@,
            final(self).name == old(self).name,
    {
        self.duration = duration;
    }

    /// Adds `node` on top of the others and returns its index.
    pub fn add_node(&mut self, node: SceneNode) -> (r: usize)
        ensures
            final(self).nodes@ == old(self).nodes@.push(node),
            r == old(self).nodes@.len(),
            final(self).duration == old(self).duration,
    {
        let r = self.nodes.len();
        self.nodes.push(node);
        r
    }

    /// The state of every node at `t`, in z-order.
    pub fn sample(&self, t: i64) -> (r: Vec<NodeProperties>)
        ensures
            r@ == sample_spec(self.nodes@, t as int),
    {
        let mut out: Vec<NodeProperties> = Vec::new();
        let mut i: usize = 0;
        while i < self.nodes.len()
            invariant
                i <= self.nodes@.len(),
                out@ == sample_spec(self.nodes@, t as int).subrange(0, i as int),
            decreases self.nodes@.len() - i,
        {
            let p = self.nodes[i].base().animated_properties(t);
            out.push(p);
            assert(out@ =~= sample_spec(self.nodes@, t as int).subrange(0, i as int + 1));
            i = i + 1;
        }
        assert(out@ =~= sample_spec(self.nodes@, t as int));
        out
    }
}

} // verus!
