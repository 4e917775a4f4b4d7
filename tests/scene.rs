use fluxreel::easing::Easing;
use fluxreel::fixed::ONE;
use fluxreel::node::{ImageNode, Node, Property, ShapeNode, TextNode, VideoNode};
use fluxreel::renderer::Renderer;
use fluxreel::scene::{Scene, SceneNode};

#[test]
fn text_opacity_track_renders_through_the_scene() {
    let mut text = TextNode::new("Hello".to_string(), 100 * ONE, "#FFFFFF".to_string());
    text.node.add_keyframe(Property::Opacity, 0, 0, Easing::Linear);
    text.node.add_keyframe(Property::Opacity, ONE, ONE, Easing::Linear);
    let mut scene = Scene::new("Intro".to_string());
    scene.set_duration(2 * ONE);
    assert_eq!(scene.add_node(SceneNode::Text(text)), 0);
    assert_eq!(scene.sample(500_000)[0].opacity, 500_000);
    assert_eq!(scene.sample(1_500_000)[0].opacity, ONE);

    let mut r = Renderer::new(1920, 1080, 2);
    r.add_scene(scene);
    assert_eq!(r.scene_frames(0), 4);
    assert_eq!(r.frame_time(1), 500_000);
    assert_eq!(r.frame_state(0, 1)[0].opacity, 500_000);
    assert_eq!(r.frame_state(0, 3)[0].opacity, ONE);
}

#[test]
fn node_ids_follow_their_kind() {
    assert_eq!(TextNode::new("Hello".to_string(), ONE, "#fff".to_string()).node.id, "text_5");
    assert_eq!(ImageNode::new("bg.png".to_string()).node.id, "image_6");
    assert_eq!(VideoNode::new("clip.mp4".to_string()).node.id, "video_8");
    assert_eq!(ShapeNode::new("circle".to_string(), "#000".to_string()).node.id, "shape_circle");
    assert_eq!(TextNode::new("é".to_string(), ONE, "#fff".to_string()).node.id, "text_2");
}

#[test]
fn alignment_uses_canonical_offsets() {
    let mut n = Node::new("n".to_string());
    n.move_to(3 * ONE, 4 * ONE);
    n.align("left");
    assert_eq!((n.properties.position.x, n.properties.position.y), (-500_000, 4 * ONE));
    n.align("top");
    assert_eq!((n.properties.position.x, n.properties.position.y), (-500_000, 500_000));
    n.align("center");
    assert_eq!((n.properties.position.x, n.properties.position.y), (0, 0));
    n.align("bottom");
    n.align("right");
    assert_eq!((n.properties.position.x, n.properties.position.y), (500_000, -500_000));
    n.align("diagonal");
    assert_eq!((n.properties.position.x, n.properties.position.y), (500_000, -500_000));
}

#[test]
fn live_property_setters() {
    let mut n = Node::new("n".to_string());
    n.set_opacity(2 * ONE);
    assert_eq!(n.properties.opacity, ONE);
    n.set_opacity(-1);
    assert_eq!(n.properties.opacity, 0);
    n.move_by(i64::MAX, 1);
    n.move_by(5, 1);
    assert_eq!((n.properties.position.x, n.properties.position.y), (i64::MAX, 2));
    n.rotate(90 * ONE);
    n.rotate_by(45 * ONE);
    assert_eq!(n.properties.rotation, 135 * ONE);
    n.set_scale(2 * ONE, 3 * ONE);
    assert_eq!((n.properties.scale.x, n.properties.scale.y), (2 * ONE, 3 * ONE));
    n.set_visible(false);
    assert!(!n.animated_properties(0).visible);
}

#[test]
fn fades_and_moves_register_tracks() {
    let mut n = Node::new("n".to_string());
    n.fade_in(2 * ONE);
    assert_eq!(n.properties.opacity, 0);
    assert_eq!(n.animated_properties(ONE).opacity, 500_000);
    assert_eq!(n.animated_properties(3 * ONE).opacity, ONE);
    n.fade_out(ONE);
    assert_eq!(n.animated_properties(250_000).opacity, 750_000);
    n.scale(500_000, ONE, "linear");
    assert_eq!(n.properties.scale.x, 500_000);
    assert_eq!(n.animated_properties(500_000).scale.x, 750_000);
    assert_eq!(n.animated_properties(500_000).scale.y, 750_000);
    n.slide(0, 0, 10 * ONE, -10 * ONE, "quad_in");
    let p = n.animated_properties(500_000);
    assert_eq!((p.position.x, p.position.y), (2_500_000, -2_500_000));
    assert_eq!(n.animated_properties(ONE).rotation, 0);
}

#[test]
fn untracked_properties_stay_live() {
    let mut n = Node::new("n".to_string());
    n.add_keyframe(Property::Rotation, 0, 0, Easing::Linear);
    n.add_keyframe(Property::Rotation, ONE, 360 * ONE, Easing::Linear);
    n.move_to(7, 8);
    let p = n.animated_properties(500_000);
    assert_eq!(p.rotation, 180 * ONE);
    assert_eq!((p.position.x, p.position.y), (7, 8));
    assert_eq!(p.opacity, ONE);
}

#[test]
fn scene_nodes_keep_registration_order() {
    let mut s = Scene::new("s".to_string());
    let mut a = Node::new("a".to_string());
    a.set_opacity(200_000);
    let mut b = ImageNode::new("b.png".to_string());
    b.align("left");
    s.add_node(SceneNode::Plain(a));
    assert_eq!(s.add_node(SceneNode::Image(b)), 1);
    let frame = s.sample(0);
    assert_eq!(frame.len(), 2);
    assert_eq!(frame[0].opacity, 200_000);
    assert_eq!(frame[1].position.x, -500_000);
    assert_eq!(s.nodes[1].base().id, "image_5");
}

#[test]
fn global_frames_run_through_the_scenes_in_order() {
    let mut r = Renderer::new(640, 480, 2);
    let mut a = Scene::new("a".to_string());
    a.set_duration(ONE);
    let mut b = Scene::new("b".to_string());
    b.set_duration(1_500_000);
    let mut n = Node::new("n".to_string());
    n.set_opacity(300_000);
    b.add_node(SceneNode::Plain(n));
    r.add_scene(a);
    r.add_scene(b);
    assert_eq!(r.locate(0), Some((0, 0)));
    assert_eq!(r.locate(1), Some((0, 1)));
    assert_eq!(r.locate(2), Some((1, 0)));
    assert_eq!(r.locate(4), Some((1, 2)));
    assert_eq!(r.locate(5), None);
    assert_eq!(r.global_frame_state(1).map(|v| v.len()), Some(0));
    assert_eq!(r.global_frame_state(3).map(|v| v[0].opacity), Some(300_000));
    assert!(r.global_frame_state(9).is_none());
}
