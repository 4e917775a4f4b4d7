use fluxreel::animation::{interpolate_keyframes, Animation, AnimationSequence, Keyframe, KeyframeTrack};
use fluxreel::easing::Easing;
use fluxreel::fixed::ONE;

fn kf(time: i64, value: i64, easing: Easing) -> Keyframe {
    Keyframe { time, value, easing }
}

#[test]
fn empty_track_is_zero() {
    let t = KeyframeTrack::new();
    assert_eq!(t.value_at(123), 0);
    assert_eq!(interpolate_keyframes(&[], 5), 0);
}

#[test]
fn values_are_held_before_the_first_and_after_the_last_keyframe() {
    let mut t = KeyframeTrack::new();
    t.add_keyframe(ONE, 10 * ONE, Easing::Linear);
    t.add_keyframe(2 * ONE, 20 * ONE, Easing::Linear);
    assert_eq!(t.value_at(0), 10 * ONE);
    assert_eq!(t.value_at(5 * ONE), 20 * ONE);
    assert_eq!(t.value_at(1_500_000), 15 * ONE);
}

#[test]
fn segment_uses_the_easing_of_its_earlier_keyframe() {
    let mut t = KeyframeTrack::new();
    t.add_keyframe(0, 0, Easing::QuadIn);
    t.add_keyframe(ONE, ONE, Easing::Linear);
    assert_eq!(t.value_at(500_000), 250_000);
}

#[test]
fn insertion_keeps_keyframes_sorted() {
    let mut t = KeyframeTrack::new();
    for time in [5, 1, 9, 3, 3, 0, 7, -2] {
        t.add_keyframe(time * ONE, time, Easing::Linear);
    }
    let k = t.keyframes();
    assert_eq!(k.len(), 8);
    for w in k.windows(2) {
        assert!(w[0].time <= w[1].time);
    }
}

#[test]
fn later_keyframe_at_the_same_time_wins() {
    let mut t = KeyframeTrack::new();
    t.add_keyframe(0, 0, Easing::Linear);
    t.add_keyframe(ONE, 5 * ONE, Easing::Linear);
    t.add_keyframe(2 * ONE, 0, Easing::Linear);
    t.add_keyframe(ONE, 7 * ONE, Easing::Linear);
    assert_eq!(t.value_at(ONE), 7 * ONE);
    assert_eq!(t.value_at(ONE), t.value_at(ONE));
    let k = t.keyframes();
    assert_eq!(k[1].value, 5 * ONE);
    assert_eq!(k[2].value, 7 * ONE);
}

#[test]
fn interpolation_over_a_slice() {
    let ks = [kf(0, 0, Easing::Linear), kf(ONE, 100, Easing::Linear)];
    assert_eq!(interpolate_keyframes(&ks, 250_000), 25);
    assert_eq!(interpolate_keyframes(&ks, ONE), 100);
}

#[test]
fn overshooting_values_saturate() {
    let mut t = KeyframeTrack::new();
    t.add_keyframe(0, 0, Easing::BackOut);
    t.add_keyframe(ONE, i64::MAX, Easing::Linear);
    assert_eq!(t.value_at(800_000), i64::MAX);
}

#[test]
fn animation_takes_easing_names() {
    let mut a = Animation::new("opacity".to_string(), 2 * ONE);
    assert_eq!(a.loop_count, 1);
    a.add_keyframe(ONE, ONE, "linear".to_string().as_str());
    a.add_keyframe(0, 0, "ease_in");
    assert_eq!(a.value_at(500_000), 250_000);
    a.set_loop(3);
    assert_eq!(a.loop_count, 3);
    a.infinite();
    assert_eq!(a.loop_count, -1);
}

#[test]
fn sequence_duration_is_the_longest() {
    let mut s = AnimationSequence::new();
    s.calculate_duration();
    assert_eq!(s.duration, 0);
    s.add(Animation::new("x".to_string(), 3 * ONE));
    s.parallel(vec![Animation::new("y".to_string(), 5 * ONE), Animation::new("z".to_string(), ONE)]);
    s.calculate_duration();
    assert_eq!(s.duration, 5 * ONE);
    assert_eq!(s.animations.len(), 3);
}
