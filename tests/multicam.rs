use fluxreel::errors::FluxError;
use fluxreel::fixed::ONE;
use fluxreel::multicam::{CameraAngle, MultiCamEditor, MultiCamSequence, SyncMethod};

fn sequence_with(n: usize) -> MultiCamSequence {
    let mut s = MultiCamSequence::new();
    for i in 0..n {
        s.add_angle(CameraAngle::new(format!("cam{}", i), format!("src{}", i)));
    }
    s
}

#[test]
fn active_angle_follows_the_latest_cut() {
    let mut s = sequence_with(2);
    s.add_cut(0, 0, "cut".to_string()).unwrap();
    s.add_cut(10 * ONE, 0, "cut".to_string()).unwrap();
    s.add_cut(5 * ONE, 1, "cut".to_string()).unwrap();
    assert_eq!(s.get_active_angle_at(7 * ONE), Some(1));
    assert_eq!(s.get_active_angle_at(12 * ONE), Some(0));
    assert_eq!(s.get_active_angle_at(5 * ONE), Some(1));
    assert_eq!(s.cut_at(1), (5 * ONE, 1));
}

#[test]
fn fallback_angle_before_any_cut() {
    let mut s = sequence_with(3);
    s.switch_angle(2).unwrap();
    assert_eq!(s.get_active_angle_at(-ONE), Some(2));
    s.add_cut(ONE, 1, "cut".to_string()).unwrap();
    assert_eq!(s.get_active_angle_at(0), Some(2));
    assert_eq!(s.get_active_angle_at(ONE), Some(1));
}

#[test]
fn out_of_range_indices_fail_without_change() {
    let mut s = sequence_with(2);
    assert_eq!(
        s.add_cut(ONE, 2, "cut".to_string()),
        Err(FluxError::IndexOutOfRange { index: 2, len: 2 })
    );
    assert_eq!(s.cut_count(), 0);
    assert_eq!(s.switch_angle(5), Err(FluxError::IndexOutOfRange { index: 5, len: 2 }));
    assert_eq!(s.active_angle, 0);
    assert_eq!(s.remove_angle(2), Err(FluxError::IndexOutOfRange { index: 2, len: 2 }));
    assert_eq!(s.angles.len(), 2);
    assert_eq!(s.remove_angle(0), Ok(()));
    assert_eq!(s.angles.len(), 1);
    assert_eq!(s.angles[0].name, "cam1");
}

#[test]
fn in_point_sync_sets_every_offset() {
    let mut s = sequence_with(3);
    s.sync_point = 2 * ONE;
    s.sync_angles("in_point").unwrap();
    assert!(s.angles.iter().all(|a| a.get_offset() == -2 * ONE));
    assert_eq!(s.sync_angles("timecode"), Ok(()));
    assert_eq!(s.sync_angles("audio"), Ok(()));
    assert_eq!(
        s.sync_angles("psychic"),
        Err(FluxError::InvalidEnum { value: "psychic".to_string() })
    );
}

#[test]
fn sync_method_names() {
    let mut a = CameraAngle::new("a".to_string(), "b".to_string());
    assert_eq!(a.sync_method, SyncMethod::Timecode);
    a.set_sync_method("in_point").unwrap();
    assert_eq!(a.sync_method, SyncMethod::InPoint);
    assert_eq!(
        a.set_sync_method("bogus"),
        Err(FluxError::InvalidEnum { value: "bogus".to_string() })
    );
    assert_eq!(a.sync_method, SyncMethod::InPoint);
    a.set_offset(3);
    assert_eq!(a.get_offset(), 3);
}

#[test]
fn preview_lists_names_and_sources() {
    let s = sequence_with(2);
    assert_eq!(s.preview_all_angles(), vec!["cam0: src0".to_string(), "cam1: src1".to_string()]);
}

#[test]
fn editor_cuts_by_angle_name() {
    let mut e = MultiCamEditor::new();
    assert_eq!(e.preview_mode, "active");
    e.add_camera("wide".to_string(), "a.mp4".to_string());
    e.add_camera("close".to_string(), "b.mp4".to_string());
    assert_eq!(e.auto_sync(), Ok(()));
    e.cut_to_angle(3 * ONE, "close").unwrap();
    assert_eq!(e.sequence.get_active_angle_at(4 * ONE), Some(1));
    assert_eq!(
        e.cut_to_angle(ONE, "drone"),
        Err(FluxError::InvalidEnum { value: "drone".to_string() })
    );
    assert_eq!(e.sequence.cut_count(), 1);
}

#[test]
fn cutting_by_name_inserts_in_time_order() {
    let mut e = MultiCamEditor::new();
    e.add_camera("wide".to_string(), "a.mp4".to_string());
    e.add_camera("close".to_string(), "b.mp4".to_string());
    e.sequence.sync_point = 7;
    e.cut_to_angle(5 * ONE, "close").unwrap();
    e.cut_to_angle(ONE, "wide").unwrap();
    e.cut_to_angle(5 * ONE, "wide").unwrap();
    assert_eq!(e.sequence.cut_at(0), (ONE, 0));
    assert_eq!(e.sequence.cut_at(1), (5 * ONE, 1));
    assert_eq!(e.sequence.cut_at(2), (5 * ONE, 0));
    assert_eq!(e.sequence.sync_point, 7);
    assert_eq!(e.sequence.switch_angle(9), Err(FluxError::IndexOutOfRange { index: 9, len: 2 }));
    assert_eq!(e.sequence.sync_point, 7);
}
