use eduren::{clamp_pitch_exec, Axis, Camera, CameraKey, Motion, PITCH_LIMIT};

const ALL_KEYS: [CameraKey; 8] = [
    CameraKey::Forward,
    CameraKey::Back,
    CameraKey::Left,
    CameraKey::Right,
    CameraKey::PitchUp,
    CameraKey::PitchDown,
    CameraKey::YawLeft,
    CameraKey::YawRight,
];

#[test]
fn new_camera_has_default_orientation() {
    let c = Camera::new();
    assert_eq!(c.yaw_pitch(), (-90, 0));
    assert_eq!(c.angle_step(), 1);
}

#[test]
fn one_yaw_right_then_ninety_more() {
    let mut c = Camera::new();
    assert_eq!(c.process_key(CameraKey::YawRight), Motion::Reorient);
    assert_eq!(c.yaw_pitch(), (-89, 0));
    for _ in 0..90 {
        c.process_key(CameraKey::YawRight);
    }
    assert_eq!(c.yaw_pitch(), (1, 0));
}

#[test]
fn hundred_pitch_up_stops_at_limit() {
    let mut c = Camera::new();
    for _ in 0..100 {
        c.process_key(CameraKey::PitchUp);
    }
    assert_eq!(c.yaw_pitch(), (-90, 89));
}

#[test]
fn hundred_pitch_down_stops_at_limit() {
    let mut c = Camera::new();
    for _ in 0..100 {
        c.process_key(CameraKey::PitchDown);
    }
    assert_eq!(c.yaw_pitch(), (-90, -89));
}

#[test]
fn pitch_stays_in_range_over_mixed_sequence() {
    let mut c = Camera::with_angle_step(7);
    let pattern = [
        CameraKey::PitchUp,
        CameraKey::PitchUp,
        CameraKey::PitchDown,
        CameraKey::PitchUp,
    ];
    for i in 0..200 {
        c.process_key(pattern[i % pattern.len()]);
        let (_, p) = c.yaw_pitch();
        assert!(-PITCH_LIMIT <= p && p <= PITCH_LIMIT);
    }
    for _ in 0..200 {
        c.process_key(CameraKey::PitchDown);
        let (_, p) = c.yaw_pitch();
        assert!(-PITCH_LIMIT <= p && p <= PITCH_LIMIT);
    }
    assert_eq!(c.yaw_pitch(), (-90, -89));
}

#[test]
fn accessors_repeat_identically() {
    let mut c = Camera::new();
    c.process_key(CameraKey::YawLeft);
    c.process_key(CameraKey::PitchUp);
    let first = c.yaw_pitch();
    for _ in 0..5 {
        assert_eq!(c.yaw_pitch(), first);
        assert_eq!(c.angle_step(), 1);
    }
    assert_eq!(first, (-91, 1));
}

#[test]
fn moves_translate_and_keep_orientation() {
    let mut c = Camera::new();
    assert_eq!(
        c.process_key(CameraKey::Forward),
        Motion::Translate { axis: Axis::Front, forward: true }
    );
    assert_eq!(
        c.process_key(CameraKey::Back),
        Motion::Translate { axis: Axis::Front, forward: false }
    );
    assert_eq!(
        c.process_key(CameraKey::Right),
        Motion::Translate { axis: Axis::Right, forward: true }
    );
    assert_eq!(
        c.process_key(CameraKey::Left),
        Motion::Translate { axis: Axis::Right, forward: false }
    );
    assert_eq!(c.yaw_pitch(), (-90, 0));
}

#[test]
fn every_rotation_asks_for_reorientation() {
    for key in [
        CameraKey::PitchUp,
        CameraKey::PitchDown,
        CameraKey::YawLeft,
        CameraKey::YawRight,
    ] {
        let mut c = Camera::new();
        let before = c.yaw_pitch();
        assert_eq!(c.process_key(key), Motion::Reorient);
        assert_ne!(c.yaw_pitch(), before);
    }
}

#[test]
fn pitch_up_at_limit_changes_nothing() {
    let mut c = Camera::new();
    for _ in 0..89 {
        c.process_key(CameraKey::PitchUp);
    }
    assert_eq!(c.yaw_pitch(), (-90, 89));
    assert_eq!(c.process_key(CameraKey::PitchUp), Motion::Reorient);
    assert_eq!(c.yaw_pitch(), (-90, 89));
    c.process_key(CameraKey::PitchDown);
    assert_eq!(c.yaw_pitch(), (-90, 88));
}

#[test]
fn configured_angle_step_is_used() {
    let mut c = Camera::with_angle_step(30);
    assert_eq!(c.angle_step(), 30);
    c.process_key(CameraKey::YawLeft);
    assert_eq!(c.yaw_pitch(), (-120, 0));
    c.process_key(CameraKey::PitchUp);
    c.process_key(CameraKey::PitchUp);
    assert_eq!(c.yaw_pitch(), (-120, 60));
    c.process_key(CameraKey::PitchUp);
    assert_eq!(c.yaw_pitch(), (-120, 89));
}

#[test]
fn zero_angle_step_leaves_orientation() {
    let mut c = Camera::with_angle_step(0);
    for key in ALL_KEYS {
        c.process_key(key);
    }
    assert_eq!(c.yaw_pitch(), (-90, 0));
}

#[test]
fn largest_angle_step_clamps_pitch() {
    let mut c = Camera::with_angle_step(u32::MAX);
    c.process_key(CameraKey::PitchUp);
    assert_eq!(c.yaw_pitch(), (-90, 89));
    c.process_key(CameraKey::PitchDown);
    assert_eq!(c.yaw_pitch(), (-90, -89));
    c.process_key(CameraKey::YawRight);
    assert_eq!(c.yaw_pitch(), (-90 + u32::MAX as i64, -89));
}

#[test]
fn clamp_pitch_values() {
    assert_eq!(clamp_pitch_exec(0), 0);
    assert_eq!(clamp_pitch_exec(89), 89);
    assert_eq!(clamp_pitch_exec(90), 89);
    assert_eq!(clamp_pitch_exec(-89), -89);
    assert_eq!(clamp_pitch_exec(-90), -89);
    assert_eq!(clamp_pitch_exec(i64::MAX), 89);
    assert_eq!(clamp_pitch_exec(i64::MIN), -89);
}
