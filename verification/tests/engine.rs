use glstudy::camera::CameraMovement;
use glstudy::engine::{handle_keyboard, CaptureMode, CursorState, FrameClock, KeyboardState};

fn keys(w: bool, s: bool, a: bool, d: bool, space: bool, escape: bool) -> KeyboardState {
    KeyboardState { w, s, a, d, space, escape }
}

#[test]
fn cursor_first_event_is_silent() {
    let mut c = CursorState::new((800, 600));
    assert!(c.is_first_capture);
    assert_eq!(c.cursor_pos, (400, 300));
    let offsets = c.observe(100, 250);
    assert_eq!(offsets, (0, 0));
    assert!(!c.is_first_capture);
    assert_eq!(c.cursor_pos, (100, 250));
}

#[test]
fn cursor_offsets_follow_moves() {
    let mut c = CursorState::new((640, 480));
    c.observe(320, 240);
    let offsets = c.observe(330, 235);
    // the vertical axis of the screen grows downward, so moving up is positive
    assert_eq!(offsets, (10, 5));
    let offsets = c.observe(325, 245);
    assert_eq!(offsets, (-5, -10));
}

#[test]
fn frame_clock_measures_deltas() {
    let mut clock = FrameClock::new();
    assert_eq!(clock.tick(1_000), 1_000);
    assert_eq!(clock.tick(1_450), 450);
    assert_eq!(clock.delta_time, 450);
    assert_eq!(clock.last_frame, 1_450);
    // a clock that ran backwards counts as no time
    assert_eq!(clock.tick(900), 0);
}

#[test]
fn keyboard_movements_in_fixed_order() {
    let r = handle_keyboard(&keys(true, false, false, true, false, false), true, CaptureMode::Disabled);
    assert_eq!(r.movements.len(), 2);
    assert!(matches!(r.movements[0], CameraMovement::Forward));
    assert!(matches!(r.movements[1], CameraMovement::Right));
    assert_eq!(r.capture, CaptureMode::Disabled);
    assert!(!r.close);

    let r = handle_keyboard(&keys(true, true, true, true, false, false), true, CaptureMode::Disabled);
    assert!(matches!(r.movements[0], CameraMovement::Forward));
    assert!(matches!(r.movements[1], CameraMovement::Bakcward));
    assert!(matches!(r.movements[2], CameraMovement::Left));
    assert!(matches!(r.movements[3], CameraMovement::Right));
}

#[test]
fn keyboard_without_camera_requests_nothing() {
    let r = handle_keyboard(&keys(true, true, true, true, true, false), false, CaptureMode::Disabled);
    assert!(r.movements.is_empty());
    assert_eq!(r.capture, CaptureMode::Disabled);
    assert!(!r.close);
}

#[test]
fn keyboard_space_toggles_capture() {
    let r = handle_keyboard(&keys(false, false, false, false, true, false), true, CaptureMode::Disabled);
    assert_eq!(r.capture, CaptureMode::Normal);
    let r = handle_keyboard(&keys(false, false, false, false, true, false), true, CaptureMode::Normal);
    assert_eq!(r.capture, CaptureMode::Disabled);
    let r = handle_keyboard(&keys(false, false, false, false, true, false), true, CaptureMode::Hidden);
    assert_eq!(r.capture, CaptureMode::Hidden);
}

#[test]
fn keyboard_escape_closes() {
    let r = handle_keyboard(&keys(false, false, false, false, false, true), false, CaptureMode::Normal);
    assert!(r.close);
    assert!(r.movements.is_empty());
}
