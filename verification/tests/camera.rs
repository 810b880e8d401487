use glstudy::camera::{movement_step, Camera, CameraMovement, MoveAxis};

#[test]
fn camera_initial_state() {
    let c = Camera::new();
    assert_eq!(c.yaw, -900);
    assert_eq!(c.pitch, 0);
    assert_eq!(c.fov, 45);
    assert_eq!(c.move_speed, 2500);
    assert_eq!(c.mouse_sensitivity, 1);
}

#[test]
fn camera_mouse_move_accumulates() {
    let mut c = Camera::new();
    c.process_mouse_move(30, 20);
    assert_eq!(c.yaw, -870);
    assert_eq!(c.pitch, 20);
    c.process_mouse_move(-50, -35);
    assert_eq!(c.yaw, -920);
    assert_eq!(c.pitch, -15);
}

#[test]
fn camera_pitch_clamped_over_any_sequence() {
    let mut c = Camera::new();
    for _ in 0..50 {
        c.process_mouse_move(3, 100);
        assert!(-890 <= c.pitch && c.pitch <= 890);
    }
    assert_eq!(c.pitch, 890);
    for _ in 0..100 {
        c.process_mouse_move(-3, -77);
        assert!(-890 <= c.pitch && c.pitch <= 890);
    }
    assert_eq!(c.pitch, -890);
    c.process_mouse_move(0, 41);
    assert_eq!(c.pitch, -849);
}

#[test]
fn camera_fov_clamped_over_any_sequence() {
    let mut c = Camera::new();
    c.process_mouse_scroll(-10);
    assert_eq!(c.fov, 45);
    for _ in 0..30 {
        c.process_mouse_scroll(2);
        assert!(1 <= c.fov && c.fov <= 45);
    }
    assert_eq!(c.fov, 1);
    c.process_mouse_scroll(-7);
    assert_eq!(c.fov, 8);
}

#[test]
fn camera_scroll_leaves_angles() {
    let mut c = Camera::new();
    c.process_mouse_move(11, 7);
    c.process_mouse_scroll(3);
    assert_eq!(c.yaw, -889);
    assert_eq!(c.pitch, 7);
    assert_eq!(c.fov, 42);
}

#[test]
fn movement_step_axes() {
    assert_eq!(movement_step(&CameraMovement::Forward), (MoveAxis::Front, true));
    assert_eq!(movement_step(&CameraMovement::Bakcward), (MoveAxis::Front, false));
    assert_eq!(movement_step(&CameraMovement::Left), (MoveAxis::Right, false));
    assert_eq!(movement_step(&CameraMovement::Right), (MoveAxis::Right, true));
}

/// Derives the basis vectors from the camera's angles the way the
/// renderer does and checks that they stay orthonormal while the angles
/// run through a sequence of updates.
#[test]
fn camera_basis_orthonormal_from_angles() {
    let mut c = Camera::new();
    let world_up = [0.0f64, 1.0, 0.0];
    let sequences: [(i64, i64); 6] = [(0, 0), (300, 150), (-1200, 900), (45, -2000), (7, 3), (10000, 10000)];
    for (dx, dy) in sequences {
        c.process_mouse_move(dx, dy);
        let yaw = (c.yaw as f64 / 10.0).to_radians();
        let pitch = (c.pitch as f64 / 10.0).to_radians();
        let front = normalize([
            yaw.cos() * pitch.cos(),
            pitch.sin(),
            yaw.sin() * pitch.cos(),
        ]);
        let right = normalize(cross(front, world_up));
        let up = normalize(cross(right, front));
        assert!((norm(front) - 1.0).abs() < 1e-12);
        assert!((norm(right) - 1.0).abs() < 1e-12);
        assert!((norm(up) - 1.0).abs() < 1e-12);
        assert!(dot(front, right).abs() < 1e-12);
        assert!(dot(front, up).abs() < 1e-12);
        assert!(dot(right, up).abs() < 1e-12);
    }
}

/// A camera with no input looks one unit down the negative depth axis:
/// the view matrix derived from its angles equals the look-at matrix
/// from the eye toward one unit in front of it.
#[test]
fn camera_zero_input_view_matrix() {
    let c = Camera::new();
    assert_eq!(c.yaw, -900);
    assert_eq!(c.pitch, 0);
    let yaw = (c.yaw as f32 / 10.0).to_radians();
    let pitch = (c.pitch as f32 / 10.0).to_radians();
    let front = nalgebra_glm::normalize(&nalgebra_glm::vec3(
        yaw.cos() * pitch.cos(),
        pitch.sin(),
        yaw.sin() * pitch.cos(),
    ));
    let pos = nalgebra_glm::vec3(0.0f32, 0.0, 4.0);
    let up = nalgebra_glm::vec3(0.0f32, 1.0, 0.0);
    let view = nalgebra_glm::look_at(&pos, &(pos + front), &up);
    let expected = nalgebra_glm::look_at(
        &pos,
        &nalgebra_glm::vec3(0.0f32, 0.0, 3.0),
        &up,
    );
    for i in 0..4 {
        for j in 0..4 {
            assert!((view[(i, j)] - expected[(i, j)]).abs() < 1e-6);
        }
    }
}

fn cross(a: [f64; 3], b: [f64; 3]) -> [f64; 3] {
    [
        a[1] * b[2] - a[2] * b[1],
        a[2] * b[0] - a[0] * b[2],
        a[0] * b[1] - a[1] * b[0],
    ]
}

fn dot(a: [f64; 3], b: [f64; 3]) -> f64 {
    a[0] * b[0] + a[1] * b[1] + a[2] * b[2]
}

fn norm(a: [f64; 3]) -> f64 {
    dot(a, a).sqrt()
}

fn normalize(a: [f64; 3]) -> [f64; 3] {
    let n = norm(a);
    [a[0] / n, a[1] / n, a[2] / n]
}
