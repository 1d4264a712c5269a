use bevy::input::keyboard::KeyCode;
use bevy::input::ButtonInput;
use bevy::math::{Vec2, Vec3};
use bevy::window::{CursorGrabMode, CursorOptions};
use free_camera::action::Action;
use free_camera::controller::update;
use free_camera::motion::{Axis, Motion};

/// A host that carries out the controller's actions on plain vectors.
struct Camera {
    position: Vec3,
    direction: Vec3,
    pitch: f32,
    yaw: f32,
    speed: f32,
    directions_seen: Vec<Vec3>,
}

impl Camera {
    fn at_origin() -> Camera {
        let mut camera = Camera {
            position: Vec3::ZERO,
            direction: Vec3::ZERO,
            pitch: 0.0,
            yaw: 0.0,
            speed: 0.1,
            directions_seen: Vec::new(),
        };
        camera.recompute_direction();
        camera.directions_seen.clear();
        camera
    }

    fn recompute_direction(&mut self) {
        let x = self.pitch.sin() * self.yaw.cos();
        let z = self.pitch.cos() * self.yaw.cos();
        let y = self.yaw.sin();
        self.direction = Vec3::new(x, y, z);
        self.directions_seen.push(self.direction);
    }

    fn offset(&self, motion: Motion) -> Vec3 {
        let unit = match motion.axis() {
            Axis::Look => self.direction,
            Axis::Side => self.direction.cross(Vec3::Y).normalize_or_zero(),
            Axis::Up => Vec3::Y,
        };
        if motion.adds() {
            unit * self.speed
        } else {
            -(unit * self.speed)
        }
    }

    fn carry_out(&mut self, actions: &[Action], samples: &[Vec2]) {
        for action in actions {
            match action {
                Action::Move(motion) => self.position += self.offset(*motion),
                Action::Turn(n) => {
                    self.pitch -= samples[*n].x * 0.0009;
                    self.yaw -= samples[*n].y * 0.0006;
                }
                Action::RecomputeDirection => self.recompute_direction(),
                Action::Orient => {}
            }
        }
    }

    fn frame(&mut self, cursor: &mut CursorOptions, keys: &ButtonInput<KeyCode>, samples: &[Vec2]) {
        let actions = update(cursor, keys, samples.len());
        self.carry_out(&actions, samples);
    }
}

fn locked() -> CursorOptions {
    CursorOptions {
        visible: false,
        grab_mode: CursorGrabMode::Locked,
        hit_test: true,
    }
}

fn holding(code: KeyCode) -> ButtonInput<KeyCode> {
    let mut keys = ButtonInput::default();
    keys.press(code);
    keys.clear();
    keys
}

fn close(a: Vec3, b: Vec3) -> bool {
    (a - b).length() < 1e-6
}

#[test]
fn starts_looking_along_z() {
    let camera = Camera::at_origin();
    assert!(close(camera.direction, Vec3::new(0.0, 0.0, 1.0)));
}

#[test]
fn forward_for_one_frame() {
    let mut camera = Camera::at_origin();
    let mut cursor = locked();
    let keys = holding(KeyCode::KeyW);
    assert_eq!(
        update(&mut cursor, &keys, 0),
        vec![Action::Move(Motion::Forward), Action::RecomputeDirection, Action::Orient]
    );
    camera.frame(&mut cursor, &keys, &[]);
    assert!(close(camera.position, Vec3::new(0.0, 0.0, 0.1)));
    assert_eq!(camera.pitch, 0.0);
    assert_eq!(camera.yaw, 0.0);
}

#[test]
fn backward_for_one_frame() {
    let mut camera = Camera::at_origin();
    let mut cursor = locked();
    camera.frame(&mut cursor, &holding(KeyCode::KeyS), &[]);
    assert!(close(camera.position, Vec3::new(0.0, 0.0, -0.1)));
}

#[test]
fn strafe_right_for_one_frame() {
    let mut camera = Camera::at_origin();
    let mut cursor = locked();
    camera.frame(&mut cursor, &holding(KeyCode::KeyD), &[]);
    let side = Vec3::new(0.0, 0.0, 1.0).cross(Vec3::Y).normalize();
    assert!(close(side, Vec3::new(-1.0, 0.0, 0.0)));
    assert!(close(camera.position, side * 0.1));
    assert!(close(camera.position, Vec3::new(-0.1, 0.0, 0.0)));
    assert!((camera.position.length() - 0.1).abs() < 1e-6);
}

#[test]
fn strafe_left_mirrors_strafe_right() {
    let mut right = Camera::at_origin();
    let mut left = Camera::at_origin();
    let mut cursor = locked();
    right.frame(&mut cursor, &holding(KeyCode::KeyD), &[]);
    left.frame(&mut cursor, &holding(KeyCode::KeyA), &[]);
    assert!(close(left.position, -right.position));
    assert!((left.position.length() - 0.1).abs() < 1e-6);
}

#[test]
fn vertical_keys_move_along_world_up() {
    let mut camera = Camera::at_origin();
    let mut cursor = locked();
    camera.frame(&mut cursor, &holding(KeyCode::Space), &[]);
    assert!(close(camera.position, Vec3::new(0.0, 0.1, 0.0)));
    camera.frame(&mut cursor, &holding(KeyCode::ShiftLeft), &[]);
    camera.frame(&mut cursor, &holding(KeyCode::ShiftLeft), &[]);
    assert!(close(camera.position, Vec3::new(0.0, -0.1, 0.0)));
}

#[test]
fn diagonal_movement_adds_up() {
    let mut camera = Camera::at_origin();
    let mut cursor = locked();
    let mut keys = holding(KeyCode::KeyW);
    keys.press(KeyCode::Space);
    camera.frame(&mut cursor, &keys, &[]);
    assert!(close(camera.position, Vec3::new(0.0, 0.1, 0.1)));
}

#[test]
fn two_samples_equal_one_combined_sample() {
    let keys: ButtonInput<KeyCode> = ButtonInput::default();
    let mut cursor = locked();

    let mut split = Camera::at_origin();
    split.frame(&mut cursor, &keys, &[Vec2::new(10.0, 0.0), Vec2::new(0.0, 10.0)]);
    let mut joined = Camera::at_origin();
    joined.frame(&mut cursor, &keys, &[Vec2::new(10.0, 10.0)]);

    assert!((split.pitch - joined.pitch).abs() < 1e-6);
    assert!((split.yaw - joined.yaw).abs() < 1e-6);
    assert!((joined.pitch - -0.009).abs() < 1e-6);
    assert!((joined.yaw - -0.006).abs() < 1e-6);
    assert!(close(split.direction, joined.direction));

    assert_eq!(split.directions_seen.len(), 3);
    assert_eq!(joined.directions_seen.len(), 2);
    assert!(!close(split.directions_seen[0], joined.directions_seen[0]));
}

#[test]
fn a_free_cursor_leaves_the_camera_alone() {
    let mut camera = Camera::at_origin();
    let mut cursor = CursorOptions {
        visible: true,
        grab_mode: CursorGrabMode::None,
        hit_test: true,
    };
    let mut keys = holding(KeyCode::KeyW);
    keys.press(KeyCode::KeyD);
    keys.press(KeyCode::Space);
    keys.clear();
    for _ in 0..10 {
        camera.frame(&mut cursor, &keys, &[Vec2::new(3.0, -4.0), Vec2::new(25.0, 1.0)]);
    }
    assert_eq!(camera.position, Vec3::ZERO);
    assert_eq!(camera.pitch, 0.0);
    assert_eq!(camera.yaw, 0.0);
    assert!(camera.directions_seen.is_empty());
}

#[test]
fn turning_changes_where_forward_leads() {
    let mut camera = Camera::at_origin();
    let mut cursor = locked();
    let still: ButtonInput<KeyCode> = ButtonInput::default();
    camera.frame(&mut cursor, &still, &[Vec2::new(-1000.0, 0.0)]);
    assert!((camera.pitch - 0.9).abs() < 1e-6);
    camera.frame(&mut cursor, &holding(KeyCode::KeyW), &[]);
    let expected = Vec3::new(0.9f32.sin(), 0.0, 0.9f32.cos()) * 0.1;
    assert!(close(camera.position, expected));
}
