use voxel_viewer::input::{InputState, Key};
use voxel_viewer::motion::{
    movement_steps, Axis, Direction, CAMERA_SPEED, MOUSE_SENSITIVITY, RESOLUTION_X, RESOLUTION_Y,
    START_HEIGHT,
};

/// The unit vector a camera with this yaw and pitch looks along.
fn front(yaw: f32, pitch: f32) -> [f32; 3] {
    let raw = [yaw.cos() * pitch.cos(), pitch.sin(), yaw.sin() * pitch.cos()];
    let length = (raw[0] * raw[0] + raw[1] * raw[1] + raw[2] * raw[2]).sqrt();
    [raw[0] / length, raw[1] / length, raw[2] / length]
}

/// Applies the steps of one frame to a position, as the viewer does.
fn walk(pos: &mut [f32; 3], yaw: f32, pitch: f32, steps: &[Direction]) {
    let front = [yaw.cos() * pitch.cos(), pitch.sin(), yaw.sin() * pitch.cos()];
    let up = [0.0f32, 1.0, 0.0];
    let right = [
        up[1] * front[2] - up[2] * front[1],
        up[2] * front[0] - up[0] * front[2],
        up[0] * front[1] - up[1] * front[0],
    ];
    let speed = CAMERA_SPEED as f32;
    for step in steps {
        let vector = match step.axis() {
            Axis::Front => front,
            Axis::Right => right,
            Axis::Vertical => up,
        };
        for i in 0..3 {
            if step.adds() {
                pos[i] += vector[i] / speed;
            } else {
                pos[i] -= vector[i] / speed;
            }
        }
    }
}

#[test]
fn constants_of_the_viewer() {
    assert_eq!(CAMERA_SPEED, 10);
    assert_eq!(MOUSE_SENSITIVITY, 800);
    assert_eq!((RESOLUTION_X, RESOLUTION_Y), (1280, 720));
    assert_eq!(START_HEIGHT, 13);
}

#[test]
fn no_key_no_step() {
    let input = InputState::new();
    assert!(movement_steps(&input).is_empty());
}

#[test]
fn each_key_gives_its_direction() {
    let pairs = [
        (Key::W, Direction::Forward),
        (Key::A, Direction::Left),
        (Key::S, Direction::Back),
        (Key::D, Direction::Right),
        (Key::Space, Direction::Up),
        (Key::ShiftLeft, Direction::Down),
    ];
    for (key, direction) in pairs {
        let mut input = InputState::new();
        input.set_pressed(key, true);
        assert_eq!(movement_steps(&input), vec![direction]);
        assert_eq!(direction.key(), key);
        input.set_pressed(key, false);
        assert!(movement_steps(&input).is_empty());
    }
}

#[test]
fn steps_come_in_the_fixed_order() {
    let mut input = InputState::new();
    for key in [Key::ShiftLeft, Key::Space, Key::D, Key::S, Key::A, Key::W] {
        input.set_pressed(key, true);
    }
    assert_eq!(
        movement_steps(&input),
        vec![
            Direction::Forward,
            Direction::Left,
            Direction::Back,
            Direction::Right,
            Direction::Up,
            Direction::Down,
        ]
    );
    input.set_pressed(Key::A, false);
    input.set_pressed(Key::Space, false);
    assert_eq!(
        movement_steps(&input),
        vec![Direction::Forward, Direction::Back, Direction::Right, Direction::Down]
    );
}

#[test]
fn unbound_keys_move_nothing() {
    let mut input = InputState::new();
    input.set_pressed(Key::Other(0), true);
    input.set_pressed(Key::Other(42), true);
    assert!(movement_steps(&input).is_empty());
    input.set_pressed(Key::D, true);
    assert_eq!(movement_steps(&input), vec![Direction::Right]);
}

#[test]
fn directions_name_their_vector_and_sign() {
    assert_eq!((Direction::Forward.axis(), Direction::Forward.adds()), (Axis::Front, true));
    assert_eq!((Direction::Back.axis(), Direction::Back.adds()), (Axis::Front, false));
    assert_eq!((Direction::Right.axis(), Direction::Right.adds()), (Axis::Right, true));
    assert_eq!((Direction::Left.axis(), Direction::Left.adds()), (Axis::Right, false));
    assert_eq!((Direction::Up.axis(), Direction::Up.adds()), (Axis::Vertical, true));
    assert_eq!((Direction::Down.axis(), Direction::Down.adds()), (Axis::Vertical, false));
}

#[test]
fn forward_step_from_the_start_moves_a_tenth_along_x() {
    let mut pos = [0.0f32, START_HEIGHT as f32, 0.0];
    let looking = front(0.0, 0.0);
    assert!((looking[0] - 1.0).abs() < 1e-6);
    assert!(looking[1].abs() < 1e-6);
    assert!(looking[2].abs() < 1e-6);

    let mut input = InputState::new();
    input.set_pressed(Key::W, true);
    walk(&mut pos, 0.0, 0.0, &movement_steps(&input));
    assert!((pos[0] - 0.1).abs() < 1e-6);
    assert!((pos[1] - 13.0).abs() < 1e-6);
    assert!(pos[2].abs() < 1e-6);
}

#[test]
fn vertical_steps_change_the_height_only() {
    let mut pos = [2.0f32, 13.0, -4.0];
    let mut input = InputState::new();
    input.set_pressed(Key::Space, true);
    walk(&mut pos, 0.7, -0.3, &movement_steps(&input));
    assert_eq!(pos[0], 2.0);
    assert_eq!(pos[2], -4.0);
    assert!((pos[1] - 13.1).abs() < 1e-6);
    input.set_pressed(Key::Space, false);
    input.set_pressed(Key::ShiftLeft, true);
    walk(&mut pos, 0.7, -0.3, &movement_steps(&input));
    walk(&mut pos, 0.7, -0.3, &movement_steps(&input));
    assert!((pos[1] - 12.9).abs() < 1e-5);
}

#[test]
fn mouse_delta_of_eighty_turns_the_yaw_by_a_tenth() {
    let mut input = InputState::new();
    input.cursor_moved(true, 80.0f32.to_bits(), 0.0f32.to_bits());
    let (dx, dy) = input.take_mouse_delta();
    let mut yaw = 0.0f32;
    let mut pitch = 0.0f32;
    yaw += f32::from_bits(dx) / MOUSE_SENSITIVITY as f32;
    pitch += f32::from_bits(dy) / MOUSE_SENSITIVITY as f32;
    assert_eq!(yaw, 0.1);
    assert_eq!(pitch, 0.0);
}
