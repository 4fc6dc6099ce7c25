use voxel_viewer::input::{CursorAction, InputState, Key, NO_MOTION};

#[test]
fn never_set_key_is_not_pressed() {
    let input = InputState::new();
    assert!(!input.is_pressed(Key::W));
    assert!(!input.is_pressed(Key::ShiftLeft));
    assert!(!input.is_pressed(Key::Other(0)));
    assert!(!input.is_pressed(Key::Other(u32::MAX)));
}

#[test]
fn pressed_then_released_key_is_not_pressed() {
    let mut input = InputState::new();
    input.set_pressed(Key::A, true);
    assert!(input.is_pressed(Key::A));
    input.set_pressed(Key::A, false);
    assert!(!input.is_pressed(Key::A));
}

#[test]
fn keys_are_recorded_independently() {
    let mut input = InputState::new();
    input.set_pressed(Key::W, true);
    input.set_pressed(Key::Other(0), true);
    input.set_pressed(Key::Other(5), true);
    input.set_pressed(Key::D, false);
    assert!(input.is_pressed(Key::W));
    assert!(input.is_pressed(Key::Other(0)));
    assert!(input.is_pressed(Key::Other(5)));
    assert!(!input.is_pressed(Key::D));
    assert!(!input.is_pressed(Key::A));
    assert!(!input.is_pressed(Key::Other(1)));
    input.set_pressed(Key::Other(0), false);
    assert!(input.is_pressed(Key::W));
    assert!(!input.is_pressed(Key::Other(0)));
}

#[test]
fn key_codes_are_distinct() {
    let keys = [
        Key::W,
        Key::A,
        Key::S,
        Key::D,
        Key::Space,
        Key::ShiftLeft,
        Key::Other(0),
        Key::Other(1),
        Key::Other(u32::MAX),
    ];
    for (i, a) in keys.iter().enumerate() {
        for (j, b) in keys.iter().enumerate() {
            assert_eq!(a.code() == b.code(), i == j);
        }
    }
    assert_eq!(Key::W.code(), 0);
    assert_eq!(Key::ShiftLeft.code(), 5);
    assert_eq!(Key::Other(0).code(), 6);
    assert_eq!(Key::Other(u32::MAX).code(), 6 + u32::MAX as u64);
}

#[test]
fn mouse_delta_starts_at_zero() {
    let mut input = InputState::new();
    assert_eq!(NO_MOTION, 0.0f32.to_bits());
    assert_eq!(input.take_mouse_delta(), (NO_MOTION, NO_MOTION));
}

#[test]
fn mouse_delta_is_replaced_not_accumulated() {
    let mut input = InputState::new();
    input.set_mouse_delta(3.0f32.to_bits(), 4.0f32.to_bits());
    input.set_mouse_delta(1.5f32.to_bits(), (-2.0f32).to_bits());
    assert_eq!(input.take_mouse_delta(), (1.5f32.to_bits(), (-2.0f32).to_bits()));
}

#[test]
fn taking_the_mouse_delta_resets_it() {
    let mut input = InputState::new();
    input.set_pressed(Key::S, true);
    input.set_mouse_delta(80.0f32.to_bits(), 0.0f32.to_bits());
    assert_eq!(input.take_mouse_delta(), (80.0f32.to_bits(), 0.0f32.to_bits()));
    assert_eq!(input.take_mouse_delta(), (NO_MOTION, NO_MOTION));
    assert!(input.is_pressed(Key::S));
}

#[test]
fn pointer_motion_counts_only_with_focus() {
    let mut input = InputState::new();
    let action = input.cursor_moved(false, 9.0f32.to_bits(), 9.0f32.to_bits());
    assert_eq!(action, CursorAction::Show);
    assert_eq!(input.take_mouse_delta(), (NO_MOTION, NO_MOTION));

    let action = input.cursor_moved(true, 9.0f32.to_bits(), 7.0f32.to_bits());
    assert_eq!(action, CursorAction::HideAndRecentre);
    let action = input.cursor_moved(false, 1.0f32.to_bits(), 1.0f32.to_bits());
    assert_eq!(action, CursorAction::Show);
    assert_eq!(input.take_mouse_delta(), (9.0f32.to_bits(), 7.0f32.to_bits()));
}
