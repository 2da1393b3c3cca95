use rustsdlretro_core::input::{
    key_is_down, minifb_key_to_joypad_p1, minifb_key_to_joypad_p2, player1_keycodes_to_joypad,
    player2_keycodes_to_joypad, InputState, KeyboardKey, JOYPAD_A, JOYPAD_B, JOYPAD_UP,
};

#[test]
fn keycode_layouts() {
    assert_eq!(player1_keycodes_to_joypad(103), Some(JOYPAD_UP));
    assert_eq!(player1_keycodes_to_joypad(17), Some(JOYPAD_UP));
    assert_eq!(player1_keycodes_to_joypad(40), Some(JOYPAD_B));
    assert_eq!(player1_keycodes_to_joypad(999), None);
    assert_eq!(player2_keycodes_to_joypad(89), Some(JOYPAD_UP));
    assert_eq!(player2_keycodes_to_joypad(24), Some(JOYPAD_A));
    assert_eq!(minifb_key_to_joypad_p1(KeyboardKey::Up), Some(JOYPAD_UP));
    assert!(minifb_key_to_joypad_p2(KeyboardKey::F1).is_none());
    assert!(key_is_down(&[KeyboardKey::A, KeyboardKey::F2], KeyboardKey::F2));
    assert!(!key_is_down(&[KeyboardKey::A], KeyboardKey::F2));
}

#[test]
fn press_is_held_and_reported_once() {
    let mut input = InputState::new();
    input.apply_key_event(103, 1);
    assert_eq!(input.get_state(0, 1, 0, JOYPAD_UP as u32), 1);
    assert!(input.was_key_just_pressed(103));
    assert!(!input.was_key_just_pressed(103));
    input.apply_key_event(103, 0);
    assert_eq!(input.get_state(0, 1, 0, JOYPAD_UP as u32), 0);
}

#[test]
fn player_two_keys_land_on_port_one() {
    let mut input = InputState::new();
    input.apply_key_event(89, 1);
    assert_eq!(input.get_state(1, 1, 0, JOYPAD_UP as u32), 1);
    assert_eq!(input.get_state(0, 1, 0, JOYPAD_UP as u32), 0);
}

#[test]
fn out_of_range_queries_read_minus_one() {
    let input = InputState::new();
    assert_eq!(input.get_state(4, 1, 0, 0), -1);
    assert_eq!(input.get_state(0, 1, 0, 16), -1);
    assert_eq!(input.get_state(3, 1, 0, 15), 0);
}

#[test]
fn window_poll_tracks_edges() {
    let mut input = InputState::new();
    input.poll_with_video(&[KeyboardKey::F1]);
    assert!(input.was_f_key_just_pressed(1));
    assert!(!input.was_f_key_just_pressed(1));
    input.poll_with_video(&[KeyboardKey::F1]);
    assert!(!input.was_f_key_just_pressed(1));
    assert!(!input.was_f_key_just_pressed(3));
}

#[test]
fn escape_press_is_reported_once() {
    let mut input = InputState::new();
    assert!(!input.was_key_just_pressed(1));
    input.apply_key_event(1, 1);
    assert!(input.was_key_just_pressed(1));
    assert!(!input.was_key_just_pressed(1));
    input.apply_key_event(1, 1);
    assert!(!input.was_key_just_pressed(1));
    input.apply_key_event(1, 0);
    input.apply_key_event(1, 1);
    assert!(input.was_key_just_pressed(1));
}

#[test]
fn f2_and_f4_are_edges_on_console() {
    let mut input = InputState::new();
    input.apply_key_event(60, 1);
    assert!(input.was_key_just_pressed(60));
    assert!(!input.was_key_just_pressed(60));
    input.apply_key_event(62, 1);
    assert!(input.was_key_just_pressed(62));
    assert!(!input.was_key_just_pressed(62));
}
