//! The input snapshot's edge- and level-triggered semantics.

use brltk::input::{
    DoryenInput, RawInput, MOUSE_BUTTON_LEFT, MOUSE_BUTTON_MIDDLE, MOUSE_BUTTON_RIGHT,
};

fn raw_with_keys(pressed: Vec<u64>, released: Vec<u64>) -> RawInput {
    let mut raw = RawInput::empty();
    raw.keys_pressed = pressed;
    raw.keys_released = released;
    raw
}

#[test]
fn pressed_is_edge_triggered_down_is_level_triggered() {
    let mut input = DoryenInput::new();
    let listeners = Vec::new();

    input.handle_input(&listeners, &raw_with_keys(vec![5], vec![]));
    assert!(input.key_pressed(5));
    assert!(input.key(5));

    // a frame with no new events: pressed clears, down persists
    input.handle_input(&listeners, &RawInput::empty());
    assert!(!input.key_pressed(5));
    assert!(input.key(5));

    // the release clears down and shows up as released exactly once
    input.handle_input(&listeners, &raw_with_keys(vec![], vec![5]));
    assert!(!input.key(5));
    assert!(input.key_released(5));
    input.handle_input(&listeners, &RawInput::empty());
    assert!(!input.key_released(5));
    assert!(!input.key(5));
}

#[test]
fn key_pressed_and_released_same_frame_ends_up() {
    let mut input = DoryenInput::new();
    let listeners = Vec::new();

    // the release is applied after the press
    input.handle_input(&listeners, &raw_with_keys(vec![9], vec![9]));
    assert!(input.key_pressed(9));
    assert!(input.key_released(9));
    assert!(!input.key(9));
}

#[test]
fn keys_pressed_lists_each_key_once() {
    let mut input = DoryenInput::new();
    let listeners = Vec::new();

    input.handle_input(&listeners, &raw_with_keys(vec![3, 7, 3], vec![7]));
    let mut pressed = input.keys_pressed();
    pressed.sort();
    assert_eq!(pressed, vec![3, 7]);
    assert_eq!(input.keys_released(), vec![7]);

    input.handle_input(&listeners, &RawInput::empty());
    assert!(input.keys_pressed().is_empty());
    assert!(input.keys_released().is_empty());
}

#[test]
fn unlistened_button_never_appears() {
    let mut input = DoryenInput::new();
    let listeners = vec![MOUSE_BUTTON_LEFT];

    let mut raw = RawInput::empty();
    raw.mouse_pressed = vec![MOUSE_BUTTON_LEFT, MOUSE_BUTTON_RIGHT, MOUSE_BUTTON_MIDDLE];
    raw.mouse_released = vec![MOUSE_BUTTON_RIGHT];
    input.handle_input(&listeners, &raw);

    assert!(input.mouse_button(MOUSE_BUTTON_LEFT));
    assert!(input.mouse_pressed(MOUSE_BUTTON_LEFT));

    // the raw report said plenty about the right and middle buttons; the
    // snapshot never asked
    for button in [MOUSE_BUTTON_RIGHT, MOUSE_BUTTON_MIDDLE] {
        assert!(!input.mouse_button(button));
        assert!(!input.mouse_pressed(button));
        assert!(!input.mouse_released(button));
    }
}

#[test]
fn click_release_in_one_frame_records_both_and_ends_up() {
    let mut input = DoryenInput::new();
    let listeners = vec![MOUSE_BUTTON_LEFT];

    let mut raw = RawInput::empty();
    raw.mouse_pressed = vec![MOUSE_BUTTON_LEFT];
    raw.mouse_released = vec![MOUSE_BUTTON_LEFT];
    input.handle_input(&listeners, &raw);

    assert!(input.mouse_pressed(MOUSE_BUTTON_LEFT));
    assert!(input.mouse_released(MOUSE_BUTTON_LEFT));
    // release is applied after press, so the frame ends not down
    assert!(!input.mouse_button(MOUSE_BUTTON_LEFT));
}

#[test]
fn mouse_down_persists_until_released() {
    let mut input = DoryenInput::new();
    let listeners = vec![MOUSE_BUTTON_LEFT];

    let mut raw = RawInput::empty();
    raw.mouse_pressed = vec![MOUSE_BUTTON_LEFT];
    input.handle_input(&listeners, &raw);
    assert!(input.mouse_button(MOUSE_BUTTON_LEFT));

    input.handle_input(&listeners, &RawInput::empty());
    assert!(input.mouse_button(MOUSE_BUTTON_LEFT));
    assert!(!input.mouse_pressed(MOUSE_BUTTON_LEFT));

    let mut raw = RawInput::empty();
    raw.mouse_released = vec![MOUSE_BUTTON_LEFT];
    input.handle_input(&listeners, &raw);
    assert!(!input.mouse_button(MOUSE_BUTTON_LEFT));
    assert!(input.mouse_released(MOUSE_BUTTON_LEFT));
}

#[test]
fn text_position_and_close_copied_verbatim_and_frame_scoped() {
    let mut input = DoryenInput::new();
    let listeners = Vec::new();

    let mut raw = RawInput::empty();
    raw.text = String::from("hi!");
    raw.mouse_x = 415;
    raw.mouse_y = 27;
    raw.close_requested = true;
    input.handle_input(&listeners, &raw);

    assert_eq!(input.text(), "hi!");
    assert_eq!(input.mouse_position(), (415, 27));
    assert!(input.close_requested());

    // the text buffer and close flag are cleared every frame; the position
    // is whatever the last report said
    let mut quiet = RawInput::empty();
    quiet.mouse_x = 415;
    quiet.mouse_y = 27;
    input.handle_input(&listeners, &quiet);
    assert_eq!(input.text(), "");
    assert!(!input.close_requested());
    assert_eq!(input.mouse_position(), (415, 27));
}
