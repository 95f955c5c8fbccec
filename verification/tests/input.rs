use ship_game::input::{handle_event, InputEvent};
use ship_game::keys::{is_key_pressed, key_down, KeyManager};

#[test]
fn quit_ends_the_loop() {
    let mut keys = KeyManager::new();
    key_down(&mut keys, String::from("Left"));
    assert!(!handle_event(&mut keys, InputEvent::Quit));
    assert!(is_key_pressed(&keys, "Left"));
}

#[test]
fn escape_down_ends_the_loop_and_is_not_recorded() {
    let mut keys = KeyManager::new();
    assert!(!handle_event(&mut keys, InputEvent::KeyDown(String::from("Escape"))));
    assert!(!is_key_pressed(&keys, "Escape"));
}

#[test]
fn escape_up_does_not_end_the_loop() {
    let mut keys = KeyManager::new();
    assert!(handle_event(&mut keys, InputEvent::KeyUp(String::from("Escape"))));
    assert!(!is_key_pressed(&keys, "Escape"));
}

#[test]
fn key_down_event_presses_the_key() {
    let mut keys = KeyManager::new();
    assert!(handle_event(&mut keys, InputEvent::KeyDown(String::from("Up"))));
    assert!(is_key_pressed(&keys, "Up"));
    assert!(!is_key_pressed(&keys, "Left"));
}

#[test]
fn key_up_event_releases_the_key() {
    let mut keys = KeyManager::new();
    assert!(handle_event(&mut keys, InputEvent::KeyDown(String::from("Right"))));
    assert!(handle_event(&mut keys, InputEvent::KeyUp(String::from("Right"))));
    assert!(!is_key_pressed(&keys, "Right"));
}

#[test]
fn only_the_exact_name_escape_ends_the_loop() {
    let mut keys = KeyManager::new();
    assert!(handle_event(&mut keys, InputEvent::KeyDown(String::from("escape"))));
    assert!(handle_event(&mut keys, InputEvent::KeyDown(String::from("Esc"))));
    assert!(handle_event(&mut keys, InputEvent::KeyDown(String::new())));
    assert!(is_key_pressed(&keys, "escape"));
    assert!(is_key_pressed(&keys, "Esc"));
    assert!(is_key_pressed(&keys, ""));
}

#[test]
fn events_of_one_frame_are_recorded_in_order() {
    let mut keys = KeyManager::new();
    let events = vec![
        InputEvent::KeyDown(String::from("Left")),
        InputEvent::KeyDown(String::from("Up")),
        InputEvent::KeyUp(String::from("Left")),
        InputEvent::KeyDown(String::from("Right")),
    ];
    for event in events {
        assert!(handle_event(&mut keys, event));
    }
    assert!(!is_key_pressed(&keys, "Left"));
    assert!(is_key_pressed(&keys, "Up"));
    assert!(is_key_pressed(&keys, "Right"));
}
