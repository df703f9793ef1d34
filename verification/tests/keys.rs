use lockstep::input::KeyboardKeyCode;
use lockstep::input::Keys;
use lockstep::input::MouseButtonIndex;
use lockstep::input::MAX_HOLD_FRAMES;
use lockstep::stream::DeltaPacket;

fn key(code: u16, down: bool) -> DeltaPacket {
    DeltaPacket::Keyboard { code: KeyboardKeyCode(code), down }
}

fn mouse(button: u16, down: bool) -> DeltaPacket {
    DeltaPacket::Mouse { button: MouseButtonIndex(button), down }
}

#[test]
fn fresh_keys_are_all_up() {
    let keys = Keys::new();
    assert!(!keys.key_down(KeyboardKeyCode(65)));
    assert_eq!(keys.key_frames(KeyboardKeyCode(65)), 0);
    assert!(!keys.mouse_down(MouseButtonIndex(0)));
}

#[test]
fn a_key_press_release_lifecycle() {
    let mut keys = Keys::new();
    let code = KeyboardKeyCode(65);
    keys.press_change(key(65, true));
    assert!(keys.key_pressed(code));
    assert!(keys.key_down(code));
    assert!(!keys.key_held(code));
    keys.update();
    assert!(!keys.key_pressed(code));
    assert!(keys.key_down(code));
    assert!(keys.key_held(code));
    assert_eq!(keys.key_frames(code), 2);
    keys.press_change(key(65, false));
    assert!(keys.key_released(code));
    assert!(!keys.key_down(code));
    keys.update();
    assert!(!keys.key_released(code));
    assert_eq!(keys.key_frames(code), 0);
}

#[test]
fn a_second_press_does_not_restart_the_counter() {
    let mut keys = Keys::new();
    let code = KeyboardKeyCode(10);
    keys.press_change(key(10, true));
    keys.update();
    keys.press_change(key(10, true));
    assert_eq!(keys.key_frames(code), 2);
}

#[test]
fn releasing_an_idle_key_changes_nothing() {
    let mut keys = Keys::new();
    keys.press_change(key(20, false));
    assert_eq!(keys.key_frames(KeyboardKeyCode(20)), 0);
}

#[test]
fn a_mouse_button_lifecycle() {
    let mut keys = Keys::new();
    let button = MouseButtonIndex(1);
    keys.press_change(mouse(1, true));
    assert!(keys.mouse_pressed(button));
    assert!(keys.mouse_down(button));
    keys.update();
    assert_eq!(keys.mouse_frames_held(button), 2);
    assert!(keys.mouse_held(button, 1));
    assert!(!keys.mouse_held(button, 2));
    keys.press_change(mouse(1, false));
    assert!(keys.mouse_released(button));
    assert_eq!(keys.mouse_frames_held(button), 0);
    keys.update();
    assert!(!keys.mouse_released(button));
    assert!(!keys.mouse_down(button));
}

#[test]
fn hold_counters_saturate_below_the_release_sentinel() {
    let mut keys = Keys::new();
    let code = KeyboardKeyCode(7);
    keys.press_change(key(7, true));
    for _ in 0..70_000 {
        keys.update();
    }
    assert_eq!(keys.key_frames(code), MAX_HOLD_FRAMES);
    assert!(keys.key_down(code));
}

#[test]
fn keyboard_and_mouse_tables_are_independent() {
    let mut keys = Keys::new();
    keys.press_change(key(1, true));
    keys.press_change(mouse(1, true));
    keys.press_change(key(1, false));
    assert!(keys.key_released(KeyboardKeyCode(1)));
    assert!(keys.mouse_pressed(MouseButtonIndex(1)));
}
