use misfire::event::key_event::{KeyPressed, KeyReleased, PhysicalKey};
use misfire::event::mouse_event::{MouseButton, MouseButtonPressed, MouseButtonReleased};
use misfire::event::window_event::WindowFocus;
use misfire::event::Event;
use misfire::input::InputSystem;

#[test]
fn keys_are_pressed_until_released() {
    let mut input = InputSystem::new();
    assert!(!input.is_key_pressed(PhysicalKey(7)));
    let mut press = KeyPressed::new(PhysicalKey(7), None, 0);
    press.set_handled(true);
    input.on_event(&mut press);
    assert!(!*press.is_handled());
    assert!(input.is_key_pressed(PhysicalKey(7)));
    assert!(!input.is_key_pressed(PhysicalKey(8)));
    let mut release = KeyReleased::new(PhysicalKey(7), None);
    input.on_event(&mut release);
    assert!(!input.is_key_pressed(PhysicalKey(7)));
}

#[test]
fn buttons_are_pressed_until_released() {
    let mut input = InputSystem::new();
    let mut press = MouseButtonPressed::new(MouseButton::Other(2));
    input.on_event(&mut press);
    assert!(input.is_btn_pressed(MouseButton::Other(2)));
    assert!(!input.is_btn_pressed(MouseButton::Other(3)));
    assert!(!input.is_btn_pressed(MouseButton::Left));
    let mut release = MouseButtonReleased::new(MouseButton::Other(2));
    input.on_event(&mut release);
    assert!(!input.is_btn_pressed(MouseButton::Other(2)));
}

#[test]
fn other_events_change_no_state() {
    let mut input = InputSystem::new();
    let mut press = KeyPressed::new(PhysicalKey(1), None, 0);
    input.on_event(&mut press);
    let mut focus = WindowFocus::new();
    focus.set_handled(true);
    input.on_event(&mut focus);
    assert!(!*focus.is_handled());
    assert!(input.is_key_pressed(PhysicalKey(1)));
}

#[test]
fn library_events_can_be_read() {
    let press = KeyPressed::new(PhysicalKey(1), None, 0);
    assert!(InputSystem::can_read(&press));
    assert!(InputSystem::can_read(&WindowFocus::new()));
    assert!(InputSystem::can_read(&MouseButtonReleased::new(MouseButton::Left)));
}
