use std::time::Duration;

use misfire::render_api::update_vsync;
use misfire::{Timestep, WindowProps};

#[test]
fn default_window_props() {
    let p = WindowProps::default();
    assert_eq!(p.get_title(), "Misfire App");
    assert_eq!(p.get_width(), 1280);
    assert_eq!(p.get_height(), 720);
    assert!(!p.is_vsync_enabled());
}

#[test]
fn window_props_setters() {
    let mut p = WindowProps::new(String::from("t"), 1, 2, false);
    p.set_title(String::from("Game"));
    p.set_vsync(true);
    p.set_size(640, 480);
    assert_eq!(p.get_title(), "Game");
    assert!(p.is_vsync_enabled());
    assert_eq!(p.get_width(), 640);
    assert_eq!(p.get_height(), 480);
}

#[test]
fn timestep_keeps_its_duration() {
    let t = Timestep::new(Duration::from_millis(16));
    assert_eq!(t.duration(), Duration::from_millis(16));
}

#[test]
fn vsync_changes_only_when_asked_for_something_new() {
    let mut enabled = false;
    assert!(!update_vsync(&mut enabled, false));
    assert!(!enabled);
    assert!(update_vsync(&mut enabled, true));
    assert!(enabled);
    assert!(!update_vsync(&mut enabled, true));
    assert!(update_vsync(&mut enabled, false));
    assert!(!enabled);
}
