use misfire::event::key_event::{KeyPressed, KeyReleased, PhysicalKey};
use misfire::event::mouse_event::{MouseButton, MouseButtonPressed, MouseButtonReleased};
use misfire::event::window_event::{
    WindowCloseEvent, WindowFocus, WindowLostFocus, WindowMoved, WindowResizeEvent,
};
use misfire::event::{try_cast, Event, EventCategory, EventType};

#[test]
fn category_bits_are_single_bits() {
    assert_eq!(EventCategory::EventCategoryApplication.bits(), 1);
    assert_eq!(EventCategory::EventCategoryInput.bits(), 2);
    assert_eq!(EventCategory::EventCategoryKeyboard.bits(), 4);
    assert_eq!(EventCategory::EventCategoryMouse.bits(), 8);
    assert_eq!(EventCategory::EventCategoryMouseButton.bits(), 16);
}

#[test]
fn resize_event_keeps_size_and_kind() {
    let e = WindowResizeEvent::new(800, 600);
    assert_eq!(e.get_width(), 800);
    assert_eq!(e.get_height(), 600);
    assert_eq!(e.get_event_type(), EventType::WindowResize);
    assert!(!*e.is_handled());
}

#[test]
fn window_events_are_application_events() {
    let events: Vec<Box<dyn Fn() -> (EventType, u8, bool, bool)>> = vec![
        Box::new(|| {
            let e = WindowCloseEvent::new();
            (e.get_event_type(), e.get_category_flags(),
             e.is_in_category(EventCategory::EventCategoryApplication),
             e.is_in_category(EventCategory::EventCategoryInput))
        }),
        Box::new(|| {
            let e = WindowFocus::new();
            (e.get_event_type(), e.get_category_flags(),
             e.is_in_category(EventCategory::EventCategoryApplication),
             e.is_in_category(EventCategory::EventCategoryInput))
        }),
        Box::new(|| {
            let e = WindowLostFocus::new();
            (e.get_event_type(), e.get_category_flags(),
             e.is_in_category(EventCategory::EventCategoryApplication),
             e.is_in_category(EventCategory::EventCategoryInput))
        }),
        Box::new(|| {
            let e = WindowMoved::new(-3, 7);
            (e.get_event_type(), e.get_category_flags(),
             e.is_in_category(EventCategory::EventCategoryApplication),
             e.is_in_category(EventCategory::EventCategoryInput))
        }),
    ];
    let kinds = [EventType::WindowClose, EventType::WindowFocus, EventType::WindowLostFocus, EventType::WindowMoved];
    for (f, kind) in events.iter().zip(kinds.iter()) {
        let (k, flags, app, input) = f();
        assert_eq!(k, *kind);
        assert_eq!(flags, 1);
        assert!(app);
        assert!(!input);
    }
}

#[test]
fn moved_event_keeps_position() {
    let e = WindowMoved::new(-3, 7);
    assert_eq!(e.get_x(), -3);
    assert_eq!(e.get_y(), 7);
}

#[test]
fn mouse_button_events_are_mouse_and_input_events() {
    let e = MouseButtonPressed::new(MouseButton::Left);
    assert_eq!(e.get_category_flags(), 26);
    assert!(e.is_in_category(EventCategory::EventCategoryMouseButton));
    assert!(e.is_in_category(EventCategory::EventCategoryMouse));
    assert!(e.is_in_category(EventCategory::EventCategoryInput));
    assert!(!e.is_in_category(EventCategory::EventCategoryKeyboard));
    assert!(!e.is_in_category(EventCategory::EventCategoryApplication));
    assert_eq!(e.get_key(), MouseButton::Left);
    let r = MouseButtonReleased::new(MouseButton::Other(9));
    assert_eq!(r.get_event_type(), EventType::MouseButtonReleased);
    assert_eq!(r.get_category_flags(), 26);
    assert_eq!(r.get_key(), MouseButton::Other(9));
}

#[test]
fn key_events_carry_the_application_flag() {
    let e = KeyPressed::new(PhysicalKey(42), Some(String::from("a")), 1);
    assert_eq!(e.get_key(), PhysicalKey(42));
    assert_eq!(e.get_event_type(), EventType::KeyPressed);
    assert_eq!(e.get_category_flags(), 1);
    assert!(e.is_in_category(EventCategory::EventCategoryApplication));
    assert!(!e.is_in_category(EventCategory::EventCategoryKeyboard));
    let r = KeyReleased::new(PhysicalKey(42), None);
    assert_eq!(r.get_event_type(), EventType::KeyReleased);
    assert_eq!(r.get_key(), PhysicalKey(42));
}

#[test]
fn button_codes_are_distinct() {
    let buttons = [
        MouseButton::Left,
        MouseButton::Right,
        MouseButton::Middle,
        MouseButton::Back,
        MouseButton::Forward,
        MouseButton::Other(0),
        MouseButton::Other(1),
    ];
    let codes: Vec<u32> = buttons.iter().map(|b| b.code()).collect();
    assert_eq!(codes, vec![0, 1, 2, 3, 4, 5, 6]);
    assert_eq!(MouseButton::Other(u16::MAX).code(), 65540);
}

#[test]
fn set_handled_marks_the_event() {
    let mut e = WindowCloseEvent::new();
    e.set_handled(true);
    assert!(*e.is_handled());
    e.set_handled(false);
    assert!(!*e.is_handled());
    assert_eq!(e.get_event_type(), EventType::WindowClose);
}

#[test]
fn downcast_succeeds_only_for_the_own_type() {
    let e = WindowResizeEvent::new(10, 20);
    let as_resize = e.downcast_ref::<WindowResizeEvent>();
    assert!(as_resize.is_some());
    assert_eq!(as_resize.unwrap().get_width(), 10);
    assert!(e.downcast_ref::<WindowCloseEvent>().is_none());
    assert!(e.downcast_ref::<KeyPressed>().is_none());
    let k = KeyPressed::new(PhysicalKey(3), None, 0);
    assert_eq!(try_cast::<KeyPressed, _>(&k).unwrap().get_key(), PhysicalKey(3));
    assert!(try_cast::<KeyReleased, _>(&k).is_none());
}

#[test]
fn downcast_mut_changes_the_event_itself() {
    let mut e = MouseButtonPressed::new(MouseButton::Right);
    match e.downcast_mut::<MouseButtonPressed>() {
        Some(inner) => inner.set_handled(true),
        None => panic!("the cast should succeed"),
    }
    assert!(*e.is_handled());
    assert!(e.downcast_mut::<MouseButtonReleased>().is_none());
}

#[test]
fn marking_handled_keeps_the_payload() {
    let mut e = WindowResizeEvent::new(1280, 720);
    e.set_handled(true);
    assert_eq!(e.get_width(), 1280);
    assert_eq!(e.get_height(), 720);
    let mut m = MouseButtonReleased::new(MouseButton::Middle);
    assert!(m.downcast_mut::<MouseButtonPressed>().is_none());
    assert!(!*m.is_handled());
    m.downcast_mut::<MouseButtonReleased>().unwrap().set_handled(true);
    assert!(*m.is_handled());
    assert_eq!(m.get_key(), MouseButton::Middle);
}

/// An event type of the application that reports a library kind.
struct Imitation {
    handled: bool,
}

impl Event for Imitation {
    fn kind(&self) -> EventType {
        EventType::KeyPressed
    }
    fn handled(&self) -> bool {
        self.handled
    }
    fn any_view(&self) -> misfire::event::EventRef<'_> {
        misfire::event::EventRef::Other
    }
    fn same_payload(&self, _other: &Self) -> bool {
        true
    }
    fn lemma_any_view_kind(&self) {}
    fn get_event_type(&self) -> EventType {
        EventType::KeyPressed
    }
    fn get_category_flags(&self) -> u8 {
        1
    }
    fn is_in_category(&self, category: EventCategory) -> bool {
        self.get_category_flags() & category.bits() != 0
    }
    fn set_handled(&mut self, handled: bool) {
        self.handled = handled;
    }
    fn is_handled(&self) -> &bool {
        &self.handled
    }
    fn as_any(&self) -> misfire::event::EventRef<'_> {
        misfire::event::EventRef::Other
    }
    fn as_any_mut(&mut self) -> misfire::event::EventMut<'_> {
        misfire::event::EventMut::Other
    }
}

#[test]
fn casts_refuse_other_types_of_the_same_kind() {
    let mut e = Imitation { handled: false };
    assert!(e.downcast_ref::<KeyPressed>().is_none());
    assert!(try_cast::<KeyPressed, _>(&e).is_none());
    assert!(e.downcast_mut::<KeyPressed>().is_none());
    assert!(!misfire::input::InputSystem::can_read(&e));
}
