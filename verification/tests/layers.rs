use std::cell::RefCell;

use misfire::event::window_event::{WindowCloseEvent, WindowFocus, WindowMoved, WindowResizeEvent};
use misfire::event::Event;
use misfire::handle_event;
use misfire::layer::{Layer, LayerStack};

struct Recorder<'a> {
    id: u32,
    handles: bool,
    log: &'a RefCell<Vec<u32>>,
}

impl<'a> Layer for Recorder<'a> {
    fn on_update(&self) {}

    fn event_step<E: Event + ?Sized>(&self, _before: &E, after: &E) -> bool {
        !self.handles || *after.is_handled()
    }

    fn on_event<E: Event + ?Sized>(&self, event: &mut E) {
        self.log.borrow_mut().push(self.id);
        if self.handles {
            event.set_handled(true);
        }
    }
}

fn ids_top_down(stack: &LayerStack<Recorder>) -> Vec<u32> {
    let mut it = stack.iter();
    let mut out = Vec::new();
    while let Some(layer) = it.next() {
        out.push(layer.id);
    }
    out
}

#[test]
fn overlays_stay_above_layers() {
    let log = RefCell::new(Vec::new());
    let mut stack = LayerStack::new();
    stack.push_layer(Recorder { id: 1, handles: false, log: &log });
    stack.push_layer(Recorder { id: 2, handles: false, log: &log });
    stack.push_overlay(Recorder { id: 10, handles: false, log: &log });
    stack.push_layer(Recorder { id: 3, handles: false, log: &log });
    stack.push_overlay(Recorder { id: 11, handles: false, log: &log });
    assert_eq!(stack.len(), 5);
    assert_eq!(ids_top_down(&stack), vec![11, 10, 3, 2, 1]);
    stack.run_layers();
}

#[test]
fn iteration_stops_for_good() {
    let log = RefCell::new(Vec::new());
    let mut stack = LayerStack::new();
    stack.push_layer(Recorder { id: 1, handles: false, log: &log });
    stack.push_overlay(Recorder { id: 2, handles: false, log: &log });
    let mut it = stack.iter();
    assert_eq!(it.next().map(|l| l.id), Some(2));
    assert_eq!(it.next().map(|l| l.id), Some(1));
    assert!(it.next().is_none());
    assert!(it.next().is_none());
    assert!(it.next().is_none());
}

#[test]
fn empty_stack_yields_nothing() {
    let stack: LayerStack<Recorder> = LayerStack::new();
    assert_eq!(stack.len(), 0);
    assert!(stack.iter().next().is_none());
}

#[test]
fn events_go_top_down_until_handled() {
    let log = RefCell::new(Vec::new());
    let mut stack = LayerStack::new();
    stack.push_layer(Recorder { id: 1, handles: false, log: &log });
    stack.push_layer(Recorder { id: 2, handles: true, log: &log });
    stack.push_overlay(Recorder { id: 10, handles: false, log: &log });
    let mut event = WindowFocus::new();
    let visited = handle_event(&stack, &mut event);
    assert_eq!(visited, 2);
    assert_eq!(*log.borrow(), vec![10, 2]);
    assert!(*event.is_handled());
}

#[test]
fn unhandled_events_reach_every_layer() {
    let log = RefCell::new(Vec::new());
    let mut stack = LayerStack::new();
    stack.push_layer(Recorder { id: 1, handles: false, log: &log });
    stack.push_overlay(Recorder { id: 10, handles: false, log: &log });
    let mut event = WindowMoved::new(1, 2);
    let visited = handle_event(&stack, &mut event);
    assert_eq!(visited, 2);
    assert_eq!(*log.borrow(), vec![10, 1]);
    assert!(!*event.is_handled());
}

#[test]
fn close_and_resize_are_handled_before_the_layers() {
    let log = RefCell::new(Vec::new());
    let mut stack = LayerStack::new();
    stack.push_layer(Recorder { id: 1, handles: false, log: &log });
    let mut close = WindowCloseEvent::new();
    assert_eq!(handle_event(&stack, &mut close), 0);
    assert!(*close.is_handled());
    let mut resize = WindowResizeEvent::new(5, 5);
    assert_eq!(handle_event(&stack, &mut resize), 0);
    assert!(*resize.is_handled());
    assert!(log.borrow().is_empty());
}

#[test]
fn handled_events_reach_no_layer() {
    let log = RefCell::new(Vec::new());
    let mut stack = LayerStack::new();
    stack.push_layer(Recorder { id: 1, handles: false, log: &log });
    let mut event = WindowFocus::new();
    event.set_handled(true);
    assert_eq!(handle_event(&stack, &mut event), 0);
    assert!(log.borrow().is_empty());
}
