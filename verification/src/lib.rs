//! Misfire: the core of a small layered game engine.
//!
//! Events raised by the window go through a [`layer::LayerStack`] from the top
//! down until one layer marks them handled; the [`input::InputSystem`] keeps
//! track of which keys and mouse buttons are held; the render modules describe
//! vertex buffer layouts, shader sources and image data.
use std::time::Duration;

use vstd::prelude::*;

pub mod event;
pub mod input;
pub mod layer;
pub mod render_api;
pub mod renderer;

use crate::event::{Event, EventType};
use crate::layer::{Layer, LayerStack};

verus! {

/// The properties of the application window.
pub struct WindowProps {
    title: String,
    width: u32,
    height: u32,
    vsync: bool,
}

impl WindowProps {
    pub closed spec fn spec_title(&self) -> Seq<char> {
        self.title@
    }

    pub closed spec fn spec_width(&self) -> u32 {
        self.width
    }

    pub closed spec fn spec_height(&self) -> u32 {
        self.height
    }

    pub closed spec fn spec_vsync(&self) -> bool {
        self.vsync
    }

    pub fn new(title: String, width: u32, height: u32, vsync: bool) -> (p: Self)
        ensures
            p.spec_title() == title@,
            p.spec_width() == width,
            p.spec_height() == height,
            p.spec_vsync() == vsync,
    {
        WindowProps { title, width, height, vsync }
    }

    pub fn set_title(&mut self, title: String)
        ensures
            final(self).spec_title() == title@,
            final(self).spec_width() == old(self).spec_width(),
            final(self).spec_height() == old(self).spec_height(),
            final(self).spec_vsync() == old(self).spec_vsync(),
    {
        self.title = title;
    }

    pub fn set_vsync(&mut self, vsync: bool)
        ensures
            final(self).spec_vsync() == vsync,
            final(self).spec_title() == old(self).spec_title(),
            final(self).spec_width() == old(self).spec_width(),
            final(self).spec_height() == old(self).spec_height(),
    {
        self.vsync = vsync;
    }

    /// Records the new size of the window after it was resized.
    pub fn set_size(&mut self, width: u32, height: u32)
        ensures
            final(self).spec_width() == width,
            final(self).spec_height() == height,
            final(self).spec_title() == old(self).spec_title(),
            final(self).spec_vsync() == old(self).spec_vsync(),
    {
        self.height = height;
        self.width = width;
    }

    pub fn is_vsync_enabled(&self) -> (b: bool)
        ensures
            b == self.spec_vsync(),
    {
        self.vsync
    }

    pub fn get_title(&self) -> (t: &String)
        ensures
            t@ == self.spec_title(),
    {
        &self.title
    }

    pub fn get_height(&self) -> (h: u32)
        ensures
            h == self.spec_height(),
    {
        self.height
    }

    pub fn get_width(&self) -> (w: u32)
        ensures
            w == self.spec_width(),
    {
        self.width
    }
}

impl Default for WindowProps {
    /// The properties an application starts with: "Misfire App", 1280 x 720,
    /// vsync off.
    fn default() -> (p: Self)
        ensures
            p.spec_title() == "Misfire App"@,
            p.spec_width() == 1280,
            p.spec_height() == 720,
            !p.spec_vsync(),
    {
        WindowProps { title: String::from_str("Misfire App"), width: 1280, height: 720, vsync: false }
    }
}

/// The time that passed between two frames.
#[derive(Debug, Clone, Copy)]
pub struct Timestep(Duration);

impl Timestep {
    pub closed spec fn spec_duration(&self) -> Duration {
        self.0
    }

    pub fn new(delta: Duration) -> (t: Self)
        ensures
            t.spec_duration() == delta,
    {
        Timestep(delta)
    }

    pub fn duration(&self) -> (d: Duration)
        ensures
            d == self.spec_duration(),
    {
        self.0
    }
}

/// The event kinds that the application itself handles before any layer sees
/// them: closing and resizing the window.
pub open spec fn handled_by_application(kind: EventType) -> bool {
    kind == EventType::WindowClose || kind == EventType::WindowResize
}

/// The event that the application passes on to the layers: close and resize
/// events marked handled (and otherwise unchanged), any other event as it is.
pub open spec fn application_marked<E: Event>(before: E, after: E) -> bool {
    if handled_by_application(before.kind()) {
        &&& after.handled()
        &&& after.kind() == before.kind()
        &&& before.same_payload(&after)
    } else {
        after == before
    }
}

/// The application handles close and resize events, and no other kind.
pub proof fn lemma_application_handles_close_and_resize(kind: EventType)
    ensures
        handled_by_application(kind) <==> (kind == EventType::WindowClose || kind
            == EventType::WindowResize),
{
}

/// `trace` is how an event went through the top `visited` items of a stack of
/// `items`: `trace[0]` is the event as it was offered, the `i`-th item from the
/// top received `trace[i]`, which was not handled yet, and turned it into
/// `trace[i + 1]`; the offering stopped because the stack was exhausted or
/// because the event was handled.
pub open spec fn is_dispatch_trace<L: Layer, E: Event>(items: Seq<L>, trace: Seq<E>, visited: int) -> bool {
    &&& 0 <= visited <= items.len()
    &&& trace.len() == visited + 1
    &&& forall|i: int|
        #![trigger trace[i]]
        0 <= i < visited ==> !trace[i].handled() && items[items.len() - 1 - i].event_step(
            &trace[i],
            &trace[i + 1],
        )
    &&& (visited == items.len() || trace[visited].handled())
}

/// An event that is not handled yet and is neither a close nor a resize event
/// reaches the top item of a non-empty stack as it was given: the offering goes
/// through at least one item, and the top item receives the event unchanged.
pub proof fn lemma_unhandled_event_reaches_top<L: Layer, E: Event>(
    items: Seq<L>,
    event: E,
    trace: Seq<E>,
    visited: int,
)
    requires
        items.len() > 0,
        !event.handled(),
        event.kind() != EventType::WindowClose,
        event.kind() != EventType::WindowResize,
        is_dispatch_trace(items, trace, visited),
        application_marked(event, trace[0]),
    ensures
        visited >= 1,
        trace[0] == event,
        items[items.len() - 1].event_step(&event, &trace[1]),
{
    assert(trace[0] == event);
    if visited == 0 {
        assert(trace[visited].handled());
    }
    let first: int = 0;
    assert(!trace[first].handled() && items[items.len() - 1 - first].event_step(
        &trace[first],
        &trace[first + 1],
    ));
}

/// Offers `event` to the layers of `layer_stack` from the top down and stops as
/// soon as the event is marked handled; returns how many layers it was offered to.
///
/// Close and resize events are marked handled by the application first, so no
/// layer sees them.
pub fn handle_event<L: Layer, E: Event>(layer_stack: &LayerStack<L>, event: &mut E) -> (visited: usize)
    ensures
        visited <= layer_stack.items().len(),
        exists|trace: Seq<E>|
            {
                &&& is_dispatch_trace(layer_stack.items(), trace, visited as int)
                &&& application_marked(*old(event), trace[0])
                &&& trace.last() == *final(event)
            },
        handled_by_application(old(event).kind()) ==> visited == 0 && final(event).handled(),
        old(event).handled() ==> visited == 0 && final(event).handled(),
        visited < layer_stack.items().len() ==> final(event).handled(),
        visited == 0 && !handled_by_application(old(event).kind()) ==> *final(event) == *old(event),
        old(event).kind() == EventType::WindowClose || old(event).kind() == EventType::WindowResize
            ==> visited == 0 && final(event).handled(),
        !old(event).handled() && old(event).kind() != EventType::WindowClose && old(event).kind()
            != EventType::WindowResize && layer_stack.items().len() > 0 ==> visited >= 1 && exists|
            trace: Seq<E>,
        |
            {
                &&& is_dispatch_trace(layer_stack.items(), trace, visited as int)
                &&& trace[0] == *old(event)
                &&& trace.last() == *final(event)
            },
{
    match event.get_event_type() {
        EventType::WindowClose => {
            event.set_handled(true);
        },
        EventType::WindowResize => {
            event.set_handled(true);
        },
        _ => {},
    }
    let ghost pre = *event;
    let ghost mut trace: Seq<E> = seq![pre];
    assert(application_marked(*old(event), pre));
    let mut layers = layer_stack.iter();
    let mut visited: usize = 0;
    let count = layer_stack.len();
    loop
        invariant_except_break
            visited > 0 ==> !pre.handled(),
            visited + layers.index() == count,
        invariant
            count == layer_stack.items().len(),
            layers.stack() == layer_stack.items(),
            visited + layers.index() <= count,
            handled_by_application(old(event).kind()) ==> pre.handled(),
            old(event).handled() ==> pre.handled(),
            !handled_by_application(old(event).kind()) ==> pre == *old(event),
            visited == 0 ==> *event == pre,
            trace.len() == visited + 1,
            trace[0] == pre,
            trace.last() == *event,
            forall|i: int|
                #![trigger trace[i]]
                0 <= i < visited ==> !trace[i].handled() && layer_stack.items()[count - 1
                    - i].event_step(&trace[i], &trace[i + 1]),
        ensures
            visited <= layer_stack.items().len(),
            visited < layer_stack.items().len() ==> event.handled(),
            visited == 0 ==> *event == pre,
            visited > 0 ==> !pre.handled(),
            visited == 0 ==> count == 0 || pre.handled(),
            is_dispatch_trace(layer_stack.items(), trace, visited as int),
            trace[0] == pre,
            trace.last() == *event,
        decreases layers.index(),
    {
        match layers.next() {
            Some(layer) => {
                if *event.is_handled() {
                    break ;
                }
                layer.on_event(event);
                proof {
                    trace = trace.push(*event);
                }
                visited = visited + 1;
            },
            None => {
                break ;
            },
        }
    }
    visited
}

} // verus!
