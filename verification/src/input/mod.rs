//! Which keys and mouse buttons are held down.
//!
//! The [`InputSystem`] listens to key and mouse button events and remembers, for
//! every key and button it has heard of, whether it was last pressed or released.
use std::collections::HashMap;

use vstd::prelude::*;

use crate::event::key_event::{KeyPressed, KeyReleased, PhysicalKey};
use crate::event::mouse_event::{
    button_code,
    MouseButton,
    MouseButtonPressed,
    MouseButtonReleased,
};
use crate::event::{try_cast, Event, EventCast, EventRef, EventType};

verus! {

/// The last thing that happened to a key or a button.
#[derive(Debug, Clone, Copy, PartialEq, Eq, Structural)]
pub enum KeyState {
    Pressed,
    Released,
}

/// Whether `code` was last pressed according to `states`.
pub open spec fn is_pressed_in(states: Map<u32, KeyState>, code: u32) -> bool {
    states.contains_key(code) && states[code] == KeyState::Pressed
}

/// The states after an event: a press or release of a key (or button) records
/// that key's new state; any other event leaves the states as they were.
pub open spec fn key_states_after(keys: Map<u32, KeyState>, event: EventRef) -> Map<u32, KeyState> {
    match event {
        EventRef::KeyPressed(e) => keys.insert(e.spec_key().0, KeyState::Pressed),
        EventRef::KeyReleased(e) => keys.insert(e.spec_key().0, KeyState::Released),
        _ => keys,
    }
}

/// The button states after an event (see [`key_states_after`]); buttons are
/// identified by [`button_code`].
pub open spec fn button_states_after(buttons: Map<u32, KeyState>, event: EventRef) -> Map<
    u32,
    KeyState,
> {
    match event {
        EventRef::MouseButtonPressed(e) => buttons.insert(
            button_code(e.spec_button()),
            KeyState::Pressed,
        ),
        EventRef::MouseButtonReleased(e) => buttons.insert(
            button_code(e.spec_button()),
            KeyState::Released,
        ),
        _ => buttons,
    }
}

/// The kinds of event that the input system reads.
pub open spec fn is_input_kind(kind: EventType) -> bool {
    kind == EventType::KeyPressed || kind == EventType::KeyReleased || kind
        == EventType::MouseButtonPressed || kind == EventType::MouseButtonReleased
}

/// The input system can read `event`: if it is a key or button event, it is
/// seen as the library event of its kind.
pub open spec fn readable_input<E: Event + ?Sized>(event: &E) -> bool {
    is_input_kind(event.kind()) ==> event.any_view().kind_of() == Some(event.kind())
}

/// A press makes a key pressed, a release makes it not pressed, and neither
/// changes any other key.
pub proof fn lemma_press_release(states: Map<u32, KeyState>, code: u32, other: u32, s: KeyState)
    ensures
        is_pressed_in(states.insert(code, KeyState::Pressed), code),
        !is_pressed_in(states.insert(code, KeyState::Released), code),
        other != code ==> is_pressed_in(states.insert(code, s), other) == is_pressed_in(
            states,
            other,
        ),
{
}

/// A key press makes that key pressed, a key release makes it not pressed, and
/// neither changes the state of any other key; any other event changes no key.
pub proof fn lemma_key_event_changes_only_its_key(
    keys: Map<u32, KeyState>,
    event: EventRef,
    code: u32,
)
    ensures
        event matches EventRef::KeyPressed(e) ==> is_pressed_in(
            key_states_after(keys, event),
            e.spec_key().0,
        ),
        event matches EventRef::KeyReleased(e) ==> !is_pressed_in(
            key_states_after(keys, event),
            e.spec_key().0,
        ),
        !(event matches EventRef::KeyPressed(e) && e.spec_key().0 == code) && !(event matches EventRef::KeyReleased(e) && e.spec_key().0 == code)
            ==> is_pressed_in(key_states_after(keys, event), code) == is_pressed_in(keys, code),
{
}

/// A button press makes that button pressed, a button release makes it not
/// pressed, and neither changes the state of any other button; any other event
/// changes no button.
pub proof fn lemma_button_event_changes_only_its_button(
    buttons: Map<u32, KeyState>,
    event: EventRef,
    code: u32,
)
    ensures
        event matches EventRef::MouseButtonPressed(e) ==> is_pressed_in(
            button_states_after(buttons, event),
            button_code(e.spec_button()),
        ),
        event matches EventRef::MouseButtonReleased(e) ==> !is_pressed_in(
            button_states_after(buttons, event),
            button_code(e.spec_button()),
        ),
        !(event matches EventRef::MouseButtonPressed(e) && button_code(e.spec_button()) == code)
            && !(event matches EventRef::MouseButtonReleased(e) && button_code(e.spec_button())
            == code) ==> is_pressed_in(button_states_after(buttons, event), code) == is_pressed_in(
            buttons,
            code,
        ),
{
}

/// The keys and mouse buttons that are held down.
pub struct InputSystem {
    key_states: HashMap<u32, KeyState>,
    mouse_button_states: HashMap<u32, KeyState>,
}

impl InputSystem {
    /// The state of every key heard of, by key code.
    pub closed spec fn keys(&self) -> Map<u32, KeyState> {
        self.key_states@
    }

    /// The state of every mouse button heard of, by [`button_code`].
    pub closed spec fn buttons(&self) -> Map<u32, KeyState> {
        self.mouse_button_states@
    }

    /// A system that has heard of no key and no button.
    pub fn new() -> (s: Self)
        ensures
            s.keys() == Map::<u32, KeyState>::empty(),
            s.buttons() == Map::<u32, KeyState>::empty(),
    {
        InputSystem { key_states: HashMap::new(), mouse_button_states: HashMap::new() }
    }

    /// Whether `key` was last pressed (a key never heard of is not pressed).
    pub fn is_key_pressed(&self, key: PhysicalKey) -> (b: bool)
        ensures
            b == is_pressed_in(self.keys(), key.0),
    {
        match self.key_states.get(&key.0) {
            Some(state) => *state == KeyState::Pressed,
            None => false,
        }
    }

    /// Whether `btn` was last pressed (a button never heard of is not pressed).
    pub fn is_btn_pressed(&self, btn: MouseButton) -> (b: bool)
        ensures
            b == is_pressed_in(self.buttons(), button_code(btn)),
    {
        let code = btn.code();
        match self.mouse_button_states.get(&code) {
            Some(state) => *state == KeyState::Pressed,
            None => false,
        }
    }

    /// Records the key and button presses and releases that `event` is, then
    /// marks the event not handled, so that the layers still see it; the event
    /// is otherwise left as it was. A key or button event must be one of the
    /// library's own (see [`readable_input`] and [`InputSystem::can_read`]).
    pub fn on_event<E: Event + ?Sized>(&mut self, event: &mut E)
        requires
            readable_input(&*old(event)),
        ensures
            final(self).keys() == key_states_after(old(self).keys(), old(event).any_view()),
            final(self).buttons() == button_states_after(old(self).buttons(), old(event).any_view()),
            !final(event).handled(),
            final(event).kind() == old(event).kind(),
            old(event).same_payload(&*final(event)),
            old(event).any_view() matches EventRef::KeyPressed(e) ==> is_pressed_in(
                final(self).keys(),
                e.spec_key().0,
            ),
            old(event).any_view() matches EventRef::KeyReleased(e) ==> !is_pressed_in(
                final(self).keys(),
                e.spec_key().0,
            ),
            forall|code: u32|
                #![trigger is_pressed_in(final(self).keys(), code)]
                !(old(event).any_view() matches EventRef::KeyPressed(e) && e.spec_key().0 == code)
                    && !(old(event).any_view() matches EventRef::KeyReleased(e) && e.spec_key().0
                    == code) ==> is_pressed_in(final(self).keys(), code) == is_pressed_in(
                    old(self).keys(),
                    code,
                ),
            old(event).any_view() matches EventRef::MouseButtonPressed(e) ==> is_pressed_in(
                final(self).buttons(),
                button_code(e.spec_button()),
            ),
            old(event).any_view() matches EventRef::MouseButtonReleased(e) ==> !is_pressed_in(
                final(self).buttons(),
                button_code(e.spec_button()),
            ),
            forall|code: u32|
                #![trigger is_pressed_in(final(self).buttons(), code)]
                !(old(event).any_view() matches EventRef::MouseButtonPressed(e) && button_code(
                    e.spec_button(),
                ) == code) && !(old(event).any_view() matches EventRef::MouseButtonReleased(e)
                    && button_code(e.spec_button()) == code) ==> is_pressed_in(
                    final(self).buttons(),
                    code,
                ) == is_pressed_in(old(self).buttons(), code),
    {
        proof {
            event.lemma_any_view_kind();
        }
        match event.get_event_type() {
            EventType::KeyPressed => {
                proof {
                    KeyPressed::lemma_cast(event.any_view());
                }
                if let Some(e) = try_cast::<KeyPressed, E>(event) {
                    self.on_key_pressed(e);
                }
            },
            EventType::KeyReleased => {
                proof {
                    KeyReleased::lemma_cast(event.any_view());
                }
                if let Some(e) = try_cast::<KeyReleased, E>(event) {
                    self.on_key_released(e);
                }
            },
            EventType::MouseButtonPressed => {
                proof {
                    MouseButtonPressed::lemma_cast(event.any_view());
                }
                if let Some(e) = try_cast::<MouseButtonPressed, E>(event) {
                    self.on_mouse_pressed(e);
                }
            },
            EventType::MouseButtonReleased => {
                proof {
                    MouseButtonReleased::lemma_cast(event.any_view());
                }
                if let Some(e) = try_cast::<MouseButtonReleased, E>(event) {
                    self.on_mouse_released(e);
                }
            },
            _ => {},
        }
        event.set_handled(false);
    }

    /// Whether [`InputSystem::on_event`] can read `event` (see
    /// [`readable_input`]): a key or button event that is not one of the
    /// library's own cannot be read.
    pub fn can_read<E: Event + ?Sized>(event: &E) -> (b: bool)
        ensures
            b == readable_input(event),
    {
        let kind = event.get_event_type();
        match kind {
            EventType::KeyPressed | EventType::KeyReleased | EventType::MouseButtonPressed
            | EventType::MouseButtonReleased => {
                match event.as_any().kind() {
                    Some(seen) => seen == kind,
                    None => false,
                }
            },
            _ => true,
        }
    }

    fn on_mouse_pressed(&mut self, event: &MouseButtonPressed)
        ensures
            final(self).buttons() == old(self).buttons().insert(
                button_code(event.spec_button()),
                KeyState::Pressed,
            ),
            final(self).keys() == old(self).keys(),
    {
        let code = event.get_key().code();
        self.mouse_button_states.insert(code, KeyState::Pressed);
    }

    fn on_mouse_released(&mut self, event: &MouseButtonReleased)
        ensures
            final(self).buttons() == old(self).buttons().insert(
                button_code(event.spec_button()),
                KeyState::Released,
            ),
            final(self).keys() == old(self).keys(),
    {
        let code = event.get_key().code();
        self.mouse_button_states.insert(code, KeyState::Released);
    }

    fn on_key_pressed(&mut self, event: &KeyPressed)
        ensures
            final(self).keys() == old(self).keys().insert(event.spec_key().0, KeyState::Pressed),
            final(self).buttons() == old(self).buttons(),
    {
        let key = event.get_key();
        self.key_states.insert(key.0, KeyState::Pressed);
    }

    fn on_key_released(&mut self, event: &KeyReleased)
        ensures
            final(self).keys() == old(self).keys().insert(event.spec_key().0, KeyState::Released),
            final(self).buttons() == old(self).buttons(),
    {
        let key = event.get_key();
        self.key_states.insert(key.0, KeyState::Released);
    }
}

} // verus!
