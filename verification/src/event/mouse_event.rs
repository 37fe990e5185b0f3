//! Mouse button events.
use vstd::prelude::*;

use crate::event::{Event, EventCast, EventCategory, EventMut, EventRef, EventType, LibraryEvent};

verus! {

/// A button of the mouse.
#[derive(Debug, Clone, Copy, PartialEq, Eq, Hash, Structural)]
pub enum MouseButton {
    Left,
    Right,
    Middle,
    Back,
    Forward,
    Other(u16),
}

/// A number that identifies a button: `0` to `4` for the named buttons in
/// declaration order, `5 + n` for `Other(n)`.
pub open spec fn button_code(button: MouseButton) -> u32 {
    match button {
        MouseButton::Left => 0,
        MouseButton::Right => 1,
        MouseButton::Middle => 2,
        MouseButton::Back => 3,
        MouseButton::Forward => 4,
        MouseButton::Other(n) => (n + 5) as u32,
    }
}

/// Distinct buttons have distinct codes.
pub proof fn lemma_button_code_injective(a: MouseButton, b: MouseButton)
    ensures
        button_code(a) == button_code(b) <==> a == b,
{
}

impl MouseButton {
    /// The number that identifies this button (see [`button_code`]).
    pub fn code(&self) -> (c: u32)
        ensures
            c == button_code(*self),
    {
        match self {
            MouseButton::Left => 0,
            MouseButton::Right => 1,
            MouseButton::Middle => 2,
            MouseButton::Back => 3,
            MouseButton::Forward => 4,
            MouseButton::Other(n) => *n as u32 + 5,
        }
    }
}

/// A mouse button was pressed.
#[derive(Debug)]
pub struct MouseButtonPressed {
    button: MouseButton,
    handled: bool,
}

impl MouseButtonPressed {
    pub closed spec fn spec_button(&self) -> MouseButton {
        self.button
    }

    pub fn new(button: MouseButton) -> (e: Self)
        ensures
            e.spec_button() == button,
            !e.handled(),
    {
        MouseButtonPressed { button, handled: false }
    }

    pub fn get_key(&self) -> (b: MouseButton)
        ensures
            b == self.spec_button(),
    {
        self.button
    }
}

impl Event for MouseButtonPressed {
    open spec fn kind(&self) -> EventType {
        EventType::MouseButtonPressed
    }

    closed spec fn handled(&self) -> bool {
        self.handled
    }

    open spec fn any_view(&self) -> EventRef<'_> {
        EventRef::MouseButtonPressed(self)
    }

    open spec fn same_payload(&self, other: &Self) -> bool {
        self.spec_button() == other.spec_button()
    }

    proof fn lemma_any_view_kind(&self) {
    }

    fn get_event_type(&self) -> (t: EventType) {
        EventType::MouseButtonPressed
    }

    fn get_category_flags(&self) -> (flags: u8) {
        proof {
            assert(16u8 | 8u8 | 2u8 == 26u8) by (bit_vector);
        }
        EventCategory::EventCategoryMouseButton.bits() | EventCategory::EventCategoryMouse.bits()
            | EventCategory::EventCategoryInput.bits()
    }

    fn is_in_category(&self, category: EventCategory) -> (b: bool) {
        self.get_category_flags() & category.bits() != 0
    }

    fn set_handled(&mut self, handled: bool) {
        self.handled = handled;
    }

    fn is_handled(&self) -> (h: &bool) {
        &self.handled
    }

    fn as_any(&self) -> (r: EventRef<'_>) {
        EventRef::MouseButtonPressed(self)
    }

    fn as_any_mut(&mut self) -> (r: EventMut<'_>) {
        EventMut::MouseButtonPressed(self)
    }
}

impl EventCast for MouseButtonPressed {
    open spec fn cast_kind() -> EventType {
        EventType::MouseButtonPressed
    }

    open spec fn cast_spec<'a>(r: EventRef<'a>) -> Option<&'a Self> {
        match r {
            EventRef::MouseButtonPressed(e) => Some(e),
            _ => None,
        }
    }

    proof fn lemma_cast(r: EventRef<'_>) {
    }

    fn from_ref<'a>(r: EventRef<'a>) -> (out: Option<&'a Self>) {
        match r {
            EventRef::MouseButtonPressed(e) => Some(e),
            _ => None,
        }
    }

    fn from_mut<'a>(r: EventMut<'a>) -> (out: Option<&'a mut Self>) {
        match r {
            EventMut::MouseButtonPressed(e) => Some(e),
            _ => None,
        }
    }
}

impl LibraryEvent for MouseButtonPressed {
    proof fn lemma_cast_self(e: &Self) {
    }
}

/// A mouse button was released.
#[derive(Debug)]
pub struct MouseButtonReleased {
    button: MouseButton,
    handled: bool,
}

impl MouseButtonReleased {
    pub closed spec fn spec_button(&self) -> MouseButton {
        self.button
    }

    pub fn new(button: MouseButton) -> (e: Self)
        ensures
            e.spec_button() == button,
            !e.handled(),
    {
        MouseButtonReleased { button, handled: false }
    }

    pub fn get_key(&self) -> (b: MouseButton)
        ensures
            b == self.spec_button(),
    {
        self.button
    }
}

impl Event for MouseButtonReleased {
    open spec fn kind(&self) -> EventType {
        EventType::MouseButtonReleased
    }

    closed spec fn handled(&self) -> bool {
        self.handled
    }

    open spec fn any_view(&self) -> EventRef<'_> {
        EventRef::MouseButtonReleased(self)
    }

    open spec fn same_payload(&self, other: &Self) -> bool {
        self.spec_button() == other.spec_button()
    }

    proof fn lemma_any_view_kind(&self) {
    }

    fn get_event_type(&self) -> (t: EventType) {
        EventType::MouseButtonReleased
    }

    fn get_category_flags(&self) -> (flags: u8) {
        proof {
            assert(16u8 | 8u8 | 2u8 == 26u8) by (bit_vector);
        }
        EventCategory::EventCategoryMouseButton.bits() | EventCategory::EventCategoryMouse.bits()
            | EventCategory::EventCategoryInput.bits()
    }

    fn is_in_category(&self, category: EventCategory) -> (b: bool) {
        self.get_category_flags() & category.bits() != 0
    }

    fn set_handled(&mut self, handled: bool) {
        self.handled = handled;
    }

    fn is_handled(&self) -> (h: &bool) {
        &self.handled
    }

    fn as_any(&self) -> (r: EventRef<'_>) {
        EventRef::MouseButtonReleased(self)
    }

    fn as_any_mut(&mut self) -> (r: EventMut<'_>) {
        EventMut::MouseButtonReleased(self)
    }
}

impl EventCast for MouseButtonReleased {
    open spec fn cast_kind() -> EventType {
        EventType::MouseButtonReleased
    }

    open spec fn cast_spec<'a>(r: EventRef<'a>) -> Option<&'a Self> {
        match r {
            EventRef::MouseButtonReleased(e) => Some(e),
            _ => None,
        }
    }

    proof fn lemma_cast(r: EventRef<'_>) {
    }

    fn from_ref<'a>(r: EventRef<'a>) -> (out: Option<&'a Self>) {
        match r {
            EventRef::MouseButtonReleased(e) => Some(e),
            _ => None,
        }
    }

    fn from_mut<'a>(r: EventMut<'a>) -> (out: Option<&'a mut Self>) {
        match r {
            EventMut::MouseButtonReleased(e) => Some(e),
            _ => None,
        }
    }
}

impl LibraryEvent for MouseButtonReleased {
    proof fn lemma_cast_self(e: &Self) {
    }
}

} // verus!
