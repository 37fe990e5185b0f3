//! Keyboard events.
use vstd::prelude::*;

use crate::event::{Event, EventCast, EventCategory, EventMut, EventRef, EventType, LibraryEvent};

verus! {

/// A key of the keyboard, identified by its physical position.
///
/// The code is the one that the windowing layer gives the key; two events are
/// about the same key exactly when their codes are equal.
#[derive(Debug, Clone, Copy, PartialEq, Eq, Hash, Structural)]
pub struct PhysicalKey(pub u32);

/// A key was pressed; `repeat_count` is `1` for a repeat of a held key, else `0`.
#[derive(Debug)]
pub struct KeyPressed {
    key: PhysicalKey,
    text: Option<String>,
    repeat_count: i32,
    handled: bool,
}

impl KeyPressed {
    pub closed spec fn spec_key(&self) -> PhysicalKey {
        self.key
    }

    pub closed spec fn spec_text(&self) -> Option<String> {
        self.text
    }

    pub closed spec fn spec_repeat_count(&self) -> i32 {
        self.repeat_count
    }

    pub fn new(key: PhysicalKey, text: Option<String>, repeat_count: i32) -> (e: Self)
        ensures
            e.spec_key() == key,
            e.spec_text() == text,
            e.spec_repeat_count() == repeat_count,
            !e.handled(),
    {
        KeyPressed { key, text, repeat_count, handled: false }
    }

    pub fn get_key(&self) -> (k: PhysicalKey)
        ensures
            k == self.spec_key(),
    {
        self.key
    }
}

impl Event for KeyPressed {
    open spec fn kind(&self) -> EventType {
        EventType::KeyPressed
    }

    closed spec fn handled(&self) -> bool {
        self.handled
    }

    open spec fn any_view(&self) -> EventRef<'_> {
        EventRef::KeyPressed(self)
    }

    open spec fn same_payload(&self, other: &Self) -> bool {
        self.spec_key() == other.spec_key() && self.spec_text() == other.spec_text()
            && self.spec_repeat_count() == other.spec_repeat_count()
    }

    proof fn lemma_any_view_kind(&self) {
    }

    fn get_event_type(&self) -> (t: EventType) {
        EventType::KeyPressed
    }

    fn get_category_flags(&self) -> (flags: u8) {
        EventCategory::EventCategoryApplication.bits()
    }

    fn is_in_category(&self, category: EventCategory) -> (b: bool) {
        self.get_category_flags() & category.bits() != 0
    }

    fn set_handled(&mut self, handled: bool) {
        self.handled = handled;
    }

    fn is_handled(&self) -> (h: &bool) {
        &self.handled
    }

    fn as_any(&self) -> (r: EventRef<'_>) {
        EventRef::KeyPressed(self)
    }

    fn as_any_mut(&mut self) -> (r: EventMut<'_>) {
        EventMut::KeyPressed(self)
    }
}

impl EventCast for KeyPressed {
    open spec fn cast_kind() -> EventType {
        EventType::KeyPressed
    }

    open spec fn cast_spec<'a>(r: EventRef<'a>) -> Option<&'a Self> {
        match r {
            EventRef::KeyPressed(e) => Some(e),
            _ => None,
        }
    }

    proof fn lemma_cast(r: EventRef<'_>) {
    }

    fn from_ref<'a>(r: EventRef<'a>) -> (out: Option<&'a Self>) {
        match r {
            EventRef::KeyPressed(e) => Some(e),
            _ => None,
        }
    }

    fn from_mut<'a>(r: EventMut<'a>) -> (out: Option<&'a mut Self>) {
        match r {
            EventMut::KeyPressed(e) => Some(e),
            _ => None,
        }
    }
}

impl LibraryEvent for KeyPressed {
    proof fn lemma_cast_self(e: &Self) {
    }
}

/// A key was released.
#[derive(Debug)]
pub struct KeyReleased {
    key: PhysicalKey,
    text: Option<String>,
    handled: bool,
}

impl KeyReleased {
    pub closed spec fn spec_key(&self) -> PhysicalKey {
        self.key
    }

    pub closed spec fn spec_text(&self) -> Option<String> {
        self.text
    }

    pub fn new(key: PhysicalKey, text: Option<String>) -> (e: Self)
        ensures
            e.spec_key() == key,
            e.spec_text() == text,
            !e.handled(),
    {
        KeyReleased { key, text, handled: false }
    }

    pub fn get_key(&self) -> (k: PhysicalKey)
        ensures
            k == self.spec_key(),
    {
        self.key
    }
}

impl Event for KeyReleased {
    open spec fn kind(&self) -> EventType {
        EventType::KeyReleased
    }

    closed spec fn handled(&self) -> bool {
        self.handled
    }

    open spec fn any_view(&self) -> EventRef<'_> {
        EventRef::KeyReleased(self)
    }

    open spec fn same_payload(&self, other: &Self) -> bool {
        self.spec_key() == other.spec_key() && self.spec_text() == other.spec_text()
    }

    proof fn lemma_any_view_kind(&self) {
    }

    fn get_event_type(&self) -> (t: EventType) {
        EventType::KeyReleased
    }

    fn get_category_flags(&self) -> (flags: u8) {
        EventCategory::EventCategoryApplication.bits()
    }

    fn is_in_category(&self, category: EventCategory) -> (b: bool) {
        self.get_category_flags() & category.bits() != 0
    }

    fn set_handled(&mut self, handled: bool) {
        self.handled = handled;
    }

    fn is_handled(&self) -> (h: &bool) {
        &self.handled
    }

    fn as_any(&self) -> (r: EventRef<'_>) {
        EventRef::KeyReleased(self)
    }

    fn as_any_mut(&mut self) -> (r: EventMut<'_>) {
        EventMut::KeyReleased(self)
    }
}

impl EventCast for KeyReleased {
    open spec fn cast_kind() -> EventType {
        EventType::KeyReleased
    }

    open spec fn cast_spec<'a>(r: EventRef<'a>) -> Option<&'a Self> {
        match r {
            EventRef::KeyReleased(e) => Some(e),
            _ => None,
        }
    }

    proof fn lemma_cast(r: EventRef<'_>) {
    }

    fn from_ref<'a>(r: EventRef<'a>) -> (out: Option<&'a Self>) {
        match r {
            EventRef::KeyReleased(e) => Some(e),
            _ => None,
        }
    }

    fn from_mut<'a>(r: EventMut<'a>) -> (out: Option<&'a mut Self>) {
        match r {
            EventMut::KeyReleased(e) => Some(e),
            _ => None,
        }
    }
}

impl LibraryEvent for KeyReleased {
    proof fn lemma_cast_self(e: &Self) {
    }
}

} // verus!
