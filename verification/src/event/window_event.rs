//! Events about the window: closing, resizing, focus and moving.
use vstd::prelude::*;

use crate::event::{Event, EventCast, EventCategory, EventMut, EventRef, EventType, LibraryEvent};

verus! {

/// The window was resized to `width` x `height`.
#[derive(Debug)]
pub struct WindowResizeEvent {
    width: u32,
    height: u32,
    handled: bool,
}

impl WindowResizeEvent {
    pub closed spec fn spec_width(&self) -> u32 {
        self.width
    }

    pub closed spec fn spec_height(&self) -> u32 {
        self.height
    }

    pub fn new(width: u32, height: u32) -> (e: Self)
        ensures
            e.spec_width() == width,
            e.spec_height() == height,
            !e.handled(),
    {
        WindowResizeEvent { width, height, handled: false }
    }

    pub fn get_width(&self) -> (w: u32)
        ensures
            w == self.spec_width(),
    {
        self.width
    }

    pub fn get_height(&self) -> (h: u32)
        ensures
            h == self.spec_height(),
    {
        self.height
    }
}

impl Event for WindowResizeEvent {
    open spec fn kind(&self) -> EventType {
        EventType::WindowResize
    }

    closed spec fn handled(&self) -> bool {
        self.handled
    }

    open spec fn any_view(&self) -> EventRef<'_> {
        EventRef::WindowResize(self)
    }

    open spec fn same_payload(&self, other: &Self) -> bool {
        self.spec_width() == other.spec_width() && self.spec_height() == other.spec_height()
    }

    proof fn lemma_any_view_kind(&self) {
    }

    fn get_event_type(&self) -> (t: EventType) {
        EventType::WindowResize
    }

    fn get_category_flags(&self) -> (flags: u8) {
        EventCategory::EventCategoryApplication.bits()
    }

    fn is_in_category(&self, category: EventCategory) -> (b: bool) {
        self.get_category_flags() & category.bits() != 0
    }

    fn set_handled(&mut self, handled: bool) {
        self.handled = handled;
    }

    fn is_handled(&self) -> (h: &bool) {
        &self.handled
    }

    fn as_any(&self) -> (r: EventRef<'_>) {
        EventRef::WindowResize(self)
    }

    fn as_any_mut(&mut self) -> (r: EventMut<'_>) {
        EventMut::WindowResize(self)
    }
}

impl EventCast for WindowResizeEvent {
    open spec fn cast_kind() -> EventType {
        EventType::WindowResize
    }

    open spec fn cast_spec<'a>(r: EventRef<'a>) -> Option<&'a Self> {
        match r {
            EventRef::WindowResize(e) => Some(e),
            _ => None,
        }
    }

    proof fn lemma_cast(r: EventRef<'_>) {
    }

    fn from_ref<'a>(r: EventRef<'a>) -> (out: Option<&'a Self>) {
        match r {
            EventRef::WindowResize(e) => Some(e),
            _ => None,
        }
    }

    fn from_mut<'a>(r: EventMut<'a>) -> (out: Option<&'a mut Self>) {
        match r {
            EventMut::WindowResize(e) => Some(e),
            _ => None,
        }
    }
}

impl LibraryEvent for WindowResizeEvent {
    proof fn lemma_cast_self(e: &Self) {
    }
}

/// The window was asked to close.
#[derive(Debug)]
pub struct WindowCloseEvent {
    handled: bool,
}

impl WindowCloseEvent {
    pub fn new() -> (e: Self)
        ensures
            !e.handled(),
    {
        WindowCloseEvent { handled: false }
    }
}

impl Event for WindowCloseEvent {
    open spec fn kind(&self) -> EventType {
        EventType::WindowClose
    }

    closed spec fn handled(&self) -> bool {
        self.handled
    }

    open spec fn any_view(&self) -> EventRef<'_> {
        EventRef::WindowClose(self)
    }

    open spec fn same_payload(&self, other: &Self) -> bool {
        true
    }

    proof fn lemma_any_view_kind(&self) {
    }

    fn get_event_type(&self) -> (t: EventType) {
        EventType::WindowClose
    }

    fn get_category_flags(&self) -> (flags: u8) {
        EventCategory::EventCategoryApplication.bits()
    }

    fn is_in_category(&self, category: EventCategory) -> (b: bool) {
        self.get_category_flags() & category.bits() != 0
    }

    fn set_handled(&mut self, handled: bool) {
        self.handled = handled;
    }

    fn is_handled(&self) -> (h: &bool) {
        &self.handled
    }

    fn as_any(&self) -> (r: EventRef<'_>) {
        EventRef::WindowClose(self)
    }

    fn as_any_mut(&mut self) -> (r: EventMut<'_>) {
        EventMut::WindowClose(self)
    }
}

impl EventCast for WindowCloseEvent {
    open spec fn cast_kind() -> EventType {
        EventType::WindowClose
    }

    open spec fn cast_spec<'a>(r: EventRef<'a>) -> Option<&'a Self> {
        match r {
            EventRef::WindowClose(e) => Some(e),
            _ => None,
        }
    }

    proof fn lemma_cast(r: EventRef<'_>) {
    }

    fn from_ref<'a>(r: EventRef<'a>) -> (out: Option<&'a Self>) {
        match r {
            EventRef::WindowClose(e) => Some(e),
            _ => None,
        }
    }

    fn from_mut<'a>(r: EventMut<'a>) -> (out: Option<&'a mut Self>) {
        match r {
            EventMut::WindowClose(e) => Some(e),
            _ => None,
        }
    }
}

impl LibraryEvent for WindowCloseEvent {
    proof fn lemma_cast_self(e: &Self) {
    }
}

/// The window gained the focus.
#[derive(Debug)]
pub struct WindowFocus {
    handled: bool,
}

impl WindowFocus {
    pub fn new() -> (e: Self)
        ensures
            !e.handled(),
    {
        WindowFocus { handled: false }
    }
}

impl Event for WindowFocus {
    open spec fn kind(&self) -> EventType {
        EventType::WindowFocus
    }

    closed spec fn handled(&self) -> bool {
        self.handled
    }

    open spec fn any_view(&self) -> EventRef<'_> {
        EventRef::WindowFocus(self)
    }

    open spec fn same_payload(&self, other: &Self) -> bool {
        true
    }

    proof fn lemma_any_view_kind(&self) {
    }

    fn get_event_type(&self) -> (t: EventType) {
        EventType::WindowFocus
    }

    fn get_category_flags(&self) -> (flags: u8) {
        EventCategory::EventCategoryApplication.bits()
    }

    fn is_in_category(&self, category: EventCategory) -> (b: bool) {
        self.get_category_flags() & category.bits() != 0
    }

    fn set_handled(&mut self, handled: bool) {
        self.handled = handled;
    }

    fn is_handled(&self) -> (h: &bool) {
        &self.handled
    }

    fn as_any(&self) -> (r: EventRef<'_>) {
        EventRef::WindowFocus(self)
    }

    fn as_any_mut(&mut self) -> (r: EventMut<'_>) {
        EventMut::WindowFocus(self)
    }
}

impl EventCast for WindowFocus {
    open spec fn cast_kind() -> EventType {
        EventType::WindowFocus
    }

    open spec fn cast_spec<'a>(r: EventRef<'a>) -> Option<&'a Self> {
        match r {
            EventRef::WindowFocus(e) => Some(e),
            _ => None,
        }
    }

    proof fn lemma_cast(r: EventRef<'_>) {
    }

    fn from_ref<'a>(r: EventRef<'a>) -> (out: Option<&'a Self>) {
        match r {
            EventRef::WindowFocus(e) => Some(e),
            _ => None,
        }
    }

    fn from_mut<'a>(r: EventMut<'a>) -> (out: Option<&'a mut Self>) {
        match r {
            EventMut::WindowFocus(e) => Some(e),
            _ => None,
        }
    }
}

impl LibraryEvent for WindowFocus {
    proof fn lemma_cast_self(e: &Self) {
    }
}

/// The window lost the focus.
#[derive(Debug)]
pub struct WindowLostFocus {
    handled: bool,
}

impl WindowLostFocus {
    pub fn new() -> (e: Self)
        ensures
            !e.handled(),
    {
        WindowLostFocus { handled: false }
    }
}

impl Event for WindowLostFocus {
    open spec fn kind(&self) -> EventType {
        EventType::WindowLostFocus
    }

    closed spec fn handled(&self) -> bool {
        self.handled
    }

    open spec fn any_view(&self) -> EventRef<'_> {
        EventRef::WindowLostFocus(self)
    }

    open spec fn same_payload(&self, other: &Self) -> bool {
        true
    }

    proof fn lemma_any_view_kind(&self) {
    }

    fn get_event_type(&self) -> (t: EventType) {
        EventType::WindowLostFocus
    }

    fn get_category_flags(&self) -> (flags: u8) {
        EventCategory::EventCategoryApplication.bits()
    }

    fn is_in_category(&self, category: EventCategory) -> (b: bool) {
        self.get_category_flags() & category.bits() != 0
    }

    fn set_handled(&mut self, handled: bool) {
        self.handled = handled;
    }

    fn is_handled(&self) -> (h: &bool) {
        &self.handled
    }

    fn as_any(&self) -> (r: EventRef<'_>) {
        EventRef::WindowLostFocus(self)
    }

    fn as_any_mut(&mut self) -> (r: EventMut<'_>) {
        EventMut::WindowLostFocus(self)
    }
}

impl EventCast for WindowLostFocus {
    open spec fn cast_kind() -> EventType {
        EventType::WindowLostFocus
    }

    open spec fn cast_spec<'a>(r: EventRef<'a>) -> Option<&'a Self> {
        match r {
            EventRef::WindowLostFocus(e) => Some(e),
            _ => None,
        }
    }

    proof fn lemma_cast(r: EventRef<'_>) {
    }

    fn from_ref<'a>(r: EventRef<'a>) -> (out: Option<&'a Self>) {
        match r {
            EventRef::WindowLostFocus(e) => Some(e),
            _ => None,
        }
    }

    fn from_mut<'a>(r: EventMut<'a>) -> (out: Option<&'a mut Self>) {
        match r {
            EventMut::WindowLostFocus(e) => Some(e),
            _ => None,
        }
    }
}

impl LibraryEvent for WindowLostFocus {
    proof fn lemma_cast_self(e: &Self) {
    }
}

/// The window was moved to the position (`x`, `y`).
#[derive(Debug)]
pub struct WindowMoved {
    x: i32,
    y: i32,
    handled: bool,
}

impl WindowMoved {
    pub closed spec fn spec_x(&self) -> i32 {
        self.x
    }

    pub closed spec fn spec_y(&self) -> i32 {
        self.y
    }

    pub fn new(x: i32, y: i32) -> (e: Self)
        ensures
            e.spec_x() == x,
            e.spec_y() == y,
            !e.handled(),
    {
        WindowMoved { x, y, handled: false }
    }

    pub fn get_x(&self) -> (x: i32)
        ensures
            x == self.spec_x(),
    {
        self.x
    }

    pub fn get_y(&self) -> (y: i32)
        ensures
            y == self.spec_y(),
    {
        self.y
    }
}

impl Event for WindowMoved {
    open spec fn kind(&self) -> EventType {
        EventType::WindowMoved
    }

    closed spec fn handled(&self) -> bool {
        self.handled
    }

    open spec fn any_view(&self) -> EventRef<'_> {
        EventRef::WindowMoved(self)
    }

    open spec fn same_payload(&self, other: &Self) -> bool {
        self.spec_x() == other.spec_x() && self.spec_y() == other.spec_y()
    }

    proof fn lemma_any_view_kind(&self) {
    }

    fn get_event_type(&self) -> (t: EventType) {
        EventType::WindowMoved
    }

    fn get_category_flags(&self) -> (flags: u8) {
        EventCategory::EventCategoryApplication.bits()
    }

    fn is_in_category(&self, category: EventCategory) -> (b: bool) {
        self.get_category_flags() & category.bits() != 0
    }

    fn set_handled(&mut self, handled: bool) {
        self.handled = handled;
    }

    fn is_handled(&self) -> (h: &bool) {
        &self.handled
    }

    fn as_any(&self) -> (r: EventRef<'_>) {
        EventRef::WindowMoved(self)
    }

    fn as_any_mut(&mut self) -> (r: EventMut<'_>) {
        EventMut::WindowMoved(self)
    }
}

impl EventCast for WindowMoved {
    open spec fn cast_kind() -> EventType {
        EventType::WindowMoved
    }

    open spec fn cast_spec<'a>(r: EventRef<'a>) -> Option<&'a Self> {
        match r {
            EventRef::WindowMoved(e) => Some(e),
            _ => None,
        }
    }

    proof fn lemma_cast(r: EventRef<'_>) {
    }

    fn from_ref<'a>(r: EventRef<'a>) -> (out: Option<&'a Self>) {
        match r {
            EventRef::WindowMoved(e) => Some(e),
            _ => None,
        }
    }

    fn from_mut<'a>(r: EventMut<'a>) -> (out: Option<&'a mut Self>) {
        match r {
            EventMut::WindowMoved(e) => Some(e),
            _ => None,
        }
    }
}

impl LibraryEvent for WindowMoved {
    proof fn lemma_cast_self(e: &Self) {
    }
}

} // verus!
