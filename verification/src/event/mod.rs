//! Events that the window layer raises and the layers of an application consume.
//!
//! Every event carries its [`EventType`], a set of [`EventCategory`] flags and a
//! `handled` mark. A concrete event can be recovered from any value of a type that
//! implements [`Event`] through [`Event::downcast_ref`] or [`try_cast`].
use vstd::prelude::*;

pub mod key_event;
pub mod mouse_event;
pub mod window_event;

use crate::event::key_event::{KeyPressed, KeyReleased};
use crate::event::mouse_event::{MouseButtonPressed, MouseButtonReleased};
use crate::event::window_event::{
    WindowCloseEvent,
    WindowFocus,
    WindowLostFocus,
    WindowMoved,
    WindowResizeEvent,
};

verus! {

/// The kind of an event.
#[derive(Debug, Clone, Copy, PartialEq, Eq, Structural)]
pub enum EventType {
    WindowClose,
    WindowResize,
    WindowFocus,
    WindowLostFocus,
    WindowMoved,
    AppTick,
    AppUpdate,
    AppRender,
    KeyPressed,
    KeyReleased,
    MouseButtonPressed,
    MouseButtonReleased,
    MouseMoved,
    MouseScrolled,
}

/// The categories an event can belong to; each one is a single bit of the
/// category flags of an event.
#[derive(Debug, Clone, Copy, PartialEq, Eq, Structural)]
pub enum EventCategory {
    EventCategoryApplication,
    EventCategoryInput,
    EventCategoryKeyboard,
    EventCategoryMouse,
    EventCategoryMouseButton,
}

/// The bit that stands for a category.
pub open spec fn category_bit(category: EventCategory) -> u8 {
    match category {
        EventCategory::EventCategoryApplication => 1u8,
        EventCategory::EventCategoryInput => 2u8,
        EventCategory::EventCategoryKeyboard => 4u8,
        EventCategory::EventCategoryMouse => 8u8,
        EventCategory::EventCategoryMouseButton => 16u8,
    }
}

impl EventCategory {
    /// The bit of this category (`1, 2, 4, 8, 16` in declaration order).
    pub fn bits(&self) -> (b: u8)
        ensures
            b == category_bit(*self),
    {
        match self {
            EventCategory::EventCategoryApplication => 1,
            EventCategory::EventCategoryInput => 2,
            EventCategory::EventCategoryKeyboard => 4,
            EventCategory::EventCategoryMouse => 8,
            EventCategory::EventCategoryMouseButton => 16,
        }
    }
}

/// The category flags that an event of the given kind carries.
///
/// Window and key events carry the application flag; mouse button events carry
/// the mouse button, mouse and input flags; mouse motion and scrolling carry the
/// mouse and input flags. The `App*` kinds, which no event of this library
/// carries, are counted as application events.
pub open spec fn category_flags_of(kind: EventType) -> u8 {
    match kind {
        EventType::MouseButtonPressed | EventType::MouseButtonReleased => 26u8,
        EventType::MouseMoved | EventType::MouseScrolled => 10u8,
        _ => 1u8,
    }
}

/// Whether an event of the given kind belongs to a category, stated without bits.
pub open spec fn kind_in_category(kind: EventType, category: EventCategory) -> bool {
    match kind {
        EventType::MouseButtonPressed | EventType::MouseButtonReleased => match category {
            EventCategory::EventCategoryMouseButton => true,
            EventCategory::EventCategoryMouse => true,
            EventCategory::EventCategoryInput => true,
            _ => false,
        },
        EventType::MouseMoved | EventType::MouseScrolled => match category {
            EventCategory::EventCategoryMouse => true,
            EventCategory::EventCategoryInput => true,
            _ => false,
        },
        _ => category == EventCategory::EventCategoryApplication,
    }
}

/// An event belongs to a category exactly when the category's bit is set in its
/// flags, and the flags say what [`kind_in_category`] says.
pub proof fn lemma_category_flags_agree(kind: EventType, category: EventCategory)
    ensures
        (category_flags_of(kind) & category_bit(category) != 0) == kind_in_category(kind, category),
{
    assert(26u8 & 1u8 == 0 && 26u8 & 2u8 != 0 && 26u8 & 4u8 == 0 && 26u8 & 8u8 != 0 && 26u8
        & 16u8 != 0 && 10u8 & 1u8 == 0 && 10u8 & 2u8 != 0 && 10u8 & 4u8 == 0 && 10u8 & 8u8 != 0
        && 10u8 & 16u8 == 0 && 1u8 & 1u8 != 0 && 1u8 & 2u8 == 0 && 1u8 & 4u8 == 0 && 1u8 & 8u8
        == 0 && 1u8 & 16u8 == 0) by (bit_vector);
}

/// The flags of an event of the given kind (see [`category_flags_of`]).
pub fn category_flags(kind: EventType) -> (flags: u8)
    ensures
        flags == category_flags_of(kind),
{
    match kind {
        EventType::MouseButtonPressed | EventType::MouseButtonReleased => 26,
        EventType::MouseMoved | EventType::MouseScrolled => 10,
        _ => 1,
    }
}

/// Whether the flags of an event of the given kind hold the category's bit.
pub fn kind_is_in_category(kind: EventType, category: EventCategory) -> (b: bool)
    ensures
        b == (category_flags_of(kind) & category_bit(category) != 0),
        b == kind_in_category(kind, category),
{
    proof {
        lemma_category_flags_agree(kind, category);
    }
    category_flags(kind) & category.bits() != 0
}

/// A view of an event as one of the concrete events of this library.
///
/// Events that this library does not define (those of the application) are
/// seen as `Other`.
pub enum EventRef<'a> {
    WindowClose(&'a WindowCloseEvent),
    WindowResize(&'a WindowResizeEvent),
    WindowFocus(&'a WindowFocus),
    WindowLostFocus(&'a WindowLostFocus),
    WindowMoved(&'a WindowMoved),
    KeyPressed(&'a KeyPressed),
    KeyReleased(&'a KeyReleased),
    MouseButtonPressed(&'a MouseButtonPressed),
    MouseButtonReleased(&'a MouseButtonReleased),
    Other,
}

impl<'a> EventRef<'a> {
    /// The kind of the concrete event that is seen, if any.
    pub fn kind(&self) -> (k: Option<EventType>)
        ensures
            k == self.kind_of(),
    {
        match self {
            EventRef::WindowClose(_) => Some(EventType::WindowClose),
            EventRef::WindowResize(_) => Some(EventType::WindowResize),
            EventRef::WindowFocus(_) => Some(EventType::WindowFocus),
            EventRef::WindowLostFocus(_) => Some(EventType::WindowLostFocus),
            EventRef::WindowMoved(_) => Some(EventType::WindowMoved),
            EventRef::KeyPressed(_) => Some(EventType::KeyPressed),
            EventRef::KeyReleased(_) => Some(EventType::KeyReleased),
            EventRef::MouseButtonPressed(_) => Some(EventType::MouseButtonPressed),
            EventRef::MouseButtonReleased(_) => Some(EventType::MouseButtonReleased),
            EventRef::Other => None,
        }
    }

    /// The kind of the concrete event that is seen, if any.
    pub open spec fn kind_of(self) -> Option<EventType> {
        match self {
            EventRef::WindowClose(_) => Some(EventType::WindowClose),
            EventRef::WindowResize(_) => Some(EventType::WindowResize),
            EventRef::WindowFocus(_) => Some(EventType::WindowFocus),
            EventRef::WindowLostFocus(_) => Some(EventType::WindowLostFocus),
            EventRef::WindowMoved(_) => Some(EventType::WindowMoved),
            EventRef::KeyPressed(_) => Some(EventType::KeyPressed),
            EventRef::KeyReleased(_) => Some(EventType::KeyReleased),
            EventRef::MouseButtonPressed(_) => Some(EventType::MouseButtonPressed),
            EventRef::MouseButtonReleased(_) => Some(EventType::MouseButtonReleased),
            EventRef::Other => None,
        }
    }
}

/// A mutable view of an event as one of the concrete events of this library.
pub enum EventMut<'a> {
    WindowClose(&'a mut WindowCloseEvent),
    WindowResize(&'a mut WindowResizeEvent),
    WindowFocus(&'a mut WindowFocus),
    WindowLostFocus(&'a mut WindowLostFocus),
    WindowMoved(&'a mut WindowMoved),
    KeyPressed(&'a mut KeyPressed),
    KeyReleased(&'a mut KeyReleased),
    MouseButtonPressed(&'a mut MouseButtonPressed),
    MouseButtonReleased(&'a mut MouseButtonReleased),
    Other,
}

impl<'a> EventMut<'a> {
    /// The kind of the concrete event that is seen, if any.
    pub open spec fn kind_of(&self) -> Option<EventType> {
        match self {
            EventMut::WindowClose(_) => Some(EventType::WindowClose),
            EventMut::WindowResize(_) => Some(EventType::WindowResize),
            EventMut::WindowFocus(_) => Some(EventType::WindowFocus),
            EventMut::WindowLostFocus(_) => Some(EventType::WindowLostFocus),
            EventMut::WindowMoved(_) => Some(EventType::WindowMoved),
            EventMut::KeyPressed(_) => Some(EventType::KeyPressed),
            EventMut::KeyReleased(_) => Some(EventType::KeyReleased),
            EventMut::MouseButtonPressed(_) => Some(EventType::MouseButtonPressed),
            EventMut::MouseButtonReleased(_) => Some(EventType::MouseButtonReleased),
            EventMut::Other => None,
        }
    }

    /// The event that is seen, as it is now.
    pub open spec fn current(&self) -> EventRef<'_> {
        match self {
            EventMut::WindowClose(e) => EventRef::WindowClose(&**e),
            EventMut::WindowResize(e) => EventRef::WindowResize(&**e),
            EventMut::WindowFocus(e) => EventRef::WindowFocus(&**e),
            EventMut::WindowLostFocus(e) => EventRef::WindowLostFocus(&**e),
            EventMut::WindowMoved(e) => EventRef::WindowMoved(&**e),
            EventMut::KeyPressed(e) => EventRef::KeyPressed(&**e),
            EventMut::KeyReleased(e) => EventRef::KeyReleased(&**e),
            EventMut::MouseButtonPressed(e) => EventRef::MouseButtonPressed(&**e),
            EventMut::MouseButtonReleased(e) => EventRef::MouseButtonReleased(&**e),
            EventMut::Other => EventRef::Other,
        }
    }
}

/// The kinds for which this library defines an event type.
pub open spec fn has_library_type(kind: EventType) -> bool {
    match kind {
        EventType::AppTick | EventType::AppUpdate | EventType::AppRender | EventType::MouseMoved
        | EventType::MouseScrolled => false,
        _ => true,
    }
}

/// An event: it has a kind, category flags and a `handled` mark.
pub trait Event {
    /// The kind of this event.
    spec fn kind(&self) -> EventType;

    /// Whether this event has been marked as handled.
    spec fn handled(&self) -> bool;

    /// This event seen as one of the concrete events of this library.
    spec fn any_view(&self) -> EventRef<'_>;

    /// `other` carries the same data as this event, its `handled` mark aside.
    spec fn same_payload(&self, other: &Self) -> bool;

    /// The view never contradicts the kind: an event is either seen as `Other`
    /// or seen as a library event of its own kind. (The events of this library
    /// are seen as themselves; any other event type is meant to be seen as
    /// `Other`, so that no cast to a library type succeeds on it.)
    proof fn lemma_any_view_kind(&self)
        ensures
            self.any_view() is Other || self.any_view().kind_of() == Some(self.kind()),
    ;

    fn get_event_type(&self) -> (t: EventType)
        ensures
            t == self.kind(),
    ;

    fn get_category_flags(&self) -> (flags: u8)
        ensures
            flags == category_flags_of(self.kind()),
    ;

    fn is_in_category(&self, category: EventCategory) -> (b: bool)
        ensures
            b == (category_flags_of(self.kind()) & category_bit(category) != 0),
    ;

    fn set_handled(&mut self, handled: bool)
        ensures
            final(self).handled() == handled,
            final(self).kind() == old(self).kind(),
            old(self).same_payload(&*final(self)),
    ;

    fn is_handled(&self) -> (h: &bool)
        ensures
            *h == self.handled(),
    ;

    fn as_any(&self) -> (r: EventRef<'_>)
        ensures
            r == self.any_view(),
    ;

    fn as_any_mut(&mut self) -> (r: EventMut<'_>)
        ensures
            r.current() == old(self).any_view(),
            r matches EventMut::WindowClose(e) ==>
                final(self).any_view() == EventRef::WindowClose(&*final(e)),
            r matches EventMut::WindowResize(e) ==>
                final(self).any_view() == EventRef::WindowResize(&*final(e)),
            r matches EventMut::WindowFocus(e) ==>
                final(self).any_view() == EventRef::WindowFocus(&*final(e)),
            r matches EventMut::WindowLostFocus(e) ==>
                final(self).any_view() == EventRef::WindowLostFocus(&*final(e)),
            r matches EventMut::WindowMoved(e) ==>
                final(self).any_view() == EventRef::WindowMoved(&*final(e)),
            r matches EventMut::KeyPressed(e) ==>
                final(self).any_view() == EventRef::KeyPressed(&*final(e)),
            r matches EventMut::KeyReleased(e) ==>
                final(self).any_view() == EventRef::KeyReleased(&*final(e)),
            r matches EventMut::MouseButtonPressed(e) ==>
                final(self).any_view() == EventRef::MouseButtonPressed(&*final(e)),
            r matches EventMut::MouseButtonReleased(e) ==>
                final(self).any_view() == EventRef::MouseButtonReleased(&*final(e)),
            r is Other ==> final(self).any_view() == old(self).any_view(),
    ;

    /// This event as the concrete event `T`, mutably, when it is one.
    fn downcast_mut<T: EventCast>(&mut self) -> (r: Option<&mut T>)
        ensures
            r is Some <==> T::cast_spec(old(self).any_view()) is Some,
            r matches Some(t) ==> T::cast_spec(old(self).any_view()) == Some(&*t),
            r matches Some(t) ==> T::cast_spec(final(self).any_view()) == Some(&*final(t)),
            r is None ==> final(self).any_view() == old(self).any_view(),
    {
        proof {
            T::lemma_cast(old(self).any_view());
        }
        T::from_mut(self.as_any_mut())
    }

    /// This event as the concrete event `T`, when it is one.
    fn downcast_ref<T: EventCast>(&self) -> (r: Option<&T>)
        ensures
            r == T::cast_spec(self.any_view()),
    {
        T::from_ref(self.as_any())
    }
}

/// A concrete event of this library, which can be recovered from an [`EventRef`].
pub trait EventCast: Sized {
    /// The kind of every event of this type.
    spec fn cast_kind() -> EventType;

    /// The event of this type that `r` sees, if it sees one.
    spec fn cast_spec<'a>(r: EventRef<'a>) -> Option<&'a Self>;

    /// A cast succeeds exactly on a view of this type.
    proof fn lemma_cast(r: EventRef<'_>)
        ensures
            has_library_type(Self::cast_kind()),
            Self::cast_spec(r) is Some <==> r.kind_of() == Some(Self::cast_kind()),
    ;

    fn from_ref<'a>(r: EventRef<'a>) -> (out: Option<&'a Self>)
        ensures
            out == Self::cast_spec(r),
    ;

    fn from_mut<'a>(r: EventMut<'a>) -> (out: Option<&'a mut Self>)
        ensures
            out is Some <==> r.kind_of() == Some(Self::cast_kind()),
            out matches Some(t) ==> Self::cast_spec(r.current()) == Some(&*t),
            r matches EventMut::WindowClose(e) ==>
                (out matches Some(t) ==> Self::cast_spec(EventRef::WindowClose(&*final(e))) == Some(&*final(t))),
            r matches EventMut::WindowResize(e) ==>
                (out matches Some(t) ==> Self::cast_spec(EventRef::WindowResize(&*final(e))) == Some(&*final(t))),
            r matches EventMut::WindowFocus(e) ==>
                (out matches Some(t) ==> Self::cast_spec(EventRef::WindowFocus(&*final(e))) == Some(&*final(t))),
            r matches EventMut::WindowLostFocus(e) ==>
                (out matches Some(t) ==> Self::cast_spec(EventRef::WindowLostFocus(&*final(e))) == Some(&*final(t))),
            r matches EventMut::WindowMoved(e) ==>
                (out matches Some(t) ==> Self::cast_spec(EventRef::WindowMoved(&*final(e))) == Some(&*final(t))),
            r matches EventMut::KeyPressed(e) ==>
                (out matches Some(t) ==> Self::cast_spec(EventRef::KeyPressed(&*final(e))) == Some(&*final(t))),
            r matches EventMut::KeyReleased(e) ==>
                (out matches Some(t) ==> Self::cast_spec(EventRef::KeyReleased(&*final(e))) == Some(&*final(t))),
            r matches EventMut::MouseButtonPressed(e) ==>
                (out matches Some(t) ==> Self::cast_spec(EventRef::MouseButtonPressed(&*final(e))) == Some(&*final(t))),
            r matches EventMut::MouseButtonReleased(e) ==>
                (out matches Some(t) ==> Self::cast_spec(EventRef::MouseButtonReleased(&*final(e))) == Some(&*final(t))),
            r matches EventMut::WindowClose(e) ==> (out is None ==> *final(e) == *e),
            r matches EventMut::WindowResize(e) ==> (out is None ==> *final(e) == *e),
            r matches EventMut::WindowFocus(e) ==> (out is None ==> *final(e) == *e),
            r matches EventMut::WindowLostFocus(e) ==> (out is None ==> *final(e) == *e),
            r matches EventMut::WindowMoved(e) ==> (out is None ==> *final(e) == *e),
            r matches EventMut::KeyPressed(e) ==> (out is None ==> *final(e) == *e),
            r matches EventMut::KeyReleased(e) ==> (out is None ==> *final(e) == *e),
            r matches EventMut::MouseButtonPressed(e) ==> (out is None ==> *final(e) == *e),
            r matches EventMut::MouseButtonReleased(e) ==> (out is None ==> *final(e) == *e),
    ;
}

/// `event` as the concrete event `E`, when it is one.
pub fn try_cast<E: EventCast, T: Event + ?Sized>(event: &T) -> (r: Option<&E>)
    ensures
        r == E::cast_spec(event.any_view()),
{
    event.downcast_ref::<E>()
}

/// A cast of an event succeeds only when the event's kind is the kind of the
/// target type, and then exactly when the event is seen as a library event.
pub proof fn lemma_downcast_needs_kind<E: EventCast, T: Event + ?Sized>(event: &T)
    ensures
        E::cast_spec(event.any_view()) is Some ==> event.kind() == E::cast_kind(),
        event.any_view().kind_of() == Some(event.kind()) ==> (E::cast_spec(event.any_view()) is Some
            <==> event.kind() == E::cast_kind()),
{
    event.lemma_any_view_kind();
    E::lemma_cast(event.any_view());
}

/// An event type of this library: its events cast to it.
pub trait LibraryEvent: Event + EventCast {
    /// Casting an event of this type to this type gives the event itself.
    proof fn lemma_cast_self(e: &Self)
        ensures
            Self::cast_spec(e.any_view()) == Some(e),
    ;
}

/// Casting a library event to its own type gives back that very event, and
/// casting leaves the event as it is.
pub proof fn lemma_cast_gives_itself<E: LibraryEvent>(event: &E)
    ensures
        E::cast_spec(event.any_view()) == Some(event),
{
    E::lemma_cast_self(event);
}

} // verus!
