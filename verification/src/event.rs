//! Notifications of changes in the object store.

use crate::text::same_text;
use vstd::prelude::*;

verus! {

/// The name under which the store reports an object created by a PUT.
pub const PUT_EVENT: &'static str = "s3:ObjectCreated:Put";

/// A decoded notification: what happened, and to which object.
#[derive(Clone, Debug, PartialEq, Eq)]
pub struct StorageEvent {
    event_name: String,
    key: String,
}

/// A notification as specifications see it.
pub struct StorageEventView {
    pub event_name: Seq<char>,
    pub key: Seq<char>,
}

impl View for StorageEvent {
    type V = StorageEventView;

    closed spec fn view(&self) -> StorageEventView {
        StorageEventView { event_name: self.event_name@, key: self.key@ }
    }
}

impl StorageEventView {
    /// Whether the notification reports an object created by a PUT.
    pub open spec fn is_put(self) -> bool {
        self.event_name == PUT_EVENT@
    }
}

impl StorageEvent {
    /// A notification with the given event name and object key.
    pub fn new(event_name: String, key: String) -> (r: StorageEvent)
        ensures
            r@ == (StorageEventView { event_name: event_name@, key: key@ }),
    {
        StorageEvent { event_name, key }
    }

    /// The name of the event.
    pub fn event_name(&self) -> (r: &str)
        ensures
            r@ == self@.event_name,
    {
        self.event_name.as_str()
    }

    /// The key of the object, as the notification gives it.
    pub fn key(&self) -> (r: &str)
        ensures
            r@ == self@.key,
    {
        self.key.as_str()
    }

    /// Whether the notification reports an object created by a PUT.
    pub fn is_put(&self) -> (r: bool)
        ensures
            r == self@.is_put(),
    {
        same_text(self.event_name.as_str(), PUT_EVENT)
    }
}

/// What a message of the event bus carried.
#[derive(Clone, Debug, PartialEq, Eq)]
pub enum Notification {
    /// The message had no payload.
    Empty,
    /// The payload could not be decoded as a notification.
    Malformed,
    /// The payload was this notification.
    Event(StorageEvent),
}

/// The contents of a message as specifications see them.
pub enum NotificationView {
    Empty,
    Malformed,
    Event(StorageEventView),
}

impl View for Notification {
    type V = NotificationView;

    open spec fn view(&self) -> NotificationView {
        match self {
            Notification::Empty => NotificationView::Empty,
            Notification::Malformed => NotificationView::Malformed,
            Notification::Event(e) => NotificationView::Event(e@),
        }
    }
}

} // verus!
