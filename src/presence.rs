//! Events within the *m.presence* namespace.
use vstd::prelude::*;

use crate::event::Event;

verus! {

/// Informs the client of a user's presence state change.
#[derive(Debug, PartialEq, Eq)]
pub struct Presence<'a> {
    /// The event's content.
    pub content: PresenceContent<'a>,
    /// The unique identifier for the event.
    pub event_id: &'a str,
}

impl<'a> Event<PresenceContent<'a>> for Presence<'a> {
    open spec fn spec_content(&self) -> PresenceContent<'a> {
        self.content
    }

    open spec fn spec_event_type(&self) -> Seq<char> {
        "m.presence"@
    }

    fn content(&self) -> (r: &PresenceContent<'a>) {
        &self.content
    }

    fn event_type(&self) -> (r: &'static str) {
        "m.presence"
    }
}

/// The payload of a `Presence` event.
#[derive(Debug, PartialEq, Eq)]
pub struct PresenceContent<'a> {
    /// The current avatar URL for this user.
    pub avatar_url: Option<&'a str>,
    /// The current display name for this user.
    pub displayname: Option<&'a str>,
    /// The last time since this user performed some action, in milliseconds.
    pub last_active_ago: Option<u64>,
    /// The presence state for this user.
    pub presence: PresenceState,
}

/// A description of a user's connectivity and availability for chat.
#[derive(Clone, Copy, Debug, PartialEq, Eq)]
pub enum PresenceState {
    /// Connected to the service and available for chat.
    FreeForChat,
    /// Connected to the service but not visible to other users.
    Hidden,
    /// Disconnected from the service.
    Offline,
    /// Connected to the service.
    Online,
    /// Connected to the service but not available for chat.
    Unavailable,
}

} // verus!
