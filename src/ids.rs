//! Checks of the identifiers that an event carries.
use vstd::prelude::*;

verus! {

/// Whether the text is accepted as an event ID.
pub uninterp spec fn is_event_id(s: Seq<char>) -> bool;

/// Whether the text is accepted as a room ID.
pub uninterp spec fn is_room_id(s: Seq<char>) -> bool;

/// Whether the text is accepted as a user ID.
pub uninterp spec fn is_user_id(s: Seq<char>) -> bool;

/// Relies on ruma_identifiers::EventId::try_from: whether it accepts the text.
#[verifier::external_body]
pub(crate) fn check_event_id(s: &str) -> (r: bool)
    ensures
        r == is_event_id(s@),
{
    ruma_identifiers::EventId::try_from(s).is_ok()
}

/// Relies on ruma_identifiers::RoomId::try_from: whether it accepts the text.
#[verifier::external_body]
pub(crate) fn check_room_id(s: &str) -> (r: bool)
    ensures
        r == is_room_id(s@),
{
    ruma_identifiers::RoomId::try_from(s).is_ok()
}

/// Relies on ruma_identifiers::UserId::try_from: whether it accepts the text.
#[verifier::external_body]
pub(crate) fn check_user_id(s: &str) -> (r: bool)
    ensures
        r == is_user_id(s@),
{
    ruma_identifiers::UserId::try_from(s).is_ok()
}

} // verus!
