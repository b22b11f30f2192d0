//! The wire-faithful shapes that events are first decoded into.
use vstd::prelude::*;

use crate::algorithm::Algorithm;
use crate::fields::{
    opt_string_field, read_opt_string, read_string, read_uint, string_field, uint_field, Field,
    FieldError, Problem,
};
use crate::ids::{check_event_id, check_room_id, check_user_id, is_event_id, is_room_id, is_user_id};
use crate::json::JsonValue;
use crate::room::encrypted::{
    content_from_json, ContentError, ContentView, EventError, MegolmV1AesSha2Content,
    OlmV1Curve25519AesSha2Content,
};
use crate::unsigned::{unsigned_from_json, UnsignedData};

verus! {

/// The payload for `EncryptedEvent`, as decoded from the wire.
#[derive(Debug, PartialEq, Eq)]
pub enum EncryptedEventContent {
    /// An event encrypted with *m.olm.v1.curve25519-aes-sha2*.
    OlmV1Curve25519AesSha2(OlmV1Curve25519AesSha2Content),
    /// An event encrypted with *m.megolm.v1.aes-sha2*.
    MegolmV1AesSha2(MegolmV1AesSha2Content),
}

impl View for EncryptedEventContent {
    type V = ContentView;

    open spec fn view(&self) -> ContentView {
        match self {
            EncryptedEventContent::OlmV1Curve25519AesSha2(c) => ContentView::Olm(c@),
            EncryptedEventContent::MegolmV1AesSha2(c) => ContentView::Megolm(*c),
        }
    }
}

impl EncryptedEventContent {
    /// Decodes encrypted content: the `algorithm` field selects the variant,
    /// whose fields are then read strictly. A missing tag, a tag that is no
    /// string, a tag naming another algorithm and a malformed variant each
    /// give their own error.
    pub fn from_json(value: &JsonValue) -> (r: Result<EncryptedEventContent, ContentError>)
        ensures
            match r {
                Ok(c) => content_from_json(*value) == Ok::<_, ContentError>(c@),
                Err(e) => content_from_json(*value) == Err::<ContentView, _>(e),
            },
    {
        let method_value = match value.get("algorithm") {
            Some(v) => v,
            None => return Err(ContentError::MissingDiscriminator),
        };
        let method = match method_value {
            JsonValue::String(s) => Algorithm::from_name(s.clone()),
            _ => return Err(ContentError::InvalidDiscriminator),
        };
        match method {
            Algorithm::OlmV1Curve25519AesSha2 => {
                match OlmV1Curve25519AesSha2Content::from_json(value) {
                    Ok(content) => Ok(EncryptedEventContent::OlmV1Curve25519AesSha2(content)),
                    Err(e) => Err(
                        ContentError::VariantDecodeFailure(Algorithm::OlmV1Curve25519AesSha2, e),
                    ),
                }
            },
            Algorithm::MegolmV1AesSha2 => {
                match MegolmV1AesSha2Content::from_json(value) {
                    Ok(content) => Ok(EncryptedEventContent::MegolmV1AesSha2(content)),
                    Err(e) => Err(ContentError::VariantDecodeFailure(Algorithm::MegolmV1AesSha2, e)),
                }
            },
            Algorithm::Custom(s) => Err(ContentError::UnsupportedDiscriminator(s)),
        }
    }
}

/// This event type is used when sending encrypted events, as decoded from
/// the wire: `unsigned` is absent where the wire had none.
#[derive(Debug, PartialEq, Eq)]
pub struct EncryptedEvent {
    /// The event's content.
    pub content: EncryptedEventContent,
    /// The unique identifier for the event.
    pub event_id: String,
    /// Time on originating homeserver when this event was sent, in
    /// milliseconds since the Unix epoch.
    pub origin_server_ts: u64,
    /// The unique identifier for the room associated with this event.
    pub room_id: Option<String>,
    /// The unique identifier for the user who sent this event.
    pub sender: String,
    /// Additional key-value pairs not signed by the homeserver.
    pub unsigned: Option<UnsignedData>,
}

/// The value of an event as decoded from the wire.
pub struct RawEventView {
    pub content: ContentView,
    pub event_id: String,
    pub origin_server_ts: u64,
    pub room_id: Option<String>,
    pub sender: String,
    pub unsigned: Option<UnsignedData>,
}

impl View for EncryptedEvent {
    type V = RawEventView;

    open spec fn view(&self) -> RawEventView {
        RawEventView {
            content: self.content@,
            event_id: self.event_id,
            origin_server_ts: self.origin_server_ts,
            room_id: self.room_id,
            sender: self.sender,
            unsigned: self.unsigned,
        }
    }
}

/// An event envelope read from a JSON object. Errors of the content and of
/// the envelope's own fields are kept apart.
pub open spec fn raw_event_from_json(j: JsonValue) -> Result<RawEventView, EventError> {
    match j.spec_get("content"@) {
        None => Err(
            EventError::EnvelopeDecodeFailure(
                FieldError { field: Field::Content, problem: Problem::Missing },
            ),
        ),
        Some(cj) => match content_from_json(cj) {
            Err(e) => Err(EventError::ContentDecodeFailure(e)),
            Ok(content) => match read_string(j, "event_id"@, Field::EventId) {
                Err(e) => Err(EventError::EnvelopeDecodeFailure(e)),
                Ok(event_id) => if !is_event_id(event_id@) {
                    Err(
                        EventError::EnvelopeDecodeFailure(
                            FieldError { field: Field::EventId, problem: Problem::InvalidIdentifier },
                        ),
                    )
                } else {
                    match read_uint(j, "origin_server_ts"@, Field::OriginServerTs) {
                        Err(e) => Err(EventError::EnvelopeDecodeFailure(e)),
                        Ok(origin_server_ts) => match read_opt_string(j, "room_id"@, Field::RoomId) {
                            Err(e) => Err(EventError::EnvelopeDecodeFailure(e)),
                            Ok(room_id) => if room_id matches Some(r) && !is_room_id(r@) {
                                Err(
                                    EventError::EnvelopeDecodeFailure(
                                        FieldError {
                                            field: Field::RoomId,
                                            problem: Problem::InvalidIdentifier,
                                        },
                                    ),
                                )
                            } else {
                                match read_string(j, "sender"@, Field::Sender) {
                                    Err(e) => Err(EventError::EnvelopeDecodeFailure(e)),
                                    Ok(sender) => if !is_user_id(sender@) {
                                        Err(
                                            EventError::EnvelopeDecodeFailure(
                                                FieldError {
                                                    field: Field::Sender,
                                                    problem: Problem::InvalidIdentifier,
                                                },
                                            ),
                                        )
                                    } else {
                                        match j.spec_get("unsigned"@) {
                                            None => Ok(
                                                RawEventView {
                                                    content,
                                                    event_id,
                                                    origin_server_ts,
                                                    room_id,
                                                    sender,
                                                    unsigned: None,
                                                },
                                            ),
                                            Some(uj) => match unsigned_from_json(uj) {
                                                Err(e) => Err(EventError::EnvelopeDecodeFailure(e)),
                                                Ok(u) => Ok(
                                                    RawEventView {
                                                        content,
                                                        event_id,
                                                        origin_server_ts,
                                                        room_id,
                                                        sender,
                                                        unsigned: Some(u),
                                                    },
                                                ),
                                            },
                                        }
                                    },
                                }
                            },
                        },
                    }
                },
            },
        },
    }
}

impl EncryptedEvent {
    /// Decodes an event envelope and its content from a JSON object.
    pub fn from_json(j: &JsonValue) -> (r: Result<EncryptedEvent, EventError>)
        ensures
            match r {
                Ok(e) => raw_event_from_json(*j) == Ok::<_, EventError>(e@),
                Err(e) => raw_event_from_json(*j) == Err::<RawEventView, _>(e),
            },
    {
        let content = match j.get("content") {
            None => {
                return Err(
                    EventError::EnvelopeDecodeFailure(
                        FieldError { field: Field::Content, problem: Problem::Missing },
                    ),
                );
            },
            Some(cj) => match EncryptedEventContent::from_json(cj) {
                Ok(c) => c,
                Err(e) => return Err(EventError::ContentDecodeFailure(e)),
            },
        };
        let event_id = match string_field(j, "event_id", Field::EventId) {
            Ok(s) => s,
            Err(e) => return Err(EventError::EnvelopeDecodeFailure(e)),
        };
        if !check_event_id(event_id.as_str()) {
            return Err(
                EventError::EnvelopeDecodeFailure(
                    FieldError { field: Field::EventId, problem: Problem::InvalidIdentifier },
                ),
            );
        }
        let origin_server_ts = match uint_field(j, "origin_server_ts", Field::OriginServerTs) {
            Ok(n) => n,
            Err(e) => return Err(EventError::EnvelopeDecodeFailure(e)),
        };
        let room_id = match opt_string_field(j, "room_id", Field::RoomId) {
            Ok(r) => r,
            Err(e) => return Err(EventError::EnvelopeDecodeFailure(e)),
        };
        match &room_id {
            Some(r) => {
                if !check_room_id(r.as_str()) {
                    return Err(
                        EventError::EnvelopeDecodeFailure(
                            FieldError { field: Field::RoomId, problem: Problem::InvalidIdentifier },
                        ),
                    );
                }
            },
            None => {},
        }
        let sender = match string_field(j, "sender", Field::Sender) {
            Ok(s) => s,
            Err(e) => return Err(EventError::EnvelopeDecodeFailure(e)),
        };
        if !check_user_id(sender.as_str()) {
            return Err(
                EventError::EnvelopeDecodeFailure(
                    FieldError { field: Field::Sender, problem: Problem::InvalidIdentifier },
                ),
            );
        }
        let unsigned = match j.get("unsigned") {
            None => None,
            Some(uj) => match UnsignedData::from_json(uj) {
                Ok(u) => Some(u),
                Err(e) => return Err(EventError::EnvelopeDecodeFailure(e)),
            },
        };
        Ok(EncryptedEvent { content, event_id, origin_server_ts, room_id, sender, unsigned })
    }
}

} // verus!
