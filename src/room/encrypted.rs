//! Types for the *m.room.encrypted* event.
use vstd::prelude::*;

use crate::algorithm::{algorithm_of, algorithm_text, lemma_known_names, Algorithm};
use crate::event::Event;
use crate::ids::{is_event_id, is_room_id, is_user_id};
use crate::unsigned::{empty_unsigned, lemma_unsigned_round_trip, unsigned_json, UnsignedData};
use crate::fields::{
    read_string, read_uint, string_field, uint_field, Field, FieldError, Problem,
};
use crate::js::MAX_SAFE_UINT;
use crate::json::{
    entry, has_repeated_key, keys_distinct, lemma_entry_absent, lemma_entry_first, JsonNumber,
    JsonValue,
};

pub mod raw;

verus! {

/// Ciphertext information holding the ciphertext and message type.
///
/// Used for messages encrypted with the *m.olm.v1.curve25519-aes-sha2* algorithm.
#[derive(Clone, Debug, PartialEq, Eq)]
pub struct CiphertextInfo {
    /// The encrypted payload.
    pub body: String,
    /// The Olm message type, at most 2^53 - 1.
    pub message_type: u64,
}

/// The payload for `EncryptedEvent` using the *m.olm.v1.curve25519-aes-sha2* algorithm.
///
/// Its algorithm is that of the variant that holds it. No recipient key occurs
/// twice, and every message type is at most 2^53 - 1.
#[derive(Debug, PartialEq, Eq)]
pub struct OlmV1Curve25519AesSha2Content {
    /// Ciphertext information for each recipient Curve25519 identity key, in
    /// the order of the wire object.
    ciphertext: Vec<(String, CiphertextInfo)>,
    /// The Curve25519 key of the sender.
    pub sender_key: String,
}

/// The payload for `EncryptedEvent` using the *m.megolm.v1.aes-sha2* algorithm.
///
/// Its algorithm is that of the variant that holds it.
#[derive(Clone, Debug, PartialEq, Eq)]
pub struct MegolmV1AesSha2Content {
    /// The encrypted content of the event.
    pub ciphertext: String,
    /// The Curve25519 key of the sender.
    pub sender_key: String,
    /// The ID of the sending device.
    pub device_id: String,
    /// The ID of the session used to encrypt the message.
    pub session_id: String,
}

/// This event type is used when sending encrypted events.
///
/// This type is to be used within a room. For a to-device event, use
/// `EncryptedEventContent` directly.
#[derive(Debug, PartialEq, Eq)]
pub struct EncryptedEvent {
    /// The event's content.
    pub content: EncryptedEventContent,
    /// The unique identifier for the event.
    pub event_id: String,
    /// Time on originating homeserver when this event was sent, in
    /// milliseconds since the Unix epoch.
    pub origin_server_ts: u64,
    /// The unique identifier for the room associated with this event.
    pub room_id: Option<String>,
    /// The unique identifier for the user who sent this event.
    pub sender: String,
    /// Additional key-value pairs not signed by the homeserver.
    pub unsigned: UnsignedData,
}

/// The value of an event, with its content's value.
pub struct EventView {
    pub content: ContentView,
    pub event_id: String,
    pub origin_server_ts: u64,
    pub room_id: Option<String>,
    pub sender: String,
    pub unsigned: UnsignedData,
}

impl View for EncryptedEvent {
    type V = EventView;

    open spec fn view(&self) -> EventView {
        EventView {
            content: self.content@,
            event_id: self.event_id,
            origin_server_ts: self.origin_server_ts,
            room_id: self.room_id,
            sender: self.sender,
            unsigned: self.unsigned,
        }
    }
}

impl EventView {
    /// The content is well formed, the identifiers are accepted, and the
    /// integers fit in JavaScript numbers.
    pub open spec fn wf(self) -> bool {
        &&& self.content.wf()
        &&& is_event_id(self.event_id@)
        &&& self.origin_server_ts <= MAX_SAFE_UINT
        &&& (self.room_id matches Some(r) ==> is_room_id(r@))
        &&& is_user_id(self.sender@)
        &&& self.unsigned.wf()
    }
}

/// The public value of an event decoded from the wire: absent unsigned data
/// becomes the empty value.
pub open spec fn project_event(r: raw::RawEventView) -> EventView {
    EventView {
        content: r.content,
        event_id: r.event_id,
        origin_server_ts: r.origin_server_ts,
        room_id: r.room_id,
        sender: r.sender,
        unsigned: match r.unsigned {
            Some(u) => u,
            None => empty_unsigned(),
        },
    }
}

/// An event read from a JSON object: the wire shape, then its projection.
pub open spec fn event_from_json(j: JsonValue) -> Result<EventView, EventError> {
    match raw::raw_event_from_json(j) {
        Ok(r) => Ok(project_event(r)),
        Err(e) => Err(e),
    }
}

/// `j` is the encoding of event `e`: its type, content, ID, timestamp and
/// sender, then the room ID where present and the unsigned data where not
/// empty.
pub open spec fn event_json(j: JsonValue, e: EventView) -> bool {
    &&& j matches JsonValue::Object(es)
    &&& es@.len() == 5 + (if e.room_id is Some {
        1int
    } else {
        0
    }) + (if e.unsigned != empty_unsigned() {
        1int
    } else {
        0
    })
    &&& es@[0].0@ == "type"@
    &&& is_text(es@[0].1, "m.room.encrypted"@)
    &&& es@[1].0@ == "content"@
    &&& content_json(es@[1].1, e.content)
    &&& es@[2].0@ == "event_id"@
    &&& es@[2].1 == JsonValue::String(e.event_id)
    &&& es@[3].0@ == "origin_server_ts"@
    &&& es@[3].1 == JsonValue::Number(JsonNumber::PosInt(e.origin_server_ts))
    &&& es@[4].0@ == "sender"@
    &&& es@[4].1 == JsonValue::String(e.sender)
    &&& (e.room_id matches Some(r) ==> es@[5].0@ == "room_id"@ && es@[5].1 == JsonValue::String(r))
    &&& (e.unsigned != empty_unsigned() ==> {
        let k = es@.len() - 1;
        es@[k].0@ == "unsigned"@ && unsigned_json(es@[k].1, e.unsigned)
    })
}

/// The payload for `EncryptedEvent`.
#[derive(Debug, PartialEq, Eq)]
pub enum EncryptedEventContent {
    /// An event encrypted with *m.olm.v1.curve25519-aes-sha2*.
    OlmV1Curve25519AesSha2(OlmV1Curve25519AesSha2Content),
    /// An event encrypted with *m.megolm.v1.aes-sha2*.
    MegolmV1AesSha2(MegolmV1AesSha2Content),
}

/// Olm content with its recipients as a sequence.
pub struct OlmContentView {
    pub ciphertext: Seq<(String, CiphertextInfo)>,
    pub sender_key: String,
}

/// The value of encrypted content, with each variant's fields.
pub enum ContentView {
    Olm(OlmContentView),
    Megolm(MegolmV1AesSha2Content),
}

impl View for OlmV1Curve25519AesSha2Content {
    type V = OlmContentView;

    closed spec fn view(&self) -> OlmContentView {
        OlmContentView {
            ciphertext: self.ciphertext@,
            sender_key: self.sender_key,
        }
    }
}

impl View for EncryptedEventContent {
    type V = ContentView;

    open spec fn view(&self) -> ContentView {
        match self {
            EncryptedEventContent::OlmV1Curve25519AesSha2(c) => ContentView::Olm(c@),
            EncryptedEventContent::MegolmV1AesSha2(c) => ContentView::Megolm(*c),
        }
    }
}

impl ContentView {
    /// The algorithm that the variant stands for.
    pub open spec fn variant_algorithm(self) -> Algorithm {
        match self {
            ContentView::Olm(_) => Algorithm::OlmV1Curve25519AesSha2,
            ContentView::Megolm(_) => Algorithm::MegolmV1AesSha2,
        }
    }

    /// The recipients of Olm content obey the rules of its type; Megolm
    /// content has no such rules. Every value of `EncryptedEventContent` has a
    /// well-formed view.
    pub open spec fn wf(self) -> bool {
        match self {
            ContentView::Olm(c) => recipients_ok(c.ciphertext),
            ContentView::Megolm(_) => true,
        }
    }
}

/// No recipient key occurs twice, and every message type fits in a
/// JavaScript integer.
pub open spec fn recipients_ok(s: Seq<(String, CiphertextInfo)>) -> bool {
    &&& keys_distinct(s)
    &&& forall|i: int| 0 <= i < s.len() ==> #[trigger] s[i].1.message_type <= MAX_SAFE_UINT
}

impl OlmV1Curve25519AesSha2Content {
    #[verifier::type_invariant]
    spec fn inv(&self) -> bool {
        recipients_ok(self.ciphertext@)
    }

    /// Olm content with the given recipients and sender key, where no
    /// recipient key occurs twice and every message type is at most 2^53 - 1;
    /// none otherwise.
    pub fn new(ciphertext: Vec<(String, CiphertextInfo)>, sender_key: String) -> (r: Option<
        OlmV1Curve25519AesSha2Content,
    >)
        ensures
            r is Some <==> recipients_ok(ciphertext@),
            r matches Some(c) ==> c@ == (OlmContentView { ciphertext: ciphertext@, sender_key }),
    {
        let mut i: usize = 0;
        while i < ciphertext.len()
            invariant
                0 <= i <= ciphertext.len(),
                forall|k: int| 0 <= k < i ==> #[trigger] ciphertext@[k].1.message_type <= MAX_SAFE_UINT,
            decreases ciphertext.len() - i,
        {
            if ciphertext[i].1.message_type > MAX_SAFE_UINT {
                return None;
            }
            i = i + 1;
        }
        let mut k: usize = 0;
        while k < ciphertext.len()
            invariant
                0 <= k <= ciphertext.len(),
                forall|a: int, b: int|
                    0 <= a < b < k ==> (#[trigger] ciphertext@[a]).0@ != (#[trigger] ciphertext@[b]).0@,
            decreases ciphertext.len() - k,
        {
            let mut i: usize = 0;
            while i < k
                invariant
                    0 <= i <= k < ciphertext.len(),
                    forall|a: int| 0 <= a < i ==> (#[trigger] ciphertext@[a]).0@ != ciphertext@[k as int].0@,
                decreases k - i,
            {
                if ciphertext[i].0 == ciphertext[k].0 {
                    assert(ciphertext@[i as int].0@ == ciphertext@[k as int].0@);
                    return None;
                }
                i = i + 1;
            }
            k = k + 1;
        }
        Some(OlmV1Curve25519AesSha2Content { ciphertext, sender_key })
    }

    /// Ciphertext information for each recipient key, in order.
    pub fn ciphertext(&self) -> (r: &Vec<(String, CiphertextInfo)>)
        ensures
            r@ == self@.ciphertext,
    {
        &self.ciphertext
    }
}

/// Why encrypted content could not be decoded.
#[derive(Clone, Debug, PartialEq, Eq)]
pub enum ContentError {
    /// The content has no `algorithm` field.
    MissingDiscriminator,
    /// The `algorithm` field is not a string.
    InvalidDiscriminator,
    /// The `algorithm` field names an algorithm that this content does not support.
    UnsupportedDiscriminator(String),
    /// The content of the named algorithm lacks a field or holds a malformed one.
    VariantDecodeFailure(Algorithm, FieldError),
}

/// Why an event could not be decoded.
#[derive(Clone, Debug, PartialEq, Eq)]
pub enum EventError {
    /// A field of the envelope is missing or malformed.
    EnvelopeDecodeFailure(FieldError),
    /// The content could not be decoded.
    ContentDecodeFailure(ContentError),
}

/// Ciphertext information read from a JSON object.
pub open spec fn info_from_json(j: JsonValue) -> Result<CiphertextInfo, FieldError> {
    match read_string(j, "body"@, Field::Body) {
        Err(e) => Err(e),
        Ok(body) => match read_uint(j, "type"@, Field::MessageType) {
            Err(e) => Err(e),
            Ok(message_type) => Ok(CiphertextInfo { body, message_type }),
        },
    }
}

/// The recipients of Olm content, read entry by entry; the first malformed
/// entry gives the error.
pub open spec fn infos_from_json(entries: Seq<(String, JsonValue)>) -> Result<
    Seq<(String, CiphertextInfo)>,
    FieldError,
>
    decreases entries.len(),
{
    if entries.len() == 0 {
        Ok(Seq::empty())
    } else {
        match info_from_json(entries[0].1) {
            Err(e) => Err(e),
            Ok(info) => match infos_from_json(entries.drop_first()) {
                Err(e) => Err(e),
                Ok(rest) => Ok(seq![(entries[0].0, info)] + rest),
            },
        }
    }
}

/// Olm content read from a JSON object.
pub open spec fn olm_from_json(j: JsonValue) -> Result<OlmContentView, FieldError> {
    match j.spec_get("ciphertext"@) {
            None => Err(FieldError { field: Field::Ciphertext, problem: Problem::Missing }),
            Some(JsonValue::Object(entries)) => if !keys_distinct(entries@) {
                Err(FieldError { field: Field::Ciphertext, problem: Problem::RepeatedKey })
            } else {
                match infos_from_json(entries@) {
                Err(e) => Err(e),
                Ok(ciphertext) => match read_string(j, "sender_key"@, Field::SenderKey) {
                    Err(e) => Err(e),
                    Ok(sender_key) => Ok(OlmContentView { ciphertext, sender_key }),
                },
            }
            },
            Some(_) => Err(FieldError { field: Field::Ciphertext, problem: Problem::WrongType }),
    }
}

/// Megolm content read from a JSON object.
pub open spec fn megolm_from_json(j: JsonValue) -> Result<MegolmV1AesSha2Content, FieldError> {
    match read_string(j, "ciphertext"@, Field::Ciphertext) {
            Err(e) => Err(e),
            Ok(ciphertext) => match read_string(j, "sender_key"@, Field::SenderKey) {
                Err(e) => Err(e),
                Ok(sender_key) => match read_string(j, "device_id"@, Field::DeviceId) {
                    Err(e) => Err(e),
                    Ok(device_id) => match read_string(j, "session_id"@, Field::SessionId) {
                        Err(e) => Err(e),
                        Ok(session_id) => Ok(
                            MegolmV1AesSha2Content {
                                ciphertext,
                                sender_key,
                                device_id,
                                session_id,
                            },
                        ),
                    },
                },
            },
    }
}

/// Encrypted content read from a JSON object: the `algorithm` field picks
/// the variant, whose own fields are then read.
pub open spec fn content_from_json(j: JsonValue) -> Result<ContentView, ContentError> {
    match j.spec_get("algorithm"@) {
        None => Err(ContentError::MissingDiscriminator),
        Some(JsonValue::String(t)) => match algorithm_of(t) {
            Algorithm::OlmV1Curve25519AesSha2 => match olm_from_json(j) {
                Ok(c) => Ok(ContentView::Olm(c)),
                Err(e) => Err(
                    ContentError::VariantDecodeFailure(Algorithm::OlmV1Curve25519AesSha2, e),
                ),
            },
            Algorithm::MegolmV1AesSha2 => match megolm_from_json(j) {
                Ok(c) => Ok(ContentView::Megolm(c)),
                Err(e) => Err(ContentError::VariantDecodeFailure(Algorithm::MegolmV1AesSha2, e)),
            },
            Algorithm::Custom(s) => Err(ContentError::UnsupportedDiscriminator(s)),
        },
        Some(_) => Err(ContentError::InvalidDiscriminator),
    }
}

/// `v` is a JSON string holding `s`.
pub open spec fn is_text(v: JsonValue, s: Seq<char>) -> bool {
    v matches JsonValue::String(t) && t@ == s
}

/// `j` is the encoding of a ciphertext information.
pub open spec fn info_json(j: JsonValue, info: CiphertextInfo) -> bool {
    &&& j matches JsonValue::Object(es)
    &&& es@.len() == 2
    &&& es@[0].0@ == "body"@
    &&& es@[0].1 == JsonValue::String(info.body)
    &&& es@[1].0@ == "type"@
    &&& es@[1].1 == JsonValue::Number(JsonNumber::PosInt(info.message_type))
}

/// `j` is the encoding of content `c`: the variant's tag first, then the
/// variant's fields in order.
pub open spec fn content_json(j: JsonValue, c: ContentView) -> bool {
    &&& j matches JsonValue::Object(es)
    &&& es@.len() >= 1
    &&& es@[0].0@ == "algorithm"@
    &&& is_text(es@[0].1, algorithm_text(c.variant_algorithm()))
    &&& match c {
        ContentView::Olm(o) => {
            &&& es@.len() == 3
            &&& es@[1].0@ == "ciphertext"@
            &&& es@[1].1 matches JsonValue::Object(cs)
            &&& cs@.len() == o.ciphertext.len()
            &&& forall|i: int|
                0 <= i < cs@.len() ==> {
                    &&& (#[trigger] cs@[i]).0 == o.ciphertext[i].0
                    &&& info_json(cs@[i].1, o.ciphertext[i].1)
                }
            &&& es@[2].0@ == "sender_key"@
            &&& es@[2].1 == JsonValue::String(o.sender_key)
        },
        ContentView::Megolm(m) => {
            &&& es@.len() == 5
            &&& es@[1].0@ == "ciphertext"@
            &&& es@[1].1 == JsonValue::String(m.ciphertext)
            &&& es@[2].0@ == "sender_key"@
            &&& es@[2].1 == JsonValue::String(m.sender_key)
            &&& es@[3].0@ == "device_id"@
            &&& es@[3].1 == JsonValue::String(m.device_id)
            &&& es@[4].0@ == "session_id"@
            &&& es@[4].1 == JsonValue::String(m.session_id)
        },
    }
}

impl CiphertextInfo {
    /// Reads ciphertext information from a JSON object.
    pub fn from_json(j: &JsonValue) -> (r: Result<CiphertextInfo, FieldError>)
        ensures
            r == info_from_json(*j),
    {
        let body = match string_field(j, "body", Field::Body) {
            Ok(b) => b,
            Err(e) => return Err(e),
        };
        let message_type = match uint_field(j, "type", Field::MessageType) {
            Ok(n) => n,
            Err(e) => return Err(e),
        };
        Ok(CiphertextInfo { body, message_type })
    }

    /// Encodes this information as a JSON object.
    pub fn to_json(&self) -> (r: JsonValue)
        ensures
            info_json(r, *self),
    {
        let mut es: Vec<(String, JsonValue)> = Vec::new();
        es.push(entry("body", JsonValue::String(self.body.clone())));
        es.push(entry("type", JsonValue::Number(JsonNumber::PosInt(self.message_type))));
        JsonValue::Object(es)
    }
}

/// Reads the recipients of Olm content from the entries of a JSON object.
fn infos_from(entries: &Vec<(String, JsonValue)>) -> (r: Result<
    Vec<(String, CiphertextInfo)>,
    FieldError,
>)
    ensures
        match r {
            Ok(v) => infos_from_json(entries@) == Ok::<_, FieldError>(v@),
            Err(e) => infos_from_json(entries@) == Err::<Seq<(String, CiphertextInfo)>, _>(e),
        },
{
    let mut out: Vec<(String, CiphertextInfo)> = Vec::new();
    let mut i: usize = 0;
    assert(entries@.subrange(0, entries@.len() as int) =~= entries@);
    proof {
        match infos_from_json(entries@) {
            Ok(rest) => {
                assert(out@ + rest =~= rest);
            },
            Err(_) => {},
        }
    }
    while i < entries.len()
        invariant
            0 <= i <= entries.len(),
            infos_from_json(entries@) == match infos_from_json(
                entries@.subrange(i as int, entries@.len() as int),
            ) {
                Ok(rest) => Ok(out@ + rest),
                Err(e) => Err::<Seq<(String, CiphertextInfo)>, FieldError>(e),
            },
        decreases entries.len() - i,
    {
        let ghost tail = entries@.subrange(i as int, entries@.len() as int);
        assert(tail.drop_first() =~= entries@.subrange(i + 1, entries@.len() as int));
        assert(tail[0] == entries@[i as int]);
        match CiphertextInfo::from_json(&entries[i].1) {
            Ok(info) => {
                let ghost old_out = out@;
                out.push((entries[i].0.clone(), info));
                proof {
                    let rest = entries@.subrange(i + 1, entries@.len() as int);
                    match infos_from_json(rest) {
                        Ok(r2) => {
                            assert(old_out + (seq![(entries@[i as int].0, info)] + r2) =~= out@
                                + r2);
                        },
                        Err(_) => {},
                    }
                }
            },
            Err(e) => {
                return Err(e);
            },
        }
        i = i + 1;
    }
    assert(entries@.subrange(i as int, entries@.len() as int) =~= Seq::<
        (String, JsonValue),
    >::empty());
    assert(out@ + Seq::<(String, CiphertextInfo)>::empty() =~= out@);
    Ok(out)
}

impl OlmV1Curve25519AesSha2Content {
    /// Reads Olm content from a JSON object.
    pub fn from_json(j: &JsonValue) -> (r: Result<OlmV1Curve25519AesSha2Content, FieldError>)
        ensures
            match r {
                Ok(c) => olm_from_json(*j) == Ok::<_, FieldError>(c@),
                Err(e) => olm_from_json(*j) == Err::<OlmContentView, _>(e),
            },
    {
        let ciphertext = match j.get("ciphertext") {
            None => {
                return Err(FieldError { field: Field::Ciphertext, problem: Problem::Missing });
            },
            Some(JsonValue::Object(entries)) => {
                if has_repeated_key(entries) {
                    return Err(
                        FieldError { field: Field::Ciphertext, problem: Problem::RepeatedKey },
                    );
                }
                match infos_from(entries) {
                    Ok(v) => {
                        proof {
                            lemma_infos_bounded(entries@);
                            assert forall|a: int, b: int|
                                0 <= a < b < v@.len() implies (#[trigger] v@[a]).0@
                                != (#[trigger] v@[b]).0@ by {
                                assert(entries@[a].0@ != entries@[b].0@);
                            }
                        }
                        v
                    },
                    Err(e) => return Err(e),
                }
            },
            Some(_) => {
                return Err(FieldError { field: Field::Ciphertext, problem: Problem::WrongType });
            },
        };
        let sender_key = match string_field(j, "sender_key", Field::SenderKey) {
            Ok(s) => s,
            Err(e) => return Err(e),
        };
        Ok(OlmV1Curve25519AesSha2Content { ciphertext, sender_key })
    }
}

impl MegolmV1AesSha2Content {
    /// Reads Megolm content from a JSON object.
    pub fn from_json(j: &JsonValue) -> (r: Result<MegolmV1AesSha2Content, FieldError>)
        ensures
            r == megolm_from_json(*j),
    {
        let ciphertext = match string_field(j, "ciphertext", Field::Ciphertext) {
            Ok(s) => s,
            Err(e) => return Err(e),
        };
        let sender_key = match string_field(j, "sender_key", Field::SenderKey) {
            Ok(s) => s,
            Err(e) => return Err(e),
        };
        let device_id = match string_field(j, "device_id", Field::DeviceId) {
            Ok(s) => s,
            Err(e) => return Err(e),
        };
        let session_id = match string_field(j, "session_id", Field::SessionId) {
            Ok(s) => s,
            Err(e) => return Err(e),
        };
        Ok(
            MegolmV1AesSha2Content {
                ciphertext,
                sender_key,
                device_id,
                session_id,
            },
        )
    }
}

impl OlmV1Curve25519AesSha2Content {
    /// Encodes Olm content as a JSON object, its tag first.
    pub fn to_json(&self) -> (r: JsonValue)
        ensures
            content_json(r, ContentView::Olm(self@)),
            ContentView::Olm(self@).wf(),
    {
        proof {
            use_type_invariant(self);
        }
        let mut cs: Vec<(String, JsonValue)> = Vec::new();
        let mut i: usize = 0;
        while i < self.ciphertext.len()
            invariant
                0 <= i <= self.ciphertext.len(),
                cs@.len() == i,
                forall|k: int|
                    0 <= k < i ==> {
                        &&& (#[trigger] cs@[k]).0 == self.ciphertext@[k].0
                        &&& info_json(cs@[k].1, self.ciphertext@[k].1)
                    },
            decreases self.ciphertext.len() - i,
        {
            let (key, info) = &self.ciphertext[i];
            cs.push((key.clone(), info.to_json()));
            i = i + 1;
        }
        let mut es: Vec<(String, JsonValue)> = Vec::new();
        es.push(entry("algorithm", JsonValue::from_str_slice(Algorithm::OlmV1Curve25519AesSha2.as_str())));
        es.push(entry("ciphertext", JsonValue::Object(cs)));
        es.push(entry("sender_key", JsonValue::String(self.sender_key.clone())));
        JsonValue::Object(es)
    }
}

impl MegolmV1AesSha2Content {
    /// Encodes Megolm content as a JSON object, its tag first.
    pub fn to_json(&self) -> (r: JsonValue)
        ensures
            content_json(r, ContentView::Megolm(*self)),
    {
        let mut es: Vec<(String, JsonValue)> = Vec::new();
        es.push(entry("algorithm", JsonValue::from_str_slice(Algorithm::MegolmV1AesSha2.as_str())));
        es.push(entry("ciphertext", JsonValue::String(self.ciphertext.clone())));
        es.push(entry("sender_key", JsonValue::String(self.sender_key.clone())));
        es.push(entry("device_id", JsonValue::String(self.device_id.clone())));
        es.push(entry("session_id", JsonValue::String(self.session_id.clone())));
        JsonValue::Object(es)
    }
}

impl EncryptedEventContent {
    /// Projects content decoded from the wire onto the public type.
    pub fn from_raw(raw: raw::EncryptedEventContent) -> (r: EncryptedEventContent)
        ensures
            r@ == raw@,
    {
        match raw {
            raw::EncryptedEventContent::OlmV1Curve25519AesSha2(content) => {
                EncryptedEventContent::OlmV1Curve25519AesSha2(content)
            },
            raw::EncryptedEventContent::MegolmV1AesSha2(content) => {
                EncryptedEventContent::MegolmV1AesSha2(content)
            },
        }
    }

    /// Decodes encrypted content from a JSON object.
    pub fn from_json(value: &JsonValue) -> (r: Result<EncryptedEventContent, ContentError>)
        ensures
            match r {
                Ok(c) => content_from_json(*value) == Ok::<_, ContentError>(c@),
                Err(e) => content_from_json(*value) == Err::<ContentView, _>(e),
            },
    {
        match raw::EncryptedEventContent::from_json(value) {
            Ok(c) => Ok(EncryptedEventContent::from_raw(c)),
            Err(e) => Err(e),
        }
    }

    /// Encodes encrypted content as a JSON object. The tag is written from
    /// the variant held. The content is well formed, so decoding the result
    /// gives it back (see `lemma_content_round_trip`).
    pub fn to_json(&self) -> (r: JsonValue)
        ensures
            content_json(r, self@),
            self@.wf(),
    {
        match self {
            EncryptedEventContent::OlmV1Curve25519AesSha2(c) => c.to_json(),
            EncryptedEventContent::MegolmV1AesSha2(c) => c.to_json(),
        }
    }

    /// The algorithm of the variant held.
    pub fn algorithm(&self) -> (r: Algorithm)
        ensures
            r == self@.variant_algorithm(),
    {
        match self {
            EncryptedEventContent::OlmV1Curve25519AesSha2(_) => Algorithm::OlmV1Curve25519AesSha2,
            EncryptedEventContent::MegolmV1AesSha2(_) => Algorithm::MegolmV1AesSha2,
        }
    }
}

/// The field names of encrypted content differ from one another.
proof fn lemma_content_keys_distinct()
    ensures
        "algorithm"@ != "ciphertext"@,
        "algorithm"@ != "sender_key"@,
        "algorithm"@ != "device_id"@,
        "algorithm"@ != "session_id"@,
        "ciphertext"@ != "sender_key"@,
        "ciphertext"@ != "device_id"@,
        "ciphertext"@ != "session_id"@,
        "sender_key"@ != "device_id"@,
        "sender_key"@ != "session_id"@,
        "device_id"@ != "session_id"@,
        "body"@ != "type"@,
{
    reveal_strlit("algorithm");
    reveal_strlit("ciphertext");
    reveal_strlit("sender_key");
    reveal_strlit("device_id");
    reveal_strlit("session_id");
    reveal_strlit("body");
    reveal_strlit("type");
    assert("algorithm"@[0] != "device_id"@[0]);
    assert("ciphertext"@[0] != "sender_key"@[0]);
    assert("ciphertext"@[0] != "session_id"@[0]);
    assert("sender_key"@[2] != "session_id"@[2]);
    assert("body"@[0] != "type"@[0]);
}

/// The algorithm that the wire name of a variant's tag is read as.
proof fn lemma_tag_read_back(t: String, a: Algorithm)
    requires
        a == Algorithm::OlmV1Curve25519AesSha2 || a == Algorithm::MegolmV1AesSha2,
        t@ == algorithm_text(a),
    ensures
        algorithm_of(t) == a,
{
    lemma_known_names();
}

proof fn lemma_info_round_trip(j: JsonValue, info: CiphertextInfo)
    requires
        info_json(j, info),
        info.message_type <= MAX_SAFE_UINT,
    ensures
        info_from_json(j) == Ok::<_, FieldError>(info),
{
    lemma_content_keys_distinct();
    let es = j->Object_0@;
    lemma_entry_first(es, "body"@, 0);
    lemma_entry_first(es, "type"@, 1);
}

proof fn lemma_infos_round_trip(cs: Seq<(String, JsonValue)>, infos: Seq<(String, CiphertextInfo)>)
    requires
        cs.len() == infos.len(),
        forall|i: int|
            0 <= i < cs.len() ==> {
                &&& (#[trigger] cs[i]).0 == infos[i].0
                &&& info_json(cs[i].1, infos[i].1)
                &&& infos[i].1.message_type <= MAX_SAFE_UINT
            },
    ensures
        infos_from_json(cs) == Ok::<_, FieldError>(infos),
    decreases cs.len(),
{
    if cs.len() > 0 {
        assert(cs[0].0 == infos[0].0);
        lemma_info_round_trip(cs[0].1, infos[0].1);
        let rest_cs = cs.drop_first();
        let rest_infos = infos.drop_first();
        assert forall|i: int| 0 <= i < rest_cs.len() implies {
            &&& (#[trigger] rest_cs[i]).0 == rest_infos[i].0
            &&& info_json(rest_cs[i].1, rest_infos[i].1)
            &&& rest_infos[i].1.message_type <= MAX_SAFE_UINT
        } by {
            assert(rest_cs[i] == cs[i + 1]);
        }
        lemma_infos_round_trip(rest_cs, rest_infos);
        assert(seq![(cs[0].0, infos[0].1)] + rest_infos =~= infos);
    } else {
        assert(infos =~= Seq::<(String, CiphertextInfo)>::empty());
    }
}

/// Decoding the encoding of well-formed content gives that content back.
pub proof fn lemma_content_round_trip(c: ContentView, j: JsonValue)
    requires
        c.wf(),
        content_json(j, c),
    ensures
        content_from_json(j) == Ok::<_, ContentError>(c),
{
    lemma_content_keys_distinct();
    let es = j->Object_0@;
    lemma_entry_first(es, "algorithm"@, 0);
    let t = es[0].1->String_0;
    lemma_tag_read_back(t, c.variant_algorithm());
    match c {
        ContentView::Olm(o) => {
            lemma_entry_first(es, "ciphertext"@, 1);
            lemma_entry_first(es, "sender_key"@, 2);
            let cs = es[1].1->Object_0@;
            assert forall|i: int| 0 <= i < cs.len() implies {
                &&& (#[trigger] cs[i]).0 == o.ciphertext[i].0
                &&& info_json(cs[i].1, o.ciphertext[i].1)
                &&& o.ciphertext[i].1.message_type <= MAX_SAFE_UINT
            } by {}
            assert forall|a: int, b: int| 0 <= a < b < cs.len() implies (#[trigger] cs[a]).0@
                != (#[trigger] cs[b]).0@ by {
                assert(o.ciphertext[a].0@ != o.ciphertext[b].0@);
            }
            lemma_infos_round_trip(cs, o.ciphertext);
        },
        ContentView::Megolm(m) => {
            lemma_entry_first(es, "ciphertext"@, 1);
            lemma_entry_first(es, "sender_key"@, 2);
            lemma_entry_first(es, "device_id"@, 3);
            lemma_entry_first(es, "session_id"@, 4);
        },
    }
}

proof fn lemma_infos_bounded(cs: Seq<(String, JsonValue)>)
    requires
        infos_from_json(cs) is Ok,
    ensures
        infos_from_json(cs)->Ok_0.len() == cs.len(),
        forall|i: int|
            0 <= i < cs.len() ==> #[trigger] infos_from_json(cs)->Ok_0[i].1.message_type
                <= MAX_SAFE_UINT,
        forall|i: int| 0 <= i < cs.len() ==> #[trigger] infos_from_json(cs)->Ok_0[i].0 == cs[i].0,
    decreases cs.len(),
{
    if cs.len() > 0 {
        lemma_infos_bounded(cs.drop_first());
        let rest = infos_from_json(cs.drop_first())->Ok_0;
        let all = infos_from_json(cs)->Ok_0;
        assert forall|i: int| 0 <= i < cs.len() implies #[trigger] all[i].1.message_type
            <= MAX_SAFE_UINT && all[i].0 == cs[i].0 by {
            if i > 0 {
                assert(all[i] == rest[i - 1]);
                assert(cs.drop_first()[i - 1] == cs[i]);
            }
        }
    }
}

/// Content decoded from JSON is well formed, and the JSON's `algorithm`
/// field holds the wire name of the decoded variant.
pub proof fn lemma_tag_matches_variant(j: JsonValue)
    requires
        content_from_json(j) is Ok,
    ensures
        content_from_json(j)->Ok_0.wf(),
        j.spec_get("algorithm"@) matches Some(v) && is_text(
            v,
            algorithm_text(content_from_json(j)->Ok_0.variant_algorithm()),
        ),
{
    lemma_known_names();
    let c = content_from_json(j)->Ok_0;
    match c {
        ContentView::Olm(o) => {
            let cs = j.spec_get("ciphertext"@)->Some_0->Object_0@;
            lemma_infos_bounded(cs);
            let infos = o.ciphertext;
            assert forall|a: int, b: int| 0 <= a < b < infos.len() implies (#[trigger] infos[a]).0@
                != (#[trigger] infos[b]).0@ by {
                assert(cs[a].0@ != cs[b].0@);
            }
        },
        ContentView::Megolm(_) => {},
    }
}

impl EncryptedEvent {
    /// Projects an event decoded from the wire onto the public type: absent
    /// unsigned data becomes the empty value.
    pub fn from_raw(raw: raw::EncryptedEvent) -> (r: EncryptedEvent)
        ensures
            r@ == project_event(raw@),
    {
        EncryptedEvent {
            content: EncryptedEventContent::from_raw(raw.content),
            event_id: raw.event_id,
            origin_server_ts: raw.origin_server_ts,
            room_id: raw.room_id,
            sender: raw.sender,
            unsigned: match raw.unsigned {
                Some(u) => u,
                None => UnsignedData::default(),
            },
        }
    }

    /// Decodes an event from a JSON object.
    pub fn from_json(j: &JsonValue) -> (r: Result<EncryptedEvent, EventError>)
        ensures
            match r {
                Ok(e) => event_from_json(*j) == Ok::<_, EventError>(e@),
                Err(e) => event_from_json(*j) == Err::<EventView, _>(e),
            },
    {
        match raw::EncryptedEvent::from_json(j) {
            Ok(r) => Ok(EncryptedEvent::from_raw(r)),
            Err(e) => Err(e),
        }
    }

    /// Encodes an event as a JSON object; the room ID is left out where
    /// absent and the unsigned data where empty.
    pub fn to_json(&self) -> (r: JsonValue)
        ensures
            event_json(r, self@),
    {
        let mut es: Vec<(String, JsonValue)> = Vec::new();
        es.push(entry("type", JsonValue::from_str_slice("m.room.encrypted")));
        es.push(entry("content", self.content.to_json()));
        es.push(entry("event_id", JsonValue::String(self.event_id.clone())));
        es.push(entry("origin_server_ts", JsonValue::Number(JsonNumber::PosInt(self.origin_server_ts))));
        es.push(entry("sender", JsonValue::String(self.sender.clone())));
        match &self.room_id {
            Some(r) => {
                es.push(entry("room_id", JsonValue::String(r.clone())));
            },
            None => {},
        }
        if !self.unsigned.is_empty() {
            es.push(entry("unsigned", self.unsigned.to_json()));
        }
        JsonValue::Object(es)
    }
}

impl Event<EncryptedEventContent> for EncryptedEvent {
    open spec fn spec_content(&self) -> EncryptedEventContent {
        self.content
    }

    open spec fn spec_event_type(&self) -> Seq<char> {
        "m.room.encrypted"@
    }

    fn content(&self) -> (r: &EncryptedEventContent) {
        &self.content
    }

    fn event_type(&self) -> (r: &'static str) {
        "m.room.encrypted"
    }
}

/// The field names of an event envelope differ from one another.
proof fn lemma_event_keys_distinct()
    ensures
        "type"@ != "content"@,
        "type"@ != "event_id"@,
        "type"@ != "origin_server_ts"@,
        "type"@ != "sender"@,
        "type"@ != "room_id"@,
        "type"@ != "unsigned"@,
        "content"@ != "event_id"@,
        "content"@ != "origin_server_ts"@,
        "content"@ != "sender"@,
        "content"@ != "room_id"@,
        "content"@ != "unsigned"@,
        "event_id"@ != "origin_server_ts"@,
        "event_id"@ != "sender"@,
        "event_id"@ != "room_id"@,
        "event_id"@ != "unsigned"@,
        "origin_server_ts"@ != "sender"@,
        "origin_server_ts"@ != "room_id"@,
        "origin_server_ts"@ != "unsigned"@,
        "sender"@ != "room_id"@,
        "sender"@ != "unsigned"@,
        "room_id"@ != "unsigned"@,
{
    reveal_strlit("type");
    reveal_strlit("content");
    reveal_strlit("event_id");
    reveal_strlit("origin_server_ts");
    reveal_strlit("sender");
    reveal_strlit("room_id");
    reveal_strlit("unsigned");
    assert("type"@.len() != "origin_server_ts"@.len());
    assert("type"@.len() != "sender"@.len());
    assert("content"@[0] != "room_id"@[0]);
    assert("event_id"@[0] != "unsigned"@[0]);
}

/// Decoding the encoding of a well-formed event gives that event back.
pub proof fn lemma_event_round_trip(e: EventView, j: JsonValue)
    requires
        e.wf(),
        event_json(j, e),
    ensures
        event_from_json(j) == Ok::<_, EventError>(e),
{
    lemma_event_keys_distinct();
    let es = j->Object_0@;
    lemma_entry_first(es, "content"@, 1);
    lemma_content_round_trip(e.content, es[1].1);
    lemma_entry_first(es, "event_id"@, 2);
    lemma_entry_first(es, "origin_server_ts"@, 3);
    lemma_entry_first(es, "sender"@, 4);
    match e.room_id {
        Some(r) => {
            lemma_entry_first(es, "room_id"@, 5);
        },
        None => {
            assert forall|k: int| 0 <= k < es.len() implies (#[trigger] es[k]).0@ != "room_id"@ by {}
            lemma_entry_absent(es, "room_id"@);
        },
    }
    if e.unsigned != empty_unsigned() {
        lemma_entry_first(es, "unsigned"@, es.len() - 1);
        lemma_unsigned_round_trip(es[es.len() - 1].1, e.unsigned);
    } else {
        assert forall|k: int| 0 <= k < es.len() implies (#[trigger] es[k]).0@ != "unsigned"@ by {}
        lemma_entry_absent(es, "unsigned"@);
    }
}

/// An event decoded from JSON without `unsigned` holds empty unsigned data,
/// and one decoded without `room_id` holds no room ID.
pub proof fn lemma_envelope_optionality(j: JsonValue)
    requires
        event_from_json(j) is Ok,
    ensures
        j.spec_get("unsigned"@) is None ==> event_from_json(j)->Ok_0.unsigned == empty_unsigned(),
        j.spec_get("room_id"@) is None ==> event_from_json(j)->Ok_0.room_id is None,
{
}

} // verus!
