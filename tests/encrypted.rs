use ruma_events::algorithm::Algorithm;
use ruma_events::event::Event;
use ruma_events::fields::{Field, FieldError, Problem};
use ruma_events::json::{JsonNumber, JsonValue};
use ruma_events::room::encrypted::raw;
use ruma_events::room::encrypted::{
    CiphertextInfo, ContentError, EncryptedEvent, EncryptedEventContent, EventError,
    MegolmV1AesSha2Content, OlmV1Curve25519AesSha2Content,
};
use ruma_events::unsigned::UnsignedData;

fn text(s: &str) -> JsonValue {
    JsonValue::String(s.to_string())
}

fn uint(n: u64) -> JsonValue {
    JsonValue::Number(JsonNumber::PosInt(n))
}

fn obj(entries: Vec<(&str, JsonValue)>) -> JsonValue {
    JsonValue::Object(entries.into_iter().map(|(k, v)| (k.to_string(), v)).collect())
}

fn megolm_json() -> JsonValue {
    obj(vec![
        ("algorithm", text("m.megolm.v1.aes-sha2")),
        ("ciphertext", text("ciphertext")),
        ("sender_key", text("sender_key")),
        ("device_id", text("device_id")),
        ("session_id", text("session_id")),
    ])
}

fn olm_json() -> JsonValue {
    obj(vec![
        ("sender_key", text("test_key")),
        (
            "ciphertext",
            obj(vec![(
                "test_curve_key",
                obj(vec![("body", text("encrypted_body")), ("type", uint(1))]),
            )]),
        ),
        ("algorithm", text("m.olm.v1.curve25519-aes-sha2")),
    ])
}

fn megolm_content() -> EncryptedEventContent {
    EncryptedEventContent::MegolmV1AesSha2(MegolmV1AesSha2Content {
        ciphertext: "ciphertext".to_string(),
        sender_key: "sender_key".to_string(),
        device_id: "device_id".to_string(),
        session_id: "session_id".to_string(),
    })
}

fn event_json(extra: Vec<(&str, JsonValue)>) -> JsonValue {
    let mut entries = vec![
        ("content", megolm_json()),
        ("event_id", text("$143273582443PhrSn:example.org")),
        ("origin_server_ts", uint(1432735824653)),
        ("sender", text("@example:example.org")),
        ("type", text("m.room.encrypted")),
    ];
    entries.extend(extra);
    obj(entries)
}

#[test]
fn serialization() {
    let key_verification_start_content = megolm_content();
    let json_data = megolm_json();
    assert_eq!(key_verification_start_content.to_json(), json_data);
}

#[test]
fn deserialization() {
    let json_data = megolm_json();
    let content = EncryptedEventContent::from_json(&json_data).unwrap();
    assert_eq!(content.algorithm(), Algorithm::MegolmV1AesSha2);
    match content {
        EncryptedEventContent::MegolmV1AesSha2(MegolmV1AesSha2Content {
            ciphertext,
            sender_key,
            device_id,
            session_id,
        }) => {
            assert!(
                ciphertext == "ciphertext"
                    && sender_key == "sender_key"
                    && device_id == "device_id"
                    && session_id == "session_id"
            );
        }
        _ => panic!("expected Megolm content"),
    }
}

#[test]
fn deserialization_olm() {
    let json_data = olm_json();
    let content = EncryptedEventContent::from_json(&json_data).unwrap();
    assert_eq!(content.algorithm(), Algorithm::OlmV1Curve25519AesSha2);
    match content {
        EncryptedEventContent::OlmV1Curve25519AesSha2(c) => {
            assert_eq!(c.sender_key, "test_key");
            assert_eq!(c.ciphertext().len(), 1);
            assert_eq!(c.ciphertext()[0].0, "test_curve_key");
            assert_eq!(c.ciphertext()[0].1.body, "encrypted_body");
            assert_eq!(c.ciphertext()[0].1.message_type, 1);
        }
        _ => panic!("Wrong content type, expected a OlmV1 content"),
    }
}

#[test]
fn deserialization_failure() {
    assert!(EncryptedEventContent::from_json(&obj(vec![(
        "algorithm",
        text("m.megolm.v1.aes-sha2")
    )]))
    .is_err());
}

#[test]
fn missing_discriminator() {
    assert_eq!(
        EncryptedEventContent::from_json(&obj(vec![])),
        Err(ContentError::MissingDiscriminator)
    );
    assert_eq!(
        EncryptedEventContent::from_json(&JsonValue::Null),
        Err(ContentError::MissingDiscriminator)
    );
}

#[test]
fn invalid_discriminator() {
    assert_eq!(
        EncryptedEventContent::from_json(&obj(vec![("algorithm", uint(3))])),
        Err(ContentError::InvalidDiscriminator)
    );
}

#[test]
fn unsupported_discriminator() {
    assert_eq!(
        EncryptedEventContent::from_json(&obj(vec![("algorithm", text("m.custom.unknown"))])),
        Err(ContentError::UnsupportedDiscriminator("m.custom.unknown".to_string()))
    );
}

#[test]
fn partial_megolm_names_its_tag() {
    assert_eq!(
        EncryptedEventContent::from_json(&obj(vec![("algorithm", text("m.megolm.v1.aes-sha2"))])),
        Err(ContentError::VariantDecodeFailure(
            Algorithm::MegolmV1AesSha2,
            FieldError { field: Field::Ciphertext, problem: Problem::Missing }
        ))
    );
}

#[test]
fn olm_ciphertext_of_wrong_kind() {
    let j = obj(vec![
        ("algorithm", text("m.olm.v1.curve25519-aes-sha2")),
        ("ciphertext", text("not an object")),
        ("sender_key", text("k")),
    ]);
    assert_eq!(
        EncryptedEventContent::from_json(&j),
        Err(ContentError::VariantDecodeFailure(
            Algorithm::OlmV1Curve25519AesSha2,
            FieldError { field: Field::Ciphertext, problem: Problem::WrongType }
        ))
    );
}

#[test]
fn olm_message_type_out_of_range() {
    let j = obj(vec![
        ("algorithm", text("m.olm.v1.curve25519-aes-sha2")),
        (
            "ciphertext",
            obj(vec![("key", obj(vec![("body", text("b")), ("type", uint(1u64 << 53))]))]),
        ),
        ("sender_key", text("k")),
    ]);
    assert_eq!(
        EncryptedEventContent::from_json(&j),
        Err(ContentError::VariantDecodeFailure(
            Algorithm::OlmV1Curve25519AesSha2,
            FieldError { field: Field::MessageType, problem: Problem::OutOfRange }
        ))
    );
    let largest = obj(vec![("body", text("b")), ("type", uint((1u64 << 53) - 1))]);
    assert_eq!(CiphertextInfo::from_json(&largest).unwrap().message_type, (1u64 << 53) - 1);
}

#[test]
fn megolm_scenario_round_trips() {
    let decoded = EncryptedEventContent::from_json(&megolm_json()).unwrap();
    assert_eq!(decoded, megolm_content());
    assert_eq!(decoded.to_json(), megolm_json());
}

#[test]
fn olm_round_trip() {
    let olm = OlmV1Curve25519AesSha2Content::new(
        vec![
            ("a".to_string(), CiphertextInfo { body: "x".to_string(), message_type: 0 }),
            ("b".to_string(), CiphertextInfo { body: "y".to_string(), message_type: 1 }),
        ],
        "sk".to_string(),
    )
    .unwrap();
    let content = EncryptedEventContent::OlmV1Curve25519AesSha2(olm);
    let encoded = content.to_json();
    assert_eq!(encoded.get("algorithm"), Some(&text("m.olm.v1.curve25519-aes-sha2")));
    assert_eq!(EncryptedEventContent::from_json(&encoded), Ok(content));
}

#[test]
fn tag_follows_variant() {
    let decoded = EncryptedEventContent::from_json(&olm_json()).unwrap();
    assert_eq!(decoded.algorithm(), Algorithm::OlmV1Curve25519AesSha2);
    assert_eq!(decoded.to_json().get("algorithm"), Some(&text("m.olm.v1.curve25519-aes-sha2")));
}

#[test]
fn raw_content_projects_unchanged() {
    let raw_content = raw::EncryptedEventContent::from_json(&megolm_json()).unwrap();
    assert_eq!(EncryptedEventContent::from_raw(raw_content), megolm_content());
}

#[test]
fn envelope_without_optional_fields() {
    let event = EncryptedEvent::from_json(&event_json(vec![])).unwrap();
    assert_eq!(event.unsigned, UnsignedData::default());
    assert_eq!(event.room_id, None);
    assert_eq!(event.origin_server_ts, 1432735824653);
    assert_eq!(event.event_type(), "m.room.encrypted");
    assert_eq!(event.content(), &megolm_content());
    let raw_event = raw::EncryptedEvent::from_json(&event_json(vec![])).unwrap();
    assert_eq!(raw_event.unsigned, None);
}

#[test]
fn envelope_round_trip() {
    let j = event_json(vec![
        ("room_id", text("!room:example.org")),
        (
            "unsigned",
            obj(vec![("age", JsonValue::Number(JsonNumber::NegInt(-5))), ("transaction_id", text("t1"))]),
        ),
    ]);
    let event = EncryptedEvent::from_json(&j).unwrap();
    assert_eq!(event.room_id, Some("!room:example.org".to_string()));
    assert_eq!(
        event.unsigned,
        UnsignedData { age: Some(-5), transaction_id: Some("t1".to_string()) }
    );
    let again = EncryptedEvent::from_json(&j).unwrap();
    assert_eq!(EncryptedEvent::from_json(&event.to_json()), Ok(again));
}

#[test]
fn envelope_errors_are_kept_apart() {
    let bad_content = obj(vec![
        ("content", obj(vec![])),
        ("event_id", text("$1:example.org")),
        ("origin_server_ts", uint(1)),
        ("sender", text("@a:example.org")),
    ]);
    assert_eq!(
        EncryptedEvent::from_json(&bad_content),
        Err(EventError::ContentDecodeFailure(ContentError::MissingDiscriminator))
    );
    let bad_sender = obj(vec![
        ("content", megolm_json()),
        ("event_id", text("$1:example.org")),
        ("origin_server_ts", uint(1)),
        ("sender", text("no sigil")),
    ]);
    assert_eq!(
        EncryptedEvent::from_json(&bad_sender),
        Err(EventError::EnvelopeDecodeFailure(FieldError {
            field: Field::Sender,
            problem: Problem::InvalidIdentifier
        }))
    );
    let bad_event_id = obj(vec![
        ("content", megolm_json()),
        ("event_id", text("1:example.org")),
        ("origin_server_ts", uint(1)),
        ("sender", text("@a:example.org")),
    ]);
    assert_eq!(
        EncryptedEvent::from_json(&bad_event_id),
        Err(EventError::EnvelopeDecodeFailure(FieldError {
            field: Field::EventId,
            problem: Problem::InvalidIdentifier
        }))
    );
    let bad_room = event_json(vec![("room_id", text("#alias:example.org"))]);
    assert_eq!(
        EncryptedEvent::from_json(&bad_room),
        Err(EventError::EnvelopeDecodeFailure(FieldError {
            field: Field::RoomId,
            problem: Problem::InvalidIdentifier
        }))
    );
    let no_ts = obj(vec![("content", megolm_json()), ("event_id", text("$1:example.org"))]);
    assert_eq!(
        EncryptedEvent::from_json(&no_ts),
        Err(EventError::EnvelopeDecodeFailure(FieldError {
            field: Field::OriginServerTs,
            problem: Problem::Missing
        }))
    );
    let big_age = event_json(vec![("unsigned", obj(vec![("age", uint(1u64 << 53))]))]);
    assert_eq!(
        EncryptedEvent::from_json(&big_age),
        Err(EventError::EnvelopeDecodeFailure(FieldError {
            field: Field::Age,
            problem: Problem::OutOfRange
        }))
    );
}

#[test]
fn olm_repeated_recipient_key() {
    let info = || obj(vec![("body", text("b")), ("type", uint(0))]);
    let j = obj(vec![
        ("algorithm", text("m.olm.v1.curve25519-aes-sha2")),
        ("ciphertext", obj(vec![("k", info()), ("k", info())])),
        ("sender_key", text("s")),
    ]);
    assert_eq!(
        EncryptedEventContent::from_json(&j),
        Err(ContentError::VariantDecodeFailure(
            Algorithm::OlmV1Curve25519AesSha2,
            FieldError { field: Field::Ciphertext, problem: Problem::RepeatedKey }
        ))
    );
}

#[test]
fn message_type_must_be_an_integer() {
    let j = obj(vec![
        ("body", text("b")),
        ("type", JsonValue::Number(JsonNumber::Float("1.5".to_string()))),
    ]);
    assert_eq!(
        CiphertextInfo::from_json(&j),
        Err(FieldError { field: Field::MessageType, problem: Problem::WrongType })
    );
    let negative = obj(vec![("body", text("b")), ("type", JsonValue::Number(JsonNumber::NegInt(-1)))]);
    assert_eq!(
        CiphertextInfo::from_json(&negative),
        Err(FieldError { field: Field::MessageType, problem: Problem::OutOfRange })
    );
    let zero = obj(vec![("body", text("b")), ("type", JsonValue::Number(JsonNumber::NegInt(0)))]);
    assert_eq!(CiphertextInfo::from_json(&zero).unwrap().message_type, 0);
}

#[test]
fn unsigned_age_bounds() {
    let smallest = obj(vec![("age", JsonValue::Number(JsonNumber::NegInt(-((1i64 << 53) - 1))))]);
    assert_eq!(UnsignedData::from_json(&smallest).unwrap().age, Some(-((1i64 << 53) - 1)));
    let too_small = obj(vec![("age", JsonValue::Number(JsonNumber::NegInt(-(1i64 << 53))))]);
    assert_eq!(
        UnsignedData::from_json(&too_small),
        Err(FieldError { field: Field::Age, problem: Problem::OutOfRange })
    );
    let null_age = obj(vec![("age", JsonValue::Null)]);
    assert_eq!(UnsignedData::from_json(&null_age).unwrap(), UnsignedData::default());
    assert_eq!(
        UnsignedData::from_json(&JsonValue::Null),
        Err(FieldError { field: Field::Unsigned, problem: Problem::WrongType })
    );
}

#[test]
fn algorithm_names() {
    assert_eq!(
        Algorithm::from_name("m.olm.v1.curve25519-aes-sha2".to_string()),
        Algorithm::OlmV1Curve25519AesSha2
    );
    assert_eq!(Algorithm::MegolmV1AesSha2.as_str(), "m.megolm.v1.aes-sha2");
    assert_eq!(
        Algorithm::from_name("m.custom".to_string()),
        Algorithm::Custom("m.custom".to_string())
    );
}

#[test]
fn olm_content_rejects_broken_recipients() {
    let info = |n: u64| CiphertextInfo { body: "b".to_string(), message_type: n };
    assert!(OlmV1Curve25519AesSha2Content::new(
        vec![("k".to_string(), info(0)), ("k".to_string(), info(1))],
        "s".to_string()
    )
    .is_none());
    assert!(OlmV1Curve25519AesSha2Content::new(
        vec![("k".to_string(), info(1u64 << 53))],
        "s".to_string()
    )
    .is_none());
    let largest = OlmV1Curve25519AesSha2Content::new(
        vec![("k".to_string(), info((1u64 << 53) - 1)), ("l".to_string(), info(0))],
        "s".to_string(),
    )
    .unwrap();
    assert_eq!(largest.ciphertext().len(), 2);
    assert_eq!(largest.sender_key, "s");
}
