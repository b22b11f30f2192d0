use ruma_events::event::Event;
use ruma_events::presence::{Presence, PresenceContent, PresenceState};

#[test]
fn presence_event_type_and_content() {
    let event = Presence {
        content: PresenceContent {
            avatar_url: None,
            displayname: Some("Alice"),
            last_active_ago: Some(2478593),
            presence: PresenceState::Online,
        },
        event_id: "$143273582443PhrSn:example.org",
    };
    assert_eq!(event.event_type(), "m.presence");
    assert_eq!(event.content().presence, PresenceState::Online);
    assert_eq!(event.content().displayname, Some("Alice"));
}
