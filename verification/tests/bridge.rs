use chat_bridge::bridge::{
    Bridge, ConnectionState, Delivery, InboundEvent, Reaction, ERROR_PAUSE_MILLIS,
};
use chat_bridge::completion::{CompletionError, CompletionRequest};
use chat_bridge::config::BridgeConfig;
use chat_bridge::message::{ConversationMessage, Role};
use chat_bridge::session::Qos;

fn config(max_history: usize, max_message_length: usize) -> BridgeConfig {
    BridgeConfig::new(
        "broker.test".to_string(),
        1883,
        "bridge".to_string(),
        "/in".to_string(),
        "/out".to_string(),
        "model-x".to_string(),
        "key".to_string(),
        "https://example.test/v1".to_string(),
        max_history,
        max_message_length,
    )
}

fn published(topic: &str, payload: &[u8]) -> InboundEvent {
    InboundEvent::MessagePublished { topic: topic.to_string(), payload: payload.to_vec() }
}

fn assistant(text: &str) -> ConversationMessage {
    ConversationMessage::new(Role::Assistant, text.to_string())
}

#[test]
fn new_bridge_is_disconnected_and_silent() {
    let bridge = Bridge::new(config(10, 500));
    assert_eq!(bridge.connection(), ConnectionState::Disconnected);
    assert_eq!(bridge.history_len(), 0);
    assert_eq!(bridge.transcript(), vec![]);
    assert_eq!(bridge.config(), &config(10, 500));
}

#[test]
fn connection_established_moves_to_connected() {
    let bridge = Bridge::new(config(10, 500));
    let (bridge, reaction) = bridge.on_event(InboundEvent::ConnectionEstablished);
    assert_eq!(reaction, Reaction::Connected);
    assert_eq!(bridge.connection(), ConnectionState::Connected);
    assert_eq!(bridge.history_len(), 0);
    let (bridge, reaction) = bridge.on_event(InboundEvent::ConnectionEstablished);
    assert_eq!(reaction, Reaction::Connected);
    assert_eq!(bridge.connection(), ConnectionState::Connected);
}

#[test]
fn successful_exchange_records_two_turns_and_publishes_once() {
    let bridge = Bridge::new(config(10, 500));
    let (bridge, _) = bridge.on_event(InboundEvent::ConnectionEstablished);

    let (bridge, reaction) = bridge.on_event(published("/in", b"hello"));
    let expected_request = CompletionRequest::new(vec![assistant("hello")], "model-x");
    assert_eq!(
        reaction,
        Reaction::Complete { heard: "hello".to_string(), request: expected_request }
    );
    assert_eq!(bridge.history_len(), 1);

    let (bridge, delivery) = bridge.on_completion(Ok("ok".to_string()));
    assert_eq!(
        delivery,
        Delivery::Publish {
            topic: "/out".to_string(),
            payload: "ok".to_string(),
            qos: Qos::AtMostOnce,
            retain: false,
        }
    );
    assert_eq!(bridge.history_len(), 2);
    assert_eq!(bridge.transcript(), vec![assistant("hello"), assistant("ok")]);
    assert_eq!(bridge.connection(), ConnectionState::Connected);
}

#[test]
fn empty_choice_records_only_the_inbound_turn_and_the_bridge_goes_on() {
    let bridge = Bridge::new(config(10, 500));
    let (bridge, _) = bridge.on_event(InboundEvent::ConnectionEstablished);

    let (bridge, reaction) = bridge.on_event(published("/in", b"first"));
    assert!(matches!(reaction, Reaction::Complete { .. }));
    let (bridge, delivery) = bridge.on_completion(Err(CompletionError::EmptyChoice));
    assert_eq!(delivery, Delivery::Abandoned { error: CompletionError::EmptyChoice });
    assert_eq!(bridge.history_len(), 1);
    assert_eq!(bridge.transcript(), vec![assistant("first")]);
    assert_eq!(bridge.connection(), ConnectionState::Connected);

    // The next inbound message is handled as usual, with the failed turn as context.
    let (bridge, reaction) = bridge.on_event(published("/in", b"second"));
    assert_eq!(
        reaction,
        Reaction::Complete {
            heard: "second".to_string(),
            request: CompletionRequest::new(
                vec![assistant("first"), assistant("second")],
                "model-x"
            ),
        }
    );
    let (bridge, delivery) = bridge.on_completion(Ok("reply".to_string()));
    assert!(matches!(delivery, Delivery::Publish { .. }));
    assert_eq!(
        bridge.transcript(),
        vec![assistant("first"), assistant("second"), assistant("reply")]
    );
}

#[test]
fn other_completion_failures_are_abandoned_too() {
    let bridge = Bridge::new(config(10, 500));
    let (bridge, _) = bridge.on_event(published("/in", b"hi"));
    let (bridge, delivery) = bridge.on_completion(Err(CompletionError::NoContent));
    assert_eq!(delivery, Delivery::Abandoned { error: CompletionError::NoContent });
    let failure = CompletionError::Transport { detail: "timeout".to_string() };
    let (bridge, delivery) = bridge.on_completion(Err(failure.clone()));
    assert_eq!(delivery, Delivery::Abandoned { error: failure });
    assert_eq!(bridge.transcript(), vec![assistant("hi")]);
}

#[test]
fn message_on_an_unrelated_topic_is_ignored() {
    let bridge = Bridge::new(config(10, 500));
    let (bridge, _) = bridge.on_event(InboundEvent::ConnectionEstablished);
    let (bridge, reaction) = bridge.on_event(published("/elsewhere", b"hello"));
    assert_eq!(reaction, Reaction::Ignored { topic: "/elsewhere".to_string() });
    assert_eq!(bridge.history_len(), 0);
    assert_eq!(bridge.transcript(), vec![]);
    assert_eq!(bridge.connection(), ConnectionState::Connected);
}

#[test]
fn topic_must_match_exactly() {
    let bridge = Bridge::new(config(10, 500));
    let (bridge, reaction) = bridge.on_event(published("/in/", b"x"));
    assert_eq!(reaction, Reaction::Ignored { topic: "/in/".to_string() });
    let (bridge, reaction) = bridge.on_event(published("/IN", b"x"));
    assert_eq!(reaction, Reaction::Ignored { topic: "/IN".to_string() });
    let (bridge, reaction) = bridge.on_event(published("/out", b"x"));
    assert_eq!(reaction, Reaction::Ignored { topic: "/out".to_string() });
    assert_eq!(bridge.history_len(), 0);
}

#[test]
fn transport_error_asks_for_a_pause_and_changes_nothing() {
    let bridge = Bridge::new(config(10, 500));
    let (bridge, _) = bridge.on_event(InboundEvent::ConnectionEstablished);
    let (bridge, _) = bridge.on_event(published("/in", b"kept"));
    let (bridge, reaction) =
        bridge.on_event(InboundEvent::TransportError { detail: "reset".to_string() });
    assert_eq!(reaction, Reaction::Pause { detail: "reset".to_string(), millis: 100 });
    assert_eq!(ERROR_PAUSE_MILLIS, 100);
    assert_eq!(bridge.transcript(), vec![assistant("kept")]);
    assert_eq!(bridge.connection(), ConnectionState::Connected);
}

#[test]
fn other_events_are_passed_over() {
    let bridge = Bridge::new(config(10, 500));
    let (bridge, reaction) = bridge.on_event(InboundEvent::Other);
    assert_eq!(reaction, Reaction::Nothing);
    assert_eq!(bridge.history_len(), 0);
    assert_eq!(bridge.connection(), ConnectionState::Disconnected);
}

#[test]
fn inbound_text_and_reply_are_cut_to_the_message_length() {
    let bridge = Bridge::new(config(10, 10));
    let (bridge, reaction) = bridge.on_event(published("/in", b"hello world"));
    assert_eq!(
        reaction,
        Reaction::Complete {
            heard: "hello w...".to_string(),
            request: CompletionRequest::new(vec![assistant("hello w...")], "model-x"),
        }
    );
    let (bridge, delivery) = bridge.on_completion(Ok("a rather long reply".to_string()));
    assert_eq!(
        delivery,
        Delivery::Publish {
            topic: "/out".to_string(),
            payload: "a rathe...".to_string(),
            qos: Qos::AtMostOnce,
            retain: false,
        }
    );
    assert_eq!(bridge.transcript(), vec![assistant("hello w..."), assistant("a rathe...")]);
}

#[test]
fn transcript_stays_within_its_bound() {
    let mut bridge = Bridge::new(config(3, 500));
    for i in 0..5 {
        let text = format!("M{}", i + 1);
        let (next, reaction) = bridge.on_event(published("/in", text.as_bytes()));
        assert!(matches!(reaction, Reaction::Complete { .. }));
        assert!(next.history_len() <= 3);
        bridge = next;
    }
    assert_eq!(bridge.transcript(), vec![assistant("M3"), assistant("M4"), assistant("M5")]);
    let (bridge, _) = bridge.on_completion(Ok("R".to_string()));
    assert_eq!(bridge.transcript(), vec![assistant("M4"), assistant("M5"), assistant("R")]);
    assert_eq!(bridge.history_len(), 3);
}

#[test]
fn request_holds_the_transcript_after_eviction() {
    let bridge = Bridge::new(config(2, 500));
    let (bridge, _) = bridge.on_event(published("/in", b"a"));
    let (bridge, _) = bridge.on_completion(Ok("b".to_string()));
    let (_, reaction) = bridge.on_event(published("/in", b"c"));
    assert_eq!(
        reaction,
        Reaction::Complete {
            heard: "c".to_string(),
            request: CompletionRequest::new(vec![assistant("b"), assistant("c")], "model-x"),
        }
    );
}

#[test]
fn payload_is_read_as_utf8() {
    let bridge = Bridge::new(config(10, 500));
    let (bridge, reaction) = bridge.on_event(published("/in", "gr\u{fc}\u{df}e".as_bytes()));
    assert!(matches!(reaction, Reaction::Complete { ref heard, .. } if heard == "gr\u{fc}\u{df}e"));
    assert_eq!(bridge.transcript(), vec![assistant("gr\u{fc}\u{df}e")]);
}

#[test]
fn malformed_payload_bytes_are_replaced() {
    let bridge = Bridge::new(config(10, 500));
    let (bridge, reaction) = bridge.on_event(published("/in", &[b'a', 0xff, b'b']));
    assert!(matches!(reaction, Reaction::Complete { ref heard, .. } if heard == "a\u{fffd}b"));
    assert_eq!(bridge.transcript(), vec![assistant("a\u{fffd}b")]);
}

#[test]
fn on_message_takes_text_directly() {
    let bridge = Bridge::new(config(10, 500));
    let (bridge, reaction) = bridge.on_message("/in", "hello");
    assert_eq!(
        reaction,
        Reaction::Complete {
            heard: "hello".to_string(),
            request: CompletionRequest::new(vec![assistant("hello")], "model-x"),
        }
    );
    let (bridge, reaction) = bridge.on_message("/other", "hello");
    assert_eq!(reaction, Reaction::Ignored { topic: "/other".to_string() });
    assert_eq!(bridge.history_len(), 1);
}

#[test]
fn message_before_the_connection_is_reported_is_still_handled() {
    let bridge = Bridge::new(config(10, 500));
    let (bridge, reaction) = bridge.on_event(published("/in", b"early"));
    assert!(matches!(reaction, Reaction::Complete { .. }));
    assert_eq!(bridge.connection(), ConnectionState::Disconnected);
    assert_eq!(bridge.history_len(), 1);
}

#[test]
fn bridge_without_history_records_nothing() {
    let bridge = Bridge::new(config(0, 500));
    let (bridge, reaction) = bridge.on_event(published("/in", b"hello"));
    assert_eq!(
        reaction,
        Reaction::Complete {
            heard: "hello".to_string(),
            request: CompletionRequest::new(vec![], "model-x"),
        }
    );
    assert_eq!(bridge.history_len(), 0);
}
