use forgeflow::triggers::event::TEvent;
use forgeflow::triggers::gmail_watch_trigger::GmailWatchTrigger;
use forgeflow::triggers::poll_trigger::PollTriggerBuilder;
use forgeflow::triggers::telegram_bot_trigger::{TelegramBotTrigger, TelegramBotTriggerBuilder};
use forgeflow::triggers::event::decimal_string;
use forgeflow::triggers::{trigger_transition, TriggerError, TriggerState, TriggerWakeup};

#[test]
fn poll_trigger_builder_configures_trigger() {
    let trigger = PollTriggerBuilder::new("TestEvent", 50).build();
    assert_eq!(trigger.event_name, "TestEvent");
    assert_eq!(trigger.interval, 50);
    // by default the first event comes only after one full interval
    assert!(!trigger.hot_start);

    let hot = PollTriggerBuilder::new("TestEvent", 50)
        .with_hot_start(true)
        .build();
    assert!(hot.hot_start);
}

#[test]
fn poll_trigger_tick_emits_named_event() {
    let trigger = PollTriggerBuilder::new("TestEvent", 50).build();
    let event = trigger.tick_event();
    assert_eq!(event.name, "TestEvent");
    assert!(event.payload.is_none());
}

#[test]
fn test_builder_with_token() {
    let builder = TelegramBotTriggerBuilder::new().with_token("test_token");
    let trigger = builder.build();
    assert!(trigger.is_ok());
    assert_eq!(trigger.unwrap().token, "test_token");
}

#[test]
fn test_builder_fails_without_token() {
    let builder = TelegramBotTriggerBuilder::new();
    let trigger_result = builder.build();
    assert!(trigger_result.is_err());
    match trigger_result {
        Err(TriggerError::ActivationError) => {
            // Correct error type
        }
        _ => panic!("Expected ActivationError"),
    }
}

#[test]
fn new_email_event_carries_message() {
    let event = GmailWatchTrigger::new_email_event("{\"id\":\"m1\"}".to_string());
    assert_eq!(event.name, "NewEmail");
    assert_eq!(event.payload.as_deref(), Some("{\"id\":\"m1\"}"));
}

#[test]
fn event_json_projection_is_exact() {
    let with_payload = TEvent {
        name: "NewEmail".to_string(),
        payload: Some("{\"id\":\"m1\"}".to_string()),
    };
    assert_eq!(
        with_payload.to_json(),
        "{\"name\":\"NewEmail\",\"payload\":{\"id\":\"m1\"}}"
    );

    let without_payload = TEvent {
        name: "Tick".to_string(),
        payload: None,
    };
    assert_eq!(without_payload.to_json(), "{\"name\":\"Tick\",\"payload\":null}");
}

#[test]
fn event_json_escapes_reserved_characters() {
    let event = TEvent {
        name: "a\"b\\c\nd".to_string(),
        payload: None,
    };
    assert_eq!(
        event.to_json(),
        "{\"name\":\"a\\\"b\\\\c\\nd\",\"payload\":null}"
    );
}

#[test]
fn decimal_rendering_is_exact() {
    assert_eq!(decimal_string(0), "0");
    assert_eq!(decimal_string(7), "7");
    assert_eq!(decimal_string(42), "42");
    assert_eq!(decimal_string(-1), "-1");
    assert_eq!(decimal_string(1234567890123), "1234567890123");
    assert_eq!(decimal_string(i64::MAX), "9223372036854775807");
    assert_eq!(decimal_string(i64::MIN), "-9223372036854775808");
}

#[test]
fn telegram_message_event_carries_exact_payload() {
    let event =
        TelegramBotTrigger::message_event(7, -100123, Some("ada"), "Ada", "hello there", 1700000000);
    assert_eq!(event.name, "TelegramMessage");
    assert_eq!(
        event.payload.as_deref(),
        Some(
            "{\"message_id\":7,\"chat_id\":-100123,\"username\":\"ada\",\"first_name\":\"Ada\",\"text\":\"hello there\",\"date\":1700000000}"
        )
    );

    let anonymous = TelegramBotTrigger::message_event(1, 5, None, "X", "hi", 0);
    assert_eq!(
        anonymous.payload.as_deref(),
        Some("{\"message_id\":1,\"chat_id\":5,\"username\":null,\"first_name\":\"X\",\"text\":\"hi\",\"date\":0}")
    );
}

#[test]
fn trigger_stops_exactly_on_shutdown_or_closed_sink() {
    let running = TriggerState::Running;
    assert_eq!(
        trigger_transition(running, TriggerWakeup::Shutdown),
        TriggerState::Stopped
    );
    assert_eq!(
        trigger_transition(running, TriggerWakeup::SinkClosed),
        TriggerState::Stopped
    );
    assert_eq!(
        trigger_transition(running, TriggerWakeup::SourceReady),
        TriggerState::Running
    );
    // a stopped trigger never runs again
    assert_eq!(
        trigger_transition(TriggerState::Stopped, TriggerWakeup::SourceReady),
        TriggerState::Stopped
    );
}
