use trade_locker_connector::brand_socket::callback::{
    is_sync_end, notify, BrandSocketApiEventHandler, BrandSocketApiInner, SessionAction, SessionState,
    TimeoutError, WaitStep, SYNC_POLL_MILLIS,
};
use trade_locker_connector::brand_socket::models::{
    BrandSocketEvent, BrandSocketEventDeserializeErr, BrandSocketEventDeserialized, ConnectionErrorMessage,
    PropertyMessage,
};
use std::sync::Mutex;

fn property(name: &str) -> BrandSocketEvent {
    BrandSocketEvent::Property(PropertyMessage { name: name.to_string() })
}

fn received(event: BrandSocketEvent) -> BrandSocketEventDeserialized {
    BrandSocketEventDeserialized { result: Ok(event) }
}

fn sync_end() -> BrandSocketEventDeserialized {
    received(property("SyncEnd"))
}

#[test]
fn new_session_is_disconnected() {
    let inner = BrandSocketApiInner::new();
    assert_eq!(inner.get_state(), SessionState::Disconnected);
    assert!(!inner.is_connected());
    assert!(!inner.is_synced());
    assert_eq!(inner.get_last_event_timestamp(), None);
}

#[test]
fn first_handshake_notifies_the_consumer() {
    let mut inner = BrandSocketApiInner::new();
    assert_eq!(inner.on_connect(7), vec![SessionAction::NotifyConnected]);
    assert_eq!(inner.get_state(), SessionState::Connected { connection: 7, synced: false });
    assert!(inner.is_connected());
    assert!(!inner.is_synced());
}

#[test]
fn second_handshake_closes_the_first_connection() {
    let mut inner = BrandSocketApiInner::new();
    inner.on_connect(1);
    inner.on_event(sync_end(), 10);
    let actions = inner.on_connect(2);
    assert_eq!(actions, vec![SessionAction::Disconnect(1), SessionAction::NotifyConnected]);
    assert_eq!(inner.get_state(), SessionState::Connected { connection: 2, synced: false });
}

#[test]
fn sync_end_of_an_earlier_connection_does_not_count() {
    let mut inner = BrandSocketApiInner::new();
    inner.on_connect(1);
    inner.on_event(sync_end(), 10);
    assert!(inner.is_synced());
    inner.on_disconnect(1);
    assert!(!inner.is_synced());
    inner.on_connect(2);
    assert!(inner.is_connected());
    assert!(!inner.is_synced());
    inner.on_event(sync_end(), 20);
    assert!(inner.is_synced());
}

#[test]
fn sync_end_without_a_connection_does_not_count() {
    let mut inner = BrandSocketApiInner::new();
    let actions = inner.on_event(sync_end(), 10);
    assert_eq!(actions, vec![SessionAction::Deliver(property("SyncEnd"))]);
    assert_eq!(inner.get_state(), SessionState::Disconnected);
    inner.on_connect(1);
    assert!(!inner.is_synced());
}

#[test]
fn lost_connection_notifies_the_consumer() {
    let mut inner = BrandSocketApiInner::new();
    inner.on_connect(1);
    assert_eq!(inner.on_disconnect(1), vec![SessionAction::NotifyDisconnected]);
    assert_eq!(inner.get_state(), SessionState::Disconnected);
    assert_eq!(inner.on_disconnect(1), vec![]);
    assert_eq!(inner.get_state(), SessionState::Disconnected);
}

#[test]
fn late_loss_of_a_replaced_connection_changes_nothing() {
    let mut inner = BrandSocketApiInner::new();
    inner.on_connect(1);
    assert_eq!(inner.on_connect(2), vec![SessionAction::Disconnect(1), SessionAction::NotifyConnected]);
    inner.on_event(sync_end(), 1);
    assert_eq!(inner.on_disconnect(1), vec![]);
    assert_eq!(inner.get_state(), SessionState::Connected { connection: 2, synced: true });
    assert_eq!(inner.on_disconnect(7), vec![]);
    assert_eq!(inner.get_state(), SessionState::Connected { connection: 2, synced: true });
    assert_eq!(inner.on_disconnect(2), vec![SessionAction::NotifyDisconnected]);
    assert_eq!(inner.get_state(), SessionState::Disconnected);
}

#[test]
fn disconnect_closes_the_held_connection() {
    let mut inner = BrandSocketApiInner::new();
    inner.on_connect(5);
    assert_eq!(inner.disconnect(), vec![SessionAction::Disconnect(5), SessionAction::NotifyDisconnected]);
    assert_eq!(inner.get_state(), SessionState::Disconnected);
    assert_eq!(inner.on_disconnect(5), vec![]);
}

#[test]
fn disconnect_without_connection_does_nothing() {
    let mut inner = BrandSocketApiInner::new();
    assert_eq!(inner.disconnect(), vec![]);
    assert_eq!(inner, BrandSocketApiInner::new());
    inner.on_connect(5);
    inner.disconnect();
    assert_eq!(inner.disconnect(), vec![]);
}

#[test]
fn events_are_handed_on_as_they_are() {
    let mut inner = BrandSocketApiInner::new();
    inner.on_connect(1);
    let event = BrandSocketEvent::ConnectionError(ConnectionErrorMessage {
        status: Some("error".to_string()),
        message: None,
    });
    assert_eq!(inner.on_event(received(event.clone()), 5), vec![SessionAction::Deliver(event)]);
    assert!(!inner.is_synced());
    assert_eq!(inner.on_event(received(property("Other")), 6), vec![SessionAction::Deliver(property("Other"))]);
    assert!(!inner.is_synced());
    assert_eq!(inner.on_event(sync_end(), 7), vec![SessionAction::Deliver(property("SyncEnd"))]);
    assert!(inner.is_synced());
    assert_eq!(inner.on_event(received(property("Other")), 8), vec![SessionAction::Deliver(property("Other"))]);
    assert!(inner.is_synced());
}

#[test]
fn dropped_payloads_are_reported() {
    let mut inner = BrandSocketApiInner::new();
    inner.on_connect(1);
    let unsupported = BrandSocketEventDeserialized {
        result: Err(BrandSocketEventDeserializeErr::NotSupported("message type Quote".to_string())),
    };
    assert_eq!(
        inner.on_event(unsupported, 5),
        vec![SessionAction::Report("Not supported event: message type Quote".to_string())]
    );
    let malformed = BrandSocketEventDeserialized {
        result: Err(BrandSocketEventDeserializeErr::Serde("expected value at line 1 column 1".to_string())),
    };
    assert_eq!(
        inner.on_event(malformed, 6),
        vec![SessionAction::Report("Failed to deserialize: expected value at line 1 column 1".to_string())]
    );
    assert_eq!(inner.get_state(), SessionState::Connected { connection: 1, synced: false });
    assert_eq!(inner.get_last_event_timestamp(), Some(6));
}

#[test]
fn last_event_timestamp_follows_the_payloads() {
    let mut inner = BrandSocketApiInner::new();
    assert_eq!(inner.get_last_event_timestamp(), None);
    inner.on_event(received(property("a")), 1_700_000_000_000_000);
    assert_eq!(inner.get_last_event_timestamp(), Some(1_700_000_000_000_000));
    inner.on_connect(1);
    inner.on_disconnect(1);
    assert_eq!(inner.get_last_event_timestamp(), Some(1_700_000_000_000_000));
    inner.on_event(received(property("a")), 0);
    assert_eq!(inner.get_last_event_timestamp(), None);
    inner.on_event(received(property("a")), -5);
    assert_eq!(inner.get_last_event_timestamp(), None);
    inner.on_event(received(property("a")), 1);
    assert_eq!(inner.get_last_event_timestamp(), Some(1));
}

#[test]
fn sync_end_is_recognized_by_its_name() {
    assert!(is_sync_end(&property("SyncEnd")));
    assert!(!is_sync_end(&property("syncend")));
    assert!(!is_sync_end(&property("SyncEnd ")));
    assert!(!is_sync_end(&property("")));
    assert!(!is_sync_end(&BrandSocketEvent::ConnectionError(ConnectionErrorMessage {
        status: Some("SyncEnd".to_string()),
        message: Some("SyncEnd".to_string()),
    })));
}

#[test]
fn wait_pauses_until_synced() {
    let mut inner = BrandSocketApiInner::new();
    assert_eq!(SYNC_POLL_MILLIS, 250);
    assert_eq!(inner.wait_until_sync_ended(None, 1_000), WaitStep::Pause(250));
    inner.on_connect(1);
    assert_eq!(inner.wait_until_sync_ended(Some(250), 1_000), WaitStep::Pause(250));
    inner.on_event(sync_end(), 1);
    assert_eq!(inner.wait_until_sync_ended(Some(500), 1_000), WaitStep::Ended);
    assert_eq!(inner.wait_until_sync_ended(None, 0), WaitStep::Ended);
}

#[test]
fn wait_times_out_past_the_limit() {
    let inner = BrandSocketApiInner::new();
    assert_eq!(inner.wait_until_sync_ended(Some(1_000), 1_000), WaitStep::Pause(250));
    assert_eq!(
        inner.wait_until_sync_ended(Some(1_001), 1_000),
        WaitStep::TimedOut(TimeoutError { timeout: 1_000 })
    );
    assert_eq!(inner.wait_until_sync_ended(None, 0), WaitStep::Pause(250));
    assert_eq!(inner.wait_until_sync_ended(Some(1), 0), WaitStep::TimedOut(TimeoutError { timeout: 0 }));
}

#[test]
fn wait_past_the_limit_times_out_even_when_synced() {
    let mut inner = BrandSocketApiInner::new();
    inner.on_connect(1);
    inner.on_event(sync_end(), 1);
    assert_eq!(inner.wait_until_sync_ended(Some(2_000), 1_000), WaitStep::TimedOut(TimeoutError { timeout: 1_000 }));
    assert_eq!(inner.wait_until_sync_ended(Some(1_000), 1_000), WaitStep::Ended);
}

#[test]
fn a_whole_wait_ends_well_or_times_out() {
    fn run(synced_at: Option<u32>, timeout: u128) -> Result<(), TimeoutError> {
        let mut inner = BrandSocketApiInner::new();
        inner.on_connect(1);
        let mut waited = None;
        let mut look = 0u32;
        loop {
            if synced_at == Some(look) {
                inner.on_event(BrandSocketEventDeserialized {
                    result: Ok(BrandSocketEvent::Property(PropertyMessage { name: "SyncEnd".to_string() })),
                }, 1);
            }
            match inner.wait_until_sync_ended(waited, timeout) {
                WaitStep::Ended => return Ok(()),
                WaitStep::TimedOut(error) => return Err(error),
                WaitStep::Pause(millis) => {
                    waited = Some(waited.unwrap_or(0) + millis as u128 * 1_000_000);
                    look += 1;
                    assert!(look < 1_000);
                }
            }
        }
    }
    let second = 1_000_000_000u128;
    assert_eq!(run(Some(0), second), Ok(()));
    assert_eq!(run(Some(3), second), Ok(()));
    assert_eq!(run(Some(4), second), Ok(()));
    assert_eq!(run(Some(5), second), Err(TimeoutError { timeout: second }));
    assert_eq!(run(None, second), Err(TimeoutError { timeout: second }));
    assert_eq!(run(None, 0), Err(TimeoutError { timeout: 0 }));
}

#[test]
fn timeout_error_message() {
    assert_eq!(TimeoutError { timeout: 5_000_000_000 }.to_string(), "Timeout 5000000000ns");
    assert_eq!(TimeoutError { timeout: 0 }.to_string(), "Timeout 0ns");
}

struct Recorder {
    calls: Mutex<Vec<String>>,
}

impl BrandSocketApiEventHandler for Recorder {
    fn on_event(&self, event: BrandSocketEvent) {
        self.calls.lock().unwrap().push(format!("event {}", event.get_message_type()));
    }

    fn on_connected(&self) {
        self.calls.lock().unwrap().push("connected".to_string());
    }

    fn on_disconnected(&self) {
        self.calls.lock().unwrap().push("disconnected".to_string());
    }
}

#[test]
fn consumer_is_told_in_order_and_the_rest_comes_back() {
    let recorder = Recorder { calls: Mutex::new(Vec::new()) };
    let mut inner = BrandSocketApiInner::new();
    let mut left = Vec::new();
    let mut actions = inner.on_connect(1);
    actions.extend(inner.on_event(sync_end(), 1));
    actions.extend(inner.on_connect(2));
    actions.extend(inner.on_disconnect(1));
    actions.extend(inner.on_disconnect(2));
    actions.push(SessionAction::Report("dropped".to_string()));
    actions.push(SessionAction::StopTransport);
    actions.push(SessionAction::StartTransport { debug_payloads: true });
    for action in actions {
        if let Some(action) = notify(&recorder, action) {
            left.push(action);
        }
    }
    assert_eq!(
        *recorder.calls.lock().unwrap(),
        vec!["connected", "event Property", "connected", "disconnected"]
    );
    assert_eq!(
        left,
        vec![
            SessionAction::Disconnect(1),
            SessionAction::Report("dropped".to_string()),
            SessionAction::StopTransport,
            SessionAction::StartTransport { debug_payloads: true },
        ]
    );
}
