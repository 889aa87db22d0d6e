use trade_locker_connector::brand_socket::api_client::{
    handshake_headers, handshake_path, handshake_query, namespace, BrandSocketApiClient, BrandSocketApiConfig,
    BrandSocketApiConfigWrapper, HandshakeOutcome,
};
use trade_locker_connector::brand_socket::callback::{SessionAction, TimeoutError, WaitStep};
use trade_locker_connector::brand_socket::models::{BrandSocketEvent, BrandSocketEventDeserialized, PropertyMessage};
use trade_locker_connector::models::AccountType;

struct Config;

impl BrandSocketApiConfig for Config {
    fn get_server_url(&self) -> String {
        "wss://feed.example.com".to_string()
    }

    fn get_api_key(&self) -> String {
        "socket-key".to_string()
    }

    fn get_account_type(&self) -> AccountType {
        AccountType::Live
    }
}

fn sync_end() -> BrandSocketEventDeserialized {
    BrandSocketEventDeserialized {
        result: Ok(BrandSocketEvent::Property(PropertyMessage { name: "SyncEnd".to_string() })),
    }
}

fn pair(a: &str, b: &str) -> (String, String) {
    (a.to_string(), b.to_string())
}

#[test]
fn handshake_settings() {
    let wrapper = BrandSocketApiConfigWrapper::new(Config);
    assert_eq!(wrapper.get_server_url("any"), "wss://feed.example.com");
    assert_eq!(wrapper.get_handshake_path("any"), "/brand-socket/socket.io");
    assert_eq!(namespace(), "/brand-socket");
    assert_eq!(handshake_path(), "/brand-socket/socket.io");
    assert_eq!(wrapper.get_headers("any"), vec![pair("brand-api-key", "socket-key")]);
    assert_eq!(wrapper.get_query_params("any"), vec![pair("type", "LIVE")]);
    assert_eq!(wrapper.get_url("any"), Some("wss://feed.example.com".to_string()));
}

struct DemoConfig;

impl BrandSocketApiConfig for DemoConfig {
    fn get_server_url(&self) -> String {
        "wss://demo.example.com".to_string()
    }

    fn get_api_key(&self) -> String {
        "demo-key".to_string()
    }

    fn get_account_type(&self) -> AccountType {
        AccountType::Demo
    }
}

#[test]
fn handshake_settings_follow_the_configuration() {
    let wrapper = BrandSocketApiConfigWrapper::new(DemoConfig);
    assert_eq!(wrapper.get_server_url("any"), "wss://demo.example.com");
    assert_eq!(wrapper.get_url("any"), Some("wss://demo.example.com".to_string()));
    assert_eq!(wrapper.get_headers("any"), vec![pair("brand-api-key", "demo-key")]);
    assert_eq!(wrapper.get_query_params("any"), vec![pair("type", "DEMO")]);
}

#[test]
fn handshake_headers_and_query() {
    assert_eq!(handshake_headers("k".to_string()), vec![pair("brand-api-key", "k")]);
    assert_eq!(handshake_query(AccountType::Demo), vec![pair("type", "DEMO")]);
    assert_eq!(handshake_query(AccountType::Live), vec![pair("type", "LIVE")]);
}

#[test]
fn client_name() {
    assert_eq!(BrandSocketApiClient::client_name(), "trade-locker-brand-socket");
}

#[test]
fn new_client_is_not_connected() {
    let client = BrandSocketApiClient::new();
    assert!(!client.is_connected());
    assert_eq!(client.get_last_event_timestamp(), None);
    assert_eq!(client, BrandSocketApiClient::new());
}

#[test]
fn disconnect_when_never_connected_is_a_no_op() {
    let mut client = BrandSocketApiClient::new();
    assert_eq!(client.disconnect(), vec![]);
    assert_eq!(client, BrandSocketApiClient::new());
    assert!(!client.is_connected());
    assert_eq!(client.disconnect(), vec![]);
    assert_eq!(client.wait_until_sync_ended(None, 5), WaitStep::Pause(250));
}

#[test]
fn connect_starts_the_transport() {
    let mut client = BrandSocketApiClient::new();
    assert_eq!(client.connect(false), vec![SessionAction::StartTransport { debug_payloads: false }]);
    assert!(!client.is_connected());
}

#[test]
fn second_connect_stops_the_transport_that_runs() {
    let mut client = BrandSocketApiClient::new();
    client.connect(false);
    assert_eq!(
        client.connect(true),
        vec![SessionAction::StopTransport, SessionAction::StartTransport { debug_payloads: true }]
    );
    assert!(!client.is_connected());
}

#[test]
fn second_connect_lets_go_of_the_held_connection_first() {
    let mut client = BrandSocketApiClient::new();
    client.connect(false);
    client.on_connect(4);
    client.on_event(sync_end(), 1);
    assert_eq!(
        client.connect(false),
        vec![
            SessionAction::Disconnect(4),
            SessionAction::NotifyDisconnected,
            SessionAction::StopTransport,
            SessionAction::StartTransport { debug_payloads: false },
        ]
    );
    assert!(!client.is_connected());
    assert!(!client.inner().is_connected());
    assert_eq!(client.on_disconnect(4), vec![]);
    assert_eq!(client.on_connect(5), vec![SessionAction::NotifyConnected]);
    assert!(client.is_connected());
    assert_eq!(client.wait_until_sync_ended(None, 1), WaitStep::Pause(250));
}

#[test]
fn client_is_connected_after_the_handshake() {
    let mut client = BrandSocketApiClient::new();
    client.connect(false);
    assert_eq!(client.on_connect(3), vec![SessionAction::NotifyConnected]);
    assert!(client.is_connected());
    assert_eq!(client.wait_until_sync_ended(None, 1_000), WaitStep::Pause(250));
    client.on_event(sync_end(), 42);
    assert_eq!(client.get_last_event_timestamp(), Some(42));
    assert_eq!(client.wait_until_sync_ended(Some(250_000_000), 1_000_000_000), WaitStep::Ended);
    assert_eq!(client.on_disconnect(3), vec![SessionAction::NotifyDisconnected]);
    assert!(!client.is_connected());
    assert_eq!(
        client.wait_until_sync_ended(Some(1_250_000_000), 1_000_000_000),
        WaitStep::TimedOut(TimeoutError { timeout: 1_000_000_000 })
    );
}

#[test]
fn handshake_without_started_transport_does_not_connect_the_client() {
    let mut client = BrandSocketApiClient::new();
    client.on_connect(3);
    assert!(!client.is_connected());
    assert!(client.inner().is_connected());
    assert_eq!(
        client.connect(false),
        vec![
            SessionAction::Disconnect(3),
            SessionAction::NotifyDisconnected,
            SessionAction::StartTransport { debug_payloads: false },
        ]
    );
    assert!(!client.is_connected());
}

#[test]
fn disconnect_closes_connection_and_stops_transport() {
    let mut client = BrandSocketApiClient::new();
    client.connect(false);
    client.on_connect(3);
    assert_eq!(
        client.disconnect(),
        vec![SessionAction::Disconnect(3), SessionAction::NotifyDisconnected, SessionAction::StopTransport]
    );
    assert!(!client.is_connected());
    assert_eq!(client.disconnect(), vec![]);

    client.connect(false);
    assert_eq!(client.disconnect(), vec![SessionAction::StopTransport]);
}

#[test]
fn second_connection_replaces_the_first() {
    let mut client = BrandSocketApiClient::new();
    client.connect(false);
    client.on_connect(1);
    client.on_event(sync_end(), 1);
    assert_eq!(client.on_connect(2), vec![SessionAction::Disconnect(1), SessionAction::NotifyConnected]);
    assert!(client.is_connected());
    assert_eq!(client.wait_until_sync_ended(None, 1), WaitStep::Pause(250));
    assert_eq!(client.on_disconnect(1), vec![]);
    assert!(client.is_connected());
    assert_eq!(
        client.disconnect(),
        vec![SessionAction::Disconnect(2), SessionAction::NotifyDisconnected, SessionAction::StopTransport]
    );
}

#[test]
fn failed_handshake_comes_back_as_an_error() {
    let mut client = BrandSocketApiClient::new();
    client.connect(false);
    let (result, actions) = client.on_handshake(HandshakeOutcome::Failed("connection refused".to_string()));
    assert_eq!(result, Err("Failed to connect: connection refused".to_string()));
    assert_eq!(actions, vec![SessionAction::StopTransport]);
    assert!(!client.is_connected());
    assert_eq!(client, BrandSocketApiClient::new());

    client.connect(false);
    client.on_connect(9);
    let (result, actions) = client.on_handshake(HandshakeOutcome::Failed(String::new()));
    assert_eq!(result, Err("Failed to connect: ".to_string()));
    assert_eq!(
        actions,
        vec![SessionAction::Disconnect(9), SessionAction::NotifyDisconnected, SessionAction::StopTransport]
    );
    assert!(!client.is_connected());
}

#[test]
fn handshake_that_succeeded_is_a_step_of_the_session() {
    let mut client = BrandSocketApiClient::new();
    client.connect(false);
    let (result, actions) = client.on_handshake(HandshakeOutcome::Established(6));
    assert_eq!(result, Ok(()));
    assert_eq!(actions, vec![SessionAction::NotifyConnected]);
    assert!(client.is_connected());
    let (result, actions) = client.on_handshake(HandshakeOutcome::Established(7));
    assert_eq!(result, Ok(()));
    assert_eq!(actions, vec![SessionAction::Disconnect(6), SessionAction::NotifyConnected]);
}
