use trade_locker_connector::brand::endpoints::BrandApiEndpoint;
use trade_locker_connector::brand::errors::{Error, ErrorKind, WebservicesErrorCode};

fn error(kind: ErrorKind) -> Error {
    Error {
        kind,
        endpoint: BrandApiEndpoint::CreateUser,
        url: "https://api.example.com/brand-api/v1/users/create".to_string(),
        status: Some(418),
        request_body: Some("{\"email\":\"a@b.c\"}".to_string()),
        response_body: Some("{\"error\":\"teapot\"}".to_string()),
        detail: Some("connection refused".to_string()),
    }
}

#[test]
fn timeout_message() {
    assert_eq!(error(ErrorKind::Timeout).to_string(), "Failed POST CreateUser: Timeout");
}

#[test]
fn transport_message() {
    assert_eq!(
        error(ErrorKind::Transport).to_string(),
        "FlUrl failed to receive_body: Url: https://api.example.com/brand-api/v1/users/create. \
         Request: {\"email\":\"a@b.c\"}. connection refused"
    );
}

#[test]
fn body_read_message() {
    assert_eq!(error(ErrorKind::BodyRead).to_string(), "FlUrl failed to receive_body: connection refused");
}

#[test]
fn unauthorized_message() {
    assert_eq!(
        error(ErrorKind::Unauthorized).to_string(),
        "Unauthorized or forbidden. Url: POST https://api.example.com/brand-api/v1/users/create"
    );
}

#[test]
fn bad_request_message() {
    assert_eq!(
        error(ErrorKind::BadRequest).to_string(),
        "Received bad request status. Url: POST https://api.example.com/brand-api/v1/users/create. \
         Request: {\"email\":\"a@b.c\"}. Response: {\"error\":\"teapot\"}"
    );
}

#[test]
fn server_error_message() {
    assert_eq!(
        error(ErrorKind::ServerError).to_string(),
        "Internal Server Error. Url: POST https://api.example.com/brand-api/v1/users/create"
    );
}

#[test]
fn service_unavailable_message() {
    assert_eq!(
        error(ErrorKind::ServiceUnavailable).to_string(),
        "Service Unavailable. Url: POST https://api.example.com/brand-api/v1/users/create"
    );
}

#[test]
fn unexpected_status_message() {
    assert_eq!(
        error(ErrorKind::UnexpectedStatus).to_string(),
        "Received response code: 418. Url: POST https://api.example.com/brand-api/v1/users/create. \
         Request: {\"email\":\"a@b.c\"} Response: {\"error\":\"teapot\"}"
    );
}

#[test]
fn deserialize_message() {
    assert_eq!(
        error(ErrorKind::Deserialize).to_string(),
        "Failed to deserialize. Url: POST /brand-api/v1/users/create. \
         Request: {\"email\":\"a@b.c\"}. Body: {\"error\":\"teapot\"}"
    );
}

#[test]
fn absent_parts_are_written_as_none() {
    let mut e = error(ErrorKind::UnexpectedStatus);
    e.status = None;
    e.request_body = None;
    e.response_body = None;
    assert_eq!(
        e.to_string(),
        "Received response code: None. Url: POST https://api.example.com/brand-api/v1/users/create. \
         Request: None Response: None"
    );
    let mut e = error(ErrorKind::Transport);
    e.request_body = None;
    e.detail = None;
    assert_eq!(
        e.to_string(),
        "FlUrl failed to receive_body: Url: https://api.example.com/brand-api/v1/users/create. \
         Request: None. None"
    );
}

#[test]
fn message_names_the_method_of_the_endpoint() {
    let mut e = error(ErrorKind::ServerError);
    e.endpoint = BrandApiEndpoint::ActivateAccount;
    assert_eq!(
        e.to_string(),
        "Internal Server Error. Url: PUT https://api.example.com/brand-api/v1/users/create"
    );
    e.endpoint = BrandApiEndpoint::IsApiAlive;
    e.kind = ErrorKind::Timeout;
    assert_eq!(e.to_string(), "Failed GET IsApiAlive: Timeout");
}

#[test]
fn webservices_error_code_spelling() {
    assert_eq!(WebservicesErrorCode::TraderNotFound.to_string(), "TRADER_NOT_FOUND");
}
