use trade_locker_connector::brand_socket::models::{
    AccountStatusMessage, BrandSocketEvent, BrandSocketEventDeserializeErr,
    BrandSocketEventDeserialized, ClosePositionMessage, ConnectionErrorMessage, EventKind,
    OpenOrderMessage, PositionMessage, PropertyMessage,
};
use trade_locker_connector::json::{JsonField, JsonObject};

fn text(value: &str) -> String {
    value.to_string()
}

fn some(value: &str) -> Option<String> {
    Some(value.to_string())
}

fn decode(payload: &str) -> Result<BrandSocketEvent, BrandSocketEventDeserializeErr> {
    BrandSocketEventDeserialized::deserialize(payload).result
}

#[test]
fn message_types_are_the_wire_names() {
    assert_eq!(AccountStatusMessage::get_message_type(), "AccountStatus");
    assert_eq!(PropertyMessage::get_message_type(), "Property");
    assert_eq!(PositionMessage::get_message_type(), "Position");
    assert_eq!(ClosePositionMessage::get_message_type(), "ClosePosition");
    assert_eq!(OpenOrderMessage::get_message_type(), "OpenOrder");
    assert_eq!(ConnectionErrorMessage::get_message_type(), "ConnectionError");
}

#[test]
fn kinds_are_found_by_type() {
    assert_eq!(EventKind::from_type("AccountStatus"), Some(EventKind::AccountStatus));
    assert_eq!(EventKind::from_type("Property"), Some(EventKind::Property));
    assert_eq!(EventKind::from_type("Position"), Some(EventKind::Position));
    assert_eq!(EventKind::from_type("ClosePosition"), Some(EventKind::ClosePosition));
    assert_eq!(EventKind::from_type("OpenOrder"), Some(EventKind::OpenOrder));
    assert_eq!(EventKind::from_type("ConnectionError"), Some(EventKind::ConnectionError));
    assert_eq!(EventKind::from_type("ConnectionErrorMessage"), None);
    assert_eq!(EventKind::from_type("property"), None);
    assert_eq!(EventKind::from_type(""), None);
}

#[test]
fn stream_constants() {
    assert_eq!(BrandSocketEventDeserialized::NAME_SPACE, "/brand-socket");
    assert_eq!(BrandSocketEventDeserialized::EVENT_NAME, "stream");
}

#[test]
fn account_status_payload() {
    let payload = r#"{"type":"AccountStatus","account_id":"L#1","currency":"USD","balance":"100.5",
        "marginAvailable":"90","marginUsed":null,"credit":"0","extra":{"ignored":[1,2]}}"#;
    let expected = AccountStatusMessage {
        account_id: text("L#1"),
        currency: text("USD"),
        balance: some("100.5"),
        margin_available: some("90"),
        margin_used: None,
        blocked_balance: None,
        credit: some("0"),
    };
    let event = decode(payload).unwrap();
    assert_eq!(event, BrandSocketEvent::AccountStatus(expected));
    assert_eq!(event.get_message_type(), "AccountStatus");
    assert_eq!(event.get_kind(), EventKind::AccountStatus);
}

#[test]
fn property_payload() {
    let event = decode(r#"{"type":"Property","name":"SyncEnd"}"#).unwrap();
    assert_eq!(event, BrandSocketEvent::Property(PropertyMessage { name: text("SyncEnd") }));
    assert_eq!(event.get_message_type(), "Property");
}

#[test]
fn position_payload() {
    let payload = r#"{"type":"Position","accountId":"L#1","positionId":"p1","lots":"0.1",
        "lotSize":"100000","instrument":"EURUSD","openPrice":"1.1","openDateTime":"2024-01-01T00:00:00Z",
        "openOrderId":"o1","stopLossLimit":"1.0","maintMargin":"10","takeProfitOrderId":"tp1",
        "side":"BUY","swaps":"0"}"#;
    let expected = PositionMessage {
        account_id: text("L#1"),
        position_id: text("p1"),
        lots: text("0.1"),
        lot_size: some("100000"),
        units: None,
        instrument: text("EURUSD"),
        open_price: text("1.1"),
        open_date_time: text("2024-01-01T00:00:00Z"),
        open_order_id: text("o1"),
        stop_loss_order_id: None,
        stop_loss_limit: some("1.0"),
        maint_margin: text("10"),
        take_profit_order_id: some("tp1"),
        take_profit_limit: None,
        side: text("BUY"),
        fee: None,
        swaps: some("0"),
    };
    let event = decode(payload).unwrap();
    assert_eq!(event, BrandSocketEvent::Position(expected));
    assert_eq!(event.get_message_type(), "Position");
}

#[test]
fn close_position_payload() {
    let payload = r#"{"type":"ClosePosition","positionId":"p1","closePrice":"1.2","closeDateTime":"2024-01-02T00:00:00Z"}"#;
    let expected = ClosePositionMessage {
        positions_id: text("p1"),
        close_price: some("1.2"),
        close_date_time: text("2024-01-02T00:00:00Z"),
    };
    let event = decode(payload).unwrap();
    assert_eq!(event, BrandSocketEvent::ClosePosition(expected));
    assert_eq!(event.get_message_type(), "ClosePosition");
}

#[test]
fn open_order_payload() {
    let payload = r#"{"type":"OpenOrder","accountId":"L#1","orderId":"o1","instrument":"EURUSD","amount":"1",
        "lotSize":"100000","side":"SELL","price":"1.3","status":"PENDING"}"#;
    let expected = OpenOrderMessage {
        account_id: text("L#1"),
        order_id: text("o1"),
        instrument: text("EURUSD"),
        amount: text("1"),
        lot_size: text("100000"),
        side: text("SELL"),
        price: text("1.3"),
        status: text("PENDING"),
    };
    let event = decode(payload).unwrap();
    assert_eq!(event, BrandSocketEvent::OpenOrder(expected));
    assert_eq!(event.get_message_type(), "OpenOrder");
}

#[test]
fn connection_error_payload() {
    let event = decode(r#"{"type":"ConnectionError","status":"error","message":"bad key"}"#).unwrap();
    assert_eq!(
        event,
        BrandSocketEvent::ConnectionError(ConnectionErrorMessage { status: some("error"), message: some("bad key") })
    );
    assert_eq!(event.get_message_type(), "ConnectionError");

    let event = decode(r#"{"type":"ConnectionError"}"#).unwrap();
    assert_eq!(event, BrandSocketEvent::ConnectionError(ConnectionErrorMessage { status: None, message: None }));

    assert_eq!(
        decode(r#"{"type":"ConnectionError","status":"error","message":"x"}"#),
        Ok(BrandSocketEvent::ConnectionError(ConnectionErrorMessage { status: some("error"), message: some("x") }))
    );
}

#[test]
fn escapes_in_strings_are_resolved() {
    let event = decode(r#"{"type":"Property","name":"SyncEnd \"x\" \\ \n"}"#).unwrap();
    assert_eq!(event, BrandSocketEvent::Property(PropertyMessage { name: text("SyncEnd \"x\" \\ \n") }));
}

#[test]
fn unknown_type_is_not_supported() {
    assert_eq!(
        decode(r#"{"type":"Quote","name":"SyncEnd"}"#),
        Err(BrandSocketEventDeserializeErr::NotSupported(text("message type Quote")))
    );
    assert_eq!(
        decode(r#"{"type":"ConnectionErrorMessage","status":"error","message":"x"}"#),
        Err(BrandSocketEventDeserializeErr::NotSupported(text("message type ConnectionErrorMessage")))
    );
    assert_eq!(
        decode(r#"{"type":"property","name":"SyncEnd"}"#),
        Err(BrandSocketEventDeserializeErr::NotSupported(text("message type property")))
    );
    assert_eq!(
        decode(r#"{"type":""}"#),
        Err(BrandSocketEventDeserializeErr::NotSupported(text("message type ")))
    );
}

#[test]
fn missing_type_is_malformed() {
    assert_eq!(
        decode(r#"{"name":"SyncEnd"}"#),
        Err(BrandSocketEventDeserializeErr::Serde(text("missing or mistyped member: type")))
    );
    assert_eq!(
        decode(r#"{"type":7,"name":"SyncEnd"}"#),
        Err(BrandSocketEventDeserializeErr::Serde(text("missing or mistyped member: type")))
    );
    assert_eq!(decode("{}"), Err(BrandSocketEventDeserializeErr::Serde(text("missing or mistyped member: type"))));
    assert_eq!(
        decode("null"),
        Err(BrandSocketEventDeserializeErr::Serde(text("invalid type: null, expected a map at line 1 column 4")))
    );
}

#[test]
fn missing_required_member_is_malformed() {
    assert_eq!(
        decode(r#"{"type":"Property"}"#),
        Err(BrandSocketEventDeserializeErr::Serde(text("missing or mistyped member: name")))
    );
    assert_eq!(
        decode(r#"{"type":"Property","name":null}"#),
        Err(BrandSocketEventDeserializeErr::Serde(text("missing or mistyped member: name")))
    );
    assert_eq!(
        decode(r#"{"type":"ClosePosition","positionId":"p1"}"#),
        Err(BrandSocketEventDeserializeErr::Serde(text("missing or mistyped member: closeDateTime")))
    );
}

#[test]
fn the_first_unfit_member_is_reported() {
    assert_eq!(
        decode(r#"{"type":"AccountStatus","currency":5,"balance":true}"#),
        Err(BrandSocketEventDeserializeErr::Serde(text("missing or mistyped member: account_id")))
    );
    assert_eq!(
        decode(r#"{"type":"AccountStatus","account_id":"a","currency":"USD","balance":true,"credit":1}"#),
        Err(BrandSocketEventDeserializeErr::Serde(text("missing or mistyped member: balance")))
    );
    assert_eq!(
        decode(r#"{"type":"AccountStatus","account_id":"a","currency":"USD","credit":[]}"#),
        Err(BrandSocketEventDeserializeErr::Serde(text("missing or mistyped member: credit")))
    );
}

#[test]
fn text_that_is_no_json_object_is_malformed() {
    for payload in ["", "not json", "[1,2]", "\"Property\"", "42", "{\"type\":\"Property\"", "{\"type\":\"Property\"} x"] {
        match decode(payload) {
            Err(BrandSocketEventDeserializeErr::Serde(message)) => assert!(!message.is_empty(), "{payload}"),
            other => panic!("{payload}: {other:?}"),
        }
    }
    assert_eq!(
        decode("{\"type\":\"Property\""),
        Err(BrandSocketEventDeserializeErr::Serde(text("EOF while parsing an object at line 1 column 18")))
    );
}

#[test]
fn a_repeated_key_counts_once_with_its_last_value() {
    assert_eq!(
        decode(r#"{"type":"Quote","type":"Property","name":"a","name":"b"}"#),
        Ok(BrandSocketEvent::Property(PropertyMessage { name: text("b") }))
    );
}

#[test]
fn decoding_a_built_object() {
    let mut object = JsonObject::new();
    object.insert(text("type"), JsonField::Text(text("ClosePosition")));
    object.insert(text("positionId"), JsonField::Text(text("p9")));
    object.insert(text("closePrice"), JsonField::Null);
    object.insert(text("closeDateTime"), JsonField::Text(text("t")));
    object.insert(text("volume"), JsonField::Number);
    assert_eq!(
        BrandSocketEventDeserialized::from_object(&object).result,
        Ok(BrandSocketEvent::ClosePosition(ClosePositionMessage {
            positions_id: text("p9"),
            close_price: None,
            close_date_time: text("t"),
        }))
    );
    object.insert(text("closePrice"), JsonField::Bool(false));
    assert_eq!(
        BrandSocketEventDeserialized::from_object(&object).result,
        Err(BrandSocketEventDeserializeErr::Serde(text("missing or mistyped member: closePrice")))
    );
    assert_eq!(
        BrandSocketEventDeserialized::from_object(&JsonObject::new()).result,
        Err(BrandSocketEventDeserializeErr::Serde(text("missing or mistyped member: type")))
    );
}

#[test]
fn messages_read_from_objects() {
    let mut object = JsonObject::new();
    object.insert(text("name"), JsonField::Text(text("SyncEnd")));
    assert_eq!(PropertyMessage::from_object(&object), Ok(PropertyMessage { name: text("SyncEnd") }));
    assert_eq!(
        ConnectionErrorMessage::from_object(&object),
        Ok(ConnectionErrorMessage { status: None, message: None })
    );
    assert_eq!(
        OpenOrderMessage::from_object(&object),
        Err(text("missing or mistyped member: accountId"))
    );
    assert_eq!(
        PositionMessage::from_object(&object),
        Err(text("missing or mistyped member: accountId"))
    );
    assert_eq!(
        AccountStatusMessage::from_object(&object),
        Err(text("missing or mistyped member: account_id"))
    );
    assert_eq!(
        ClosePositionMessage::from_object(&object),
        Err(text("missing or mistyped member: positionId"))
    );
}
