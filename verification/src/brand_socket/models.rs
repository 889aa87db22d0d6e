//! The events of the brand socket feed and their wire shapes.
//!
//! Every payload of the feed is a flat JSON object. Its member `type` names one
//! of six shapes; the other members are strings, some of which may be absent
//! or null.

use vstd::prelude::*;
use crate::json::{
    json_object_of, optional_text_ok, parse_members, text_at, JsonField, JsonMembers, JsonObject,
};
use crate::text::opt_text;

verus! {

/// The message that reports the member `key` as missing or of the wrong type.
pub open spec fn member_fault(key: Seq<char>) -> Seq<char> {
    "missing or mistyped member: "@ + key
}

/// The message that reports a `type` that names none of the six shapes.
pub open spec fn unsupported_type(tag: Seq<char>) -> Seq<char> {
    "message type "@ + tag
}

fn fault_message(key: &str) -> (message: String)
    ensures
        message@ == member_fault(key@),
{
    "missing or mistyped member: ".to_owned().concat(key)
}

/// Reads a member that has to be a string.
fn required_text(object: &JsonObject, key: &str) -> (read: Result<String, String>)
    ensures
        match read {
            Ok(text) => text_at(object@, key@) == Some(text@),
            Err(message) => text_at(object@, key@) is None && message@ == member_fault(key@),
        },
{
    match object.get(key) {
        Some(JsonField::Text(text)) => Ok(text.clone()),
        _ => Err(fault_message(key)),
    }
}

/// Reads a member that is a string where it is there and not null.
fn optional_text(object: &JsonObject, key: &str) -> (read: Result<Option<String>, String>)
    ensures
        match read {
            Ok(text) => optional_text_ok(object@, key@) && opt_text(text) == text_at(object@, key@),
            Err(message) => !optional_text_ok(object@, key@) && message@ == member_fault(key@),
        },
{
    match object.get(key) {
        None => Ok(None),
        Some(JsonField::Null) => Ok(None),
        Some(JsonField::Text(text)) => Ok(Some(text.clone())),
        Some(_) => Err(fault_message(key)),
    }
}

/// Balance, margin and credit of one account.
#[derive(Debug, Clone, PartialEq, Eq)]
pub struct AccountStatusMessage {
    pub account_id: String,
    pub currency: String,
    pub balance: Option<String>,
    pub margin_available: Option<String>,
    pub margin_used: Option<String>,
    pub blocked_balance: Option<String>,
    pub credit: Option<String>,
}

impl AccountStatusMessage {
    /// The value of `type` that announces this shape.
    pub fn get_message_type() -> (name: &'static str)
        ensures
            name@ == "AccountStatus"@,
    {
        "AccountStatus"
    }

    /// The first member, in the order of the fields, that is missing or of the
    /// wrong type; `None` where the object has this shape.
    pub open spec fn fault(members: JsonMembers) -> Option<Seq<char>> {
        if text_at(members, "account_id"@) is None {
            Some("account_id"@)
        } else if text_at(members, "currency"@) is None {
            Some("currency"@)
        } else if !optional_text_ok(members, "balance"@) {
            Some("balance"@)
        } else if !optional_text_ok(members, "marginAvailable"@) {
            Some("marginAvailable"@)
        } else if !optional_text_ok(members, "marginUsed"@) {
            Some("marginUsed"@)
        } else if !optional_text_ok(members, "blockedBalance"@) {
            Some("blockedBalance"@)
        } else if !optional_text_ok(members, "credit"@) {
            Some("credit"@)
        } else {
            None
        }
    }

    /// Whether each field holds what the object holds under the field's key.
    pub open spec fn describes(self, members: JsonMembers) -> bool {
        &&& Some(self.account_id@) == text_at(members, "account_id"@)
        &&& Some(self.currency@) == text_at(members, "currency"@)
        &&& opt_text(self.balance) == text_at(members, "balance"@)
        &&& opt_text(self.margin_available) == text_at(members, "marginAvailable"@)
        &&& opt_text(self.margin_used) == text_at(members, "marginUsed"@)
        &&& opt_text(self.blocked_balance) == text_at(members, "blockedBalance"@)
        &&& opt_text(self.credit) == text_at(members, "credit"@)
    }

    /// Reads the message from a parsed payload. Members that the shape does not
    /// name are ignored.
    pub fn from_object(object: &JsonObject) -> (read: Result<Self, String>)
        ensures
            match read {
                Ok(message) => Self::fault(object@) is None && message.describes(object@),
                Err(text) => Self::fault(object@) matches Some(key) && text@ == member_fault(key),
            },
    {
        let account_id = required_text(object, "account_id")?;
        let currency = required_text(object, "currency")?;
        let balance = optional_text(object, "balance")?;
        let margin_available = optional_text(object, "marginAvailable")?;
        let margin_used = optional_text(object, "marginUsed")?;
        let blocked_balance = optional_text(object, "blockedBalance")?;
        let credit = optional_text(object, "credit")?;
        Ok(AccountStatusMessage { account_id, currency, balance, margin_available, margin_used, blocked_balance, credit })
    }
}

/// A named marker of the feed. The name `SyncEnd` closes the replay of the
/// initial state; what follows are live updates.
#[derive(Debug, Clone, PartialEq, Eq)]
pub struct PropertyMessage {
    pub name: String,
}

impl PropertyMessage {
    /// The value of `type` that announces this shape.
    pub fn get_message_type() -> (name: &'static str)
        ensures
            name@ == "Property"@,
    {
        "Property"
    }

    /// The first member, in the order of the fields, that is missing or of the
    /// wrong type; `None` where the object has this shape.
    pub open spec fn fault(members: JsonMembers) -> Option<Seq<char>> {
        if text_at(members, "name"@) is None {
            Some("name"@)
        } else {
            None
        }
    }

    /// Whether each field holds what the object holds under the field's key.
    pub open spec fn describes(self, members: JsonMembers) -> bool {
        &&& Some(self.name@) == text_at(members, "name"@)
    }

    /// Reads the message from a parsed payload. Members that the shape does not
    /// name are ignored.
    pub fn from_object(object: &JsonObject) -> (read: Result<Self, String>)
        ensures
            match read {
                Ok(message) => Self::fault(object@) is None && message.describes(object@),
                Err(text) => Self::fault(object@) matches Some(key) && text@ == member_fault(key),
            },
    {
        let name = required_text(object, "name")?;
        Ok(PropertyMessage { name })
    }
}

/// A position that was opened or modified.
#[derive(Debug, Clone, PartialEq, Eq)]
pub struct PositionMessage {
    pub account_id: String,
    pub position_id: String,
    /// Number of lots in the position.
    pub lots: String,
    /// Size of each lot.
    pub lot_size: Option<String>,
    /// Total number of units in the position.
    pub units: Option<String>,
    pub instrument: String,
    pub open_price: String,
    pub open_date_time: String,
    pub open_order_id: String,
    pub stop_loss_order_id: Option<String>,
    pub stop_loss_limit: Option<String>,
    /// Maintenance margin required for the position.
    pub maint_margin: String,
    pub take_profit_order_id: Option<String>,
    pub take_profit_limit: Option<String>,
    pub side: String,
    pub fee: Option<String>,
    pub swaps: Option<String>,
}

impl PositionMessage {
    /// The value of `type` that announces this shape.
    pub fn get_message_type() -> (name: &'static str)
        ensures
            name@ == "Position"@,
    {
        "Position"
    }

    /// The first member, in the order of the fields, that is missing or of the
    /// wrong type; `None` where the object has this shape.
    pub open spec fn fault(members: JsonMembers) -> Option<Seq<char>> {
        if text_at(members, "accountId"@) is None {
            Some("accountId"@)
        } else if text_at(members, "positionId"@) is None {
            Some("positionId"@)
        } else if text_at(members, "lots"@) is None {
            Some("lots"@)
        } else if !optional_text_ok(members, "lotSize"@) {
            Some("lotSize"@)
        } else if !optional_text_ok(members, "units"@) {
            Some("units"@)
        } else if text_at(members, "instrument"@) is None {
            Some("instrument"@)
        } else if text_at(members, "openPrice"@) is None {
            Some("openPrice"@)
        } else if text_at(members, "openDateTime"@) is None {
            Some("openDateTime"@)
        } else if text_at(members, "openOrderId"@) is None {
            Some("openOrderId"@)
        } else if !optional_text_ok(members, "stopLossOrderId"@) {
            Some("stopLossOrderId"@)
        } else if !optional_text_ok(members, "stopLossLimit"@) {
            Some("stopLossLimit"@)
        } else if text_at(members, "maintMargin"@) is None {
            Some("maintMargin"@)
        } else if !optional_text_ok(members, "takeProfitOrderId"@) {
            Some("takeProfitOrderId"@)
        } else if !optional_text_ok(members, "takeProfitLimit"@) {
            Some("takeProfitLimit"@)
        } else if text_at(members, "side"@) is None {
            Some("side"@)
        } else if !optional_text_ok(members, "fee"@) {
            Some("fee"@)
        } else if !optional_text_ok(members, "swaps"@) {
            Some("swaps"@)
        } else {
            None
        }
    }

    /// Whether each field holds what the object holds under the field's key.
    pub open spec fn describes(self, members: JsonMembers) -> bool {
        &&& Some(self.account_id@) == text_at(members, "accountId"@)
        &&& Some(self.position_id@) == text_at(members, "positionId"@)
        &&& Some(self.lots@) == text_at(members, "lots"@)
        &&& opt_text(self.lot_size) == text_at(members, "lotSize"@)
        &&& opt_text(self.units) == text_at(members, "units"@)
        &&& Some(self.instrument@) == text_at(members, "instrument"@)
        &&& Some(self.open_price@) == text_at(members, "openPrice"@)
        &&& Some(self.open_date_time@) == text_at(members, "openDateTime"@)
        &&& Some(self.open_order_id@) == text_at(members, "openOrderId"@)
        &&& opt_text(self.stop_loss_order_id) == text_at(members, "stopLossOrderId"@)
        &&& opt_text(self.stop_loss_limit) == text_at(members, "stopLossLimit"@)
        &&& Some(self.maint_margin@) == text_at(members, "maintMargin"@)
        &&& opt_text(self.take_profit_order_id) == text_at(members, "takeProfitOrderId"@)
        &&& opt_text(self.take_profit_limit) == text_at(members, "takeProfitLimit"@)
        &&& Some(self.side@) == text_at(members, "side"@)
        &&& opt_text(self.fee) == text_at(members, "fee"@)
        &&& opt_text(self.swaps) == text_at(members, "swaps"@)
    }

    /// Reads the message from a parsed payload. Members that the shape does not
    /// name are ignored.
    pub fn from_object(object: &JsonObject) -> (read: Result<Self, String>)
        ensures
            match read {
                Ok(message) => Self::fault(object@) is None && message.describes(object@),
                Err(text) => Self::fault(object@) matches Some(key) && text@ == member_fault(key),
            },
    {
        let account_id = required_text(object, "accountId")?;
        let position_id = required_text(object, "positionId")?;
        let lots = required_text(object, "lots")?;
        let lot_size = optional_text(object, "lotSize")?;
        let units = optional_text(object, "units")?;
        let instrument = required_text(object, "instrument")?;
        let open_price = required_text(object, "openPrice")?;
        let open_date_time = required_text(object, "openDateTime")?;
        let open_order_id = required_text(object, "openOrderId")?;
        let stop_loss_order_id = optional_text(object, "stopLossOrderId")?;
        let stop_loss_limit = optional_text(object, "stopLossLimit")?;
        let maint_margin = required_text(object, "maintMargin")?;
        let take_profit_order_id = optional_text(object, "takeProfitOrderId")?;
        let take_profit_limit = optional_text(object, "takeProfitLimit")?;
        let side = required_text(object, "side")?;
        let fee = optional_text(object, "fee")?;
        let swaps = optional_text(object, "swaps")?;
        Ok(PositionMessage { account_id, position_id, lots, lot_size, units, instrument, open_price, open_date_time, open_order_id, stop_loss_order_id, stop_loss_limit, maint_margin, take_profit_order_id, take_profit_limit, side, fee, swaps })
    }
}

/// A position that was closed.
#[derive(Debug, Clone, PartialEq, Eq)]
pub struct ClosePositionMessage {
    pub positions_id: String,
    pub close_price: Option<String>,
    pub close_date_time: String,
}

impl ClosePositionMessage {
    /// The value of `type` that announces this shape.
    pub fn get_message_type() -> (name: &'static str)
        ensures
            name@ == "ClosePosition"@,
    {
        "ClosePosition"
    }

    /// The first member, in the order of the fields, that is missing or of the
    /// wrong type; `None` where the object has this shape.
    pub open spec fn fault(members: JsonMembers) -> Option<Seq<char>> {
        if text_at(members, "positionId"@) is None {
            Some("positionId"@)
        } else if !optional_text_ok(members, "closePrice"@) {
            Some("closePrice"@)
        } else if text_at(members, "closeDateTime"@) is None {
            Some("closeDateTime"@)
        } else {
            None
        }
    }

    /// Whether each field holds what the object holds under the field's key.
    pub open spec fn describes(self, members: JsonMembers) -> bool {
        &&& Some(self.positions_id@) == text_at(members, "positionId"@)
        &&& opt_text(self.close_price) == text_at(members, "closePrice"@)
        &&& Some(self.close_date_time@) == text_at(members, "closeDateTime"@)
    }

    /// Reads the message from a parsed payload. Members that the shape does not
    /// name are ignored.
    pub fn from_object(object: &JsonObject) -> (read: Result<Self, String>)
        ensures
            match read {
                Ok(message) => Self::fault(object@) is None && message.describes(object@),
                Err(text) => Self::fault(object@) matches Some(key) && text@ == member_fault(key),
            },
    {
        let positions_id = required_text(object, "positionId")?;
        let close_price = optional_text(object, "closePrice")?;
        let close_date_time = required_text(object, "closeDateTime")?;
        Ok(ClosePositionMessage { positions_id, close_price, close_date_time })
    }
}

/// An order that was placed or updated.
#[derive(Debug, Clone, PartialEq, Eq)]
pub struct OpenOrderMessage {
    pub account_id: String,
    pub order_id: String,
    pub instrument: String,
    pub amount: String,
    pub lot_size: String,
    /// `BUY` or `SELL`.
    pub side: String,
    pub price: String,
    /// `PENDING`, `EXECUTED` or `CANCELLED`.
    pub status: String,
}

impl OpenOrderMessage {
    /// The value of `type` that announces this shape.
    pub fn get_message_type() -> (name: &'static str)
        ensures
            name@ == "OpenOrder"@,
    {
        "OpenOrder"
    }

    /// The first member, in the order of the fields, that is missing or of the
    /// wrong type; `None` where the object has this shape.
    pub open spec fn fault(members: JsonMembers) -> Option<Seq<char>> {
        if text_at(members, "accountId"@) is None {
            Some("accountId"@)
        } else if text_at(members, "orderId"@) is None {
            Some("orderId"@)
        } else if text_at(members, "instrument"@) is None {
            Some("instrument"@)
        } else if text_at(members, "amount"@) is None {
            Some("amount"@)
        } else if text_at(members, "lotSize"@) is None {
            Some("lotSize"@)
        } else if text_at(members, "side"@) is None {
            Some("side"@)
        } else if text_at(members, "price"@) is None {
            Some("price"@)
        } else if text_at(members, "status"@) is None {
            Some("status"@)
        } else {
            None
        }
    }

    /// Whether each field holds what the object holds under the field's key.
    pub open spec fn describes(self, members: JsonMembers) -> bool {
        &&& Some(self.account_id@) == text_at(members, "accountId"@)
        &&& Some(self.order_id@) == text_at(members, "orderId"@)
        &&& Some(self.instrument@) == text_at(members, "instrument"@)
        &&& Some(self.amount@) == text_at(members, "amount"@)
        &&& Some(self.lot_size@) == text_at(members, "lotSize"@)
        &&& Some(self.side@) == text_at(members, "side"@)
        &&& Some(self.price@) == text_at(members, "price"@)
        &&& Some(self.status@) == text_at(members, "status"@)
    }

    /// Reads the message from a parsed payload. Members that the shape does not
    /// name are ignored.
    pub fn from_object(object: &JsonObject) -> (read: Result<Self, String>)
        ensures
            match read {
                Ok(message) => Self::fault(object@) is None && message.describes(object@),
                Err(text) => Self::fault(object@) matches Some(key) && text@ == member_fault(key),
            },
    {
        let account_id = required_text(object, "accountId")?;
        let order_id = required_text(object, "orderId")?;
        let instrument = required_text(object, "instrument")?;
        let amount = required_text(object, "amount")?;
        let lot_size = required_text(object, "lotSize")?;
        let side = required_text(object, "side")?;
        let price = required_text(object, "price")?;
        let status = required_text(object, "status")?;
        Ok(OpenOrderMessage { account_id, order_id, instrument, amount, lot_size, side, price, status })
    }
}

/// State of the connection as the server reports it.
#[derive(Debug, Clone, PartialEq, Eq)]
pub struct ConnectionErrorMessage {
    /// `ok` or `error`.
    pub status: Option<String>,
    pub message: Option<String>,
}

impl ConnectionErrorMessage {
    /// The value of `type` that announces this shape.
    pub fn get_message_type() -> (name: &'static str)
        ensures
            name@ == "ConnectionError"@,
    {
        "ConnectionError"
    }

    /// The first member, in the order of the fields, that is missing or of the
    /// wrong type; `None` where the object has this shape.
    pub open spec fn fault(members: JsonMembers) -> Option<Seq<char>> {
        if !optional_text_ok(members, "status"@) {
            Some("status"@)
        } else if !optional_text_ok(members, "message"@) {
            Some("message"@)
        } else {
            None
        }
    }

    /// Whether each field holds what the object holds under the field's key.
    pub open spec fn describes(self, members: JsonMembers) -> bool {
        &&& opt_text(self.status) == text_at(members, "status"@)
        &&& opt_text(self.message) == text_at(members, "message"@)
    }

    /// Reads the message from a parsed payload. Members that the shape does not
    /// name are ignored.
    pub fn from_object(object: &JsonObject) -> (read: Result<Self, String>)
        ensures
            match read {
                Ok(message) => Self::fault(object@) is None && message.describes(object@),
                Err(text) => Self::fault(object@) matches Some(key) && text@ == member_fault(key),
            },
    {
        let status = optional_text(object, "status")?;
        let message = optional_text(object, "message")?;
        Ok(ConnectionErrorMessage { status, message })
    }
}

/// The six shapes of the feed.
#[derive(Debug, Clone, Copy, PartialEq, Eq, Structural)]
pub enum EventKind {
    AccountStatus,
    Property,
    Position,
    ClosePosition,
    OpenOrder,
    ConnectionError,
}

impl EventKind {
    /// The value of `type` that announces the shape.
    pub open spec fn tag(self) -> Seq<char> {
        match self {
            EventKind::AccountStatus => "AccountStatus"@,
            EventKind::Property => "Property"@,
            EventKind::Position => "Position"@,
            EventKind::ClosePosition => "ClosePosition"@,
            EventKind::OpenOrder => "OpenOrder"@,
            EventKind::ConnectionError => "ConnectionError"@,
        }
    }

    /// The shape that a value of `type` announces, if any.
    pub open spec fn of_type(tag: Seq<char>) -> Option<EventKind> {
        if tag == "AccountStatus"@ {
            Some(EventKind::AccountStatus)
        } else if tag == "Property"@ {
            Some(EventKind::Property)
        } else if tag == "Position"@ {
            Some(EventKind::Position)
        } else if tag == "ClosePosition"@ {
            Some(EventKind::ClosePosition)
        } else if tag == "OpenOrder"@ {
            Some(EventKind::OpenOrder)
        } else if tag == "ConnectionError"@ {
            Some(EventKind::ConnectionError)
        } else {
            None
        }
    }

    /// The first member that keeps the object from having this shape.
    pub open spec fn fault(self, members: JsonMembers) -> Option<Seq<char>> {
        match self {
            EventKind::AccountStatus => AccountStatusMessage::fault(members),
            EventKind::Property => PropertyMessage::fault(members),
            EventKind::Position => PositionMessage::fault(members),
            EventKind::ClosePosition => ClosePositionMessage::fault(members),
            EventKind::OpenOrder => OpenOrderMessage::fault(members),
            EventKind::ConnectionError => ConnectionErrorMessage::fault(members),
        }
    }

    /// Tells which shape a value of `type` announces.
    pub fn from_type(tag: &str) -> (kind: Option<EventKind>)
        ensures
            kind == Self::of_type(tag@),
    {
        let name = tag.to_owned();
        if name == AccountStatusMessage::get_message_type().to_owned() {
            Some(EventKind::AccountStatus)
        } else if name == PropertyMessage::get_message_type().to_owned() {
            Some(EventKind::Property)
        } else if name == PositionMessage::get_message_type().to_owned() {
            Some(EventKind::Position)
        } else if name == ClosePositionMessage::get_message_type().to_owned() {
            Some(EventKind::ClosePosition)
        } else if name == OpenOrderMessage::get_message_type().to_owned() {
            Some(EventKind::OpenOrder)
        } else if name == ConnectionErrorMessage::get_message_type().to_owned() {
            Some(EventKind::ConnectionError)
        } else {
            None
        }
    }
}

/// One event of the feed.
#[allow(clippy::large_enum_variant)]
#[derive(Debug, Clone, PartialEq, Eq)]
pub enum BrandSocketEvent {
    /// Balance, margin or status of an account changed.
    AccountStatus(AccountStatusMessage),
    /// A marker such as the end of the initial synchronization.
    Property(PropertyMessage),
    /// A position was opened or modified.
    Position(PositionMessage),
    /// A position was closed.
    ClosePosition(ClosePositionMessage),
    /// An order was placed or updated.
    OpenOrder(OpenOrderMessage),
    /// The server reports on the connection.
    ConnectionError(ConnectionErrorMessage),
}

impl BrandSocketEvent {
    /// The shape of the event.
    pub open spec fn kind(self) -> EventKind {
        match self {
            BrandSocketEvent::AccountStatus(_) => EventKind::AccountStatus,
            BrandSocketEvent::Property(_) => EventKind::Property,
            BrandSocketEvent::Position(_) => EventKind::Position,
            BrandSocketEvent::ClosePosition(_) => EventKind::ClosePosition,
            BrandSocketEvent::OpenOrder(_) => EventKind::OpenOrder,
            BrandSocketEvent::ConnectionError(_) => EventKind::ConnectionError,
        }
    }

    /// Whether the event holds what the object holds under the keys of its shape.
    pub open spec fn describes(self, members: JsonMembers) -> bool {
        match self {
            BrandSocketEvent::AccountStatus(message) => message.describes(members),
            BrandSocketEvent::Property(message) => message.describes(members),
            BrandSocketEvent::Position(message) => message.describes(members),
            BrandSocketEvent::ClosePosition(message) => message.describes(members),
            BrandSocketEvent::OpenOrder(message) => message.describes(members),
            BrandSocketEvent::ConnectionError(message) => message.describes(members),
        }
    }

    /// Whether the event is the marker that ends the initial synchronization.
    pub open spec fn is_sync_end(self) -> bool {
        self matches BrandSocketEvent::Property(message) && message.name@ == "SyncEnd"@
    }

    /// The value of `type` under which the event travels.
    pub fn get_message_type(&self) -> (name: &'static str)
        ensures
            name@ == self.kind().tag(),
    {
        match self {
            BrandSocketEvent::AccountStatus(_) => AccountStatusMessage::get_message_type(),
            BrandSocketEvent::Property(_) => PropertyMessage::get_message_type(),
            BrandSocketEvent::Position(_) => PositionMessage::get_message_type(),
            BrandSocketEvent::ClosePosition(_) => ClosePositionMessage::get_message_type(),
            BrandSocketEvent::OpenOrder(_) => OpenOrderMessage::get_message_type(),
            BrandSocketEvent::ConnectionError(_) => ConnectionErrorMessage::get_message_type(),
        }
    }

    /// Tells the shape of the event.
    pub fn get_kind(&self) -> (kind: EventKind)
        ensures
            kind == self.kind(),
    {
        match self {
            BrandSocketEvent::AccountStatus(_) => EventKind::AccountStatus,
            BrandSocketEvent::Property(_) => EventKind::Property,
            BrandSocketEvent::Position(_) => EventKind::Position,
            BrandSocketEvent::ClosePosition(_) => EventKind::ClosePosition,
            BrandSocketEvent::OpenOrder(_) => EventKind::OpenOrder,
            BrandSocketEvent::ConnectionError(_) => EventKind::ConnectionError,
        }
    }
}

/// Why a payload gave no event.
#[derive(Debug, Clone, PartialEq, Eq)]
pub enum BrandSocketEventDeserializeErr {
    /// The payload's `type` names none of the six shapes.
    NotSupported(String),
    /// The payload is no JSON object, or a member is missing or of the wrong type.
    Serde(String),
}

/// What became of one payload of the feed.
#[derive(Debug, PartialEq, Eq)]
pub struct BrandSocketEventDeserialized {
    pub result: Result<BrandSocketEvent, BrandSocketEventDeserializeErr>,
}

/// What the decoding of an object with the given members comes to.
///
/// Without a string under `type` the payload is malformed. A `type` outside
/// the six is not supported. Otherwise the shape that `type` announces is
/// read: the event, or the first member that does not fit.
pub open spec fn decodes_to(
    members: JsonMembers,
    result: Result<BrandSocketEvent, BrandSocketEventDeserializeErr>,
) -> bool {
    match text_at(members, "type"@) {
        None => result matches Err(BrandSocketEventDeserializeErr::Serde(text))
            && text@ == member_fault("type"@),
        Some(tag) => match EventKind::of_type(tag) {
            None => result matches Err(BrandSocketEventDeserializeErr::NotSupported(text))
                && text@ == unsupported_type(tag),
            Some(kind) => match kind.fault(members) {
                Some(key) => result matches Err(BrandSocketEventDeserializeErr::Serde(text))
                    && text@ == member_fault(key),
                None => result matches Ok(event) && event.kind() == kind
                    && event.describes(members),
            },
        },
    }
}

impl BrandSocketEventDeserialized {
    /// Namespace of the feed on the socket.
    pub const NAME_SPACE: &'static str = "/brand-socket";

    /// Name of the socket event that carries the payloads.
    pub const EVENT_NAME: &'static str = "stream";

    /// Decodes a parsed payload.
    ///
    /// The shapes are read member by member. A key that the payload repeats
    /// counts once, with its last value, and members that the shape does not
    /// name are passed over.
    pub fn from_object(object: &JsonObject) -> (decoded: Self)
        ensures
            decodes_to(object@, decoded.result),
    {
        let tag = match required_text(object, "type") {
            Ok(text) => text,
            Err(text) => {
                return BrandSocketEventDeserialized {
                    result: Err(BrandSocketEventDeserializeErr::Serde(text)),
                };
            },
        };
        let result = match EventKind::from_type(tag.as_str()) {
            None => Err(
                BrandSocketEventDeserializeErr::NotSupported(
                    "message type ".to_owned().concat(tag.as_str()),
                ),
            ),
            Some(EventKind::AccountStatus) => match AccountStatusMessage::from_object(object) {
                Ok(message) => Ok(BrandSocketEvent::AccountStatus(message)),
                Err(text) => Err(BrandSocketEventDeserializeErr::Serde(text)),
            },
            Some(EventKind::Property) => match PropertyMessage::from_object(object) {
                Ok(message) => Ok(BrandSocketEvent::Property(message)),
                Err(text) => Err(BrandSocketEventDeserializeErr::Serde(text)),
            },
            Some(EventKind::Position) => match PositionMessage::from_object(object) {
                Ok(message) => Ok(BrandSocketEvent::Position(message)),
                Err(text) => Err(BrandSocketEventDeserializeErr::Serde(text)),
            },
            Some(EventKind::ClosePosition) => match ClosePositionMessage::from_object(object) {
                Ok(message) => Ok(BrandSocketEvent::ClosePosition(message)),
                Err(text) => Err(BrandSocketEventDeserializeErr::Serde(text)),
            },
            Some(EventKind::OpenOrder) => match OpenOrderMessage::from_object(object) {
                Ok(message) => Ok(BrandSocketEvent::OpenOrder(message)),
                Err(text) => Err(BrandSocketEventDeserializeErr::Serde(text)),
            },
            Some(EventKind::ConnectionError) => match ConnectionErrorMessage::from_object(object) {
                Ok(message) => Ok(BrandSocketEvent::ConnectionError(message)),
                Err(text) => Err(BrandSocketEventDeserializeErr::Serde(text)),
            },
        };
        BrandSocketEventDeserialized { result }
    }

    /// Decodes one payload of the feed. A payload that is no JSON object is
    /// reported with the parser's message; nothing makes this function panic.
    ///
    /// Only a JSON object is read as a message: a payload that lists the
    /// members' values as a JSON array is malformed. A key that the payload
    /// repeats does not make it malformed: the last value counts.
    pub fn deserialize(payload: &str) -> (decoded: Self)
        ensures
            match json_object_of(payload@) {
                Ok(members) => decodes_to(members, decoded.result),
                Err(message) => decoded.result matches Err(
                    BrandSocketEventDeserializeErr::Serde(text),
                ) && text@ == message,
            },
    {
        match parse_members(payload) {
            Ok(object) => Self::from_object(&object),
            Err(message) => BrandSocketEventDeserialized {
                result: Err(BrandSocketEventDeserializeErr::Serde(message)),
            },
        }
    }
}

/// The six values of `type` are told apart: each announces its own shape and
/// no other.
pub proof fn lemma_each_type_has_its_kind(kind: EventKind)
    ensures
        EventKind::of_type(kind.tag()) == Some(kind),
{
    reveal_strlit("AccountStatus");
    reveal_strlit("Property");
    reveal_strlit("Position");
    reveal_strlit("ClosePosition");
    reveal_strlit("OpenOrder");
    reveal_strlit("ConnectionError");
    assert("AccountStatus"@.len() == 13 && "AccountStatus"@[0] == 'A');
    assert("Property"@.len() == 8 && "Property"@[1] == 'r');
    assert("Position"@.len() == 8 && "Position"@[1] == 'o');
    assert("ClosePosition"@.len() == 13 && "ClosePosition"@[0] == 'C');
    assert("OpenOrder"@.len() == 9);
    assert("ConnectionError"@.len() == 15);
}

/// A payload whose `type` is one of the six and whose members fit the shape
/// that it announces decodes to the event of that shape, with every field
/// taken from the member of its key.
pub proof fn lemma_fitting_payload_gives_its_event(
    members: JsonMembers,
    kind: EventKind,
    result: Result<BrandSocketEvent, BrandSocketEventDeserializeErr>,
)
    requires
        text_at(members, "type"@) == Some(kind.tag()),
        kind.fault(members) is None,
        decodes_to(members, result),
    ensures
        result matches Ok(event) && event.kind() == kind && event.describes(members),
{
    lemma_each_type_has_its_kind(kind);
}

/// A payload whose `type` is none of the six is reported as not supported,
/// whatever else it holds.
pub proof fn lemma_unknown_type_is_not_supported(
    members: JsonMembers,
    tag: Seq<char>,
    result: Result<BrandSocketEvent, BrandSocketEventDeserializeErr>,
)
    requires
        text_at(members, "type"@) == Some(tag),
        forall|kind: EventKind| tag != #[trigger] kind.tag(),
        decodes_to(members, result),
    ensures
        result matches Err(BrandSocketEventDeserializeErr::NotSupported(text)) && text@
            == unsupported_type(tag),
{
    assert(tag != EventKind::AccountStatus.tag());
    assert(tag != EventKind::Property.tag());
    assert(tag != EventKind::Position.tag());
    assert(tag != EventKind::ClosePosition.tag());
    assert(tag != EventKind::OpenOrder.tag());
    assert(tag != EventKind::ConnectionError.tag());
}

} // verus!
