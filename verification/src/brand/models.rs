//! The requests and responses of the brand API.

use vstd::prelude::*;
use crate::models::{AccountType, UtcDateTime};
use crate::text::{decimal, decimal_string};

verus! {

/// A new user of the brand.
#[derive(Debug, Clone, PartialEq, Eq)]
pub struct CreateUserRequest {
    pub email: String,
    pub password: String,
    pub first_name: Option<String>,
    pub last_name: Option<String>,
}

/// The user that was created.
#[derive(Debug, Clone, PartialEq, Eq)]
pub struct CreateUserResponse {
    pub user_id: String,
}

/// Asks for the user with an e-mail address.
#[derive(Debug, Clone, PartialEq, Eq)]
pub struct CheckEmailRequest {
    pub email: String,
}

/// The user with the e-mail address.
#[derive(Debug, Clone, PartialEq, Eq)]
pub struct CheckEmailResponse {
    pub user_id: String,
}

/// A new password for a user.
#[derive(Debug, Clone, PartialEq, Eq)]
pub struct SetUserPasswordRequest {
    pub user_id: String,
    pub password: String,
}

/// Asks for one account.
#[derive(Debug, Clone, PartialEq, Eq)]
pub struct GetAccountRequest {
    pub account_id: String,
}

/// Represents the reason for trading being disabled.
#[derive(Debug, Clone, PartialEq, Eq)]
pub struct TradingDisabledReason {
    /// The reason type for trading being disabled (e.g., RISK_RULE).
    pub reason_type: String,
}

/// Represents an account with various attributes.
#[derive(Debug, Clone, PartialEq, Eq)]
pub struct AccountModel {
    /// The name of the account.
    pub account_name: String,
    /// The unique identifier for the account.
    pub account_id: String,
    /// The unique identifier for the user associated with the account (UUID).
    pub user_id: String,
    /// The user group ID of the account.
    pub user_group_id: String,
    /// The type of the account to create (e.g., LIVE, DEMO).
    pub account_type: AccountType,
    /// The status of the account (e.g., ACTIVE, RESTRICTED, SUSPENDED).
    /// If ACTIVE, trading could be disabled by a risk rule.
    /// Check the 'tradingDisabledReason' property.
    pub status: AccountStatus,
    /// The reason for trading being disabled. If null, trading is enabled.
    pub trading_disabled_reason: Option<TradingDisabledReason>,
    /// The 3-letter ISO 4217 code of the currency or ticker symbol for the crypto asset of this account.
    pub currency: String,
    /// The leverage for the account (optional).
    pub leverage: Option<String>,
    /// The current account balance.
    pub balance: String,
    /// The current account credit.
    pub credit: String,
    /// The current account equity.
    pub equity: String,
    /// The current account profit and loss (PNL).
    pub pnl: String,
    /// The current account margin available.
    pub margin_available: String,
    /// The current account margin used.
    pub margin_used: String,
    /// The date and time when the account was created.
    pub created_date_time: String,
}

/// A new account for a user.
#[derive(Debug, Clone, PartialEq, Eq)]
pub struct CreateAccountRequest {
    /// The unique identifier for the user (UUID).
    pub user_id: String,
    /// The name of the account.
    pub account_name: String,
    /// The type of the account to create (e.g., LIVE).
    pub account_type: AccountType,
    /// The 3-letter ISO 4217 code of the currency or ticker symbol for the crypto asset of this account.
    pub currency: String,
    /// The ID of the group to place the account into. If not provided, placed into the brand's default group.
    pub group_id: Option<String>,
}

/// Names the account to activate, restrict or suspend.
#[derive(Debug, Clone, PartialEq, Eq)]
pub struct UpdateAccountStatusRequest {
    pub account_id: String,
}

/// Status of an account.
#[derive(Debug, Clone, Copy, PartialEq, Eq, Structural)]
pub enum AccountStatus {
    Active,
    Restricted,
    Suspended,
}

impl AccountStatus {
    /// The wire spelling of the value.
    pub open spec fn wire_name(self) -> Seq<char> {
        match self {
            AccountStatus::Active => "ACTIVE"@,
            AccountStatus::Restricted => "RESTRICTED"@,
            AccountStatus::Suspended => "SUSPENDED"@,
        }
    }

    /// Renders the value as it appears on the wire.
    pub fn to_string(&self) -> (text: String)
        ensures
            text@ == self.wire_name(),
    {
        match self {
            AccountStatus::Active => "ACTIVE".to_owned(),
            AccountStatus::Restricted => "RESTRICTED".to_owned(),
            AccountStatus::Suspended => "SUSPENDED".to_owned(),
        }
    }
}

/// The account and the status it has now.
#[derive(Debug, Clone, PartialEq, Eq)]
pub struct UpdateAccountStatusResponse {
    pub account_id: String,
    pub status: AccountStatus,
}

/// Moves an account to another group.
#[derive(Debug, Clone, PartialEq, Eq)]
pub struct SetAccountGroupRequest {
    pub account_id: String,
    pub group_id: String,
}

/// Asks to close every position of an account.
#[derive(Debug, Clone, PartialEq, Eq)]
pub struct CloseAccountPositionsRequest {
    pub account_id: String,
}

/// The positions that were ordered to be closed.
#[derive(Debug, Clone, PartialEq, Eq)]
pub struct CloseAccountPositionsResponse {
    pub position_ids: Vec<String>,
}

/// Adds credit to an account or takes it away.
#[derive(Debug, Clone, PartialEq, Eq)]
pub struct CreditAccountRequest {
    pub account_id: String,
    /// Amount of the operation. Positive to add, negative to subtract.
    pub amount: String,
    pub note: Option<String>,
}

/// The credit operation that was booked.
#[derive(Debug, Clone, PartialEq, Eq)]
pub struct CreditAccountResponse {
    pub operation_id: String,
}

/// Asks for the instruments of a kind of accounts.
#[derive(Debug, Clone, PartialEq, Eq)]
pub struct GetInstrumentsRequest {
    pub account_type: AccountType,
}

/// A tradable instrument.
#[derive(Debug, Clone, PartialEq, Eq)]
pub struct InstrumentModel {
    pub name: String,
    pub lot_size: i32,
}

/// The instruments of the brand.
#[derive(Debug, Clone, PartialEq, Eq)]
pub struct GetInstrumentsResponse {
    pub data: Vec<InstrumentModel>,
}

/// Asks for the open positions, of one account or of all.
#[derive(Debug, Clone, PartialEq, Eq)]
pub struct GetOpenedPositionsRequest {
    pub account_type: AccountType,
    pub account_id: Option<String>,
}

/// An open position.
#[derive(Debug, Clone, PartialEq, Eq)]
pub struct OpenedPositionModel {
    pub id: String,
    pub account_id: String,
    pub lots: String,
    pub lot_size: String,
    pub units: String,
    pub open_date_time: UtcDateTime,
    pub pnl: String,
    pub swap: String,
    pub sl_price: Option<String>,
    pub tp_price: Option<String>,
    pub open_price: String,
    pub side: OpenedPositionSide,
    pub instrument: String,
}

/// The open positions, the most recently opened first.
#[derive(Debug, Clone, PartialEq, Eq)]
pub struct GetOpenedPositionsResponse {
    pub data: Vec<OpenedPositionModel>,
}

/// Asks for one page of the closed trades of an account.
#[derive(Debug, Clone, PartialEq, Eq)]
pub struct GetClosedTradesReportRequest {
    pub account_id: String,
    pub account_type: AccountType,
    /// Cursor to fetch the next page of events. If not provided, the first page of events will be returned.
    /// Must be an integer string, greater than or equal to 0 and less than or equal to 9223372036854775807
    pub cursor: Option<String>,
    /// Page size; max 1000, default 20.
    pub limit: Option<String>,
}

/// The cursor that asks for the newest page of a report: the largest cursor
/// that the API accepts, 9223372036854775807.
pub fn get_default_cursor() -> (cursor: String)
    ensures
        cursor@ == decimal(i64::MAX as nat),
{
    decimal_string(0x7fff_ffff_ffff_ffff)
}

/// A closed trade.
#[derive(Debug, Clone, PartialEq, Eq)]
pub struct ClosedTradeReportModel {
    pub instrument: String,
    pub open_milliseconds: String,
    pub order_type: String,
    pub position_side: ClosedPositionSide,
    pub close_amount: String,
    pub average_open_price: String,
    pub close_price: String,
    pub close_milliseconds: String,
    pub open_amount: String,
    pub close_trade_id: String,
    pub open_trade_id: String,
    pub close_order_id: String,
    pub position_id: String,
    pub open_order_id: String,
    pub strategy_id: Option<String>,
    pub sl_price: Option<String>,
    pub sl_order_type: Option<SlOrderType>,
    pub sl_trailing_offset: Option<String>,
    pub tp_price: Option<String>,
    pub commission: String,
    pub swap: String,
    pub profit: String,
    pub net_profit: String,
}

/// Represents pagination links with associated parameters.
#[derive(Debug, Clone, PartialEq, Eq)]
pub struct PageLinks {
    /// The URL for the next set of results.
    pub next: Option<NextPageLink>,
}

/// Represents the next link and its associated parameters.
#[derive(Debug, Clone, PartialEq, Eq)]
pub struct NextPageLink {
    /// The URL for the next page.
    pub url: Option<String>,
    /// Parameters associated with the next link.
    pub params: NextPageLinkParams,
}

/// Represents the parameters for the next link.
#[derive(Debug, Clone, PartialEq, Eq)]
pub struct NextPageLinkParams {
    pub account_id: String,
    pub account_type: AccountType,
    pub cursor: String,
    pub limit: u32,
}

/// Kind of a stop loss order.
#[derive(Debug, Clone, Copy, PartialEq, Eq, Structural)]
pub enum SlOrderType {
    Stop,
    StopLimit,
    TrailingStop,
}

impl SlOrderType {
    /// The wire spelling of the value.
    pub open spec fn wire_name(self) -> Seq<char> {
        match self {
            SlOrderType::Stop => "STOP"@,
            SlOrderType::StopLimit => "STOP_LIMIT"@,
            SlOrderType::TrailingStop => "TRAILING_STOP"@,
        }
    }

    /// Renders the value as it appears on the wire.
    pub fn to_string(&self) -> (text: String)
        ensures
            text@ == self.wire_name(),
    {
        match self {
            SlOrderType::Stop => "STOP".to_owned(),
            SlOrderType::StopLimit => "STOP_LIMIT".to_owned(),
            SlOrderType::TrailingStop => "TRAILING_STOP".to_owned(),
        }
    }
}

/// Kind of an order behind a position.
#[derive(Debug, Clone, Copy, PartialEq, Eq, Structural)]
pub enum PositionOrderType {
    Market,
    ProtectiveStop,
    StopLoss,
    Stop,
    StopOut,
    ProtectiveLimit,
    TakeProfit,
    Limit,
    StopLimit,
    TrailingStopLoss,
    TrailingStop,
    Buy,
    Sell,
}

impl PositionOrderType {
    /// The wire spelling of the value.
    pub open spec fn wire_name(self) -> Seq<char> {
        match self {
            PositionOrderType::Market => "Market"@,
            PositionOrderType::ProtectiveStop => "Protective stop"@,
            PositionOrderType::StopLoss => "Stop loss"@,
            PositionOrderType::Stop => "Stop"@,
            PositionOrderType::StopOut => "Stop Out"@,
            PositionOrderType::ProtectiveLimit => "Protective limit"@,
            PositionOrderType::TakeProfit => "Take profit"@,
            PositionOrderType::Limit => "Limit"@,
            PositionOrderType::StopLimit => "Stop Limit"@,
            PositionOrderType::TrailingStopLoss => "Trailing Stop Loss"@,
            PositionOrderType::TrailingStop => "Trailing Stop"@,
            PositionOrderType::Buy => "Buy"@,
            PositionOrderType::Sell => "Sell"@,
        }
    }

    /// Renders the value as it appears on the wire.
    pub fn to_string(&self) -> (text: String)
        ensures
            text@ == self.wire_name(),
    {
        match self {
            PositionOrderType::Market => "Market".to_owned(),
            PositionOrderType::ProtectiveStop => "Protective stop".to_owned(),
            PositionOrderType::StopLoss => "Stop loss".to_owned(),
            PositionOrderType::Stop => "Stop".to_owned(),
            PositionOrderType::StopOut => "Stop Out".to_owned(),
            PositionOrderType::ProtectiveLimit => "Protective limit".to_owned(),
            PositionOrderType::TakeProfit => "Take profit".to_owned(),
            PositionOrderType::Limit => "Limit".to_owned(),
            PositionOrderType::StopLimit => "Stop Limit".to_owned(),
            PositionOrderType::TrailingStopLoss => "Trailing Stop Loss".to_owned(),
            PositionOrderType::TrailingStop => "Trailing Stop".to_owned(),
            PositionOrderType::Buy => "Buy".to_owned(),
            PositionOrderType::Sell => "Sell".to_owned(),
        }
    }
}

/// Side of a closed position.
#[derive(Debug, Clone, Copy, PartialEq, Eq, Structural)]
pub enum ClosedPositionSide {
    Buy,
    Sell,
}

impl ClosedPositionSide {
    /// The wire spelling of the value.
    pub open spec fn wire_name(self) -> Seq<char> {
        match self {
            ClosedPositionSide::Buy => "Buy"@,
            ClosedPositionSide::Sell => "Sell"@,
        }
    }

    /// Renders the value as it appears on the wire.
    pub fn to_string(&self) -> (text: String)
        ensures
            text@ == self.wire_name(),
    {
        match self {
            ClosedPositionSide::Buy => "Buy".to_owned(),
            ClosedPositionSide::Sell => "Sell".to_owned(),
        }
    }
}

/// Side of an open position.
#[derive(Debug, Clone, Copy, PartialEq, Eq, Structural)]
pub enum OpenedPositionSide {
    Buy,
    Sell,
    ShortSell,
    BuyToConvert,
}

impl OpenedPositionSide {
    /// The wire spelling of the value.
    pub open spec fn wire_name(self) -> Seq<char> {
        match self {
            OpenedPositionSide::Buy => "BUY"@,
            OpenedPositionSide::Sell => "SELL"@,
            OpenedPositionSide::ShortSell => "SHORT_SELL"@,
            OpenedPositionSide::BuyToConvert => "BUY_TO_COVER"@,
        }
    }

    /// Renders the value as it appears on the wire.
    pub fn to_string(&self) -> (text: String)
        ensures
            text@ == self.wire_name(),
    {
        match self {
            OpenedPositionSide::Buy => "BUY".to_owned(),
            OpenedPositionSide::Sell => "SELL".to_owned(),
            OpenedPositionSide::ShortSell => "SHORT_SELL".to_owned(),
            OpenedPositionSide::BuyToConvert => "BUY_TO_COVER".to_owned(),
        }
    }
}

/// One page of closed trades.
#[derive(Debug, Clone, PartialEq, Eq)]
pub struct GetClosedTradesReportResponse {
    pub data: Vec<ClosedTradeReportModel>,
    /// Links to the next page of the report. Use params for the next page URL search params.
    pub links: PageLinks,
}

/// Asks for the groups of a kind of accounts.
#[derive(Debug, Clone, PartialEq, Eq)]
pub struct GetGroupsRequest {
    pub account_type: AccountType,
}

/// A group of accounts.
#[derive(Debug, Clone, PartialEq, Eq)]
pub struct GroupModel {
    pub name: String,
    pub id: String,
}

/// The groups of the brand.
#[derive(Debug, Clone, PartialEq, Eq)]
pub struct GetGroupsResponse {
    pub data: Vec<GroupModel>,
}

/// Asks for the statement of some or all accounts.
#[derive(Debug, Clone, PartialEq, Eq)]
pub struct GetAccountsReportRequest {
    pub account_type: AccountType,
    pub account_ids: Option<Vec<String>>,
    pub account_status: Option<AccountStatus>,
}

/// The statements of the accounts.
#[derive(Debug, Clone, PartialEq, Eq)]
pub struct GetAccountsReportResponse {
    pub data: Vec<AccountReportModel>,
}

/// The statement of one account.
#[derive(Debug, Clone, PartialEq, Eq)]
pub struct AccountReportModel {
    pub account_id: String,
    pub balance: String,
    pub credit: String,
    pub equity: String,
    pub pnl: String,
    pub margin_used: String,
    pub margin_available: String,
    pub user_group_id: String,
}

/// What the readiness probe answers.
#[derive(Debug, Clone, PartialEq, Eq)]
pub struct GetApiStatusResponse {
    pub status: String,
}

/// Asks for the trades of a span of time.
#[derive(Debug, Clone, PartialEq, Eq)]
pub struct GetTradesReportRequest {
    pub account_type: AccountType,
    pub account_id: Option<String>,
    /// Start time in ISO format. 2021-12-31T23:59:59.999Z
    pub start_date_time: String,
    /// End time in ISO format. 2021-12-31T23:59:59.999Z
    pub end_date_time: String,
    pub enable_sl_tp: Option<bool>,
}

/// The trades of the span.
#[derive(Debug, Clone, PartialEq, Eq)]
pub struct GetTradesReportResponse {
    pub data: Vec<TradeReportModel>,
}

/// A trade.
#[derive(Debug, Clone, PartialEq, Eq)]
pub struct TradeReportModel {
    pub trade_id: String,
    pub order_id: String,
    pub account_id: String,
    pub side: TradeReportSide,
    pub order_type: String,
    pub position_status: TradeReportPositionStatus,
    /// Trade time in milliseconds since the Unix epoch. Use `trade_date_time`
    /// instead.
    pub trade_time: i64,
    /// Trade time in ISO format.
    pub trade_date_time: String,
    pub price: String,
    pub lots: String,
    pub instrument: String,
    pub position_id: String,
    pub pnl: String,
    pub execution_fee: String,
    pub stop_loss: Option<String>,
    pub stop_loss_limit: Option<String>,
    pub take_profit: Option<String>,
}

/// Side of a trade.
#[derive(Debug, Clone, Copy, PartialEq, Eq, Structural)]
pub enum TradeReportSide {
    Buy,
    Sell,
    ShortSell,
    BuyToCover,
}

impl TradeReportSide {
    /// The wire spelling of the value.
    pub open spec fn wire_name(self) -> Seq<char> {
        match self {
            TradeReportSide::Buy => "BUY"@,
            TradeReportSide::Sell => "SELL"@,
            TradeReportSide::ShortSell => "SHORT_SELL"@,
            TradeReportSide::BuyToCover => "BUY_TO_COVER"@,
        }
    }

    /// Renders the value as it appears on the wire.
    pub fn to_string(&self) -> (text: String)
        ensures
            text@ == self.wire_name(),
    {
        match self {
            TradeReportSide::Buy => "BUY".to_owned(),
            TradeReportSide::Sell => "SELL".to_owned(),
            TradeReportSide::ShortSell => "SHORT_SELL".to_owned(),
            TradeReportSide::BuyToCover => "BUY_TO_COVER".to_owned(),
        }
    }
}

/// Kind of the order behind a trade.
#[derive(Debug, Clone, Copy, PartialEq, Eq, Structural)]
pub enum TradeReportOrderType {
    Market,
    ProtectiveStop,
    StopLoss,
    Stop,
    StopOut,
    ProtectiveLimit,
    TakeProfit,
    Limit,
    StopLimit,
    TrailingStopLoss,
    TrailingStop,
}

impl TradeReportOrderType {
    /// The wire spelling of the value.
    pub open spec fn wire_name(self) -> Seq<char> {
        match self {
            TradeReportOrderType::Market => "Market"@,
            TradeReportOrderType::ProtectiveStop => "ProtectiveStop"@,
            TradeReportOrderType::StopLoss => "StopLoss"@,
            TradeReportOrderType::Stop => "Stop"@,
            TradeReportOrderType::StopOut => "StopOut"@,
            TradeReportOrderType::ProtectiveLimit => "ProtectiveLimit"@,
            TradeReportOrderType::TakeProfit => "TakeProfit"@,
            TradeReportOrderType::Limit => "Limit"@,
            TradeReportOrderType::StopLimit => "StopLimit"@,
            TradeReportOrderType::TrailingStopLoss => "TrailingStopLoss"@,
            TradeReportOrderType::TrailingStop => "TrailingStop"@,
        }
    }

    /// Renders the value as it appears on the wire.
    pub fn to_string(&self) -> (text: String)
        ensures
            text@ == self.wire_name(),
    {
        match self {
            TradeReportOrderType::Market => "Market".to_owned(),
            TradeReportOrderType::ProtectiveStop => "ProtectiveStop".to_owned(),
            TradeReportOrderType::StopLoss => "StopLoss".to_owned(),
            TradeReportOrderType::Stop => "Stop".to_owned(),
            TradeReportOrderType::StopOut => "StopOut".to_owned(),
            TradeReportOrderType::ProtectiveLimit => "ProtectiveLimit".to_owned(),
            TradeReportOrderType::TakeProfit => "TakeProfit".to_owned(),
            TradeReportOrderType::Limit => "Limit".to_owned(),
            TradeReportOrderType::StopLimit => "StopLimit".to_owned(),
            TradeReportOrderType::TrailingStopLoss => "TrailingStopLoss".to_owned(),
            TradeReportOrderType::TrailingStop => "TrailingStop".to_owned(),
        }
    }
}

/// What a trade did to its position.
#[derive(Debug, Clone, Copy, PartialEq, Eq, Structural)]
pub enum TradeReportPositionStatus {
    Close,
    Open,
    Increase,
    Decrease,
}

impl TradeReportPositionStatus {
    /// The wire spelling of the value.
    pub open spec fn wire_name(self) -> Seq<char> {
        match self {
            TradeReportPositionStatus::Close => "CLOSE"@,
            TradeReportPositionStatus::Open => "OPEN"@,
            TradeReportPositionStatus::Increase => "INCREASE"@,
            TradeReportPositionStatus::Decrease => "DECREASE"@,
        }
    }

    /// Renders the value as it appears on the wire.
    pub fn to_string(&self) -> (text: String)
        ensures
            text@ == self.wire_name(),
    {
        match self {
            TradeReportPositionStatus::Close => "CLOSE".to_owned(),
            TradeReportPositionStatus::Open => "OPEN".to_owned(),
            TradeReportPositionStatus::Increase => "INCREASE".to_owned(),
            TradeReportPositionStatus::Decrease => "DECREASE".to_owned(),
        }
    }
}

/// Asks for the assets of a kind of accounts.
#[derive(Debug, Clone, PartialEq, Eq)]
pub struct GetAssetsRequest {
    pub account_type: AccountType,
}

/// An asset.
#[derive(Debug, Clone, PartialEq, Eq)]
pub struct AssetModel {
    pub name: String,
    pub id: i32,
}

/// The assets of the brand.
#[derive(Debug, Clone, PartialEq, Eq)]
pub struct GetAssetsResponse {
    pub data: Vec<AssetModel>,
}

/// Names the order to cancel.
#[derive(Debug, Clone, PartialEq, Eq)]
pub struct CancelOrderRequest {
    pub account_type: AccountType,
    pub order_id: String,
}

/// Asks for one page of orders.
#[derive(Debug, Clone, PartialEq, Eq)]
pub struct GetOrdersRequest {
    pub account_type: AccountType,
    pub account_id: Option<String>,
    /// Default is 0
    pub offset: Option<i32>,
    /// Default is 1000
    pub limit: Option<i32>,
}

/// One page of orders.
#[derive(Debug, Clone, PartialEq, Eq)]
pub struct GetOrdersResponse {
    pub data: Vec<OrderModel>,
}

/// An order.
#[derive(Debug, Clone, PartialEq, Eq)]
pub struct OrderModel {
    pub account_id: String,
    pub amount: String,
    pub lot_size: String,
    pub average_filled_price: Option<String>,
    pub created_date_time: String,
    pub expire_date_time: Option<String>,
    pub expire_time: Option<String>,
    pub filled_amount: String,
    pub order_id: String,
    pub position_id: Option<String>,
    pub price: String,
    pub side: String,
    pub sl_limit_price: Option<String>,
    pub sl_price: Option<String>,
    pub sl_price_type: String,
    pub status: OrderStatus,
    pub stop_price: Option<String>,
    /// Time-in-force of the order.
    pub tif: String,
    pub tp_price: Option<String>,
    pub tp_price_type: String,
    pub instrument: String,
    pub order_type: OrderType,
}

/// Status of an order.
#[derive(Debug, Clone, Copy, PartialEq, Eq, PartialOrd, Structural)]
pub enum OrderStatus {
    StatusNone,
    PendingNew,
    PendingExecution,
    PendingCancel,
    PendingReplace,
    PendingReplaceNotActive,
    New,
    Accepted,
    Replaced,
    PartFilled,
    Filled,
    Canceled,
    Refused,
    Restated,
    Activated,
    WaitingMarket,
    OffMarket,
    Unplaced,
    Removed,
    ModifyTradingMode,
}

impl OrderStatus {
    /// The wire spelling of the value.
    pub open spec fn wire_name(self) -> Seq<char> {
        match self {
            OrderStatus::StatusNone => "STATUS_NONE"@,
            OrderStatus::PendingNew => "STATUS_PENDING_NEW"@,
            OrderStatus::PendingExecution => "STATUS_PENDING_EXECUTION"@,
            OrderStatus::PendingCancel => "STATUS_PENDING_CANCEL"@,
            OrderStatus::PendingReplace => "STATUS_PENDING_REPLACE"@,
            OrderStatus::PendingReplaceNotActive => "STATUS_PENDING_REPLACE_NOT_ACTIVE"@,
            OrderStatus::New => "STATUS_NEW"@,
            OrderStatus::Accepted => "STATUS_ACCEPTED"@,
            OrderStatus::Replaced => "STATUS_REPLACED"@,
            OrderStatus::PartFilled => "STATUS_PART_FILLED"@,
            OrderStatus::Filled => "STATUS_FILLED"@,
            OrderStatus::Canceled => "STATUS_CANCELED"@,
            OrderStatus::Refused => "STATUS_REFUSED"@,
            OrderStatus::Restated => "STATUS_RESTATED"@,
            OrderStatus::Activated => "EXEC_TYPE_ACTIVATED"@,
            OrderStatus::WaitingMarket => "STATUS_WAITING_MARKET"@,
            OrderStatus::OffMarket => "STATUS_OFF_MARKET"@,
            OrderStatus::Unplaced => "STATUS_UNPLACED"@,
            OrderStatus::Removed => "STATUS_REMOVED"@,
            OrderStatus::ModifyTradingMode => "STATUS_MODIFY_TRADING_MODE"@,
        }
    }

    /// Renders the value as it appears on the wire.
    pub fn to_string(&self) -> (text: String)
        ensures
            text@ == self.wire_name(),
    {
        match self {
            OrderStatus::StatusNone => "STATUS_NONE".to_owned(),
            OrderStatus::PendingNew => "STATUS_PENDING_NEW".to_owned(),
            OrderStatus::PendingExecution => "STATUS_PENDING_EXECUTION".to_owned(),
            OrderStatus::PendingCancel => "STATUS_PENDING_CANCEL".to_owned(),
            OrderStatus::PendingReplace => "STATUS_PENDING_REPLACE".to_owned(),
            OrderStatus::PendingReplaceNotActive => "STATUS_PENDING_REPLACE_NOT_ACTIVE".to_owned(),
            OrderStatus::New => "STATUS_NEW".to_owned(),
            OrderStatus::Accepted => "STATUS_ACCEPTED".to_owned(),
            OrderStatus::Replaced => "STATUS_REPLACED".to_owned(),
            OrderStatus::PartFilled => "STATUS_PART_FILLED".to_owned(),
            OrderStatus::Filled => "STATUS_FILLED".to_owned(),
            OrderStatus::Canceled => "STATUS_CANCELED".to_owned(),
            OrderStatus::Refused => "STATUS_REFUSED".to_owned(),
            OrderStatus::Restated => "STATUS_RESTATED".to_owned(),
            OrderStatus::Activated => "EXEC_TYPE_ACTIVATED".to_owned(),
            OrderStatus::WaitingMarket => "STATUS_WAITING_MARKET".to_owned(),
            OrderStatus::OffMarket => "STATUS_OFF_MARKET".to_owned(),
            OrderStatus::Unplaced => "STATUS_UNPLACED".to_owned(),
            OrderStatus::Removed => "STATUS_REMOVED".to_owned(),
            OrderStatus::ModifyTradingMode => "STATUS_MODIFY_TRADING_MODE".to_owned(),
        }
    }
}

/// Kind of an order.
#[derive(Debug, Clone, Copy, PartialEq, Eq, PartialOrd, Structural)]
pub enum OrderType {
    Manual,
    Market,
    Stop,
    Limit,
    StopLimit,
    TrailingStop,
}

impl OrderType {
    /// The wire spelling of the value.
    pub open spec fn wire_name(self) -> Seq<char> {
        match self {
            OrderType::Manual => "MANUAL"@,
            OrderType::Market => "MARKET"@,
            OrderType::Stop => "STOP"@,
            OrderType::Limit => "LIMIT"@,
            OrderType::StopLimit => "STOP_LIMIT"@,
            OrderType::TrailingStop => "TRAILING_STOP"@,
        }
    }

    /// Renders the value as it appears on the wire.
    pub fn to_string(&self) -> (text: String)
        ensures
            text@ == self.wire_name(),
    {
        match self {
            OrderType::Manual => "MANUAL".to_owned(),
            OrderType::Market => "MARKET".to_owned(),
            OrderType::Stop => "STOP".to_owned(),
            OrderType::Limit => "LIMIT".to_owned(),
            OrderType::StopLimit => "STOP_LIMIT".to_owned(),
            OrderType::TrailingStop => "TRAILING_STOP".to_owned(),
        }
    }
}

/// A deposit to an account or a withdrawal from it.
#[derive(Debug, Clone, PartialEq, Eq)]
pub struct AccountOperationRequest {
    pub account_id: String,
    /// Amount of the operation. Must be positive.
    pub amount: String,
    pub note: Option<String>,
}

/// The operation that was booked.
#[derive(Debug, Clone, PartialEq, Eq)]
pub struct AccountOperationResponse {
    pub operation_id: String,
}

/// Asks for the accounts that were active in a month.
#[derive(Debug, Clone, PartialEq, Eq)]
pub struct MonthlyActiveAccountsRequest {
    /// Activity for set month. ISO format YYYY-MM. All dates are in UTC. 2021-08
    pub for_month: String,
    /// Return data as Json or binary CSV.
    pub return_type: String,
}

/// The accounts that were active in the month.
#[derive(Debug, Clone, PartialEq, Eq)]
pub struct MonthlyActiveAccountsResponse {
    pub data: Vec<MonthlyActiveAccountModel>,
}

/// Activity of one account in the month.
#[derive(Debug, Clone, PartialEq, Eq)]
pub struct MonthlyActiveAccountModel {
    pub account_id: String,
    pub group: String,
    pub sessions: i32,
    pub events: i32,
    pub accounts: i32,
    pub open_positions: i32,
    pub orders: i32,
}

} // verus!
