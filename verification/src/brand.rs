//! Bindings for the brand REST API.

pub mod api_client;
pub mod endpoints;
pub mod errors;
pub mod models;

pub use models::{
    AccountModel, AccountOperationRequest, AccountOperationResponse, AccountReportModel,
    AccountStatus, AssetModel, CancelOrderRequest, CheckEmailRequest, CheckEmailResponse,
    CloseAccountPositionsRequest, CloseAccountPositionsResponse, ClosedPositionSide,
    ClosedTradeReportModel, CreateAccountRequest, CreateUserRequest, CreateUserResponse,
    CreditAccountRequest, CreditAccountResponse, GetAccountRequest, GetAccountsReportRequest,
    GetAccountsReportResponse, GetApiStatusResponse, GetAssetsRequest, GetAssetsResponse,
    GetClosedTradesReportRequest, GetClosedTradesReportResponse, GetGroupsRequest,
    GetGroupsResponse, GetInstrumentsRequest, GetInstrumentsResponse, GetOpenedPositionsRequest,
    GetOpenedPositionsResponse, GetOrdersRequest, GetOrdersResponse, GetTradesReportRequest,
    GetTradesReportResponse, GroupModel, InstrumentModel, MonthlyActiveAccountModel,
    MonthlyActiveAccountsRequest, MonthlyActiveAccountsResponse, NextPageLink,
    NextPageLinkParams, OpenedPositionModel, OpenedPositionSide, OrderModel, OrderStatus,
    OrderType, PageLinks, PositionOrderType, SetAccountGroupRequest, SetUserPasswordRequest,
    SlOrderType, TradeReportModel, TradeReportOrderType, TradeReportPositionStatus,
    TradeReportSide, TradingDisabledReason, UpdateAccountStatusRequest,
    UpdateAccountStatusResponse, get_default_cursor,
};
