use trade_locker_connector::brand::models::{
    get_default_cursor, AccountStatus, ClosedPositionSide, CreateUserRequest, GetClosedTradesReportRequest,
    OpenedPositionSide, OrderStatus, OrderType, PositionOrderType, SlOrderType, TradeReportOrderType,
    TradeReportPositionStatus, TradeReportSide,
};
use trade_locker_connector::models::AccountType;

#[test]
fn default_cursor_is_the_largest() {
    assert_eq!(get_default_cursor(), "9223372036854775807");
    assert_eq!(get_default_cursor(), i64::MAX.to_string());
}

#[test]
fn account_status_spelling() {
    assert_eq!(AccountStatus::Active.to_string(), "ACTIVE");
    assert_eq!(AccountStatus::Restricted.to_string(), "RESTRICTED");
    assert_eq!(AccountStatus::Suspended.to_string(), "SUSPENDED");
}

#[test]
fn sl_order_type_spelling() {
    assert_eq!(SlOrderType::Stop.to_string(), "STOP");
    assert_eq!(SlOrderType::StopLimit.to_string(), "STOP_LIMIT");
    assert_eq!(SlOrderType::TrailingStop.to_string(), "TRAILING_STOP");
}

#[test]
fn position_order_type_spelling() {
    let cases = [
        (PositionOrderType::Market, "Market"),
        (PositionOrderType::ProtectiveStop, "Protective stop"),
        (PositionOrderType::StopLoss, "Stop loss"),
        (PositionOrderType::Stop, "Stop"),
        (PositionOrderType::StopOut, "Stop Out"),
        (PositionOrderType::ProtectiveLimit, "Protective limit"),
        (PositionOrderType::TakeProfit, "Take profit"),
        (PositionOrderType::Limit, "Limit"),
        (PositionOrderType::StopLimit, "Stop Limit"),
        (PositionOrderType::TrailingStopLoss, "Trailing Stop Loss"),
        (PositionOrderType::TrailingStop, "Trailing Stop"),
        (PositionOrderType::Buy, "Buy"),
        (PositionOrderType::Sell, "Sell"),
    ];
    for (value, text) in cases {
        assert_eq!(value.to_string(), text);
    }
}

#[test]
fn position_side_spelling() {
    assert_eq!(ClosedPositionSide::Buy.to_string(), "Buy");
    assert_eq!(ClosedPositionSide::Sell.to_string(), "Sell");
    assert_eq!(OpenedPositionSide::Buy.to_string(), "BUY");
    assert_eq!(OpenedPositionSide::Sell.to_string(), "SELL");
    assert_eq!(OpenedPositionSide::ShortSell.to_string(), "SHORT_SELL");
    assert_eq!(OpenedPositionSide::BuyToConvert.to_string(), "BUY_TO_COVER");
}

#[test]
fn trade_report_spelling() {
    assert_eq!(TradeReportSide::Buy.to_string(), "BUY");
    assert_eq!(TradeReportSide::Sell.to_string(), "SELL");
    assert_eq!(TradeReportSide::ShortSell.to_string(), "SHORT_SELL");
    assert_eq!(TradeReportSide::BuyToCover.to_string(), "BUY_TO_COVER");
    assert_eq!(TradeReportPositionStatus::Close.to_string(), "CLOSE");
    assert_eq!(TradeReportPositionStatus::Open.to_string(), "OPEN");
    assert_eq!(TradeReportPositionStatus::Increase.to_string(), "INCREASE");
    assert_eq!(TradeReportPositionStatus::Decrease.to_string(), "DECREASE");
}

#[test]
fn trade_report_order_type_is_spelled_as_named() {
    let cases = [
        (TradeReportOrderType::Market, "Market"),
        (TradeReportOrderType::ProtectiveStop, "ProtectiveStop"),
        (TradeReportOrderType::StopLoss, "StopLoss"),
        (TradeReportOrderType::Stop, "Stop"),
        (TradeReportOrderType::StopOut, "StopOut"),
        (TradeReportOrderType::ProtectiveLimit, "ProtectiveLimit"),
        (TradeReportOrderType::TakeProfit, "TakeProfit"),
        (TradeReportOrderType::Limit, "Limit"),
        (TradeReportOrderType::StopLimit, "StopLimit"),
        (TradeReportOrderType::TrailingStopLoss, "TrailingStopLoss"),
        (TradeReportOrderType::TrailingStop, "TrailingStop"),
    ];
    for (value, text) in cases {
        assert_eq!(value.to_string(), text);
    }
}

#[test]
fn order_status_spelling() {
    let cases = [
        (OrderStatus::StatusNone, "STATUS_NONE"),
        (OrderStatus::PendingNew, "STATUS_PENDING_NEW"),
        (OrderStatus::PendingExecution, "STATUS_PENDING_EXECUTION"),
        (OrderStatus::PendingCancel, "STATUS_PENDING_CANCEL"),
        (OrderStatus::PendingReplace, "STATUS_PENDING_REPLACE"),
        (OrderStatus::PendingReplaceNotActive, "STATUS_PENDING_REPLACE_NOT_ACTIVE"),
        (OrderStatus::New, "STATUS_NEW"),
        (OrderStatus::Accepted, "STATUS_ACCEPTED"),
        (OrderStatus::Replaced, "STATUS_REPLACED"),
        (OrderStatus::PartFilled, "STATUS_PART_FILLED"),
        (OrderStatus::Filled, "STATUS_FILLED"),
        (OrderStatus::Canceled, "STATUS_CANCELED"),
        (OrderStatus::Refused, "STATUS_REFUSED"),
        (OrderStatus::Restated, "STATUS_RESTATED"),
        (OrderStatus::Activated, "EXEC_TYPE_ACTIVATED"),
        (OrderStatus::WaitingMarket, "STATUS_WAITING_MARKET"),
        (OrderStatus::OffMarket, "STATUS_OFF_MARKET"),
        (OrderStatus::Unplaced, "STATUS_UNPLACED"),
        (OrderStatus::Removed, "STATUS_REMOVED"),
        (OrderStatus::ModifyTradingMode, "STATUS_MODIFY_TRADING_MODE"),
    ];
    for (value, text) in cases {
        assert_eq!(value.to_string(), text);
    }
    assert!(OrderStatus::StatusNone < OrderStatus::PendingNew);
}

#[test]
fn order_type_spelling() {
    let cases = [
        (OrderType::Manual, "MANUAL"),
        (OrderType::Market, "MARKET"),
        (OrderType::Stop, "STOP"),
        (OrderType::Limit, "LIMIT"),
        (OrderType::StopLimit, "STOP_LIMIT"),
        (OrderType::TrailingStop, "TRAILING_STOP"),
    ];
    for (value, text) in cases {
        assert_eq!(value.to_string(), text);
    }
}

#[test]
fn requests_are_plain_values() {
    let request = CreateUserRequest {
        email: "a@b.c".to_string(),
        password: "pw".to_string(),
        first_name: Some("A".to_string()),
        last_name: None,
    };
    assert_eq!(request.clone(), request);
    let report = GetClosedTradesReportRequest {
        account_id: "L#1".to_string(),
        account_type: AccountType::Live,
        cursor: Some(get_default_cursor()),
        limit: None,
    };
    assert_eq!(report.cursor.as_deref(), Some("9223372036854775807"));
}
