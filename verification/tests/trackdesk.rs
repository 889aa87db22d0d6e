use trade_locker_connector::trackdesk::api_client::{PostbackOutcome, TrackdeskApiClient, POSTBACK_TIMEOUT_SECS};
use trade_locker_connector::trackdesk::models::{PostbackSteps, PostbackTradingPlatform};

#[test]
fn postback_address_marks_the_conversion_as_approved() {
    let client = TrackdeskApiClient::new("https://t.example.com/conversion".to_string());
    assert_eq!(
        client.postback_url("cid=abc&externalId=o1"),
        "https://t.example.com/conversion?cid=abc&externalId=o1&status=CONVERSION_STATUS_APPROVED"
    );
    assert_eq!(client.postback_url(""), "https://t.example.com/conversion?&status=CONVERSION_STATUS_APPROVED");
}

#[test]
fn postback_succeeds_up_to_status_299() {
    let client = TrackdeskApiClient::new("https://t".to_string());
    for status in [0u16, 100, 200, 201, 204, 299] {
        assert_eq!(client.postback("cid=1", PostbackOutcome::Responded(status)), Ok(()));
    }
}

#[test]
fn postback_fails_above_status_299() {
    let client = TrackdeskApiClient::new("https://t".to_string());
    assert_eq!(
        client.postback("cid=1", PostbackOutcome::Responded(300)),
        Err("Request with unsucessful status: https://t?cid=1&status=CONVERSION_STATUS_APPROVED. Status code: 300"
            .to_string())
    );
    assert_eq!(
        client.postback("cid=1", PostbackOutcome::Responded(404)),
        Err("Request with unsucessful status: https://t?cid=1&status=CONVERSION_STATUS_APPROVED. Status code: 404"
            .to_string())
    );
    assert!(client.postback("", PostbackOutcome::Responded(65535)).is_err());
}

#[test]
fn postback_reports_a_failed_send() {
    let client = TrackdeskApiClient::new("https://t".to_string());
    assert_eq!(
        client.postback("cid=1", PostbackOutcome::SendFailed("timed out".to_string())),
        Err("Failed to send request: https://t?cid=1&status=CONVERSION_STATUS_APPROVED. Err: timed out".to_string())
    );
}

#[test]
fn postback_time_limit() {
    assert_eq!(POSTBACK_TIMEOUT_SECS, 15);
}

#[test]
fn postback_steps_spelling() {
    assert_eq!(PostbackSteps::Instant.to_string(), "instant");
    assert_eq!(PostbackSteps::OneStep.to_string(), "1-step");
    assert_eq!(PostbackSteps::TwoStep.to_string(), "2-step");
    assert_eq!(PostbackSteps::ThreeStep.to_string(), "3-step");
    assert_eq!(PostbackSteps::FourStep.to_string(), "4-step");
}

#[test]
fn postback_platform_spelling() {
    let cases = [
        (PostbackTradingPlatform::Tradelocker, "tradelocker"),
        (PostbackTradingPlatform::Mt4, "mt4"),
        (PostbackTradingPlatform::Mt5, "mt5"),
        (PostbackTradingPlatform::Tradingview, "tradingview"),
        (PostbackTradingPlatform::Ctrader, "ctrader"),
        (PostbackTradingPlatform::Matchtrader, "matchtrader"),
        (PostbackTradingPlatform::Oxtrade, "oxtrade"),
        (PostbackTradingPlatform::Volumetrica, "volumetrica"),
        (PostbackTradingPlatform::Thinktrader, "thinktrader"),
        (PostbackTradingPlatform::Other, "other"),
    ];
    for (platform, text) in cases {
        assert_eq!(platform.to_string(), text);
    }
}
