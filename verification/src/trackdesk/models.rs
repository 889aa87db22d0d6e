//! The vocabulary of the Trackdesk postback.

use vstd::prelude::*;

verus! {

/// How many steps the purchased challenge has.
#[derive(Debug, Clone, Copy, PartialEq, Eq, Structural)]
pub enum PostbackSteps {
    Instant,
    OneStep,
    TwoStep,
    ThreeStep,
    FourStep,
}

impl PostbackSteps {
    /// The wire spelling of the value.
    pub open spec fn wire_name(self) -> Seq<char> {
        match self {
            PostbackSteps::Instant => "instant"@,
            PostbackSteps::OneStep => "1-step"@,
            PostbackSteps::TwoStep => "2-step"@,
            PostbackSteps::ThreeStep => "3-step"@,
            PostbackSteps::FourStep => "4-step"@,
        }
    }

    /// Renders the value as it appears on the wire.
    pub fn to_string(&self) -> (text: String)
        ensures
            text@ == self.wire_name(),
    {
        match self {
            PostbackSteps::Instant => "instant".to_owned(),
            PostbackSteps::OneStep => "1-step".to_owned(),
            PostbackSteps::TwoStep => "2-step".to_owned(),
            PostbackSteps::ThreeStep => "3-step".to_owned(),
            PostbackSteps::FourStep => "4-step".to_owned(),
        }
    }
}

/// The trading platform of the purchased challenge.
#[derive(Debug, Clone, Copy, PartialEq, Eq, Structural)]
pub enum PostbackTradingPlatform {
    Tradelocker,
    Mt4,
    Mt5,
    Tradingview,
    Ctrader,
    Matchtrader,
    Oxtrade,
    Volumetrica,
    Thinktrader,
    Other,
}

impl PostbackTradingPlatform {
    /// The wire spelling of the value.
    pub open spec fn wire_name(self) -> Seq<char> {
        match self {
            PostbackTradingPlatform::Tradelocker => "tradelocker"@,
            PostbackTradingPlatform::Mt4 => "mt4"@,
            PostbackTradingPlatform::Mt5 => "mt5"@,
            PostbackTradingPlatform::Tradingview => "tradingview"@,
            PostbackTradingPlatform::Ctrader => "ctrader"@,
            PostbackTradingPlatform::Matchtrader => "matchtrader"@,
            PostbackTradingPlatform::Oxtrade => "oxtrade"@,
            PostbackTradingPlatform::Volumetrica => "volumetrica"@,
            PostbackTradingPlatform::Thinktrader => "thinktrader"@,
            PostbackTradingPlatform::Other => "other"@,
        }
    }

    /// Renders the value as it appears on the wire.
    pub fn to_string(&self) -> (text: String)
        ensures
            text@ == self.wire_name(),
    {
        match self {
            PostbackTradingPlatform::Tradelocker => "tradelocker".to_owned(),
            PostbackTradingPlatform::Mt4 => "mt4".to_owned(),
            PostbackTradingPlatform::Mt5 => "mt5".to_owned(),
            PostbackTradingPlatform::Tradingview => "tradingview".to_owned(),
            PostbackTradingPlatform::Ctrader => "ctrader".to_owned(),
            PostbackTradingPlatform::Matchtrader => "matchtrader".to_owned(),
            PostbackTradingPlatform::Oxtrade => "oxtrade".to_owned(),
            PostbackTradingPlatform::Volumetrica => "volumetrica".to_owned(),
            PostbackTradingPlatform::Thinktrader => "thinktrader".to_owned(),
            PostbackTradingPlatform::Other => "other".to_owned(),
        }
    }
}

} // verus!
