use vstd::prelude::*;

verus! {

/// Which side of the book an order or a trade is on.
#[derive(Debug, Clone, Copy, PartialEq, Eq, Structural)]
pub enum OrderSide {
    Buy,
    Sell,
}

impl OrderSide {
    /// The wire label of the side.
    pub open spec fn label(self) -> Seq<char> {
        match self {
            OrderSide::Buy => "buy"@,
            OrderSide::Sell => "sell"@,
        }
    }

    /// The wire label of the side, lowercase.
    pub fn to_string(&self) -> (r: String)
        ensures
            r@ == self.label(),
    {
        match self {
            OrderSide::Buy => String::from_str("buy"),
            OrderSide::Sell => String::from_str("sell"),
        }
    }
}

/// The kind of an order.
#[derive(Debug, Clone, Copy, PartialEq, Eq, Structural)]
pub enum OrderType {
    Limit,
    Market,
    Stop,
    StopLimit,
}

impl OrderType {
    /// The wire label of the order type.
    pub open spec fn label(self) -> Seq<char> {
        match self {
            OrderType::Limit => "limit"@,
            OrderType::Market => "market"@,
            OrderType::Stop => "stop"@,
            OrderType::StopLimit => "stop_limit"@,
        }
    }

    /// The wire label of the order type.
    pub fn to_string(&self) -> (r: String)
        ensures
            r@ == self.label(),
    {
        match self {
            OrderType::Limit => String::from_str("limit"),
            OrderType::Market => String::from_str("market"),
            OrderType::Stop => String::from_str("stop"),
            OrderType::StopLimit => String::from_str("stop_limit"),
        }
    }
}

/// The granularity of a candlestick series.
#[allow(non_camel_case_types)]
#[derive(Debug, Clone, Copy, PartialEq, Eq, Structural)]
pub enum CandleType {
    _1min,
    _5min,
    _15min,
    _30min,
    _1hour,
    _4hour,
    _8hour,
    _12hour,
    _1day,
    _1week,
    _1month,
}

impl CandleType {
    /// The wire label of the granularity.
    pub open spec fn label(self) -> Seq<char> {
        match self {
            CandleType::_1min => "1min"@,
            CandleType::_5min => "5min"@,
            CandleType::_15min => "15min"@,
            CandleType::_30min => "30min"@,
            CandleType::_1hour => "1hour"@,
            CandleType::_4hour => "4hour"@,
            CandleType::_8hour => "8hour"@,
            CandleType::_12hour => "12hour"@,
            CandleType::_1day => "1day"@,
            CandleType::_1week => "1week"@,
            CandleType::_1month => "1month"@,
        }
    }

    /// Granularities of one hour or finer are requested per day.
    pub open spec fn spec_is_intraday(self) -> bool {
        match self {
            CandleType::_1min | CandleType::_5min | CandleType::_15min | CandleType::_30min
            | CandleType::_1hour => true,
            _ => false,
        }
    }

    /// Length of the date suffix that a request for this granularity carries:
    /// `YYYYMMDD` for intraday series, `YYYY` for the others.
    pub open spec fn date_len(self) -> nat {
        if self.spec_is_intraday() {
            8
        } else {
            4
        }
    }

    /// Whether the granularity is one hour or finer.
    pub fn is_intraday(&self) -> (r: bool)
        ensures
            r == self.spec_is_intraday(),
    {
        match self {
            CandleType::_1min | CandleType::_5min | CandleType::_15min | CandleType::_30min
            | CandleType::_1hour => true,
            _ => false,
        }
    }

    /// The wire label of the granularity, such as `5min`.
    pub fn to_string(&self) -> (r: String)
        ensures
            r@ == self.label(),
    {
        match self {
            CandleType::_1min => String::from_str("1min"),
            CandleType::_5min => String::from_str("5min"),
            CandleType::_15min => String::from_str("15min"),
            CandleType::_30min => String::from_str("30min"),
            CandleType::_1hour => String::from_str("1hour"),
            CandleType::_4hour => String::from_str("4hour"),
            CandleType::_8hour => String::from_str("8hour"),
            CandleType::_12hour => String::from_str("12hour"),
            CandleType::_1day => String::from_str("1day"),
            CandleType::_1week => String::from_str("1week"),
            CandleType::_1month => String::from_str("1month"),
        }
    }
}

} // verus!
