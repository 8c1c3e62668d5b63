//! Candlestick data: one OHLC price bar with a lifecycle state.

use vstd::prelude::*;
use crate::rounding::PRICE_LIMIT;

verus! {

/// The time interval one candlestick covers.
#[derive(Clone, Copy, Debug, PartialEq, Eq, Structural)]
pub enum TimeFrame {
    OneMinute,
    FiveMinutes,
    OneHour,
    OneDay,
    OneMonth,
}

/// Whether a candlestick is still forming (`Open`) or final (`Closed`).
#[derive(Clone, Copy, Debug, PartialEq, Eq, Structural)]
pub enum CandlestickState {
    Open,
    Closed,
}

/// One OHLC price bar. Prices are counts of ticks (10^-8 of a price unit).
#[derive(Clone, Copy, Debug)]
pub struct Candlestick {
    pub open: i64,
    pub close: i64,
    pub high: i64,
    pub low: i64,
    pub time_frame: TimeFrame,
    pub timestamp: Option<i64>,
    pub number_of_trades: u32,
    pub state: CandlestickState,
}

impl Candlestick {
    /// Every price of the candle lies within the fixed-point range the
    /// engine's arithmetic is proved for. Nothing else is demanded: in
    /// particular a degenerate candle with `high < low` is accepted.
    pub open spec fn valid(self) -> bool {
        &&& -PRICE_LIMIT <= self.open <= PRICE_LIMIT
        &&& -PRICE_LIMIT <= self.close <= PRICE_LIMIT
        &&& -PRICE_LIMIT <= self.high <= PRICE_LIMIT
        &&& -PRICE_LIMIT <= self.low <= PRICE_LIMIT
    }
}

} // verus!
