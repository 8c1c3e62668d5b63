//! Incremental Ichimoku Cloud indicator engine.
//!
//! Prices are fixed-point: a price is a count of ticks, one tick being
//! 10^-8 of a price unit, so that a value rounded to 8 decimal places is a
//! whole number of ticks. The engine folds each candlestick's low and high
//! into running extrema for three look-back windows and derives the five
//! indicator lines from those extrema.

pub mod candle;
pub mod engine;
pub mod rounding;
