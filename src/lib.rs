//! Candlestick formation recognition over exact fixed-point prices.
//!
//! `CandleStick` classifies a single bar from its open, high, low and close;
//! `CandleStream` keeps the last few bars of a feed in a ring buffer and
//! recognises formations of two and three consecutive bars.
pub mod candle_stick;
pub mod candle_stream;
pub mod lemmas;

pub use candle_stick::{Candle, CandleStick, Thresholds};
pub use candle_stream::CandleStream;
