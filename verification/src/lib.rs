//! Storage and execution core of a market-data backtesting engine.
//!
//! The crate has two halves. The storage half is a fixed-capacity,
//! time-indexed numeric store: [`series::TimeSeries`] translates wall-clock
//! timestamps into dense array offsets under strict capacity and monotonicity
//! constraints, and [`series::OHLCV`] composes five such series (open, high,
//! low, close, volume) into one bar store with synchronized indices. The
//! execution half is a strategy harness: a [`strategy::Strategy`] is a state
//! machine that consumes one input at a time and may emit a
//! [`strategy::Signal`]; [`harness::BackTest`] and [`harness::LiveRun`] replay
//! an input sequence through a strategy and fold the emitted signals into a
//! [`harness::StrategySummary`].
//!
//! Prices and samples: the storage layer is generic over the sample type, so
//! callers may store any scalar they like. The signal and summary layer works
//! on integer prices (`i64`, e.g. a fixed-point tick count) with `i128`
//! profit-and-loss accumulators; converting a broker's floating-point feed
//! into ticks is a collaborator's concern, as is all data acquisition and
//! reporting.

pub mod errors;
pub mod series;
pub mod strategy;
pub mod harness;
