//! Decision core of a trading engine for short-duration binary prediction
//! markets: exact fixed-point arithmetic, the streaming transport's
//! decisions, feed parsing, order-book state, the momentum, lag and spread
//! detectors, sizing, paper execution, position accounting, risk limits and
//! the recorder's bookkeeping.
pub mod fixed;
mod clock;
pub mod ids;
pub mod ws;
pub mod market;
pub mod feed;
pub mod orderbook;
pub mod depth;
pub mod directory;
pub mod config;
pub mod momentum;
pub mod lag;
pub mod spread;
pub mod signal;
pub mod signal_detector;
pub mod model;
pub mod filter;
pub mod risk;
pub mod execution;
pub mod position;
pub mod recorder;
pub mod columnar;
pub mod telemetry;
pub mod orchestrator;
pub mod spread_orchestrator;
pub mod backtest;
