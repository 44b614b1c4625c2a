//! Latency-measurement engine: a wire codec for a UDP echo protocol, a probe
//! result model with jitter tracking, running statistics, probing session
//! state machines, and a bounded history store with stable addressing.

pub mod codec;
pub mod color;
pub mod config;
pub mod fmt;
pub mod history;
pub mod pending;
pub mod result;
pub mod server;
pub mod session;
pub mod stats;
pub mod ui;
