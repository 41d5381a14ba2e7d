//! Core of a live damage-telemetry client for a turn-based combat game.
//!
//! The library covers the parts of the pipeline that carry real protocol and
//! aggregation logic: the length-prefixed frame codec, the typed packet
//! schema and its JSON decoding, the dispatcher that folds packets into the
//! shared aggregate store, the bounded message log, and the reconnect/backoff
//! state machine. Socket and file I/O live outside the library and hand it
//! plain values.

pub mod app_state;
pub mod codec;
pub mod config;
pub mod conn;
pub mod decimal;
pub mod dispatch;
pub mod json;
pub mod logger;
pub mod models;
pub mod store;
