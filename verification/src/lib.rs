//! Safe, verified core of a plugin binding for a combat-logging overlay host.
//!
//! The host speaks a fixed C ABI made of raw records, nullable C strings and
//! function-pointer tables. This crate holds the part of the binding that
//! decides and converts: how raw records read as safe values, how window
//! messages are decoded, how the subscriber handshake is negotiated, and how
//! the export table is laid out from the callbacks a plugin supplies.

pub mod text;
pub mod timestamp;
pub mod unofficial_extras;
pub mod raw_structs;
pub mod helpers;
pub mod adapters;
pub mod logging;
pub mod export;
pub mod codegen;
pub mod context;
