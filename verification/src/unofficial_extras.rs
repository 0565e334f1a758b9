//! The squad and chat extension of the host: its records and its handshake.

pub mod raw_structs;
pub mod subscribe;
