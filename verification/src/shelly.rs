//! The relay's JSON-RPC interface: the values that cross it and what the
//! client makes of them.

pub mod api;
pub mod data;
pub mod error;
