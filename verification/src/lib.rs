//! A verified core for talking to a battery/power-management device over
//! JSON-over-UDP: envelope codec, broadcast discovery with deduplication,
//! the selected-device store, mode-change validation, and dashboard
//! aggregation. The hosting application supplies the sockets and feeds
//! datagram bytes in; every decision about those bytes is made here.

pub mod codec;
pub mod dashboard;
pub mod discovery;
pub mod error;
pub mod json;
pub mod keys;
pub mod mode;
pub mod store;
