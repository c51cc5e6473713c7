//! Decisions of a Binance Spot execution client, with their contracts.
//!
//! The library holds every rule that stands between a trading command and the venue: the shape
//! of the final unsigned request, the order in which its permit is acquired, armed and released,
//! and the order events that follow from what the venue reports. Sockets, clocks, timers and
//! random identifiers belong to the caller, who hands plain values in and carries out the actions
//! that come back.

pub mod anomaly;
pub mod binance_truth;
pub mod client;
pub mod client_laws;
pub mod commands;
pub mod connect;
pub mod decimal;
pub mod dispatch;
pub mod dispatch_laws;
pub mod dispatch_state;
pub mod enums;
pub mod events;
pub mod execution_persistence;
pub mod execution_write;
pub mod identifiers;
pub mod order_laws;
pub mod order_list;
pub mod orders;
pub mod private_stream;
pub mod queries;
pub mod report_laws;
pub mod reports;
pub mod request_fields;
pub mod text;
pub mod truth;
pub mod types;
pub mod value_laws;
pub mod venue_error;
pub mod write_laws;
pub mod write_task;
