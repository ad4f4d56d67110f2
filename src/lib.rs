//! Cancellation coordination for exchange orders, and the statistics that
//! follow order lifecycle events.
pub mod types;
pub mod statistics;
pub mod order;
pub mod cancellation;
pub mod single_flight;
pub mod wait_cancel;
