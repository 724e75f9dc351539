//! Polls one shipment's tracking record, works out which tracking events are
//! new since the previous poll, and prepares them for the console and for a
//! chat-bot notifier.
pub mod config;
pub mod delta;
pub mod dispatch;
pub mod endpoint;
pub mod format;
pub mod model;
