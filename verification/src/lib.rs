//! Automation core for a time-tracking web application.
//!
//! The library holds everything that can be stated and proved: parsing of
//! clock times and dates, aggregation of attendance rows into monthly
//! totals, pre-flight validation of subcommand arguments, the browser
//! action sequencer, and the small decisions of the notification relay.
//! The surrounding binary performs the actual browser and network calls
//! and feeds their results back in as plain values.

pub mod attendance;
pub mod config;
pub mod date;
pub mod relay;
pub mod sequencer;
pub mod strnum;
pub mod timeclock;
