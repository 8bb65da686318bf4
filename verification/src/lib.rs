//! Logging configuration and crash-report composition for small services.
//!
//! The crate holds the decisions: how a log line is laid out, which
//! backend settings a configuration stands for, and the protocol a
//! process follows when a fault is caught.  Every function states what it
//! returns, and Verus proves the statement.  The few calls into `chrono`,
//! `log` and `flexi_logger`, and the equality of string slices, are taken
//! on trust, each under a contract that says what is believed of it.

pub mod logger;
pub mod painc;
pub mod report;
pub mod text;
pub mod time;
