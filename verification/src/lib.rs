//! Client-side synchronization engine for a home-automation controller.
//!
//! The crate mirrors a set of named locales, each switched `on` or `off`, and
//! keeps that mirror in step with a remote controller that is reached over
//! datagrams.  Everything here is pure: sockets, files and threads belong to
//! the program that links this library.
//!
//! - [`transport`]: how a JSON text travels as two datagrams.
//! - [`json`]: the JSON texts themselves, written and read by `serde_json`.
//! - [`shapes`]: which JSON members stand for a locale and for a table.
//! - [`commands`]: the three requests and what their answers do to the table.
//! - [`store`]: the table of locales and the merge into it.
//! - [`merge_laws`]: what holds of every merge.
//! - [`scheduler`]: the background pollers.
//! - [`interval`]: the polling interval as the user types it.
//! - [`home`]: the state of the front end and its reaction to the user.
//! - [`error`]: the ways in which a message can fail.

pub mod commands;
pub mod error;
pub mod home;
pub mod interval;
pub mod json;
pub mod merge_laws;
pub mod scheduler;
pub mod shapes;
pub mod store;
pub mod transport;
