//! Request-forwarding core of a desktop backend that sits between a local
//! user interface and one remote HTTP API.
//!
//! The crate decides; its caller performs. It builds the request that is to
//! be sent from the configured base URL, and classifies what came back into
//! a structured value, raw bytes, or one of four kinds of failure. Sending,
//! reading files and persisting settings are left to the caller, which hands
//! the results back as plain values.

pub mod json;
pub mod error;
pub mod state;
pub mod api;
pub mod settings;
pub mod commands;
