//! Bridging network requests to a long-lived child process that speaks a
//! line-delimited protocol over its standard streams: process spawning
//! and handshake, the one-request-at-a-time query primitive, timeout and
//! failure handling, and the provisioning pipeline that prepares a
//! process's working tree before it is started.
//!
//! The pipe, filesystem and network I/O live with the embedding
//! application; this crate holds the decisions, each with its contract.

pub mod auth;
pub mod config;
pub mod error;
pub mod process;
pub mod provision;
pub mod runtime;
pub mod session;
pub mod text;
