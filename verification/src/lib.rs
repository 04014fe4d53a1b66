//! Credential-rotation pipeline: assume a cloud IAM role, then publish the
//! short-lived session credentials into an edge key-value dictionary so that
//! other services can read them without direct IAM access.
//!
//! The library holds the verified decision logic: configuration validation,
//! validation of the role-assumption response, interpretation of the secret
//! fetch, and the per-invocation state machine that sequences the publishes.
//! The surrounding binary performs the network calls and feeds their outcomes
//! back into the machine.

pub mod config;
pub mod creds;
pub mod dict;
pub mod errors;
pub mod pipeline;
pub mod secret;
