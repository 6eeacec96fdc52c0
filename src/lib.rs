//! Runs a container image built from a local context with Google Cloud
//! application-default credentials mounted into it.
//!
//! The library holds the decisions: where the credentials live by default,
//! which engine invocations are made and in what order, and how the process
//! ends. Launching processes and reading the environment are left to the
//! caller, which drives a [`session::Session`] with what it observed.

pub mod text;
pub mod credentials;
pub mod command;
pub mod session;
