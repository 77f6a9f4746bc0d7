//! A typed client for the OpenShock HTTP API.
//!
//! The crate holds everything about the API that can be decided without
//! touching the network: how a client is configured, which request each
//! operation sends, and how a reply body is read back into records.

pub mod api;
pub mod api_builder;
pub mod data_type;
pub mod error;
pub mod header;
pub mod json;
pub mod laws;
pub mod outside;
pub mod text;
pub mod wire;
