//! Federation core of a federated chat system: host identity, configuration,
//! authorization, connection pools, request correlation, fanout and the
//! locality rule that places each domain operation.

pub mod api;
pub mod auth;
pub mod bearer_auth;
pub mod cli;
pub mod config;
pub mod error;
pub mod jwks_resolver;
pub mod key_manager;
pub mod ops;
pub mod outside;
pub mod queries;
pub mod requests;
pub mod text;
pub mod types;
pub mod util;
pub mod ws;
