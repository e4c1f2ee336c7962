//! Verified core of the CRM services: query building for user statistics,
//! content rendering for the metadata service, message handling for the
//! notification service, configuration selection and bearer-token checks.

pub mod auth;
pub mod config;
pub mod metadata;
pub mod notify;
pub mod server;
pub mod text;
pub mod time;
pub mod user_stats;
