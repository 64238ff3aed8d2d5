//! The records that the connectors and their callers hand to each other.

pub mod app;
pub mod app_key;
pub mod calendar;
pub mod group;
pub mod integration;
pub mod oauth2_state;
pub mod oauth_integration;
