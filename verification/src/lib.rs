//! Calendar synchronisation connectors: a CalDAV protocol client, OAuth2
//! connectors for Google and Outlook, and the records they work on.

pub mod config;
pub mod connectors;
pub mod controllers;
pub mod middleware;
pub mod models;
pub mod test_util;
pub mod text;
pub mod time;
pub mod xml;
