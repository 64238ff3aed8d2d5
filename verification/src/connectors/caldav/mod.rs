//! The CalDAV protocol client: principal discovery, calendar discovery and
//! the event query.

pub mod caldav;
pub mod ics;
pub mod lemmas;
pub mod multistatus;
pub mod request;
pub mod wire;
