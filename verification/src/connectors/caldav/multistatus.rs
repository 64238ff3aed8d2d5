//! The multistatus answer of a CalDAV server, as decoded from its XML body,
//! and the outcome of one exchange.

use vstd::prelude::*;

verus! {

/// An `href` element.
#[derive(Debug)]
pub struct Href {
    pub href: String,
}

/// The `prop` of a principal discovery: the current user's principal.
#[derive(Debug)]
pub struct CurrentPrincipleProp {
    pub current_user_principal: Href,
}

/// A privilege of the current user on a calendar.
#[derive(Debug, Clone, Copy, PartialEq, Eq, Structural)]
pub struct CalendarPrivilege {}

/// The `calendar` marker of a resource type.
#[derive(Debug, Clone, Copy, PartialEq, Eq, Structural)]
pub struct ResourceTypeCalendar {}

/// The `collection` marker of a resource type.
#[derive(Debug, Clone, Copy, PartialEq, Eq, Structural)]
pub struct ResourceTypeCollection {}

/// The resource type of a collection: which markers it carries.
#[derive(Debug, Clone, Copy, PartialEq, Eq, Structural)]
pub struct CalendarResourceType {
    pub calendar: Option<ResourceTypeCalendar>,
    pub collection: Option<ResourceTypeCollection>,
}

/// One component that a calendar supports.
#[derive(Debug, Clone, Copy, PartialEq, Eq, Structural)]
pub struct CalendarComponent {}

/// The components that a calendar supports.
#[derive(Debug)]
pub struct SupportCalendarComponentSet {
    pub components: Option<Vec<CalendarComponent>>,
}

/// The `prop` of a calendar discovery. Every element is optional.
#[derive(Debug)]
pub struct CalendarResponseData {
    pub displayname: Option<String>,
    pub resourcetype: Option<CalendarResourceType>,
    pub privileges: Option<Vec<CalendarPrivilege>>,
    pub calendar_color: Option<String>,
    pub components: Option<SupportCalendarComponentSet>,
}

/// The `prop` of an event query: the entry's ETag and its calendar data.
#[derive(Debug)]
pub struct EventResponse {
    pub getetag: Option<String>,
    pub calendar_data: Option<String>,
}

/// One `propstat`: a status line and the properties it speaks of.
#[derive(Debug)]
pub struct Propstat<T> {
    pub prop: Option<T>,
    pub status: String,
}

/// One `response`: a resource and its `propstat` elements.
#[derive(Debug)]
pub struct PropfindResponse<T> {
    pub href: String,
    pub propstat: Vec<Propstat<T>>,
}

/// A multistatus document: its `response` elements in document order.
#[derive(Debug)]
pub struct MultiStatus<T> {
    pub response: Vec<PropfindResponse<T>>,
}

/// How one exchange with the server ended.
#[derive(Debug)]
pub enum CaldavReply<T> {
    /// No answer came back; the cause of the failure.
    Unreachable(String),
    /// The server answered. `document` is the body as decoded, or the
    /// decoder's complaint; it is read only under status 207.
    Answered { status: u16, document: Result<MultiStatus<T>, String> },
}

/// Whether the first `propstat` of a response reports success.
pub open spec fn status_ok<T>(response: PropfindResponse<T>) -> bool {
    response.propstat@.len() > 0 && response.propstat@[0].status@ == "HTTP/1.1 200 OK"@
}

} // verus!
