//! What the CalDAV client hands out (principals, calendars, events) and the
//! three protocol steps that produce it.

use vstd::prelude::*;
use crate::connectors::caldav::ics::{
    IcsEvent, IcsObject, IcsObjectView, IcsProperty, IcsPropertyView, collect_events,
    event_views, events_from_objects, extracted, ical_objects, kept_events, object_views,
    parse_objects, property_value,
};
use crate::connectors::caldav::multistatus::{
    CaldavReply, CalendarComponent, CalendarPrivilege, CalendarResourceType,
    CalendarResponseData, CurrentPrincipleProp, EventResponse, MultiStatus, PropfindResponse,
    SupportCalendarComponentSet, status_ok,
};
use crate::text::{
    copy_text, first_segment, first_segment_of, last_segment, last_segment_of, str_eq, text_view,
    trim_matches, trimmed,
};

verus! {

/// Why a protocol step produced nothing.
#[derive(Debug)]
pub enum CaldavError {
    /// The request did not reach the server, or no answer came back.
    NetworkError(String),
    /// The server answered with a status other than 207 Multi-Status.
    UnexpectedStatus(u16),
    /// The answer's body is not a multistatus document.
    DeserializationError(String),
    /// The multistatus document holds no `response` element.
    EmptyResponse,
    /// The principal's href yields no first path segment.
    MalformedPrincipalPath,
    /// No entry of the answer could be used.
    EmptyResultSet,
    /// An event lacks the named property.
    MissingRequiredProperty(String),
}

/// What a `CaldavError` holds, with its texts as characters.
pub enum CaldavErrorView {
    NetworkError(Seq<char>),
    UnexpectedStatus(u16),
    DeserializationError(Seq<char>),
    EmptyResponse,
    MalformedPrincipalPath,
    EmptyResultSet,
    MissingRequiredProperty(Seq<char>),
}

impl View for CaldavError {
    type V = CaldavErrorView;

    open spec fn view(&self) -> CaldavErrorView {
        match self {
            CaldavError::NetworkError(cause) => CaldavErrorView::NetworkError(cause@),
            CaldavError::UnexpectedStatus(status) => CaldavErrorView::UnexpectedStatus(*status),
            CaldavError::DeserializationError(cause) => CaldavErrorView::DeserializationError(
                cause@,
            ),
            CaldavError::EmptyResponse => CaldavErrorView::EmptyResponse,
            CaldavError::MalformedPrincipalPath => CaldavErrorView::MalformedPrincipalPath,
            CaldavError::EmptyResultSet => CaldavErrorView::EmptyResultSet,
            CaldavError::MissingRequiredProperty(name) => CaldavErrorView::MissingRequiredProperty(
                name@,
            ),
        }
    }
}

/// The status that the server gives a multistatus answer.
pub const MULTI_STATUS: u16 = 207;

/// The document that an exchange delivered, or the error that it amounts
/// to: no answer, a status other than 207, or a body that is no multistatus
/// document, in this order.
pub open spec fn document_of<T>(reply: CaldavReply<T>) -> Result<MultiStatus<T>, CaldavErrorView> {
    match reply {
        CaldavReply::Unreachable(cause) => Err(CaldavErrorView::NetworkError(cause@)),
        CaldavReply::Answered { status, document } => if status != MULTI_STATUS {
            Err(CaldavErrorView::UnexpectedStatus(status))
        } else {
            match document {
                Ok(multistatus) => Ok(multistatus),
                Err(cause) => Err(CaldavErrorView::DeserializationError(cause@)),
            }
        },
    }
}

/// Takes the multistatus document out of a reply.
pub fn multistatus_of<T>(reply: CaldavReply<T>) -> (out: Result<MultiStatus<T>, CaldavError>)
    ensures
        match out {
            Ok(multistatus) => document_of(reply) == Ok::<MultiStatus<T>, CaldavErrorView>(
                multistatus,
            ),
            Err(error) => document_of(reply) == Err::<MultiStatus<T>, CaldavErrorView>(error@),
        },
{
    match reply {
        CaldavReply::Unreachable(cause) => Err(CaldavError::NetworkError(cause)),
        CaldavReply::Answered { status, document } => {
            if status != MULTI_STATUS {
                Err(CaldavError::UnexpectedStatus(status))
            } else {
                match document {
                    Ok(multistatus) => Ok(multistatus),
                    Err(cause) => Err(CaldavError::DeserializationError(cause)),
                }
            }
        },
    }
}

/// Whether the first `propstat` of a response carries the status line
/// `HTTP/1.1 200 OK`.
pub fn is_status_ok<T>(response: &PropfindResponse<T>) -> (ok: bool)
    ensures
        ok == status_ok(*response),
{
    response.propstat.len() > 0 && str_eq(response.propstat[0].status.as_str(), "HTTP/1.1 200 OK")
}

/// The identity of the user on the server.
#[derive(Debug)]
pub struct PrincipalData {
    pub user_id: String,
    pub path: String,
}

/// What a `PrincipalData` holds, with its texts as characters.
pub struct PrincipalDataView {
    pub user_id: Seq<char>,
    pub path: Seq<char>,
}

impl View for PrincipalData {
    type V = PrincipalDataView;

    open spec fn view(&self) -> PrincipalDataView {
        PrincipalDataView { user_id: self.user_id@, path: self.path@ }
    }
}

impl PrincipalData {
    /// The principal of that user at that path.
    pub fn new(user_id: String, path: String) -> (out: Self)
        ensures
            out.user_id == user_id,
            out.path == path,
    {
        PrincipalData { user_id, path }
    }
}

/// What a principal discovery hands out, as views.
pub type PrincipalOutcome = Result<PrincipalDataView, CaldavErrorView>;

/// The principal that a response names: the path is the href of its
/// current user principal, the user is the first segment of that path once
/// the slashes at its ends are gone. A response without such an href, or
/// with one that holds nothing but slashes, names none.
pub open spec fn principal_of(
    response: PropfindResponse<CurrentPrincipleProp>,
) -> PrincipalOutcome {
    if response.propstat@.len() == 0 {
        Err(CaldavErrorView::MalformedPrincipalPath)
    } else {
        match response.propstat@[0].prop {
            None => Err(CaldavErrorView::MalformedPrincipalPath),
            Some(prop) => {
                let path = prop.current_user_principal.href@;
                let user_id = first_segment(trimmed(path, '/'), '/');
                if user_id.len() == 0 {
                    Err(CaldavErrorView::MalformedPrincipalPath)
                } else {
                    Ok(PrincipalDataView { user_id, path })
                }
            },
        }
    }
}

/// The outcome of a principal discovery, given how the exchange ended: the
/// first response decides.
pub open spec fn principal_outcome(reply: CaldavReply<CurrentPrincipleProp>) -> PrincipalOutcome {
    match document_of(reply) {
        Err(error) => Err(error),
        Ok(multistatus) => if multistatus.response@.len() == 0 {
            Err(CaldavErrorView::EmptyResponse)
        } else {
            principal_of(multistatus.response@[0])
        },
    }
}

/// What `get_principal` returned, as views.
pub open spec fn principal_result(r: Result<PrincipalData, CaldavError>) -> PrincipalOutcome {
    match r {
        Ok(data) => Ok(data@),
        Err(error) => Err(error@),
    }
}

/// Reads the principal out of the answer to a principal discovery.
pub fn get_principal(reply: CaldavReply<CurrentPrincipleProp>) -> (out: Result<
    PrincipalData,
    CaldavError,
>)
    ensures
        principal_result(out) == principal_outcome(reply),
{
    let multistatus = match multistatus_of(reply) {
        Ok(multistatus) => multistatus,
        Err(error) => {
            return Err(error);
        },
    };
    if multistatus.response.len() == 0 {
        return Err(CaldavError::EmptyResponse);
    }
    let first = &multistatus.response[0];
    if first.propstat.len() == 0 {
        return Err(CaldavError::MalformedPrincipalPath);
    }
    match &first.propstat[0].prop {
        None => Err(CaldavError::MalformedPrincipalPath),
        Some(prop) => {
            let path = prop.current_user_principal.href.clone();
            let inner = trim_matches(path.as_str(), '/');
            let user_id = first_segment_of(inner.as_str(), '/');
            if user_id.as_str().unicode_len() == 0 {
                Err(CaldavError::MalformedPrincipalPath)
            } else {
                Ok(PrincipalData::new(user_id, path))
            }
        },
    }
}

/// One calendar collection of the server.
#[derive(Debug)]
pub struct CaldavCalendar {
    pub id: String,
    pub path: String,
    pub displayname: String,
    pub resourcetype: CalendarResourceType,
    pub privileges: Vec<CalendarPrivilege>,
    pub calendar_color: String,
    pub components: SupportCalendarComponentSet,
}

/// What a `CaldavCalendar` holds, with its texts as characters.
pub struct CaldavCalendarView {
    pub id: Seq<char>,
    pub path: Seq<char>,
    pub displayname: Seq<char>,
    pub resourcetype: CalendarResourceType,
    pub privileges: Seq<CalendarPrivilege>,
    pub calendar_color: Seq<char>,
    pub components: Option<Seq<CalendarComponent>>,
}

impl View for CaldavCalendar {
    type V = CaldavCalendarView;

    open spec fn view(&self) -> CaldavCalendarView {
        CaldavCalendarView {
            id: self.id@,
            path: self.path@,
            displayname: self.displayname@,
            resourcetype: self.resourcetype,
            privileges: self.privileges@,
            calendar_color: self.calendar_color@,
            components: match self.components.components {
                Some(list) => Some(list@),
                None => None,
            },
        }
    }
}

/// The characters of an optional string: none where it is absent.
pub open spec fn text_or_empty(o: Option<String>) -> Seq<char> {
    match o {
        Some(s) => s@,
        None => Seq::empty(),
    }
}

/// The calendar that the properties of a collection at `path` describe. Its
/// id is the last segment of the path once the slashes at its ends are
/// gone; what the properties leave out is empty.
pub open spec fn calendar_of(data: CalendarResponseData, path: Seq<char>) -> CaldavCalendarView {
    CaldavCalendarView {
        id: last_segment(trimmed(path, '/'), '/'),
        path,
        displayname: text_or_empty(data.displayname),
        resourcetype: match data.resourcetype {
            Some(resourcetype) => resourcetype,
            None => CalendarResourceType { calendar: None, collection: None },
        },
        privileges: match data.privileges {
            Some(list) => list@,
            None => Seq::empty(),
        },
        calendar_color: text_or_empty(data.calendar_color),
        components: match data.components {
            Some(set) => match set.components {
                Some(list) => Some(list@),
                None => None,
            },
            None => None,
        },
    }
}

impl CaldavCalendar {
    /// The calendar that the properties of the collection at `path` describe.
    pub fn from_data(data: CalendarResponseData, path: String) -> (out: Self)
        ensures
            out@ == calendar_of(data, path@),
    {
        let inner = trim_matches(path.as_str(), '/');
        let id = last_segment_of(inner.as_str(), '/');
        CaldavCalendar {
            id,
            path,
            displayname: match data.displayname {
                Some(name) => name,
                None => String::new(),
            },
            resourcetype: match data.resourcetype {
                Some(resourcetype) => resourcetype,
                None => CalendarResourceType { calendar: None, collection: None },
            },
            privileges: match data.privileges {
                Some(list) => list,
                None => Vec::new(),
            },
            calendar_color: match data.calendar_color {
                Some(color) => color,
                None => String::new(),
            },
            components: match data.components {
                Some(set) => set,
                None => SupportCalendarComponentSet { components: None },
            },
        }
    }
}

/// Whether a resource type carries both the `collection` and the
/// `calendar` marker.
pub open spec fn is_calendar_collection(resourcetype: CalendarResourceType) -> bool {
    resourcetype.collection is Some && resourcetype.calendar is Some
}

/// The calendar that a response stands for: one whose first `propstat`
/// reports success and whose resource type carries both markers.
pub open spec fn calendar_entry(response: PropfindResponse<CalendarResponseData>) -> Option<
    CaldavCalendarView,
> {
    if !status_ok(response) {
        None
    } else {
        match response.propstat@[0].prop {
            None => None,
            Some(prop) => {
                let calendar = calendar_of(prop, response.href@);
                if is_calendar_collection(calendar.resourcetype) {
                    Some(calendar)
                } else {
                    None
                }
            },
        }
    }
}

/// The calendars among the responses, in document order.
pub open spec fn calendars_of(responses: Seq<PropfindResponse<CalendarResponseData>>) -> Seq<
    CaldavCalendarView,
> {
    responses.filter_map(|r: PropfindResponse<CalendarResponseData>| calendar_entry(r))
}

/// What a calendar discovery hands out, as views.
pub type CalendarsOutcome = Result<Seq<CaldavCalendarView>, CaldavErrorView>;

/// The outcome of a calendar discovery, given how the exchange ended.
pub open spec fn calendars_outcome(reply: CaldavReply<CalendarResponseData>) -> CalendarsOutcome {
    match document_of(reply) {
        Err(error) => Err(error),
        Ok(multistatus) => Ok(calendars_of(multistatus.response@)),
    }
}

/// The views of a run of calendars.
pub open spec fn calendar_views(list: Seq<CaldavCalendar>) -> Seq<CaldavCalendarView> {
    list.map_values(|c: CaldavCalendar| c@)
}

/// What `get_calendar` returned, as views.
pub open spec fn calendars_result(r: Result<Vec<CaldavCalendar>, CaldavError>) -> CalendarsOutcome {
    match r {
        Ok(list) => Ok(calendar_views(list@)),
        Err(error) => Err(error@),
    }
}

/// Reads the calendars out of the answer to a calendar discovery: the
/// responses whose first `propstat` is `HTTP/1.1 200 OK` and whose resource
/// type marks a calendar collection, in the order of the document.
pub fn get_calendar(reply: CaldavReply<CalendarResponseData>) -> (out: Result<
    Vec<CaldavCalendar>,
    CaldavError,
>)
    ensures
        calendars_result(out) == calendars_outcome(reply),
{
    let multistatus = match multistatus_of(reply) {
        Ok(multistatus) => multistatus,
        Err(error) => {
            return Err(error);
        },
    };
    let ghost responses = multistatus.response@;
    let mut list: Vec<CaldavCalendar> = Vec::new();
    assert(responses.take(0) == Seq::<PropfindResponse<CalendarResponseData>>::empty());
    assert(calendar_views(list@) == Seq::<CaldavCalendarView>::empty());
    for response in it: multistatus.response
        invariant
            responses == it.seq(),
            calendar_views(list@) == calendars_of(responses.take(it.index() as int)),
    {
        assert(responses.take(it.index() + 1).drop_last() == responses.take(it.index() as int));
        if is_status_ok(&response) {
            let PropfindResponse { href, propstat } = response;
            let mut propstat = propstat;
            let first = propstat.remove(0);
            if let Some(prop) = first.prop {
                let calendar = CaldavCalendar::from_data(prop, href);
                if calendar.resourcetype.collection.is_some()
                    && calendar.resourcetype.calendar.is_some() {
                    let ghost before = list@;
                    list.push(calendar);
                    assert(calendar_views(list@) == calendar_views(before).push(calendar@));
                }
            }
        }
    }
    assert(responses.take(responses.len() as int) == responses);
    Ok(list)
}

/// The fields of one VEVENT.
#[derive(Debug)]
pub struct CaldavEvent {
    pub uid: String,
    pub created: String,
    pub last_modified: Option<String>,
    pub summary: String,
    pub dtstart: String,
    pub dtend: String,
    pub status: Option<String>,
    pub organizer: Option<String>,
    pub recurrence_id: Option<String>,
    pub rrule: Option<String>,
    pub location: Option<String>,
    pub transp: Option<String>,
    pub categories: Option<String>,
    pub attach: Option<String>,
    pub attendee: Option<String>,
}

/// What a `CaldavEvent` holds, with its texts as characters.
pub struct CaldavEventView {
    pub uid: Seq<char>,
    pub created: Seq<char>,
    pub last_modified: Option<Seq<char>>,
    pub summary: Seq<char>,
    pub dtstart: Seq<char>,
    pub dtend: Seq<char>,
    pub status: Option<Seq<char>>,
    pub organizer: Option<Seq<char>>,
    pub recurrence_id: Option<Seq<char>>,
    pub rrule: Option<Seq<char>>,
    pub location: Option<Seq<char>>,
    pub transp: Option<Seq<char>>,
    pub categories: Option<Seq<char>>,
    pub attach: Option<Seq<char>>,
    pub attendee: Option<Seq<char>>,
}

impl View for CaldavEvent {
    type V = CaldavEventView;

    open spec fn view(&self) -> CaldavEventView {
        CaldavEventView {
            uid: self.uid@,
            created: self.created@,
            last_modified: text_view(self.last_modified),
            summary: self.summary@,
            dtstart: self.dtstart@,
            dtend: self.dtend@,
            status: text_view(self.status),
            organizer: text_view(self.organizer),
            recurrence_id: text_view(self.recurrence_id),
            rrule: text_view(self.rrule),
            location: text_view(self.location),
            transp: text_view(self.transp),
            categories: text_view(self.categories),
            attach: text_view(self.attach),
            attendee: text_view(self.attendee),
        }
    }
}

/// What the extraction of one event gives: its fields, or the reason why not.
pub type EventOutcome = Result<CaldavEventView, CaldavErrorView>;

/// The outcome that a result of the extraction stands for.
pub open spec fn outcome_of(r: Result<CaldavEvent, CaldavError>) -> EventOutcome {
    match r {
        Ok(event) => Ok(event@),
        Err(error) => Err(error@),
    }
}

/// The first of UID, CREATED, SUMMARY, DTSTART and DTEND, in this order, to
/// which the properties give no value.
pub open spec fn missing_property(props: Seq<IcsPropertyView>) -> Option<Seq<char>> {
    if property_value(props, "UID"@) is None {
        Some("UID"@)
    } else if property_value(props, "CREATED"@) is None {
        Some("CREATED"@)
    } else if property_value(props, "SUMMARY"@) is None {
        Some("SUMMARY"@)
    } else if property_value(props, "DTSTART"@) is None {
        Some("DTSTART"@)
    } else if property_value(props, "DTEND"@) is None {
        Some("DTEND"@)
    } else {
        None
    }
}

/// The event that the properties describe, where none of the required ones
/// is missing.
pub open spec fn event_fields(props: Seq<IcsPropertyView>) -> CaldavEventView {
    CaldavEventView {
        uid: property_value(props, "UID"@).unwrap(),
        created: property_value(props, "CREATED"@).unwrap(),
        last_modified: property_value(props, "LAST-MODIFIED"@),
        summary: property_value(props, "SUMMARY"@).unwrap(),
        dtstart: property_value(props, "DTSTART"@).unwrap(),
        dtend: property_value(props, "DTEND"@).unwrap(),
        status: property_value(props, "STATUS"@),
        organizer: property_value(props, "ORGANIZER"@),
        recurrence_id: property_value(props, "RECURRENCE-ID"@),
        rrule: property_value(props, "RRULE"@),
        location: property_value(props, "LOCATION"@),
        transp: property_value(props, "TRANSP"@),
        categories: property_value(props, "CATEGORIES"@),
        attach: property_value(props, "ATTACH"@),
        attendee: property_value(props, "ATTENDEE"@),
    }
}

/// The outcome of extracting the event that the properties describe.
pub open spec fn event_outcome(props: Seq<IcsPropertyView>) -> EventOutcome {
    match missing_property(props) {
        Some(name) => Err(CaldavErrorView::MissingRequiredProperty(name)),
        None => Ok(event_fields(props)),
    }
}

/// The value that the properties give `name`: the last one of that name
/// decides.
pub fn get_value_safe(properties: &Vec<IcsProperty>, name: &str) -> (out: Option<String>)
    ensures
        text_view(out) == property_value(properties@.map_values(|p: IcsProperty| p@), name@),
{
    let ghost props = properties@.map_values(|p: IcsProperty| p@);
    let mut i: usize = properties.len();
    assert(props.take(i as int) == props);
    while i > 0
        invariant
            i <= properties.len(),
            props == properties@.map_values(|p: IcsProperty| p@),
            property_value(props, name@) == property_value(props.take(i as int), name@),
        decreases i,
    {
        i = i - 1;
        assert(props.take(i + 1).drop_last() == props.take(i as int));
        assert(props.take(i + 1).last() == properties@[i as int]@);
        let property = &properties[i];
        if str_eq(property.name.as_str(), name) {
            return copy_text(&property.value);
        }
    }
    None
}

impl CaldavEvent {
    /// Reads the fields of an event from its properties. The event is
    /// refused where UID, CREATED, SUMMARY, DTSTART or DTEND has no value,
    /// and the error names the first of them that is missing.
    pub fn from_ical_evel(event: &IcsEvent) -> (out: Result<CaldavEvent, CaldavError>)
        ensures
            outcome_of(out) == event_outcome(event@),
    {
        let props = &event.properties;
        let uid = match get_value_safe(props, "UID") {
            Some(value) => value,
            None => {
                return Err(CaldavError::MissingRequiredProperty("UID".to_owned()));
            },
        };
        let created = match get_value_safe(props, "CREATED") {
            Some(value) => value,
            None => {
                return Err(CaldavError::MissingRequiredProperty("CREATED".to_owned()));
            },
        };
        let summary = match get_value_safe(props, "SUMMARY") {
            Some(value) => value,
            None => {
                return Err(CaldavError::MissingRequiredProperty("SUMMARY".to_owned()));
            },
        };
        let dtstart = match get_value_safe(props, "DTSTART") {
            Some(value) => value,
            None => {
                return Err(CaldavError::MissingRequiredProperty("DTSTART".to_owned()));
            },
        };
        let dtend = match get_value_safe(props, "DTEND") {
            Some(value) => value,
            None => {
                return Err(CaldavError::MissingRequiredProperty("DTEND".to_owned()));
            },
        };
        Ok(
            CaldavEvent {
                uid,
                created,
                last_modified: get_value_safe(props, "LAST-MODIFIED"),
                summary,
                dtstart,
                dtend,
                status: get_value_safe(props, "STATUS"),
                organizer: get_value_safe(props, "ORGANIZER"),
                recurrence_id: get_value_safe(props, "RECURRENCE-ID"),
                rrule: get_value_safe(props, "RRULE"),
                location: get_value_safe(props, "LOCATION"),
                transp: get_value_safe(props, "TRANSP"),
                categories: get_value_safe(props, "CATEGORIES"),
                attach: get_value_safe(props, "ATTACH"),
                attendee: get_value_safe(props, "ATTENDEE"),
            },
        )
    }
}

/// The events of one calendar as of one query.
#[derive(Debug)]
pub struct CaldavCalendarEvents {
    pub etag: String,
    pub events: Vec<CaldavEvent>,
}

/// What a `CaldavCalendarEvents` holds, with its texts as characters.
pub struct CaldavCalendarEventsView {
    pub etag: Seq<char>,
    pub events: Seq<CaldavEventView>,
}

impl View for CaldavCalendarEvents {
    type V = CaldavCalendarEventsView;

    open spec fn view(&self) -> CaldavCalendarEventsView {
        CaldavCalendarEventsView { etag: self.etag@, events: event_views(self.events@) }
    }
}

/// What an event query hands out, as views.
pub type EventsOutcome = Result<Seq<CaldavCalendarEventsView>, CaldavErrorView>;

/// A response of an event query that is retained: its ETag and its
/// calendar data.
#[derive(Debug)]
pub struct EventEntry {
    pub etag: String,
    pub calendar_data: String,
}

/// What an `EventEntry` holds, with its texts as characters.
pub struct EventEntryView {
    pub etag: Seq<char>,
    pub calendar_data: Seq<char>,
}

impl View for EventEntry {
    type V = EventEntryView;

    open spec fn view(&self) -> EventEntryView {
        EventEntryView { etag: self.etag@, calendar_data: self.calendar_data@ }
    }
}

/// The views of a run of entries.
pub open spec fn entry_views(entries: Seq<EventEntry>) -> Seq<EventEntryView> {
    entries.map_values(|e: EventEntry| e@)
}

/// The entry of a response that is retained: one whose first `propstat`
/// reports success and holds both an ETag and calendar data.
pub open spec fn event_entry(response: PropfindResponse<EventResponse>) -> Option<
    EventEntryView,
> {
    if !status_ok(response) {
        None
    } else {
        match response.propstat@[0].prop {
            Some(prop) => match (prop.getetag, prop.calendar_data) {
                (Some(etag), Some(data)) => Some(
                    EventEntryView { etag: etag@, calendar_data: data@ },
                ),
                _ => None,
            },
            None => None,
        }
    }
}

/// The entries of the responses that are retained, in document order.
pub open spec fn event_entries(responses: Seq<PropfindResponse<EventResponse>>) -> Seq<
    EventEntryView,
> {
    responses.filter_map(|r: PropfindResponse<EventResponse>| event_entry(r))
}

/// Retains the responses of an event query that can be used: those whose
/// first `propstat` is `HTTP/1.1 200 OK` and holds both an ETag and
/// calendar data. The others are passed over.
pub fn retained_entries(responses: &Vec<PropfindResponse<EventResponse>>) -> (out: Vec<
    EventEntry,
>)
    ensures
        entry_views(out@) == event_entries(responses@),
{
    let mut out: Vec<EventEntry> = Vec::new();
    let mut i: usize = 0;
    assert(responses@.take(0) == Seq::<PropfindResponse<EventResponse>>::empty());
    assert(entry_views(out@) == Seq::<EventEntryView>::empty());
    while i < responses.len()
        invariant
            i <= responses.len(),
            entry_views(out@) == event_entries(responses@.take(i as int)),
        decreases responses.len() - i,
    {
        assert(responses@.take(i + 1).drop_last() == responses@.take(i as int));
        let response = &responses[i];
        if is_status_ok(response) {
            if let Some(prop) = &response.propstat[0].prop {
                if let (Some(etag), Some(data)) = (&prop.getetag, &prop.calendar_data) {
                    let ghost before = out@;
                    let entry = EventEntry { etag: etag.clone(), calendar_data: data.clone() };
                    out.push(entry);
                    assert(entry_views(out@) == entry_views(before).push(entry@));
                }
            }
        }
        i = i + 1;
    }
    assert(responses@.take(responses.len() as int) == responses@);
    out
}

/// A retained response whose calendar data has been read.
#[derive(Debug)]
pub struct ParsedEntry {
    pub etag: String,
    pub objects: Vec<IcsObject>,
}

/// What a `ParsedEntry` holds, with its texts as characters.
pub struct ParsedEntryView {
    pub etag: Seq<char>,
    pub objects: Seq<IcsObjectView>,
}

impl View for ParsedEntry {
    type V = ParsedEntryView;

    open spec fn view(&self) -> ParsedEntryView {
        ParsedEntryView { etag: self.etag@, objects: object_views(self.objects@) }
    }
}

/// The views of a run of parsed entries.
pub open spec fn parsed_views(entries: Seq<ParsedEntry>) -> Seq<ParsedEntryView> {
    entries.map_values(|e: ParsedEntry| e@)
}

/// An entry with its calendar data read by the parser.
pub open spec fn parsed(entry: EventEntryView) -> ParsedEntryView {
    ParsedEntryView { etag: entry.etag, objects: ical_objects(entry.calendar_data) }
}

/// The entries with their calendar data read by the parser.
pub open spec fn all_parsed(entries: Seq<EventEntryView>) -> Seq<ParsedEntryView> {
    entries.map_values(|e: EventEntryView| parsed(e))
}

/// Reads the calendar data of every entry.
pub fn parse_entries(entries: Vec<EventEntry>) -> (out: Vec<ParsedEntry>)
    ensures
        parsed_views(out@) == all_parsed(entry_views(entries@)),
{
    let ghost wanted = all_parsed(entry_views(entries@));
    let mut out: Vec<ParsedEntry> = Vec::new();
    assert(parsed_views(out@) == wanted.take(0));
    for entry in it: entries
        invariant
            it.seq() == entries@,
            wanted == all_parsed(entry_views(entries@)),
            parsed_views(out@) == wanted.take(it.index() as int),
    {
        let ghost before = out@;
        let objects = parse_objects(entry.calendar_data.as_str());
        let read = ParsedEntry { etag: entry.etag, objects };
        out.push(read);
        assert(parsed_views(out@) == parsed_views(before).push(read@));
        assert(wanted.take(it.index() + 1) == wanted.take(it.index() as int).push(
            wanted[it.index() as int],
        ));
    }
    assert(wanted.take(wanted.len() as int) == wanted);
    out
}

/// The events of the entries, entry by entry under the entry's ETag: of
/// each entry the events that could be read, in the order of its text. An
/// event that lacks a required property is passed over.
pub open spec fn gathered(entries: Seq<ParsedEntryView>) -> Seq<CaldavCalendarEventsView> {
    entries.map_values(
        |e: ParsedEntryView|
            CaldavCalendarEventsView { etag: e.etag, events: kept_events(extracted(e.objects)) },
    )
}

/// The outcome of an event query whose retained entries have been read:
/// the events of each entry under its ETag, and an `EmptyResultSet` where
/// no entry is left.
pub open spec fn events_of(entries: Seq<ParsedEntryView>) -> EventsOutcome {
    if entries.len() == 0 {
        Err(CaldavErrorView::EmptyResultSet)
    } else {
        Ok(gathered(entries))
    }
}

/// The outcome of an event query, given how the exchange ended.
pub open spec fn events_outcome(reply: CaldavReply<EventResponse>) -> EventsOutcome {
    match document_of(reply) {
        Err(error) => Err(error),
        Ok(multistatus) => events_of(all_parsed(event_entries(multistatus.response@))),
    }
}

/// The views of a run of calendars' events.
pub open spec fn calendar_events_views(list: Seq<CaldavCalendarEvents>) -> Seq<
    CaldavCalendarEventsView,
> {
    list.map_values(|c: CaldavCalendarEvents| c@)
}

/// What `get_events` returned, as views.
pub open spec fn events_result(r: Result<Vec<CaldavCalendarEvents>, CaldavError>) -> EventsOutcome {
    match r {
        Ok(list) => Ok(calendar_events_views(list@)),
        Err(error) => Err(error@),
    }
}

/// Extracts the events of the entries of an event query: of each entry
/// the events that could be read, under the entry's ETag. An event that
/// lacks a required property is passed over; entries of which none is left
/// are an `EmptyResultSet`.
pub fn events_of_entries(entries: Vec<ParsedEntry>) -> (out: Result<
    Vec<CaldavCalendarEvents>,
    CaldavError,
>)
    ensures
        events_result(out) == events_of(parsed_views(entries@)),
{
    let ghost views = parsed_views(entries@);
    let mut list: Vec<CaldavCalendarEvents> = Vec::new();
    assert(calendar_events_views(list@) == gathered(views.take(0)));
    for entry in it: entries
        invariant
            it.seq() == entries@,
            views == parsed_views(entries@),
            calendar_events_views(list@) == gathered(views.take(it.index() as int)),
    {
        let ghost before = list@;
        let events = collect_events(events_from_objects(&entry.objects));
        let calendar = CaldavCalendarEvents { etag: entry.etag, events };
        list.push(calendar);
        assert(calendar_events_views(list@) == calendar_events_views(before).push(calendar@));
        assert(views.take(it.index() + 1) == views.take(it.index() as int).push(
            views[it.index() as int],
        ));
        assert(gathered(views.take(it.index() + 1)) == gathered(
            views.take(it.index() as int),
        ).push(calendar@));
    }
    assert(views.take(views.len() as int) == views);
    if list.len() == 0 {
        return Err(CaldavError::EmptyResultSet);
    }
    Ok(list)
}

/// Reads the events out of the answer to an event query. Responses whose
/// first `propstat` is not `HTTP/1.1 200 OK`, or which lack the ETag or the
/// calendar data, are passed over, and so is every event that lacks a
/// required property. An answer of which no response is left is an
/// `EmptyResultSet`.
pub fn get_events(reply: CaldavReply<EventResponse>) -> (out: Result<
    Vec<CaldavCalendarEvents>,
    CaldavError,
>)
    ensures
        events_result(out) == events_outcome(reply),
{
    let multistatus = match multistatus_of(reply) {
        Ok(multistatus) => multistatus,
        Err(error) => {
            return Err(error);
        },
    };
    let entries = retained_entries(&multistatus.response);
    events_of_entries(parse_entries(entries))
}

} // verus!
