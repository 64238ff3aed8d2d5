//! The bodies of the three CalDAV requests, as typed values and as the XML
//! elements they are written as.

use vstd::prelude::*;
use vstd::string::*;
use crate::connectors::caldav::caldav::{CaldavCalendar, PrincipalData};
use crate::connectors::caldav::wire::{
    calendar_body, events_body, lemma_calendar_body, lemma_events_body, lemma_principal_body,
    principal_body,
};
use crate::text::text_view;
use crate::xml::{XmlElement, XmlElementView, attr, encode, leaf, node, text_node};

verus! {

/// The namespace of WebDAV.
pub open spec fn dav_ns() -> Seq<char> {
    "DAV:"@
}

/// The namespace of CalDAV.
pub open spec fn caldav_ns() -> Seq<char> {
    "urn:ietf:params:xml:ns:caldav"@
}

/// The namespace of the calendar server extensions.
pub open spec fn calendarserver_ns() -> Seq<char> {
    "http://calendarserver.org/ns/"@
}

/// The namespace of Apple's calendar extensions.
pub open spec fn apple_ns() -> Seq<char> {
    "http://apple.com/ns/ical/"@
}

/// A value that is written as the `d:prop` element of a request.
pub trait RequestProp {
    /// The element that the value is written as.
    spec fn element(&self) -> XmlElementView;

    /// Writes the value as an element.
    fn to_element(&self) -> (out: XmlElement)
        ensures
            out@ == self.element(),
    ;
}

/// The properties asked for in a principal discovery.
#[derive(Debug)]
pub struct PrincipalRequestProp {
    pub current_user_principal: String,
}

impl PrincipalRequestProp {
    /// The request for the principal of the current user.
    pub fn make() -> (out: Self)
        ensures
            out.element() == node(
                "d:prop"@,
                Seq::empty(),
                seq![leaf("d:current-user-principal"@)],
            ),
    {
        PrincipalRequestProp { current_user_principal: String::new() }
    }
}

impl RequestProp for PrincipalRequestProp {
    open spec fn element(&self) -> XmlElementView {
        node(
            "d:prop"@,
            Seq::empty(),
            seq![text_node("d:current-user-principal"@, self.current_user_principal@)],
        )
    }

    fn to_element(&self) -> (out: XmlElement) {
        let mut out = XmlElement::new("d:prop");
        out.child(
            XmlElement::with_text("d:current-user-principal", self.current_user_principal.as_str()),
        );
        assert(out@.children == seq![
            text_node("d:current-user-principal"@, self.current_user_principal@),
        ]);
        out
    }
}

/// The properties asked for in a calendar discovery, with the namespaces
/// that their names use.
#[derive(Debug)]
pub struct CalendarRequestProp {
    pub xmlns_d: String,
    pub xmlns_apple: String,
    pub xmlns_sc: String,
    pub xmlns_cal: String,
    pub current_user_privilege_set: String,
    pub displayname: String,
    pub description: String,
    pub resource_type: String,
    pub source: String,
    pub calendar_color: String,
    pub supported_calendar_component_set: String,
    pub timezone: String,
}

/// The element that a calendar discovery asks with.
pub open spec fn calendar_prop_element() -> XmlElementView {
    node(
        "d:prop"@,
        seq![
            attr("xmlns:d"@, dav_ns()),
            attr("xmlns:apple"@, apple_ns()),
            attr("xmlns:ns"@, calendarserver_ns()),
            attr("xmlns:cal"@, caldav_ns()),
        ],
        seq![
            leaf("d:current-user-privilege-set"@),
            leaf("d:displayname"@),
            leaf("d:description"@),
            leaf("d:resourcetype"@),
            leaf("cs:source"@),
            leaf("apple:calendar-color"@),
            leaf("cal:supported-calendar-component-set"@),
            leaf("cal:timezone"@),
        ],
    )
}

impl CalendarRequestProp {
    /// The request for the properties of calendars, under the namespaces
    /// that their names use.
    pub fn make() -> (out: Self)
        ensures
            out.element() == calendar_prop_element(),
    {
        CalendarRequestProp {
            xmlns_d: "DAV:".to_owned(),
            xmlns_cal: "urn:ietf:params:xml:ns:caldav".to_owned(),
            xmlns_sc: "http://calendarserver.org/ns/".to_owned(),
            xmlns_apple: "http://apple.com/ns/ical/".to_owned(),
            current_user_privilege_set: String::new(),
            displayname: String::new(),
            description: String::new(),
            resource_type: String::new(),
            calendar_color: String::new(),
            source: String::new(),
            supported_calendar_component_set: String::new(),
            timezone: String::new(),
        }
    }
}

impl RequestProp for CalendarRequestProp {
    open spec fn element(&self) -> XmlElementView {
        node(
            "d:prop"@,
            seq![
                attr("xmlns:d"@, self.xmlns_d@),
                attr("xmlns:apple"@, self.xmlns_apple@),
                attr("xmlns:ns"@, self.xmlns_sc@),
                attr("xmlns:cal"@, self.xmlns_cal@),
            ],
            seq![
                text_node("d:current-user-privilege-set"@, self.current_user_privilege_set@),
                text_node("d:displayname"@, self.displayname@),
                text_node("d:description"@, self.description@),
                text_node("d:resourcetype"@, self.resource_type@),
                text_node("cs:source"@, self.source@),
                text_node("apple:calendar-color"@, self.calendar_color@),
                text_node(
                    "cal:supported-calendar-component-set"@,
                    self.supported_calendar_component_set@,
                ),
                text_node("cal:timezone"@, self.timezone@),
            ],
        )
    }

    fn to_element(&self) -> (out: XmlElement) {
        let mut out = XmlElement::new("d:prop");
        out.attribute("xmlns:d", self.xmlns_d.as_str());
        out.attribute("xmlns:apple", self.xmlns_apple.as_str());
        out.attribute("xmlns:ns", self.xmlns_sc.as_str());
        out.attribute("xmlns:cal", self.xmlns_cal.as_str());
        out.child(
            XmlElement::with_text(
                "d:current-user-privilege-set",
                self.current_user_privilege_set.as_str(),
            ),
        );
        out.child(XmlElement::with_text("d:displayname", self.displayname.as_str()));
        out.child(XmlElement::with_text("d:description", self.description.as_str()));
        out.child(XmlElement::with_text("d:resourcetype", self.resource_type.as_str()));
        out.child(XmlElement::with_text("cs:source", self.source.as_str()));
        out.child(XmlElement::with_text("apple:calendar-color", self.calendar_color.as_str()));
        out.child(
            XmlElement::with_text(
                "cal:supported-calendar-component-set",
                self.supported_calendar_component_set.as_str(),
            ),
        );
        out.child(XmlElement::with_text("cal:timezone", self.timezone.as_str()));
        assert(out@.attributes == self.element().attributes);
        assert(out@.children == self.element().children);
        out
    }
}

/// A property of a component, asked for by its name.
#[derive(Debug)]
pub struct Prop {
    pub name: String,
}

/// A component of the calendar data that is asked for: its name and, in
/// order, the properties and components wanted of it.
#[derive(Debug)]
pub struct Comp {
    pub name: String,
    pub children: Option<Vec<CompType>>,
}

/// What a component may hold: a component or a property.
#[derive(Debug)]
pub enum CompType {
    Comp(Comp),
    Prop(Prop),
}

/// The element `c:prop` that asks for the property of that name.
pub open spec fn prop_element(name: Seq<char>) -> XmlElementView {
    node("c:prop"@, seq![attr("name"@, name)], Seq::empty())
}

/// The element `c:comp` that a component is written as, its children in
/// their order.
pub open spec fn comp_element(comp: Comp) -> XmlElementView
    decreases comp,
{
    node(
        "c:comp"@,
        seq![attr("name"@, comp.name@)],
        match comp.children {
            Some(list) => Seq::new(
                list@.len(),
                |i: int|
                    if 0 <= i < list@.len() {
                        comp_type_element(list@[i])
                    } else {
                        arbitrary()
                    },
            ),
            None => Seq::empty(),
        },
    )
}

/// The element that a child of a component is written as.
pub open spec fn comp_type_element(child: CompType) -> XmlElementView
    decreases child,
{
    match child {
        CompType::Comp(comp) => comp_element(comp),
        CompType::Prop(prop) => prop_element(prop.name@),
    }
}

impl Prop {
    /// The element that the value is written as.
    pub fn to_element(&self) -> (out: XmlElement)
        ensures
            out@ == prop_element(self.name@),
    {
        let mut out = XmlElement::new("c:prop");
        out.attribute("name", self.name.as_str());
        assert(out@.attributes == seq![attr("name"@, self.name@)]);
        out
    }
}

impl Comp {
    /// The element that the value is written as.
    pub fn to_element(&self) -> (out: XmlElement)
        ensures
            out@ == comp_element(*self),
        decreases self,
    {
        let mut out = XmlElement::new("c:comp");
        out.attribute("name", self.name.as_str());
        assert(out@.attributes == seq![attr("name"@, self.name@)]);
        match &self.children {
            Some(list) => {
                let ghost wanted = comp_element(*self).children;
                let mut i: usize = 0;
                assert(wanted.take(0) == Seq::<XmlElementView>::empty());
                while i < list.len()
                    invariant
                        i <= list.len(),
                        self.children == Some(*list),
                        wanted == comp_element(*self).children,
                        out@ == node(
                            "c:comp"@,
                            seq![attr("name"@, self.name@)],
                            wanted.take(i as int),
                        ),
                    decreases list.len() - i,
                {
                    let child = match &list[i] {
                        CompType::Comp(comp) => comp.to_element(),
                        CompType::Prop(prop) => prop.to_element(),
                    };
                    out.child(child);
                    assert(wanted.take(i + 1) == wanted.take(i as int).push(wanted[i as int]));
                    i = i + 1;
                }
                assert(wanted.take(list.len() as int) == wanted);
            },
            None => {
                assert(comp_element(*self).children == Seq::<XmlElementView>::empty());
            },
        }
        out
    }
}

/// The calendar data asked for in an event query.
#[derive(Debug)]
pub struct CalendarData {
    pub comp: Comp,
}

/// The properties asked for in an event query: the ETag and the calendar
/// data.
#[derive(Debug)]
pub struct EventRequestProp {
    pub getetag: String,
    pub calendar_data: CalendarData,
}

/// The names of the event properties that an event query asks for.
pub open spec fn event_property_names() -> Seq<Seq<char>> {
    seq![
        "UID"@,
        "CREATED"@,
        "LAST-MODIFIED"@,
        "SUMMARY"@,
        "DTSTART"@,
        "DTEND"@,
        "ORGANIZER"@,
        "STATUS"@,
        "RECURRENCE-ID"@,
        "RRULE"@,
        "LOCATION"@,
        "TRANSP"@,
        "CATEGORIES"@,
        "ATTACH"@,
        "ATTENDEE"@,
    ]
}

/// The element that an event query asks with: the ETag, and of the
/// calendar data the version and the properties of each event.
pub open spec fn event_prop_element() -> XmlElementView {
    node(
        "d:prop"@,
        Seq::empty(),
        seq![
            leaf("d:getetag"@),
            node(
                "c:calendar-data"@,
                Seq::empty(),
                seq![
                    node(
                        "c:comp"@,
                        seq![attr("name"@, "VCALENDAR"@)],
                        seq![
                            prop_element("VERSION"@),
                            node(
                                "c:comp"@,
                                seq![attr("name"@, "VEVENT"@)],
                                event_property_names().map_values(
                                    |name: Seq<char>| prop_element(name),
                                ),
                            ),
                        ],
                    ),
                ],
            ),
        ],
    )
}

/// A property of that name, as a child of a component.
fn wanted(name: &str) -> (out: CompType)
    ensures
        comp_type_element(out) == prop_element(name@),
{
    CompType::Prop(Prop { name: name.to_owned() })
}

impl EventRequestProp {
    /// The request for the ETag and, of the calendar data, the version and
    /// the properties of each event.
    pub fn make() -> (out: Self)
        ensures
            out.element() == event_prop_element(),
    {
        let fields = vec![
            wanted("UID"),
            wanted("CREATED"),
            wanted("LAST-MODIFIED"),
            wanted("SUMMARY"),
            wanted("DTSTART"),
            wanted("DTEND"),
            wanted("ORGANIZER"),
            wanted("STATUS"),
            wanted("RECURRENCE-ID"),
            wanted("RRULE"),
            wanted("LOCATION"),
            wanted("TRANSP"),
            wanted("CATEGORIES"),
            wanted("ATTACH"),
            wanted("ATTENDEE"),
        ];
        let event = Comp { name: "VEVENT".to_owned(), children: Some(fields) };
        assert(comp_element(event).children == event_property_names().map_values(
            |name: Seq<char>| prop_element(name),
        ));
        let parts = vec![wanted("VERSION"), CompType::Comp(event)];
        let calendar = Comp { name: "VCALENDAR".to_owned(), children: Some(parts) };
        assert(comp_element(calendar).children == seq![
            prop_element("VERSION"@),
            comp_element(event),
        ]);
        EventRequestProp { getetag: String::new(), calendar_data: CalendarData { comp: calendar } }
    }
}

impl RequestProp for EventRequestProp {
    open spec fn element(&self) -> XmlElementView {
        node(
            "d:prop"@,
            Seq::empty(),
            seq![
                text_node("d:getetag"@, self.getetag@),
                node("c:calendar-data"@, Seq::empty(), seq![comp_element(self.calendar_data.comp)]),
            ],
        )
    }

    fn to_element(&self) -> (out: XmlElement) {
        let mut data = XmlElement::new("c:calendar-data");
        data.child(self.calendar_data.comp.to_element());
        assert(data@.children == seq![comp_element(self.calendar_data.comp)]);
        let mut out = XmlElement::new("d:prop");
        out.child(XmlElement::with_text("d:getetag", self.getetag.as_str()));
        out.child(data);
        assert(out@.children == self.element().children);
        out
    }
}

/// The body of a PROPFIND request: the namespaces and the properties asked
/// for.
#[derive(Debug)]
pub struct Propfind<T> {
    pub d: String,
    pub cal: String,
    pub cs: String,
    pub prop: T,
}

impl<T: RequestProp> Propfind<T> {
    /// The element `d:propfind` that the body is written as.
    pub open spec fn element(&self) -> XmlElementView {
        node(
            "d:propfind"@,
            seq![
                attr("xmlns:d"@, self.d@),
                attr("xmlns:cal"@, self.cal@),
                attr("xmlns:cs"@, self.cs@),
            ],
            seq![self.prop.element()],
        )
    }

    /// A PROPFIND body that asks for `prop` under the namespaces of WebDAV,
    /// CalDAV and the calendar server extensions.
    pub fn new(prop: T) -> (out: Self)
        ensures
            out.prop == prop,
            out.d@ == dav_ns(),
            out.cal@ == caldav_ns(),
            out.cs@ == calendarserver_ns(),
    {
        Propfind {
            d: "DAV:".to_owned(),
            cal: "urn:ietf:params:xml:ns:caldav".to_owned(),
            cs: "http://calendarserver.org/ns/".to_owned(),
            prop,
        }
    }

    /// The element that the value is written as.
    pub fn to_element(&self) -> (out: XmlElement)
        ensures
            out@ == self.element(),
    {
        let mut out = XmlElement::new("d:propfind");
        out.attribute("xmlns:d", self.d.as_str());
        out.attribute("xmlns:cal", self.cal.as_str());
        out.attribute("xmlns:cs", self.cs.as_str());
        out.child(self.prop.to_element());
        assert(out@.attributes == self.element().attributes);
        assert(out@.children == self.element().children);
        out
    }
}

/// A filter on the components of a calendar object: the component's name
/// and, where there is one, the filter on what it holds.
#[derive(Debug)]
pub struct CompFilter {
    pub name: String,
    pub comp_filter: Option<Box<CompFilter>>,
}

/// The filter of a calendar query.
#[derive(Debug)]
pub struct Filter {
    pub comp_filter: CompFilter,
}

/// The element `c:comp-filter` that a component filter is written as.
pub open spec fn comp_filter_element(filter: CompFilter) -> XmlElementView
    decreases filter,
{
    node(
        "c:comp-filter"@,
        seq![attr("name"@, filter.name@)],
        match filter.comp_filter {
            Some(inner) => seq![comp_filter_element(*inner)],
            None => Seq::empty(),
        },
    )
}

impl CompFilter {
    /// The element that the value is written as.
    pub fn to_element(&self) -> (out: XmlElement)
        ensures
            out@ == comp_filter_element(*self),
        decreases self,
    {
        let mut out = XmlElement::new("c:comp-filter");
        out.attribute("name", self.name.as_str());
        assert(out@.attributes == seq![attr("name"@, self.name@)]);
        match &self.comp_filter {
            Some(inner) => {
                out.child(inner.to_element());
                assert(out@.children == seq![comp_filter_element(**inner)]);
            },
            None => {},
        }
        out
    }
}

impl Filter {
    /// The element `c:filter` that the filter is written as.
    pub open spec fn element(&self) -> XmlElementView {
        node("c:filter"@, Seq::empty(), seq![comp_filter_element(self.comp_filter)])
    }

    /// The filter that selects the events of calendar objects.
    pub fn events() -> (out: Self)
        ensures
            out.element() == events_filter_element(),
    {
        let inner = CompFilter { name: "VEVENT".to_owned(), comp_filter: None };
        assert(comp_filter_element(inner) == node(
            "c:comp-filter"@,
            seq![attr("name"@, "VEVENT"@)],
            Seq::empty(),
        ));
        Filter {
            comp_filter: CompFilter {
                name: "VCALENDAR".to_owned(),
                comp_filter: Some(Box::new(inner)),
            },
        }
    }

    /// The element that the value is written as.
    pub fn to_element(&self) -> (out: XmlElement)
        ensures
            out@ == self.element(),
    {
        let mut out = XmlElement::new("c:filter");
        out.child(self.comp_filter.to_element());
        assert(out@.children == self.element().children);
        out
    }
}

/// The element of the filter that selects `VEVENT` within `VCALENDAR`.
pub open spec fn events_filter_element() -> XmlElementView {
    node(
        "c:filter"@,
        Seq::empty(),
        seq![
            node(
                "c:comp-filter"@,
                seq![attr("name"@, "VCALENDAR"@)],
                seq![node("c:comp-filter"@, seq![attr("name"@, "VEVENT"@)], Seq::empty())],
            ),
        ],
    )
}

/// The body of a calendar query: the namespaces, the properties asked for
/// and the filter.
#[derive(Debug)]
pub struct CalendarQuery<T> {
    pub xmlns_c: String,
    pub xmlns_d: String,
    pub prop: T,
    pub filter: Filter,
}

impl<T: RequestProp> CalendarQuery<T> {
    /// The element `c:calendar-query` that the body is written as.
    pub open spec fn element(&self) -> XmlElementView {
        node(
            "c:calendar-query"@,
            seq![attr("xmlns:c"@, self.xmlns_c@), attr("xmlns:d"@, self.xmlns_d@)],
            seq![self.prop.element(), self.filter.element()],
        )
    }

    /// A calendar query that asks for `prop` of what `filter` selects.
    pub fn new(prop: T, filter: Filter) -> (out: Self)
        ensures
            out.prop == prop,
            out.filter == filter,
            out.xmlns_c@ == caldav_ns(),
            out.xmlns_d@ == dav_ns(),
    {
        CalendarQuery {
            xmlns_c: "urn:ietf:params:xml:ns:caldav".to_owned(),
            xmlns_d: "DAV:".to_owned(),
            prop,
            filter,
        }
    }

    /// The element that the value is written as.
    pub fn to_element(&self) -> (out: XmlElement)
        ensures
            out@ == self.element(),
    {
        let mut out = XmlElement::new("c:calendar-query");
        out.attribute("xmlns:c", self.xmlns_c.as_str());
        out.attribute("xmlns:d", self.xmlns_d.as_str());
        out.child(self.prop.to_element());
        out.child(self.filter.to_element());
        assert(out@.attributes == self.element().attributes);
        assert(out@.children == self.element().children);
        out
    }
}

/// One request to a CalDAV server: the method, the address, the `Depth`
/// header where one is sent, the credentials of Basic authentication, and
/// the body.
#[derive(Debug)]
pub struct CaldavRequest {
    pub method: String,
    pub url: String,
    pub depth: Option<String>,
    pub username: String,
    pub password: Option<String>,
    pub body: String,
}

/// What a `CaldavRequest` holds, with its texts as characters.
pub struct CaldavRequestView {
    pub method: Seq<char>,
    pub url: Seq<char>,
    pub depth: Option<Seq<char>>,
    pub username: Seq<char>,
    pub password: Option<Seq<char>>,
    pub body: Seq<char>,
}

impl View for CaldavRequest {
    type V = CaldavRequestView;

    open spec fn view(&self) -> CaldavRequestView {
        CaldavRequestView {
            method: self.method@,
            url: self.url@,
            depth: text_view(self.depth),
            username: self.username@,
            password: text_view(self.password),
            body: self.body@,
        }
    }
}

/// The element `d:propfind` of a PROPFIND that asks with `prop`.
pub open spec fn propfind_element(prop: XmlElementView) -> XmlElementView {
    node(
        "d:propfind"@,
        seq![
            attr("xmlns:d"@, dav_ns()),
            attr("xmlns:cal"@, caldav_ns()),
            attr("xmlns:cs"@, calendarserver_ns()),
        ],
        seq![prop],
    )
}

/// The element `c:calendar-query` of the event query.
pub open spec fn calendar_query_element() -> XmlElementView {
    node(
        "c:calendar-query"@,
        seq![attr("xmlns:c"@, caldav_ns()), attr("xmlns:d"@, dav_ns())],
        seq![event_prop_element(), events_filter_element()],
    )
}

/// The request of a principal discovery: a PROPFIND to the server's
/// address whose body asks for the current user's principal.
pub fn principal_request(url: String, username: String, password: Option<String>) -> (out:
    CaldavRequest)
    ensures
        out@ == (CaldavRequestView {
            method: "PROPFIND"@,
            url: url@,
            depth: None,
            username: username@,
            password: text_view(password),
            body: principal_body(),
        }),
{
    let payload = Propfind::new(PrincipalRequestProp::make());
    let body = encode(&payload.to_element());
    proof {
        lemma_principal_body();
    }
    CaldavRequest { method: "PROPFIND".to_owned(), url, depth: None, username, password, body }
}

/// The request of a calendar discovery: a PROPFIND of depth 1 to the
/// calendars of the principal's user.
pub fn calendar_request(
    data: &PrincipalData,
    url: String,
    username: String,
    password: Option<String>,
) -> (out: CaldavRequest)
    ensures
        out@ == (CaldavRequestView {
            method: "PROPFIND"@,
            url: url@ + "/"@ + data.user_id@ + "/calendars"@,
            depth: Some("1"@),
            username: username@,
            password: text_view(password),
            body: calendar_body(),
        }),
{
    let payload = Propfind::new(CalendarRequestProp::make());
    let body = encode(&payload.to_element());
    proof {
        lemma_calendar_body();
    }
    let mut target = url;
    target.append("/");
    target.append(data.user_id.as_str());
    target.append("/calendars");
    CaldavRequest {
        method: "PROPFIND".to_owned(),
        url: target,
        depth: Some("1".to_owned()),
        username,
        password,
        body,
    }
}

/// The request of an event query: a REPORT of depth 1 to the calendar's
/// path that asks for the events of its calendar objects.
pub fn events_request(
    data: &CaldavCalendar,
    url: String,
    username: String,
    password: Option<String>,
) -> (out: CaldavRequest)
    ensures
        out@ == (CaldavRequestView {
            method: "REPORT"@,
            url: url@ + data.path@,
            depth: Some("1"@),
            username: username@,
            password: text_view(password),
            body: events_body(),
        }),
{
    let payload = CalendarQuery::new(EventRequestProp::make(), Filter::events());
    let body = encode(&payload.to_element());
    proof {
        lemma_events_body();
    }
    let mut target = url;
    target.append(data.path.as_str());
    CaldavRequest {
        method: "REPORT".to_owned(),
        url: target,
        depth: Some("1".to_owned()),
        username,
        password,
        body,
    }
}

} // verus!
