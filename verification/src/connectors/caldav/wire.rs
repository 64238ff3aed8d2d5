//! The bodies of the three CalDAV requests, character by character.

use vstd::prelude::*;
use crate::connectors::caldav::request::{
    apple_ns, caldav_ns, calendar_prop_element, calendar_query_element, calendarserver_ns,
    dav_ns, event_prop_element, event_property_names, events_filter_element, prop_element,
    propfind_element,
};
use crate::xml::{
    XmlAttributeView, XmlElementView, attr, attribute_text, attributes_text, element_text,
    elements_text, escaped, leaf, lemma_attributes_push, lemma_elements_push, lemma_leaf_text,
    lemma_node_text, lemma_plain_attribute, lemma_plain_text_is_not_changed, node,
};

verus! {

/// The start tag of a PROPFIND body.
pub open spec fn propfind_start() -> Seq<char> {
    "<d:propfind xmlns:d=\"DAV:\""@ + " xmlns:cal=\"urn:ietf:params:xml:ns:caldav\""@
        + " xmlns:cs=\"http://calendarserver.org/ns/\">"@
}

/// The body of a principal discovery.
pub open spec fn principal_body() -> Seq<char> {
    propfind_start() + "<d:prop><d:current-user-principal/></d:prop>"@ + "</d:propfind>"@
}

/// The texts of the attributes of a PROPFIND body.
proof fn lemma_propfind_attributes()
    ensures
        attributes_text(propfind_element(leaf(Seq::empty())).attributes)
            == " xmlns:d=\"DAV:\""@ + " xmlns:cal=\"urn:ietf:params:xml:ns:caldav\""@
            + " xmlns:cs=\"http://calendarserver.org/ns/\""@,
{
    reveal_strlit(" ");
    reveal_strlit("=\"");
    reveal_strlit("\"");
    reveal_strlit("xmlns:d");
    reveal_strlit("xmlns:cal");
    reveal_strlit("xmlns:cs");
    reveal_strlit("DAV:");
    reveal_strlit("urn:ietf:params:xml:ns:caldav");
    reveal_strlit("http://calendarserver.org/ns/");
    reveal_strlit(" xmlns:d=\"DAV:\"");
    reveal_strlit(" xmlns:cal=\"urn:ietf:params:xml:ns:caldav\"");
    reveal_strlit(" xmlns:cs=\"http://calendarserver.org/ns/\"");
    let a = attr("xmlns:d"@, dav_ns());
    let b = attr("xmlns:cal"@, caldav_ns());
    let c = attr("xmlns:cs"@, calendarserver_ns());
    lemma_plain_attribute("xmlns:d"@, dav_ns());
    lemma_plain_attribute("xmlns:cal"@, caldav_ns());
    lemma_plain_attribute("xmlns:cs"@, calendarserver_ns());
    assert(attribute_text(a) == " xmlns:d=\"DAV:\""@);
    assert(attribute_text(b) == " xmlns:cal=\"urn:ietf:params:xml:ns:caldav\""@);
    assert(attribute_text(c) == " xmlns:cs=\"http://calendarserver.org/ns/\""@);
    let none = Seq::<XmlAttributeView>::empty();
    lemma_attributes_push(none, a);
    lemma_attributes_push(none.push(a), b);
    lemma_attributes_push(none.push(a).push(b), c);
    assert(none.push(a).push(b).push(c) == seq![a, b, c]);
    assert(attributes_text(none) == Seq::<char>::empty());
}

/// A PROPFIND body is its start tag, the element that it asks with, and
/// its end tag.
pub proof fn lemma_propfind_text(prop: XmlElementView)
    ensures
        element_text(propfind_element(prop)) == propfind_start() + element_text(prop)
            + "</d:propfind>"@,
{
    lemma_propfind_attributes();
    reveal_strlit("</d:propfind>");
    reveal_strlit("d:propfind");
    reveal_strlit("<");
    reveal_strlit(">");
    reveal_strlit("</");
    reveal_strlit("<d:propfind xmlns:d=\"DAV:\"");
    reveal_strlit(" xmlns:d=\"DAV:\"");
    reveal_strlit(" xmlns:cs=\"http://calendarserver.org/ns/\">");
    reveal_strlit(" xmlns:cs=\"http://calendarserver.org/ns/\"");
    let whole = propfind_element(prop);
    let none = Seq::<XmlElementView>::empty();
    lemma_elements_push(none, prop);
    assert(none.push(prop) == seq![prop]);
    assert(elements_text(none) == Seq::<char>::empty());
    lemma_node_text(whole.name, whole.attributes, whole.children);
    assert(whole.attributes == propfind_element(leaf(Seq::empty())).attributes);
    let first = " xmlns:d=\"DAV:\""@;
    let second = " xmlns:cal=\"urn:ietf:params:xml:ns:caldav\""@;
    let third = " xmlns:cs=\"http://calendarserver.org/ns/\""@;
    assert("<"@ + "d:propfind"@ + first == "<d:propfind xmlns:d=\"DAV:\""@);
    assert(third + ">"@ == " xmlns:cs=\"http://calendarserver.org/ns/\">"@);
    assert("<"@ + "d:propfind"@ + (first + second + third) + ">"@ == propfind_start());
    assert("</"@ + "d:propfind"@ + ">"@ == "</d:propfind>"@);
}

/// The element that a principal discovery asks with, character by
/// character.
proof fn lemma_principal_prop_text()
    ensures
        element_text(node("d:prop"@, Seq::empty(), seq![leaf("d:current-user-principal"@)]))
            == "<d:prop><d:current-user-principal/></d:prop>"@,
{
    reveal_strlit("d:prop");
    reveal_strlit("d:current-user-principal");
    reveal_strlit("<d:prop><d:current-user-principal/></d:prop>");
    reveal_strlit("<");
    reveal_strlit(">");
    reveal_strlit("/>");
    reveal_strlit("</");
    let inner = leaf("d:current-user-principal"@);
    let none = Seq::<XmlElementView>::empty();
    lemma_leaf_text("d:current-user-principal"@);
    lemma_elements_push(none, inner);
    assert(none.push(inner) == seq![inner]);
    assert(elements_text(none) == Seq::<char>::empty());
    lemma_node_text("d:prop"@, Seq::empty(), seq![inner]);
    assert(attributes_text(Seq::empty()) == Seq::<char>::empty());
}

/// The body of a principal discovery is the text `principal_body`.
pub proof fn lemma_principal_body()
    ensures
        element_text(
            propfind_element(
                node("d:prop"@, Seq::empty(), seq![leaf("d:current-user-principal"@)]),
            ),
        ) == principal_body(),
{
    lemma_principal_prop_text();
    lemma_propfind_text(node("d:prop"@, Seq::empty(), seq![leaf("d:current-user-principal"@)]));
}

/// The element that a calendar discovery asks with, character by
/// character.
pub open spec fn calendar_prop_text() -> Seq<char> {
    "<d:prop xmlns:d=\"DAV:\""@ + " xmlns:apple=\"http://apple.com/ns/ical/\""@
        + " xmlns:ns=\"http://calendarserver.org/ns/\""@
        + " xmlns:cal=\"urn:ietf:params:xml:ns:caldav\">"@ + "<d:current-user-privilege-set/>"@
        + "<d:displayname/>"@ + "<d:description/>"@ + "<d:resourcetype/>"@ + "<cs:source/>"@
        + "<apple:calendar-color/>"@ + "<cal:supported-calendar-component-set/>"@
        + "<cal:timezone/>"@ + "</d:prop>"@
}

/// The body of a calendar discovery.
pub open spec fn calendar_body() -> Seq<char> {
    propfind_start() + calendar_prop_text() + "</d:propfind>"@
}

/// The texts of the attributes of the element that a calendar discovery
/// asks with.
proof fn lemma_calendar_prop_attributes()
    ensures
        attributes_text(calendar_prop_element().attributes) == " xmlns:d=\"DAV:\""@
            + " xmlns:apple=\"http://apple.com/ns/ical/\""@
            + " xmlns:ns=\"http://calendarserver.org/ns/\""@
            + " xmlns:cal=\"urn:ietf:params:xml:ns:caldav\""@,
{
    reveal_strlit(" ");
    reveal_strlit("=\"");
    reveal_strlit("\"");
    reveal_strlit("xmlns:d");
    reveal_strlit("xmlns:apple");
    reveal_strlit("xmlns:ns");
    reveal_strlit("xmlns:cal");
    reveal_strlit("DAV:");
    reveal_strlit("http://apple.com/ns/ical/");
    reveal_strlit("urn:ietf:params:xml:ns:caldav");
    reveal_strlit("http://calendarserver.org/ns/");
    reveal_strlit(" xmlns:d=\"DAV:\"");
    reveal_strlit(" xmlns:apple=\"http://apple.com/ns/ical/\"");
    reveal_strlit(" xmlns:ns=\"http://calendarserver.org/ns/\"");
    reveal_strlit(" xmlns:cal=\"urn:ietf:params:xml:ns:caldav\"");
    let a = attr("xmlns:d"@, dav_ns());
    let b = attr("xmlns:apple"@, apple_ns());
    let c = attr("xmlns:ns"@, calendarserver_ns());
    let d = attr("xmlns:cal"@, caldav_ns());
    lemma_plain_attribute("xmlns:d"@, dav_ns());
    lemma_plain_attribute("xmlns:apple"@, apple_ns());
    lemma_plain_attribute("xmlns:ns"@, calendarserver_ns());
    lemma_plain_attribute("xmlns:cal"@, caldav_ns());
    assert(attribute_text(a) == " xmlns:d=\"DAV:\""@);
    assert(attribute_text(b) == " xmlns:apple=\"http://apple.com/ns/ical/\""@);
    assert(attribute_text(c) == " xmlns:ns=\"http://calendarserver.org/ns/\""@);
    assert(attribute_text(d) == " xmlns:cal=\"urn:ietf:params:xml:ns:caldav\""@);
    let none = Seq::<XmlAttributeView>::empty();
    lemma_attributes_push(none, a);
    lemma_attributes_push(none.push(a), b);
    lemma_attributes_push(none.push(a).push(b), c);
    lemma_attributes_push(none.push(a).push(b).push(c), d);
    assert(none.push(a).push(b).push(c).push(d) == seq![a, b, c, d]);
    assert(attributes_text(none) == Seq::<char>::empty());
}

/// The texts of the children of the element that a calendar discovery
/// asks with.
proof fn lemma_calendar_prop_children()
    ensures
        elements_text(calendar_prop_element().children) == "<d:current-user-privilege-set/>"@
            + "<d:displayname/>"@ + "<d:description/>"@ + "<d:resourcetype/>"@ + "<cs:source/>"@
            + "<apple:calendar-color/>"@ + "<cal:supported-calendar-component-set/>"@
            + "<cal:timezone/>"@,
{
    reveal_strlit("<");
    reveal_strlit("/>");
    reveal_strlit("d:current-user-privilege-set");
    reveal_strlit("d:displayname");
    reveal_strlit("d:description");
    reveal_strlit("d:resourcetype");
    reveal_strlit("cs:source");
    reveal_strlit("apple:calendar-color");
    reveal_strlit("cal:supported-calendar-component-set");
    reveal_strlit("cal:timezone");
    reveal_strlit("<d:current-user-privilege-set/>");
    reveal_strlit("<d:displayname/>");
    reveal_strlit("<d:description/>");
    reveal_strlit("<d:resourcetype/>");
    reveal_strlit("<cs:source/>");
    reveal_strlit("<apple:calendar-color/>");
    reveal_strlit("<cal:supported-calendar-component-set/>");
    reveal_strlit("<cal:timezone/>");
    let a = leaf("d:current-user-privilege-set"@);
    let b = leaf("d:displayname"@);
    let c = leaf("d:description"@);
    let d = leaf("d:resourcetype"@);
    let e = leaf("cs:source"@);
    let f = leaf("apple:calendar-color"@);
    let g = leaf("cal:supported-calendar-component-set"@);
    let h = leaf("cal:timezone"@);
    lemma_leaf_text("d:current-user-privilege-set"@);
    lemma_leaf_text("d:displayname"@);
    lemma_leaf_text("d:description"@);
    lemma_leaf_text("d:resourcetype"@);
    lemma_leaf_text("cs:source"@);
    lemma_leaf_text("apple:calendar-color"@);
    lemma_leaf_text("cal:supported-calendar-component-set"@);
    lemma_leaf_text("cal:timezone"@);
    assert(element_text(a) == "<d:current-user-privilege-set/>"@);
    assert(element_text(b) == "<d:displayname/>"@);
    assert(element_text(c) == "<d:description/>"@);
    assert(element_text(d) == "<d:resourcetype/>"@);
    assert(element_text(e) == "<cs:source/>"@);
    assert(element_text(f) == "<apple:calendar-color/>"@);
    assert(element_text(g) == "<cal:supported-calendar-component-set/>"@);
    assert(element_text(h) == "<cal:timezone/>"@);
    let none = Seq::<XmlElementView>::empty();
    let s1 = none.push(a);
    let s2 = s1.push(b);
    let s3 = s2.push(c);
    let s4 = s3.push(d);
    let s5 = s4.push(e);
    let s6 = s5.push(f);
    let s7 = s6.push(g);
    let s8 = s7.push(h);
    lemma_elements_push(none, a);
    lemma_elements_push(s1, b);
    lemma_elements_push(s2, c);
    lemma_elements_push(s3, d);
    lemma_elements_push(s4, e);
    lemma_elements_push(s5, f);
    lemma_elements_push(s6, g);
    lemma_elements_push(s7, h);
    assert(s8 == calendar_prop_element().children);
    assert(elements_text(none) == Seq::<char>::empty());
}

/// The element that a calendar discovery asks with is the text
/// `calendar_prop_text`.
proof fn lemma_calendar_prop_text()
    ensures
        element_text(calendar_prop_element()) == calendar_prop_text(),
{
    lemma_calendar_prop_attributes();
    lemma_calendar_prop_children();
    reveal_strlit("d:prop");
    reveal_strlit("<");
    reveal_strlit(">");
    reveal_strlit("</");
    reveal_strlit("</d:prop>");
    reveal_strlit(" xmlns:d=\"DAV:\"");
    reveal_strlit("<d:prop xmlns:d=\"DAV:\"");
    reveal_strlit(" xmlns:cal=\"urn:ietf:params:xml:ns:caldav\"");
    reveal_strlit(" xmlns:cal=\"urn:ietf:params:xml:ns:caldav\">");
    let whole = calendar_prop_element();
    lemma_node_text(whole.name, whole.attributes, whole.children);
    assert("<"@ + "d:prop"@ + " xmlns:d=\"DAV:\""@ == "<d:prop xmlns:d=\"DAV:\""@);
    assert(" xmlns:cal=\"urn:ietf:params:xml:ns:caldav\""@ + ">"@
        == " xmlns:cal=\"urn:ietf:params:xml:ns:caldav\">"@);
    assert("</"@ + "d:prop"@ + ">"@ == "</d:prop>"@);
    let a1 = " xmlns:d=\"DAV:\""@;
    let a2 = " xmlns:apple=\"http://apple.com/ns/ical/\""@;
    let a3 = " xmlns:ns=\"http://calendarserver.org/ns/\""@;
    let a4 = " xmlns:cal=\"urn:ietf:params:xml:ns:caldav\""@;
    let kids = elements_text(whole.children);
    assert("<"@ + "d:prop"@ + (a1 + a2 + a3 + a4) + ">"@ + kids + "</"@ + "d:prop"@ + ">"@ == (
    "<"@ + "d:prop"@ + a1) + a2 + a3 + (a4 + ">"@) + kids + ("</"@ + "d:prop"@ + ">"@));
}

/// The body of a calendar discovery is the text `calendar_body`.
pub proof fn lemma_calendar_body()
    ensures
        element_text(propfind_element(calendar_prop_element())) == calendar_body(),
{
    lemma_calendar_prop_text();
    lemma_propfind_text(calendar_prop_element());
}

/// The element that asks for the property of a name, character by
/// character.
pub open spec fn wanted_text(name: Seq<char>) -> Seq<char> {
    "<c:prop name=\""@ + name + "\"/>"@
}

/// The elements that ask for the properties of a run of names, one behind
/// the other.
pub open spec fn wanted_texts(names: Seq<Seq<char>>) -> Seq<char>
    decreases names.len(),
{
    if names.len() == 0 {
        Seq::empty()
    } else {
        wanted_texts(names.drop_last()) + wanted_text(names.last())
    }
}

/// Whether a name is made of capital letters and hyphens.
pub open spec fn is_property_name(name: Seq<char>) -> bool {
    forall|i: int| 0 <= i < name.len() ==> ('A' <= #[trigger] name[i] <= 'Z' || name[i] == '-')
}

/// The component that asks for the properties of each event.
pub open spec fn event_comp_text() -> Seq<char> {
    "<c:comp name=\"VEVENT\">"@ + wanted_texts(event_property_names()) + "</c:comp>"@
}

/// The component that asks for the version and for the events of a
/// calendar object.
pub open spec fn calendar_comp_text() -> Seq<char> {
    "<c:comp name=\"VCALENDAR\">"@ + wanted_text("VERSION"@) + event_comp_text() + "</c:comp>"@
}

/// The element that an event query asks with: the ETag and the calendar
/// data.
pub open spec fn event_prop_text() -> Seq<char> {
    "<d:prop>"@ + "<d:getetag/>"@ + ("<c:calendar-data>"@ + calendar_comp_text()
        + "</c:calendar-data>"@) + "</d:prop>"@
}

/// The filter of an event query.
pub open spec fn events_filter_text() -> Seq<char> {
    "<c:filter>"@ + ("<c:comp-filter name=\"VCALENDAR\">"@ + "<c:comp-filter name=\"VEVENT\"/>"@
        + "</c:comp-filter>"@) + "</c:filter>"@
}

/// The body of an event query.
pub open spec fn events_body() -> Seq<char> {
    "<c:calendar-query xmlns:c=\"urn:ietf:params:xml:ns:caldav\""@ + " xmlns:d=\"DAV:\">"@
        + event_prop_text() + events_filter_text() + "</c:calendar-query>"@
}

/// The element `c:prop` of a property name is written as `wanted_text`.
proof fn lemma_wanted_text(name: Seq<char>)
    requires
        is_property_name(name),
    ensures
        element_text(prop_element(name)) == wanted_text(name),
{
    reveal_strlit("<");
    reveal_strlit("/>");
    reveal_strlit(" ");
    reveal_strlit("=\"");
    reveal_strlit("\"");
    reveal_strlit("c:prop");
    reveal_strlit("name");
    reveal_strlit("<c:prop name=\"");
    reveal_strlit("\"/>");
    lemma_plain_attribute("name"@, name);
    let a = attr("name"@, name);
    let none = Seq::<XmlAttributeView>::empty();
    lemma_attributes_push(none, a);
    assert(none.push(a) == seq![a]);
    assert(attributes_text(none) == Seq::<char>::empty());
    assert("<"@ + "c:prop"@ + " "@ + "name"@ + "=\""@ == "<c:prop name=\""@);
    assert("\""@ + "/>"@ == "\"/>"@);
    assert("<"@ + "c:prop"@ + (" "@ + "name"@ + "=\""@ + name + "\""@) + "/>"@ == ("<"@
        + "c:prop"@ + " "@ + "name"@ + "=\""@) + name + ("\""@ + "/>"@));
}

/// The elements `c:prop` of a run of property names are written as
/// `wanted_texts`.
proof fn lemma_wanted_texts(names: Seq<Seq<char>>)
    requires
        forall|i: int| 0 <= i < names.len() ==> is_property_name(#[trigger] names[i]),
    ensures
        elements_text(names.map_values(|name: Seq<char>| prop_element(name))) == wanted_texts(
            names,
        ),
    decreases names.len(),
{
    let elements = names.map_values(|name: Seq<char>| prop_element(name));
    if names.len() > 0 {
        lemma_wanted_texts(names.drop_last());
        lemma_wanted_text(names.last());
        assert(elements.drop_last() == names.drop_last().map_values(
            |name: Seq<char>| prop_element(name),
        ));
    }
}

/// The names of the event properties are made of capital letters and
/// hyphens.
proof fn lemma_event_property_names()
    ensures
        forall|i: int|
            0 <= i < event_property_names().len() ==> is_property_name(
                #[trigger] event_property_names()[i],
            ),
        is_property_name("VERSION"@),
        is_property_name("VCALENDAR"@),
        is_property_name("VEVENT"@),
{
    reveal_strlit("UID");
    reveal_strlit("CREATED");
    reveal_strlit("LAST-MODIFIED");
    reveal_strlit("SUMMARY");
    reveal_strlit("DTSTART");
    reveal_strlit("DTEND");
    reveal_strlit("ORGANIZER");
    reveal_strlit("STATUS");
    reveal_strlit("RECURRENCE-ID");
    reveal_strlit("RRULE");
    reveal_strlit("LOCATION");
    reveal_strlit("TRANSP");
    reveal_strlit("CATEGORIES");
    reveal_strlit("ATTACH");
    reveal_strlit("ATTENDEE");
    reveal_strlit("VERSION");
    reveal_strlit("VCALENDAR");
    reveal_strlit("VEVENT");
    assert(is_property_name("UID"@));
    assert(is_property_name("CREATED"@));
    assert(is_property_name("LAST-MODIFIED"@));
    assert(is_property_name("SUMMARY"@));
    assert(is_property_name("DTSTART"@));
    assert(is_property_name("DTEND"@));
    assert(is_property_name("ORGANIZER"@));
    assert(is_property_name("STATUS"@));
    assert(is_property_name("RECURRENCE-ID"@));
    assert(is_property_name("RRULE"@));
    assert(is_property_name("LOCATION"@));
    assert(is_property_name("TRANSP"@));
    assert(is_property_name("CATEGORIES"@));
    assert(is_property_name("ATTACH"@));
    assert(is_property_name("ATTENDEE"@));
}

/// A component or a component filter that holds something is written as
/// its start tag with its name, what it holds, and its end tag.
proof fn lemma_named_text(tag: Seq<char>, name: Seq<char>, children: Seq<XmlElementView>)
    requires
        is_property_name(name),
        children.len() > 0,
    ensures
        element_text(node(tag, seq![attr("name"@, name)], children)) == "<"@ + tag + " name=\""@
            + name + "\">"@ + elements_text(children) + "</"@ + tag + ">"@,
{
    reveal_strlit(" ");
    reveal_strlit("=\"");
    reveal_strlit("\"");
    reveal_strlit(">");
    reveal_strlit("name");
    reveal_strlit(" name=\"");
    reveal_strlit("\">");
    lemma_plain_attribute("name"@, name);
    let a = attr("name"@, name);
    let none = Seq::<XmlAttributeView>::empty();
    lemma_attributes_push(none, a);
    assert(none.push(a) == seq![a]);
    assert(attributes_text(none) == Seq::<char>::empty());
    lemma_node_text(tag, seq![a], children);
    assert(" "@ + "name"@ + "=\""@ == " name=\""@);
    assert("\""@ + ">"@ == "\">"@);
    let kids = elements_text(children);
    assert("<"@ + tag + (" "@ + "name"@ + "=\""@ + name + "\""@) + ">"@ + kids + "</"@ + tag
        + ">"@ == "<"@ + tag + (" "@ + "name"@ + "=\""@) + name + ("\""@ + ">"@) + kids + "</"@
        + tag + ">"@);
}

/// The texts of two elements, one behind the other.
proof fn lemma_two_elements(a: XmlElementView, b: XmlElementView)
    ensures
        elements_text(seq![a, b]) == element_text(a) + element_text(b),
        elements_text(seq![a]) == element_text(a),
{
    let none = Seq::<XmlElementView>::empty();
    lemma_elements_push(none, a);
    lemma_elements_push(none.push(a), b);
    assert(none.push(a) == seq![a]);
    assert(none.push(a).push(b) == seq![a, b]);
    assert(elements_text(none) == Seq::<char>::empty());
}

/// The component of the events is written as `event_comp_text`.
proof fn lemma_event_comp_text()
    ensures
        element_text(
            node(
                "c:comp"@,
                seq![attr("name"@, "VEVENT"@)],
                event_property_names().map_values(|name: Seq<char>| prop_element(name)),
            ),
        ) == event_comp_text(),
{
    lemma_event_property_names();
    lemma_wanted_texts(event_property_names());
    let fields = event_property_names().map_values(|name: Seq<char>| prop_element(name));
    lemma_named_text("c:comp"@, "VEVENT"@, fields);
    lemma_comp_tags();
}

/// The tags of the components, character by character.
proof fn lemma_comp_tags()
    ensures
        "<"@ + "c:comp"@ + " name=\""@ + "VEVENT"@ + "\">"@ == "<c:comp name=\"VEVENT\">"@,
        "<"@ + "c:comp"@ + " name=\""@ + "VCALENDAR"@ + "\">"@ == "<c:comp name=\"VCALENDAR\">"@,
        "</"@ + "c:comp"@ + ">"@ == "</c:comp>"@,
{
    reveal_strlit("<");
    reveal_strlit(">");
    reveal_strlit("</");
    reveal_strlit("c:comp");
    reveal_strlit(" name=\"");
    reveal_strlit("\">");
    reveal_strlit("VCALENDAR");
    reveal_strlit("VEVENT");
    reveal_strlit("<c:comp name=\"VCALENDAR\">");
    reveal_strlit("<c:comp name=\"VEVENT\">");
    reveal_strlit("</c:comp>");
}

/// The component of a calendar object is written as
/// `calendar_comp_text`.
proof fn lemma_calendar_comp_text(event: XmlElementView)
    requires
        element_text(event) == event_comp_text(),
    ensures
        element_text(
            node(
                "c:comp"@,
                seq![attr("name"@, "VCALENDAR"@)],
                seq![prop_element("VERSION"@), event],
            ),
        ) == calendar_comp_text(),
{
    lemma_event_property_names();
    lemma_wanted_text("VERSION"@);
    lemma_two_elements(prop_element("VERSION"@), event);
    lemma_named_text("c:comp"@, "VCALENDAR"@, seq![prop_element("VERSION"@), event]);
    lemma_comp_tags();
    let open = "<c:comp name=\"VCALENDAR\">"@;
    let close = "</c:comp>"@;
    assert(open + (wanted_text("VERSION"@) + event_comp_text()) + close == open + wanted_text(
        "VERSION"@,
    ) + event_comp_text() + close);
}

/// The tags around the calendar data, character by character.
proof fn lemma_prop_tags()
    ensures
        "<"@ + "d:prop"@ + ">"@ == "<d:prop>"@,
        "</"@ + "d:prop"@ + ">"@ == "</d:prop>"@,
        "<"@ + "d:getetag"@ + "/>"@ == "<d:getetag/>"@,
        "<"@ + "c:calendar-data"@ + ">"@ == "<c:calendar-data>"@,
        "</"@ + "c:calendar-data"@ + ">"@ == "</c:calendar-data>"@,
{
    reveal_strlit("<");
    reveal_strlit(">");
    reveal_strlit("/>");
    reveal_strlit("</");
    reveal_strlit("d:prop");
    reveal_strlit("d:getetag");
    reveal_strlit("c:calendar-data");
    reveal_strlit("<d:prop>");
    reveal_strlit("</d:prop>");
    reveal_strlit("<d:getetag/>");
    reveal_strlit("<c:calendar-data>");
    reveal_strlit("</c:calendar-data>");
}

/// The element that an event query asks with is written as
/// `event_prop_text`.
proof fn lemma_event_prop_text()
    ensures
        element_text(event_prop_element()) == event_prop_text(),
{
    let fields = event_property_names().map_values(|name: Seq<char>| prop_element(name));
    let event = node("c:comp"@, seq![attr("name"@, "VEVENT"@)], fields);
    lemma_event_comp_text();
    let calendar = node(
        "c:comp"@,
        seq![attr("name"@, "VCALENDAR"@)],
        seq![prop_element("VERSION"@), event],
    );
    lemma_calendar_comp_text(event);
    let data = node("c:calendar-data"@, Seq::empty(), seq![calendar]);
    lemma_two_elements(calendar, calendar);
    lemma_node_text("c:calendar-data"@, Seq::empty(), seq![calendar]);
    lemma_leaf_text("d:getetag"@);
    lemma_two_elements(leaf("d:getetag"@), data);
    lemma_node_text("d:prop"@, Seq::empty(), seq![leaf("d:getetag"@), data]);
    lemma_prop_tags();
    assert(attributes_text(Seq::empty()) == Seq::<char>::empty());
    let none = Seq::<char>::empty();
    assert("<"@ + "c:calendar-data"@ + none == "<"@ + "c:calendar-data"@);
    assert("<"@ + "d:prop"@ + none == "<"@ + "d:prop"@);
    assert(element_text(data) == "<c:calendar-data>"@ + calendar_comp_text()
        + "</c:calendar-data>"@);
    assert("<d:prop>"@ + ("<d:getetag/>"@ + element_text(data)) + "</d:prop>"@ == "<d:prop>"@
        + "<d:getetag/>"@ + element_text(data) + "</d:prop>"@);
}

/// The tags of the filter, character by character.
proof fn lemma_filter_tags()
    ensures
        "<"@ + "c:filter"@ + ">"@ == "<c:filter>"@,
        "</"@ + "c:filter"@ + ">"@ == "</c:filter>"@,
        "<"@ + "c:comp-filter"@ + " name=\""@ + "VCALENDAR"@ + "\">"@
            == "<c:comp-filter name=\"VCALENDAR\">"@,
        "<"@ + "c:comp-filter"@ + " name=\""@ + "VEVENT"@ + "\""@ + "/>"@
            == "<c:comp-filter name=\"VEVENT\"/>"@,
        "</"@ + "c:comp-filter"@ + ">"@ == "</c:comp-filter>"@,
{
    reveal_strlit("<");
    reveal_strlit(">");
    reveal_strlit("/>");
    reveal_strlit("</");
    reveal_strlit("\"");
    reveal_strlit(" name=\"");
    reveal_strlit("\">");
    reveal_strlit("c:filter");
    reveal_strlit("c:comp-filter");
    reveal_strlit("VCALENDAR");
    reveal_strlit("VEVENT");
    reveal_strlit("<c:filter>");
    reveal_strlit("</c:filter>");
    reveal_strlit("<c:comp-filter name=\"VCALENDAR\">");
    reveal_strlit("<c:comp-filter name=\"VEVENT\"/>");
    reveal_strlit("</c:comp-filter>");
}

/// A component filter that holds nothing is written as an empty-element
/// tag with its name.
proof fn lemma_named_leaf_text(tag: Seq<char>, name: Seq<char>)
    requires
        is_property_name(name),
    ensures
        element_text(node(tag, seq![attr("name"@, name)], Seq::empty())) == "<"@ + tag
            + " name=\""@ + name + "\""@ + "/>"@,
{
    reveal_strlit(" ");
    reveal_strlit("=\"");
    reveal_strlit("name");
    reveal_strlit(" name=\"");
    lemma_plain_attribute("name"@, name);
    let a = attr("name"@, name);
    let none = Seq::<XmlAttributeView>::empty();
    lemma_attributes_push(none, a);
    assert(none.push(a) == seq![a]);
    assert(attributes_text(none) == Seq::<char>::empty());
    assert(" "@ + "name"@ + "=\""@ == " name=\""@);
    assert("<"@ + tag + (" "@ + "name"@ + "=\""@ + name + "\""@) + "/>"@ == "<"@ + tag + (" "@
        + "name"@ + "=\""@) + name + "\""@ + "/>"@);
}

/// The filter of an event query is written as `events_filter_text`.
proof fn lemma_events_filter_text()
    ensures
        element_text(events_filter_element()) == events_filter_text(),
{
    lemma_event_property_names();
    let inner = node("c:comp-filter"@, seq![attr("name"@, "VEVENT"@)], Seq::empty());
    lemma_named_leaf_text("c:comp-filter"@, "VEVENT"@);
    let outer = node("c:comp-filter"@, seq![attr("name"@, "VCALENDAR"@)], seq![inner]);
    lemma_two_elements(inner, inner);
    lemma_named_text("c:comp-filter"@, "VCALENDAR"@, seq![inner]);
    lemma_two_elements(outer, outer);
    lemma_node_text("c:filter"@, Seq::empty(), seq![outer]);
    lemma_filter_tags();
    assert(attributes_text(Seq::empty()) == Seq::<char>::empty());
    assert("<"@ + "c:filter"@ + Seq::<char>::empty() == "<"@ + "c:filter"@);
    assert(element_text(inner) == "<c:comp-filter name=\"VEVENT\"/>"@);
    assert(element_text(outer) == "<c:comp-filter name=\"VCALENDAR\">"@
        + "<c:comp-filter name=\"VEVENT\"/>"@ + "</c:comp-filter>"@);
}

/// The start and the end tag of an event query, character by character.
proof fn lemma_query_tags()
    ensures
        "<"@ + "c:calendar-query"@ + (" "@ + "xmlns:c"@ + "=\""@ + caldav_ns() + "\""@)
            == "<c:calendar-query xmlns:c=\"urn:ietf:params:xml:ns:caldav\""@,
        " "@ + "xmlns:d"@ + "=\""@ + dav_ns() + "\""@ + ">"@ == " xmlns:d=\"DAV:\">"@,
        "</"@ + "c:calendar-query"@ + ">"@ == "</c:calendar-query>"@,
{
    reveal_strlit("<");
    reveal_strlit(">");
    reveal_strlit("</");
    reveal_strlit(" ");
    reveal_strlit("=\"");
    reveal_strlit("\"");
    reveal_strlit("c:calendar-query");
    reveal_strlit("xmlns:c");
    reveal_strlit("xmlns:d");
    reveal_strlit("DAV:");
    reveal_strlit("urn:ietf:params:xml:ns:caldav");
    reveal_strlit("<c:calendar-query xmlns:c=\"urn:ietf:params:xml:ns:caldav\"");
    reveal_strlit(" xmlns:d=\"DAV:\">");
    reveal_strlit("</c:calendar-query>");
}

/// The namespaces need no escaping.
proof fn lemma_namespaces_are_plain()
    ensures
        escaped(dav_ns()) == dav_ns(),
        escaped(caldav_ns()) == caldav_ns(),
{
    reveal_strlit("DAV:");
    reveal_strlit("urn:ietf:params:xml:ns:caldav");
    lemma_plain_text_is_not_changed(dav_ns());
    lemma_plain_text_is_not_changed(caldav_ns());
}

/// The body of an event query is the text `events_body`.
pub proof fn lemma_events_body()
    ensures
        element_text(calendar_query_element()) == events_body(),
{
    lemma_event_prop_text();
    lemma_events_filter_text();
    lemma_query_tags();
    lemma_namespaces_are_plain();
    let a = attr("xmlns:c"@, caldav_ns());
    let b = attr("xmlns:d"@, dav_ns());
    let none = Seq::<XmlAttributeView>::empty();
    lemma_attributes_push(none, a);
    lemma_attributes_push(none.push(a), b);
    assert(none.push(a).push(b) == seq![a, b]);
    assert(attributes_text(none) == Seq::<char>::empty());
    let whole = calendar_query_element();
    lemma_two_elements(event_prop_element(), events_filter_element());
    lemma_node_text(whole.name, whole.attributes, whole.children);
    let first = " "@ + "xmlns:c"@ + "=\""@ + caldav_ns() + "\""@;
    let second = " "@ + "xmlns:d"@ + "=\""@ + dav_ns() + "\""@;
    assert(attribute_text(a) == first);
    assert(attribute_text(b) == second);
    let prop = event_prop_text();
    let filter = events_filter_text();
    assert("<"@ + "c:calendar-query"@ + (first + second) + ">"@ + (prop + filter) + "</"@
        + "c:calendar-query"@ + ">"@ == ("<"@ + "c:calendar-query"@ + first) + (second + ">"@)
        + prop + filter + ("</"@ + "c:calendar-query"@ + ">"@));
}

} // verus!
