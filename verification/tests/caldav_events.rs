use schedsync_api::connectors::caldav::caldav::{
    events_of_entries, get_events, get_value_safe, parse_entries, retained_entries, CaldavError,
    CaldavEvent, EventEntry, ParsedEntry,
};
use schedsync_api::connectors::caldav::ics::{
    collect_events, events_from_objects, extract_events, IcsEvent, IcsObject, IcsProperty,
};
use schedsync_api::connectors::caldav::multistatus::{
    CaldavReply, EventResponse, MultiStatus, PropfindResponse, Propstat,
};

const OK: &str = "HTTP/1.1 200 OK";

fn property(name: &str, value: Option<&str>) -> IcsProperty {
    IcsProperty { name: name.to_string(), value: value.map(|v| v.to_string()) }
}

fn complete_event(uid: &str) -> IcsEvent {
    IcsEvent {
        properties: vec![
            property("UID", Some(uid)),
            property("CREATED", Some("20240101T000000Z")),
            property("SUMMARY", Some("Lunch")),
            property("DTSTART", Some("20240102T120000Z")),
            property("DTEND", Some("20240102T130000Z")),
        ],
    }
}

fn event_without(name: &str) -> IcsEvent {
    let mut event = complete_event("partial");
    event.properties.retain(|p| p.name != name);
    event
}

fn vevent(uid: &str, extra: &str) -> String {
    format!(
        "BEGIN:VEVENT\r\nUID:{}\r\nCREATED:20240101T000000Z\r\nSUMMARY:Lunch\r\n\
         DTSTART:20240102T120000Z\r\nDTEND:20240102T130000Z\r\n{}END:VEVENT\r\n",
        uid, extra
    )
}

fn vcalendar(events: &str) -> String {
    format!("BEGIN:VCALENDAR\r\nVERSION:2.0\r\n{}END:VCALENDAR\r\n", events)
}

fn entry(status: &str, etag: Option<&str>, data: Option<&str>) -> PropfindResponse<EventResponse> {
    PropfindResponse {
        href: "/1234/calendars/home/event.ics".to_string(),
        propstat: vec![Propstat {
            prop: Some(EventResponse {
                getetag: etag.map(|e| e.to_string()),
                calendar_data: data.map(|d| d.to_string()),
            }),
            status: status.to_string(),
        }],
    }
}

fn answered(response: Vec<PropfindResponse<EventResponse>>) -> CaldavReply<EventResponse> {
    CaldavReply::Answered { status: 207, document: Ok(MultiStatus { response }) }
}

fn missing(result: &Result<CaldavEvent, CaldavError>) -> String {
    match result {
        Err(CaldavError::MissingRequiredProperty(name)) => name.clone(),
        other => panic!("unexpected outcome {:?}", other),
    }
}

#[test]
fn event_fields_come_from_the_properties() {
    let mut event = complete_event("abc");
    event.properties.push(property("LAST-MODIFIED", Some("20240103T000000Z")));
    event.properties.push(property("STATUS", Some("CONFIRMED")));
    event.properties.push(property("ORGANIZER", Some("mailto:a@example.test")));
    event.properties.push(property("RECURRENCE-ID", Some("20240102T120000Z")));
    event.properties.push(property("RRULE", Some("FREQ=DAILY")));
    event.properties.push(property("LOCATION", Some("Office")));
    event.properties.push(property("TRANSP", Some("OPAQUE")));
    event.properties.push(property("CATEGORIES", Some("FOOD")));
    event.properties.push(property("ATTACH", Some("https://example.test/menu")));
    event.properties.push(property("ATTENDEE", Some("mailto:b@example.test")));
    let fields = CaldavEvent::from_ical_evel(&event).unwrap();
    assert_eq!(fields.uid, "abc");
    assert_eq!(fields.created, "20240101T000000Z");
    assert_eq!(fields.summary, "Lunch");
    assert_eq!(fields.dtstart, "20240102T120000Z");
    assert_eq!(fields.dtend, "20240102T130000Z");
    assert_eq!(fields.last_modified.as_deref(), Some("20240103T000000Z"));
    assert_eq!(fields.status.as_deref(), Some("CONFIRMED"));
    assert_eq!(fields.organizer.as_deref(), Some("mailto:a@example.test"));
    assert_eq!(fields.recurrence_id.as_deref(), Some("20240102T120000Z"));
    assert_eq!(fields.rrule.as_deref(), Some("FREQ=DAILY"));
    assert_eq!(fields.location.as_deref(), Some("Office"));
    assert_eq!(fields.transp.as_deref(), Some("OPAQUE"));
    assert_eq!(fields.categories.as_deref(), Some("FOOD"));
    assert_eq!(fields.attach.as_deref(), Some("https://example.test/menu"));
    assert_eq!(fields.attendee.as_deref(), Some("mailto:b@example.test"));
}

#[test]
fn optional_fields_may_be_absent() {
    let fields = CaldavEvent::from_ical_evel(&complete_event("abc")).unwrap();
    assert_eq!(fields.last_modified, None);
    assert_eq!(fields.status, None);
    assert_eq!(fields.organizer, None);
    assert_eq!(fields.recurrence_id, None);
    assert_eq!(fields.rrule, None);
    assert_eq!(fields.location, None);
    assert_eq!(fields.transp, None);
    assert_eq!(fields.categories, None);
    assert_eq!(fields.attach, None);
    assert_eq!(fields.attendee, None);
}

#[test]
fn each_required_property_is_missed_by_name() {
    for name in ["UID", "CREATED", "SUMMARY", "DTSTART", "DTEND"] {
        let result = CaldavEvent::from_ical_evel(&event_without(name));
        assert_eq!(missing(&result), name);
    }
}

#[test]
fn the_first_missing_property_is_reported() {
    let event = IcsEvent {
        properties: vec![property("UID", Some("abc")), property("DTSTART", Some("x"))],
    };
    assert_eq!(missing(&CaldavEvent::from_ical_evel(&event)), "CREATED");
    let nothing = IcsEvent { properties: Vec::new() };
    assert_eq!(missing(&CaldavEvent::from_ical_evel(&nothing)), "UID");
}

#[test]
fn a_required_property_without_a_value_is_missing() {
    let mut event = event_without("SUMMARY");
    event.properties.push(property("SUMMARY", None));
    assert_eq!(missing(&CaldavEvent::from_ical_evel(&event)), "SUMMARY");
}

#[test]
fn the_last_property_of_a_name_wins() {
    let properties = vec![
        property("SUMMARY", Some("first")),
        property("UID", Some("abc")),
        property("SUMMARY", Some("second")),
    ];
    assert_eq!(get_value_safe(&properties, "SUMMARY").as_deref(), Some("second"));
    assert_eq!(get_value_safe(&properties, "UID").as_deref(), Some("abc"));
    assert_eq!(get_value_safe(&properties, "DTEND"), None);
    assert_eq!(get_value_safe(&properties, "summary"), None);
    let emptied = vec![property("SUMMARY", Some("first")), property("SUMMARY", None)];
    assert_eq!(get_value_safe(&emptied, "SUMMARY"), None);
}

#[test]
fn a_failing_event_leaves_its_siblings_alone() {
    let objects = vec![
        IcsObject::Calendar(vec![complete_event("a"), event_without("DTEND"), complete_event("b")]),
        IcsObject::Malformed,
        IcsObject::Calendar(Vec::new()),
        IcsObject::Calendar(vec![complete_event("c")]),
    ];
    let results = events_from_objects(&objects);
    assert_eq!(results.len(), 4);
    assert_eq!(results[0].as_ref().unwrap().uid, "a");
    assert_eq!(missing(&results[1]), "DTEND");
    assert_eq!(results[2].as_ref().unwrap().uid, "b");
    assert_eq!(results[3].as_ref().unwrap().uid, "c");
}

#[test]
fn a_blob_is_parsed_into_its_events() {
    let blob = vcalendar(&format!(
        "{}{}",
        vevent("first", "LOCATION:Office\r\n"),
        vevent("second", "")
    ));
    let results = extract_events(&blob);
    assert_eq!(results.len(), 2);
    let first = results[0].as_ref().unwrap();
    assert_eq!(first.uid, "first");
    assert_eq!(first.summary, "Lunch");
    assert_eq!(first.location.as_deref(), Some("Office"));
    assert_eq!(results[1].as_ref().unwrap().uid, "second");
}

#[test]
fn a_blob_with_an_event_that_lacks_its_uid_still_gives_the_others() {
    let broken = "BEGIN:VEVENT\r\nCREATED:20240101T000000Z\r\nSUMMARY:No uid\r\n\
                  DTSTART:20240102T120000Z\r\nDTEND:20240102T130000Z\r\nEND:VEVENT\r\n";
    let blob = vcalendar(&format!("{}{}{}", vevent("first", ""), broken, vevent("third", "")));
    let results = extract_events(&blob);
    assert_eq!(results.len(), 3);
    assert_eq!(results[0].as_ref().unwrap().uid, "first");
    assert_eq!(missing(&results[1]), "UID");
    assert_eq!(results[2].as_ref().unwrap().uid, "third");
}

#[test]
fn a_blob_may_hold_several_calendar_objects() {
    let blob =
        format!("{}{}", vcalendar(&vevent("one", "")), vcalendar(&vevent("two", "")));
    let results = extract_events(&blob);
    assert_eq!(results.len(), 2);
    assert_eq!(results[0].as_ref().unwrap().uid, "one");
    assert_eq!(results[1].as_ref().unwrap().uid, "two");
}

#[test]
fn a_malformed_calendar_object_is_passed_over() {
    let truncated = "BEGIN:VCALENDAR\r\nVERSION:2.0\r\nBEGIN:VEVENT\r\nUID:lost\r\n";
    assert!(extract_events(truncated).is_empty());
    assert!(extract_events("").is_empty());
    assert!(extract_events("this is no calendar").is_empty());
}

#[test]
fn folded_lines_are_joined() {
    let blob = vcalendar(&vevent("folded", "LOCATION:Second floor\r\n , room 4\r\n"));
    let results = extract_events(&blob);
    assert_eq!(results.len(), 1);
    assert_eq!(results[0].as_ref().unwrap().location.as_deref(), Some("Second floor, room 4"));
}

#[test]
fn collection_keeps_the_events_that_could_be_read() {
    let results = vec![
        CaldavEvent::from_ical_evel(&complete_event("a")),
        CaldavEvent::from_ical_evel(&event_without("DTEND")),
        CaldavEvent::from_ical_evel(&complete_event("b")),
        CaldavEvent::from_ical_evel(&event_without("UID")),
    ];
    let events = collect_events(results);
    assert_eq!(events.len(), 2);
    assert_eq!(events[0].uid, "a");
    assert_eq!(events[1].uid, "b");
    let none = vec![
        CaldavEvent::from_ical_evel(&event_without("SUMMARY")),
        CaldavEvent::from_ical_evel(&event_without("CREATED")),
    ];
    assert!(collect_events(none).is_empty());
    assert!(collect_events(Vec::new()).is_empty());
}

#[test]
fn events_are_listed_entry_by_entry() {
    let first = vcalendar(&format!("{}{}", vevent("a", ""), vevent("b", "")));
    let second = vcalendar(&vevent("c", ""));
    let reply = answered(vec![
        entry(OK, Some("\"etag-1\""), Some(&first)),
        entry(OK, Some("\"etag-2\""), Some(&second)),
    ]);
    let list = get_events(reply).unwrap();
    assert_eq!(list.len(), 2);
    assert_eq!(list[0].etag, "\"etag-1\"");
    assert_eq!(list[0].events.len(), 2);
    assert_eq!(list[0].events[0].uid, "a");
    assert_eq!(list[0].events[1].uid, "b");
    assert_eq!(list[1].etag, "\"etag-2\"");
    assert_eq!(list[1].events.len(), 1);
    assert_eq!(list[1].events[0].uid, "c");
}

#[test]
fn entries_without_etag_or_data_are_dropped() {
    let data = vcalendar(&vevent("kept", ""));
    let reply = answered(vec![
        entry(OK, None, Some(&data)),
        entry(OK, Some("\"no-data\""), None),
        entry("HTTP/1.1 404 Not Found", Some("\"gone\""), Some(&data)),
        entry(OK, Some("\"kept\""), Some(&data)),
        PropfindResponse {
            href: "/1234/calendars/home/".to_string(),
            propstat: vec![Propstat { prop: None, status: OK.to_string() }],
        },
        PropfindResponse { href: "/1234/calendars/home/".to_string(), propstat: Vec::new() },
    ]);
    let list = get_events(reply).unwrap();
    assert_eq!(list.len(), 1);
    assert_eq!(list[0].etag, "\"kept\"");
    assert_eq!(list[0].events[0].uid, "kept");
}

#[test]
fn all_entries_failing_is_an_empty_result_set() {
    let data = vcalendar(&vevent("a", ""));
    let reply = answered(vec![
        entry("HTTP/1.1 404 Not Found", Some("\"1\""), Some(&data)),
        entry("HTTP/1.1 403 Forbidden", Some("\"2\""), Some(&data)),
        entry("HTTP/1.1 500 Internal Server Error", Some("\"3\""), Some(&data)),
    ]);
    assert!(matches!(get_events(reply), Err(CaldavError::EmptyResultSet)));
}

#[test]
fn no_entries_is_an_empty_result_set() {
    assert!(matches!(get_events(answered(Vec::new())), Err(CaldavError::EmptyResultSet)));
}

#[test]
fn an_entry_without_events_still_counts() {
    let reply = answered(vec![entry(OK, Some("\"empty\""), Some(&vcalendar("")))]);
    let list = get_events(reply).unwrap();
    assert_eq!(list.len(), 1);
    assert_eq!(list[0].etag, "\"empty\"");
    assert!(list[0].events.is_empty());
    let unreadable = answered(vec![entry(OK, Some("\"junk\""), Some("no calendar at all"))]);
    let list = get_events(unreadable).unwrap();
    assert_eq!(list.len(), 1);
    assert!(list[0].events.is_empty());
}

#[test]
fn an_event_without_a_required_property_is_left_out_of_the_query() {
    let broken = "BEGIN:VEVENT\r\nUID:x\r\nCREATED:20240101T000000Z\r\n\
                  DTSTART:20240102T120000Z\r\nDTEND:20240102T130000Z\r\nEND:VEVENT\r\n";
    let mixed = vcalendar(&format!("{}{}{}", vevent("a", ""), broken, vevent("b", "")));
    let reply = answered(vec![
        entry(OK, Some("\"1\""), Some(&mixed)),
        entry(OK, Some("\"2\""), Some(&vcalendar(broken))),
    ]);
    let list = get_events(reply).unwrap();
    assert_eq!(list.len(), 2);
    assert_eq!(list[0].etag, "\"1\"");
    assert_eq!(list[0].events.len(), 2);
    assert_eq!(list[0].events[0].uid, "a");
    assert_eq!(list[0].events[1].uid, "b");
    assert_eq!(list[1].etag, "\"2\"");
    assert!(list[1].events.is_empty());
}

#[test]
fn a_well_formed_event_is_returned_beside_one_that_is_not() {
    for name in ["UID", "CREATED", "SUMMARY", "DTSTART", "DTEND"] {
        let lines: Vec<String> = [
            ("UID", "b"),
            ("CREATED", "20240101T000000Z"),
            ("SUMMARY", "Dinner"),
            ("DTSTART", "20240102T180000Z"),
            ("DTEND", "20240102T190000Z"),
        ]
        .iter()
        .filter(|(key, _)| *key != name)
        .map(|(key, value)| format!("{}:{}\r\n", key, value))
        .collect();
        let broken = format!("BEGIN:VEVENT\r\n{}END:VEVENT\r\n", lines.concat());
        let blob = vcalendar(&format!("{}{}", vevent("a", ""), broken));
        let list = get_events(answered(vec![entry(OK, Some("\"E\""), Some(&blob))])).unwrap();
        assert_eq!(list.len(), 1, "without {}", name);
        assert_eq!(list[0].etag, "\"E\"");
        assert_eq!(list[0].events.len(), 1);
        assert_eq!(list[0].events[0].uid, "a");
    }
}

#[test]
fn dropped_entries_do_not_depend_on_what_the_events_lack() {
    let broken = "BEGIN:VEVENT\r\nUID:x\r\nEND:VEVENT\r\n";
    let data = vcalendar(&format!("{}{}", broken, vevent("kept", "")));
    let reply = answered(vec![
        entry(OK, Some("\"a\""), Some(&data)),
        entry(OK, None, Some(&data)),
        entry(OK, Some("\"c\""), None),
    ]);
    let list = get_events(reply).unwrap();
    assert_eq!(list.len(), 1);
    assert_eq!(list[0].etag, "\"a\"");
    assert_eq!(list[0].events.len(), 1);
    assert_eq!(list[0].events[0].uid, "kept");
}

#[test]
fn event_query_judges_the_exchange_first() {
    let refused: CaldavReply<EventResponse> =
        CaldavReply::Answered { status: 403, document: Ok(MultiStatus { response: Vec::new() }) };
    assert!(matches!(get_events(refused), Err(CaldavError::UnexpectedStatus(403))));
    let garbled: CaldavReply<EventResponse> =
        CaldavReply::Answered { status: 207, document: Err("unexpected end".to_string()) };
    assert!(matches!(get_events(garbled), Err(CaldavError::DeserializationError(_))));
    let silent: CaldavReply<EventResponse> = CaldavReply::Unreachable("timed out".to_string());
    assert!(matches!(get_events(silent), Err(CaldavError::NetworkError(_))));
}

#[test]
fn retained_entries_are_the_usable_responses_in_document_order() {
    let responses = vec![
        entry(OK, Some("\"1\""), Some("first")),
        entry("HTTP/1.1 404 Not Found", Some("\"2\""), Some("second")),
        entry(OK, None, Some("third")),
        entry(OK, Some("\"4\""), None),
        entry(OK, Some("\"5\""), Some("fifth")),
    ];
    let entries = retained_entries(&responses);
    let kept: Vec<(&str, &str)> =
        entries.iter().map(|e| (e.etag.as_str(), e.calendar_data.as_str())).collect();
    assert_eq!(kept, vec![("\"1\"", "first"), ("\"5\"", "fifth")]);
    assert!(retained_entries(&Vec::new()).is_empty());
}

#[test]
fn entries_are_read_one_by_one() {
    let entries = vec![
        EventEntry {
            etag: "\"1\"".to_string(),
            calendar_data: vcalendar(&format!("{}{}", vevent("a", ""), vevent("b", ""))),
        },
        EventEntry { etag: "\"2\"".to_string(), calendar_data: "junk".to_string() },
    ];
    let parsed = parse_entries(entries);
    assert_eq!(parsed.len(), 2);
    assert_eq!(parsed[0].etag, "\"1\"");
    assert_eq!(parsed[0].objects.len(), 1);
    match &parsed[0].objects[0] {
        IcsObject::Calendar(events) => {
            assert_eq!(events.len(), 2);
            assert_eq!(events[0].properties[0].name, "UID");
            assert_eq!(events[0].properties[0].value.as_deref(), Some("a"));
        }
        other => panic!("unexpected object {:?}", other),
    }
    assert_eq!(parsed[1].etag, "\"2\"");
    assert!(parsed[1].objects.iter().all(|o| matches!(o, IcsObject::Malformed)));
}

#[test]
fn events_of_parsed_entries() {
    let entries = vec![
        ParsedEntry {
            etag: "\"1\"".to_string(),
            objects: vec![
                IcsObject::Calendar(vec![complete_event("a")]),
                IcsObject::Malformed,
                IcsObject::Calendar(vec![complete_event("b")]),
            ],
        },
        ParsedEntry { etag: "\"2\"".to_string(), objects: vec![IcsObject::Malformed] },
    ];
    let list = events_of_entries(entries).unwrap();
    assert_eq!(list.len(), 2);
    assert_eq!(list[0].etag, "\"1\"");
    assert_eq!(list[0].events.len(), 2);
    assert_eq!(list[0].events[1].uid, "b");
    assert_eq!(list[1].etag, "\"2\"");
    assert!(list[1].events.is_empty());

    assert!(matches!(events_of_entries(Vec::new()), Err(CaldavError::EmptyResultSet)));

    let mixed = vec![
        ParsedEntry {
            etag: "\"1\"".to_string(),
            objects: vec![IcsObject::Calendar(vec![complete_event("a")])],
        },
        ParsedEntry {
            etag: "\"2\"".to_string(),
            objects: vec![IcsObject::Calendar(vec![
                complete_event("b"),
                event_without("CREATED"),
                event_without("UID"),
                complete_event("c"),
            ])],
        },
        ParsedEntry {
            etag: "\"3\"".to_string(),
            objects: vec![IcsObject::Calendar(vec![event_without("DTSTART")])],
        },
    ];
    let list = events_of_entries(mixed).unwrap();
    assert_eq!(list.len(), 3);
    assert_eq!(list[0].events.len(), 1);
    assert_eq!(list[1].etag, "\"2\"");
    assert_eq!(list[1].events.len(), 2);
    assert_eq!(list[1].events[0].uid, "b");
    assert_eq!(list[1].events[1].uid, "c");
    assert_eq!(list[2].etag, "\"3\"");
    assert!(list[2].events.is_empty());
}
