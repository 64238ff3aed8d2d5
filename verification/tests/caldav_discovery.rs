use schedsync_api::connectors::caldav::caldav::{
    get_calendar, get_principal, CaldavCalendar, CaldavError,
};
use schedsync_api::connectors::caldav::multistatus::{
    CaldavReply, CalendarComponent, CalendarPrivilege, CalendarResourceType,
    CalendarResponseData, CurrentPrincipleProp, Href, MultiStatus, PropfindResponse, Propstat,
    ResourceTypeCalendar, ResourceTypeCollection, SupportCalendarComponentSet,
};

const OK: &str = "HTTP/1.1 200 OK";
const NOT_FOUND: &str = "HTTP/1.1 404 Not Found";

fn principal_response(href: &str, principal: &str) -> PropfindResponse<CurrentPrincipleProp> {
    PropfindResponse {
        href: href.to_string(),
        propstat: vec![Propstat {
            prop: Some(CurrentPrincipleProp {
                current_user_principal: Href { href: principal.to_string() },
            }),
            status: OK.to_string(),
        }],
    }
}

fn answered<T>(response: Vec<PropfindResponse<T>>) -> CaldavReply<T> {
    CaldavReply::Answered { status: 207, document: Ok(MultiStatus { response }) }
}

fn both_markers() -> CalendarResourceType {
    CalendarResourceType {
        calendar: Some(ResourceTypeCalendar {}),
        collection: Some(ResourceTypeCollection {}),
    }
}

fn calendar_response(
    href: &str,
    status: &str,
    name: &str,
    resourcetype: Option<CalendarResourceType>,
) -> PropfindResponse<CalendarResponseData> {
    PropfindResponse {
        href: href.to_string(),
        propstat: vec![Propstat {
            prop: Some(CalendarResponseData {
                displayname: Some(name.to_string()),
                resourcetype,
                privileges: None,
                calendar_color: None,
                components: None,
            }),
            status: status.to_string(),
        }],
    }
}

fn ids(calendars: &[CaldavCalendar]) -> Vec<String> {
    calendars.iter().map(|c| c.id.clone()).collect()
}

#[test]
fn principal_is_the_first_segment_of_the_trimmed_href() {
    let reply = answered(vec![principal_response("/users/alice/", "/principals/alice/")]);
    let principal = get_principal(reply).unwrap();
    assert_eq!(principal.user_id, "principals");
    assert_eq!(principal.path, "/principals/alice/");
}

#[test]
fn principal_of_an_icloud_style_href() {
    let reply = answered(vec![principal_response("/", "/1234567/principal/")]);
    let principal = get_principal(reply).unwrap();
    assert_eq!(principal.user_id, "1234567");
    assert_eq!(principal.path, "/1234567/principal/");
}

#[test]
fn principal_without_slashes_is_its_own_user() {
    let reply = answered(vec![principal_response("/", "bob")]);
    let principal = get_principal(reply).unwrap();
    assert_eq!(principal.user_id, "bob");
    assert_eq!(principal.path, "bob");
}

#[test]
fn principal_is_read_from_the_first_response_only() {
    let reply = answered(vec![
        principal_response("/", "/first/a/"),
        principal_response("/", "/second/b/"),
    ]);
    assert_eq!(get_principal(reply).unwrap().user_id, "first");
}

#[test]
fn reading_the_same_answer_twice_gives_the_same_principal() {
    let once =
        get_principal(answered(vec![principal_response("/", "/principals/carol/")])).unwrap();
    let twice =
        get_principal(answered(vec![principal_response("/", "/principals/carol/")])).unwrap();
    assert_eq!(once.user_id, twice.user_id);
    assert_eq!(once.path, twice.path);
}

#[test]
fn principal_discovery_without_a_response_is_an_empty_response() {
    let reply: CaldavReply<CurrentPrincipleProp> = answered(Vec::new());
    assert!(matches!(get_principal(reply), Err(CaldavError::EmptyResponse)));
}

#[test]
fn principal_href_of_slashes_is_malformed() {
    for href in ["", "/", "///"] {
        let reply = answered(vec![principal_response("/", href)]);
        assert!(matches!(get_principal(reply), Err(CaldavError::MalformedPrincipalPath)));
    }
}

#[test]
fn principal_response_without_properties_is_malformed() {
    let no_propstat = answered(vec![PropfindResponse::<CurrentPrincipleProp> {
        href: "/".to_string(),
        propstat: Vec::new(),
    }]);
    assert!(matches!(get_principal(no_propstat), Err(CaldavError::MalformedPrincipalPath)));
    let no_prop = answered(vec![PropfindResponse::<CurrentPrincipleProp> {
        href: "/".to_string(),
        propstat: vec![Propstat { prop: None, status: OK.to_string() }],
    }]);
    assert!(matches!(get_principal(no_prop), Err(CaldavError::MalformedPrincipalPath)));
}

#[test]
fn any_status_but_207_is_unexpected() {
    for status in [200u16, 204, 401, 404, 500] {
        let reply = CaldavReply::Answered {
            status,
            document: Ok(MultiStatus {
                response: vec![principal_response("/", "/principals/alice/")],
            }),
        };
        match get_principal(reply) {
            Err(CaldavError::UnexpectedStatus(got)) => assert_eq!(got, status),
            other => panic!("unexpected outcome {:?}", other),
        }
    }
}

#[test]
fn status_is_judged_before_the_body() {
    let reply: CaldavReply<CurrentPrincipleProp> =
        CaldavReply::Answered { status: 401, document: Err("no document".to_string()) };
    assert!(matches!(get_principal(reply), Err(CaldavError::UnexpectedStatus(401))));
}

#[test]
fn undecodable_body_is_a_deserialization_error() {
    let reply: CaldavReply<CurrentPrincipleProp> =
        CaldavReply::Answered { status: 207, document: Err("missing field".to_string()) };
    match get_principal(reply) {
        Err(CaldavError::DeserializationError(cause)) => assert_eq!(cause, "missing field"),
        other => panic!("unexpected outcome {:?}", other),
    }
}

#[test]
fn no_answer_is_a_network_error() {
    let reply: CaldavReply<CalendarResponseData> =
        CaldavReply::Unreachable("connection refused".to_string());
    match get_calendar(reply) {
        Err(CaldavError::NetworkError(cause)) => assert_eq!(cause, "connection refused"),
        other => panic!("unexpected outcome {:?}", other),
    }
}

#[test]
fn calendars_are_the_successful_calendar_collections_in_document_order() {
    let reply = answered(vec![
        calendar_response("/1234/calendars/", OK, "root", Some(CalendarResourceType {
            calendar: None,
            collection: Some(ResourceTypeCollection {}),
        })),
        calendar_response("/1234/calendars/home/", OK, "Home", Some(both_markers())),
        calendar_response("/1234/calendars/gone/", NOT_FOUND, "Gone", Some(both_markers())),
        calendar_response("/1234/calendars/work/", OK, "Work", Some(both_markers())),
        calendar_response("/1234/calendars/inbox/", OK, "Inbox", None),
        calendar_response("/1234/calendars/tasks/", OK, "Tasks", Some(CalendarResourceType {
            calendar: Some(ResourceTypeCalendar {}),
            collection: None,
        })),
        calendar_response("/1234/calendars/family", OK, "Family", Some(both_markers())),
    ]);
    let calendars = get_calendar(reply).unwrap();
    assert_eq!(ids(&calendars), vec!["home", "work", "family"]);
    assert_eq!(calendars[0].path, "/1234/calendars/home/");
    assert_eq!(calendars[0].displayname, "Home");
    assert_eq!(calendars[2].path, "/1234/calendars/family");
}

#[test]
fn calendar_discovery_may_find_nothing() {
    let none: CaldavReply<CalendarResponseData> = answered(Vec::new());
    assert!(get_calendar(none).unwrap().is_empty());
    let refused = answered(vec![calendar_response(
        "/1234/calendars/home/",
        NOT_FOUND,
        "Home",
        Some(both_markers()),
    )]);
    assert!(get_calendar(refused).unwrap().is_empty());
}

#[test]
fn only_the_first_propstat_decides() {
    let response = PropfindResponse {
        href: "/1234/calendars/home/".to_string(),
        propstat: vec![
            Propstat { prop: None, status: NOT_FOUND.to_string() },
            Propstat {
                prop: Some(CalendarResponseData {
                    displayname: Some("Home".to_string()),
                    resourcetype: Some(both_markers()),
                    privileges: None,
                    calendar_color: None,
                    components: None,
                }),
                status: OK.to_string(),
            },
        ],
    };
    assert!(get_calendar(answered(vec![response])).unwrap().is_empty());
    let no_propstat = PropfindResponse::<CalendarResponseData> {
        href: "/1234/calendars/home/".to_string(),
        propstat: Vec::new(),
    };
    assert!(get_calendar(answered(vec![no_propstat])).unwrap().is_empty());
}

#[test]
fn successful_response_without_properties_is_no_calendar() {
    let response = PropfindResponse::<CalendarResponseData> {
        href: "/1234/calendars/home/".to_string(),
        propstat: vec![Propstat { prop: None, status: OK.to_string() }],
    };
    assert!(get_calendar(answered(vec![response])).unwrap().is_empty());
}

#[test]
fn calendar_from_data_fills_what_is_missing() {
    let data = CalendarResponseData {
        displayname: None,
        resourcetype: None,
        privileges: None,
        calendar_color: None,
        components: None,
    };
    let calendar = CaldavCalendar::from_data(data, "/1234/calendars/home/".to_string());
    assert_eq!(calendar.id, "home");
    assert_eq!(calendar.path, "/1234/calendars/home/");
    assert_eq!(calendar.displayname, "");
    assert_eq!(calendar.resourcetype, CalendarResourceType { calendar: None, collection: None });
    assert!(calendar.privileges.is_empty());
    assert_eq!(calendar.calendar_color, "");
    assert!(calendar.components.components.is_none());
}

#[test]
fn calendar_from_data_keeps_what_is_there() {
    let data = CalendarResponseData {
        displayname: Some("Work".to_string()),
        resourcetype: Some(both_markers()),
        privileges: Some(vec![CalendarPrivilege {}, CalendarPrivilege {}]),
        calendar_color: Some("#ff0000".to_string()),
        components: Some(SupportCalendarComponentSet {
            components: Some(vec![CalendarComponent {}]),
        }),
    };
    let calendar = CaldavCalendar::from_data(data, "calendars/work".to_string());
    assert_eq!(calendar.id, "work");
    assert_eq!(calendar.displayname, "Work");
    assert_eq!(calendar.resourcetype, both_markers());
    assert_eq!(calendar.privileges.len(), 2);
    assert_eq!(calendar.calendar_color, "#ff0000");
    assert_eq!(calendar.components.components.map(|c| c.len()), Some(1));
}

#[test]
fn calendar_id_is_the_last_segment_of_the_trimmed_path() {
    let empty = || CalendarResponseData {
        displayname: None,
        resourcetype: None,
        privileges: None,
        calendar_color: None,
        components: None,
    };
    assert_eq!(CaldavCalendar::from_data(empty(), "/a/b/c//".to_string()).id, "c");
    assert_eq!(CaldavCalendar::from_data(empty(), "single".to_string()).id, "single");
    assert_eq!(CaldavCalendar::from_data(empty(), "/a//b/".to_string()).id, "b");
    assert_eq!(CaldavCalendar::from_data(empty(), "/".to_string()).id, "");
    assert_eq!(CaldavCalendar::from_data(empty(), "".to_string()).id, "");
}
