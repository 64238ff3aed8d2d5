use schedsync_api::config::{Oauth2Config, ProviderCredentials};
use schedsync_api::connectors::oauth2::Oauth2Service;
use schedsync_api::controllers::oauth2::{
    callback, callback_code, callback_request, redirect, redirect_request,
};
use schedsync_api::models::oauth2_state::Oauth2State;
use schedsync_api::text::{
    count_char, first_segment_of, last_segment_of, parse_i32, str_eq, strip_prefix, trim_matches,
};
use schedsync_api::time::Timestamp;

fn config() -> Oauth2Config {
    Oauth2Config::outlook(ProviderCredentials {
        client_id: "id".to_string(),
        client_secret: "secret".to_string(),
        redirect_uri: "https://app.example.test/cb".to_string(),
        scope: "calendars".to_string(),
    })
}

#[test]
fn a_redirect_needs_a_service_and_a_group() {
    assert_eq!(redirect_request("google", Some("12")).unwrap(), (Oauth2Service::Google, 12));
    assert_eq!(redirect_request("outlook", Some("-3")).unwrap(), (Oauth2Service::Outlook, -3));
    let unknown = redirect_request("yahoo", Some("12")).unwrap_err();
    assert_eq!((unknown.status, unknown.text.as_str()), (404, "/404"));
    let missing = redirect_request("google", None).unwrap_err();
    assert_eq!((missing.status, missing.text.as_str()), (400, "/404"));
    let no_number = redirect_request("google", Some("twelve")).unwrap_err();
    assert_eq!((no_number.status, no_number.text.as_str()), (400, "/404"));
    let too_big = redirect_request("google", Some("2147483648")).unwrap_err();
    assert_eq!(too_big.status, 400);
    let unknown_first = redirect_request("yahoo", None).unwrap_err();
    assert_eq!(unknown_first.status, 404);
}

#[test]
fn a_redirect_sends_the_user_to_the_provider() {
    let pending = Oauth2State {
        id: 1,
        state: "the state".to_string(),
        group_id: 5,
        expires_at: Timestamp { seconds: 0, nanos: 0 },
    };
    let answer = redirect(&config(), Some(&pending));
    assert_eq!(answer.status, 307);
    assert_eq!(
        answer.text,
        "https://login.microsoftonline.com/consumers/oauth2/v2.0/authorize?client_id=id\
         &prompt=consent&redirect_uri=https%3A%2F%2Fapp.example.test%2Fcb&response_type=code\
         &access_type=offline&scope=calendars&state=the+state"
    );
    let unknown = redirect(&config(), None);
    assert_eq!((unknown.status, unknown.text.as_str()), (404, "/404"));
}

#[test]
fn a_callback_needs_a_service_a_state_and_a_code() {
    let (service, state) = callback_request("google", Some("abc")).unwrap();
    assert_eq!(service, Oauth2Service::Google);
    assert_eq!(state, "abc");
    let unknown = callback_request("yahoo", Some("abc")).unwrap_err();
    assert_eq!((unknown.status, unknown.text.as_str()), (404, "Service not found"));
    let missing = callback_request("outlook", None).unwrap_err();
    assert_eq!((missing.status, missing.text.as_str()), (400, "Missing state"));

    let found = callback_code(Oauth2Service::Outlook, true, Some("code-1")).unwrap();
    assert_eq!(found.code, "code-1");
    assert_eq!(found.service, Oauth2Service::Outlook);
    let stale = callback_code(Oauth2Service::Outlook, false, Some("code-1")).unwrap_err();
    assert_eq!((stale.status, stale.text.as_str()), (404, "State not found"));
    let stale_first = callback_code(Oauth2Service::Outlook, false, None).unwrap_err();
    assert_eq!(stale_first.status, 404);
    let no_code = callback_code(Oauth2Service::Outlook, true, None).unwrap_err();
    assert_eq!((no_code.status, no_code.text.as_str()), (400, "Missing code or scope"));
}

#[test]
fn a_callback_reports_whether_the_integration_was_created() {
    let created = callback(true);
    assert_eq!((created.status, created.text.as_str()), (200, "Integration created"));
    let failed = callback(false);
    assert_eq!((failed.status, failed.text.as_str()), (500, "Failed to create integration"));
}

#[test]
fn decimal_numbers_are_read_as_std_reads_them() {
    let cases = [
        "0", "7", "007", "+5", "-5", "-0", "+0", "2147483647", "2147483648", "-2147483648",
        "-2147483649", "99999999999999999999999", "", "+", "-", "--1", "+-1", "1-", " 1", "1 ",
        "1_000", "0x10", "12a", "a12", "٣", "１２", "1.0", "-", "+2147483647", "-00000000001",
        "00000000002147483647", "4294967296", "9223372036854775808",
    ];
    for text in cases {
        assert_eq!(parse_i32(text), text.parse::<i32>().ok(), "reading {:?}", text);
    }
    assert_eq!(parse_i32("-2147483648"), Some(i32::MIN));
    assert_eq!(parse_i32("2147483647"), Some(i32::MAX));
    assert_eq!(parse_i32("2147483648"), None);
}

#[test]
fn texts_are_trimmed_and_split_as_std_does() {
    for text in ["", "/", "//", "/a/", "a", "//a//b//", "a/b", "/é/ü/", "a//", "//a"] {
        assert_eq!(trim_matches(text, '/'), text.trim_matches('/'), "trimming {:?}", text);
        assert_eq!(
            first_segment_of(text, '/'),
            text.split('/').next().unwrap(),
            "first segment of {:?}",
            text
        );
        assert_eq!(
            last_segment_of(text, '/'),
            text.split('/').last().unwrap(),
            "last segment of {:?}",
            text
        );
        assert_eq!(count_char(text, '/'), text.matches('/').count());
    }
    assert_eq!(trim_matches("xxaxbxx", 'x'), "axb");
    assert!(str_eq("abc", "abc"));
    assert!(!str_eq("abc", "abd"));
    assert!(!str_eq("abc", "ab"));
    assert!(str_eq("", ""));
    assert_eq!(strip_prefix("Basic abc", "Basic ").as_deref(), Some("abc"));
    assert_eq!(strip_prefix("Basic ", "Basic ").as_deref(), Some(""));
    assert_eq!(strip_prefix("Basi", "Basic "), None);
    assert_eq!(strip_prefix("basic abc", "Basic "), None);
    assert_eq!(strip_prefix("abc", "").as_deref(), Some("abc"));
}
