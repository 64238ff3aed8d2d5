use schedsync_api::connectors::oauth2::{InvalidRow, Oauth2Service};
use schedsync_api::connectors::ServiceType;
use schedsync_api::controllers::RequestError;
use schedsync_api::models::app::App;
use schedsync_api::models::app_key::{AppKey, NewAppKey};
use schedsync_api::models::calendar::Calendar;
use schedsync_api::models::group::{CreateGroup, Group};
use schedsync_api::models::integration::{Integration, NewIntegration};
use schedsync_api::models::oauth2_state::{Oauth2State, STATE_LIFETIME};
use schedsync_api::models::oauth_integration::OauthIntegration;
use schedsync_api::time::Timestamp;

#[test]
fn services_are_stored_as_numbers() {
    assert_eq!(Oauth2Service::Google.to_sql(), 1);
    assert_eq!(Oauth2Service::Outlook.to_sql(), 2);
    assert_eq!(Oauth2Service::build(1), Ok(Oauth2Service::Google));
    assert_eq!(Oauth2Service::build(2), Ok(Oauth2Service::Outlook));
    assert_eq!(Oauth2Service::build(3), Err(InvalidRow { value: 3 }));
    assert_eq!(Oauth2Service::build(0), Err(InvalidRow { value: 0 }));
    assert_eq!(Oauth2Service::build(-1), Err(InvalidRow { value: -1 }));
}

#[test]
fn services_are_named_in_addresses() {
    assert_eq!(Oauth2Service::Google.to_string(), "google");
    assert_eq!(Oauth2Service::Outlook.to_string(), "outlook");
    assert_eq!(Oauth2Service::from_str("google"), Ok(Oauth2Service::Google));
    assert_eq!(Oauth2Service::from_str("outlook"), Ok(Oauth2Service::Outlook));
    assert_eq!(Oauth2Service::from_str("Google"), Err(()));
    assert_eq!(Oauth2Service::from_str("apple"), Err(()));
    assert_eq!(Oauth2Service::from_str(""), Err(()));
    for service in [Oauth2Service::Google, Oauth2Service::Outlook] {
        assert_eq!(Oauth2Service::from_str(&service.to_string()), Ok(service));
        assert_eq!(Oauth2Service::build(service.to_sql()), Ok(service));
    }
}

#[test]
fn service_types_are_stored_as_numbers() {
    assert_eq!(ServiceType::Google(Oauth2Service::Google).to_sql(), 1);
    assert_eq!(ServiceType::Outlook(Oauth2Service::Outlook).to_sql(), 2);
    assert_eq!(ServiceType::Apple.to_sql(), 3);
    assert_eq!(ServiceType::build(1), Ok(ServiceType::Google(Oauth2Service::Google)));
    assert_eq!(ServiceType::build(2), Ok(ServiceType::Outlook(Oauth2Service::Outlook)));
    assert_eq!(ServiceType::build(3), Ok(ServiceType::Apple));
    assert_eq!(ServiceType::build(4), Err(InvalidRow { value: 4 }));
    assert_eq!(ServiceType::build(0), Err(InvalidRow { value: 0 }));
}

#[test]
fn service_type_of_an_oauth2_service() {
    assert_eq!(
        ServiceType::from_oauth2(Oauth2Service::Google),
        ServiceType::Google(Oauth2Service::Google)
    );
    assert_eq!(
        ServiceType::from_oauth2(Oauth2Service::Outlook),
        ServiceType::Outlook(Oauth2Service::Outlook)
    );
}

#[test]
fn a_new_key_has_a_preview_of_its_ends() {
    let key = NewAppKey::with_key(9, "0123456789abcdef".to_string());
    assert_eq!(key.app_id, 9);
    assert_eq!(key.key, "0123456789abcdef");
    assert_eq!(key.key_preview, "01234...bcdef");
    let short = NewAppKey::with_key(9, "abcde".to_string());
    assert_eq!(short.key_preview, "abcde...abcde");
}

#[test]
fn generated_keys_are_identifiers() {
    let app = App { id: 4, client_id: "client".to_string() };
    let first = app.create_key();
    let second = AppKey::new(4);
    assert_eq!(first.app_id, 4);
    assert_eq!(first.key.len(), 36);
    for (i, c) in first.key.chars().enumerate() {
        if i == 8 || i == 13 || i == 18 || i == 23 {
            assert_eq!(c, '-');
        } else {
            assert!(c.is_ascii_digit() || ('a'..='f').contains(&c), "{:?} at {}", c, i);
        }
    }
    assert_eq!(first.key_preview.len(), 13);
    assert_eq!(first.key_preview[..5], first.key[..5]);
    assert_eq!(&first.key_preview[5..8], "...");
    assert_eq!(first.key_preview[8..], first.key[31..]);
    assert_ne!(first.key, second.key);
    assert_eq!(App::new().client_id.len(), 36);
}

#[test]
fn an_app_creates_groups_of_its_own() {
    let app = App { id: 4, client_id: "client".to_string() };
    assert_eq!(app.create_group(), CreateGroup { app_id: 4 });
    assert_eq!(Group::new(11), CreateGroup { app_id: 11 });
}

#[test]
fn an_integration_belongs_to_a_group() {
    let group = Group { id: 5, app_id: 4 };
    assert_eq!(
        Integration::new(&group, ServiceType::Apple),
        NewIntegration { service: ServiceType::Apple, group_id: 5 }
    );
}

#[test]
fn tokens_to_store_keep_what_they_are_given() {
    let integration = Integration { id: 8, service: ServiceType::Apple, group_id: 5 };
    let tokens = OauthIntegration::new(
        &integration,
        Oauth2Service::Outlook,
        "access".to_string(),
        "refresh".to_string(),
        Timestamp { seconds: 10, nanos: 20 },
    );
    assert_eq!(tokens.integration_id, 8);
    assert_eq!(tokens.service, Oauth2Service::Outlook);
    assert_eq!(tokens.access_token, "access");
    assert_eq!(tokens.refresh_token, "refresh");
    assert_eq!(tokens.expires_at, Timestamp { seconds: 10, nanos: 20 });
}

#[test]
fn expiry_alone_decides_staleness() {
    let stored = OauthIntegration {
        id: 1,
        service: Oauth2Service::Google,
        access_token: "a".to_string(),
        refresh_token: "r".to_string(),
        expires_at: Timestamp { seconds: 100, nanos: 500 },
    };
    assert!(!stored.is_stale(Timestamp { seconds: 99, nanos: 999_999_999 }));
    assert!(!stored.is_stale(Timestamp { seconds: 100, nanos: 500 }));
    assert!(stored.is_stale(Timestamp { seconds: 100, nanos: 501 }));
    assert!(stored.is_stale(Timestamp { seconds: 101, nanos: 0 }));
    let copy = stored.clone();
    assert_eq!(copy.access_token, "a");
    assert_eq!(copy.expires_at, stored.expires_at);
}

#[test]
fn a_state_lives_five_minutes() {
    assert_eq!(STATE_LIFETIME, 300);
    let group = Group { id: 5, app_id: 4 };
    let now = Timestamp { seconds: 1_000, nanos: 7 };
    let state = Oauth2State::generate(&group, "state".to_string(), now);
    assert_eq!(state.group_id, 5);
    assert_eq!(state.state, "state");
    assert_eq!(state.expires_at, Timestamp { seconds: 1_300, nanos: 7 });
    let stored = Oauth2State {
        id: 1,
        state: state.state,
        group_id: state.group_id,
        expires_at: state.expires_at,
    };
    assert!(!stored.is_expired(now));
    assert!(!stored.is_expired(Timestamp { seconds: 1_300, nanos: 7 }));
    assert!(stored.is_expired(Timestamp { seconds: 1_300, nanos: 8 }));
}

#[test]
fn timestamps_move_by_whole_seconds() {
    let t = Timestamp { seconds: -5, nanos: 999_999_999 };
    assert_eq!(t.plus_seconds(10), Timestamp { seconds: 5, nanos: 999_999_999 });
    assert_eq!(t.plus_seconds(-10), Timestamp { seconds: -15, nanos: 999_999_999 });
    assert_eq!(t.checked_plus_seconds(5), Some(Timestamp { seconds: 0, nanos: 999_999_999 }));
    assert_eq!(Timestamp { seconds: i64::MAX, nanos: 0 }.checked_plus_seconds(1), None);
    assert_eq!(Timestamp { seconds: i64::MIN, nanos: 0 }.checked_plus_seconds(-1), None);
    assert!(t.is_before(Timestamp { seconds: -4, nanos: 0 }));
    assert!(!t.is_before(t));
}

#[test]
fn records_hold_their_fields() {
    let calendar = Calendar {
        id: 1,
        external_id: "ext".to_string(),
        name: "Home".to_string(),
        background_color: "#fff".to_string(),
        foreground_color: "#000".to_string(),
        integration_id: "7".to_string(),
    };
    assert_eq!(calendar.external_id, "ext");
    assert_ne!(RequestError::BearerTokenMissing, RequestError::AppNotFound);
    assert_ne!(RequestError::AppNotFound, RequestError::AuthorizationError);
}

#[test]
fn storing_a_state_is_given_up_after_three_retries() {
    assert!(!Oauth2State::gives_up(0));
    assert!(!Oauth2State::gives_up(3));
    assert!(Oauth2State::gives_up(4));
}
