use schedsync_api::middleware::{
    authenticate, authorize_middleware, split_credential, AuthorizationError,
    AuthorizationHeader,
};
use schedsync_api::models::app::App;
use schedsync_api::models::app_key::AppKey;
use schedsync_api::test_util::{basic_token, generate_basic_header};

fn app() -> App {
    App { id: 1, client_id: "client-1".to_string() }
}

fn key() -> AppKey {
    AppKey {
        id: 2,
        app_id: 1,
        key: "secret-key".to_string(),
        key_preview: "secre...t-key".to_string(),
    }
}

fn reason(header: AuthorizationHeader) -> AuthorizationError {
    match authorize_middleware(&header) {
        Err(error) => error,
        Ok(credentials) => panic!("unexpected credentials {:?}", credentials),
    }
}

#[test]
fn basic_header_is_the_encoded_token() {
    assert_eq!(basic_token(&app(), &key()), "client-1:secret-key");
    assert_eq!(generate_basic_header(&app(), &key()), "Basic Y2xpZW50LTE6c2VjcmV0LWtleQ==");
}

#[test]
fn credentials_are_read_from_a_basic_header() {
    let header = AuthorizationHeader::Text("Basic Y2xpZW50LTE6c2VjcmV0LWtleQ==".to_string());
    let credentials = authorize_middleware(&header).unwrap();
    assert_eq!(credentials.client_id, "client-1");
    assert_eq!(credentials.client_secret, "secret-key");
}

#[test]
fn a_generated_header_is_read_back() {
    let header = AuthorizationHeader::Text(generate_basic_header(&app(), &key()));
    let credentials = authorize_middleware(&header).unwrap();
    assert_eq!(credentials.client_id, app().client_id);
    assert_eq!(credentials.client_secret, key().key);
}

#[test]
fn a_request_without_header_is_turned_away() {
    assert_eq!(reason(AuthorizationHeader::Missing), AuthorizationError::MissingHeader);
    assert_eq!(reason(AuthorizationHeader::Unreadable), AuthorizationError::MalformedHeader);
}

#[test]
fn only_the_basic_scheme_is_read() {
    for text in ["Bearer abc", "basic Y2xpZW50LTE6c2VjcmV0LWtleQ==", "Basic", ""] {
        assert_eq!(
            reason(AuthorizationHeader::Text(text.to_string())),
            AuthorizationError::UnsupportedScheme
        );
    }
}

#[test]
fn what_is_no_base64_or_no_text_is_malformed() {
    assert_eq!(
        reason(AuthorizationHeader::Text("Basic !!!not-base64!!!".to_string())),
        AuthorizationError::MalformedHeader
    );
    assert_eq!(
        reason(AuthorizationHeader::Text("Basic Y2xpZW50LTE6c2VjcmV0LWtleQ".to_string())),
        AuthorizationError::MalformedHeader
    );
    // The bytes ff fe 3a 61 are no UTF-8.
    assert_eq!(
        reason(AuthorizationHeader::Text("Basic //46YQ==".to_string())),
        AuthorizationError::MalformedHeader
    );
}

#[test]
fn a_credential_needs_exactly_one_colon() {
    // "client-1" and "a:b:c"
    assert_eq!(
        reason(AuthorizationHeader::Text("Basic Y2xpZW50LTE=".to_string())),
        AuthorizationError::Unauthorized
    );
    assert_eq!(
        reason(AuthorizationHeader::Text("Basic YTpiOmM=".to_string())),
        AuthorizationError::Unauthorized
    );
    assert_eq!(
        reason(AuthorizationHeader::Text("Basic ".to_string())),
        AuthorizationError::Unauthorized
    );
    assert!(split_credential("a:b:c").is_none());
    assert!(split_credential("abc").is_none());
    let both_empty = split_credential(":").unwrap();
    assert_eq!(both_empty.client_id, "");
    assert_eq!(both_empty.client_secret, "");
    let pair = split_credential("id:secret").unwrap();
    assert_eq!(pair.client_id, "id");
    assert_eq!(pair.client_secret, "secret");
}

#[test]
fn messages_are_those_the_client_is_told() {
    assert_eq!(AuthorizationError::MissingHeader.message(), "Missing Authorization Header");
    assert_eq!(AuthorizationError::MalformedHeader.message(), "Malformed Authorization Header");
    assert_eq!(
        AuthorizationError::UnsupportedScheme.message(),
        "Only Basic Authorization is Supported"
    );
    assert_eq!(AuthorizationError::Unauthorized.message(), "Unauthorized");
}

#[test]
fn only_a_known_app_with_a_known_key_is_admitted() {
    let admitted = authenticate(Some(app()), Some(key())).unwrap();
    assert_eq!(admitted.app.client_id, "client-1");
    assert_eq!(admitted.key.key, "secret-key");
    assert_eq!(authenticate(None, Some(key())).err(), Some(AuthorizationError::Unauthorized));
    assert_eq!(authenticate(Some(app()), None).err(), Some(AuthorizationError::Unauthorized));
    assert_eq!(authenticate(None, None).err(), Some(AuthorizationError::Unauthorized));
}
