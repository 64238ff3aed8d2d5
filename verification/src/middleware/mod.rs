//! The reading of an application's credentials from the `Authorization`
//! header of a request.

use vstd::prelude::*;
use vstd::utf8::{decode_utf8, valid_utf8};
use crate::models::app::App;
use crate::models::app_key::AppKey;
use crate::text::{
    count_char, count_of, first_segment, first_segment_of, last_segment, last_segment_of,
    lemma_count_of_absent, lemma_count_of_parts, lemma_prefix_len, lemma_suffix_len, prefix_len,
    strip_prefix, suffix_len,
};

verus! {

/// The `Authorization` header of a request, as far as it can be read.
#[derive(Debug)]
pub enum AuthorizationHeader {
    /// The request has none.
    Missing,
    /// The header's value is no text.
    Unreadable,
    /// The header's value.
    Text(String),
}

/// Why a request is not authorized.
#[derive(Debug, Clone, Copy, PartialEq, Eq, Structural)]
pub enum AuthorizationError {
    MissingHeader,
    MalformedHeader,
    UnsupportedScheme,
    Unauthorized,
}

impl AuthorizationError {
    /// What the client is told.
    pub open spec fn text(self) -> Seq<char> {
        match self {
            AuthorizationError::MissingHeader => "Missing Authorization Header"@,
            AuthorizationError::MalformedHeader => "Malformed Authorization Header"@,
            AuthorizationError::UnsupportedScheme => "Only Basic Authorization is Supported"@,
            AuthorizationError::Unauthorized => "Unauthorized"@,
        }
    }

    /// What the client is told.
    pub fn message(&self) -> (out: String)
        ensures
            out@ == self.text(),
    {
        match self {
            AuthorizationError::MissingHeader => "Missing Authorization Header".to_owned(),
            AuthorizationError::MalformedHeader => "Malformed Authorization Header".to_owned(),
            AuthorizationError::UnsupportedScheme =>
                "Only Basic Authorization is Supported".to_owned(),
            AuthorizationError::Unauthorized => "Unauthorized".to_owned(),
        }
    }
}

/// The credentials of an application.
#[derive(Debug)]
pub struct Credentials {
    pub client_id: String,
    pub client_secret: String,
}

/// The bytes that the standard alphabet of Base64, with padding, decodes a
/// text to, where the text is such an encoding.
pub uninterp spec fn base64_decoded(text: Seq<char>) -> Option<Seq<u8>>;

/// Calls `decode` of `base64::prelude::BASE64_STANDARD`. The outcome is a
/// function of the text alone, which is all that the contract claims: it
/// is `base64_decoded` of the text, nothing where the engine refuses it.
#[verifier::external_body]
pub(crate) fn base64_decode(text: &str) -> (out: Option<Vec<u8>>)
    ensures
        match out {
            Some(bytes) => base64_decoded(text@) == Some(bytes@),
            None => base64_decoded(text@) is None,
        },
{
    base64::Engine::decode(&base64::prelude::BASE64_STANDARD, text).ok()
}

/// Calls `String::from_utf8`, which gives the text that the bytes encode
/// in UTF-8 and refuses bytes that are no such encoding.
#[verifier::external_body]
pub(crate) fn text_of_bytes(bytes: Vec<u8>) -> (out: Option<String>)
    ensures
        match out {
            Some(text) => valid_utf8(bytes@) && text@ == decode_utf8(bytes@),
            None => !valid_utf8(bytes@),
        },
{
    String::from_utf8(bytes).ok()
}

/// The client id and the secret that a credential names: what stands
/// before and behind its colon, where it has exactly one.
pub open spec fn credentials_in(credential: Seq<char>) -> Option<(Seq<char>, Seq<char>)> {
    if count_of(credential, ':') == 1 {
        Some((first_segment(credential, ':'), last_segment(credential, ':')))
    } else {
        None
    }
}

/// A client id and a secret that hold no colon are read back from the
/// credential that joins them by a colon.
pub proof fn lemma_credential_is_read_back(client_id: Seq<char>, secret: Seq<char>)
    requires
        !client_id.contains(':'),
        !secret.contains(':'),
    ensures
        credentials_in(client_id + ":"@ + secret) == Some((client_id, secret)),
{
    reveal_strlit(":");
    let colon = ":"@;
    assert(colon == seq![':']);
    let credential = client_id + colon + secret;
    lemma_count_of_absent(client_id, ':');
    lemma_count_of_absent(secret, ':');
    lemma_count_of_parts(client_id + colon, secret, ':');
    lemma_count_of_parts(client_id, colon, ':');
    assert(count_of(colon, ':') == 1) by {
        assert(colon.len() == 1 && colon.last() == ':');
        assert(colon.drop_last().len() == 0);
        assert(count_of(colon.drop_last(), ':') == 0);
    }
    lemma_prefix_len(credential, ':');
    lemma_suffix_len(credential, ':');
    let n = client_id.len() as int;
    assert(credential[n] == ':');
    assert forall|i: int| 0 <= i < n implies credential[i] != ':' by {
        assert(client_id.contains(client_id[i]));
    }
    assert forall|i: int| n < i < credential.len() implies credential[i] != ':' by {
        assert(secret.contains(secret[i - n - 1]));
    }
    assert(prefix_len(credential, ':') == n) by {
        if prefix_len(credential, ':') < n {
        } else if prefix_len(credential, ':') > n {
        }
    }
    assert(suffix_len(credential, ':') == secret.len()) by {
        let m = suffix_len(credential, ':') as int;
        if m < secret.len() {
            assert(credential[credential.len() - m - 1] == ':');
        } else if m > secret.len() {
            assert(credential[n] != ':');
        }
    }
    assert(first_segment(credential, ':') == client_id);
    assert(last_segment(credential, ':') == secret);
}

/// What the `Authorization` header of a request says of its sender: a
/// header of the scheme `Basic` whose Base64 text decodes to a client id, a
/// colon and a secret gives the two; any other gives the reason why not.
pub open spec fn authorization_of(header: AuthorizationHeader) -> Result<
    (Seq<char>, Seq<char>),
    AuthorizationError,
> {
    match header {
        AuthorizationHeader::Missing => Err(AuthorizationError::MissingHeader),
        AuthorizationHeader::Unreadable => Err(AuthorizationError::MalformedHeader),
        AuthorizationHeader::Text(text) => if !"Basic "@.is_prefix_of(text@) {
            Err(AuthorizationError::UnsupportedScheme)
        } else {
            match base64_decoded(text@.skip("Basic "@.len() as int)) {
                None => Err(AuthorizationError::MalformedHeader),
                Some(bytes) => if !valid_utf8(bytes) {
                    Err(AuthorizationError::MalformedHeader)
                } else {
                    match credentials_in(decode_utf8(bytes)) {
                        Some(pair) => Ok(pair),
                        None => Err(AuthorizationError::Unauthorized),
                    }
                },
            }
        },
    }
}

/// The client id and the secret that a credential names.
pub fn split_credential(credential: &str) -> (out: Option<Credentials>)
    ensures
        match out {
            Some(c) => credentials_in(credential@) == Some((c.client_id@, c.client_secret@)),
            None => credentials_in(credential@) is None,
        },
{
    if count_char(credential, ':') != 1 {
        return None;
    }
    Some(
        Credentials {
            client_id: first_segment_of(credential, ':'),
            client_secret: last_segment_of(credential, ':'),
        },
    )
}

/// Reads the credentials of the sender from the `Authorization` header of
/// a request.
pub fn authorize_middleware(header: &AuthorizationHeader) -> (out: Result<
    Credentials,
    AuthorizationError,
>)
    ensures
        match out {
            Ok(c) => authorization_of(*header) == Ok::<
                (Seq<char>, Seq<char>),
                AuthorizationError,
            >((c.client_id@, c.client_secret@)),
            Err(error) => authorization_of(*header) == Err::<
                (Seq<char>, Seq<char>),
                AuthorizationError,
            >(error),
        },
{
    let text = match header {
        AuthorizationHeader::Missing => {
            return Err(AuthorizationError::MissingHeader);
        },
        AuthorizationHeader::Unreadable => {
            return Err(AuthorizationError::MalformedHeader);
        },
        AuthorizationHeader::Text(text) => text,
    };
    let encoded = match strip_prefix(text.as_str(), "Basic ") {
        Some(encoded) => encoded,
        None => {
            return Err(AuthorizationError::UnsupportedScheme);
        },
    };
    let decoded = match base64_decode(encoded.as_str()) {
        Some(decoded) => decoded,
        None => {
            return Err(AuthorizationError::MalformedHeader);
        },
    };
    let credential = match text_of_bytes(decoded) {
        Some(credential) => credential,
        None => {
            return Err(AuthorizationError::MalformedHeader);
        },
    };
    match split_credential(credential.as_str()) {
        Some(credentials) => Ok(credentials),
        None => Err(AuthorizationError::Unauthorized),
    }
}

/// An application that has authenticated itself, and the key it used.
#[derive(Debug, Clone)]
pub struct AuthenticatedApp {
    pub app: App,
    pub key: AppKey,
}

/// Admits the sender of a request where its client id names a stored
/// application and its secret a key of that application.
pub fn authenticate(app: Option<App>, key: Option<AppKey>) -> (out: Result<
    AuthenticatedApp,
    AuthorizationError,
>)
    ensures
        match out {
            Ok(admitted) => app == Some(admitted.app) && key == Some(admitted.key),
            Err(error) => error == AuthorizationError::Unauthorized && (app is None || key is None),
        },
{
    match (app, key) {
        (Some(app), Some(key)) => Ok(AuthenticatedApp { app, key }),
        _ => Err(AuthorizationError::Unauthorized),
    }
}

} // verus!
