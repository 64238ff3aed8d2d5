//! Helpers for the callers of the request handlers.

use vstd::prelude::*;
use vstd::string::*;
use crate::models::app::App;
use crate::models::app_key::AppKey;

verus! {

/// The text that the standard alphabet of Base64, with padding, encodes a
/// text as.
pub uninterp spec fn base64_encoded(text: Seq<char>) -> Seq<char>;

/// Calls `encode` of `base64::prelude::BASE64_STANDARD`. The outcome is a
/// function of the text alone, which is all that the contract claims.
#[verifier::external_body]
pub(crate) fn base64_encode(text: &str) -> (out: String)
    ensures
        out@ == base64_encoded(text@),
{
    base64::Engine::encode(&base64::prelude::BASE64_STANDARD, text)
}

/// The token of an application and its key: the client id, a colon and
/// the key.
pub fn basic_token(app: &App, key: &AppKey) -> (out: String)
    ensures
        out@ == app.client_id@ + ":"@ + key.key@,
{
    let mut token = app.client_id.clone();
    token.append(":");
    token.append(key.key.as_str());
    token
}

/// The value of the `Authorization` header with which an application
/// authenticates itself by a key.
pub fn generate_basic_header(app: &App, key: &AppKey) -> (out: String)
    ensures
        out@ == "Basic "@ + base64_encoded(app.client_id@ + ":"@ + key.key@),
{
    let token = basic_token(app, key);
    let mut header = "Basic ".to_owned();
    header.append(base64_encode(token.as_str()).as_str());
    header
}

} // verus!
