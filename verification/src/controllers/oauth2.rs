//! The authorization redirect and the exchange of an authorization code
//! for tokens.

use vstd::prelude::*;
use vstd::string::*;
use crate::config::{Config, Oauth2Config, Oauth2ConfigView};
use crate::connectors::oauth2::{
    HttpMethod, HttpReply, HttpRequest, HttpRequestView, OK, Oauth2Service, Pairs, pair, pairs_view,
};
use crate::models::integration::Integration;
use crate::models::oauth2_state::Oauth2State;
use crate::models::oauth_integration::{
    NewOauthIntegration, NewOauthIntegrationView, OauthIntegration,
};
use crate::text::{i32_of, parse_i32, text_view};
use crate::time::Timestamp;

verus! {

/// The settings of a service.
pub fn get_service_config(service: Oauth2Service, config: &Config) -> (out: &Oauth2Config)
    ensures
        *out == match service {
            Oauth2Service::Google => config.oauth2.google,
            Oauth2Service::Outlook => config.oauth2.outlook,
        },
{
    match service {
        Oauth2Service::Google => &config.oauth2.google,
        Oauth2Service::Outlook => &config.oauth2.outlook,
    }
}

/// The text that `serde_urlencoded` writes for a run of names and values
/// in the format `application/x-www-form-urlencoded`.
pub uninterp spec fn form_urlencoded(pairs: Pairs) -> Seq<char>;

/// Calls `serde_urlencoded::to_string` on the parameters. For a list of
/// pairs of strings the call always gives a text: its sequence serializer
/// accepts every pair of two strings and appends it. The text is a
/// function of the names and values alone: it is `form_urlencoded` of them.
#[verifier::external_body]
pub(crate) fn urlencode(pairs: &Vec<(String, String)>) -> (out: Option<String>)
    ensures
        text_view(out) == Some(form_urlencoded(pairs_view(pairs@))),
{
    serde_urlencoded::to_string(pairs).ok()
}

/// The parameters with which a user is sent to a provider's authorization
/// page.
pub open spec fn redirect_params(config: Oauth2ConfigView, state: Seq<char>) -> Pairs {
    seq![
        ("client_id"@, config.client_id),
        ("prompt"@, "consent"@),
        ("redirect_uri"@, config.redirect_uri),
        ("response_type"@, "code"@),
        ("access_type"@, "offline"@),
        ("scope"@, config.scope),
        ("state"@, state),
    ]
}

/// The address of a provider's authorization page for a query string.
pub open spec fn redirect_to(config: Oauth2ConfigView, query: Seq<char>) -> Seq<char> {
    config.authorization_url + "?"@ + query
}

/// The parameters with which a user is sent to a provider's authorization
/// page.
pub fn build_redirect_params(config: &Oauth2Config, state: &str) -> (out: Vec<(String, String)>)
    ensures
        pairs_view(out@) == redirect_params(config@, state@),
{
    let mut params: Vec<(String, String)> = Vec::new();
    params.push(pair("client_id", config.client_id.as_str()));
    params.push(pair("prompt", "consent"));
    params.push(pair("redirect_uri", config.redirect_uri.as_str()));
    params.push(pair("response_type", "code"));
    params.push(pair("access_type", "offline"));
    params.push(pair("scope", config.scope.as_str()));
    params.push(pair("state", state));
    assert(pairs_view(params@) == redirect_params(config@, state@));
    params
}

/// The address of a provider's authorization page under a query string.
pub fn redirect_address(config: &Oauth2Config, query: &str) -> (out: String)
    ensures
        out@ == redirect_to(config@, query@),
{
    let mut address = config.authorization_url.clone();
    address.append("?");
    address.append(query);
    address
}

/// The address to which a user is sent to authorize the access, for the
/// state of a pending authorization.
pub fn build_redirect(config: &Oauth2Config, state: &str) -> (out: String)
    ensures
        out@ == redirect_to(config@, form_urlencoded(redirect_params(config@, state@))),
{
    let params = build_redirect_params(config, state);
    match urlencode(&params) {
        Some(query) => redirect_address(config, query.as_str()),
        None => unreached(),
    }
}

/// The answer of a token endpoint to the exchange of a code.
#[derive(Debug)]
pub struct Oauth2CodeExchangeResponse {
    pub access_token: String,
    pub refresh_token: String,
    pub expires_in: u64,
    pub scope: String,
}

/// The code that a provider handed to a callback, and the provider.
#[derive(Debug)]
pub struct Oauth2Callback {
    pub code: String,
    pub service: Oauth2Service,
}

/// The parameters of the exchange of a code at Outlook.
pub open spec fn outlook_params(code: Seq<char>, config: Oauth2ConfigView) -> Pairs {
    seq![
        ("client_id"@, config.client_id),
        ("client_secret"@, config.client_secret),
        ("code"@, code),
        ("redirect_uri"@, config.redirect_uri),
        ("grant_type"@, "authorization_code"@),
    ]
}

/// The parameters of the exchange of a code at Google: those of Outlook,
/// and offline access.
pub open spec fn google_params(code: Seq<char>, config: Oauth2ConfigView) -> Pairs {
    outlook_params(code, config).push(("access_type"@, "offline"@))
}

/// The parameters of the exchange of a code at a service.
pub open spec fn exchange_params(
    service: Oauth2Service,
    code: Seq<char>,
    config: Oauth2ConfigView,
) -> Pairs {
    match service {
        Oauth2Service::Google => google_params(code, config),
        Oauth2Service::Outlook => outlook_params(code, config),
    }
}

/// The tokens to store after an exchange at `now`: those of an answer with
/// status 200 whose body could be decoded, expiring `expires_in` seconds
/// after `now`. Any other end of the exchange gives none.
pub open spec fn exchanged(
    service: Oauth2Service,
    integration: Integration,
    reply: HttpReply<Oauth2CodeExchangeResponse>,
    now: Timestamp,
) -> Result<NewOauthIntegrationView, ()> {
    match reply {
        HttpReply::Answered { status, decoded: Ok(data), .. } if status == OK => Ok(
            NewOauthIntegrationView {
                integration_id: integration.id,
                access_token: data.access_token@,
                service,
                refresh_token: data.refresh_token@,
                expires_at: now.later(data.expires_in as int),
            },
        ),
        _ => Err(()),
    }
}

/// Whether the expiry that the reply to an exchange asks for can be
/// represented.
pub open spec fn exchange_fits(
    reply: HttpReply<Oauth2CodeExchangeResponse>,
    now: Timestamp,
) -> bool {
    reply matches HttpReply::Answered { status, decoded: Ok(data), .. } ==> status == OK
        ==> now.seconds + data.expires_in <= i64::MAX
}

/// What an exchange returned, as views.
pub open spec fn exchange_result(r: Result<NewOauthIntegration, ()>) -> Result<
    NewOauthIntegrationView,
    (),
> {
    match r {
        Ok(tokens) => Ok(tokens@),
        Err(e) => Err(e),
    }
}

impl Oauth2Callback {
    /// The callback of a service with that code.
    pub fn new(code: String, service: Oauth2Service) -> (out: Self)
        ensures
            out.code == code,
            out.service == service,
    {
        Oauth2Callback { code, service }
    }

    /// The request that exchanges the code for tokens: a POST of the
    /// service's parameters to the token endpoint.
    pub fn exchange_request(&self, config: &Oauth2Config) -> (out: HttpRequest)
        ensures
            out@ == (HttpRequestView {
                method: HttpMethod::Post,
                url: config.token_url@,
                query: Seq::empty(),
                form: exchange_params(self.service, self.code@, config@),
                authorization: None,
            }),
    {
        let out = HttpRequest {
            method: HttpMethod::Post,
            url: config.token_url.clone(),
            query: Vec::new(),
            form: self.get_params(config),
            authorization: None,
        };
        assert(out@.query == Seq::<(Seq<char>, Seq<char>)>::empty());
        out
    }

    /// Exchange the code for an access token and a refresh token: the
    /// tokens to store for the integration, given how the exchange ended
    /// and the time `now`.
    pub fn exchange_code(
        &self,
        service: Oauth2Service,
        integration: &Integration,
        reply: HttpReply<Oauth2CodeExchangeResponse>,
        now: Timestamp,
    ) -> (out: Result<NewOauthIntegration, ()>)
        requires
            exchange_fits(reply, now),
        ensures
            exchange_result(out) == exchanged(service, *integration, reply, now),
    {
        match reply {
            HttpReply::Answered { status, decoded, .. } => {
                if status != OK {
                    return Err(());
                }
                match decoded {
                    Ok(data) => {
                        let seconds = (now.seconds as i128 + data.expires_in as i128) as i64;
                        let expires_at = Timestamp { seconds, nanos: now.nanos };
                        Ok(
                            OauthIntegration::new(
                                integration,
                                service,
                                data.access_token,
                                data.refresh_token,
                                expires_at,
                            ),
                        )
                    },
                    Err(_) => Err(()),
                }
            },
            HttpReply::Unreachable(_) => Err(()),
        }
    }

    /// The parameters of the exchange of the code.
    pub fn get_params(&self, config: &Oauth2Config) -> (out: Vec<(String, String)>)
        ensures
            pairs_view(out@) == exchange_params(self.service, self.code@, config@),
    {
        match self.service {
            Oauth2Service::Google => self.build_google_params(config),
            Oauth2Service::Outlook => self.build_outlook_params(config),
        }
    }

    /// The parameters of the exchange of the code at Google.
    pub fn build_google_params(&self, config: &Oauth2Config) -> (out: Vec<(String, String)>)
        ensures
            pairs_view(out@) == google_params(self.code@, config@),
    {
        let mut params = self.build_outlook_params(config);
        params.push(pair("access_type", "offline"));
        assert(pairs_view(params@) == google_params(self.code@, config@));
        params
    }

    /// The parameters of the exchange of the code at Outlook.
    pub fn build_outlook_params(&self, config: &Oauth2Config) -> (out: Vec<(String, String)>)
        ensures
            pairs_view(out@) == outlook_params(self.code@, config@),
    {
        let mut params: Vec<(String, String)> = Vec::new();
        params.push(pair("client_id", config.client_id.as_str()));
        params.push(pair("client_secret", config.client_secret.as_str()));
        params.push(pair("code", self.code.as_str()));
        params.push(pair("redirect_uri", config.redirect_uri.as_str()));
        params.push(pair("grant_type", "authorization_code"));
        assert(pairs_view(params@) == outlook_params(self.code@, config@));
        params
    }
}

/// The status of a redirect that keeps the method.
pub const TEMPORARY_REDIRECT: u16 = 307;

/// The status of a request that cannot be understood.
pub const BAD_REQUEST: u16 = 400;

/// The status of a request for something that is not there.
pub const NOT_FOUND: u16 = 404;

/// The status of a request that failed on the server's side.
pub const INTERNAL_SERVER_ERROR: u16 = 500;

/// What a request is answered with: a status and a text. The text of a
/// redirect is the address that the client is sent to.
#[derive(Debug)]
pub struct Answer {
    pub status: u16,
    pub text: String,
}

impl View for Answer {
    type V = (u16, Seq<char>);

    open spec fn view(&self) -> (u16, Seq<char>) {
        (self.status, self.text@)
    }
}

/// The service and the group that a request for a redirect names, or the
/// answer to a request that names none: an unknown service is not found,
/// and a group id that is missing or no number is a bad request.
pub open spec fn redirect_target(service: Seq<char>, group_id: Option<Seq<char>>) -> Result<
    (Oauth2Service, i32),
    (u16, Seq<char>),
> {
    match Oauth2Service::of_name(service) {
        Err(_) => Err((NOT_FOUND, "/404"@)),
        Ok(service) => match group_id {
            None => Err((BAD_REQUEST, "/404"@)),
            Some(text) => match i32_of(text) {
                None => Err((BAD_REQUEST, "/404"@)),
                Some(id) => Ok((service, id)),
            },
        },
    }
}

/// Reads the service and the group from a request for a redirect.
pub fn redirect_request(service: &str, group_id: Option<&str>) -> (out: Result<
    (Oauth2Service, i32),
    Answer,
>)
    ensures
        match out {
            Ok(target) => redirect_target(service@, text_ref_view(group_id)) == Ok::<
                (Oauth2Service, i32),
                (u16, Seq<char>),
            >(target),
            Err(answer) => redirect_target(service@, text_ref_view(group_id)) == Err::<
                (Oauth2Service, i32),
                (u16, Seq<char>),
            >(answer@),
        },
{
    let service = match Oauth2Service::from_str(service) {
        Ok(service) => service,
        Err(_) => {
            return Err(Answer { status: NOT_FOUND, text: "/404".to_owned() });
        },
    };
    let text = match group_id {
        Some(text) => text,
        None => {
            return Err(Answer { status: BAD_REQUEST, text: "/404".to_owned() });
        },
    };
    match parse_i32(text) {
        Some(id) => Ok((service, id)),
        None => Err(Answer { status: BAD_REQUEST, text: "/404".to_owned() }),
    }
}

/// What an optional text holds, as characters.
pub open spec fn text_ref_view(o: Option<&str>) -> Option<Seq<char>> {
    match o {
        Some(s) => Some(s@),
        None => None,
    }
}

/// The answer to a request for a redirect: a group that is not known is
/// not found; for a known group the client is sent to the provider's
/// authorization page with the state that was stored for the group.
pub open spec fn redirect_answer(config: Oauth2ConfigView, state: Option<Seq<char>>) -> (
    u16,
    Seq<char>,
) {
    match state {
        None => (NOT_FOUND, "/404"@),
        Some(state) => (
            TEMPORARY_REDIRECT,
            redirect_to(config, form_urlencoded(redirect_params(config, state))),
        ),
    }
}

/// Redirect the user to the OAuth2 service. `pending` is the state that
/// was stored for the group, none where the group is not known.
pub fn redirect(config: &Oauth2Config, pending: Option<&Oauth2State>) -> (out: Answer)
    ensures
        out@ == redirect_answer(
            config@,
            match pending {
                Some(pending) => Some(pending.state@),
                None => None,
            },
        ),
{
    match pending {
        None => Answer { status: NOT_FOUND, text: "/404".to_owned() },
        Some(pending) => Answer {
            status: TEMPORARY_REDIRECT,
            text: build_redirect(config, pending.state.as_str()),
        },
    }
}

/// The service and the state that a callback names, or the answer to a
/// callback that names none: an unknown service is not found, and a
/// missing state is a bad request.
pub open spec fn callback_target(service: Seq<char>, state: Option<Seq<char>>) -> Result<
    (Oauth2Service, Seq<char>),
    (u16, Seq<char>),
> {
    match Oauth2Service::of_name(service) {
        Err(_) => Err((NOT_FOUND, "Service not found"@)),
        Ok(service) => match state {
            None => Err((BAD_REQUEST, "Missing state"@)),
            Some(state) => Ok((service, state)),
        },
    }
}

/// Reads the service and the state from a callback.
pub fn callback_request(service: &str, state: Option<&str>) -> (out: Result<
    (Oauth2Service, String),
    Answer,
>)
    ensures
        match out {
            Ok(target) => callback_target(service@, text_ref_view(state)) == Ok::<
                (Oauth2Service, Seq<char>),
                (u16, Seq<char>),
            >((target.0, target.1@)),
            Err(answer) => callback_target(service@, text_ref_view(state)) == Err::<
                (Oauth2Service, Seq<char>),
                (u16, Seq<char>),
            >(answer@),
        },
{
    let service = match Oauth2Service::from_str(service) {
        Ok(service) => service,
        Err(_) => {
            return Err(Answer { status: NOT_FOUND, text: "Service not found".to_owned() });
        },
    };
    match state {
        Some(state) => Ok((service, state.to_owned())),
        None => Err(Answer { status: BAD_REQUEST, text: "Missing state".to_owned() }),
    }
}

/// The code of a callback whose state was looked up, or the answer to a
/// callback without one: a state that is not known is not found, and a
/// missing code is a bad request.
pub open spec fn callback_code_of(found: bool, code: Option<Seq<char>>) -> Result<
    Seq<char>,
    (u16, Seq<char>),
> {
    if !found {
        Err((NOT_FOUND, "State not found"@))
    } else {
        match code {
            Some(code) => Ok(code),
            None => Err((BAD_REQUEST, "Missing code or scope"@)),
        }
    }
}

/// Reads the code from a callback whose state was looked up.
pub fn callback_code(service: Oauth2Service, found: bool, code: Option<&str>) -> (out: Result<
    Oauth2Callback,
    Answer,
>)
    ensures
        match out {
            Ok(callback) => callback.service == service && callback_code_of(
                found,
                text_ref_view(code),
            ) == Ok::<Seq<char>, (u16, Seq<char>)>(callback.code@),
            Err(answer) => callback_code_of(found, text_ref_view(code)) == Err::<
                Seq<char>,
                (u16, Seq<char>),
            >(answer@),
        },
{
    if !found {
        return Err(Answer { status: NOT_FOUND, text: "State not found".to_owned() });
    }
    match code {
        Some(code) => Ok(Oauth2Callback::new(code.to_owned(), service)),
        None => Err(Answer { status: BAD_REQUEST, text: "Missing code or scope".to_owned() }),
    }
}

/// Handle the OAuth2 service callback: the answer once the code was
/// exchanged, given whether the integration was created.
pub fn callback(created: bool) -> (out: Answer)
    ensures
        out@ == if created {
            (OK, "Integration created"@)
        } else {
            (INTERNAL_SERVER_ERROR, "Failed to create integration"@)
        },
{
    if created {
        Answer { status: OK, text: "Integration created".to_owned() }
    } else {
        Answer { status: INTERNAL_SERVER_ERROR, text: "Failed to create integration".to_owned() }
    }
}

} // verus!
