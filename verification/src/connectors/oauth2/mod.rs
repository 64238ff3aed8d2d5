//! The OAuth2 connectors: what every provider's connector can be asked, and
//! the token refresh that all of them share.

pub mod google;
pub mod outlook;

use vstd::prelude::*;
use vstd::string::*;
use crate::config::{Oauth2Config, Oauth2ConfigView};
use crate::models::calendar::{CalendarResult, CalendarResultView};
use crate::models::oauth_integration::{OauthIntegration, OauthIntegrationView};
use crate::text::str_eq;
use crate::time::Timestamp;

verus! {

/// The OAuth2 services.
#[derive(Clone, Copy, Debug, PartialEq, Eq, Structural)]
pub enum Oauth2Service {
    Google,
    Outlook,
}

/// A number that stands for no service.
#[derive(Clone, Copy, Debug, PartialEq, Eq, Structural)]
pub struct InvalidRow {
    pub value: i16,
}

impl Oauth2Service {
    /// The number that stands for the service in storage.
    pub open spec fn row(self) -> i16 {
        match self {
            Oauth2Service::Google => 1,
            Oauth2Service::Outlook => 2,
        }
    }

    /// The name of the service in addresses.
    pub open spec fn name(self) -> Seq<char> {
        match self {
            Oauth2Service::Google => "google"@,
            Oauth2Service::Outlook => "outlook"@,
        }
    }

    /// The service that a stored number stands for.
    pub open spec fn of_row(row: i16) -> Result<Oauth2Service, InvalidRow> {
        if row == 1 {
            Ok(Oauth2Service::Google)
        } else if row == 2 {
            Ok(Oauth2Service::Outlook)
        } else {
            Err(InvalidRow { value: row })
        }
    }

    /// The service of a name.
    pub open spec fn of_name(name: Seq<char>) -> Result<Oauth2Service, ()> {
        if name == "google"@ {
            Ok(Oauth2Service::Google)
        } else if name == "outlook"@ {
            Ok(Oauth2Service::Outlook)
        } else {
            Err(())
        }
    }

    /// The service that a stored number stands for.
    pub fn build(row: i16) -> (out: Result<Oauth2Service, InvalidRow>)
        ensures
            out == Self::of_row(row),
    {
        if row == 1 {
            Ok(Oauth2Service::Google)
        } else if row == 2 {
            Ok(Oauth2Service::Outlook)
        } else {
            Err(InvalidRow { value: row })
        }
    }

    /// The number that stands for the service in storage.
    pub fn to_sql(&self) -> (out: i16)
        ensures
            out == self.row(),
    {
        match self {
            Oauth2Service::Google => 1,
            Oauth2Service::Outlook => 2,
        }
    }

    /// The name of the service in addresses.
    pub fn to_string(&self) -> (out: String)
        ensures
            out@ == self.name(),
    {
        match self {
            Oauth2Service::Google => "google".to_owned(),
            Oauth2Service::Outlook => "outlook".to_owned(),
        }
    }

    /// The service of that name.
    pub fn from_str(service: &str) -> (out: Result<Oauth2Service, ()>)
        ensures
            out == Self::of_name(service@),
    {
        if str_eq(service, "google") {
            Ok(Oauth2Service::Google)
        } else if str_eq(service, "outlook") {
            Ok(Oauth2Service::Outlook)
        } else {
            Err(())
        }
    }
}

/// The number of a service is read back as that service, and so is its
/// name.
pub proof fn lemma_service_round_trip(service: Oauth2Service)
    ensures
        Oauth2Service::of_row(service.row()) == Ok::<Oauth2Service, InvalidRow>(service),
        Oauth2Service::of_name(service.name()) == Ok::<Oauth2Service, ()>(service),
{
    reveal_strlit("google");
    reveal_strlit("outlook");
    assert("google"@.len() == 6);
    assert("outlook"@.len() == 7);
}

/// The status of a successful answer.
pub const OK: u16 = 200;

/// The methods of the requests that the connectors make.
#[derive(Clone, Copy, Debug, PartialEq, Eq, Structural)]
pub enum HttpMethod {
    Get,
    Post,
}

/// A request to a provider: the method and the address, the parameters of
/// the query string and of the form body in order, and the value of the
/// `Authorization` header where one is sent.
#[derive(Debug)]
pub struct HttpRequest {
    pub method: HttpMethod,
    pub url: String,
    pub query: Vec<(String, String)>,
    pub form: Vec<(String, String)>,
    pub authorization: Option<String>,
}

/// Names and values, as characters.
pub type Pairs = Seq<(Seq<char>, Seq<char>)>;

/// The names and values of a run of parameters.
pub open spec fn pairs_view(pairs: Seq<(String, String)>) -> Pairs {
    pairs.map_values(|p: (String, String)| (p.0@, p.1@))
}

/// What a `HttpRequest` holds, with its texts as characters.
pub struct HttpRequestView {
    pub method: HttpMethod,
    pub url: Seq<char>,
    pub query: Pairs,
    pub form: Pairs,
    pub authorization: Option<Seq<char>>,
}

impl View for HttpRequest {
    type V = HttpRequestView;

    open spec fn view(&self) -> HttpRequestView {
        HttpRequestView {
            method: self.method,
            url: self.url@,
            query: pairs_view(self.query@),
            form: pairs_view(self.form@),
            authorization: match self.authorization {
                Some(value) => Some(value@),
                None => None,
            },
        }
    }
}

/// How one exchange with a provider ended.
#[derive(Debug)]
pub enum HttpReply<T> {
    /// No answer came back; the cause of the failure.
    Unreachable(String),
    /// The provider answered: the status, the body as text, and the body
    /// as decoded or the decoder's complaint.
    Answered { status: u16, text: String, decoded: Result<T, String> },
}

/// The answer of a token endpoint to a refresh.
#[derive(Debug)]
pub struct Oauth2TokenResponse {
    pub access_token: String,
    pub expires_in: i64,
}

/// Why a connector could not do what it was asked.
#[derive(Debug)]
pub enum Oauth2ConnectorError {
    /// The token could not be revoked.
    TokenRevocationError(String),
    /// The answer's body is not of the expected shape.
    ParseResultError(String),
    /// The request did not reach the provider, or no answer came back.
    NetworkError(String),
    /// The provider answered with a status other than 200; the body.
    InvalidStatusError(u16, String),
}

/// What a `Oauth2ConnectorError` holds, with its texts as characters.
pub enum Oauth2ConnectorErrorView {
    TokenRevocationError(Seq<char>),
    ParseResultError(Seq<char>),
    NetworkError(Seq<char>),
    InvalidStatusError(u16, Seq<char>),
}

impl View for Oauth2ConnectorError {
    type V = Oauth2ConnectorErrorView;

    open spec fn view(&self) -> Oauth2ConnectorErrorView {
        match self {
            Oauth2ConnectorError::TokenRevocationError(reason) =>
                Oauth2ConnectorErrorView::TokenRevocationError(reason@),
            Oauth2ConnectorError::ParseResultError(cause) =>
                Oauth2ConnectorErrorView::ParseResultError(cause@),
            Oauth2ConnectorError::NetworkError(cause) => Oauth2ConnectorErrorView::NetworkError(
                cause@,
            ),
            Oauth2ConnectorError::InvalidStatusError(status, body) =>
                Oauth2ConnectorErrorView::InvalidStatusError(*status, body@),
        }
    }
}

/// What an exchange delivered: the decoded body of an answer with status
/// 200, or the error that the exchange amounts to: no answer, another
/// status, or a body of another shape, in this order.
pub open spec fn delivered<T>(reply: HttpReply<T>) -> Result<T, Oauth2ConnectorErrorView> {
    match reply {
        HttpReply::Unreachable(cause) => Err(Oauth2ConnectorErrorView::NetworkError(cause@)),
        HttpReply::Answered { status, text, decoded } => if status != OK {
            Err(Oauth2ConnectorErrorView::InvalidStatusError(status, text@))
        } else {
            match decoded {
                Ok(body) => Ok(body),
                Err(cause) => Err(Oauth2ConnectorErrorView::ParseResultError(cause@)),
            }
        },
    }
}

/// Takes the decoded body out of a reply.
pub fn body_of<T>(reply: HttpReply<T>) -> (out: Result<T, Oauth2ConnectorError>)
    ensures
        match out {
            Ok(body) => delivered(reply) == Ok::<T, Oauth2ConnectorErrorView>(body),
            Err(error) => delivered(reply) == Err::<T, Oauth2ConnectorErrorView>(error@),
        },
{
    match reply {
        HttpReply::Unreachable(cause) => Err(Oauth2ConnectorError::NetworkError(cause)),
        HttpReply::Answered { status, text, decoded } => {
            if status != OK {
                Err(Oauth2ConnectorError::InvalidStatusError(status, text))
            } else {
                match decoded {
                    Ok(body) => Ok(body),
                    Err(cause) => Err(Oauth2ConnectorError::ParseResultError(cause)),
                }
            }
        },
    }
}

/// A parameter of that name and value.
pub fn pair(name: &str, value: &str) -> (out: (String, String))
    ensures
        out.0@ == name@,
        out.1@ == value@,
{
    (name.to_owned(), value.to_owned())
}

/// The request that refreshes the access token of an integration: a POST
/// to the token endpoint with the client's credentials, the refresh token
/// and the grant type `refresh_token`.
pub open spec fn refresh_request_of(
    config: Oauth2ConfigView,
    integration: OauthIntegrationView,
) -> HttpRequestView {
    HttpRequestView {
        method: HttpMethod::Post,
        url: config.token_url,
        query: Seq::empty(),
        form: seq![
            ("client_id"@, config.client_id),
            ("client_secret"@, config.client_secret),
            ("refresh_token"@, integration.refresh_token),
            ("grant_type"@, "refresh_token"@),
        ],
        authorization: None,
    }
}

/// The outcome of a refresh at `now`: the integration with the new access
/// token and the expiry `expires_in` seconds after `now`, or the error
/// that the exchange amounts to.
pub open spec fn refreshed(
    integration: OauthIntegrationView,
    reply: HttpReply<Oauth2TokenResponse>,
    now: Timestamp,
) -> Result<OauthIntegrationView, Oauth2ConnectorErrorView> {
    match delivered(reply) {
        Err(error) => Err(error),
        Ok(token) => Ok(
            OauthIntegrationView {
                access_token: token.access_token@,
                expires_at: now.later(token.expires_in as int),
                ..integration
            },
        ),
    }
}

/// Whether the expiry that a reply asks for can be represented.
pub open spec fn expiry_fits(reply: HttpReply<Oauth2TokenResponse>, now: Timestamp) -> bool {
    delivered(reply) matches Ok(token) ==> i64::MIN <= now.seconds + token.expires_in
        <= i64::MAX
}

/// A refresh changes the access token and the expiry and nothing else, and
/// a token that is granted for no less than zero seconds is not stale at
/// the time of the refresh.
pub proof fn lemma_refreshed_is_fresh(
    integration: OauthIntegrationView,
    reply: HttpReply<Oauth2TokenResponse>,
    now: Timestamp,
)
    requires
        expiry_fits(reply, now),
        refreshed(integration, reply, now) is Ok,
    ensures
        refreshed(integration, reply, now)->Ok_0.id == integration.id,
        refreshed(integration, reply, now)->Ok_0.service == integration.service,
        refreshed(integration, reply, now)->Ok_0.refresh_token == integration.refresh_token,
        delivered(reply)->Ok_0.expires_in >= 0 ==> !refreshed(
            integration,
            reply,
            now,
        )->Ok_0.expires_at.before(now),
{
}

/// What a refresh returned, as views.
pub open spec fn refresh_result(r: Result<OauthIntegration, Oauth2ConnectorError>) -> Result<
    OauthIntegrationView,
    Oauth2ConnectorErrorView,
> {
    match r {
        Ok(integration) => Ok(integration@),
        Err(error) => Err(error@),
    }
}

/// What a revocation returned, as views.
pub open spec fn revoke_result(r: Result<(), Oauth2ConnectorError>) -> Result<
    (),
    Oauth2ConnectorErrorView,
> {
    match r {
        Ok(done) => Ok(done),
        Err(error) => Err(error@),
    }
}

/// What a revocation asks for first: a request to send, or its outcome at
/// once.
#[derive(Debug)]
pub enum RevokeStep {
    Send(HttpRequest),
    Done(Result<(), Oauth2ConnectorError>),
}

/// What a `RevokeStep` holds, with its texts as characters.
pub enum RevokeStepView {
    Send(HttpRequestView),
    Done(Result<(), Oauth2ConnectorErrorView>),
}

impl View for RevokeStep {
    type V = RevokeStepView;

    open spec fn view(&self) -> RevokeStepView {
        match self {
            RevokeStep::Send(request) => RevokeStepView::Send(request@),
            RevokeStep::Done(result) => RevokeStepView::Done(revoke_result(*result)),
        }
    }
}

/// The views of a run of calendars.
pub open spec fn result_views(list: Seq<CalendarResult>) -> Seq<CalendarResultView> {
    list.map_values(|c: CalendarResult| c@)
}

/// The calendars gathered so far in a listing.
#[derive(Debug)]
pub struct CalendarListing {
    pub items: Vec<CalendarResult>,
}

impl View for CalendarListing {
    type V = Seq<CalendarResultView>;

    open spec fn view(&self) -> Seq<CalendarResultView> {
        result_views(self.items@)
    }
}

/// Where a listing of calendars stands: a page to fetch, with what was
/// gathered so far; the calendars; or the error that ended it.
#[derive(Debug)]
pub enum CalendarStep {
    Fetch { request: HttpRequest, listing: CalendarListing },
    Done(Vec<CalendarResult>),
    Failed(Oauth2ConnectorError),
}

/// What a `CalendarStep` holds, with its texts as characters.
pub enum CalendarStepView {
    Fetch { request: HttpRequestView, listing: Seq<CalendarResultView> },
    Done(Seq<CalendarResultView>),
    Failed(Oauth2ConnectorErrorView),
}

impl View for CalendarStep {
    type V = CalendarStepView;

    open spec fn view(&self) -> CalendarStepView {
        match self {
            CalendarStep::Fetch { request, listing } => CalendarStepView::Fetch {
                request: request@,
                listing: listing@,
            },
            CalendarStep::Done(list) => CalendarStepView::Done(result_views(list@)),
            CalendarStep::Failed(error) => CalendarStepView::Failed(error@),
        }
    }
}

/// One calendar of a page of a provider's calendar list.
#[derive(Debug)]
pub struct CalendarListEntry {
    pub id: String,
    pub summary: String,
    pub background_color: String,
    pub foreground_color: String,
}

/// One page of a provider's calendar list: its calendars and, unless it is
/// the last page, the token of the next.
#[derive(Debug)]
pub struct CalendarListResponse {
    pub items: Vec<CalendarListEntry>,
    pub next_page_token: Option<String>,
}

/// What every provider's connector can be asked. Sending a request and
/// receiving the reply is the caller's part: an operation that needs an
/// exchange hands out the request and is told the reply.
pub trait Oauth2ServiceConnector {
    /// The provider's settings.
    spec fn config(&self) -> Oauth2Config;

    /// What a revocation asks for first.
    spec fn revocation_start(&self, integration: OauthIntegration) -> RevokeStepView;

    /// The outcome of a revocation, given how its exchange ended.
    spec fn revocation(&self, integration: OauthIntegration, reply: HttpReply<()>) -> Result<
        (),
        Oauth2ConnectorErrorView,
    >;

    /// What a listing of calendars asks for first.
    spec fn calendars_start(&self, integration: OauthIntegration) -> CalendarStepView;

    /// Where a listing stands after the reply to its last request.
    spec fn calendars_next(
        &self,
        integration: OauthIntegration,
        listing: Seq<CalendarResultView>,
        reply: HttpReply<CalendarListResponse>,
    ) -> CalendarStepView;

    /// The configuration of the service.
    fn get_config(&self) -> (out: &Oauth2Config)
        ensures
            *out == self.config(),
    ;

    /// The request that asks the token endpoint for a new access token.
    fn refresh_request(&self, integration: &OauthIntegration) -> (out: HttpRequest)
        ensures
            out@ == refresh_request_of(self.config()@, integration@),
    {
        let config = self.get_config();
        let mut form: Vec<(String, String)> = Vec::new();
        form.push(pair("client_id", config.client_id.as_str()));
        form.push(pair("client_secret", config.client_secret.as_str()));
        form.push(pair("refresh_token", integration.refresh_token.as_str()));
        form.push(pair("grant_type", "refresh_token"));
        let out = HttpRequest {
            method: HttpMethod::Post,
            url: config.token_url.clone(),
            query: Vec::new(),
            form,
            authorization: None,
        };
        assert(out@.query == Seq::<(Seq<char>, Seq<char>)>::empty());
        assert(out@.form == refresh_request_of(self.config()@, integration@).form);
        out
    }

    /// Takes the new access token and its expiry from the reply of the
    /// token endpoint, at the time `now`. On success the integration is
    /// updated in place and a copy of it is returned, for the caller to
    /// store; on failure it is left as it was.
    fn new_access_token(
        &self,
        integration: &mut OauthIntegration,
        reply: HttpReply<Oauth2TokenResponse>,
        now: Timestamp,
    ) -> (out: Result<OauthIntegration, Oauth2ConnectorError>)
        requires
            expiry_fits(reply, now),
        ensures
            refresh_result(out) == refreshed(old(integration)@, reply, now),
            final(integration)@ == match refreshed(old(integration)@, reply, now) {
                Ok(updated) => updated,
                Err(_) => old(integration)@,
            },
    {
        match body_of(reply) {
            Ok(data) => {
                integration.access_token = data.access_token;
                integration.expires_at = now.plus_seconds(data.expires_in);
                Ok(integration.clone())
            },
            Err(error) => Err(error),
        }
    }

    /// Begins the revocation of the integration's access token.
    fn revoke(&self, integration: &OauthIntegration) -> (out: RevokeStep)
        ensures
            out@ == self.revocation_start(*integration),
    ;

    /// Revoke the access token for the given integration: the outcome,
    /// given how the exchange ended.
    fn revoke_access_token(&self, integration: &OauthIntegration, reply: HttpReply<()>) -> (out:
        Result<(), Oauth2ConnectorError>)
        ensures
            revoke_result(out) == self.revocation(*integration, reply),
    ;

    /// Begins the listing of the integration's calendars.
    fn list_calendars(&self, integration: &OauthIntegration) -> (out: CalendarStep)
        ensures
            out@ == self.calendars_start(*integration),
    ;

    /// Continues the listing of the integration's calendars with the reply
    /// to the request that the last step handed out.
    fn get_calendars(
        &self,
        integration: &OauthIntegration,
        listing: CalendarListing,
        reply: HttpReply<CalendarListResponse>,
    ) -> (out: CalendarStep)
        ensures
            out@ == self.calendars_next(*integration, listing@, reply),
    ;
}

} // verus!
