//! The connector to Google's calendar service.

use vstd::prelude::*;
use vstd::string::*;
use crate::config::Oauth2Config;
use crate::connectors::oauth2::{
    CalendarListEntry, CalendarListResponse, CalendarListing, CalendarStep, CalendarStepView,
    HttpMethod, HttpReply, HttpRequest, HttpRequestView, OK, Oauth2ConnectorError,
    Oauth2ConnectorErrorView, Oauth2ServiceConnector, RevokeStep, RevokeStepView, body_of,
    delivered, pair, result_views,
};
use crate::models::calendar::{CalendarResult, CalendarResultView};
use crate::models::oauth_integration::OauthIntegration;

verus! {

/// The connector to Google.
#[derive(Debug)]
pub struct GoogleConnector {
    pub config: Oauth2Config,
}

/// The request that revokes an access token at Google: a POST to the
/// revocation endpoint with the token in the query string and the client's
/// credentials in the form.
pub open spec fn revoke_request_of(
    config: Oauth2Config,
    integration: OauthIntegration,
) -> HttpRequestView {
    HttpRequestView {
        method: HttpMethod::Post,
        url: config.revoke_url@,
        query: seq![("token"@, integration.access_token@)],
        form: seq![
            ("client_id"@, config.client_id@),
            ("client_secret"@, config.client_secret@),
        ],
        authorization: None,
    }
}

/// The request for one page of the calendar list: a GET with the access
/// token as bearer and, for every page but the first, the page's token.
pub open spec fn page_request_of(
    token: Option<Seq<char>>,
    access_token: Seq<char>,
) -> HttpRequestView {
    HttpRequestView {
        method: HttpMethod::Get,
        url: "https://www.googleapis.com/calendar/v3/users/me/calendarList"@,
        query: match token {
            Some(token) => seq![("pageToken"@, token)],
            None => Seq::empty(),
        },
        form: Seq::empty(),
        authorization: Some("Bearer "@ + access_token),
    }
}

/// The calendar that an entry of the calendar list stands for.
pub open spec fn calendar_of_entry(entry: CalendarListEntry) -> CalendarResultView {
    CalendarResultView {
        external_id: entry.id@,
        name: entry.summary@,
        background_color: entry.background_color@,
        foreground_color: entry.foreground_color@,
    }
}

/// The calendars that the entries of a page stand for, in the page's
/// order.
pub open spec fn calendars_of_entries(entries: Seq<CalendarListEntry>) -> Seq<CalendarResultView> {
    entries.map_values(|e: CalendarListEntry| calendar_of_entry(e))
}

/// Where a listing stands after a page: failed where the exchange failed;
/// else the page's calendars are added behind those gathered before, and
/// the listing goes on with the page that the token names, or is done
/// where the page names none.
pub open spec fn after_page(
    access_token: Seq<char>,
    listing: Seq<CalendarResultView>,
    reply: HttpReply<CalendarListResponse>,
) -> CalendarStepView {
    match delivered(reply) {
        Err(error) => CalendarStepView::Failed(error),
        Ok(page) => {
            let gathered = listing + calendars_of_entries(page.items@);
            match page.next_page_token {
                Some(token) => CalendarStepView::Fetch {
                    request: page_request_of(Some(token@), access_token),
                    listing: gathered,
                },
                None => CalendarStepView::Done(gathered),
            }
        },
    }
}

impl GoogleConnector {
    /// A connector to Google under those settings.
    pub fn new(config: Oauth2Config) -> (out: Self)
        ensures
            out.config == config,
    {
        GoogleConnector { config }
    }

    /// The request for the page of the calendar list that `sync_token`
    /// names: the first page where it names none.
    pub fn get_calendar_page(
        &self,
        sync_token: Option<String>,
        integration: &OauthIntegration,
    ) -> (out: HttpRequest)
        ensures
            out@ == page_request_of(
                match sync_token {
                    Some(token) => Some(token@),
                    None => None,
                },
                integration.access_token@,
            ),
    {
        let mut query: Vec<(String, String)> = Vec::new();
        match sync_token {
            Some(token) => {
                query.push(("pageToken".to_owned(), token));
            },
            None => {},
        }
        let mut bearer = "Bearer ".to_owned();
        bearer.append(integration.access_token.as_str());
        let out = HttpRequest {
            method: HttpMethod::Get,
            url: "https://www.googleapis.com/calendar/v3/users/me/calendarList".to_owned(),
            query,
            form: Vec::new(),
            authorization: Some(bearer),
        };
        assert(out@.form == Seq::<(Seq<char>, Seq<char>)>::empty());
        assert(out@.query == match sync_token {
            Some(token) => seq![("pageToken"@, token@)],
            None => Seq::<(Seq<char>, Seq<char>)>::empty(),
        });
        out
    }

    /// Adds the calendars of a page behind those of a listing.
    pub fn add_page(listing: CalendarListing, items: Vec<CalendarListEntry>) -> (out:
        CalendarListing)
        ensures
            out@ == listing@ + calendars_of_entries(items@),
    {
        let ghost entries = items@;
        let mut gathered = listing.items;
        assert(entries.take(0) == Seq::<CalendarListEntry>::empty());
        assert(result_views(gathered@) == listing@ + calendars_of_entries(entries.take(0)));
        for entry in it: items
            invariant
                entries == it.seq(),
                result_views(gathered@) == listing@ + calendars_of_entries(
                    entries.take(it.index() as int),
                ),
        {
            let ghost before = gathered@;
            let calendar = CalendarResult {
                external_id: entry.id,
                name: entry.summary,
                background_color: entry.background_color,
                foreground_color: entry.foreground_color,
            };
            gathered.push(calendar);
            assert(result_views(gathered@) == result_views(before).push(calendar@));
            assert(entries.take(it.index() + 1) == entries.take(it.index() as int).push(entry));
            assert(calendars_of_entries(entries.take(it.index() + 1)) == calendars_of_entries(
                entries.take(it.index() as int),
            ).push(calendar_of_entry(entry)));
        }
        assert(entries.take(entries.len() as int) == entries);
        CalendarListing { items: gathered }
    }
}

impl Oauth2ServiceConnector for GoogleConnector {
    open spec fn config(&self) -> Oauth2Config {
        self.config
    }

    open spec fn revocation_start(&self, integration: OauthIntegration) -> RevokeStepView {
        RevokeStepView::Send(revoke_request_of(self.config, integration))
    }

    open spec fn revocation(&self, integration: OauthIntegration, reply: HttpReply<()>) -> Result<
        (),
        Oauth2ConnectorErrorView,
    > {
        match reply {
            HttpReply::Unreachable(cause) => Err(Oauth2ConnectorErrorView::NetworkError(cause@)),
            HttpReply::Answered { status, text, .. } => if status != OK {
                Err(Oauth2ConnectorErrorView::InvalidStatusError(status, text@))
            } else {
                Ok(())
            },
        }
    }

    open spec fn calendars_start(&self, integration: OauthIntegration) -> CalendarStepView {
        CalendarStepView::Fetch {
            request: page_request_of(None, integration.access_token@),
            listing: Seq::empty(),
        }
    }

    open spec fn calendars_next(
        &self,
        integration: OauthIntegration,
        listing: Seq<CalendarResultView>,
        reply: HttpReply<CalendarListResponse>,
    ) -> CalendarStepView {
        after_page(integration.access_token@, listing, reply)
    }

    fn get_config(&self) -> (out: &Oauth2Config) {
        &self.config
    }

    fn revoke(&self, integration: &OauthIntegration) -> (out: RevokeStep) {
        let config = self.get_config();
        let mut query: Vec<(String, String)> = Vec::new();
        query.push(pair("token", integration.access_token.as_str()));
        let mut form: Vec<(String, String)> = Vec::new();
        form.push(pair("client_id", config.client_id.as_str()));
        form.push(pair("client_secret", config.client_secret.as_str()));
        let request = HttpRequest {
            method: HttpMethod::Post,
            url: config.revoke_url.clone(),
            query,
            form,
            authorization: None,
        };
        assert(request@.query == revoke_request_of(self.config, *integration).query);
        assert(request@.form == revoke_request_of(self.config, *integration).form);
        RevokeStep::Send(request)
    }

    fn revoke_access_token(&self, _integration: &OauthIntegration, reply: HttpReply<()>) -> (out:
        Result<(), Oauth2ConnectorError>) {
        match reply {
            HttpReply::Unreachable(cause) => Err(Oauth2ConnectorError::NetworkError(cause)),
            HttpReply::Answered { status, text, .. } => {
                if status != OK {
                    Err(Oauth2ConnectorError::InvalidStatusError(status, text))
                } else {
                    Ok(())
                }
            },
        }
    }

    fn list_calendars(&self, integration: &OauthIntegration) -> (out: CalendarStep) {
        let listing = CalendarListing { items: Vec::new() };
        assert(listing@ == Seq::<CalendarResultView>::empty());
        CalendarStep::Fetch { request: self.get_calendar_page(None, integration), listing }
    }

    fn get_calendars(
        &self,
        integration: &OauthIntegration,
        listing: CalendarListing,
        reply: HttpReply<CalendarListResponse>,
    ) -> (out: CalendarStep) {
        let page = match body_of(reply) {
            Ok(page) => page,
            Err(error) => {
                return CalendarStep::Failed(error);
            },
        };
        let CalendarListResponse { items, next_page_token } = page;
        let gathered = Self::add_page(listing, items);
        match next_page_token {
            Some(token) => CalendarStep::Fetch {
                request: self.get_calendar_page(Some(token), integration),
                listing: gathered,
            },
            None => CalendarStep::Done(gathered.items),
        }
    }
}

/// Where a listing stands once the replies have been taken in, in their
/// order, for as long as the listing asks for a page.
pub open spec fn advanced(
    access_token: Seq<char>,
    step: CalendarStepView,
    replies: Seq<HttpReply<CalendarListResponse>>,
) -> CalendarStepView
    decreases replies.len(),
{
    match step {
        CalendarStepView::Fetch { request, listing } => if replies.len() == 0 {
            step
        } else {
            advanced(
                access_token,
                after_page(access_token, listing, replies[0]),
                replies.drop_first(),
            )
        },
        _ => step,
    }
}

/// The calendars of a run of pages, page by page.
pub open spec fn calendars_of_pages(replies: Seq<HttpReply<CalendarListResponse>>) -> Seq<
    CalendarResultView,
>
    decreases replies.len(),
{
    if replies.len() == 0 {
        Seq::empty()
    } else {
        (match delivered(replies[0]) {
            Ok(page) => calendars_of_entries(page.items@),
            Err(_) => Seq::empty(),
        }) + calendars_of_pages(replies.drop_first())
    }
}

/// Whether the replies are the pages of one calendar list: each was
/// delivered, each but the last names a next page, and the last names
/// none.
pub open spec fn is_calendar_list(replies: Seq<HttpReply<CalendarListResponse>>) -> bool {
    &&& replies.len() > 0
    &&& forall|i: int|
        0 <= i < replies.len() ==> is_page(#[trigger] replies[i], i == replies.len() - 1)
}

/// Whether a reply delivered a page, and whether that page is the last.
pub open spec fn is_page(reply: HttpReply<CalendarListResponse>, last: bool) -> bool {
    match delivered(reply) {
        Ok(page) => page.next_page_token is None <==> last,
        Err(_) => false,
    }
}

/// A listing that has gathered `listing` and is then given the pages of a
/// calendar list ends with what it had, followed by the calendars of every
/// page in the order of the pages.
pub proof fn lemma_listing_gathers_every_page(
    access_token: Seq<char>,
    request: HttpRequestView,
    listing: Seq<CalendarResultView>,
    replies: Seq<HttpReply<CalendarListResponse>>,
)
    requires
        is_calendar_list(replies),
    ensures
        advanced(access_token, CalendarStepView::Fetch { request, listing }, replies)
            == CalendarStepView::Done(listing + calendars_of_pages(replies)),
    decreases replies.len(),
{
    let rest = replies.drop_first();
    let page = delivered(replies[0])->Ok_0;
    let gathered = listing + calendars_of_entries(page.items@);
    let after = after_page(access_token, listing, replies[0]);
    assert(is_page(replies[0], replies.len() == 1));
    assert(advanced(access_token, CalendarStepView::Fetch { request, listing }, replies)
        == advanced(access_token, after, rest));
    if replies.len() == 1 {
        assert(after == CalendarStepView::Done(gathered));
        assert(advanced(access_token, after, rest) == after);
        assert(calendars_of_pages(rest) == Seq::<CalendarResultView>::empty());
        assert(gathered + calendars_of_pages(rest) == gathered);
        assert(gathered == listing + calendars_of_pages(replies));
    } else {
        assert forall|i: int| 0 <= i < rest.len() implies is_page(
            #[trigger] rest[i],
            i == rest.len() - 1,
        ) by {
            assert(rest[i] == replies[i + 1]);
        }
        let next = page_request_of(Some(page.next_page_token->0@), access_token);
        lemma_listing_gathers_every_page(access_token, next, gathered, rest);
        assert(gathered + calendars_of_pages(rest) == listing + calendars_of_pages(replies));
    }
}

/// A listing at Google that is given the pages of a calendar list returns
/// the calendars of every page, in the order of the pages.
pub proof fn lemma_google_lists_every_page(
    connector: GoogleConnector,
    integration: OauthIntegration,
    replies: Seq<HttpReply<CalendarListResponse>>,
)
    requires
        is_calendar_list(replies),
    ensures
        advanced(integration.access_token@, connector.calendars_start(integration), replies)
            == CalendarStepView::Done(calendars_of_pages(replies)),
{
    lemma_listing_gathers_every_page(
        integration.access_token@,
        page_request_of(None, integration.access_token@),
        Seq::empty(),
        replies,
    );
    assert(Seq::<CalendarResultView>::empty() + calendars_of_pages(replies) == calendars_of_pages(
        replies,
    ));
}

} // verus!
