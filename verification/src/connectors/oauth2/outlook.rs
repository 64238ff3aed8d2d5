//! The connector to Outlook's calendar service.

use vstd::prelude::*;
use crate::config::Oauth2Config;
use crate::connectors::oauth2::{
    CalendarListResponse, CalendarListing, CalendarStep, CalendarStepView, HttpReply,
    Oauth2ConnectorError, Oauth2ConnectorErrorView, Oauth2ServiceConnector, RevokeStep,
    RevokeStepView,
};
use crate::models::calendar::{CalendarResult, CalendarResultView};
use crate::models::oauth_integration::OauthIntegration;

verus! {

/// The connector to Outlook.
#[derive(Debug)]
pub struct OutlookConnector {
    pub config: Oauth2Config,
}

/// The error of every revocation at Outlook.
pub open spec fn revocation_unsupported() -> Oauth2ConnectorErrorView {
    Oauth2ConnectorErrorView::TokenRevocationError("Outlook does not support token revocation"@)
}

impl OutlookConnector {
    /// A connector to Outlook under those settings.
    pub fn new(config: Oauth2Config) -> (out: Self)
        ensures
            out.config == config,
    {
        OutlookConnector { config }
    }

    /// The error of every revocation at Outlook.
    fn unsupported() -> (out: Oauth2ConnectorError)
        ensures
            out@ == revocation_unsupported(),
    {
        Oauth2ConnectorError::TokenRevocationError(
            "Outlook does not support token revocation".to_owned(),
        )
    }
}

impl Oauth2ServiceConnector for OutlookConnector {
    open spec fn config(&self) -> Oauth2Config {
        self.config
    }

    open spec fn revocation_start(&self, integration: OauthIntegration) -> RevokeStepView {
        RevokeStepView::Done(Err(revocation_unsupported()))
    }

    open spec fn revocation(&self, integration: OauthIntegration, reply: HttpReply<()>) -> Result<
        (),
        Oauth2ConnectorErrorView,
    > {
        Err(revocation_unsupported())
    }

    open spec fn calendars_start(&self, integration: OauthIntegration) -> CalendarStepView {
        CalendarStepView::Done(Seq::empty())
    }

    open spec fn calendars_next(
        &self,
        integration: OauthIntegration,
        listing: Seq<CalendarResultView>,
        reply: HttpReply<CalendarListResponse>,
    ) -> CalendarStepView {
        CalendarStepView::Done(Seq::empty())
    }

    fn get_config(&self) -> (out: &Oauth2Config) {
        &self.config
    }

    fn revoke(&self, _integration: &OauthIntegration) -> (out: RevokeStep) {
        RevokeStep::Done(Err(Self::unsupported()))
    }

    fn revoke_access_token(
        &self,
        _integration: &OauthIntegration,
        _reply: HttpReply<()>,
    ) -> (out: Result<(), Oauth2ConnectorError>) {
        Err(Self::unsupported())
    }

    fn list_calendars(&self, _integration: &OauthIntegration) -> (out: CalendarStep) {
        let list: Vec<CalendarResult> = Vec::new();
        assert(list@.map_values(|c: CalendarResult| c@) == Seq::<CalendarResultView>::empty());
        CalendarStep::Done(list)
    }

    fn get_calendars(
        &self,
        _integration: &OauthIntegration,
        _listing: CalendarListing,
        _reply: HttpReply<CalendarListResponse>,
    ) -> (out: CalendarStep) {
        let list: Vec<CalendarResult> = Vec::new();
        assert(list@.map_values(|c: CalendarResult| c@) == Seq::<CalendarResultView>::empty());
        CalendarStep::Done(list)
    }
}

} // verus!
