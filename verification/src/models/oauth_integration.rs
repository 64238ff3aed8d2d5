//! OAuth2 integrations: the tokens that a provider issued.

use vstd::prelude::*;
use crate::connectors::oauth2::Oauth2Service;
use crate::models::integration::Integration;
use crate::time::Timestamp;

verus! {

/// The tokens of one integration. `expires_at` alone says whether the
/// access token is stale.
#[derive(Debug)]
pub struct OauthIntegration {
    pub id: i32,
    pub service: Oauth2Service,
    pub access_token: String,
    pub refresh_token: String,
    pub expires_at: Timestamp,
}

/// What a `OauthIntegration` holds, with its texts as characters.
pub struct OauthIntegrationView {
    pub id: i32,
    pub service: Oauth2Service,
    pub access_token: Seq<char>,
    pub refresh_token: Seq<char>,
    pub expires_at: Timestamp,
}

impl View for OauthIntegration {
    type V = OauthIntegrationView;

    open spec fn view(&self) -> OauthIntegrationView {
        OauthIntegrationView {
            id: self.id,
            service: self.service,
            access_token: self.access_token@,
            refresh_token: self.refresh_token@,
            expires_at: self.expires_at,
        }
    }
}

impl Clone for OauthIntegration {
    fn clone(&self) -> (out: Self)
        ensures
            out == *self,
    {
        OauthIntegration {
            id: self.id,
            service: self.service,
            access_token: self.access_token.clone(),
            refresh_token: self.refresh_token.clone(),
            expires_at: self.expires_at,
        }
    }
}

impl OauthIntegration {
    /// Whether the access token is stale at `now`.
    pub fn is_stale(&self, now: Timestamp) -> (out: bool)
        ensures
            out == self.expires_at.before(now),
    {
        self.expires_at.is_before(now)
    }
}

/// The tokens of an integration that are about to be stored.
#[derive(Debug)]
pub struct NewOauthIntegration {
    pub integration_id: i32,
    pub access_token: String,
    pub service: Oauth2Service,
    pub refresh_token: String,
    pub expires_at: Timestamp,
}

/// What a `NewOauthIntegration` holds, with its texts as characters.
pub struct NewOauthIntegrationView {
    pub integration_id: i32,
    pub access_token: Seq<char>,
    pub service: Oauth2Service,
    pub refresh_token: Seq<char>,
    pub expires_at: Timestamp,
}

impl View for NewOauthIntegration {
    type V = NewOauthIntegrationView;

    open spec fn view(&self) -> NewOauthIntegrationView {
        NewOauthIntegrationView {
            integration_id: self.integration_id,
            access_token: self.access_token@,
            service: self.service,
            refresh_token: self.refresh_token@,
            expires_at: self.expires_at,
        }
    }
}

impl OauthIntegration {
    /// The tokens that a provider issued for an integration.
    pub fn new(
        integration: &Integration,
        service: Oauth2Service,
        access_token: String,
        refresh_token: String,
        expires_at: Timestamp,
    ) -> (out: NewOauthIntegration)
        ensures
            out@ == (NewOauthIntegrationView {
                integration_id: integration.id,
                access_token: access_token@,
                service,
                refresh_token: refresh_token@,
                expires_at,
            }),
    {
        NewOauthIntegration {
            integration_id: integration.id,
            access_token,
            service,
            refresh_token,
            expires_at,
        }
    }
}

} // verus!
