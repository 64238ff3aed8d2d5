//! The settings of the OAuth2 providers.

use vstd::prelude::*;

verus! {

/// What a deployment sets for one provider.
#[derive(Debug, Clone)]
pub struct ProviderCredentials {
    pub client_id: String,
    pub client_secret: String,
    pub redirect_uri: String,
    pub scope: String,
}

/// The endpoints and credentials of one OAuth2 provider.
#[derive(Debug, Clone)]
pub struct Oauth2Config {
    pub authorization_url: String,
    pub token_url: String,
    pub revoke_url: String,
    pub client_id: String,
    pub client_secret: String,
    pub redirect_uri: String,
    pub scope: String,
}

/// What a `Oauth2Config` holds, with its texts as characters.
pub struct Oauth2ConfigView {
    pub authorization_url: Seq<char>,
    pub token_url: Seq<char>,
    pub revoke_url: Seq<char>,
    pub client_id: Seq<char>,
    pub client_secret: Seq<char>,
    pub redirect_uri: Seq<char>,
    pub scope: Seq<char>,
}

impl View for Oauth2Config {
    type V = Oauth2ConfigView;

    open spec fn view(&self) -> Oauth2ConfigView {
        Oauth2ConfigView {
            authorization_url: self.authorization_url@,
            token_url: self.token_url@,
            revoke_url: self.revoke_url@,
            client_id: self.client_id@,
            client_secret: self.client_secret@,
            redirect_uri: self.redirect_uri@,
            scope: self.scope@,
        }
    }
}

/// The settings of Outlook: Microsoft's consumer endpoints with the
/// deployment's credentials.
pub open spec fn outlook_config(credentials: ProviderCredentials) -> Oauth2ConfigView {
    Oauth2ConfigView {
        authorization_url: "https://login.microsoftonline.com/consumers/oauth2/v2.0/authorize"@,
        token_url: "https://login.microsoftonline.com/consumers/oauth2/v2.0/token"@,
        revoke_url: "https://login.microsoftonline.com/consumers/oauth2/v2.0/revoke"@,
        client_id: credentials.client_id@,
        client_secret: credentials.client_secret@,
        redirect_uri: credentials.redirect_uri@,
        scope: credentials.scope@,
    }
}

/// The settings of Google: Google's endpoints with the deployment's
/// credentials.
pub open spec fn google_config(credentials: ProviderCredentials) -> Oauth2ConfigView {
    Oauth2ConfigView {
        authorization_url: "https://accounts.google.com/o/oauth2/auth"@,
        token_url: "https://oauth2.googleapis.com/token"@,
        revoke_url: "https://accounts.google.com/o/oauth2/revoke"@,
        client_id: credentials.client_id@,
        client_secret: credentials.client_secret@,
        redirect_uri: credentials.redirect_uri@,
        scope: credentials.scope@,
    }
}

impl Oauth2Config {
    /// The settings of Outlook for a deployment's credentials.
    pub fn outlook(credentials: ProviderCredentials) -> (out: Self)
        ensures
            out@ == outlook_config(credentials),
    {
        Self::build(
            "https://login.microsoftonline.com/consumers/oauth2/v2.0/authorize".to_owned(),
            "https://login.microsoftonline.com/consumers/oauth2/v2.0/token".to_owned(),
            "https://login.microsoftonline.com/consumers/oauth2/v2.0/revoke".to_owned(),
            credentials.client_id,
            credentials.client_secret,
            credentials.redirect_uri,
            credentials.scope,
        )
    }

    /// The settings of Google for a deployment's credentials.
    pub fn google(credentials: ProviderCredentials) -> (out: Self)
        ensures
            out@ == google_config(credentials),
    {
        Self::build(
            "https://accounts.google.com/o/oauth2/auth".to_owned(),
            "https://oauth2.googleapis.com/token".to_owned(),
            "https://accounts.google.com/o/oauth2/revoke".to_owned(),
            credentials.client_id,
            credentials.client_secret,
            credentials.redirect_uri,
            credentials.scope,
        )
    }

    /// The settings of a provider, field by field.
    pub fn build(
        authorization_url: String,
        token_url: String,
        revoke_url: String,
        client_id: String,
        client_secret: String,
        redirect_uri: String,
        scope: String,
    ) -> (out: Self)
        ensures
            out.authorization_url == authorization_url,
            out.token_url == token_url,
            out.revoke_url == revoke_url,
            out.client_id == client_id,
            out.client_secret == client_secret,
            out.redirect_uri == redirect_uri,
            out.scope == scope,
    {
        Oauth2Config {
            authorization_url,
            token_url,
            revoke_url,
            client_id,
            client_secret,
            redirect_uri,
            scope,
        }
    }
}

/// The settings of both providers.
#[derive(Debug, Clone)]
pub struct Oauth2ConfigGroup {
    pub google: Oauth2Config,
    pub outlook: Oauth2Config,
}

impl Oauth2ConfigGroup {
    /// The settings of both providers for a deployment's credentials.
    pub fn new(google: ProviderCredentials, outlook: ProviderCredentials) -> (out: Self)
        ensures
            out.google@ == google_config(google),
            out.outlook@ == outlook_config(outlook),
    {
        Oauth2ConfigGroup {
            google: Oauth2Config::google(google),
            outlook: Oauth2Config::outlook(outlook),
        }
    }
}

/// The configuration that the connectors read.
#[derive(Debug, Clone)]
pub struct Config {
    pub oauth2: Oauth2ConfigGroup,
}

impl Config {
    /// The configuration for a deployment's credentials.
    pub fn new(google: ProviderCredentials, outlook: ProviderCredentials) -> (out: Self)
        ensures
            out.oauth2.google@ == google_config(google),
            out.oauth2.outlook@ == outlook_config(outlook),
    {
        Config { oauth2: Oauth2ConfigGroup::new(google, outlook) }
    }
}

} // verus!
