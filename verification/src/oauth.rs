//! The authorization-code exchange with the Discord identity provider: the
//! client configuration, the authorization URL, and the provider-side profile.

use oauth2::basic::BasicClient;
use oauth2::{
    AuthUrl, ClientId, CsrfToken, PkceCodeChallenge, PkceCodeVerifier, RedirectUrl, Scope,
};
use crate::error::{Error, ErrorView};
use vstd::prelude::*;
use vstd::utf8::encode_utf8;

verus! {

/// Profile of a user as the provider reports it.
#[derive(Debug)]
pub struct DiscordUser {
    pub id: u64,
    pub email: Option<String>,
}

/// What a `DiscordUser` holds, as plain values.
pub struct DiscordUserView {
    pub id: u64,
    pub email: Option<Seq<char>>,
}

impl View for DiscordUser {
    type V = DiscordUserView;

    open spec fn view(&self) -> DiscordUserView {
        DiscordUserView {
            id: self.id,
            email: match self.email {
                Some(address) => Some(address@),
                None => None,
            },
        }
    }
}

impl Clone for DiscordUser {
    fn clone(&self) -> (copy: DiscordUser)
        ensures
            copy@ == self@,
    {
        let email = match &self.email {
            Some(address) => Some(address.clone()),
            None => None,
        };
        DiscordUser { id: self.id, email }
    }
}

/// The text of the authorization URL that `oauth2` builds for a client with
/// the given authorization endpoint, client id and redirect URI, asking for
/// `scopes`, carrying `state` as its CSRF state and the SHA-256 challenge of
/// `verifier`. `None` where the endpoint or the redirect URI is no URL.
pub uninterp spec fn authorization_url_text(
    endpoint: Seq<char>,
    client_id: Seq<char>,
    redirect_uri: Seq<char>,
    scopes: Seq<Seq<char>>,
    state: Seq<char>,
    verifier: Seq<char>,
) -> Option<Seq<char>>;

/// Whether `url::Url::parse` accepts a text. `oauth2` asks this of the
/// authorization endpoint in `AuthUrl::new` and of the redirect URI in
/// `RedirectUrl::new`.
pub uninterp spec fn parses_as_url(text: Seq<char>) -> bool;

/// The texts of a list of strings.
pub open spec fn texts(strings: Seq<String>) -> Seq<Seq<char>> {
    strings.map_values(|s: String| s@)
}

/// The length in bytes that `oauth2` accepts for a PKCE code verifier.
pub open spec fn verifier_length_ok(verifier: Seq<char>) -> bool {
    43 <= encode_utf8(verifier).len() <= 128
}

/// Calls `oauth2::PkceCodeChallenge::new_random_sha256` and hands back the
/// secret of the code verifier it made. The verifier is random, so only its
/// length is claimed: the call hands the verifier to
/// `from_code_verifier_sha256`, which panics unless the secret has 43 to 128
/// bytes, so a verifier that comes back has such a length. The call draws from
/// `rand::thread_rng`, which panics where the system gives it no seed.
#[verifier::external_body]
fn random_pkce_verifier() -> (verifier: String)
    ensures
        verifier_length_ok(verifier@),
{
    let (_challenge, verifier) = PkceCodeChallenge::new_random_sha256();
    verifier.secret().clone()
}

/// Calls `oauth2::CsrfToken::new_random` and hands back the secret of the
/// token. The token is random, so nothing is claimed of it. The call draws
/// from `rand::thread_rng`, which panics where the system gives it no seed.
#[verifier::external_body]
fn random_csrf_state() -> (state: String) {
    CsrfToken::new_random().secret().clone()
}

/// Builds an `oauth2::basic::BasicClient` for the endpoint, client id and
/// redirect URI, calls `authorize_url` on it with `state` as the CSRF token,
/// sets the challenge that `PkceCodeChallenge::from_code_verifier_sha256`
/// makes of `verifier`, adds the scopes, and hands back the text of the URL
/// that `AuthorizationRequest::url` returns. That URL is a function of the
/// arguments alone, which `authorization_url_text` names. The result is `None`
/// where `AuthUrl::new` or `RedirectUrl::new` refuses its argument, which each
/// does exactly where `url::Url::parse` refuses it; nothing else in the call
/// can fail. `from_code_verifier_sha256` panics on a verifier outside of 43 to
/// 128 bytes, which `requires` excludes.
#[verifier::external_body]
fn authorization_url(
    endpoint: &String,
    client_id: &String,
    redirect_uri: &String,
    scopes: &Vec<String>,
    state: &String,
    verifier: &String,
) -> (url: Option<String>)
    requires
        verifier_length_ok(verifier@),
    ensures
        url is Some <==> (parses_as_url(endpoint@) && parses_as_url(redirect_uri@)),
        match url {
            Some(text) => authorization_url_text(
                endpoint@,
                client_id@,
                redirect_uri@,
                texts(scopes@),
                state@,
                verifier@,
            ) == Some(text@),
            None => authorization_url_text(
                endpoint@,
                client_id@,
                redirect_uri@,
                texts(scopes@),
                state@,
                verifier@,
            ) is None,
        },
{
    let auth = AuthUrl::new(endpoint.clone()).ok()?;
    let client = BasicClient::new(ClientId::new(client_id.clone()), None, auth, None)
        .set_redirect_uri(RedirectUrl::new(redirect_uri.clone()).ok()?);
    let state = CsrfToken::new(state.clone());
    let verifier = PkceCodeVerifier::new(verifier.clone());
    let request = client.authorize_url(move || state)
        .set_pkce_challenge(PkceCodeChallenge::from_code_verifier_sha256(&verifier))
        .add_scopes(scopes.iter().cloned().map(Scope::new));
    Some(request.url().0.into())
}

/// Base of every endpoint of the provider's API.
pub open spec fn api_base() -> Seq<char> {
    "https://discord.com/api/v8/"@
}

/// The URL of the provider's endpoint `path`.
pub fn discord_api_url(path: &str) -> (url: String)
    ensures
        url@ == api_base() + path@,
{
    let mut url = String::from_str("https://discord.com/api/v8/");
    url.append(path);
    url
}

/// The scopes that an authorization asks for: reading the identity and the
/// e-mail address.
pub open spec fn requested_scopes() -> Seq<Seq<char>> {
    seq!["identify"@, "email"@]
}

/// Configuration of the exchange with the provider, fixed when the process
/// starts, together with the authorization URL that clients are sent to.
pub struct DiscordOAuth {
    client_id: String,
    client_secret: String,
    redirect_uri: String,
    auth_url: String,
}

/// What a `DiscordOAuth` holds, as plain values.
pub struct DiscordOAuthView {
    pub client_id: Seq<char>,
    pub client_secret: Seq<char>,
    pub redirect_uri: Seq<char>,
    pub auth_url: Seq<char>,
}

impl View for DiscordOAuth {
    type V = DiscordOAuthView;

    closed spec fn view(&self) -> DiscordOAuthView {
        DiscordOAuthView {
            client_id: self.client_id@,
            client_secret: self.client_secret@,
            redirect_uri: self.redirect_uri@,
            auth_url: self.auth_url@,
        }
    }
}

impl DiscordOAuth {
    /// The authorization URL for this configuration with the given CSRF state
    /// and PKCE code verifier.
    pub open spec fn url_for(
        client_id: Seq<char>,
        redirect_uri: Seq<char>,
        state: Seq<char>,
        verifier: Seq<char>,
    ) -> Option<Seq<char>> {
        authorization_url_text(
            api_base() + "oauth2/authorize"@,
            client_id,
            redirect_uri,
            requested_scopes(),
            state,
            verifier,
        )
    }

    /// An authorization URL can be built for a redirect URI: the provider's
    /// authorization endpoint and the redirect URI are both URLs.
    pub open spec fn can_authorize(redirect_uri: Seq<char>) -> bool {
        parses_as_url(api_base() + "oauth2/authorize"@) && parses_as_url(redirect_uri)
    }

    /// The configuration whose authorization URL carries `state` and the
    /// challenge of `verifier`; `None` exactly where no such URL can be built.
    pub fn with_challenge(
        client_id: String,
        client_secret: String,
        redirect_uri: String,
        state: &String,
        verifier: &String,
    ) -> (config: Option<DiscordOAuth>)
        requires
            verifier_length_ok(verifier@),
        ensures
            config is Some <==> Self::can_authorize(redirect_uri@),
            match config {
                Some(c) => Self::url_for(client_id@, redirect_uri@, state@, verifier@) == Some(
                    c@.auth_url,
                ) && c@.client_id == client_id@ && c@.client_secret == client_secret@
                    && c@.redirect_uri == redirect_uri@,
                None => Self::url_for(client_id@, redirect_uri@, state@, verifier@) is None,
            },
    {
        let endpoint = discord_api_url("oauth2/authorize");
        let mut scopes: Vec<String> = Vec::new();
        scopes.push(String::from_str("identify"));
        scopes.push(String::from_str("email"));
        assert(texts(scopes@) =~= requested_scopes());
        match authorization_url(&endpoint, &client_id, &redirect_uri, &scopes, state, verifier) {
            Some(auth_url) => Some(DiscordOAuth { client_id, client_secret, redirect_uri, auth_url }),
            None => None,
        }
    }

    /// A configuration with a fresh CSRF state and PKCE challenge in its
    /// authorization URL. Neither the state nor the verifier is kept. There is
    /// a configuration exactly where the provider's authorization endpoint and
    /// `redirect_uri` are URLs; it holds the three arguments, and its URL is
    /// the authorization URL for them with some state and some verifier of an
    /// accepted length.
    pub fn new(client_id: String, client_secret: String, redirect_uri: String) -> (config: Option<
        DiscordOAuth,
    >)
        ensures
            config is Some <==> Self::can_authorize(redirect_uri@),
            config matches Some(c) ==> c@.client_id == client_id@ && c@.client_secret
                == client_secret@ && c@.redirect_uri == redirect_uri@ && exists|
                state: Seq<char>,
                verifier: Seq<char>,
            |
                verifier_length_ok(verifier) && #[trigger] Self::url_for(
                    client_id@,
                    redirect_uri@,
                    state,
                    verifier,
                ) == Some(c@.auth_url),
    {
        let verifier = random_pkce_verifier();
        let state = random_csrf_state();
        let config = Self::with_challenge(client_id, client_secret, redirect_uri, &state, &verifier);
        assert(config matches Some(c) ==> Self::url_for(
            client_id@,
            redirect_uri@,
            state@,
            verifier@,
        ) == Some(c@.auth_url));
        config
    }

    /// The authorization URL, the same for as long as this value lives.
    pub fn get_auth_url(&self) -> (url: &String)
        ensures
            url@ == self@.auth_url,
    {
        &self.auth_url
    }

    /// The client id that the provider issued.
    pub fn client_id(&self) -> (id: &String)
        ensures
            id@ == self@.client_id,
    {
        &self.client_id
    }

    /// The client secret that the provider issued.
    pub fn client_secret(&self) -> (secret: &String)
        ensures
            secret@ == self@.client_secret,
    {
        &self.client_secret
    }

    /// The URI that the provider redirects back to.
    pub fn redirect_uri(&self) -> (uri: &String)
        ensures
            uri@ == self@.redirect_uri,
    {
        &self.redirect_uri
    }
}

/// Where one attempt to authenticate stands. It starts `Unauthenticated` and
/// ends `Authenticated`; a failure leaves it `Unauthenticated`.
#[derive(Debug)]
pub enum ExchangeState {
    Unauthenticated,
    Authenticated(DiscordUser),
}

/// What happened outside: the provider redirected back, or one of the two
/// requests to the provider came to an end.
#[derive(Debug)]
pub enum ExchangeEvent {
    /// The provider redirected back with an authorization code.
    CodeReceived(String),
    /// The token endpoint issued an access token of the given type.
    TokenIssued { token_type: String, access_token: String },
    /// Redeeming the code failed; holds the text of the failure.
    TokenRefused(String),
    /// The profile endpoint answered with the user's profile.
    ProfileFetched(DiscordUser),
    /// Fetching the profile failed in transport, by its status or in decoding
    /// the answer; holds the text of the failure.
    ProfileFailed(String),
}

/// What is to be done next.
#[derive(Debug)]
pub enum ExchangeAction {
    /// Redeem the code at the token endpoint.
    RedeemCode(String),
    /// Send a GET request to `url` with `authorization` as its
    /// `Authorization` header.
    FetchProfile { url: String, authorization: String },
    /// The attempt succeeded for this user.
    Accept(DiscordUser),
    /// The attempt failed.
    Reject(Error),
    /// The attempt is over; the event is dropped.
    Nothing,
}

/// An `ExchangeState` as plain values.
pub enum ExchangeStateView {
    Unauthenticated,
    Authenticated(DiscordUserView),
}

/// An `ExchangeEvent` as plain values.
pub enum ExchangeEventView {
    CodeReceived(Seq<char>),
    TokenIssued { token_type: Seq<char>, access_token: Seq<char> },
    TokenRefused(Seq<char>),
    ProfileFetched(DiscordUserView),
    ProfileFailed(Seq<char>),
}

/// An `ExchangeAction` as plain values.
pub enum ExchangeActionView {
    RedeemCode(Seq<char>),
    FetchProfile { url: Seq<char>, authorization: Seq<char> },
    Accept(DiscordUserView),
    Reject(ErrorView),
    Nothing,
}

impl View for ExchangeState {
    type V = ExchangeStateView;

    open spec fn view(&self) -> ExchangeStateView {
        match self {
            ExchangeState::Unauthenticated => ExchangeStateView::Unauthenticated,
            ExchangeState::Authenticated(user) => ExchangeStateView::Authenticated(user@),
        }
    }
}

impl View for ExchangeEvent {
    type V = ExchangeEventView;

    open spec fn view(&self) -> ExchangeEventView {
        match self {
            ExchangeEvent::CodeReceived(code) => ExchangeEventView::CodeReceived(code@),
            ExchangeEvent::TokenIssued { token_type, access_token } => {
                ExchangeEventView::TokenIssued {
                    token_type: token_type@,
                    access_token: access_token@,
                }
            },
            ExchangeEvent::TokenRefused(text) => ExchangeEventView::TokenRefused(text@),
            ExchangeEvent::ProfileFetched(user) => ExchangeEventView::ProfileFetched(user@),
            ExchangeEvent::ProfileFailed(text) => ExchangeEventView::ProfileFailed(text@),
        }
    }
}

impl View for ExchangeAction {
    type V = ExchangeActionView;

    open spec fn view(&self) -> ExchangeActionView {
        match self {
            ExchangeAction::RedeemCode(code) => ExchangeActionView::RedeemCode(code@),
            ExchangeAction::FetchProfile { url, authorization } => ExchangeActionView::FetchProfile {
                url: url@,
                authorization: authorization@,
            },
            ExchangeAction::Accept(user) => ExchangeActionView::Accept(user@),
            ExchangeAction::Reject(e) => ExchangeActionView::Reject(e@),
            ExchangeAction::Nothing => ExchangeActionView::Nothing,
        }
    }
}

/// The value of the `Authorization` header for an access token: its type, a
/// space, and its secret.
pub open spec fn authorization_text(token_type: Seq<char>, access_token: Seq<char>) -> Seq<char> {
    token_type + " "@ + access_token
}

/// The state after an event, and what is to be done about it.
///
/// A code is redeemed; an access token is used at once to fetch the profile;
/// the profile ends the attempt. A refusal of the token endpoint is rejected
/// as `Any`, a failure of the profile endpoint as `Reqwest`, and neither is
/// tried again. Once authenticated, every event is dropped.
pub open spec fn exchange_step(state: ExchangeStateView, event: ExchangeEventView) -> (
    ExchangeStateView,
    ExchangeActionView,
) {
    match state {
        ExchangeStateView::Authenticated(_) => (state, ExchangeActionView::Nothing),
        ExchangeStateView::Unauthenticated => match event {
            ExchangeEventView::CodeReceived(code) => (state, ExchangeActionView::RedeemCode(code)),
            ExchangeEventView::TokenIssued { token_type, access_token } => (
                state,
                ExchangeActionView::FetchProfile {
                    url: api_base() + "users/@me"@,
                    authorization: authorization_text(token_type, access_token),
                },
            ),
            ExchangeEventView::TokenRefused(text) => (
                state,
                ExchangeActionView::Reject(ErrorView::Any(text)),
            ),
            ExchangeEventView::ProfileFetched(user) => (
                ExchangeStateView::Authenticated(user),
                ExchangeActionView::Accept(user),
            ),
            ExchangeEventView::ProfileFailed(text) => (
                state,
                ExchangeActionView::Reject(ErrorView::Reqwest(text)),
            ),
        },
    }
}

/// A failure of either request to the provider is rejected as a failure of
/// the provider, and the attempt stays unauthenticated.
pub proof fn lemma_upstream_failure_rejects(text: Seq<char>)
    ensures
        exchange_step(ExchangeStateView::Unauthenticated, ExchangeEventView::TokenRefused(text))
            == (ExchangeStateView::Unauthenticated, ExchangeActionView::Reject(ErrorView::Any(text))),
        exchange_step(ExchangeStateView::Unauthenticated, ExchangeEventView::ProfileFailed(text))
            == (
            ExchangeStateView::Unauthenticated,
            ExchangeActionView::Reject(ErrorView::Reqwest(text)),
        ),
        ErrorView::Any(text).is_upstream(),
        ErrorView::Reqwest(text).is_upstream(),
        ErrorView::Any(text).body() is None,
        ErrorView::Reqwest(text).body() is None,
{
}

/// `Authenticated` is terminal: no event changes it or asks for more work.
pub proof fn lemma_authenticated_is_terminal(user: DiscordUserView, event: ExchangeEventView)
    ensures
        exchange_step(ExchangeStateView::Authenticated(user), event) == (
            ExchangeStateView::Authenticated(user),
            ExchangeActionView::Nothing,
        ),
{
}

impl ExchangeState {
    /// Takes one event and says what is to be done next.
    pub fn step(self, event: ExchangeEvent) -> (next: (ExchangeState, ExchangeAction))
        ensures
            (next.0@, next.1@) == exchange_step(self@, event@),
    {
        match self {
            ExchangeState::Authenticated(user) => (
                ExchangeState::Authenticated(user),
                ExchangeAction::Nothing,
            ),
            ExchangeState::Unauthenticated => match event {
                ExchangeEvent::CodeReceived(code) => (
                    ExchangeState::Unauthenticated,
                    ExchangeAction::RedeemCode(code),
                ),
                ExchangeEvent::TokenIssued { token_type, access_token } => {
                    let url = discord_api_url("users/@me");
                    let mut authorization = token_type;
                    authorization.append(" ");
                    authorization.append(access_token.as_str());
                    (
                        ExchangeState::Unauthenticated,
                        ExchangeAction::FetchProfile { url, authorization },
                    )
                },
                ExchangeEvent::TokenRefused(text) => (
                    ExchangeState::Unauthenticated,
                    ExchangeAction::Reject(Error::Any(text)),
                ),
                ExchangeEvent::ProfileFetched(user) => {
                    let accepted = user.clone();
                    (ExchangeState::Authenticated(user), ExchangeAction::Accept(accepted))
                },
                ExchangeEvent::ProfileFailed(text) => (
                    ExchangeState::Unauthenticated,
                    ExchangeAction::Reject(Error::Reqwest(text)),
                ),
            },
        }
    }
}

} // verus!
