//! The authorization flow: an OAuth2 authorization-code exchange with PKCE and a
//! state token against forgery, as a machine that is told what happened and says
//! what to do next. Opening the browser, listening for the redirect and talking to
//! the token endpoint are the caller's part.

use crate::settings::{redirect_text, Settings};
use crate::spotify::{AuthErrorView, SpotifyClientAuthError};
use crate::text::{same_text, text_of};
use oauth2::basic::BasicClient;
use oauth2::{
    AuthUrl, ClientId, CsrfToken, PkceCodeChallenge, PkceCodeVerifier, RedirectUrl, Scope,
};
use url::Url;
use vstd::prelude::*;
use vstd::string::StringExecFns;
use vstd::utf8::encode_utf8;

verus! {

/// Why `url` could not read an address.
#[verifier::external_type_specification]
#[verifier::external_body]
pub struct ExUrlParseError(url::ParseError);

/// The provider's authorization endpoint.
pub const SPOTIFY_AUTH_URL: &'static str = "https://accounts.spotify.com/authorize";

/// The provider's token endpoint.
pub const SPOTIFY_TOKEN_URL: &'static str = "https://accounts.spotify.com/api/token";

/// The scope that lets the client read what is playing.
pub const SCOPE_CURRENTLY_PLAYING: &'static str = "user-read-currently-playing";

/// The scope that lets the client read the state of playback.
pub const SCOPE_PLAYBACK_STATE: &'static str = "user-read-playback-state";

/// The path of the redirect under the listener's address.
pub const CALLBACK_PATH: &'static str = "/callback";

/// Whether a PKCE verifier has a length that the exchange accepts: 43 to 128 bytes.
pub open spec fn verifier_fits(verifier: Seq<char>) -> bool {
    43 <= encode_utf8(verifier).len() <= 128
}

/// The authorization URL that `oauth2` builds for an authorization-code request with
/// two scopes, a state token and the SHA-256 challenge of a PKCE verifier; `None`
/// where the endpoint or the redirect address is no URL.
pub uninterp spec fn authorization_url_text(
    auth_url: Seq<char>,
    client_id: Seq<char>,
    redirect_uri: Seq<char>,
    first_scope: Seq<char>,
    second_scope: Seq<char>,
    state: Seq<char>,
    verifier: Seq<char>,
) -> Option<Seq<char>>;

/// The host and the port that `url` reads in an address; `None` where the address is
/// no URL.
pub uninterp spec fn url_host_and_port(address: Seq<char>) -> Option<
    (Option<Seq<char>>, Option<u16>),
>;

/// `oauth2::CsrfToken::new_random`: a fresh random state token. Nothing is claimed of
/// it.
#[verifier::external_body]
fn fresh_csrf_token() -> (token: String) {
    CsrfToken::new_random().into_secret()
}

/// `oauth2::PkceCodeChallenge::new_random_sha256`: the verifier of a fresh random
/// PKCE pair. It is the unpadded base64 of 32 random bytes, so 43 bytes long.
#[verifier::external_body]
fn fresh_pkce_verifier() -> (verifier: String)
    ensures
        verifier_fits(verifier@),
{
    PkceCodeChallenge::new_random_sha256().1.into_secret()
}

/// `oauth2`'s `Client::authorize_url` and `AuthorizationRequest::url`, on a client
/// with the given id, authorization endpoint and redirect address, for two scopes,
/// the state `state` and the challenge that
/// `PkceCodeChallenge::from_code_verifier_sha256` derives from `verifier`. The text
/// depends on these alone. It fails where `AuthUrl::new` or `RedirectUrl::new` does.
#[verifier::external_body]
fn authorization_url(
    auth_url: &str,
    client_id: &str,
    redirect_uri: &str,
    first_scope: &str,
    second_scope: &str,
    state: &str,
    verifier: &str,
) -> (r: Result<String, url::ParseError>)
    requires
        verifier_fits(verifier@),
    ensures
        match r {
            Ok(text) => authorization_url_text(
                auth_url@,
                client_id@,
                redirect_uri@,
                first_scope@,
                second_scope@,
                state@,
                verifier@,
            ) == Some(text@),
            Err(_) => authorization_url_text(
                auth_url@,
                client_id@,
                redirect_uri@,
                first_scope@,
                second_scope@,
                state@,
                verifier@,
            ) is None,
        },
{
    let client = BasicClient::new(ClientId::new(client_id.to_owned()))
        .set_auth_uri(AuthUrl::new(auth_url.to_owned())?)
        .set_redirect_uri(RedirectUrl::new(redirect_uri.to_owned())?);
    let verifier = PkceCodeVerifier::new(verifier.to_owned());
    let token = CsrfToken::new(state.to_owned());
    let (url, _) = client
        .authorize_url(move || token)
        .add_scope(Scope::new(first_scope.to_owned()))
        .add_scope(Scope::new(second_scope.to_owned()))
        .set_pkce_challenge(PkceCodeChallenge::from_code_verifier_sha256(&verifier))
        .url();
    Ok(url.into())
}

/// `url::Url::parse`, with the host and the port of the parsed address as
/// `Url::host_str` and `Url::port` give them.
#[verifier::external_body]
fn host_and_port(address: &str) -> (r: Result<(Option<String>, Option<u16>), url::ParseError>)
    ensures
        match r {
            Ok((host, port)) => url_host_and_port(address@) == Some((text_of(host), port)),
            Err(_) => url_host_and_port(address@) is None,
        },
{
    let url = Url::parse(address)?;
    Ok((url.host_str().map(str::to_owned), url.port()))
}

/// The `Debug` form of a `url::ParseError`: the name of the failure. Nothing is
/// claimed of it.
#[verifier::external_body]
fn parse_error_text(error: &url::ParseError) -> (text: String) {
    format!("{:?}", error)
}

/// What the flow is given to start with, as a value of the model.
pub struct CredentialsView {
    pub client_id: Seq<char>,
    pub client_secret: Seq<char>,
    pub redirect_base: Seq<char>,
}

/// What the flow is given to start with.
#[derive(Debug)]
pub struct Credentials {
    /// The client id that the provider issued.
    pub client_id: String,
    /// The client secret that the provider issued.
    pub client_secret: String,
    /// The address of the local listener: scheme, host and port, no path.
    pub redirect_base: String,
}

impl View for Credentials {
    type V = CredentialsView;

    open spec fn view(&self) -> CredentialsView {
        CredentialsView {
            client_id: self.client_id@,
            client_secret: self.client_secret@,
            redirect_base: self.redirect_base@,
        }
    }
}

impl Credentials {
    /// The credentials that the settings give: the client's id and secret, and the
    /// listener's address as the redirect base.
    pub fn from_settings(settings: &Settings) -> (credentials: Credentials)
        ensures
            credentials@ == (CredentialsView {
                client_id: settings.client_id@,
                client_secret: settings.client_secret@,
                redirect_base: redirect_text(settings.host@, settings.port),
            }),
    {
        Credentials {
            client_id: settings.client_id.clone(),
            client_secret: settings.client_secret.clone(),
            redirect_base: settings.redirect_url(),
        }
    }
}

/// What one attempt holds from the request to the exchange, as a value of the model.
pub struct SessionView {
    pub credentials: CredentialsView,
    pub csrf_token: Seq<char>,
    pub pkce_verifier: Seq<char>,
}

/// What one attempt holds from the request to the exchange, and no longer: the state
/// token that was sent and the PKCE verifier, beside the credentials.
#[derive(Debug)]
pub struct AuthSession {
    credentials: Credentials,
    csrf_token: String,
    pkce_verifier: String,
}

impl View for AuthSession {
    type V = SessionView;

    closed spec fn view(&self) -> SessionView {
        SessionView {
            credentials: self.credentials@,
            csrf_token: self.csrf_token@,
            pkce_verifier: self.pkce_verifier@,
        }
    }
}

/// Where the flow stands, as a value of the model.
pub enum AuthStateView {
    Idle,
    BuildingRequest(CredentialsView),
    AwaitingCallback(SessionView),
    ExchangingToken,
    Authenticated,
    Failed(AuthErrorView),
}

/// Where the flow stands.
#[derive(Debug)]
pub enum AuthState {
    /// No attempt has been made.
    Idle,
    /// The credentials are in order; the request is to be built.
    BuildingRequest(Credentials),
    /// The browser has been sent to the provider; the redirect is awaited.
    AwaitingCallback(AuthSession),
    /// The code is being traded for a token.
    ExchangingToken,
    /// A token has been stored.
    Authenticated,
    /// The attempt failed.
    Failed(SpotifyClientAuthError),
}

impl View for AuthState {
    type V = AuthStateView;

    open spec fn view(&self) -> AuthStateView {
        match *self {
            AuthState::Idle => AuthStateView::Idle,
            AuthState::BuildingRequest(c) => AuthStateView::BuildingRequest(c@),
            AuthState::AwaitingCallback(s) => AuthStateView::AwaitingCallback(s@),
            AuthState::ExchangingToken => AuthStateView::ExchangingToken,
            AuthState::Authenticated => AuthStateView::Authenticated,
            AuthState::Failed(e) => AuthStateView::Failed(e@),
        }
    }
}

/// What the flow is told, as a value of the model.
pub enum AuthEventView {
    Start(CredentialsView),
    BrowserFailed(Seq<char>),
    TimedOut,
    Callback { code: Option<Seq<char>>, state: Option<Seq<char>> },
    TokenGranted(Seq<char>),
    TokenRefused(Seq<char>),
}

/// What the flow is told.
#[derive(Debug)]
pub enum AuthEvent {
    /// An attempt is asked for.
    Start(Credentials),
    /// The browser could not be opened; the system's report.
    BrowserFailed(String),
    /// No redirect came within the time that the caller allows.
    TimedOut,
    /// The listener got its first request, with these query parameters.
    Callback { code: Option<String>, state: Option<String> },
    /// The token endpoint granted this access token.
    TokenGranted(String),
    /// The token endpoint refused; the provider's report, as it came.
    TokenRefused(String),
}

impl View for AuthEvent {
    type V = AuthEventView;

    open spec fn view(&self) -> AuthEventView {
        match *self {
            AuthEvent::Start(c) => AuthEventView::Start(c@),
            AuthEvent::BrowserFailed(m) => AuthEventView::BrowserFailed(m@),
            AuthEvent::TimedOut => AuthEventView::TimedOut,
            AuthEvent::Callback { code, state } => AuthEventView::Callback {
                code: text_of(code),
                state: text_of(state),
            },
            AuthEvent::TokenGranted(t) => AuthEventView::TokenGranted(t@),
            AuthEvent::TokenRefused(m) => AuthEventView::TokenRefused(m@),
        }
    }
}

/// What the caller is to do next, as a value of the model.
pub enum AuthActionView {
    Nothing,
    AwaitCallback { authorize_url: Seq<char>, host: Seq<char>, port: u16 },
    ExchangeCode {
        code: Seq<char>,
        pkce_verifier: Seq<char>,
        client_id: Seq<char>,
        client_secret: Seq<char>,
        redirect_uri: Seq<char>,
        token_url: Seq<char>,
    },
    StoreToken(Seq<char>),
}

/// What the caller is to do next.
#[derive(Debug)]
pub enum AuthAction {
    /// Nothing: no request is to be made, no listener bound.
    Nothing,
    /// Open the browser at `authorize_url`, listen at `host` and `port` for one
    /// request to the callback path, and report it.
    AwaitCallback { authorize_url: String, host: String, port: u16 },
    /// Post the code and the verifier to the token endpoint, following no redirect,
    /// and report the answer.
    ExchangeCode {
        code: String,
        pkce_verifier: String,
        client_id: String,
        client_secret: String,
        redirect_uri: String,
        token_url: String,
    },
    /// Keep this access token for the requests to come.
    StoreToken(String),
}

impl View for AuthAction {
    type V = AuthActionView;

    open spec fn view(&self) -> AuthActionView {
        match *self {
            AuthAction::Nothing => AuthActionView::Nothing,
            AuthAction::AwaitCallback { authorize_url, host, port } => AuthActionView::AwaitCallback {
                authorize_url: authorize_url@,
                host: host@,
                port,
            },
            AuthAction::ExchangeCode {
                code,
                pkce_verifier,
                client_id,
                client_secret,
                redirect_uri,
                token_url,
            } => AuthActionView::ExchangeCode {
                code: code@,
                pkce_verifier: pkce_verifier@,
                client_id: client_id@,
                client_secret: client_secret@,
                redirect_uri: redirect_uri@,
                token_url: token_url@,
            },
            AuthAction::StoreToken(t) => AuthActionView::StoreToken(t@),
        }
    }
}

/// The address that the provider is to redirect to, for a listener at `base`.
pub open spec fn redirect_uri_text(base: Seq<char>) -> Seq<char> {
    base + CALLBACK_PATH@
}

/// The state after the credentials have been looked at: an attempt without a client
/// id or without a client secret fails at once.
pub open spec fn validated(credentials: CredentialsView) -> AuthStateView {
    if credentials.client_id.len() == 0 {
        AuthStateView::Failed(AuthErrorView::MissingClientId)
    } else if credentials.client_secret.len() == 0 {
        AuthStateView::Failed(AuthErrorView::MissingClientSecret)
    } else {
        AuthStateView::BuildingRequest(credentials)
    }
}

/// The state and the action once the request has been built, given the state token
/// and the verifier that were drawn, the authorization URL (or why there is none) and
/// what the redirect base holds (or why it is no URL).
pub open spec fn request_built(
    credentials: CredentialsView,
    csrf_token: Seq<char>,
    pkce_verifier: Seq<char>,
    authorize_url: Result<Seq<char>, Seq<char>>,
    address: Result<(Option<Seq<char>>, Option<u16>), Seq<char>>,
) -> (AuthStateView, AuthActionView) {
    match (authorize_url, address) {
        (Err(report), _) => (
            AuthStateView::Failed(AuthErrorView::UrlParse(report)),
            AuthActionView::Nothing,
        ),
        (Ok(_), Err(report)) => (
            AuthStateView::Failed(AuthErrorView::UrlParse(report)),
            AuthActionView::Nothing,
        ),
        (Ok(_), Ok((None, _))) => (
            AuthStateView::Failed(AuthErrorView::MissingHost),
            AuthActionView::Nothing,
        ),
        (Ok(_), Ok((Some(_), None))) => (
            AuthStateView::Failed(AuthErrorView::MissingPort),
            AuthActionView::Nothing,
        ),
        (Ok(url), Ok((Some(host), Some(port)))) => (
            AuthStateView::AwaitingCallback(SessionView { credentials, csrf_token, pkce_verifier }),
            AuthActionView::AwaitCallback { authorize_url: url, host, port },
        ),
    }
}

/// The state and the action after the redirect has come: without a code, without a
/// state, or with a state other than the one sent, the attempt fails and no exchange
/// is asked for.
pub open spec fn after_callback(
    session: SessionView,
    code: Option<Seq<char>>,
    state: Option<Seq<char>>,
) -> (AuthStateView, AuthActionView) {
    match (code, state) {
        (None, _) => (
            AuthStateView::Failed(AuthErrorView::MissingCodeAuthError),
            AuthActionView::Nothing,
        ),
        (Some(_), None) => (
            AuthStateView::Failed(AuthErrorView::MissingStateAuthError),
            AuthActionView::Nothing,
        ),
        (Some(c), Some(s)) => if s != session.csrf_token {
            (AuthStateView::Failed(AuthErrorView::CrsfMismatch), AuthActionView::Nothing)
        } else {
            (
                AuthStateView::ExchangingToken,
                AuthActionView::ExchangeCode {
                    code: c,
                    pkce_verifier: session.pkce_verifier,
                    client_id: session.credentials.client_id,
                    client_secret: session.credentials.client_secret,
                    redirect_uri: redirect_uri_text(session.credentials.redirect_base),
                    token_url: SPOTIFY_TOKEN_URL@,
                },
            )
        },
    }
}

/// Whether an attempt may start in `state`: not while another is under way.
pub open spec fn may_start(state: AuthStateView) -> bool {
    state is Idle || state is Authenticated || state is Failed
}

/// The state and the action after an event that is no start. An event that the
/// state does not await changes nothing and asks for nothing.
pub open spec fn after_event(state: AuthStateView, event: AuthEventView) -> (
    AuthStateView,
    AuthActionView,
) {
    match (state, event) {
        (AuthStateView::AwaitingCallback(_), AuthEventView::BrowserFailed(report)) => (
            AuthStateView::Failed(AuthErrorView::IoError(report)),
            AuthActionView::Nothing,
        ),
        (AuthStateView::AwaitingCallback(_), AuthEventView::TimedOut) => (
            AuthStateView::Failed(AuthErrorView::AuthTimedOut),
            AuthActionView::Nothing,
        ),
        (AuthStateView::AwaitingCallback(session), AuthEventView::Callback { code, state }) => {
            after_callback(session, code, state)
        },
        (AuthStateView::ExchangingToken, AuthEventView::TokenGranted(token)) => (
            AuthStateView::Authenticated,
            AuthActionView::StoreToken(token),
        ),
        (AuthStateView::ExchangingToken, AuthEventView::TokenRefused(report)) => (
            AuthStateView::Failed(AuthErrorView::TokenRequest(report)),
            AuthActionView::Nothing,
        ),
        (s, _) => (s, AuthActionView::Nothing),
    }
}

/// Whether `(next, action)` may follow a start with `credentials` from a state in
/// which an attempt may start. Either the credentials are turned down, or a request
/// was built with some state token and some verifier of a fitting length.
pub open spec fn follows_start(
    credentials: CredentialsView,
    next: AuthStateView,
    action: AuthActionView,
) -> bool {
    match validated(credentials) {
        AuthStateView::BuildingRequest(_) => follows_build(credentials, next, action),
        failed => next == failed && action is Nothing,
    }
}

/// The state and the action once the request for `credentials` has been built with
/// the state token `csrf_token` and the verifier `pkce_verifier`; `report` is what the
/// failure says where an address is no URL.
pub open spec fn built_with(
    credentials: CredentialsView,
    csrf_token: Seq<char>,
    pkce_verifier: Seq<char>,
    report: Seq<char>,
) -> (AuthStateView, AuthActionView) {
    request_built(
        credentials,
        csrf_token,
        pkce_verifier,
        match authorization_url_text(
            SPOTIFY_AUTH_URL@,
            credentials.client_id,
            redirect_uri_text(credentials.redirect_base),
            SCOPE_CURRENTLY_PLAYING@,
            SCOPE_PLAYBACK_STATE@,
            csrf_token,
            pkce_verifier,
        ) {
            Some(url) => Ok(url),
            None => Err(report),
        },
        match url_host_and_port(credentials.redirect_base) {
            Some(parts) => Ok(parts),
            None => Err(report),
        },
    )
}

/// Whether `(next, action)` may follow the building of a request for `credentials`:
/// it was built with some state token and some verifier of a fitting length.
pub open spec fn follows_build(
    credentials: CredentialsView,
    next: AuthStateView,
    action: AuthActionView,
) -> bool {
    exists|csrf_token: Seq<char>, pkce_verifier: Seq<char>, report: Seq<char>|
        verifier_fits(pkce_verifier) && #[trigger] built_with(
            credentials,
            csrf_token,
            pkce_verifier,
            report,
        ) == (next, action)
}

/// The view of an authorization URL, or of the report why there is none.
pub open spec fn url_view(url: Result<String, String>) -> Result<Seq<char>, Seq<char>> {
    match url {
        Ok(u) => Ok(u@),
        Err(report) => Err(report@),
    }
}

/// The view of what an address holds, or of the report why it is no URL.
pub open spec fn address_view(address: Result<(Option<String>, Option<u16>), String>) -> Result<
    (Option<Seq<char>>, Option<u16>),
    Seq<char>,
> {
    match address {
        Ok((host, port)) => Ok((text_of(host), port)),
        Err(report) => Err(report@),
    }
}

/// Looks at the credentials: an attempt without a client id or without a client
/// secret fails before anything is asked of the caller.
pub fn begin(credentials: Credentials) -> (next: AuthState)
    ensures
        next@ == validated(credentials@),
{
    if credentials.client_id.as_str().is_empty() {
        AuthState::Failed(SpotifyClientAuthError::MissingClientId)
    } else if credentials.client_secret.as_str().is_empty() {
        AuthState::Failed(SpotifyClientAuthError::MissingClientSecret)
    } else {
        AuthState::BuildingRequest(credentials)
    }
}

/// Decides how the attempt goes on once the request has been built: it waits for the
/// redirect where there is an authorization URL and an address to listen on, and
/// fails otherwise.
pub fn request_for(
    credentials: Credentials,
    csrf_token: String,
    pkce_verifier: String,
    authorize_url: Result<String, String>,
    address: Result<(Option<String>, Option<u16>), String>,
) -> (r: (AuthState, AuthAction))
    ensures
        (r.0@, r.1@) == request_built(
            credentials@,
            csrf_token@,
            pkce_verifier@,
            url_view(authorize_url),
            address_view(address),
        ),
{
    let url: String = match authorize_url {
        Ok(url) => url,
        Err(report) => {
            return (AuthState::Failed(SpotifyClientAuthError::UrlParse(report)), AuthAction::Nothing);
        },
    };
    let (host, port) = match address {
        Ok(parts) => parts,
        Err(report) => {
            return (AuthState::Failed(SpotifyClientAuthError::UrlParse(report)), AuthAction::Nothing);
        },
    };
    let host: String = match host {
        Some(host) => host,
        None => {
            return (AuthState::Failed(SpotifyClientAuthError::MissingHost), AuthAction::Nothing);
        },
    };
    let port: u16 = match port {
        Some(port) => port,
        None => {
            return (AuthState::Failed(SpotifyClientAuthError::MissingPort), AuthAction::Nothing);
        },
    };
    (
        AuthState::AwaitingCallback(AuthSession { credentials, csrf_token, pkce_verifier }),
        AuthAction::AwaitCallback { authorize_url: url, host, port },
    )
}

/// The address that the provider is to redirect to, for a listener at `base`.
pub fn redirect_uri(base: &str) -> (uri: String)
    ensures
        uri@ == redirect_uri_text(base@),
{
    let mut uri: String = String::from_str(base);
    uri.append(CALLBACK_PATH);
    uri
}

/// Builds the request of an attempt: draws a state token and a PKCE verifier, has the
/// authorization URL made for them, and reads host and port off the redirect base.
pub fn build_request(credentials: Credentials) -> (r: (AuthState, AuthAction))
    ensures
        follows_build(credentials@, r.0@, r.1@),
{
    let csrf_token: String = fresh_csrf_token();
    let pkce_verifier: String = fresh_pkce_verifier();
    let uri: String = redirect_uri(credentials.redirect_base.as_str());
    let authorize_url: Result<String, String> = match authorization_url(
        SPOTIFY_AUTH_URL,
        credentials.client_id.as_str(),
        uri.as_str(),
        SCOPE_CURRENTLY_PLAYING,
        SCOPE_PLAYBACK_STATE,
        csrf_token.as_str(),
        pkce_verifier.as_str(),
    ) {
        Ok(url) => Ok(url),
        Err(error) => Err(parse_error_text(&error)),
    };
    let address: Result<(Option<String>, Option<u16>), String> = match host_and_port(
        credentials.redirect_base.as_str(),
    ) {
        Ok(parts) => Ok(parts),
        Err(error) => Err(parse_error_text(&error)),
    };
    let ghost report: Seq<char> = match (url_view(authorize_url), address_view(address)) {
        (Err(report), _) => report,
        (_, Err(report)) => report,
        _ => Seq::empty(),
    };
    let ghost c = credentials@;
    let ghost token = csrf_token@;
    let ghost verifier = pkce_verifier@;
    let r = request_for(credentials, csrf_token, pkce_verifier, authorize_url, address);
    assert(built_with(c, token, verifier, report) == (r.0@, r.1@));
    r
}

/// Decides what follows the redirect: the exchange of the code where the state that
/// came back is the one that was sent, failure otherwise.
pub fn on_callback(session: AuthSession, code: Option<String>, state: Option<String>) -> (r: (
    AuthState,
    AuthAction,
))
    ensures
        (r.0@, r.1@) == after_callback(session@, text_of(code), text_of(state)),
{
    let code: String = match code {
        Some(code) => code,
        None => {
            return (
                AuthState::Failed(SpotifyClientAuthError::MissingCodeAuthError),
                AuthAction::Nothing,
            );
        },
    };
    let state: String = match state {
        Some(state) => state,
        None => {
            return (
                AuthState::Failed(SpotifyClientAuthError::MissingStateAuthError),
                AuthAction::Nothing,
            );
        },
    };
    if !same_text(state.as_str(), session.csrf_token.as_str()) {
        return (AuthState::Failed(SpotifyClientAuthError::CrsfMismatch), AuthAction::Nothing);
    }
    let uri: String = redirect_uri(session.credentials.redirect_base.as_str());
    (
        AuthState::ExchangingToken,
        AuthAction::ExchangeCode {
            code,
            pkce_verifier: session.pkce_verifier,
            client_id: session.credentials.client_id,
            client_secret: session.credentials.client_secret,
            redirect_uri: uri,
            token_url: String::from_str(SPOTIFY_TOKEN_URL),
        },
    )
}

/// One step of the flow: given where it stands and what happened, where it stands
/// next and what the caller is to do. A start is taken up only while no attempt is
/// under way; any other event that the state does not await changes nothing.
pub fn step(state: AuthState, event: AuthEvent) -> (r: (AuthState, AuthAction))
    ensures
        match event@ {
            AuthEventView::Start(credentials) => if may_start(state@) {
                follows_start(credentials, r.0@, r.1@)
            } else {
                r.0@ == state@ && r.1@ is Nothing
            },
            other => (r.0@, r.1@) == after_event(state@, other),
        },
{
    match (state, event) {
        (AuthState::Idle, AuthEvent::Start(credentials)) => start(credentials),
        (AuthState::Authenticated, AuthEvent::Start(credentials)) => start(credentials),
        (AuthState::Failed(_), AuthEvent::Start(credentials)) => start(credentials),
        (AuthState::AwaitingCallback(_), AuthEvent::BrowserFailed(report)) => (
            AuthState::Failed(SpotifyClientAuthError::IoError(report)),
            AuthAction::Nothing,
        ),
        (AuthState::AwaitingCallback(_), AuthEvent::TimedOut) => (
            AuthState::Failed(SpotifyClientAuthError::AuthTimedOut),
            AuthAction::Nothing,
        ),
        (AuthState::AwaitingCallback(session), AuthEvent::Callback { code, state }) => on_callback(
            session,
            code,
            state,
        ),
        (AuthState::ExchangingToken, AuthEvent::TokenGranted(token)) => (
            AuthState::Authenticated,
            AuthAction::StoreToken(token),
        ),
        (AuthState::ExchangingToken, AuthEvent::TokenRefused(report)) => (
            AuthState::Failed(SpotifyClientAuthError::TokenRequest(report)),
            AuthAction::Nothing,
        ),
        (state, _) => (state, AuthAction::Nothing),
    }
}

/// Takes up an attempt: looks at the credentials and, where they are in order, builds
/// the request.
pub fn start(credentials: Credentials) -> (r: (AuthState, AuthAction))
    ensures
        follows_start(credentials@, r.0@, r.1@),
{
    match begin(credentials) {
        AuthState::BuildingRequest(credentials) => build_request(credentials),
        failed => (failed, AuthAction::Nothing),
    }
}

/// Credentials without a client id or without a client secret are turned down
/// before anything is asked of the caller: no browser is opened, no listener bound,
/// no request made.
pub proof fn lemma_missing_credentials_ask_nothing(
    credentials: CredentialsView,
    next: AuthStateView,
    action: AuthActionView,
)
    requires
        follows_start(credentials, next, action),
        credentials.client_id.len() == 0 || credentials.client_secret.len() == 0,
    ensures
        action is Nothing,
        credentials.client_id.len() == 0 ==> next == AuthStateView::Failed(
            AuthErrorView::MissingClientId,
        ),
        credentials.client_id.len() > 0 ==> next == AuthStateView::Failed(
            AuthErrorView::MissingClientSecret,
        ),
{
}

/// The code is traded for a token only where the redirect brought a code and the
/// very state that was sent: a forged redirect never reaches the token endpoint.
pub proof fn lemma_exchange_needs_the_state_sent(
    session: SessionView,
    code: Option<Seq<char>>,
    state: Option<Seq<char>>,
)
    ensures
        after_callback(session, code, state).1 is ExchangeCode <==> code is Some && state == Some(
            session.csrf_token,
        ),
        !(after_callback(session, code, state).1 is ExchangeCode) ==> after_callback(
            session,
            code,
            state,
        ).0 is Failed && after_callback(session, code, state).1 is Nothing,
{
}

/// A token is stored only as the answer to an exchange that was asked for, and only
/// an awaited redirect leads to an exchange.
pub proof fn lemma_flow_order(state: AuthStateView, event: AuthEventView)
    requires
        !(event is Start),
    ensures
        after_event(state, event).1 is StoreToken ==> state is ExchangingToken,
        after_event(state, event).1 is ExchangeCode ==> state is AwaitingCallback,
        after_event(state, event).0 is Authenticated ==> state is ExchangingToken
            || state is Authenticated,
        !(after_event(state, event).1 is AwaitCallback),
{
}

/// The page that the listener answers every request with.
pub const CONFIRMATION_PAGE: &'static str =
    "<html><body><h1>Authentication successful!</h1><p>You can close this window.</p></body></html>";

/// What the listener does with one request to the callback path.
#[derive(Debug)]
pub struct CallbackReply {
    /// The code and the state to hand to the waiting flow; `None` where they are not
    /// handed on.
    pub delivered: Option<(Option<String>, Option<String>)>,
    /// Whether the listener is now told to shut down once its connections are done.
    pub shutdown: bool,
    /// The page to answer with.
    pub page: String,
}

/// The one-shot hand-off between the callback listener and the waiting flow: the
/// first request is handed on, every later one is answered and nothing more.
#[derive(Debug)]
pub struct CallbackGate {
    pending: bool,
}

impl CallbackGate {
    /// Whether the hand-off is still to come.
    pub closed spec fn is_pending(&self) -> bool {
        self.pending
    }

    /// A gate that waits for its first request.
    pub fn new() -> (gate: CallbackGate)
        ensures
            gate.is_pending(),
    {
        CallbackGate { pending: true }
    }

    /// Takes one request with the query parameters `code` and `state`, present or
    /// not. The first request is handed on as it is and the listener told to shut
    /// down; a later one is not handed on. Each is answered with the same page.
    pub fn on_request(&mut self, code: Option<String>, state: Option<String>) -> (reply:
        CallbackReply)
        ensures
            !final(self).is_pending(),
            reply.page@ == CONFIRMATION_PAGE@,
            reply.shutdown == old(self).is_pending(),
            reply.delivered == if old(self).is_pending() {
                Some((code, state))
            } else {
                None
            },
    {
        let first: bool = self.pending;
        self.pending = false;
        CallbackReply {
            delivered: if first {
                Some((code, state))
            } else {
                None
            },
            shutdown: first,
            page: String::from_str(CONFIRMATION_PAGE),
        }
    }
}

} // verus!
