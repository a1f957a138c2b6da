use lyrics_overlay::auth::{
    begin, build_request, on_callback, redirect_uri, request_for, start, step, AuthAction,
    AuthEvent, AuthState, CallbackGate, Credentials, CALLBACK_PATH, CONFIRMATION_PAGE,
    SCOPE_CURRENTLY_PLAYING, SCOPE_PLAYBACK_STATE, SPOTIFY_AUTH_URL, SPOTIFY_TOKEN_URL,
};
use lyrics_overlay::spotify::{SpotifyClient, SpotifyClientAuthError};
use std::collections::HashMap;

fn credentials(id: &str, secret: &str, base: &str) -> Credentials {
    Credentials {
        client_id: id.to_string(),
        client_secret: secret.to_string(),
        redirect_base: base.to_string(),
    }
}

fn good() -> Credentials {
    credentials("my client", "my secret", "http://127.0.0.1:8123")
}

fn query(url: &str) -> HashMap<String, String> {
    url::Url::parse(url).unwrap().query_pairs().map(|(k, v)| (k.into_owned(), v.into_owned())).collect()
}

fn awaiting() -> (AuthState, String, String) {
    match build_request(good()) {
        (state @ AuthState::AwaitingCallback(_), AuthAction::AwaitCallback { authorize_url, .. }) => {
            let q = query(&authorize_url);
            (state, q["state"].clone(), q["code_challenge"].clone())
        }
        other => panic!("{:?}", other),
    }
}

#[test]
fn constants() {
    assert_eq!(SPOTIFY_AUTH_URL, "https://accounts.spotify.com/authorize");
    assert_eq!(SPOTIFY_TOKEN_URL, "https://accounts.spotify.com/api/token");
    assert_eq!(SCOPE_CURRENTLY_PLAYING, "user-read-currently-playing");
    assert_eq!(SCOPE_PLAYBACK_STATE, "user-read-playback-state");
    assert_eq!(CALLBACK_PATH, "/callback");
    assert_eq!(redirect_uri("http://127.0.0.1:8123"), "http://127.0.0.1:8123/callback");
}

#[test]
fn empty_client_secret_fails_before_anything_is_asked() {
    let mut client = SpotifyClient::new();
    let action = client.authenticate(AuthEvent::Start(credentials("id", "", "http://127.0.0.1:8123")));
    assert!(matches!(action, AuthAction::Nothing));
    assert!(!client.is_authenticated());
    let (state, action) = start(credentials("id", "", "http://127.0.0.1:8123"));
    assert!(matches!(state, AuthState::Failed(SpotifyClientAuthError::MissingClientSecret)));
    assert!(matches!(action, AuthAction::Nothing));
    let (state, action) = step(AuthState::Idle, AuthEvent::Start(credentials("id", "", "not a url")));
    assert!(matches!(state, AuthState::Failed(SpotifyClientAuthError::MissingClientSecret)));
    assert!(matches!(action, AuthAction::Nothing));
}

#[test]
fn empty_client_id_fails_first() {
    assert!(matches!(
        begin(credentials("", "", "http://127.0.0.1:8123")),
        AuthState::Failed(SpotifyClientAuthError::MissingClientId)
    ));
    assert!(matches!(
        begin(credentials("", "secret", "http://127.0.0.1:8123")),
        AuthState::Failed(SpotifyClientAuthError::MissingClientId)
    ));
    let (state, action) = start(credentials("", "secret", "http://127.0.0.1:8123"));
    assert!(matches!(state, AuthState::Failed(SpotifyClientAuthError::MissingClientId)));
    assert!(matches!(action, AuthAction::Nothing));
}

#[test]
fn credentials_in_order_lead_to_the_request() {
    match begin(good()) {
        AuthState::BuildingRequest(c) => {
            assert_eq!(c.client_id, "my client");
            assert_eq!(c.client_secret, "my secret");
            assert_eq!(c.redirect_base, "http://127.0.0.1:8123");
        }
        other => panic!("{:?}", other),
    }
}

#[test]
fn the_authorization_url_holds_what_the_provider_needs() {
    let (state, action) = start(good());
    assert!(matches!(state, AuthState::AwaitingCallback(_)));
    match action {
        AuthAction::AwaitCallback { authorize_url, host, port } => {
            assert_eq!(host, "127.0.0.1");
            assert_eq!(port, 8123);
            assert!(authorize_url.starts_with("https://accounts.spotify.com/authorize?"));
            let q = query(&authorize_url);
            assert_eq!(q.len(), 7);
            assert_eq!(q["response_type"], "code");
            assert_eq!(q["client_id"], "my client");
            assert_eq!(q["redirect_uri"], "http://127.0.0.1:8123/callback");
            assert_eq!(q["scope"], "user-read-currently-playing user-read-playback-state");
            assert_eq!(q["code_challenge_method"], "S256");
            assert_eq!(q["code_challenge"].len(), 43);
            assert_eq!(q["state"].len(), 22);
        }
        other => panic!("{:?}", other),
    }
}

#[test]
fn each_attempt_draws_a_state_and_a_verifier_of_its_own() {
    let (_, state_a, challenge_a) = awaiting();
    let (_, state_b, challenge_b) = awaiting();
    assert_ne!(state_a, state_b);
    assert_ne!(challenge_a, challenge_b);
}

#[test]
fn the_challenge_is_that_of_the_verifier() {
    let (state, token, challenge) = awaiting();
    match step(state, AuthEvent::Callback { code: Some("the code".to_string()), state: Some(token) }) {
        (AuthState::ExchangingToken, AuthAction::ExchangeCode { pkce_verifier, .. }) => {
            assert_eq!(pkce_verifier.len(), 43);
            let verifier = oauth2::PkceCodeVerifier::new(pkce_verifier);
            assert_eq!(
                oauth2::PkceCodeChallenge::from_code_verifier_sha256(&verifier).as_str(),
                challenge
            );
        }
        other => panic!("{:?}", other),
    }
}

#[test]
fn a_redirect_base_that_is_no_url_fails() {
    for base in ["", "127.0.0.1:8123", "not a url", "http://", "http://[::1"] {
        let (state, action) = start(credentials("id", "secret", base));
        assert!(matches!(state, AuthState::Failed(SpotifyClientAuthError::UrlParse(_))), "{:?}", base);
        assert!(matches!(action, AuthAction::Nothing));
    }
    match start(credentials("id", "secret", "//nowhere")) {
        (AuthState::Failed(e), AuthAction::Nothing) => {
            assert_eq!(e.detail(), "UrlParse(RelativeUrlWithoutBase)");
            assert_eq!(e.message(), "Url Error");
        }
        other => panic!("{:?}", other),
    }
}

#[test]
fn a_redirect_base_without_host_or_port_fails() {
    let (state, action) = start(credentials("id", "secret", "data:text/plain,x"));
    assert!(matches!(state, AuthState::Failed(SpotifyClientAuthError::MissingHost)));
    assert!(matches!(action, AuthAction::Nothing));
    for base in ["http://127.0.0.1", "http://localhost:80", "https://localhost:443"] {
        let (state, action) = start(credentials("id", "secret", base));
        assert!(matches!(state, AuthState::Failed(SpotifyClientAuthError::MissingPort)), "{:?}", base);
        assert!(matches!(action, AuthAction::Nothing));
    }
}

#[test]
fn the_listener_address_is_read_off_the_redirect_base() {
    for (base, host, port) in [
        ("http://localhost:9000", "localhost", 9000u16),
        ("http://LOCALHOST:81/", "localhost", 81),
        ("https://example.com:8443/app", "example.com", 8443),
        ("http://[::1]:8123", "[::1]", 8123),
    ] {
        match start(credentials("id", "secret", base)) {
            (AuthState::AwaitingCallback(_), AuthAction::AwaitCallback { host: h, port: p, .. }) => {
                assert_eq!(h, host);
                assert_eq!(p, port);
            }
            other => panic!("{:?}", other),
        }
    }
}

#[test]
fn what_was_built_decides_how_the_attempt_goes_on() {
    let (state, action) = request_for(
        good(),
        "csrf".to_string(),
        "verifier".to_string(),
        Ok("https://accounts.example/authorize?x=y".to_string()),
        Ok((Some("127.0.0.1".to_string()), Some(8123))),
    );
    assert!(matches!(state, AuthState::AwaitingCallback(_)));
    assert!(matches!(
        action,
        AuthAction::AwaitCallback { authorize_url, host, port }
            if authorize_url == "https://accounts.example/authorize?x=y" && host == "127.0.0.1" && port == 8123
    ));
    let (state, _) = step(
        state,
        AuthEvent::Callback { code: Some("c".to_string()), state: Some("csrf".to_string()) },
    );
    assert!(matches!(state, AuthState::ExchangingToken));

    let (state, action) = request_for(
        good(),
        "csrf".to_string(),
        "verifier".to_string(),
        Err("EmptyHost".to_string()),
        Err("InvalidPort".to_string()),
    );
    assert!(matches!(state, AuthState::Failed(SpotifyClientAuthError::UrlParse(m)) if m == "EmptyHost"));
    assert!(matches!(action, AuthAction::Nothing));

    let (state, _) = request_for(
        good(),
        "csrf".to_string(),
        "verifier".to_string(),
        Ok("u".to_string()),
        Err("InvalidPort".to_string()),
    );
    assert!(matches!(state, AuthState::Failed(SpotifyClientAuthError::UrlParse(m)) if m == "InvalidPort"));

    let (state, _) = request_for(
        good(),
        "csrf".to_string(),
        "verifier".to_string(),
        Ok("u".to_string()),
        Ok((None, None)),
    );
    assert!(matches!(state, AuthState::Failed(SpotifyClientAuthError::MissingHost)));

    let (state, _) = request_for(
        good(),
        "csrf".to_string(),
        "verifier".to_string(),
        Ok("u".to_string()),
        Ok((Some("h".to_string()), None)),
    );
    assert!(matches!(state, AuthState::Failed(SpotifyClientAuthError::MissingPort)));
}

fn session() -> (lyrics_overlay::auth::AuthSession, String) {
    match awaiting() {
        (AuthState::AwaitingCallback(session), token, _) => (session, token),
        other => panic!("{:?}", other),
    }
}

#[test]
fn a_redirect_without_a_code_fails() {
    let (s, token) = session();
    let (state, action) = on_callback(s, None, Some(token));
    assert!(matches!(state, AuthState::Failed(SpotifyClientAuthError::MissingCodeAuthError)));
    assert!(matches!(action, AuthAction::Nothing));
    let (s, _) = session();
    let (state, _) = on_callback(s, None, None);
    assert!(matches!(state, AuthState::Failed(SpotifyClientAuthError::MissingCodeAuthError)));
}

#[test]
fn a_redirect_without_a_state_fails() {
    let (s, _) = session();
    let (state, action) = on_callback(s, Some("code".to_string()), None);
    assert!(matches!(state, AuthState::Failed(SpotifyClientAuthError::MissingStateAuthError)));
    assert!(matches!(action, AuthAction::Nothing));
}

#[test]
fn a_redirect_with_another_state_fails_before_the_exchange() {
    for forged in ["", "x", "AAAAAAAAAAAAAAAAAAAAAA"] {
        let (s, token) = session();
        assert_ne!(token, forged);
        let (state, action) = on_callback(s, Some("code".to_string()), Some(forged.to_string()));
        assert!(matches!(state, AuthState::Failed(SpotifyClientAuthError::CrsfMismatch)));
        assert!(matches!(action, AuthAction::Nothing));
    }
    let (s, token) = session();
    let (state, _) = on_callback(s, Some("code".to_string()), Some(format!("{} ", token)));
    assert!(matches!(state, AuthState::Failed(SpotifyClientAuthError::CrsfMismatch)));
}

#[test]
fn a_redirect_with_the_state_sent_leads_to_the_exchange() {
    let (s, token) = session();
    match on_callback(s, Some("the code".to_string()), Some(token)) {
        (
            AuthState::ExchangingToken,
            AuthAction::ExchangeCode { code, client_id, client_secret, redirect_uri, token_url, .. },
        ) => {
            assert_eq!(code, "the code");
            assert_eq!(client_id, "my client");
            assert_eq!(client_secret, "my secret");
            assert_eq!(redirect_uri, "http://127.0.0.1:8123/callback");
            assert_eq!(token_url, "https://accounts.spotify.com/api/token");
        }
        other => panic!("{:?}", other),
    }
}

#[test]
fn the_whole_flow() {
    let mut client = SpotifyClient::new();
    let action = client.authenticate(AuthEvent::Start(good()));
    let token = match action {
        AuthAction::AwaitCallback { authorize_url, .. } => query(&authorize_url)["state"].clone(),
        other => panic!("{:?}", other),
    };
    assert!(!client.is_authenticated());
    let action = client.authenticate(AuthEvent::Callback { code: Some("c".to_string()), state: Some(token) });
    assert!(matches!(action, AuthAction::ExchangeCode { .. }));
    assert!(!client.is_authenticated());
    let action = client.authenticate(AuthEvent::TokenGranted("granted".to_string()));
    assert!(matches!(action, AuthAction::StoreToken(t) if t == "granted"));
    assert!(client.is_authenticated());
}

#[test]
fn a_refused_exchange_fails_with_the_providers_report() {
    let (state, _) = step(AuthState::ExchangingToken, AuthEvent::TokenRefused("invalid_grant".to_string()));
    match state {
        AuthState::Failed(e) => {
            assert_eq!(e.message(), "OAuth token request failed: invalid_grant");
            assert!(matches!(e, SpotifyClientAuthError::TokenRequest(_)));
        }
        other => panic!("{:?}", other),
    }
}

#[test]
fn a_browser_that_does_not_open_fails_the_attempt() {
    let (state, _, _) = awaiting();
    let (state, action) = step(state, AuthEvent::BrowserFailed("no browser".to_string()));
    assert!(matches!(state, AuthState::Failed(SpotifyClientAuthError::IoError(m)) if m == "no browser"));
    assert!(matches!(action, AuthAction::Nothing));
}

#[test]
fn a_redirect_that_never_comes_times_out() {
    let (state, _, _) = awaiting();
    let (state, action) = step(state, AuthEvent::TimedOut);
    assert!(matches!(state, AuthState::Failed(SpotifyClientAuthError::AuthTimedOut)));
    assert!(matches!(action, AuthAction::Nothing));
}

#[test]
fn events_that_are_not_awaited_change_nothing() {
    let (state, action) = step(AuthState::Idle, AuthEvent::TokenGranted("t".to_string()));
    assert!(matches!(state, AuthState::Idle));
    assert!(matches!(action, AuthAction::Nothing));
    let (state, action) = step(
        AuthState::Idle,
        AuthEvent::Callback { code: Some("c".to_string()), state: Some("s".to_string()) },
    );
    assert!(matches!(state, AuthState::Idle));
    assert!(matches!(action, AuthAction::Nothing));
    let (state, action) = step(AuthState::ExchangingToken, AuthEvent::TimedOut);
    assert!(matches!(state, AuthState::ExchangingToken));
    assert!(matches!(action, AuthAction::Nothing));
    let (state, action) = step(AuthState::Authenticated, AuthEvent::TokenRefused("x".to_string()));
    assert!(matches!(state, AuthState::Authenticated));
    assert!(matches!(action, AuthAction::Nothing));
    let (state, action) =
        step(AuthState::Failed(SpotifyClientAuthError::CrsfMismatch), AuthEvent::TokenGranted("t".to_string()));
    assert!(matches!(state, AuthState::Failed(SpotifyClientAuthError::CrsfMismatch)));
    assert!(matches!(action, AuthAction::Nothing));
    let (awaiting_state, _, _) = awaiting();
    let (state, action) = step(awaiting_state, AuthEvent::TokenGranted("t".to_string()));
    assert!(matches!(state, AuthState::AwaitingCallback(_)));
    assert!(matches!(action, AuthAction::Nothing));
}

#[test]
fn no_attempt_starts_while_one_is_under_way() {
    let (state, _, _) = awaiting();
    let (state, action) = step(state, AuthEvent::Start(good()));
    assert!(matches!(state, AuthState::AwaitingCallback(_)));
    assert!(matches!(action, AuthAction::Nothing));
    let (state, action) = step(AuthState::ExchangingToken, AuthEvent::Start(good()));
    assert!(matches!(state, AuthState::ExchangingToken));
    assert!(matches!(action, AuthAction::Nothing));
    let (state, action) = step(AuthState::BuildingRequest(good()), AuthEvent::Start(good()));
    assert!(matches!(state, AuthState::BuildingRequest(_)));
    assert!(matches!(action, AuthAction::Nothing));
}

#[test]
fn an_attempt_may_follow_a_failure_or_a_success() {
    let (state, action) = step(AuthState::Failed(SpotifyClientAuthError::CrsfMismatch), AuthEvent::Start(good()));
    assert!(matches!(state, AuthState::AwaitingCallback(_)));
    assert!(matches!(action, AuthAction::AwaitCallback { .. }));
    let (state, action) = step(AuthState::Authenticated, AuthEvent::Start(good()));
    assert!(matches!(state, AuthState::AwaitingCallback(_)));
    assert!(matches!(action, AuthAction::AwaitCallback { .. }));
}

#[test]
fn a_failed_attempt_keeps_the_token_of_an_earlier_one() {
    let mut client = SpotifyClient::new();
    let token = match client.authenticate(AuthEvent::Start(good())) {
        AuthAction::AwaitCallback { authorize_url, .. } => query(&authorize_url)["state"].clone(),
        other => panic!("{:?}", other),
    };
    client.authenticate(AuthEvent::Callback { code: Some("c".to_string()), state: Some(token) });
    client.authenticate(AuthEvent::TokenGranted("first".to_string()));
    assert!(client.is_authenticated());
    let action = client.authenticate(AuthEvent::Start(credentials("id", "", "http://127.0.0.1:8123")));
    assert!(matches!(action, AuthAction::Nothing));
    assert!(client.is_authenticated());
}

#[test]
fn only_the_first_callback_is_handed_on() {
    let mut gate = CallbackGate::new();
    let first = gate.on_request(Some("code".to_string()), Some("state".to_string()));
    assert_eq!(first.delivered, Some((Some("code".to_string()), Some("state".to_string()))));
    assert!(first.shutdown);
    assert_eq!(first.page, CONFIRMATION_PAGE);
    let second = gate.on_request(Some("other".to_string()), Some("state".to_string()));
    assert_eq!(second.delivered, None);
    assert!(!second.shutdown);
    assert_eq!(second.page, CONFIRMATION_PAGE);
    let third = gate.on_request(None, None);
    assert_eq!(third.delivered, None);
    assert!(!third.shutdown);
}

#[test]
fn the_first_callback_is_handed_on_as_it_came() {
    let mut gate = CallbackGate::new();
    let first = gate.on_request(None, Some("state".to_string()));
    assert_eq!(first.delivered, Some((None, Some("state".to_string()))));
    assert!(first.shutdown);
    let mut gate = CallbackGate::new();
    let first = gate.on_request(None, None);
    assert_eq!(first.delivered, Some((None, None)));
    assert_eq!(
        first.page,
        "<html><body><h1>Authentication successful!</h1><p>You can close this window.</p></body></html>"
    );
}

#[test]
fn credentials_come_from_the_settings() {
    let mut settings = lyrics_overlay::settings::Settings::default();
    settings.client_id = "id".to_string();
    settings.client_secret = "secret".to_string();
    settings.port = 9001;
    let c = Credentials::from_settings(&settings);
    assert_eq!(c.client_id, "id");
    assert_eq!(c.client_secret, "secret");
    assert_eq!(c.redirect_base, "http://127.0.0.1:9001");
    match start(c) {
        (AuthState::AwaitingCallback(_), AuthAction::AwaitCallback { host, port, authorize_url }) => {
            assert_eq!(host, "127.0.0.1");
            assert_eq!(port, 9001);
            assert_eq!(query(&authorize_url)["redirect_uri"], "http://127.0.0.1:9001/callback");
        }
        other => panic!("{:?}", other),
    }
}
