use cwsite_server::{
    discord_api_url, DiscordOAuth, DiscordUser, Error, ExchangeAction, ExchangeEvent,
    ExchangeState,
};

const VERIFIER: &str = "dBjftJeZ4CVP-mB92K27uhbUJU1p1r_wW1gFWFOEjXk";
const CHALLENGE: &str = "E9Melhoa2OwvFrEMTJguCHaoeK1t8URWbuGJSstw-cM";

fn config(redirect: &str) -> Option<DiscordOAuth> {
    DiscordOAuth::with_challenge(
        String::from("client-1"),
        String::from("hush"),
        String::from(redirect),
        &String::from("state-xyz"),
        &String::from(VERIFIER),
    )
}

fn user() -> DiscordUser {
    DiscordUser { id: 77, email: Some(String::from("a@example.com")) }
}

#[test]
fn endpoints_hang_off_the_api_base() {
    assert_eq!(discord_api_url("oauth2/authorize"), "https://discord.com/api/v8/oauth2/authorize");
    assert_eq!(discord_api_url("users/@me"), "https://discord.com/api/v8/users/@me");
    assert_eq!(discord_api_url(""), "https://discord.com/api/v8/");
}

#[test]
fn authorization_url_carries_state_challenge_redirect_and_scopes() {
    let config = config("https://example.com/callback").expect("a valid redirect URI");
    assert_eq!(
        config.get_auth_url().as_str(),
        format!(
            "https://discord.com/api/v8/oauth2/authorize?response_type=code&client_id=client-1\
             &state=state-xyz&code_challenge={}&code_challenge_method=S256\
             &redirect_uri=https%3A%2F%2Fexample.com%2Fcallback&scope=identify+email",
            CHALLENGE
        )
    );
}

#[test]
fn configuration_keeps_what_it_was_given() {
    let config = config("https://example.com/callback").expect("a valid redirect URI");
    assert_eq!(config.client_id(), "client-1");
    assert_eq!(config.client_secret(), "hush");
    assert_eq!(config.redirect_uri(), "https://example.com/callback");
    assert!(!config.get_auth_url().contains("hush"));
}

#[test]
fn authorization_url_stays_the_same() {
    let config = config("https://example.com/callback").expect("a valid redirect URI");
    let first = config.get_auth_url().clone();
    let second = config.get_auth_url().clone();
    assert_eq!(first, second);
}

#[test]
fn redirect_uri_that_is_no_url_gives_no_configuration() {
    assert!(config("not a url").is_none());
    assert!(config("").is_none());
    assert!(DiscordOAuth::new(String::from("c"), String::from("s"), String::from("nope")).is_none());
}

#[test]
fn new_configuration_has_a_fresh_state_and_challenge() {
    let make = || {
        DiscordOAuth::new(
            String::from("client-1"),
            String::from("hush"),
            String::from("https://example.com/callback"),
        )
        .expect("a valid redirect URI")
    };
    let first = make();
    let second = make();
    let url = first.get_auth_url();
    assert!(url.starts_with(
        "https://discord.com/api/v8/oauth2/authorize?response_type=code&client_id=client-1&state="
    ));
    assert!(url.contains("&code_challenge="));
    assert!(url.ends_with(
        "&code_challenge_method=S256&redirect_uri=https%3A%2F%2Fexample.com%2Fcallback\
         &scope=identify+email"
    ));
    assert_ne!(first.get_auth_url(), second.get_auth_url());
    assert_eq!(first.client_id(), "client-1");
    assert_eq!(first.client_secret(), "hush");
    assert_eq!(first.redirect_uri(), "https://example.com/callback");
}

#[test]
fn code_is_redeemed() {
    let (state, action) =
        ExchangeState::Unauthenticated.step(ExchangeEvent::CodeReceived(String::from("code-1")));
    assert!(matches!(state, ExchangeState::Unauthenticated));
    assert!(matches!(action, ExchangeAction::RedeemCode(code) if code == "code-1"));
}

#[test]
fn access_token_leads_to_the_profile_request() {
    let (state, action) = ExchangeState::Unauthenticated.step(ExchangeEvent::TokenIssued {
        token_type: String::from("Bearer"),
        access_token: String::from("s3cret"),
    });
    assert!(matches!(state, ExchangeState::Unauthenticated));
    match action {
        ExchangeAction::FetchProfile { url, authorization } => {
            assert_eq!(url, "https://discord.com/api/v8/users/@me");
            assert_eq!(authorization, "Bearer s3cret");
        },
        other => panic!("expected a profile request, got {:?}", other),
    }
}

#[test]
fn refused_code_is_rejected_as_any() {
    let (state, action) =
        ExchangeState::Unauthenticated.step(ExchangeEvent::TokenRefused(String::from("invalid_grant")));
    assert!(matches!(state, ExchangeState::Unauthenticated));
    match action {
        ExchangeAction::Reject(Error::Any(text)) => assert_eq!(text, "invalid_grant"),
        other => panic!("expected a rejection, got {:?}", other),
    }
}

#[test]
fn failed_profile_fetch_is_rejected_as_reqwest() {
    let event = ExchangeEvent::ProfileFailed(String::from("500 Internal Server Error"));
    let (state, action) = ExchangeState::Unauthenticated.step(event);
    assert!(matches!(state, ExchangeState::Unauthenticated));
    match action {
        ExchangeAction::Reject(error) => {
            assert!(matches!(&error, Error::Reqwest(text) if text == "500 Internal Server Error"));
            assert_eq!(error.status_code(), 500);
            assert!(error.error_response().body.is_none());
        },
        other => panic!("expected a rejection, got {:?}", other),
    }
}

#[test]
fn profile_authenticates() {
    let (state, action) = ExchangeState::Unauthenticated.step(ExchangeEvent::ProfileFetched(user()));
    match state {
        ExchangeState::Authenticated(who) => {
            assert_eq!(who.id, 77);
            assert_eq!(who.email.as_deref(), Some("a@example.com"));
        },
        other => panic!("expected to be authenticated, got {:?}", other),
    }
    match action {
        ExchangeAction::Accept(who) => {
            assert_eq!(who.id, 77);
            assert_eq!(who.email.as_deref(), Some("a@example.com"));
        },
        other => panic!("expected an acceptance, got {:?}", other),
    }
}

#[test]
fn profile_without_email_authenticates() {
    let event = ExchangeEvent::ProfileFetched(DiscordUser { id: 5, email: None });
    let (_, action) = ExchangeState::Unauthenticated.step(event);
    assert!(matches!(action, ExchangeAction::Accept(who) if who.id == 5 && who.email.is_none()));
}

#[test]
fn authenticated_is_terminal() {
    let events = vec![
        ExchangeEvent::CodeReceived(String::from("code-2")),
        ExchangeEvent::TokenIssued {
            token_type: String::from("Bearer"),
            access_token: String::from("x"),
        },
        ExchangeEvent::TokenRefused(String::from("late")),
        ExchangeEvent::ProfileFetched(DiscordUser { id: 1, email: None }),
        ExchangeEvent::ProfileFailed(String::from("late")),
    ];
    for event in events {
        let (state, action) = ExchangeState::Authenticated(user()).step(event);
        assert!(matches!(state, ExchangeState::Authenticated(who) if who.id == 77));
        assert!(matches!(action, ExchangeAction::Nothing));
    }
}

#[test]
fn whole_exchange_runs_from_code_to_user() {
    let mut state = ExchangeState::Unauthenticated;
    let mut event = ExchangeEvent::CodeReceived(String::from("code-1"));
    let mut steps = 0;
    let accepted = loop {
        steps += 1;
        let (next, action) = state.step(event);
        state = next;
        event = match action {
            ExchangeAction::RedeemCode(_) => ExchangeEvent::TokenIssued {
                token_type: String::from("Bearer"),
                access_token: String::from("tok"),
            },
            ExchangeAction::FetchProfile { .. } => ExchangeEvent::ProfileFetched(user()),
            ExchangeAction::Accept(who) => break who,
            other => panic!("unexpected {:?}", other),
        };
    };
    assert_eq!(steps, 3);
    assert_eq!(accepted.id, 77);
    assert!(matches!(state, ExchangeState::Authenticated(_)));
}
