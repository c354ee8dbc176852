use cwsite_server::{
    login, reissue, resolve, AuthenticationToken, DiscordUser, Error, ExchangeAction,
    ExchangeEvent, ExchangeState, MainRole, Player, StorageError, Store, ENTROPY_BYTES,
};

fn store_with_moderator() -> Store {
    let mut store = Store::new();
    let mut alice = Player::new(String::from("p1"), String::from("Alice"), 10);
    alice.set_main_role(MainRole::Moderator);
    alice.insert(&mut store).expect("first identity");
    Player::new(String::from("p2"), String::from("Bob"), 20).insert(&mut store).expect("second");
    store
}

fn credential(discord_id: u64, token: &str) -> AuthenticationToken {
    AuthenticationToken { discord_id, token: String::from(token) }
}

#[test]
fn token_resolves_to_identity_and_tier() {
    let mut store = store_with_moderator();
    credential(10, "tok-a").insert(&mut store).expect("stored");
    let (player, role) = resolve(&String::from("tok-a"), &store).expect("known token");
    assert_eq!(player.id, "p1");
    assert_eq!(role, MainRole::Moderator);
    assert!(role.is_permitted(MainRole::Premium));
    assert!(!role.is_permitted(MainRole::Admin));
}

#[test]
fn unknown_token_does_not_resolve() {
    let store = store_with_moderator();
    let outcome = resolve(&String::from("tok-a"), &store);
    assert!(matches!(outcome, Err(Error::NotExist)));
}

#[test]
fn revoked_token_does_not_resolve() {
    let mut store = store_with_moderator();
    credential(10, "tok-a").insert(&mut store).expect("stored");
    assert!(resolve(&String::from("tok-a"), &store).is_ok());
    AuthenticationToken::delete_by_id(10, &mut store);
    let outcome = resolve(&String::from("tok-a"), &store);
    assert!(matches!(outcome, Err(Error::NotExist)));
    assert_eq!(outcome.expect_err("revoked").status_code(), 404);
}

#[test]
fn reissue_replaces_the_older_credentials() {
    let mut store = store_with_moderator();
    credential(10, "old-1").insert(&mut store).expect("stored");
    credential(10, "old-2").insert(&mut store).expect("stored");
    credential(20, "bob").insert(&mut store).expect("stored");
    let stored = reissue(credential(10, "new"), &mut store).expect("issued");
    assert_eq!((stored.discord_id, stored.token.as_str()), (10, "new"));
    assert_eq!(store.token_count(), 2);
    assert!(resolve(&String::from("old-1"), &store).is_err());
    assert!(resolve(&String::from("old-2"), &store).is_err());
    assert_eq!(resolve(&String::from("new"), &store).expect("issued").0.id, "p1");
    assert_eq!(resolve(&String::from("bob"), &store).expect("untouched").0.id, "p2");
}

#[test]
fn reissue_with_a_token_of_another_id_fails_and_still_revokes() {
    let mut store = store_with_moderator();
    credential(10, "old").insert(&mut store).expect("stored");
    credential(20, "bob").insert(&mut store).expect("stored");
    let outcome = reissue(credential(10, "bob"), &mut store);
    assert!(matches!(outcome, Err(Error::SQLX(StorageError::UniqueViolation))));
    assert_eq!(store.token_count(), 1);
    assert!(resolve(&String::from("old"), &store).is_err());
    assert_eq!(resolve(&String::from("bob"), &store).expect("untouched").0.id, "p2");
}

#[test]
fn reissue_for_an_unknown_id_fails() {
    let mut store = store_with_moderator();
    let outcome = reissue(credential(30, "tok"), &mut store);
    assert!(matches!(outcome, Err(Error::SQLX(StorageError::ForeignKeyViolation))));
    assert_eq!(store.token_count(), 0);
}

#[test]
fn reissue_may_use_the_own_older_token_again() {
    let mut store = store_with_moderator();
    credential(10, "same").insert(&mut store).expect("stored");
    reissue(credential(10, "same"), &mut store).expect("the older one is revoked first");
    assert_eq!(store.token_count(), 1);
}

#[test]
fn login_mints_and_stores_a_credential() {
    let mut store = store_with_moderator();
    credential(10, "old").insert(&mut store).expect("stored");
    let minted = login(Ok(DiscordUser { id: 10, email: None }), &mut store).expect("logged in");
    assert_eq!(minted.discord_id, 10);
    assert!(minted.token.starts_with("A"));
    assert_eq!(minted.token.len(), 1 + 2 * ENTROPY_BYTES);
    assert_eq!(store.token_count(), 1);
    assert!(resolve(&String::from("old"), &store).is_err());
    let (player, role) = resolve(&minted.token, &store).expect("the fresh token resolves");
    assert_eq!(player.id, "p1");
    assert_eq!(role, MainRole::Moderator);
}

#[test]
fn login_of_an_unknown_user_stores_nothing() {
    let mut store = store_with_moderator();
    let outcome = login(Ok(DiscordUser { id: 30, email: None }), &mut store);
    assert!(matches!(outcome, Err(Error::SQLX(StorageError::ForeignKeyViolation))));
    assert_eq!(store.token_count(), 0);
}

#[test]
fn failed_profile_fetch_surfaces_and_persists_nothing() {
    let mut store = store_with_moderator();
    credential(10, "old").insert(&mut store).expect("stored");
    let event = ExchangeEvent::ProfileFailed(String::from("500 Internal Server Error"));
    let (state, action) = ExchangeState::Unauthenticated.step(event);
    assert!(matches!(state, ExchangeState::Unauthenticated));
    let profile = match action {
        ExchangeAction::Reject(error) => Err(error),
        other => panic!("expected a rejection, got {:?}", other),
    };
    let outcome = login(profile, &mut store);
    match outcome {
        Err(Error::Reqwest(text)) => assert_eq!(text, "500 Internal Server Error"),
        other => panic!("expected the upstream failure, got {:?}", other),
    }
    assert_eq!(store.token_count(), 1);
    assert_eq!(resolve(&String::from("old"), &store).expect("kept").0.id, "p1");
}

#[test]
fn refused_code_surfaces_and_persists_nothing() {
    let mut store = store_with_moderator();
    let outcome = login(Err(Error::Any(String::from("invalid_grant"))), &mut store);
    assert!(matches!(outcome, Err(Error::Any(text)) if text == "invalid_grant"));
    assert_eq!(store.token_count(), 0);
    assert_eq!(store.player_count(), 2);
}
