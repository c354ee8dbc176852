//! What a request may do: a bearer token resolves to an identity and its
//! tier, and a finished exchange with the provider ends in a fresh credential.

use crate::error::{Error, ErrorView, StorageErrorView};
use crate::oauth::DiscordUser;
use crate::player::Player;
use crate::role::{decode, MainRole};
use crate::store::{Store, StoreView};
use crate::token::{token_text, AuthenticationToken, AuthenticationTokenView, ENTROPY_BYTES};
use vstd::prelude::*;

verus! {

impl StoreView {
    /// The store after a credential is issued anew: the older credentials of
    /// its id are gone, and the new one is stored unless its token is taken
    /// or no identity has its id.
    pub open spec fn reissued(self, credential: AuthenticationTokenView) -> StoreView {
        let cleared = self.without_credentials_of(credential.discord_id);
        if cleared.has_token(credential.token) || !cleared.knows(credential.discord_id) {
            cleared
        } else {
            cleared.with_credential(credential)
        }
    }

    /// What issuing a credential anew answers: the credential, or a
    /// uniqueness violation where its token is still taken once the older
    /// credentials of its id are gone, or else a foreign-key violation where
    /// no identity has its id.
    pub open spec fn reissue_result(self, credential: AuthenticationTokenView) -> Result<
        AuthenticationTokenView,
        ErrorView,
    > {
        let cleared = self.without_credentials_of(credential.discord_id);
        if cleared.has_token(credential.token) {
            Err(ErrorView::SQLX(StorageErrorView::UniqueViolation))
        } else if !cleared.knows(credential.discord_id) {
            Err(ErrorView::SQLX(StorageErrorView::ForeignKeyViolation))
        } else {
            Ok(credential)
        }
    }
}

/// The answer of an attempt to issue a credential, as plain values.
pub open spec fn issued(outcome: Result<AuthenticationToken, Error>) -> Result<
    AuthenticationTokenView,
    ErrorView,
> {
    match outcome {
        Ok(credential) => Ok(credential@),
        Err(e) => Err(e@),
    }
}

/// The credential that is minted for an id from a run of entropy bytes.
pub open spec fn minted(discord_id: u64, bytes: Seq<u8>) -> AuthenticationTokenView {
    AuthenticationTokenView { discord_id, token: token_text(discord_id, bytes) }
}

/// The identity that a bearer token stands for, with its tier; `NotExist`
/// where the token is unknown or belongs to no identity.
pub fn resolve(token: &String, store: &Store) -> (resolved: Result<(Player, MainRole), Error>)
    ensures
        match resolved {
            Ok((player, role)) => store@.player_by_token(token@) == Some(player@) && role
                == decode(player.role),
            Err(e) => store@.player_by_token(token@) is None && e@ == ErrorView::NotExist,
        },
{
    match Player::find_by_token(token, store) {
        Some(player) => {
            let role = player.get_main_role();
            Ok((player, role))
        },
        None => Err(Error::NotExist),
    }
}

/// Replaces the credentials of an id by `credential`: the older ones are
/// revoked, then the new one is stored. Where storing fails, the older ones
/// stay revoked.
pub fn reissue(credential: AuthenticationToken, store: &mut Store) -> (outcome: Result<
    AuthenticationToken,
    Error,
>)
    ensures
        final(store)@.wf(),
        final(store)@ == old(store)@.reissued(credential@),
        issued(outcome) == old(store)@.reissue_result(credential@),
        outcome is Ok ==> final(store)@.credential(credential@.token) == Some(credential@),
{
    AuthenticationToken::delete_by_id(credential.discord_id, store);
    let ghost cleared = store@;
    match credential.insert(store) {
        Ok(_) => {
            proof {
                let after = cleared.with_credential(credential@);
                let last = cleared.tokens.len() as int;
                assert(after.token_at(credential@.token, last));
                let i = choose|i: int| after.token_at(credential@.token, i);
                assert(i == last);
            }
            Ok(credential)
        },
        Err(e) => Err(e),
    }
}

/// Ends an exchange with the provider. A failed exchange is handed on as it
/// is and nothing is stored or revoked. For a profile, a fresh credential is
/// minted from the secure random source and issued in place of the older
/// ones of that user; without that source the answer is `Entropy` and nothing
/// is stored or revoked.
pub fn login(profile: Result<DiscordUser, Error>, store: &mut Store) -> (outcome: Result<
    AuthenticationToken,
    Error,
>)
    ensures
        final(store)@.wf(),
        match profile {
            Err(cause) => issued(outcome) == Err::<AuthenticationTokenView, ErrorView>(cause@)
                && final(store)@ == old(store)@,
            Ok(user) => (issued(outcome) == Err::<AuthenticationTokenView, ErrorView>(
                ErrorView::Entropy,
            ) && final(store)@ == old(store)@) || (exists|bytes: Seq<u8>|
                bytes.len() == ENTROPY_BYTES && final(store)@ == old(store)@.reissued(
                    #[trigger] minted(user.id, bytes),
                ) && issued(outcome) == old(store)@.reissue_result(minted(user.id, bytes))),
        },
{
    match profile {
        Err(cause) => {
            proof {
                use_type_invariant(&*store);
            }
            Err(cause)
        },
        Ok(user) => match AuthenticationToken::new(user.id) {
            Err(e) => {
                proof {
                    use_type_invariant(&*store);
                }
                Err(e)
            },
            Ok(credential) => {
                proof {
                    let bytes = choose|bytes: Seq<u8>|
                        bytes.len() == ENTROPY_BYTES && credential@.token == #[trigger] token_text(
                            user.id,
                            bytes,
                        );
                    assert(credential@ == minted(user.id, bytes));
                }
                reissue(credential, store)
            },
        },
    }
}

} // verus!
