//! Lookups of an identity for the site's API: a missing identity is an
//! error of its own kind.

use crate::error::{Error, ErrorView};
use crate::player::Player;
use crate::store::Store;
use vstd::prelude::*;

verus! {

/// What a lookup found, or `NotExist` where it found nothing.
pub fn found_or_not_exist(found: Option<Player>) -> (outcome: Result<Player, Error>)
    ensures
        match outcome {
            Ok(player) => found == Some(player),
            Err(e) => found is None && e@ == ErrorView::NotExist,
        },
{
    match found {
        Some(player) => Ok(player),
        None => Err(Error::NotExist),
    }
}

/// The identity with the internal id `id`, or `NotExist`.
pub fn find_player_by_id(id: String, store: &Store) -> (found: Result<Player, Error>)
    ensures
        match found {
            Ok(player) => store@.player_by_id(id@) == Some(player@),
            Err(e) => store@.player_by_id(id@) is None && e@ == ErrorView::NotExist,
        },
{
    found_or_not_exist(Player::find_by_id(&id, store))
}

/// The identity with the display name `name`, or `NotExist`.
pub fn find_player_by_name(name: String, store: &Store) -> (found: Result<Player, Error>)
    ensures
        match found {
            Ok(player) => store@.player_by_name(name@) == Some(player@),
            Err(e) => store@.player_by_name(name@) is None && e@ == ErrorView::NotExist,
        },
{
    found_or_not_exist(Player::find_by_name(&name, store))
}

} // verus!
