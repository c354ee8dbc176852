//! Authentication core of a community site: a bit-packed permission tier,
//! opaque bearer credentials bound to an external identity, the decisions of
//! an OAuth2 authorization-code exchange, and an in-memory identity and
//! credential store whose uniqueness rules are proved.

pub mod api;
mod entropy;
pub mod error;
pub mod oauth;
pub mod player;
pub mod role;
pub mod session;
pub mod store;
pub mod text;
pub mod token;

pub use crate::api::{find_player_by_id, find_player_by_name, found_or_not_exist};
pub use crate::error::{Error, ErrorResponse, StorageError};
pub use crate::oauth::{
    discord_api_url, DiscordOAuth, DiscordUser, ExchangeAction, ExchangeEvent, ExchangeState,
};
pub use crate::player::Player;
pub use crate::role::MainRole;
pub use crate::session::{login, reissue, resolve};
pub use crate::store::{QueryResult, Store};
pub use crate::text::to_upper_hex;
pub use crate::token::{AuthenticationToken, ENTROPY_BYTES};
