//! An identity: the provider's user id, the internal id, the display name and
//! the packed role field.

use crate::role::{decode, encode, MainRole};
use vstd::prelude::*;

verus! {

/// An identity known to the site.
#[derive(Debug)]
pub struct Player {
    pub id: String,
    pub name: String,
    pub discord_id: u64,
    pub role: u64,
}

/// A `Player` as plain values.
pub struct PlayerView {
    pub id: Seq<char>,
    pub name: Seq<char>,
    pub discord_id: u64,
    pub role: u64,
}

impl View for Player {
    type V = PlayerView;

    open spec fn view(&self) -> PlayerView {
        PlayerView {
            id: self.id@,
            name: self.name@,
            discord_id: self.discord_id,
            role: self.role,
        }
    }
}

impl Clone for Player {
    fn clone(&self) -> (copy: Player)
        ensures
            copy@ == self@,
    {
        Player {
            id: self.id.clone(),
            name: self.name.clone(),
            discord_id: self.discord_id,
            role: self.role,
        }
    }
}

impl Player {
    /// The tier held in the low three bits of the role field.
    pub fn get_main_role(&self) -> (role: MainRole)
        ensures
            role == decode(self.role),
    {
        let field: u64 = self.role;
        let low: u64 = field & 7;
        assert(low <= 7) by (bit_vector)
            requires
                low == field & 7,
        ;
        MainRole::from(low as u8)
    }

    /// Replaces the tier in the low three bits of the role field and keeps
    /// every other bit and every other field.
    pub fn set_main_role(&mut self, role: MainRole)
        ensures
            final(self).role == encode(old(self).role, role),
            decode(final(self).role) == role,
            final(self).role & !7u64 == old(self).role & !7u64,
            final(self).id == old(self).id,
            final(self).name == old(self).name,
            final(self).discord_id == old(self).discord_id,
    {
        proof {
            crate::role::lemma_decode_encode(self.role, role);
        }
        self.role = self.role & !7u64 | (role.value() as u64);
    }

    /// A new identity with the `Default` tier and no other role bits.
    pub fn new(id: String, name: String, discord_id: u64) -> (player: Player)
        ensures
            player.id == id,
            player.name == name,
            player.discord_id == discord_id,
            player.role == 0,
            decode(player.role) == MainRole::Default,
    {
        assert(0u64 & 7 == 0) by (bit_vector);
        Player { id, name, discord_id, role: 0 }
    }
}

} // verus!
