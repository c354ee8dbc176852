//! The identities and credentials that the site holds, with the rules that
//! keep them consistent: no two identities share an internal id or a display
//! name, and no two credentials share a token.

use crate::error::{Error, ErrorView, StorageError, StorageErrorView};
use crate::player::{Player, PlayerView};
use crate::token::{AuthenticationToken, AuthenticationTokenView};
use vstd::prelude::*;

verus! {

/// What a write did: the number of records it created, changed or removed.
#[derive(Debug)]
pub struct QueryResult {
    pub rows_affected: u64,
}

/// The identities and the credentials, each in the order of their creation.
pub struct Store {
    players: Vec<Player>,
    tokens: Vec<AuthenticationToken>,
}

/// A `Store` as plain values.
pub struct StoreView {
    pub players: Seq<PlayerView>,
    pub tokens: Seq<AuthenticationTokenView>,
}

impl StoreView {
    /// No two identities share an internal id or a display name, and no two
    /// credentials share a token.
    pub open spec fn wf(self) -> bool {
        &&& forall|i: int, j: int|
            0 <= i < j < self.players.len() ==> (#[trigger] self.players[i]).id != (
            #[trigger] self.players[j]).id
        &&& forall|i: int, j: int|
            0 <= i < j < self.players.len() ==> (#[trigger] self.players[i]).name != (
            #[trigger] self.players[j]).name
        &&& forall|i: int, j: int|
            0 <= i < j < self.tokens.len() ==> (#[trigger] self.tokens[i]).token != (
            #[trigger] self.tokens[j]).token
    }

    /// The identity at `i` has the internal id `id`.
    pub open spec fn id_at(self, id: Seq<char>, i: int) -> bool {
        0 <= i < self.players.len() && self.players[i].id == id
    }

    /// The identity at `i` has the display name `name`.
    pub open spec fn name_at(self, name: Seq<char>, i: int) -> bool {
        0 <= i < self.players.len() && self.players[i].name == name
    }

    /// The identity at `i` is the earliest one with the provider's id
    /// `discord_id`.
    pub open spec fn first_discord_at(self, discord_id: u64, i: int) -> bool {
        &&& 0 <= i < self.players.len()
        &&& self.players[i].discord_id == discord_id
        &&& forall|k: int| 0 <= k < i ==> (#[trigger] self.players[k]).discord_id != discord_id
    }

    /// The credential at `i` has the token `token`.
    pub open spec fn token_at(self, token: Seq<char>, i: int) -> bool {
        0 <= i < self.tokens.len() && self.tokens[i].token == token
    }

    /// Some identity has the internal id `id`.
    pub open spec fn has_id(self, id: Seq<char>) -> bool {
        exists|i: int| self.id_at(id, i)
    }

    /// Some identity has the display name `name`.
    pub open spec fn has_name(self, name: Seq<char>) -> bool {
        exists|i: int| self.name_at(name, i)
    }

    /// Some identity has the provider's id `discord_id`.
    pub open spec fn knows(self, discord_id: u64) -> bool {
        exists|i: int| self.first_discord_at(discord_id, i)
    }

    /// Some credential has the token `token`.
    pub open spec fn has_token(self, token: Seq<char>) -> bool {
        exists|i: int| self.token_at(token, i)
    }

    /// The identity with the internal id `id`.
    pub open spec fn player_by_id(self, id: Seq<char>) -> Option<PlayerView> {
        if self.has_id(id) {
            Some(self.players[choose|i: int| self.id_at(id, i)])
        } else {
            None
        }
    }

    /// The identity with the display name `name`.
    pub open spec fn player_by_name(self, name: Seq<char>) -> Option<PlayerView> {
        if self.has_name(name) {
            Some(self.players[choose|i: int| self.name_at(name, i)])
        } else {
            None
        }
    }

    /// The earliest identity with the provider's id `discord_id`.
    pub open spec fn player_by_discord_id(self, discord_id: u64) -> Option<PlayerView> {
        if self.knows(discord_id) {
            Some(self.players[choose|i: int| self.first_discord_at(discord_id, i)])
        } else {
            None
        }
    }

    /// The credential with the token `token`.
    pub open spec fn credential(self, token: Seq<char>) -> Option<AuthenticationTokenView> {
        if self.has_token(token) {
            Some(self.tokens[choose|i: int| self.token_at(token, i)])
        } else {
            None
        }
    }

    /// The identity that the credential with the token `token` belongs to:
    /// the credential joined to the identities by the provider's id.
    pub open spec fn player_by_token(self, token: Seq<char>) -> Option<PlayerView> {
        match self.credential(token) {
            Some(found) => self.player_by_discord_id(found.discord_id),
            None => None,
        }
    }

    /// The store with one more identity.
    pub open spec fn with_player(self, player: PlayerView) -> StoreView {
        StoreView { players: self.players.push(player), tokens: self.tokens }
    }

    /// The store with one more credential.
    pub open spec fn with_credential(self, credential: AuthenticationTokenView) -> StoreView {
        StoreView { players: self.players, tokens: self.tokens.push(credential) }
    }

    /// The store without any credential of `discord_id`.
    pub open spec fn without_credentials_of(self, discord_id: u64) -> StoreView {
        StoreView {
            players: self.players,
            tokens: self.tokens.filter(|c: AuthenticationTokenView| c.discord_id != discord_id),
        }
    }

    /// The store in which the identity with the internal id of `player`, if
    /// there is one, has the name, provider's id and role of `player`.
    pub open spec fn with_update(self, player: PlayerView) -> StoreView {
        StoreView {
            players: Seq::new(
                self.players.len(),
                |i: int|
                    if self.players[i].id == player.id {
                        player
                    } else {
                        self.players[i]
                    },
            ),
            tokens: self.tokens,
        }
    }

    /// An identity other than the one with the internal id `id` has the
    /// display name `name`.
    pub open spec fn name_taken_by_other(self, id: Seq<char>, name: Seq<char>) -> bool {
        exists|i: int| #[trigger] self.name_at(name, i) && self.players[i].id != id
    }
}

/// After the credentials of an id are removed, none of that id is left.
pub proof fn lemma_no_credential_left(store: StoreView, discord_id: u64, i: int)
    requires
        0 <= i < store.without_credentials_of(discord_id).tokens.len(),
    ensures
        store.without_credentials_of(discord_id).tokens[i].discord_id != discord_id,
        store.tokens.contains(store.without_credentials_of(discord_id).tokens[i]),
{
    let keep = |c: AuthenticationTokenView| c.discord_id != discord_id;
    let left = store.tokens.filter(keep);
    store.tokens.lemma_filter_pred(keep, i);
    assert(left.contains(left[i]));
    store.tokens.lemma_filter_contains_rev(keep, left[i]);
}

/// A credential that was revoked is not found again: once the credentials of
/// its id are removed, looking up its token finds neither the credential nor
/// an identity.
pub proof fn lemma_revoked_credential_not_found(
    store: StoreView,
    credential: AuthenticationTokenView,
)
    requires
        store.wf(),
        store.tokens.contains(credential),
    ensures
        store.without_credentials_of(credential.discord_id).credential(credential.token) is None,
        store.without_credentials_of(credential.discord_id).player_by_token(credential.token)
            is None,
{
    let after = store.without_credentials_of(credential.discord_id);
    if after.has_token(credential.token) {
        let i = choose|i: int| after.token_at(credential.token, i);
        lemma_no_credential_left(store, credential.discord_id, i);
        let m = choose|m: int| 0 <= m < store.tokens.len() && store.tokens[m] == after.tokens[i];
        let n = choose|n: int| 0 <= n < store.tokens.len() && store.tokens[n] == credential;
        assert(store.tokens[m].token == store.tokens[n].token);
        assert(m == n);
    }
}

/// Removing the credentials of an id twice is the same as removing them once.
pub proof fn lemma_revoke_idempotent(store: StoreView, discord_id: u64)
    ensures
        store.without_credentials_of(discord_id).without_credentials_of(discord_id)
            == store.without_credentials_of(discord_id),
{
    let keep = |c: AuthenticationTokenView| c.discord_id != discord_id;
    lemma_filter_twice(store.tokens, keep);
}

/// Filtering a sequence that is already filtered changes nothing.
proof fn lemma_filter_twice<A>(s: Seq<A>, keep: spec_fn(A) -> bool)
    ensures
        s.filter(keep).filter(keep) == s.filter(keep),
    decreases s.len(),
{
    reveal(Seq::filter);
    if s.len() > 0 {
        let rest = s.drop_last().filter(keep);
        lemma_filter_twice(s.drop_last(), keep);
        if keep(s.last()) {
            assert(rest.push(s.last()).drop_last() =~= rest);
        }
    }
}

/// Removing credentials keeps the rules of the store.
pub proof fn lemma_revoke_keeps_wf(store: StoreView, discord_id: u64)
    requires
        store.wf(),
    ensures
        store.without_credentials_of(discord_id).wf(),
    decreases store.tokens.len(),
{
    reveal(Seq::filter);
    let keep = |c: AuthenticationTokenView| c.discord_id != discord_id;
    if store.tokens.len() > 0 {
        let shorter = StoreView { players: store.players, tokens: store.tokens.drop_last() };
        lemma_revoke_keeps_wf(shorter, discord_id);
        let rest = shorter.tokens.filter(keep);
        let after = store.without_credentials_of(discord_id);
        assert forall|i: int, j: int| 0 <= i < j < after.tokens.len() implies (
        #[trigger] after.tokens[i]).token != (#[trigger] after.tokens[j]).token by {
            if j == rest.len() {
                lemma_no_credential_left(shorter, discord_id, i);
                let m = choose|m: int|
                    0 <= m < shorter.tokens.len() && shorter.tokens[m] == rest[i];
                assert(store.tokens[m].token != store.tokens[store.tokens.len() - 1].token);
            } else {
                assert(rest[i].token != rest[j].token);
            }
        }
    }
}

impl View for Store {
    type V = StoreView;

    closed spec fn view(&self) -> StoreView {
        StoreView {
            players: self.players@.map_values(|p: Player| p@),
            tokens: self.tokens@.map_values(|c: AuthenticationToken| c@),
        }
    }
}

impl Store {
    /// Every store keeps the rules of `StoreView::wf`.
    #[verifier::type_invariant]
    pub open spec fn consistent(self) -> bool {
        self@.wf()
    }

    /// An empty store.
    pub fn new() -> (store: Store)
        ensures
            store@.players.len() == 0,
            store@.tokens.len() == 0,
            store@.wf(),
    {
        Store { players: Vec::new(), tokens: Vec::new() }
    }

    /// The position of the identity with the internal id `id`.
    fn position_of_id(&self, id: &String) -> (found: Option<usize>)
        ensures
            match found {
                Some(i) => self@.id_at(id@, i as int),
                None => !self@.has_id(id@),
            },
    {
        let mut i: usize = 0;
        while i < self.players.len()
            invariant
                i <= self.players.len(),
                forall|k: int| 0 <= k < i ==> !self@.id_at(id@, k),
            decreases self.players.len() - i,
        {
            if self.players[i].id == *id {
                return Some(i);
            }
            i = i + 1;
        }
        None
    }

    /// The position of the identity with the display name `name`.
    fn position_of_name(&self, name: &String) -> (found: Option<usize>)
        ensures
            match found {
                Some(i) => self@.name_at(name@, i as int),
                None => !self@.has_name(name@),
            },
    {
        let mut i: usize = 0;
        while i < self.players.len()
            invariant
                i <= self.players.len(),
                forall|k: int| 0 <= k < i ==> !self@.name_at(name@, k),
            decreases self.players.len() - i,
        {
            if self.players[i].name == *name {
                return Some(i);
            }
            i = i + 1;
        }
        None
    }

    /// The position of the earliest identity with the provider's id
    /// `discord_id`.
    fn position_of_discord_id(&self, discord_id: u64) -> (found: Option<usize>)
        ensures
            match found {
                Some(i) => self@.first_discord_at(discord_id, i as int),
                None => !self@.knows(discord_id),
            },
    {
        let mut i: usize = 0;
        while i < self.players.len()
            invariant
                i <= self.players.len(),
                forall|k: int| 0 <= k < i ==> (#[trigger] self@.players[k]).discord_id != discord_id,
            decreases self.players.len() - i,
        {
            if self.players[i].discord_id == discord_id {
                return Some(i);
            }
            i = i + 1;
        }
        None
    }

    /// The position of the credential with the token `token`.
    fn position_of_token(&self, token: &String) -> (found: Option<usize>)
        ensures
            match found {
                Some(i) => self@.token_at(token@, i as int),
                None => !self@.has_token(token@),
            },
    {
        let mut i: usize = 0;
        while i < self.tokens.len()
            invariant
                i <= self.tokens.len(),
                forall|k: int| 0 <= k < i ==> !self@.token_at(token@, k),
            decreases self.tokens.len() - i,
        {
            if self.tokens[i].token == *token {
                return Some(i);
            }
            i = i + 1;
        }
        None
    }

    /// Whether an identity other than the one at `own` has the display name
    /// `name`.
    fn name_held_by_other(&self, own: usize, name: &String) -> (taken: bool)
        requires
            own < self@.players.len(),
        ensures
            taken == self@.name_taken_by_other(self@.players[own as int].id, name@),
    {
        proof {
            use_type_invariant(self);
        }
        let ghost id = self@.players[own as int].id;
        let mut i: usize = 0;
        while i < self.players.len()
            invariant
                i <= self.players.len(),
                own < self@.players.len(),
                id == self@.players[own as int].id,
                self@.wf(),
                forall|k: int|
                    0 <= k < i ==> !(#[trigger] self@.name_at(name@, k) && self@.players[k].id
                        != id),
            decreases self.players.len() - i,
        {
            if i != own && self.players[i].name == *name {
                assert(self@.name_at(name@, i as int));
                assert(self@.players[i as int].id != id);
                return true;
            }
            i = i + 1;
        }
        false
    }

    /// The number of identities.
    pub fn player_count(&self) -> (count: usize)
        ensures
            count == self@.players.len(),
    {
        self.players.len()
    }

    /// The number of credentials.
    pub fn token_count(&self) -> (count: usize)
        ensures
            count == self@.tokens.len(),
    {
        self.tokens.len()
    }
}

impl Player {
    /// The identity with the internal id `id`, if there is one.
    pub fn find_by_id(id: &String, store: &Store) -> (found: Option<Player>)
        ensures
            match found {
                Some(player) => store@.player_by_id(id@) == Some(player@),
                None => store@.player_by_id(id@) is None,
            },
    {
        proof {
            use_type_invariant(store);
        }
        match store.position_of_id(id) {
            Some(i) => {
                let player = store.players[i].clone();
                proof {
                    let j = choose|j: int| store@.id_at(id@, j);
                    assert(store@.id_at(id@, i as int));
                    assert(j == i);
                }
                Some(player)
            },
            None => None,
        }
    }

    /// The identity with the display name `name`, if there is one.
    pub fn find_by_name(name: &String, store: &Store) -> (found: Option<Player>)
        ensures
            match found {
                Some(player) => store@.player_by_name(name@) == Some(player@),
                None => store@.player_by_name(name@) is None,
            },
    {
        proof {
            use_type_invariant(store);
        }
        match store.position_of_name(name) {
            Some(i) => {
                let player = store.players[i].clone();
                proof {
                    let j = choose|j: int| store@.name_at(name@, j);
                    assert(store@.name_at(name@, i as int));
                    assert(j == i);
                }
                Some(player)
            },
            None => None,
        }
    }

    /// The earliest identity with the provider's id `id`, if there is one.
    pub fn find_by_discord_id(id: &u64, store: &Store) -> (found: Option<Player>)
        ensures
            match found {
                Some(player) => store@.player_by_discord_id(*id) == Some(player@),
                None => store@.player_by_discord_id(*id) is None,
            },
    {
        match store.position_of_discord_id(*id) {
            Some(i) => {
                let player = store.players[i].clone();
                proof {
                    let j = choose|j: int| store@.first_discord_at(*id, j);
                    assert(store@.first_discord_at(*id, i as int));
                    assert(j == i);
                }
                Some(player)
            },
            None => None,
        }
    }

    /// The identity that the credential with the token `token` belongs to;
    /// none if the token is unknown or no identity has the credential's id.
    pub fn find_by_token(token: &String, store: &Store) -> (found: Option<Player>)
        ensures
            match found {
                Some(player) => store@.player_by_token(token@) == Some(player@),
                None => store@.player_by_token(token@) is None,
            },
    {
        match AuthenticationToken::find_by_token(token, store) {
            Some(credential) => Player::find_by_discord_id(&credential.discord_id, store),
            None => None,
        }
    }

    /// Stores this identity. Fails with `PlayerAlreadyExists`, naming this
    /// identity's id and name, exactly when an identity with the same id or
    /// the same name is stored; the store is then left as it was.
    pub fn insert(&self, store: &mut Store) -> (outcome: Result<QueryResult, Error>)
        ensures
            final(store)@.wf(),
            match outcome {
                Ok(done) => !old(store)@.has_id(self@.id) && !old(store)@.has_name(self@.name)
                    && final(store)@ == old(store)@.with_player(self@) && done.rows_affected == 1,
                Err(e) => (old(store)@.has_id(self@.id) || old(store)@.has_name(self@.name))
                    && e@ == (ErrorView::PlayerAlreadyExists { id: self@.id, name: self@.name })
                    && final(store)@ == old(store)@,
            },
    {
        proof {
            use_type_invariant(&*store);
        }
        let same_id = store.position_of_id(&self.id);
        let same_name = store.position_of_name(&self.name);
        if same_id.is_some() || same_name.is_some() {
            return Err(Error::PlayerAlreadyExists { id: self.id.clone(), name: self.name.clone() });
        }
        let ghost before = store@;
        let copy = self.clone();
        proof {
            let after = before.with_player(self@);
            assert forall|i: int, j: int| 0 <= i < j < after.players.len() implies (
            #[trigger] after.players[i]).id != (#[trigger] after.players[j]).id
                && after.players[i].name != after.players[j].name by {
                if j == before.players.len() {
                    assert(!before.id_at(self@.id, i));
                    assert(!before.name_at(self@.name, i));
                }
            }
            assert(before.players.push(copy@) =~= store.players@.push(copy).map_values(
                |p: Player| p@,
            ));
        }
        let mut players: Vec<Player> = Vec::new();
        core::mem::swap(&mut store.players, &mut players);
        players.push(copy);
        store.players = players;
        Ok(QueryResult { rows_affected: 1 })
    }

    /// Writes the name, provider's id and role of this identity over the
    /// stored identity with the same internal id. With no such identity
    /// nothing is written and no record counts as affected. Fails with a
    /// uniqueness violation exactly when there is such an identity and another
    /// one already has this name; the store is then left as it was.
    pub fn update(&self, store: &mut Store) -> (outcome: Result<QueryResult, Error>)
        ensures
            final(store)@.wf(),
            match outcome {
                Ok(done) => !(old(store)@.has_id(self@.id) && old(store)@.name_taken_by_other(
                    self@.id,
                    self@.name,
                )) && final(store)@ == old(store)@.with_update(self@) && done.rows_affected == (
                if old(store)@.has_id(self@.id) {
                    1u64
                } else {
                    0u64
                }),
                Err(e) => old(store)@.has_id(self@.id) && old(store)@.name_taken_by_other(
                    self@.id,
                    self@.name,
                ) && e@ == ErrorView::SQLX(StorageErrorView::UniqueViolation) && final(store)@
                    == old(store)@,
            },
    {
        proof {
            use_type_invariant(&*store);
        }
        let ghost before = store@;
        match store.position_of_id(&self.id) {
            None => {
                assert(before.with_update(self@).players =~= before.players) by {
                    assert forall|i: int| 0 <= i < before.players.len() implies before.players[i].id
                        != self@.id by {
                        assert(!before.id_at(self@.id, i));
                    }
                }
                Ok(QueryResult { rows_affected: 0 })
            },
            Some(own) => {
                if store.name_held_by_other(own, &self.name) {
                    return Err(Error::SQLX(StorageError::UniqueViolation));
                }
                let copy = self.clone();
                proof {
                    let after = before.with_update(self@);
                    assert forall|i: int| 0 <= i < before.players.len() && i != own implies (
                    #[trigger] before.players[i]).id != self@.id && before.players[i].name
                        != self@.name by {
                        assert(before.id_at(self@.id, own as int));
                        if before.players[i].name == self@.name {
                            assert(before.name_at(self@.name, i));
                        }
                    }
                    assert(after.players =~= before.players.update(own as int, self@));
                    assert(before.players.update(own as int, copy@) =~= store.players@.update(
                        own as int,
                        copy,
                    ).map_values(|p: Player| p@));
                    assert(after.wf());
                }
                let mut players: Vec<Player> = Vec::new();
                core::mem::swap(&mut store.players, &mut players);
                players.set(own, copy);
                store.players = players;
                Ok(QueryResult { rows_affected: 1 })
            },
        }
    }
}

impl AuthenticationToken {
    /// The credential with the token `token`, if there is one.
    pub fn find_by_token(token: &String, store: &Store) -> (found: Option<AuthenticationToken>)
        ensures
            match found {
                Some(credential) => store@.credential(token@) == Some(credential@),
                None => store@.credential(token@) is None,
            },
    {
        proof {
            use_type_invariant(store);
        }
        match store.position_of_token(token) {
            Some(i) => {
                let credential = store.tokens[i].clone();
                proof {
                    let j = choose|j: int| store@.token_at(token@, j);
                    assert(store@.token_at(token@, i as int));
                    assert(j == i);
                }
                Some(credential)
            },
            None => None,
        }
    }

    /// Stores this credential. Fails with a uniqueness violation exactly when
    /// its token is already stored, and otherwise with a foreign-key violation
    /// exactly when no identity has its provider's id; the store is then left
    /// as it was.
    pub fn insert(&self, store: &mut Store) -> (outcome: Result<QueryResult, Error>)
        ensures
            final(store)@.wf(),
            match outcome {
                Ok(done) => !old(store)@.has_token(self@.token) && old(store)@.knows(
                    self@.discord_id,
                ) && final(store)@ == old(store)@.with_credential(self@) && done.rows_affected
                    == 1,
                Err(e) => final(store)@ == old(store)@ && if old(store)@.has_token(self@.token) {
                    e@ == ErrorView::SQLX(StorageErrorView::UniqueViolation)
                } else {
                    !old(store)@.knows(self@.discord_id) && e@ == ErrorView::SQLX(
                        StorageErrorView::ForeignKeyViolation,
                    )
                },
            },
    {
        proof {
            use_type_invariant(&*store);
        }
        if store.position_of_token(&self.token).is_some() {
            return Err(Error::SQLX(StorageError::UniqueViolation));
        }
        if store.position_of_discord_id(self.discord_id).is_none() {
            return Err(Error::SQLX(StorageError::ForeignKeyViolation));
        }
        let ghost before = store@;
        let copy = self.clone();
        proof {
            let after = before.with_credential(self@);
            assert forall|i: int, j: int| 0 <= i < j < after.tokens.len() implies (
            #[trigger] after.tokens[i]).token != (#[trigger] after.tokens[j]).token by {
                if j == before.tokens.len() {
                    assert(!before.token_at(self@.token, i));
                }
            }
            assert(before.tokens.push(copy@) =~= store.tokens@.push(copy).map_values(
                |c: AuthenticationToken| c@,
            ));
        }
        let mut tokens: Vec<AuthenticationToken> = Vec::new();
        core::mem::swap(&mut store.tokens, &mut tokens);
        tokens.push(copy);
        store.tokens = tokens;
        Ok(QueryResult { rows_affected: 1 })
    }

    /// Removes every credential of the provider's id `id` and reports how
    /// many there were. Removing none is no failure.
    pub fn delete_by_id(id: u64, store: &mut Store) -> (done: QueryResult)
        ensures
            final(store)@.wf(),
            final(store)@ == old(store)@.without_credentials_of(id),
            done.rows_affected == old(store)@.tokens.len() - final(store)@.tokens.len(),
    {
        proof {
            use_type_invariant(&*store);
        }
        let ghost before = store@;
        let ghost keep = |c: AuthenticationTokenView| c.discord_id != id;
        let mut kept: Vec<AuthenticationToken> = Vec::new();
        let mut i: usize = 0;
        while i < store.tokens.len()
            invariant
                i <= store.tokens.len(),
                store@ == before,
                keep == |c: AuthenticationTokenView| c.discord_id != id,
                kept@.map_values(|c: AuthenticationToken| c@) == before.tokens.take(i as int).filter(
                    keep,
                ),
                kept.len() <= i,
            decreases store.tokens.len() - i,
        {
            let ghost kept_before = kept@;
            proof {
                reveal(Seq::filter);
                assert(before.tokens.take(i + 1).drop_last() =~= before.tokens.take(i as int));
            }
            if store.tokens[i].discord_id != id {
                let copy = store.tokens[i].clone();
                proof {
                    assert(kept_before.push(copy).map_values(|c: AuthenticationToken| c@)
                        =~= kept_before.map_values(|c: AuthenticationToken| c@).push(copy@));
                }
                kept.push(copy);
            }
            i = i + 1;
        }
        proof {
            assert(before.tokens.take(i as int) =~= before.tokens);
            lemma_revoke_keeps_wf(before, id);
        }
        let removed = store.tokens.len() - kept.len();
        store.tokens = kept;
        QueryResult { rows_affected: removed as u64 }
    }
}

} // verus!
