//! Bearer credentials: an opaque token string bound to the provider's user
//! id. The token starts with the id in upper-case hexadecimal and goes on
//! with two filler symbols for every byte of entropy.

use crate::entropy::fill_random;
use crate::error::Error;
use crate::text::{lemma_upper_hex_injective, to_upper_hex, upper_hex};
use vstd::prelude::*;

verus! {

/// Number of random bytes that go into a fresh token: half of 128, less the
/// eight bytes of the id.
pub const ENTROPY_BYTES: usize = 56;

/// A bearer credential.
#[derive(Debug)]
pub struct AuthenticationToken {
    pub discord_id: u64,
    pub token: String,
}

/// An `AuthenticationToken` as plain values.
pub struct AuthenticationTokenView {
    pub discord_id: u64,
    pub token: Seq<char>,
}

impl View for AuthenticationToken {
    type V = AuthenticationTokenView;

    open spec fn view(&self) -> AuthenticationTokenView {
        AuthenticationTokenView { discord_id: self.discord_id, token: self.token@ }
    }
}

impl Clone for AuthenticationToken {
    fn clone(&self) -> (copy: AuthenticationToken)
        ensures
            copy@ == self@,
    {
        AuthenticationToken { discord_id: self.discord_id, token: self.token.clone() }
    }
}

/// The symbol of the 64-symbol alphabet at index `value`: `a` to `z`, `A` to
/// `Z`, `0` to `9`, then `[`, and `]` for 63 and every index above it.
pub open spec fn symbol(value: u8) -> char {
    if value <= 25 {
        (97 + value) as char
    } else if value <= 51 {
        (65 + (value - 26)) as char
    } else if value <= 61 {
        (48 + (value - 52)) as char
    } else if value == 62 {
        '['
    } else {
        ']'
    }
}

/// The two filler symbols that one byte of entropy gives: the symbol of its
/// low six bits, then the symbol of its high two bits.
pub open spec fn filler_pair(byte: u8) -> Seq<char> {
    seq![symbol(byte & 63), symbol(byte >> 6)]
}

/// The filler that a run of entropy bytes gives, two symbols per byte.
pub open spec fn filler(bytes: Seq<u8>) -> Seq<char>
    decreases bytes.len(),
{
    if bytes.len() == 0 {
        Seq::empty()
    } else {
        filler(bytes.drop_last()) + filler_pair(bytes.last())
    }
}

/// The token string for an id and a run of entropy bytes.
pub open spec fn token_text(discord_id: u64, bytes: Seq<u8>) -> Seq<char> {
    upper_hex(discord_id as nat) + filler(bytes)
}

/// The filler is twice as long as the entropy.
pub proof fn lemma_filler_len(bytes: Seq<u8>)
    ensures
        filler(bytes).len() == 2 * bytes.len(),
    decreases bytes.len(),
{
    if bytes.len() != 0 {
        lemma_filler_len(bytes.drop_last());
    }
}

/// Tokens made for different ids from the same amount of entropy differ,
/// whatever the random bytes are.
pub proof fn lemma_tokens_of_distinct_ids_differ(
    first_id: u64,
    first_bytes: Seq<u8>,
    second_id: u64,
    second_bytes: Seq<u8>,
)
    requires
        first_id != second_id,
        first_bytes.len() == second_bytes.len(),
    ensures
        token_text(first_id, first_bytes) != token_text(second_id, second_bytes),
{
    let first = token_text(first_id, first_bytes);
    let second = token_text(second_id, second_bytes);
    if first == second {
        let a = upper_hex(first_id as nat);
        let b = upper_hex(second_id as nat);
        lemma_filler_len(first_bytes);
        lemma_filler_len(second_bytes);
        assert(first.len() == a.len() + filler(first_bytes).len());
        assert(second.len() == b.len() + filler(second_bytes).len());
        assert(a.len() == b.len());
        assert(a =~= first.take(a.len() as int));
        assert(b =~= second.take(b.len() as int));
        lemma_upper_hex_injective(first_id as nat, second_id as nat);
    }
}

impl AuthenticationToken {
    /// The symbol of the alphabet at index `value`.
    pub fn choose_char(value: u8) -> (c: char)
        ensures
            c == symbol(value),
    {
        if value <= 25 {
            (value + 97) as char
        } else if value <= 51 {
            ((value - 26) + 65) as char
        } else if value <= 61 {
            ((value - 52) + 48) as char
        } else if value == 62 {
            '['
        } else {
            ']'
        }
    }

    /// The credential for `discord_id` whose filler comes from `bytes`.
    pub fn from_entropy(discord_id: u64, bytes: &Vec<u8>) -> (credential: AuthenticationToken)
        ensures
            credential@.discord_id == discord_id,
            credential@.token == token_text(discord_id, bytes@),
    {
        let mut token = to_upper_hex(discord_id);
        let mut i: usize = 0;
        while i < bytes.len()
            invariant
                i <= bytes.len(),
                token@ == token_text(discord_id, bytes@.take(i as int)),
            decreases bytes.len() - i,
        {
            let byte = bytes[i];
            let low: u8 = byte & 63;
            let high: u8 = byte >> 6;
            proof {
                let done = bytes@.take(i as int);
                let next = bytes@.take(i + 1);
                assert(next.drop_last() =~= done);
                assert(next.last() == byte);
                assert(filler(next) == filler(done) + filler_pair(byte));
                assert(token@.push(symbol(low)).push(symbol(high)) =~= token_text(
                    discord_id,
                    next,
                ));
            }
            token.push(Self::choose_char(low));
            token.push(Self::choose_char(high));
            i = i + 1;
        }
        assert(bytes@.take(i as int) =~= bytes@);
        AuthenticationToken { discord_id, token }
    }

    /// A fresh credential for `discord_id`, its filler drawn from the
    /// system's secure random source. Without that source there is no
    /// credential: the result is `Error::Entropy`.
    pub fn new(discord_id: u64) -> (minted: Result<AuthenticationToken, Error>)
        ensures
            match minted {
                Ok(credential) => credential@.discord_id == discord_id && exists|bytes: Seq<u8>|
                    bytes.len() == ENTROPY_BYTES && credential@.token == #[trigger] token_text(
                        discord_id,
                        bytes,
                    ),
                Err(e) => e is Entropy,
            },
    {
        let mut bytes: Vec<u8> = Vec::new();
        while bytes.len() < ENTROPY_BYTES
            invariant
                bytes.len() <= ENTROPY_BYTES,
            decreases ENTROPY_BYTES - bytes.len(),
        {
            bytes.push(0);
        }
        match fill_random(&mut bytes) {
            Ok(()) => {
                let credential = Self::from_entropy(discord_id, &bytes);
                Ok(credential)
            },
            Err(_) => Err(Error::Entropy),
        }
    }
}

} // verus!
