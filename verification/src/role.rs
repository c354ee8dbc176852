//! The permission tier that is packed into the low three bits of a role field.

use vstd::prelude::*;

verus! {

/// Permission tier, in ascending privilege. The numeric code 6 is reserved and
/// belongs to no tier.
#[derive(Clone, Copy, Debug, PartialEq, Eq, Structural)]
pub enum MainRole {
    Default,
    Premium,
    TestModerator,
    Moderator,
    MainModerator,
    Developer,
    Admin,
}

impl MainRole {
    /// The numeric code of a tier.
    pub open spec fn code(self) -> u8 {
        match self {
            MainRole::Default => 0,
            MainRole::Premium => 1,
            MainRole::TestModerator => 2,
            MainRole::Moderator => 3,
            MainRole::MainModerator => 4,
            MainRole::Developer => 5,
            MainRole::Admin => 7,
        }
    }

    /// The tier that a code stands for once it is masked to three bits; the
    /// reserved code 6 falls back to `Default`.
    pub open spec fn of_code(value: u8) -> MainRole {
        let low = value & 7;
        if low == 1 {
            MainRole::Premium
        } else if low == 2 {
            MainRole::TestModerator
        } else if low == 3 {
            MainRole::Moderator
        } else if low == 4 {
            MainRole::MainModerator
        } else if low == 5 {
            MainRole::Developer
        } else if low == 7 {
            MainRole::Admin
        } else {
            MainRole::Default
        }
    }

    /// `self` satisfies a check for `required`: the two are equal, or `self`
    /// is not `Developer` and its code is at least that of `required`.
    pub open spec fn permits(self, required: MainRole) -> bool {
        required == self || (self != MainRole::Developer && self.code() >= required.code())
    }

    /// The moderating tiers. `Developer` is not among them.
    pub open spec fn moderates(self) -> bool {
        self == MainRole::TestModerator || self == MainRole::Moderator
            || self == MainRole::MainModerator || self == MainRole::Admin
    }

    /// The numeric code of this tier.
    pub fn value(self) -> (v: u8)
        ensures
            v == self.code(),
            v <= 7,
            v != 6,
    {
        match self {
            MainRole::Default => 0,
            MainRole::Premium => 1,
            MainRole::TestModerator => 2,
            MainRole::Moderator => 3,
            MainRole::MainModerator => 4,
            MainRole::Developer => 5,
            MainRole::Admin => 7,
        }
    }

    /// Whether a holder of `self` passes a check that asks for `role`.
    pub fn is_permitted(self, role: MainRole) -> (allowed: bool)
        ensures
            allowed == self.permits(role),
            role == self ==> allowed,
    {
        role == self || (self != MainRole::Developer && self.value() >= role.value())
    }

    /// Whether the tier is one of the moderating tiers.
    pub fn is_moderator(self) -> (yes: bool)
        ensures
            yes == self.moderates(),
    {
        match self {
            MainRole::TestModerator | MainRole::Moderator | MainRole::MainModerator
            | MainRole::Admin => true,
            _ => false,
        }
    }

    /// Whether the tier is `Developer` or `Admin`.
    pub fn is_developer(self) -> (yes: bool)
        ensures
            yes == (self == MainRole::Developer || self == MainRole::Admin),
    {
        match self {
            MainRole::Developer | MainRole::Admin => true,
            _ => false,
        }
    }

    /// Whether the tier is anything but `Default`.
    pub fn is_premium(self) -> (yes: bool)
        ensures
            yes == (self != MainRole::Default),
    {
        match self {
            MainRole::Default => false,
            _ => true,
        }
    }
}

impl From<u8> for MainRole {
    /// Decodes a tier from the low three bits of `value`.
    fn from(value: u8) -> (role: MainRole)
        ensures
            role == MainRole::of_code(value),
    {
        let low: u8 = value & 7;
        match low {
            1 => MainRole::Premium,
            2 => MainRole::TestModerator,
            3 => MainRole::Moderator,
            4 => MainRole::MainModerator,
            5 => MainRole::Developer,
            7 => MainRole::Admin,
            _ => MainRole::Default,
        }
    }
}

impl vstd::std_specs::convert::FromSpecImpl<u8> for MainRole {
    open spec fn obeys_from_spec() -> bool {
        true
    }

    open spec fn from_spec(value: u8) -> MainRole {
        MainRole::of_code(value)
    }
}

/// The tier held by a packed role field.
pub open spec fn decode(field: u64) -> MainRole {
    MainRole::of_code((field & 7) as u8)
}

/// The role field `field` with its tier bits replaced by the code of `tier`;
/// every other bit is kept.
pub open spec fn encode(field: u64, tier: MainRole) -> u64 {
    field & !7u64 | (tier.code() as u64)
}

/// Re-encoding the tier that a field decodes to leaves the tier bits as they
/// were. The reserved code 6 is left out: it decodes to `Default`, whose code
/// is 0.
pub proof fn lemma_encode_decode_keeps_tier_bits(field: u64)
    requires
        field & 7 != 6,
    ensures
        encode(field, decode(field)) & 7 == field & 7,
        encode(field, decode(field)) == field,
{
    let low = field & 7;
    assert(low <= 7) by (bit_vector)
        requires
            low == field & 7,
    ;
    assert(((low as u8) & 7) as u64 == low) by (bit_vector)
        requires
            low <= 7,
    ;
    let tier = decode(field);
    assert(tier.code() as u64 == low);
    assert((field & !7u64 | low) == field) by (bit_vector)
        requires
            low == field & 7,
    ;
}

/// Decoding after encoding returns the tier that was encoded, whatever the
/// field held before.
pub proof fn lemma_decode_encode(field: u64, tier: MainRole)
    ensures
        decode(encode(field, tier)) == tier,
        encode(field, tier) & !7u64 == field & !7u64,
{
    let c = tier.code() as u64;
    assert(c <= 7 && c != 6);
    assert((field & !7u64 | c) & 7 == c) by (bit_vector)
        requires
            c <= 7,
    ;
    assert((field & !7u64 | c) & !7u64 == field & !7u64) by (bit_vector)
        requires
            c <= 7,
    ;
    assert(((c as u8) & 7) as u64 == c) by (bit_vector)
        requires
            c <= 7,
    ;
}

/// Every tier satisfies a check for itself.
pub proof fn lemma_permits_reflexive(tier: MainRole)
    ensures
        tier.permits(tier),
{
}

} // verus!
