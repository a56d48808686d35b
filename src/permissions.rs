use vstd::prelude::*;

verus! {

pub const CREATE_INVITE: u64 = 0x0000_0001;
pub const KICK_MEMBERS: u64 = 0x0000_0002;
pub const BAN_MEMBERS: u64 = 0x0000_0004;
pub const ADMINISTRATOR: u64 = 0x0000_0008;
pub const MANAGE_CHANNELS: u64 = 0x0000_0010;
pub const MANAGE_GUILD: u64 = 0x0000_0020;
pub const ADD_REACTIONS: u64 = 0x0000_0040;
pub const VIEW_AUDIT_LOG: u64 = 0x0000_0080;
pub const PRIORITY_SPEAKER: u64 = 0x0000_0100;
pub const STREAM: u64 = 0x0000_0200;
pub const VIEW_CHANNEL: u64 = 0x0000_0400;
pub const SEND_MESSAGES: u64 = 0x0000_0800;
pub const SEND_TTS_MESSAGES: u64 = 0x0000_1000;
pub const MANAGE_MESSAGES: u64 = 0x0000_2000;
pub const EMBED_LINKS: u64 = 0x0000_4000;
pub const ATTACH_FILES: u64 = 0x0000_8000;
pub const READ_MESSAGE_HISTORY: u64 = 0x0001_0000;
pub const MENTION_EVERYONE: u64 = 0x0002_0000;
pub const USE_EXTERNAL_EMOJIS: u64 = 0x0004_0000;
pub const VIEW_GUILD_INSIGHTS: u64 = 0x0008_0000;
pub const CONNECT: u64 = 0x0010_0000;
pub const SPEAK: u64 = 0x0020_0000;
pub const MUTE_MEMBERS: u64 = 0x0040_0000;
pub const DEAFEN_MEMBERS: u64 = 0x0080_0000;
pub const MOVE_MEMBERS: u64 = 0x0100_0000;
pub const USE_VAD: u64 = 0x0200_0000;
pub const CHANGE_NICKNAME: u64 = 0x0400_0000;
pub const MANAGE_NICKNAMES: u64 = 0x0800_0000;
pub const MANAGE_ROLES: u64 = 0x1000_0000;
pub const MANAGE_WEBHOOKS: u64 = 0x2000_0000;
pub const MANAGE_EMOJIS: u64 = 0x4000_0000;
pub const USE_SLASH_COMMANDS: u64 = 0x8000_0000;
pub const REQUEST_TO_SPEAK: u64 = 0x1_0000_0000;

/// Every flag that a permission set can hold.
pub const ALL_BITS: u64 = 0x1_FFFF_FFFF;

/// Flags that only make sense together with the Send Messages flag.
pub const PERMISSIONS_MESSAGING: u64 = ATTACH_FILES | EMBED_LINKS | MENTION_EVERYONE
    | SEND_TTS_MESSAGES;

/// Flags that only make sense for the guild as a whole, never for one channel.
pub const PERMISSIONS_ROOT: u64 = ADMINISTRATOR | BAN_MEMBERS | CHANGE_NICKNAME | KICK_MEMBERS
    | MANAGE_EMOJIS | MANAGE_GUILD | MANAGE_NICKNAMES | VIEW_AUDIT_LOG | VIEW_GUILD_INSIGHTS;

/// Flags that only make sense in a text channel.
pub const PERMISSIONS_TEXT: u64 = ADD_REACTIONS | ATTACH_FILES | EMBED_LINKS | MANAGE_MESSAGES
    | MENTION_EVERYONE | READ_MESSAGE_HISTORY | SEND_MESSAGES | SEND_TTS_MESSAGES
    | USE_EXTERNAL_EMOJIS;

/// Flags that only make sense in a voice channel.
pub const PERMISSIONS_VOICE: u64 = CONNECT | DEAFEN_MEMBERS | MOVE_MEMBERS | MUTE_MEMBERS
    | PRIORITY_SPEAKER | SPEAK | STREAM | USE_VAD;

/// The flag constants that the calculators use name flags only.
pub proof fn lemma_masks_within_all()
    ensures
        ADMINISTRATOR & !ALL_BITS == 0,
        VIEW_CHANNEL & !ALL_BITS == 0,
        SEND_MESSAGES & !ALL_BITS == 0,
        PERMISSIONS_MESSAGING & !ALL_BITS == 0,
        PERMISSIONS_ROOT & !ALL_BITS == 0,
        PERMISSIONS_TEXT & !ALL_BITS == 0,
        PERMISSIONS_VOICE & !ALL_BITS == 0,
{
    assert(ADMINISTRATOR & !ALL_BITS == 0) by (bit_vector);
    assert(VIEW_CHANNEL & !ALL_BITS == 0) by (bit_vector);
    assert(SEND_MESSAGES & !ALL_BITS == 0) by (bit_vector);
    assert(PERMISSIONS_MESSAGING & !ALL_BITS == 0) by (bit_vector);
    assert(PERMISSIONS_ROOT & !ALL_BITS == 0) by (bit_vector);
    assert(PERMISSIONS_TEXT & !ALL_BITS == 0) by (bit_vector);
    assert(PERMISSIONS_VOICE & !ALL_BITS == 0) by (bit_vector);
}

/// Whether every flag of `flags` is set in `bits`.
pub open spec fn has_all(bits: u64, flags: u64) -> bool {
    bits & flags == flags
}

/// A set of capability flags, stored as a bitmask over the flags above.
///
/// No bit outside `ALL_BITS` is ever set, so the encoding returned by `bits` is stable.
#[derive(Clone, Copy, Debug, PartialEq, Eq, Hash, Structural)]
pub struct Permissions {
    bits: u64,
}

impl View for Permissions {
    type V = u64;

    closed spec fn view(&self) -> u64 {
        self.bits
    }
}

impl Permissions {
    /// No bit outside `ALL_BITS` is set.
    #[verifier::type_invariant]
    pub open spec fn well_formed(self) -> bool {
        self@ & !ALL_BITS == 0
    }

    /// The set with no flag.
    pub fn empty() -> (r: Permissions)
        ensures
            r@ == 0,
    {
        assert(0u64 & !0x1_FFFF_FFFFu64 == 0) by (bit_vector);
        Permissions { bits: 0 }
    }

    /// The set with every flag.
    pub fn all() -> (r: Permissions)
        ensures
            r@ == ALL_BITS,
    {
        assert(0x1_FFFF_FFFFu64 & !0x1_FFFF_FFFFu64 == 0) by (bit_vector);
        Permissions { bits: ALL_BITS }
    }

    /// The set holding the flags of `bits`, with every bit that names no flag dropped.
    pub fn from_bits_truncate(bits: u64) -> (r: Permissions)
        ensures
            r@ == bits & ALL_BITS,
    {
        assert((bits & 0x1_FFFF_FFFFu64) & !0x1_FFFF_FFFFu64 == 0) by (bit_vector);
        Permissions { bits: bits & ALL_BITS }
    }

    /// The set of the flags named by `flags`, one of the constants of this module or a union
    /// of them.
    pub fn flags(flags: u64) -> (r: Permissions)
        requires
            flags & !ALL_BITS == 0,
        ensures
            r@ == flags,
    {
        Permissions { bits: flags }
    }

    /// The set encoded by `bits`, or `None` where `bits` holds a bit that names no flag.
    pub fn from_bits(bits: u64) -> (r: Option<Permissions>)
        ensures
            r is Some <==> bits & !ALL_BITS == 0,
            r is Some ==> r->Some_0@ == bits,
    {
        if bits & !ALL_BITS == 0 {
            Some(Permissions { bits })
        } else {
            None
        }
    }

    /// The stable integer encoding of the set.
    pub fn bits(&self) -> (r: u64)
        ensures
            r == self@,
    {
        self.bits
    }

    /// Whether the set holds no flag.
    pub fn is_empty(&self) -> (r: bool)
        ensures
            r == (self@ == 0),
    {
        self.bits == 0
    }

    /// Whether the set holds every flag.
    pub fn is_all(&self) -> (r: bool)
        ensures
            r == (self@ == ALL_BITS),
    {
        self.bits == ALL_BITS
    }

    /// Whether every flag of `other` is in the set.
    pub fn contains(&self, other: Permissions) -> (r: bool)
        ensures
            r == has_all(self@, other@),
    {
        self.bits & other.bits == other.bits
    }

    /// The flags that are in either set.
    pub fn union(self, other: Permissions) -> (r: Permissions)
        ensures
            r@ == self@ | other@,
    {
        proof {
            use_type_invariant(&self);
            use_type_invariant(&other);
            let (x, y) = (self.bits, other.bits);
            assert(x & !0x1_FFFF_FFFFu64 == 0 && y & !0x1_FFFF_FFFFu64 == 0 ==> (x | y)
                & !0x1_FFFF_FFFFu64 == 0) by (bit_vector);
        }
        Permissions { bits: self.bits | other.bits }
    }

    /// The flags of the set that are not in `other`.
    pub fn difference(self, other: Permissions) -> (r: Permissions)
        ensures
            r@ == self@ & !other@,
    {
        proof {
            use_type_invariant(&self);
            let (x, y) = (self.bits, other.bits);
            assert(x & !0x1_FFFF_FFFFu64 == 0 ==> (x & !y) & !0x1_FFFF_FFFFu64 == 0)
                by (bit_vector);
        }
        Permissions { bits: self.bits & !other.bits }
    }

    /// Adds the flags of `other` to the set.
    pub fn insert(&mut self, other: Permissions)
        ensures
            final(self)@ == old(self)@ | other@,
    {
        *self = self.union(other);
    }

    /// Takes the flags of `other` out of the set.
    pub fn remove(&mut self, other: Permissions)
        ensures
            final(self)@ == old(self)@ & !other@,
    {
        *self = self.difference(other);
    }
}

} // verus!
