//! Discord permissions as a set of flags

use vstd::prelude::*;
use crate::text::parse_unsigned;
use crate::text::parse_unsigned_exec;

verus! {


/// Bitflags for Discord permissions
#[derive(Clone, Copy, Debug, PartialEq, Eq, Hash, Structural)]
pub struct Permissions {
    bits: u64,
}

impl Permissions {
    /// The bits of the set.
    pub closed spec fn value(self) -> u64 {
        self.bits
    }

    /// The bits of every flag that this type names.
    pub open spec fn known_bits() -> u64 {
        266287972351u64
    }

    /// The `CREATE_INSTANT_INVITE` flag
    #[allow(non_snake_case)]
    pub fn CREATE_INSTANT_INVITE() -> (r: Self)
        ensures
            r.value() == 1u64,
    {
        Permissions { bits: 1u64 }
    }

    /// The `KICK_MEMBERS` flag
    #[allow(non_snake_case)]
    pub fn KICK_MEMBERS() -> (r: Self)
        ensures
            r.value() == 2u64,
    {
        Permissions { bits: 2u64 }
    }

    /// The `BAN_MEMBERS` flag
    #[allow(non_snake_case)]
    pub fn BAN_MEMBERS() -> (r: Self)
        ensures
            r.value() == 4u64,
    {
        Permissions { bits: 4u64 }
    }

    /// The `ADMINISTRATOR` flag
    #[allow(non_snake_case)]
    pub fn ADMINISTRATOR() -> (r: Self)
        ensures
            r.value() == 8u64,
    {
        Permissions { bits: 8u64 }
    }

    /// The `MANAGE_CHANNELS` flag
    #[allow(non_snake_case)]
    pub fn MANAGE_CHANNELS() -> (r: Self)
        ensures
            r.value() == 16u64,
    {
        Permissions { bits: 16u64 }
    }

    /// The `MANAGE_GUILD` flag
    #[allow(non_snake_case)]
    pub fn MANAGE_GUILD() -> (r: Self)
        ensures
            r.value() == 32u64,
    {
        Permissions { bits: 32u64 }
    }

    /// The `ADD_REACTIONS` flag
    #[allow(non_snake_case)]
    pub fn ADD_REACTIONS() -> (r: Self)
        ensures
            r.value() == 64u64,
    {
        Permissions { bits: 64u64 }
    }

    /// The `VIEW_AUDIT_LOG` flag
    #[allow(non_snake_case)]
    pub fn VIEW_AUDIT_LOG() -> (r: Self)
        ensures
            r.value() == 128u64,
    {
        Permissions { bits: 128u64 }
    }

    /// The `PRIORITY_SPEAKER` flag
    #[allow(non_snake_case)]
    pub fn PRIORITY_SPEAKER() -> (r: Self)
        ensures
            r.value() == 256u64,
    {
        Permissions { bits: 256u64 }
    }

    /// The `STREAM` flag
    #[allow(non_snake_case)]
    pub fn STREAM() -> (r: Self)
        ensures
            r.value() == 512u64,
    {
        Permissions { bits: 512u64 }
    }

    /// The `VIEW_CHANNEL` flag
    #[allow(non_snake_case)]
    pub fn VIEW_CHANNEL() -> (r: Self)
        ensures
            r.value() == 1024u64,
    {
        Permissions { bits: 1024u64 }
    }

    /// The `SEND_MESSAGES` flag
    #[allow(non_snake_case)]
    pub fn SEND_MESSAGES() -> (r: Self)
        ensures
            r.value() == 2048u64,
    {
        Permissions { bits: 2048u64 }
    }

    /// The `SEND_TTS_MESSAGES` flag
    #[allow(non_snake_case)]
    pub fn SEND_TTS_MESSAGES() -> (r: Self)
        ensures
            r.value() == 4096u64,
    {
        Permissions { bits: 4096u64 }
    }

    /// The `MANAGE_MESSAGES` flag
    #[allow(non_snake_case)]
    pub fn MANAGE_MESSAGES() -> (r: Self)
        ensures
            r.value() == 8192u64,
    {
        Permissions { bits: 8192u64 }
    }

    /// The `EMBED_LINKS` flag
    #[allow(non_snake_case)]
    pub fn EMBED_LINKS() -> (r: Self)
        ensures
            r.value() == 16384u64,
    {
        Permissions { bits: 16384u64 }
    }

    /// The `ATTACH_FILES` flag
    #[allow(non_snake_case)]
    pub fn ATTACH_FILES() -> (r: Self)
        ensures
            r.value() == 32768u64,
    {
        Permissions { bits: 32768u64 }
    }

    /// The `READ_MESSAGE_HISTORY` flag
    #[allow(non_snake_case)]
    pub fn READ_MESSAGE_HISTORY() -> (r: Self)
        ensures
            r.value() == 65536u64,
    {
        Permissions { bits: 65536u64 }
    }

    /// The `MENTION_EVERYONE` flag
    #[allow(non_snake_case)]
    pub fn MENTION_EVERYONE() -> (r: Self)
        ensures
            r.value() == 131072u64,
    {
        Permissions { bits: 131072u64 }
    }

    /// The `USE_EXTERNAL_EMOJIS` flag
    #[allow(non_snake_case)]
    pub fn USE_EXTERNAL_EMOJIS() -> (r: Self)
        ensures
            r.value() == 262144u64,
    {
        Permissions { bits: 262144u64 }
    }

    /// The `VIEW_GUILD_INSIGHTS` flag
    #[allow(non_snake_case)]
    pub fn VIEW_GUILD_INSIGHTS() -> (r: Self)
        ensures
            r.value() == 524288u64,
    {
        Permissions { bits: 524288u64 }
    }

    /// The `CONNECT` flag
    #[allow(non_snake_case)]
    pub fn CONNECT() -> (r: Self)
        ensures
            r.value() == 1048576u64,
    {
        Permissions { bits: 1048576u64 }
    }

    /// The `SPEAK` flag
    #[allow(non_snake_case)]
    pub fn SPEAK() -> (r: Self)
        ensures
            r.value() == 2097152u64,
    {
        Permissions { bits: 2097152u64 }
    }

    /// The `MUTE_MEMBERS` flag
    #[allow(non_snake_case)]
    pub fn MUTE_MEMBERS() -> (r: Self)
        ensures
            r.value() == 4194304u64,
    {
        Permissions { bits: 4194304u64 }
    }

    /// The `DEAFEN_MEMBERS` flag
    #[allow(non_snake_case)]
    pub fn DEAFEN_MEMBERS() -> (r: Self)
        ensures
            r.value() == 8388608u64,
    {
        Permissions { bits: 8388608u64 }
    }

    /// The `MOVE_MEMBERS` flag
    #[allow(non_snake_case)]
    pub fn MOVE_MEMBERS() -> (r: Self)
        ensures
            r.value() == 16777216u64,
    {
        Permissions { bits: 16777216u64 }
    }

    /// The `USE_VAD` flag
    #[allow(non_snake_case)]
    pub fn USE_VAD() -> (r: Self)
        ensures
            r.value() == 33554432u64,
    {
        Permissions { bits: 33554432u64 }
    }

    /// The `CHANGE_NICKNAME` flag
    #[allow(non_snake_case)]
    pub fn CHANGE_NICKNAME() -> (r: Self)
        ensures
            r.value() == 67108864u64,
    {
        Permissions { bits: 67108864u64 }
    }

    /// The `MANAGE_NICKNAMES` flag
    #[allow(non_snake_case)]
    pub fn MANAGE_NICKNAMES() -> (r: Self)
        ensures
            r.value() == 134217728u64,
    {
        Permissions { bits: 134217728u64 }
    }

    /// The `MANAGE_ROLES` flag
    #[allow(non_snake_case)]
    pub fn MANAGE_ROLES() -> (r: Self)
        ensures
            r.value() == 268435456u64,
    {
        Permissions { bits: 268435456u64 }
    }

    /// The `MANAGE_WEBHOOKS` flag
    #[allow(non_snake_case)]
    pub fn MANAGE_WEBHOOKS() -> (r: Self)
        ensures
            r.value() == 536870912u64,
    {
        Permissions { bits: 536870912u64 }
    }

    /// The `MANAGE_EMOJIS_AND_STICKERS` flag
    #[allow(non_snake_case)]
    pub fn MANAGE_EMOJIS_AND_STICKERS() -> (r: Self)
        ensures
            r.value() == 1073741824u64,
    {
        Permissions { bits: 1073741824u64 }
    }

    /// The `USE_APPLICATION_COMMANDS` flag
    #[allow(non_snake_case)]
    pub fn USE_APPLICATION_COMMANDS() -> (r: Self)
        ensures
            r.value() == 2147483648u64,
    {
        Permissions { bits: 2147483648u64 }
    }

    /// The `REQUEST_TO_SPEAK` flag
    #[allow(non_snake_case)]
    pub fn REQUEST_TO_SPEAK() -> (r: Self)
        ensures
            r.value() == 4294967296u64,
    {
        Permissions { bits: 4294967296u64 }
    }

    /// The `MANAGE_THREADS` flag
    #[allow(non_snake_case)]
    pub fn MANAGE_THREADS() -> (r: Self)
        ensures
            r.value() == 17179869184u64,
    {
        Permissions { bits: 17179869184u64 }
    }

    /// The `USE_PUBLIC_THREADS` flag
    #[allow(non_snake_case)]
    pub fn USE_PUBLIC_THREADS() -> (r: Self)
        ensures
            r.value() == 34359738368u64,
    {
        Permissions { bits: 34359738368u64 }
    }

    /// The `USE_PRIVATE_THREADS` flag
    #[allow(non_snake_case)]
    pub fn USE_PRIVATE_THREADS() -> (r: Self)
        ensures
            r.value() == 68719476736u64,
    {
        Permissions { bits: 68719476736u64 }
    }

    /// The `USE_EXTERNAL_STICKERS` flag
    #[allow(non_snake_case)]
    pub fn USE_EXTERNAL_STICKERS() -> (r: Self)
        ensures
            r.value() == 137438953472u64,
    {
        Permissions { bits: 137438953472u64 }
    }

    /// The empty set.
    pub fn empty() -> (r: Self)
        ensures
            r.value() == 0,
    {
        Permissions { bits: 0 }
    }

    /// The set of every flag this type names.
    pub fn all() -> (r: Self)
        ensures
            r.value() == Self::known_bits(),
    {
        Permissions { bits: 266287972351u64 }
    }

    /// The bits of the set.
    pub fn bits(&self) -> (r: u64)
        ensures
            r == self.value(),
    {
        self.bits
    }

    /// The set with exactly these bits, known or not.
    pub fn from_bits_retain(bits: u64) -> (r: Self)
        ensures
            r.value() == bits,
    {
        Permissions { bits }
    }

    /// The set of the known flags among these bits; unknown bits are dropped.
    pub fn from_bits_truncate(bits: u64) -> (r: Self)
        ensures
            r.value() == bits & Self::known_bits(),
    {
        Permissions { bits: bits & 266287972351u64 }
    }

    /// The set with these bits, if every bit is a known flag.
    pub fn from_bits(bits: u64) -> (r: Option<Self>)
        ensures
            r is Some <==> bits & Self::known_bits() == bits,
            r matches Some(f) ==> f.value() == bits,
    {
        if bits & 266287972351u64 == bits { Some(Permissions { bits }) } else { None }
    }

    /// Whether no flag is set.
    pub fn is_empty(&self) -> (r: bool)
        ensures
            r == (self.value() == 0),
    {
        self.bits == 0
    }

    /// Whether every flag of `other` is set in `self`.
    pub fn contains(&self, other: Self) -> (r: bool)
        ensures
            r == (self.value() & other.value() == other.value()),
    {
        self.bits & other.bits == other.bits
    }

    /// Whether `self` and `other` share a flag.
    pub fn intersects(&self, other: Self) -> (r: bool)
        ensures
            r == (self.value() & other.value() != 0),
    {
        self.bits & other.bits != 0
    }

    /// Sets the flags of `other`.
    pub fn insert(&mut self, other: Self)
        ensures
            final(self).value() == old(self).value() | other.value(),
    {
        self.bits = self.bits | other.bits;
    }

    /// Clears the flags of `other`.
    pub fn remove(&mut self, other: Self)
        ensures
            final(self).value() == old(self).value() & !other.value(),
    {
        self.bits = self.bits & !other.bits;
    }

    /// Flips the flags of `other`.
    pub fn toggle(&mut self, other: Self)
        ensures
            final(self).value() == old(self).value() ^ other.value(),
    {
        self.bits = self.bits ^ other.bits;
    }

    /// Sets the flags of `other` when `value` holds, clears them otherwise.
    pub fn set(&mut self, other: Self, value: bool)
        ensures
            final(self).value() == (if value { old(self).value() | other.value() } else { old(self).value() & !other.value() }),
    {
        if value {
            self.insert(other);
        } else {
            self.remove(other);
        }
    }

    /// The flags set in either.
    pub fn union(self, other: Self) -> (r: Self)
        ensures
            r.value() == self.value() | other.value(),
    {
        Permissions { bits: self.bits | other.bits }
    }

    /// The flags set in both.
    pub fn intersection(self, other: Self) -> (r: Self)
        ensures
            r.value() == self.value() & other.value(),
    {
        Permissions { bits: self.bits & other.bits }
    }

    /// The flags set in `self` and not in `other`.
    pub fn difference(self, other: Self) -> (r: Self)
        ensures
            r.value() == self.value() & !other.value(),
    {
        Permissions { bits: self.bits & !other.bits }
    }

    /// The flags set in exactly one of the two.
    pub fn symmetric_difference(self, other: Self) -> (r: Self)
        ensures
            r.value() == self.value() ^ other.value(),
    {
        Permissions { bits: self.bits ^ other.bits }
    }

    /// The known flags that are not set.
    pub fn complement(self) -> (r: Self)
        ensures
            r.value() == !self.value() & Self::known_bits(),
    {
        Permissions { bits: !self.bits & 266287972351u64 }
    }
}

impl Permissions {
    /// Reads permissions from the decimal text in which Discord sends them.
    /// Bits that name no known permission are dropped; text that is not an
    /// unsigned 64-bit decimal number gives `None`.
    pub fn from_decimal_str(s: &str) -> (r: Option<Permissions>)
        ensures
            match parse_unsigned(s@, 10, u64::MAX as nat) {
                Some(v) => r matches Some(p) && p.value() == (v as u64) & Permissions::known_bits(),
                None => r is None,
            },
    {
        match parse_unsigned_exec(s, 10, u64::MAX) {
            Some(v) => Some(Permissions::from_bits_truncate(v)),
            None => None,
        }
    }
}

} // verus!
