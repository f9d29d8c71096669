//! Structs related to Discord users

use vstd::prelude::*;
use crate::structs::Snowflake;
use crate::structs::members::{GuildMember, member_image_url};
use crate::text::{dec_digits, parse_unsigned, parse_unsigned_exec, push_str, str_eq, str_opt, string_of, u64_to_string};

verus! {

/// Discord User Object
#[derive(Clone, Debug)]
pub struct User {
  /// The user's id
  pub id: Snowflake,
  /// The user's username, not unique across the platform
  pub username: String,
  /// The user's 4-digit discord-tag
  pub discriminator: String,
  /// The user's display name, if it is set. For bots, this is the application name
  pub global_name: Option<String>,
  /// The user's [avatar hash](https://discord.com/developers/docs/reference#image-formatting)
  pub avatar: Option<String>,
  /// Whether the user belongs to an OAuth2 application
  pub bot: Option<bool>,
  /// Whether the user is an Official Discord System user (part of the urgent message system)
  pub system: Option<bool>,
  /// Whether the user has two factor enabled on their account
  pub mfa_enabled: Option<bool>,
  /// The user's [banner hash](https://discord.com/developers/docs/reference#image-formatting)
  pub banner: Option<String>,
  /// The user's banner color encoded as an integer representation of hexadecimal color code
  pub accent_color: Option<i64>,
  /// The user's chosen language option
  pub locale: Option<String>,
  /// Whether the email on this account has been verified
  pub verified: Option<bool>,
  /// The user's email
  pub email: Option<String>,
  /// The flags on a user's account
  pub flags: Option<UserFlags>,
  /// The [type of Nitro subscription](PremiumType) on a user's account
  pub premium_type: Option<PremiumType>,
  /// The public flags on a user's account
  pub public_flags: Option<UserFlags>,
  /// Data for the user's avatar decoration
  pub avatar_decoration_data: Option<AvatarDecorationData>,
}

/// Discord Premium Types
#[derive(Clone, Copy, Debug, PartialEq, Eq, Hash, Structural)]
#[allow(non_camel_case_types)]
pub enum PremiumType {
  /// User has no nitro
  NONE,
  /// User has Nitro Classic
  NITRO_CLASSIC,
  /// User has Nitro
  NITRO,
  /// User has Nitro Basic
  NITRO_BASIC,
  /// A premium type that hasn't been implemented yet
  UNKNOWN,
}

impl PremiumType {
    /// The number that Discord uses for this value.
    pub open spec fn spec_code(self) -> u8 {
        match self {
            PremiumType::NONE => 0,
            PremiumType::NITRO_CLASSIC => 1,
            PremiumType::NITRO => 2,
            PremiumType::NITRO_BASIC => 3,
            PremiumType::UNKNOWN => 4,
        }
    }

    /// The value that Discord's number `code` stands for, if any.
    pub open spec fn spec_from_code(code: u8) -> Option<PremiumType> {
        match code {
            0 => Some(PremiumType::NONE),
            1 => Some(PremiumType::NITRO_CLASSIC),
            2 => Some(PremiumType::NITRO),
            3 => Some(PremiumType::NITRO_BASIC),
            4 => Some(PremiumType::UNKNOWN),
            _ => Some(PremiumType::UNKNOWN),
        }
    }

    /// The number that Discord uses for this value.
    pub fn code(&self) -> (r: u8)
        ensures
            r == self.spec_code(),
    {
        match self {
            PremiumType::NONE => 0,
            PremiumType::NITRO_CLASSIC => 1,
            PremiumType::NITRO => 2,
            PremiumType::NITRO_BASIC => 3,
            PremiumType::UNKNOWN => 4,
        }
    }

    /// The value that Discord's number `code` stands for, if any.
    pub fn from_code(code: u8) -> (r: Option<PremiumType>)
        ensures
            r == PremiumType::spec_from_code(code),
    {
        match code {
            0 => Some(PremiumType::NONE),
            1 => Some(PremiumType::NITRO_CLASSIC),
            2 => Some(PremiumType::NITRO),
            3 => Some(PremiumType::NITRO_BASIC),
            4 => Some(PremiumType::UNKNOWN),
            _ => Some(PremiumType::UNKNOWN),
        }
    }
}

/// Discord Avatar Decoration Data Object
#[derive(Clone, Debug)]
pub struct AvatarDecorationData {
  /// The [avatar decoration hash](https://discord.com/developers/docs/reference#image-formatting)
  pub asset: String,
  /// ID of the avatar decoration's SKU
  pub sku_id: Snowflake,
}

/// Options for modifying the user with [`modify_current_user`](User::modify_current_user)
#[derive(Clone, Debug)]
pub struct ModifyUserOptions {
  /// User's username
  pub username: Option<String>,
  /// If passed, modifies the user's avatar. Contains [base64 image data URL](https://discord.com/developers/docs/reference#image-data)
  pub avatar: Option<Option<String>>,
  /// If passed, modifies the user's banner. Contains [base64 image data URL](https://discord.com/developers/docs/reference#image-data)
  pub banner: Option<Option<String>>,
}

/// Options for listing user guilds with [`get_current_user_guilds`](User::get_current_user_guilds)
#[derive(Clone, Debug)]
pub struct GetUserGuildsOptions {
  /// Get guilds before this guild ID
  pub before: Option<Snowflake>,
  /// Get guilds after this guild ID
  pub after: Option<Snowflake>,
  /// Max number of guilds to return (1-200). Default 200
  pub limit: Option<i64>,
  /// Include approximate member and presence counts in response
  pub with_counts: Option<bool>,
}

/// Bitflags for Discord User Flags
#[derive(Clone, Copy, Debug, PartialEq, Eq, Hash, Structural)]
pub struct UserFlags {
    bits: u32,
}

impl UserFlags {
    /// The bits of the set.
    pub closed spec fn value(self) -> u32 {
        self.bits
    }

    /// The bits of every flag that this type names.
    pub open spec fn known_bits() -> u32 {
        5195727u32
    }

    /// Discord Employee
    #[allow(non_snake_case)]
    pub fn STAFF() -> (r: Self)
        ensures
            r.value() == 1u32,
    {
        UserFlags { bits: 1u32 }
    }

    /// Partnered Server Owner
    #[allow(non_snake_case)]
    pub fn PARTNER() -> (r: Self)
        ensures
            r.value() == 2u32,
    {
        UserFlags { bits: 2u32 }
    }

    /// HypeSquad Events Coordinator
    #[allow(non_snake_case)]
    pub fn HYPESQUAD() -> (r: Self)
        ensures
            r.value() == 4u32,
    {
        UserFlags { bits: 4u32 }
    }

    /// Bug Hunter Level 1
    #[allow(non_snake_case)]
    pub fn BUG_HUNTER_LEVEL_1() -> (r: Self)
        ensures
            r.value() == 8u32,
    {
        UserFlags { bits: 8u32 }
    }

    /// House Bravery Member
    #[allow(non_snake_case)]
    pub fn HYPESQUAD_ONLINE_HOUSE_1() -> (r: Self)
        ensures
            r.value() == 64u32,
    {
        UserFlags { bits: 64u32 }
    }

    /// House Brilliance Member
    #[allow(non_snake_case)]
    pub fn HYPESQUAD_ONLINE_HOUSE_2() -> (r: Self)
        ensures
            r.value() == 128u32,
    {
        UserFlags { bits: 128u32 }
    }

    /// House Balance Member
    #[allow(non_snake_case)]
    pub fn HYPESQUAD_ONLINE_HOUSE_3() -> (r: Self)
        ensures
            r.value() == 256u32,
    {
        UserFlags { bits: 256u32 }
    }

    /// Early Nitro Supporter
    #[allow(non_snake_case)]
    pub fn PREMIUM_EARLY_SUPPORTER() -> (r: Self)
        ensures
            r.value() == 512u32,
    {
        UserFlags { bits: 512u32 }
    }

    /// User is a [team](https://discord.com/developers/docs/topics/teams)
    #[allow(non_snake_case)]
    pub fn TEAM_PSEUDO_USER() -> (r: Self)
        ensures
            r.value() == 1024u32,
    {
        UserFlags { bits: 1024u32 }
    }

    /// Bug Hunter Level 2
    #[allow(non_snake_case)]
    pub fn BUG_HUNTER_LEVEL_2() -> (r: Self)
        ensures
            r.value() == 16384u32,
    {
        UserFlags { bits: 16384u32 }
    }

    /// Verified Bot
    #[allow(non_snake_case)]
    pub fn VERIFIED_BOT() -> (r: Self)
        ensures
            r.value() == 65536u32,
    {
        UserFlags { bits: 65536u32 }
    }

    /// Early Verified Bot Developer
    #[allow(non_snake_case)]
    pub fn VERIFIED_DEVELOPER() -> (r: Self)
        ensures
            r.value() == 131072u32,
    {
        UserFlags { bits: 131072u32 }
    }

    /// Discord Certified Moderator
    #[allow(non_snake_case)]
    pub fn CERTIFIED_MODERATOR() -> (r: Self)
        ensures
            r.value() == 262144u32,
    {
        UserFlags { bits: 262144u32 }
    }

    /// Bot uses only [HTTP interactions](https://discord.com/developers/docs/interactions/receiving-and-responding#receiving-an-interaction) and is shown in the online member list
    #[allow(non_snake_case)]
    pub fn BOT_HTTP_INTERACTIONS() -> (r: Self)
        ensures
            r.value() == 524288u32,
    {
        UserFlags { bits: 524288u32 }
    }

    /// User is an [Active Developer](https://support-dev.discord.com/hc/articles/10113997751447)
    #[allow(non_snake_case)]
    pub fn ACTIVE_DEVELOPER() -> (r: Self)
        ensures
            r.value() == 4194304u32,
    {
        UserFlags { bits: 4194304u32 }
    }

    /// The empty set.
    pub fn empty() -> (r: Self)
        ensures
            r.value() == 0,
    {
        UserFlags { bits: 0 }
    }

    /// The set of every flag this type names.
    pub fn all() -> (r: Self)
        ensures
            r.value() == Self::known_bits(),
    {
        UserFlags { bits: 5195727u32 }
    }

    /// The bits of the set.
    pub fn bits(&self) -> (r: u32)
        ensures
            r == self.value(),
    {
        self.bits
    }

    /// The set with exactly these bits, known or not.
    pub fn from_bits_retain(bits: u32) -> (r: Self)
        ensures
            r.value() == bits,
    {
        UserFlags { bits }
    }

    /// The set of the known flags among these bits; unknown bits are dropped.
    pub fn from_bits_truncate(bits: u32) -> (r: Self)
        ensures
            r.value() == bits & Self::known_bits(),
    {
        UserFlags { bits: bits & 5195727u32 }
    }

    /// The set with these bits, if every bit is a known flag.
    pub fn from_bits(bits: u32) -> (r: Option<Self>)
        ensures
            r is Some <==> bits & Self::known_bits() == bits,
            r matches Some(f) ==> f.value() == bits,
    {
        if bits & 5195727u32 == bits { Some(UserFlags { bits }) } else { None }
    }

    /// Whether no flag is set.
    pub fn is_empty(&self) -> (r: bool)
        ensures
            r == (self.value() == 0),
    {
        self.bits == 0
    }

    /// Whether every flag of `other` is set in `self`.
    pub fn contains(&self, other: Self) -> (r: bool)
        ensures
            r == (self.value() & other.value() == other.value()),
    {
        self.bits & other.bits == other.bits
    }

    /// Whether `self` and `other` share a flag.
    pub fn intersects(&self, other: Self) -> (r: bool)
        ensures
            r == (self.value() & other.value() != 0),
    {
        self.bits & other.bits != 0
    }

    /// Sets the flags of `other`.
    pub fn insert(&mut self, other: Self)
        ensures
            final(self).value() == old(self).value() | other.value(),
    {
        self.bits = self.bits | other.bits;
    }

    /// Clears the flags of `other`.
    pub fn remove(&mut self, other: Self)
        ensures
            final(self).value() == old(self).value() & !other.value(),
    {
        self.bits = self.bits & !other.bits;
    }

    /// Flips the flags of `other`.
    pub fn toggle(&mut self, other: Self)
        ensures
            final(self).value() == old(self).value() ^ other.value(),
    {
        self.bits = self.bits ^ other.bits;
    }

    /// Sets the flags of `other` when `value` holds, clears them otherwise.
    pub fn set(&mut self, other: Self, value: bool)
        ensures
            final(self).value() == (if value { old(self).value() | other.value() } else { old(self).value() & !other.value() }),
    {
        if value {
            self.insert(other);
        } else {
            self.remove(other);
        }
    }

    /// The flags set in either.
    pub fn union(self, other: Self) -> (r: Self)
        ensures
            r.value() == self.value() | other.value(),
    {
        UserFlags { bits: self.bits | other.bits }
    }

    /// The flags set in both.
    pub fn intersection(self, other: Self) -> (r: Self)
        ensures
            r.value() == self.value() & other.value(),
    {
        UserFlags { bits: self.bits & other.bits }
    }

    /// The flags set in `self` and not in `other`.
    pub fn difference(self, other: Self) -> (r: Self)
        ensures
            r.value() == self.value() & !other.value(),
    {
        UserFlags { bits: self.bits & !other.bits }
    }

    /// The flags set in exactly one of the two.
    pub fn symmetric_difference(self, other: Self) -> (r: Self)
        ensures
            r.value() == self.value() ^ other.value(),
    {
        UserFlags { bits: self.bits ^ other.bits }
    }

    /// The known flags that are not set.
    pub fn complement(self) -> (r: Self)
        ensures
            r.value() == !self.value() & Self::known_bits(),
    {
        UserFlags { bits: !self.bits & 5195727u32 }
    }
}

impl ModifyUserOptions {
    /// Creates a new empty `ModifyUserOptions`
    pub fn new() -> (r: ModifyUserOptions)
        ensures
            r.username is None,
            r.avatar is None,
            r.banner is None,
    {
        ModifyUserOptions { username: None, avatar: None, banner: None }
    }

    /// Sets the username
    pub fn set_username(self, username: &str) -> (r: ModifyUserOptions)
        ensures
            str_opt(r.username, username@),
            r == (ModifyUserOptions { username: r.username, ..self }),
    {
        ModifyUserOptions { username: Some(string_of(username)), ..self }
    }

    /// Sets the avatar\
    /// The `avatar_data` can be a [`File`](super::utils::File)
    pub fn set_avatar(self, avatar_data: &str) -> (r: ModifyUserOptions)
        ensures
            r.avatar matches Some(inner) && str_opt(inner, avatar_data@),
            r == (ModifyUserOptions { avatar: r.avatar, ..self }),
    {
        ModifyUserOptions { avatar: Some(Some(string_of(avatar_data))), ..self }
    }

    /// Unsets the avatar
    pub fn unset_avatar(self) -> (r: ModifyUserOptions)
        ensures
            r == (ModifyUserOptions { avatar: Some(None), ..self }),
    {
        ModifyUserOptions { avatar: Some(None), ..self }
    }

    /// Sets the banner
    /// The `banner_data` can be a [`File`](super::utils::File)
    pub fn set_banner(self, banner_data: &str) -> (r: ModifyUserOptions)
        ensures
            r.banner matches Some(inner) && str_opt(inner, banner_data@),
            r == (ModifyUserOptions { banner: r.banner, ..self }),
    {
        ModifyUserOptions { banner: Some(Some(string_of(banner_data))), ..self }
    }

    /// Unsets the banner
    pub fn unset_banner(self) -> (r: ModifyUserOptions)
        ensures
            r == (ModifyUserOptions { banner: Some(None), ..self }),
    {
        ModifyUserOptions { banner: Some(None), ..self }
    }
}

impl GetUserGuildsOptions {
    /// Creates a new empty `GetUserGuildsOptions`
    pub fn new() -> (r: GetUserGuildsOptions)
        ensures
            r.before is None,
            r.after is None,
            r.limit is None,
            r.with_counts is None,
    {
        GetUserGuildsOptions { before: None, after: None, limit: None, with_counts: None }
    }

    /// Sets the guild ID to search before.
    /// Also removes `after` if set.
    pub fn set_before(self, before: &str) -> (r: GetUserGuildsOptions)
        ensures
            str_opt(r.before, before@),
            r == (GetUserGuildsOptions { before: r.before, after: None, ..self }),
    {
        GetUserGuildsOptions { before: Some(string_of(before)), after: None, ..self }
    }

    /// Sets the guild ID to search after.
    /// Also removes `before` if set.
    pub fn set_after(self, after: &str) -> (r: GetUserGuildsOptions)
        ensures
            str_opt(r.after, after@),
            r == (GetUserGuildsOptions { after: r.after, before: None, ..self }),
    {
        GetUserGuildsOptions { after: Some(string_of(after)), before: None, ..self }
    }

    /// Sets the limit for the amount of guilds to fetch
    pub fn set_limit(self, limit: i64) -> (r: GetUserGuildsOptions)
        ensures
            r == (GetUserGuildsOptions { limit: Some(limit), ..self }),
    {
        GetUserGuildsOptions { limit: Some(limit), ..self }
    }

    /// Sets whether approximate user and presence counts should be included
    pub fn set_with_counts(self, with_counts: bool) -> (r: GetUserGuildsOptions)
        ensures
            r == (GetUserGuildsOptions { with_counts: Some(with_counts), ..self }),
    {
        GetUserGuildsOptions { with_counts: Some(with_counts), ..self }
    }
}

/// The url of an image on Discord's CDN: `kind/owner/hash.format?size=size`.
pub open spec fn cdn_image_url(kind: Seq<char>, owner: Seq<char>, hash: Seq<char>, format: Seq<char>, size: Seq<char>) -> Seq<char> {
    "https://cdn.discordapp.com/"@ + kind + "/"@ + owner + "/"@ + hash + "."@ + format + "?size="@ + size
}

/// The number of the default avatar of a user: from the id for a user with a unique
/// username (discriminator `0`), from the discriminator otherwise; text that does not
/// parse counts as `0`.
pub open spec fn default_avatar_index(id: Seq<char>, discriminator: Seq<char>) -> nat {
    if discriminator == "0"@ {
        let n = match parse_unsigned(id, 10, u64::MAX as nat) { Some(v) => v, None => 0 };
        (n / 4194304) % 6
    } else {
        let d = match parse_unsigned(discriminator, 10, u16::MAX as nat) { Some(v) => v, None => 0 };
        d % 5
    }
}

/// The url of a default avatar.
pub open spec fn default_avatar_text(index: nat) -> Seq<char> {
    "https://cdn.discordapp.com/embed/avatars/"@ + dec_digits(index) + ".png"@
}

/// Builds `https://cdn.discordapp.com/kind/owner/hash.format?size=size`.
pub(crate) fn cdn_image_string(kind: &str, owner: &str, hash: &str, format: &str, size: &str) -> (r: String)
    ensures
        r@ == cdn_image_url(kind@, owner@, hash@, format@, size@),
{
    let mut s = string_of("https://cdn.discordapp.com/");
    push_str(&mut s, kind);
    push_str(&mut s, "/");
    push_str(&mut s, owner);
    push_str(&mut s, "/");
    push_str(&mut s, hash);
    push_str(&mut s, ".");
    push_str(&mut s, format);
    push_str(&mut s, "?size=");
    push_str(&mut s, size);
    s
}

impl User {
    /// Get user's custom avatar url. `None` if the user has no custom avatar
    pub fn avatar_url(&self, format: &str, size: &str) -> (r: Option<String>)
        ensures
            match self.avatar {
                Some(a) => r matches Some(u) && u@ == cdn_image_url("avatars"@, self.id@, a@, format@, size@),
                None => r is None,
            },
    {
        match &self.avatar {
            Some(a) => Some(cdn_image_string("avatars", self.id.as_str(), a.as_str(), format, size)),
            None => None,
        }
    }

    /// Get the url for the user's default avatar
    pub fn default_avatar_url(&self) -> (r: String)
        ensures
            r@ == default_avatar_text(default_avatar_index(self.id@, self.discriminator@)),
    {
        let index: u64 = if str_eq(self.discriminator.as_str(), "0") {
            let id: u64 = match parse_unsigned_exec(self.id.as_str(), 10, u64::MAX) {
                Some(v) => v,
                None => 0,
            };
            assert(id >> 22u64 == id / 4194304) by (bit_vector);
            (id >> 22) % 6
        } else {
            let discrim: u64 = match parse_unsigned_exec(self.discriminator.as_str(), 10, 65535) {
                Some(v) => v,
                None => 0,
            };
            discrim % 5
        };
        let mut s = string_of("https://cdn.discordapp.com/embed/avatars/");
        let digits = u64_to_string(index);
        push_str(&mut s, digits.as_str());
        push_str(&mut s, ".png");
        s
    }

    /// Get the url for the user avatar that would be displayed in app, falling back to the default avatar if the user doesn't have one
    pub fn display_avatar_url(&self, format: &str, size: &str) -> (r: String)
        ensures
            match self.avatar {
                Some(a) => r@ == cdn_image_url("avatars"@, self.id@, a@, format@, size@),
                None => r@ == default_avatar_text(default_avatar_index(self.id@, self.discriminator@)),
            },
    {
        match self.avatar_url(format, size) {
            Some(u) => u,
            None => self.default_avatar_url(),
        }
    }

    /// Get the url for the user avatar that would be displayed in app, taking into account the per-server profile. Workaround for [`GuildMember`] that don't have `user` set.
    pub fn display_avatar_url_with_member(&self, format: &str, size: &str, guild_id: &str, member: GuildMember) -> (r: String)
        ensures
            match member.avatar {
                Some(a) => r@ == member_image_url("avatars"@, guild_id@, self.id@, a@, format@, size@, false),
                None => match self.avatar {
                    Some(a) => r@ == cdn_image_url("avatars"@, self.id@, a@, format@, size@),
                    None => r@ == default_avatar_text(default_avatar_index(self.id@, self.discriminator@)),
                },
            },
    {
        match member.avatar_url(guild_id, self.id.as_str(), format, None, size) {
            Some(u) => u,
            None => self.display_avatar_url(format, size),
        }
    }

    /// Get user's banner url. `None` if the user has no banner
    pub fn banner_url(&self, format: &str, size: &str) -> (r: Option<String>)
        ensures
            match self.banner {
                Some(b) => r matches Some(u) && u@ == cdn_image_url("banners"@, self.id@, b@, format@, size@),
                None => r is None,
            },
    {
        match &self.banner {
            Some(b) => Some(cdn_image_string("banners", self.id.as_str(), b.as_str(), format, size)),
            None => None,
        }
    }

    /// Get the url for the user banner that would be displayed in app, taking into account the per-server profile. `None` if the user has no banner. Workaround for [`GuildMember`] that don't have `user` set.
    pub fn display_banner_url_with_member(&self, format: &str, size: &str, guild_id: &str, member: GuildMember) -> (r: Option<String>)
        ensures
            match member.banner {
                Some(b) => r matches Some(u) && u@ == member_image_url("banners"@, guild_id@, self.id@, b@, format@, size@, false),
                None => match self.banner {
                    Some(b) => r matches Some(u) && u@ == cdn_image_url("banners"@, self.id@, b@, format@, size@),
                    None => r is None,
                },
            },
    {
        match member.banner_url(guild_id, self.id.as_str(), format, None, size) {
            Some(u) => Some(u),
            None => self.banner_url(format, size),
        }
    }

    /// Returns a string representing a user mention
    pub fn mention(&self) -> (r: String)
        ensures
            r@ == "<@"@ + self.id@ + ">"@,
    {
        let mut s = string_of("<@");
        push_str(&mut s, self.id.as_str());
        push_str(&mut s, ">");
        s
    }
}

impl PremiumType {
    /// Discord's number for a value reads back as that value.
    pub proof fn law_code_round_trip(self)
        ensures
            PremiumType::spec_from_code(self.spec_code()) == Some(self),
    {
    }
}

} // verus!
