//! Structs related to Discord guild members

use vstd::prelude::*;
use crate::internal_utils::cdn::{pick_format, picked_format};
use crate::structs::{Permissions, Snowflake, Timestamp};
use crate::structs::users::{AvatarDecorationData, User, cdn_image_url, default_avatar_index, default_avatar_text};
use crate::text::{bool_text, bool_to_string, opt_str_view, opt_string, opt_view, push_str, string_of};

verus! {

/// Discord Guild Member Object
#[derive(Clone, Debug)]
pub struct GuildMember {
  /// The user this guild member represents
  pub user: Option<User>,
  /// This users guild nickname
  pub nick: Option<String>,
  /// The member's [guild avatar hash](https://discord.com/developers/docs/reference#image-formatting)
  pub avatar: Option<String>,
  /// The member's [guild banner hash](https://discord.com/developers/docs/reference#image-formatting)
  pub banner: Option<String>,
  /// Array of [role](super::guilds::Role) object ids
  pub roles: Vec<Snowflake>,
  /// When the user joined the guild
  pub joined_at: Timestamp,
  /// When the user started [boosting](https://support.discord.com/hc/en-us/articles/360028038352-Server-Boosting-) the guild
  pub premium_since: Option<Timestamp>,
  /// Whether the user is deafened in voice channels
  pub deaf: Option<bool>,
  /// Whether the user is muted in voice channels
  pub mute: Option<bool>,
  /// [Guild member flags](GuildMemberFlags) represented as a bit set, defaults to 0
  pub flags: GuildMemberFlags,
  /// Whether the user has not yet passed the guild's [Membership Screening](https://discord.com/developers/docs/resources/guild#membership-screening-object) requirements
  pub pending: Option<bool>,
  /// Total permissions of the member in the channel, including overwrites, returned when in the interaction object
  pub permissions: Option<Permissions>,
  /// When the user's [timeout](https://support.discord.com/hc/en-us/articles/4413305239191-Time-Out-FAQ) will expire and the user will be able to communicate in the guild again, None or a time in the past if the user is not timed out
  pub communication_disabled_until: Option<Timestamp>,
  /// Data for the member's guild avatar decoration
  pub avatar_decoration_data: Option<AvatarDecorationData>,
}

/// Options for modifying a member with [`GuildMember::modify`]
#[derive(Clone, Debug)]
pub struct GuildMemberModifyOptions {
  /// Value to set user’s nickname to
  pub nick: Option<Option<String>>,
  /// Array of role ids the member is assigned
  pub roles: Option<Option<Vec<Snowflake>>>,
  /// Whether the user is muted in voice channels. Will throw a 400 error if the user is not in a voice channel
  pub mute: Option<bool>,
  /// Whether the user is deafened in voice channels. Will throw a 400 error if the user is not in a voice channel
  pub deaf: Option<bool>,
  /// ID of channel to move user to (if they are connected to voice).
  pub channel_id: Option<Option<Snowflake>>,
  /// When the user’s [timeout](https://support.discord.com/hc/en-us/articles/4413305239191-Time-Out-FAQ) will expire and the user will be able to communicate in the guild again (up to 28 days in the future), set to null to remove timeout. Will throw a 403 error if the user has the ADMINISTRATOR permission or is the owner of the guild
  pub communication_disabled_until: Option<Option<Timestamp>>,
  /// [Guild member flags](GuildMemberFlags)
  pub flags: Option<Option<GuildMemberFlags>>,
  /// [Data URI base64 encoded](https://docs.discord.com/developers/reference#image-data) banner image. Only available when modifying current member
  pub banner: Option<Option<String>>,
  /// [Data URI base64 encoded](https://docs.discord.com/developers/reference#image-data) avatar image. Only available when modifying current member
  pub avatar: Option<Option<String>>,
  /// Guild member bio. Only available when modifying current member
  pub bio: Option<Option<String>>,
}

/// Discord Guild Member Flags
#[derive(Clone, Copy, Debug, PartialEq, Eq, Hash, Structural)]
pub struct GuildMemberFlags {
    bits: u32,
}

impl GuildMemberFlags {
    /// The bits of the set.
    pub closed spec fn value(self) -> u32 {
        self.bits
    }

    /// The bits of every flag that this type names.
    pub open spec fn known_bits() -> u32 {
        1791u32
    }

    /// Member has left and rejoined the guild
    #[allow(non_snake_case)]
    pub fn DID_REJOIN() -> (r: Self)
        ensures
            r.value() == 1u32,
    {
        GuildMemberFlags { bits: 1u32 }
    }

    /// Member has completed onboarding
    #[allow(non_snake_case)]
    pub fn COMPLETED_ONBOARDING() -> (r: Self)
        ensures
            r.value() == 2u32,
    {
        GuildMemberFlags { bits: 2u32 }
    }

    /// Member is exempt from guild verification requirements
    #[allow(non_snake_case)]
    pub fn BYPASSES_VERIFICATION() -> (r: Self)
        ensures
            r.value() == 4u32,
    {
        GuildMemberFlags { bits: 4u32 }
    }

    /// Member has started onboarding
    #[allow(non_snake_case)]
    pub fn STARTED_ONBOARDING() -> (r: Self)
        ensures
            r.value() == 8u32,
    {
        GuildMemberFlags { bits: 8u32 }
    }

    /// Member is a guest and can only access the voice channel they were invited to
    #[allow(non_snake_case)]
    pub fn IS_GUEST() -> (r: Self)
        ensures
            r.value() == 16u32,
    {
        GuildMemberFlags { bits: 16u32 }
    }

    /// Member has started Server Guide new member actions
    #[allow(non_snake_case)]
    pub fn STARTED_HOME_ACTIONS() -> (r: Self)
        ensures
            r.value() == 32u32,
    {
        GuildMemberFlags { bits: 32u32 }
    }

    /// Member has completed Server Guide new member actions
    #[allow(non_snake_case)]
    pub fn COMPLETED_HOME_ACTIONS() -> (r: Self)
        ensures
            r.value() == 64u32,
    {
        GuildMemberFlags { bits: 64u32 }
    }

    /// Member's username, display name, or nickname is blocked by AutoMod
    #[allow(non_snake_case)]
    pub fn AUTOMOD_QUARANTINED_USERNAME() -> (r: Self)
        ensures
            r.value() == 128u32,
    {
        GuildMemberFlags { bits: 128u32 }
    }

    /// Member has dismissed the DM settings upsell
    #[allow(non_snake_case)]
    pub fn DM_SETTINGS_UPSELL_ACKNOWLEDGED() -> (r: Self)
        ensures
            r.value() == 512u32,
    {
        GuildMemberFlags { bits: 512u32 }
    }

    /// Member’s guild tag is blocked by AutoMod
    #[allow(non_snake_case)]
    pub fn AUTOMOD_QUARANTINED_GUILD_TAG() -> (r: Self)
        ensures
            r.value() == 1024u32,
    {
        GuildMemberFlags { bits: 1024u32 }
    }

    /// The empty set.
    pub fn empty() -> (r: Self)
        ensures
            r.value() == 0,
    {
        GuildMemberFlags { bits: 0 }
    }

    /// The set of every flag this type names.
    pub fn all() -> (r: Self)
        ensures
            r.value() == Self::known_bits(),
    {
        GuildMemberFlags { bits: 1791u32 }
    }

    /// The bits of the set.
    pub fn bits(&self) -> (r: u32)
        ensures
            r == self.value(),
    {
        self.bits
    }

    /// The set with exactly these bits, known or not.
    pub fn from_bits_retain(bits: u32) -> (r: Self)
        ensures
            r.value() == bits,
    {
        GuildMemberFlags { bits }
    }

    /// The set of the known flags among these bits; unknown bits are dropped.
    pub fn from_bits_truncate(bits: u32) -> (r: Self)
        ensures
            r.value() == bits & Self::known_bits(),
    {
        GuildMemberFlags { bits: bits & 1791u32 }
    }

    /// The set with these bits, if every bit is a known flag.
    pub fn from_bits(bits: u32) -> (r: Option<Self>)
        ensures
            r is Some <==> bits & Self::known_bits() == bits,
            r matches Some(f) ==> f.value() == bits,
    {
        if bits & 1791u32 == bits { Some(GuildMemberFlags { bits }) } else { None }
    }

    /// Whether no flag is set.
    pub fn is_empty(&self) -> (r: bool)
        ensures
            r == (self.value() == 0),
    {
        self.bits == 0
    }

    /// Whether every flag of `other` is set in `self`.
    pub fn contains(&self, other: Self) -> (r: bool)
        ensures
            r == (self.value() & other.value() == other.value()),
    {
        self.bits & other.bits == other.bits
    }

    /// Whether `self` and `other` share a flag.
    pub fn intersects(&self, other: Self) -> (r: bool)
        ensures
            r == (self.value() & other.value() != 0),
    {
        self.bits & other.bits != 0
    }

    /// Sets the flags of `other`.
    pub fn insert(&mut self, other: Self)
        ensures
            final(self).value() == old(self).value() | other.value(),
    {
        self.bits = self.bits | other.bits;
    }

    /// Clears the flags of `other`.
    pub fn remove(&mut self, other: Self)
        ensures
            final(self).value() == old(self).value() & !other.value(),
    {
        self.bits = self.bits & !other.bits;
    }

    /// Flips the flags of `other`.
    pub fn toggle(&mut self, other: Self)
        ensures
            final(self).value() == old(self).value() ^ other.value(),
    {
        self.bits = self.bits ^ other.bits;
    }

    /// Sets the flags of `other` when `value` holds, clears them otherwise.
    pub fn set(&mut self, other: Self, value: bool)
        ensures
            final(self).value() == (if value { old(self).value() | other.value() } else { old(self).value() & !other.value() }),
    {
        if value {
            self.insert(other);
        } else {
            self.remove(other);
        }
    }

    /// The flags set in either.
    pub fn union(self, other: Self) -> (r: Self)
        ensures
            r.value() == self.value() | other.value(),
    {
        GuildMemberFlags { bits: self.bits | other.bits }
    }

    /// The flags set in both.
    pub fn intersection(self, other: Self) -> (r: Self)
        ensures
            r.value() == self.value() & other.value(),
    {
        GuildMemberFlags { bits: self.bits & other.bits }
    }

    /// The flags set in `self` and not in `other`.
    pub fn difference(self, other: Self) -> (r: Self)
        ensures
            r.value() == self.value() & !other.value(),
    {
        GuildMemberFlags { bits: self.bits & !other.bits }
    }

    /// The flags set in exactly one of the two.
    pub fn symmetric_difference(self, other: Self) -> (r: Self)
        ensures
            r.value() == self.value() ^ other.value(),
    {
        GuildMemberFlags { bits: self.bits ^ other.bits }
    }

    /// The known flags that are not set.
    pub fn complement(self) -> (r: Self)
        ensures
            r.value() == !self.value() & Self::known_bits(),
    {
        GuildMemberFlags { bits: !self.bits & 1791u32 }
    }
}

impl GuildMemberModifyOptions {
    /// Creates a new empty `GuildMemberModifyOptions`
    pub fn new() -> (r: GuildMemberModifyOptions)
        ensures
            r.nick is None,
            r.roles is None,
            r.mute is None,
            r.deaf is None,
            r.channel_id is None,
            r.communication_disabled_until is None,
            r.flags is None,
            r.banner is None,
            r.avatar is None,
            r.bio is None,
    {
        GuildMemberModifyOptions { nick: None, roles: None, mute: None, deaf: None, channel_id: None, communication_disabled_until: None, flags: None, banner: None, avatar: None, bio: None }
    }

    /// Set the nickname
    pub fn set_nick(self, nick: Option<&str>) -> (r: GuildMemberModifyOptions)
        ensures
            r.nick matches Some(inner) && opt_view(inner) == opt_str_view(nick),
            r == (GuildMemberModifyOptions { nick: r.nick, ..self }),
    {
        GuildMemberModifyOptions { nick: Some(opt_string(nick)), ..self }
    }

    /// Set roles
    pub fn set_roles(self, roles: Option<Vec<Snowflake>>) -> (r: GuildMemberModifyOptions)
        ensures
            r == (GuildMemberModifyOptions { roles: Some(roles), ..self }),
    {
        GuildMemberModifyOptions { roles: Some(roles), ..self }
    }

    /// Set mute
    pub fn set_mute(self, mute: bool) -> (r: GuildMemberModifyOptions)
        ensures
            r == (GuildMemberModifyOptions { mute: Some(mute), ..self }),
    {
        GuildMemberModifyOptions { mute: Some(mute), ..self }
    }

    /// Set deaf
    pub fn set_deaf(self, deaf: bool) -> (r: GuildMemberModifyOptions)
        ensures
            r == (GuildMemberModifyOptions { deaf: Some(deaf), ..self }),
    {
        GuildMemberModifyOptions { deaf: Some(deaf), ..self }
    }

    /// Set channel ID
    pub fn set_channel_id(self, channel_id: Option<&str>) -> (r: GuildMemberModifyOptions)
        ensures
            r.channel_id matches Some(inner) && opt_view(inner) == opt_str_view(channel_id),
            r == (GuildMemberModifyOptions { channel_id: r.channel_id, ..self }),
    {
        GuildMemberModifyOptions { channel_id: Some(opt_string(channel_id)), ..self }
    }

    /// Set communication disabled until
    pub fn set_communication_disabled_until(self, communication_disabled_until: Option<Timestamp>) -> (r: GuildMemberModifyOptions)
        ensures
            r == (GuildMemberModifyOptions { communication_disabled_until: Some(communication_disabled_until), ..self }),
    {
        GuildMemberModifyOptions { communication_disabled_until: Some(communication_disabled_until), ..self }
    }

    /// Set flags
    pub fn set_flags(self, flags: Option<GuildMemberFlags>) -> (r: GuildMemberModifyOptions)
        ensures
            r == (GuildMemberModifyOptions { flags: Some(flags), ..self }),
    {
        GuildMemberModifyOptions { flags: Some(flags), ..self }
    }

    /// Set the banner
    pub fn set_banner(self, banner: Option<&str>) -> (r: GuildMemberModifyOptions)
        ensures
            r.banner matches Some(inner) && opt_view(inner) == opt_str_view(banner),
            r == (GuildMemberModifyOptions { banner: r.banner, ..self }),
    {
        GuildMemberModifyOptions { banner: Some(opt_string(banner)), ..self }
    }

    /// Set the avatar
    pub fn set_avatar(self, avatar: Option<&str>) -> (r: GuildMemberModifyOptions)
        ensures
            r.avatar matches Some(inner) && opt_view(inner) == opt_str_view(avatar),
            r == (GuildMemberModifyOptions { avatar: r.avatar, ..self }),
    {
        GuildMemberModifyOptions { avatar: Some(opt_string(avatar)), ..self }
    }

    /// Set the bio
    pub fn set_bio(self, bio: Option<&str>) -> (r: GuildMemberModifyOptions)
        ensures
            r.bio matches Some(inner) && opt_view(inner) == opt_str_view(bio),
            r == (GuildMemberModifyOptions { bio: r.bio, ..self }),
    {
        GuildMemberModifyOptions { bio: Some(opt_string(bio)), ..self }
    }
}

/// The url of a member's per-server image: `guilds/guild/users/user/kind/hash.format?size=size&animated=animated`.
pub open spec fn member_image_url(kind: Seq<char>, guild_id: Seq<char>, user_id: Seq<char>, hash: Seq<char>, format: Seq<char>, size: Seq<char>, animated: bool) -> Seq<char> {
    "https://cdn.discordapp.com/guilds/"@ + guild_id + "/users/"@ + user_id + "/"@ + kind + "/"@ + hash + "."@
        + format + "?size="@ + size + "&animated="@ + bool_text(animated)
}

/// The url of a member's per-server image, the format picked by [`picked_format`].
pub open spec fn member_image_picked(kind: Seq<char>, guild_id: Seq<char>, user_id: Seq<char>, hash: Seq<char>, static_format: Seq<char>, animated_format: Option<Seq<char>>, size: Seq<char>) -> Seq<char> {
    let (format, animated) = picked_format(hash, static_format, animated_format);
    member_image_url(kind, guild_id, user_id, hash, format, size, animated)
}

fn member_image_string(kind: &str, guild_id: &str, user_id: &str, hash: &str, static_format: &str, animated_format: Option<&str>, size: &str) -> (r: String)
    ensures
        r@ == member_image_picked(kind@, guild_id@, user_id@, hash@, static_format@, opt_str_view(animated_format), size@),
{
    let (format, animated) = pick_format(hash, string_of(static_format), opt_string(animated_format));
    let mut s = string_of("https://cdn.discordapp.com/guilds/");
    push_str(&mut s, guild_id);
    push_str(&mut s, "/users/");
    push_str(&mut s, user_id);
    push_str(&mut s, "/");
    push_str(&mut s, kind);
    push_str(&mut s, "/");
    push_str(&mut s, hash);
    push_str(&mut s, ".");
    push_str(&mut s, format.as_str());
    push_str(&mut s, "?size=");
    push_str(&mut s, size);
    push_str(&mut s, "&animated=");
    let a = bool_to_string(animated);
    push_str(&mut s, a.as_str());
    s
}

impl GuildMember {
    /// Get the url for the per-server member avatar. `None` if the member has no server-specific avatar
    pub fn avatar_url(&self, guild_id: &str, user_id: &str, static_format: &str, animated_format: Option<&str>, size: &str) -> (r: Option<String>)
        ensures
            match self.avatar {
                Some(a) => r matches Some(u)
                    && u@ == member_image_picked("avatars"@, guild_id@, user_id@, a@, static_format@, opt_str_view(animated_format), size@),
                None => r is None,
            },
    {
        match &self.avatar {
            Some(a) => Some(member_image_string("avatars", guild_id, user_id, a.as_str(), static_format, animated_format, size)),
            None => None,
        }
    }

    /// Get the url for the per-server member banner. `None` if the member has no server-specific banner
    pub fn banner_url(&self, guild_id: &str, user_id: &str, static_format: &str, animated_format: Option<&str>, size: &str) -> (r: Option<String>)
        ensures
            match self.banner {
                Some(b) => r matches Some(u)
                    && u@ == member_image_picked("banners"@, guild_id@, user_id@, b@, static_format@, opt_str_view(animated_format), size@),
                None => r is None,
            },
    {
        match &self.banner {
            Some(b) => Some(member_image_string("banners", guild_id, user_id, b.as_str(), static_format, animated_format, size)),
            None => None,
        }
    }

    /// Get the url for the member avatar that would be displayed in app.\
    /// **NOTE:** Will return `None` if `user` in the `GuildMember` is `None`. Use [`User::display_avatar_url_with_member`] if you want to make sure you get the correct avatar.
    pub fn display_avatar_url(&self, guild_id: &str, static_format: &str, animated_format: Option<&str>, size: &str) -> (r: Option<String>)
        ensures
            match self.user {
                None => r is None,
                Some(user) => match self.avatar {
                    Some(a) => r matches Some(u)
                        && u@ == member_image_picked("avatars"@, guild_id@, user.id@, a@, static_format@, opt_str_view(animated_format), size@),
                    None => r matches Some(u) && match user.avatar {
                        Some(ua) => u@ == cdn_image_url("avatars"@, user.id@, ua@, static_format@, size@),
                        None => u@ == default_avatar_text(default_avatar_index(user.id@, user.discriminator@)),
                    },
                },
            },
    {
        match &self.user {
            None => None,
            Some(user) => match self.avatar_url(guild_id, user.id.as_str(), static_format, animated_format, size) {
                Some(u) => Some(u),
                None => Some(user.display_avatar_url(static_format, size)),
            },
        }
    }

    /// Get the url for the member banner that would be displayed in app. `None` if no banner is set.\
    /// **NOTE:** Will return `None` if `user` in the `GuildMember` is `None`. Use [`User::display_banner_url_with_member`] if you want to make sure you get the correct banner.
    pub fn display_banner_url(&self, guild_id: &str, static_format: &str, animated_format: Option<&str>, size: &str) -> (r: Option<String>)
        ensures
            match self.user {
                None => r is None,
                Some(user) => match self.banner {
                    Some(b) => r matches Some(u)
                        && u@ == member_image_picked("banners"@, guild_id@, user.id@, b@, static_format@, opt_str_view(animated_format), size@),
                    None => match user.banner {
                        Some(ub) => r matches Some(u) && u@ == cdn_image_url("banners"@, user.id@, ub@, static_format@, size@),
                        None => r is None,
                    },
                },
            },
    {
        match &self.user {
            None => None,
            Some(user) => match self.banner_url(guild_id, user.id.as_str(), static_format, animated_format, size) {
                Some(u) => Some(u),
                None => user.banner_url(static_format, size),
            },
        }
    }
}

impl Default for GuildMemberModifyOptions {
    /// The same as [`GuildMemberModifyOptions::new`]
    fn default() -> (r: GuildMemberModifyOptions)
        ensures
            r.nick is None,
            r.roles is None,
            r.mute is None,
            r.deaf is None,
            r.channel_id is None,
            r.communication_disabled_until is None,
            r.flags is None,
            r.banner is None,
            r.avatar is None,
            r.bio is None,
    {
        GuildMemberModifyOptions::new()
    }
}

} // verus!
