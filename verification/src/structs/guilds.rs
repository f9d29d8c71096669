//! Structs related to Discord guilds

use vstd::prelude::*;
use crate::keyed::{push_onto, vec_or_empty};
use crate::structs::{Permissions, Snowflake, Timestamp};
use crate::structs::channels::{Channel, ThreadMember};
use crate::structs::emojis::Emoji;
use crate::structs::roles::Role;
use crate::structs::stickers::Sticker;
use crate::structs::users::User;
use crate::text::{i64_to_string, int_text, opt_str_view, opt_string, opt_view, str_opt, string_of};

verus! {

/// Discord Guild Object
#[derive(Clone, Debug)]
pub struct Guild {
  /// Guild id
  pub id: Snowflake,
  /// Guild name (2-100 characters, excluding trailing and leading whitespace)
  pub name: String,
  /// [Icon hash](https://discord.com/developers/docs/reference#image-formatting)
  pub icon: Option<String>,
  /// [Icon hash](https://discord.com/developers/docs/reference#image-formatting), returned when in the template object
  pub icon_hash: Option<String>,
  /// [Splash hash](https://discord.com/developers/docs/reference#image-formatting)
  pub splash: Option<String>,
  /// [Discovery splash hash](https://discord.com/developers/docs/reference#image-formatting); only present for guilds with the "DISCOVERABLE" feature
  pub discovery_splash: Option<String>,
  /// True if [the user](https://discord.com/developers/docs/resources/user#get-current-user-guilds) is the owner of the guild
  pub owner: Option<bool>,
  /// Id of owner
  pub owner_id: Option<Snowflake>,
  /// Total permissions for [the user](https://discord.com/developers/docs/resources/user#get-current-user-guilds) in the guild (excludes overwrites and [implicit permissions](https://docs.discord.com/developers/topics/permissions#implicit-permissions))
  pub permissions: Option<Permissions>,
  /// Id of afk channel
  pub afk_channel_id: Option<Snowflake>,
  /// Afk timeout in seconds
  pub afk_timeout: Option<i64>,
  /// True if the server widget is enabled
  pub widget_enabled: Option<bool>,
  /// The channel id that the widget will generate an invite to, or None if set to no invite
  pub widget_channel_id: Option<Snowflake>,
  /// [Verification level](VerificationLevel) required for the guild
  pub verification_level: Option<VerificationLevel>,
  /// Default [message notifications level](MessageNotificationLevel)
  pub default_message_notifications: Option<MessageNotificationLevel>,
  /// [Explicit content filter level](ExplicitContentFilterLevel)
  pub explicit_content_filter: Option<ExplicitContentFilterLevel>,
  /// Roles in the guild
  pub roles: Option<Vec<Role>>,
  /// Custom guild emojis
  pub emojis: Option<Vec<Emoji>>,
  /// Enabled guild features
  pub features: Vec<String>,
  /// Required [MFA level](MFALevel) for the guild
  pub mfa_level: Option<MFALevel>,
  /// Application id of the guild creator if it is bot-created
  pub application_id: Option<Snowflake>,
  /// The id of the channel where guild notices such as welcome messages and boost events are posted
  pub system_channel_id: Option<Snowflake>,
  /// [System channel flags](SystemChannelFlags)
  pub system_channel_flags: Option<SystemChannelFlags>,
  /// The id of the channel where Community guilds can display rules and/or guidelines
  pub rules_channel_id: Option<Snowflake>,
  /// The maximum number of presences for the guild (`None` is always returned, apart from the largest of guilds)
  pub max_presences: Option<i64>,
  /// The maximum number of members for the guild
  pub max_members: Option<i64>,
  /// The vanity url code for the guild
  pub vanity_url_code: Option<String>,
  /// The description of a guild
  pub description: Option<String>,
  /// [Banner hash](https://discord.com/developers/docs/reference#image-formatting)
  pub banner: Option<String>,
  /// [Premium tier](PremiumTier) (Server Boost level)
  pub premium_tier: Option<PremiumTier>,
  /// The number of boosts this guild currently has
  pub premium_subscription_count: Option<i64>,
  /// The preferred locale of a Community guild; used in server discovery and notices from Discord, and sent in interactions; defaults to "en-US"
  pub preferred_locale: Option<String>,
  /// The id of the channel where admins and moderators of Community guilds receive notices from Discord
  pub public_updates_channel_id: Option<Snowflake>,
  /// The maximum amount of users in a video channel
  pub max_video_channel_users: Option<i64>,
  /// The maximum amount of users in a stage video channel
  pub max_stage_video_channel_users: Option<i64>,
  /// Approximate number of members in this guild, returned from the `GET /guilds/<id>` and `/users/@me/guilds` endpoints when `with_counts` is `true`
  pub approximate_member_count: Option<i64>,
  /// Approximate number of non-offline members in this guild, returned from the `GET /guilds/<id>` and `/users/@me/guilds` endpoints when `with_counts` is `true`
  pub approximate_presence_count: Option<i64>,
  /// The welcome screen of a Community guild, shown to new members, returned in an [Invite]'s guild object
  pub welcome_screen: Option<WelcomeScreen>,
  /// [Guild age-restriction level](NSFWLevel)
  pub nsfw_level: Option<NSFWLevel>,
  /// Custom guild stickers
  pub stickers: Option<Vec<Sticker>>,
  /// Whether the guild has the boost progress bar enabled
  pub premium_progress_bar_enabled: Option<bool>,
  /// The id of the channel where admins and moderators of Community guilds receive safety alerts from Discord
  pub safety_alerts_channel_id: Option<Snowflake>,
  /// The incidents data for this guild
  pub incidents_data: Option<GuildIncidentsData>,
}

/// Discord Guild Preview Object
#[derive(Clone, Debug)]
pub struct GuildPreview {
  /// Guild id
  pub id: Snowflake,
  /// Guild name (2-100 characters)
  pub name: String,
  /// [Icon hash](https://discord.com/developers/docs/reference#image-formatting)
  pub icon: Option<String>,
  /// [Splash hash](https://discord.com/developers/docs/reference#image-formatting)
  pub splash: Option<String>,
  /// [Discovery splash hash](https://discord.com/developers/docs/reference#image-formatting)
  pub discovery_splash: Option<String>,
  /// Custom guild emojis
  pub emojis: Vec<Emoji>,
  /// Enabled guild features
  pub features: Vec<String>,
  /// Approximate number of members in this guild
  pub approximate_member_count: i64,
  /// Approximate number of online members in this guild
  pub approximate_presence_count: i64,
  /// The description for the guild
  pub description: Option<String>,
  /// Custom guild stickers
  pub stickers: Vec<Sticker>,
}

/// Discord Verification Levels
#[derive(Clone, Copy, Debug, PartialEq, Eq, Hash, Structural)]
#[allow(non_camel_case_types)]
pub enum VerificationLevel {
  /// Unrestricted
  NONE,
  /// Must have verified email on account
  LOW,
  /// Must be registered on Discord for longer than 5 minutes
  MEDIUM,
  /// Must be a member of the server for longer than 10 minutes
  HIGH,
  /// Must have a verified phone number
  VERY_HIGH,
  /// Verification level that hasn't been implemented yet
  UNKNOWN,
}

impl VerificationLevel {
    /// The number that Discord uses for this value.
    pub open spec fn spec_code(self) -> u8 {
        match self {
            VerificationLevel::NONE => 0,
            VerificationLevel::LOW => 1,
            VerificationLevel::MEDIUM => 2,
            VerificationLevel::HIGH => 3,
            VerificationLevel::VERY_HIGH => 4,
            VerificationLevel::UNKNOWN => 5,
        }
    }

    /// The value that Discord's number `code` stands for, if any.
    pub open spec fn spec_from_code(code: u8) -> Option<VerificationLevel> {
        match code {
            0 => Some(VerificationLevel::NONE),
            1 => Some(VerificationLevel::LOW),
            2 => Some(VerificationLevel::MEDIUM),
            3 => Some(VerificationLevel::HIGH),
            4 => Some(VerificationLevel::VERY_HIGH),
            5 => Some(VerificationLevel::UNKNOWN),
            _ => Some(VerificationLevel::UNKNOWN),
        }
    }

    /// The number that Discord uses for this value.
    pub fn code(&self) -> (r: u8)
        ensures
            r == self.spec_code(),
    {
        match self {
            VerificationLevel::NONE => 0,
            VerificationLevel::LOW => 1,
            VerificationLevel::MEDIUM => 2,
            VerificationLevel::HIGH => 3,
            VerificationLevel::VERY_HIGH => 4,
            VerificationLevel::UNKNOWN => 5,
        }
    }

    /// The value that Discord's number `code` stands for, if any.
    pub fn from_code(code: u8) -> (r: Option<VerificationLevel>)
        ensures
            r == VerificationLevel::spec_from_code(code),
    {
        match code {
            0 => Some(VerificationLevel::NONE),
            1 => Some(VerificationLevel::LOW),
            2 => Some(VerificationLevel::MEDIUM),
            3 => Some(VerificationLevel::HIGH),
            4 => Some(VerificationLevel::VERY_HIGH),
            5 => Some(VerificationLevel::UNKNOWN),
            _ => Some(VerificationLevel::UNKNOWN),
        }
    }
}

/// Discord Message Notifications Level
#[derive(Clone, Copy, Debug, PartialEq, Eq, Hash, Structural)]
#[allow(non_camel_case_types)]
pub enum MessageNotificationLevel {
  /// Members will receive notifications for all messages by default
  ALL_MESSAGES,
  /// Members will receive notifications only for messages that @mention them by default
  ONLY_MENTIONS,
  /// Message notifications level that hasn't been implemented yet
  UNKNOWN,
}

impl MessageNotificationLevel {
    /// The number that Discord uses for this value.
    pub open spec fn spec_code(self) -> u8 {
        match self {
            MessageNotificationLevel::ALL_MESSAGES => 0,
            MessageNotificationLevel::ONLY_MENTIONS => 1,
            MessageNotificationLevel::UNKNOWN => 2,
        }
    }

    /// The value that Discord's number `code` stands for, if any.
    pub open spec fn spec_from_code(code: u8) -> Option<MessageNotificationLevel> {
        match code {
            0 => Some(MessageNotificationLevel::ALL_MESSAGES),
            1 => Some(MessageNotificationLevel::ONLY_MENTIONS),
            2 => Some(MessageNotificationLevel::UNKNOWN),
            _ => Some(MessageNotificationLevel::UNKNOWN),
        }
    }

    /// The number that Discord uses for this value.
    pub fn code(&self) -> (r: u8)
        ensures
            r == self.spec_code(),
    {
        match self {
            MessageNotificationLevel::ALL_MESSAGES => 0,
            MessageNotificationLevel::ONLY_MENTIONS => 1,
            MessageNotificationLevel::UNKNOWN => 2,
        }
    }

    /// The value that Discord's number `code` stands for, if any.
    pub fn from_code(code: u8) -> (r: Option<MessageNotificationLevel>)
        ensures
            r == MessageNotificationLevel::spec_from_code(code),
    {
        match code {
            0 => Some(MessageNotificationLevel::ALL_MESSAGES),
            1 => Some(MessageNotificationLevel::ONLY_MENTIONS),
            2 => Some(MessageNotificationLevel::UNKNOWN),
            _ => Some(MessageNotificationLevel::UNKNOWN),
        }
    }
}

/// Discord Explicit Content Filter Level
#[derive(Clone, Copy, Debug, PartialEq, Eq, Hash, Structural)]
#[allow(non_camel_case_types)]
pub enum ExplicitContentFilterLevel {
  /// Media content will not be scanned
  DISABLED,
  /// Media content sent by members without roles will be scanned
  MEMBERS_WITHOUT_ROLES,
  /// Media content sent by all members will be scanned
  ALL_MEMBERS,
  /// Explicit content filter level that hasn't been implemented yet
  UNKNOWN,
}

impl ExplicitContentFilterLevel {
    /// The number that Discord uses for this value.
    pub open spec fn spec_code(self) -> u8 {
        match self {
            ExplicitContentFilterLevel::DISABLED => 0,
            ExplicitContentFilterLevel::MEMBERS_WITHOUT_ROLES => 1,
            ExplicitContentFilterLevel::ALL_MEMBERS => 2,
            ExplicitContentFilterLevel::UNKNOWN => 3,
        }
    }

    /// The value that Discord's number `code` stands for, if any.
    pub open spec fn spec_from_code(code: u8) -> Option<ExplicitContentFilterLevel> {
        match code {
            0 => Some(ExplicitContentFilterLevel::DISABLED),
            1 => Some(ExplicitContentFilterLevel::MEMBERS_WITHOUT_ROLES),
            2 => Some(ExplicitContentFilterLevel::ALL_MEMBERS),
            3 => Some(ExplicitContentFilterLevel::UNKNOWN),
            _ => Some(ExplicitContentFilterLevel::UNKNOWN),
        }
    }

    /// The number that Discord uses for this value.
    pub fn code(&self) -> (r: u8)
        ensures
            r == self.spec_code(),
    {
        match self {
            ExplicitContentFilterLevel::DISABLED => 0,
            ExplicitContentFilterLevel::MEMBERS_WITHOUT_ROLES => 1,
            ExplicitContentFilterLevel::ALL_MEMBERS => 2,
            ExplicitContentFilterLevel::UNKNOWN => 3,
        }
    }

    /// The value that Discord's number `code` stands for, if any.
    pub fn from_code(code: u8) -> (r: Option<ExplicitContentFilterLevel>)
        ensures
            r == ExplicitContentFilterLevel::spec_from_code(code),
    {
        match code {
            0 => Some(ExplicitContentFilterLevel::DISABLED),
            1 => Some(ExplicitContentFilterLevel::MEMBERS_WITHOUT_ROLES),
            2 => Some(ExplicitContentFilterLevel::ALL_MEMBERS),
            3 => Some(ExplicitContentFilterLevel::UNKNOWN),
            _ => Some(ExplicitContentFilterLevel::UNKNOWN),
        }
    }
}

/// Discord MFA Level
#[derive(Clone, Copy, Debug, PartialEq, Eq, Hash, Structural)]
#[allow(non_camel_case_types)]
pub enum MFALevel {
  /// Guild has no MFA/2FA requirement for moderation actions
  NONE,
  /// Guild has a 2FA requirement for moderation actions
  ELEVATED,
  /// MFA level that hasn't been implemented yet
  UNKNOWN,
}

impl MFALevel {
    /// The number that Discord uses for this value.
    pub open spec fn spec_code(self) -> u8 {
        match self {
            MFALevel::NONE => 0,
            MFALevel::ELEVATED => 1,
            MFALevel::UNKNOWN => 2,
        }
    }

    /// The value that Discord's number `code` stands for, if any.
    pub open spec fn spec_from_code(code: u8) -> Option<MFALevel> {
        match code {
            0 => Some(MFALevel::NONE),
            1 => Some(MFALevel::ELEVATED),
            2 => Some(MFALevel::UNKNOWN),
            _ => Some(MFALevel::UNKNOWN),
        }
    }

    /// The number that Discord uses for this value.
    pub fn code(&self) -> (r: u8)
        ensures
            r == self.spec_code(),
    {
        match self {
            MFALevel::NONE => 0,
            MFALevel::ELEVATED => 1,
            MFALevel::UNKNOWN => 2,
        }
    }

    /// The value that Discord's number `code` stands for, if any.
    pub fn from_code(code: u8) -> (r: Option<MFALevel>)
        ensures
            r == MFALevel::spec_from_code(code),
    {
        match code {
            0 => Some(MFALevel::NONE),
            1 => Some(MFALevel::ELEVATED),
            2 => Some(MFALevel::UNKNOWN),
            _ => Some(MFALevel::UNKNOWN),
        }
    }
}

/// Discord Premium Tier
#[derive(Clone, Copy, Debug, PartialEq, Eq, Hash, Structural)]
#[allow(non_camel_case_types)]
pub enum PremiumTier {
  /// Guild has not unlocked any Server Boost perks
  NONE,
  /// Guild has unlocked Server Boost level 1 perks
  TIER_1,
  /// Guild has unlocked Server Boost level 2 perks
  TIER_2,
  /// Guild has unlocked Server Boost level 3 perks
  TIER_3,
  /// Premium tier that hasn't been implemented yet
  UNKNOWN,
}

impl PremiumTier {
    /// The number that Discord uses for this value.
    pub open spec fn spec_code(self) -> u8 {
        match self {
            PremiumTier::NONE => 0,
            PremiumTier::TIER_1 => 1,
            PremiumTier::TIER_2 => 2,
            PremiumTier::TIER_3 => 3,
            PremiumTier::UNKNOWN => 4,
        }
    }

    /// The value that Discord's number `code` stands for, if any.
    pub open spec fn spec_from_code(code: u8) -> Option<PremiumTier> {
        match code {
            0 => Some(PremiumTier::NONE),
            1 => Some(PremiumTier::TIER_1),
            2 => Some(PremiumTier::TIER_2),
            3 => Some(PremiumTier::TIER_3),
            4 => Some(PremiumTier::UNKNOWN),
            _ => Some(PremiumTier::UNKNOWN),
        }
    }

    /// The number that Discord uses for this value.
    pub fn code(&self) -> (r: u8)
        ensures
            r == self.spec_code(),
    {
        match self {
            PremiumTier::NONE => 0,
            PremiumTier::TIER_1 => 1,
            PremiumTier::TIER_2 => 2,
            PremiumTier::TIER_3 => 3,
            PremiumTier::UNKNOWN => 4,
        }
    }

    /// The value that Discord's number `code` stands for, if any.
    pub fn from_code(code: u8) -> (r: Option<PremiumTier>)
        ensures
            r == PremiumTier::spec_from_code(code),
    {
        match code {
            0 => Some(PremiumTier::NONE),
            1 => Some(PremiumTier::TIER_1),
            2 => Some(PremiumTier::TIER_2),
            3 => Some(PremiumTier::TIER_3),
            4 => Some(PremiumTier::UNKNOWN),
            _ => Some(PremiumTier::UNKNOWN),
        }
    }
}

/// Discord Welcome Screen Object
#[derive(Clone, Debug)]
pub struct WelcomeScreen {
  /// The server description shown in the welcome screen
  pub description: Option<String>,
  /// The channels shown in the welcome screen, up to 5
  pub welcome_channels: Vec<WelcomeScreenChannel>,
}

/// Discord Welcome Screen Channel Object
#[derive(Clone, Debug)]
pub struct WelcomeScreenChannel {
  /// The channel's id
  pub channel_id: Snowflake,
  /// The description shown for the channel
  pub description: String,
  /// The [emoji id](https://discord.com/developers/docs/reference#image-formatting), if the emoji is custom
  pub emoji_id: Option<String>,
  /// The emoji name if custom, the unicode character if standard, or `None` if no emoji is set
  pub emoji_name: Option<String>,
}

/// Discord Guild NSFW Level
#[derive(Clone, Copy, Debug, PartialEq, Eq, Hash, Structural)]
#[allow(non_camel_case_types)]
pub enum NSFWLevel {
  /// Default
  DEFAULT,
  /// Explicit
  EXPLICIT,
  /// Safe
  SAFE,
  /// Age Restricted
  AGE_RESTRICTED,
  /// NSFW level that hasn't been implemented yet
  UNKNOWN,
}

impl NSFWLevel {
    /// The number that Discord uses for this value.
    pub open spec fn spec_code(self) -> u8 {
        match self {
            NSFWLevel::DEFAULT => 0,
            NSFWLevel::EXPLICIT => 1,
            NSFWLevel::SAFE => 2,
            NSFWLevel::AGE_RESTRICTED => 3,
            NSFWLevel::UNKNOWN => 4,
        }
    }

    /// The value that Discord's number `code` stands for, if any.
    pub open spec fn spec_from_code(code: u8) -> Option<NSFWLevel> {
        match code {
            0 => Some(NSFWLevel::DEFAULT),
            1 => Some(NSFWLevel::EXPLICIT),
            2 => Some(NSFWLevel::SAFE),
            3 => Some(NSFWLevel::AGE_RESTRICTED),
            4 => Some(NSFWLevel::UNKNOWN),
            _ => Some(NSFWLevel::UNKNOWN),
        }
    }

    /// The number that Discord uses for this value.
    pub fn code(&self) -> (r: u8)
        ensures
            r == self.spec_code(),
    {
        match self {
            NSFWLevel::DEFAULT => 0,
            NSFWLevel::EXPLICIT => 1,
            NSFWLevel::SAFE => 2,
            NSFWLevel::AGE_RESTRICTED => 3,
            NSFWLevel::UNKNOWN => 4,
        }
    }

    /// The value that Discord's number `code` stands for, if any.
    pub fn from_code(code: u8) -> (r: Option<NSFWLevel>)
        ensures
            r == NSFWLevel::spec_from_code(code),
    {
        match code {
            0 => Some(NSFWLevel::DEFAULT),
            1 => Some(NSFWLevel::EXPLICIT),
            2 => Some(NSFWLevel::SAFE),
            3 => Some(NSFWLevel::AGE_RESTRICTED),
            4 => Some(NSFWLevel::UNKNOWN),
            _ => Some(NSFWLevel::UNKNOWN),
        }
    }
}

/// Discord Incidents Data Object
#[derive(Clone, Debug)]
pub struct GuildIncidentsData {
  /// When invites get enabled again
  pub invites_disabled_until: Option<Timestamp>,
  /// When direct messages get enabled again
  pub dms_disabled_until: Option<Timestamp>,
  /// When the dm spam was detected
  pub dm_spam_detected_at: Option<Timestamp>,
  /// When the raid was detected
  pub raid_detected_at: Option<Timestamp>,
}

/// Discord Guild Scheduled Event Object
#[derive(Clone, Debug)]
pub struct GuildScheduledEvent {
  /// The id of the scheduled event
  pub id: Snowflake,
  /// The guild id which the scheduled event belongs to
  pub guild_id: Snowflake,
  /// The channel id in which the scheduled event will be hosted, or `None` if scheduled entity type is `EXTERNAL`
  pub channel_id: Option<Snowflake>,
  /// The id of the user that created the scheduled event
  pub creator_id: Option<Snowflake>,
  /// The name of the scheduled event (1-100 characters)
  pub name: String,
  /// The description of the scheduled event (1-1000 characters)
  pub description: Option<String>,
  /// The time the scheduled event will start
  pub scheduled_start_time: Timestamp,
  /// The time the scheduled event will end, required if entity_type is `EXTERNAL`
  pub scheduled_end_time: Option<Timestamp>,
  /// The privacy level of the scheduled event
  pub privacy_level: PrivacyLevel,
  /// The status of the scheduled event
  pub status: EventStatus,
  /// The type of the scheduled event
  pub entity_type: EntityType,
  /// The id of an entity associated with a guild scheduled event
  pub entity_id: Option<Snowflake>,
  /// Additional metadata for the guild scheduled event
  pub entity_metadata: Option<EntityMetadata>,
  /// The user that created the scheduled event
  pub creator: Option<User>,
  /// The number of users subscribed to the scheduled event
  pub user_count: Option<i64>,
  /// The [cover image hash](https://discord.com/developers/docs/reference#image-formatting) of the scheduled event
  pub image: Option<String>,
  /// The definition for how often this event should recur
  pub recurrence_rule: Option<EventRecurrenceRule>,
}

/// Discord Guild Scheduled Event Privacy Level
#[derive(Clone, Copy, Debug, PartialEq, Eq, Hash, Structural)]
#[allow(non_camel_case_types)]
pub enum PrivacyLevel {
  /// The scheduled event is only accessible to guild members
  GUILD_ONLY,
  /// Privacy level that hasn't been implemented yet
  UNKNOWN,
}

impl PrivacyLevel {
    /// The number that Discord uses for this value.
    pub open spec fn spec_code(self) -> u8 {
        match self {
            PrivacyLevel::GUILD_ONLY => 2,
            PrivacyLevel::UNKNOWN => 3,
        }
    }

    /// The value that Discord's number `code` stands for, if any.
    pub open spec fn spec_from_code(code: u8) -> Option<PrivacyLevel> {
        match code {
            2 => Some(PrivacyLevel::GUILD_ONLY),
            3 => Some(PrivacyLevel::UNKNOWN),
            _ => Some(PrivacyLevel::UNKNOWN),
        }
    }

    /// The number that Discord uses for this value.
    pub fn code(&self) -> (r: u8)
        ensures
            r == self.spec_code(),
    {
        match self {
            PrivacyLevel::GUILD_ONLY => 2,
            PrivacyLevel::UNKNOWN => 3,
        }
    }

    /// The value that Discord's number `code` stands for, if any.
    pub fn from_code(code: u8) -> (r: Option<PrivacyLevel>)
        ensures
            r == PrivacyLevel::spec_from_code(code),
    {
        match code {
            2 => Some(PrivacyLevel::GUILD_ONLY),
            3 => Some(PrivacyLevel::UNKNOWN),
            _ => Some(PrivacyLevel::UNKNOWN),
        }
    }
}

/// Discord Guild Scheduled Event Status
#[derive(Clone, Copy, Debug, PartialEq, Eq, Hash, Structural)]
#[allow(non_camel_case_types)]
pub enum EventStatus {
  /// Scheduled
  SCHEDULED,
  /// Active
  ACTIVE,
  /// Completed
  COMPLETED,
  /// Canceled
  CANCELED,
  /// Status that hasn't been implemented yet
  UNKNOWN,
}

impl EventStatus {
    /// The number that Discord uses for this value.
    pub open spec fn spec_code(self) -> u8 {
        match self {
            EventStatus::SCHEDULED => 1,
            EventStatus::ACTIVE => 2,
            EventStatus::COMPLETED => 3,
            EventStatus::CANCELED => 4,
            EventStatus::UNKNOWN => 5,
        }
    }

    /// The value that Discord's number `code` stands for, if any.
    pub open spec fn spec_from_code(code: u8) -> Option<EventStatus> {
        match code {
            1 => Some(EventStatus::SCHEDULED),
            2 => Some(EventStatus::ACTIVE),
            3 => Some(EventStatus::COMPLETED),
            4 => Some(EventStatus::CANCELED),
            5 => Some(EventStatus::UNKNOWN),
            _ => Some(EventStatus::UNKNOWN),
        }
    }

    /// The number that Discord uses for this value.
    pub fn code(&self) -> (r: u8)
        ensures
            r == self.spec_code(),
    {
        match self {
            EventStatus::SCHEDULED => 1,
            EventStatus::ACTIVE => 2,
            EventStatus::COMPLETED => 3,
            EventStatus::CANCELED => 4,
            EventStatus::UNKNOWN => 5,
        }
    }

    /// The value that Discord's number `code` stands for, if any.
    pub fn from_code(code: u8) -> (r: Option<EventStatus>)
        ensures
            r == EventStatus::spec_from_code(code),
    {
        match code {
            1 => Some(EventStatus::SCHEDULED),
            2 => Some(EventStatus::ACTIVE),
            3 => Some(EventStatus::COMPLETED),
            4 => Some(EventStatus::CANCELED),
            5 => Some(EventStatus::UNKNOWN),
            _ => Some(EventStatus::UNKNOWN),
        }
    }
}

/// Discord Guild Scheduled Event Entity Types
#[derive(Clone, Copy, Debug, PartialEq, Eq, Hash, Structural)]
#[allow(non_camel_case_types)]
pub enum EntityType {
  /// Stage instance
  STAGE_INSTANCE,
  /// Voice
  VOICE,
  /// External
  EXTERNAL,
  /// Entity type that hasn't been implemented yet
  UNKNOWN,
}

impl EntityType {
    /// The number that Discord uses for this value.
    pub open spec fn spec_code(self) -> u8 {
        match self {
            EntityType::STAGE_INSTANCE => 1,
            EntityType::VOICE => 2,
            EntityType::EXTERNAL => 3,
            EntityType::UNKNOWN => 4,
        }
    }

    /// The value that Discord's number `code` stands for, if any.
    pub open spec fn spec_from_code(code: u8) -> Option<EntityType> {
        match code {
            1 => Some(EntityType::STAGE_INSTANCE),
            2 => Some(EntityType::VOICE),
            3 => Some(EntityType::EXTERNAL),
            4 => Some(EntityType::UNKNOWN),
            _ => Some(EntityType::UNKNOWN),
        }
    }

    /// The number that Discord uses for this value.
    pub fn code(&self) -> (r: u8)
        ensures
            r == self.spec_code(),
    {
        match self {
            EntityType::STAGE_INSTANCE => 1,
            EntityType::VOICE => 2,
            EntityType::EXTERNAL => 3,
            EntityType::UNKNOWN => 4,
        }
    }

    /// The value that Discord's number `code` stands for, if any.
    pub fn from_code(code: u8) -> (r: Option<EntityType>)
        ensures
            r == EntityType::spec_from_code(code),
    {
        match code {
            1 => Some(EntityType::STAGE_INSTANCE),
            2 => Some(EntityType::VOICE),
            3 => Some(EntityType::EXTERNAL),
            4 => Some(EntityType::UNKNOWN),
            _ => Some(EntityType::UNKNOWN),
        }
    }
}

/// Discord Guild Scheduled Event Entity Metadata
#[derive(Clone, Debug)]
pub struct EntityMetadata {
  /// Location of the event (1-100 characters)
  pub location: Option<String>,
}

/// Discord Guild Scheduled Event Recurrence Rule Object
#[derive(Clone, Debug)]
pub struct EventRecurrenceRule {
  /// Starting time of the recurrence interval
  pub start: Timestamp,
  /// Ending time of the recurrence interval
  pub end: Option<Timestamp>,
  /// How often the event occurs
  pub frequency: EventRecurrenceRuleFrequency,
  /// The spacing between the events, defined by `frequency`. For example, `frequency` of `WEEKLY` and an `interval` of `2` would be "every-other week"
  pub interval: i64,
  /// Set of specific days within a week for the event to recur on
  pub by_weekday: Option<Vec<EventRecurrenceRuleWeekday>>,
  /// List of specific days within a specific week (1-5) to recur on
  pub by_n_weekday: Option<Vec<EventRecurrenceRuleNWeekday>>,
  /// Set of specific months to recur on
  pub by_month: Option<Vec<EventRecurrenceRuleMonth>>,
  /// Set of specific dates within a month to recur on
  pub by_month_day: Option<Vec<i64>>,
  /// Set of days within a year to recur on (1-364)
  pub by_year_day: Option<Vec<i64>>,
  /// The total amount of times that the event is allowed to recur before stopping
  pub count: Option<i64>,
}

/// Discord Guild Scheduled Event Recurrence Rule - Frequency
#[derive(Clone, Copy, Debug, PartialEq, Eq, Hash, Structural)]
#[allow(non_camel_case_types)]
pub enum EventRecurrenceRuleFrequency {
  /// Yearly
  YEARLY,
  /// Monthly
  MONTHLY,
  /// Weekly
  WEEKLY,
  /// Daily
  DAILY,
  /// Frequency not implemented yet
  UNKNOWN,
}

impl EventRecurrenceRuleFrequency {
    /// The number that Discord uses for this value.
    pub open spec fn spec_code(self) -> u8 {
        match self {
            EventRecurrenceRuleFrequency::YEARLY => 0,
            EventRecurrenceRuleFrequency::MONTHLY => 1,
            EventRecurrenceRuleFrequency::WEEKLY => 2,
            EventRecurrenceRuleFrequency::DAILY => 3,
            EventRecurrenceRuleFrequency::UNKNOWN => 4,
        }
    }

    /// The value that Discord's number `code` stands for, if any.
    pub open spec fn spec_from_code(code: u8) -> Option<EventRecurrenceRuleFrequency> {
        match code {
            0 => Some(EventRecurrenceRuleFrequency::YEARLY),
            1 => Some(EventRecurrenceRuleFrequency::MONTHLY),
            2 => Some(EventRecurrenceRuleFrequency::WEEKLY),
            3 => Some(EventRecurrenceRuleFrequency::DAILY),
            4 => Some(EventRecurrenceRuleFrequency::UNKNOWN),
            _ => Some(EventRecurrenceRuleFrequency::UNKNOWN),
        }
    }

    /// The number that Discord uses for this value.
    pub fn code(&self) -> (r: u8)
        ensures
            r == self.spec_code(),
    {
        match self {
            EventRecurrenceRuleFrequency::YEARLY => 0,
            EventRecurrenceRuleFrequency::MONTHLY => 1,
            EventRecurrenceRuleFrequency::WEEKLY => 2,
            EventRecurrenceRuleFrequency::DAILY => 3,
            EventRecurrenceRuleFrequency::UNKNOWN => 4,
        }
    }

    /// The value that Discord's number `code` stands for, if any.
    pub fn from_code(code: u8) -> (r: Option<EventRecurrenceRuleFrequency>)
        ensures
            r == EventRecurrenceRuleFrequency::spec_from_code(code),
    {
        match code {
            0 => Some(EventRecurrenceRuleFrequency::YEARLY),
            1 => Some(EventRecurrenceRuleFrequency::MONTHLY),
            2 => Some(EventRecurrenceRuleFrequency::WEEKLY),
            3 => Some(EventRecurrenceRuleFrequency::DAILY),
            4 => Some(EventRecurrenceRuleFrequency::UNKNOWN),
            _ => Some(EventRecurrenceRuleFrequency::UNKNOWN),
        }
    }
}

/// Discord Guild Scheduled Event Recurrence Rule - Weekday
#[derive(Clone, Copy, Debug, PartialEq, Eq, Hash, Structural)]
#[allow(non_camel_case_types)]
pub enum EventRecurrenceRuleWeekday {
  /// Monday
  MONDAY,
  /// Tuesday
  TUESDAY,
  /// Wednesday
  WEDNESDAY,
  /// Thursday
  THURSDAY,
  /// Friday
  FRIDAY,
  /// Saturday
  SATURDAY,
  /// Sunday
  SUNDAY,
  /// If for some reason humanity decides to create a new weekday
  UNKNOWN,
}

impl EventRecurrenceRuleWeekday {
    /// The number that Discord uses for this value.
    pub open spec fn spec_code(self) -> u8 {
        match self {
            EventRecurrenceRuleWeekday::MONDAY => 0,
            EventRecurrenceRuleWeekday::TUESDAY => 1,
            EventRecurrenceRuleWeekday::WEDNESDAY => 2,
            EventRecurrenceRuleWeekday::THURSDAY => 3,
            EventRecurrenceRuleWeekday::FRIDAY => 4,
            EventRecurrenceRuleWeekday::SATURDAY => 5,
            EventRecurrenceRuleWeekday::SUNDAY => 6,
            EventRecurrenceRuleWeekday::UNKNOWN => 7,
        }
    }

    /// The value that Discord's number `code` stands for, if any.
    pub open spec fn spec_from_code(code: u8) -> Option<EventRecurrenceRuleWeekday> {
        match code {
            0 => Some(EventRecurrenceRuleWeekday::MONDAY),
            1 => Some(EventRecurrenceRuleWeekday::TUESDAY),
            2 => Some(EventRecurrenceRuleWeekday::WEDNESDAY),
            3 => Some(EventRecurrenceRuleWeekday::THURSDAY),
            4 => Some(EventRecurrenceRuleWeekday::FRIDAY),
            5 => Some(EventRecurrenceRuleWeekday::SATURDAY),
            6 => Some(EventRecurrenceRuleWeekday::SUNDAY),
            7 => Some(EventRecurrenceRuleWeekday::UNKNOWN),
            _ => Some(EventRecurrenceRuleWeekday::UNKNOWN),
        }
    }

    /// The number that Discord uses for this value.
    pub fn code(&self) -> (r: u8)
        ensures
            r == self.spec_code(),
    {
        match self {
            EventRecurrenceRuleWeekday::MONDAY => 0,
            EventRecurrenceRuleWeekday::TUESDAY => 1,
            EventRecurrenceRuleWeekday::WEDNESDAY => 2,
            EventRecurrenceRuleWeekday::THURSDAY => 3,
            EventRecurrenceRuleWeekday::FRIDAY => 4,
            EventRecurrenceRuleWeekday::SATURDAY => 5,
            EventRecurrenceRuleWeekday::SUNDAY => 6,
            EventRecurrenceRuleWeekday::UNKNOWN => 7,
        }
    }

    /// The value that Discord's number `code` stands for, if any.
    pub fn from_code(code: u8) -> (r: Option<EventRecurrenceRuleWeekday>)
        ensures
            r == EventRecurrenceRuleWeekday::spec_from_code(code),
    {
        match code {
            0 => Some(EventRecurrenceRuleWeekday::MONDAY),
            1 => Some(EventRecurrenceRuleWeekday::TUESDAY),
            2 => Some(EventRecurrenceRuleWeekday::WEDNESDAY),
            3 => Some(EventRecurrenceRuleWeekday::THURSDAY),
            4 => Some(EventRecurrenceRuleWeekday::FRIDAY),
            5 => Some(EventRecurrenceRuleWeekday::SATURDAY),
            6 => Some(EventRecurrenceRuleWeekday::SUNDAY),
            7 => Some(EventRecurrenceRuleWeekday::UNKNOWN),
            _ => Some(EventRecurrenceRuleWeekday::UNKNOWN),
        }
    }
}

/// Discord Guild Scheduled Event Recurrence Rule - N_Weekday
#[derive(Clone, Debug)]
pub struct EventRecurrenceRuleNWeekday {
  /// The week to reoccur on. 1 - 5
  pub n: i64,
  /// The day within the week to reoccur on
  pub day: EventRecurrenceRuleWeekday,
}

/// Discord Guild Scheduled Event Recurrence Rule - Month
#[derive(Clone, Copy, Debug, PartialEq, Eq, Hash, Structural)]
#[allow(non_camel_case_types)]
pub enum EventRecurrenceRuleMonth {
  /// January
  JANUARY,
  /// February
  FEBRUARY,
  /// March
  MARCH,
  /// April
  APRIL,
  /// May
  MAY,
  /// June
  JUNE,
  /// July
  JULY,
  /// August
  AUGUST,
  /// September
  SEPTEMBER,
  /// October
  OCTOBER,
  /// November
  NOVEMBER,
  /// December
  DECEMBER,
  /// If for some reason humanity decides to create a new month
  UNKNOWN,
}

impl EventRecurrenceRuleMonth {
    /// The number that Discord uses for this value.
    pub open spec fn spec_code(self) -> u8 {
        match self {
            EventRecurrenceRuleMonth::JANUARY => 1,
            EventRecurrenceRuleMonth::FEBRUARY => 2,
            EventRecurrenceRuleMonth::MARCH => 3,
            EventRecurrenceRuleMonth::APRIL => 4,
            EventRecurrenceRuleMonth::MAY => 5,
            EventRecurrenceRuleMonth::JUNE => 6,
            EventRecurrenceRuleMonth::JULY => 7,
            EventRecurrenceRuleMonth::AUGUST => 8,
            EventRecurrenceRuleMonth::SEPTEMBER => 9,
            EventRecurrenceRuleMonth::OCTOBER => 10,
            EventRecurrenceRuleMonth::NOVEMBER => 11,
            EventRecurrenceRuleMonth::DECEMBER => 12,
            EventRecurrenceRuleMonth::UNKNOWN => 13,
        }
    }

    /// The value that Discord's number `code` stands for, if any.
    pub open spec fn spec_from_code(code: u8) -> Option<EventRecurrenceRuleMonth> {
        match code {
            1 => Some(EventRecurrenceRuleMonth::JANUARY),
            2 => Some(EventRecurrenceRuleMonth::FEBRUARY),
            3 => Some(EventRecurrenceRuleMonth::MARCH),
            4 => Some(EventRecurrenceRuleMonth::APRIL),
            5 => Some(EventRecurrenceRuleMonth::MAY),
            6 => Some(EventRecurrenceRuleMonth::JUNE),
            7 => Some(EventRecurrenceRuleMonth::JULY),
            8 => Some(EventRecurrenceRuleMonth::AUGUST),
            9 => Some(EventRecurrenceRuleMonth::SEPTEMBER),
            10 => Some(EventRecurrenceRuleMonth::OCTOBER),
            11 => Some(EventRecurrenceRuleMonth::NOVEMBER),
            12 => Some(EventRecurrenceRuleMonth::DECEMBER),
            13 => Some(EventRecurrenceRuleMonth::UNKNOWN),
            _ => Some(EventRecurrenceRuleMonth::UNKNOWN),
        }
    }

    /// The number that Discord uses for this value.
    pub fn code(&self) -> (r: u8)
        ensures
            r == self.spec_code(),
    {
        match self {
            EventRecurrenceRuleMonth::JANUARY => 1,
            EventRecurrenceRuleMonth::FEBRUARY => 2,
            EventRecurrenceRuleMonth::MARCH => 3,
            EventRecurrenceRuleMonth::APRIL => 4,
            EventRecurrenceRuleMonth::MAY => 5,
            EventRecurrenceRuleMonth::JUNE => 6,
            EventRecurrenceRuleMonth::JULY => 7,
            EventRecurrenceRuleMonth::AUGUST => 8,
            EventRecurrenceRuleMonth::SEPTEMBER => 9,
            EventRecurrenceRuleMonth::OCTOBER => 10,
            EventRecurrenceRuleMonth::NOVEMBER => 11,
            EventRecurrenceRuleMonth::DECEMBER => 12,
            EventRecurrenceRuleMonth::UNKNOWN => 13,
        }
    }

    /// The value that Discord's number `code` stands for, if any.
    pub fn from_code(code: u8) -> (r: Option<EventRecurrenceRuleMonth>)
        ensures
            r == EventRecurrenceRuleMonth::spec_from_code(code),
    {
        match code {
            1 => Some(EventRecurrenceRuleMonth::JANUARY),
            2 => Some(EventRecurrenceRuleMonth::FEBRUARY),
            3 => Some(EventRecurrenceRuleMonth::MARCH),
            4 => Some(EventRecurrenceRuleMonth::APRIL),
            5 => Some(EventRecurrenceRuleMonth::MAY),
            6 => Some(EventRecurrenceRuleMonth::JUNE),
            7 => Some(EventRecurrenceRuleMonth::JULY),
            8 => Some(EventRecurrenceRuleMonth::AUGUST),
            9 => Some(EventRecurrenceRuleMonth::SEPTEMBER),
            10 => Some(EventRecurrenceRuleMonth::OCTOBER),
            11 => Some(EventRecurrenceRuleMonth::NOVEMBER),
            12 => Some(EventRecurrenceRuleMonth::DECEMBER),
            13 => Some(EventRecurrenceRuleMonth::UNKNOWN),
            _ => Some(EventRecurrenceRuleMonth::UNKNOWN),
        }
    }
}

/// Discord Guild Widget Settings Object
#[derive(Clone, Debug)]
pub struct GuildWidgetSettings {
  /// Whether the widget is enabled
  pub enabled: bool,
  /// The widget channel id
  pub channel_id: Option<Snowflake>,
}

/// Discord Guild Widget Object
#[derive(Clone, Debug)]
pub struct GuildWidget {
  /// Guild id
  pub id: Snowflake,
  /// Guild name (2-100 characters)
  pub name: Snowflake,
  /// Instant invite for the guilds specified widget invite channel
  pub instant_invite: Option<String>,
  /// Voice and stage channels which are accessible by @everyone
  pub channels: Vec<GuildWidgetChannel>,
  /// Special widget user objects that includes users presence (Limit 100)
  pub members: Vec<GuildWidgetUser>,
  /// Number of online members in this guild
  pub presence_count: i64,
}

/// Special widget channel object
#[derive(Clone, Debug)]
pub struct GuildWidgetChannel {
  /// The id of this channel
  pub id: Snowflake,
  /// The name of the channel (1-100 characters)
  pub name: Option<String>,
  /// Sorting position of the channel
  pub position: Option<i64>,
}

/// Special widget user object
#[derive(Clone, Debug)]
pub struct GuildWidgetUser {
  /// The user's id (anonymized)
  pub id: Snowflake,
  /// The user's username
  pub username: String,
  /// The user's Discord-tag (anonymized)
  pub discriminator: String,
  /// The user's avatar (anonymized)
  pub avatar: Option<String>,
  /// User's status
  pub status: Option<String>,
  /// User's avatar url
  pub avatar_url: Option<String>,
  /// Whether the user is deafened in voice channels
  pub deaf: Option<bool>,
  /// Whether the user is muted in voice channels
  pub mute: Option<bool>,
  /// Whether the user has self deafened in voice channels
  pub self_deaf: Option<bool>,
  /// Whether the user has self muted in voice channels
  pub self_mute: Option<bool>,
  /// Whether the user is suppressed
  pub suppress: Option<bool>,
  /// Voice channel the user is in
  pub channel_id: Option<Snowflake>,
}

/// Discord Integration Object
#[derive(Clone, Debug)]
pub struct GuildIntegration {
  /// Integration id
  pub id: Snowflake,
  /// Integration name
  pub name: String,
  /// Integration type (twitch, youtube, discord, or guild_subscription)
  pub integration_type: String,
  /// Is this integration enabled
  pub enabled: bool,
  /// Is this integration syncing
  pub syncing: Option<bool>,
  /// Id that this integration uses for “subscribers”
  pub role_id: Option<Snowflake>,
  /// Whether emoticons should be synced for this integration (twitch only currently)
  pub enable_emoticons: Option<bool>,
  /// The behavior of expiring subscribers
  pub expire_behavior: Option<GuildIntegrationExpireBehavior>,
  /// The grace period (in days) before expiring subscribers
  pub expire_grace_period: Option<i64>,
  /// User for this integration
  pub user: Option<User>,
  /// Integration account information
  pub account: GuildIntegrationAccount,
  /// When this integration was last synced
  pub synced_at: Option<Timestamp>,
  /// How many subscribers this integration has
  pub subscriber_count: Option<i64>,
  /// Has this integration been revoked
  pub revoked: Option<bool>,
  /// The bot/OAuth2 application for discord integrations
  pub application: Option<GuildIntegrationApplication>,
  /// The scopes the application has been authorized for
  pub scopes: Option<Vec<String>>,
}

/// Discord Integration Expire Behaviors
#[derive(Clone, Copy, Debug, PartialEq, Eq, Hash, Structural)]
#[allow(non_camel_case_types)]
pub enum GuildIntegrationExpireBehavior {
  /// Remove role
  REMOVE_ROLE,
  /// Kick
  KICK,
  /// Unknown expire behavior not implemented yet
  UNKNOWN,
}

impl GuildIntegrationExpireBehavior {
    /// The number that Discord uses for this value.
    pub open spec fn spec_code(self) -> u8 {
        match self {
            GuildIntegrationExpireBehavior::REMOVE_ROLE => 0,
            GuildIntegrationExpireBehavior::KICK => 1,
            GuildIntegrationExpireBehavior::UNKNOWN => 2,
        }
    }

    /// The value that Discord's number `code` stands for, if any.
    pub open spec fn spec_from_code(code: u8) -> Option<GuildIntegrationExpireBehavior> {
        match code {
            0 => Some(GuildIntegrationExpireBehavior::REMOVE_ROLE),
            1 => Some(GuildIntegrationExpireBehavior::KICK),
            2 => Some(GuildIntegrationExpireBehavior::UNKNOWN),
            _ => None,
        }
    }

    /// The number that Discord uses for this value.
    pub fn code(&self) -> (r: u8)
        ensures
            r == self.spec_code(),
    {
        match self {
            GuildIntegrationExpireBehavior::REMOVE_ROLE => 0,
            GuildIntegrationExpireBehavior::KICK => 1,
            GuildIntegrationExpireBehavior::UNKNOWN => 2,
        }
    }

    /// The value that Discord's number `code` stands for, if any.
    pub fn from_code(code: u8) -> (r: Option<GuildIntegrationExpireBehavior>)
        ensures
            r == GuildIntegrationExpireBehavior::spec_from_code(code),
    {
        match code {
            0 => Some(GuildIntegrationExpireBehavior::REMOVE_ROLE),
            1 => Some(GuildIntegrationExpireBehavior::KICK),
            2 => Some(GuildIntegrationExpireBehavior::UNKNOWN),
            _ => None,
        }
    }
}

/// Discord Integration Account Object
#[derive(Clone, Debug)]
pub struct GuildIntegrationAccount {
  /// Id of the account
  pub id: String,
  /// Name of the account
  pub name: String,
}

/// Discord Integration Application Object
#[derive(Clone, Debug)]
pub struct GuildIntegrationApplication {
  /// The id of the app
  pub id: String,
  /// The name of the app
  pub name: String,
  /// The [icon hash](https://docs.discord.com/developers/reference#image-formatting) of the app
  pub icon: Option<String>,
  /// The description of the app
  pub description: String,
  /// The bot associated with this application
  pub bot: Option<User>,
}

/// Discord Ban Object
#[derive(Clone, Debug)]
pub struct Ban {
  /// The reason for the ban
  pub reason: Option<String>,
  /// The banned user
  pub user: User,
}

/// Discord Guild Onboarding Object
#[derive(Clone, Debug)]
pub struct GuildOnboarding {
  /// ID of the guild this onboarding is part of
  pub guild_id: Snowflake,
  /// Prompts shown during onboarding and in customize community
  pub prompts: Vec<GuildOnboardingPrompt>,
  /// Channel IDs that members get opted into automatically
  pub default_channel_ids: Vec<Snowflake>,
  /// Whether onboarding is enabled in the guild
  pub enabled: bool,
  /// Current mode of onboarding
  pub mode: GuildOnboardingMode,
}

/// Discord Guild Onboarding Prompt Object
#[derive(Clone, Debug)]
pub struct GuildOnboardingPrompt {
  /// ID of the prompt
  pub id: Snowflake,
  /// Type of prompt
  pub prompt_type: GuildOnboardingPromptType,
  /// Options available within the prompt
  pub options: Vec<GuildOnboardingPromptOption>,
  /// Title of the prompt
  pub title: String,
  /// Indicates whether users are limited to selecting one option for the prompt
  pub single_select: bool,
  /// Indicates whether the prompt is required before a user completes the onboarding flow
  pub required: bool,
  /// Indicates whether the prompt is present in the onboarding flow. If `false`, the prompt will only appear in the Channels & Roles tab
  pub in_onboarding: bool,
}

/// Discord Guild Onboarding Prompt Types
#[derive(Clone, Copy, Debug, PartialEq, Eq, Hash, Structural)]
#[allow(non_camel_case_types)]
pub enum GuildOnboardingPromptType {
  /// Multiple choice
  MULTIPLE_CHOICE,
  /// Dropdown
  DROPDOWN,
  /// Prompt type that hasn't been implemented yet
  UNKNOWN,
}

impl GuildOnboardingPromptType {
    /// The number that Discord uses for this value.
    pub open spec fn spec_code(self) -> u8 {
        match self {
            GuildOnboardingPromptType::MULTIPLE_CHOICE => 0,
            GuildOnboardingPromptType::DROPDOWN => 1,
            GuildOnboardingPromptType::UNKNOWN => 2,
        }
    }

    /// The value that Discord's number `code` stands for, if any.
    pub open spec fn spec_from_code(code: u8) -> Option<GuildOnboardingPromptType> {
        match code {
            0 => Some(GuildOnboardingPromptType::MULTIPLE_CHOICE),
            1 => Some(GuildOnboardingPromptType::DROPDOWN),
            2 => Some(GuildOnboardingPromptType::UNKNOWN),
            _ => None,
        }
    }

    /// The number that Discord uses for this value.
    pub fn code(&self) -> (r: u8)
        ensures
            r == self.spec_code(),
    {
        match self {
            GuildOnboardingPromptType::MULTIPLE_CHOICE => 0,
            GuildOnboardingPromptType::DROPDOWN => 1,
            GuildOnboardingPromptType::UNKNOWN => 2,
        }
    }

    /// The value that Discord's number `code` stands for, if any.
    pub fn from_code(code: u8) -> (r: Option<GuildOnboardingPromptType>)
        ensures
            r == GuildOnboardingPromptType::spec_from_code(code),
    {
        match code {
            0 => Some(GuildOnboardingPromptType::MULTIPLE_CHOICE),
            1 => Some(GuildOnboardingPromptType::DROPDOWN),
            2 => Some(GuildOnboardingPromptType::UNKNOWN),
            _ => None,
        }
    }
}

/// Discord Guild Onboarding Prompt Option Object
#[derive(Clone, Debug)]
pub struct GuildOnboardingPromptOption {
  /// ID of the prompt option
  pub id: Snowflake,
  /// IDs for channels a member is added to when the option is selected
  pub channel_ids: Vec<Snowflake>,
  /// IDs for roles assigned to a member when the option is selected
  pub role_ids: Vec<Snowflake>,
  /// Emoji of the option (from the API)
  pub emoji: Option<Emoji>,
  /// Emoji ID of the option (Used when creating)
  pub emoji_id: Option<Snowflake>,
  /// Emoji name of the option (Used when creating)
  pub emoji_name: Option<String>,
  /// Whether the emoji is animated (Used when creating)
  pub emoji_animated: Option<bool>,
  /// Title of the option
  pub title: String,
  /// Description of the option
  pub description: Option<String>,
}

/// Discord Guild Onboarding Modes
#[derive(Clone, Copy, Debug, PartialEq, Eq, Hash, Structural)]
#[allow(non_camel_case_types)]
pub enum GuildOnboardingMode {
  /// Counts only Default Channels towards constraints
  ONBOARDING_DEFAULT,
  /// Counts Default Channels and Questions towards constraints
  ONBOARDING_ADVANCED,
  /// Onboarding mode that hasn't been implemented yet
  UNKNOWN,
}

impl GuildOnboardingMode {
    /// The number that Discord uses for this value.
    pub open spec fn spec_code(self) -> u8 {
        match self {
            GuildOnboardingMode::ONBOARDING_DEFAULT => 0,
            GuildOnboardingMode::ONBOARDING_ADVANCED => 1,
            GuildOnboardingMode::UNKNOWN => 2,
        }
    }

    /// The value that Discord's number `code` stands for, if any.
    pub open spec fn spec_from_code(code: u8) -> Option<GuildOnboardingMode> {
        match code {
            0 => Some(GuildOnboardingMode::ONBOARDING_DEFAULT),
            1 => Some(GuildOnboardingMode::ONBOARDING_ADVANCED),
            2 => Some(GuildOnboardingMode::UNKNOWN),
            _ => None,
        }
    }

    /// The number that Discord uses for this value.
    pub fn code(&self) -> (r: u8)
        ensures
            r == self.spec_code(),
    {
        match self {
            GuildOnboardingMode::ONBOARDING_DEFAULT => 0,
            GuildOnboardingMode::ONBOARDING_ADVANCED => 1,
            GuildOnboardingMode::UNKNOWN => 2,
        }
    }

    /// The value that Discord's number `code` stands for, if any.
    pub fn from_code(code: u8) -> (r: Option<GuildOnboardingMode>)
        ensures
            r == GuildOnboardingMode::spec_from_code(code),
    {
        match code {
            0 => Some(GuildOnboardingMode::ONBOARDING_DEFAULT),
            1 => Some(GuildOnboardingMode::ONBOARDING_ADVANCED),
            2 => Some(GuildOnboardingMode::UNKNOWN),
            _ => None,
        }
    }
}

/// Options for fetching a guild
#[derive(Clone, Debug)]
pub struct GuildFetchOptions {
  /// when `true`, will return approximate member and presence counts for the guild
  pub with_counts: Option<bool>,
}

/// Parameters for modifying a guild with [`Guild::modify`]
#[derive(Clone, Debug)]
pub struct GuildModifyOptions {
  /// Guild name
  pub name: Option<String>,
  /// [Verification level](VerificationLevel)
  pub verification_level: Option<VerificationLevel>,
  /// Default [message notification level](MessageNotificationLevel)
  pub default_message_notifications: Option<MessageNotificationLevel>,
  /// [Explicit content filter level](ExplicitContentFilterLevel)
  pub explicit_content_filter: Option<ExplicitContentFilterLevel>,
  /// Id for afk channel
  pub afk_channel_id: Option<Option<Snowflake>>,
  /// afk timeout in seconds, can be set to: 60, 300, 900, 1800, 3600
  pub afk_timeout: Option<i64>,
  /// base64 1024x1024 png/jpeg/gif image for the guild icon (can be animated gif when the server has the `ANIMATED_ICON` feature)
  pub icon: Option<Option<String>>,
  /// base64 16:9 png/jpeg image for the guild splash (when the server has the `INVITE_SPLASH` feature)
  pub splash: Option<Option<String>>,
  /// base64 16:9 png/jpeg image for the guild discovery splash (when the server has the `DISCOVERABLE` feature)
  pub discovery_splash: Option<Option<String>>,
  /// base64 16:9 png/jpeg image for the guild banner (when the server has the `BANNER` feature; can be animated gif when the server has the `ANIMATED_BANNER` feature)
  pub banner: Option<Option<String>>,
  /// The id of the channel where guild notices such as welcome messages and boost events are posted
  pub system_channel_id: Option<Option<Snowflake>>,
  /// [System channel flags](SystemChannelFlags)
  pub system_channel_flags: Option<SystemChannelFlags>,
  /// The id of the channel where Community guilds display rules and/or guidelines
  pub rules_channel_id: Option<Option<Snowflake>>,
  /// The id of the channel where admins and moderators of Community guilds receive notices from Discord
  pub public_updates_channel_id: Option<Option<Snowflake>>,
  /// The preferred [locale](https://docs.discord.com/developers/reference#locales) of a Community guild used in server discovery and notices from Discord; defaults to “en-US”
  pub preferred_locale: Option<Option<String>>,
  /// Enabled guild features
  pub features: Option<Vec<String>>,
  /// The description for the guild
  pub description: Option<Option<String>>,
  /// Whether the guild’s boost progress bar should be enabled
  pub premium_progress_bar_enabled: Option<bool>,
  /// The id of the channel where admins and moderators of Community guilds receive safety alerts from Discord
  pub safety_alerts_channel_id: Option<Option<Snowflake>>,
}

/// Options for modifying channel positions with [`modify_channel_positions`](Guild::modify_channel_positions)
#[derive(Clone, Debug)]
pub struct GuildChannelModifyPositionOptions {
  /// Channel id
  pub id: Snowflake,
  /// Sorting position of the channel (channels with the same position are sorted by id)
  pub position: Option<i64>,
  /// Syncs the permission overwrites with the new parent, if moving to a new category
  pub lock_permissions: Option<bool>,
  /// The new parent ID for the channel that is moved
  pub parent_id: Option<Snowflake>,
}

/// Response from fetching active threads
#[derive(Clone, Debug)]
pub struct GuildListThreadsResponse {
  /// The active threads
  pub threads: Vec<Channel>,
  /// A thread member object for each returned thread the current user has joined
  pub members: Vec<ThreadMember>,
}

/// Options for listing guild members with [`list_members`](Guild::list_members)
#[derive(Clone, Debug)]
pub struct GuildMemberListOptions {
  /// max number of members to return (1-1000); default 1
  pub limit: Option<i64>,
  /// The highest user id in the previous page
  pub after: Option<Snowflake>,
}

/// Options for adding a guild member with [`add_member`](Guild::add_member)
#[derive(Clone, Debug)]
pub struct GuildMemberAddOptions {
  /// An oauth2 access token granted with the `guilds.join` to the bot’s application for the user you want to add to the guild
  pub access_token: String,
  /// Value to set user’s nickname to
  pub nick: Option<String>,
  /// Array of role ids the member is assigned
  pub roles: Option<Vec<Snowflake>>,
  /// Whether the user is muted in voice channels
  pub mute: Option<bool>,
  /// Whether the user is deafened in voice channels
  pub deaf: Option<bool>,
}

/// Options for modifying role positions with [`modify_role_positions`](Guild::modify_role_positions)
#[derive(Clone, Debug)]
pub struct GuildRoleModifyPositionOptions {
  /// Role
  pub id: Snowflake,
  /// Sorting position of the role (roles with the same position are sorted by id)
  pub position: Option<i64>,
}

/// Options for fetching bans with [`get_bans`](Guild::get_bans)
#[derive(Clone, Debug)]
pub struct BanFetchOptions {
  /// Number of users to return (up to maximum 1000); Defaults to 1000
  pub limit: Option<i64>,
  /// Consider only users before given user id
  pub before: Option<Snowflake>,
  /// Consider only users after given user id
  pub after: Option<Snowflake>,
}

/// Options for bulk banning with [`bulk_ban`](Guild::bulk_ban)
#[derive(Clone, Debug)]
pub struct BulkBanOptions {
  /// list of user ids to ban (max 200)
  pub user_ids: Vec<Snowflake>,
  /// Number of seconds to delete messages for, between 0 and 604800 (7 days)
  pub delete_message_seconds: Option<i64>,
}

/// Response from bulk banning with [`bulk_ban`](Guild::bulk_ban)
#[derive(Clone, Debug)]
pub struct BulkBanResponse {
  /// List of user ids, that were successfully banned
  pub banned_users: Vec<Snowflake>,
  /// List of user ids, that were not banned
  pub failed_users: Vec<Snowflake>,
}

/// Options for checking prune count with [`get_prune_count`](Guild::get_prune_count)
#[derive(Clone, Debug)]
pub struct PruneCountOptions {
  /// Number of days to count prune for (1-30); Defaults to 7
  pub days: Option<i64>,
  /// Role(s) to include
  pub include_roles: Option<Vec<Snowflake>>,
}

/// Options for performing a prune with [`prune`](Guild::prune)
#[derive(Clone, Debug)]
pub struct PruneOptions {
  /// Number of days to count prune for (1-30); Defaults to 7
  pub days: Option<i64>,
  /// Whether `pruned` is returned, discouraged for large guilds
  pub compute_prune_count: Option<bool>,
  /// Role(s) to include
  pub include_roles: Option<Vec<Snowflake>>,
}

/// Response from checking or performing a prune with [`get_prune_count`](Guild::get_prune_count) or [`prune`](Guild::prune)
#[derive(Clone, Debug)]
pub struct PruneResponse {
  /// Number of members that were/would be removed in the prune operation.
  /// Can be `None` if `compute_prune_count` is set to `false` when executing the prune
  pub pruned: Option<i64>,
}

/// Options for modifying the widget with [`modify_widget`](Guild::modify_widget)
#[derive(Clone, Debug)]
pub struct GuildWidgetModifyOptions {
  /// Whether the widget is enabled
  pub enabled: Option<bool>,
  /// The widget channel id
  pub channel_id: Option<Option<Snowflake>>,
}

/// Options for modifying the welcome screen with [`modify_welcome_screen`](Guild::modify_welcome_screen)
#[derive(Clone, Debug)]
pub struct WelcomeScreenModifyOptions {
  /// Whether the welcome screen is enabled
  pub enabled: Option<bool>,
  /// Channels linked in the welcome screen and their display options
  pub welcome_channels: Option<Option<Vec<WelcomeScreenChannel>>>,
  /// The server description to show in the welcome screen
  pub description: Option<Option<String>>,
}

/// Options for modifying guild onboarding with [`modify_onboarding`](Guild::modify_onboarding)
#[derive(Clone, Debug)]
pub struct GuildOnboardingModifyOptions {
  /// Prompts shown during onboarding and in customize community
  pub prompts: Option<Vec<GuildOnboardingPrompt>>,
  /// Channel IDs that members get opted into automatically
  pub default_channel_ids: Option<Vec<Snowflake>>,
  /// Whether onboarding is enabled in the guild
  pub enabled: Option<bool>,
  /// Current mode of onboarding
  pub mode: Option<GuildOnboardingMode>,
}

/// Options for modifying incident actions with [`modify_incident_actions`](Guild::modify_incident_actions)
#[derive(Clone, Debug)]
pub struct GuildIncidentActionsModifyOptions {
  /// When invites will be enabled again
  pub invites_disabled_until: Option<Option<Timestamp>>,
  /// When direct messages will be enabled again
  pub dms_disabled_until: Option<Option<Timestamp>>,
}

/// Bitflags for Discord System Channel Flags
#[derive(Clone, Copy, Debug, PartialEq, Eq, Hash, Structural)]
pub struct SystemChannelFlags {
    bits: u32,
}

impl SystemChannelFlags {
    /// The bits of the set.
    pub closed spec fn value(self) -> u32 {
        self.bits
    }

    /// The bits of every flag that this type names.
    pub open spec fn known_bits() -> u32 {
        63u32
    }

    /// Suppress member join notifications
    #[allow(non_snake_case)]
    pub fn SUPPRESS_JOIN_NOTIFICATIONS() -> (r: Self)
        ensures
            r.value() == 1u32,
    {
        SystemChannelFlags { bits: 1u32 }
    }

    /// Suppress server boost notifications
    #[allow(non_snake_case)]
    pub fn SUPPRESS_PREMIUM_SUBSCRIPTIONS() -> (r: Self)
        ensures
            r.value() == 2u32,
    {
        SystemChannelFlags { bits: 2u32 }
    }

    /// Suppress server setup tips
    #[allow(non_snake_case)]
    pub fn SUPPRESS_GUILD_REMINDER_NOTIFICATIONS() -> (r: Self)
        ensures
            r.value() == 4u32,
    {
        SystemChannelFlags { bits: 4u32 }
    }

    /// Hide member join sticker reply buttons
    #[allow(non_snake_case)]
    pub fn SUPPRESS_JOIN_NOTIFICATION_REPLIES() -> (r: Self)
        ensures
            r.value() == 8u32,
    {
        SystemChannelFlags { bits: 8u32 }
    }

    /// Suppress role subscription purchase and renewal notifications
    #[allow(non_snake_case)]
    pub fn SUPPRESS_ROLE_SUBSCRIPTION_PURCHASE_NOTIFICATIONS() -> (r: Self)
        ensures
            r.value() == 16u32,
    {
        SystemChannelFlags { bits: 16u32 }
    }

    /// Hide role subscription sticker reply buttons
    #[allow(non_snake_case)]
    pub fn SUPPRESS_ROLE_SUBSCRIPTION_PURCHASE_NOTIFICATION_REPLIES() -> (r: Self)
        ensures
            r.value() == 32u32,
    {
        SystemChannelFlags { bits: 32u32 }
    }

    /// The empty set.
    pub fn empty() -> (r: Self)
        ensures
            r.value() == 0,
    {
        SystemChannelFlags { bits: 0 }
    }

    /// The set of every flag this type names.
    pub fn all() -> (r: Self)
        ensures
            r.value() == Self::known_bits(),
    {
        SystemChannelFlags { bits: 63u32 }
    }

    /// The bits of the set.
    pub fn bits(&self) -> (r: u32)
        ensures
            r == self.value(),
    {
        self.bits
    }

    /// The set with exactly these bits, known or not.
    pub fn from_bits_retain(bits: u32) -> (r: Self)
        ensures
            r.value() == bits,
    {
        SystemChannelFlags { bits }
    }

    /// The set of the known flags among these bits; unknown bits are dropped.
    pub fn from_bits_truncate(bits: u32) -> (r: Self)
        ensures
            r.value() == bits & Self::known_bits(),
    {
        SystemChannelFlags { bits: bits & 63u32 }
    }

    /// The set with these bits, if every bit is a known flag.
    pub fn from_bits(bits: u32) -> (r: Option<Self>)
        ensures
            r is Some <==> bits & Self::known_bits() == bits,
            r matches Some(f) ==> f.value() == bits,
    {
        if bits & 63u32 == bits { Some(SystemChannelFlags { bits }) } else { None }
    }

    /// Whether no flag is set.
    pub fn is_empty(&self) -> (r: bool)
        ensures
            r == (self.value() == 0),
    {
        self.bits == 0
    }

    /// Whether every flag of `other` is set in `self`.
    pub fn contains(&self, other: Self) -> (r: bool)
        ensures
            r == (self.value() & other.value() == other.value()),
    {
        self.bits & other.bits == other.bits
    }

    /// Whether `self` and `other` share a flag.
    pub fn intersects(&self, other: Self) -> (r: bool)
        ensures
            r == (self.value() & other.value() != 0),
    {
        self.bits & other.bits != 0
    }

    /// Sets the flags of `other`.
    pub fn insert(&mut self, other: Self)
        ensures
            final(self).value() == old(self).value() | other.value(),
    {
        self.bits = self.bits | other.bits;
    }

    /// Clears the flags of `other`.
    pub fn remove(&mut self, other: Self)
        ensures
            final(self).value() == old(self).value() & !other.value(),
    {
        self.bits = self.bits & !other.bits;
    }

    /// Flips the flags of `other`.
    pub fn toggle(&mut self, other: Self)
        ensures
            final(self).value() == old(self).value() ^ other.value(),
    {
        self.bits = self.bits ^ other.bits;
    }

    /// Sets the flags of `other` when `value` holds, clears them otherwise.
    pub fn set(&mut self, other: Self, value: bool)
        ensures
            final(self).value() == (if value { old(self).value() | other.value() } else { old(self).value() & !other.value() }),
    {
        if value {
            self.insert(other);
        } else {
            self.remove(other);
        }
    }

    /// The flags set in either.
    pub fn union(self, other: Self) -> (r: Self)
        ensures
            r.value() == self.value() | other.value(),
    {
        SystemChannelFlags { bits: self.bits | other.bits }
    }

    /// The flags set in both.
    pub fn intersection(self, other: Self) -> (r: Self)
        ensures
            r.value() == self.value() & other.value(),
    {
        SystemChannelFlags { bits: self.bits & other.bits }
    }

    /// The flags set in `self` and not in `other`.
    pub fn difference(self, other: Self) -> (r: Self)
        ensures
            r.value() == self.value() & !other.value(),
    {
        SystemChannelFlags { bits: self.bits & !other.bits }
    }

    /// The flags set in exactly one of the two.
    pub fn symmetric_difference(self, other: Self) -> (r: Self)
        ensures
            r.value() == self.value() ^ other.value(),
    {
        SystemChannelFlags { bits: self.bits ^ other.bits }
    }

    /// The known flags that are not set.
    pub fn complement(self) -> (r: Self)
        ensures
            r.value() == !self.value() & Self::known_bits(),
    {
        SystemChannelFlags { bits: !self.bits & 63u32 }
    }
}

impl WelcomeScreenChannel {
    /// Creates a new `WelcomeScreenChannel` with channel id and description
    pub fn new(channel_id: &str, description: &str) -> (r: WelcomeScreenChannel)
        ensures
            r.channel_id@ == channel_id@,
            r.description@ == description@,
            r.emoji_id is None,
            r.emoji_name is None,
    {
        WelcomeScreenChannel { channel_id: string_of(channel_id), description: string_of(description), emoji_id: None, emoji_name: None }
    }

    /// Set channel id
    pub fn set_channel_id(self, channel_id: &str) -> (r: WelcomeScreenChannel)
        ensures
            r.channel_id@ == channel_id@,
            r == (WelcomeScreenChannel { channel_id: r.channel_id, ..self }),
    {
        WelcomeScreenChannel { channel_id: string_of(channel_id), ..self }
    }

    /// Set description
    pub fn set_description(self, description: &str) -> (r: WelcomeScreenChannel)
        ensures
            r.description@ == description@,
            r == (WelcomeScreenChannel { description: r.description, ..self }),
    {
        WelcomeScreenChannel { description: string_of(description), ..self }
    }

    /// Set emoji id
    pub fn set_emoji_id(self, emoji: &str) -> (r: WelcomeScreenChannel)
        ensures
            str_opt(r.emoji_id, emoji@),
            r == (WelcomeScreenChannel { emoji_id: r.emoji_id, ..self }),
    {
        WelcomeScreenChannel { emoji_id: Some(string_of(emoji)), ..self }
    }

    /// Set emoji name
    pub fn set_emoji_name(self, emoji: &str) -> (r: WelcomeScreenChannel)
        ensures
            str_opt(r.emoji_name, emoji@),
            r == (WelcomeScreenChannel { emoji_name: r.emoji_name, ..self }),
    {
        WelcomeScreenChannel { emoji_name: Some(string_of(emoji)), ..self }
    }
}

impl GuildOnboardingPrompt {
    /// Set the type
    pub fn set_type(self, prompt_type: GuildOnboardingPromptType) -> (r: GuildOnboardingPrompt)
        ensures
            r == (GuildOnboardingPrompt { prompt_type: prompt_type, ..self }),
    {
        GuildOnboardingPrompt { prompt_type: prompt_type, ..self }
    }

    /// Set the options
    pub fn set_options(self, options: Vec<GuildOnboardingPromptOption>) -> (r: GuildOnboardingPrompt)
        ensures
            r == (GuildOnboardingPrompt { options: options, ..self }),
    {
        GuildOnboardingPrompt { options: options, ..self }
    }

    /// Set the title
    pub fn set_title(self, title: &str) -> (r: GuildOnboardingPrompt)
        ensures
            r.title@ == title@,
            r == (GuildOnboardingPrompt { title: r.title, ..self }),
    {
        GuildOnboardingPrompt { title: string_of(title), ..self }
    }

    /// Set single select
    pub fn set_single_select(self, single_select: bool) -> (r: GuildOnboardingPrompt)
        ensures
            r == (GuildOnboardingPrompt { single_select: single_select, ..self }),
    {
        GuildOnboardingPrompt { single_select: single_select, ..self }
    }

    /// Set required
    pub fn set_required(self, required: bool) -> (r: GuildOnboardingPrompt)
        ensures
            r == (GuildOnboardingPrompt { required: required, ..self }),
    {
        GuildOnboardingPrompt { required: required, ..self }
    }

    /// Set in onboarding
    pub fn set_in_onboarding(self, in_onboarding: bool) -> (r: GuildOnboardingPrompt)
        ensures
            r == (GuildOnboardingPrompt { in_onboarding: in_onboarding, ..self }),
    {
        GuildOnboardingPrompt { in_onboarding: in_onboarding, ..self }
    }
}

impl GuildOnboardingPromptOption {
    /// Set the channels
    pub fn set_channel_ids(self, ids: Vec<Snowflake>) -> (r: GuildOnboardingPromptOption)
        ensures
            r == (GuildOnboardingPromptOption { channel_ids: ids, ..self }),
    {
        GuildOnboardingPromptOption { channel_ids: ids, ..self }
    }

    /// Set the roles
    pub fn set_role_ids(self, ids: Vec<Snowflake>) -> (r: GuildOnboardingPromptOption)
        ensures
            r == (GuildOnboardingPromptOption { role_ids: ids, ..self }),
    {
        GuildOnboardingPromptOption { role_ids: ids, ..self }
    }

    /// Set the title
    pub fn set_title(self, title: &str) -> (r: GuildOnboardingPromptOption)
        ensures
            r.title@ == title@,
            r == (GuildOnboardingPromptOption { title: r.title, ..self }),
    {
        GuildOnboardingPromptOption { title: string_of(title), ..self }
    }

    /// Set the description
    pub fn set_description(self, description: &str) -> (r: GuildOnboardingPromptOption)
        ensures
            str_opt(r.description, description@),
            r == (GuildOnboardingPromptOption { description: r.description, ..self }),
    {
        GuildOnboardingPromptOption { description: Some(string_of(description)), ..self }
    }
}

impl GuildFetchOptions {
    /// Creates a new empty `GuildFetchOptions`
    pub fn new() -> (r: GuildFetchOptions)
        ensures
            r.with_counts is None,
    {
        GuildFetchOptions { with_counts: None }
    }

    /// Choose whether you want approximate member and presence counts included
    pub fn set_with_counts(self, with_counts: bool) -> (r: GuildFetchOptions)
        ensures
            r == (GuildFetchOptions { with_counts: Some(with_counts), ..self }),
    {
        GuildFetchOptions { with_counts: Some(with_counts), ..self }
    }
}

impl GuildModifyOptions {
    /// Creates a new empty `GuildModifyOptions`
    pub fn new() -> (r: GuildModifyOptions)
        ensures
            r.name is None,
            r.verification_level is None,
            r.default_message_notifications is None,
            r.explicit_content_filter is None,
            r.afk_channel_id is None,
            r.afk_timeout is None,
            r.icon is None,
            r.splash is None,
            r.discovery_splash is None,
            r.banner is None,
            r.system_channel_id is None,
            r.system_channel_flags is None,
            r.rules_channel_id is None,
            r.public_updates_channel_id is None,
            r.preferred_locale is None,
            r.features is None,
            r.description is None,
            r.premium_progress_bar_enabled is None,
            r.safety_alerts_channel_id is None,
    {
        GuildModifyOptions { name: None, verification_level: None, default_message_notifications: None, explicit_content_filter: None, afk_channel_id: None, afk_timeout: None, icon: None, splash: None, discovery_splash: None, banner: None, system_channel_id: None, system_channel_flags: None, rules_channel_id: None, public_updates_channel_id: None, preferred_locale: None, features: None, description: None, premium_progress_bar_enabled: None, safety_alerts_channel_id: None }
    }

    /// Set the name
    pub fn set_name(self, name: &str) -> (r: GuildModifyOptions)
        ensures
            str_opt(r.name, name@),
            r == (GuildModifyOptions { name: r.name, ..self }),
    {
        GuildModifyOptions { name: Some(string_of(name)), ..self }
    }

    /// Set the verification level
    pub fn set_verification_level(self, verification_level: VerificationLevel) -> (r: GuildModifyOptions)
        ensures
            r == (GuildModifyOptions { verification_level: Some(verification_level), ..self }),
    {
        GuildModifyOptions { verification_level: Some(verification_level), ..self }
    }

    /// Set the default message notification level
    pub fn set_default_message_notifications(self, default_message_notifications: MessageNotificationLevel) -> (r: GuildModifyOptions)
        ensures
            r == (GuildModifyOptions { default_message_notifications: Some(default_message_notifications), ..self }),
    {
        GuildModifyOptions { default_message_notifications: Some(default_message_notifications), ..self }
    }

    /// Set the explicit content filter
    pub fn set_explicit_content_filter(self, explicit_content_filter: ExplicitContentFilterLevel) -> (r: GuildModifyOptions)
        ensures
            r == (GuildModifyOptions { explicit_content_filter: Some(explicit_content_filter), ..self }),
    {
        GuildModifyOptions { explicit_content_filter: Some(explicit_content_filter), ..self }
    }

    /// Set the afk channel ID
    pub fn set_afk_channel_id(self, afk_channel_id: Option<&str>) -> (r: GuildModifyOptions)
        ensures
            r.afk_channel_id matches Some(inner) && opt_view(inner) == opt_str_view(afk_channel_id),
            r == (GuildModifyOptions { afk_channel_id: r.afk_channel_id, ..self }),
    {
        GuildModifyOptions { afk_channel_id: Some(opt_string(afk_channel_id)), ..self }
    }

    /// Set the afk timeout
    pub fn set_afk_timeout(self, afk_timeout: i64) -> (r: GuildModifyOptions)
        ensures
            r == (GuildModifyOptions { afk_timeout: Some(afk_timeout), ..self }),
    {
        GuildModifyOptions { afk_timeout: Some(afk_timeout), ..self }
    }

    /// Set the icon
    pub fn set_icon(self, icon: Option<&str>) -> (r: GuildModifyOptions)
        ensures
            r.icon matches Some(inner) && opt_view(inner) == opt_str_view(icon),
            r == (GuildModifyOptions { icon: r.icon, ..self }),
    {
        GuildModifyOptions { icon: Some(opt_string(icon)), ..self }
    }

    /// Set the splash
    pub fn set_splash(self, splash: Option<&str>) -> (r: GuildModifyOptions)
        ensures
            r.splash matches Some(inner) && opt_view(inner) == opt_str_view(splash),
            r == (GuildModifyOptions { splash: r.splash, ..self }),
    {
        GuildModifyOptions { splash: Some(opt_string(splash)), ..self }
    }

    /// Set the discovery splash
    pub fn set_discovery_splash(self, discovery_splash: Option<&str>) -> (r: GuildModifyOptions)
        ensures
            r.discovery_splash matches Some(inner) && opt_view(inner) == opt_str_view(discovery_splash),
            r == (GuildModifyOptions { discovery_splash: r.discovery_splash, ..self }),
    {
        GuildModifyOptions { discovery_splash: Some(opt_string(discovery_splash)), ..self }
    }

    /// Set the banner
    pub fn set_banner(self, banner: Option<&str>) -> (r: GuildModifyOptions)
        ensures
            r.banner matches Some(inner) && opt_view(inner) == opt_str_view(banner),
            r == (GuildModifyOptions { banner: r.banner, ..self }),
    {
        GuildModifyOptions { banner: Some(opt_string(banner)), ..self }
    }

    /// Set the system channel ID
    pub fn set_system_channel_id(self, system_channel_id: Option<&str>) -> (r: GuildModifyOptions)
        ensures
            r.system_channel_id matches Some(inner) && opt_view(inner) == opt_str_view(system_channel_id),
            r == (GuildModifyOptions { system_channel_id: r.system_channel_id, ..self }),
    {
        GuildModifyOptions { system_channel_id: Some(opt_string(system_channel_id)), ..self }
    }

    /// Set the system channel flags
    pub fn set_system_channel_flags(self, flags: SystemChannelFlags) -> (r: GuildModifyOptions)
        ensures
            r == (GuildModifyOptions { system_channel_flags: Some(flags), ..self }),
    {
        GuildModifyOptions { system_channel_flags: Some(flags), ..self }
    }

    /// Set the rules channel ID
    pub fn set_rules_channel_id(self, rules_channel_id: Option<&str>) -> (r: GuildModifyOptions)
        ensures
            r.rules_channel_id matches Some(inner) && opt_view(inner) == opt_str_view(rules_channel_id),
            r == (GuildModifyOptions { rules_channel_id: r.rules_channel_id, ..self }),
    {
        GuildModifyOptions { rules_channel_id: Some(opt_string(rules_channel_id)), ..self }
    }

    /// Set the public updates channel ID
    pub fn set_public_updates_channel_id(self, public_updates_channel_id: Option<&str>) -> (r: GuildModifyOptions)
        ensures
            r.public_updates_channel_id matches Some(inner) && opt_view(inner) == opt_str_view(public_updates_channel_id),
            r == (GuildModifyOptions { public_updates_channel_id: r.public_updates_channel_id, ..self }),
    {
        GuildModifyOptions { public_updates_channel_id: Some(opt_string(public_updates_channel_id)), ..self }
    }

    /// Set the preferred locale
    pub fn set_preferred_locale(self, preferred_locale: Option<&str>) -> (r: GuildModifyOptions)
        ensures
            r.preferred_locale matches Some(inner) && opt_view(inner) == opt_str_view(preferred_locale),
            r == (GuildModifyOptions { preferred_locale: r.preferred_locale, ..self }),
    {
        GuildModifyOptions { preferred_locale: Some(opt_string(preferred_locale)), ..self }
    }

    /// Set the features
    pub fn set_features(self, features: Vec<String>) -> (r: GuildModifyOptions)
        ensures
            r == (GuildModifyOptions { features: Some(features), ..self }),
    {
        GuildModifyOptions { features: Some(features), ..self }
    }

    /// Set the description
    pub fn set_description(self, description: Option<&str>) -> (r: GuildModifyOptions)
        ensures
            r.description matches Some(inner) && opt_view(inner) == opt_str_view(description),
            r == (GuildModifyOptions { description: r.description, ..self }),
    {
        GuildModifyOptions { description: Some(opt_string(description)), ..self }
    }

    /// Set whether the premium progress bar is enabled
    pub fn set_premium_progress_bar_enabled(self, enabled: bool) -> (r: GuildModifyOptions)
        ensures
            r == (GuildModifyOptions { premium_progress_bar_enabled: Some(enabled), ..self }),
    {
        GuildModifyOptions { premium_progress_bar_enabled: Some(enabled), ..self }
    }

    /// Set the safety alerts channel ID
    pub fn set_safety_alerts_channel_id(self, safety_alerts_channel_id: Option<&str>) -> (r: GuildModifyOptions)
        ensures
            r.safety_alerts_channel_id matches Some(inner) && opt_view(inner) == opt_str_view(safety_alerts_channel_id),
            r == (GuildModifyOptions { safety_alerts_channel_id: r.safety_alerts_channel_id, ..self }),
    {
        GuildModifyOptions { safety_alerts_channel_id: Some(opt_string(safety_alerts_channel_id)), ..self }
    }
}

impl GuildChannelModifyPositionOptions {
    /// Creates a new `GuildChannelModifyPositionOptions` with a channel id
    pub fn new(id: &str) -> (r: GuildChannelModifyPositionOptions)
        ensures
            r.id@ == id@,
            r.position is None,
            r.lock_permissions is None,
            r.parent_id is None,
    {
        GuildChannelModifyPositionOptions { id: string_of(id), position: None, lock_permissions: None, parent_id: None }
    }

    /// Set the position
    pub fn set_position(self, position: i64) -> (r: GuildChannelModifyPositionOptions)
        ensures
            r == (GuildChannelModifyPositionOptions { position: Some(position), ..self }),
    {
        GuildChannelModifyPositionOptions { position: Some(position), ..self }
    }

    /// Set whether permissions are locked
    pub fn set_lock_permissions(self, lock: bool) -> (r: GuildChannelModifyPositionOptions)
        ensures
            r == (GuildChannelModifyPositionOptions { lock_permissions: Some(lock), ..self }),
    {
        GuildChannelModifyPositionOptions { lock_permissions: Some(lock), ..self }
    }

    /// Set the parent ID
    pub fn set_parent_id(self, parent_id: &str) -> (r: GuildChannelModifyPositionOptions)
        ensures
            str_opt(r.parent_id, parent_id@),
            r == (GuildChannelModifyPositionOptions { parent_id: r.parent_id, ..self }),
    {
        GuildChannelModifyPositionOptions { parent_id: Some(string_of(parent_id)), ..self }
    }
}

impl GuildMemberListOptions {
    /// Creates a new empty `GuildMemberListOptions`
    pub fn new() -> (r: GuildMemberListOptions)
        ensures
            r.limit is None,
            r.after is None,
    {
        GuildMemberListOptions { limit: None, after: None }
    }

    /// Set the limit
    pub fn set_limit(self, limit: i64) -> (r: GuildMemberListOptions)
        ensures
            r == (GuildMemberListOptions { limit: Some(limit), ..self }),
    {
        GuildMemberListOptions { limit: Some(limit), ..self }
    }

    /// Set the after
    pub fn set_after(self, after: Snowflake) -> (r: GuildMemberListOptions)
        ensures
            r == (GuildMemberListOptions { after: Some(after), ..self }),
    {
        GuildMemberListOptions { after: Some(after), ..self }
    }
}

impl GuildMemberAddOptions {
    /// Creates a new `GuildMemberAddOptions` with an `access_token`
    pub fn new(access_token: String) -> (r: GuildMemberAddOptions)
        ensures
            r.access_token == access_token,
            r.nick is None,
            r.roles is None,
            r.mute is None,
            r.deaf is None,
    {
        GuildMemberAddOptions { access_token: access_token, nick: None, roles: None, mute: None, deaf: None }
    }

    /// Set the nickname
    pub fn set_nick(self, nick: &str) -> (r: GuildMemberAddOptions)
        ensures
            str_opt(r.nick, nick@),
            r == (GuildMemberAddOptions { nick: r.nick, ..self }),
    {
        GuildMemberAddOptions { nick: Some(string_of(nick)), ..self }
    }

    /// Add a role
    pub fn add_role(self, role_id: &str) -> (r: GuildMemberAddOptions)
        ensures
            r.roles matches Some(v) && v@.len() == vec_or_empty(self.roles).len() + 1 && v@.drop_last() == vec_or_empty(self.roles) && v@.last()@ == role_id@,
            r == (GuildMemberAddOptions { roles: r.roles, ..self }),
    {
        GuildMemberAddOptions { roles: Some(push_onto(self.roles, string_of(role_id))), ..self }
    }

    /// Set mute
    pub fn set_mute(self, mute: bool) -> (r: GuildMemberAddOptions)
        ensures
            r == (GuildMemberAddOptions { mute: Some(mute), ..self }),
    {
        GuildMemberAddOptions { mute: Some(mute), ..self }
    }

    /// Set deaf
    pub fn set_deaf(self, deaf: bool) -> (r: GuildMemberAddOptions)
        ensures
            r == (GuildMemberAddOptions { deaf: Some(deaf), ..self }),
    {
        GuildMemberAddOptions { deaf: Some(deaf), ..self }
    }
}

impl GuildRoleModifyPositionOptions {
    /// Creates a new `GuildRoleModifyPositionOptions` with a role id
    pub fn new(id: &str) -> (r: GuildRoleModifyPositionOptions)
        ensures
            r.id@ == id@,
            r.position is None,
    {
        GuildRoleModifyPositionOptions { id: string_of(id), position: None }
    }

    /// Set the position
    pub fn set_position(self, position: i64) -> (r: GuildRoleModifyPositionOptions)
        ensures
            r == (GuildRoleModifyPositionOptions { position: Some(position), ..self }),
    {
        GuildRoleModifyPositionOptions { position: Some(position), ..self }
    }
}

impl BanFetchOptions {
    /// Creates a new empty `BanFetchOptions`
    pub fn new() -> (r: BanFetchOptions)
        ensures
            r.limit is None,
            r.before is None,
            r.after is None,
    {
        BanFetchOptions { limit: None, before: None, after: None }
    }

    /// Set the limit
    pub fn set_limit(self, limit: i64) -> (r: BanFetchOptions)
        ensures
            r == (BanFetchOptions { limit: Some(limit), ..self }),
    {
        BanFetchOptions { limit: Some(limit), ..self }
    }

    /// Set before
    pub fn set_before(self, before: &str) -> (r: BanFetchOptions)
        ensures
            str_opt(r.before, before@),
            r == (BanFetchOptions { before: r.before, ..self }),
    {
        BanFetchOptions { before: Some(string_of(before)), ..self }
    }

    /// Set after
    pub fn set_after(self, after: &str) -> (r: BanFetchOptions)
        ensures
            str_opt(r.after, after@),
            r == (BanFetchOptions { after: r.after, ..self }),
    {
        BanFetchOptions { after: Some(string_of(after)), ..self }
    }
}

impl BulkBanOptions {
    /// Creates a new empty `BulkBanOptions`
    pub fn new() -> (r: BulkBanOptions)
        ensures
            r.user_ids@.len() == 0,
            r.delete_message_seconds is None,
    {
        BulkBanOptions { user_ids: Vec::new(), delete_message_seconds: None }
    }

    /// Set all user ids at once
    pub fn set_user_ids(self, user_ids: Vec<Snowflake>) -> (r: BulkBanOptions)
        ensures
            r == (BulkBanOptions { user_ids: user_ids, ..self }),
    {
        BulkBanOptions { user_ids: user_ids, ..self }
    }

    /// Set delete message seconds
    pub fn set_delete_message_seconds(self, seconds: i64) -> (r: BulkBanOptions)
        ensures
            r == (BulkBanOptions { delete_message_seconds: Some(seconds), ..self }),
    {
        BulkBanOptions { delete_message_seconds: Some(seconds), ..self }
    }
}

impl PruneCountOptions {
    /// Creates a new empty `PruneCountOptions`
    pub fn new() -> (r: PruneCountOptions)
        ensures
            r.days is None,
            r.include_roles is None,
    {
        PruneCountOptions { days: None, include_roles: None }
    }

    /// Set days
    pub fn set_days(self, days: i64) -> (r: PruneCountOptions)
        ensures
            r == (PruneCountOptions { days: Some(days), ..self }),
    {
        PruneCountOptions { days: Some(days), ..self }
    }

    /// Add a role to be included
    pub fn include_role(self, role_id: &str) -> (r: PruneCountOptions)
        ensures
            r.include_roles matches Some(v) && v@.len() == vec_or_empty(self.include_roles).len() + 1 && v@.drop_last() == vec_or_empty(self.include_roles) && v@.last()@ == role_id@,
            r == (PruneCountOptions { include_roles: r.include_roles, ..self }),
    {
        PruneCountOptions { include_roles: Some(push_onto(self.include_roles, string_of(role_id))), ..self }
    }

    /// Set the roles to include
    pub fn set_include_roles(self, roles: Vec<Snowflake>) -> (r: PruneCountOptions)
        ensures
            r == (PruneCountOptions { include_roles: Some(roles), ..self }),
    {
        PruneCountOptions { include_roles: Some(roles), ..self }
    }
}

impl PruneOptions {
    /// Creates a new empty `PruneOptions`
    pub fn new() -> (r: PruneOptions)
        ensures
            r.days is None,
            r.compute_prune_count is None,
            r.include_roles is None,
    {
        PruneOptions { days: None, compute_prune_count: None, include_roles: None }
    }

    /// Set days
    pub fn set_days(self, days: i64) -> (r: PruneOptions)
        ensures
            r == (PruneOptions { days: Some(days), ..self }),
    {
        PruneOptions { days: Some(days), ..self }
    }

    /// Set whether to compute the prune count
    pub fn set_compute_prune_count(self, compute: bool) -> (r: PruneOptions)
        ensures
            r == (PruneOptions { compute_prune_count: Some(compute), ..self }),
    {
        PruneOptions { compute_prune_count: Some(compute), ..self }
    }

    /// Add a role to be included
    pub fn include_role(self, role_id: &str) -> (r: PruneOptions)
        ensures
            r.include_roles matches Some(v) && v@.len() == vec_or_empty(self.include_roles).len() + 1 && v@.drop_last() == vec_or_empty(self.include_roles) && v@.last()@ == role_id@,
            r == (PruneOptions { include_roles: r.include_roles, ..self }),
    {
        PruneOptions { include_roles: Some(push_onto(self.include_roles, string_of(role_id))), ..self }
    }

    /// Set the roles to include
    pub fn set_include_roles(self, roles: Vec<Snowflake>) -> (r: PruneOptions)
        ensures
            r == (PruneOptions { include_roles: Some(roles), ..self }),
    {
        PruneOptions { include_roles: Some(roles), ..self }
    }
}

impl GuildWidgetModifyOptions {
    /// Creates a new empty `GuildWidgetSettingsModifyOptions`
    pub fn new() -> (r: GuildWidgetModifyOptions)
        ensures
            r.enabled is None,
            r.channel_id is None,
    {
        GuildWidgetModifyOptions { enabled: None, channel_id: None }
    }

    /// Set enabled
    pub fn set_enabled(self, enabled: bool) -> (r: GuildWidgetModifyOptions)
        ensures
            r == (GuildWidgetModifyOptions { enabled: Some(enabled), ..self }),
    {
        GuildWidgetModifyOptions { enabled: Some(enabled), ..self }
    }

    /// Set channel id
    pub fn set_channel_id(self, channel_id: Option<&str>) -> (r: GuildWidgetModifyOptions)
        ensures
            r.channel_id matches Some(inner) && opt_view(inner) == opt_str_view(channel_id),
            r == (GuildWidgetModifyOptions { channel_id: r.channel_id, ..self }),
    {
        GuildWidgetModifyOptions { channel_id: Some(opt_string(channel_id)), ..self }
    }
}

impl WelcomeScreenModifyOptions {
    /// Creates a new empty `WelcomeScreenModifyOptions`
    pub fn new() -> (r: WelcomeScreenModifyOptions)
        ensures
            r.enabled is None,
            r.welcome_channels is None,
            r.description is None,
    {
        WelcomeScreenModifyOptions { enabled: None, welcome_channels: None, description: None }
    }

    /// Set enabled
    pub fn set_enabled(self, enabled: bool) -> (r: WelcomeScreenModifyOptions)
        ensures
            r == (WelcomeScreenModifyOptions { enabled: Some(enabled), ..self }),
    {
        WelcomeScreenModifyOptions { enabled: Some(enabled), ..self }
    }

    /// Set welcome channels
    pub fn set_welcome_channels(self, welcome_channels: Option<Vec<WelcomeScreenChannel>>) -> (r: WelcomeScreenModifyOptions)
        ensures
            r == (WelcomeScreenModifyOptions { welcome_channels: Some(welcome_channels), ..self }),
    {
        WelcomeScreenModifyOptions { welcome_channels: Some(welcome_channels), ..self }
    }

    /// Set description
    pub fn set_description(self, description: Option<&str>) -> (r: WelcomeScreenModifyOptions)
        ensures
            r.description matches Some(inner) && opt_view(inner) == opt_str_view(description),
            r == (WelcomeScreenModifyOptions { description: r.description, ..self }),
    {
        WelcomeScreenModifyOptions { description: Some(opt_string(description)), ..self }
    }
}

impl GuildOnboardingModifyOptions {
    /// Creates a new empty `GuildOnboardingModifyOptions`
    pub fn new() -> (r: GuildOnboardingModifyOptions)
        ensures
            r.prompts is None,
            r.default_channel_ids is None,
            r.enabled is None,
            r.mode is None,
    {
        GuildOnboardingModifyOptions { prompts: None, default_channel_ids: None, enabled: None, mode: None }
    }

    /// Add a prompt
    pub fn add_prompt(self, prompt: GuildOnboardingPrompt) -> (r: GuildOnboardingModifyOptions)
        ensures
            r.prompts matches Some(v) && v@ == vec_or_empty(self.prompts).push(prompt),
            r == (GuildOnboardingModifyOptions { prompts: r.prompts, ..self }),
    {
        GuildOnboardingModifyOptions { prompts: Some(push_onto(self.prompts, prompt)), ..self }
    }

    /// Set the prompts
    pub fn set_prompts(self, prompts: Vec<GuildOnboardingPrompt>) -> (r: GuildOnboardingModifyOptions)
        ensures
            r == (GuildOnboardingModifyOptions { prompts: Some(prompts), ..self }),
    {
        GuildOnboardingModifyOptions { prompts: Some(prompts), ..self }
    }

    /// Add a default channel
    pub fn add_default_channel_id(self, channel_id: &str) -> (r: GuildOnboardingModifyOptions)
        ensures
            r.default_channel_ids matches Some(v) && v@.len() == vec_or_empty(self.default_channel_ids).len() + 1 && v@.drop_last() == vec_or_empty(self.default_channel_ids) && v@.last()@ == channel_id@,
            r == (GuildOnboardingModifyOptions { default_channel_ids: r.default_channel_ids, ..self }),
    {
        GuildOnboardingModifyOptions { default_channel_ids: Some(push_onto(self.default_channel_ids, string_of(channel_id))), ..self }
    }

    /// Set enabled
    pub fn set_enabled(self, enabled: bool) -> (r: GuildOnboardingModifyOptions)
        ensures
            r == (GuildOnboardingModifyOptions { enabled: Some(enabled), ..self }),
    {
        GuildOnboardingModifyOptions { enabled: Some(enabled), ..self }
    }

    /// Set the onboarding mode
    pub fn set_mode(self, mode: GuildOnboardingMode) -> (r: GuildOnboardingModifyOptions)
        ensures
            r == (GuildOnboardingModifyOptions { mode: Some(mode), ..self }),
    {
        GuildOnboardingModifyOptions { mode: Some(mode), ..self }
    }
}

impl GuildIncidentActionsModifyOptions {
    /// Creates a new empty `GuildIncidentActionsModifyOptions`
    pub fn new() -> (r: GuildIncidentActionsModifyOptions)
        ensures
            r.invites_disabled_until is None,
            r.dms_disabled_until is None,
    {
        GuildIncidentActionsModifyOptions { invites_disabled_until: None, dms_disabled_until: None }
    }

    /// Set invites disabled until
    pub fn set_invites_disabled_until(self, invites_disabled_until: Option<Timestamp>) -> (r: GuildIncidentActionsModifyOptions)
        ensures
            r == (GuildIncidentActionsModifyOptions { invites_disabled_until: Some(invites_disabled_until), ..self }),
    {
        GuildIncidentActionsModifyOptions { invites_disabled_until: Some(invites_disabled_until), ..self }
    }

    /// Set DMs disabled until
    pub fn set_dms_disabled_until(self, dms_disabled_until: Option<Timestamp>) -> (r: GuildIncidentActionsModifyOptions)
        ensures
            r == (GuildIncidentActionsModifyOptions { dms_disabled_until: Some(dms_disabled_until), ..self }),
    {
        GuildIncidentActionsModifyOptions { dms_disabled_until: Some(dms_disabled_until), ..self }
    }
}

#[verifier::external_type_specification]
#[verifier::external_body]
pub struct ExSystemTime(std::time::SystemTime);

#[verifier::external_type_specification]
#[verifier::external_body]
pub struct ExSystemTimeError(std::time::SystemTimeError);

/// Calls `std::time::SystemTime::now`; it reads the system clock, so nothing is claimed of the result.
#[verifier::external_body]
fn system_time_now() -> (r: std::time::SystemTime) {
    std::time::SystemTime::now()
}

/// Calls `SystemTime::duration_since(UNIX_EPOCH)`: the time from the epoch to `t`, or, where `t`
/// is earlier than the epoch, an error that holds the time from `t` to the epoch. A `SystemTime`
/// is opaque here, so nothing is claimed of which comes back.
#[verifier::external_body]
fn duration_since_epoch(t: &std::time::SystemTime) -> (r: Result<core::time::Duration, std::time::SystemTimeError>) {
    t.duration_since(std::time::UNIX_EPOCH)
}

/// Calls `SystemTimeError::duration`: how far the time was before the epoch. A `SystemTimeError`
/// is opaque here, so nothing is claimed of the result.
#[verifier::external_body]
fn duration_before_epoch(e: &std::time::SystemTimeError) -> (r: core::time::Duration) {
    e.duration()
}

/// Calls `Duration::as_secs`: the whole seconds of a duration. A `Duration` is opaque here, so
/// nothing is claimed of the result.
#[verifier::external_body]
fn duration_whole_seconds(d: &core::time::Duration) -> (r: u64) {
    d.as_secs()
}

/// Calls `Duration::subsec_nanos`: the nanoseconds beyond the whole seconds of a duration, which
/// its documentation says are always less than one billion.
#[verifier::external_body]
fn duration_subsec_nanos(d: &core::time::Duration) -> (r: u32)
    ensures
        r < 1_000_000_000,
{
    d.subsec_nanos()
}

/// The Unix timestamp of a time `secs` seconds and `nanos` nanoseconds after the epoch (`after`)
/// or before it: its whole seconds, rounded down, so negative before the epoch.
pub open spec fn unix_timestamp_of(after: bool, secs: u64, nanos: u32) -> int {
    if after {
        secs as int
    } else if nanos == 0 {
        -(secs as int)
    } else {
        -(secs as int) - 1
    }
}

/// The Unix timestamp of a time `secs` seconds and `nanos` nanoseconds after the epoch (`after`)
/// or before it, in whole seconds rounded down; the nearest end of the range of an `i64` where
/// the timestamp lies beyond it.
pub fn unix_timestamp(after: bool, secs: u64, nanos: u32) -> (r: i64)
    ensures
        r == if unix_timestamp_of(after, secs, nanos) > i64::MAX {
            i64::MAX as int
        } else if unix_timestamp_of(after, secs, nanos) < i64::MIN {
            i64::MIN as int
        } else {
            unix_timestamp_of(after, secs, nanos)
        },
{
    if after {
        if secs <= i64::MAX as u64 { secs as i64 } else { i64::MAX }
    } else if secs <= i64::MAX as u64 {
        let s = secs as i64;
        if nanos == 0 { -s } else { -s - 1 }
    } else {
        i64::MIN
    }
}

/// The current Unix timestamp, in whole seconds rounded down (negative where the system clock
/// reads a time before the epoch), as an id.
fn time_id_now() -> (r: i64) {
    let now = system_time_now();
    match duration_since_epoch(&now) {
        Ok(d) => unix_timestamp(true, duration_whole_seconds(&d), duration_subsec_nanos(&d)),
        Err(e) => {
            let d = duration_before_epoch(&e);
            unix_timestamp(false, duration_whole_seconds(&d), duration_subsec_nanos(&d))
        },
    }
}

/// Whether `s` is the decimal text of some Unix timestamp, as [`GuildOnboardingPrompt::new`] uses
/// for fresh ids.
pub open spec fn is_time_id(s: Seq<char>) -> bool {
    exists|t: i64| s == int_text(t as int)
}

impl GuildOnboardingPrompt {
    /// Creates a new prompt with the current Unix timestamp as its id
    pub fn new() -> (r: GuildOnboardingPrompt)
        ensures
            is_time_id(r.id@),
            r.prompt_type == GuildOnboardingPromptType::MULTIPLE_CHOICE,
            r.options@.len() == 0,
            r.title@.len() == 0,
            r.single_select == false,
            r.required == false,
            r.in_onboarding == true,
    {
        GuildOnboardingPrompt::new_at(time_id_now())
    }

    /// Creates a new prompt whose id is this time, in seconds since the Unix epoch
    pub fn new_at(time: i64) -> (r: GuildOnboardingPrompt)
        ensures
            r.id@ == int_text(time as int),
            r.prompt_type == GuildOnboardingPromptType::MULTIPLE_CHOICE,
            r.options@.len() == 0,
            r.title@.len() == 0,
            r.single_select == false,
            r.required == false,
            r.in_onboarding == true,
    {
        GuildOnboardingPrompt {
            id: i64_to_string(time),
            prompt_type: GuildOnboardingPromptType::MULTIPLE_CHOICE,
            options: Vec::new(),
            title: String::new(),
            single_select: false,
            required: false,
            in_onboarding: true,
        }
    }

    /// Add an option to the prompt
    pub fn add_option(self, option: GuildOnboardingPromptOption) -> (r: GuildOnboardingPrompt)
        ensures
            r.options@ == self.options@.push(option),
            r.id == self.id && r.prompt_type == self.prompt_type && r.title == self.title,
            r.single_select == self.single_select && r.required == self.required && r.in_onboarding == self.in_onboarding,
    {
        let mut options = self.options;
        options.push(option);
        GuildOnboardingPrompt { options, ..self }
    }
}

impl GuildOnboardingPromptOption {
    /// Creates a new prompt option with the current Unix timestamp as its id
    pub fn new() -> (r: GuildOnboardingPromptOption)
        ensures
            is_time_id(r.id@),
            r.channel_ids@.len() == 0,
            r.role_ids@.len() == 0,
            r.emoji is None,
            r.emoji_id is None,
            r.emoji_name is None,
            r.emoji_animated is None,
            r.title@.len() == 0,
            r.description is None,
    {
        GuildOnboardingPromptOption::new_at(time_id_now())
    }

    /// Creates a new prompt option whose id is this time, in seconds since the Unix epoch
    pub fn new_at(time: i64) -> (r: GuildOnboardingPromptOption)
        ensures
            r.id@ == int_text(time as int),
            r.channel_ids@.len() == 0,
            r.role_ids@.len() == 0,
            r.emoji is None,
            r.emoji_id is None,
            r.emoji_name is None,
            r.emoji_animated is None,
            r.title@.len() == 0,
            r.description is None,
    {
        GuildOnboardingPromptOption {
            id: i64_to_string(time),
            channel_ids: Vec::new(),
            role_ids: Vec::new(),
            emoji: None,
            emoji_id: None,
            emoji_name: None,
            emoji_animated: None,
            title: String::new(),
            description: None,
        }
    }

    /// Add a channel to the option
    pub fn add_channel_id(self, channel_id: &str) -> (r: GuildOnboardingPromptOption)
        ensures
            r.channel_ids@.len() == self.channel_ids@.len() + 1,
            r.channel_ids@.drop_last() == self.channel_ids@,
            r.channel_ids@.last()@ == channel_id@,
            r == (GuildOnboardingPromptOption { channel_ids: r.channel_ids, ..self }),
    {
        let mut channel_ids = self.channel_ids;
        channel_ids.push(string_of(channel_id));
        proof { assert(channel_ids@.drop_last() =~= self.channel_ids@); }
        GuildOnboardingPromptOption { channel_ids, ..self }
    }

    /// Add a role to the option
    pub fn add_role_id(self, role_id: &str) -> (r: GuildOnboardingPromptOption)
        ensures
            r.role_ids@.len() == self.role_ids@.len() + 1,
            r.role_ids@.drop_last() == self.role_ids@,
            r.role_ids@.last()@ == role_id@,
            r == (GuildOnboardingPromptOption { role_ids: r.role_ids, ..self }),
    {
        let mut role_ids = self.role_ids;
        role_ids.push(string_of(role_id));
        proof { assert(role_ids@.drop_last() =~= self.role_ids@); }
        GuildOnboardingPromptOption { role_ids, ..self }
    }

    /// Set the emoji of the option; its id, name and animatedness are copied too
    pub fn set_emoji(self, emoji: Emoji) -> (r: GuildOnboardingPromptOption)
        ensures
            opt_view(r.emoji_id) == opt_view(emoji.id),
            opt_view(r.emoji_name) == opt_view(emoji.name),
            r.emoji_animated == emoji.animated,
            r.emoji == Some(emoji),
            r == (GuildOnboardingPromptOption { emoji: r.emoji, emoji_id: r.emoji_id, emoji_name: r.emoji_name, emoji_animated: r.emoji_animated, ..self }),
    {
        let emoji_id = match &emoji.id { Some(s) => Some(s.clone()), None => None };
        let emoji_name = match &emoji.name { Some(s) => Some(s.clone()), None => None };
        let emoji_animated = emoji.animated;
        GuildOnboardingPromptOption { emoji_id, emoji_name, emoji_animated, emoji: Some(emoji), ..self }
    }
}

impl BulkBanOptions {
    /// Add a user to ban
    pub fn add_user(self, user_id: &str) -> (r: BulkBanOptions)
        ensures
            r.user_ids@.len() == self.user_ids@.len() + 1,
            r.user_ids@.drop_last() == self.user_ids@,
            r.user_ids@.last()@ == user_id@,
            r.delete_message_seconds == self.delete_message_seconds,
    {
        let mut user_ids = self.user_ids;
        user_ids.push(string_of(user_id));
        proof { assert(user_ids@.drop_last() =~= self.user_ids@); }
        BulkBanOptions { user_ids, ..self }
    }
}

impl From<PruneCountOptions> for PruneOptions {
    fn from(value: PruneCountOptions) -> (r: PruneOptions) {
        PruneOptions { days: value.days, compute_prune_count: None, include_roles: value.include_roles }
    }
}

impl vstd::std_specs::convert::FromSpecImpl<PruneCountOptions> for PruneOptions {
    open spec fn obeys_from_spec() -> bool {
        true
    }

    open spec fn from_spec(value: PruneCountOptions) -> PruneOptions {
        PruneOptions { days: value.days, compute_prune_count: None, include_roles: value.include_roles }
    }
}

impl GuildOnboardingModifyOptions {
    /// Set the default channels, from their ids
    pub fn set_default_channel_ids(self, ids: Vec<String>) -> (r: GuildOnboardingModifyOptions)
        ensures
            r == (GuildOnboardingModifyOptions { default_channel_ids: Some(ids), ..self }),
    {
        GuildOnboardingModifyOptions { default_channel_ids: Some(ids), ..self }
    }
}

impl VerificationLevel {
    /// Discord's number for a value reads back as that value.
    pub proof fn law_code_round_trip(self)
        ensures
            VerificationLevel::spec_from_code(self.spec_code()) == Some(self),
    {
    }
}

impl MessageNotificationLevel {
    /// Discord's number for a value reads back as that value.
    pub proof fn law_code_round_trip(self)
        ensures
            MessageNotificationLevel::spec_from_code(self.spec_code()) == Some(self),
    {
    }
}

impl ExplicitContentFilterLevel {
    /// Discord's number for a value reads back as that value.
    pub proof fn law_code_round_trip(self)
        ensures
            ExplicitContentFilterLevel::spec_from_code(self.spec_code()) == Some(self),
    {
    }
}

impl MFALevel {
    /// Discord's number for a value reads back as that value.
    pub proof fn law_code_round_trip(self)
        ensures
            MFALevel::spec_from_code(self.spec_code()) == Some(self),
    {
    }
}

impl PremiumTier {
    /// Discord's number for a value reads back as that value.
    pub proof fn law_code_round_trip(self)
        ensures
            PremiumTier::spec_from_code(self.spec_code()) == Some(self),
    {
    }
}

impl NSFWLevel {
    /// Discord's number for a value reads back as that value.
    pub proof fn law_code_round_trip(self)
        ensures
            NSFWLevel::spec_from_code(self.spec_code()) == Some(self),
    {
    }
}

impl PrivacyLevel {
    /// Discord's number for a value reads back as that value.
    pub proof fn law_code_round_trip(self)
        ensures
            PrivacyLevel::spec_from_code(self.spec_code()) == Some(self),
    {
    }
}

impl EventStatus {
    /// Discord's number for a value reads back as that value.
    pub proof fn law_code_round_trip(self)
        ensures
            EventStatus::spec_from_code(self.spec_code()) == Some(self),
    {
    }
}

impl EntityType {
    /// Discord's number for a value reads back as that value.
    pub proof fn law_code_round_trip(self)
        ensures
            EntityType::spec_from_code(self.spec_code()) == Some(self),
    {
    }
}

impl EventRecurrenceRuleFrequency {
    /// Discord's number for a value reads back as that value.
    pub proof fn law_code_round_trip(self)
        ensures
            EventRecurrenceRuleFrequency::spec_from_code(self.spec_code()) == Some(self),
    {
    }
}

impl EventRecurrenceRuleWeekday {
    /// Discord's number for a value reads back as that value.
    pub proof fn law_code_round_trip(self)
        ensures
            EventRecurrenceRuleWeekday::spec_from_code(self.spec_code()) == Some(self),
    {
    }
}

impl EventRecurrenceRuleMonth {
    /// Discord's number for a value reads back as that value.
    pub proof fn law_code_round_trip(self)
        ensures
            EventRecurrenceRuleMonth::spec_from_code(self.spec_code()) == Some(self),
    {
    }
}

impl GuildIntegrationExpireBehavior {
    /// Discord's number for a value reads back as that value.
    pub proof fn law_code_round_trip(self)
        ensures
            GuildIntegrationExpireBehavior::spec_from_code(self.spec_code()) == Some(self),
    {
    }
}

impl GuildOnboardingPromptType {
    /// Discord's number for a value reads back as that value.
    pub proof fn law_code_round_trip(self)
        ensures
            GuildOnboardingPromptType::spec_from_code(self.spec_code()) == Some(self),
    {
    }
}

impl GuildOnboardingMode {
    /// Discord's number for a value reads back as that value.
    pub proof fn law_code_round_trip(self)
        ensures
            GuildOnboardingMode::spec_from_code(self.spec_code()) == Some(self),
    {
    }
}

impl Default for GuildOnboardingPrompt {
    /// The same as [`GuildOnboardingPrompt::new`]
    fn default() -> (r: GuildOnboardingPrompt)
        ensures
            is_time_id(r.id@),
            r.prompt_type == GuildOnboardingPromptType::MULTIPLE_CHOICE,
            r.options@.len() == 0,
            r.title@.len() == 0,
            r.single_select == false,
            r.required == false,
            r.in_onboarding == true,
    {
        GuildOnboardingPrompt::new()
    }
}

impl Default for GuildOnboardingPromptOption {
    /// The same as [`GuildOnboardingPromptOption::new`]
    fn default() -> (r: GuildOnboardingPromptOption)
        ensures
            is_time_id(r.id@),
            r.channel_ids@.len() == 0,
            r.role_ids@.len() == 0,
            r.emoji is None,
            r.emoji_id is None,
            r.emoji_name is None,
            r.emoji_animated is None,
            r.title@.len() == 0,
            r.description is None,
    {
        GuildOnboardingPromptOption::new()
    }
}

impl Default for GuildMemberListOptions {
    /// The same as [`GuildMemberListOptions::new`]
    fn default() -> (r: GuildMemberListOptions)
        ensures
            r.limit is None,
            r.after is None,
    {
        GuildMemberListOptions::new()
    }
}

impl Default for BanFetchOptions {
    /// The same as [`BanFetchOptions::new`]
    fn default() -> (r: BanFetchOptions)
        ensures
            r.limit is None,
            r.before is None,
            r.after is None,
    {
        BanFetchOptions::new()
    }
}

impl Default for BulkBanOptions {
    /// The same as [`BulkBanOptions::new`]
    fn default() -> (r: BulkBanOptions)
        ensures
            r.user_ids@.len() == 0,
            r.delete_message_seconds is None,
    {
        BulkBanOptions::new()
    }
}

impl Default for PruneCountOptions {
    /// The same as [`PruneCountOptions::new`]
    fn default() -> (r: PruneCountOptions)
        ensures
            r.days is None,
            r.include_roles is None,
    {
        PruneCountOptions::new()
    }
}

impl Default for PruneOptions {
    /// The same as [`PruneOptions::new`]
    fn default() -> (r: PruneOptions)
        ensures
            r.days is None,
            r.compute_prune_count is None,
            r.include_roles is None,
    {
        PruneOptions::new()
    }
}

impl Default for GuildWidgetModifyOptions {
    /// The same as [`GuildWidgetModifyOptions::new`]
    fn default() -> (r: GuildWidgetModifyOptions)
        ensures
            r.enabled is None,
            r.channel_id is None,
    {
        GuildWidgetModifyOptions::new()
    }
}

impl Default for WelcomeScreenModifyOptions {
    /// The same as [`WelcomeScreenModifyOptions::new`]
    fn default() -> (r: WelcomeScreenModifyOptions)
        ensures
            r.enabled is None,
            r.welcome_channels is None,
            r.description is None,
    {
        WelcomeScreenModifyOptions::new()
    }
}

impl Default for GuildOnboardingModifyOptions {
    /// The same as [`GuildOnboardingModifyOptions::new`]
    fn default() -> (r: GuildOnboardingModifyOptions)
        ensures
            r.prompts is None,
            r.default_channel_ids is None,
            r.enabled is None,
            r.mode is None,
    {
        GuildOnboardingModifyOptions::new()
    }
}

impl Default for GuildIncidentActionsModifyOptions {
    /// The same as [`GuildIncidentActionsModifyOptions::new`]
    fn default() -> (r: GuildIncidentActionsModifyOptions)
        ensures
            r.invites_disabled_until is None,
            r.dms_disabled_until is None,
    {
        GuildIncidentActionsModifyOptions::new()
    }
}

} // verus!
