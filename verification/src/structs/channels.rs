//! Structs related to Discord channels

use vstd::prelude::*;
use crate::commands::responder::MessageResponse;
use crate::keyed::{push_onto, vec_or_empty};
use crate::structs::{Permissions, Snowflake, Timestamp};
use crate::structs::members::GuildMember;
use crate::structs::messages::Message;
use crate::structs::users::User;
use crate::text::{str_opt, string_of};

verus! {

/// Discord Channel Object
#[derive(Debug)]
pub struct Channel {
  /// The id of this channel
  pub id: Snowflake,
  /// The [type of channel](ChannelType)
  pub channel_type: ChannelType,
  /// The id of the guild (may be missing for some channel objects received over gateway guild dispatches)
  pub guild_id: Option<Snowflake>,
  /// Sorting position of the channel
  pub position: Option<i64>,
  /// Explicit permission overwrites for members and roles
  pub permission_overwrites: Option<Vec<PermissionOverwrite>>,
  /// The name of the channel (1-100 characters)
  pub name: Option<String>,
  /// The channel topic (0-4096 characters for `GUILD_FORUM` channels, 0-1024 characters for all others)
  pub topic: Option<String>,
  /// Whether the channel is nsfw
  pub nsfw: Option<bool>,
  /// The id of the last message sent in this channel (or thread for `GUILD_FORUM` channels) (may not point to an existing or valid message or thread)
  pub last_message_id: Option<Snowflake>,
  /// The bitrate (in bits) of the voice channel
  pub bitrate: Option<i64>,
  /// The user limit of the voice channel
  pub user_limit: Option<i64>,
  /// Amount of seconds a user has to wait before sending another message (0-21600); bots, as well as users with the permission `manage_messages` or `manage_channel`, are unaffected
  pub rate_limit_per_user: Option<i64>,
  /// The recipients of the DM
  pub recipients: Option<Vec<User>>,
  /// Icon hash of the group DM
  pub icon: Option<String>,
  /// Id of the creator of the group DM or thread
  pub owner_id: Option<Snowflake>,
  /// Application id of the group DM creator if it is bot-created
  pub application_id: Option<Snowflake>,
  /// For group DM channels: whether the channel is managed by an application via the `gdm.join` OAuth2 scope
  pub managed: Option<bool>,
  /// For guild channels: id of the parent category for a channel (each parent category can contain up to 50 channels), for threads: id of the text channel this thread was created
  pub parent_id: Option<Snowflake>,
  /// When the last pinned message was pinned. This may be `None` in events such as `GUILD_CREATE` when a message is not pinned.
  pub last_pin_timestamp: Option<Timestamp>,
  /// [Voice region](https://discord.com/developers/docs/resources/voice#voice-region-object) id for the voice channel, automatic when set to None
  pub rtc_region: Option<String>,
  /// The camera [video quality mode](VideoQualityMode) of the voice channel, `AUTO` when not present
  pub video_quality_mode: Option<VideoQualityMode>,
  /// Number of messages (not including the initial message or deleted messages) in a thread.
  pub message_count: Option<i64>,
  /// An approximate count of users in a thread, stops counting at 50
  pub member_count: Option<i64>,
  /// Thread-specific fields not needed by other channels
  pub thread_metadata: Option<ThreadMetadata>,
  /// Thread member object for the current user, if they have joined the thread, only included on certain API endpoints
  pub member: Option<ThreadMember>,
  /// Default duration, copied onto newly created threads, in minutes, threads will stop showing in the channel list after the specified period of inactivity, can be set to: 60, 1440, 4320, 10080
  pub default_auto_archive_duration: Option<i64>,
  /// Computed permissions for the invoking user in the channel, including overwrites, only included when part of the `resolved` data received on a slash command interaction
  pub permissions: Option<Permissions>,
  /// [Channel flags](ChannelFlags) combined as a [bitfield](https://en.wikipedia.org/wiki/Bit_field)
  pub flags: Option<ChannelFlags>,
  /// Number of messages ever sent in a thread, it's similar to `message_count` on message creation, but will not decrement the number when a message is deleted
  pub total_message_sent: Option<i64>,
  /// The set of tags that can be used in a `GUILD_FORUM` channel
  pub available_tags: Option<Vec<ForumTag>>,
  /// The IDs of the set of tags that have been applied to a thread in a `GUILD_FORUM` channel
  pub applied_tags: Option<Vec<Snowflake>>,
  /// The emoji to show in the add reaction button on a thread in a `GUILD_FORUM` channel
  pub default_reaction_emoji: Option<DefaultReaction>,
  /// The initial `rate_limit_per_user` to set on newly created threads in a channel. This field is copied to the thread at creation time and does not live update.
  pub default_thread_rate_limit_per_user: Option<i64>,
  /// The [default sort order type](SortOrderType) used to order posts in `GUILD_FORUM` channels. Defaults to `None`, which indicates a preferred sort order hasn't been set by a channel admin
  pub default_sort_order: Option<SortOrderType>,
  /// The [default forum layout view](ForumLayoutType) used to display posts in `GUILD_FORUM` channels. Defaults to `NOT_SET`, which indicates a layout view has not been set by a channel admin
  pub default_forum_layout: Option<ForumLayoutType>,
  /// A nested message object returned when creating forum or media posts
  pub message: Option<Box<Message>>,
}

/// Discord Channel Types
#[derive(Clone, Copy, Debug, PartialEq, Eq, Hash, Structural)]
#[allow(non_camel_case_types)]
pub enum ChannelType {
  /// A text channel within a server
  GUILD_TEXT,
  /// A direct message between users
  DM,
  /// A voice channel within a server
  GUILD_VOICE,
  /// A direct message between multiple users
  GROUP_DM,
  /// An [organizational category](https://support.discord.com/hc/en-us/articles/115001580171-Channel-Categories-101) that contains up to 50 channels
  GUILD_CATEGORY,
  /// A channel that [users can follow and crosspost into their own server](https://support.discord.com/hc/en-us/articles/360032008192) (formerly news channels)
  GUILD_ANNOUNCEMENT,
  /// A temporary sub-channel within a GUILD_ANNOUNCEMENT channel
  ANNOUNCEMENT_THREAD,
  /// A temporary sub-channel within a GUILD_TEXT or GUILD_FORUM channel
  GUILD_PUBLIC_THREAD,
  /// A temporary sub-channel within a GUILD_TEXT channel that is only viewable by those invited and those with the MANAGE_THREADS permission
  GUILD_PRIVATE_THREAD,
  /// A voice channel for [hosting events with an audience](https://support.discord.com/hc/en-us/articles/1500005513722)
  GUILD_STAGE_VOICE,
  /// The channel in a [hub](https://support.discord.com/hc/en-us/articles/4406046651927-Discord-Student-Hubs-FAQ) containing the listed servers
  GUILD_DIRECTORY,
  /// Channel that can only contain threads
  GUILD_FORUM,
  /// Channel type that hasn't been implemented yet
  UNKNOWN,
}

impl ChannelType {
    /// The number that Discord uses for this value.
    pub open spec fn spec_code(self) -> u8 {
        match self {
            ChannelType::GUILD_TEXT => 0,
            ChannelType::DM => 1,
            ChannelType::GUILD_VOICE => 2,
            ChannelType::GROUP_DM => 3,
            ChannelType::GUILD_CATEGORY => 4,
            ChannelType::GUILD_ANNOUNCEMENT => 5,
            ChannelType::ANNOUNCEMENT_THREAD => 10,
            ChannelType::GUILD_PUBLIC_THREAD => 11,
            ChannelType::GUILD_PRIVATE_THREAD => 12,
            ChannelType::GUILD_STAGE_VOICE => 13,
            ChannelType::GUILD_DIRECTORY => 14,
            ChannelType::GUILD_FORUM => 15,
            ChannelType::UNKNOWN => 16,
        }
    }

    /// The value that Discord's number `code` stands for, if any.
    pub open spec fn spec_from_code(code: u8) -> Option<ChannelType> {
        match code {
            0 => Some(ChannelType::GUILD_TEXT),
            1 => Some(ChannelType::DM),
            2 => Some(ChannelType::GUILD_VOICE),
            3 => Some(ChannelType::GROUP_DM),
            4 => Some(ChannelType::GUILD_CATEGORY),
            5 => Some(ChannelType::GUILD_ANNOUNCEMENT),
            10 => Some(ChannelType::ANNOUNCEMENT_THREAD),
            11 => Some(ChannelType::GUILD_PUBLIC_THREAD),
            12 => Some(ChannelType::GUILD_PRIVATE_THREAD),
            13 => Some(ChannelType::GUILD_STAGE_VOICE),
            14 => Some(ChannelType::GUILD_DIRECTORY),
            15 => Some(ChannelType::GUILD_FORUM),
            16 => Some(ChannelType::UNKNOWN),
            _ => None,
        }
    }

    /// The number that Discord uses for this value.
    pub fn code(&self) -> (r: u8)
        ensures
            r == self.spec_code(),
    {
        match self {
            ChannelType::GUILD_TEXT => 0,
            ChannelType::DM => 1,
            ChannelType::GUILD_VOICE => 2,
            ChannelType::GROUP_DM => 3,
            ChannelType::GUILD_CATEGORY => 4,
            ChannelType::GUILD_ANNOUNCEMENT => 5,
            ChannelType::ANNOUNCEMENT_THREAD => 10,
            ChannelType::GUILD_PUBLIC_THREAD => 11,
            ChannelType::GUILD_PRIVATE_THREAD => 12,
            ChannelType::GUILD_STAGE_VOICE => 13,
            ChannelType::GUILD_DIRECTORY => 14,
            ChannelType::GUILD_FORUM => 15,
            ChannelType::UNKNOWN => 16,
        }
    }

    /// The value that Discord's number `code` stands for, if any.
    pub fn from_code(code: u8) -> (r: Option<ChannelType>)
        ensures
            r == ChannelType::spec_from_code(code),
    {
        match code {
            0 => Some(ChannelType::GUILD_TEXT),
            1 => Some(ChannelType::DM),
            2 => Some(ChannelType::GUILD_VOICE),
            3 => Some(ChannelType::GROUP_DM),
            4 => Some(ChannelType::GUILD_CATEGORY),
            5 => Some(ChannelType::GUILD_ANNOUNCEMENT),
            10 => Some(ChannelType::ANNOUNCEMENT_THREAD),
            11 => Some(ChannelType::GUILD_PUBLIC_THREAD),
            12 => Some(ChannelType::GUILD_PRIVATE_THREAD),
            13 => Some(ChannelType::GUILD_STAGE_VOICE),
            14 => Some(ChannelType::GUILD_DIRECTORY),
            15 => Some(ChannelType::GUILD_FORUM),
            16 => Some(ChannelType::UNKNOWN),
            _ => None,
        }
    }
}

/// Discord Permission Overwrite Object
#[derive(Clone, Debug)]
pub struct PermissionOverwrite {
  /// Role or user id
  pub id: Snowflake,
  /// Either ROLE or MEMBER
  pub overwrite_type: PermissionOverwriteType,
  /// Permission bit set
  pub allow: Permissions,
  /// Permission bit set
  pub deny: Permissions,
}

/// Discord Permission Overwrite Types
#[derive(Clone, Copy, Debug, PartialEq, Eq, Hash, Structural)]
#[allow(non_camel_case_types)]
pub enum PermissionOverwriteType {
  /// Permission overwrite for a role
  ROLE,
  /// Permission overwrite for a member
  MEMBER,
  /// Permission overwrite type that hasn't been implemented yet
  UNKNOWN,
}

impl PermissionOverwriteType {
    /// The number that Discord uses for this value.
    pub open spec fn spec_code(self) -> u8 {
        match self {
            PermissionOverwriteType::ROLE => 0,
            PermissionOverwriteType::MEMBER => 1,
            PermissionOverwriteType::UNKNOWN => 2,
        }
    }

    /// The value that Discord's number `code` stands for, if any.
    pub open spec fn spec_from_code(code: u8) -> Option<PermissionOverwriteType> {
        match code {
            0 => Some(PermissionOverwriteType::ROLE),
            1 => Some(PermissionOverwriteType::MEMBER),
            2 => Some(PermissionOverwriteType::UNKNOWN),
            _ => None,
        }
    }

    /// The number that Discord uses for this value.
    pub fn code(&self) -> (r: u8)
        ensures
            r == self.spec_code(),
    {
        match self {
            PermissionOverwriteType::ROLE => 0,
            PermissionOverwriteType::MEMBER => 1,
            PermissionOverwriteType::UNKNOWN => 2,
        }
    }

    /// The value that Discord's number `code` stands for, if any.
    pub fn from_code(code: u8) -> (r: Option<PermissionOverwriteType>)
        ensures
            r == PermissionOverwriteType::spec_from_code(code),
    {
        match code {
            0 => Some(PermissionOverwriteType::ROLE),
            1 => Some(PermissionOverwriteType::MEMBER),
            2 => Some(PermissionOverwriteType::UNKNOWN),
            _ => None,
        }
    }
}

/// Discord Video Quality Modes
#[derive(Clone, Copy, Debug, PartialEq, Eq, Hash, Structural)]
#[allow(non_camel_case_types)]
pub enum VideoQualityMode {
  /// Discord chooses the quality for optimal performance
  AUTO,
  /// 720p
  FULL,
  /// Video quality mode that hasn't been implemented yet
  UNKNOWN,
}

impl VideoQualityMode {
    /// The number that Discord uses for this value.
    pub open spec fn spec_code(self) -> u8 {
        match self {
            VideoQualityMode::AUTO => 1,
            VideoQualityMode::FULL => 2,
            VideoQualityMode::UNKNOWN => 3,
        }
    }

    /// The value that Discord's number `code` stands for, if any.
    pub open spec fn spec_from_code(code: u8) -> Option<VideoQualityMode> {
        match code {
            1 => Some(VideoQualityMode::AUTO),
            2 => Some(VideoQualityMode::FULL),
            3 => Some(VideoQualityMode::UNKNOWN),
            _ => None,
        }
    }

    /// The number that Discord uses for this value.
    pub fn code(&self) -> (r: u8)
        ensures
            r == self.spec_code(),
    {
        match self {
            VideoQualityMode::AUTO => 1,
            VideoQualityMode::FULL => 2,
            VideoQualityMode::UNKNOWN => 3,
        }
    }

    /// The value that Discord's number `code` stands for, if any.
    pub fn from_code(code: u8) -> (r: Option<VideoQualityMode>)
        ensures
            r == VideoQualityMode::spec_from_code(code),
    {
        match code {
            1 => Some(VideoQualityMode::AUTO),
            2 => Some(VideoQualityMode::FULL),
            3 => Some(VideoQualityMode::UNKNOWN),
            _ => None,
        }
    }
}

/// Discord Thread Metadata Object
#[derive(Clone, Debug)]
pub struct ThreadMetadata {
  /// Whether the thread is archived
  pub archived: bool,
  /// The thread will stop showing in the channel list after `auto_archive_duration` minutes of inactivity, can be set to: 60, 1440, 4320, 10080
  pub auto_archive_duration: i64,
  /// Timestamp when the thread's archive status was last changed, used for calculating recent activity
  pub archive_timestamp: Timestamp,
  /// Whether the thread is locked; when a thread is locked, only users with MANAGE_THREADS can unarchive it
  pub locked: bool,
  /// Whether non-moderators can add other non-moderators to a thread; only available on private threads
  pub invitable: Option<bool>,
  /// Timestamp when the thread was created; only populated for threads created after 2022-01-09
  pub create_timestamp: Option<Timestamp>,
}

/// Discord Thread Member Object
#[derive(Clone, Debug)]
pub struct ThreadMember {
  /// The id of the thread
  pub id: Option<Snowflake>,
  /// The id of the user
  pub user_id: Option<Snowflake>,
  /// Time the user last joined the thread
  pub join_timestamp: Timestamp,
  /// Any user-thread settings, currently only used for notifications
  pub flags: i64,
  /// Additional information about the user
  pub member: Option<GuildMember>,
}

/// Discord Forum Tag Object
#[derive(Clone, Debug)]
pub struct ForumTag {
  /// The id of the tag
  pub id: Snowflake,
  /// The name of the tag (0-20 characters)
  pub name: String,
  /// Whether this tag can only be added to or removed from threads by a member with the `MANAGE_THREADS` permission
  pub moderated: bool,
  /// The id of a guild's custom emoji
  pub emoji_id: Option<Snowflake>,
  /// The unicode character of the emoji
  pub emoji_name: Option<String>,
}

/// Discord Default Reaction Object
#[derive(Clone, Debug)]
pub struct DefaultReaction {
  /// The id of a guild's custom emoji
  pub emoji_id: Option<Snowflake>,
  /// The unicode character of the emoji
  pub emoji_name: Option<String>,
}

/// Discord Sort Order Types
#[derive(Clone, Copy, Debug, PartialEq, Eq, Hash, Structural)]
#[allow(non_camel_case_types)]
pub enum SortOrderType {
  /// Sort forum posts by activity
  LATEST_ACTIVITY,
  /// Sort forum posts by creation time (from most recent to oldest)
  CREATION_DATE,
  /// Sort order type that hasn't been implemented yet
  UNKNOWN,
}

impl SortOrderType {
    /// The number that Discord uses for this value.
    pub open spec fn spec_code(self) -> u8 {
        match self {
            SortOrderType::LATEST_ACTIVITY => 0,
            SortOrderType::CREATION_DATE => 1,
            SortOrderType::UNKNOWN => 2,
        }
    }

    /// The value that Discord's number `code` stands for, if any.
    pub open spec fn spec_from_code(code: u8) -> Option<SortOrderType> {
        match code {
            0 => Some(SortOrderType::LATEST_ACTIVITY),
            1 => Some(SortOrderType::CREATION_DATE),
            2 => Some(SortOrderType::UNKNOWN),
            _ => None,
        }
    }

    /// The number that Discord uses for this value.
    pub fn code(&self) -> (r: u8)
        ensures
            r == self.spec_code(),
    {
        match self {
            SortOrderType::LATEST_ACTIVITY => 0,
            SortOrderType::CREATION_DATE => 1,
            SortOrderType::UNKNOWN => 2,
        }
    }

    /// The value that Discord's number `code` stands for, if any.
    pub fn from_code(code: u8) -> (r: Option<SortOrderType>)
        ensures
            r == SortOrderType::spec_from_code(code),
    {
        match code {
            0 => Some(SortOrderType::LATEST_ACTIVITY),
            1 => Some(SortOrderType::CREATION_DATE),
            2 => Some(SortOrderType::UNKNOWN),
            _ => None,
        }
    }
}

/// Discord Sort Order Types
#[derive(Clone, Copy, Debug, PartialEq, Eq, Hash, Structural)]
#[allow(non_camel_case_types)]
pub enum ForumLayoutType {
  /// No default has been set for forum channel
  NOT_SET,
  /// Display posts as a list
  LIST_VIEW,
  /// Display posts as a collection of tiles
  GALLERY_VIEW,
  /// Forum layout type that hasn't been implemented yet
  UNKNOWN,
}

impl ForumLayoutType {
    /// The number that Discord uses for this value.
    pub open spec fn spec_code(self) -> u8 {
        match self {
            ForumLayoutType::NOT_SET => 0,
            ForumLayoutType::LIST_VIEW => 1,
            ForumLayoutType::GALLERY_VIEW => 2,
            ForumLayoutType::UNKNOWN => 3,
        }
    }

    /// The value that Discord's number `code` stands for, if any.
    pub open spec fn spec_from_code(code: u8) -> Option<ForumLayoutType> {
        match code {
            0 => Some(ForumLayoutType::NOT_SET),
            1 => Some(ForumLayoutType::LIST_VIEW),
            2 => Some(ForumLayoutType::GALLERY_VIEW),
            3 => Some(ForumLayoutType::UNKNOWN),
            _ => None,
        }
    }

    /// The number that Discord uses for this value.
    pub fn code(&self) -> (r: u8)
        ensures
            r == self.spec_code(),
    {
        match self {
            ForumLayoutType::NOT_SET => 0,
            ForumLayoutType::LIST_VIEW => 1,
            ForumLayoutType::GALLERY_VIEW => 2,
            ForumLayoutType::UNKNOWN => 3,
        }
    }

    /// The value that Discord's number `code` stands for, if any.
    pub fn from_code(code: u8) -> (r: Option<ForumLayoutType>)
        ensures
            r == ForumLayoutType::spec_from_code(code),
    {
        match code {
            0 => Some(ForumLayoutType::NOT_SET),
            1 => Some(ForumLayoutType::LIST_VIEW),
            2 => Some(ForumLayoutType::GALLERY_VIEW),
            3 => Some(ForumLayoutType::UNKNOWN),
            _ => None,
        }
    }
}

/// Discord Followed Channel Object
#[derive(Clone, Debug)]
pub struct FollowedChannel {
  /// Source channel id
  pub channel_id: Snowflake,
  /// Created target webhook id
  pub webhook_id: Snowflake,
}

/// Parameters for modifying a channel with [modify](Channel::modify).
#[derive(Clone, Debug)]
pub struct ChannelModifyOptions {
  /// 1-100 character channel name
  pub name: Option<String>,
  /// Base64 encoded icon
  pub icon: Option<String>,
  /// The [type of channel](ChannelType); only conversion between text and announcement is supported and only in guilds with the "NEWS" feature
  pub channel_type: Option<ChannelType>,
  /// The position of the channel in the left-hand listing
  pub position: Option<i64>,
  /// 0-1024 character channel topic (0-4096 characters for `GUILD_FORUM` channels)
  pub topic: Option<String>,
  /// Whether the channel is nsfw
  pub nsfw: Option<bool>,
  /// Amount of seconds a user has to wait before sending another message (0-21600); bots, as well as users with the permission `manage_messages` or `manage_channel`, are unaffected
  pub rate_limit_per_user: Option<i64>,
  /// The bitrate (in bits) of the voice or stage channel; min 8000
  pub bitrate: Option<i64>,
  /// The user limit of the voice channel; 0 refers to no limit, 1 to 99 refers to a user limit
  pub user_limit: Option<i64>,
  /// Channel or category-specific permissions
  pub permission_overwrites: Option<Vec<PermissionOverwrite>>,
  /// Id of the new parent category for a channel
  pub parent_id: Option<Snowflake>,
  /// Channel [voice region](https://discord.com/developers/docs/resources/voice#voice-region-object) id, automatic when set to None
  pub rtc_region: Option<Option<String>>,
  /// The camera [video quality mode](VideoQualityMode) of the voice channel
  pub video_quality_mode: Option<VideoQualityMode>,
  /// The default duration that the clients use (not the API) for newly created threads in the channel, in minutes, to automatically archive the thread after recent activity
  pub default_auto_archive_duration: Option<i64>,
  /// [Channel flags](ChannelFlags) combined as a [bitfield](https://en.wikipedia.org/wiki/Bit_field). Currently only `REQUIRE_TAG` is supported in forum channels and `PINNED` can only be set for threads in forum channels.
  pub flags: Option<ChannelFlags>,
  /// The set of tags that can be used in a `GUILD_FORUM` channel
  pub available_tags: Option<Vec<ForumTag>>,
  /// The emoji to show in the add reaction button on a thread in a `GUILD_FORUM` channel
  pub default_reaction_emoji: Option<DefaultReaction>,
  /// The initial `rate_limit_per_user` to set on newly created threads in a channel. This field is copied to the thread at creation time and does not live update.
  pub default_thread_rate_limit_per_user: Option<i64>,
  /// The [default sort order type](SortOrderType) used to order posts in `GUILD_FORUM` channels
  pub default_sort_order: Option<SortOrderType>,
  /// The [default forum layout type](ForumLayoutType) used to display posts in `GUILD_FORUM` channels
  pub default_forum_layout: Option<ForumLayoutType>,
  /// Whether the thread is archived
  pub archived: Option<bool>,
  /// The thread will stop showing in the channel list after `auto_archive_duration` minutes of inactivity, can be set to: 60, 1440, 4320, 10080
  pub auto_archive_duration: Option<i64>,
  /// Whether the thread is locked; when a thread is locked, only users with `MANAGE_THREADS` can unarchive it
  pub locked: Option<bool>,
  /// Whether non-moderators can add other non-moderators to a thread; only available on private threads
  pub invitable: Option<bool>,
  /// The IDs of the set of tags that have been applied to a thread in a `GUILD_FORUM` channel
  pub applied_tags: Option<Vec<Snowflake>>,
}

/// Options for creating threads
#[derive(Clone, Debug)]
pub struct ThreadCreateOptions {
  /// 1-100 character channel name
  pub name: String,
  /// The thread will stop showing in the channel list after `auto_archive_duration` minutes of inactivity, can be set to: 60, 1440, 4320, 10080
  pub auto_archive_duration: Option<i64>,
  /// The [type of thread](ChannelType) to create.
  pub thread_type: Option<ChannelType>,
  /// Whether non-moderators can add other non-moderators to a thread; only available when creating a private thread
  pub invitable: Option<bool>,
  /// Amount of seconds a user has to wait before sending another message (0-21600)
  pub rate_limit_per_user: Option<i64>,
  /// Contents of the first message in the forum/media thread. Required to create a thread in a `GUILD_FORUM` or a `GUILD_MEDIA` channel
  pub message: Option<MessageResponse>,
  /// The IDs of the set of tags that have been applied to a thread in a `GUILD_FORUM` or a `GUILD_MEDIA` channel
  pub applied_tags: Option<Vec<Snowflake>>,
}

/// Options for fetching thread members
#[derive(Clone, Debug)]
pub struct ThreadMemberOptions {
  /// Whether to include a [guild member](GuildMember) object for each thread member
  pub with_member: Option<bool>,
  /// Get thread members after this user ID
  pub after: Option<Snowflake>,
  /// Max number of thread members to return (1-100). Defaults to 100.
  pub limit: Option<i64>,
}

/// Options for fetching a list of threads
#[derive(Clone, Debug)]
pub struct ThreadListOptions {
  /// Returns threads archived before this timestamp
  pub before: Option<Timestamp>,
  /// Optional maximum number of threads to return
  pub limit: Option<i64>,
}

/// Discord thread list response object
#[derive(Clone, Debug)]
pub struct ThreadListResponse {
  /// The threads
  pub threads: Vec<Channel>,
  /// A thread member object for each returned thread the current user has joined
  pub members: Vec<ThreadMember>,
  /// Whether there are potentially additional threads that could be returned on a subsequent call
  pub has_more: bool,
}

/// Bitflags for Discord Channel Flags
#[derive(Clone, Copy, Debug, PartialEq, Eq, Hash, Structural)]
pub struct ChannelFlags {
    bits: u32,
}

impl ChannelFlags {
    /// The bits of the set.
    pub closed spec fn value(self) -> u32 {
        self.bits
    }

    /// The bits of every flag that this type names.
    pub open spec fn known_bits() -> u32 {
        18u32
    }

    /// This thread is pinned to the top of its parent `GUILD_FORUM` channel
    #[allow(non_snake_case)]
    pub fn PINNED() -> (r: Self)
        ensures
            r.value() == 2u32,
    {
        ChannelFlags { bits: 2u32 }
    }

    /// Whether a tag is required to be specified when creating a thread in a `GUILD_FORUM` channel. Tags are specified in the `applied_tags` field.
    #[allow(non_snake_case)]
    pub fn REQUIRE_TAG() -> (r: Self)
        ensures
            r.value() == 16u32,
    {
        ChannelFlags { bits: 16u32 }
    }

    /// The empty set.
    pub fn empty() -> (r: Self)
        ensures
            r.value() == 0,
    {
        ChannelFlags { bits: 0 }
    }

    /// The set of every flag this type names.
    pub fn all() -> (r: Self)
        ensures
            r.value() == Self::known_bits(),
    {
        ChannelFlags { bits: 18u32 }
    }

    /// The bits of the set.
    pub fn bits(&self) -> (r: u32)
        ensures
            r == self.value(),
    {
        self.bits
    }

    /// The set with exactly these bits, known or not.
    pub fn from_bits_retain(bits: u32) -> (r: Self)
        ensures
            r.value() == bits,
    {
        ChannelFlags { bits }
    }

    /// The set of the known flags among these bits; unknown bits are dropped.
    pub fn from_bits_truncate(bits: u32) -> (r: Self)
        ensures
            r.value() == bits & Self::known_bits(),
    {
        ChannelFlags { bits: bits & 18u32 }
    }

    /// The set with these bits, if every bit is a known flag.
    pub fn from_bits(bits: u32) -> (r: Option<Self>)
        ensures
            r is Some <==> bits & Self::known_bits() == bits,
            r matches Some(f) ==> f.value() == bits,
    {
        if bits & 18u32 == bits { Some(ChannelFlags { bits }) } else { None }
    }

    /// Whether no flag is set.
    pub fn is_empty(&self) -> (r: bool)
        ensures
            r == (self.value() == 0),
    {
        self.bits == 0
    }

    /// Whether every flag of `other` is set in `self`.
    pub fn contains(&self, other: Self) -> (r: bool)
        ensures
            r == (self.value() & other.value() == other.value()),
    {
        self.bits & other.bits == other.bits
    }

    /// Whether `self` and `other` share a flag.
    pub fn intersects(&self, other: Self) -> (r: bool)
        ensures
            r == (self.value() & other.value() != 0),
    {
        self.bits & other.bits != 0
    }

    /// Sets the flags of `other`.
    pub fn insert(&mut self, other: Self)
        ensures
            final(self).value() == old(self).value() | other.value(),
    {
        self.bits = self.bits | other.bits;
    }

    /// Clears the flags of `other`.
    pub fn remove(&mut self, other: Self)
        ensures
            final(self).value() == old(self).value() & !other.value(),
    {
        self.bits = self.bits & !other.bits;
    }

    /// Flips the flags of `other`.
    pub fn toggle(&mut self, other: Self)
        ensures
            final(self).value() == old(self).value() ^ other.value(),
    {
        self.bits = self.bits ^ other.bits;
    }

    /// Sets the flags of `other` when `value` holds, clears them otherwise.
    pub fn set(&mut self, other: Self, value: bool)
        ensures
            final(self).value() == (if value { old(self).value() | other.value() } else { old(self).value() & !other.value() }),
    {
        if value {
            self.insert(other);
        } else {
            self.remove(other);
        }
    }

    /// The flags set in either.
    pub fn union(self, other: Self) -> (r: Self)
        ensures
            r.value() == self.value() | other.value(),
    {
        ChannelFlags { bits: self.bits | other.bits }
    }

    /// The flags set in both.
    pub fn intersection(self, other: Self) -> (r: Self)
        ensures
            r.value() == self.value() & other.value(),
    {
        ChannelFlags { bits: self.bits & other.bits }
    }

    /// The flags set in `self` and not in `other`.
    pub fn difference(self, other: Self) -> (r: Self)
        ensures
            r.value() == self.value() & !other.value(),
    {
        ChannelFlags { bits: self.bits & !other.bits }
    }

    /// The flags set in exactly one of the two.
    pub fn symmetric_difference(self, other: Self) -> (r: Self)
        ensures
            r.value() == self.value() ^ other.value(),
    {
        ChannelFlags { bits: self.bits ^ other.bits }
    }

    /// The known flags that are not set.
    pub fn complement(self) -> (r: Self)
        ensures
            r.value() == !self.value() & Self::known_bits(),
    {
        ChannelFlags { bits: !self.bits & 18u32 }
    }
}

impl ChannelModifyOptions {
    /// Creates a new empty ChannelModifyOptions
    pub fn new() -> (r: ChannelModifyOptions)
        ensures
            r.name is None,
            r.icon is None,
            r.channel_type is None,
            r.position is None,
            r.topic is None,
            r.nsfw is None,
            r.rate_limit_per_user is None,
            r.bitrate is None,
            r.user_limit is None,
            r.permission_overwrites is None,
            r.parent_id is None,
            r.rtc_region is None,
            r.video_quality_mode is None,
            r.default_auto_archive_duration is None,
            r.flags is None,
            r.available_tags is None,
            r.default_reaction_emoji is None,
            r.default_thread_rate_limit_per_user is None,
            r.default_sort_order is None,
            r.default_forum_layout is None,
            r.archived is None,
            r.auto_archive_duration is None,
            r.locked is None,
            r.invitable is None,
            r.applied_tags is None,
    {
        ChannelModifyOptions { name: None, icon: None, channel_type: None, position: None, topic: None, nsfw: None, rate_limit_per_user: None, bitrate: None, user_limit: None, permission_overwrites: None, parent_id: None, rtc_region: None, video_quality_mode: None, default_auto_archive_duration: None, flags: None, available_tags: None, default_reaction_emoji: None, default_thread_rate_limit_per_user: None, default_sort_order: None, default_forum_layout: None, archived: None, auto_archive_duration: None, locked: None, invitable: None, applied_tags: None }
    }

    /// Sets the name
    pub fn set_name(self, name: &str) -> (r: ChannelModifyOptions)
        ensures
            str_opt(r.name, name@),
            r == (ChannelModifyOptions { name: r.name, ..self }),
    {
        ChannelModifyOptions { name: Some(string_of(name)), ..self }
    }

    /// Sets the icon
    pub fn set_icon(self, icon: &str) -> (r: ChannelModifyOptions)
        ensures
            str_opt(r.icon, icon@),
            r == (ChannelModifyOptions { icon: r.icon, ..self }),
    {
        ChannelModifyOptions { icon: Some(string_of(icon)), ..self }
    }

    /// Sets the channel type
    pub fn set_type(self, channel_type: ChannelType) -> (r: ChannelModifyOptions)
        ensures
            r == (ChannelModifyOptions { channel_type: Some(channel_type), ..self }),
    {
        ChannelModifyOptions { channel_type: Some(channel_type), ..self }
    }

    /// Sets the position
    pub fn set_position(self, position: i64) -> (r: ChannelModifyOptions)
        ensures
            r == (ChannelModifyOptions { position: Some(position), ..self }),
    {
        ChannelModifyOptions { position: Some(position), ..self }
    }

    /// Sets the topic
    pub fn set_topic(self, topic: &str) -> (r: ChannelModifyOptions)
        ensures
            str_opt(r.topic, topic@),
            r == (ChannelModifyOptions { topic: r.topic, ..self }),
    {
        ChannelModifyOptions { topic: Some(string_of(topic)), ..self }
    }

    /// Sets nsfw
    pub fn set_nsfw(self, nsfw: bool) -> (r: ChannelModifyOptions)
        ensures
            r == (ChannelModifyOptions { nsfw: Some(nsfw), ..self }),
    {
        ChannelModifyOptions { nsfw: Some(nsfw), ..self }
    }

    /// Sets the rate limit per user
    pub fn set_rate_limit_per_user(self, ratelimit: i64) -> (r: ChannelModifyOptions)
        ensures
            r == (ChannelModifyOptions { rate_limit_per_user: Some(ratelimit), ..self }),
    {
        ChannelModifyOptions { rate_limit_per_user: Some(ratelimit), ..self }
    }

    /// Sets the bitrate
    pub fn set_bitrate(self, bitrate: i64) -> (r: ChannelModifyOptions)
        ensures
            r == (ChannelModifyOptions { bitrate: Some(bitrate), ..self }),
    {
        ChannelModifyOptions { bitrate: Some(bitrate), ..self }
    }

    /// Sets the user limit
    pub fn set_user_limit(self, limit: i64) -> (r: ChannelModifyOptions)
        ensures
            r == (ChannelModifyOptions { user_limit: Some(limit), ..self }),
    {
        ChannelModifyOptions { user_limit: Some(limit), ..self }
    }

    /// Adds a permission overwrite
    pub fn add_permission_overwrite(self, overwrite: PermissionOverwrite) -> (r: ChannelModifyOptions)
        ensures
            r.permission_overwrites matches Some(v) && v@ == vec_or_empty(self.permission_overwrites).push(overwrite),
            r == (ChannelModifyOptions { permission_overwrites: r.permission_overwrites, ..self }),
    {
        ChannelModifyOptions { permission_overwrites: Some(push_onto(self.permission_overwrites, overwrite)), ..self }
    }

    /// Sets the parent id
    pub fn set_parent_id(self, id: &str) -> (r: ChannelModifyOptions)
        ensures
            str_opt(r.parent_id, id@),
            r == (ChannelModifyOptions { parent_id: r.parent_id, ..self }),
    {
        ChannelModifyOptions { parent_id: Some(string_of(id)), ..self }
    }

    /// Sets the RTC region
    pub fn set_rtc_region(self, region: Option<String>) -> (r: ChannelModifyOptions)
        ensures
            r == (ChannelModifyOptions { rtc_region: Some(region), ..self }),
    {
        ChannelModifyOptions { rtc_region: Some(region), ..self }
    }

    /// Sets the video quality mode
    pub fn set_video_quality_mode(self, mode: VideoQualityMode) -> (r: ChannelModifyOptions)
        ensures
            r == (ChannelModifyOptions { video_quality_mode: Some(mode), ..self }),
    {
        ChannelModifyOptions { video_quality_mode: Some(mode), ..self }
    }

    /// Sets the default auto archive duration
    pub fn set_default_auto_archive_duration(self, duration: i64) -> (r: ChannelModifyOptions)
        ensures
            r == (ChannelModifyOptions { default_auto_archive_duration: Some(duration), ..self }),
    {
        ChannelModifyOptions { default_auto_archive_duration: Some(duration), ..self }
    }

    /// Sets flags
    pub fn set_flags(self, flags: ChannelFlags) -> (r: ChannelModifyOptions)
        ensures
            r == (ChannelModifyOptions { flags: Some(flags), ..self }),
    {
        ChannelModifyOptions { flags: Some(flags), ..self }
    }

    /// Sets available tags
    pub fn set_available_tags(self, tags: Vec<ForumTag>) -> (r: ChannelModifyOptions)
        ensures
            r == (ChannelModifyOptions { available_tags: Some(tags), ..self }),
    {
        ChannelModifyOptions { available_tags: Some(tags), ..self }
    }

    /// Sets the default reaction emoji
    pub fn set_default_reaction_emoji(self, emoji: DefaultReaction) -> (r: ChannelModifyOptions)
        ensures
            r == (ChannelModifyOptions { default_reaction_emoji: Some(emoji), ..self }),
    {
        ChannelModifyOptions { default_reaction_emoji: Some(emoji), ..self }
    }

    /// Sets the default thread rate limit per user
    pub fn set_default_thread_rate_limit_per_user(self, ratelimit: i64) -> (r: ChannelModifyOptions)
        ensures
            r == (ChannelModifyOptions { default_thread_rate_limit_per_user: Some(ratelimit), ..self }),
    {
        ChannelModifyOptions { default_thread_rate_limit_per_user: Some(ratelimit), ..self }
    }

    /// Sets the default sort order
    pub fn set_default_sort_order(self, sort_order: SortOrderType) -> (r: ChannelModifyOptions)
        ensures
            r == (ChannelModifyOptions { default_sort_order: Some(sort_order), ..self }),
    {
        ChannelModifyOptions { default_sort_order: Some(sort_order), ..self }
    }

    /// Sets the default forum layout
    pub fn set_default_forum_layout(self, forum_layout: ForumLayoutType) -> (r: ChannelModifyOptions)
        ensures
            r == (ChannelModifyOptions { default_forum_layout: Some(forum_layout), ..self }),
    {
        ChannelModifyOptions { default_forum_layout: Some(forum_layout), ..self }
    }

    /// Sets archived
    pub fn set_archived(self, archived: bool) -> (r: ChannelModifyOptions)
        ensures
            r == (ChannelModifyOptions { archived: Some(archived), ..self }),
    {
        ChannelModifyOptions { archived: Some(archived), ..self }
    }

    /// Sets the auto archive duration
    pub fn set_auto_archive_duration(self, duration: i64) -> (r: ChannelModifyOptions)
        ensures
            r == (ChannelModifyOptions { auto_archive_duration: Some(duration), ..self }),
    {
        ChannelModifyOptions { auto_archive_duration: Some(duration), ..self }
    }

    /// Sets locked
    pub fn set_locked(self, locked: bool) -> (r: ChannelModifyOptions)
        ensures
            r == (ChannelModifyOptions { locked: Some(locked), ..self }),
    {
        ChannelModifyOptions { locked: Some(locked), ..self }
    }

    /// Sets invitable
    pub fn set_invitable(self, invitable: bool) -> (r: ChannelModifyOptions)
        ensures
            r == (ChannelModifyOptions { invitable: Some(invitable), ..self }),
    {
        ChannelModifyOptions { invitable: Some(invitable), ..self }
    }

    /// Sets applied tags
    pub fn set_applied_tags(self, tags: Vec<Snowflake>) -> (r: ChannelModifyOptions)
        ensures
            r == (ChannelModifyOptions { applied_tags: Some(tags), ..self }),
    {
        ChannelModifyOptions { applied_tags: Some(tags), ..self }
    }
}

impl ThreadCreateOptions {
    /// Creates a new ThreadCreateOptions with a name
    pub fn new(name: &str) -> (r: ThreadCreateOptions)
        ensures
            r.name@ == name@,
            r.auto_archive_duration is None,
            r.thread_type is None,
            r.invitable is None,
            r.rate_limit_per_user is None,
            r.message is None,
            r.applied_tags is None,
    {
        ThreadCreateOptions { name: string_of(name), auto_archive_duration: None, thread_type: None, invitable: None, rate_limit_per_user: None, message: None, applied_tags: None }
    }

    /// Sets the auto archive duration
    pub fn set_auto_archive_duration(self, duration: i64) -> (r: ThreadCreateOptions)
        ensures
            r == (ThreadCreateOptions { auto_archive_duration: Some(duration), ..self }),
    {
        ThreadCreateOptions { auto_archive_duration: Some(duration), ..self }
    }

    /// Sets the thread type
    pub fn set_thread_type(self, thread_type: ChannelType) -> (r: ThreadCreateOptions)
        ensures
            r == (ThreadCreateOptions { thread_type: Some(thread_type), ..self }),
    {
        ThreadCreateOptions { thread_type: Some(thread_type), ..self }
    }

    /// Sets invitable
    pub fn set_invitable(self, invitable: bool) -> (r: ThreadCreateOptions)
        ensures
            r == (ThreadCreateOptions { invitable: Some(invitable), ..self }),
    {
        ThreadCreateOptions { invitable: Some(invitable), ..self }
    }

    /// Sets the rate limit per user
    pub fn set_rate_limit_per_user(self, ratelimit: i64) -> (r: ThreadCreateOptions)
        ensures
            r == (ThreadCreateOptions { rate_limit_per_user: Some(ratelimit), ..self }),
    {
        ThreadCreateOptions { rate_limit_per_user: Some(ratelimit), ..self }
    }

    /// Sets applied tags
    pub fn set_applied_tags(self, tags: Vec<Snowflake>) -> (r: ThreadCreateOptions)
        ensures
            r == (ThreadCreateOptions { applied_tags: Some(tags), ..self }),
    {
        ThreadCreateOptions { applied_tags: Some(tags), ..self }
    }
}

impl ThreadMemberOptions {
    /// Creates a new ThreadMemberOptions
    pub fn new() -> (r: ThreadMemberOptions)
        ensures
            r.with_member is None,
            r.after is None,
            r.limit is None,
    {
        ThreadMemberOptions { with_member: None, after: None, limit: None }
    }

    /// Sets with member
    pub fn set_with_member(self, with_member: bool) -> (r: ThreadMemberOptions)
        ensures
            r == (ThreadMemberOptions { with_member: Some(with_member), ..self }),
    {
        ThreadMemberOptions { with_member: Some(with_member), ..self }
    }

    /// Sets after
    pub fn set_after(self, after: Snowflake) -> (r: ThreadMemberOptions)
        ensures
            r == (ThreadMemberOptions { after: Some(after), ..self }),
    {
        ThreadMemberOptions { after: Some(after), ..self }
    }

    /// Sets the limit
    pub fn set_limit(self, limit: i64) -> (r: ThreadMemberOptions)
        ensures
            r == (ThreadMemberOptions { limit: Some(limit), ..self }),
    {
        ThreadMemberOptions { limit: Some(limit), ..self }
    }
}

impl ThreadListOptions {
    /// Creates a new ThreadListOptions
    pub fn new() -> (r: ThreadListOptions)
        ensures
            r.before is None,
            r.limit is None,
    {
        ThreadListOptions { before: None, limit: None }
    }

    /// Sets before
    pub fn set_before(self, before: Timestamp) -> (r: ThreadListOptions)
        ensures
            r == (ThreadListOptions { before: Some(before), ..self }),
    {
        ThreadListOptions { before: Some(before), ..self }
    }

    /// Sets the limit
    pub fn set_limit(self, limit: i64) -> (r: ThreadListOptions)
        ensures
            r == (ThreadListOptions { limit: Some(limit), ..self }),
    {
        ThreadListOptions { limit: Some(limit), ..self }
    }
}

impl ThreadCreateOptions {
    /// Sets the message
    pub fn set_message(self, message: MessageResponse) -> (r: ThreadCreateOptions)
        ensures
            r == (ThreadCreateOptions { message: Some(message), ..self }),
    {
        ThreadCreateOptions { message: Some(message), ..self }
    }
}

impl ChannelType {
    /// Discord's number for a value reads back as that value.
    pub proof fn law_code_round_trip(self)
        ensures
            ChannelType::spec_from_code(self.spec_code()) == Some(self),
    {
    }
}

impl PermissionOverwriteType {
    /// Discord's number for a value reads back as that value.
    pub proof fn law_code_round_trip(self)
        ensures
            PermissionOverwriteType::spec_from_code(self.spec_code()) == Some(self),
    {
    }
}

impl VideoQualityMode {
    /// Discord's number for a value reads back as that value.
    pub proof fn law_code_round_trip(self)
        ensures
            VideoQualityMode::spec_from_code(self.spec_code()) == Some(self),
    {
    }
}

impl SortOrderType {
    /// Discord's number for a value reads back as that value.
    pub proof fn law_code_round_trip(self)
        ensures
            SortOrderType::spec_from_code(self.spec_code()) == Some(self),
    {
    }
}

impl ForumLayoutType {
    /// Discord's number for a value reads back as that value.
    pub proof fn law_code_round_trip(self)
        ensures
            ForumLayoutType::spec_from_code(self.spec_code()) == Some(self),
    {
    }
}

} // verus!
