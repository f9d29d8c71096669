//! Structs related to Discord messages

use vstd::prelude::*;
use crate::keyed::{push_onto, vec_or_empty};
use crate::structs::{Snowflake, Timestamp};
use crate::structs::applications::Application;
use crate::structs::channels::{Channel, ChannelType};
use crate::structs::components::Component;
use crate::structs::embeds::Embed;
use crate::structs::emojis::Emoji;
use crate::structs::interactions::{IntegrationOwners, InteractionDataResolved, InteractionType};
use crate::structs::members::GuildMember;
use crate::structs::polls::Poll;
use crate::structs::stickers::StickerItem;
use crate::structs::users::User;
use crate::structs::utils::File;
use crate::text::{str_opt, string_of};

verus! {

/// Discord Message Object
#[derive(Debug)]
pub struct Message {
  /// Id of the message
  pub id: Snowflake,
  /// Id of the channel the message was sent in
  pub channel_id: Snowflake,
  /// Id of the guild the message was sent in
  pub guild_id: Option<Snowflake>,
  /// The author of this message (not guaranteed to be a valid user)
  pub author: User,
  /// Member properties for this message's author
  pub member: Option<GuildMember>,
  /// Contents of the message
  pub content: String,
  /// When this message was sent
  pub timestamp: Timestamp,
  /// When this message was edited (or None if never)
  pub edited_timestamp: Option<Timestamp>,
  /// Whether this was a TTS message
  pub tts: bool,
  /// Whether this message mentions everyone
  pub mention_everyone: bool,
  /// Users specifically mentioned in the message
  pub mentions: Vec<User>,
  /// Roles specifically mentioned in this message
  pub mention_roles: Vec<Snowflake>,
  /// Channels specifically mentioned in this message
  pub mention_channels: Option<Vec<ChannelMention>>,
  /// Any attached files
  pub attachments: Vec<Attachment>,
  /// Any embedded content
  pub embeds: Vec<Embed>,
  /// Reactions to the message
  pub reactions: Option<Vec<Reaction>>,
  /// Used for validating a message was sent
  pub nonce: Option<String>,
  /// Whether this message is pinned
  pub pinned: bool,
  /// If the message is generated by a webhook, this is the webhook's id
  pub webhook_id: Option<Snowflake>,
  /// [type of message](MessageType)
  pub message_type: MessageType,
  /// Sent with Rich Presence-related chat embeds
  pub activity: Option<MessageActivity>,
  /// Sent with Rich Presence-related chat embeds
  pub application: Option<Application>,
  /// If the message is a response to an [Interaction](https://discord.com/developers/docs/interactions/receiving-and-responding), this is the id of the interaction's application
  pub application_id: Option<Snowflake>,
  /// Data showing the source of a crosspost, channel follow add, pin, or reply message
  pub message_reference: Option<MessageReference>,
  /// [Message flags](MessageFlags) combined as a [bitfield](https://en.wikipedia.org/wiki/Bit_field)
  pub flags: Option<MessageFlags>,
  /// The message associated with the message_reference
  pub referenced_message: Option<Box<Message>>,
  /// Sent if the message is sent as a result of an interaction
  pub interaction_metadata: Option<MessageInteractionMetadata>,
  /// The thread that was started from this message, includes [thread member](super::channels::ThreadMember) object
  pub thread: Option<Channel>,
  /// Sent if the message contains components like buttons, action rows, or other interactive components
  pub components: Option<Vec<Component>>,
  /// Sent if the message contains stickers
  pub sticker_items: Option<Vec<StickerItem>>,
  /// A generally increasing integer (there may be gaps or duplicates) that represents the approximate position of the message in a thread, it can be used to estimate the relative position of the message in a thread in company with `total_message_sent` on parent thread
  pub position: Option<i64>,
  /// Data of the role subscription purchase or renewal that prompted this ROLE_SUBSCRIPTION_PURCHASE message
  pub role_subscription_data: Option<RoleSubscriptionData>,
  /// Data for users, members, channels, and roles in the message's [auto-populated select menus](crate::structs::components::SelectMenu)
  pub resolved: Option<InteractionDataResolved>,
  /// A poll!
  pub poll: Option<Poll>,
}

/// Discord Channel Mention Object
#[derive(Clone, Debug)]
pub struct ChannelMention {
  /// Id of the channel
  pub id: Snowflake,
  /// Id of the guild containing the channel
  pub guild_id: Snowflake,
  /// The [type of channel](ChannelType)
  pub channel_type: ChannelType,
  /// The name of the channel
  pub name: String,
}

/// Discord Attachment Object
#[derive(Clone, Debug)]
pub struct Attachment {
  /// Attachment id
  pub id: Snowflake,
  /// Name of file attached
  pub filename: String,
  /// Description for the file
  pub description: Option<String>,
  /// The attachment's [media type](https://en.wikipedia.org/wiki/Media_type)
  pub content_type: Option<String>,
  /// Size of file in bytes
  pub size: i64,
  /// Source url of file
  pub url: String,
  /// A proxied url of file
  pub proxy_url: String,
  /// Height of file (if image)
  pub height: Option<i64>,
  /// Width of file (if image)
  pub width: Option<i64>,
  /// Whether this attachment is ephemeral
  pub ephemeral: Option<bool>,
  /// The duration of the audio file (currently for voice messages)
  pub duration_secs: Option<u64>,
  /// Base64 encoded bytearray representing a sampled waveform (currently for voice messages)
  pub waveform: Option<String>,
  /// [Attachment flags](AttachmentFlags) combined as a bitfield
  pub flags: Option<AttachmentFlags>,
}

/// Discord Reaction Object
#[derive(Clone, Debug)]
pub struct Reaction {
  /// Times this emoji has been used to react
  pub count: i64,
  /// Whether the current user reacted using this emoji
  pub me: bool,
  /// Emoji information
  pub emoji: Emoji,
}

/// Discord Message Types
#[derive(Clone, Copy, Debug, PartialEq, Eq, Hash, Structural)]
#[allow(non_camel_case_types)]
pub enum MessageType {
  /// Normal message
  DEFAULT,
  /// Member added to a group chat
  RECIPIENT_ADD,
  /// Member removed from a group chat
  RECIPIENT_REMOVE,
  /// Call notification
  CALL,
  /// Channel name changed
  CHANNEL_NAME_CHANGE,
  /// Channel icon changed
  CHANNEL_ICON_CHANGE,
  /// A message was pinned
  CHANNEL_PINNED_MESSAGE,
  /// A new member joined a server
  USER_JOIN,
  /// A member boosted the server
  GUILD_BOOST,
  /// A member boosted the server and reached tier 1
  GUILD_BOOST_TIER_1,
  /// A member boosted the server and reached tier 2
  GUILD_BOOST_TIER_2,
  /// A member boosted the server and reached tier 3
  GUILD_BOOST_TIER_3,
  /// A news channel followed
  CHANNEL_FOLLOW_ADD,
  /// Server is no longer qualified for discovery
  GUILD_DISCOVERY_DISQUALIFIED,
  /// Server is qualified for discovery again
  GUILD_DISCOVERY_REQUALIFIED,
  /// First warning about losing discovery eligibility
  GUILD_DISCOVERY_GRACE_PERIOD_INITIAL_WARNING,
  /// Final warning about losing discovery eligibility
  GUILD_DISCOVERY_GRACE_PERIOD_FINAL_WARNING,
  /// A new thread was created
  THREAD_CREATED,
  /// Message is a reply to another message
  REPLY,
  /// Message was sent from a chat input command
  CHAT_INPUT_COMMAND,
  /// Message is the first message that started the thread
  THREAD_STARTER_MESSAGE,
  /// Server setup tips
  GUILD_INVITE_REMINDER,
  /// Message was sent from a context menu command
  CONTEXT_MENU_COMMAND,
  /// AutoMod alert message
  AUTO_MODERATION_ACTION,
  /// User purchased a server subscription
  ROLE_SUBSCRIPTION_PURCHASE,
  /// Interaction premium upsell
  INTERACTION_PREMIUM_UPSELL,
  /// A stage event was started
  STAGE_START,
  /// A stage event was ended
  STAGE_END,
  /// Someone became a speaker
  STAGE_SPEAKER,
  /// Stage topic was changed
  STAGE_TOPIC,
  /// Application premium subscription
  GUILD_APPLICATION_PREMIUM_SUBSCRIPTION,
  /// A message type that hasn't been implemented yet
  UNKNOWN,
}

impl MessageType {
    /// The number that Discord uses for this value.
    pub open spec fn spec_code(self) -> u8 {
        match self {
            MessageType::DEFAULT => 0,
            MessageType::RECIPIENT_ADD => 1,
            MessageType::RECIPIENT_REMOVE => 2,
            MessageType::CALL => 3,
            MessageType::CHANNEL_NAME_CHANGE => 4,
            MessageType::CHANNEL_ICON_CHANGE => 5,
            MessageType::CHANNEL_PINNED_MESSAGE => 6,
            MessageType::USER_JOIN => 7,
            MessageType::GUILD_BOOST => 8,
            MessageType::GUILD_BOOST_TIER_1 => 9,
            MessageType::GUILD_BOOST_TIER_2 => 10,
            MessageType::GUILD_BOOST_TIER_3 => 11,
            MessageType::CHANNEL_FOLLOW_ADD => 12,
            MessageType::GUILD_DISCOVERY_DISQUALIFIED => 14,
            MessageType::GUILD_DISCOVERY_REQUALIFIED => 15,
            MessageType::GUILD_DISCOVERY_GRACE_PERIOD_INITIAL_WARNING => 16,
            MessageType::GUILD_DISCOVERY_GRACE_PERIOD_FINAL_WARNING => 17,
            MessageType::THREAD_CREATED => 18,
            MessageType::REPLY => 19,
            MessageType::CHAT_INPUT_COMMAND => 20,
            MessageType::THREAD_STARTER_MESSAGE => 21,
            MessageType::GUILD_INVITE_REMINDER => 22,
            MessageType::CONTEXT_MENU_COMMAND => 23,
            MessageType::AUTO_MODERATION_ACTION => 24,
            MessageType::ROLE_SUBSCRIPTION_PURCHASE => 25,
            MessageType::INTERACTION_PREMIUM_UPSELL => 26,
            MessageType::STAGE_START => 27,
            MessageType::STAGE_END => 28,
            MessageType::STAGE_SPEAKER => 29,
            MessageType::STAGE_TOPIC => 31,
            MessageType::GUILD_APPLICATION_PREMIUM_SUBSCRIPTION => 32,
            MessageType::UNKNOWN => 33,
        }
    }

    /// The value that Discord's number `code` stands for, if any.
    pub open spec fn spec_from_code(code: u8) -> Option<MessageType> {
        match code {
            0 => Some(MessageType::DEFAULT),
            1 => Some(MessageType::RECIPIENT_ADD),
            2 => Some(MessageType::RECIPIENT_REMOVE),
            3 => Some(MessageType::CALL),
            4 => Some(MessageType::CHANNEL_NAME_CHANGE),
            5 => Some(MessageType::CHANNEL_ICON_CHANGE),
            6 => Some(MessageType::CHANNEL_PINNED_MESSAGE),
            7 => Some(MessageType::USER_JOIN),
            8 => Some(MessageType::GUILD_BOOST),
            9 => Some(MessageType::GUILD_BOOST_TIER_1),
            10 => Some(MessageType::GUILD_BOOST_TIER_2),
            11 => Some(MessageType::GUILD_BOOST_TIER_3),
            12 => Some(MessageType::CHANNEL_FOLLOW_ADD),
            14 => Some(MessageType::GUILD_DISCOVERY_DISQUALIFIED),
            15 => Some(MessageType::GUILD_DISCOVERY_REQUALIFIED),
            16 => Some(MessageType::GUILD_DISCOVERY_GRACE_PERIOD_INITIAL_WARNING),
            17 => Some(MessageType::GUILD_DISCOVERY_GRACE_PERIOD_FINAL_WARNING),
            18 => Some(MessageType::THREAD_CREATED),
            19 => Some(MessageType::REPLY),
            20 => Some(MessageType::CHAT_INPUT_COMMAND),
            21 => Some(MessageType::THREAD_STARTER_MESSAGE),
            22 => Some(MessageType::GUILD_INVITE_REMINDER),
            23 => Some(MessageType::CONTEXT_MENU_COMMAND),
            24 => Some(MessageType::AUTO_MODERATION_ACTION),
            25 => Some(MessageType::ROLE_SUBSCRIPTION_PURCHASE),
            26 => Some(MessageType::INTERACTION_PREMIUM_UPSELL),
            27 => Some(MessageType::STAGE_START),
            28 => Some(MessageType::STAGE_END),
            29 => Some(MessageType::STAGE_SPEAKER),
            31 => Some(MessageType::STAGE_TOPIC),
            32 => Some(MessageType::GUILD_APPLICATION_PREMIUM_SUBSCRIPTION),
            33 => Some(MessageType::UNKNOWN),
            _ => None,
        }
    }

    /// The number that Discord uses for this value.
    pub fn code(&self) -> (r: u8)
        ensures
            r == self.spec_code(),
    {
        match self {
            MessageType::DEFAULT => 0,
            MessageType::RECIPIENT_ADD => 1,
            MessageType::RECIPIENT_REMOVE => 2,
            MessageType::CALL => 3,
            MessageType::CHANNEL_NAME_CHANGE => 4,
            MessageType::CHANNEL_ICON_CHANGE => 5,
            MessageType::CHANNEL_PINNED_MESSAGE => 6,
            MessageType::USER_JOIN => 7,
            MessageType::GUILD_BOOST => 8,
            MessageType::GUILD_BOOST_TIER_1 => 9,
            MessageType::GUILD_BOOST_TIER_2 => 10,
            MessageType::GUILD_BOOST_TIER_3 => 11,
            MessageType::CHANNEL_FOLLOW_ADD => 12,
            MessageType::GUILD_DISCOVERY_DISQUALIFIED => 14,
            MessageType::GUILD_DISCOVERY_REQUALIFIED => 15,
            MessageType::GUILD_DISCOVERY_GRACE_PERIOD_INITIAL_WARNING => 16,
            MessageType::GUILD_DISCOVERY_GRACE_PERIOD_FINAL_WARNING => 17,
            MessageType::THREAD_CREATED => 18,
            MessageType::REPLY => 19,
            MessageType::CHAT_INPUT_COMMAND => 20,
            MessageType::THREAD_STARTER_MESSAGE => 21,
            MessageType::GUILD_INVITE_REMINDER => 22,
            MessageType::CONTEXT_MENU_COMMAND => 23,
            MessageType::AUTO_MODERATION_ACTION => 24,
            MessageType::ROLE_SUBSCRIPTION_PURCHASE => 25,
            MessageType::INTERACTION_PREMIUM_UPSELL => 26,
            MessageType::STAGE_START => 27,
            MessageType::STAGE_END => 28,
            MessageType::STAGE_SPEAKER => 29,
            MessageType::STAGE_TOPIC => 31,
            MessageType::GUILD_APPLICATION_PREMIUM_SUBSCRIPTION => 32,
            MessageType::UNKNOWN => 33,
        }
    }

    /// The value that Discord's number `code` stands for, if any.
    pub fn from_code(code: u8) -> (r: Option<MessageType>)
        ensures
            r == MessageType::spec_from_code(code),
    {
        match code {
            0 => Some(MessageType::DEFAULT),
            1 => Some(MessageType::RECIPIENT_ADD),
            2 => Some(MessageType::RECIPIENT_REMOVE),
            3 => Some(MessageType::CALL),
            4 => Some(MessageType::CHANNEL_NAME_CHANGE),
            5 => Some(MessageType::CHANNEL_ICON_CHANGE),
            6 => Some(MessageType::CHANNEL_PINNED_MESSAGE),
            7 => Some(MessageType::USER_JOIN),
            8 => Some(MessageType::GUILD_BOOST),
            9 => Some(MessageType::GUILD_BOOST_TIER_1),
            10 => Some(MessageType::GUILD_BOOST_TIER_2),
            11 => Some(MessageType::GUILD_BOOST_TIER_3),
            12 => Some(MessageType::CHANNEL_FOLLOW_ADD),
            14 => Some(MessageType::GUILD_DISCOVERY_DISQUALIFIED),
            15 => Some(MessageType::GUILD_DISCOVERY_REQUALIFIED),
            16 => Some(MessageType::GUILD_DISCOVERY_GRACE_PERIOD_INITIAL_WARNING),
            17 => Some(MessageType::GUILD_DISCOVERY_GRACE_PERIOD_FINAL_WARNING),
            18 => Some(MessageType::THREAD_CREATED),
            19 => Some(MessageType::REPLY),
            20 => Some(MessageType::CHAT_INPUT_COMMAND),
            21 => Some(MessageType::THREAD_STARTER_MESSAGE),
            22 => Some(MessageType::GUILD_INVITE_REMINDER),
            23 => Some(MessageType::CONTEXT_MENU_COMMAND),
            24 => Some(MessageType::AUTO_MODERATION_ACTION),
            25 => Some(MessageType::ROLE_SUBSCRIPTION_PURCHASE),
            26 => Some(MessageType::INTERACTION_PREMIUM_UPSELL),
            27 => Some(MessageType::STAGE_START),
            28 => Some(MessageType::STAGE_END),
            29 => Some(MessageType::STAGE_SPEAKER),
            31 => Some(MessageType::STAGE_TOPIC),
            32 => Some(MessageType::GUILD_APPLICATION_PREMIUM_SUBSCRIPTION),
            33 => Some(MessageType::UNKNOWN),
            _ => None,
        }
    }
}

/// Discord Message Activity Object
#[derive(Clone, Debug)]
pub struct MessageActivity {
  /// [Type of message activity](MessageActivityType)
  pub activity_type: MessageActivityType,
  /// party_id from a [Rich Presence event](https://discord.com/developers/docs/rich-presence/how-to#updating-presence-update-presence-payload-fields)
  pub party_id: Option<String>,
}

/// Discord Message Activity Types
#[derive(Clone, Copy, Debug, PartialEq, Eq, Hash, Structural)]
#[allow(non_camel_case_types)]
pub enum MessageActivityType {
  /// Invite to join activity
  JOIN,
  /// Invite to spectate activity
  SPECTATE,
  /// Invite to listen along
  LISTEN,
  /// Invite to request to join
  JOIN_REQUEST,
  /// Message activity type that hasn't been implemented yet
  UNKNOWN,
}

impl MessageActivityType {
    /// The number that Discord uses for this value.
    pub open spec fn spec_code(self) -> u8 {
        match self {
            MessageActivityType::JOIN => 1,
            MessageActivityType::SPECTATE => 2,
            MessageActivityType::LISTEN => 3,
            MessageActivityType::JOIN_REQUEST => 5,
            MessageActivityType::UNKNOWN => 6,
        }
    }

    /// The value that Discord's number `code` stands for, if any.
    pub open spec fn spec_from_code(code: u8) -> Option<MessageActivityType> {
        match code {
            1 => Some(MessageActivityType::JOIN),
            2 => Some(MessageActivityType::SPECTATE),
            3 => Some(MessageActivityType::LISTEN),
            5 => Some(MessageActivityType::JOIN_REQUEST),
            6 => Some(MessageActivityType::UNKNOWN),
            _ => None,
        }
    }

    /// The number that Discord uses for this value.
    pub fn code(&self) -> (r: u8)
        ensures
            r == self.spec_code(),
    {
        match self {
            MessageActivityType::JOIN => 1,
            MessageActivityType::SPECTATE => 2,
            MessageActivityType::LISTEN => 3,
            MessageActivityType::JOIN_REQUEST => 5,
            MessageActivityType::UNKNOWN => 6,
        }
    }

    /// The value that Discord's number `code` stands for, if any.
    pub fn from_code(code: u8) -> (r: Option<MessageActivityType>)
        ensures
            r == MessageActivityType::spec_from_code(code),
    {
        match code {
            1 => Some(MessageActivityType::JOIN),
            2 => Some(MessageActivityType::SPECTATE),
            3 => Some(MessageActivityType::LISTEN),
            5 => Some(MessageActivityType::JOIN_REQUEST),
            6 => Some(MessageActivityType::UNKNOWN),
            _ => None,
        }
    }
}

/// Discord Message Reference Object
#[derive(Clone, Debug)]
pub struct MessageReference {
  /// Id of the originating message
  pub message_id: Option<Snowflake>,
  /// Id of the originating message's channel
  pub channel_id: Option<Snowflake>,
  /// Id of the originating message's guild
  pub guild_id: Option<Snowflake>,
  /// When sending, whether to error if the referenced message doesn't exist instead of sending as a normal (non-reply) message, default true
  pub fail_if_not_exists: Option<bool>,
}

/// Discord Message Interaction Metadata Object
#[derive(Debug)]
pub struct MessageInteractionMetadata {
  /// Id of the interaction
  pub id: Snowflake,
  /// The type of interaction
  pub interaction_type: Option<InteractionType>,
  /// ID of the user who triggered the interaction
  pub user_id: Snowflake,
  /// IDs for installation context(s) related to an interaction. Details in [Authorizing Integration Owners Object](https://discord.com/developers/docs/interactions/receiving-and-responding#interaction-object-authorizing-integration-owners-object)
  pub authorizing_integration_owners: IntegrationOwners,
  /// ID of the original response message, present only on [follow-up messages](https://discord.com/developers/docs/interactions/receiving-and-responding)
  pub original_response_message_id: Option<Snowflake>,
  /// ID of the message that contained interactive component, present only on messages created from component interactions
  pub interacted_message_id: Option<Snowflake>,
  /// Metadata for the interaction that was used to open the modal, present only on modal submit interactions
  pub triggering_interaction_metadata: Option<Box<MessageInteractionMetadata>>,
}

/// Discord Allowed Mentions Object
#[derive(Clone, Debug)]
pub struct AllowedMentions {
  /// An array of [allowed mention types](AllowedMentionType) to parse from the content.
  pub parse: Option<Vec<AllowedMentionType>>,
  /// Array of role_ids to mention (Max size of 100)
  pub roles: Option<Vec<Snowflake>>,
  /// Array of user_ids to mention (Max size of 100)
  pub users: Option<Vec<Snowflake>>,
  /// For replies, whether to mention the author of the message being replied to (default false)
  pub replied_user: Option<bool>,
}

/// Discord Allowed Mention Types
#[derive(Clone, Copy, Debug, PartialEq, Eq, Hash, Structural)]
#[allow(non_camel_case_types)]
pub enum AllowedMentionType {
  /// Allowed to mention roles
  ROLES,
  /// Allowed to mention users
  USERS,
  /// Allowed to mention @everyone and @here
  EVERYONE,
}

/// Discord Role Subscription Data Object
#[derive(Clone, Debug)]
pub struct RoleSubscriptionData {
  /// The id of the sku and listing that the user is subscribed to
  pub role_subscription_listing_id: Snowflake,
  /// The name of the tier that the user is subscribed to
  pub tier_name: String,
  /// The cumulative number of months that the user has been subscribed for
  pub total_months_subscribed: i64,
  /// Whether this notification is for a renewal rather than a new purchase
  pub is_renewal: bool,
}

/// Options for fetching multiple messages with [fetch_many](Message::fetch_many).
/// Only one of `around`, `before`, or `after` can be passed at once.
#[derive(Clone, Debug)]
pub struct MessageFetchOptions {
  /// Get messages around this message ID
  pub around: Option<Snowflake>,
  /// Get messages before this message ID
  pub before: Option<Snowflake>,
  /// Get messages after this message ID
  pub after: Option<Snowflake>,
  /// Max number of messages to return (1-100). Defaults to 50.
  pub limit: Option<i64>,
}

/// Options for fetching reactions with [get_reactions](Message::get_reactions) or poll voters with [get_poll_voters](Message::get_poll_voters).
#[derive(Clone, Debug)]
pub struct ReactionFetchOptions {
  /// Get users after this user ID
  pub after: Option<Snowflake>,
  /// Max number of users to return (1-100) Defaults to 25.
  pub limit: Option<i64>,
}

/// Bitflags for Discord Attachment Flags
#[derive(Clone, Copy, Debug, PartialEq, Eq, Hash, Structural)]
pub struct AttachmentFlags {
    bits: u32,
}

impl AttachmentFlags {
    /// The bits of the set.
    pub closed spec fn value(self) -> u32 {
        self.bits
    }

    /// The bits of every flag that this type names.
    pub open spec fn known_bits() -> u32 {
        4u32
    }

    /// This attachment has been edited using the remix feature on mobile
    #[allow(non_snake_case)]
    pub fn IS_REMIX() -> (r: Self)
        ensures
            r.value() == 4u32,
    {
        AttachmentFlags { bits: 4u32 }
    }

    /// The empty set.
    pub fn empty() -> (r: Self)
        ensures
            r.value() == 0,
    {
        AttachmentFlags { bits: 0 }
    }

    /// The set of every flag this type names.
    pub fn all() -> (r: Self)
        ensures
            r.value() == Self::known_bits(),
    {
        AttachmentFlags { bits: 4u32 }
    }

    /// The bits of the set.
    pub fn bits(&self) -> (r: u32)
        ensures
            r == self.value(),
    {
        self.bits
    }

    /// The set with exactly these bits, known or not.
    pub fn from_bits_retain(bits: u32) -> (r: Self)
        ensures
            r.value() == bits,
    {
        AttachmentFlags { bits }
    }

    /// The set of the known flags among these bits; unknown bits are dropped.
    pub fn from_bits_truncate(bits: u32) -> (r: Self)
        ensures
            r.value() == bits & Self::known_bits(),
    {
        AttachmentFlags { bits: bits & 4u32 }
    }

    /// The set with these bits, if every bit is a known flag.
    pub fn from_bits(bits: u32) -> (r: Option<Self>)
        ensures
            r is Some <==> bits & Self::known_bits() == bits,
            r matches Some(f) ==> f.value() == bits,
    {
        if bits & 4u32 == bits { Some(AttachmentFlags { bits }) } else { None }
    }

    /// Whether no flag is set.
    pub fn is_empty(&self) -> (r: bool)
        ensures
            r == (self.value() == 0),
    {
        self.bits == 0
    }

    /// Whether every flag of `other` is set in `self`.
    pub fn contains(&self, other: Self) -> (r: bool)
        ensures
            r == (self.value() & other.value() == other.value()),
    {
        self.bits & other.bits == other.bits
    }

    /// Whether `self` and `other` share a flag.
    pub fn intersects(&self, other: Self) -> (r: bool)
        ensures
            r == (self.value() & other.value() != 0),
    {
        self.bits & other.bits != 0
    }

    /// Sets the flags of `other`.
    pub fn insert(&mut self, other: Self)
        ensures
            final(self).value() == old(self).value() | other.value(),
    {
        self.bits = self.bits | other.bits;
    }

    /// Clears the flags of `other`.
    pub fn remove(&mut self, other: Self)
        ensures
            final(self).value() == old(self).value() & !other.value(),
    {
        self.bits = self.bits & !other.bits;
    }

    /// Flips the flags of `other`.
    pub fn toggle(&mut self, other: Self)
        ensures
            final(self).value() == old(self).value() ^ other.value(),
    {
        self.bits = self.bits ^ other.bits;
    }

    /// Sets the flags of `other` when `value` holds, clears them otherwise.
    pub fn set(&mut self, other: Self, value: bool)
        ensures
            final(self).value() == (if value { old(self).value() | other.value() } else { old(self).value() & !other.value() }),
    {
        if value {
            self.insert(other);
        } else {
            self.remove(other);
        }
    }

    /// The flags set in either.
    pub fn union(self, other: Self) -> (r: Self)
        ensures
            r.value() == self.value() | other.value(),
    {
        AttachmentFlags { bits: self.bits | other.bits }
    }

    /// The flags set in both.
    pub fn intersection(self, other: Self) -> (r: Self)
        ensures
            r.value() == self.value() & other.value(),
    {
        AttachmentFlags { bits: self.bits & other.bits }
    }

    /// The flags set in `self` and not in `other`.
    pub fn difference(self, other: Self) -> (r: Self)
        ensures
            r.value() == self.value() & !other.value(),
    {
        AttachmentFlags { bits: self.bits & !other.bits }
    }

    /// The flags set in exactly one of the two.
    pub fn symmetric_difference(self, other: Self) -> (r: Self)
        ensures
            r.value() == self.value() ^ other.value(),
    {
        AttachmentFlags { bits: self.bits ^ other.bits }
    }

    /// The known flags that are not set.
    pub fn complement(self) -> (r: Self)
        ensures
            r.value() == !self.value() & Self::known_bits(),
    {
        AttachmentFlags { bits: !self.bits & 4u32 }
    }
}

/// Bitflags for Discord Message Flags
#[derive(Clone, Copy, Debug, PartialEq, Eq, Hash, Structural)]
pub struct MessageFlags {
    bits: u32,
}

impl MessageFlags {
    /// The bits of the set.
    pub closed spec fn value(self) -> u32 {
        self.bits
    }

    /// The bits of every flag that this type names.
    pub open spec fn known_bits() -> u32 {
        45567u32
    }

    /// This message has been published to subscribed channels (via Channel Following)
    #[allow(non_snake_case)]
    pub fn CROSSPOSTED() -> (r: Self)
        ensures
            r.value() == 1u32,
    {
        MessageFlags { bits: 1u32 }
    }

    /// This message originated from a message in another channel (via Channel Following)
    #[allow(non_snake_case)]
    pub fn IS_CROSSPOST() -> (r: Self)
        ensures
            r.value() == 2u32,
    {
        MessageFlags { bits: 2u32 }
    }

    /// Do not include any embeds when serializing this message
    #[allow(non_snake_case)]
    pub fn SUPPRESS_EMBEDS() -> (r: Self)
        ensures
            r.value() == 4u32,
    {
        MessageFlags { bits: 4u32 }
    }

    /// The source message for this crosspost has been deleted (via Channel Following)
    #[allow(non_snake_case)]
    pub fn SOURCE_MESSAGE_DELETED() -> (r: Self)
        ensures
            r.value() == 8u32,
    {
        MessageFlags { bits: 8u32 }
    }

    /// This message came from the urgent message system
    #[allow(non_snake_case)]
    pub fn URGENT() -> (r: Self)
        ensures
            r.value() == 16u32,
    {
        MessageFlags { bits: 16u32 }
    }

    /// This message has an associated thread, with the same id as the message
    #[allow(non_snake_case)]
    pub fn HAS_THREAD() -> (r: Self)
        ensures
            r.value() == 32u32,
    {
        MessageFlags { bits: 32u32 }
    }

    /// This message is only visible to the user who invoked the Interaction
    #[allow(non_snake_case)]
    pub fn EPHEMERAL() -> (r: Self)
        ensures
            r.value() == 64u32,
    {
        MessageFlags { bits: 64u32 }
    }

    /// This message is an Interaction Response and the bot is "thinking"
    #[allow(non_snake_case)]
    pub fn LOADING() -> (r: Self)
        ensures
            r.value() == 128u32,
    {
        MessageFlags { bits: 128u32 }
    }

    /// This message failed to mention some roles and add their members to the thread
    #[allow(non_snake_case)]
    pub fn FAILED_TO_MENTION_SOME_ROLES_IN_THREAD() -> (r: Self)
        ensures
            r.value() == 256u32,
    {
        MessageFlags { bits: 256u32 }
    }

    /// This message will not trigger push and desktop notifications
    #[allow(non_snake_case)]
    pub fn SUPPRESS_NOTIFICATIONS() -> (r: Self)
        ensures
            r.value() == 4096u32,
    {
        MessageFlags { bits: 4096u32 }
    }

    /// This message is a voice message
    #[allow(non_snake_case)]
    pub fn IS_VOICE_MESSAGE() -> (r: Self)
        ensures
            r.value() == 8192u32,
    {
        MessageFlags { bits: 8192u32 }
    }

    /// This message uses components that can hold text, media and layout
    #[allow(non_snake_case)]
    pub fn IS_COMPONENTS_V2() -> (r: Self)
        ensures
            r.value() == 32768u32,
    {
        MessageFlags { bits: 32768u32 }
    }

    /// The empty set.
    pub fn empty() -> (r: Self)
        ensures
            r.value() == 0,
    {
        MessageFlags { bits: 0 }
    }

    /// The set of every flag this type names.
    pub fn all() -> (r: Self)
        ensures
            r.value() == Self::known_bits(),
    {
        MessageFlags { bits: 45567u32 }
    }

    /// The bits of the set.
    pub fn bits(&self) -> (r: u32)
        ensures
            r == self.value(),
    {
        self.bits
    }

    /// The set with exactly these bits, known or not.
    pub fn from_bits_retain(bits: u32) -> (r: Self)
        ensures
            r.value() == bits,
    {
        MessageFlags { bits }
    }

    /// The set of the known flags among these bits; unknown bits are dropped.
    pub fn from_bits_truncate(bits: u32) -> (r: Self)
        ensures
            r.value() == bits & Self::known_bits(),
    {
        MessageFlags { bits: bits & 45567u32 }
    }

    /// The set with these bits, if every bit is a known flag.
    pub fn from_bits(bits: u32) -> (r: Option<Self>)
        ensures
            r is Some <==> bits & Self::known_bits() == bits,
            r matches Some(f) ==> f.value() == bits,
    {
        if bits & 45567u32 == bits { Some(MessageFlags { bits }) } else { None }
    }

    /// Whether no flag is set.
    pub fn is_empty(&self) -> (r: bool)
        ensures
            r == (self.value() == 0),
    {
        self.bits == 0
    }

    /// Whether every flag of `other` is set in `self`.
    pub fn contains(&self, other: Self) -> (r: bool)
        ensures
            r == (self.value() & other.value() == other.value()),
    {
        self.bits & other.bits == other.bits
    }

    /// Whether `self` and `other` share a flag.
    pub fn intersects(&self, other: Self) -> (r: bool)
        ensures
            r == (self.value() & other.value() != 0),
    {
        self.bits & other.bits != 0
    }

    /// Sets the flags of `other`.
    pub fn insert(&mut self, other: Self)
        ensures
            final(self).value() == old(self).value() | other.value(),
    {
        self.bits = self.bits | other.bits;
    }

    /// Clears the flags of `other`.
    pub fn remove(&mut self, other: Self)
        ensures
            final(self).value() == old(self).value() & !other.value(),
    {
        self.bits = self.bits & !other.bits;
    }

    /// Flips the flags of `other`.
    pub fn toggle(&mut self, other: Self)
        ensures
            final(self).value() == old(self).value() ^ other.value(),
    {
        self.bits = self.bits ^ other.bits;
    }

    /// Sets the flags of `other` when `value` holds, clears them otherwise.
    pub fn set(&mut self, other: Self, value: bool)
        ensures
            final(self).value() == (if value { old(self).value() | other.value() } else { old(self).value() & !other.value() }),
    {
        if value {
            self.insert(other);
        } else {
            self.remove(other);
        }
    }

    /// The flags set in either.
    pub fn union(self, other: Self) -> (r: Self)
        ensures
            r.value() == self.value() | other.value(),
    {
        MessageFlags { bits: self.bits | other.bits }
    }

    /// The flags set in both.
    pub fn intersection(self, other: Self) -> (r: Self)
        ensures
            r.value() == self.value() & other.value(),
    {
        MessageFlags { bits: self.bits & other.bits }
    }

    /// The flags set in `self` and not in `other`.
    pub fn difference(self, other: Self) -> (r: Self)
        ensures
            r.value() == self.value() & !other.value(),
    {
        MessageFlags { bits: self.bits & !other.bits }
    }

    /// The flags set in exactly one of the two.
    pub fn symmetric_difference(self, other: Self) -> (r: Self)
        ensures
            r.value() == self.value() ^ other.value(),
    {
        MessageFlags { bits: self.bits ^ other.bits }
    }

    /// The known flags that are not set.
    pub fn complement(self) -> (r: Self)
        ensures
            r.value() == !self.value() & Self::known_bits(),
    {
        MessageFlags { bits: !self.bits & 45567u32 }
    }
}

impl Attachment {
    /// Creates an attachment object that can be used to tell discord to keep the attachment when editing.
    pub fn keep_with_id(id: &str) -> (r: Attachment)
        ensures
            r.id@ == id@,
            r.filename@ == Seq::<char>::empty(),
            r.description is None,
            r.content_type is None,
            r.size == 0,
            r.url@ == Seq::<char>::empty(),
            r.proxy_url@ == Seq::<char>::empty(),
            r.height is None,
            r.width is None,
            r.ephemeral is None,
            r.duration_secs is None,
            r.waveform is None,
            r.flags is None,
    {
        Attachment { id: string_of(id), filename: String::new(), description: None, content_type: None, size: 0, url: String::new(), proxy_url: String::new(), height: None, width: None, ephemeral: None, duration_secs: None, waveform: None, flags: None }
    }
}

impl AllowedMentions {
    /// Create a new allowed mentions object. By default doesn't allow any mentions
    pub fn new() -> (r: AllowedMentions)
        ensures
            r.parse matches Some(v) && v@.len() == 0,
            r.roles is None,
            r.users is None,
            r.replied_user is None,
    {
        AllowedMentions { parse: Some(Vec::new()), roles: None, users: None, replied_user: None }
    }

    /// Add an allowed mention type to parse. You cannot use the user or role type at the same time as an array of allowed ids for that type
    pub fn add_parse(self, parsed: AllowedMentionType) -> (r: AllowedMentions)
        ensures
            r.parse matches Some(v) && v@ == vec_or_empty(self.parse).push(parsed),
            r == (AllowedMentions { parse: r.parse, ..self }),
    {
        AllowedMentions { parse: Some(push_onto(self.parse, parsed)), ..self }
    }

    /// Add a user ID to the list of allowed user mentions
    pub fn add_user(self, user: Snowflake) -> (r: AllowedMentions)
        ensures
            r.users matches Some(v) && v@ == vec_or_empty(self.users).push(user),
            r == (AllowedMentions { users: r.users, ..self }),
    {
        AllowedMentions { users: Some(push_onto(self.users, user)), ..self }
    }

    /// Add a role ID to the list of allowed role mentions
    pub fn add_role(self, role: Snowflake) -> (r: AllowedMentions)
        ensures
            r.roles matches Some(v) && v@ == vec_or_empty(self.roles).push(role),
            r == (AllowedMentions { roles: r.roles, ..self }),
    {
        AllowedMentions { roles: Some(push_onto(self.roles, role)), ..self }
    }

    /// Set if the replied user should be mentioned or not
    pub fn set_replied_user(self, b: bool) -> (r: AllowedMentions)
        ensures
            r == (AllowedMentions { replied_user: Some(b), ..self }),
    {
        AllowedMentions { replied_user: Some(b), ..self }
    }
}

impl MessageFetchOptions {
    /// Creates a new empty MessageFetchOptions
    pub fn new() -> (r: MessageFetchOptions)
        ensures
            r.around is None,
            r.before is None,
            r.after is None,
            r.limit is None,
    {
        MessageFetchOptions { around: None, before: None, after: None, limit: None }
    }

    /// Sets the message ID to search around.
    /// Also removes `before` and `after` if set.
    pub fn set_around(self, around: &str) -> (r: MessageFetchOptions)
        ensures
            str_opt(r.around, around@),
            r == (MessageFetchOptions { around: r.around, before: None, after: None, ..self }),
    {
        MessageFetchOptions { around: Some(string_of(around)), before: None, after: None, ..self }
    }

    /// Sets the message ID to search before.
    /// Also removes `around` and `after` if set.
    pub fn set_before(self, before: &str) -> (r: MessageFetchOptions)
        ensures
            str_opt(r.before, before@),
            r == (MessageFetchOptions { around: None, before: r.before, after: None, ..self }),
    {
        MessageFetchOptions { around: None, before: Some(string_of(before)), after: None, ..self }
    }

    /// Sets the message ID to search after.
    /// Also removes `around` and `before` if set.
    pub fn set_after(self, after: &str) -> (r: MessageFetchOptions)
        ensures
            str_opt(r.after, after@),
            r == (MessageFetchOptions { around: None, before: None, after: r.after, ..self }),
    {
        MessageFetchOptions { around: None, before: None, after: Some(string_of(after)), ..self }
    }

    /// Sets the limit for the amount of messages to fetch
    pub fn set_limit(self, limit: i64) -> (r: MessageFetchOptions)
        ensures
            r == (MessageFetchOptions { limit: Some(limit), ..self }),
    {
        MessageFetchOptions { limit: Some(limit), ..self }
    }
}

impl ReactionFetchOptions {
    /// Creates a new empty ReactionFetchOptions
    pub fn new() -> (r: ReactionFetchOptions)
        ensures
            r.after is None,
            r.limit is None,
    {
        ReactionFetchOptions { after: None, limit: None }
    }

    /// Sets the user ID to search after.
    pub fn set_after(self, after: &str) -> (r: ReactionFetchOptions)
        ensures
            str_opt(r.after, after@),
            r == (ReactionFetchOptions { after: r.after, ..self }),
    {
        ReactionFetchOptions { after: Some(string_of(after)), ..self }
    }

    /// Sets the limit for the amount of reactions to fetch
    pub fn set_limit(self, limit: i64) -> (r: ReactionFetchOptions)
        ensures
            r == (ReactionFetchOptions { limit: Some(limit), ..self }),
    {
        ReactionFetchOptions { limit: Some(limit), ..self }
    }
}

/// Whether `a` is the partial attachment that tells Discord to keep the attachment `id` when a message is edited.
pub open spec fn kept_attachment(a: Attachment, id: Seq<char>) -> bool {
    &&& a.id@ == id
    &&& a.filename@.len() == 0
    &&& a.description is None
    &&& a.content_type is None
    &&& a.size == 0
    &&& a.url@.len() == 0
    &&& a.proxy_url@.len() == 0
    &&& a.height is None
    &&& a.width is None
    &&& a.ephemeral is None
    &&& a.duration_secs is None
    &&& a.waveform is None
    &&& a.flags is None
}

impl Attachment {
    /// The attachment that stands for a file uploaded with a request, under this id
    pub fn from_file(id: String, file: &File) -> (r: Attachment)
        ensures
            r.id == id,
            r.filename@.len() == 0,
            r.description == file.description,
            r.content_type is None,
            r.size == 0,
            r.url@.len() == 0,
            r.proxy_url@.len() == 0,
            r.height is None,
            r.width is None,
            r.ephemeral is None,
            r.duration_secs == file.duration_secs,
            r.waveform == file.waveform,
            r.flags is None,
    {
        let description = match &file.description { Some(s) => Some(s.clone()), None => None };
        let waveform = match &file.waveform { Some(s) => Some(s.clone()), None => None };
        Attachment {
            id,
            filename: String::new(),
            description,
            content_type: None,
            size: 0,
            url: String::new(),
            proxy_url: String::new(),
            height: None,
            width: None,
            ephemeral: None,
            duration_secs: file.duration_secs,
            waveform,
            flags: None,
        }
    }
}

impl MessageType {
    /// Discord's number for a value reads back as that value.
    pub proof fn law_code_round_trip(self)
        ensures
            MessageType::spec_from_code(self.spec_code()) == Some(self),
    {
    }
}

impl MessageActivityType {
    /// Discord's number for a value reads back as that value.
    pub proof fn law_code_round_trip(self)
        ensures
            MessageActivityType::spec_from_code(self.spec_code()) == Some(self),
    {
    }
}

impl Default for AllowedMentions {
    /// The same as [`AllowedMentions::new`]
    fn default() -> (r: AllowedMentions)
        ensures
            r.parse matches Some(v) && v@.len() == 0,
            r.roles is None,
            r.users is None,
            r.replied_user is None,
    {
        AllowedMentions::new()
    }
}

} // verus!
