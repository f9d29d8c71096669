//! Structs related to Discord interactions

use vstd::prelude::*;
use crate::commands::responder::{CommandResponse, MessageResponse, Modal};
use crate::structs::{Permissions, Snowflake};
use crate::structs::channels::{Channel, ChannelType};
use crate::structs::components::{Component, ComponentType};
use crate::structs::embeds::Embed;
use crate::structs::json::JsonValue;
use crate::structs::members::GuildMember;
use crate::structs::messages::{AllowedMentions, Attachment, Message, MessageFlags};
use crate::structs::monetization::Entitlement;
use crate::structs::roles::Role;
use crate::structs::users::User;
use crate::structs::utils::File;
use crate::text::{bool_text, bool_to_string, i64_to_string, int_text, opt_view, push_str, string_of};

verus! {

/// Discord ApplicationCommand Object
#[derive(Clone, Debug)]
pub struct ApplicationCommand {
  /// Unique ID of command
  pub id: Option<Snowflake>,
  /// [Type of command](ApplicationCommandType), defaults to `CHAT_INPUT`
  pub command_type: Option<ApplicationCommandType>,
  /// ID of the parent application
  pub application_id: Option<Snowflake>,
  /// Guild ID of the command, if not global
  pub guild_id: Option<Snowflake>,
  /// [Name of command](https://discord.com/developers/docs/interactions/application-commands#application-command-object-application-command-naming), 1-32 characters
  pub name: String,
  /// Localization dictionary for `name` field. Values follow the same restrictions as `name`
  pub name_localizations: Option<Vec<(String, String)>>,
  /// Description for `CHAT_INPUT` commands, 1-100 characters. Empty string for `USER` and `MESSAGE` commands
  pub description: String,
  /// Localization dictionary for `description` field. Values follow the same restrictions as `description`
  pub description_localizations: Option<Vec<(String, String)>>,
  /// Parameters for the command, max of 25
  pub options: Option<Vec<ApplicationCommandOption>>,
  /// Set of [permissions](Permissions) represented as a bit set
  pub default_member_permissions: Option<Permissions>,
  /// Indicates whether the command is available in DMs with the app, only for globally-scoped commands. By default, commands are visible.
  pub dm_permission: Option<bool>,
  /// Indicates whether the command is age-restricted, defaults to `false`
  pub nsfw: Option<bool>,
  /// [Installation context(s)](IntegrationType) where the command is available, only for globally-scoped commands
  pub integration_types: Option<Vec<IntegrationType>>,
  /// [Interaction context(s)](InteractionContextType) where the command can be used, only for globally-scoped commands
  pub contexts: Option<Vec<InteractionContextType>>,
  /// Autoincrementing version identifier updated during substantial record changes
  pub version: Option<Snowflake>,
}

/// Discord Application Command Types
#[derive(Clone, Copy, Debug, PartialEq, Eq, Hash, Structural)]
#[allow(non_camel_case_types)]
pub enum ApplicationCommandType {
  /// Slash commands; a text-based command that shows up when a user types `/`
  CHAT_INPUT,
  /// A UI-based command that shows up when you right click or tap on a user
  USER,
  /// A UI-based command that shows up when you right click or tap on a message
  MESSAGE,
  /// An application command type that hasn't been implemented yet
  UNKNOWN,
}

impl ApplicationCommandType {
    /// The number that Discord uses for this value.
    pub open spec fn spec_code(self) -> u8 {
        match self {
            ApplicationCommandType::CHAT_INPUT => 1,
            ApplicationCommandType::USER => 2,
            ApplicationCommandType::MESSAGE => 3,
            ApplicationCommandType::UNKNOWN => 4,
        }
    }

    /// The value that Discord's number `code` stands for, if any.
    pub open spec fn spec_from_code(code: u8) -> Option<ApplicationCommandType> {
        match code {
            1 => Some(ApplicationCommandType::CHAT_INPUT),
            2 => Some(ApplicationCommandType::USER),
            3 => Some(ApplicationCommandType::MESSAGE),
            4 => Some(ApplicationCommandType::UNKNOWN),
            _ => None,
        }
    }

    /// The number that Discord uses for this value.
    pub fn code(&self) -> (r: u8)
        ensures
            r == self.spec_code(),
    {
        match self {
            ApplicationCommandType::CHAT_INPUT => 1,
            ApplicationCommandType::USER => 2,
            ApplicationCommandType::MESSAGE => 3,
            ApplicationCommandType::UNKNOWN => 4,
        }
    }

    /// The value that Discord's number `code` stands for, if any.
    pub fn from_code(code: u8) -> (r: Option<ApplicationCommandType>)
        ensures
            r == ApplicationCommandType::spec_from_code(code),
    {
        match code {
            1 => Some(ApplicationCommandType::CHAT_INPUT),
            2 => Some(ApplicationCommandType::USER),
            3 => Some(ApplicationCommandType::MESSAGE),
            4 => Some(ApplicationCommandType::UNKNOWN),
            _ => None,
        }
    }
}

/// Discord Application Command Option Object
#[derive(Debug)]
pub struct ApplicationCommandOption {
  /// Type of option
  pub option_type: InteractionOptionType,
  /// 1-32 character name
  pub name: String,
  /// Localization dictionary for the `name` field. Values follow the same restrictions as `name`
  pub name_localizations: Option<Vec<(String, String)>>,
  /// 1-100 character description
  pub description: String,
  /// Localization dictionary for the `description` field. Values follow the same restrictions as `description`
  pub description_localizations: Option<Vec<(String, String)>>,
  /// If the parameter is required or optional--default `false`
  pub required: Option<bool>,
  /// Choices for `STRING`, `INTEGER`, and `NUMBER` types for the user to pick from, max 25
  pub choices: Option<Vec<ApplicationCommandOptionChoice>>,
  /// If the option is a subcommand or subcommand group type, these nested options will be the parameters
  pub options: Option<Vec<ApplicationCommandOption>>,
  /// If the option is a channel type, the channels shown will be restricted to these types
  pub channel_types: Option<Vec<ChannelType>>,
  /// If the option is an `INTEGER` or `NUMBER` type, the minimum value permitted
  pub min_value: Option<u64>,
  /// If the option is an `INTEGER` or `NUMBER` type, the maximum value permitted
  pub max_value: Option<u64>,
  /// For option type `STRING`, the minimum allowed length (minimum of `0`, maximum of `6000`)
  pub min_length: Option<i64>,
  /// For option type `STRING`, the maximum allowed length (minimum of `1`, maximum of `6000`)
  pub max_length: Option<i64>,
  /// If autocomplete interactions are enabled for this `STRING`, `INTEGER`, or `NUMBER` type option
  pub autocomplete: Option<bool>,
}

/// Discord Application Command Option Choice Object
#[derive(Clone, Debug)]
pub struct ApplicationCommandOptionChoice {
  /// 1-100 character choice name
  pub name: String,
  /// Localization dictionary for the name field. Values follow the same restrictions as name
  pub name_localizations: Option<Vec<(String, String)>>,
  /// Value of the choice, up to 100 characters if string
  pub value: JsonValue,
}

#[derive(Clone, Debug)]
pub struct Interaction {
  pub id: Snowflake,
  pub application_id: Snowflake,
  pub interaction_type: InteractionType,
  pub data: Option<InteractionData>,
  pub guild_id: Option<Snowflake>,
  pub channel: Option<Channel>,
  pub channel_id: Option<Snowflake>,
  pub member: Option<GuildMember>,
  pub user: Option<User>,
  pub token: String,
  pub version: u8,
  pub message: Option<Message>,
  pub app_permissions: Option<Permissions>,
  pub locale: Option<String>,
  pub guild_locale: Option<String>,
  pub entitlements: Vec<Entitlement>,
}

/// Discord Interaction Types
#[derive(Clone, Copy, Debug, PartialEq, Eq, Hash, Structural)]
#[allow(non_camel_case_types)]
pub enum InteractionType {
  /// Ping interaction
  PING,
  /// Application command interaction
  APPLICATION_COMMAND,
  /// Message component interaction
  MESSAGE_COMPONENT,
  /// Autocomplete interaction
  APPLICATION_COMMAND_AUTOCOMPLETE,
  /// Modal submit interaction
  MODAL_SUBMIT,
  /// Interaction type that hasn't been implemented yet
  UNKNOWN,
}

impl InteractionType {
    /// The number that Discord uses for this value.
    pub open spec fn spec_code(self) -> u8 {
        match self {
            InteractionType::PING => 1,
            InteractionType::APPLICATION_COMMAND => 2,
            InteractionType::MESSAGE_COMPONENT => 3,
            InteractionType::APPLICATION_COMMAND_AUTOCOMPLETE => 4,
            InteractionType::MODAL_SUBMIT => 5,
            InteractionType::UNKNOWN => 6,
        }
    }

    /// The value that Discord's number `code` stands for, if any.
    pub open spec fn spec_from_code(code: u8) -> Option<InteractionType> {
        match code {
            1 => Some(InteractionType::PING),
            2 => Some(InteractionType::APPLICATION_COMMAND),
            3 => Some(InteractionType::MESSAGE_COMPONENT),
            4 => Some(InteractionType::APPLICATION_COMMAND_AUTOCOMPLETE),
            5 => Some(InteractionType::MODAL_SUBMIT),
            6 => Some(InteractionType::UNKNOWN),
            _ => None,
        }
    }

    /// The number that Discord uses for this value.
    pub fn code(&self) -> (r: u8)
        ensures
            r == self.spec_code(),
    {
        match self {
            InteractionType::PING => 1,
            InteractionType::APPLICATION_COMMAND => 2,
            InteractionType::MESSAGE_COMPONENT => 3,
            InteractionType::APPLICATION_COMMAND_AUTOCOMPLETE => 4,
            InteractionType::MODAL_SUBMIT => 5,
            InteractionType::UNKNOWN => 6,
        }
    }

    /// The value that Discord's number `code` stands for, if any.
    pub fn from_code(code: u8) -> (r: Option<InteractionType>)
        ensures
            r == InteractionType::spec_from_code(code),
    {
        match code {
            1 => Some(InteractionType::PING),
            2 => Some(InteractionType::APPLICATION_COMMAND),
            3 => Some(InteractionType::MESSAGE_COMPONENT),
            4 => Some(InteractionType::APPLICATION_COMMAND_AUTOCOMPLETE),
            5 => Some(InteractionType::MODAL_SUBMIT),
            6 => Some(InteractionType::UNKNOWN),
            _ => None,
        }
    }
}

#[derive(Clone, Debug)]
pub struct InteractionData {
  pub id: Option<Snowflake>,
  pub name: Option<String>,
  pub command_type: Option<ApplicationCommandType>,
  pub resolved: Option<InteractionDataResolved>,
  pub options: Option<Vec<InteractionOption>>,
  pub guild_id: Option<Snowflake>,
  pub target_id: Option<Snowflake>,
  pub custom_id: Option<String>,
  pub component_type: Option<ComponentType>,
  pub values: Option<Vec<String>>,
  pub components: Option<Vec<Component>>,
}

/// Discord Interaction Data Resolved Object
#[derive(Debug)]
pub struct InteractionDataResolved {
  /// The ids and User objects
  pub users: Option<Vec<(Snowflake, User)>>,
  /// The ids and partial Member objects
  pub members: Option<Vec<(Snowflake, GuildMember)>>,
  /// The ids and Role objects
  pub roles: Option<Vec<(Snowflake, Role)>>,
  /// The ids and partial Channel objects
  pub channels: Option<Vec<(Snowflake, Channel)>>,
  /// The ids and partial Message objects
  pub messages: Option<Vec<(Snowflake, Message)>>,
  /// The ids and attachment objects
  pub attachments: Option<Vec<(Snowflake, Attachment)>>,
}

#[derive(Debug)]
pub struct InteractionOption {
  pub name: String,
  pub option_type: InteractionOptionType,
  pub value: Option<JsonValue>,
  pub options: Option<Vec<InteractionOption>>,
  pub focused: Option<bool>,
}

/// Discord Application Command Option Type
#[derive(Clone, Copy, Debug, PartialEq, Eq, Hash, Structural)]
#[allow(non_camel_case_types)]
pub enum InteractionOptionType {
  /// A subcommand
  SUB_COMMAND,
  /// A subcommand group
  SUB_COMMAND_GROUP,
  /// A string
  STRING,
  /// An integer, Any integer between -2^53 and 2^53
  INTEGER,
  /// A boolean
  BOOLEAN,
  /// A user
  USER,
  /// A channel, Includes all channel types + categories
  CHANNEL,
  /// A role
  ROLE,
  /// A mentionable, Includes users and roles
  MENTIONABLE,
  /// A number, Any double between -2^53 and 2^53
  NUMBER,
  /// An attachment object
  ATTACHMENT,
  /// An unknown option type that hasn't been implemented yet
  UNKNOWN,
}

impl InteractionOptionType {
    /// The number that Discord uses for this value.
    pub open spec fn spec_code(self) -> u8 {
        match self {
            InteractionOptionType::SUB_COMMAND => 1,
            InteractionOptionType::SUB_COMMAND_GROUP => 2,
            InteractionOptionType::STRING => 3,
            InteractionOptionType::INTEGER => 4,
            InteractionOptionType::BOOLEAN => 5,
            InteractionOptionType::USER => 6,
            InteractionOptionType::CHANNEL => 7,
            InteractionOptionType::ROLE => 8,
            InteractionOptionType::MENTIONABLE => 9,
            InteractionOptionType::NUMBER => 10,
            InteractionOptionType::ATTACHMENT => 11,
            InteractionOptionType::UNKNOWN => 12,
        }
    }

    /// The value that Discord's number `code` stands for, if any.
    pub open spec fn spec_from_code(code: u8) -> Option<InteractionOptionType> {
        match code {
            1 => Some(InteractionOptionType::SUB_COMMAND),
            2 => Some(InteractionOptionType::SUB_COMMAND_GROUP),
            3 => Some(InteractionOptionType::STRING),
            4 => Some(InteractionOptionType::INTEGER),
            5 => Some(InteractionOptionType::BOOLEAN),
            6 => Some(InteractionOptionType::USER),
            7 => Some(InteractionOptionType::CHANNEL),
            8 => Some(InteractionOptionType::ROLE),
            9 => Some(InteractionOptionType::MENTIONABLE),
            10 => Some(InteractionOptionType::NUMBER),
            11 => Some(InteractionOptionType::ATTACHMENT),
            12 => Some(InteractionOptionType::UNKNOWN),
            _ => None,
        }
    }

    /// The number that Discord uses for this value.
    pub fn code(&self) -> (r: u8)
        ensures
            r == self.spec_code(),
    {
        match self {
            InteractionOptionType::SUB_COMMAND => 1,
            InteractionOptionType::SUB_COMMAND_GROUP => 2,
            InteractionOptionType::STRING => 3,
            InteractionOptionType::INTEGER => 4,
            InteractionOptionType::BOOLEAN => 5,
            InteractionOptionType::USER => 6,
            InteractionOptionType::CHANNEL => 7,
            InteractionOptionType::ROLE => 8,
            InteractionOptionType::MENTIONABLE => 9,
            InteractionOptionType::NUMBER => 10,
            InteractionOptionType::ATTACHMENT => 11,
            InteractionOptionType::UNKNOWN => 12,
        }
    }

    /// The value that Discord's number `code` stands for, if any.
    pub fn from_code(code: u8) -> (r: Option<InteractionOptionType>)
        ensures
            r == InteractionOptionType::spec_from_code(code),
    {
        match code {
            1 => Some(InteractionOptionType::SUB_COMMAND),
            2 => Some(InteractionOptionType::SUB_COMMAND_GROUP),
            3 => Some(InteractionOptionType::STRING),
            4 => Some(InteractionOptionType::INTEGER),
            5 => Some(InteractionOptionType::BOOLEAN),
            6 => Some(InteractionOptionType::USER),
            7 => Some(InteractionOptionType::CHANNEL),
            8 => Some(InteractionOptionType::ROLE),
            9 => Some(InteractionOptionType::MENTIONABLE),
            10 => Some(InteractionOptionType::NUMBER),
            11 => Some(InteractionOptionType::ATTACHMENT),
            12 => Some(InteractionOptionType::UNKNOWN),
            _ => None,
        }
    }
}

/// Represents the possible values from command arguments
#[derive(Clone, Debug)]
pub enum OptionValue {
  /// Represents a string value
  String(String),
  /// Represents an integer value
  Integer(i64),
  /// Represents a boolean value
  Boolean(bool),
  /// Represents a user value
  User(User),
  /// Represents a channel value
  Channel(Box<Channel>),
  /// Represents a role channe
  Role(Role),
  /// Represents a number value
  Number(u64),
  /// Represents an attachment value
  Attachment(Attachment),
  /// Represents any unknown value
  Other(JsonValue)
}

#[derive(Clone, Debug)]
pub struct InteractionCallback {
  pub response_type: InteractionCallbackType,
  pub data: Option<InteractionCallbackData>,
}

#[derive(Clone, Copy, Debug, PartialEq, Eq, Hash, Structural)]
#[allow(non_camel_case_types)]
pub enum InteractionCallbackType {
  PONG,
  CHANNEL_MESSAGE_WITH_SOURCE,
  DEFERRED_CHANNEL_MESSAGE_WITH_SOURCE,
  DEFERRED_UPDATE_MESSAGE,
  UPDATE_MESSAGE,
  APPLICATION_COMMAND_AUTOCOMPLETE_RESULT,
  MODAL,
  PREMIUM_REQUIRED,
  /// Launch the Activity associated with the app. Only available for apps with Activities enabled
  LAUNCH_ACTIVITY,
}

impl InteractionCallbackType {
    /// The number that Discord uses for this value.
    pub open spec fn spec_code(self) -> u8 {
        match self {
            InteractionCallbackType::PONG => 1,
            InteractionCallbackType::CHANNEL_MESSAGE_WITH_SOURCE => 4,
            InteractionCallbackType::DEFERRED_CHANNEL_MESSAGE_WITH_SOURCE => 5,
            InteractionCallbackType::DEFERRED_UPDATE_MESSAGE => 6,
            InteractionCallbackType::UPDATE_MESSAGE => 7,
            InteractionCallbackType::APPLICATION_COMMAND_AUTOCOMPLETE_RESULT => 8,
            InteractionCallbackType::MODAL => 9,
            InteractionCallbackType::PREMIUM_REQUIRED => 10,
            InteractionCallbackType::LAUNCH_ACTIVITY => 12,
        }
    }

    /// The value that Discord's number `code` stands for, if any.
    pub open spec fn spec_from_code(code: u8) -> Option<InteractionCallbackType> {
        match code {
            1 => Some(InteractionCallbackType::PONG),
            4 => Some(InteractionCallbackType::CHANNEL_MESSAGE_WITH_SOURCE),
            5 => Some(InteractionCallbackType::DEFERRED_CHANNEL_MESSAGE_WITH_SOURCE),
            6 => Some(InteractionCallbackType::DEFERRED_UPDATE_MESSAGE),
            7 => Some(InteractionCallbackType::UPDATE_MESSAGE),
            8 => Some(InteractionCallbackType::APPLICATION_COMMAND_AUTOCOMPLETE_RESULT),
            9 => Some(InteractionCallbackType::MODAL),
            10 => Some(InteractionCallbackType::PREMIUM_REQUIRED),
            12 => Some(InteractionCallbackType::LAUNCH_ACTIVITY),
            _ => None,
        }
    }

    /// The number that Discord uses for this value.
    pub fn code(&self) -> (r: u8)
        ensures
            r == self.spec_code(),
    {
        match self {
            InteractionCallbackType::PONG => 1,
            InteractionCallbackType::CHANNEL_MESSAGE_WITH_SOURCE => 4,
            InteractionCallbackType::DEFERRED_CHANNEL_MESSAGE_WITH_SOURCE => 5,
            InteractionCallbackType::DEFERRED_UPDATE_MESSAGE => 6,
            InteractionCallbackType::UPDATE_MESSAGE => 7,
            InteractionCallbackType::APPLICATION_COMMAND_AUTOCOMPLETE_RESULT => 8,
            InteractionCallbackType::MODAL => 9,
            InteractionCallbackType::PREMIUM_REQUIRED => 10,
            InteractionCallbackType::LAUNCH_ACTIVITY => 12,
        }
    }

    /// The value that Discord's number `code` stands for, if any.
    pub fn from_code(code: u8) -> (r: Option<InteractionCallbackType>)
        ensures
            r == InteractionCallbackType::spec_from_code(code),
    {
        match code {
            1 => Some(InteractionCallbackType::PONG),
            4 => Some(InteractionCallbackType::CHANNEL_MESSAGE_WITH_SOURCE),
            5 => Some(InteractionCallbackType::DEFERRED_CHANNEL_MESSAGE_WITH_SOURCE),
            6 => Some(InteractionCallbackType::DEFERRED_UPDATE_MESSAGE),
            7 => Some(InteractionCallbackType::UPDATE_MESSAGE),
            8 => Some(InteractionCallbackType::APPLICATION_COMMAND_AUTOCOMPLETE_RESULT),
            9 => Some(InteractionCallbackType::MODAL),
            10 => Some(InteractionCallbackType::PREMIUM_REQUIRED),
            12 => Some(InteractionCallbackType::LAUNCH_ACTIVITY),
            _ => None,
        }
    }
}

#[derive(Clone, Debug)]
pub struct InteractionCallbackData {
  pub tts: Option<bool>,
  pub content: Option<String>,
  pub embeds: Option<Vec<Embed>>,
  pub allowed_mentions: Option<AllowedMentions>,
  pub flags: Option<MessageFlags>,
  pub components: Option<Vec<Component>>,
  pub attachments: Option<Vec<Attachment>>,
  pub choices: Option<Vec<ApplicationCommandOptionChoice>>,
  pub custom_id: Option<String>,
  pub title: Option<String>,
  pub files: Option<Vec<File>>,
}

/// Discord Application Integration Types: where an app is installed
#[derive(Clone, Copy, Debug, PartialEq, Eq, Hash, Structural)]
#[allow(non_camel_case_types)]
pub enum IntegrationType {
  /// App is installable to servers
  GUILD_INSTALL,
  /// App is installable to users
  USER_INSTALL,
  /// An integration type that hasn't been implemented yet
  UNKNOWN,
}

impl IntegrationType {
    /// The number that Discord uses for this value.
    pub open spec fn spec_code(self) -> u8 {
        match self {
            IntegrationType::GUILD_INSTALL => 0,
            IntegrationType::USER_INSTALL => 1,
            IntegrationType::UNKNOWN => 2,
        }
    }

    /// The value that Discord's number `code` stands for, if any.
    pub open spec fn spec_from_code(code: u8) -> Option<IntegrationType> {
        match code {
            0 => Some(IntegrationType::GUILD_INSTALL),
            1 => Some(IntegrationType::USER_INSTALL),
            _ => Some(IntegrationType::UNKNOWN),
        }
    }

    /// The number that Discord uses for this value.
    pub fn code(&self) -> (r: u8)
        ensures
            r == self.spec_code(),
    {
        match self {
            IntegrationType::GUILD_INSTALL => 0,
            IntegrationType::USER_INSTALL => 1,
            IntegrationType::UNKNOWN => 2,
        }
    }

    /// The value that Discord's number `code` stands for, if any.
    pub fn from_code(code: u8) -> (r: Option<IntegrationType>)
        ensures
            r == IntegrationType::spec_from_code(code),
    {
        match code {
            0 => Some(IntegrationType::GUILD_INSTALL),
            1 => Some(IntegrationType::USER_INSTALL),
            _ => Some(IntegrationType::UNKNOWN),
        }
    }
}

/// Discord Interaction Context Types: where an interaction can be used
#[derive(Clone, Copy, Debug, PartialEq, Eq, Hash, Structural)]
#[allow(non_camel_case_types)]
pub enum InteractionContextType {
  /// Interaction can be used within servers
  GUILD,
  /// Interaction can be used within DMs with the app's bot user
  BOT_DM,
  /// Interaction can be used within Group DMs and DMs other than the app's bot user
  PRIVATE_CHANNEL,
  /// A context type that hasn't been implemented yet
  UNKNOWN,
}

impl InteractionContextType {
    /// The number that Discord uses for this value.
    pub open spec fn spec_code(self) -> u8 {
        match self {
            InteractionContextType::GUILD => 0,
            InteractionContextType::BOT_DM => 1,
            InteractionContextType::PRIVATE_CHANNEL => 2,
            InteractionContextType::UNKNOWN => 3,
        }
    }

    /// The value that Discord's number `code` stands for, if any.
    pub open spec fn spec_from_code(code: u8) -> Option<InteractionContextType> {
        match code {
            0 => Some(InteractionContextType::GUILD),
            1 => Some(InteractionContextType::BOT_DM),
            2 => Some(InteractionContextType::PRIVATE_CHANNEL),
            _ => Some(InteractionContextType::UNKNOWN),
        }
    }

    /// The number that Discord uses for this value.
    pub fn code(&self) -> (r: u8)
        ensures
            r == self.spec_code(),
    {
        match self {
            InteractionContextType::GUILD => 0,
            InteractionContextType::BOT_DM => 1,
            InteractionContextType::PRIVATE_CHANNEL => 2,
            InteractionContextType::UNKNOWN => 3,
        }
    }

    /// The value that Discord's number `code` stands for, if any.
    pub fn from_code(code: u8) -> (r: Option<InteractionContextType>)
        ensures
            r == InteractionContextType::spec_from_code(code),
    {
        match code {
            0 => Some(InteractionContextType::GUILD),
            1 => Some(InteractionContextType::BOT_DM),
            2 => Some(InteractionContextType::PRIVATE_CHANNEL),
            _ => Some(InteractionContextType::UNKNOWN),
        }
    }
}

/// IDs of the installation contexts related to an interaction, keyed by [installation context](IntegrationType)
pub type IntegrationOwners = Vec<(IntegrationType, Snowflake)>;

impl OptionValue {
    /// Whether the value is a string
    pub fn is_string(&self) -> (r: bool)
        ensures
            r == (*self is String),
    {
        matches!(self, OptionValue::String(_))
    }

    /// The string, if the value is one
    pub fn as_string(&self) -> (r: Option<String>)
        ensures
            match *self {
                OptionValue::String(s) => r matches Some(x) && x@ == s@,
                _ => r is None,
            },
    {
        match self {
            OptionValue::String(s) => Some(s.clone()),
            _ => None,
        }
    }

    /// Whether the value is an integer
    pub fn is_i64(&self) -> (r: bool)
        ensures
            r == (*self is Integer),
    {
        matches!(self, OptionValue::Integer(_))
    }

    /// The integer, if the value is one
    pub fn as_i64(&self) -> (r: Option<i64>)
        ensures
            match *self {
                OptionValue::Integer(i) => r == Some(i),
                _ => r is None,
            },
    {
        match self {
            OptionValue::Integer(i) => Some(*i),
            _ => None,
        }
    }

    /// Whether the value is a number
    pub fn is_f64(&self) -> (r: bool)
        ensures
            r == (*self is Number),
    {
        matches!(self, OptionValue::Number(_))
    }

    /// The bits of the number (as `f64::to_bits` gives them), if the value is one
    pub fn as_f64_bits(&self) -> (r: Option<u64>)
        ensures
            match *self {
                OptionValue::Number(n) => r == Some(n),
                _ => r is None,
            },
    {
        match self {
            OptionValue::Number(n) => Some(*n),
            _ => None,
        }
    }

    /// Whether the value is a boolean
    pub fn is_bool(&self) -> (r: bool)
        ensures
            r == (*self is Boolean),
    {
        matches!(self, OptionValue::Boolean(_))
    }

    /// The boolean, if the value is one
    pub fn as_bool(&self) -> (r: Option<bool>)
        ensures
            match *self {
                OptionValue::Boolean(b) => r == Some(b),
                _ => r is None,
            },
    {
        match self {
            OptionValue::Boolean(b) => Some(*b),
            _ => None,
        }
    }

    /// Whether the value is a user
    pub fn is_user(&self) -> (r: bool)
        ensures
            r == (*self is User),
    {
        matches!(self, OptionValue::User(_))
    }

    /// The user, if the value is one
    pub fn as_user(&self) -> (r: Option<&User>)
        ensures
            match *self {
                OptionValue::User(u) => r == Some(&u),
                _ => r is None,
            },
    {
        match self {
            OptionValue::User(u) => Some(u),
            _ => None,
        }
    }

    /// Whether the value is a channel
    pub fn is_channel(&self) -> (r: bool)
        ensures
            r == (*self is Channel),
    {
        matches!(self, OptionValue::Channel(_))
    }

    /// The channel, if the value is one
    pub fn as_channel(&self) -> (r: Option<&Channel>)
        ensures
            match *self {
                OptionValue::Channel(c) => r == Some(&*c),
                _ => r is None,
            },
    {
        match self {
            OptionValue::Channel(c) => Some(&**c),
            _ => None,
        }
    }

    /// Whether the value is a role
    pub fn is_role(&self) -> (r: bool)
        ensures
            r == (*self is Role),
    {
        matches!(self, OptionValue::Role(_))
    }

    /// The role, if the value is one
    pub fn as_role(&self) -> (r: Option<&Role>)
        ensures
            match *self {
                OptionValue::Role(x) => r == Some(&x),
                _ => r is None,
            },
    {
        match self {
            OptionValue::Role(x) => Some(x),
            _ => None,
        }
    }

    /// Whether the value is an attachment
    pub fn is_attachment(&self) -> (r: bool)
        ensures
            r == (*self is Attachment),
    {
        matches!(self, OptionValue::Attachment(_))
    }

    /// The attachment, if the value is one
    pub fn as_attachment(&self) -> (r: Option<&Attachment>)
        ensures
            match *self {
                OptionValue::Attachment(a) => r == Some(&a),
                _ => r is None,
            },
    {
        match self {
            OptionValue::Attachment(a) => Some(a),
            _ => None,
        }
    }
}

impl ApplicationCommandOptionChoice {
    /// Creates a new choice with a name and value
    pub fn new(name: &str, value: JsonValue) -> (r: ApplicationCommandOptionChoice)
        ensures
            r.name@ == name@,
            r.name_localizations is None,
            r.value == value,
    {
        ApplicationCommandOptionChoice { name: string_of(name), name_localizations: None, value }
    }
}

/// Callback data that carries only these fields of a message.
pub open spec fn callback_data_of_message(msg: MessageResponse) -> InteractionCallbackData {
    InteractionCallbackData {
        tts: msg.tts,
        content: msg.content,
        flags: msg.flags,
        embeds: msg.embeds,
        components: msg.components,
        attachments: msg.attachments,
        allowed_mentions: msg.allowed_mentions,
        choices: None,
        custom_id: None,
        title: None,
        files: msg.files,
    }
}

/// Callback data that carries only flags.
pub open spec fn callback_data_of_flags(flags: MessageFlags) -> InteractionCallbackData {
    InteractionCallbackData {
        tts: None,
        content: None,
        flags: Some(flags),
        embeds: None,
        components: None,
        attachments: None,
        allowed_mentions: None,
        choices: None,
        custom_id: None,
        title: None,
        files: None,
    }
}

/// Callback data that carries only autocomplete choices.
pub open spec fn callback_data_of_choices(results: Vec<ApplicationCommandOptionChoice>) -> InteractionCallbackData {
    InteractionCallbackData {
        tts: None,
        content: None,
        flags: None,
        embeds: None,
        components: None,
        attachments: None,
        allowed_mentions: None,
        choices: Some(results),
        custom_id: None,
        title: None,
        files: None,
    }
}

/// Callback data that carries a modal.
pub open spec fn callback_data_of_modal(modal: Modal) -> InteractionCallbackData {
    InteractionCallbackData {
        tts: None,
        content: None,
        flags: None,
        embeds: None,
        components: Some(modal.components),
        attachments: None,
        allowed_mentions: None,
        choices: None,
        custom_id: Some(modal.custom_id),
        title: Some(modal.title),
        files: None,
    }
}

/// The callback that answers an interaction the way a command chose.
pub open spec fn callback_of_response(response: CommandResponse) -> InteractionCallback {
    match response {
        CommandResponse::DeferMessage(flags) => InteractionCallback {
            response_type: InteractionCallbackType::DEFERRED_CHANNEL_MESSAGE_WITH_SOURCE,
            data: Some(callback_data_of_flags(flags)),
        },
        CommandResponse::DeferUpdate => InteractionCallback {
            response_type: InteractionCallbackType::DEFERRED_UPDATE_MESSAGE,
            data: None,
        },
        CommandResponse::SendMessage(msg) => InteractionCallback {
            response_type: InteractionCallbackType::CHANNEL_MESSAGE_WITH_SOURCE,
            data: Some(callback_data_of_message(msg)),
        },
        CommandResponse::UpdateMessage(msg) => InteractionCallback {
            response_type: InteractionCallbackType::UPDATE_MESSAGE,
            data: Some(callback_data_of_message(msg)),
        },
        CommandResponse::AutocompleteResult(results) => InteractionCallback {
            response_type: InteractionCallbackType::APPLICATION_COMMAND_AUTOCOMPLETE_RESULT,
            data: Some(callback_data_of_choices(results)),
        },
        CommandResponse::Modal(modal) => InteractionCallback {
            response_type: InteractionCallbackType::MODAL,
            data: Some(callback_data_of_modal(modal)),
        },
        CommandResponse::LaunchActivity => InteractionCallback {
            response_type: InteractionCallbackType::LAUNCH_ACTIVITY,
            data: None,
        },
    }
}

impl From<MessageResponse> for InteractionCallbackData {
    fn from(msg: MessageResponse) -> (r: InteractionCallbackData) {
        InteractionCallbackData {
            tts: msg.tts,
            content: msg.content,
            flags: msg.flags,
            embeds: msg.embeds,
            components: msg.components,
            attachments: msg.attachments,
            allowed_mentions: msg.allowed_mentions,
            choices: None,
            custom_id: None,
            title: None,
            files: msg.files,
        }
    }
}

impl vstd::std_specs::convert::FromSpecImpl<MessageResponse> for InteractionCallbackData {
    open spec fn obeys_from_spec() -> bool {
        true
    }

    open spec fn from_spec(msg: MessageResponse) -> InteractionCallbackData {
        callback_data_of_message(msg)
    }
}

impl From<MessageFlags> for InteractionCallbackData {
    fn from(flags: MessageFlags) -> (r: InteractionCallbackData) {
        InteractionCallbackData {
            tts: None,
            content: None,
            flags: Some(flags),
            embeds: None,
            components: None,
            attachments: None,
            allowed_mentions: None,
            choices: None,
            custom_id: None,
            title: None,
            files: None,
        }
    }
}

impl vstd::std_specs::convert::FromSpecImpl<MessageFlags> for InteractionCallbackData {
    open spec fn obeys_from_spec() -> bool {
        true
    }

    open spec fn from_spec(flags: MessageFlags) -> InteractionCallbackData {
        callback_data_of_flags(flags)
    }
}

impl From<Vec<ApplicationCommandOptionChoice>> for InteractionCallbackData {
    fn from(results: Vec<ApplicationCommandOptionChoice>) -> (r: InteractionCallbackData) {
        InteractionCallbackData {
            tts: None,
            content: None,
            flags: None,
            embeds: None,
            components: None,
            attachments: None,
            allowed_mentions: None,
            choices: Some(results),
            custom_id: None,
            title: None,
            files: None,
        }
    }
}

impl vstd::std_specs::convert::FromSpecImpl<Vec<ApplicationCommandOptionChoice>> for InteractionCallbackData {
    open spec fn obeys_from_spec() -> bool {
        true
    }

    open spec fn from_spec(results: Vec<ApplicationCommandOptionChoice>) -> InteractionCallbackData {
        callback_data_of_choices(results)
    }
}

impl From<Modal> for InteractionCallbackData {
    fn from(modal: Modal) -> (r: InteractionCallbackData) {
        InteractionCallbackData {
            tts: None,
            content: None,
            flags: None,
            embeds: None,
            components: Some(modal.components),
            attachments: None,
            allowed_mentions: None,
            choices: None,
            custom_id: Some(modal.custom_id),
            title: Some(modal.title),
            files: None,
        }
    }
}

impl vstd::std_specs::convert::FromSpecImpl<Modal> for InteractionCallbackData {
    open spec fn obeys_from_spec() -> bool {
        true
    }

    open spec fn from_spec(modal: Modal) -> InteractionCallbackData {
        callback_data_of_modal(modal)
    }
}

impl From<CommandResponse> for InteractionCallback {
    fn from(response: CommandResponse) -> (r: InteractionCallback)
        ensures
            response is DeferMessage ==> r.response_type == InteractionCallbackType::DEFERRED_CHANNEL_MESSAGE_WITH_SOURCE,
            response is DeferUpdate ==> r.response_type == InteractionCallbackType::DEFERRED_UPDATE_MESSAGE && r.data is None,
            response is SendMessage ==> r.response_type == InteractionCallbackType::CHANNEL_MESSAGE_WITH_SOURCE,
            response is UpdateMessage ==> r.response_type == InteractionCallbackType::UPDATE_MESSAGE,
            response is AutocompleteResult ==> r.response_type == InteractionCallbackType::APPLICATION_COMMAND_AUTOCOMPLETE_RESULT,
            response is Modal ==> r.response_type == InteractionCallbackType::MODAL,
            response is LaunchActivity ==> r.response_type == InteractionCallbackType::LAUNCH_ACTIVITY && r.data is None,
    {
        match response {
            CommandResponse::DeferMessage(flags) => InteractionCallback {
                response_type: InteractionCallbackType::DEFERRED_CHANNEL_MESSAGE_WITH_SOURCE,
                data: Some(InteractionCallbackData::from(flags)),
            },
            CommandResponse::DeferUpdate => InteractionCallback {
                response_type: InteractionCallbackType::DEFERRED_UPDATE_MESSAGE,
                data: None,
            },
            CommandResponse::SendMessage(msg) => InteractionCallback {
                response_type: InteractionCallbackType::CHANNEL_MESSAGE_WITH_SOURCE,
                data: Some(InteractionCallbackData::from(msg)),
            },
            CommandResponse::UpdateMessage(msg) => InteractionCallback {
                response_type: InteractionCallbackType::UPDATE_MESSAGE,
                data: Some(InteractionCallbackData::from(msg)),
            },
            CommandResponse::AutocompleteResult(results) => InteractionCallback {
                response_type: InteractionCallbackType::APPLICATION_COMMAND_AUTOCOMPLETE_RESULT,
                data: Some(InteractionCallbackData::from(results)),
            },
            CommandResponse::Modal(modal) => InteractionCallback {
                response_type: InteractionCallbackType::MODAL,
                data: Some(InteractionCallbackData::from(modal)),
            },
            CommandResponse::LaunchActivity => InteractionCallback {
                response_type: InteractionCallbackType::LAUNCH_ACTIVITY,
                data: None,
            },
        }
    }
}

impl vstd::std_specs::convert::FromSpecImpl<CommandResponse> for InteractionCallback {
    open spec fn obeys_from_spec() -> bool {
        true
    }

    open spec fn from_spec(response: CommandResponse) -> InteractionCallback {
        callback_of_response(response)
    }
}

impl ApplicationCommandType {
    /// Discord's number for a value reads back as that value.
    pub proof fn law_code_round_trip(self)
        ensures
            ApplicationCommandType::spec_from_code(self.spec_code()) == Some(self),
    {
    }
}

impl InteractionType {
    /// Discord's number for a value reads back as that value.
    pub proof fn law_code_round_trip(self)
        ensures
            InteractionType::spec_from_code(self.spec_code()) == Some(self),
    {
    }
}

impl InteractionOptionType {
    /// Discord's number for a value reads back as that value.
    pub proof fn law_code_round_trip(self)
        ensures
            InteractionOptionType::spec_from_code(self.spec_code()) == Some(self),
    {
    }
}

impl InteractionCallbackType {
    /// Discord's number for a value reads back as that value.
    pub proof fn law_code_round_trip(self)
        ensures
            InteractionCallbackType::spec_from_code(self.spec_code()) == Some(self),
    {
    }
}

impl IntegrationType {
    /// Discord's number for a value reads back as that value.
    pub proof fn law_code_round_trip(self)
        ensures
            IntegrationType::spec_from_code(self.spec_code()) == Some(self),
    {
    }
}

impl InteractionContextType {
    /// Discord's number for a value reads back as that value.
    pub proof fn law_code_round_trip(self)
        ensures
            InteractionContextType::spec_from_code(self.spec_code()) == Some(self),
    {
    }
}

/// `s` written between double quotes.
pub open spec fn quoted(s: Seq<char>) -> Seq<char> {
    seq!['"'] + s + seq!['"']
}

/// How an option's value is displayed: a string, and the id of a user, channel or role, between
/// double quotes; an integer or a boolean as written; an attachment by its url. A number (a float)
/// and any other JSON value have no text here: theirs is that of a float or of JSON.
pub open spec fn option_value_text(v: OptionValue) -> Option<Seq<char>> {
    match v {
        OptionValue::String(s) => Some(quoted(s@)),
        OptionValue::Integer(i) => Some(int_text(i as int)),
        OptionValue::Boolean(b) => Some(bool_text(b)),
        OptionValue::User(u) => Some(quoted(u.id@)),
        OptionValue::Channel(c) => Some(quoted(c.id@)),
        OptionValue::Role(r) => Some(quoted(r.id@)),
        OptionValue::Attachment(a) => Some(a.url@),
        OptionValue::Number(_) => None,
        OptionValue::Other(_) => None,
    }
}

fn quote(s: &str) -> (r: String)
    ensures
        r@ == quoted(s@),
{
    proof { reveal_strlit("\""); }
    let mut r = string_of("\"");
    push_str(&mut r, s);
    push_str(&mut r, "\"");
    r
}

impl OptionValue {
    /// The value as it is displayed, where it holds no float and no other JSON value
    pub fn to_text(&self) -> (r: Option<String>)
        ensures
            opt_view(r) == option_value_text(*self),
    {
        match self {
            OptionValue::String(s) => Some(quote(s.as_str())),
            OptionValue::Integer(i) => Some(i64_to_string(*i)),
            OptionValue::Boolean(b) => Some(bool_to_string(*b)),
            OptionValue::User(u) => Some(quote(u.id.as_str())),
            OptionValue::Channel(c) => Some(quote(c.id.as_str())),
            OptionValue::Role(r) => Some(quote(r.id.as_str())),
            OptionValue::Attachment(a) => Some(string_of(a.url.as_str())),
            OptionValue::Number(_) => None,
            OptionValue::Other(_) => None,
        }
    }
}

/// How a command's response is answered to Discord: a message is sent as a new message
/// (`CHANNEL_MESSAGE_WITH_SOURCE`, 4) and an update edits the component's message
/// (`UPDATE_MESSAGE`, 7), each carrying the message's content; a deferral answers 5 (the
/// ephemeral flag carried) or 6 (nothing carried), autocomplete choices 8, a modal 9, and an
/// activity launch 12 with nothing carried.
pub proof fn law_callback_type_of_response(response: CommandResponse)
    ensures
        response matches CommandResponse::SendMessage(msg) ==> (callback_of_response(response).response_type.spec_code() == 4
            && callback_of_response(response).data is Some && callback_of_response(response).data->Some_0.content == msg.content && callback_of_response(response).data->Some_0.embeds == msg.embeds),
        response matches CommandResponse::UpdateMessage(msg) ==> (callback_of_response(response).response_type.spec_code() == 7
            && callback_of_response(response).data is Some && callback_of_response(response).data->Some_0.content == msg.content && callback_of_response(response).data->Some_0.embeds == msg.embeds),
        response matches CommandResponse::DeferMessage(flags) ==> (callback_of_response(response).response_type.spec_code() == 5
            && callback_of_response(response).data is Some && callback_of_response(response).data->Some_0.flags == Some(flags)),
        response is DeferUpdate ==> callback_of_response(response).response_type.spec_code() == 6
            && callback_of_response(response).data is None,
        response matches CommandResponse::AutocompleteResult(results) ==> (callback_of_response(response).response_type.spec_code() == 8
            && callback_of_response(response).data is Some && callback_of_response(response).data->Some_0.choices == Some(results)),
        response is Modal ==> callback_of_response(response).response_type.spec_code() == 9,
        response is LaunchActivity ==> callback_of_response(response).response_type.spec_code() == 12
            && callback_of_response(response).data is None,
{
}

} // verus!
