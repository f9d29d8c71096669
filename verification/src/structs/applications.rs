//! Structs related to Discord applications

use vstd::prelude::*;
use crate::structs::{Permissions, Snowflake};
use crate::structs::events::EventType;
use crate::structs::guilds::Guild;
use crate::structs::users::User;

verus! {

/// Discord Application Object
#[derive(Clone, Debug)]
pub struct Application {
  /// The id of the app
  pub id: Snowflake,
  /// The name of the app
  pub name: String,
  /// The [icon hash](https://discord.com/developers/docs/reference#image-formatting) of the app
  pub icon: Option<String>,
  /// The description of the app
  pub description: String,
  /// An array of rpc origin urls, if rpc is enabled
  pub rpc_origins: Option<Vec<String>>,
  /// When false only app owner can join the app's bot to guilds
  pub bot_public: Option<bool>,
  /// When true the app's bot will only join upon completion of the full oauth2 code grant flow
  pub bot_require_code_grant: Option<bool>,
  /// Partial user object for the bot user associated with the app
  pub bot: Option<User>,
  /// The url of the app's terms of service
  pub terms_of_service_url: Option<String>,
  /// The url of the app's privacy policy
  pub privacy_policy_url: Option<String>,
  /// Partial user object containing info on the owner of the application
  pub owner: Option<User>,
  /// The hex encoded key for verification in interactions and the GameSDK's [GetTicket](https://discord.com/developers/docs/game-sdk/applications#getticket)
  pub verify_key: Option<String>,
  /// If the application belongs to a team, this will be the list of the members of that team
  pub team: Option<Team>,
  /// If this application is a game sold on Discord, this field will be the guild to which it has been linked
  pub guild_id: Option<Snowflake>,
  /// Partial object of the associated guild
  pub guild: Option<Guild>,
  /// If this application is a game sold on Discord, this field will be the id of the "Game SKU" that is created, if exists
  pub primary_sku_id: Option<Snowflake>,
  /// If this application is a game sold on Discord, this field will be the URL slug that links to the store page
  pub slug: Option<String>,
  /// The application's default rich presence invite [cover image hash](https://discord.com/developers/docs/reference#image-formatting)
  pub cover_image: Option<String>,
  /// The application's public [flags](ApplicationFlags)
  pub flags: Option<ApplicationFlags>,
  /// Approximate count of guilds the app has been added to
  pub approximate_guild_count: Option<i64>,
  /// Approximate count of users that have installed the app
  pub approximate_user_install_count: Option<i64>,
  /// Array of redirect URIs for the app
  pub redirect_uris: Option<Vec<String>>,
  /// [Interactions endpoint URL](https://discord.com/developers/docs/interactions/receiving-and-responding#receiving-an-interaction) for the app
  pub interactions_endpoint_url: Option<String>,
  /// Role connection verification URL for the app
  pub role_connections_verification_url: Option<String>,
  /// [Event webhooks URL](https://discord.com/developers/docs/events/webhook-events#preparing-for-events) for the app to receive webhook events
  pub event_webhooks_url: Option<String>,
  /// If [webhook events](https://discord.com/developers/docs/events/webhook-events) are enabled for the app.
  pub event_webhooks_status: Option<ApplicationEventWebhookStatus>,
  /// List of [Webhook event types](EventType) the app subscribes to
  pub event_webhooks_types: Option<Vec<EventType>>,
  /// List of tags describing the content and functionality of the app. Max of 5 tags.
  pub tags: Option<Vec<String>>,
  /// Settings for the application's default in-app authorization link, if enabled
  pub install_params: Option<InstallParams>,
  /// Default scopes and permissions for each supported installation context. Value for each key is an [integration type configuration object](ApplicationIntegrationTypesConfigValue)
  pub integration_types_config: Option<ApplicationIntegrationTypesConfig>,
  /// The application's default custom authorization link, if enabled
  pub custom_install_url: Option<String>,
}

/// Discord Application Event Webhook Status Enum
#[derive(Clone, Copy, Debug, PartialEq, Eq, Hash, Structural)]
#[allow(non_camel_case_types)]
pub enum ApplicationEventWebhookStatus {
  /// Webhook events are disabled by developer
  DISABLED,
  /// Webhook events are enabled by developer
  ENABLED,
  /// Webhook events are disabled by Discord, usually due to inactivity
  DISABLED_BY_DISCORD,
  /// Application Event Webhook Status that hasn't been implemented yet
  UNKNOWN,
}

impl ApplicationEventWebhookStatus {
    /// The number that Discord uses for this value.
    pub open spec fn spec_code(self) -> u8 {
        match self {
            ApplicationEventWebhookStatus::DISABLED => 1,
            ApplicationEventWebhookStatus::ENABLED => 2,
            ApplicationEventWebhookStatus::DISABLED_BY_DISCORD => 3,
            ApplicationEventWebhookStatus::UNKNOWN => 4,
        }
    }

    /// The value that Discord's number `code` stands for, if any.
    pub open spec fn spec_from_code(code: u8) -> Option<ApplicationEventWebhookStatus> {
        match code {
            1 => Some(ApplicationEventWebhookStatus::DISABLED),
            2 => Some(ApplicationEventWebhookStatus::ENABLED),
            3 => Some(ApplicationEventWebhookStatus::DISABLED_BY_DISCORD),
            4 => Some(ApplicationEventWebhookStatus::UNKNOWN),
            _ => Some(ApplicationEventWebhookStatus::UNKNOWN),
        }
    }

    /// The number that Discord uses for this value.
    pub fn code(&self) -> (r: u8)
        ensures
            r == self.spec_code(),
    {
        match self {
            ApplicationEventWebhookStatus::DISABLED => 1,
            ApplicationEventWebhookStatus::ENABLED => 2,
            ApplicationEventWebhookStatus::DISABLED_BY_DISCORD => 3,
            ApplicationEventWebhookStatus::UNKNOWN => 4,
        }
    }

    /// The value that Discord's number `code` stands for, if any.
    pub fn from_code(code: u8) -> (r: Option<ApplicationEventWebhookStatus>)
        ensures
            r == ApplicationEventWebhookStatus::spec_from_code(code),
    {
        match code {
            1 => Some(ApplicationEventWebhookStatus::DISABLED),
            2 => Some(ApplicationEventWebhookStatus::ENABLED),
            3 => Some(ApplicationEventWebhookStatus::DISABLED_BY_DISCORD),
            4 => Some(ApplicationEventWebhookStatus::UNKNOWN),
            _ => Some(ApplicationEventWebhookStatus::UNKNOWN),
        }
    }
}

/// Discord Integration Types Config Object
#[derive(Clone, Debug)]
pub struct ApplicationIntegrationTypesConfig {
  /// Configuration for [`GUILD_INSTALL`](super::interactions::IntegrationType::GUILD_INSTALL) integrations
  pub guild_install: Option<ApplicationIntegrationTypesConfigValue>,
  /// Configuration for [`USER_INSTALL`](super::interactions::IntegrationType::USER_INSTALL) integrations
  pub user_install: Option<ApplicationIntegrationTypesConfigValue>,
}

/// Discord Integration Types Config Value Object
#[derive(Clone, Debug)]
pub struct ApplicationIntegrationTypesConfigValue {
  /// Install params for each installation context's default in-app authorization link
  pub oauth2_install_params: InstallParams,
}

/// Discord Install Params Object
#[derive(Clone, Debug)]
pub struct InstallParams {
  /// The [scopes](https://discord.com/developers/docs/topics/oauth2#shared-resources-oauth2-scopes) to add the application to the server with
  pub scopes: Vec<String>,
  /// The [permissions](Permissions) to request for the bot role
  pub permissions: Permissions,
}

/// Discord Team Object
#[derive(Clone, Debug)]
pub struct Team {
  /// A hash of the image of the team's icon
  pub icon: Option<String>,
  /// The unique id of the team
  pub id: Snowflake,
  /// The members of the team
  pub members: Vec<TeamMember>,
  /// The name of the team
  pub name: String,
  /// The user id of the current team owner
  pub owner_user_id: Snowflake,
}

/// Discord Team Members Object
#[derive(Clone, Debug)]
pub struct TeamMember {
  /// The user's [membership state](TeamMembershipState) on the team
  pub membership_state: TeamMembershipState,
  /// The id of the parent team of which they are a member
  pub team_id: Snowflake,
  /// The avatar, discriminator, id and username of the user
  pub user: User,
  /// [Role](TeamMemberRole) of the team member
  pub role: TeamMemberRole,
}

/// Discord Team Membership State Enum
#[derive(Clone, Copy, Debug, PartialEq, Eq, Hash, Structural)]
#[allow(non_camel_case_types)]
pub enum TeamMembershipState {
  /// Member has been invited
  INVITED,
  /// Member has accepted invitation
  ACCEPTED,
  /// Membership state that hasn't been implemented yet
  UNKNOWN,
}

impl TeamMembershipState {
    /// The number that Discord uses for this value.
    pub open spec fn spec_code(self) -> u8 {
        match self {
            TeamMembershipState::INVITED => 1,
            TeamMembershipState::ACCEPTED => 2,
            TeamMembershipState::UNKNOWN => 3,
        }
    }

    /// The value that Discord's number `code` stands for, if any.
    pub open spec fn spec_from_code(code: u8) -> Option<TeamMembershipState> {
        match code {
            1 => Some(TeamMembershipState::INVITED),
            2 => Some(TeamMembershipState::ACCEPTED),
            3 => Some(TeamMembershipState::UNKNOWN),
            _ => Some(TeamMembershipState::UNKNOWN),
        }
    }

    /// The number that Discord uses for this value.
    pub fn code(&self) -> (r: u8)
        ensures
            r == self.spec_code(),
    {
        match self {
            TeamMembershipState::INVITED => 1,
            TeamMembershipState::ACCEPTED => 2,
            TeamMembershipState::UNKNOWN => 3,
        }
    }

    /// The value that Discord's number `code` stands for, if any.
    pub fn from_code(code: u8) -> (r: Option<TeamMembershipState>)
        ensures
            r == TeamMembershipState::spec_from_code(code),
    {
        match code {
            1 => Some(TeamMembershipState::INVITED),
            2 => Some(TeamMembershipState::ACCEPTED),
            3 => Some(TeamMembershipState::UNKNOWN),
            _ => Some(TeamMembershipState::UNKNOWN),
        }
    }
}

/// Discord Team Member Role Types
#[derive(Clone, Copy, Debug, PartialEq, Eq, Hash, Structural)]
#[allow(non_camel_case_types)]
pub enum TeamMemberRole {
  /// Admins have similar access as owners, except they cannot take destructive actions on the team or team-owned apps.
  ADMIN,
  /// Developers can access information about team-owned apps, like the client secret or public key. They can also take limited actions on team-owned apps, like configuring interaction endpoints or resetting the bot token. Members with the Developer role cannot manage the team or its members, or take destructive actions on team-owned apps.
  DEVELOPER,
  /// Read-only members can access information about a team and any team-owned apps. Some examples include getting the IDs of applications and exporting payout records. Members can also invite bots associated with team-owned apps that are marked private.
  READ_ONLY,
  /// A team member role that hasn't been implemented yet
  UNKNOWN,
}

/// Bitflags for Discord Application Flags
#[derive(Clone, Copy, Debug, PartialEq, Eq, Hash, Structural)]
pub struct ApplicationFlags {
    bits: u32,
}

impl ApplicationFlags {
    /// The bits of the set.
    pub closed spec fn value(self) -> u32 {
        self.bits
    }

    /// The bits of every flag that this type names.
    pub open spec fn known_bits() -> u32 {
        9433152u32
    }

    /// Indicates if an app uses the [Auto Moderation API](https://discord.com/developers/docs/resources/auto-moderation)
    #[allow(non_snake_case)]
    pub fn APPLICATION_AUTO_MODERATION_RULE_CREATE_BADGE() -> (r: Self)
        ensures
            r.value() == 64u32,
    {
        ApplicationFlags { bits: 64u32 }
    }

    /// Intent required for bots in **100 or more servers** to receive `presence_update` events
    #[allow(non_snake_case)]
    pub fn GATEWAY_PRESENCE() -> (r: Self)
        ensures
            r.value() == 4096u32,
    {
        ApplicationFlags { bits: 4096u32 }
    }

    /// Intent required for bots in under 100 servers to receive `presence_update` events, found in Bot Settings
    #[allow(non_snake_case)]
    pub fn GATEWAY_PRESENCE_LIMITED() -> (r: Self)
        ensures
            r.value() == 8192u32,
    {
        ApplicationFlags { bits: 8192u32 }
    }

    /// Intent required for bots in **100 or more servers** to receive member-related events like `guild_member_add`. See list of member-related events [under `GUILD_MEMBERS`](https://discord.com/developers/docs/topics/gateway#list-of-intents)
    #[allow(non_snake_case)]
    pub fn GATEWAY_GUILD_MEMBERS() -> (r: Self)
        ensures
            r.value() == 16384u32,
    {
        ApplicationFlags { bits: 16384u32 }
    }

    /// Intent required for bots in under 100 servers to receive member-related events like `guild_member_add`, found in Bot Settings. See list of member-related events [under `GUILD_MEMBERS`](https://discord.com/developers/docs/topics/gateway#list-of-intents)
    #[allow(non_snake_case)]
    pub fn GATEWAY_GUILD_MEMBERS_LIMITED() -> (r: Self)
        ensures
            r.value() == 32768u32,
    {
        ApplicationFlags { bits: 32768u32 }
    }

    /// Indicates unusual growth of an app that prevents verification
    #[allow(non_snake_case)]
    pub fn VERIFICATION_PENDING_GUILD_LIMIT() -> (r: Self)
        ensures
            r.value() == 65536u32,
    {
        ApplicationFlags { bits: 65536u32 }
    }

    /// Indicates if an app is embedded within the Discord client (currently unavailable publicly)
    #[allow(non_snake_case)]
    pub fn EMBEDDED() -> (r: Self)
        ensures
            r.value() == 131072u32,
    {
        ApplicationFlags { bits: 131072u32 }
    }

    /// Intent required for bots in **100 or more servers** to receive [message content](https://support-dev.discord.com/hc/en-us/articles/4404772028055)
    #[allow(non_snake_case)]
    pub fn GATEWAY_MESSAGE_CONTENT() -> (r: Self)
        ensures
            r.value() == 262144u32,
    {
        ApplicationFlags { bits: 262144u32 }
    }

    /// Intent required for bots in under 100 servers to receive [message content](https://support-dev.discord.com/hc/en-us/articles/4404772028055), found in Bot Settings
    #[allow(non_snake_case)]
    pub fn GATEWAY_MESSAGE_CONTENT_LIMITED() -> (r: Self)
        ensures
            r.value() == 524288u32,
    {
        ApplicationFlags { bits: 524288u32 }
    }

    /// Indicates if an app has registered global [application commands](super::interactions::ApplicationCommand)
    #[allow(non_snake_case)]
    pub fn APPLICATION_COMMAND_BADGE() -> (r: Self)
        ensures
            r.value() == 8388608u32,
    {
        ApplicationFlags { bits: 8388608u32 }
    }

    /// The empty set.
    pub fn empty() -> (r: Self)
        ensures
            r.value() == 0,
    {
        ApplicationFlags { bits: 0 }
    }

    /// The set of every flag this type names.
    pub fn all() -> (r: Self)
        ensures
            r.value() == Self::known_bits(),
    {
        ApplicationFlags { bits: 9433152u32 }
    }

    /// The bits of the set.
    pub fn bits(&self) -> (r: u32)
        ensures
            r == self.value(),
    {
        self.bits
    }

    /// The set with exactly these bits, known or not.
    pub fn from_bits_retain(bits: u32) -> (r: Self)
        ensures
            r.value() == bits,
    {
        ApplicationFlags { bits }
    }

    /// The set of the known flags among these bits; unknown bits are dropped.
    pub fn from_bits_truncate(bits: u32) -> (r: Self)
        ensures
            r.value() == bits & Self::known_bits(),
    {
        ApplicationFlags { bits: bits & 9433152u32 }
    }

    /// The set with these bits, if every bit is a known flag.
    pub fn from_bits(bits: u32) -> (r: Option<Self>)
        ensures
            r is Some <==> bits & Self::known_bits() == bits,
            r matches Some(f) ==> f.value() == bits,
    {
        if bits & 9433152u32 == bits { Some(ApplicationFlags { bits }) } else { None }
    }

    /// Whether no flag is set.
    pub fn is_empty(&self) -> (r: bool)
        ensures
            r == (self.value() == 0),
    {
        self.bits == 0
    }

    /// Whether every flag of `other` is set in `self`.
    pub fn contains(&self, other: Self) -> (r: bool)
        ensures
            r == (self.value() & other.value() == other.value()),
    {
        self.bits & other.bits == other.bits
    }

    /// Whether `self` and `other` share a flag.
    pub fn intersects(&self, other: Self) -> (r: bool)
        ensures
            r == (self.value() & other.value() != 0),
    {
        self.bits & other.bits != 0
    }

    /// Sets the flags of `other`.
    pub fn insert(&mut self, other: Self)
        ensures
            final(self).value() == old(self).value() | other.value(),
    {
        self.bits = self.bits | other.bits;
    }

    /// Clears the flags of `other`.
    pub fn remove(&mut self, other: Self)
        ensures
            final(self).value() == old(self).value() & !other.value(),
    {
        self.bits = self.bits & !other.bits;
    }

    /// Flips the flags of `other`.
    pub fn toggle(&mut self, other: Self)
        ensures
            final(self).value() == old(self).value() ^ other.value(),
    {
        self.bits = self.bits ^ other.bits;
    }

    /// Sets the flags of `other` when `value` holds, clears them otherwise.
    pub fn set(&mut self, other: Self, value: bool)
        ensures
            final(self).value() == (if value { old(self).value() | other.value() } else { old(self).value() & !other.value() }),
    {
        if value {
            self.insert(other);
        } else {
            self.remove(other);
        }
    }

    /// The flags set in either.
    pub fn union(self, other: Self) -> (r: Self)
        ensures
            r.value() == self.value() | other.value(),
    {
        ApplicationFlags { bits: self.bits | other.bits }
    }

    /// The flags set in both.
    pub fn intersection(self, other: Self) -> (r: Self)
        ensures
            r.value() == self.value() & other.value(),
    {
        ApplicationFlags { bits: self.bits & other.bits }
    }

    /// The flags set in `self` and not in `other`.
    pub fn difference(self, other: Self) -> (r: Self)
        ensures
            r.value() == self.value() & !other.value(),
    {
        ApplicationFlags { bits: self.bits & !other.bits }
    }

    /// The flags set in exactly one of the two.
    pub fn symmetric_difference(self, other: Self) -> (r: Self)
        ensures
            r.value() == self.value() ^ other.value(),
    {
        ApplicationFlags { bits: self.bits ^ other.bits }
    }

    /// The known flags that are not set.
    pub fn complement(self) -> (r: Self)
        ensures
            r.value() == !self.value() & Self::known_bits(),
    {
        ApplicationFlags { bits: !self.bits & 9433152u32 }
    }
}

impl ApplicationEventWebhookStatus {
    /// Discord's number for a value reads back as that value.
    pub proof fn law_code_round_trip(self)
        ensures
            ApplicationEventWebhookStatus::spec_from_code(self.spec_code()) == Some(self),
    {
    }
}

impl TeamMembershipState {
    /// Discord's number for a value reads back as that value.
    pub proof fn law_code_round_trip(self)
        ensures
            TeamMembershipState::spec_from_code(self.spec_code()) == Some(self),
    {
    }
}

} // verus!
