//! Structs related to Discord events

use vstd::prelude::*;
use crate::structs::{Snowflake, Timestamp};
use crate::structs::guilds::Guild;
use crate::structs::interactions::IntegrationType;
use crate::structs::json::JsonValue;
use crate::structs::monetization::Entitlement;
use crate::structs::users::User;

verus! {

/// Discord Event Payload Object
#[derive(Clone, Debug)]
pub struct EventPayload {
  /// Version scheme for the webhook event. Currently always `1`
  pub version: u8,
  /// ID of your app
  pub application_id: Snowflake,
  /// Type of webhook, either `0` for PING or `1` for webhook events
  pub webhook_type: EventWebhookType,
  /// Event data payload
  pub event: Option<EventBody>,
}

/// Discord Event Webhook Types
#[derive(Clone, Copy, Debug, PartialEq, Eq, Hash, Structural)]
#[allow(non_camel_case_types)]
pub enum EventWebhookType {
  /// PING event sent to verify your Webhook Event URL is active
  PING,
  /// Webhook event (details for event in [event body](EventBody) object)
  EVENT,
  /// A webhook event type that hasn't been implemented yet
  UNKNOWN,
}

impl EventWebhookType {
    /// The number that Discord uses for this value.
    pub open spec fn spec_code(self) -> u8 {
        match self {
            EventWebhookType::PING => 0,
            EventWebhookType::EVENT => 1,
            EventWebhookType::UNKNOWN => 2,
        }
    }

    /// The value that Discord's number `code` stands for, if any.
    pub open spec fn spec_from_code(code: u8) -> Option<EventWebhookType> {
        match code {
            0 => Some(EventWebhookType::PING),
            1 => Some(EventWebhookType::EVENT),
            2 => Some(EventWebhookType::UNKNOWN),
            _ => Some(EventWebhookType::UNKNOWN),
        }
    }

    /// The number that Discord uses for this value.
    pub fn code(&self) -> (r: u8)
        ensures
            r == self.spec_code(),
    {
        match self {
            EventWebhookType::PING => 0,
            EventWebhookType::EVENT => 1,
            EventWebhookType::UNKNOWN => 2,
        }
    }

    /// The value that Discord's number `code` stands for, if any.
    pub fn from_code(code: u8) -> (r: Option<EventWebhookType>)
        ensures
            r == EventWebhookType::spec_from_code(code),
    {
        match code {
            0 => Some(EventWebhookType::PING),
            1 => Some(EventWebhookType::EVENT),
            2 => Some(EventWebhookType::UNKNOWN),
            _ => Some(EventWebhookType::UNKNOWN),
        }
    }
}

/// Discord Event Body Object
#[derive(Clone, Debug)]
pub struct EventBody {
  /// [Event type](EventType)
  pub event_type: EventType,
  /// Timestamp of when the event occurred in [ISO8601 format](https://discord.com/developers/docs/reference#iso8601-datetime)
  pub timestamp: Timestamp,
  /// Data for the event. The shape depends on the [event type](EventType)
  pub data: Option<EventData>,
}

/// Discord Event Types
#[derive(Clone, Copy, Debug, PartialEq, Eq, Hash, Structural)]
#[allow(non_camel_case_types)]
pub enum EventType {
  /// Sent when an app was authorized by a user to a server or their account
  APPLICATION_AUTHORIZED,
  /// Entitlement was created
  ENTITLEMENT_CREATE,
  /// User was added to a Quest (currently unavailable)
  QUEST_USER_ENROLLMENT,
  /// An event type that hasn't been implemented yet
  UNKNOWN,
}

/// Discord Event Data
#[derive(Clone, Debug)]
pub enum EventData {
  /// Sent when an app was authorized by a user to a server or their account
  ApplicationAuthorized(Box<ApplicationAuthorizedEventData>),
  /// Entitlement was created
  EntitlementCreate(Entitlement),
  /// User was added to a Quest (currently unavailable)
  QuestUserEnrollment(JsonValue),
  /// An event type that hasn't been implemented yet
  Unknown(JsonValue),
}

/// Discord Application Authorized Event Data Object
#[derive(Clone, Debug)]
pub struct ApplicationAuthorizedEventData {
  /// [Installation context](IntegrationType) for the authorization. Either guild ([`GUILD_INSTALL`](IntegrationType::GUILD_INSTALL)) if installed to a server or user ([`USER_INSTALL`](IntegrationType::USER_INSTALL)) if installed to a user's account
  pub integration_type: IntegrationType,
  /// User who authorized the app
  pub user: User,
  /// List of [scopes](https://discord.com/developers/docs/topics/oauth2#shared-resources-oauth2-scopes) the user authorized
  pub scopes: Vec<String>,
  /// Server which app was authorized for (when integration type is [`GUILD_INSTALL`](IntegrationType::GUILD_INSTALL))
  pub guild: Option<Guild>,
}

impl EventWebhookType {
    /// Discord's number for a value reads back as that value.
    pub proof fn law_code_round_trip(self)
        ensures
            EventWebhookType::spec_from_code(self.spec_code()) == Some(self),
    {
    }
}

} // verus!
