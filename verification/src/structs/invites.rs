//! Structs related to Discord invites

use vstd::prelude::*;
use crate::keyed::{push_onto, vec_or_empty};
use crate::structs::{Snowflake, Timestamp};
use crate::structs::applications::Application;
use crate::structs::channels::Channel;
use crate::structs::guilds::{Guild, GuildScheduledEvent};
use crate::structs::roles::Role;
use crate::structs::users::User;
use crate::structs::utils::File;
use crate::text::{str_opt, string_of};

verus! {

/// Discord Invite Object
#[derive(Clone, Debug)]
pub struct Invite {
  /// The [type of invite](InviteType)
  pub invite_type: InviteType,
  /// The invite code (unique ID)
  pub code: String,
  /// The guild this invite is for
  pub guild: Option<Guild>,
  /// The channel this invite is for
  pub channel: Option<Channel>,
  /// The user who created the invite
  pub inviter: Option<User>,
  /// The [type of target](TargetType) for this voice channel invite
  pub target_type: Option<TargetType>,
  /// The user whose stream to display for this voice channel stream invite
  pub target_user: Option<User>,
  /// The embedded application to open for this voice channel embedded application invite
  pub target_application: Option<Application>,
  /// Approximate count of online members, returned from the `GET /invites/<code>` endpoint when `with_counts` is `true`
  pub approximate_presence_count: Option<i64>,
  /// Approximate count of total members, returned from the `GET /invites/<code>` endpoint when `with_counts` is `true`
  pub approximate_member_count: Option<i64>,
  /// The expiration date of this invite, returned from the `GET /invites/<code>` endpoint when `with_expiration` is `true`
  pub expires_at: Option<Timestamp>,
  /// Guild scheduled event data, only included if `guild_scheduled_event_id` contains a valid guild scheduled event id
  pub guild_scheduled_event: Option<GuildScheduledEvent>,
  /// [guild invite flags](InviteFlags) for guild invites
  pub flags: Option<InviteFlags>,
  /// The roles assigned to the user upon accepting the invite.
  pub roles: Option<Vec<Role>>,

  // Invite Metadata Extension:

  /// Number of times this invite has been used
  pub uses: Option<i64>,
  /// Max number of times this invite can be used
  pub max_uses: Option<i64>,
  /// Duration (in seconds) after which the invite expires
  pub max_age: Option<i64>,
  /// Whether this invite only grants temporary membership
  pub temporary: Option<bool>,
  /// When this invite was created
  pub created_at: Option<Timestamp>,
}

/// Special partial invite object from [`get_vanity_url`](Guild::get_vanity_url)
#[derive(Clone, Debug)]
pub struct VanityUrlInvite {
  /// The invite code (`None` if vanity url is not set)
  pub code: Option<String>,
  /// Number of times this invite has been used
  pub uses: Option<i64>,
}

/// Discord Invite Types
#[derive(Clone, Copy, Debug, PartialEq, Eq, Hash, Structural)]
#[allow(non_camel_case_types)]
pub enum InviteType {
  /// Guild
  GUILD,
  /// Group DM
  GROUP_DM,
  /// Friend
  FRIEND,
  /// Invite type that hasn't been implemented yet
  UNKNOWN,
}

impl InviteType {
    /// The number that Discord uses for this value.
    pub open spec fn spec_code(self) -> u8 {
        match self {
            InviteType::GUILD => 0,
            InviteType::GROUP_DM => 1,
            InviteType::FRIEND => 2,
            InviteType::UNKNOWN => 3,
        }
    }

    /// The value that Discord's number `code` stands for, if any.
    pub open spec fn spec_from_code(code: u8) -> Option<InviteType> {
        match code {
            0 => Some(InviteType::GUILD),
            1 => Some(InviteType::GROUP_DM),
            2 => Some(InviteType::FRIEND),
            3 => Some(InviteType::UNKNOWN),
            _ => Some(InviteType::UNKNOWN),
        }
    }

    /// The number that Discord uses for this value.
    pub fn code(&self) -> (r: u8)
        ensures
            r == self.spec_code(),
    {
        match self {
            InviteType::GUILD => 0,
            InviteType::GROUP_DM => 1,
            InviteType::FRIEND => 2,
            InviteType::UNKNOWN => 3,
        }
    }

    /// The value that Discord's number `code` stands for, if any.
    pub fn from_code(code: u8) -> (r: Option<InviteType>)
        ensures
            r == InviteType::spec_from_code(code),
    {
        match code {
            0 => Some(InviteType::GUILD),
            1 => Some(InviteType::GROUP_DM),
            2 => Some(InviteType::FRIEND),
            3 => Some(InviteType::UNKNOWN),
            _ => Some(InviteType::UNKNOWN),
        }
    }
}

/// Discord Invite Target Types
#[derive(Clone, Copy, Debug, PartialEq, Eq, Hash, Structural)]
#[allow(non_camel_case_types)]
pub enum TargetType {
  /// Stream target
  STREAM,
  /// Embedded application target
  EMBEDDED_APPLICATION,
  /// Target type that hasn't been implemented yet
  UNKNOWN,
}

impl TargetType {
    /// The number that Discord uses for this value.
    pub open spec fn spec_code(self) -> u8 {
        match self {
            TargetType::STREAM => 1,
            TargetType::EMBEDDED_APPLICATION => 2,
            TargetType::UNKNOWN => 3,
        }
    }

    /// The value that Discord's number `code` stands for, if any.
    pub open spec fn spec_from_code(code: u8) -> Option<TargetType> {
        match code {
            1 => Some(TargetType::STREAM),
            2 => Some(TargetType::EMBEDDED_APPLICATION),
            3 => Some(TargetType::UNKNOWN),
            _ => Some(TargetType::UNKNOWN),
        }
    }

    /// The number that Discord uses for this value.
    pub fn code(&self) -> (r: u8)
        ensures
            r == self.spec_code(),
    {
        match self {
            TargetType::STREAM => 1,
            TargetType::EMBEDDED_APPLICATION => 2,
            TargetType::UNKNOWN => 3,
        }
    }

    /// The value that Discord's number `code` stands for, if any.
    pub fn from_code(code: u8) -> (r: Option<TargetType>)
        ensures
            r == TargetType::spec_from_code(code),
    {
        match code {
            1 => Some(TargetType::STREAM),
            2 => Some(TargetType::EMBEDDED_APPLICATION),
            3 => Some(TargetType::UNKNOWN),
            _ => Some(TargetType::UNKNOWN),
        }
    }
}

/// Parameters for creating an invite with [`create_invite`](Channel::create_invite)
#[derive(Clone, Debug)]
pub struct CreateInviteOptions {
  /// Duration of invite in seconds before expiry, or 0 for never. between 0 and 604800 (7 days). Defaults to 86400 (24 hours)
  pub max_age: Option<i64>,
  /// Max number of uses or 0 for unlimited. between 0 and 100. Default to 0
  pub max_uses: Option<i64>,
  /// Whether this invite only grants temporary membership. Defaults to false
  pub temporary: Option<bool>,
  /// If true, don't try to reuse a similar invite (useful for creating many unique one time use invites). Defaults to false
  pub unique: Option<bool>,
  /// The [type of target](TargetType) for this voice channel invite.
  pub target_type: Option<TargetType>,
  /// The id of the user whose stream to display for this invite, required if `target_type` is `STREAM`, the user must be streaming in the channel
  pub target_user_id: Option<Snowflake>,
  /// The id of the embedded application to open for this invite, required if `target_type` is `EMBEDDED_APPLICATION`, the application must have the `EMBEDDED` flag
  pub target_application_id: Option<Snowflake>,
  /// A csv file with a single column of user IDs for all the users able to accept this invite
  pub target_users_file: Option<File>,
  /// The role ID(s) for roles in the guild given to the users that accept this invite
  pub role_ids: Option<Vec<Snowflake>>,
}

/// Response from [`get_target_users_job_status`](Invite::get_target_users_job_status)
#[derive(Clone, Debug)]
pub struct InviteTargetUsersJobStatus {
  /// Status of the job
  pub status: InviteTargetUsersJobStatusCode,
  /// Total users specified
  pub total_users: i64,
  /// Amount of users that have been processed
  pub processed_users: i64,
  /// Date the job was created
  pub created_at: Timestamp,
  /// Date the job was completed
  pub completed_at: Option<Timestamp>,
  /// Error message from the job
  pub error_message: Option<String>,
}

/// Discord Invite Target Users Job Status Codes
#[derive(Clone, Copy, Debug, PartialEq, Eq, Hash, Structural)]
#[allow(non_camel_case_types)]
pub enum InviteTargetUsersJobStatusCode {
  /// The default value.
  UNSPECIFIED,
  /// The job is still being processed.
  PROCESSING,
  /// The job has been completed successfully.
  COMPLETED,
  /// The job has failed, see `error_message` field for more details.
  FAILED,
  /// Status code that hasn't been implemented yet
  UNKNOWN,
}

impl InviteTargetUsersJobStatusCode {
    /// The number that Discord uses for this value.
    pub open spec fn spec_code(self) -> u8 {
        match self {
            InviteTargetUsersJobStatusCode::UNSPECIFIED => 0,
            InviteTargetUsersJobStatusCode::PROCESSING => 1,
            InviteTargetUsersJobStatusCode::COMPLETED => 2,
            InviteTargetUsersJobStatusCode::FAILED => 3,
            InviteTargetUsersJobStatusCode::UNKNOWN => 4,
        }
    }

    /// The value that Discord's number `code` stands for, if any.
    pub open spec fn spec_from_code(code: u8) -> Option<InviteTargetUsersJobStatusCode> {
        match code {
            0 => Some(InviteTargetUsersJobStatusCode::UNSPECIFIED),
            1 => Some(InviteTargetUsersJobStatusCode::PROCESSING),
            2 => Some(InviteTargetUsersJobStatusCode::COMPLETED),
            3 => Some(InviteTargetUsersJobStatusCode::FAILED),
            4 => Some(InviteTargetUsersJobStatusCode::UNKNOWN),
            _ => Some(InviteTargetUsersJobStatusCode::UNKNOWN),
        }
    }

    /// The number that Discord uses for this value.
    pub fn code(&self) -> (r: u8)
        ensures
            r == self.spec_code(),
    {
        match self {
            InviteTargetUsersJobStatusCode::UNSPECIFIED => 0,
            InviteTargetUsersJobStatusCode::PROCESSING => 1,
            InviteTargetUsersJobStatusCode::COMPLETED => 2,
            InviteTargetUsersJobStatusCode::FAILED => 3,
            InviteTargetUsersJobStatusCode::UNKNOWN => 4,
        }
    }

    /// The value that Discord's number `code` stands for, if any.
    pub fn from_code(code: u8) -> (r: Option<InviteTargetUsersJobStatusCode>)
        ensures
            r == InviteTargetUsersJobStatusCode::spec_from_code(code),
    {
        match code {
            0 => Some(InviteTargetUsersJobStatusCode::UNSPECIFIED),
            1 => Some(InviteTargetUsersJobStatusCode::PROCESSING),
            2 => Some(InviteTargetUsersJobStatusCode::COMPLETED),
            3 => Some(InviteTargetUsersJobStatusCode::FAILED),
            4 => Some(InviteTargetUsersJobStatusCode::UNKNOWN),
            _ => Some(InviteTargetUsersJobStatusCode::UNKNOWN),
        }
    }
}

/// Bitflags for Discord Invite Flags
#[derive(Clone, Copy, Debug, PartialEq, Eq, Hash, Structural)]
pub struct InviteFlags {
    bits: u32,
}

impl InviteFlags {
    /// The bits of the set.
    pub closed spec fn value(self) -> u32 {
        self.bits
    }

    /// The bits of every flag that this type names.
    pub open spec fn known_bits() -> u32 {
        1u32
    }

    /// This invite is a guest invite for a voice channel
    #[allow(non_snake_case)]
    pub fn IS_GUEST_INVITE() -> (r: Self)
        ensures
            r.value() == 1u32,
    {
        InviteFlags { bits: 1u32 }
    }

    /// The empty set.
    pub fn empty() -> (r: Self)
        ensures
            r.value() == 0,
    {
        InviteFlags { bits: 0 }
    }

    /// The set of every flag this type names.
    pub fn all() -> (r: Self)
        ensures
            r.value() == Self::known_bits(),
    {
        InviteFlags { bits: 1u32 }
    }

    /// The bits of the set.
    pub fn bits(&self) -> (r: u32)
        ensures
            r == self.value(),
    {
        self.bits
    }

    /// The set with exactly these bits, known or not.
    pub fn from_bits_retain(bits: u32) -> (r: Self)
        ensures
            r.value() == bits,
    {
        InviteFlags { bits }
    }

    /// The set of the known flags among these bits; unknown bits are dropped.
    pub fn from_bits_truncate(bits: u32) -> (r: Self)
        ensures
            r.value() == bits & Self::known_bits(),
    {
        InviteFlags { bits: bits & 1u32 }
    }

    /// The set with these bits, if every bit is a known flag.
    pub fn from_bits(bits: u32) -> (r: Option<Self>)
        ensures
            r is Some <==> bits & Self::known_bits() == bits,
            r matches Some(f) ==> f.value() == bits,
    {
        if bits & 1u32 == bits { Some(InviteFlags { bits }) } else { None }
    }

    /// Whether no flag is set.
    pub fn is_empty(&self) -> (r: bool)
        ensures
            r == (self.value() == 0),
    {
        self.bits == 0
    }

    /// Whether every flag of `other` is set in `self`.
    pub fn contains(&self, other: Self) -> (r: bool)
        ensures
            r == (self.value() & other.value() == other.value()),
    {
        self.bits & other.bits == other.bits
    }

    /// Whether `self` and `other` share a flag.
    pub fn intersects(&self, other: Self) -> (r: bool)
        ensures
            r == (self.value() & other.value() != 0),
    {
        self.bits & other.bits != 0
    }

    /// Sets the flags of `other`.
    pub fn insert(&mut self, other: Self)
        ensures
            final(self).value() == old(self).value() | other.value(),
    {
        self.bits = self.bits | other.bits;
    }

    /// Clears the flags of `other`.
    pub fn remove(&mut self, other: Self)
        ensures
            final(self).value() == old(self).value() & !other.value(),
    {
        self.bits = self.bits & !other.bits;
    }

    /// Flips the flags of `other`.
    pub fn toggle(&mut self, other: Self)
        ensures
            final(self).value() == old(self).value() ^ other.value(),
    {
        self.bits = self.bits ^ other.bits;
    }

    /// Sets the flags of `other` when `value` holds, clears them otherwise.
    pub fn set(&mut self, other: Self, value: bool)
        ensures
            final(self).value() == (if value { old(self).value() | other.value() } else { old(self).value() & !other.value() }),
    {
        if value {
            self.insert(other);
        } else {
            self.remove(other);
        }
    }

    /// The flags set in either.
    pub fn union(self, other: Self) -> (r: Self)
        ensures
            r.value() == self.value() | other.value(),
    {
        InviteFlags { bits: self.bits | other.bits }
    }

    /// The flags set in both.
    pub fn intersection(self, other: Self) -> (r: Self)
        ensures
            r.value() == self.value() & other.value(),
    {
        InviteFlags { bits: self.bits & other.bits }
    }

    /// The flags set in `self` and not in `other`.
    pub fn difference(self, other: Self) -> (r: Self)
        ensures
            r.value() == self.value() & !other.value(),
    {
        InviteFlags { bits: self.bits & !other.bits }
    }

    /// The flags set in exactly one of the two.
    pub fn symmetric_difference(self, other: Self) -> (r: Self)
        ensures
            r.value() == self.value() ^ other.value(),
    {
        InviteFlags { bits: self.bits ^ other.bits }
    }

    /// The known flags that are not set.
    pub fn complement(self) -> (r: Self)
        ensures
            r.value() == !self.value() & Self::known_bits(),
    {
        InviteFlags { bits: !self.bits & 1u32 }
    }
}

impl CreateInviteOptions {
    /// Creates a new empty `CreateInviteOptions`
    pub fn new() -> (r: CreateInviteOptions)
        ensures
            r.max_age is None,
            r.max_uses is None,
            r.temporary is None,
            r.unique is None,
            r.target_type is None,
            r.target_user_id is None,
            r.target_application_id is None,
            r.target_users_file is None,
            r.role_ids is None,
    {
        CreateInviteOptions { max_age: None, max_uses: None, temporary: None, unique: None, target_type: None, target_user_id: None, target_application_id: None, target_users_file: None, role_ids: None }
    }

    /// Sets the max age
    pub fn set_max_age(self, max_age: i64) -> (r: CreateInviteOptions)
        ensures
            r == (CreateInviteOptions { max_age: Some(max_age), ..self }),
    {
        CreateInviteOptions { max_age: Some(max_age), ..self }
    }

    /// Sets the max uses
    pub fn set_max_uses(self, max_uses: i64) -> (r: CreateInviteOptions)
        ensures
            r == (CreateInviteOptions { max_uses: Some(max_uses), ..self }),
    {
        CreateInviteOptions { max_uses: Some(max_uses), ..self }
    }

    /// Sets temporary
    pub fn set_temporary(self, temporary: bool) -> (r: CreateInviteOptions)
        ensures
            r == (CreateInviteOptions { temporary: Some(temporary), ..self }),
    {
        CreateInviteOptions { temporary: Some(temporary), ..self }
    }

    /// Sets unique
    pub fn set_unique(self, unique: bool) -> (r: CreateInviteOptions)
        ensures
            r == (CreateInviteOptions { unique: Some(unique), ..self }),
    {
        CreateInviteOptions { unique: Some(unique), ..self }
    }

    /// Sets the target type
    pub fn set_target_type(self, target_type: TargetType) -> (r: CreateInviteOptions)
        ensures
            r == (CreateInviteOptions { target_type: Some(target_type), ..self }),
    {
        CreateInviteOptions { target_type: Some(target_type), ..self }
    }

    /// Sets the target user id
    pub fn set_target_user_id(self, target: &str) -> (r: CreateInviteOptions)
        ensures
            str_opt(r.target_user_id, target@),
            r == (CreateInviteOptions { target_user_id: r.target_user_id, ..self }),
    {
        CreateInviteOptions { target_user_id: Some(string_of(target)), ..self }
    }

    /// Sets the target application id
    pub fn set_target_application_id(self, target: &str) -> (r: CreateInviteOptions)
        ensures
            str_opt(r.target_application_id, target@),
            r == (CreateInviteOptions { target_application_id: r.target_application_id, ..self }),
    {
        CreateInviteOptions { target_application_id: Some(string_of(target)), ..self }
    }

    /// Sets the target users file
    pub fn set_target_users_file(self, file: File) -> (r: CreateInviteOptions)
        ensures
            r == (CreateInviteOptions { target_users_file: Some(file), ..self }),
    {
        CreateInviteOptions { target_users_file: Some(file), ..self }
    }

    /// Adds a role id
    pub fn add_role_id(self, role_id: &str) -> (r: CreateInviteOptions)
        ensures
            r.role_ids matches Some(v) && v@.len() == vec_or_empty(self.role_ids).len() + 1 && v@.drop_last() == vec_or_empty(self.role_ids) && v@.last()@ == role_id@,
            r == (CreateInviteOptions { role_ids: r.role_ids, ..self }),
    {
        CreateInviteOptions { role_ids: Some(push_onto(self.role_ids, string_of(role_id))), ..self }
    }

    /// Sets the role ids
    pub fn set_role_ids(self, role_ids: Vec<String>) -> (r: CreateInviteOptions)
        ensures
            r == (CreateInviteOptions { role_ids: Some(role_ids), ..self }),
    {
        CreateInviteOptions { role_ids: Some(role_ids), ..self }
    }
}

impl InviteType {
    /// Discord's number for a value reads back as that value.
    pub proof fn law_code_round_trip(self)
        ensures
            InviteType::spec_from_code(self.spec_code()) == Some(self),
    {
    }
}

impl TargetType {
    /// Discord's number for a value reads back as that value.
    pub proof fn law_code_round_trip(self)
        ensures
            TargetType::spec_from_code(self.spec_code()) == Some(self),
    {
    }
}

impl InviteTargetUsersJobStatusCode {
    /// Discord's number for a value reads back as that value.
    pub proof fn law_code_round_trip(self)
        ensures
            InviteTargetUsersJobStatusCode::spec_from_code(self.spec_code()) == Some(self),
    {
    }
}

} // verus!
