//! Structs related to Discord monetization

use vstd::prelude::*;
use crate::structs::{Snowflake, Timestamp};
use crate::structs::guilds::Guild;
use crate::structs::users::User;

verus! {

/// Discord SKU Object
#[derive(Clone, Debug)]
pub struct SKU {
  /// ID of SKU
  pub id: Snowflake,
  /// [Type of SKU](SKUType)
  pub sku_type: SKUType,
  /// ID of the parent application
  pub application_id: Snowflake,
  /// Customer-facing name of your premium offering
  pub name: String,
  /// System-generated URL slug based on the SKU's name
  pub slug: String,
  /// [SKU flags](SKUFlags) combined as a [bitfield](https://en.wikipedia.org/wiki/Bit_field)
  pub flags: SKUFlags,
}

/// Discord SKU Types
#[derive(Clone, Copy, Debug, PartialEq, Eq, Hash, Structural)]
#[allow(non_camel_case_types)]
pub enum SKUType {
  ///	Represents a recurring subscription
  SUBSCRIPTION,
  /// System-generated group for each SUBSCRIPTION SKU created
  SUBSCRIPTION_GROUP,
  /// An SKU type that hasn't been implemented yet
  UNKNOWN,
}

impl SKUType {
    /// The number that Discord uses for this value.
    pub open spec fn spec_code(self) -> u8 {
        match self {
            SKUType::SUBSCRIPTION => 5,
            SKUType::SUBSCRIPTION_GROUP => 6,
            SKUType::UNKNOWN => 7,
        }
    }

    /// The value that Discord's number `code` stands for, if any.
    pub open spec fn spec_from_code(code: u8) -> Option<SKUType> {
        match code {
            5 => Some(SKUType::SUBSCRIPTION),
            6 => Some(SKUType::SUBSCRIPTION_GROUP),
            7 => Some(SKUType::UNKNOWN),
            _ => None,
        }
    }

    /// The number that Discord uses for this value.
    pub fn code(&self) -> (r: u8)
        ensures
            r == self.spec_code(),
    {
        match self {
            SKUType::SUBSCRIPTION => 5,
            SKUType::SUBSCRIPTION_GROUP => 6,
            SKUType::UNKNOWN => 7,
        }
    }

    /// The value that Discord's number `code` stands for, if any.
    pub fn from_code(code: u8) -> (r: Option<SKUType>)
        ensures
            r == SKUType::spec_from_code(code),
    {
        match code {
            5 => Some(SKUType::SUBSCRIPTION),
            6 => Some(SKUType::SUBSCRIPTION_GROUP),
            7 => Some(SKUType::UNKNOWN),
            _ => None,
        }
    }
}

/// Discord Entitlement Object
#[derive(Clone, Debug)]
pub struct Entitlement {
  /// ID of the entitlement
  pub id: Snowflake,
  /// ID of the SKU
  pub sku_id: Snowflake,
  /// ID of the parent application
  pub application_id: Snowflake,
  /// ID of the user that is granted access to the entitlement's sku
  pub user_id: Option<Snowflake>,
  /// [Type of entitlement](EntitlementType)
  pub entitlement_type: EntitlementType,
  /// Entitlement was deleted
  pub deleted: bool,
  /// Start date at which the entitlement is valid. Not present when using test entitlements.
  pub starts_at: Option<Timestamp>,
  /// Date at which the entitlement is no longer valid. Not present when using test entitlements.
  pub ends_at: Option<Timestamp>,
  /// ID of the guild that is granted access to the entitlement's sku
  pub guild_id: Option<Snowflake>,
}

/// Discord Entitlement Types
#[derive(Clone, Copy, Debug, PartialEq, Eq, Hash, Structural)]
#[allow(non_camel_case_types)]
pub enum EntitlementType {
  /// Entitlement was purchased as an app subscription
  APPLICATION_SUBSCRIPTION,
  /// An entitlement type that hasn't been implemented yet
  UNKNOWN,
}

impl EntitlementType {
    /// The number that Discord uses for this value.
    pub open spec fn spec_code(self) -> u8 {
        match self {
            EntitlementType::APPLICATION_SUBSCRIPTION => 8,
            EntitlementType::UNKNOWN => 9,
        }
    }

    /// The value that Discord's number `code` stands for, if any.
    pub open spec fn spec_from_code(code: u8) -> Option<EntitlementType> {
        match code {
            8 => Some(EntitlementType::APPLICATION_SUBSCRIPTION),
            9 => Some(EntitlementType::UNKNOWN),
            _ => None,
        }
    }

    /// The number that Discord uses for this value.
    pub fn code(&self) -> (r: u8)
        ensures
            r == self.spec_code(),
    {
        match self {
            EntitlementType::APPLICATION_SUBSCRIPTION => 8,
            EntitlementType::UNKNOWN => 9,
        }
    }

    /// The value that Discord's number `code` stands for, if any.
    pub fn from_code(code: u8) -> (r: Option<EntitlementType>)
        ensures
            r == EntitlementType::spec_from_code(code),
    {
        match code {
            8 => Some(EntitlementType::APPLICATION_SUBSCRIPTION),
            9 => Some(EntitlementType::UNKNOWN),
            _ => None,
        }
    }
}

/// Options for fetching entitlements
#[derive(Clone, Debug)]
pub struct ListEntitlementsOptions {
  /// User ID to look up entitlements for
  pub user_id: Option<Snowflake>,
  /// Optional comma-delimited list of SKU IDs to check entitlements for
  pub sku_ids: Option<String>,
  /// Retrieve entitlements before this entitlement ID
  pub before: Option<Snowflake>,
  /// Retrieve entitlements after this entitlement ID
  pub after: Option<Snowflake>,
  /// Number of entitlements to return, 1-100, default 100
  pub limit: Option<i64>,
  /// Guild ID to look up entitlements for
  pub guild_id: Option<Snowflake>,
  /// Whether or not ended entitlements should be omitted
  pub exclude_ended: Option<bool>,
}

/// Options for creating test entitlements
#[derive(Clone, Debug)]
pub struct TestEntitlementOptions {
  /// ID of the SKU to grant the entitlement to
  pub sku_id: Snowflake,
  /// ID of the guild or user to grant the entitlement to
  pub owner_id: Snowflake,
  /// guild subscription or user subscription
  pub owner_type: EntitlementOwnerType,
}

/// Discord Entitlement Owner Types
#[derive(Clone, Copy, Debug, PartialEq, Eq, Hash, Structural)]
pub enum EntitlementOwnerType {
  /// For a guild subscription
  Guild,
  /// For a user subscription
  User,
}

impl EntitlementOwnerType {
    /// The number that Discord uses for this value.
    pub open spec fn spec_code(self) -> u8 {
        match self {
            EntitlementOwnerType::Guild => 1,
            EntitlementOwnerType::User => 2,
        }
    }

    /// The value that Discord's number `code` stands for, if any.
    pub open spec fn spec_from_code(code: u8) -> Option<EntitlementOwnerType> {
        match code {
            1 => Some(EntitlementOwnerType::Guild),
            2 => Some(EntitlementOwnerType::User),
            _ => None,
        }
    }

    /// The number that Discord uses for this value.
    pub fn code(&self) -> (r: u8)
        ensures
            r == self.spec_code(),
    {
        match self {
            EntitlementOwnerType::Guild => 1,
            EntitlementOwnerType::User => 2,
        }
    }

    /// The value that Discord's number `code` stands for, if any.
    pub fn from_code(code: u8) -> (r: Option<EntitlementOwnerType>)
        ensures
            r == EntitlementOwnerType::spec_from_code(code),
    {
        match code {
            1 => Some(EntitlementOwnerType::Guild),
            2 => Some(EntitlementOwnerType::User),
            _ => None,
        }
    }
}

/// Bitflags for Discord Message Flags
#[derive(Clone, Copy, Debug, PartialEq, Eq, Hash, Structural)]
pub struct SKUFlags {
    bits: u32,
}

impl SKUFlags {
    /// The bits of the set.
    pub closed spec fn value(self) -> u32 {
        self.bits
    }

    /// The bits of every flag that this type names.
    pub open spec fn known_bits() -> u32 {
        388u32
    }

    /// SKU is available for purchase
    #[allow(non_snake_case)]
    pub fn AVAILABLE() -> (r: Self)
        ensures
            r.value() == 4u32,
    {
        SKUFlags { bits: 4u32 }
    }

    /// Recurring SKU that can be purchased by a user and applied to a single server. Grants access to every user in that server.
    #[allow(non_snake_case)]
    pub fn GUILD_SUBSCRIPTION() -> (r: Self)
        ensures
            r.value() == 128u32,
    {
        SKUFlags { bits: 128u32 }
    }

    /// Recurring SKU purchased by a user for themselves. Grants access to the purchasing user in every server.
    #[allow(non_snake_case)]
    pub fn USER_SUBSCRIPTION() -> (r: Self)
        ensures
            r.value() == 256u32,
    {
        SKUFlags { bits: 256u32 }
    }

    /// The empty set.
    pub fn empty() -> (r: Self)
        ensures
            r.value() == 0,
    {
        SKUFlags { bits: 0 }
    }

    /// The set of every flag this type names.
    pub fn all() -> (r: Self)
        ensures
            r.value() == Self::known_bits(),
    {
        SKUFlags { bits: 388u32 }
    }

    /// The bits of the set.
    pub fn bits(&self) -> (r: u32)
        ensures
            r == self.value(),
    {
        self.bits
    }

    /// The set with exactly these bits, known or not.
    pub fn from_bits_retain(bits: u32) -> (r: Self)
        ensures
            r.value() == bits,
    {
        SKUFlags { bits }
    }

    /// The set of the known flags among these bits; unknown bits are dropped.
    pub fn from_bits_truncate(bits: u32) -> (r: Self)
        ensures
            r.value() == bits & Self::known_bits(),
    {
        SKUFlags { bits: bits & 388u32 }
    }

    /// The set with these bits, if every bit is a known flag.
    pub fn from_bits(bits: u32) -> (r: Option<Self>)
        ensures
            r is Some <==> bits & Self::known_bits() == bits,
            r matches Some(f) ==> f.value() == bits,
    {
        if bits & 388u32 == bits { Some(SKUFlags { bits }) } else { None }
    }

    /// Whether no flag is set.
    pub fn is_empty(&self) -> (r: bool)
        ensures
            r == (self.value() == 0),
    {
        self.bits == 0
    }

    /// Whether every flag of `other` is set in `self`.
    pub fn contains(&self, other: Self) -> (r: bool)
        ensures
            r == (self.value() & other.value() == other.value()),
    {
        self.bits & other.bits == other.bits
    }

    /// Whether `self` and `other` share a flag.
    pub fn intersects(&self, other: Self) -> (r: bool)
        ensures
            r == (self.value() & other.value() != 0),
    {
        self.bits & other.bits != 0
    }

    /// Sets the flags of `other`.
    pub fn insert(&mut self, other: Self)
        ensures
            final(self).value() == old(self).value() | other.value(),
    {
        self.bits = self.bits | other.bits;
    }

    /// Clears the flags of `other`.
    pub fn remove(&mut self, other: Self)
        ensures
            final(self).value() == old(self).value() & !other.value(),
    {
        self.bits = self.bits & !other.bits;
    }

    /// Flips the flags of `other`.
    pub fn toggle(&mut self, other: Self)
        ensures
            final(self).value() == old(self).value() ^ other.value(),
    {
        self.bits = self.bits ^ other.bits;
    }

    /// Sets the flags of `other` when `value` holds, clears them otherwise.
    pub fn set(&mut self, other: Self, value: bool)
        ensures
            final(self).value() == (if value { old(self).value() | other.value() } else { old(self).value() & !other.value() }),
    {
        if value {
            self.insert(other);
        } else {
            self.remove(other);
        }
    }

    /// The flags set in either.
    pub fn union(self, other: Self) -> (r: Self)
        ensures
            r.value() == self.value() | other.value(),
    {
        SKUFlags { bits: self.bits | other.bits }
    }

    /// The flags set in both.
    pub fn intersection(self, other: Self) -> (r: Self)
        ensures
            r.value() == self.value() & other.value(),
    {
        SKUFlags { bits: self.bits & other.bits }
    }

    /// The flags set in `self` and not in `other`.
    pub fn difference(self, other: Self) -> (r: Self)
        ensures
            r.value() == self.value() & !other.value(),
    {
        SKUFlags { bits: self.bits & !other.bits }
    }

    /// The flags set in exactly one of the two.
    pub fn symmetric_difference(self, other: Self) -> (r: Self)
        ensures
            r.value() == self.value() ^ other.value(),
    {
        SKUFlags { bits: self.bits ^ other.bits }
    }

    /// The known flags that are not set.
    pub fn complement(self) -> (r: Self)
        ensures
            r.value() == !self.value() & Self::known_bits(),
    {
        SKUFlags { bits: !self.bits & 388u32 }
    }
}

impl SKUType {
    /// Discord's number for a value reads back as that value.
    pub proof fn law_code_round_trip(self)
        ensures
            SKUType::spec_from_code(self.spec_code()) == Some(self),
    {
    }
}

impl EntitlementType {
    /// Discord's number for a value reads back as that value.
    pub proof fn law_code_round_trip(self)
        ensures
            EntitlementType::spec_from_code(self.spec_code()) == Some(self),
    {
    }
}

impl EntitlementOwnerType {
    /// Discord's number for a value reads back as that value.
    pub proof fn law_code_round_trip(self)
        ensures
            EntitlementOwnerType::spec_from_code(self.spec_code()) == Some(self),
    {
    }
}

} // verus!
