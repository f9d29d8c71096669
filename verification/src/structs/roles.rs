//! Structs related to Discord roles

use vstd::prelude::*;
use crate::structs::{Permissions, Snowflake};
use crate::structs::utils::Color;
use crate::text::{opt_str_view, opt_string, opt_view, str_opt, string_of};

verus! {

/// Discord Role Object
#[derive(Clone, Debug)]
pub struct Role {
  /// Role id
  pub id: Snowflake,
  /// Role name
  pub name: String,
  /// The role's colors
  pub colors: RoleColors,
  /// If this role is pinned in the user listing
  pub hoist: bool,
  /// Role [icon hash](https://discord.com/developers/docs/reference#image-formatting)
  pub icon: Option<String>,
  /// Role unicode emoji
  pub unicode_emoji: Option<String>,
  /// Position of this role
  pub position: i64,
  /// Permission bit set
  pub permissions: Permissions,
  /// Whether this role is managed by an integration
  pub managed: bool,
  /// Whether this role is mentionable
  pub mentionable: bool,
  /// The tags this role has
  pub tags: Option<RoleTags>,
  /// [Role flags](RoleFlags) combined as a [bitfield](https://en.wikipedia.org/wiki/Bit_field)
  pub flags: RoleFlags,
}

/// Discord Role Colors Object
#[derive(Clone, Debug)]
pub struct RoleColors {
  /// The primary color for the role
  pub primary_color: Color,
  /// The secondary color for the role, this will make the role a gradient between the other provided colors. Can only be set if the guild has the feature `ENHANCED_ROLE_COLORS`
  pub secondary_color: Option<Color>,
  /// The tertiary color for the role, this will turn the gradient into a holographic style. Can only be set if the guild has the feature `ENHANCED_ROLE_COLORS`
  pub tertiary_color: Option<Color>,
}

/// Discord Role Tags Object
#[derive(Clone, Debug)]
pub struct RoleTags {
  /// The id of the bot this role belongs to
  pub bot_id: Option<Snowflake>,
  /// The id of the integration this role belongs to
  pub integration_id: Option<Snowflake>,
  /// Whether this is the guild's Booster role
  pub premium_subscriber: bool,
  /// The id of this role's subscription sku and listing
  pub subscription_listing_id: Option<Snowflake>,
  /// Whether this role is available for purchase
  pub available_for_purchase: bool,
  /// Whether this role is a guild's linked role
  pub guild_connections: bool,
}

/// Options for creating a role with [`Role::create`]
#[derive(Clone, Debug)]
pub struct RoleCreateOptions {
  /// Name of the role, max 100 characters
  pub name: Option<String>,
  /// Bitwise value of the enabled/disabled permissions
  pub permissions: Option<Permissions>,
  /// The role’s colors
  pub colors: Option<RoleColors>,
  /// Whether the role should be displayed separately in the sidebar
  pub hoist: Option<bool>,
  /// The role’s icon image (if the guild has the `ROLE_ICONS` feature)
  pub icon: Option<String>,
  /// The role’s unicode emoji as a standard emoji (if the guild has the `ROLE_ICONS` feature)
  pub unicode_emoji: Option<String>,
  /// Whether the role should be mentionable
  pub mentionable: Option<bool>,
}

/// Options for modifying a role with [`Role::modify`]
#[derive(Clone, Debug)]
pub struct RoleModifyOptions {
  /// Name of the role, max 100 characters
  pub name: Option<Option<String>>,
  /// Bitwise value of the enabled/disabled permissions
  pub permissions: Option<Option<Permissions>>,
  /// The role’s colors
  pub colors: Option<Option<RoleColors>>,
  /// Whether the role should be displayed separately in the sidebar
  pub hoist: Option<Option<bool>>,
  /// The role’s icon image (if the guild has the `ROLE_ICONS` feature)
  pub icon: Option<Option<String>>,
  /// The role’s unicode emoji as a standard emoji (if the guild has the `ROLE_ICONS` feature)
  pub unicode_emoji: Option<Option<String>>,
  /// Whether the role should be mentionable
  pub mentionable: Option<Option<bool>>,
}

/// Discord Role Flags
#[derive(Clone, Copy, Debug, PartialEq, Eq, Hash, Structural)]
pub struct RoleFlags {
    bits: u32,
}

impl RoleFlags {
    /// The bits of the set.
    pub closed spec fn value(self) -> u32 {
        self.bits
    }

    /// The bits of every flag that this type names.
    pub open spec fn known_bits() -> u32 {
        1u32
    }

    /// Role can be selected by members in an [onboarding](https://discord.com/developers/docs/resources/guild#guild-onboarding-object) prompt
    #[allow(non_snake_case)]
    pub fn IN_PROMPT() -> (r: Self)
        ensures
            r.value() == 1u32,
    {
        RoleFlags { bits: 1u32 }
    }

    /// The empty set.
    pub fn empty() -> (r: Self)
        ensures
            r.value() == 0,
    {
        RoleFlags { bits: 0 }
    }

    /// The set of every flag this type names.
    pub fn all() -> (r: Self)
        ensures
            r.value() == Self::known_bits(),
    {
        RoleFlags { bits: 1u32 }
    }

    /// The bits of the set.
    pub fn bits(&self) -> (r: u32)
        ensures
            r == self.value(),
    {
        self.bits
    }

    /// The set with exactly these bits, known or not.
    pub fn from_bits_retain(bits: u32) -> (r: Self)
        ensures
            r.value() == bits,
    {
        RoleFlags { bits }
    }

    /// The set of the known flags among these bits; unknown bits are dropped.
    pub fn from_bits_truncate(bits: u32) -> (r: Self)
        ensures
            r.value() == bits & Self::known_bits(),
    {
        RoleFlags { bits: bits & 1u32 }
    }

    /// The set with these bits, if every bit is a known flag.
    pub fn from_bits(bits: u32) -> (r: Option<Self>)
        ensures
            r is Some <==> bits & Self::known_bits() == bits,
            r matches Some(f) ==> f.value() == bits,
    {
        if bits & 1u32 == bits { Some(RoleFlags { bits }) } else { None }
    }

    /// Whether no flag is set.
    pub fn is_empty(&self) -> (r: bool)
        ensures
            r == (self.value() == 0),
    {
        self.bits == 0
    }

    /// Whether every flag of `other` is set in `self`.
    pub fn contains(&self, other: Self) -> (r: bool)
        ensures
            r == (self.value() & other.value() == other.value()),
    {
        self.bits & other.bits == other.bits
    }

    /// Whether `self` and `other` share a flag.
    pub fn intersects(&self, other: Self) -> (r: bool)
        ensures
            r == (self.value() & other.value() != 0),
    {
        self.bits & other.bits != 0
    }

    /// Sets the flags of `other`.
    pub fn insert(&mut self, other: Self)
        ensures
            final(self).value() == old(self).value() | other.value(),
    {
        self.bits = self.bits | other.bits;
    }

    /// Clears the flags of `other`.
    pub fn remove(&mut self, other: Self)
        ensures
            final(self).value() == old(self).value() & !other.value(),
    {
        self.bits = self.bits & !other.bits;
    }

    /// Flips the flags of `other`.
    pub fn toggle(&mut self, other: Self)
        ensures
            final(self).value() == old(self).value() ^ other.value(),
    {
        self.bits = self.bits ^ other.bits;
    }

    /// Sets the flags of `other` when `value` holds, clears them otherwise.
    pub fn set(&mut self, other: Self, value: bool)
        ensures
            final(self).value() == (if value { old(self).value() | other.value() } else { old(self).value() & !other.value() }),
    {
        if value {
            self.insert(other);
        } else {
            self.remove(other);
        }
    }

    /// The flags set in either.
    pub fn union(self, other: Self) -> (r: Self)
        ensures
            r.value() == self.value() | other.value(),
    {
        RoleFlags { bits: self.bits | other.bits }
    }

    /// The flags set in both.
    pub fn intersection(self, other: Self) -> (r: Self)
        ensures
            r.value() == self.value() & other.value(),
    {
        RoleFlags { bits: self.bits & other.bits }
    }

    /// The flags set in `self` and not in `other`.
    pub fn difference(self, other: Self) -> (r: Self)
        ensures
            r.value() == self.value() & !other.value(),
    {
        RoleFlags { bits: self.bits & !other.bits }
    }

    /// The flags set in exactly one of the two.
    pub fn symmetric_difference(self, other: Self) -> (r: Self)
        ensures
            r.value() == self.value() ^ other.value(),
    {
        RoleFlags { bits: self.bits ^ other.bits }
    }

    /// The known flags that are not set.
    pub fn complement(self) -> (r: Self)
        ensures
            r.value() == !self.value() & Self::known_bits(),
    {
        RoleFlags { bits: !self.bits & 1u32 }
    }
}

impl RoleColors {
    /// Set the primary color
    pub fn set_primary_color(self, color: Color) -> (r: RoleColors)
        ensures
            r == (RoleColors { primary_color: color, ..self }),
    {
        RoleColors { primary_color: color, ..self }
    }

    /// Set the secondary color
    pub fn set_secondary_color(self, color: Color) -> (r: RoleColors)
        ensures
            r == (RoleColors { secondary_color: Some(color), ..self }),
    {
        RoleColors { secondary_color: Some(color), ..self }
    }

    /// Set the tertiary color
    pub fn set_tertiary_color(self, color: Color) -> (r: RoleColors)
        ensures
            r == (RoleColors { tertiary_color: Some(color), ..self }),
    {
        RoleColors { tertiary_color: Some(color), ..self }
    }
}

impl RoleCreateOptions {
    /// Creates a new empty `RoleCreateOptions`
    pub fn new() -> (r: RoleCreateOptions)
        ensures
            r.name is None,
            r.permissions is None,
            r.colors is None,
            r.hoist is None,
            r.icon is None,
            r.unicode_emoji is None,
            r.mentionable is None,
    {
        RoleCreateOptions { name: None, permissions: None, colors: None, hoist: None, icon: None, unicode_emoji: None, mentionable: None }
    }

    /// Set the name
    pub fn set_name(self, name: &str) -> (r: RoleCreateOptions)
        ensures
            str_opt(r.name, name@),
            r == (RoleCreateOptions { name: r.name, ..self }),
    {
        RoleCreateOptions { name: Some(string_of(name)), ..self }
    }

    /// Set the permissions
    pub fn set_permissions(self, permissions: Permissions) -> (r: RoleCreateOptions)
        ensures
            r == (RoleCreateOptions { permissions: Some(permissions), ..self }),
    {
        RoleCreateOptions { permissions: Some(permissions), ..self }
    }

    /// Set the colors
    pub fn set_colors(self, colors: RoleColors) -> (r: RoleCreateOptions)
        ensures
            r == (RoleCreateOptions { colors: Some(colors), ..self }),
    {
        RoleCreateOptions { colors: Some(colors), ..self }
    }

    /// Set hoist
    pub fn set_hoist(self, hoist: bool) -> (r: RoleCreateOptions)
        ensures
            r == (RoleCreateOptions { hoist: Some(hoist), ..self }),
    {
        RoleCreateOptions { hoist: Some(hoist), ..self }
    }

    /// Set the icon
    pub fn set_icon(self, icon: &str) -> (r: RoleCreateOptions)
        ensures
            str_opt(r.icon, icon@),
            r == (RoleCreateOptions { icon: r.icon, ..self }),
    {
        RoleCreateOptions { icon: Some(string_of(icon)), ..self }
    }

    /// Set the unicode emoji
    pub fn set_unicode_emoji(self, unicode_emoji: &str) -> (r: RoleCreateOptions)
        ensures
            str_opt(r.unicode_emoji, unicode_emoji@),
            r == (RoleCreateOptions { unicode_emoji: r.unicode_emoji, ..self }),
    {
        RoleCreateOptions { unicode_emoji: Some(string_of(unicode_emoji)), ..self }
    }

    /// Set mentionable
    pub fn set_mentionable(self, mentionable: bool) -> (r: RoleCreateOptions)
        ensures
            r == (RoleCreateOptions { mentionable: Some(mentionable), ..self }),
    {
        RoleCreateOptions { mentionable: Some(mentionable), ..self }
    }
}

impl RoleModifyOptions {
    /// Creates a new empty `RoleModifyOptions`
    pub fn new() -> (r: RoleModifyOptions)
        ensures
            r.name is None,
            r.permissions is None,
            r.colors is None,
            r.hoist is None,
            r.icon is None,
            r.unicode_emoji is None,
            r.mentionable is None,
    {
        RoleModifyOptions { name: None, permissions: None, colors: None, hoist: None, icon: None, unicode_emoji: None, mentionable: None }
    }

    /// Set the name
    pub fn set_name(self, name: Option<&str>) -> (r: RoleModifyOptions)
        ensures
            r.name matches Some(inner) && opt_view(inner) == opt_str_view(name),
            r == (RoleModifyOptions { name: r.name, ..self }),
    {
        RoleModifyOptions { name: Some(opt_string(name)), ..self }
    }

    /// Set the permissions
    pub fn set_permissions(self, permissions: Option<Permissions>) -> (r: RoleModifyOptions)
        ensures
            r == (RoleModifyOptions { permissions: Some(permissions), ..self }),
    {
        RoleModifyOptions { permissions: Some(permissions), ..self }
    }

    /// Set the colors
    pub fn set_colors(self, colors: Option<RoleColors>) -> (r: RoleModifyOptions)
        ensures
            r == (RoleModifyOptions { colors: Some(colors), ..self }),
    {
        RoleModifyOptions { colors: Some(colors), ..self }
    }

    /// Set hoist
    pub fn set_hoist(self, hoist: Option<bool>) -> (r: RoleModifyOptions)
        ensures
            r == (RoleModifyOptions { hoist: Some(hoist), ..self }),
    {
        RoleModifyOptions { hoist: Some(hoist), ..self }
    }

    /// Set the icon
    pub fn set_icon(self, icon: Option<&str>) -> (r: RoleModifyOptions)
        ensures
            r.icon matches Some(inner) && opt_view(inner) == opt_str_view(icon),
            r == (RoleModifyOptions { icon: r.icon, ..self }),
    {
        RoleModifyOptions { icon: Some(opt_string(icon)), ..self }
    }

    /// Set the unicode emoji
    pub fn set_unicode_emoji(self, unicode_emoji: Option<&str>) -> (r: RoleModifyOptions)
        ensures
            r.unicode_emoji matches Some(inner) && opt_view(inner) == opt_str_view(unicode_emoji),
            r == (RoleModifyOptions { unicode_emoji: r.unicode_emoji, ..self }),
    {
        RoleModifyOptions { unicode_emoji: Some(opt_string(unicode_emoji)), ..self }
    }

    /// Set mentionable
    pub fn set_mentionable(self, mentionable: Option<bool>) -> (r: RoleModifyOptions)
        ensures
            r == (RoleModifyOptions { mentionable: Some(mentionable), ..self }),
    {
        RoleModifyOptions { mentionable: Some(mentionable), ..self }
    }
}

impl RoleColors {
    /// Creates a new `RoleColors` with a primary color of `0` and no other colors
    pub fn new() -> (r: RoleColors)
        ensures
            r.primary_color == Color(0),
            r.secondary_color is None,
            r.tertiary_color is None,
    {
        RoleColors { primary_color: Color(0), secondary_color: None, tertiary_color: None }
    }
}

impl Default for RoleColors {
    /// The same as [`RoleColors::new`]
    fn default() -> (r: RoleColors)
        ensures
            r.primary_color == Color(0),
            r.secondary_color is None,
            r.tertiary_color is None,
    {
        RoleColors::new()
    }
}

impl Default for RoleCreateOptions {
    /// The same as [`RoleCreateOptions::new`]
    fn default() -> (r: RoleCreateOptions)
        ensures
            r.name is None,
            r.permissions is None,
            r.colors is None,
            r.hoist is None,
            r.icon is None,
            r.unicode_emoji is None,
            r.mentionable is None,
    {
        RoleCreateOptions::new()
    }
}

impl Default for RoleModifyOptions {
    /// The same as [`RoleModifyOptions::new`]
    fn default() -> (r: RoleModifyOptions)
        ensures
            r.name is None,
            r.permissions is None,
            r.colors is None,
            r.hoist is None,
            r.icon is None,
            r.unicode_emoji is None,
            r.mentionable is None,
    {
        RoleModifyOptions::new()
    }
}

} // verus!
