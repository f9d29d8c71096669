//! Structs related to Discord stickers

use vstd::prelude::*;
use crate::structs::Snowflake;
use crate::structs::users::User;

verus! {

/// Discord Sticker Object
#[derive(Clone, Debug)]
pub struct Sticker {
  /// [Id of the sticker](https://discord.com/developers/docs/reference#image-formatting)
  pub id: Snowflake,
  /// For standard stickers, id of the pack the sticker is from
  pub pack_id: Option<Snowflake>,
  /// Name of the sticker
  pub name: String,
  /// Description of the sticker
  pub description: Option<String>,
  /// Autocomplete/suggestion tags for the sticker (max 200 characters)
  pub tags: String,
  /// [Type of sticker](StickerType)
  pub sticker_type: StickerType,
  /// [Type of sticker format](StickerFormatType)
  pub format_type: StickerFormatType,
  /// Whether this guild sticker can be used, may be false due to loss of Server Boosts
  pub available: Option<bool>,
  /// Id of the guild that owns this sticker
  pub guild_id: Option<Snowflake>,
  /// The user that uploaded the guild sticker
  pub user: Option<User>,
  /// The standard sticker's sort order within its pack
  pub sort_value: Option<i64>,
}

/// Discord Sticker Types
#[derive(Clone, Copy, Debug, PartialEq, Eq, Hash, Structural)]
#[allow(non_camel_case_types)]
pub enum StickerType {
  /// An official sticker in a pack, part of Nitro or in a removed purchasable pack
  STANDARD,
  /// A sticker uploaded to a guild for the guild's members
  GUILD,
  /// Sticker type that hasn't been implemented yet
  UNKNOWN,
}

impl StickerType {
    /// The number that Discord uses for this value.
    pub open spec fn spec_code(self) -> u8 {
        match self {
            StickerType::STANDARD => 1,
            StickerType::GUILD => 2,
            StickerType::UNKNOWN => 3,
        }
    }

    /// The value that Discord's number `code` stands for, if any.
    pub open spec fn spec_from_code(code: u8) -> Option<StickerType> {
        match code {
            1 => Some(StickerType::STANDARD),
            2 => Some(StickerType::GUILD),
            3 => Some(StickerType::UNKNOWN),
            _ => None,
        }
    }

    /// The number that Discord uses for this value.
    pub fn code(&self) -> (r: u8)
        ensures
            r == self.spec_code(),
    {
        match self {
            StickerType::STANDARD => 1,
            StickerType::GUILD => 2,
            StickerType::UNKNOWN => 3,
        }
    }

    /// The value that Discord's number `code` stands for, if any.
    pub fn from_code(code: u8) -> (r: Option<StickerType>)
        ensures
            r == StickerType::spec_from_code(code),
    {
        match code {
            1 => Some(StickerType::STANDARD),
            2 => Some(StickerType::GUILD),
            3 => Some(StickerType::UNKNOWN),
            _ => None,
        }
    }
}

/// Discord Sticker Item Object
#[derive(Clone, Debug)]
pub struct StickerItem {
  /// Id of the sticker
  pub id: Snowflake,
  /// Name of the sticker
  pub name: String,
  /// [Type of sticker format](StickerFormatType)
  pub format_type: StickerFormatType,
}

/// Discord Sticker Format Types
#[derive(Clone, Copy, Debug, PartialEq, Eq, Hash, Structural)]
#[allow(non_camel_case_types)]
pub enum StickerFormatType {
  /// .png format
  PNG,
  /// Animated .png format
  APNG,
  /// Lottie .json format
  LOTTIE,
  /// Sticker format type that hasn't been implemented yet
  UNKNOWN,
}

impl StickerFormatType {
    /// The number that Discord uses for this value.
    pub open spec fn spec_code(self) -> u8 {
        match self {
            StickerFormatType::PNG => 1,
            StickerFormatType::APNG => 2,
            StickerFormatType::LOTTIE => 3,
            StickerFormatType::UNKNOWN => 4,
        }
    }

    /// The value that Discord's number `code` stands for, if any.
    pub open spec fn spec_from_code(code: u8) -> Option<StickerFormatType> {
        match code {
            1 => Some(StickerFormatType::PNG),
            2 => Some(StickerFormatType::APNG),
            3 => Some(StickerFormatType::LOTTIE),
            4 => Some(StickerFormatType::UNKNOWN),
            _ => None,
        }
    }

    /// The number that Discord uses for this value.
    pub fn code(&self) -> (r: u8)
        ensures
            r == self.spec_code(),
    {
        match self {
            StickerFormatType::PNG => 1,
            StickerFormatType::APNG => 2,
            StickerFormatType::LOTTIE => 3,
            StickerFormatType::UNKNOWN => 4,
        }
    }

    /// The value that Discord's number `code` stands for, if any.
    pub fn from_code(code: u8) -> (r: Option<StickerFormatType>)
        ensures
            r == StickerFormatType::spec_from_code(code),
    {
        match code {
            1 => Some(StickerFormatType::PNG),
            2 => Some(StickerFormatType::APNG),
            3 => Some(StickerFormatType::LOTTIE),
            4 => Some(StickerFormatType::UNKNOWN),
            _ => None,
        }
    }
}

impl StickerType {
    /// Discord's number for a value reads back as that value.
    pub proof fn law_code_round_trip(self)
        ensures
            StickerType::spec_from_code(self.spec_code()) == Some(self),
    {
    }
}

impl StickerFormatType {
    /// Discord's number for a value reads back as that value.
    pub proof fn law_code_round_trip(self)
        ensures
            StickerFormatType::spec_from_code(self.spec_code()) == Some(self),
    {
    }
}

} // verus!
