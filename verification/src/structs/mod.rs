//! Discord's objects, and the options and builders for requests about them

use vstd::prelude::*;

pub mod applications;
pub mod channels;
mod cloning;
pub mod components;
pub mod embeds;
mod emojis;
pub use emojis::{Emoji, emoji_url_format};
pub mod events;
pub mod guilds;
pub mod interactions;
pub mod invites;
pub mod json;
pub mod members;
pub mod messages;
pub mod monetization;
mod permissions;
pub use permissions::Permissions;
pub mod polls;
pub mod roles;
pub mod stickers;
pub mod users;
pub mod utils;

verus! {

/// Alias for Discord snowflakes
pub type Snowflake = String;

/// A point in time, as the ISO 8601 text that Discord sends and accepts
pub type Timestamp = String;

} // verus!
