//! Structs related to Discord Emojis

use vstd::prelude::*;
use crate::structs::Snowflake;
use crate::structs::users::User;
use crate::text::{push_str, str_opt, string_of};

verus! {

/// Discord Emoji Object
#[derive(Clone, Debug)]
pub struct Emoji {
  /// Emoji id
  pub id: Option<Snowflake>,
  /// Emoji name
  pub name: Option<String>,
  /// Roles allowed to use this emoji
  pub roles: Option<Vec<Snowflake>>,
  /// User that created this emoji
  pub user: Option<User>,
  /// Whether this emoji must be wrapped in colons
  pub require_colons: Option<bool>,
  /// Whether this emoji is managed
  pub managed: Option<bool>,
  /// Whether this emoji is animated
  pub animated: Option<bool>,
  /// Whether this emoji can be used, may be false due to loss of Server Boosts
  pub available: Option<bool>,
}

impl Emoji {
    /// Creates a new Emoji from an unicode emoji
    pub fn new_standard_emoji(emoji: &str) -> (r: Emoji)
        ensures
            r.id is None,
            str_opt(r.name, emoji@),
            r.roles is None,
            r.user is None,
            r.require_colons is None,
            r.managed is None,
            r.animated is None,
            r.available is None,
    {
        Emoji { id: None, name: Some(string_of(emoji)), roles: None, user: None, require_colons: None, managed: None, animated: None, available: None }
    }
}

/// The text of an optional name, no name being the empty text.
pub open spec fn name_or_empty(o: Option<String>) -> Seq<char> {
    match o {
        Some(n) => n@,
        None => Seq::empty(),
    }
}

/// How an emoji is mentioned in a message: `<a:name:id>` for an animated custom emoji,
/// `<:name:id>` for another custom one, the bare name for a standard one.
pub open spec fn emoji_mention(e: Emoji) -> Seq<char> {
    match e.id {
        Some(id) => seq!['<'] + (if e.animated == Some(true) { seq!['a'] } else { Seq::empty() }) + seq![':']
            + name_or_empty(e.name) + seq![':'] + id@ + seq!['>'],
        None => name_or_empty(e.name),
    }
}

/// How an emoji is written in a request's path: `name:id` for a custom emoji, the bare name otherwise.
pub open spec fn emoji_url_format(e: Emoji) -> Seq<char> {
    match e.id {
        Some(id) => name_or_empty(e.name) + seq![':'] + id@,
        None => name_or_empty(e.name),
    }
}

impl Emoji {
    /// Creates a new custom emoji
    pub fn new_custom_emoji(id: &str, name: &str, animated: bool) -> (r: Emoji)
        ensures
            str_opt(r.id, id@),
            str_opt(r.name, name@),
            r.roles is None,
            r.user is None,
            r.require_colons is None,
            r.managed is None,
            r.animated == Some(animated),
            r.available is None,
    {
        Emoji {
            id: Some(string_of(id)),
            name: Some(string_of(name)),
            roles: None,
            user: None,
            require_colons: None,
            managed: None,
            animated: Some(animated),
            available: None,
        }
    }

    fn name_text(&self) -> (r: String)
        ensures
            r@ == name_or_empty(self.name),
    {
        match &self.name {
            Some(n) => n.clone(),
            None => String::new(),
        }
    }

    /// Returns a string representing an emoji mention. Returns just the unicode emoji if not custom.
    pub fn mention(&self) -> (r: String)
        ensures
            r@ == emoji_mention(*self),
    {
        match &self.id {
            Some(id) => {
                let mut s = string_of("<");
                if matches!(self.animated, Some(true)) {
                    push_str(&mut s, "a");
                }
                push_str(&mut s, ":");
                let name = self.name_text();
                push_str(&mut s, name.as_str());
                push_str(&mut s, ":");
                push_str(&mut s, id.as_str());
                push_str(&mut s, ">");
                proof {
                    reveal_strlit("<");
                    reveal_strlit("a");
                    reveal_strlit(":");
                    reveal_strlit(">");
                }
                s
            },
            None => self.name_text(),
        }
    }

    /// The emoji as written in a request's path
    pub fn to_url_format(&self) -> (r: String)
        ensures
            r@ == emoji_url_format(*self),
    {
        match &self.id {
            Some(id) => {
                let mut s = self.name_text();
                push_str(&mut s, ":");
                push_str(&mut s, id.as_str());
                proof { reveal_strlit(":"); }
                s
            },
            None => self.name_text(),
        }
    }
}

} // verus!
