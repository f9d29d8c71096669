//! Structs related to Discord embeds

use vstd::prelude::*;
use crate::keyed::{push_onto, vec_or_empty};
use crate::structs::Timestamp;
use crate::structs::utils::{Color, ColorParseError, parse_color};
use crate::text::{opt_str_view, opt_string, opt_view, str_opt, string_of};

verus! {

/// Discord Embed Object
#[derive(Clone, Debug)]
pub struct Embed {
  /// Title of embed
  pub title: Option<String>,
  /// Type of embed (always "rich" for webhook embeds)
  pub embed_type: Option<String>,
  /// Description of embed
  pub description: Option<String>,
  /// Url of embed
  pub url: Option<String>,
  /// Timestamp of embed content
  pub timestamp: Option<Timestamp>,
  /// Color code of the embed
  pub color: Option<Color>,
  /// Footer information
  pub footer: Option<EmbedFooter>,
  /// Image information
  pub image: Option<EmbedImage>,
  /// Thumbnail information
  pub thumbnail: Option<EmbedThumbnail>,
  /// Video information
  pub video: Option<EmbedVideo>,
  /// Provider information
  pub provider: Option<EmbedProvider>,
  /// Author information
  pub author: Option<EmbedAuthor>,
  /// Fields information
  pub fields: Option<Vec<EmbedField>>,
}

/// Discord Embed Thumbnail Object
#[derive(Clone, Debug)]
pub struct EmbedThumbnail {
  /// Source url of thumbnail (only supports http(s) and attachments)
  pub url: String,
  /// A proxied url of the thumbnail
  pub proxy_url: Option<String>,
  /// Height of thumbnail
  pub height: Option<i64>,
  /// Width of thumbnail
  pub width: Option<i64>,
}

/// Discord Embed Video Object
#[derive(Clone, Debug)]
pub struct EmbedVideo {
  /// Source url of video
  pub url: Option<String>,
  /// A proxied url of the video
  pub proxy_url: Option<String>,
  /// Height of video
  pub height: Option<i64>,
  /// Width of video
  pub width: Option<i64>,
}

/// Discord Embed Image Object
#[derive(Clone, Debug)]
pub struct EmbedImage {
  /// Source url of image (only supports http(s) and attachments)
  pub url: String,
  /// A proxied url of the image
  pub proxy_url: Option<String>,
  /// Height of image
  pub height: Option<i64>,
  /// Width of image
  pub width: Option<i64>,
}

/// Discord Embed Provider Object
#[derive(Clone, Debug)]
pub struct EmbedProvider {
  /// Name of provider
  pub name: Option<String>,
  /// Url of provider
  pub url: Option<String>,
}

/// Discord Embed Author Object
#[derive(Clone, Debug)]
pub struct EmbedAuthor {
  /// Name of author
  pub name: String,
  /// Url of author
  pub url: Option<String>,
  /// Url of author icon (only supports http(s) and attachments)
  pub icon_url: Option<String>,
  /// A proxied url of author icon
  pub proxy_icon_url: Option<String>,
}

/// Discord Embed Footer Object
#[derive(Clone, Debug)]
pub struct EmbedFooter {
  /// Footer text
  pub text: String,
  /// Url of footer icon (only supports http(s) and attachments)
  pub icon_url: Option<String>,
  /// A proxied url of footer icon
  pub proxy_icon_url: Option<String>,
}

/// Discord Embed Field Object
#[derive(Clone, Debug)]
pub struct EmbedField {
  /// Name of the field
  pub name: String,
  /// Value of the field
  pub value: String,
  /// Whether or not this field should display inline
  pub inline: Option<bool>,
}

impl Embed {
    /// Set the title of the embed
    pub fn set_title(self, title: &str) -> (r: Embed)
        ensures
            str_opt(r.title, title@),
            r == (Embed { title: r.title, ..self }),
    {
        Embed { title: Some(string_of(title)), ..self }
    }

    /// Set the description of the embed
    pub fn set_description(self, descrption: &str) -> (r: Embed)
        ensures
            str_opt(r.description, descrption@),
            r == (Embed { description: r.description, ..self }),
    {
        Embed { description: Some(string_of(descrption)), ..self }
    }

    /// Set the url of the embed
    pub fn set_url(self, url: &str) -> (r: Embed)
        ensures
            str_opt(r.url, url@),
            r == (Embed { url: r.url, ..self }),
    {
        Embed { url: Some(string_of(url)), ..self }
    }
}

impl Embed {
    /// Creates a new embed
    pub fn new() -> (r: Embed)
        ensures
            r.title is None,
            str_opt(r.embed_type, "rich"@),
            r.description is None,
            r.url is None,
            r.timestamp is None,
            r.color is None,
            r.footer is None,
            r.image is None,
            r.thumbnail is None,
            r.video is None,
            r.provider is None,
            r.author is None,
            r.fields is None,
    {
        Embed {
            title: None,
            embed_type: Some(string_of("rich")),
            description: None,
            url: None,
            timestamp: None,
            color: None,
            footer: None,
            image: None,
            thumbnail: None,
            video: None,
            provider: None,
            author: None,
            fields: None,
        }
    }

    /// Set the timestamp of the embed, as the ISO 8601 text of a point in time in UTC
    pub fn set_timestamp(self, timestamp: &str) -> (r: Embed)
        ensures
            str_opt(r.timestamp, timestamp@),
            r == (Embed { timestamp: r.timestamp, ..self }),
    {
        Embed { timestamp: Some(string_of(timestamp)), ..self }
    }

    /// Set the color of the embed
    pub fn set_color(self, color: Color) -> (r: Embed)
        ensures
            r == (Embed { color: Some(color), ..self }),
    {
        Embed { color: Some(color), ..self }
    }

    /// Set the color of the embed from a hex color code; an error where the text is no color code
    pub fn set_color_hex(self, color: &str) -> (r: Result<Embed, ColorParseError>)
        ensures
            match parse_color(color@) {
                Some(v) => r == Ok::<Embed, ColorParseError>(Embed { color: Some(Color(v)), ..self }),
                None => r == Err::<Embed, ColorParseError>(ColorParseError),
            },
    {
        match Color::from_hex_str(color) {
            Ok(c) => Ok(Embed { color: Some(c), ..self }),
            Err(e) => Err(e),
        }
    }

    /// Set the footer of the embed
    pub fn set_footer(self, text: &str, icon_url: Option<&str>) -> (r: Embed)
        ensures
            r.footer matches Some(f) && f.text@ == text@ && opt_view(f.icon_url) == opt_str_view(icon_url)
                && f.proxy_icon_url is None,
            r == (Embed { footer: r.footer, ..self }),
    {
        Embed { footer: Some(EmbedFooter { text: string_of(text), icon_url: opt_string(icon_url), proxy_icon_url: None }), ..self }
    }

    /// Set the image of the embed
    pub fn set_image(self, url: &str) -> (r: Embed)
        ensures
            r.image matches Some(i) && i.url@ == url@ && i.proxy_url is None && i.height is None && i.width is None,
            r == (Embed { image: r.image, ..self }),
    {
        Embed { image: Some(EmbedImage { url: string_of(url), proxy_url: None, height: None, width: None }), ..self }
    }

    /// Set the thumbnail of the embed
    pub fn set_thumbnail(self, url: &str) -> (r: Embed)
        ensures
            r.thumbnail matches Some(i) && i.url@ == url@ && i.proxy_url is None && i.height is None && i.width is None,
            r == (Embed { thumbnail: r.thumbnail, ..self }),
    {
        Embed { thumbnail: Some(EmbedThumbnail { url: string_of(url), proxy_url: None, height: None, width: None }), ..self }
    }

    /// Set the author of the embed
    pub fn set_author(self, name: &str, url: Option<&str>, icon_url: Option<&str>) -> (r: Embed)
        ensures
            r.author matches Some(a) && a.name@ == name@ && opt_view(a.url) == opt_str_view(url)
                && opt_view(a.icon_url) == opt_str_view(icon_url) && a.proxy_icon_url is None,
            r == (Embed { author: r.author, ..self }),
    {
        Embed {
            author: Some(EmbedAuthor { name: string_of(name), url: opt_string(url), icon_url: opt_string(icon_url), proxy_icon_url: None }),
            ..self
        }
    }

    /// Add a field to the embed
    pub fn add_field(self, name: &str, value: &str, inline: bool) -> (r: Embed)
        ensures
            r.fields matches Some(v) && v@.len() == vec_or_empty(self.fields).len() + 1
                && v@.drop_last() == vec_or_empty(self.fields)
                && v@.last().name@ == name@ && v@.last().value@ == value@ && v@.last().inline == Some(inline),
            r == (Embed { fields: r.fields, ..self }),
    {
        let field = EmbedField { name: string_of(name), value: string_of(value), inline: Some(inline) };
        let r = Embed { fields: Some(push_onto(self.fields, field)), ..self };
        proof { assert(vec_or_empty(self.fields).push(field).drop_last() =~= vec_or_empty(self.fields)); }
        r
    }
}

impl Default for Embed {
    /// The same as [`Embed::new`]
    fn default() -> (r: Embed)
        ensures
            r.title is None,
            str_opt(r.embed_type, "rich"@),
            r.description is None,
            r.url is None,
            r.timestamp is None,
            r.color is None,
            r.footer is None,
            r.image is None,
            r.thumbnail is None,
            r.video is None,
            r.provider is None,
            r.author is None,
            r.fields is None,
    {
        Embed::new()
    }
}

} // verus!
