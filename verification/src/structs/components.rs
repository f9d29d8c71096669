//! Structs related to Discord message components

use vstd::prelude::*;
use crate::keyed::{push_onto, vec_or_empty};
use crate::structs::Snowflake;
use crate::structs::channels::ChannelType;
use crate::structs::emojis::Emoji;
use crate::structs::interactions::InteractionDataResolved;
use crate::structs::utils::{Color, ColorParseError, parse_color};
use crate::text::{custom_id_string, custom_id_text, str_opt, string_of};

verus! {

/// Discord Component Types
#[derive(Clone, Copy, Debug, PartialEq, Eq, Hash, Structural)]
#[allow(non_camel_case_types)]
pub enum ComponentType {
  /// Container to display a row of interactive components
  ACTION_ROW,
  /// A button object
  BUTTON,
  /// A select menu for picking from defined text options
  STRING_SELECT,
  /// A text input object
  TEXT_INPUT,
  /// A select menu for users
  USER_SELECT,
  /// A select menu for roles
  ROLE_SELECT,
  /// A select menu for mentionables (users and roles)
  MENTIONABLE_SELECT,
  /// A select menu for channels
  CHANNEL_SELECT,
  /// Container to display text alongside an accessory component
  SECTION,
  /// Markdown text
  TEXT_DISPLAY,
  /// Small image that can be used as an accessory
  THUMBNAIL,
  /// Display images and other media
  MEDIA_GALLERY,
  /// Displays an attached file
  FILE,
  /// Component to add vertical padding between other components
  SEPARATOR,
  /// Container that visually groups a set of components
  CONTAINER,
  /// Container associating a label and description with a component
  LABEL,
  /// A component that hasn't been implemented yet
  UNKNOWN,
}

impl ComponentType {
    /// The number that Discord uses for this value.
    pub open spec fn spec_code(self) -> u8 {
        match self {
            ComponentType::ACTION_ROW => 1,
            ComponentType::BUTTON => 2,
            ComponentType::STRING_SELECT => 3,
            ComponentType::TEXT_INPUT => 4,
            ComponentType::USER_SELECT => 5,
            ComponentType::ROLE_SELECT => 6,
            ComponentType::MENTIONABLE_SELECT => 7,
            ComponentType::CHANNEL_SELECT => 8,
            ComponentType::SECTION => 9,
            ComponentType::TEXT_DISPLAY => 10,
            ComponentType::THUMBNAIL => 11,
            ComponentType::MEDIA_GALLERY => 12,
            ComponentType::FILE => 13,
            ComponentType::SEPARATOR => 14,
            ComponentType::CONTAINER => 17,
            ComponentType::LABEL => 18,
            ComponentType::UNKNOWN => 19,
        }
    }

    /// The value that Discord's number `code` stands for, if any.
    pub open spec fn spec_from_code(code: u8) -> Option<ComponentType> {
        match code {
            1 => Some(ComponentType::ACTION_ROW),
            2 => Some(ComponentType::BUTTON),
            3 => Some(ComponentType::STRING_SELECT),
            4 => Some(ComponentType::TEXT_INPUT),
            5 => Some(ComponentType::USER_SELECT),
            6 => Some(ComponentType::ROLE_SELECT),
            7 => Some(ComponentType::MENTIONABLE_SELECT),
            8 => Some(ComponentType::CHANNEL_SELECT),
            9 => Some(ComponentType::SECTION),
            10 => Some(ComponentType::TEXT_DISPLAY),
            11 => Some(ComponentType::THUMBNAIL),
            12 => Some(ComponentType::MEDIA_GALLERY),
            13 => Some(ComponentType::FILE),
            14 => Some(ComponentType::SEPARATOR),
            17 => Some(ComponentType::CONTAINER),
            18 => Some(ComponentType::LABEL),
            19 => Some(ComponentType::UNKNOWN),
            _ => Some(ComponentType::UNKNOWN),
        }
    }

    /// The number that Discord uses for this value.
    pub fn code(&self) -> (r: u8)
        ensures
            r == self.spec_code(),
    {
        match self {
            ComponentType::ACTION_ROW => 1,
            ComponentType::BUTTON => 2,
            ComponentType::STRING_SELECT => 3,
            ComponentType::TEXT_INPUT => 4,
            ComponentType::USER_SELECT => 5,
            ComponentType::ROLE_SELECT => 6,
            ComponentType::MENTIONABLE_SELECT => 7,
            ComponentType::CHANNEL_SELECT => 8,
            ComponentType::SECTION => 9,
            ComponentType::TEXT_DISPLAY => 10,
            ComponentType::THUMBNAIL => 11,
            ComponentType::MEDIA_GALLERY => 12,
            ComponentType::FILE => 13,
            ComponentType::SEPARATOR => 14,
            ComponentType::CONTAINER => 17,
            ComponentType::LABEL => 18,
            ComponentType::UNKNOWN => 19,
        }
    }

    /// The value that Discord's number `code` stands for, if any.
    pub fn from_code(code: u8) -> (r: Option<ComponentType>)
        ensures
            r == ComponentType::spec_from_code(code),
    {
        match code {
            1 => Some(ComponentType::ACTION_ROW),
            2 => Some(ComponentType::BUTTON),
            3 => Some(ComponentType::STRING_SELECT),
            4 => Some(ComponentType::TEXT_INPUT),
            5 => Some(ComponentType::USER_SELECT),
            6 => Some(ComponentType::ROLE_SELECT),
            7 => Some(ComponentType::MENTIONABLE_SELECT),
            8 => Some(ComponentType::CHANNEL_SELECT),
            9 => Some(ComponentType::SECTION),
            10 => Some(ComponentType::TEXT_DISPLAY),
            11 => Some(ComponentType::THUMBNAIL),
            12 => Some(ComponentType::MEDIA_GALLERY),
            13 => Some(ComponentType::FILE),
            14 => Some(ComponentType::SEPARATOR),
            17 => Some(ComponentType::CONTAINER),
            18 => Some(ComponentType::LABEL),
            19 => Some(ComponentType::UNKNOWN),
            _ => Some(ComponentType::UNKNOWN),
        }
    }
}

/// A component
#[derive(Debug)]
pub enum Component {
  /// Container to display a row of interactive components
  ActionRow(ActionRow),
  /// A button object
  Button(Box<Button>),
  /// A select menu for picking from defined text options
  SelectMenu(Box<SelectMenu>),
  /// A text input object
  TextInput(TextInput),
  /// Container to display text alongside an accessory component
  Section(Section),
  /// Markdown text
  TextDisplay(TextDisplay),
  /// Small image that can be used as an accessory
  Thumbnail(Thumbnail),
  /// Display images and other media
  MediaGallery(MediaGallery),
  /// Displays an attached file
  File(File),
  /// Component to add vertical padding between other components
  Separator(Separator),
  /// Container that visually groups a set of components
  Container(Container),
  /// Container associating a label and description with a component
  Label(Label),
  /// A component that hasn't been implemented yet
  Unknown,
}

/// A helper struct for building components for a message\
/// Example using components v1:
/// Example using components v2:
#[derive(Clone, Debug)]
pub struct Components(pub Vec<Component>);

/// An Action Row component
#[derive(Debug)]
pub struct ActionRow {
  pub component_type: ComponentType,
  /// Optional identifier for component
  pub id: Option<i64>,
  /// Components inside this row
  pub components: Vec<Component>,
}

/// A Button component
///
/// Most buttons must have a `custom_id` and one of `label` or `emoji` and cannot have a `url` or `sku_id`.\
/// Link buttons must have a `url` and cannot have a `custom_id`.\
/// Premium buttons must have a `sku_id` and cannot have `custom_id`, `label`, `url`, or `emoji`.
#[derive(Clone, Debug)]
pub struct Button {
  pub component_type: ComponentType,
  /// Optional identifier for component
  pub id: Option<i64>,
  /// One of [button styles](ButtonStyle)
  pub style: ButtonStyle,
  /// Text that appears on the button, max 80 characters
  pub label: Option<String>,
  /// An emoji to be shown on the button
  pub emoji: Option<Emoji>,
  /// A developer-defined identifier for the button, max 100 characters
  pub custom_id: Option<String>,
  /// Identifier for a purchasable [SKU](super::monetization::SKU), only available when using premium-style buttons
  pub sku_id: Option<Snowflake>,
  /// A url for link-style buttons
  pub url: Option<String>,
  /// Whether the button is disabled (default `false`)
  pub disabled: Option<bool>,
}

/// Discord Button Styles
#[derive(Clone, Copy, Debug, PartialEq, Eq, Hash, Structural)]
#[allow(non_camel_case_types)]
pub enum ButtonStyle {
  /// A blurple button
  PRIMARY,
  /// A grey button
  SECONDARY,
  /// A green button
  SUCCESS,
  /// A red button
  DANGER,
  /// A grey button that navigates to a URL
  LINK,
  /// A blurple button that links to a SKU
  PREMIUM,
  /// A button style that hasn't been implemented yet
  UNKNOWN,
}

impl ButtonStyle {
    /// The number that Discord uses for this value.
    pub open spec fn spec_code(self) -> u8 {
        match self {
            ButtonStyle::PRIMARY => 1,
            ButtonStyle::SECONDARY => 2,
            ButtonStyle::SUCCESS => 3,
            ButtonStyle::DANGER => 4,
            ButtonStyle::LINK => 5,
            ButtonStyle::PREMIUM => 6,
            ButtonStyle::UNKNOWN => 7,
        }
    }

    /// The value that Discord's number `code` stands for, if any.
    pub open spec fn spec_from_code(code: u8) -> Option<ButtonStyle> {
        match code {
            1 => Some(ButtonStyle::PRIMARY),
            2 => Some(ButtonStyle::SECONDARY),
            3 => Some(ButtonStyle::SUCCESS),
            4 => Some(ButtonStyle::DANGER),
            5 => Some(ButtonStyle::LINK),
            6 => Some(ButtonStyle::PREMIUM),
            7 => Some(ButtonStyle::UNKNOWN),
            _ => Some(ButtonStyle::UNKNOWN),
        }
    }

    /// The number that Discord uses for this value.
    pub fn code(&self) -> (r: u8)
        ensures
            r == self.spec_code(),
    {
        match self {
            ButtonStyle::PRIMARY => 1,
            ButtonStyle::SECONDARY => 2,
            ButtonStyle::SUCCESS => 3,
            ButtonStyle::DANGER => 4,
            ButtonStyle::LINK => 5,
            ButtonStyle::PREMIUM => 6,
            ButtonStyle::UNKNOWN => 7,
        }
    }

    /// The value that Discord's number `code` stands for, if any.
    pub fn from_code(code: u8) -> (r: Option<ButtonStyle>)
        ensures
            r == ButtonStyle::spec_from_code(code),
    {
        match code {
            1 => Some(ButtonStyle::PRIMARY),
            2 => Some(ButtonStyle::SECONDARY),
            3 => Some(ButtonStyle::SUCCESS),
            4 => Some(ButtonStyle::DANGER),
            5 => Some(ButtonStyle::LINK),
            6 => Some(ButtonStyle::PREMIUM),
            7 => Some(ButtonStyle::UNKNOWN),
            _ => Some(ButtonStyle::UNKNOWN),
        }
    }
}

/// A Select Menu component
#[derive(Debug)]
pub struct SelectMenu {
  pub component_type: ComponentType,
  /// Optional identifier for component
  pub id: Option<i64>,
  /// A developer-defined identifier for the select menu, max 100 characters
  pub custom_id: String,
  /// Specified choices in a select menu (only required and available for string selects; max 25)
  pub options: Option<Vec<SelectOption>>,
  /// List of channel types to include in the channel select component
  pub channel_types: Option<Vec<ChannelType>>,
  /// Custom placeholder text if nothing is selected or default, max 150 characters
  pub placeholder: Option<String>,
  /// List of default values for auto-populated select menu components; number of default values must be in the range defined by `min_values` and `max_values`
  pub default_values: Option<Vec<DefaultValue>>,
  /// The minimum number of items that must be chosen; default 1, min 0, max 25
  pub min_values: Option<i64>,
  /// The maximum number of items that can be chosen; default 1, max 25
  pub max_values: Option<i64>,
  /// Whether the string select is required to answer in a modal (defaults to `true`)
  pub required: Option<bool>,
  /// Whether select menu is disabled in a message (defaults to `false`)
  pub disabled: Option<bool>,
  /// Resolved entities from selected options
  pub resolved: Option<InteractionDataResolved>,
  /// Values of the chosen items from a modal interaction
  pub values: Option<Vec<String>>,
}

/// Possible types for a select menu
#[derive(Clone, Copy, Debug, PartialEq, Eq, Hash, Structural)]
pub enum SelectMenuType {
  /// Select menu for picking from defined text options
  STRING,
  /// Select menu for users
  USER,
  /// Select menu for roles
  ROLE,
  /// Select menu for mentionables (users and roles)
  MENTIONABLE,
  /// Select menu for channels
  CHANNEL,
}

/// Choices in a Select Menu
#[derive(Clone, Debug)]
pub struct SelectOption {
  /// The user-facing name of the option, max 100 characters
  pub label: String,
  /// The dev-defined value of the option, max 100 characters
  pub value: String,
  /// An additional description of the option, max 100 characters
  pub description: Option<String>,
  /// An emoji to be shown with the option
  pub emoji: Option<Emoji>,
  /// Will render this option as selected by default
  pub default: Option<bool>,
}

/// Discord Select Default Value Object
#[derive(Clone, Debug)]
pub struct DefaultValue {
  /// ID of a user, role, or channel
  pub id: Snowflake,
  /// Type of value that `id` represents
  pub value_type: DefaultValueType,
}

/// Discord Select Default Value Type
#[derive(Clone, Copy, Debug, PartialEq, Eq, Hash, Structural)]
#[allow(non_camel_case_types)]
pub enum DefaultValueType {
  /// ID represents user
  USER,
  /// ID represents role
  ROLE,
  /// ID represents channel
  CHANNEL,
  /// Representation that hasn't been implemented yet
  UNKNOWN,
}

/// A Text Input component
#[derive(Clone, Debug)]
pub struct TextInput {
  pub component_type: ComponentType,
  /// Optional identifier for component
  pub id: Option<i64>,
  /// A developer-defined identifier for the input, max 100 characters
  pub custom_id: String,
  /// The [Text Input Style](TextInputStyle)
  pub style: TextInputStyle,
  /// The label for this component
  pub label: String,
  /// The minimum input length for a text input, min 0, max 4000
  pub min_length: Option<i64>,
  /// The maximum input length for a text input, min 1, max 4000
  pub max_length: Option<i64>,
  /// Whether this component is required to be filled (defaults to `true`)
  pub required: Option<bool>,
  /// A pre-filled value for this component, max 4000 characters
  pub value: Option<String>,
  /// Custom placeholder text if the input is empty; max 100 characters
  pub placeholder: Option<String>,
}

/// Discord Text Input Styles
#[derive(Clone, Copy, Debug, PartialEq, Eq, Hash, Structural)]
#[allow(non_camel_case_types)]
pub enum TextInputStyle {
  /// A single-line input
  SHORT,
  /// A multi-line input
  PARAGRAPH,
}

impl TextInputStyle {
    /// The number that Discord uses for this value.
    pub open spec fn spec_code(self) -> u8 {
        match self {
            TextInputStyle::SHORT => 1,
            TextInputStyle::PARAGRAPH => 2,
        }
    }

    /// The value that Discord's number `code` stands for, if any.
    pub open spec fn spec_from_code(code: u8) -> Option<TextInputStyle> {
        match code {
            1 => Some(TextInputStyle::SHORT),
            2 => Some(TextInputStyle::PARAGRAPH),
            _ => None,
        }
    }

    /// The number that Discord uses for this value.
    pub fn code(&self) -> (r: u8)
        ensures
            r == self.spec_code(),
    {
        match self {
            TextInputStyle::SHORT => 1,
            TextInputStyle::PARAGRAPH => 2,
        }
    }

    /// The value that Discord's number `code` stands for, if any.
    pub fn from_code(code: u8) -> (r: Option<TextInputStyle>)
        ensures
            r == TextInputStyle::spec_from_code(code),
    {
        match code {
            1 => Some(TextInputStyle::SHORT),
            2 => Some(TextInputStyle::PARAGRAPH),
            _ => None,
        }
    }
}

/// A Section component
#[derive(Debug)]
pub struct Section {
  pub component_type: ComponentType,
  /// Optional identifier for component
  pub id: Option<i64>,
  /// One to three child components representing the content of the section that is contextually associated to the accessory
  pub components: Vec<Component>,
  /// A component that is contextually associated to the content of the section
  pub accessory: Box<Component>,
}

/// A Text Display component
#[derive(Clone, Debug)]
pub struct TextDisplay {
  pub component_type: ComponentType,
  /// Optional identifier for component
  pub id: Option<i64>,
  /// Text that will be displayed similar to a message
  pub content: String,
}

/// A Thumbnail component
#[derive(Clone, Debug)]
pub struct Thumbnail {
  pub component_type: ComponentType,
  /// Optional identifier for component
  pub id: Option<i64>,
  /// A url or attachment provided as an [unfurled media item](UnfurledMediaItem)
  pub media: UnfurledMediaItem,
  /// Alt text for the media, max 1024 characters
  pub description: Option<String>,
  /// Whether the thumbnail should be a spoiler (or blurred out). Defaults to `false`
  pub spoiler: Option<bool>,
}

/// Discord Unfurled Media Item Object
#[derive(Clone, Debug)]
pub struct UnfurledMediaItem {
  /// Supports arbitrary urls and `attachment://<filename>` references
  pub url: String,
  /// The proxied url of the media item. This field is ignored and provided by the API as part of the response
  pub proxy_url: Option<String>,
  /// The height of the media item. This field is ignored and provided by the API as part of the response
  pub height: Option<i64>,
  /// The width of the media item. This field is ignored and provided by the API as part of the response
  pub width: Option<i64>,
  /// The [media type](https://en.wikipedia.org/wiki/Media_type) of the content. This field is ignored and provided by the API as part of the response
  pub content_type: Option<String>,
  /// The id of the uploaded attachment. This field is ignored and provided by the API as part of the response
  pub attachment_id: Option<Snowflake>,
}

/// A Media Gallery component
#[derive(Clone, Debug)]
pub struct MediaGallery {
  pub component_type: ComponentType,
  /// Optional identifier for component
  pub id: Option<i64>,
  /// 1 to 10 media gallery items
  pub items: Vec<MediaGalleryItem>,
}

/// Discord Media Gallery Item Object
#[derive(Clone, Debug)]
pub struct MediaGalleryItem {
  /// A url or attachment provided as an [unfurled media item](UnfurledMediaItem)
  pub media: UnfurledMediaItem,
  /// Alt text for the media, max 1024 characters
  pub description: Option<String>,
  /// Whether the media should be a spoiler (or blurred out). Defaults to `false`
  pub spoiler: Option<bool>,
}

/// A File component
#[derive(Clone, Debug)]
pub struct File {
  pub component_type: ComponentType,
  /// Optional identifier for component
  pub id: Option<i64>,
  /// This unfurled media item is unique in that it **only** supports attachment references using the `attachment://<filename>` syntax
  pub file: UnfurledMediaItem,
  /// Whether the media should be a spoiler (or blurred out). Defaults to `false`
  pub spoiler: Option<bool>,
  /// The name of the file. This field is ignored and provided by the API as part of the response
  pub name: Option<String>,
  /// The size of the file in bytes. This field is ignored and provided by the API as part of the response
  pub size: Option<i64>,
}

/// A Separator component
#[derive(Clone, Debug)]
pub struct Separator {
  pub component_type: ComponentType,
  /// Optional identifier for component
  pub id: Option<i64>,
  /// Whether a visual divider should be displayed in the component. Defaults to `true`
  pub divider: Option<bool>,
  /// Size of separator padding. Defaults to [`SeparatorSpacing::SMALL`]
  pub spacing: Option<SeparatorSpacing>,
}

/// Discord Separator Spacing Enum
#[derive(Clone, Copy, Debug, PartialEq, Eq, Hash, Structural)]
#[allow(non_camel_case_types)]
pub enum SeparatorSpacing {
  /// Small padding
  SMALL,
  /// Large padding
  LARGE,
  /// Spacing that hasn't been implemented yet
  UNKNOWN,
}

impl SeparatorSpacing {
    /// The number that Discord uses for this value.
    pub open spec fn spec_code(self) -> u8 {
        match self {
            SeparatorSpacing::SMALL => 1,
            SeparatorSpacing::LARGE => 2,
            SeparatorSpacing::UNKNOWN => 3,
        }
    }

    /// The value that Discord's number `code` stands for, if any.
    pub open spec fn spec_from_code(code: u8) -> Option<SeparatorSpacing> {
        match code {
            1 => Some(SeparatorSpacing::SMALL),
            2 => Some(SeparatorSpacing::LARGE),
            3 => Some(SeparatorSpacing::UNKNOWN),
            _ => Some(SeparatorSpacing::UNKNOWN),
        }
    }

    /// The number that Discord uses for this value.
    pub fn code(&self) -> (r: u8)
        ensures
            r == self.spec_code(),
    {
        match self {
            SeparatorSpacing::SMALL => 1,
            SeparatorSpacing::LARGE => 2,
            SeparatorSpacing::UNKNOWN => 3,
        }
    }

    /// The value that Discord's number `code` stands for, if any.
    pub fn from_code(code: u8) -> (r: Option<SeparatorSpacing>)
        ensures
            r == SeparatorSpacing::spec_from_code(code),
    {
        match code {
            1 => Some(SeparatorSpacing::SMALL),
            2 => Some(SeparatorSpacing::LARGE),
            3 => Some(SeparatorSpacing::UNKNOWN),
            _ => Some(SeparatorSpacing::UNKNOWN),
        }
    }
}

/// A Container component
#[derive(Debug)]
pub struct Container {
  pub component_type: ComponentType,
  /// Optional identifier for component
  pub id: Option<i64>,
  /// Child components that are encapsulated within the Container
  pub components: Vec<Component>,
  /// Color for the accent on the container as RGB from `0x000000` to `0xFFFFFF`
  pub accent_color: Option<Color>,
  /// Whether the container should be a spoiler (or blurred out). Defaults to `false`.
  pub spoiler: Option<bool>,
}

/// A Label component
#[derive(Debug)]
pub struct Label {
  pub component_type: ComponentType,
  /// Optional identifier for component
  pub id: Option<i64>,
  /// The label text
  pub label: String,
  /// An optional description text for the label
  pub description: Option<String>,
  /// The component within the label
  pub component: Box<Component>,
}

impl ActionRow {
    /// Creates a new empty action row
    pub fn new() -> (r: ActionRow)
        ensures
            r.component_type == ComponentType::ACTION_ROW,
            r.id is None,
            r.components@.len() == 0,
    {
        ActionRow { component_type: ComponentType::ACTION_ROW, id: None, components: Vec::new() }
    }
}

impl Button {
    /// Creates a new button with a primary style by default
    pub fn new() -> (r: Button)
        ensures
            r.component_type == ComponentType::BUTTON,
            r.id is None,
            r.style == ButtonStyle::PRIMARY,
            r.label is None,
            r.emoji is None,
            r.custom_id is None,
            r.sku_id is None,
            r.url is None,
            r.disabled == Some(false),
    {
        Button { component_type: ComponentType::BUTTON, id: None, style: ButtonStyle::PRIMARY, label: None, emoji: None, custom_id: None, sku_id: None, url: None, disabled: Some(false) }
    }

    /// Set the style of the button
    pub fn set_style(self, style: ButtonStyle) -> (r: Button)
        ensures
            r == (Button { style: style, ..self }),
    {
        Button { style: style, ..self }
    }

    /// Set the label of the button
    pub fn set_label(self, label: &str) -> (r: Button)
        ensures
            str_opt(r.label, label@),
            r == (Button { label: r.label, ..self }),
    {
        Button { label: Some(string_of(label)), ..self }
    }

    /// Set the emoji of the button
    pub fn set_emoji(self, emoji: Emoji) -> (r: Button)
        ensures
            r == (Button { emoji: Some(emoji), ..self }),
    {
        Button { emoji: Some(emoji), ..self }
    }

    /// Set the SKU for a premium-style button
    pub fn set_sku_id(self, sku_id: &str) -> (r: Button)
        ensures
            str_opt(r.sku_id, sku_id@),
            r == (Button { sku_id: r.sku_id, ..self }),
    {
        Button { sku_id: Some(string_of(sku_id)), ..self }
    }

    /// Set the url for a link-style button
    pub fn set_url(self, url: &str) -> (r: Button)
        ensures
            str_opt(r.url, url@),
            r == (Button { url: r.url, ..self }),
    {
        Button { url: Some(string_of(url)), ..self }
    }

    /// Set the disabled state of the button
    pub fn set_disabled(self, disabled: bool) -> (r: Button)
        ensures
            r == (Button { disabled: Some(disabled), ..self }),
    {
        Button { disabled: Some(disabled), ..self }
    }
}

impl SelectMenu {
    /// Add a choice to the select menu
    pub fn add_option(self, option: SelectOption) -> (r: SelectMenu)
        ensures
            r.options matches Some(v) && v@ == vec_or_empty(self.options).push(option),
            r == (SelectMenu { options: r.options, ..self }),
    {
        SelectMenu { options: Some(push_onto(self.options, option)), ..self }
    }

    /// Add a channel type to a channel select menu
    pub fn add_channel_type(self, channel_type: ChannelType) -> (r: SelectMenu)
        ensures
            r.channel_types matches Some(v) && v@ == vec_or_empty(self.channel_types).push(channel_type),
            r == (SelectMenu { channel_types: r.channel_types, ..self }),
    {
        SelectMenu { channel_types: Some(push_onto(self.channel_types, channel_type)), ..self }
    }

    /// Set the placeholder of the select menu
    pub fn set_placeholder(self, placeholder: &str) -> (r: SelectMenu)
        ensures
            str_opt(r.placeholder, placeholder@),
            r == (SelectMenu { placeholder: r.placeholder, ..self }),
    {
        SelectMenu { placeholder: Some(string_of(placeholder)), ..self }
    }

    /// Set the minimum required choices for a select menu
    pub fn set_min_values(self, min_values: i64) -> (r: SelectMenu)
        ensures
            r == (SelectMenu { min_values: Some(min_values), ..self }),
    {
        SelectMenu { min_values: Some(min_values), ..self }
    }

    /// Set the maximum amount of choices for a select menu
    pub fn set_max_values(self, max_values: i64) -> (r: SelectMenu)
        ensures
            r == (SelectMenu { max_values: Some(max_values), ..self }),
    {
        SelectMenu { max_values: Some(max_values), ..self }
    }

    /// Set the required state of the select menu
    pub fn set_required(self, required: bool) -> (r: SelectMenu)
        ensures
            r == (SelectMenu { required: Some(required), ..self }),
    {
        SelectMenu { required: Some(required), ..self }
    }

    /// Set the disabled state of the select menu
    pub fn set_disabled(self, disabled: bool) -> (r: SelectMenu)
        ensures
            r == (SelectMenu { disabled: Some(disabled), ..self }),
    {
        SelectMenu { disabled: Some(disabled), ..self }
    }
}

impl SelectOption {
    /// Creates a new choice for a select menu with a label and value
    pub fn new(label: &str, value: &str) -> (r: SelectOption)
        ensures
            r.label@ == label@,
            r.value@ == value@,
            r.description is None,
            r.emoji is None,
            r.default == Some(false),
    {
        SelectOption { label: string_of(label), value: string_of(value), description: None, emoji: None, default: Some(false) }
    }

    /// Set the description for a choice
    pub fn set_description(self, description: &str) -> (r: SelectOption)
        ensures
            str_opt(r.description, description@),
            r == (SelectOption { description: r.description, ..self }),
    {
        SelectOption { description: Some(string_of(description)), ..self }
    }

    /// Set the emoji for a choice
    pub fn set_emoji(self, emoji: Emoji) -> (r: SelectOption)
        ensures
            r == (SelectOption { emoji: Some(emoji), ..self }),
    {
        SelectOption { emoji: Some(emoji), ..self }
    }

    /// Set the default state of a choice
    pub fn set_default(self, default: bool) -> (r: SelectOption)
        ensures
            r == (SelectOption { default: Some(default), ..self }),
    {
        SelectOption { default: Some(default), ..self }
    }
}

impl TextInput {
    /// Creates a new Text Input with a short style by default
    pub fn new() -> (r: TextInput)
        ensures
            r.component_type == ComponentType::TEXT_INPUT,
            r.id is None,
            r.custom_id@ == Seq::<char>::empty(),
            r.style == TextInputStyle::SHORT,
            r.label@ == Seq::<char>::empty(),
            r.min_length is None,
            r.max_length is None,
            r.required is None,
            r.value is None,
            r.placeholder is None,
    {
        TextInput { component_type: ComponentType::TEXT_INPUT, id: None, custom_id: String::new(), style: TextInputStyle::SHORT, label: String::new(), min_length: None, max_length: None, required: None, value: None, placeholder: None }
    }

    /// Set the custom_id for a text input.
    pub fn set_id(self, id: &str) -> (r: TextInput)
        ensures
            r.custom_id@ == id@,
            r == (TextInput { custom_id: r.custom_id, ..self }),
    {
        TextInput { custom_id: string_of(id), ..self }
    }

    /// Set the style of the text input
    pub fn set_style(self, style: TextInputStyle) -> (r: TextInput)
        ensures
            r == (TextInput { style: style, ..self }),
    {
        TextInput { style: style, ..self }
    }

    /// Set the label for a text input
    pub fn set_label(self, label: &str) -> (r: TextInput)
        ensures
            r.label@ == label@,
            r == (TextInput { label: r.label, ..self }),
    {
        TextInput { label: string_of(label), ..self }
    }

    /// Set the minimum length for a text input
    pub fn set_min_length(self, min_length: i64) -> (r: TextInput)
        ensures
            r == (TextInput { min_length: Some(min_length), ..self }),
    {
        TextInput { min_length: Some(min_length), ..self }
    }

    /// Set the minimum length for a text input
    pub fn set_max_length(self, max_length: i64) -> (r: TextInput)
        ensures
            r == (TextInput { max_length: Some(max_length), ..self }),
    {
        TextInput { max_length: Some(max_length), ..self }
    }

    /// Set the required state of the text input
    pub fn set_required(self, required: bool) -> (r: TextInput)
        ensures
            r == (TextInput { required: Some(required), ..self }),
    {
        TextInput { required: Some(required), ..self }
    }

    /// Set a default value for a text input
    pub fn set_value(self, value: &str) -> (r: TextInput)
        ensures
            str_opt(r.value, value@),
            r == (TextInput { value: r.value, ..self }),
    {
        TextInput { value: Some(string_of(value)), ..self }
    }

    /// Set a placeholder for a text input
    pub fn set_placeholder(self, placeholder: &str) -> (r: TextInput)
        ensures
            str_opt(r.placeholder, placeholder@),
            r == (TextInput { placeholder: r.placeholder, ..self }),
    {
        TextInput { placeholder: Some(string_of(placeholder)), ..self }
    }
}

impl TextDisplay {
    /// Creates a new Text Display with content
    pub fn new(content: &str) -> (r: TextDisplay)
        ensures
            r.component_type == ComponentType::TEXT_DISPLAY,
            r.id is None,
            r.content@ == content@,
    {
        TextDisplay { component_type: ComponentType::TEXT_DISPLAY, id: None, content: string_of(content) }
    }

    /// Set the content
    pub fn set_content(self, content: &str) -> (r: TextDisplay)
        ensures
            r.content@ == content@,
            r == (TextDisplay { content: r.content, ..self }),
    {
        TextDisplay { content: string_of(content), ..self }
    }
}

impl Thumbnail {
    /// Sets the description
    pub fn set_description(self, description: &str) -> (r: Thumbnail)
        ensures
            str_opt(r.description, description@),
            r == (Thumbnail { description: r.description, ..self }),
    {
        Thumbnail { description: Some(string_of(description)), ..self }
    }

    /// Sets spoiler
    pub fn set_spoiler(self, spoiler: bool) -> (r: Thumbnail)
        ensures
            r == (Thumbnail { spoiler: Some(spoiler), ..self }),
    {
        Thumbnail { spoiler: Some(spoiler), ..self }
    }
}

impl UnfurledMediaItem {
    /// Creates a new unfurled media item from an url
    pub fn new(url: &str) -> (r: UnfurledMediaItem)
        ensures
            r.url@ == url@,
            r.proxy_url is None,
            r.height is None,
            r.width is None,
            r.content_type is None,
            r.attachment_id is None,
    {
        UnfurledMediaItem { url: string_of(url), proxy_url: None, height: None, width: None, content_type: None, attachment_id: None }
    }
}

impl MediaGallery {
    /// Creates a new media gallery
    pub fn new() -> (r: MediaGallery)
        ensures
            r.component_type == ComponentType::MEDIA_GALLERY,
            r.id is None,
            r.items@.len() == 0,
    {
        MediaGallery { component_type: ComponentType::MEDIA_GALLERY, id: None, items: Vec::new() }
    }
}

impl MediaGalleryItem {
    /// Sets the description
    pub fn set_description(self, description: &str) -> (r: MediaGalleryItem)
        ensures
            str_opt(r.description, description@),
            r == (MediaGalleryItem { description: r.description, ..self }),
    {
        MediaGalleryItem { description: Some(string_of(description)), ..self }
    }

    /// Sets spoiler
    pub fn set_spoiler(self, spoiler: bool) -> (r: MediaGalleryItem)
        ensures
            r == (MediaGalleryItem { spoiler: Some(spoiler), ..self }),
    {
        MediaGalleryItem { spoiler: Some(spoiler), ..self }
    }
}

impl File {
    /// Sets spoiler
    pub fn set_spoiler(self, spoiler: bool) -> (r: File)
        ensures
            r == (File { spoiler: Some(spoiler), ..self }),
    {
        File { spoiler: Some(spoiler), ..self }
    }
}

impl Separator {
    /// Creates a new separator
    pub fn new() -> (r: Separator)
        ensures
            r.component_type == ComponentType::SEPARATOR,
            r.id is None,
            r.divider is None,
            r.spacing is None,
    {
        Separator { component_type: ComponentType::SEPARATOR, id: None, divider: None, spacing: None }
    }

    /// Set divider
    pub fn set_divider(self, divider: bool) -> (r: Separator)
        ensures
            r == (Separator { divider: Some(divider), ..self }),
    {
        Separator { divider: Some(divider), ..self }
    }

    /// Set the spacing
    pub fn set_spacing(self, spacing: SeparatorSpacing) -> (r: Separator)
        ensures
            r == (Separator { spacing: Some(spacing), ..self }),
    {
        Separator { spacing: Some(spacing), ..self }
    }
}

impl Container {
    /// Creates a new container
    pub fn new() -> (r: Container)
        ensures
            r.component_type == ComponentType::CONTAINER,
            r.id is None,
            r.components@.len() == 0,
            r.accent_color is None,
            r.spoiler is None,
    {
        Container { component_type: ComponentType::CONTAINER, id: None, components: Vec::new(), accent_color: None, spoiler: None }
    }

    /// Sets spoiler
    pub fn set_spoiler(self, spoiler: bool) -> (r: Container)
        ensures
            r == (Container { spoiler: Some(spoiler), ..self }),
    {
        Container { spoiler: Some(spoiler), ..self }
    }
}

impl Label {
    /// Set the label
    pub fn set_label(self, label: &str) -> (r: Label)
        ensures
            r.label@ == label@,
            r == (Label { label: r.label, ..self }),
    {
        Label { label: string_of(label), ..self }
    }

    /// Set the description
    pub fn set_description(self, description: &str) -> (r: Label)
        ensures
            str_opt(r.description, description@),
            r == (Label { description: r.description, ..self }),
    {
        Label { description: Some(string_of(description)), ..self }
    }
}

/// The slots of an action row that a component takes: a button takes one, a select menu or a
/// text input all five.
pub open spec fn slot_cost(c: Component) -> nat {
    match c {
        Component::Button(_) => 1,
        Component::SelectMenu(_) => 5,
        Component::TextInput(_) => 5,
        _ => 0,
    }
}

/// The slots of an action row that these components take together.
pub open spec fn used_slots(s: Seq<Component>) -> nat
    decreases s.len(),
{
    if s.len() == 0 { 0 } else { used_slots(s.drop_last()) + slot_cost(s.last()) }
}

/// The components of a prefix take no more slots than all of them.
pub proof fn lemma_used_slots_prefix(s: Seq<Component>, k: int)
    requires
        0 <= k <= s.len(),
    ensures
        used_slots(s.take(k)) <= used_slots(s),
    decreases s.len(),
{
    if k == s.len() {
        assert(s.take(k) =~= s);
    } else {
        assert(s.take(k) =~= s.drop_last().take(k));
        lemma_used_slots_prefix(s.drop_last(), k);
    }
}

/// Whether `row` is the empty action row that [`ActionRow::new`] makes.
pub open spec fn is_empty_row(row: ActionRow) -> bool {
    &&& row.component_type == ComponentType::ACTION_ROW
    &&& row.id is None
    &&& row.components@.len() == 0
}

/// Whether `l` is a label with nothing in it yet.
pub open spec fn is_open_label(c: Component) -> bool {
    c matches Component::Label(l) && *l.component is Unknown
}

/// Whether `c` is an action row with room for `n` more slots.
pub open spec fn row_has_room(c: Component, n: nat) -> bool {
    c matches Component::ActionRow(row) && used_slots(row.components@) + n <= 5
}

/// Whether `after` is the row `before` with `c` added at its end.
pub open spec fn row_extended(before: Component, after: Component, c: Component) -> bool {
    &&& before matches Component::ActionRow(b)
    &&& after matches Component::ActionRow(a)
    &&& a.component_type == b.component_type
    &&& a.id == b.id
    &&& a.components@ == b.components@.push(c)
}

/// Whether `after` is the label `before` holding `c`.
pub open spec fn label_filled(before: Component, after: Component, c: Component) -> bool {
    &&& before matches Component::Label(b)
    &&& after matches Component::Label(a)
    &&& a == (Label { component: Box::new(c), ..b })
}

/// Whether the last component of `after` is that of `before` with `c` added, the others unchanged.
pub open spec fn last_holds(before: Seq<Component>, after: Seq<Component>, c: Component) -> bool {
    &&& after.len() == before.len()
    &&& after.drop_last() == before.drop_last()
    &&& (before.last() is ActionRow ==> row_extended(before.last(), after.last(), c))
    &&& (before.last() is Label ==> label_filled(before.last(), after.last(), c))
}

/// The component type of a select menu of this kind.
pub open spec fn select_component_type(menu_type: SelectMenuType) -> ComponentType {
    match menu_type {
        SelectMenuType::STRING => ComponentType::STRING_SELECT,
        SelectMenuType::USER => ComponentType::USER_SELECT,
        SelectMenuType::ROLE => ComponentType::ROLE_SELECT,
        SelectMenuType::MENTIONABLE => ComponentType::MENTIONABLE_SELECT,
        SelectMenuType::CHANNEL => ComponentType::CHANNEL_SELECT,
    }
}

/// The kind of select menu that has this component type, if any.
pub open spec fn select_menu_type_of(component_type: ComponentType) -> Option<SelectMenuType> {
    match component_type {
        ComponentType::STRING_SELECT => Some(SelectMenuType::STRING),
        ComponentType::USER_SELECT => Some(SelectMenuType::USER),
        ComponentType::ROLE_SELECT => Some(SelectMenuType::ROLE),
        ComponentType::MENTIONABLE_SELECT => Some(SelectMenuType::MENTIONABLE),
        ComponentType::CHANNEL_SELECT => Some(SelectMenuType::CHANNEL),
        _ => None,
    }
}

/// Error for a component type that no select menu has
#[derive(Clone, Copy, Debug, PartialEq, Eq, Structural)]
pub struct NotASelectMenuType;

impl NotASelectMenuType {
    /// The text that describes the error.
    pub fn message(&self) -> (r: String)
        ensures
            r@ == "Not a valid component type for select menu"@,
    {
        string_of("Not a valid component type for select menu")
    }
}

impl From<SelectMenuType> for ComponentType {
    fn from(menu_type: SelectMenuType) -> (r: ComponentType)
        ensures
            menu_type == SelectMenuType::STRING ==> r == ComponentType::STRING_SELECT,
            menu_type == SelectMenuType::USER ==> r == ComponentType::USER_SELECT,
            menu_type == SelectMenuType::ROLE ==> r == ComponentType::ROLE_SELECT,
            menu_type == SelectMenuType::MENTIONABLE ==> r == ComponentType::MENTIONABLE_SELECT,
            menu_type == SelectMenuType::CHANNEL ==> r == ComponentType::CHANNEL_SELECT,
    {
        match menu_type {
            SelectMenuType::STRING => ComponentType::STRING_SELECT,
            SelectMenuType::USER => ComponentType::USER_SELECT,
            SelectMenuType::ROLE => ComponentType::ROLE_SELECT,
            SelectMenuType::MENTIONABLE => ComponentType::MENTIONABLE_SELECT,
            SelectMenuType::CHANNEL => ComponentType::CHANNEL_SELECT,
        }
    }
}

impl vstd::std_specs::convert::FromSpecImpl<SelectMenuType> for ComponentType {
    open spec fn obeys_from_spec() -> bool {
        true
    }

    open spec fn from_spec(menu_type: SelectMenuType) -> ComponentType {
        select_component_type(menu_type)
    }
}

impl SelectMenuType {
    /// The kind of select menu that has this component type, or an error for a component type of no select menu
    pub fn try_from_component_type(component_type: ComponentType) -> (r: Result<SelectMenuType, NotASelectMenuType>)
        ensures
            match select_menu_type_of(component_type) {
                Some(t) => r == Ok::<SelectMenuType, NotASelectMenuType>(t),
                None => r == Err::<SelectMenuType, NotASelectMenuType>(NotASelectMenuType),
            },
    {
        match component_type {
            ComponentType::STRING_SELECT => Ok(SelectMenuType::STRING),
            ComponentType::USER_SELECT => Ok(SelectMenuType::USER),
            ComponentType::ROLE_SELECT => Ok(SelectMenuType::ROLE),
            ComponentType::MENTIONABLE_SELECT => Ok(SelectMenuType::MENTIONABLE),
            ComponentType::CHANNEL_SELECT => Ok(SelectMenuType::CHANNEL),
            _ => Err(NotASelectMenuType),
        }
    }
}

impl Components {
    /// Creates a new set of components with an Action Row to start off
    pub fn new() -> (r: Components)
        ensures
            r.0@.len() == 1,
            r.0@[0] matches Component::ActionRow(row) && is_empty_row(row),
    {
        let mut v: Vec<Component> = Vec::new();
        v.push(Component::ActionRow(ActionRow::new()));
        Components(v)
    }

    /// Creates a new set of components with a label to start off. Components can be added with the methods in this struct as if it was a row
    pub fn new_label(label: Label) -> (r: Components)
        ensures
            r.0@ == seq![Component::Label(label)],
    {
        let mut v: Vec<Component> = Vec::new();
        v.push(Component::Label(label));
        Components(v)
    }

    /// Creates an empty set of components useful for components v2 or clearing out components when editing a message
    pub fn empty() -> (r: Components)
        ensures
            r.0@.len() == 0,
    {
        Components(Vec::new())
    }

    /// Adds a component
    pub fn add_component(self, component: Component) -> (r: Components)
        ensures
            r.0@ == self.0@.push(component),
    {
        let mut v = self.0;
        v.push(component);
        Components(v)
    }

    /// Adds a new row\
    /// A single row has 5 slots of space for components
    /// A set holds at most 5 action rows: one more cannot be added (`requires`)
    pub fn add_row(self) -> (r: Components)
        requires
            self.0@.len() < 5,
        ensures
            r.0@.drop_last() == self.0@,
            r.0@.len() == self.0@.len() + 1,
            r.0@.last() matches Component::ActionRow(row) && is_empty_row(row),
    {
        let mut v = self.0;
        v.push(Component::ActionRow(ActionRow::new()));
        proof { assert(v@.drop_last() =~= self.0@); }
        Components(v)
    }

    /// Adds a new label. Component can be added with the methods in this struct as if it was a row
    pub fn add_label(self, label: Label) -> (r: Components)
        ensures
            r.0@ == self.0@.push(Component::Label(label)),
    {
        let mut v = self.0;
        v.push(Component::Label(label));
        Components(v)
    }

    /// Adds a button to the last action row\
    /// A button takes up 1 slot of a row
    /// The last component must be an action row with a free slot (`requires`)
    pub fn add_button(self, button: Button) -> (r: Components)
        requires
            self.0@.len() > 0,
            row_has_room(self.0@.last(), 1),
        ensures
            last_holds(self.0@, r.0@, Component::Button(Box::new(button))),
    {
        self.add_to_last(Component::Button(Box::new(button)))
    }

    /// Adds a select menu to the last action row or label\
    /// A select menu takes up 5 slots of a row
    /// The last component must be an empty action row or a label that holds nothing yet (`requires`)
    pub fn add_select_menu(self, select_menu: SelectMenu) -> (r: Components)
        requires
            self.0@.len() > 0,
            row_has_room(self.0@.last(), 5) || is_open_label(self.0@.last()),
        ensures
            last_holds(self.0@, r.0@, Component::SelectMenu(Box::new(select_menu))),
    {
        self.add_to_last(Component::SelectMenu(Box::new(select_menu)))
    }

    /// Adds a text input to the last action row or label\
    /// A text input takes up 5 slots of a row\
    /// Note: text inputs are only valid for modals.
    /// The last component must be an empty action row or a label that holds nothing yet (`requires`)
    pub fn add_text_input(self, text_input: TextInput) -> (r: Components)
        requires
            self.0@.len() > 0,
            row_has_room(self.0@.last(), 5) || is_open_label(self.0@.last()),
        ensures
            last_holds(self.0@, r.0@, Component::TextInput(text_input)),
    {
        self.add_to_last(Component::TextInput(text_input))
    }

    fn add_to_last(self, c: Component) -> (r: Components)
        requires
            self.0@.len() > 0,
            self.0@.last() is ActionRow || self.0@.last() is Label,
        ensures
            last_holds(self.0@, r.0@, c),
    {
        let mut v = self.0;
        let last = v.pop().unwrap();
        match last {
            Component::ActionRow(mut row) => {
                row.components.push(c);
                v.push(Component::ActionRow(row));
            },
            Component::Label(label) => {
                v.push(Component::Label(label.set_component(c)));
            },
            other => {
                v.push(other);
            },
        }
        proof { assert(v@.drop_last() =~= self.0@.drop_last()); }
        Components(v)
    }
}

impl ActionRow {
    /// Adds a component to the action row
    pub fn add_component(self, component: Component) -> (r: ActionRow)
        ensures
            r.component_type == self.component_type,
            r.id == self.id,
            r.components@ == self.components@.push(component),
    {
        let mut components = self.components;
        components.push(component);
        ActionRow { components, ..self }
    }

    /// The slots of the row that are still free, of its 5
    pub fn available_slots(&self) -> (r: usize)
        requires
            used_slots(self.components@) <= 5,
        ensures
            r == 5 - used_slots(self.components@),
    {
        let mut used: usize = 0;
        let mut i: usize = 0;
        while i < self.components.len()
            invariant
                i <= self.components@.len(),
                used == used_slots(self.components@.take(i as int)),
                used_slots(self.components@) <= 5,
            decreases self.components@.len() - i,
        {
            proof {
                lemma_used_slots_prefix(self.components@, i + 1);
                assert(self.components@.take(i + 1).drop_last() =~= self.components@.take(i as int));
            }
            match &self.components[i] {
                Component::Button(_) => { used = used + 1; },
                Component::SelectMenu(_) => { used = used + 5; },
                Component::TextInput(_) => { used = used + 5; },
                _ => {},
            }
            i = i + 1;
        }
        proof { assert(self.components@.take(i as int) =~= self.components@); }
        5 - used
    }
}

impl Button {
    /// Set the custom_id for a button.\
    /// The command argument is used by the library to choose which command to run when the button is clicked.
    /// The custom_id is formatted as `command/id`
    pub fn set_id(self, command: &str, id: &str) -> (r: Button)
        ensures
            r.custom_id matches Some(c) && c@ == custom_id_text(command@, id@),
            r == (Button { custom_id: r.custom_id, ..self }),
    {
        Button { custom_id: Some(custom_id_string(command, id)), ..self }
    }
}

impl SelectMenu {
    /// Creates a new select menu
    pub fn new(menu_type: SelectMenuType) -> (r: SelectMenu)
        ensures
            r.component_type == select_component_type(menu_type),
            r.id is None,
            r.custom_id@.len() == 0,
            r.options is None,
            r.channel_types is None,
            r.placeholder is None,
            r.default_values is None,
            r.min_values is None,
            r.max_values is None,
            r.required is None,
            r.disabled == Some(false),
            r.resolved is None,
            r.values is None,
    {
        SelectMenu {
            component_type: ComponentType::from(menu_type),
            id: None,
            custom_id: String::new(),
            options: None,
            channel_types: None,
            placeholder: None,
            default_values: None,
            min_values: None,
            max_values: None,
            required: None,
            disabled: Some(false),
            resolved: None,
            values: None,
        }
    }

    /// Get the type of the select menu
    /// The menu's component type must be that of a select menu (`requires`)
    pub fn get_type(&self) -> (r: SelectMenuType)
        requires
            select_menu_type_of(self.component_type) is Some,
        ensures
            select_menu_type_of(self.component_type) == Some(r),
    {
        match SelectMenuType::try_from_component_type(self.component_type) {
            Ok(t) => t,
            Err(_) => SelectMenuType::STRING,
        }
    }

    /// Set the custom_id for a select menu.\
    /// The command argument is used by the library to choose which command to run when the select menu is updated.
    /// The custom_id is formatted as `command/id`\
    /// The command name will be ignored when used in a modal.
    pub fn set_id(self, command: &str, id: &str) -> (r: SelectMenu)
        ensures
            r.custom_id@ == custom_id_text(command@, id@),
            r == (SelectMenu { custom_id: r.custom_id, ..self }),
    {
        SelectMenu { custom_id: custom_id_string(command, id), ..self }
    }

    /// Add a default value to a select menu, for auto-populated select menus
    pub fn add_default_value(self, id: &str, value_type: DefaultValueType) -> (r: SelectMenu)
        ensures
            r.default_values matches Some(v) && v@.len() == vec_or_empty(self.default_values).len() + 1
                && v@.drop_last() == vec_or_empty(self.default_values)
                && v@.last().id@ == id@ && v@.last().value_type == value_type,
            r == (SelectMenu { default_values: r.default_values, ..self }),
    {
        let d = DefaultValue { id: string_of(id), value_type };
        let r = SelectMenu { default_values: Some(push_onto(self.default_values, d)), ..self };
        proof { assert(vec_or_empty(self.default_values).push(d).drop_last() =~= vec_or_empty(self.default_values)); }
        r
    }
}

impl Section {
    /// Creates a new Section
    pub fn new() -> (r: Section)
        ensures
            r.component_type == ComponentType::SECTION,
            r.id is None,
            r.components@.len() == 0,
            *r.accessory is Unknown,
    {
        Section { component_type: ComponentType::SECTION, id: None, components: Vec::new(), accessory: Box::new(Component::Unknown) }
    }

    /// Add a component to the section
    pub fn add_component(self, component: Component) -> (r: Section)
        ensures
            r.component_type == self.component_type,
            r.id == self.id,
            r.accessory == self.accessory,
            r.components@ == self.components@.push(component),
    {
        let mut components = self.components;
        components.push(component);
        Section { components, ..self }
    }

    /// Set the accessory of the section
    pub fn set_accessory(self, component: Component) -> (r: Section)
        ensures
            r == (Section { accessory: Box::new(component), ..self }),
    {
        Section { accessory: Box::new(component), ..self }
    }
}

impl Thumbnail {
    /// Creates a new Thumbnail with the media at this url
    pub fn new(url: &str) -> (r: Thumbnail)
        ensures
            r.component_type == ComponentType::THUMBNAIL,
            r.id is None,
            r.media.url@ == url@,
            r.media.proxy_url is None && r.media.height is None && r.media.width is None,
            r.media.content_type is None && r.media.attachment_id is None,
            r.description is None,
            r.spoiler is None,
    {
        Thumbnail { component_type: ComponentType::THUMBNAIL, id: None, media: UnfurledMediaItem::new(url), description: None, spoiler: None }
    }

    /// Set the media of the thumbnail
    pub fn set_media(self, url: &str) -> (r: Thumbnail)
        ensures
            r.media.url@ == url@,
            r.media.proxy_url is None && r.media.height is None && r.media.width is None,
            r.media.content_type is None && r.media.attachment_id is None,
            r == (Thumbnail { media: r.media, ..self }),
    {
        Thumbnail { media: UnfurledMediaItem::new(url), ..self }
    }
}

impl MediaGallery {
    /// Add an item to the gallery
    pub fn add_item(self, item: MediaGalleryItem) -> (r: MediaGallery)
        ensures
            r.component_type == self.component_type,
            r.id == self.id,
            r.items@ == self.items@.push(item),
    {
        let mut items = self.items;
        items.push(item);
        MediaGallery { items, ..self }
    }
}

impl MediaGalleryItem {
    /// Creates a new gallery item with the media at this url
    pub fn new(url: &str) -> (r: MediaGalleryItem)
        ensures
            r.media.url@ == url@,
            r.media.proxy_url is None && r.media.height is None && r.media.width is None,
            r.media.content_type is None && r.media.attachment_id is None,
            r.description is None,
            r.spoiler is None,
    {
        MediaGalleryItem { media: UnfurledMediaItem::new(url), description: None, spoiler: None }
    }

    /// Set the media of the item
    pub fn set_media(self, url: &str) -> (r: MediaGalleryItem)
        ensures
            r.media.url@ == url@,
            r.media.proxy_url is None && r.media.height is None && r.media.width is None,
            r.media.content_type is None && r.media.attachment_id is None,
            r == (MediaGalleryItem { media: r.media, ..self }),
    {
        MediaGalleryItem { media: UnfurledMediaItem::new(url), ..self }
    }
}

impl File {
    /// Creates a new File component with the file at this url
    pub fn new(url: &str) -> (r: File)
        ensures
            r.component_type == ComponentType::FILE,
            r.id is None,
            r.file.url@ == url@,
            r.file.proxy_url is None && r.file.height is None && r.file.width is None,
            r.file.content_type is None && r.file.attachment_id is None,
            r.spoiler is None,
            r.name is None,
            r.size is None,
    {
        File { component_type: ComponentType::FILE, id: None, file: UnfurledMediaItem::new(url), spoiler: None, name: None, size: None }
    }

    /// Set the file of the component
    pub fn set_file(self, url: &str) -> (r: File)
        ensures
            r.file.url@ == url@,
            r.file.proxy_url is None && r.file.height is None && r.file.width is None,
            r.file.content_type is None && r.file.attachment_id is None,
            r == (File { file: r.file, ..self }),
    {
        File { file: UnfurledMediaItem::new(url), ..self }
    }
}

impl Container {
    /// Add a component to the container
    pub fn add_component(self, component: Component) -> (r: Container)
        ensures
            r.component_type == self.component_type,
            r.id == self.id,
            r.accent_color == self.accent_color,
            r.spoiler == self.spoiler,
            r.components@ == self.components@.push(component),
    {
        let mut components = self.components;
        components.push(component);
        Container { components, ..self }
    }

    /// Set the accent color of the container from a hex color code; an error where the text is no color code
    pub fn set_accent_color(self, accent_color: &str) -> (r: Result<Container, ColorParseError>)
        ensures
            match parse_color(accent_color@) {
                Some(v) => r matches Ok(c) && c.accent_color == Some(Color(v)) && c.component_type == self.component_type
                    && c.id == self.id && c.spoiler == self.spoiler && c.components == self.components,
                None => r == Err::<Container, ColorParseError>(ColorParseError),
            },
    {
        match Color::from_hex_str(accent_color) {
            Ok(color) => Ok(Container { accent_color: Some(color), ..self }),
            Err(e) => Err(e),
        }
    }
}

impl Label {
    /// Creates a new Label with this text, holding no component yet
    pub fn new(label: &str) -> (r: Label)
        ensures
            r.component_type == ComponentType::LABEL,
            r.id is None,
            r.label@ == label@,
            r.description is None,
            *r.component is Unknown,
    {
        Label { component_type: ComponentType::LABEL, id: None, label: string_of(label), description: None, component: Box::new(Component::Unknown) }
    }

    /// Set the component within the label
    pub fn set_component(self, component: Component) -> (r: Label)
        ensures
            r == (Label { component: Box::new(component), ..self }),
    {
        Label { component: Box::new(component), ..self }
    }
}

/// A button takes one slot of a row, and a select menu or a text input all five: adding one of
/// them to the last row with [`Components::add_button`], [`Components::add_select_menu`] or
/// [`Components::add_text_input`] leaves that row with that many fewer free slots.
pub proof fn law_added_component_slots(before: Seq<Component>, after: Seq<Component>, c: Component)
    requires
        before.len() > 0,
        before.last() is ActionRow,
        last_holds(before, after, c),
    ensures
        after.last() is ActionRow,
        used_slots(after.last()->ActionRow_0.components@) == used_slots(before.last()->ActionRow_0.components@) + slot_cost(c),
        after.drop_last() == before.drop_last(),
{
    let b = before.last()->ActionRow_0.components@;
    let a = after.last()->ActionRow_0.components@;
    assert(a == b.push(c));
    assert(a.drop_last() =~= b);
}

impl ComponentType {
    /// Discord's number for a value reads back as that value.
    pub proof fn law_code_round_trip(self)
        ensures
            ComponentType::spec_from_code(self.spec_code()) == Some(self),
    {
    }
}

impl ButtonStyle {
    /// Discord's number for a value reads back as that value.
    pub proof fn law_code_round_trip(self)
        ensures
            ButtonStyle::spec_from_code(self.spec_code()) == Some(self),
    {
    }
}

impl TextInputStyle {
    /// Discord's number for a value reads back as that value.
    pub proof fn law_code_round_trip(self)
        ensures
            TextInputStyle::spec_from_code(self.spec_code()) == Some(self),
    {
    }
}

impl SeparatorSpacing {
    /// Discord's number for a value reads back as that value.
    pub proof fn law_code_round_trip(self)
        ensures
            SeparatorSpacing::spec_from_code(self.spec_code()) == Some(self),
    {
    }
}

impl Default for Components {
    /// The same as [`Components::new`]
    fn default() -> (r: Components)
        ensures
            r.0@.len() == 1,
            r.0@[0] matches Component::ActionRow(row) && is_empty_row(row),
    {
        Components::new()
    }
}

impl Default for ActionRow {
    /// The same as [`ActionRow::new`]
    fn default() -> (r: ActionRow)
        ensures
            r.component_type == ComponentType::ACTION_ROW,
            r.id is None,
            r.components@.len() == 0,
    {
        ActionRow::new()
    }
}

impl Default for Button {
    /// The same as [`Button::new`]
    fn default() -> (r: Button)
        ensures
            r.component_type == ComponentType::BUTTON,
            r.id is None,
            r.style == ButtonStyle::PRIMARY,
            r.label is None,
            r.emoji is None,
            r.custom_id is None,
            r.sku_id is None,
            r.url is None,
            r.disabled == Some(false),
    {
        Button::new()
    }
}

impl Default for TextInput {
    /// The same as [`TextInput::new`]
    fn default() -> (r: TextInput)
        ensures
            r.component_type == ComponentType::TEXT_INPUT,
            r.id is None,
            r.custom_id@ == Seq::<char>::empty(),
            r.style == TextInputStyle::SHORT,
            r.label@ == Seq::<char>::empty(),
            r.min_length is None,
            r.max_length is None,
            r.required is None,
            r.value is None,
            r.placeholder is None,
    {
        TextInput::new()
    }
}

impl Default for Section {
    /// The same as [`Section::new`]
    fn default() -> (r: Section)
        ensures
            r.component_type == ComponentType::SECTION,
            r.id is None,
            r.components@.len() == 0,
            *r.accessory is Unknown,
    {
        Section::new()
    }
}

impl Default for MediaGallery {
    /// The same as [`MediaGallery::new`]
    fn default() -> (r: MediaGallery)
        ensures
            r.component_type == ComponentType::MEDIA_GALLERY,
            r.id is None,
            r.items@.len() == 0,
    {
        MediaGallery::new()
    }
}

impl Default for Separator {
    /// The same as [`Separator::new`]
    fn default() -> (r: Separator)
        ensures
            r.component_type == ComponentType::SEPARATOR,
            r.id is None,
            r.divider is None,
            r.spacing is None,
    {
        Separator::new()
    }
}

impl Default for Container {
    /// The same as [`Container::new`]
    fn default() -> (r: Container)
        ensures
            r.component_type == ComponentType::CONTAINER,
            r.id is None,
            r.components@.len() == 0,
            r.accent_color is None,
            r.spoiler is None,
    {
        Container::new()
    }
}

impl Default for SelectMenu {
    /// A string select menu, as [`SelectMenu::new`] makes it
    fn default() -> (r: SelectMenu)
        ensures
            r.component_type == ComponentType::STRING_SELECT,
            r.id is None,
            r.custom_id@.len() == 0,
            r.options is None,
            r.channel_types is None,
            r.placeholder is None,
            r.default_values is None,
            r.min_values is None,
            r.max_values is None,
            r.required is None,
            r.disabled == Some(false),
            r.resolved is None,
            r.values is None,
    {
        SelectMenu::new(SelectMenuType::STRING)
    }
}

impl Default for TextDisplay {
    /// A Text Display with no content
    fn default() -> (r: TextDisplay)
        ensures
            r.component_type == ComponentType::TEXT_DISPLAY,
            r.id is None,
            r.content@.len() == 0,
    {
        proof { reveal_strlit(""); }
        TextDisplay::new("")
    }
}

impl Default for TextInputStyle {
    /// Short, single-line input
    fn default() -> (r: TextInputStyle)
        ensures
            r == TextInputStyle::SHORT,
    {
        TextInputStyle::SHORT
    }
}

impl From<ActionRow> for Component {
    fn from(value: ActionRow) -> (r: Component) {
        Component::ActionRow(value)
    }
}

impl vstd::std_specs::convert::FromSpecImpl<ActionRow> for Component {
    open spec fn obeys_from_spec() -> bool {
        true
    }

    open spec fn from_spec(value: ActionRow) -> Component {
        Component::ActionRow(value)
    }
}

impl From<Button> for Component {
    fn from(value: Button) -> (r: Component) {
        Component::Button(Box::new(value))
    }
}

impl vstd::std_specs::convert::FromSpecImpl<Button> for Component {
    open spec fn obeys_from_spec() -> bool {
        true
    }

    open spec fn from_spec(value: Button) -> Component {
        Component::Button(Box::new(value))
    }
}

impl From<SelectMenu> for Component {
    fn from(value: SelectMenu) -> (r: Component) {
        Component::SelectMenu(Box::new(value))
    }
}

impl vstd::std_specs::convert::FromSpecImpl<SelectMenu> for Component {
    open spec fn obeys_from_spec() -> bool {
        true
    }

    open spec fn from_spec(value: SelectMenu) -> Component {
        Component::SelectMenu(Box::new(value))
    }
}

impl From<TextInput> for Component {
    fn from(value: TextInput) -> (r: Component) {
        Component::TextInput(value)
    }
}

impl vstd::std_specs::convert::FromSpecImpl<TextInput> for Component {
    open spec fn obeys_from_spec() -> bool {
        true
    }

    open spec fn from_spec(value: TextInput) -> Component {
        Component::TextInput(value)
    }
}

impl From<Section> for Component {
    fn from(value: Section) -> (r: Component) {
        Component::Section(value)
    }
}

impl vstd::std_specs::convert::FromSpecImpl<Section> for Component {
    open spec fn obeys_from_spec() -> bool {
        true
    }

    open spec fn from_spec(value: Section) -> Component {
        Component::Section(value)
    }
}

impl From<TextDisplay> for Component {
    fn from(value: TextDisplay) -> (r: Component) {
        Component::TextDisplay(value)
    }
}

impl vstd::std_specs::convert::FromSpecImpl<TextDisplay> for Component {
    open spec fn obeys_from_spec() -> bool {
        true
    }

    open spec fn from_spec(value: TextDisplay) -> Component {
        Component::TextDisplay(value)
    }
}

impl From<Thumbnail> for Component {
    fn from(value: Thumbnail) -> (r: Component) {
        Component::Thumbnail(value)
    }
}

impl vstd::std_specs::convert::FromSpecImpl<Thumbnail> for Component {
    open spec fn obeys_from_spec() -> bool {
        true
    }

    open spec fn from_spec(value: Thumbnail) -> Component {
        Component::Thumbnail(value)
    }
}

impl From<MediaGallery> for Component {
    fn from(value: MediaGallery) -> (r: Component) {
        Component::MediaGallery(value)
    }
}

impl vstd::std_specs::convert::FromSpecImpl<MediaGallery> for Component {
    open spec fn obeys_from_spec() -> bool {
        true
    }

    open spec fn from_spec(value: MediaGallery) -> Component {
        Component::MediaGallery(value)
    }
}

impl From<File> for Component {
    fn from(value: File) -> (r: Component) {
        Component::File(value)
    }
}

impl vstd::std_specs::convert::FromSpecImpl<File> for Component {
    open spec fn obeys_from_spec() -> bool {
        true
    }

    open spec fn from_spec(value: File) -> Component {
        Component::File(value)
    }
}

impl From<Separator> for Component {
    fn from(value: Separator) -> (r: Component) {
        Component::Separator(value)
    }
}

impl vstd::std_specs::convert::FromSpecImpl<Separator> for Component {
    open spec fn obeys_from_spec() -> bool {
        true
    }

    open spec fn from_spec(value: Separator) -> Component {
        Component::Separator(value)
    }
}

impl From<Container> for Component {
    fn from(value: Container) -> (r: Component) {
        Component::Container(value)
    }
}

impl vstd::std_specs::convert::FromSpecImpl<Container> for Component {
    open spec fn obeys_from_spec() -> bool {
        true
    }

    open spec fn from_spec(value: Container) -> Component {
        Component::Container(value)
    }
}

impl From<Label> for Component {
    fn from(value: Label) -> (r: Component) {
        Component::Label(value)
    }
}

impl vstd::std_specs::convert::FromSpecImpl<Label> for Component {
    open spec fn obeys_from_spec() -> bool {
        true
    }

    open spec fn from_spec(value: Label) -> Component {
        Component::Label(value)
    }
}

/// A select menu's component type is Discord's type for its kind (3 string, 5 user, 6 role,
/// 7 mentionable, 8 channel), and it reads back as that kind: no two kinds share a component
/// type, and only these five component types are kinds of select menus.
pub proof fn law_select_menu_component_type(t: SelectMenuType, c: ComponentType)
    ensures
        select_menu_type_of(select_component_type(t)) == Some(t),
        t == SelectMenuType::STRING ==> select_component_type(t).spec_code() == 3,
        t == SelectMenuType::USER ==> select_component_type(t).spec_code() == 5,
        t == SelectMenuType::ROLE ==> select_component_type(t).spec_code() == 6,
        t == SelectMenuType::MENTIONABLE ==> select_component_type(t).spec_code() == 7,
        t == SelectMenuType::CHANNEL ==> select_component_type(t).spec_code() == 8,
        select_menu_type_of(c) == Some(t) ==> c == select_component_type(t),
{
}

} // verus!
