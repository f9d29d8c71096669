use slashook::commands::MessageResponse;
use slashook::structs::components::{
    ActionRow, Button, ButtonStyle, Component, Container, File as FileComponent, Label, MediaGallery, MediaGalleryItem,
    Section, SelectMenu, SelectMenuType, Separator, SeparatorSpacing, TextDisplay, TextInput, TextInputStyle, Thumbnail,
};
use slashook::structs::embeds::Embed;
use slashook::structs::messages::{MessageFlags, MessageReference};
use slashook::structs::utils::Color;
use slashook::structs::{Emoji, Permissions};

#[test]
fn message_set_tts() {
    let response = MessageResponse::from_text("This message is text to speech").set_tts(true);
    assert_eq!(response.tts, Some(true));
}

#[test]
fn message_set_content() {
    let response = MessageResponse::from_text("This content will be replaced").set_content("I rule the world!");
    assert_eq!(response.content, Some(String::from("I rule the world!")));
}

#[test]
fn message_add_embed() {
    let embed = Embed::new().set_description("This is an embed");
    let response = MessageResponse::from_text("Look at my embed:").add_embed(embed);
    assert_eq!(response.embeds.unwrap()[0].description, Some(String::from("This is an embed")));
}

#[test]
fn message_clear_embeds() {
    let response = MessageResponse::from_text("Embeds cleared").clear_embeds();
    assert_eq!(response.embeds.unwrap().len(), 0);
}

#[test]
fn message_set_ephemeral() {
    let response = MessageResponse::from_text("This is for your eyes only!").set_ephemeral(true);
    assert_eq!(response.flags.unwrap().contains(MessageFlags::EPHEMERAL()), true);
}

#[test]
fn message_set_suppress_embeds() {
    let response = MessageResponse::from_text("No embeds here").set_suppress_embeds(true);
    assert_eq!(response.flags.unwrap().contains(MessageFlags::SUPPRESS_EMBEDS()), true);
}

#[test]
fn message_set_suppress_notifications() {
    let response = MessageResponse::from_text("No notifications @here").set_suppress_notifications(true);
    assert_eq!(response.flags.unwrap().contains(MessageFlags::SUPPRESS_NOTIFICATIONS()), true);
}

#[test]
fn message_set_as_voice_message() {
    let response = MessageResponse::from_text("").set_as_voice_message(true);
    assert_eq!(response.flags.unwrap().contains(MessageFlags::IS_VOICE_MESSAGE()), true);
}

#[test]
fn message_clear_attachments() {
    let response = MessageResponse::from_text("Attachments deleted").clear_attachments();
    assert_eq!(response.attachments.unwrap().len(), 0);
}

#[test]
fn message_set_message_reference() {
    let reference = MessageReference {
        message_id: Some(String::from("916413462467465246")),
        channel_id: None,
        guild_id: None,
        fail_if_not_exists: None,
    };
    let response = MessageResponse::from_text("This is a reply").set_message_reference(reference);
    assert_eq!(response.message_reference.unwrap().message_id, Some(String::from("916413462467465246")));
}

#[test]
fn message_add_sticker() {
    let response = MessageResponse::from_text(":)").add_sticker("749044136589393960");
    assert_eq!(response.sticker_ids.unwrap().remove(0), String::from("749044136589393960"));
}

#[test]
fn action_row_add_component() {
    let button = Button::new().set_label("A button");
    let row = ActionRow::new().add_component(Component::Button(Box::new(button)));
    assert_eq!(row.components.len(), 1);
}

#[test]
fn button_set_style() {
    let button = Button::new().set_style(ButtonStyle::DANGER);
    assert!(matches!(button.style, ButtonStyle::DANGER));
}

#[test]
fn button_set_label() {
    let button = Button::new().set_label("Cool button");
    assert_eq!(button.label, Some(String::from("Cool button")));
}

#[test]
fn button_set_emoji() {
    let button = Button::new().set_emoji(Emoji::new_standard_emoji("👌🏻"));
    assert_eq!(button.emoji.unwrap().name, Some(String::from("👌🏻")));
}

#[test]
fn button_set_id() {
    let button = Button::new().set_id("example_button", "cool-button");
    assert_eq!(button.custom_id, Some(String::from("example_button/cool-button")));
}

#[test]
fn button_set_sku_id() {
    let button = Button::new().set_style(ButtonStyle::PREMIUM).set_sku_id("1180218955160375406");
    assert_eq!(button.sku_id, Some(String::from("1180218955160375406")));
}

#[test]
fn button_set_url() {
    let button = Button::new().set_style(ButtonStyle::LINK).set_url("https://example.com");
    assert_eq!(button.url, Some(String::from("https://example.com")));
}

#[test]
fn button_set_disabled() {
    let button = Button::new().set_disabled(true);
    assert_eq!(button.disabled, Some(true));
}

#[test]
fn select_menu_set_id() {
    let select_menu = SelectMenu::new(SelectMenuType::STRING).set_id("example_select", "choice");
    assert_eq!(select_menu.custom_id, String::from("example_select/choice"));
}

#[test]
fn select_menu_set_placeholder() {
    let select_menu = SelectMenu::new(SelectMenuType::STRING).set_placeholder("Choose an option");
    assert_eq!(select_menu.placeholder, Some(String::from("Choose an option")));
}

#[test]
fn select_menu_set_min_values() {
    let select_menu = SelectMenu::new(SelectMenuType::STRING).set_min_values(2);
    assert_eq!(select_menu.min_values, Some(2));
}

#[test]
fn select_menu_set_max_values() {
    let select_menu = SelectMenu::new(SelectMenuType::STRING).set_max_values(5);
    assert_eq!(select_menu.max_values, Some(5));
}

#[test]
fn select_menu_set_required() {
    let select_menu = SelectMenu::new(SelectMenuType::STRING).set_required(false);
    assert_eq!(select_menu.required, Some(false));
}

#[test]
fn select_menu_set_disabled() {
    let select_menu = SelectMenu::new(SelectMenuType::STRING).set_disabled(true);
    assert_eq!(select_menu.disabled, Some(true));
}

#[test]
fn text_input_set_id() {
    let text_input = TextInput::new().set_id("input");
    assert_eq!(text_input.custom_id, String::from("input"));
}

#[test]
fn text_input_set_style() {
    let text_input = TextInput::new().set_style(TextInputStyle::PARAGRAPH);
    assert!(matches!(text_input.style, TextInputStyle::PARAGRAPH));
}

#[test]
fn text_input_set_label() {
    let text_input = TextInput::new().set_label("Cool text input");
    assert_eq!(text_input.label, String::from("Cool text input"));
}

#[test]
fn text_input_set_lengths() {
    let text_input = TextInput::new().set_min_length(100).set_max_length(2000);
    assert_eq!(text_input.min_length, Some(100));
    assert_eq!(text_input.max_length, Some(2000));
}

#[test]
fn text_input_set_required() {
    let text_input = TextInput::new().set_required(true);
    assert_eq!(text_input.required, Some(true));
}

#[test]
fn text_input_set_value() {
    let text_input = TextInput::new().set_value("Something is already written here");
    assert_eq!(text_input.value, Some(String::from("Something is already written here")));
}

#[test]
fn text_input_set_placeholder() {
    let text_input = TextInput::new().set_placeholder("Write something here");
    assert_eq!(text_input.placeholder, Some(String::from("Write something here")));
}

#[test]
fn section_add_component() {
    let text = TextDisplay::new("some text inside a section");
    let section = Section::new().add_component(Component::TextDisplay(text));
    assert_eq!(section.components.len(), 1);
}

#[test]
fn section_set_accessory() {
    let button = Button::new().set_label("Accessory button");
    let section = Section::new().set_accessory(Component::Button(Box::new(button)));
    assert!(matches!(*section.accessory, Component::Button(_)));
}

#[test]
fn text_display_content() {
    let text = TextDisplay::new("Some text");
    assert_eq!(text.content, String::from("Some text"));
    let text = text.set_content("Actually this text");
    assert_eq!(text.content, String::from("Actually this text"));
}

#[test]
fn thumbnail_media() {
    let thumbnail = Thumbnail::new("https://example.com/image.png");
    assert_eq!(thumbnail.media.url, String::from("https://example.com/image.png"));
    let thumbnail = thumbnail.set_media("https://example.com/image2.jpg");
    assert_eq!(thumbnail.media.url, String::from("https://example.com/image2.jpg"));
}

#[test]
fn thumbnail_description_and_spoiler() {
    let thumbnail = Thumbnail::new("https://example.com/image.png").set_description("An example image").set_spoiler(true);
    assert_eq!(thumbnail.description, Some(String::from("An example image")));
    assert_eq!(thumbnail.spoiler, Some(true));
}

#[test]
fn media_gallery_add_item() {
    let item = MediaGalleryItem::new("https://example.com/image.png");
    let gallery = MediaGallery::new().add_item(item);
    assert_eq!(gallery.items.len(), 1);
}

#[test]
fn media_gallery_item_fields() {
    let item = MediaGalleryItem::new("https://example.com/image.png");
    assert_eq!(item.media.url, String::from("https://example.com/image.png"));
    let item = item.set_media("https://example.com/image2.jpg").set_description("An example image").set_spoiler(true);
    assert_eq!(item.media.url, String::from("https://example.com/image2.jpg"));
    assert_eq!(item.description, Some(String::from("An example image")));
    assert_eq!(item.spoiler, Some(true));
}

#[test]
fn file_component_fields() {
    let file = FileComponent::new("attachment://image.png");
    assert_eq!(file.file.url, String::from("attachment://image.png"));
    let file = file.set_file("attachment://image2.jpg").set_spoiler(true);
    assert_eq!(file.file.url, String::from("attachment://image2.jpg"));
    assert_eq!(file.spoiler, Some(true));
}

#[test]
fn separator_fields() {
    let separator = Separator::new().set_divider(false).set_spacing(SeparatorSpacing::LARGE);
    assert_eq!(separator.divider, Some(false));
    assert!(matches!(separator.spacing, Some(SeparatorSpacing::LARGE)));
}

#[test]
fn container_add_component() {
    let text = TextDisplay::new("some text");
    let container = Container::new().add_component(Component::TextDisplay(text));
    assert_eq!(container.components.len(), 1);
}

#[test]
fn container_set_accent_color() {
    let text = TextDisplay::new("some text in a blue accented container");
    let container = Container::new().add_component(Component::TextDisplay(text)).set_accent_color("#0000FF").unwrap();
    assert_eq!(container.accent_color.unwrap().to_hex(), "#0000ff");
}

#[test]
fn container_set_spoiler() {
    let text = TextDisplay::new("spoilered text");
    let container = Container::new().add_component(Component::TextDisplay(text)).set_spoiler(true);
    assert_eq!(container.spoiler, Some(true));
}

#[test]
fn label_fields() {
    let label = Label::new("Labeled component");
    assert_eq!(label.label, String::from("Labeled component"));
    let label = label.set_label("Different label");
    assert_eq!(label.label, String::from("Different label"));
}

#[test]
fn label_with_text_input() {
    let text_input = TextInput::new().set_id("input");
    let label = Label::new("Cool text input").set_description("Isn't it so cool?").set_component(Component::TextInput(text_input));
    assert_eq!(label.description, Some(String::from("Isn't it so cool?")));
    assert!(matches!(*label.component, Component::TextInput(_)));
}

#[test]
fn embed_set_title_description_url() {
    let embed = Embed::new().set_title("My cool title!").set_description("A good description").set_url("https://example.com");
    assert_eq!(embed.title, Some(String::from("My cool title!")));
    assert_eq!(embed.description, Some(String::from("A good description")));
    assert_eq!(embed.url, Some(String::from("https://example.com")));
}

#[test]
fn embed_set_color() {
    let embed = Embed::new().set_color_hex("#c0ffee").unwrap();
    assert_eq!(embed.color.unwrap().0, 0xc0ffee);
}

#[test]
fn embed_set_footer() {
    let embed = Embed::new().set_footer("A sneaky footer", None);
    assert_eq!(embed.footer.unwrap().text, String::from("A sneaky footer"));
}

#[test]
fn embed_set_image_and_thumbnail() {
    let url = "https://canary.discord.com/assets/7c8f476123d28d103efe381543274c25.png";
    let embed = Embed::new().set_image(url).set_thumbnail(url);
    assert_eq!(embed.clone().image.unwrap().url, String::from(url));
    assert_eq!(embed.thumbnail.unwrap().url, String::from(url));
}

#[test]
fn embed_set_author() {
    let embed = Embed::new().set_author("A Discord user", None, Some("https://canary.discord.com/assets/7c8f476123d28d103efe381543274c25.png"));
    assert_eq!(embed.author.unwrap().name, String::from("A Discord user"));
}

#[test]
fn embed_add_field() {
    let embed = Embed::new().add_field("Field title", "Field description", false);
    assert_eq!(embed.fields.unwrap()[0].name, String::from("Field title"));
}

#[test]
fn emoji_new_standard() {
    let emoji = Emoji::new_standard_emoji("👌🏻");
    assert_eq!(emoji.name, Some(String::from("👌🏻")));
}

#[test]
fn emoji_mention_custom() {
    let emoji = Emoji::new_custom_emoji("356549630474846209", "Thonk", false);
    assert_eq!(emoji.mention(), "<:Thonk:356549630474846209>");
}

#[test]
fn emoji_mention_animated_and_standard() {
    let emoji = Emoji::new_custom_emoji("837407035862679573", "fastnod", true);
    assert_eq!(emoji.mention(), "<a:fastnod:837407035862679573>");
    let normal_emoji = Emoji::new_standard_emoji("👌🏻");
    assert_eq!(normal_emoji.mention(), "👌🏻");
}

#[test]
fn permissions_contains() {
    let permissions = Permissions::SEND_MESSAGES().union(Permissions::CONNECT());
    assert_eq!(permissions.contains(Permissions::SEND_MESSAGES()), true);
    assert_eq!(permissions.contains(Permissions::MANAGE_MESSAGES()), false);
}

#[test]
fn color_from_hex() {
    let color = Color::from_hex_str("#c0ffee").unwrap();
    assert_eq!(color.0, 0xc0ffee);
}

#[test]
fn color_to_hex() {
    let color = Color::from(0xc0ffee);
    let hex = color.to_hex();
    assert_eq!(hex, "#c0ffee");
}
