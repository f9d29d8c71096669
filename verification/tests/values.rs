use slashook::structs::components::{ActionRow, Button, Component, ComponentType, Components, SelectMenu, SelectMenuType, TextDisplay, TextInputStyle};
use slashook::structs::embeds::Embed;
use slashook::structs::guilds::{unix_timestamp, GuildOnboardingPrompt, GuildOnboardingPromptOption};
use slashook::commands::{MessageResponse, Subcommand};
use slashook::structs::interactions::{ApplicationCommandOption, InteractionOptionType, OptionValue};
use slashook::structs::polls::{PollAnswer, PollMedia};
use slashook::structs::json::JsonValue;
use slashook::structs::messages::Attachment;
use slashook::structs::roles::{Role, RoleColors, RoleFlags};
use slashook::structs::utils::File;
use slashook::structs::Permissions;

#[test]
fn option_value_text_of_strings_and_numbers() {
  assert_eq!(OptionValue::String(String::from("hi")).to_text(), Some(String::from("\"hi\"")));
  assert_eq!(OptionValue::Integer(-42).to_text(), Some(String::from("-42")));
  assert_eq!(OptionValue::Integer(0).to_text(), Some(String::from("0")));
  assert_eq!(OptionValue::Boolean(true).to_text(), Some(String::from("true")));
  assert_eq!(OptionValue::Boolean(false).to_text(), Some(String::from("false")));
}

#[test]
fn option_value_text_leaves_floats_and_json_out() {
  assert_eq!(OptionValue::Number(1.5f64.to_bits()).to_text(), None);
  assert_eq!(OptionValue::Other(JsonValue::Null).to_text(), None);
}

#[test]
fn option_value_text_of_a_role_is_its_quoted_id() {
  let role = Role {
    id: String::from("41771983423143936"),
    name: String::from("WE DEM BOYZZ!!!!!!"),
    colors: RoleColors::new(),
    hoist: true,
    icon: None,
    unicode_emoji: None,
    position: 1,
    permissions: Permissions::from_bits_truncate(66321471),
    managed: false,
    mentionable: false,
    tags: None,
    flags: RoleFlags::from_bits_retain(0),
  };
  assert_eq!(OptionValue::Role(role).to_text(), Some(String::from("\"41771983423143936\"")));
}

#[test]
fn option_value_text_of_an_attachment_is_its_url() {
  let file = File { filename: String::from("a.png"), data: vec![], description: None, duration_secs: None, waveform: None };
  let mut attachment = Attachment::from_file(String::from("0"), &file);
  attachment.url = String::from("https://cdn.discordapp.com/attachments/1/2/a.png");
  assert_eq!(OptionValue::Attachment(attachment).to_text(), Some(String::from("https://cdn.discordapp.com/attachments/1/2/a.png")));
}

#[test]
fn component_parts_convert_into_components() {
  let button: Component = Button::new().set_label("Click").into();
  assert!(matches!(button, Component::Button(ref b) if b.label == Some(String::from("Click"))));
  let row = Component::from(ActionRow::new());
  assert!(matches!(row, Component::ActionRow(ref r) if r.components.is_empty()));
  let menu = Component::from(SelectMenu::new(SelectMenuType::USER));
  assert!(matches!(menu, Component::SelectMenu(ref m) if m.component_type == ComponentType::USER_SELECT));
  let display = Component::from(TextDisplay::new("hello"));
  assert!(matches!(display, Component::TextDisplay(ref d) if d.content == "hello"));
}

#[test]
fn defaults_are_what_new_makes() {
  assert!(matches!(TextInputStyle::default(), TextInputStyle::SHORT));
  let menu = SelectMenu::default();
  assert_eq!(menu.component_type, ComponentType::STRING_SELECT);
  assert_eq!(menu.disabled, Some(false));
  assert_eq!(TextDisplay::default().content, "");
  assert_eq!(Components::default().0.len(), 1);
  assert!(Embed::default().fields.is_none());
}

#[test]
fn message_response_from_text_and_embed() {
  let text = MessageResponse::from("This is a reply");
  assert_eq!(text.content, Some(String::from("This is a reply")));
  assert_eq!(text.tts, Some(false));
  assert!(text.embeds.is_none());
  let owned = MessageResponse::from(String::from("hi"));
  assert_eq!(owned.content, Some(String::from("hi")));
  let embed = MessageResponse::from(Embed::new().set_title("Title"));
  assert!(embed.content.is_none());
  assert_eq!(embed.embeds.as_ref().map(|v| v.len()), Some(1));
}

#[test]
fn poll_answers_from_text() {
  let media = PollMedia::from("Yes");
  assert_eq!(media.text, Some(String::from("Yes")));
  assert!(media.emoji.is_none());
  let answer = PollAnswer::from("No");
  assert!(answer.answer_id.is_none());
  assert_eq!(answer.poll_media.text, Some(String::from("No")));
}

#[test]
fn subcommand_converts_into_an_option() {
  let sub = Subcommand {
    name: String::from("add"),
    name_localizations: None,
    description: String::from("Adds a thing"),
    description_localizations: None,
    options: vec![],
  };
  let option = ApplicationCommandOption::from(sub);
  assert_eq!(option.name, "add");
  assert_eq!(option.option_type, InteractionOptionType::SUB_COMMAND);
}

#[test]
fn onboarding_ids_are_the_time_given() {
  let prompt = GuildOnboardingPrompt::new_at(1700000000);
  assert_eq!(prompt.id, "1700000000");
  assert!(prompt.options.is_empty());
  assert!(prompt.in_onboarding);
  let option = GuildOnboardingPromptOption::new_at(-5);
  assert_eq!(option.id, "-5");
  assert!(option.channel_ids.is_empty());
}

#[test]
fn onboarding_ids_from_the_clock_are_numbers() {
  let prompt = GuildOnboardingPrompt::new();
  assert!(prompt.id.parse::<i64>().is_ok());
}

#[test]
fn unix_timestamps_round_down() {
  assert_eq!(unix_timestamp(true, 1700000000, 999_999_999), 1700000000);
  assert_eq!(unix_timestamp(false, 5, 0), -5);
  assert_eq!(unix_timestamp(false, 5, 1), -6);
  assert_eq!(unix_timestamp(true, u64::MAX, 0), i64::MAX);
  assert_eq!(unix_timestamp(false, 1u64 << 63, 0), i64::MIN);
  assert_eq!(unix_timestamp(false, u64::MAX, 3), i64::MIN);
}
