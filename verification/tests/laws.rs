use slashook::commands::responder::{defer_flags, MessageResponse};
use slashook::commands::{Command, OptionalString, Subcommand, SubcommandGroup, convert_commands};
use slashook::keyed::{find_key, keyed_insert_exec, keyed_remove_exec};
use slashook::rest::authorization_value;
use slashook::structs::components::{Button, Components, SelectMenu, SelectMenuType, TextInput, Label, Component};
use slashook::structs::interactions::{ApplicationCommand, ApplicationCommandOption, InteractionOptionType, InteractionType};
use slashook::structs::messages::MessageFlags;
use slashook::structs::utils::{Color, ColorParseError};
use slashook::webhook::{reply_for, WebhookReply};

#[test]
fn color_hex_round_trip() {
    for v in [0u32, 1, 0xc0ffee, 0xffffff, 0x1000000, u32::MAX] {
        let c = Color(v);
        assert_eq!(Color::from_hex_str(&c.to_hex()), Ok(c));
    }
    assert_eq!(Color(5).to_hex(), "#000005");
}

#[test]
fn color_parse_edges() {
    assert_eq!(Color::from_hex_str("c0ffee"), Ok(Color(0xc0ffee)));
    assert_eq!(Color::from_hex_str("#C0FFEE"), Ok(Color(0xc0ffee)));
    assert_eq!(Color::from_hex_str("#zz"), Err(ColorParseError));
    assert_eq!(Color::from_hex_str(""), Err(ColorParseError));
    assert_eq!(Color::from_hex_str("#1ffffffff"), Err(ColorParseError));
}

#[test]
fn keyed_insert_then_lookup() {
    let mut v: Vec<(String, i32)> = Vec::new();
    keyed_insert_exec(&mut v, String::from("a"), 1);
    keyed_insert_exec(&mut v, String::from("b"), 2);
    keyed_insert_exec(&mut v, String::from("a"), 3);
    assert_eq!(v.len(), 2);
    assert_eq!(v[find_key(&v, "a").unwrap()].1, 3);
    assert_eq!(v[find_key(&v, "b").unwrap()].1, 2);
    assert_eq!(keyed_remove_exec(&mut v, "a"), Some(3));
    assert_eq!(find_key(&v, "a"), None);
    assert_eq!(keyed_remove_exec(&mut v, "a"), None);
}

#[test]
fn flag_set_then_cleared_keeps_others() {
    let r = MessageResponse::from_text("x").set_suppress_embeds(true).set_ephemeral(true);
    let f = r.flags.unwrap();
    assert!(f.contains(MessageFlags::EPHEMERAL()) && f.contains(MessageFlags::SUPPRESS_EMBEDS()));
    let r = MessageResponse::from_text("x").set_suppress_embeds(true).set_ephemeral(true).set_ephemeral(false);
    let f = r.flags.unwrap();
    assert!(!f.contains(MessageFlags::EPHEMERAL()) && f.contains(MessageFlags::SUPPRESS_EMBEDS()));
    assert_eq!(f.bits(), 4);
    assert_eq!(defer_flags(true).bits(), 64);
    assert_eq!(defer_flags(false).bits(), 0);
    let r = MessageResponse::from_text("v2").set_components_v2(true);
    assert_eq!(r.flags.unwrap().bits(), 32768);
}

#[test]
fn add_button_takes_one_slot() {
    let c = Components::new();
    if let Component::ActionRow(row) = &c.0[0] {
        assert_eq!(row.available_slots(), 5);
    }
    let c = c.add_button(Button::new()).add_button(Button::new());
    match &c.0[0] {
        Component::ActionRow(row) => assert_eq!(row.available_slots(), 3),
        _ => panic!("not a row"),
    }
    let c = c.add_row().add_select_menu(SelectMenu::new(SelectMenuType::USER));
    assert_eq!(c.0.len(), 2);
    match &c.0[1] {
        Component::ActionRow(row) => assert_eq!(row.available_slots(), 0),
        _ => panic!("not a row"),
    }
}

#[test]
fn label_takes_a_text_input() {
    let c = Components::new_label(Label::new("Name")).add_text_input(TextInput::new().set_id("name"));
    match &c.0[0] {
        Component::Label(l) => assert!(matches!(*l.component, Component::TextInput(_))),
        _ => panic!("not a label"),
    }
}

#[test]
fn authorization_prefix_once() {
    let once = authorization_value(String::from("abc"));
    assert_eq!(once, "Bot abc");
    assert_eq!(authorization_value(once.clone()), once);
    assert_eq!(authorization_value(String::from("Bearer xyz")), "Bearer xyz");
    assert_eq!(authorization_value(String::from("Bot xyz")), "Bot xyz");
}

#[test]
fn bad_signature_always_refused() {
    for t in [None, Some(InteractionType::PING), Some(InteractionType::APPLICATION_COMMAND), Some(InteractionType::UNKNOWN)] {
        assert_eq!(reply_for(false, t), WebhookReply::BadSignature);
    }
    assert_eq!(reply_for(true, None), WebhookReply::BadBody);
    assert_eq!(reply_for(true, Some(InteractionType::PING)), WebhookReply::Pong);
    assert_eq!(reply_for(true, Some(InteractionType::UNKNOWN)), WebhookReply::UnknownType);
    assert_eq!(reply_for(true, Some(InteractionType::MODAL_SUBMIT)), WebhookReply::Dispatch);
    assert_eq!(WebhookReply::BadSignature.status(), 401);
    assert_eq!(WebhookReply::BadBody.error_text(), Some("Bad body"));
}

fn sub(name: &str) -> Subcommand {
    Subcommand { name: String::from(name), name_localizations: None, description: String::from("d"), description_localizations: None, options: Vec::new() }
}

fn base_command(name: &str) -> Command {
    let mut c = Command::default();
    c.name = String::from(name);
    c.description = OptionalString::from_text("a command");
    c
}

#[test]
fn command_conversion_puts_groups_before_subcommands() {
    let mut c = base_command("shop");
    c.subcommand_groups = Some(vec![SubcommandGroup {
        name: String::from("items"),
        name_localizations: None,
        description: String::from("items"),
        description_localizations: None,
        subcommands: vec![sub("find"), sub("buy")],
    }]);
    c.subcommands = Some(vec![sub("help")]);
    let ac = ApplicationCommand::try_from_command(c).unwrap();
    assert_eq!(ac.name, "shop");
    assert_eq!(ac.description, "a command");
    let opts = ac.options.unwrap();
    assert_eq!(opts.len(), 2);
    assert!(matches!(opts[0].option_type, InteractionOptionType::SUB_COMMAND_GROUP));
    assert_eq!(opts[0].options.as_ref().unwrap().len(), 2);
    assert_eq!(opts[0].options.as_ref().unwrap()[1].name, "buy");
    assert!(matches!(opts[1].option_type, InteractionOptionType::SUB_COMMAND));
    assert_eq!(opts[1].name, "help");
}

#[test]
fn command_conversion_refuses_options_beside_subcommands() {
    let mut c = base_command("bad");
    c.options = Some(vec![ApplicationCommandOption::from_subcommand(sub("x"))]);
    c.subcommands = Some(vec![sub("y")]);
    let e = ApplicationCommand::try_from_command(c).unwrap_err();
    assert_eq!(e.message(), "You cannot have options on the base command when using subcommands or subcommand groups");
}

#[test]
fn convert_commands_skips_ignored() {
    let mut ignored = base_command("hidden");
    ignored.ignore = true;
    let out = convert_commands(vec![base_command("a"), ignored, base_command("b")]).unwrap();
    assert_eq!(out.len(), 2);
    assert_eq!(out[0].name, "a");
    assert_eq!(out[1].name, "b");
    let mut bad = base_command("bad");
    bad.options = Some(Vec::new());
    bad.subcommands = Some(Vec::new());
    assert!(convert_commands(vec![base_command("a"), bad]).is_err());
}

#[test]
fn text_input_fills_its_row() {
    let c = Components::new().add_text_input(TextInput::new().set_id("a"));
    match &c.0[0] {
        Component::ActionRow(row) => assert_eq!(row.available_slots(), 0),
        _ => panic!("not a row"),
    }
}

#[test]
fn select_menu_type_survives_builders() {
    let menu = SelectMenu::new(SelectMenuType::ROLE).set_id("pick", "1").set_placeholder("Pick").set_min_values(1).set_max_values(2);
    assert!(matches!(menu.get_type(), SelectMenuType::ROLE));
}

#[test]
fn five_rows_at_most() {
    let c = Components::new().add_row().add_row().add_row().add_row();
    assert_eq!(c.0.len(), 5);
    for row in c.0.iter() {
        assert!(matches!(row, Component::ActionRow(r) if r.components.is_empty()));
    }
}

#[test]
fn select_menu_fills_a_label() {
    let c = Components::new_label(Label::new("Pick")).add_select_menu(SelectMenu::new(SelectMenuType::STRING));
    match &c.0[0] {
        Component::Label(l) => assert!(matches!(*l.component, Component::SelectMenu(_))),
        _ => panic!("not a label"),
    }
}
