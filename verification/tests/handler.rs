use slashook::commands::handler::{
    command_input, command_route, parse_mentionable, parse_options, parse_resolved, parse_select_values, CommandInput, InputError, ParsedOptions,
};
use slashook::commands::Modal;
use slashook::structs::components::{ActionRow, Button, Component, ComponentType, Components, Label, TextInput};
use slashook::structs::interactions::{
    ApplicationCommandType, Interaction, InteractionData, InteractionDataResolved, InteractionOption, InteractionOptionType,
    InteractionType, OptionValue,
};
use slashook::structs::json::{JsonNumber, JsonValue};
use slashook::structs::members::{GuildMember, GuildMemberFlags};
use slashook::structs::roles::{Role, RoleColors, RoleFlags};
use slashook::structs::users::User;
use slashook::structs::utils::Color;
use slashook::structs::Permissions;

fn user(id: &str) -> User {
    User {
        id: String::from(id),
        username: String::from("someone"),
        discriminator: String::from("0"),
        global_name: None,
        avatar: None,
        bot: None,
        system: None,
        mfa_enabled: None,
        banner: None,
        accent_color: None,
        locale: None,
        verified: None,
        email: None,
        flags: None,
        premium_type: None,
        public_flags: None,
        avatar_decoration_data: None,
    }
}

fn role(id: &str) -> Role {
    Role {
        id: String::from(id),
        name: String::from("a role"),
        colors: RoleColors { primary_color: Color(0), secondary_color: None, tertiary_color: None },
        hoist: false,
        icon: None,
        unicode_emoji: None,
        position: 1,
        permissions: Permissions::empty(),
        managed: false,
        mentionable: true,
        tags: None,
        flags: RoleFlags::empty(),
    }
}

fn member(u: Option<User>) -> GuildMember {
    GuildMember {
        user: u,
        nick: None,
        avatar: None,
        banner: None,
        roles: Vec::new(),
        joined_at: String::from("2024-01-01T00:00:00Z"),
        premium_since: None,
        deaf: None,
        mute: None,
        flags: GuildMemberFlags::empty(),
        pending: None,
        permissions: None,
        communication_disabled_until: None,
        avatar_decoration_data: None,
    }
}

fn empty_resolved() -> InteractionDataResolved {
    InteractionDataResolved { users: None, members: None, roles: None, channels: None, messages: None, attachments: None }
}

fn data() -> InteractionData {
    InteractionData {
        id: Some(String::from("1")),
        name: None,
        command_type: None,
        resolved: None,
        options: None,
        guild_id: None,
        target_id: None,
        custom_id: None,
        component_type: None,
        values: None,
        components: None,
    }
}

fn interaction(t: InteractionType, d: Option<InteractionData>) -> Interaction {
    Interaction {
        id: String::from("10"),
        application_id: String::from("20"),
        interaction_type: t,
        data: d,
        guild_id: None,
        channel: None,
        channel_id: Some(String::from("30")),
        member: None,
        user: Some(user("40")),
        token: String::from("token"),
        version: 1,
        message: None,
        app_permissions: None,
        locale: Some(String::from("en-US")),
        guild_locale: None,
        entitlements: Vec::new(),
    }
}

fn option(name: &str, t: InteractionOptionType, value: Option<JsonValue>) -> InteractionOption {
    InteractionOption { name: String::from(name), option_type: t, value, options: None, focused: None }
}

fn num(i: i64) -> JsonValue {
    JsonValue::Number(JsonNumber { as_i64: Some(i), as_u64: if i >= 0 { Some(i as u64) } else { None }, as_f64_bits: (i as f64).to_bits() })
}

fn arg<'a>(input: &'a CommandInput, name: &str) -> Option<&'a OptionValue> {
    input.arg(name)
}

fn command(d: InteractionData) -> Result<CommandInput, InputError> {
    let i = interaction(InteractionType::APPLICATION_COMMAND, Some(d));
    let (name, id) = command_route(&i).unwrap();
    command_input(i, name, id)
}

#[test]
fn route_command_by_name() {
    let mut d = data();
    d.name = Some(String::from("ping"));
    let i = interaction(InteractionType::APPLICATION_COMMAND, Some(d));
    let (name, id) = command_route(&i).unwrap();
    assert_eq!(name, "ping");
    assert_eq!(id, None);
}

#[test]
fn route_component_by_custom_id() {
    let button = Button::new().set_id("vote", "yes/really");
    let mut d = data();
    d.custom_id = button.custom_id;
    let i = interaction(InteractionType::MESSAGE_COMPONENT, Some(d));
    let (name, id) = command_route(&i).unwrap();
    assert_eq!(name, "vote");
    assert_eq!(id, Some(String::from("yes/really")));
}

#[test]
fn route_modal_from_modal_new() {
    let modal = Modal::new("form", "modal1", "Please fill this form");
    let mut d = data();
    d.custom_id = Some(modal.custom_id);
    let i = interaction(InteractionType::MODAL_SUBMIT, Some(d));
    assert_eq!(command_route(&i).unwrap(), (String::from("form"), Some(String::from("modal1"))));
}

#[test]
fn route_errors() {
    let i = interaction(InteractionType::APPLICATION_COMMAND, None);
    assert!(matches!(command_route(&i), Err(InputError::NoData)));
    let i = interaction(InteractionType::APPLICATION_COMMAND, Some(data()));
    assert!(matches!(command_route(&i), Err(InputError::NoCommandName)));
    let i = interaction(InteractionType::MESSAGE_COMPONENT, Some(data()));
    assert!(matches!(command_route(&i), Err(InputError::NoCustomId)));
    let mut d = data();
    d.custom_id = Some(String::from("no-slash"));
    let i = interaction(InteractionType::MESSAGE_COMPONENT, Some(d));
    match command_route(&i) {
        Err(InputError::BadCustomId(s)) => assert_eq!(s, "no-slash"),
        other => panic!("unexpected {:?}", other),
    }
    let i = interaction(InteractionType::PING, Some(data()));
    assert!(matches!(command_route(&i), Err(InputError::UnexpectedInteractionType)));
}

#[test]
fn options_plain_values() {
    let mut d = data();
    d.name = Some(String::from("echo"));
    d.command_type = Some(ApplicationCommandType::CHAT_INPUT);
    d.options = Some(vec![
        option("text", InteractionOptionType::STRING, Some(JsonValue::String(String::from("hello")))),
        option("count", InteractionOptionType::INTEGER, Some(num(3))),
        option("loud", InteractionOptionType::BOOLEAN, Some(JsonValue::Bool(true))),
        option("ratio", InteractionOptionType::NUMBER, Some(num(2))),
    ]);
    let input = command(d).unwrap();
    assert_eq!(input.command, "echo");
    assert_eq!(input.user.id, "40");
    assert_eq!(input.locale, "en-US");
    assert!(input.is_command() && input.is_chat_input());
    assert_eq!(arg(&input, "text").unwrap().as_string(), Some(String::from("hello")));
    assert_eq!(arg(&input, "count").unwrap().as_i64(), Some(3));
    assert_eq!(arg(&input, "loud").unwrap().as_bool(), Some(true));
    assert_eq!(arg(&input, "ratio").unwrap().as_f64_bits().map(f64::from_bits), Some(2.0));
    assert!(arg(&input, "missing").is_none());
}

#[test]
fn options_subcommand_group_and_focus() {
    let mut inner = option("query", InteractionOptionType::STRING, Some(JsonValue::String(String::from("ab"))));
    inner.focused = Some(true);
    let mut sub = option("find", InteractionOptionType::SUB_COMMAND, None);
    sub.options = Some(vec![inner]);
    let mut group = option("items", InteractionOptionType::SUB_COMMAND_GROUP, None);
    group.options = Some(vec![sub]);
    let mut d = data();
    d.name = Some(String::from("shop"));
    d.command_type = Some(ApplicationCommandType::CHAT_INPUT);
    d.options = Some(vec![group]);
    let input = command(d).unwrap();
    assert_eq!(input.subcommand_group, Some(String::from("items")));
    assert_eq!(input.subcommand, Some(String::from("find")));
    assert_eq!(input.focused, Some(String::from("query")));
    assert_eq!(arg(&input, "query").unwrap().as_string(), Some(String::from("ab")));
}

#[test]
fn options_later_value_replaces_earlier() {
    let mut d = data();
    d.name = Some(String::from("echo"));
    d.options = Some(vec![
        option("x", InteractionOptionType::INTEGER, Some(num(1))),
        option("x", InteractionOptionType::INTEGER, Some(num(2))),
    ]);
    let input = command(d).unwrap();
    assert_eq!(input.args.len(), 1);
    assert_eq!(arg(&input, "x").unwrap().as_i64(), Some(2));
}

#[test]
fn options_user_and_mentionable() {
    let mut res = empty_resolved();
    res.users = Some(vec![(String::from("5"), user("5")), (String::from("6"), user("6"))]);
    res.roles = Some(vec![(String::from("6"), role("6"))]);
    let mut d = data();
    d.name = Some(String::from("who"));
    d.resolved = Some(res);
    d.options = Some(vec![
        option("target", InteractionOptionType::USER, Some(JsonValue::String(String::from("5")))),
        option("either", InteractionOptionType::MENTIONABLE, Some(JsonValue::String(String::from("6")))),
        option("person", InteractionOptionType::MENTIONABLE, Some(JsonValue::String(String::from("5")))),
    ]);
    let input = command(d).unwrap();
    assert_eq!(arg(&input, "target").unwrap().as_user().unwrap().id, "5");
    assert_eq!(arg(&input, "either").unwrap().as_role().unwrap().id, "6");
    assert_eq!(arg(&input, "person").unwrap().as_user().unwrap().id, "5");
}

#[test]
fn options_errors() {
    let cases: Vec<(InteractionOption, bool)> = vec![
        (option("a", InteractionOptionType::STRING, None), false),
        (option("a", InteractionOptionType::STRING, Some(num(1))), false),
        (option("a", InteractionOptionType::USER, Some(JsonValue::String(String::from("5")))), true),
    ];
    let mut d = data();
    d.name = Some(String::from("c"));
    d.options = Some(vec![cases[0].0.clone()]);
    assert!(matches!(command(d), Err(InputError::NoValue(InteractionOptionType::STRING))));
    let mut d = data();
    d.name = Some(String::from("c"));
    d.options = Some(vec![cases[1].0.clone()]);
    assert!(matches!(command(d), Err(InputError::WrongValue(InteractionOptionType::STRING))));
    let mut d = data();
    d.name = Some(String::from("c"));
    d.options = Some(vec![cases[2].0.clone()]);
    assert!(matches!(command(d), Err(InputError::NoResolved(InteractionOptionType::USER))));
    let mut d = data();
    d.name = Some(String::from("c"));
    d.resolved = Some(empty_resolved());
    d.options = Some(vec![cases[2].0.clone()]);
    assert!(matches!(command(d), Err(InputError::NoResolvedKind(InteractionOptionType::USER))));
    let mut res = empty_resolved();
    res.users = Some(vec![(String::from("9"), user("9"))]);
    let mut d = data();
    d.name = Some(String::from("c"));
    d.resolved = Some(res);
    d.options = Some(vec![cases[2].0.clone()]);
    assert!(matches!(command(d), Err(InputError::NotFound(InteractionOptionType::USER))));
    let mut d = data();
    d.name = Some(String::from("c"));
    d.options = Some(vec![option("g", InteractionOptionType::SUB_COMMAND_GROUP, None)]);
    assert!(matches!(command(d), Err(InputError::NoSubcommands)));
}

#[test]
fn input_user_and_locale_errors() {
    let mut d = data();
    d.name = Some(String::from("c"));
    let mut i = interaction(InteractionType::APPLICATION_COMMAND, Some(d.clone()));
    i.user = None;
    assert!(matches!(command_input(i, String::from("c"), None), Err(InputError::NoMemberOrUser)));
    let mut i = interaction(InteractionType::APPLICATION_COMMAND, Some(d.clone()));
    i.member = Some(member(None));
    assert!(matches!(command_input(i, String::from("c"), None), Err(InputError::NoUserInMember)));
    let mut i = interaction(InteractionType::APPLICATION_COMMAND, Some(d.clone()));
    i.member = Some(member(Some(user("77"))));
    assert_eq!(command_input(i, String::from("c"), None).unwrap().user.id, "77");
    let mut i = interaction(InteractionType::APPLICATION_COMMAND, Some(d));
    i.locale = None;
    assert!(matches!(command_input(i, String::from("c"), None), Err(InputError::NoLocale)));
}

#[test]
fn modal_text_inputs_become_args() {
    let row = ActionRow::new().add_component(Component::TextInput(TextInput::new().set_id("name").set_value("Ada")));
    let mut d = data();
    d.custom_id = Some(String::from("form/1"));
    d.components = Some(vec![Component::ActionRow(row), Component::TextInput(TextInput::new().set_id("empty"))]);
    let i = interaction(InteractionType::MODAL_SUBMIT, Some(d));
    let (name, id) = command_route(&i).unwrap();
    let input = command_input(i, name, id).unwrap();
    assert!(input.is_modal_submit());
    assert_eq!(input.custom_id, Some(String::from("1")));
    assert_eq!(arg(&input, "name").unwrap().as_string(), Some(String::from("Ada")));
    assert_eq!(arg(&input, "empty").unwrap().as_string(), Some(String::new()));
}

#[test]
fn select_values_resolve() {
    let mut res = empty_resolved();
    res.users = Some(vec![(String::from("5"), user("5"))]);
    let mut d = data();
    d.custom_id = Some(String::from("pick/a"));
    d.component_type = Some(ComponentType::USER_SELECT);
    d.values = Some(vec![String::from("5")]);
    d.resolved = Some(res);
    let i = interaction(InteractionType::MESSAGE_COMPONENT, Some(d));
    let (name, id) = command_route(&i).unwrap();
    let input = command_input(i, name, id).unwrap();
    assert!(input.is_user_select());
    assert_eq!(input.values, Some(vec![String::from("5")]));
    let rv = input.resolved_values.unwrap();
    assert_eq!(rv.len(), 1);
    assert_eq!(rv[0].as_user().unwrap().id, "5");
    assert!(input.resolved.is_none());
}

#[test]
fn select_values_errors() {
    let mut d = data();
    d.custom_id = Some(String::from("pick/a"));
    d.values = Some(vec![String::from("5")]);
    let i = interaction(InteractionType::MESSAGE_COMPONENT, Some(d.clone()));
    assert!(matches!(command_input(i, String::from("pick"), None), Err(InputError::NoComponentType)));
    d.component_type = Some(ComponentType::ROLE_SELECT);
    let i = interaction(InteractionType::MESSAGE_COMPONENT, Some(d.clone()));
    assert!(matches!(command_input(i, String::from("pick"), None), Err(InputError::SelectNoResolved(ComponentType::ROLE_SELECT))));
    d.resolved = Some(empty_resolved());
    let i = interaction(InteractionType::MESSAGE_COMPONENT, Some(d.clone()));
    assert!(matches!(command_input(i, String::from("pick"), None), Err(InputError::SelectNoResolvedKind(ComponentType::ROLE_SELECT))));
    let mut res = empty_resolved();
    res.roles = Some(vec![(String::from("9"), role("9"))]);
    d.resolved = Some(res);
    let i = interaction(InteractionType::MESSAGE_COMPONENT, Some(d.clone()));
    assert!(matches!(command_input(i, String::from("pick"), None), Err(InputError::SelectNotFound(ComponentType::ROLE_SELECT))));
    d.component_type = Some(ComponentType::STRING_SELECT);
    let i = interaction(InteractionType::MESSAGE_COMPONENT, Some(d));
    let input = command_input(i, String::from("pick"), None).unwrap();
    assert_eq!(input.resolved_values.unwrap().len(), 0);
}

#[test]
fn user_context_target() {
    let mut res = empty_resolved();
    res.users = Some(vec![(String::from("5"), user("5"))]);
    res.members = Some(vec![(String::from("5"), member(None))]);
    let mut d = data();
    d.name = Some(String::from("inspect"));
    d.command_type = Some(ApplicationCommandType::USER);
    d.target_id = Some(String::from("5"));
    d.resolved = Some(res);
    let input = command(d).unwrap();
    assert!(input.is_user_context());
    assert_eq!(input.target_user.unwrap().id, "5");
    assert!(input.target_member.is_some());
    assert!(input.resolved.is_none());
}

#[test]
fn context_target_errors() {
    let mut d = data();
    d.name = Some(String::from("inspect"));
    d.command_type = Some(ApplicationCommandType::MESSAGE);
    assert!(matches!(command(d.clone()), Err(InputError::NoTarget(ApplicationCommandType::MESSAGE))));
    d.target_id = Some(String::from("5"));
    assert!(matches!(command(d.clone()), Err(InputError::NoTargetResolved(ApplicationCommandType::MESSAGE))));
    d.resolved = Some(empty_resolved());
    assert!(matches!(command(d), Err(InputError::NoTargetResolvedKind(ApplicationCommandType::MESSAGE))));
}

#[test]
fn chat_input_keeps_resolved() {
    let mut res = empty_resolved();
    res.users = Some(vec![(String::from("5"), user("5"))]);
    let mut d = data();
    d.name = Some(String::from("c"));
    d.command_type = Some(ApplicationCommandType::CHAT_INPUT);
    d.resolved = Some(res);
    let input = command(d).unwrap();
    assert_eq!(input.resolved.unwrap().users.unwrap().len(), 1);
}

#[test]
fn modal_text_inputs_in_labels_become_args() {
    let label = Label::new("Name").set_component(Component::TextInput(TextInput::new().set_id("input").set_value("hi")));
    let mut d = data();
    d.custom_id = Some(String::from("form/1"));
    d.components = Some(vec![Component::Label(label)]);
    let i = interaction(InteractionType::MODAL_SUBMIT, Some(d));
    let (name, id) = command_route(&i).unwrap();
    let input = command_input(i, name, id).unwrap();
    assert_eq!(input.args.len(), 1);
    assert_eq!(arg(&input, "input").unwrap().as_string(), Some(String::from("hi")));
}

#[test]
fn modal_built_with_new_label_is_read_back() {
    let components = Components::new_label(Label::new("Name")).add_text_input(TextInput::new().set_id("name").set_value("Ada"));
    let mut d = data();
    d.custom_id = Some(String::from("form/1"));
    d.components = Some(components.0);
    let i = interaction(InteractionType::MODAL_SUBMIT, Some(d));
    let (name, id) = command_route(&i).unwrap();
    let input = command_input(i, name, id).unwrap();
    assert_eq!(arg(&input, "name").unwrap().as_string(), Some(String::from("Ada")));
}

#[test]
fn repeated_text_input_ids_keep_one_arg() {
    let mut d = data();
    d.custom_id = Some(String::from("form/1"));
    d.components = Some(vec![
        Component::TextInput(TextInput::new().set_id("a").set_value("first")),
        Component::TextInput(TextInput::new().set_id("a").set_value("second")),
    ]);
    let i = interaction(InteractionType::MODAL_SUBMIT, Some(d));
    let (name, id) = command_route(&i).unwrap();
    let input = command_input(i, name, id).unwrap();
    assert_eq!(input.args.len(), 1);
    assert_eq!(arg(&input, "a").unwrap().as_string(), Some(String::from("second")));
}

#[test]
fn mentionable_role_wins_over_user() {
    let mut res = empty_resolved();
    res.users = Some(vec![(String::from("7"), user("7")), (String::from("8"), user("8"))]);
    res.roles = Some(vec![(String::from("7"), role("7"))]);
    assert_eq!(parse_mentionable(&res, "7").unwrap().as_role().unwrap().id, "7");
    assert_eq!(parse_mentionable(&res, "8").unwrap().as_user().unwrap().id, "8");
    assert!(parse_mentionable(&res, "9").is_err());
}

#[test]
fn user_option_needs_its_resolved_user() {
    let mut res = empty_resolved();
    res.users = Some(vec![(String::from("5"), user("5"))]);
    let acc = ParsedOptions { subcommand: None, subcommand_group: None, args: Vec::new(), focused: None };
    let opts = vec![option("who", InteractionOptionType::USER, Some(JsonValue::String(String::from("5"))))];
    let out = parse_options(opts, &Some(res.clone()), acc).unwrap();
    assert_eq!(out.args.len(), 1);
    assert_eq!(out.args[0].0, "who");
    assert_eq!(out.args[0].1.as_user().unwrap().id, "5");
    let acc = ParsedOptions { subcommand: None, subcommand_group: None, args: Vec::new(), focused: None };
    let opts = vec![option("who", InteractionOptionType::USER, Some(JsonValue::String(String::from("6"))))];
    assert!(matches!(parse_options(opts, &Some(res), acc), Err(InputError::NotFound(InteractionOptionType::USER))));
    let acc = ParsedOptions { subcommand: None, subcommand_group: None, args: Vec::new(), focused: None };
    let opts = vec![option("who", InteractionOptionType::ROLE, Some(JsonValue::String(String::from("6"))))];
    assert!(parse_options(opts, &None, acc).is_err());
}

#[test]
fn user_select_values_resolve_in_order() {
    let mut res = empty_resolved();
    res.users = Some(vec![(String::from("1"), user("1")), (String::from("2"), user("2"))]);
    let values = vec![String::from("2"), String::from("1")];
    let out = parse_select_values(&values, &Some(res.clone()), Some(ComponentType::USER_SELECT)).unwrap();
    assert_eq!(out.len(), 2);
    assert_eq!(out[0].as_user().unwrap().id, "2");
    assert_eq!(out[1].as_user().unwrap().id, "1");
    let missing = vec![String::from("3")];
    assert!(parse_select_values(&missing, &Some(res), Some(ComponentType::USER_SELECT)).is_err());
    assert!(matches!(parse_select_values(&values, &None, None), Err(InputError::NoComponentType)));
}

#[test]
fn user_command_target_is_looked_up() {
    let mut res = empty_resolved();
    res.users = Some(vec![(String::from("4"), user("4"))]);
    res.members = Some(vec![(String::from("4"), member(None))]);
    let parts = parse_resolved(Some(ApplicationCommandType::USER), Some(res.clone()), Some(String::from("4"))).unwrap();
    assert_eq!(parts.target_user.unwrap().id, "4");
    assert!(parts.target_member.is_some());
    assert!(parts.resolved.is_none());
    assert!(parts.target_message.is_none());
    let parts = parse_resolved(Some(ApplicationCommandType::USER), Some(res), Some(String::from("5"))).unwrap();
    assert!(parts.target_user.is_none());
    assert!(parts.target_member.is_none());
}
