//! Reading the input of a command out of the interaction that invoked it

use vstd::prelude::*;
use crate::keyed::{
    find_key, has_key, keyed_insert, lemma_has_key_first, keyed_insert_exec, keyed_remove_exec, keys_distinct, law_keyed_insert_keeps_keys_distinct, lookup,
};
use crate::structs::{Permissions, Snowflake};
use crate::structs::components::{Component, ComponentType, TextInput};
use crate::structs::interactions::{
    ApplicationCommandType, Interaction, InteractionData, InteractionDataResolved, InteractionOption,
    InteractionOptionType, InteractionType, OptionValue,
};
use crate::structs::json::JsonValue;
use crate::structs::members::GuildMember;
use crate::structs::messages::Message;
use crate::structs::users::User;
use crate::text::{custom_id_text, law_custom_id_splits, opt_view, split_once, split_once_spec};

verus! {

/// Why the input of a command could not be read from an interaction
#[derive(Clone, Debug)]
pub enum InputError {
    /// A subcommand group came without subcommands
    NoSubcommands,
    /// An option of this type came without a value
    NoValue(InteractionOptionType),
    /// An option's value was not of the kind its type needs
    WrongValue(InteractionOptionType),
    /// An option that refers to a resolved object came without resolved objects
    NoResolved(InteractionOptionType),
    /// The resolved objects hold none of the kind that the option refers to
    NoResolvedKind(InteractionOptionType),
    /// No resolved object has the id that the option gives
    NotFound(InteractionOptionType),
    /// A select menu's values came without resolved objects
    SelectNoResolved(ComponentType),
    /// The resolved objects hold none of the kind that the select menu picks
    SelectNoResolvedKind(ComponentType),
    /// No resolved object has an id that the select menu gives
    SelectNotFound(ComponentType),
    /// Select menu values came without a component type
    NoComponentType,
    /// Resolved objects were read without a command type
    NoCommandType,
    /// A context menu command came without a target
    NoTarget(ApplicationCommandType),
    /// A context menu command came without resolved objects
    NoTargetResolved(ApplicationCommandType),
    /// A context menu command's resolved objects hold none of the kind of its target
    NoTargetResolvedKind(ApplicationCommandType),
    /// The interaction names neither a member nor a user
    NoMemberOrUser,
    /// The interaction's member holds no user
    NoUserInMember,
    /// The interaction has no data
    NoData,
    /// A command interaction is missing its command's name
    NoCommandName,
    /// A component interaction is missing its custom_id
    NoCustomId,
    /// A custom_id that is not in the `command/id` format
    BadCustomId(String),
    /// An interaction of a type that names no command
    UnexpectedInteractionType,
    /// The interaction didn't include a locale
    NoLocale,
}

/// Whether `v` is what cloning the entry stored under `id` gives.
pub open spec fn cloned_entry<V: Clone>(m: Seq<(String, V)>, id: Seq<char>, v: V) -> bool {
    lookup(m, id) matches Some(e) && cloned(e, v)
}

/// Whether a user or a role is resolved under `id`.
pub open spec fn mentionable_found(res: InteractionDataResolved, id: Seq<char>) -> bool {
    ||| res.users matches Some(m) && has_key(m@, id)
    ||| res.roles matches Some(m) && has_key(m@, id)
}

/// Whether `v` is the mentionable resolved under `id`: the role when a role has that id, else the user.
pub open spec fn mentionable_ok(res: InteractionDataResolved, id: Seq<char>, v: OptionValue) -> bool {
    if res.roles matches Some(m) && has_key(m@, id) {
        res.roles matches Some(m) && v matches OptionValue::Role(x) && cloned_entry(m@, id, x)
    } else {
        res.users matches Some(m) && v matches OptionValue::User(x) && cloned_entry(m@, id, x)
    }
}

/// The error for an option that refers by id to an entry of `m`, if there is one.
pub open spec fn ref_error<V>(t: InteractionOptionType, value: Option<JsonValue>, m: Seq<(String, V)>) -> Option<InputError> {
    match value {
        None => Some(InputError::NoValue(t)),
        Some(JsonValue::String(id)) => if has_key(m, id@) { None } else { Some(InputError::NotFound(t)) },
        Some(_) => Some(InputError::WrongValue(t)),
    }
}

/// The error that reading an option of type `t` with this value gives, if it gives one.
pub open spec fn value_error(t: InteractionOptionType, value: Option<JsonValue>, resolved: Option<InteractionDataResolved>) -> Option<InputError> {
    match t {
        InteractionOptionType::STRING => match value {
            None => Some(InputError::NoValue(t)),
            Some(JsonValue::String(_)) => None,
            Some(_) => Some(InputError::WrongValue(t)),
        },
        InteractionOptionType::INTEGER => match value {
            None => Some(InputError::NoValue(t)),
            Some(JsonValue::Number(n)) => if n.as_i64 is Some { None } else { Some(InputError::WrongValue(t)) },
            Some(_) => Some(InputError::WrongValue(t)),
        },
        InteractionOptionType::BOOLEAN => match value {
            None => Some(InputError::NoValue(t)),
            Some(JsonValue::Bool(_)) => None,
            Some(_) => Some(InputError::WrongValue(t)),
        },
        InteractionOptionType::NUMBER => match value {
            None => Some(InputError::NoValue(t)),
            Some(JsonValue::Number(_)) => None,
            Some(_) => Some(InputError::WrongValue(t)),
        },
        InteractionOptionType::USER => match resolved {
            None => Some(InputError::NoResolved(t)),
            Some(res) => match res.users {
                None => Some(InputError::NoResolvedKind(t)),
                Some(m) => ref_error(t, value, m@),
            },
        },
        InteractionOptionType::CHANNEL => match resolved {
            None => Some(InputError::NoResolved(t)),
            Some(res) => match res.channels {
                None => Some(InputError::NoResolvedKind(t)),
                Some(m) => ref_error(t, value, m@),
            },
        },
        InteractionOptionType::ROLE => match resolved {
            None => Some(InputError::NoResolved(t)),
            Some(res) => match res.roles {
                None => Some(InputError::NoResolvedKind(t)),
                Some(m) => ref_error(t, value, m@),
            },
        },
        InteractionOptionType::ATTACHMENT => match resolved {
            None => Some(InputError::NoResolved(t)),
            Some(res) => match res.attachments {
                None => Some(InputError::NoResolvedKind(t)),
                Some(m) => ref_error(t, value, m@),
            },
        },
        InteractionOptionType::MENTIONABLE => match resolved {
            None => Some(InputError::NoResolved(t)),
            Some(res) => match value {
                None => Some(InputError::NoValue(t)),
                Some(JsonValue::String(id)) => if mentionable_found(res, id@) { None } else { Some(InputError::NotFound(t)) },
                Some(_) => Some(InputError::WrongValue(t)),
            },
        },
        _ => None,
    }
}

/// Whether `v` is what reading an option of type `t` with this value gives, when it gives no error.
pub open spec fn value_ok(t: InteractionOptionType, value: Option<JsonValue>, resolved: Option<InteractionDataResolved>, v: OptionValue) -> bool {
    match t {
        InteractionOptionType::STRING => value matches Some(JsonValue::String(s)) && v matches OptionValue::String(x) && x@ == s@,
        InteractionOptionType::INTEGER => value matches Some(JsonValue::Number(n)) && n.as_i64 matches Some(i) && v == OptionValue::Integer(i),
        InteractionOptionType::BOOLEAN => value matches Some(JsonValue::Bool(b)) && v == OptionValue::Boolean(b),
        InteractionOptionType::NUMBER => value matches Some(JsonValue::Number(n)) && v == OptionValue::Number(n.as_f64_bits),
        InteractionOptionType::USER => resolved matches Some(res) && res.users matches Some(m)
            && value matches Some(JsonValue::String(id)) && v matches OptionValue::User(x) && cloned_entry(m@, id@, x),
        InteractionOptionType::CHANNEL => resolved matches Some(res) && res.channels matches Some(m)
            && value matches Some(JsonValue::String(id)) && v matches OptionValue::Channel(x) && cloned_entry(m@, id@, *x),
        InteractionOptionType::ROLE => resolved matches Some(res) && res.roles matches Some(m)
            && value matches Some(JsonValue::String(id)) && v matches OptionValue::Role(x) && cloned_entry(m@, id@, x),
        InteractionOptionType::ATTACHMENT => resolved matches Some(res) && res.attachments matches Some(m)
            && value matches Some(JsonValue::String(id)) && v matches OptionValue::Attachment(x) && cloned_entry(m@, id@, x),
        InteractionOptionType::MENTIONABLE => resolved matches Some(res) && value matches Some(JsonValue::String(id))
            && mentionable_ok(res, id@, v),
        _ => v == OptionValue::Other(match value {
            Some(j) => j,
            None => JsonValue::Null,
        }),
    }
}

/// A clone of the entry stored under `id`, if there is one.
fn pick_cloned<V: Clone>(m: &Vec<(String, V)>, id: &str) -> (r: Option<V>)
    ensures
        match r {
            Some(x) => cloned_entry(m@, id@, x),
            None => !has_key(m@, id@),
        },
{
    match find_key(m, id) {
        Some(i) => Some(m[i].1.clone()),
        None => None,
    }
}

/// The user or role resolved under `id`; an error where there is neither.
pub fn parse_mentionable(resolved: &InteractionDataResolved, id: &str) -> (r: Result<OptionValue, InputError>)
    ensures
        match r {
            Ok(v) => mentionable_found(*resolved, id@) && mentionable_ok(*resolved, id@, v),
            Err(e) => !mentionable_found(*resolved, id@) && e == InputError::NotFound(InteractionOptionType::MENTIONABLE),
        },
{
    let mut found: Option<OptionValue> = None;
    if let Some(users) = &resolved.users {
        if let Some(user) = pick_cloned(users, id) {
            found = Some(OptionValue::User(user));
        }
    }
    if let Some(roles) = &resolved.roles {
        if let Some(role) = pick_cloned(roles, id) {
            found = Some(OptionValue::Role(role));
        }
    }
    match found {
        Some(v) => Ok(v),
        None => Err(InputError::NotFound(InteractionOptionType::MENTIONABLE)),
    }
}

/// The id that an option which refers to a resolved object gives.
fn ref_id(t: InteractionOptionType, value: &Option<JsonValue>) -> (r: Result<&String, InputError>)
    ensures
        match *value {
            None => r == Err::<&String, InputError>(InputError::NoValue(t)),
            Some(JsonValue::String(id)) => r == Ok::<&String, InputError>(&id),
            Some(_) => r == Err::<&String, InputError>(InputError::WrongValue(t)),
        },
{
    match value {
        None => Err(InputError::NoValue(t)),
        Some(JsonValue::String(id)) => Ok(id),
        Some(_) => Err(InputError::WrongValue(t)),
    }
}

/// Reads the value of an option of type `t` (not a subcommand nor a group).
pub fn parse_value(t: InteractionOptionType, value: Option<JsonValue>, resolved: &Option<InteractionDataResolved>) -> (r: Result<OptionValue, InputError>)
    ensures
        match value_error(t, value, *resolved) {
            Some(e) => r == Err::<OptionValue, InputError>(e),
            None => r matches Ok(v) && value_ok(t, value, *resolved, v),
        },
{
    match t {
        InteractionOptionType::STRING => match value {
            None => Err(InputError::NoValue(t)),
            Some(JsonValue::String(s)) => Ok(OptionValue::String(s)),
            Some(_) => Err(InputError::WrongValue(t)),
        },
        InteractionOptionType::INTEGER => match value {
            None => Err(InputError::NoValue(t)),
            Some(JsonValue::Number(n)) => match n.as_i64 {
                Some(i) => Ok(OptionValue::Integer(i)),
                None => Err(InputError::WrongValue(t)),
            },
            Some(_) => Err(InputError::WrongValue(t)),
        },
        InteractionOptionType::BOOLEAN => match value {
            None => Err(InputError::NoValue(t)),
            Some(JsonValue::Bool(b)) => Ok(OptionValue::Boolean(b)),
            Some(_) => Err(InputError::WrongValue(t)),
        },
        InteractionOptionType::NUMBER => match value {
            None => Err(InputError::NoValue(t)),
            Some(JsonValue::Number(n)) => Ok(OptionValue::Number(n.as_f64_bits)),
            Some(_) => Err(InputError::WrongValue(t)),
        },
        InteractionOptionType::USER => {
            let res = match resolved { Some(res) => res, None => { return Err(InputError::NoResolved(t)); } };
            let m = match &res.users { Some(m) => m, None => { return Err(InputError::NoResolvedKind(t)); } };
            let id = ref_id(t, &value)?;
            match pick_cloned(m, id.as_str()) {
                Some(x) => Ok(OptionValue::User(x)),
                None => Err(InputError::NotFound(t)),
            }
        },
        InteractionOptionType::CHANNEL => {
            let res = match resolved { Some(res) => res, None => { return Err(InputError::NoResolved(t)); } };
            let m = match &res.channels { Some(m) => m, None => { return Err(InputError::NoResolvedKind(t)); } };
            let id = ref_id(t, &value)?;
            match pick_cloned(m, id.as_str()) {
                Some(x) => Ok(OptionValue::Channel(Box::new(x))),
                None => Err(InputError::NotFound(t)),
            }
        },
        InteractionOptionType::ROLE => {
            let res = match resolved { Some(res) => res, None => { return Err(InputError::NoResolved(t)); } };
            let m = match &res.roles { Some(m) => m, None => { return Err(InputError::NoResolvedKind(t)); } };
            let id = ref_id(t, &value)?;
            match pick_cloned(m, id.as_str()) {
                Some(x) => Ok(OptionValue::Role(x)),
                None => Err(InputError::NotFound(t)),
            }
        },
        InteractionOptionType::ATTACHMENT => {
            let res = match resolved { Some(res) => res, None => { return Err(InputError::NoResolved(t)); } };
            let m = match &res.attachments { Some(m) => m, None => { return Err(InputError::NoResolvedKind(t)); } };
            let id = ref_id(t, &value)?;
            match pick_cloned(m, id.as_str()) {
                Some(x) => Ok(OptionValue::Attachment(x)),
                None => Err(InputError::NotFound(t)),
            }
        },
        InteractionOptionType::MENTIONABLE => {
            let res = match resolved { Some(res) => res, None => { return Err(InputError::NoResolved(t)); } };
            let id = ref_id(t, &value)?;
            parse_mentionable(res, id.as_str())
        },
        _ => match value {
            Some(j) => Ok(OptionValue::Other(j)),
            None => Ok(OptionValue::Other(JsonValue::Null)),
        },
    }
}

/// What a command's options give: the subcommand and group that were chosen,
/// the arguments by name, and the name of the focused one
#[derive(Debug)]
pub struct ParsedOptions {
    /// The subcommand that was chosen
    pub subcommand: Option<String>,
    /// The group of the subcommand
    pub subcommand_group: Option<String>,
    /// The arguments, by name
    pub args: Vec<(String, OptionValue)>,
    /// The name of the argument in focus
    pub focused: Option<String>,
}

/// The contents of [`ParsedOptions`]
pub struct ParsedView {
    /// The subcommand that was chosen
    pub subcommand: Option<Seq<char>>,
    /// The group of the subcommand
    pub subcommand_group: Option<Seq<char>>,
    /// The arguments, by name
    pub args: Seq<(String, OptionValue)>,
    /// The name of the argument in focus
    pub focused: Option<Seq<char>>,
}

impl View for ParsedOptions {
    type V = ParsedView;

    open spec fn view(&self) -> ParsedView {
        ParsedView {
            subcommand: opt_view(self.subcommand),
            subcommand_group: opt_view(self.subcommand_group),
            args: self.args@,
            focused: opt_view(self.focused),
        }
    }
}

/// The contents of a parse's outcome.
pub open spec fn parsed_view(r: Result<ParsedOptions, InputError>) -> Result<ParsedView, InputError> {
    match r {
        Ok(p) => Ok(p@),
        Err(e) => Err(e),
    }
}

/// `acc` with the value `v` of the option named `name` added, and that option in focus when `focused` holds.
pub open spec fn with_value(acc: ParsedView, name: String, focused: Option<bool>, v: OptionValue) -> ParsedView {
    ParsedView {
        focused: if focused == Some(true) { Some(name@) } else { acc.focused },
        args: keyed_insert(acc.args, name, v),
        ..acc
    }
}

/// Whether `r` is the outcome of reading the options `opts` into `acc`: a group or a
/// subcommand is recorded and its own options read in its place (the options after
/// it are not read); any other option's value is stored under its name.
pub open spec fn options_parsed(opts: Seq<InteractionOption>, resolved: Option<InteractionDataResolved>, acc: ParsedView, r: Result<ParsedView, InputError>) -> bool
    decreases opts,
{
    if opts.len() == 0 {
        r == Ok::<ParsedView, InputError>(acc)
    } else {
        let o = opts[0];
        match o.option_type {
            InteractionOptionType::SUB_COMMAND_GROUP => match o.options {
                None => r == Err::<ParsedView, InputError>(InputError::NoSubcommands),
                Some(sub) => options_parsed(sub@, resolved, ParsedView { subcommand_group: Some(o.name@), ..acc }, r),
            },
            InteractionOptionType::SUB_COMMAND => match o.options {
                None => r == Ok::<ParsedView, InputError>(ParsedView { subcommand: Some(o.name@), ..acc }),
                Some(sub) => options_parsed(sub@, resolved, ParsedView { subcommand: Some(o.name@), ..acc }, r),
            },
            _ => match value_error(o.option_type, o.value, resolved) {
                Some(e) => r == Err::<ParsedView, InputError>(e),
                None => exists|v: OptionValue| #[trigger] value_ok(o.option_type, o.value, resolved, v)
                    && options_parsed(opts.drop_first(), resolved, with_value(acc, o.name, o.focused, v), r),
            },
        }
    }
}

/// Reads the options of a command into `acc`.
pub fn parse_options(options: Vec<InteractionOption>, resolved: &Option<InteractionDataResolved>, acc: ParsedOptions) -> (r: Result<ParsedOptions, InputError>)
    ensures
        options_parsed(options@, *resolved, acc@, parsed_view(r)),
    decreases options@,
{
    if options.len() == 0 {
        return Ok(acc);
    }
    let ghost old_options = options@;
    let mut options = options;
    let o = options.remove(0);
    proof {
        assert(o == old_options[0]);
        assert(options@ == old_options.drop_first());
    }
    let InteractionOption { name, option_type, value, options: sub, focused } = o;
    match option_type {
        InteractionOptionType::SUB_COMMAND_GROUP => match sub {
            None => Err(InputError::NoSubcommands),
            Some(sub) => {
                proof {
                    assert(decreases_to!(old_options => old_options[0]));
                    assert(decreases_to!(old_options[0] => old_options[0].options));
                    assert(decreases_to!(old_options => sub@));
                }
                parse_options(sub, resolved, ParsedOptions { subcommand_group: Some(name), ..acc })
            },
        },
        InteractionOptionType::SUB_COMMAND => match sub {
            None => Ok(ParsedOptions { subcommand: Some(name), ..acc }),
            Some(sub) => {
                proof {
                    assert(decreases_to!(old_options => old_options[0]));
                    assert(decreases_to!(old_options[0] => old_options[0].options));
                    assert(decreases_to!(old_options => sub@));
                }
                parse_options(sub, resolved, ParsedOptions { subcommand: Some(name), ..acc })
            },
        },
        _ => {
            let v = parse_value(option_type, value, resolved)?;
            let ghost gv = v;
            let ParsedOptions { subcommand, subcommand_group, mut args, focused: acc_focused } = acc;
            let new_focused = if matches!(focused, Some(true)) { Some(name.clone()) } else { acc_focused };
            keyed_insert_exec(&mut args, name, v);
            let next = ParsedOptions { subcommand, subcommand_group, args, focused: new_focused };
            proof {
                assert(next@ == with_value(acc@, old_options[0].name, old_options[0].focused, gv));
            }
            let r = parse_options(options, resolved, next);
            proof {
                assert(value_ok(option_type, old_options[0].value, *resolved, gv));
            }
            r
        },
    }
}

/// The text of an optional value, no value being the empty text.
pub open spec fn text_or_empty(o: Option<String>) -> Seq<char> {
    match o {
        Some(s) => s@,
        None => Seq::empty(),
    }
}

/// The text inputs among `cs`, in order, those inside action rows and labels included.
pub open spec fn text_inputs(cs: Seq<Component>) -> Seq<TextInput>
    decreases cs,
{
    if cs.len() == 0 {
        Seq::empty()
    } else {
        text_inputs_of(cs[0]) + text_inputs(cs.drop_first())
    }
}

/// The text inputs of `c`: itself if it is one, those that it holds if it is an action row or a
/// label, and none otherwise.
pub open spec fn text_inputs_of(c: Component) -> Seq<TextInput>
    decreases c,
{
    match c {
        Component::ActionRow(row) => text_inputs(row.components@),
        Component::Label(label) => text_inputs_of(*label.component),
        Component::TextInput(ti) => seq![ti],
        _ => Seq::empty(),
    }
}

/// Whether `after` is `before` with the value of each of the text inputs `tis` stored under its
/// custom id, in order (an empty text where it has no value).
pub open spec fn inputs_stored(tis: Seq<TextInput>, before: Seq<(String, OptionValue)>, after: Seq<(String, OptionValue)>) -> bool
    decreases tis.len(),
{
    if tis.len() == 0 {
        after == before
    } else {
        exists|x: String| x@ == text_or_empty(tis[0].value)
            && inputs_stored(tis.drop_first(), #[trigger] keyed_insert(before, tis[0].custom_id, OptionValue::String(x)), after)
    }
}

/// Whether `after` is `before` with the values of the text inputs among `cs` stored under
/// their custom ids, in order, those inside action rows and labels included.
pub open spec fn components_parsed(cs: Seq<Component>, before: Seq<(String, OptionValue)>, after: Seq<(String, OptionValue)>) -> bool {
    inputs_stored(text_inputs(cs), before, after)
}

/// Storing the inputs `a` and then the inputs `b` stores the inputs `a + b`.
proof fn lemma_inputs_stored_concat(a: Seq<TextInput>, b: Seq<TextInput>, before: Seq<(String, OptionValue)>, mid: Seq<(String, OptionValue)>, after: Seq<(String, OptionValue)>)
    requires
        inputs_stored(a, before, mid),
        inputs_stored(b, mid, after),
    ensures
        inputs_stored(a + b, before, after),
    decreases a.len(),
{
    if a.len() == 0 {
        assert(a + b =~= b);
    } else {
        let x = choose|x: String| x@ == text_or_empty(a[0].value)
            && inputs_stored(a.drop_first(), #[trigger] keyed_insert(before, a[0].custom_id, OptionValue::String(x)), mid);
        let next = keyed_insert(before, a[0].custom_id, OptionValue::String(x));
        lemma_inputs_stored_concat(a.drop_first(), b, next, mid, after);
        assert((a + b).drop_first() =~= a.drop_first() + b);
        assert((a + b)[0] == a[0]);
    }
}

/// Stores the values of the text inputs among `components` in `args`.
pub fn parse_component_values(components: Vec<Component>, args: &mut Vec<(String, OptionValue)>)
    ensures
        inputs_stored(text_inputs(components@), old(args)@, final(args)@),
    decreases components@,
{
    if components.len() == 0 {
        return;
    }
    let ghost old_components = components@;
    let ghost before = args@;
    let mut components = components;
    let c = components.remove(0);
    proof {
        assert(c == old_components[0]);
        assert(components@ == old_components.drop_first());
        assert(decreases_to!(old_components => old_components[0]));
    }
    parse_component_value(c, args);
    let ghost mid = args@;
    parse_component_values(components, args);
    proof {
        lemma_inputs_stored_concat(text_inputs_of(old_components[0]), text_inputs(old_components.drop_first()), before, mid, args@);
    }
}

/// Stores the value of the text input `c`, or those of the text inputs that the action row or
/// label `c` holds, in `args`.
pub fn parse_component_value(c: Component, args: &mut Vec<(String, OptionValue)>)
    ensures
        inputs_stored(text_inputs_of(c), old(args)@, final(args)@),
    decreases c,
{
    match c {
        Component::ActionRow(row) => {
            proof { assert(decreases_to!(c => row.components@)); }
            parse_component_values(row.components, args);
        },
        Component::Label(label) => {
            let inner = *label.component;
            parse_component_value(inner, args);
        },
        Component::TextInput(ti) => {
            let ghost tv = ti.value;
            let ghost tis = seq![ti];
            let ghost before = args@;
            let value = match ti.value {
                Some(s) => s,
                None => String::new(),
            };
            let ghost x = value;
            keyed_insert_exec(args, ti.custom_id, OptionValue::String(value));
            proof {
                assert(x@ == text_or_empty(tv));
                assert(tis.drop_first() =~= Seq::<TextInput>::empty());
                assert(inputs_stored(tis.drop_first(), keyed_insert(before, tis[0].custom_id, OptionValue::String(x)), args@));
            }
        },
        _ => {},
    }
}

/// Whether every value names an entry of `m`.
pub open spec fn all_keys<V>(m: Seq<(String, V)>, values: Seq<String>) -> bool {
    forall|i: int| 0 <= i < values.len() ==> has_key(m, #[trigger] values[i]@)
}

/// The error that reading the values of a select menu of component type `ct` gives, if it gives one.
pub open spec fn select_error(ct: Option<ComponentType>, values: Seq<String>, resolved: Option<InteractionDataResolved>) -> Option<InputError> {
    match ct {
        None => Some(InputError::NoComponentType),
        Some(t) => if values.len() == 0 {
            None
        } else {
            match t {
                ComponentType::USER_SELECT => match resolved {
                    None => Some(InputError::SelectNoResolved(t)),
                    Some(res) => match res.users {
                        None => Some(InputError::SelectNoResolvedKind(t)),
                        Some(m) => if all_keys(m@, values) { None } else { Some(InputError::SelectNotFound(t)) },
                    },
                },
                ComponentType::ROLE_SELECT => match resolved {
                    None => Some(InputError::SelectNoResolved(t)),
                    Some(res) => match res.roles {
                        None => Some(InputError::SelectNoResolvedKind(t)),
                        Some(m) => if all_keys(m@, values) { None } else { Some(InputError::SelectNotFound(t)) },
                    },
                },
                ComponentType::CHANNEL_SELECT => match resolved {
                    None => Some(InputError::SelectNoResolved(t)),
                    Some(res) => match res.channels {
                        None => Some(InputError::SelectNoResolvedKind(t)),
                        Some(m) => if all_keys(m@, values) { None } else { Some(InputError::SelectNotFound(t)) },
                    },
                },
                ComponentType::MENTIONABLE_SELECT => match resolved {
                    None => Some(InputError::SelectNoResolved(t)),
                    Some(res) => if forall|i: int| 0 <= i < values.len() ==> mentionable_found(res, #[trigger] values[i]@) {
                        None
                    } else {
                        Some(InputError::NotFound(InteractionOptionType::MENTIONABLE))
                    },
                },
                _ => None,
            }
        },
    }
}

/// Whether `out` is the resolved values of a select menu of component type `ct`, when reading them gives no error:
/// one resolved object per value for user, role, mentionable and channel select menus, none for other components.
pub open spec fn select_ok(ct: Option<ComponentType>, values: Seq<String>, resolved: Option<InteractionDataResolved>, out: Seq<OptionValue>) -> bool {
    match ct {
        Some(ComponentType::USER_SELECT) => out.len() == values.len() && forall|i: int| 0 <= i < values.len() ==>
            (resolved matches Some(res) && res.users matches Some(m) && #[trigger] out[i] matches OptionValue::User(x) && cloned_entry(m@, values[i]@, x)),
        Some(ComponentType::ROLE_SELECT) => out.len() == values.len() && forall|i: int| 0 <= i < values.len() ==>
            (resolved matches Some(res) && res.roles matches Some(m) && #[trigger] out[i] matches OptionValue::Role(x) && cloned_entry(m@, values[i]@, x)),
        Some(ComponentType::CHANNEL_SELECT) => out.len() == values.len() && forall|i: int| 0 <= i < values.len() ==>
            (resolved matches Some(res) && res.channels matches Some(m) && #[trigger] out[i] matches OptionValue::Channel(x) && cloned_entry(m@, values[i]@, *x)),
        Some(ComponentType::MENTIONABLE_SELECT) => out.len() == values.len() && forall|i: int| 0 <= i < values.len() ==>
            (resolved matches Some(res) && mentionable_ok(res, values[i]@, #[trigger] out[i])),
        _ => out.len() == 0,
    }
}

/// Reads the resolved objects that the values of a select menu of component type `ct` name.
pub fn parse_select_values(values: &Vec<String>, resolved: &Option<InteractionDataResolved>, ct: Option<ComponentType>) -> (r: Result<Vec<OptionValue>, InputError>)
    ensures
        match select_error(ct, values@, *resolved) {
            Some(e) => r == Err::<Vec<OptionValue>, InputError>(e),
            None => r matches Ok(out) && select_ok(ct, values@, *resolved, out@),
        },
{
    let t = match ct {
        Some(t) => t,
        None => { return Err(InputError::NoComponentType); },
    };
    let mut out: Vec<OptionValue> = Vec::new();
    match t {
        ComponentType::USER_SELECT => {
            let mut i: usize = 0;
            while i < values.len()
                invariant
                    ct == Some(t), t == ComponentType::USER_SELECT,
                    i <= values@.len(),
                    out@.len() == i,
                    i > 0 ==> (*resolved matches Some(res) && res.users is Some),
                    forall|k: int| 0 <= k < i ==> (*resolved matches Some(res) && res.users matches Some(m)
                        && #[trigger] out@[k] matches OptionValue::User(x) && cloned_entry(m@, values@[k]@, x)),
                    forall|k: int| 0 <= k < i ==> (*resolved matches Some(res) && res.users matches Some(m) && has_key(m@, #[trigger] values@[k]@)),
                decreases values@.len() - i,
            {
                let res = match resolved { Some(res) => res, None => { return Err(InputError::SelectNoResolved(t)); } };
                let m = match &res.users { Some(m) => m, None => { return Err(InputError::SelectNoResolvedKind(t)); } };
                match pick_cloned(m, values[i].as_str()) {
                    Some(x) => { out.push(OptionValue::User(x)); },
                    None => { return Err(InputError::SelectNotFound(t)); },
                }
                i = i + 1;
            }
            proof {
                if values@.len() > 0 {
                    let m = resolved->Some_0.users->Some_0;
                    assert forall|k: int| 0 <= k < values@.len() implies has_key(m@, #[trigger] values@[k]@) by {}
                    assert(all_keys(m@, values@));
                }
                assert(select_error(ct, values@, *resolved) is None);
                assert(select_ok(ct, values@, *resolved, out@));
            }
        },
        ComponentType::ROLE_SELECT => {
            let mut i: usize = 0;
            while i < values.len()
                invariant
                    ct == Some(t), t == ComponentType::ROLE_SELECT,
                    i <= values@.len(),
                    out@.len() == i,
                    i > 0 ==> (*resolved matches Some(res) && res.roles is Some),
                    forall|k: int| 0 <= k < i ==> (*resolved matches Some(res) && res.roles matches Some(m)
                        && #[trigger] out@[k] matches OptionValue::Role(x) && cloned_entry(m@, values@[k]@, x)),
                    forall|k: int| 0 <= k < i ==> (*resolved matches Some(res) && res.roles matches Some(m) && has_key(m@, #[trigger] values@[k]@)),
                decreases values@.len() - i,
            {
                let res = match resolved { Some(res) => res, None => { return Err(InputError::SelectNoResolved(t)); } };
                let m = match &res.roles { Some(m) => m, None => { return Err(InputError::SelectNoResolvedKind(t)); } };
                match pick_cloned(m, values[i].as_str()) {
                    Some(x) => { out.push(OptionValue::Role(x)); },
                    None => { return Err(InputError::SelectNotFound(t)); },
                }
                i = i + 1;
            }
            proof {
                if values@.len() > 0 {
                    let m = resolved->Some_0.roles->Some_0;
                    assert forall|k: int| 0 <= k < values@.len() implies has_key(m@, #[trigger] values@[k]@) by {}
                    assert(all_keys(m@, values@));
                }
                assert(select_error(ct, values@, *resolved) is None);
                assert(select_ok(ct, values@, *resolved, out@));
            }
        },
        ComponentType::CHANNEL_SELECT => {
            let mut i: usize = 0;
            while i < values.len()
                invariant
                    ct == Some(t), t == ComponentType::CHANNEL_SELECT,
                    i <= values@.len(),
                    out@.len() == i,
                    i > 0 ==> (*resolved matches Some(res) && res.channels is Some),
                    forall|k: int| 0 <= k < i ==> (*resolved matches Some(res) && res.channels matches Some(m)
                        && #[trigger] out@[k] matches OptionValue::Channel(x) && cloned_entry(m@, values@[k]@, *x)),
                    forall|k: int| 0 <= k < i ==> (*resolved matches Some(res) && res.channels matches Some(m) && has_key(m@, #[trigger] values@[k]@)),
                decreases values@.len() - i,
            {
                let res = match resolved { Some(res) => res, None => { return Err(InputError::SelectNoResolved(t)); } };
                let m = match &res.channels { Some(m) => m, None => { return Err(InputError::SelectNoResolvedKind(t)); } };
                match pick_cloned(m, values[i].as_str()) {
                    Some(x) => { out.push(OptionValue::Channel(Box::new(x))); },
                    None => { return Err(InputError::SelectNotFound(t)); },
                }
                i = i + 1;
            }
            proof {
                if values@.len() > 0 {
                    let m = resolved->Some_0.channels->Some_0;
                    assert forall|k: int| 0 <= k < values@.len() implies has_key(m@, #[trigger] values@[k]@) by {}
                    assert(all_keys(m@, values@));
                }
                assert(select_error(ct, values@, *resolved) is None);
                assert(select_ok(ct, values@, *resolved, out@));
            }
        },
        ComponentType::MENTIONABLE_SELECT => {
            let mut i: usize = 0;
            while i < values.len()
                invariant
                    ct == Some(t), t == ComponentType::MENTIONABLE_SELECT,
                    i <= values@.len(),
                    out@.len() == i,
                    i > 0 ==> resolved is Some,
                    forall|k: int| 0 <= k < i ==> (*resolved matches Some(res) && mentionable_ok(res, values@[k]@, #[trigger] out@[k])),
                    forall|k: int| 0 <= k < i ==> (*resolved matches Some(res) && mentionable_found(res, #[trigger] values@[k]@)),
                decreases values@.len() - i,
            {
                let res = match resolved { Some(res) => res, None => { return Err(InputError::SelectNoResolved(t)); } };
                let v = parse_mentionable(res, values[i].as_str())?;
                out.push(v);
                i = i + 1;
            }
            proof {
                assert(select_error(ct, values@, *resolved) is None);
                assert(select_ok(ct, values@, *resolved, out@));
            }
        },
        _ => {},
    }
    Ok(out)
}

/// The resolved objects of a command, and the targets of a context menu command
#[derive(Debug)]
pub struct ResolvedParts {
    /// The resolved objects, for commands other than context menu ones
    pub resolved: Option<InteractionDataResolved>,
    /// The target user of a user command
    pub target_user: Option<User>,
    /// The target member of a user command
    pub target_member: Option<GuildMember>,
    /// The target message of a message command
    pub target_message: Option<Message>,
}

/// The outcome of sorting the resolved objects of a command of type `ct`:
/// a user command takes its target user (and member) out of them, a message command its
/// target message; other commands keep them whole.
pub open spec fn resolved_result(ct: Option<ApplicationCommandType>, resolved: Option<InteractionDataResolved>, target_id: Option<String>) -> Result<ResolvedParts, InputError> {
    match ct {
        None => Err::<ResolvedParts, InputError>(InputError::NoCommandType),
        Some(ApplicationCommandType::USER) => match target_id {
            None => Err::<ResolvedParts, InputError>(InputError::NoTarget(ApplicationCommandType::USER)),
            Some(id) => match resolved {
                None => Err::<ResolvedParts, InputError>(InputError::NoTargetResolved(ApplicationCommandType::USER)),
                Some(res) => match res.users {
                    None => Err::<ResolvedParts, InputError>(InputError::NoTargetResolvedKind(ApplicationCommandType::USER)),
                    Some(users) => Ok::<ResolvedParts, InputError>(ResolvedParts {
                        resolved: None,
                        target_user: lookup(users@, id@),
                        target_member: match res.members {
                            Some(members) => lookup(members@, id@),
                            None => None,
                        },
                        target_message: None,
                    }),
                },
            },
        },
        Some(ApplicationCommandType::MESSAGE) => match target_id {
            None => Err::<ResolvedParts, InputError>(InputError::NoTarget(ApplicationCommandType::MESSAGE)),
            Some(id) => match resolved {
                None => Err::<ResolvedParts, InputError>(InputError::NoTargetResolved(ApplicationCommandType::MESSAGE)),
                Some(res) => match res.messages {
                    None => Err::<ResolvedParts, InputError>(InputError::NoTargetResolvedKind(ApplicationCommandType::MESSAGE)),
                    Some(messages) => Ok::<ResolvedParts, InputError>(ResolvedParts {
                        resolved: None,
                        target_user: None,
                        target_member: None,
                        target_message: lookup(messages@, id@),
                    }),
                },
            },
        },
        Some(_) => Ok::<ResolvedParts, InputError>(ResolvedParts { resolved, target_user: None, target_member: None, target_message: None }),
    }
}

/// Sorts the resolved objects of a command of type `ct`.
pub fn parse_resolved(ct: Option<ApplicationCommandType>, resolved: Option<InteractionDataResolved>, target_id: Option<String>) -> (r: Result<ResolvedParts, InputError>)
    ensures
        r == resolved_result(ct, resolved, target_id),
        ct == Some(ApplicationCommandType::MESSAGE) && target_id is Some && resolved is Some
            && resolved->Some_0.messages is Some ==> (r matches Ok(parts)
            && parts.target_message == lookup(resolved->Some_0.messages->Some_0@, target_id->Some_0@)),
        ct == Some(ApplicationCommandType::USER) && target_id is Some && resolved is Some
            && resolved->Some_0.users is Some ==> (r matches Ok(parts)
            && parts.target_user == lookup(resolved->Some_0.users->Some_0@, target_id->Some_0@)),
{
    let ct = match ct {
        Some(ct) => ct,
        None => { return Err(InputError::NoCommandType); },
    };
    match ct {
        ApplicationCommandType::USER => {
            let id = match target_id { Some(id) => id, None => { return Err(InputError::NoTarget(ct)); } };
            let res = match resolved { Some(res) => res, None => { return Err(InputError::NoTargetResolved(ct)); } };
            let InteractionDataResolved { users, members, roles: _, channels: _, messages: _, attachments: _ } = res;
            let mut users = match users { Some(u) => u, None => { return Err(InputError::NoTargetResolvedKind(ct)); } };
            let target_user = keyed_remove_exec(&mut users, id.as_str());
            let target_member = match members {
                Some(mut ms) => keyed_remove_exec(&mut ms, id.as_str()),
                None => None,
            };
            Ok(ResolvedParts { resolved: None, target_user, target_member, target_message: None })
        },
        ApplicationCommandType::MESSAGE => {
            let id = match target_id { Some(id) => id, None => { return Err(InputError::NoTarget(ct)); } };
            let res = match resolved { Some(res) => res, None => { return Err(InputError::NoTargetResolved(ct)); } };
            let InteractionDataResolved { users: _, members: _, roles: _, channels: _, messages, attachments: _ } = res;
            let mut messages = match messages { Some(m) => m, None => { return Err(InputError::NoTargetResolvedKind(ct)); } };
            let target_message = keyed_remove_exec(&mut messages, id.as_str());
            Ok(ResolvedParts { resolved: None, target_user: None, target_member: None, target_message })
        },
        _ => Ok(ResolvedParts { resolved, target_user: None, target_member: None, target_message: None }),
    }
}

/// Whether `r` is the user that ran a command: that of the member when the command ran in a guild,
/// else the interaction's user.
pub open spec fn user_parsed(user: Option<User>, member: Option<GuildMember>, r: Result<User, InputError>) -> bool {
    match member {
        Some(m) => match m.user {
            Some(u) => r matches Ok(x) && cloned(u, x),
            None => r == Err::<User, InputError>(InputError::NoUserInMember),
        },
        None => match user {
            Some(u) => r == Ok::<User, InputError>(u),
            None => r == Err::<User, InputError>(InputError::NoMemberOrUser),
        },
    }
}

/// The user that ran a command.
pub fn parse_user(user: Option<User>, member: &Option<GuildMember>) -> (r: Result<User, InputError>)
    ensures
        user_parsed(user, *member, r),
{
    match member {
        Some(m) => match &m.user {
            Some(u) => Ok(u.clone()),
            None => Err(InputError::NoUserInMember),
        },
        None => match user {
            Some(u) => Ok(u),
            None => Err(InputError::NoMemberOrUser),
        },
    }
}

/// The command that an interaction is for, and the id part of the custom_id of a component
/// interaction: command interactions name their command; component and modal interactions carry
/// a custom_id `command/id`, split at its first `/`.
pub open spec fn route_of(t: InteractionType, data: Option<InteractionData>) -> Result<(Seq<char>, Option<Seq<char>>), InputError> {
    match data {
        None => Err(InputError::NoData),
        Some(d) => match t {
            InteractionType::APPLICATION_COMMAND | InteractionType::APPLICATION_COMMAND_AUTOCOMPLETE => match d.name {
                Some(name) => Ok((name@, None)),
                None => Err(InputError::NoCommandName),
            },
            InteractionType::MESSAGE_COMPONENT | InteractionType::MODAL_SUBMIT => match d.custom_id {
                None => Err(InputError::NoCustomId),
                Some(cid) => match split_once_spec(cid@, '/') {
                    Some((command, id)) => Ok((command, Some(id))),
                    None => Err(InputError::BadCustomId(cid)),
                },
            },
            _ => Err(InputError::UnexpectedInteractionType),
        },
    }
}

/// A component or modal interaction whose custom_id was made from a command's name and an id
/// (`command/id`) is routed to that command with that id, when the name holds no `/`.
pub proof fn law_custom_id_routes_back(t: InteractionType, data: InteractionData, command: Seq<char>, id: Seq<char>)
    requires
        t == InteractionType::MESSAGE_COMPONENT || t == InteractionType::MODAL_SUBMIT,
        data.custom_id matches Some(cid) && cid@ == custom_id_text(command, id),
        !command.contains('/'),
    ensures
        route_of(t, Some(data)) == Ok::<(Seq<char>, Option<Seq<char>>), InputError>((command, Some(id))),
{
    law_custom_id_splits(command, id);
}

/// The contents of a route.
pub open spec fn route_view(r: Result<(String, Option<String>), InputError>) -> Result<(Seq<char>, Option<Seq<char>>), InputError> {
    match r {
        Ok((name, id)) => Ok((name@, opt_view(id))),
        Err(e) => Err(e),
    }
}

/// The name of the command that an interaction is for, and the id part of a component's custom_id
pub fn command_route(interaction: &Interaction) -> (r: Result<(String, Option<String>), InputError>)
    ensures
        route_view(r) == route_of(interaction.interaction_type, interaction.data),
{
    let data = match &interaction.data {
        Some(d) => d,
        None => { return Err(InputError::NoData); },
    };
    match interaction.interaction_type {
        InteractionType::APPLICATION_COMMAND | InteractionType::APPLICATION_COMMAND_AUTOCOMPLETE => match &data.name {
            Some(name) => Ok((name.clone(), None)),
            None => Err(InputError::NoCommandName),
        },
        InteractionType::MESSAGE_COMPONENT | InteractionType::MODAL_SUBMIT => match &data.custom_id {
            None => Err(InputError::NoCustomId),
            Some(cid) => match split_once(cid.as_str(), '/') {
                Some((command, id)) => Ok((command, Some(id))),
                None => Err(InputError::BadCustomId(cid.clone())),
            },
        },
        _ => Err(InputError::UnexpectedInteractionType),
    }
}

/// Values passed as inputs for your command
#[derive(Clone, Debug)]
pub struct CommandInput {
    /// The type of the interaction this command was called for
    pub interaction_type: InteractionType,
    /// The type of the command on command interactions
    pub command_type: Option<ApplicationCommandType>,
    /// The type of the component on component interactions
    pub component_type: Option<ComponentType>,
    /// Name of the command that was executed
    pub command: String,
    /// Subcommand that was executed
    ///
    /// Only included in chat input commands
    pub subcommand: Option<String>,
    /// Subcommand group the subcommand belongs in
    ///
    /// Only included in chat input commands
    pub subcommand_group: Option<String>,
    /// Arguments or modal inputs the user of your command filled.\
    /// The key is the name of the argument or custom_id of the component
    pub args: Vec<(String, OptionValue)>,
    /// user, member, role, channel and message objects resolved from arguments by Discord
    ///
    /// Not included in context menu commands, see the `target_*` fields.
    pub resolved: Option<InteractionDataResolved>,
    /// The ID of the guild the command was sent from
    pub guild_id: Option<Snowflake>,
    /// The ID of the channel the command was sent from
    pub channel_id: Option<Snowflake>,
    /// The user that ran the command
    pub user: User,
    /// If the command was executed in a guild, the member object of the user
    pub member: Option<GuildMember>,
    /// Message the interaction was executed on
    ///
    /// Only included in component interactions
    pub message: Option<Message>,
    /// The target user of a context menu command
    pub target_user: Option<User>,
    /// The target member of a context menu command
    pub target_member: Option<GuildMember>,
    /// The target message of a context menu command
    pub target_message: Option<Message>,
    /// Custom ID of the component
    ///
    /// Only included in component interactions
    pub custom_id: Option<String>,
    /// Chosen values from a Select Menu
    ///
    /// Only included in Select Menu component interactions
    pub values: Option<Vec<String>>,
    /// Resolved values from a select menu
    ///
    /// Only included in User, Role, Mentionable and Channel Select Menu component interactions
    pub resolved_values: Option<Vec<OptionValue>>,
    /// The argument currently in focus
    ///
    /// Only included in command autocomplete interactions
    pub focused: Option<String>,
    /// Permissions the app or bot has within the channel the interaction was sent from
    pub app_permissions: Option<Permissions>,
    /// The selected [language](https://discord.com/developers/docs/reference#locales) of the user
    pub locale: String,
    /// The guild's preferred locale
    pub guild_locale: Option<String>,
}

/// The items of an optional list, no list being read as an empty one.
pub open spec fn seq_or_empty<T>(o: Option<Vec<T>>) -> Seq<T> {
    match o {
        Some(v) => v@,
        None => Seq::empty(),
    }
}

/// Nothing read yet.
pub open spec fn empty_parsed() -> ParsedView {
    ParsedView { subcommand: None, subcommand_group: None, args: Seq::empty(), focused: None }
}

/// The error that reading the user that ran a command gives, if it gives one.
pub open spec fn user_error(user: Option<User>, member: Option<GuildMember>) -> Option<InputError> {
    match member {
        Some(m) => if m.user is Some { None } else { Some(InputError::NoUserInMember) },
        None => if user is Some { None } else { Some(InputError::NoMemberOrUser) },
    }
}

/// The error that reading the values of a select menu gives, if it gives one.
pub open spec fn values_error(data: InteractionData) -> Option<InputError> {
    match data.values {
        None => None,
        Some(v) => select_error(data.component_type, v@, data.resolved),
    }
}

/// Whether `input` carries what the interaction gave: its own fields, the options read as `pv`,
/// the arguments `args`, the values of a select menu with their resolved objects.
pub open spec fn input_fields(i: Interaction, data: InteractionData, command: String, custom_id: Option<String>, locale: String, pv: ParsedView, args: Seq<(String, OptionValue)>, input: CommandInput) -> bool {
    &&& input.interaction_type == i.interaction_type
    &&& input.command_type == data.command_type
    &&& input.component_type == data.component_type
    &&& input.command == command
    &&& opt_view(input.subcommand) == pv.subcommand
    &&& opt_view(input.subcommand_group) == pv.subcommand_group
    &&& input.args@ == args
    &&& input.guild_id == i.guild_id
    &&& input.channel_id == i.channel_id
    &&& user_parsed(i.user, i.member, Ok(input.user))
    &&& input.member == i.member
    &&& input.message == i.message
    &&& input.custom_id == custom_id
    &&& input.values == data.values
    &&& match data.values {
        None => input.resolved_values is None,
        Some(v) => input.resolved_values matches Some(out) && select_ok(data.component_type, v@, data.resolved, out@),
    }
    &&& opt_view(input.focused) == pv.focused
    &&& input.app_permissions == i.app_permissions
    &&& input.locale == locale
    &&& input.guild_locale == i.guild_locale
}

/// The outcome once the options, components and select values are read: the resolved objects
/// are sorted for commands (an error there is the outcome), and kept out for components.
pub open spec fn input_rest(i: Interaction, data: InteractionData, command: String, custom_id: Option<String>, locale: String, pv: ParsedView, args: Seq<(String, OptionValue)>, r: Result<CommandInput, InputError>) -> bool {
    if data.command_type is Some {
        match resolved_result(data.command_type, data.resolved, data.target_id) {
            Err(e) => r == Err::<CommandInput, InputError>(e),
            Ok(parts) => r matches Ok(input) && input_fields(i, data, command, custom_id, locale, pv, args, input)
                && input.resolved == parts.resolved && input.target_user == parts.target_user
                && input.target_member == parts.target_member && input.target_message == parts.target_message,
        }
    } else {
        r matches Ok(input) && input_fields(i, data, command, custom_id, locale, pv, args, input)
            && input.resolved is None && input.target_user is None && input.target_member is None && input.target_message is None
    }
}

/// Whether `r` is the input that the interaction `i` gives the command `command`: the errors come
/// in the order in which the parts are read (data, user, locale, options, select values, resolved objects).
pub open spec fn input_built(i: Interaction, command: String, custom_id: Option<String>, r: Result<CommandInput, InputError>) -> bool {
    match i.data {
        None => r == Err::<CommandInput, InputError>(InputError::NoData),
        Some(data) => match user_error(i.user, i.member) {
            Some(e) => r == Err::<CommandInput, InputError>(e),
            None => match i.locale {
                None => r == Err::<CommandInput, InputError>(InputError::NoLocale),
                Some(locale) => exists|po: Result<ParsedView, InputError>|
                    #[trigger] options_parsed(seq_or_empty(data.options), data.resolved, empty_parsed(), po)
                    && match po {
                        Err(e) => r == Err::<CommandInput, InputError>(e),
                        Ok(pv) => exists|args: Seq<(String, OptionValue)>|
                            #[trigger] components_parsed(seq_or_empty(data.components), pv.args, args)
                            && match values_error(data) {
                                Some(e) => r == Err::<CommandInput, InputError>(e),
                                None => input_rest(i, data, command, custom_id, locale, pv, args, r),
                            },
                    },
            },
        },
    }
}

/// Reading options keeps the keys of the arguments distinct.
proof fn lemma_options_keep_keys_distinct(opts: Seq<InteractionOption>, resolved: Option<InteractionDataResolved>, acc: ParsedView, pv: ParsedView)
    requires
        options_parsed(opts, resolved, acc, Ok(pv)),
        keys_distinct(acc.args),
    ensures
        keys_distinct(pv.args),
    decreases opts,
{
    if opts.len() > 0 {
        let o = opts[0];
        match o.option_type {
            InteractionOptionType::SUB_COMMAND_GROUP => {
                if let Some(sub) = o.options {
                    assert(decreases_to!(opts => opts[0]));
                    lemma_options_keep_keys_distinct(sub@, resolved, ParsedView { subcommand_group: Some(o.name@), ..acc }, pv);
                }
            },
            InteractionOptionType::SUB_COMMAND => {
                if let Some(sub) = o.options {
                    assert(decreases_to!(opts => opts[0]));
                    lemma_options_keep_keys_distinct(sub@, resolved, ParsedView { subcommand: Some(o.name@), ..acc }, pv);
                }
            },
            _ => {
                if value_error(o.option_type, o.value, resolved) is None {
                    let v = choose|v: OptionValue| #[trigger] value_ok(o.option_type, o.value, resolved, v)
                        && options_parsed(opts.drop_first(), resolved, with_value(acc, o.name, o.focused, v), Ok(pv));
                    law_keyed_insert_keeps_keys_distinct(acc.args, o.name, v);
                    lemma_options_keep_keys_distinct(opts.drop_first(), resolved, with_value(acc, o.name, o.focused, v), pv);
                }
            },
        }
    }
}

/// Storing the values of text inputs keeps the keys of the arguments distinct.
proof fn lemma_inputs_keep_keys_distinct(tis: Seq<TextInput>, before: Seq<(String, OptionValue)>, after: Seq<(String, OptionValue)>)
    requires
        inputs_stored(tis, before, after),
        keys_distinct(before),
    ensures
        keys_distinct(after),
    decreases tis.len(),
{
    if tis.len() > 0 {
        let x = choose|x: String| x@ == text_or_empty(tis[0].value)
            && inputs_stored(tis.drop_first(), #[trigger] keyed_insert(before, tis[0].custom_id, OptionValue::String(x)), after);
        law_keyed_insert_keeps_keys_distinct(before, tis[0].custom_id, OptionValue::String(x));
        lemma_inputs_keep_keys_distinct(tis.drop_first(), keyed_insert(before, tis[0].custom_id, OptionValue::String(x)), after);
    }
}

/// The arguments of a command's input form a map: no name or custom id occurs twice among them,
/// a later option or text input of the same name replacing the earlier one.
pub proof fn law_input_args_keys_distinct(i: Interaction, command: String, custom_id: Option<String>, r: Result<CommandInput, InputError>)
    requires
        input_built(i, command, custom_id, r),
    ensures
        r matches Ok(input) ==> keys_distinct(input.args@),
{
    if r is Ok {
        let data = i.data->Some_0;
        let po = choose|po: Result<ParsedView, InputError>|
            #[trigger] options_parsed(seq_or_empty(data.options), data.resolved, empty_parsed(), po)
            && match po {
                Err(e) => r == Err::<CommandInput, InputError>(e),
                Ok(pv) => exists|args: Seq<(String, OptionValue)>|
                    #[trigger] components_parsed(seq_or_empty(data.components), pv.args, args)
                    && match values_error(data) {
                        Some(e) => r == Err::<CommandInput, InputError>(e),
                        None => input_rest(i, data, command, custom_id, i.locale->Some_0, pv, args, r),
                    },
            };
        let pv = po->Ok_0;
        let args = choose|args: Seq<(String, OptionValue)>|
            #[trigger] components_parsed(seq_or_empty(data.components), pv.args, args)
            && match values_error(data) {
                Some(e) => r == Err::<CommandInput, InputError>(e),
                None => input_rest(i, data, command, custom_id, i.locale->Some_0, pv, args, r),
            };
        assert(keys_distinct(empty_parsed().args));
        lemma_options_keep_keys_distinct(seq_or_empty(data.options), data.resolved, empty_parsed(), pv);
        lemma_inputs_keep_keys_distinct(text_inputs(seq_or_empty(data.components)), pv.args, args);
    }
}

/// A message command takes as its target the resolved message stored under its target id (none
/// where no message is stored under it), and keeps no other resolved object.
pub proof fn law_message_command_target(res: InteractionDataResolved, id: String, messages: Vec<(String, Message)>)
    requires
        res.messages == Some(messages),
    ensures
        resolved_result(Some(ApplicationCommandType::MESSAGE), Some(res), Some(id)) matches Ok(parts)
            && parts.target_message == lookup(messages@, id@)
            && (has_key(messages@, id@) ==> parts.target_message is Some)
            && parts.target_user is None && parts.target_member is None && parts.resolved is None,
{
    if has_key(messages@, id@) {
        lemma_has_key_first(messages@, id@);
    }
}

/// A user command takes as its target the resolved user, and member, stored under its target id.
pub proof fn law_user_command_target(res: InteractionDataResolved, id: String, users: Vec<(String, User)>)
    requires
        res.users == Some(users),
    ensures
        resolved_result(Some(ApplicationCommandType::USER), Some(res), Some(id)) matches Ok(parts)
            && parts.target_user == lookup(users@, id@)
            && parts.target_member == (match res.members { Some(ms) => lookup(ms@, id@), None => None })
            && parts.target_message is None && parts.resolved is None,
{
}

/// The input that a message command's interaction gives holds, as its target message, the resolved
/// message stored under the interaction's target id.
pub proof fn law_input_target_message(i: Interaction, command: String, custom_id: Option<String>, input: CommandInput)
    requires
        input_built(i, command, custom_id, Ok(input)),
        i.data is Some,
        i.data->Some_0.command_type == Some(ApplicationCommandType::MESSAGE),
        i.data->Some_0.target_id is Some,
        i.data->Some_0.resolved is Some,
        i.data->Some_0.resolved->Some_0.messages is Some,
    ensures
        input.target_message == lookup(
            i.data->Some_0.resolved->Some_0.messages->Some_0@,
            i.data->Some_0.target_id->Some_0@,
        ),
{
    let r = Ok::<CommandInput, InputError>(input);
    let data = i.data->Some_0;
    let po = choose|po: Result<ParsedView, InputError>|
        #[trigger] options_parsed(seq_or_empty(data.options), data.resolved, empty_parsed(), po)
        && match po {
            Err(e) => r == Err::<CommandInput, InputError>(e),
            Ok(pv) => exists|args: Seq<(String, OptionValue)>|
                #[trigger] components_parsed(seq_or_empty(data.components), pv.args, args)
                && match values_error(data) {
                    Some(e) => r == Err::<CommandInput, InputError>(e),
                    None => input_rest(i, data, command, custom_id, i.locale->Some_0, pv, args, r),
                },
        };
    let pv = po->Ok_0;
    let args = choose|args: Seq<(String, OptionValue)>|
        #[trigger] components_parsed(seq_or_empty(data.components), pv.args, args)
        && match values_error(data) {
            Some(e) => r == Err::<CommandInput, InputError>(e),
            None => input_rest(i, data, command, custom_id, i.locale->Some_0, pv, args, r),
        };
    law_message_command_target(data.resolved->Some_0, data.target_id->Some_0, data.resolved->Some_0.messages->Some_0);
}

/// Reads the input of the command `command` from the interaction that invoked it;
/// `custom_id` is the id part of a component's custom_id (see [`command_route`])
pub fn command_input(interaction: Interaction, command: String, custom_id: Option<String>) -> (r: Result<CommandInput, InputError>)
    ensures
        input_built(interaction, command, custom_id, r),
{
    let ghost i = interaction;
    let Interaction { interaction_type, data, guild_id, channel_id, member, user, message, app_permissions, locale, guild_locale, .. } = interaction;
    let data = match data {
        Some(d) => d,
        None => { return Err(InputError::NoData); },
    };
    let ghost gdata = data;
    let user = match parse_user(user, &member) {
        Ok(u) => u,
        Err(e) => { return Err(e); },
    };
    let locale = match locale {
        Some(l) => l,
        None => { return Err(InputError::NoLocale); },
    };
    let InteractionData { command_type, resolved, options, target_id, component_type, values, components, .. } = data;
    let empty = ParsedOptions { subcommand: None, subcommand_group: None, args: Vec::new(), focused: None };
    let parsed = match options {
        Some(opts) => {
            proof { assert(empty@ == empty_parsed()); }
            let res = parse_options(opts, &resolved, empty);
            proof { assert(options_parsed(seq_or_empty(gdata.options), gdata.resolved, empty_parsed(), parsed_view(res))); }
            match res {
                Ok(p) => p,
                Err(e) => { return Err(e); },
            }
        },
        None => {
            proof {
                assert(empty@ == empty_parsed());
                assert(options_parsed(seq_or_empty(gdata.options), gdata.resolved, empty_parsed(), Ok::<ParsedView, InputError>(empty@)));
            }
            empty
        },
    };
    let ghost pv = parsed@;
    let ParsedOptions { subcommand, subcommand_group, mut args, focused } = parsed;
    match components {
        Some(cs) => { parse_component_values(cs, &mut args); },
        None => {},
    }
    let ghost gargs = args@;
    proof { assert(components_parsed(seq_or_empty(gdata.components), pv.args, gargs)); }
    let resolved_values = match &values {
        Some(v) => match parse_select_values(v, &resolved, component_type) {
            Ok(out) => Some(out),
            Err(e) => { return Err(e); },
        },
        None => None,
    };
    let parts = if command_type.is_some() {
        match parse_resolved(command_type, resolved, target_id) {
            Ok(p) => p,
            Err(e) => { return Err(e); },
        }
    } else {
        ResolvedParts { resolved: None, target_user: None, target_member: None, target_message: None }
    };
    let ResolvedParts { resolved, target_user, target_member, target_message } = parts;
    let input = CommandInput {
        interaction_type,
        command_type,
        component_type,
        command,
        subcommand,
        subcommand_group,
        args,
        resolved,
        guild_id,
        channel_id,
        user,
        member,
        message,
        target_user,
        target_member,
        target_message,
        custom_id,
        values,
        resolved_values,
        focused,
        app_permissions,
        locale,
        guild_locale,
    };
    proof {
        assert(input_fields(i, gdata, command, custom_id, i.locale->Some_0, pv, gargs, input));
    }
    Ok(input)
}

impl CommandInput {
    /// Whether the interaction is a command
    pub fn is_command(&self) -> (r: bool)
        ensures
            r == (self.interaction_type == InteractionType::APPLICATION_COMMAND),
    {
        matches!(self.interaction_type, InteractionType::APPLICATION_COMMAND)
    }

    /// Whether the command is a slash command
    pub fn is_chat_input(&self) -> (r: bool)
        ensures
            r == (self.command_type == Some(ApplicationCommandType::CHAT_INPUT)),
    {
        matches!(self.command_type, Some(ApplicationCommandType::CHAT_INPUT))
    }

    /// Whether the command is a user context menu command
    pub fn is_user_context(&self) -> (r: bool)
        ensures
            r == (self.command_type == Some(ApplicationCommandType::USER)),
    {
        matches!(self.command_type, Some(ApplicationCommandType::USER))
    }

    /// Whether the command is a message context menu command
    pub fn is_message_context(&self) -> (r: bool)
        ensures
            r == (self.command_type == Some(ApplicationCommandType::MESSAGE)),
    {
        matches!(self.command_type, Some(ApplicationCommandType::MESSAGE))
    }

    /// Whether the interaction is a component interaction
    pub fn is_component(&self) -> (r: bool)
        ensures
            r == (self.interaction_type == InteractionType::MESSAGE_COMPONENT),
    {
        matches!(self.interaction_type, InteractionType::MESSAGE_COMPONENT)
    }

    /// Whether the component is a button
    pub fn is_button(&self) -> (r: bool)
        ensures
            r == (self.component_type == Some(ComponentType::BUTTON)),
    {
        matches!(self.component_type, Some(ComponentType::BUTTON))
    }

    /// Whether the component is a string select menu
    pub fn is_string_select(&self) -> (r: bool)
        ensures
            r == (self.component_type == Some(ComponentType::STRING_SELECT)),
    {
        matches!(self.component_type, Some(ComponentType::STRING_SELECT))
    }

    /// Whether the component is a user select menu
    pub fn is_user_select(&self) -> (r: bool)
        ensures
            r == (self.component_type == Some(ComponentType::USER_SELECT)),
    {
        matches!(self.component_type, Some(ComponentType::USER_SELECT))
    }

    /// Whether the component is a role select menu
    pub fn is_role_select(&self) -> (r: bool)
        ensures
            r == (self.component_type == Some(ComponentType::ROLE_SELECT)),
    {
        matches!(self.component_type, Some(ComponentType::ROLE_SELECT))
    }

    /// Whether the component is a mentionable select menu
    pub fn is_mentionable_select(&self) -> (r: bool)
        ensures
            r == (self.component_type == Some(ComponentType::MENTIONABLE_SELECT)),
    {
        matches!(self.component_type, Some(ComponentType::MENTIONABLE_SELECT))
    }

    /// Whether the component is a channel select menu
    pub fn is_channel_select(&self) -> (r: bool)
        ensures
            r == (self.component_type == Some(ComponentType::CHANNEL_SELECT)),
    {
        matches!(self.component_type, Some(ComponentType::CHANNEL_SELECT))
    }

    /// Whether the interaction is an autocomplete request
    pub fn is_autocomplete(&self) -> (r: bool)
        ensures
            r == (self.interaction_type == InteractionType::APPLICATION_COMMAND_AUTOCOMPLETE),
    {
        matches!(self.interaction_type, InteractionType::APPLICATION_COMMAND_AUTOCOMPLETE)
    }

    /// Whether the interaction is a modal submission
    pub fn is_modal_submit(&self) -> (r: bool)
        ensures
            r == (self.interaction_type == InteractionType::MODAL_SUBMIT),
    {
        matches!(self.interaction_type, InteractionType::MODAL_SUBMIT)
    }

    /// The argument stored under `name`, if there is one
    pub fn arg(&self, name: &str) -> (r: Option<&OptionValue>)
        ensures
            match lookup(self.args@, name@) {
                Some(v) => r == Some(&v),
                None => r is None,
            },
    {
        match find_key(&self.args, name) {
            Some(i) => Some(&self.args[i].1),
            None => None,
        }
    }
}

} // verus!
