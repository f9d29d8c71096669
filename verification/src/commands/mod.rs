//! Structs used in creating commands

use vstd::prelude::*;
use crate::structs::Permissions;
use crate::structs::interactions::{
    ApplicationCommand, ApplicationCommandOption, ApplicationCommandType, IntegrationType, InteractionContextType,
    InteractionOptionType,
};
use crate::text::string_of;

pub mod handler;
pub mod responder;

pub use handler::{CommandInput, InputError};
pub use responder::{MessageResponse, Modal, InteractionResponseError, CommandResponse};

verus! {

/// A struct representing a command that can be executed; the function that runs it is kept beside it
#[derive(Clone, Debug)]
pub struct Command {
    /// Ignore the command when syncing commands
    pub ignore: bool,
    /// [Name of command](https://discord.com/developers/docs/interactions/application-commands#application-command-object-application-command-naming), 1-32 characters
    pub name: String,
    /// Localization dictionary for `name` field. Values follow the same restrictions as `name`
    pub name_localizations: Option<Vec<(String, String)>>,
    /// [Type of command](ApplicationCommandType), defaults to `CHAT_INPUT`
    pub command_type: Option<ApplicationCommandType>,
    /// Description for `CHAT_INPUT` commands, 1-100 characters. Empty string for `USER` and `MESSAGE` commands
    pub description: OptionalString,
    /// Localization dictionary for `description` field. Values follow the same restrictions as `description`
    pub description_localizations: Option<Vec<(String, String)>>,
    /// Parameters for the command, max of 25
    pub options: Option<Vec<ApplicationCommandOption>>,
    /// Set of [permissions](Permissions) represented as a bit set
    pub default_member_permissions: Option<Permissions>,
    /// Indicates whether the command is age-restricted, defaults to `false`
    pub nsfw: Option<bool>,
    /// [Installation context(s)](https://discord.com/developers/docs/resources/application#installation-context) where the command is available, only for globally-scoped commands. Defaults to `GUILD_INSTALL` (`0`)
    pub integration_types: Option<Vec<IntegrationType>>,
    /// [Interaction context(s)](InteractionContextType) where the command can be used, only for globally-scoped commands. By default, all interaction context types included for new commands.
    pub contexts: Option<Vec<InteractionContextType>>,
    /// Subcommand groups for the command
    pub subcommand_groups: Option<Vec<SubcommandGroup>>,
    /// Subcommands for the command
    pub subcommands: Option<Vec<Subcommand>>,
}

/// Struct representing subcommand groups
#[derive(Default, Clone, Debug)]
pub struct SubcommandGroup {
    /// [Name of subcommand group](https://discord.com/developers/docs/interactions/application-commands#application-command-object-application-command-naming), 1-32 characters
    pub name: String,
    /// Localization dictionary for the `name` field. Values follow the same restrictions as `name`
    pub name_localizations: Option<Vec<(String, String)>>,
    /// Description for the subcommand group
    pub description: String,
    /// Localization dictionary for the `description` field. Values follow the same restrictions as `description`
    pub description_localizations: Option<Vec<(String, String)>>,
    /// Subcommands in the group
    pub subcommands: Vec<Subcommand>,
}

/// Struct representing subcommands
#[derive(Default, Clone, Debug)]
pub struct Subcommand {
    /// [Name of subcommand](https://discord.com/developers/docs/interactions/application-commands#application-command-object-application-command-naming), 1-32 characters
    pub name: String,
    /// Localization dictionary for the `name` field. Values follow the same restrictions as `name`
    pub name_localizations: Option<Vec<(String, String)>>,
    /// Description for the subcommand
    pub description: String,
    /// Localization dictionary for the `description` field. Values follow the same restrictions as `description`
    pub description_localizations: Option<Vec<(String, String)>>,
    /// Parameters for the command, max of 25
    pub options: Vec<ApplicationCommandOption>,
}

/// Wrapper struct for an `Option<String>` so extra traits can be implemented on it
#[derive(Clone, Debug)]
pub struct OptionalString(pub Option<String>);

impl OptionalString {
    /// The optional string holding this text
    pub fn from_text(s: &str) -> (r: OptionalString)
        ensures
            r.0 matches Some(x) && x@ == s@,
    {
        OptionalString(Some(string_of(s)))
    }
}

impl From<String> for OptionalString {
    fn from(value: String) -> (r: OptionalString) {
        OptionalString(Some(value))
    }
}

impl vstd::std_specs::convert::FromSpecImpl<String> for OptionalString {
    open spec fn obeys_from_spec() -> bool {
        true
    }

    open spec fn from_spec(value: String) -> OptionalString {
        OptionalString(Some(value))
    }
}

impl Default for Command {
    fn default() -> (r: Command)
        ensures
            r.ignore == false,
            r.name@.len() == 0,
            r.name_localizations is None,
            r.command_type is None,
            r.description.0 is None,
            r.description_localizations is None,
            r.options is None,
            r.default_member_permissions is None,
            r.nsfw is None,
            r.integration_types is None,
            r.contexts is None,
            r.subcommand_groups is None,
            r.subcommands is None,
    {
        Command {
            ignore: false,
            name: String::new(),
            name_localizations: None,
            command_type: None,
            description: OptionalString(None),
            description_localizations: None,
            options: None,
            default_member_permissions: None,
            nsfw: None,
            integration_types: None,
            contexts: None,
            subcommand_groups: None,
            subcommands: None,
        }
    }
}

/// Whether none of the fields that only some kinds of options use is set.
pub open spec fn bare_option(o: ApplicationCommandOption) -> bool {
    &&& o.required is None
    &&& o.choices is None
    &&& o.channel_types is None
    &&& o.min_value is None
    &&& o.max_value is None
    &&& o.min_length is None
    &&& o.max_length is None
    &&& o.autocomplete is None
}

/// The option that stands for a subcommand.
pub open spec fn option_of_subcommand(s: Subcommand) -> ApplicationCommandOption {
    ApplicationCommandOption {
        option_type: InteractionOptionType::SUB_COMMAND,
        name: s.name,
        name_localizations: s.name_localizations,
        description: s.description,
        description_localizations: s.description_localizations,
        required: None,
        choices: None,
        options: Some(s.options),
        channel_types: None,
        min_value: None,
        max_value: None,
        min_length: None,
        max_length: None,
        autocomplete: None,
    }
}

/// Whether `out` stands, one for one, for the subcommands `scs`.
pub open spec fn subcommands_converted(scs: Seq<Subcommand>, out: Seq<ApplicationCommandOption>) -> bool {
    out.len() == scs.len() && forall|i: int| 0 <= i < scs.len() ==> #[trigger] out[i] == option_of_subcommand(scs[i])
}

/// Whether `o` is the option that stands for the subcommand group `g`.
pub open spec fn group_converted(g: SubcommandGroup, o: ApplicationCommandOption) -> bool {
    &&& o.option_type == InteractionOptionType::SUB_COMMAND_GROUP
    &&& o.name == g.name
    &&& o.name_localizations == g.name_localizations
    &&& o.description == g.description
    &&& o.description_localizations == g.description_localizations
    &&& o.options matches Some(v) && subcommands_converted(g.subcommands@, v@)
    &&& bare_option(o)
}

/// Whether `out` stands, one for one, for the subcommand groups `gs`.
pub open spec fn groups_converted(gs: Seq<SubcommandGroup>, out: Seq<ApplicationCommandOption>) -> bool {
    out.len() == gs.len() && forall|i: int| 0 <= i < gs.len() ==> group_converted(gs[i], #[trigger] out[i])
}

impl ApplicationCommandOption {
    /// The option that stands for a subcommand
    pub fn from_subcommand(value: Subcommand) -> (r: ApplicationCommandOption)
        ensures
            r == option_of_subcommand(value),
    {
        ApplicationCommandOption {
            option_type: InteractionOptionType::SUB_COMMAND,
            name: value.name,
            name_localizations: value.name_localizations,
            description: value.description,
            description_localizations: value.description_localizations,
            required: None,
            choices: None,
            options: Some(value.options),
            channel_types: None,
            min_value: None,
            max_value: None,
            min_length: None,
            max_length: None,
            autocomplete: None,
        }
    }

    /// The option that stands for a subcommand group, its subcommands as its options
    pub fn from_subcommand_group(value: SubcommandGroup) -> (r: ApplicationCommandOption)
        ensures
            group_converted(value, r),
    {
        let options = subcommands_to_options(value.subcommands);
        ApplicationCommandOption {
            option_type: InteractionOptionType::SUB_COMMAND_GROUP,
            name: value.name,
            name_localizations: value.name_localizations,
            description: value.description,
            description_localizations: value.description_localizations,
            required: None,
            choices: None,
            options: Some(options),
            channel_types: None,
            min_value: None,
            max_value: None,
            min_length: None,
            max_length: None,
            autocomplete: None,
        }
    }
}

impl From<Subcommand> for ApplicationCommandOption {
    /// The same as [`ApplicationCommandOption::from_subcommand`]
    fn from(value: Subcommand) -> (r: ApplicationCommandOption) {
        ApplicationCommandOption::from_subcommand(value)
    }
}

impl vstd::std_specs::convert::FromSpecImpl<Subcommand> for ApplicationCommandOption {
    open spec fn obeys_from_spec() -> bool {
        true
    }

    open spec fn from_spec(value: Subcommand) -> ApplicationCommandOption {
        option_of_subcommand(value)
    }
}

impl From<SubcommandGroup> for ApplicationCommandOption {
    /// The same as [`ApplicationCommandOption::from_subcommand_group`]
    fn from(value: SubcommandGroup) -> (r: ApplicationCommandOption)
        ensures
            group_converted(value, r),
    {
        ApplicationCommandOption::from_subcommand_group(value)
    }
}

/// The option holds a new `Vec` made of the group's subcommands, so no spec function stands for
/// the conversion; `from` states its result itself.
impl vstd::std_specs::convert::FromSpecImpl<SubcommandGroup> for ApplicationCommandOption {
    open spec fn obeys_from_spec() -> bool {
        false
    }

    open spec fn from_spec(value: SubcommandGroup) -> ApplicationCommandOption {
        vstd::pervasive::arbitrary()
    }
}

/// The options that stand for these subcommands.
fn subcommands_to_options(scs: Vec<Subcommand>) -> (r: Vec<ApplicationCommandOption>)
    ensures
        subcommands_converted(scs@, r@),
{
    let ghost orig = scs@;
    let mut rest = scs;
    let mut out: Vec<ApplicationCommandOption> = Vec::new();
    while rest.len() > 0
        invariant
            out@.len() + rest@.len() == orig.len(),
            rest@ == orig.skip(out@.len() as int),
            forall|i: int| 0 <= i < out@.len() ==> #[trigger] out@[i] == option_of_subcommand(orig[i]),
        decreases rest@.len(),
    {
        let s = rest.remove(0);
        out.push(ApplicationCommandOption::from_subcommand(s));
    }
    out
}

/// The options that stand for these subcommand groups.
fn groups_to_options(gs: Vec<SubcommandGroup>) -> (r: Vec<ApplicationCommandOption>)
    ensures
        groups_converted(gs@, r@),
{
    let ghost orig = gs@;
    let mut rest = gs;
    let mut out: Vec<ApplicationCommandOption> = Vec::new();
    while rest.len() > 0
        invariant
            out@.len() + rest@.len() == orig.len(),
            rest@ == orig.skip(out@.len() as int),
            forall|i: int| 0 <= i < out@.len() ==> group_converted(orig[i], #[trigger] out@[i]),
        decreases rest@.len(),
    {
        let g = rest.remove(0);
        out.push(ApplicationCommandOption::from_subcommand_group(g));
    }
    out
}

/// Error for a command that has options on the base command beside subcommands or subcommand groups
#[derive(Clone, Copy, Debug, PartialEq, Eq, Structural)]
pub struct OptionsBesideSubcommands;

impl OptionsBesideSubcommands {
    /// The text that describes the error.
    pub fn message(&self) -> (r: String)
        ensures
            r@ == "You cannot have options on the base command when using subcommands or subcommand groups"@,
    {
        string_of("You cannot have options on the base command when using subcommands or subcommand groups")
    }
}

/// Whether a command has options on the base command beside subcommands or subcommand groups.
pub open spec fn options_beside_subcommands(c: Command) -> bool {
    c.options is Some && (c.subcommands is Some || c.subcommand_groups is Some)
}

/// Whether `o` are the options of the application command that stands for `c`: its own options,
/// or the options that stand for its subcommand groups followed by those for its subcommands.
pub open spec fn command_options(c: Command, o: Option<Vec<ApplicationCommandOption>>) -> bool {
    match c.subcommand_groups {
        None => match c.subcommands {
            None => o == c.options,
            Some(scs) => o matches Some(v) && subcommands_converted(scs@, v@),
        },
        Some(gs) => o matches Some(v) && v@.len() >= gs@.len() && groups_converted(gs@, v@.take(gs@.len() as int))
            && match c.subcommands {
                None => v@.len() == gs@.len(),
                Some(scs) => subcommands_converted(scs@, v@.skip(gs@.len() as int)),
            },
    }
}

/// Whether the application command `ac` stands for the command `c`.
pub open spec fn stands_for(c: Command, ac: ApplicationCommand) -> bool {
    &&& ac.id is None
    &&& ac.command_type == c.command_type
    &&& ac.application_id is None
    &&& ac.guild_id is None
    &&& ac.name == c.name
    &&& ac.name_localizations == c.name_localizations
    &&& (match c.description.0 {
        Some(d) => ac.description == d,
        None => ac.description@.len() == 0,
    })
    &&& ac.description_localizations == c.description_localizations
    &&& command_options(c, ac.options)
    &&& ac.default_member_permissions == c.default_member_permissions
    &&& ac.dm_permission is None
    &&& ac.nsfw == c.nsfw
    &&& ac.integration_types == c.integration_types
    &&& ac.contexts == c.contexts
    &&& ac.version is None
}

/// Whether `out` holds, in order, the application commands that stand for the commands of `cs`
/// that are not ignored.
pub open spec fn commands_converted(cs: Seq<Command>, out: Seq<ApplicationCommand>) -> bool
    decreases cs.len(),
{
    if cs.len() == 0 {
        out.len() == 0
    } else if cs[0].ignore {
        commands_converted(cs.drop_first(), out)
    } else {
        out.len() > 0 && stands_for(cs[0], out[0]) && commands_converted(cs.drop_first(), out.drop_first())
    }
}

/// The application commands that stand for the commands that are not ignored, in order, for syncing
/// them with Discord; an error where one of them has options beside subcommands or subcommand groups
pub fn convert_commands(commands: Vec<Command>) -> (r: Result<Vec<ApplicationCommand>, OptionsBesideSubcommands>)
    ensures
        r is Err <==> exists|i: int| 0 <= i < commands@.len() && !commands@[i].ignore && options_beside_subcommands(#[trigger] commands@[i]),
        r matches Ok(out) ==> commands_converted(commands@, out@),
    decreases commands@.len(),
{
    if commands.len() == 0 {
        return Ok(Vec::new());
    }
    let ghost cs = commands@;
    let mut rest = commands;
    let c = rest.remove(0);
    proof { assert(rest@ == cs.drop_first()); }
    if c.ignore {
        let r = convert_commands(rest);
        proof {
            if r is Err {
                let i = choose|i: int| 0 <= i < rest@.len() && !rest@[i].ignore && options_beside_subcommands(#[trigger] rest@[i]);
                assert(cs[i + 1] == rest@[i]);
            } else {
                assert forall|i: int| 0 <= i < cs.len() && !cs[i].ignore implies !options_beside_subcommands(#[trigger] cs[i]) by {
                    if i > 0 { assert(cs[i] == rest@[i - 1]); }
                }
            }
        }
        return r;
    }
    let ac = match ApplicationCommand::try_from_command(c) {
        Ok(ac) => ac,
        Err(e) => { return Err(e); },
    };
    match convert_commands(rest) {
        Ok(more) => {
            let mut out: Vec<ApplicationCommand> = Vec::new();
            out.push(ac);
            let mut more = more;
            let ghost m = more@;
            out.append(&mut more);
            proof {
                assert(out@.drop_first() =~= m);
                assert forall|i: int| 0 <= i < cs.len() && !cs[i].ignore implies !options_beside_subcommands(#[trigger] cs[i]) by {
                    if i > 0 { assert(cs[i] == rest@[i - 1]); }
                }
            }
            Ok(out)
        },
        Err(e) => {
            proof {
                let i = choose|i: int| 0 <= i < rest@.len() && !rest@[i].ignore && options_beside_subcommands(#[trigger] rest@[i]);
                assert(cs[i + 1] == rest@[i]);
            }
            Err(e)
        },
    }
}

impl ApplicationCommand {
    /// The application command that stands for a command, for registering it with Discord;
    /// an error for a command with options beside subcommands or subcommand groups
    pub fn try_from_command(value: Command) -> (r: Result<ApplicationCommand, OptionsBesideSubcommands>)
        ensures
            options_beside_subcommands(value) <==> r is Err,
            r matches Ok(ac) ==> stands_for(value, ac),
    {
        if value.options.is_some() && (value.subcommands.is_some() || value.subcommand_groups.is_some()) {
            return Err(OptionsBesideSubcommands);
        }
        let Command {
            name, name_localizations, command_type, description, description_localizations, options,
            default_member_permissions, nsfw, integration_types, contexts, subcommand_groups, subcommands, ..
        } = value;
        let mut options = options;
        if let Some(scgs) = subcommand_groups {
            options = Some(groups_to_options(scgs));
        }
        if let Some(scs) = subcommands {
            let mut opts = match options {
                Some(o) => o,
                None => Vec::new(),
            };
            let ghost before = opts@;
            let mut converted = subcommands_to_options(scs);
            opts.append(&mut converted);
            proof {
                assert(opts@.take(before.len() as int) =~= before);
                assert(opts@.skip(before.len() as int) =~= opts@.subrange(before.len() as int, opts@.len() as int));
            }
            options = Some(opts);
        }
        let description = match description.0 {
            Some(d) => d,
            None => String::new(),
        };
        Ok(ApplicationCommand {
            id: None,
            command_type,
            application_id: None,
            guild_id: None,
            name,
            name_localizations,
            description,
            description_localizations,
            options,
            default_member_permissions,
            dm_permission: None,
            nsfw,
            integration_types,
            contexts,
            version: None,
        })
    }
}


/// The options of a command synced to Discord end with one `SUB_COMMAND` option per subcommand,
/// in order, each carrying that subcommand's name, description and options; before them stands
/// one `SUB_COMMAND_GROUP` option per group, by the group's name, and nothing else.
pub proof fn law_subcommands_become_options(c: Command, ac: ApplicationCommand)
    requires
        stands_for(c, ac),
        c.subcommands is Some,
    ensures
        ac.options is Some,
        ac.options->Some_0@.len() == c.subcommands->Some_0@.len() + match c.subcommand_groups {
            Some(gs) => gs@.len(),
            None => 0,
        },
        forall|j: int| 0 <= j < c.subcommands->Some_0@.len() ==> {
            let v = ac.options->Some_0@;
            let sc = #[trigger] c.subcommands->Some_0@[j];
            let o = v[v.len() - c.subcommands->Some_0@.len() + j];
            &&& o.option_type == InteractionOptionType::SUB_COMMAND
            &&& o.name == sc.name
            &&& o.description == sc.description
            &&& o.options == Some(sc.options)
        },
        forall|j: int| 0 <= j < ac.options->Some_0@.len() - c.subcommands->Some_0@.len() ==> {
            let o = #[trigger] ac.options->Some_0@[j];
            &&& o.option_type == InteractionOptionType::SUB_COMMAND_GROUP
            &&& c.subcommand_groups matches Some(gs) && o.name == gs@[j].name
        },
{
    let scs = c.subcommands->Some_0@;
    let v = ac.options->Some_0@;
    match c.subcommand_groups {
        None => {
            assert forall|j: int| 0 <= j < scs.len() implies {
                let sc = #[trigger] scs[j];
                let o = v[v.len() - scs.len() + j];
                &&& o.option_type == InteractionOptionType::SUB_COMMAND
                &&& o.name == sc.name
                &&& o.description == sc.description
                &&& o.options == Some(sc.options)
            } by {
                assert(v[j] == option_of_subcommand(scs[j]));
            }
        },
        Some(gs) => {
            let g = gs@.len() as int;
            assert forall|j: int| 0 <= j < scs.len() implies {
                let sc = #[trigger] scs[j];
                let o = v[v.len() - scs.len() + j];
                &&& o.option_type == InteractionOptionType::SUB_COMMAND
                &&& o.name == sc.name
                &&& o.description == sc.description
                &&& o.options == Some(sc.options)
            } by {
                assert(v.skip(g)[j] == option_of_subcommand(scs[j]));
                assert(v.skip(g)[j] == v[g + j]);
            }
            assert forall|j: int| 0 <= j < v.len() - scs.len() implies {
                let o = #[trigger] v[j];
                &&& o.option_type == InteractionOptionType::SUB_COMMAND_GROUP
                &&& c.subcommand_groups matches Some(gs) && o.name == gs@[j].name
            } by {
                assert(group_converted(gs@[j], v.take(g)[j]));
                assert(v.take(g)[j] == v[j]);
            }
        },
    }
}

} // verus!
