//! Copies of the objects that can hold one another: a message holds its
//! thread and its components, a channel its starter message, a component
//! the components nested in it, an option the options nested in it.

use vstd::prelude::*;
use crate::structs::Snowflake;
use crate::structs::channels::Channel;
use crate::structs::components::{ActionRow, Component, Container, Label, Section, SelectMenu};
use crate::structs::interactions::{ApplicationCommandOption, InteractionDataResolved, InteractionOption};
use crate::structs::messages::{Message, MessageInteractionMetadata};

verus! {

/// `b` holds, in order, a copy of each component of `a`.
pub open spec fn components_copied(a: Seq<Component>, b: Seq<Component>) -> bool
    decreases a,
{
    &&& b.len() == a.len()
    &&& forall|i: int| #![trigger b[i]] 0 <= i < a.len() ==> component_copied(a[i], b[i])
}

/// `b` is a copy of the component `a`: the same kind, nested components copied in turn, and the
/// other parts cloned.
pub open spec fn component_copied(a: Component, b: Component) -> bool
    decreases a,
{
    match (a, b) {
        (Component::ActionRow(x), Component::ActionRow(y)) => row_copied(x, y),
        (Component::Button(x), Component::Button(y)) => cloned(*x, *y),
        (Component::SelectMenu(x), Component::SelectMenu(y)) => select_menu_copied(*x, *y),
        (Component::TextInput(x), Component::TextInput(y)) => cloned(x, y),
        (Component::Section(x), Component::Section(y)) => section_copied(x, y),
        (Component::TextDisplay(x), Component::TextDisplay(y)) => cloned(x, y),
        (Component::Thumbnail(x), Component::Thumbnail(y)) => cloned(x, y),
        (Component::MediaGallery(x), Component::MediaGallery(y)) => cloned(x, y),
        (Component::File(x), Component::File(y)) => cloned(x, y),
        (Component::Separator(x), Component::Separator(y)) => cloned(x, y),
        (Component::Container(x), Component::Container(y)) => container_copied(x, y),
        (Component::Label(x), Component::Label(y)) => label_copied(x, y),
        (Component::Unknown, Component::Unknown) => true,
        _ => false,
    }
}

/// `b` is a copy of the action row `a`.
pub open spec fn row_copied(a: ActionRow, b: ActionRow) -> bool
    decreases a,
{
    &&& b.component_type == a.component_type
    &&& b.id == a.id
    &&& components_copied(a.components@, b.components@)
}

/// `b` is a copy of the section `a`.
pub open spec fn section_copied(a: Section, b: Section) -> bool
    decreases a,
{
    &&& b.component_type == a.component_type
    &&& b.id == a.id
    &&& components_copied(a.components@, b.components@)
    &&& component_copied(*a.accessory, *b.accessory)
}

/// `b` is a copy of the container `a`.
pub open spec fn container_copied(a: Container, b: Container) -> bool
    decreases a,
{
    &&& b.component_type == a.component_type
    &&& b.id == a.id
    &&& components_copied(a.components@, b.components@)
    &&& b.accent_color == a.accent_color
    &&& b.spoiler == a.spoiler
}

/// `b` is a copy of the label `a`.
pub open spec fn label_copied(a: Label, b: Label) -> bool
    decreases a,
{
    &&& b.component_type == a.component_type
    &&& b.id == a.id
    &&& b.label == a.label
    &&& cloned(a.description, b.description)
    &&& component_copied(*a.component, *b.component)
}

/// `b` is a copy of the select menu `a`.
pub open spec fn select_menu_copied(a: SelectMenu, b: SelectMenu) -> bool
    decreases a,
{
    &&& b.component_type == a.component_type
    &&& b.id == a.id
    &&& b.custom_id == a.custom_id
    &&& cloned(a.options, b.options)
    &&& cloned(a.channel_types, b.channel_types)
    &&& cloned(a.placeholder, b.placeholder)
    &&& cloned(a.default_values, b.default_values)
    &&& b.min_values == a.min_values
    &&& b.max_values == a.max_values
    &&& b.required == a.required
    &&& b.disabled == a.disabled
    &&& cloned(a.values, b.values)
    &&& match (a.resolved, b.resolved) {
            (Some(x), Some(y)) => resolved_copied(x, y),
            (None, None) => true,
            _ => false,
        }
}

/// `b` holds, in order, the keys of `a` and a copy of each channel.
pub open spec fn keyed_channels_copied(a: Seq<(Snowflake, Channel)>, b: Seq<(Snowflake, Channel)>) -> bool
    decreases a,
{
    &&& b.len() == a.len()
    &&& forall|i: int| 0 <= i < a.len() ==> #[trigger] b[i].0 == a[i].0 && channel_copied(a[i].1, b[i].1)
}

/// `b` holds, in order, the keys of `a` and a copy of each message.
pub open spec fn keyed_messages_copied(a: Seq<(Snowflake, Message)>, b: Seq<(Snowflake, Message)>) -> bool
    decreases a,
{
    &&& b.len() == a.len()
    &&& forall|i: int| 0 <= i < a.len() ==> #[trigger] b[i].0 == a[i].0 && message_copied(a[i].1, b[i].1)
}

/// `b` is a copy of the resolved data `a`.
pub open spec fn resolved_copied(a: InteractionDataResolved, b: InteractionDataResolved) -> bool
    decreases a,
{
    &&& cloned(a.users, b.users)
    &&& cloned(a.members, b.members)
    &&& cloned(a.roles, b.roles)
    &&& cloned(a.attachments, b.attachments)
    &&& match (a.channels, b.channels) {
            (Some(x), Some(y)) => keyed_channels_copied(x@, y@),
            (None, None) => true,
            _ => false,
        }
    &&& match (a.messages, b.messages) {
            (Some(x), Some(y)) => keyed_messages_copied(x@, y@),
            (None, None) => true,
            _ => false,
        }
}

/// `b` is a copy of the interaction metadata `a`.
pub open spec fn metadata_copied(a: MessageInteractionMetadata, b: MessageInteractionMetadata) -> bool
    decreases a,
{
    &&& b.id == a.id
    &&& b.interaction_type == a.interaction_type
    &&& b.user_id == a.user_id
    &&& cloned(a.authorizing_integration_owners, b.authorizing_integration_owners)
    &&& cloned(a.original_response_message_id, b.original_response_message_id)
    &&& cloned(a.interacted_message_id, b.interacted_message_id)
    &&& match (a.triggering_interaction_metadata, b.triggering_interaction_metadata) {
            (Some(x), Some(y)) => metadata_copied(*x, *y),
            (None, None) => true,
            _ => false,
        }
}

/// `b` is a copy of the channel `a`.
pub open spec fn channel_copied(a: Channel, b: Channel) -> bool
    decreases a,
{
    &&& b.id == a.id
    &&& b.channel_type == a.channel_type
    &&& cloned(a.guild_id, b.guild_id)
    &&& b.position == a.position
    &&& cloned(a.permission_overwrites, b.permission_overwrites)
    &&& cloned(a.name, b.name)
    &&& cloned(a.topic, b.topic)
    &&& b.nsfw == a.nsfw
    &&& cloned(a.last_message_id, b.last_message_id)
    &&& b.bitrate == a.bitrate
    &&& b.user_limit == a.user_limit
    &&& b.rate_limit_per_user == a.rate_limit_per_user
    &&& cloned(a.recipients, b.recipients)
    &&& cloned(a.icon, b.icon)
    &&& cloned(a.owner_id, b.owner_id)
    &&& cloned(a.application_id, b.application_id)
    &&& b.managed == a.managed
    &&& cloned(a.parent_id, b.parent_id)
    &&& cloned(a.last_pin_timestamp, b.last_pin_timestamp)
    &&& cloned(a.rtc_region, b.rtc_region)
    &&& b.video_quality_mode == a.video_quality_mode
    &&& b.message_count == a.message_count
    &&& b.member_count == a.member_count
    &&& cloned(a.thread_metadata, b.thread_metadata)
    &&& cloned(a.member, b.member)
    &&& b.default_auto_archive_duration == a.default_auto_archive_duration
    &&& b.permissions == a.permissions
    &&& b.flags == a.flags
    &&& b.total_message_sent == a.total_message_sent
    &&& cloned(a.available_tags, b.available_tags)
    &&& cloned(a.applied_tags, b.applied_tags)
    &&& cloned(a.default_reaction_emoji, b.default_reaction_emoji)
    &&& b.default_thread_rate_limit_per_user == a.default_thread_rate_limit_per_user
    &&& b.default_sort_order == a.default_sort_order
    &&& b.default_forum_layout == a.default_forum_layout
    &&& match (a.message, b.message) {
            (Some(x), Some(y)) => message_copied(*x, *y),
            (None, None) => true,
            _ => false,
        }
}

/// `b` is a copy of the message `a`.
pub open spec fn message_copied(a: Message, b: Message) -> bool
    decreases a,
{
    &&& b.id == a.id
    &&& b.channel_id == a.channel_id
    &&& cloned(a.guild_id, b.guild_id)
    &&& cloned(a.author, b.author)
    &&& cloned(a.member, b.member)
    &&& b.content == a.content
    &&& b.timestamp == a.timestamp
    &&& cloned(a.edited_timestamp, b.edited_timestamp)
    &&& b.tts == a.tts
    &&& b.mention_everyone == a.mention_everyone
    &&& cloned(a.mentions, b.mentions)
    &&& cloned(a.mention_roles, b.mention_roles)
    &&& cloned(a.mention_channels, b.mention_channels)
    &&& cloned(a.attachments, b.attachments)
    &&& cloned(a.embeds, b.embeds)
    &&& cloned(a.reactions, b.reactions)
    &&& cloned(a.nonce, b.nonce)
    &&& b.pinned == a.pinned
    &&& cloned(a.webhook_id, b.webhook_id)
    &&& b.message_type == a.message_type
    &&& cloned(a.activity, b.activity)
    &&& cloned(a.application, b.application)
    &&& cloned(a.application_id, b.application_id)
    &&& cloned(a.message_reference, b.message_reference)
    &&& b.flags == a.flags
    &&& cloned(a.sticker_items, b.sticker_items)
    &&& b.position == a.position
    &&& cloned(a.role_subscription_data, b.role_subscription_data)
    &&& cloned(a.poll, b.poll)
    &&& match (a.referenced_message, b.referenced_message) {
            (Some(x), Some(y)) => message_copied(*x, *y),
            (None, None) => true,
            _ => false,
        }
    &&& match (a.interaction_metadata, b.interaction_metadata) {
            (Some(x), Some(y)) => metadata_copied(x, y),
            (None, None) => true,
            _ => false,
        }
    &&& match (a.thread, b.thread) {
            (Some(x), Some(y)) => channel_copied(x, y),
            (None, None) => true,
            _ => false,
        }
    &&& match (a.components, b.components) {
            (Some(x), Some(y)) => components_copied(x@, y@),
            (None, None) => true,
            _ => false,
        }
    &&& match (a.resolved, b.resolved) {
            (Some(x), Some(y)) => resolved_copied(x, y),
            (None, None) => true,
            _ => false,
        }
}

/// `b` holds, in order, a copy of each command option of `a`.
pub open spec fn command_options_copied(a: Seq<ApplicationCommandOption>, b: Seq<ApplicationCommandOption>) -> bool
    decreases a,
{
    &&& b.len() == a.len()
    &&& forall|i: int| #![trigger b[i]] 0 <= i < a.len() ==> command_option_copied(a[i], b[i])
}

/// `b` is a copy of the command option `a`.
pub open spec fn command_option_copied(a: ApplicationCommandOption, b: ApplicationCommandOption) -> bool
    decreases a,
{
    &&& b.option_type == a.option_type
    &&& b.name == a.name
    &&& cloned(a.name_localizations, b.name_localizations)
    &&& b.description == a.description
    &&& cloned(a.description_localizations, b.description_localizations)
    &&& b.required == a.required
    &&& cloned(a.choices, b.choices)
    &&& cloned(a.channel_types, b.channel_types)
    &&& b.min_value == a.min_value
    &&& b.max_value == a.max_value
    &&& b.min_length == a.min_length
    &&& b.max_length == a.max_length
    &&& b.autocomplete == a.autocomplete
    &&& match (a.options, b.options) {
            (Some(x), Some(y)) => command_options_copied(x@, y@),
            (None, None) => true,
            _ => false,
        }
}

/// `b` holds, in order, a copy of each interaction option of `a`.
pub open spec fn interaction_options_copied(a: Seq<InteractionOption>, b: Seq<InteractionOption>) -> bool
    decreases a,
{
    &&& b.len() == a.len()
    &&& forall|i: int| #![trigger b[i]] 0 <= i < a.len() ==> interaction_option_copied(a[i], b[i])
}

/// `b` is a copy of the interaction option `a`.
pub open spec fn interaction_option_copied(a: InteractionOption, b: InteractionOption) -> bool
    decreases a,
{
    &&& b.name == a.name
    &&& b.option_type == a.option_type
    &&& cloned(a.value, b.value)
    &&& b.focused == a.focused
    &&& match (a.options, b.options) {
            (Some(x), Some(y)) => interaction_options_copied(x@, y@),
            (None, None) => true,
            _ => false,
        }
}


fn clone_components(v: &Vec<Component>) -> (r: Vec<Component>)
    ensures
        components_copied(v@, r@),
    decreases v,
{
    let mut out: Vec<Component> = Vec::new();
    let mut i: usize = 0;
    while i < v.len()
        invariant
            i <= v.len(),
            out@.len() == i,
            forall|k: int| 0 <= k < i ==> #[trigger] component_copied(v@[k], out@[k]),
        decreases v.len() - i,
    {
        proof {
            assert(decreases_to!(v => v@));
            assert(decreases_to!(v@ => v@[i as int]));
        }
        out.push(clone_component(&v[i]));
        i = i + 1;
    }
    assert(out@.len() == v@.len());
    assert(forall|k: int| 0 <= k < v@.len() ==> component_copied(v@[k], out@[k]));
    assert(components_copied(v@, out@));
    out
}

fn clone_component(c: &Component) -> (r: Component)
    ensures
        component_copied(*c, r),
    decreases c,
{
    match c {
        Component::ActionRow(a) => Component::ActionRow(clone_action_row(a)),
        Component::Button(b) => Component::Button(b.clone()),
        Component::SelectMenu(s) => Component::SelectMenu(Box::new(clone_select_menu(s))),
        Component::TextInput(t) => Component::TextInput(t.clone()),
        Component::Section(s) => Component::Section(clone_section(s)),
        Component::TextDisplay(t) => Component::TextDisplay(t.clone()),
        Component::Thumbnail(t) => Component::Thumbnail(t.clone()),
        Component::MediaGallery(m) => Component::MediaGallery(m.clone()),
        Component::File(f) => Component::File(f.clone()),
        Component::Separator(s) => Component::Separator(s.clone()),
        Component::Container(k) => Component::Container(clone_container(k)),
        Component::Label(l) => Component::Label(clone_label(l)),
        Component::Unknown => Component::Unknown,
    }
}

fn clone_action_row(a: &ActionRow) -> (r: ActionRow)
    ensures
        row_copied(*a, r),
    decreases a,
{
    ActionRow { component_type: a.component_type, id: a.id, components: clone_components(&a.components) }
}

fn clone_section(s: &Section) -> (r: Section)
    ensures
        section_copied(*s, r),
    decreases s,
{
    Section {
        component_type: s.component_type,
        id: s.id,
        components: clone_components(&s.components),
        accessory: Box::new(clone_component(&s.accessory)),
    }
}

fn clone_container(k: &Container) -> (r: Container)
    ensures
        container_copied(*k, r),
    decreases k,
{
    Container {
        component_type: k.component_type,
        id: k.id,
        components: clone_components(&k.components),
        accent_color: k.accent_color,
        spoiler: k.spoiler,
    }
}

fn clone_label(l: &Label) -> (r: Label)
    ensures
        label_copied(*l, r),
    decreases l,
{
    Label {
        component_type: l.component_type,
        id: l.id,
        label: l.label.clone(),
        description: l.description.clone(),
        component: Box::new(clone_component(&l.component)),
    }
}

fn clone_select_menu(s: &SelectMenu) -> (r: SelectMenu)
    ensures
        select_menu_copied(*s, r),
    decreases s,
{
    let resolved = match &s.resolved {
        Some(res) => Some(clone_resolved(res)),
        None => None,
    };
    SelectMenu {
        component_type: s.component_type,
        id: s.id,
        custom_id: s.custom_id.clone(),
        options: s.options.clone(),
        channel_types: s.channel_types.clone(),
        placeholder: s.placeholder.clone(),
        default_values: s.default_values.clone(),
        min_values: s.min_values,
        max_values: s.max_values,
        required: s.required,
        disabled: s.disabled,
        resolved,
        values: s.values.clone(),
    }
}

fn clone_keyed_channels(v: &Vec<(Snowflake, Channel)>) -> (r: Vec<(Snowflake, Channel)>)
    ensures
        keyed_channels_copied(v@, r@),
    decreases v,
{
    let mut out: Vec<(Snowflake, Channel)> = Vec::new();
    let mut i: usize = 0;
    while i < v.len()
        invariant
            i <= v.len(),
            out@.len() == i,
            forall|k: int| 0 <= k < i ==> #[trigger] out@[k].0 == v@[k].0 && channel_copied(v@[k].1, out@[k].1),
        decreases v.len() - i,
    {
        proof {
            assert(decreases_to!(v => v@));
            assert(decreases_to!(v@ => v@[i as int]));
        }
        let (k, ch) = &v[i];
        out.push((k.clone(), clone_channel(ch)));
        i = i + 1;
    }
    out
}

fn clone_keyed_messages(v: &Vec<(Snowflake, Message)>) -> (r: Vec<(Snowflake, Message)>)
    ensures
        keyed_messages_copied(v@, r@),
    decreases v,
{
    let mut out: Vec<(Snowflake, Message)> = Vec::new();
    let mut i: usize = 0;
    while i < v.len()
        invariant
            i <= v.len(),
            out@.len() == i,
            forall|k: int| 0 <= k < i ==> #[trigger] out@[k].0 == v@[k].0 && message_copied(v@[k].1, out@[k].1),
        decreases v.len() - i,
    {
        proof {
            assert(decreases_to!(v => v@));
            assert(decreases_to!(v@ => v@[i as int]));
        }
        let (k, m) = &v[i];
        out.push((k.clone(), clone_message(m)));
        i = i + 1;
    }
    out
}

fn clone_resolved(res: &InteractionDataResolved) -> (r: InteractionDataResolved)
    ensures
        resolved_copied(*res, r),
    decreases res,
{
    let channels = match &res.channels {
        Some(v) => Some(clone_keyed_channels(v)),
        None => None,
    };
    let messages = match &res.messages {
        Some(v) => Some(clone_keyed_messages(v)),
        None => None,
    };
    InteractionDataResolved {
        users: res.users.clone(),
        members: res.members.clone(),
        roles: res.roles.clone(),
        channels,
        messages,
        attachments: res.attachments.clone(),
    }
}

fn clone_metadata(m: &MessageInteractionMetadata) -> (r: MessageInteractionMetadata)
    ensures
        metadata_copied(*m, r),
    decreases m,
{
    let triggering = match &m.triggering_interaction_metadata {
        Some(t) => Some(Box::new(clone_metadata(t))),
        None => None,
    };
    MessageInteractionMetadata {
        id: m.id.clone(),
        interaction_type: m.interaction_type,
        user_id: m.user_id.clone(),
        authorizing_integration_owners: m.authorizing_integration_owners.clone(),
        original_response_message_id: m.original_response_message_id.clone(),
        interacted_message_id: m.interacted_message_id.clone(),
        triggering_interaction_metadata: triggering,
    }
}

fn clone_channel(c: &Channel) -> (r: Channel)
    ensures
        channel_copied(*c, r),
    decreases c,
{
    let message = match &c.message {
        Some(m) => Some(Box::new(clone_message(m))),
        None => None,
    };
    Channel {
        id: c.id.clone(),
        channel_type: c.channel_type,
        guild_id: c.guild_id.clone(),
        position: c.position,
        permission_overwrites: c.permission_overwrites.clone(),
        name: c.name.clone(),
        topic: c.topic.clone(),
        nsfw: c.nsfw,
        last_message_id: c.last_message_id.clone(),
        bitrate: c.bitrate,
        user_limit: c.user_limit,
        rate_limit_per_user: c.rate_limit_per_user,
        recipients: c.recipients.clone(),
        icon: c.icon.clone(),
        owner_id: c.owner_id.clone(),
        application_id: c.application_id.clone(),
        managed: c.managed,
        parent_id: c.parent_id.clone(),
        last_pin_timestamp: c.last_pin_timestamp.clone(),
        rtc_region: c.rtc_region.clone(),
        video_quality_mode: c.video_quality_mode,
        message_count: c.message_count,
        member_count: c.member_count,
        thread_metadata: c.thread_metadata.clone(),
        member: c.member.clone(),
        default_auto_archive_duration: c.default_auto_archive_duration,
        permissions: c.permissions,
        flags: c.flags,
        total_message_sent: c.total_message_sent,
        available_tags: c.available_tags.clone(),
        applied_tags: c.applied_tags.clone(),
        default_reaction_emoji: c.default_reaction_emoji.clone(),
        default_thread_rate_limit_per_user: c.default_thread_rate_limit_per_user,
        default_sort_order: c.default_sort_order,
        default_forum_layout: c.default_forum_layout,
        message,
    }
}

fn clone_message(m: &Message) -> (r: Message)
    ensures
        message_copied(*m, r),
    decreases m,
{
    let referenced_message = match &m.referenced_message {
        Some(b) => Some(Box::new(clone_message(b))),
        None => None,
    };
    let interaction_metadata = match &m.interaction_metadata {
        Some(x) => Some(clone_metadata(x)),
        None => None,
    };
    let thread = match &m.thread {
        Some(c) => Some(clone_channel(c)),
        None => None,
    };
    let components = match &m.components {
        Some(v) => Some(clone_components(v)),
        None => None,
    };
    let resolved = match &m.resolved {
        Some(res) => Some(clone_resolved(res)),
        None => None,
    };
    Message {
        id: m.id.clone(),
        channel_id: m.channel_id.clone(),
        guild_id: m.guild_id.clone(),
        author: m.author.clone(),
        member: m.member.clone(),
        content: m.content.clone(),
        timestamp: m.timestamp.clone(),
        edited_timestamp: m.edited_timestamp.clone(),
        tts: m.tts,
        mention_everyone: m.mention_everyone,
        mentions: m.mentions.clone(),
        mention_roles: m.mention_roles.clone(),
        mention_channels: m.mention_channels.clone(),
        attachments: m.attachments.clone(),
        embeds: m.embeds.clone(),
        reactions: m.reactions.clone(),
        nonce: m.nonce.clone(),
        pinned: m.pinned,
        webhook_id: m.webhook_id.clone(),
        message_type: m.message_type,
        activity: m.activity.clone(),
        application: m.application.clone(),
        application_id: m.application_id.clone(),
        message_reference: m.message_reference.clone(),
        flags: m.flags,
        referenced_message,
        interaction_metadata,
        thread,
        components,
        sticker_items: m.sticker_items.clone(),
        position: m.position,
        role_subscription_data: m.role_subscription_data.clone(),
        resolved,
        poll: m.poll.clone(),
    }
}

fn clone_command_options(v: &Vec<ApplicationCommandOption>) -> (r: Vec<ApplicationCommandOption>)
    ensures
        command_options_copied(v@, r@),
    decreases v,
{
    let mut out: Vec<ApplicationCommandOption> = Vec::new();
    let mut i: usize = 0;
    while i < v.len()
        invariant
            i <= v.len(),
            out@.len() == i,
            forall|k: int| 0 <= k < i ==> #[trigger] command_option_copied(v@[k], out@[k]),
        decreases v.len() - i,
    {
        proof {
            assert(decreases_to!(v => v@));
            assert(decreases_to!(v@ => v@[i as int]));
        }
        out.push(clone_command_option(&v[i]));
        i = i + 1;
    }
    assert(out@.len() == v@.len());
    assert(forall|k: int| 0 <= k < v@.len() ==> command_option_copied(v@[k], out@[k]));
    assert(command_options_copied(v@, out@));
    out
}

fn clone_command_option(o: &ApplicationCommandOption) -> (r: ApplicationCommandOption)
    ensures
        command_option_copied(*o, r),
    decreases o,
{
    let options = match &o.options {
        Some(v) => Some(clone_command_options(v)),
        None => None,
    };
    ApplicationCommandOption {
        option_type: o.option_type,
        name: o.name.clone(),
        name_localizations: o.name_localizations.clone(),
        description: o.description.clone(),
        description_localizations: o.description_localizations.clone(),
        required: o.required,
        choices: o.choices.clone(),
        options,
        channel_types: o.channel_types.clone(),
        min_value: o.min_value,
        max_value: o.max_value,
        min_length: o.min_length,
        max_length: o.max_length,
        autocomplete: o.autocomplete,
    }
}

fn clone_interaction_options(v: &Vec<InteractionOption>) -> (r: Vec<InteractionOption>)
    ensures
        interaction_options_copied(v@, r@),
    decreases v,
{
    let mut out: Vec<InteractionOption> = Vec::new();
    let mut i: usize = 0;
    while i < v.len()
        invariant
            i <= v.len(),
            out@.len() == i,
            forall|k: int| 0 <= k < i ==> #[trigger] interaction_option_copied(v@[k], out@[k]),
        decreases v.len() - i,
    {
        proof {
            assert(decreases_to!(v => v@));
            assert(decreases_to!(v@ => v@[i as int]));
        }
        out.push(clone_interaction_option(&v[i]));
        i = i + 1;
    }
    assert(out@.len() == v@.len());
    assert(forall|k: int| 0 <= k < v@.len() ==> interaction_option_copied(v@[k], out@[k]));
    assert(interaction_options_copied(v@, out@));
    out
}

fn clone_interaction_option(o: &InteractionOption) -> (r: InteractionOption)
    ensures
        interaction_option_copied(*o, r),
    decreases o,
{
    let options = match &o.options {
        Some(v) => Some(clone_interaction_options(v)),
        None => None,
    };
    InteractionOption {
        name: o.name.clone(),
        option_type: o.option_type,
        value: o.value.clone(),
        options,
        focused: o.focused,
    }
}

impl Clone for ApplicationCommandOption {
    fn clone(&self) -> (r: Self) {
        clone_command_option(self)
    }
}

impl Clone for InteractionOption {
    fn clone(&self) -> (r: Self) {
        clone_interaction_option(self)
    }
}

impl Clone for Component {
    fn clone(&self) -> (r: Self) {
        clone_component(self)
    }
}

impl Clone for ActionRow {
    fn clone(&self) -> (r: Self) {
        clone_action_row(self)
    }
}

impl Clone for Section {
    fn clone(&self) -> (r: Self) {
        clone_section(self)
    }
}

impl Clone for Container {
    fn clone(&self) -> (r: Self) {
        clone_container(self)
    }
}

impl Clone for Label {
    fn clone(&self) -> (r: Self) {
        clone_label(self)
    }
}

impl Clone for SelectMenu {
    fn clone(&self) -> (r: Self) {
        clone_select_menu(self)
    }
}

impl Clone for InteractionDataResolved {
    fn clone(&self) -> (r: Self) {
        clone_resolved(self)
    }
}

impl Clone for MessageInteractionMetadata {
    fn clone(&self) -> (r: Self) {
        clone_metadata(self)
    }
}

impl Clone for Channel {
    fn clone(&self) -> (r: Self) {
        clone_channel(self)
    }
}

impl Clone for Message {
    fn clone(&self) -> (r: Self) {
        clone_message(self)
    }
}

} // verus!
