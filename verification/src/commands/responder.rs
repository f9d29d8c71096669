//! What a command answers with: messages, modals and the kinds of response

use vstd::prelude::*;
use crate::keyed::{push_onto, vec_or_empty};
use crate::structs::Snowflake;
use crate::structs::components::{Component, Components};
use crate::structs::embeds::Embed;
use crate::structs::interactions::ApplicationCommandOptionChoice;
use crate::structs::messages::{AllowedMentions, Attachment, MessageFlags, MessageReference, kept_attachment};
use crate::structs::polls::PollCreateRequest;
use crate::structs::utils::File;
use crate::text::{push_str, str_opt, string_of};

verus! {

/// Error for when a response failed due to the interaction having been responded to already.
#[derive(Clone, Copy, Debug, PartialEq, Eq, Structural)]
pub struct InteractionResponseError;

impl InteractionResponseError {
    /// The text that describes the error.
    pub fn message(&self) -> (r: String)
        ensures
            r@ == "Interaction has already been responded to."@,
    {
        string_of("Interaction has already been responded to.")
    }
}

/// The bits of an optional flag set, no set being read as the empty one.
pub open spec fn flag_bits(f: Option<MessageFlags>) -> u32 {
    match f {
        Some(x) => x.value(),
        None => 0,
    }
}

/// `v` with the bits of `m` set when `on` holds, and cleared when it does not.
pub open spec fn with_flag(v: u32, m: u32, on: bool) -> u32 {
    if on { v | m } else { v & !m }
}

/// Setting or clearing a message flag: afterwards the flag is set exactly when it was asked to be,
/// and every other flag is as it was.
pub proof fn law_with_flag(v: u32, m: u32, on: bool)
    ensures
        (with_flag(v, m, on) & m == m) <==> (on || m == 0),
        with_flag(v, m, on) & !m == v & !m,
{
    if on {
        assert((v | m) & m == m) by (bit_vector);
        assert((v | m) & !m == v & !m) by (bit_vector);
    } else {
        assert(((v & !m) & m == m) <==> m == 0) by (bit_vector);
        assert((v & !m) & !m == v & !m) by (bit_vector);
    }
}

/// Message that can be sent as a response to a command or other interaction
///
/// This struct can be easily constructed from a `str`, [`Embed`], [`Components`],
/// [`File`] or [`PollCreateRequest`] with its `from_*` constructors.
#[derive(Clone, Debug)]
pub struct MessageResponse {
    /// Whether the response is TTS
    pub tts: Option<bool>,
    /// Message content (up to 2000 characters)
    pub content: Option<String>,
    /// Up to 10 embeds (up to 6000 characters)
    pub embeds: Option<Vec<Embed>>,
    /// [Allowed mentions](AllowedMentions) object
    pub allowed_mentions: Option<AllowedMentions>,
    /// [Message flags](MessageFlags) combined as a bitfield
    pub flags: Option<MessageFlags>,
    /// Message components
    pub components: Option<Vec<Component>>,
    /// Attachment objects with filename and description, for partial attachment objects indicating which to keep when editing.
    pub attachments: Option<Vec<Attachment>>,
    /// Details about the poll
    pub poll: Option<PollCreateRequest>,
    /// Include to make your message a reply or a forward (not available for interaction responses)
    pub message_reference: Option<MessageReference>,
    /// IDs of up to 3 stickers in the server to send in the message
    pub sticker_ids: Option<Vec<Snowflake>>,
    /// Up to 10 files to send with the response
    pub files: Option<Vec<File>>,
}

impl MessageResponse {
    /// Whether every field is empty but `tts`, which is `Some(false)`: what each
    /// constructor starts from before it sets its one field.
    pub open spec fn is_blank_but(self, content: bool, embeds: bool, components: bool, poll: bool, files: bool, reference: bool) -> bool {
        &&& self.tts == Some(false)
        &&& (!content ==> self.content is None)
        &&& (!embeds ==> self.embeds is None)
        &&& self.allowed_mentions is None
        &&& self.flags is None
        &&& (!components ==> self.components is None)
        &&& self.attachments is None
        &&& (!poll ==> self.poll is None)
        &&& (!reference ==> self.message_reference is None)
        &&& self.sticker_ids is None
        &&& (!files ==> self.files is None)
    }

    fn blank() -> (r: MessageResponse)
        ensures
            r.is_blank_but(false, false, false, false, false, false),
    {
        MessageResponse {
            tts: Some(false),
            content: None,
            embeds: None,
            allowed_mentions: None,
            flags: None,
            components: None,
            attachments: None,
            poll: None,
            message_reference: None,
            sticker_ids: None,
            files: None,
        }
    }

    /// A message with this text as its content
    pub fn from_text(s: &str) -> (r: MessageResponse)
        ensures
            r.is_blank_but(true, false, false, false, false, false),
            str_opt(r.content, s@),
    {
        MessageResponse { content: Some(string_of(s)), ..Self::blank() }
    }

    /// A message with this text as its content
    pub fn from_string(s: String) -> (r: MessageResponse)
        ensures
            r.is_blank_but(true, false, false, false, false, false),
            r.content == Some(s),
    {
        MessageResponse { content: Some(s), ..Self::blank() }
    }

    /// A message with this one embed
    pub fn from_embed(e: Embed) -> (r: MessageResponse)
        ensures
            r.is_blank_but(false, true, false, false, false, false),
            r.embeds matches Some(v) && v@ == seq![e],
    {
        let mut v: Vec<Embed> = Vec::new();
        v.push(e);
        MessageResponse { embeds: Some(v), ..Self::blank() }
    }

    /// A message with these embeds
    pub fn from_embeds(e: Vec<Embed>) -> (r: MessageResponse)
        ensures
            r.is_blank_but(false, true, false, false, false, false),
            r.embeds == Some(e),
    {
        MessageResponse { embeds: Some(e), ..Self::blank() }
    }

    /// A message with these components
    pub fn from_components(c: Components) -> (r: MessageResponse)
        ensures
            r.is_blank_but(false, false, true, false, false, false),
            r.components == Some(c.0),
    {
        MessageResponse { components: Some(c.0), ..Self::blank() }
    }

    /// A message with this one file
    pub fn from_file(f: File) -> (r: MessageResponse)
        ensures
            r.is_blank_but(false, false, false, false, true, false),
            r.files matches Some(v) && v@ == seq![f],
    {
        let mut v: Vec<File> = Vec::new();
        v.push(f);
        MessageResponse { files: Some(v), ..Self::blank() }
    }

    /// A message with these files
    pub fn from_files(f: Vec<File>) -> (r: MessageResponse)
        ensures
            r.is_blank_but(false, false, false, false, true, false),
            r.files == Some(f),
    {
        MessageResponse { files: Some(f), ..Self::blank() }
    }

    /// A message with this poll
    pub fn from_poll(poll: PollCreateRequest) -> (r: MessageResponse)
        ensures
            r.is_blank_but(false, false, false, true, false, false),
            r.poll == Some(poll),
    {
        MessageResponse { poll: Some(poll), ..Self::blank() }
    }

    /// A message that replies to or forwards the referenced message
    pub fn from_reference(reference: MessageReference) -> (r: MessageResponse)
        ensures
            r.is_blank_but(false, false, false, false, false, true),
            r.message_reference == Some(reference),
    {
        MessageResponse { message_reference: Some(reference), ..Self::blank() }
    }

    /// Set the value of tts for the message
    pub fn set_tts(self, tts: bool) -> (r: MessageResponse)
        ensures
            r == (MessageResponse { tts: Some(tts), ..self }),
    {
        MessageResponse { tts: Some(tts), ..self }
    }

    /// Set the content of the message
    pub fn set_content(self, content: &str) -> (r: MessageResponse)
        ensures
            str_opt(r.content, content@),
            r == (MessageResponse { content: r.content, ..self }),
    {
        MessageResponse { content: Some(string_of(content)), ..self }
    }

    /// Add an embed to the message
    pub fn add_embed(self, embed: Embed) -> (r: MessageResponse)
        ensures
            r.embeds matches Some(v) && v@ == vec_or_empty(self.embeds).push(embed),
            r == (MessageResponse { embeds: r.embeds, ..self }),
    {
        MessageResponse { embeds: Some(push_onto(self.embeds, embed)), ..self }
    }

    /// Clear embeds from the message. Sets embeds to an empty Vec which also clears embeds when editing.
    pub fn clear_embeds(self) -> (r: MessageResponse)
        ensures
            r.embeds matches Some(v) && v@.len() == 0,
            r == (MessageResponse { embeds: r.embeds, ..self }),
    {
        MessageResponse { embeds: Some(Vec::new()), ..self }
    }

    /// Set the allowed mentions for the message
    pub fn set_allowed_mentions(self, allowed_mentions: AllowedMentions) -> (r: MessageResponse)
        ensures
            r == (MessageResponse { allowed_mentions: Some(allowed_mentions), ..self }),
    {
        MessageResponse { allowed_mentions: Some(allowed_mentions), ..self }
    }

    fn with_flag_set(self, flag: MessageFlags, on: bool) -> (r: MessageResponse)
        ensures
            r.flags matches Some(f) && f.value() == with_flag(flag_bits(self.flags), flag.value(), on),
            r == (MessageResponse { flags: r.flags, ..self }),
    {
        let mut flags = match self.flags {
            Some(f) => f,
            None => MessageFlags::empty(),
        };
        flags.set(flag, on);
        MessageResponse { flags: Some(flags), ..self }
    }

    /// Set the ephemeralness of the message
    pub fn set_ephemeral(self, ephemeral: bool) -> (r: MessageResponse)
        ensures
            r.flags matches Some(f) && f.value() == with_flag(flag_bits(self.flags), 64, ephemeral),
            r == (MessageResponse { flags: r.flags, ..self }),
    {
        self.with_flag_set(MessageFlags::EPHEMERAL(), ephemeral)
    }

    /// Set suppress embeds flag
    pub fn set_suppress_embeds(self, suppress: bool) -> (r: MessageResponse)
        ensures
            r.flags matches Some(f) && f.value() == with_flag(flag_bits(self.flags), 4, suppress),
            r == (MessageResponse { flags: r.flags, ..self }),
    {
        self.with_flag_set(MessageFlags::SUPPRESS_EMBEDS(), suppress)
    }

    /// Set suppress notifications flag
    pub fn set_suppress_notifications(self, suppress: bool) -> (r: MessageResponse)
        ensures
            r.flags matches Some(f) && f.value() == with_flag(flag_bits(self.flags), 4096, suppress),
            r == (MessageResponse { flags: r.flags, ..self }),
    {
        self.with_flag_set(MessageFlags::SUPPRESS_NOTIFICATIONS(), suppress)
    }

    /// Set voice message flag
    pub fn set_as_voice_message(self, is_voice_message: bool) -> (r: MessageResponse)
        ensures
            r.flags matches Some(f) && f.value() == with_flag(flag_bits(self.flags), 8192, is_voice_message),
            r == (MessageResponse { flags: r.flags, ..self }),
    {
        self.with_flag_set(MessageFlags::IS_VOICE_MESSAGE(), is_voice_message)
    }

    /// Use Components V2 on the message
    pub fn set_components_v2(self, components_v2: bool) -> (r: MessageResponse)
        ensures
            r.flags matches Some(f) && f.value() == with_flag(flag_bits(self.flags), 32768, components_v2),
            r == (MessageResponse { flags: r.flags, ..self }),
    {
        self.with_flag_set(MessageFlags::IS_COMPONENTS_V2(), components_v2)
    }

    /// Set the components on the message
    pub fn set_components(self, components: Components) -> (r: MessageResponse)
        ensures
            r == (MessageResponse { components: Some(components.0), ..self }),
    {
        MessageResponse { components: Some(components.0), ..self }
    }

    /// Add a file to be sent with the message
    pub fn add_file(self, file: File) -> (r: MessageResponse)
        ensures
            r.files matches Some(v) && v@ == vec_or_empty(self.files).push(file),
            r == (MessageResponse { files: r.files, ..self }),
    {
        MessageResponse { files: Some(push_onto(self.files, file)), ..self }
    }

    /// Keep an existing attachment when editing
    pub fn keep_attachment(self, attachment_id: &str) -> (r: MessageResponse)
        ensures
            r.attachments matches Some(v) && v@.len() == vec_or_empty(self.attachments).len() + 1
                && v@.drop_last() == vec_or_empty(self.attachments)
                && kept_attachment(v@.last(), attachment_id@),
            r == (MessageResponse { attachments: r.attachments, ..self }),
    {
        let a = Attachment::keep_with_id(attachment_id);
        let r = MessageResponse { attachments: Some(push_onto(self.attachments, a)), ..self };
        proof {
            let v = vec_or_empty(self.attachments).push(a);
            assert(v.drop_last() =~= vec_or_empty(self.attachments));
        }
        r
    }

    /// Clear attachments from the message. Sets attachments to an empty Vec which also deletes attachments when editing.
    pub fn clear_attachments(self) -> (r: MessageResponse)
        ensures
            r.attachments matches Some(v) && v@.len() == 0,
            r == (MessageResponse { attachments: r.attachments, ..self }),
    {
        MessageResponse { attachments: Some(Vec::new()), ..self }
    }

    /// Add a poll to the message
    pub fn set_poll(self, poll: PollCreateRequest) -> (r: MessageResponse)
        ensures
            r == (MessageResponse { poll: Some(poll), ..self }),
    {
        MessageResponse { poll: Some(poll), ..self }
    }

    /// Set a reply or forward
    pub fn set_message_reference(self, message_reference: MessageReference) -> (r: MessageResponse)
        ensures
            r == (MessageResponse { message_reference: Some(message_reference), ..self }),
    {
        MessageResponse { message_reference: Some(message_reference), ..self }
    }

    /// Add a sticker to the message
    pub fn add_sticker(self, sticker_id: &str) -> (r: MessageResponse)
        ensures
            r.sticker_ids matches Some(v) && v@.len() == vec_or_empty(self.sticker_ids).len() + 1
                && v@.drop_last() == vec_or_empty(self.sticker_ids) && v@.last()@ == sticker_id@,
            r == (MessageResponse { sticker_ids: r.sticker_ids, ..self }),
    {
        let s = string_of(sticker_id);
        let r = MessageResponse { sticker_ids: Some(push_onto(self.sticker_ids, s)), ..self };
        proof {
            let v = vec_or_empty(self.sticker_ids).push(s);
            assert(v.drop_last() =~= vec_or_empty(self.sticker_ids));
        }
        r
    }
}


/// A message with nothing set but `tts`, which is `false`.
pub open spec fn blank_message() -> MessageResponse {
    MessageResponse {
        tts: Some(false),
        content: None,
        embeds: None,
        allowed_mentions: None,
        flags: None,
        components: None,
        attachments: None,
        poll: None,
        message_reference: None,
        sticker_ids: None,
        files: None,
    }
}
impl From<String> for MessageResponse {
    /// The same as [`MessageResponse::from_string`]
    fn from(value: String) -> (r: MessageResponse) {
        MessageResponse::from_string(value)
    }
}

impl vstd::std_specs::convert::FromSpecImpl<String> for MessageResponse {
    open spec fn obeys_from_spec() -> bool {
        true
    }

    open spec fn from_spec(value: String) -> MessageResponse {
        MessageResponse { content: Some(value), ..blank_message() }
    }
}

impl From<Vec<Embed>> for MessageResponse {
    /// The same as [`MessageResponse::from_embeds`]
    fn from(value: Vec<Embed>) -> (r: MessageResponse) {
        MessageResponse::from_embeds(value)
    }
}

impl vstd::std_specs::convert::FromSpecImpl<Vec<Embed>> for MessageResponse {
    open spec fn obeys_from_spec() -> bool {
        true
    }

    open spec fn from_spec(value: Vec<Embed>) -> MessageResponse {
        MessageResponse { embeds: Some(value), ..blank_message() }
    }
}

impl From<Components> for MessageResponse {
    /// The same as [`MessageResponse::from_components`]
    fn from(value: Components) -> (r: MessageResponse) {
        MessageResponse::from_components(value)
    }
}

impl vstd::std_specs::convert::FromSpecImpl<Components> for MessageResponse {
    open spec fn obeys_from_spec() -> bool {
        true
    }

    open spec fn from_spec(value: Components) -> MessageResponse {
        MessageResponse { components: Some(value.0), ..blank_message() }
    }
}

impl From<Vec<File>> for MessageResponse {
    /// The same as [`MessageResponse::from_files`]
    fn from(value: Vec<File>) -> (r: MessageResponse) {
        MessageResponse::from_files(value)
    }
}

impl vstd::std_specs::convert::FromSpecImpl<Vec<File>> for MessageResponse {
    open spec fn obeys_from_spec() -> bool {
        true
    }

    open spec fn from_spec(value: Vec<File>) -> MessageResponse {
        MessageResponse { files: Some(value), ..blank_message() }
    }
}

impl From<PollCreateRequest> for MessageResponse {
    /// The same as [`MessageResponse::from_poll`]
    fn from(value: PollCreateRequest) -> (r: MessageResponse) {
        MessageResponse::from_poll(value)
    }
}

impl vstd::std_specs::convert::FromSpecImpl<PollCreateRequest> for MessageResponse {
    open spec fn obeys_from_spec() -> bool {
        true
    }

    open spec fn from_spec(value: PollCreateRequest) -> MessageResponse {
        MessageResponse { poll: Some(value), ..blank_message() }
    }
}

impl From<MessageReference> for MessageResponse {
    /// The same as [`MessageResponse::from_reference`]
    fn from(value: MessageReference) -> (r: MessageResponse) {
        MessageResponse::from_reference(value)
    }
}

impl vstd::std_specs::convert::FromSpecImpl<MessageReference> for MessageResponse {
    open spec fn obeys_from_spec() -> bool {
        true
    }

    open spec fn from_spec(value: MessageReference) -> MessageResponse {
        MessageResponse { message_reference: Some(value), ..blank_message() }
    }
}

impl<'a> From<&'a str> for MessageResponse {
    /// The same as [`MessageResponse::from_text`]
    fn from(value: &'a str) -> (r: MessageResponse)
        ensures
            r.is_blank_but(true, false, false, false, false, false),
            str_opt(r.content, value@),
    {
        MessageResponse::from_text(value)
    }
}

/// The message holds a new `String` made from the text, so no spec function stands for the conversion; `from` states its result itself.
impl<'a> vstd::std_specs::convert::FromSpecImpl<&'a str> for MessageResponse {
    open spec fn obeys_from_spec() -> bool {
        false
    }

    open spec fn from_spec(value: &'a str) -> MessageResponse {
        vstd::pervasive::arbitrary()
    }
}

impl From<Embed> for MessageResponse {
    /// The same as [`MessageResponse::from_embed`]
    fn from(value: Embed) -> (r: MessageResponse)
        ensures
            r.is_blank_but(false, true, false, false, false, false),
            r.embeds matches Some(v) && v@ == seq![value],
    {
        MessageResponse::from_embed(value)
    }
}

/// The message holds a new `Vec` made of the embed, so no spec function stands for the conversion; `from` states its result itself.
impl vstd::std_specs::convert::FromSpecImpl<Embed> for MessageResponse {
    open spec fn obeys_from_spec() -> bool {
        false
    }

    open spec fn from_spec(value: Embed) -> MessageResponse {
        vstd::pervasive::arbitrary()
    }
}

impl From<File> for MessageResponse {
    /// The same as [`MessageResponse::from_file`]
    fn from(value: File) -> (r: MessageResponse)
        ensures
            r.is_blank_but(false, false, false, false, true, false),
            r.files matches Some(v) && v@ == seq![value],
    {
        MessageResponse::from_file(value)
    }
}

/// The message holds a new `Vec` made of the file, so no spec function stands for the conversion; `from` states its result itself.
impl vstd::std_specs::convert::FromSpecImpl<File> for MessageResponse {
    open spec fn obeys_from_spec() -> bool {
        false
    }

    open spec fn from_spec(value: File) -> MessageResponse {
        vstd::pervasive::arbitrary()
    }
}

/// A modal that can be opened for user input
#[derive(Clone, Debug)]
pub struct Modal {
    /// a developer-defined identifier for the component, max 100 characters
    pub custom_id: String,
    /// The title of the popup modal
    pub title: String,
    /// The components that make up the modal
    pub components: Vec<Component>,
}

impl Modal {
    /// Creates a new modal.\
    /// The command argument is used by the library to choose which command to run when the modal is submitted.
    /// The custom_id is formatted as `command/id`
    pub fn new(command: &str, id: &str, title: &str) -> (r: Modal)
        ensures
            r.custom_id@ == command@ + seq!['/'] + id@,
            r.title@ == title@,
            r.components@.len() == 0,
    {
        let mut custom_id = string_of(command);
        push_str(&mut custom_id, "/");
        push_str(&mut custom_id, id);
        proof { reveal_strlit("/"); }
        Modal { custom_id, title: string_of(title), components: Vec::new() }
    }

    /// Set the components on the modal
    pub fn set_components(self, components: Components) -> (r: Modal)
        ensures
            r == (Modal { components: components.0, ..self }),
    {
        Modal { components: components.0, ..self }
    }
}

/// The ways in which a command can answer the interaction that started it
#[derive(Clone, Debug)]
pub enum CommandResponse {
    /// Defer the response; a message follows later
    DeferMessage(MessageFlags),
    /// Answer with a message
    SendMessage(MessageResponse),
    /// Defer an update of the message that holds the component
    DeferUpdate,
    /// Update the message that holds the component
    UpdateMessage(MessageResponse),
    /// Answer an autocomplete request with choices
    AutocompleteResult(Vec<ApplicationCommandOptionChoice>),
    /// Open a modal
    Modal(Modal),
    /// Launch the activity associated with the app
    LaunchActivity,
}

/// The flags of a deferred answer: `EPHEMERAL` exactly when `ephemeral` holds.
pub fn defer_flags(ephemeral: bool) -> (r: MessageFlags)
    ensures
        r.value() == with_flag(0, 64, ephemeral),
{
    let mut flags = MessageFlags::empty();
    flags.set(MessageFlags::EPHEMERAL(), ephemeral);
    flags
}

} // verus!
