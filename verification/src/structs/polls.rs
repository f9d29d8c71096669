//! Structs related to Discord polls

use vstd::prelude::*;
use crate::structs::Timestamp;
use crate::structs::emojis::Emoji;
use crate::structs::users::User;
use crate::text::{str_opt, string_of};

verus! {

/// Discord Poll Object
#[derive(Clone, Debug)]
pub struct Poll {
  /// The question of the poll. Only `text` is supported.
  pub question: PollMedia,
  /// Each of the answers available in the poll.
  pub answers: Vec<PollAnswer>,
  /// The time when the poll ends.
  pub expiry: Option<Timestamp>,
  /// Whether a user can select multiple answers
  pub allow_multiselect: bool,
  /// The [layout type](PollLayoutType) of the poll
  pub layout_type: PollLayoutType,
  /// The results of the poll
  pub results: Option<PollResults>,
}

/// Discord Poll Media Object
#[derive(Clone, Debug)]
pub struct PollMedia {
  /// The text of the field
  pub text: Option<String>,
  /// The emoji of the field
  pub emoji: Option<Emoji>,
}

/// Discord Poll Answer Object
#[derive(Clone, Debug)]
pub struct PollAnswer {
  /// The ID of the answer
  pub answer_id: Option<i64>,
  /// The data of the answer
  pub poll_media: PollMedia,
}

/// Discord Poll Layout Types
#[derive(Clone, Copy, Debug, PartialEq, Eq, Hash, Structural)]
#[allow(non_camel_case_types)]
pub enum PollLayoutType {
  /// The, uhm, default layout type.
  DEFAULT,
  /// Poll Layout Type that hasn't been implemented yet
  UNKNOWN,
}

impl PollLayoutType {
    /// The number that Discord uses for this value.
    pub open spec fn spec_code(self) -> u8 {
        match self {
            PollLayoutType::DEFAULT => 1,
            PollLayoutType::UNKNOWN => 2,
        }
    }

    /// The value that Discord's number `code` stands for, if any.
    pub open spec fn spec_from_code(code: u8) -> Option<PollLayoutType> {
        match code {
            1 => Some(PollLayoutType::DEFAULT),
            2 => Some(PollLayoutType::UNKNOWN),
            _ => Some(PollLayoutType::UNKNOWN),
        }
    }

    /// The number that Discord uses for this value.
    pub fn code(&self) -> (r: u8)
        ensures
            r == self.spec_code(),
    {
        match self {
            PollLayoutType::DEFAULT => 1,
            PollLayoutType::UNKNOWN => 2,
        }
    }

    /// The value that Discord's number `code` stands for, if any.
    pub fn from_code(code: u8) -> (r: Option<PollLayoutType>)
        ensures
            r == PollLayoutType::spec_from_code(code),
    {
        match code {
            1 => Some(PollLayoutType::DEFAULT),
            2 => Some(PollLayoutType::UNKNOWN),
            _ => Some(PollLayoutType::UNKNOWN),
        }
    }
}

/// Discord Poll Results Object
#[derive(Clone, Debug)]
pub struct PollResults {
  /// Whether the votes have been precisely counted
  pub is_finalized: bool,
  /// The counts for each answer
  pub answer_counts: Vec<PollAnswerCount>,
}

/// Discord Poll Answer Count Object
#[derive(Clone, Debug)]
pub struct PollAnswerCount {
  /// The `answer_id`
  pub id: i64,
  /// The number of votes for this answer
  pub count: i64,
  /// Whether the current user voted for this answer
  pub me_voted: bool,
}

/// Discord Poll Create Request Object
#[derive(Clone, Debug)]
pub struct PollCreateRequest {
  /// The question of the poll. Only `text` is supported.
  pub question: PollMedia,
  /// Each of the answers available in the poll, up to 10
  pub answers: Vec<PollAnswer>,
  /// Number of hours the poll should be open for, up to 7 days
  pub duration: i64,
  /// Whether a user can select multiple answers
  pub allow_multiselect: bool,
  /// The [layout type](PollLayoutType) of the poll. Defaults to... [DEFAULT](PollLayoutType::DEFAULT)!
  pub layout_type: PollLayoutType,
}

/// Response from [get_poll_voters](super::messages::Message::get_poll_voters).
#[derive(Clone, Debug)]
pub struct PollVoters {
  /// Users who voted for this answer
  pub users: Vec<User>,
}

impl PollCreateRequest {
    /// Sets the duration
    pub fn set_duration(self, duration: i64) -> (r: PollCreateRequest)
        ensures
            r == (PollCreateRequest { duration: duration, ..self }),
    {
        PollCreateRequest { duration: duration, ..self }
    }

    /// Sets if multiple answers are allowed
    pub fn set_allow_multiselect(self, allow_multiselect: bool) -> (r: PollCreateRequest)
        ensures
            r == (PollCreateRequest { allow_multiselect: allow_multiselect, ..self }),
    {
        PollCreateRequest { allow_multiselect: allow_multiselect, ..self }
    }

    /// Sets the layout type
    pub fn set_layout_type(self, layout_type: PollLayoutType) -> (r: PollCreateRequest)
        ensures
            r == (PollCreateRequest { layout_type: layout_type, ..self }),
    {
        PollCreateRequest { layout_type: layout_type, ..self }
    }
}

impl PollMedia {
    /// Creates a new empty PollMedia
    pub fn new() -> (r: PollMedia)
        ensures
            r.text is None,
            r.emoji is None,
    {
        PollMedia { text: None, emoji: None }
    }

    /// Sets the text
    pub fn set_text(self, text: &str) -> (r: PollMedia)
        ensures
            str_opt(r.text, text@),
            r == (PollMedia { text: r.text, ..self }),
    {
        PollMedia { text: Some(string_of(text)), ..self }
    }

    /// Sets the emoji
    pub fn set_emoji(self, emoji: Emoji) -> (r: PollMedia)
        ensures
            r == (PollMedia { emoji: Some(emoji), ..self }),
    {
        PollMedia { emoji: Some(emoji), ..self }
    }
}

impl PollAnswer {
    /// Overwrites the whole poll media struct. See the other methods for editing the poll media.
    pub fn set_poll_media(self, poll_media: PollMedia) -> (r: PollAnswer)
        ensures
            r == (PollAnswer { poll_media: poll_media, ..self }),
    {
        PollAnswer { poll_media: poll_media, ..self }
    }
}

impl PollMedia {
    /// Poll media with this text and no emoji
    pub fn from_text(text: &str) -> (r: PollMedia)
        ensures
            str_opt(r.text, text@),
            r.emoji is None,
    {
        PollMedia::new().set_text(text)
    }
}

impl PollAnswer {
    /// Creates a new empty poll answer
    pub fn new() -> (r: PollAnswer)
        ensures
            r.answer_id is None,
            r.poll_media.text is None,
            r.poll_media.emoji is None,
    {
        PollAnswer { answer_id: None, poll_media: PollMedia::new() }
    }

    /// A poll answer with this media
    pub fn from_media(poll_media: PollMedia) -> (r: PollAnswer)
        ensures
            r.answer_id is None,
            r.poll_media == poll_media,
    {
        PollAnswer { answer_id: None, poll_media }
    }

    /// A poll answer with this text
    pub fn from_text(text: &str) -> (r: PollAnswer)
        ensures
            r.answer_id is None,
            str_opt(r.poll_media.text, text@),
            r.poll_media.emoji is None,
    {
        PollAnswer::from_media(PollMedia::from_text(text))
    }

    /// Set the text of the answer
    pub fn set_text(self, text: &str) -> (r: PollAnswer)
        ensures
            str_opt(r.poll_media.text, text@),
            r.poll_media.emoji == self.poll_media.emoji,
            r.answer_id == self.answer_id,
    {
        PollAnswer { poll_media: self.poll_media.set_text(text), ..self }
    }

    /// Set the emoji of the answer
    pub fn set_emoji(self, emoji: Emoji) -> (r: PollAnswer)
        ensures
            r.poll_media.emoji == Some(emoji),
            r.poll_media.text == self.poll_media.text,
            r.answer_id == self.answer_id,
    {
        PollAnswer { poll_media: self.poll_media.set_emoji(emoji), ..self }
    }
}

impl PollCreateRequest {
    /// Creates a new poll with this question, no answers, open for 24 hours
    pub fn new(question: PollMedia) -> (r: PollCreateRequest)
        ensures
            r.question == question,
            r.answers@.len() == 0,
            r.duration == 24,
            r.allow_multiselect == false,
            r.layout_type == PollLayoutType::DEFAULT,
    {
        PollCreateRequest { question, answers: Vec::new(), duration: 24, allow_multiselect: false, layout_type: PollLayoutType::DEFAULT }
    }

    /// Add an answer to the poll
    pub fn add_answer(self, answer: PollAnswer) -> (r: PollCreateRequest)
        ensures
            r.answers@ == self.answers@.push(answer),
            r.question == self.question,
            r.duration == self.duration,
            r.allow_multiselect == self.allow_multiselect,
            r.layout_type == self.layout_type,
    {
        let mut answers = self.answers;
        answers.push(answer);
        PollCreateRequest { answers, ..self }
    }
}

impl PollLayoutType {
    /// Discord's number for a value reads back as that value.
    pub proof fn law_code_round_trip(self)
        ensures
            PollLayoutType::spec_from_code(self.spec_code()) == Some(self),
    {
    }
}

impl Default for PollMedia {
    /// The same as [`PollMedia::new`]
    fn default() -> (r: PollMedia)
        ensures
            r.text is None,
            r.emoji is None,
    {
        PollMedia::new()
    }
}

impl Default for PollAnswer {
    /// The same as [`PollAnswer::new`]
    fn default() -> (r: PollAnswer)
        ensures
            r.answer_id is None,
            r.poll_media.text is None,
            r.poll_media.emoji is None,
    {
        PollAnswer::new()
    }
}

impl From<String> for PollMedia {
    /// Poll media with this text and no emoji
    fn from(value: String) -> (r: PollMedia) {
        PollMedia { text: Some(value), emoji: None }
    }
}

impl vstd::std_specs::convert::FromSpecImpl<String> for PollMedia {
    open spec fn obeys_from_spec() -> bool {
        true
    }

    open spec fn from_spec(value: String) -> PollMedia {
        PollMedia { text: Some(value), emoji: None }
    }
}

impl<'a> From<&'a str> for PollMedia {
    /// The same as [`PollMedia::from_text`]
    fn from(value: &'a str) -> (r: PollMedia)
        ensures
            str_opt(r.text, value@),
            r.emoji is None,
    {
        PollMedia::from_text(value)
    }
}

/// The media holds a new `String` made from the text, so no spec function stands for the
/// conversion; `from` states its result itself.
impl<'a> vstd::std_specs::convert::FromSpecImpl<&'a str> for PollMedia {
    open spec fn obeys_from_spec() -> bool {
        false
    }

    open spec fn from_spec(value: &'a str) -> PollMedia {
        vstd::pervasive::arbitrary()
    }
}

impl From<PollMedia> for PollAnswer {
    /// The same as [`PollAnswer::from_media`]
    fn from(value: PollMedia) -> (r: PollAnswer) {
        PollAnswer::from_media(value)
    }
}

impl vstd::std_specs::convert::FromSpecImpl<PollMedia> for PollAnswer {
    open spec fn obeys_from_spec() -> bool {
        true
    }

    open spec fn from_spec(value: PollMedia) -> PollAnswer {
        PollAnswer { answer_id: None, poll_media: value }
    }
}

impl<'a> From<&'a str> for PollAnswer {
    /// The same as [`PollAnswer::from_text`]
    fn from(value: &'a str) -> (r: PollAnswer)
        ensures
            r.answer_id is None,
            str_opt(r.poll_media.text, value@),
            r.poll_media.emoji is None,
    {
        PollAnswer::from_text(value)
    }
}

/// The answer holds a new `String` made from the text, so no spec function stands for the
/// conversion; `from` states its result itself.
impl<'a> vstd::std_specs::convert::FromSpecImpl<&'a str> for PollAnswer {
    open spec fn obeys_from_spec() -> bool {
        false
    }

    open spec fn from_spec(value: &'a str) -> PollAnswer {
        vstd::pervasive::arbitrary()
    }
}

} // verus!
