//! The rules of requests to Discord's API: urls, authorization and uploaded files

use vstd::prelude::*;
use crate::keyed::lookup;
use crate::structs::json::JsonValue;
use crate::structs::messages::Attachment;
use crate::structs::utils::File;
use crate::text::{dec_digits, has_prefix, push_str, starts_with, string_of, u64_to_string};

pub mod routes;

verus! {

/// The base url of Discord's API
pub const API_URL: &'static str = "https://discord.com/api/v10";

/// The url of a path of Discord's API.
pub open spec fn api_url_text(path: Seq<char>) -> Seq<char> {
    API_URL@ + "/"@ + path
}

/// The url of a path of Discord's API
pub fn api_url(path: &str) -> (r: String)
    ensures
        r@ == api_url_text(path@),
{
    let mut s = string_of(API_URL);
    push_str(&mut s, "/");
    push_str(&mut s, path);
    s
}

/// The value of the `Authorization` header for a token: a token that does not already start
/// with `Bot` or `Bearer` is taken for a bot token and gets the prefix `Bot `.
pub open spec fn authorization_text(token: Seq<char>) -> Seq<char> {
    if has_prefix(token, "Bot"@) || has_prefix(token, "Bearer"@) { token } else { "Bot "@ + token }
}

/// The value of the `Authorization` header for a token
pub fn authorization_value(token: String) -> (r: String)
    ensures
        r@ == authorization_text(token@),
{
    if starts_with(token.as_str(), "Bot") || starts_with(token.as_str(), "Bearer") {
        token
    } else {
        let mut s = string_of("Bot ");
        push_str(&mut s, token.as_str());
        s
    }
}

/// The `Authorization` value of a token is left as it is when made again: a value that already
/// carries its `Bot ` or `Bearer` prefix gets no second one.
pub proof fn law_authorization_idempotent(token: Seq<char>)
    ensures
        authorization_text(authorization_text(token)) == authorization_text(token),
{
    if !(has_prefix(token, "Bot"@) || has_prefix(token, "Bearer"@)) {
        let t2 = "Bot "@ + token;
        reveal_strlit("Bot ");
        reveal_strlit("Bot");
        assert(t2.subrange(0, 3) =~= "Bot"@);
    }
}

/// Whether a response status is a failure: a client error (`4xx`) or a server error (`5xx`)
pub fn is_error_status(status: u16) -> (r: bool)
    ensures
        r == (400 <= status && status <= 599),
{
    400 <= status && status <= 599
}

/// The path of an interaction's webhook: `webhooks/{application id}/{token}`.
pub open spec fn webhook_path_text(id: Seq<char>, token: Seq<char>) -> Seq<char> {
    "webhooks/"@ + id + "/"@ + token
}

/// The path of an interaction's webhook
pub fn webhook_path(id: &str, token: &str) -> (r: String)
    ensures
        r@ == webhook_path_text(id@, token@),
{
    let mut s = string_of("webhooks/");
    push_str(&mut s, id);
    push_str(&mut s, "/");
    push_str(&mut s, token);
    s
}

/// The path of a message sent through an interaction's webhook; `@original` names the first response
pub fn webhook_message_path(id: &str, token: &str, message_id: &str) -> (r: String)
    ensures
        r@ == webhook_path_text(id@, token@) + "/messages/"@ + message_id@,
{
    let mut s = webhook_path(id, token);
    push_str(&mut s, "/messages/");
    push_str(&mut s, message_id);
    s
}

/// The name of the multipart field that carries the `i`th file: `files[i]`.
pub open spec fn file_field_text(i: nat) -> Seq<char> {
    "files["@ + dec_digits(i) + "]"@
}

/// The name of the multipart field that carries the `i`th file
pub fn file_field_name(i: u64) -> (r: String)
    ensures
        r@ == file_field_text(i as nat),
{
    let mut s = string_of("files[");
    let digits = u64_to_string(i);
    push_str(&mut s, digits.as_str());
    push_str(&mut s, "]");
    s
}

/// Whether `a` is the attachment that stands for the file `f` uploaded under the id `id`.
pub open spec fn attachment_of_file(a: Attachment, id: Seq<char>, f: File) -> bool {
    &&& a.id@ == id
    &&& a.filename@.len() == 0
    &&& a.description == f.description
    &&& a.content_type is None
    &&& a.size == 0
    &&& a.url@.len() == 0
    &&& a.proxy_url@.len() == 0
    &&& a.height is None
    &&& a.width is None
    &&& a.ephemeral is None
    &&& a.duration_secs == f.duration_secs
    &&& a.waveform == f.waveform
    &&& a.flags is None
}

/// The attachments of a request that uploads `files`: those it had, then one per file, whose id is
/// the file's position among the files (as `Rest::post_files` and `Rest::patch_files` send them).
pub fn attachments_for_files(existing: Vec<Attachment>, files: &Vec<File>) -> (r: Vec<Attachment>)
    requires
        existing@.len() + files@.len() <= usize::MAX,
    ensures
        r@.len() == existing@.len() + files@.len(),
        r@.take(existing@.len() as int) == existing@,
        forall|i: int| 0 <= i < files@.len() ==>
            attachment_of_file(#[trigger] r@[existing@.len() + i], dec_digits(i as nat), files@[i]),
{
    let mut out = existing;
    let ghost n = out@.len();
    let mut i: usize = 0;
    while i < files.len()
        invariant
            i <= files@.len(),
            n == existing@.len(),
            out@.len() == n + i,
            out@.take(n as int) == existing@,
            forall|k: int| 0 <= k < i ==> attachment_of_file(#[trigger] out@[n + k], dec_digits(k as nat), files@[k]),
        decreases files@.len() - i,
    {
        let id = u64_to_string(i as u64);
        let a = Attachment::from_file(id, &files[i]);
        out.push(a);
        proof { assert(out@.take(n as int) =~= out@.drop_last().take(n as int)); }
        i = i + 1;
    }
    out
}

/// Why an access token could not be read from the answer to a client credentials grant
#[derive(Clone, Copy, Debug, PartialEq, Eq, Structural)]
pub enum AccessTokenError {
    /// The answer has no field `access_token`
    MissingField,
    /// The field `access_token` is not a string
    NotAString,
}

/// The token to authorize requests with, read from the answer to a client credentials grant:
/// `Bearer ` and the answer's `access_token`
pub fn access_token(body: &JsonValue) -> (r: Result<String, AccessTokenError>)
    ensures
        match *body {
            JsonValue::Object(members) => match lookup(members@, "access_token"@) {
                None => r == Err::<String, AccessTokenError>(AccessTokenError::MissingField),
                Some(JsonValue::String(t)) => r matches Ok(s) && s@ == "Bearer "@ + t@,
                Some(_) => r == Err::<String, AccessTokenError>(AccessTokenError::NotAString),
            },
            _ => r == Err::<String, AccessTokenError>(AccessTokenError::MissingField),
        },
{
    let value = match body.get("access_token") {
        Some(v) => v,
        None => { return Err(AccessTokenError::MissingField); },
    };
    let token = match value.as_str() {
        Some(t) => t,
        None => { return Err(AccessTokenError::NotAString); },
    };
    let mut s = string_of("Bearer ");
    push_str(&mut s, token.as_str());
    Ok(s)
}

/// How commands are synced: with the bot's token, or with a token from a client credentials grant
#[derive(Clone, Debug)]
pub enum SyncAuth {
    /// Authorize with the bot's token
    BotToken(String),
    /// Get a token with the application's client id and secret
    ClientCredentials {
        /// The application's client id
        client_id: String,
        /// The application's client secret
        client_secret: String,
    },
}

/// Why commands cannot be synced
#[derive(Clone, Copy, Debug, PartialEq, Eq, Structural)]
pub enum SyncError {
    /// A client_id is required in the config to sync commands
    MissingClientId,
    /// A client_secret or bot_token is required in the config to sync commands
    MissingCredentials,
}

/// Decides how commands are synced: a client id is required; the bot token is used when there is
/// one, and a client credentials grant otherwise, which needs the client secret
pub fn sync_auth(client_id: Option<String>, client_secret: Option<String>, bot_token: Option<String>) -> (r: Result<SyncAuth, SyncError>)
    ensures
        match client_id {
            None => r == Err::<SyncAuth, SyncError>(SyncError::MissingClientId),
            Some(id) => match bot_token {
                Some(t) => r == Ok::<SyncAuth, SyncError>(SyncAuth::BotToken(t)),
                None => match client_secret {
                    None => r == Err::<SyncAuth, SyncError>(SyncError::MissingCredentials),
                    Some(s) => r == Ok::<SyncAuth, SyncError>(SyncAuth::ClientCredentials { client_id: id, client_secret: s }),
                },
            },
        },
{
    let client_id = match client_id {
        Some(id) => id,
        None => { return Err(SyncError::MissingClientId); },
    };
    match bot_token {
        Some(t) => Ok(SyncAuth::BotToken(t)),
        None => match client_secret {
            None => Err(SyncError::MissingCredentials),
            Some(s) => Ok(SyncAuth::ClientCredentials { client_id, client_secret: s }),
        },
    }
}

} // verus!
