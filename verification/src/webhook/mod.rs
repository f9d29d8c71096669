//! Checking the requests that Discord sends to the webhook, and what they are answered

use vstd::prelude::*;
use vstd::string::StringSliceAdditionalSpecFns;
use crate::rest::{attachment_of_file, file_field_text};
use crate::structs::interactions::{InteractionCallback, InteractionCallbackType, InteractionType};
use crate::structs::messages::Attachment;
use crate::structs::utils::File;
use crate::text::{dec_digits, u64_to_string};

pub mod signature_headers;

pub use signature_headers::{SignatureHeaders, SignatureHeaderError};

verus! {

#[verifier::external_type_specification]
#[verifier::external_body]
pub struct ExFromHexError(hex::FromHexError);

/// The value of a hex digit, upper or lower case.
pub open spec fn hex_nibble(c: u8) -> Option<u8> {
    if 48 <= c <= 57 {
        Some((c - 48) as u8)
    } else if 97 <= c <= 102 {
        Some((c - 87) as u8)
    } else if 65 <= c <= 70 {
        Some((c - 55) as u8)
    } else {
        None
    }
}

/// The bytes that hex text stands for: two digits per byte, the high one first; `None` for
/// text of odd length or with a character that is no hex digit.
pub open spec fn hex_decoded(s: Seq<u8>) -> Option<Seq<u8>> {
    if s.len() % 2 == 0 && forall|i: int| 0 <= i < s.len() ==> #[trigger] hex_nibble(s[i]) is Some {
        Some(Seq::new((s.len() / 2) as nat, |i: int| (hex_nibble(s[2 * i])->Some_0 * 16 + hex_nibble(s[2 * i + 1])->Some_0) as u8))
    } else {
        None
    }
}

/// Decodes hex text into bytes.
/// Wraps `hex::decode`, which reads two hex digits (either case) per byte and fails on text of odd
/// length or with a character that is no hex digit; this contract states exactly that.
#[verifier::external_body]
fn hex_decode(data: &[u8]) -> (r: Result<Vec<u8>, hex::FromHexError>)
    ensures
        match hex_decoded(data@) {
            Some(b) => r matches Ok(v) && v@ == b,
            None => r is Err,
        },
{
    hex::decode(data)
}

/// Whether Ed25519 verification accepts `signature` as the signature of `message` by the holder of `public_key`.
pub uninterp spec fn ed25519_accepts(public_key: Seq<u8>, message: Seq<u8>, signature: Seq<u8>) -> bool;

/// Verifies an Ed25519 signature.
/// Wraps `ring::signature::UnparsedPublicKey::new(&ring::signature::ED25519, public_key).verify(message, signature)`.
/// The outcome is named [`ed25519_accepts`] of the three byte strings; of it the contract claims
/// only what ring's source shows directly: a key that is not 32 bytes long, or a signature that
/// is not 64 bytes long, is never accepted. The curve arithmetic itself is not stated.
#[verifier::external_body]
fn ed25519_verify(public_key: &[u8], message: &[u8], signature: &[u8]) -> (r: bool)
    ensures
        r == ed25519_accepts(public_key@, message@, signature@),
        r ==> public_key@.len() == 32 && signature@.len() == 64,
{
    ring::signature::UnparsedPublicKey::new(&ring::signature::ED25519, public_key).verify(message, signature).is_ok()
}

/// Whether a request's signature is valid: the public key and the signature header are hex text,
/// and Ed25519 accepts the decoded signature of the timestamp header followed by the body.
pub open spec fn signature_valid(body: Seq<u8>, signature: Seq<u8>, timestamp: Seq<u8>, public_key: Seq<u8>) -> bool {
    match hex_decoded(public_key) {
        None => false,
        Some(pk) => match hex_decoded(signature) {
            None => false,
            Some(sig) => ed25519_accepts(pk, timestamp + body, sig),
        },
    }
}

/// Whether a request's signature is valid for the application's public key
pub fn verify_signature(body: &[u8], headers: &SignatureHeaders, public_key: &str) -> (r: bool)
    ensures
        r == signature_valid(body@, headers.signature@, headers.timestamp@, public_key.spec_bytes()),
{
    let decoding_pubkey = hex_decode(public_key.as_bytes());
    let decoding_signature = hex_decode(headers.signature.as_slice());
    let (pk, sig) = match (decoding_pubkey, decoding_signature) {
        (Ok(pk), Ok(sig)) => (pk, sig),
        _ => { return false; },
    };
    let mut message: Vec<u8> = headers.timestamp.clone();
    let mut i: usize = 0;
    while i < body.len()
        invariant
            i <= body@.len(),
            message@ == headers.timestamp@ + body@.take(i as int),
        decreases body@.len() - i,
    {
        message.push(body[i]);
        proof { assert(body@.take(i + 1) =~= body@.take(i as int).push(body@[i as int])); }
        i = i + 1;
    }
    proof { assert(body@.take(i as int) =~= body@); }
    ed25519_verify(pk.as_slice(), message.as_slice(), sig.as_slice())
}

/// How the webhook answers a request, before any command runs
#[derive(Clone, Copy, Debug, PartialEq, Eq, Structural)]
pub enum WebhookReply {
    /// The signature is not valid: `401`, with the error "Bad signature"
    BadSignature,
    /// The body is not an interaction: `400`, with the error "Bad body"
    BadBody,
    /// A ping, answered with a pong: `200`
    Pong,
    /// An interaction of a type that is not known: `404`, with the error "Unknown interaction type"
    UnknownType,
    /// Any other interaction is handed to the command handler
    Dispatch,
}

impl WebhookReply {
    /// The HTTP status of the answer; that of an interaction handed to the handler comes from [`handler_status`]
    pub fn status(&self) -> (r: u16)
        ensures
            r == match *self {
                WebhookReply::BadSignature => 401u16,
                WebhookReply::BadBody => 400u16,
                WebhookReply::Pong => 200u16,
                WebhookReply::UnknownType => 404u16,
                WebhookReply::Dispatch => 200u16,
            },
    {
        match self {
            WebhookReply::BadSignature => 401,
            WebhookReply::BadBody => 400,
            WebhookReply::Pong => 200,
            WebhookReply::UnknownType => 404,
            WebhookReply::Dispatch => 200,
        }
    }

    /// The text of the `error` field of the answer, for the answers that are errors
    pub fn error_text(&self) -> (r: Option<&'static str>)
        ensures
            match *self {
                WebhookReply::BadSignature => r matches Some(t) && t@ == "Bad signature"@,
                WebhookReply::BadBody => r matches Some(t) && t@ == "Bad body"@,
                WebhookReply::UnknownType => r matches Some(t) && t@ == "Unknown interaction type"@,
                _ => r is None,
            },
    {
        match self {
            WebhookReply::BadSignature => Some("Bad signature"),
            WebhookReply::BadBody => Some("Bad body"),
            WebhookReply::UnknownType => Some("Unknown interaction type"),
            _ => None,
        }
    }
}

/// How a request is answered: a bad signature first, then a body that is not an interaction
/// (`interaction_type` is `None`), then by the interaction's type.
pub open spec fn reply_of(signature_ok: bool, interaction_type: Option<InteractionType>) -> WebhookReply {
    if !signature_ok {
        WebhookReply::BadSignature
    } else {
        match interaction_type {
            None => WebhookReply::BadBody,
            Some(InteractionType::PING) => WebhookReply::Pong,
            Some(InteractionType::UNKNOWN) => WebhookReply::UnknownType,
            Some(_) => WebhookReply::Dispatch,
        }
    }
}

/// A request whose signature is not valid is refused as unauthorized, whatever its body holds;
/// a request with a valid signature is only ever handed on when its body is an interaction of a
/// known type other than a ping.
pub proof fn law_signature_first(interaction_type: Option<InteractionType>)
    ensures
        reply_of(false, interaction_type) == WebhookReply::BadSignature,
        reply_of(true, interaction_type) == WebhookReply::Dispatch <==> (interaction_type matches Some(t)
            && t != InteractionType::PING && t != InteractionType::UNKNOWN),
{
}

/// Decides how a request is answered, from whether its signature is valid and the type of the
/// interaction its body holds (`None` where the body is not an interaction)
pub fn reply_for(signature_ok: bool, interaction_type: Option<InteractionType>) -> (r: WebhookReply)
    ensures
        r == reply_of(signature_ok, interaction_type),
{
    if !signature_ok {
        return WebhookReply::BadSignature;
    }
    match interaction_type {
        None => WebhookReply::BadBody,
        Some(InteractionType::PING) => WebhookReply::Pong,
        Some(InteractionType::UNKNOWN) => WebhookReply::UnknownType,
        Some(_) => WebhookReply::Dispatch,
    }
}

/// The answer to a ping
pub fn pong() -> (r: InteractionCallback)
    ensures
        r.response_type == InteractionCallbackType::PONG,
        r.data is None,
{
    InteractionCallback { response_type: InteractionCallbackType::PONG, data: None }
}

/// The HTTP status of the answer to an interaction handed to the handler: `200` when the handler
/// answered, `500` (with the error "Handler failed") when it failed
pub fn handler_status(handled: bool) -> (r: u16)
    ensures
        r == (if handled { 200u16 } else { 500u16 }),
{
    if handled { 200 } else { 500 }
}

/// Whether the answer carries files, and so goes out as a multipart body rather than as JSON
pub fn needs_multipart(callback: &InteractionCallback) -> (r: bool)
    ensures
        r == (callback.data matches Some(d) && d.files is Some),
{
    match &callback.data {
        Some(d) => d.files.is_some(),
        None => false,
    }
}

/// Whether `out` is `existing` followed, for each of `files` that has a description, by the
/// attachment that stands for it under its position among the files: what the answer to an
/// interaction that carries files declares of them.
pub open spec fn described_attachments(existing: Seq<Attachment>, files: Seq<File>, out: Seq<Attachment>) -> bool
    decreases files.len(),
{
    if files.len() == 0 {
        out == existing
    } else {
        let i = (files.len() - 1) as int;
        let f = files[i];
        if f.description is Some {
            out.len() > 0 && attachment_of_file(out.last(), dec_digits(i as nat), f)
                && described_attachments(existing, files.drop_last(), out.drop_last())
        } else {
            described_attachments(existing, files.drop_last(), out)
        }
    }
}

/// The attachments of an answer that carries `files`: those it had, then one for each file
/// that has a description, under the file's position among the files
pub fn attachments_for_described_files(existing: Vec<Attachment>, files: &Vec<File>) -> (r: Vec<Attachment>)
    requires
        existing@.len() + files@.len() <= usize::MAX,
    ensures
        described_attachments(existing@, files@, r@),
        r@.len() == existing@.len() + described_count(files@),
        r@.take(existing@.len() as int) == existing@,
        forall|k: int| #![trigger r@[k]] existing@.len() <= k < r@.len() ==> exists|i: int|
            0 <= i < files@.len() && files@[i].description is Some
            && #[trigger] described_count(files@.take(i)) == k - existing@.len()
            && r@[k].id@ == dec_digits(i as nat)
            && file_field_text(i as nat) == "files["@ + r@[k].id@ + "]"@
            && r@[k].description == files@[i].description,
{
    let ghost e = existing@;
    let mut out = existing;
    let mut i: usize = 0;
    while i < files.len()
        invariant
            i <= files@.len(),
            out@.len() <= e.len() + i,
            described_attachments(e, files@.take(i as int), out@),
        decreases files@.len() - i,
    {
        proof { assert(files@.take(i + 1).drop_last() =~= files@.take(i as int)); }
        if files[i].description.is_some() {
            let id = u64_to_string(i as u64);
            let a = Attachment::from_file(id, &files[i]);
            let ghost before = out@;
            out.push(a);
            proof { assert(out@.drop_last() =~= before); }
        }
        i = i + 1;
    }
    proof {
        assert(files@.take(i as int) =~= files@);
        law_described_attachment_ids(e, files@, out@);
    }
    out
}


/// How many of `files` have a description.
pub open spec fn described_count(files: Seq<File>) -> nat
    decreases files.len(),
{
    if files.len() == 0 {
        0
    } else {
        described_count(files.drop_last()) + if files.last().description is Some { 1nat } else { 0nat }
    }
}

/// The attachments that an answer carrying files declares: those it had, unchanged and first,
/// then exactly one per file that has a description, in the files' order. The `j`th of them is
/// for the file that has `j` described files before it: its id is that file's position `i`
/// among the files (the `i` of the multipart field `files[i]` the file is sent in), and it
/// carries that file's description.
pub proof fn law_described_attachment_ids(existing: Seq<Attachment>, files: Seq<File>, out: Seq<Attachment>)
    requires
        described_attachments(existing, files, out),
    ensures
        out.len() == existing.len() + described_count(files),
        out.take(existing.len() as int) == existing,
        forall|k: int| #![trigger out[k]] existing.len() <= k < out.len() ==> exists|i: int|
            0 <= i < files.len() && files[i].description is Some
            && #[trigger] described_count(files.take(i)) == k - existing.len()
            && out[k].id@ == dec_digits(i as nat)
            && file_field_text(i as nat) == "files["@ + out[k].id@ + "]"@
            && out[k].description == files[i].description,
    decreases files.len(),
{
    if files.len() == 0 {
        assert(out.take(existing.len() as int) =~= existing);
    } else {
        let n = files.len() as int;
        let fs = files.drop_last();
        assert(files.take(n - 1) =~= fs);
        if files[n - 1].description is Some {
            let prev = out.drop_last();
            law_described_attachment_ids(existing, fs, prev);
            assert(out.take(existing.len() as int) =~= prev.take(existing.len() as int));
            assert forall|k: int| #![trigger out[k]] existing.len() <= k < out.len() implies exists|i: int|
                0 <= i < files.len() && files[i].description is Some
                && #[trigger] described_count(files.take(i)) == k - existing.len()
                && out[k].id@ == dec_digits(i as nat)
                && file_field_text(i as nat) == "files["@ + out[k].id@ + "]"@
                && out[k].description == files[i].description by {
                if k == out.len() - 1 {
                    assert(described_count(files.take(n - 1)) == k - existing.len());
                } else {
                    let i = choose|i: int|
                        0 <= i < fs.len() && fs[i].description is Some
                        && #[trigger] described_count(fs.take(i)) == k - existing.len()
                        && prev[k].id@ == dec_digits(i as nat)
                        && file_field_text(i as nat) == "files["@ + prev[k].id@ + "]"@
                        && prev[k].description == fs[i].description;
                    assert(files.take(i) =~= fs.take(i));
                    assert(prev[k] == out[k]);
                    assert(files[i] == fs[i]);
                }
            }
        } else {
            law_described_attachment_ids(existing, fs, out);
            assert forall|k: int| #![trigger out[k]] existing.len() <= k < out.len() implies exists|i: int|
                0 <= i < files.len() && files[i].description is Some
                && #[trigger] described_count(files.take(i)) == k - existing.len()
                && out[k].id@ == dec_digits(i as nat)
                && file_field_text(i as nat) == "files["@ + out[k].id@ + "]"@
                && out[k].description == files[i].description by {
                let i = choose|i: int|
                    0 <= i < fs.len() && fs[i].description is Some
                    && #[trigger] described_count(fs.take(i)) == k - existing.len()
                    && out[k].id@ == dec_digits(i as nat)
                    && file_field_text(i as nat) == "files["@ + out[k].id@ + "]"@
                    && out[k].description == fs[i].description;
                assert(files.take(i) =~= fs.take(i));
                assert(files[i] == fs[i]);
            }
        }
    }
}

} // verus!
