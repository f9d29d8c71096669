use ring::signature::{Ed25519KeyPair, KeyPair};
use slashook::internal_utils::cdn::pick_format;
use slashook::rest::{
    access_token, api_url, attachments_for_files, file_field_name, is_error_status, sync_auth, webhook_message_path,
    webhook_path, AccessTokenError, SyncAuth, SyncError,
};
use slashook::structs::json::JsonValue;
use slashook::structs::utils::File;
use slashook::webhook::{handler_status, needs_multipart, pong, verify_signature, SignatureHeaderError, SignatureHeaders};

fn keypair() -> Ed25519KeyPair {
    Ed25519KeyPair::from_seed_unchecked(&[7u8; 32]).unwrap()
}

#[test]
fn signature_accepts_signed_body() {
    let kp = keypair();
    let public_key = hex::encode(kp.public_key().as_ref());
    let body = br#"{"type":1}"#;
    let timestamp = b"1700000000";
    let mut message = timestamp.to_vec();
    message.extend_from_slice(body);
    let sig = hex::encode(kp.sign(&message).as_ref());
    let headers = SignatureHeaders::from_headers(Some(sig.as_bytes()), Some(timestamp)).unwrap();
    assert!(verify_signature(body, &headers, &public_key));
    assert!(verify_signature(body, &headers, &public_key.to_uppercase()));
}

#[test]
fn signature_refuses_tampering_and_bad_hex() {
    let kp = keypair();
    let public_key = hex::encode(kp.public_key().as_ref());
    let body = br#"{"type":1}"#;
    let timestamp = b"1700000000";
    let mut message = timestamp.to_vec();
    message.extend_from_slice(body);
    let sig = hex::encode(kp.sign(&message).as_ref());
    let headers = SignatureHeaders::from_headers(Some(sig.as_bytes()), Some(b"1700000001")).unwrap();
    assert!(!verify_signature(body, &headers, &public_key));
    let headers = SignatureHeaders::from_headers(Some(sig.as_bytes()), Some(timestamp)).unwrap();
    assert!(!verify_signature(br#"{"type":2}"#, &headers, &public_key));
    assert!(!verify_signature(body, &headers, "zz"));
    assert!(!verify_signature(body, &headers, &public_key[1..]));
    let odd = SignatureHeaders::from_headers(Some(&sig.as_bytes()[1..]), Some(timestamp)).unwrap();
    assert!(!verify_signature(body, &odd, &public_key));
}

#[test]
fn signature_headers_missing() {
    assert_eq!(SignatureHeaders::from_headers(None, Some(b"1")).unwrap_err(), SignatureHeaderError::MissingSignature);
    assert_eq!(SignatureHeaders::from_headers(Some(b"ab"), None).unwrap_err(), SignatureHeaderError::MissingTimestamp);
}

#[test]
fn pong_and_handler_status() {
    let p = pong();
    assert!(p.data.is_none());
    assert!(!needs_multipart(&p));
    assert_eq!(handler_status(true), 200);
    assert_eq!(handler_status(false), 500);
}

#[test]
fn rest_urls() {
    assert_eq!(api_url("users/@me"), "https://discord.com/api/v10/users/@me");
    assert_eq!(webhook_path("1", "tok"), "webhooks/1/tok");
    assert_eq!(webhook_message_path("1", "tok", "@original"), "webhooks/1/tok/messages/@original");
    assert_eq!(file_field_name(12), "files[12]");
    assert!(is_error_status(404) && is_error_status(500) && !is_error_status(204) && !is_error_status(600));
}

#[test]
fn attachments_follow_files() {
    let files = vec![
        File::new("a.txt", b"hello".to_vec()).set_description("first"),
        File::new("b.bin", vec![0, 1, 2]),
    ];
    let out = attachments_for_files(Vec::new(), &files);
    assert_eq!(out.len(), 2);
    assert_eq!(out[0].id, "0");
    assert_eq!(out[0].description, Some(String::from("first")));
    assert_eq!(out[1].id, "1");
    assert_eq!(out[1].description, None);
}

#[test]
fn access_token_from_grant() {
    let body = JsonValue::Object(vec![(String::from("access_token"), JsonValue::String(String::from("abc")))]);
    assert_eq!(access_token(&body).unwrap(), "Bearer abc");
    let body = JsonValue::Object(vec![(String::from("access_token"), JsonValue::Bool(true))]);
    assert_eq!(access_token(&body).unwrap_err(), AccessTokenError::NotAString);
    assert_eq!(access_token(&JsonValue::Null).unwrap_err(), AccessTokenError::MissingField);
}

#[test]
fn sync_auth_choices() {
    assert!(matches!(sync_auth(None, None, Some(String::from("t"))), Err(SyncError::MissingClientId)));
    assert!(matches!(sync_auth(Some(String::from("1")), None, None), Err(SyncError::MissingCredentials)));
    assert!(matches!(sync_auth(Some(String::from("1")), Some(String::from("s")), Some(String::from("t"))), Ok(SyncAuth::BotToken(_))));
    assert!(matches!(sync_auth(Some(String::from("1")), Some(String::from("s")), None), Ok(SyncAuth::ClientCredentials { .. })));
}

#[test]
fn pick_format_animated() {
    assert_eq!(pick_format("a_123", String::from("png"), Some(String::from("gif"))), (String::from("gif"), true));
    assert_eq!(pick_format("123", String::from("png"), Some(String::from("gif"))), (String::from("png"), false));
    assert_eq!(pick_format("a_123", String::from("png"), None), (String::from("png"), false));
}

#[test]
fn file_data_url() {
    let png = vec![0x89, b'P', b'N', b'G', 0x0D, 0x0A, 0x1A, 0x0A, 0, 0];
    let f = File::new("x.png", png);
    assert!(f.to_data_url().starts_with("data:image/png;base64,iVBORw0KGgo"));
    let f = File::new("x", b"hi".to_vec());
    assert_eq!(f.to_data_url(), "data:application/octet-stream;base64,aGk=");
}
