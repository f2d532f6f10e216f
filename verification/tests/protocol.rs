//! End-to-end tests of the webhook protocol handlers, run with the real
//! query-string and JSON decoders linked in.

use activity_webhook::encode::escape_json;
use activity_webhook::endpoint::{handle_verification, webhook_endpoint, Method};
use activity_webhook::event::handle_body;
use activity_webhook::webhook::{verify, Route, WebhookVerification};

#[test]
fn handshake_accepts_correct_secret() {
    let r = handle_verification(
        "hub.mode=subscribe&hub.verify_token=S3CR3T&hub.challenge=abc123",
        &"S3CR3T".to_string(),
    );
    assert_eq!(r.status, 200);
    assert_eq!(r.body, "{\"hub.challenge\":\"abc123\"}");
}

#[test]
fn handshake_rejects_wrong_token() {
    let secret = "S3CR3T".to_string();
    let r = handle_verification(
        "hub.mode=subscribe&hub.verify_token=WRONG&hub.challenge=abc123",
        &secret,
    );
    assert_eq!(r.status, 403);
    assert_eq!(r.body, "Verification failed");
    assert!(!r.body.contains(&secret));
}

#[test]
fn handshake_rejects_wrong_mode() {
    let r = handle_verification(
        "hub.mode=unsubscribe&hub.verify_token=S3CR3T&hub.challenge=abc123",
        &"S3CR3T".to_string(),
    );
    assert_eq!(r.status, 403);
}

#[test]
fn handshake_rejects_missing_challenge() {
    let r = handle_verification(
        "hub.mode=subscribe&hub.verify_token=S3CR3T",
        &"S3CR3T".to_string(),
    );
    assert_eq!(r.status, 403);
}

#[test]
fn handshake_rejects_empty_token_against_configured_secret() {
    let r = handle_verification(
        "hub.mode=subscribe&hub.verify_token=&hub.challenge=x",
        &"S3CR3T".to_string(),
    );
    assert_eq!(r.status, 403);
    assert_eq!(r.body, "Verification failed");
}

#[test]
fn handshake_accepts_empty_token_when_secret_is_empty() {
    let r = handle_verification(
        "hub.mode=subscribe&hub.verify_token=&hub.challenge=x",
        &String::new(),
    );
    assert_eq!(r.status, 200);
    assert_eq!(r.body, "{\"hub.challenge\":\"x\"}");
}

#[test]
fn handshake_rejects_garbage_query() {
    let r = handle_verification("%zz=%%%", &"S3CR3T".to_string());
    assert_eq!(r.status, 403);
}

#[test]
fn handshake_decodes_percent_escapes_in_challenge() {
    // The decoder must really resolve escapes, and the encoder must
    // re-escape the quote for JSON.
    let r = handle_verification(
        "hub.mode=subscribe&hub.verify_token=S3CR3T&hub.challenge=a%22b%5Cc",
        &"S3CR3T".to_string(),
    );
    assert_eq!(r.status, 200);
    assert_eq!(r.body, "{\"hub.challenge\":\"a\\\"b\\\\c\"}");
}

#[test]
fn handshake_echoes_unicode_challenge() {
    let r = handle_verification(
        "hub.mode=subscribe&hub.verify_token=S3CR3T&hub.challenge=caf%C3%A9+%E2%82%AC",
        &"S3CR3T".to_string(),
    );
    assert_eq!(r.status, 200);
    assert_eq!(r.body, "{\"hub.challenge\":\"café €\"}");
}

#[test]
fn handshake_escapes_control_characters() {
    // %09 is a tab, %1F the highest control character.
    let r = handle_verification(
        "hub.mode=subscribe&hub.verify_token=S3CR3T&hub.challenge=a%09b%1Fc",
        &"S3CR3T".to_string(),
    );
    assert_eq!(r.status, 200);
    assert_eq!(r.body, "{\"hub.challenge\":\"a\\u0009b\\u001fc\"}");
}

#[test]
fn handshake_echoes_empty_challenge() {
    let r = handle_verification(
        "hub.mode=subscribe&hub.verify_token=S3CR3T&hub.challenge=",
        &"S3CR3T".to_string(),
    );
    assert_eq!(r.status, 200);
    assert_eq!(r.body, "{\"hub.challenge\":\"\"}");
}

#[test]
fn verify_echoes_challenge_verbatim() {
    let p = WebhookVerification {
        mode: Some("subscribe".to_string()),
        challenge: Some("weird \"\\\u{1}\u{20AC} challenge".to_string()),
        verify_token: Some("tok".to_string()),
    };
    let r = verify(p, &"tok".to_string()).unwrap();
    assert_eq!(r.challenge, "weird \"\\\u{1}\u{20AC} challenge");
}

#[test]
fn event_create_routes_to_upsert() {
    let body = "{\"object_type\":\"activity\",\"object_id\":987,\"aspect_type\":\"create\",\
                \"owner_id\":42,\"subscription_id\":1,\"event_time\":1700000000}";
    let (r, route) = handle_body(body);
    assert_eq!(r.status, 200);
    assert_eq!(r.body, "OK");
    assert_eq!(route, Route::Upsert { object_id: 987, owner_id: 42 });
}

#[test]
fn event_update_routes_to_upsert() {
    let body = "{\"object_type\":\"activity\",\"object_id\":5,\"aspect_type\":\"update\",\
                \"owner_id\":7,\"subscription_id\":1,\"event_time\":1,\
                \"updates\":{\"title\":\"new\"}}";
    let (r, route) = handle_body(body);
    assert_eq!(r.status, 200);
    assert_eq!(route, Route::Upsert { object_id: 5, owner_id: 7 });
}

#[test]
fn event_delete_routes_to_delete() {
    let body = "{\"object_type\":\"activity\",\"object_id\":5,\"aspect_type\":\"delete\",\
                \"owner_id\":7,\"subscription_id\":1,\"event_time\":1}";
    let (r, route) = handle_body(body);
    assert_eq!(r.status, 200);
    assert_eq!(route, Route::Delete { object_id: 5 });
}

#[test]
fn event_non_activity_is_acknowledged_and_ignored() {
    let body = "{\"object_type\":\"athlete\",\"object_id\":5,\"aspect_type\":\"create\",\
                \"owner_id\":7,\"subscription_id\":1,\"event_time\":1}";
    let (r, route) = handle_body(body);
    assert_eq!(r.status, 200);
    assert_eq!(r.body, "OK");
    assert_eq!(route, Route::Ignored);
}

#[test]
fn event_unknown_aspect_is_acknowledged_and_ignored() {
    let body = "{\"object_type\":\"activity\",\"object_id\":5,\"aspect_type\":\"rename\",\
                \"owner_id\":7,\"subscription_id\":1,\"event_time\":1}";
    let (r, route) = handle_body(body);
    assert_eq!(r.status, 200);
    assert_eq!(route, Route::Ignored);
}

#[test]
fn event_body_not_json_is_refused() {
    let (r, route) = handle_body("not json");
    assert_eq!(r.status, 400);
    assert_eq!(r.body, "Invalid JSON");
    assert_eq!(route, Route::Ignored);
}

#[test]
fn event_body_missing_required_fields_is_refused() {
    let complete = "{\"object_type\":\"activity\",\"object_id\":987,\"aspect_type\":\"create\",\
                    \"owner_id\":42,\"subscription_id\":1,\"event_time\":1700000000}";
    assert_eq!(handle_body(complete).0.status, 200);
    let missing_each = [
        "{\"object_id\":987,\"aspect_type\":\"create\",\"owner_id\":42,\"subscription_id\":1,\"event_time\":1}",
        "{\"object_type\":\"activity\",\"aspect_type\":\"create\",\"owner_id\":42,\"subscription_id\":1,\"event_time\":1}",
        "{\"object_type\":\"activity\",\"object_id\":987,\"owner_id\":42,\"subscription_id\":1,\"event_time\":1}",
        "{\"object_type\":\"activity\",\"object_id\":987,\"aspect_type\":\"create\",\"subscription_id\":1,\"event_time\":1}",
        "{\"object_type\":\"activity\",\"object_id\":987,\"aspect_type\":\"create\",\"owner_id\":42,\"event_time\":1}",
        "{\"object_type\":\"activity\",\"object_id\":987,\"aspect_type\":\"create\",\"owner_id\":42,\"subscription_id\":1}",
    ];
    for body in missing_each {
        let (r, route) = handle_body(body);
        assert_eq!(r.status, 400);
        assert_eq!(r.body, "Invalid JSON");
        assert_eq!(route, Route::Ignored);
    }
}

#[test]
fn handshake_takes_first_occurrence_of_a_repeated_key() {
    let r = handle_verification(
        "hub.mode=subscribe&hub.mode=bogus&hub.verify_token=S3CR3T&hub.challenge=abc123",
        &"S3CR3T".to_string(),
    );
    assert_eq!(r.status, 200);
    assert_eq!(r.body, "{\"hub.challenge\":\"abc123\"}");
}

#[test]
fn escape_json_handles_edge_cases() {
    assert_eq!(escape_json(""), "");
    assert_eq!(escape_json("plain"), "plain");
    assert_eq!(escape_json("a\"b\\c"), "a\\\"b\\\\c");
    assert_eq!(escape_json("\u{0}\u{1f}"), "\\u0000\\u001f");
    assert_eq!(escape_json("héllo €"), "héllo €");
}

#[test]
fn endpoint_dispatches_by_method() {
    let secret = "S3CR3T".to_string();
    let (r, route) = webhook_endpoint(
        Method::Get,
        "hub.mode=subscribe&hub.verify_token=S3CR3T&hub.challenge=abc123",
        "",
        &secret,
    );
    assert_eq!(r.status, 200);
    assert_eq!(r.body, "{\"hub.challenge\":\"abc123\"}");
    assert_eq!(route, Route::Ignored);

    let (r, route) = webhook_endpoint(Method::Post, "", "not json", &secret);
    assert_eq!(r.status, 400);
    assert_eq!(route, Route::Ignored);

    let (r, route) = webhook_endpoint(Method::Other, "", "", &secret);
    assert_eq!(r.status, 405);
    assert_eq!(r.body, "");
    assert_eq!(route, Route::Ignored);
}
