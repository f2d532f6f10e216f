//! The webhook endpoint as one decision: from method, query string and
//! body to the response and the routing decision.

use vstd::prelude::*;
use crate::encode::{ack_body, encode_verification_response};
use crate::event::{event_of, handle_body};
use crate::query::{param_of, parse_verification};
use crate::response::HttpResponse;
use crate::webhook::{route_of, verify, Route};

verus! {

/// The request methods the endpoint distinguishes.
#[derive(Clone, Copy, Debug, PartialEq, Eq, Structural)]
pub enum Method {
    Get,
    Post,
    Other,
}

/// When the raw query string carries a passing handshake: mode
/// `subscribe`, the configured secret as token, and some challenge.
pub open spec fn query_verification_ok(q: Seq<char>, secret: Seq<char>) -> bool {
    &&& param_of(q, "hub.mode"@) == Some("subscribe"@)
    &&& param_of(q, "hub.verify_token"@) == Some(secret)
    &&& param_of(q, "hub.challenge"@) is Some
}

/// The challenge carried by the query string, empty when absent.
pub open spec fn challenge_of(q: Seq<char>) -> Seq<char> {
    match param_of(q, "hub.challenge"@) {
        Some(c) => c,
        None => Seq::empty(),
    }
}

/// The route a POSTed body leads to; a body that does not decode leads
/// nowhere.
pub open spec fn route_of_body(b: Seq<char>) -> Route {
    match event_of(b) {
        Some(m) => route_of(m),
        None => Route::Ignored,
    }
}

/// Whether `needle` occurs contiguously inside `hay`.
pub open spec fn contains_sub(hay: Seq<char>, needle: Seq<char>) -> bool {
    exists|i: int|
        0 <= i && i + needle.len() <= hay.len() && #[trigger] hay.subrange(i, i + needle.len())
            == needle
}

/// A refusal discloses nothing: the body a failed handshake answers with
/// is the fixed text `Verification failed`, whatever the request and the
/// configured secret were, so — unless the secret itself happens to spell
/// a piece of that fixed text — the body does not contain the secret.
pub proof fn lemma_refusal_hides_secret(body: Seq<char>, secret: Seq<char>)
    requires
        body == "Verification failed"@,
        !contains_sub("Verification failed"@, secret),
    ensures
        !contains_sub(body, secret),
{
}

/// Answer the handshake for a raw query string: 200 with the echoed
/// challenge when the query passes, a fixed 403 answer otherwise.  The
/// refusal discloses nothing about which part failed.
pub fn handle_verification(query: &str, secret: &String) -> (r: HttpResponse)
    ensures
        query_verification_ok(query@, secret@) ==> r.status == 200 && r.body@ == ack_body(
            challenge_of(query@),
        ),
        !query_verification_ok(query@, secret@) ==> r.status == 403 && r.body@
            == "Verification failed"@,
{
    let params = parse_verification(query);
    match verify(params, secret) {
        Ok(resp) => {
            let body = encode_verification_response(&resp);
            HttpResponse { status: 200, body }
        },
        Err(status) => HttpResponse { status, body: "Verification failed".to_owned() },
    }
}

/// The whole webhook endpoint: a GET is the handshake, a POST is an event
/// delivery, anything else is refused with 405 and an empty body.
pub fn webhook_endpoint(method: Method, query: &str, body: &str, secret: &String) -> (r: (
    HttpResponse,
    Route,
))
    ensures
        method is Get ==> r.1 == Route::Ignored,
        method is Get && query_verification_ok(query@, secret@) ==> r.0.status == 200
            && r.0.body@ == ack_body(challenge_of(query@)),
        method is Get && !query_verification_ok(query@, secret@) ==> r.0.status == 403
            && r.0.body@ == "Verification failed"@,
        method is Post && event_of(body@) is None ==> r.0.status == 400 && r.0.body@
            == "Invalid JSON"@,
        method is Post && event_of(body@) is Some ==> r.0.status == 200 && r.0.body@ == "OK"@,
        method is Post ==> r.1 == route_of_body(body@),
        method is Other ==> r.0.status == 405 && r.0.body@ == Seq::<char>::empty() && r.1
            == Route::Ignored,
{
    match method {
        Method::Get => (handle_verification(query, secret), Route::Ignored),
        Method::Post => handle_body(body),
        Method::Other => (HttpResponse { status: 405, body: String::new() }, Route::Ignored),
    }
}

} // verus!
