//! Decoding an event notification's JSON body and deciding the response
//! and the route in one step.

use vstd::prelude::*;
use crate::response::HttpResponse;
use crate::webhook::{EventModel, Route, WebhookEvent};

verus! {

/// What decoding an event body yields: the event's view when the text is
/// JSON of the expected shape (every required field present, with its
/// type), nothing otherwise.
pub uninterp spec fn event_of(s: Seq<char>) -> Option<EventModel>;

/// Relies on serde_json: `from_str` parses the body into a JSON value,
/// and the `get`, `as_str`, `as_i64` and `to_string` accessors read the
/// required fields out of it.  Any missing or wrongly typed required
/// field fails the decode as a whole.
#[verifier::external_body]
fn parse_event(body: &str) -> (r: Option<WebhookEvent>)
    ensures
        r is Some <==> event_of(body@) is Some,
        r matches Some(e) ==> Some(e.model()) == event_of(body@),
{
    let v: serde_json::Value = serde_json::from_str(body).ok()?;
    Some(WebhookEvent {
        object_type: v.get("object_type")?.as_str()?.to_string(),
        object_id: v.get("object_id")?.as_i64()?,
        aspect_type: v.get("aspect_type")?.as_str()?.to_string(),
        owner_id: v.get("owner_id")?.as_i64()?,
        subscription_id: v.get("subscription_id")?.as_i64()?,
        event_time: v.get("event_time")?.as_i64()?,
        updates: match v.get("updates") {
            None => None,
            Some(u) => Some(u.to_string()),
        },
    })
}

/// Answer for an event body that may or may not have decoded: a malformed
/// body is refused with 400, a decoded one is acknowledged with 200 and
/// routed.  No routing outcome ever changes the acknowledgement.
pub fn dispatch_parsed(parsed: Option<WebhookEvent>) -> (r: (HttpResponse, Route))
    ensures
        parsed is None ==> r.0.status == 400 && r.0.body@ == "Invalid JSON"@ && r.1
            == Route::Ignored,
        parsed matches Some(e) ==> r.0.status == 200 && r.0.body@ == "OK"@ && r.1 == crate::webhook::route_of(
            e.model(),
        ),
{
    match parsed {
        None => (
            HttpResponse { status: 400, body: "Invalid JSON".to_owned() },
            Route::Ignored,
        ),
        Some(e) => crate::webhook::handle(&e),
    }
}

/// Handle one POSTed event body end to end: decode, then acknowledge and
/// route as `dispatch_parsed` says.
pub fn handle_body(body: &str) -> (r: (HttpResponse, Route))
    ensures
        event_of(body@) is None ==> r.0.status == 400 && r.0.body@ == "Invalid JSON"@ && r.1
            == Route::Ignored,
        event_of(body@) matches Some(m) ==> r.0.status == 200 && r.0.body@ == "OK"@ && r.1
            == crate::webhook::route_of(m),
{
    dispatch_parsed(parse_event(body))
}

} // verus!
