//! The webhook protocol proper: the subscription handshake decision and
//! the classification of event notifications.

use vstd::prelude::*;
use crate::response::HttpResponse;

verus! {

/// The handshake parameters as decoded from the query string.  Every field
/// is optional at the parse layer: a malformed or incomplete query yields
/// absent values, never a crash.
pub struct WebhookVerification {
    pub mode: Option<String>,
    pub challenge: Option<String>,
    pub verify_token: Option<String>,
}

/// The successful handshake answer: the challenge echoed back verbatim.
pub struct VerificationResponse {
    pub challenge: String,
}

/// An event notification, after its JSON body has been decoded.
/// `updates` carries the provider's optional untyped payload as raw JSON
/// text; dispatch never inspects it.
pub struct WebhookEvent {
    pub object_type: String,
    pub object_id: i64,
    pub aspect_type: String,
    pub owner_id: i64,
    pub subscription_id: i64,
    pub event_time: i64,
    pub updates: Option<String>,
}

/// The routing decision for one event: which downstream action it is
/// handed to, or none at all.
#[derive(Clone, Copy, Debug, PartialEq, Eq, Structural)]
pub enum Route {
    /// Fetch the full activity and upsert it into the datastore.
    Upsert { object_id: i64, owner_id: i64 },
    /// Remove the activity from the datastore.
    Delete { object_id: i64 },
    /// No downstream action.
    Ignored,
}

/// The character-level view of an event, the form the contracts speak of.
pub ghost struct EventModel {
    pub object_type: Seq<char>,
    pub object_id: i64,
    pub aspect_type: Seq<char>,
    pub owner_id: i64,
    pub subscription_id: i64,
    pub event_time: i64,
    pub updates: Option<Seq<char>>,
}

impl WebhookEvent {
    /// The view of this event.
    pub open spec fn model(self) -> EventModel {
        EventModel {
            object_type: self.object_type@,
            object_id: self.object_id,
            aspect_type: self.aspect_type@,
            owner_id: self.owner_id,
            subscription_id: self.subscription_id,
            event_time: self.event_time,
            updates: crate::query::view_opt(self.updates),
        }
    }
}

/// When a handshake succeeds: the mode is `subscribe`, the token equals
/// the configured secret, and a challenge to echo is present.
pub open spec fn verification_ok(p: WebhookVerification, secret: Seq<char>) -> bool {
    &&& p.mode matches Some(m) && m@ == "subscribe"@
    &&& p.verify_token matches Some(t) && t@ == secret
    &&& p.challenge is Some
}

/// Where an event is routed: activity creations and updates go to the
/// upsert action, activity deletions to the delete action, and everything
/// else (other object types, unrecognized aspects) is ignored.
pub open spec fn route_of(m: EventModel) -> Route {
    if m.object_type != "activity"@ {
        Route::Ignored
    } else if m.aspect_type == "create"@ || m.aspect_type == "update"@ {
        Route::Upsert { object_id: m.object_id, owner_id: m.owner_id }
    } else if m.aspect_type == "delete"@ {
        Route::Delete { object_id: m.object_id }
    } else {
        Route::Ignored
    }
}

/// Events about anything but an activity reach no downstream action:
/// they are ignored, and an ignored route leaves any datastore exactly
/// as it was.
pub proof fn lemma_non_activity_ignored(m: EventModel, s: Seq<(i64, i64)>)
    requires
        m.object_type != "activity"@,
    ensures
        route_of(m) == Route::Ignored,
        crate::sync::apply_spec(s, route_of(m)) == s,
{
}

/// An activity event whose aspect is none of `create`, `update` or
/// `delete` is ignored, and leaves any datastore exactly as it was.
pub proof fn lemma_unknown_aspect_ignored(m: EventModel, s: Seq<(i64, i64)>)
    requires
        m.aspect_type != "create"@,
        m.aspect_type != "update"@,
        m.aspect_type != "delete"@,
    ensures
        route_of(m) == Route::Ignored,
        crate::sync::apply_spec(s, route_of(m)) == s,
{
}

/// Answer the subscription handshake: echo the challenge exactly when the
/// request carries the right mode and secret, refuse with 403 otherwise.
pub fn verify(params: WebhookVerification, secret: &String) -> (r: Result<
    VerificationResponse,
    u16,
>)
    ensures
        r is Ok <==> verification_ok(params, secret@),
        r matches Ok(resp) ==> Some(resp.challenge) == params.challenge,
        r matches Err(status) ==> status == 403u16,
{
    let mode_ok = match &params.mode {
        Some(m) => m.eq(&"subscribe".to_owned()),
        None => false,
    };
    let token_ok = match &params.verify_token {
        Some(t) => t.eq(secret),
        None => false,
    };
    match params.challenge {
        Some(challenge) if mode_ok && token_ok => Ok(VerificationResponse { challenge }),
        _ => Err(403),
    }
}

/// Decide the route for one event.
pub fn classify(e: &WebhookEvent) -> (r: Route)
    ensures
        r == route_of(e.model()),
{
    if !e.object_type.eq(&"activity".to_owned()) {
        Route::Ignored
    } else if e.aspect_type.eq(&"create".to_owned()) || e.aspect_type.eq(&"update".to_owned()) {
        Route::Upsert { object_id: e.object_id, owner_id: e.owner_id }
    } else if e.aspect_type.eq(&"delete".to_owned()) {
        Route::Delete { object_id: e.object_id }
    } else {
        Route::Ignored
    }
}

/// Handle one decoded event: decide its route and acknowledge receipt.
/// The acknowledgement is unconditional once the body decoded — downstream
/// work never changes the answer the provider sees.
pub fn handle(e: &WebhookEvent) -> (r: (HttpResponse, Route))
    ensures
        r.0.status == 200,
        r.0.body@ == "OK"@,
        r.1 == route_of(e.model()),
{
    let route = classify(e);
    (crate::response::ok_response(), route)
}

} // verus!
