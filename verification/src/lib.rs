//! Webhook verification and event-dispatch protocol handler for an
//! activity-tracking provider's push notifications, plus the response
//! mapping for a read-side proxy to a datastore.

pub mod activities;
pub mod encode;
pub mod endpoint;
pub mod event;
pub mod query;
pub mod response;
pub mod sync;
pub mod webhook;
