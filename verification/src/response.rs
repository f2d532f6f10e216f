//! Plain HTTP response values produced by the protocol handlers.

use vstd::prelude::*;

verus! {

/// A response as the protocol layer decides it: a status code and a body.
/// The hosting server turns this into a wire-level response unchanged.
pub struct HttpResponse {
    pub status: u16,
    pub body: String,
}

/// The acknowledgement sent for every event whose body parsed.
pub fn ok_response() -> (r: HttpResponse)
    ensures
        r.status == 200,
        r.body@ == "OK"@,
{
    HttpResponse { status: 200, body: "OK".to_owned() }
}

} // verus!
