//! The compute side of the read-side proxy: the request it sends and the
//! response it makes of the datastore's answer.

use vstd::prelude::*;
use vstd::string::StringExecFns;
use crate::response::HttpResponse;

verus! {

/// The datastore query for the activity listing: newest first, capped at
/// fifty records.
pub fn activities_request_url(base: &String) -> (r: String)
    ensures
        r@ == base@ + "/rest/v1/activities?order=start_date.desc&limit=50"@,
{
    base.clone().concat("/rest/v1/activities?order=start_date.desc&limit=50")
}

/// The authorization header value for the datastore's service credential.
pub fn bearer_header(key: &String) -> (r: String)
    ensures
        r@ == "Bearer "@ + key@,
{
    String::from_str("Bearer ").concat(key.as_str())
}

/// Turn the datastore's answer into the proxy's response: a fetched body
/// passes through verbatim with 200, a failure becomes 500 with the error
/// text surfaced.
pub fn proxy_response(upstream: Result<String, String>) -> (r: HttpResponse)
    ensures
        upstream matches Ok(body) ==> r.status == 200 && r.body@ == body@,
        upstream matches Err(e) ==> r.status == 500 && r.body@ == "Error: "@ + e@,
{
    match upstream {
        Ok(body) => HttpResponse { status: 200, body },
        Err(e) => HttpResponse {
            status: 500,
            body: String::from_str("Error: ").concat(e.as_str()),
        },
    }
}

} // verus!
