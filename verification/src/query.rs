//! Decoding the handshake query string into its key-value pairs and
//! picking out the handshake parameters.

use vstd::prelude::*;
use crate::webhook::WebhookVerification;

verus! {

/// What decoding a URL query string yields: its key-value pairs, in
/// order, or nothing when the deserializer refuses the text.
pub uninterp spec fn query_pairs_of(q: Seq<char>) -> Option<Seq<(Seq<char>, Seq<char>)>>;

/// The character-level view of a list of string pairs.
pub open spec fn pairs_view(v: Seq<(String, String)>) -> Seq<(Seq<char>, Seq<char>)> {
    v.map_values(|p: (String, String)| (p.0@, p.1@))
}

/// The character-level view of an optional string.
pub open spec fn view_opt(o: Option<String>) -> Option<Seq<char>> {
    match o {
        Some(s) => Some(s@),
        None => None,
    }
}

/// Relies on serde_urlencoded::from_str, deserializing to a sequence of
/// string pairs: each `k=v` piece of the query becomes one pair, with
/// percent-escapes and `+` resolved and undecodable bytes replaced, as
/// form_urlencoded's parser does.
#[verifier::external_body]
fn decode_query(q: &str) -> (r: Option<Vec<(String, String)>>)
    ensures
        r is Some <==> query_pairs_of(q@) is Some,
        r matches Some(v) ==> Some(pairs_view(v@)) == query_pairs_of(q@),
{
    serde_urlencoded::from_str::<Vec<(String, String)>>(q).ok()
}

/// The value of the first pair that carries `key`, if any.
pub open spec fn lookup_pair(pairs: Seq<(Seq<char>, Seq<char>)>, key: Seq<char>) -> Option<
    Seq<char>,
>
    decreases pairs.len(),
{
    if pairs.len() == 0 {
        None
    } else if pairs[0].0 == key {
        Some(pairs[0].1)
    } else {
        lookup_pair(pairs.drop_first(), key)
    }
}

/// The parameter named `key` in the query string `q`: absent when the
/// query does not decode or carries no such key.
pub open spec fn param_of(q: Seq<char>, key: Seq<char>) -> Option<Seq<char>> {
    match query_pairs_of(q) {
        Some(pairs) => lookup_pair(pairs, key),
        None => None,
    }
}

fn lookup(pairs: &Vec<(String, String)>, key: &String) -> (r: Option<String>)
    ensures
        view_opt(r) == lookup_pair(pairs_view(pairs@), key@),
{
    let ghost pv = pairs_view(pairs@);
    proof {
        assert(pv.skip(0) =~= pv);
    }
    let mut i: usize = 0;
    while i < pairs.len()
        invariant
            0 <= i <= pairs.len(),
            pv == pairs_view(pairs@),
            pv.len() == pairs@.len(),
            lookup_pair(pv, key@) == lookup_pair(pv.skip(i as int), key@),
        decreases pairs.len() - i,
    {
        proof {
            assert(pv.skip(i as int)[0] == pv[i as int]);
            assert(pv.skip(i as int).drop_first() =~= pv.skip(i as int + 1));
        }
        if pairs[i].0.eq(key) {
            return Some(pairs[i].1.clone());
        }
        i = i + 1;
    }
    proof {
        assert(pv.skip(i as int) =~= Seq::empty());
    }
    None
}

/// Decode the handshake parameters out of a raw query string.  A query
/// that does not decode yields absent values throughout, never a failure.
pub fn parse_verification(q: &str) -> (p: WebhookVerification)
    ensures
        view_opt(p.mode) == param_of(q@, "hub.mode"@),
        view_opt(p.challenge) == param_of(q@, "hub.challenge"@),
        view_opt(p.verify_token) == param_of(q@, "hub.verify_token"@),
{
    match decode_query(q) {
        Some(pairs) => WebhookVerification {
            mode: lookup(&pairs, &"hub.mode".to_owned()),
            challenge: lookup(&pairs, &"hub.challenge".to_owned()),
            verify_token: lookup(&pairs, &"hub.verify_token".to_owned()),
        },
        None => WebhookVerification { mode: None, challenge: None, verify_token: None },
    }
}

} // verus!
