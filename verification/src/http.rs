//! The value-level description of an HTTP response: status, content kind,
//! caching headers and body. The surrounding server turns such a value into
//! a wire response; everything the endpoints decide is recorded here.

use vstd::prelude::*;
use vstd::string::StringExecFns;

verus! {

/// One day in seconds: the fixed lifetime of cacheable read responses.
pub const READ_CACHE_MAX_AGE_SECS: u32 = 86400;

/// What an endpoint answers, as plain values.
#[derive(Debug)]
pub struct HttpReply {
    /// HTTP status code.
    pub status: u16,
    /// True for a JSON body, false for plain text.
    pub json: bool,
    /// `Cache-Control: max-age=...` in seconds, when set.
    pub cache_max_age: Option<u32>,
    /// `Last-Modified` as a Unix timestamp in seconds, when set.
    pub last_modified: Option<u64>,
    /// The response body.
    pub body: String,
}

/// The health endpoint: unconditionally up, no dependencies checked.
pub fn health_check() -> (r: HttpReply)
    ensures
        r.status == 200,
        !r.json,
        r.cache_max_age is None,
        r.last_modified is None,
        r.body@ == seq!['U', 'P'],
{
    let body = String::from_str("UP");
    proof {
        reveal_strlit("UP");
    }
    HttpReply { status: 200, json: false, cache_max_age: None, last_modified: None, body }
}

} // verus!
