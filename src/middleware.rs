//! Settings of the HTTP layers placed around the engine: security headers,
//! request rate limiting and request logging.
use vstd::prelude::*;
use vstd::string::StringExecFns;

verus! {

/// Adds the security headers to every response.
pub struct SecurityHeaders;

/// The header names and values every response carries.
pub open spec fn security_header_names() -> Seq<Seq<char>> {
    seq![
        "x-content-type-options"@, "x-frame-options"@, "x-xss-protection"@,
        "strict-transport-security"@, "content-security-policy"@, "referrer-policy"@,
        "permissions-policy"@, "x-kenya-gov-secure"@,
    ]
}

impl SecurityHeaders {
    /// The headers, as (name, value) pairs, in the order they are set.
    pub fn headers() -> (r: Vec<(String, String)>)
        ensures
            r@.len() == security_header_names().len(),
            forall|i: int| 0 <= i < r@.len() ==> (#[trigger] r@[i]).0@ == security_header_names()[i],
    {
        let mut r: Vec<(String, String)> = Vec::new();
        r.push((String::from_str("x-content-type-options"), String::from_str("nosniff")));
        r.push((String::from_str("x-frame-options"), String::from_str("DENY")));
        r.push((String::from_str("x-xss-protection"), String::from_str("1; mode=block")));
        r.push(
            (
                String::from_str("strict-transport-security"),
                String::from_str("max-age=31536000; includeSubDomains; preload"),
            ),
        );
        r.push(
            (
                String::from_str("content-security-policy"),
                String::from_str(
                    "default-src 'self'; script-src 'self'; style-src 'self' 'unsafe-inline'; img-src 'self' data:; connect-src 'self'; font-src 'self'; object-src 'none'; media-src 'self'; child-src 'none'; frame-ancestors 'none'; base-uri 'self'; form-action 'self'",
                ),
            ),
        );
        r.push(
            (String::from_str("referrer-policy"), String::from_str("strict-origin-when-cross-origin")),
        );
        r.push(
            (
                String::from_str("permissions-policy"),
                String::from_str("camera=(), microphone=(), geolocation=(), payment=()"),
            ),
        );
        r.push((String::from_str("x-kenya-gov-secure"), String::from_str("true")));
        r
    }
}

/// Request rate limiting (every request is let through for now).
pub struct RateLimiting {
    pub max_requests_per_minute: u32,
}

impl RateLimiting {
    pub fn new(max_requests_per_minute: u32) -> (r: Self)
        ensures
            r.max_requests_per_minute == max_requests_per_minute,
    {
        RateLimiting { max_requests_per_minute }
    }
}

/// Logs every request with its outcome and duration.
pub struct RequestLogging;

} // verus!
