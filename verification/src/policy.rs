//! The cross-origin policy every response carries.

use vstd::prelude::*;

verus! {

/// The cross-origin response policy: any origin, any method and any request
/// header allowed; the listed response headers exposed to browser scripts;
/// preflight answers cacheable for `max_age_secs`.
pub struct CorsPolicy {
    /// Requests from any origin are allowed.
    pub allow_any_origin: bool,
    /// Any HTTP method is allowed.
    pub allow_any_method: bool,
    /// Any request header is allowed.
    pub allow_any_header: bool,
    /// Response headers exposed to browser-side scripts.
    pub exposed_headers: Vec<String>,
    /// Preflight cache lifetime, in seconds.
    pub max_age_secs: u64,
}

/// The service's one policy: unrestricted origins, methods and headers;
/// `content-type` and `cache-control` exposed; a one-hour preflight cache.
pub fn cors_policy() -> (p: CorsPolicy)
    ensures
        p.allow_any_origin,
        p.allow_any_method,
        p.allow_any_header,
        p.max_age_secs == 3600,
        p.exposed_headers@.len() == 2,
        p.exposed_headers@[0]@ == "content-type"@,
        p.exposed_headers@[1]@ == "cache-control"@,
{
    let mut exposed: Vec<String> = Vec::new();
    exposed.push(String::from_str("content-type"));
    exposed.push(String::from_str("cache-control"));
    CorsPolicy {
        allow_any_origin: true,
        allow_any_method: true,
        allow_any_header: true,
        exposed_headers: exposed,
        max_age_secs: 3600,
    }
}

} // verus!
