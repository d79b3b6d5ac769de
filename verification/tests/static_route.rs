use angel_sse::angel_message;
use angel_sse::policy::cors_policy;

#[test]
fn angel_body_is_the_exact_literal() {
    assert_eq!(angel_message(), "{\"message\": \"这个世界存在天使\"}");
}

#[test]
fn angel_body_is_stable_across_calls() {
    assert_eq!(angel_message(), angel_message());
}

#[test]
fn cors_policy_is_unrestricted() {
    let p = cors_policy();
    assert!(p.allow_any_origin);
    assert!(p.allow_any_method);
    assert!(p.allow_any_header);
}

#[test]
fn cors_policy_exposes_two_headers_and_caches_an_hour() {
    let p = cors_policy();
    assert_eq!(p.max_age_secs, 3600);
    assert_eq!(p.exposed_headers.len(), 2);
    assert_eq!(p.exposed_headers[0], "content-type");
    assert_eq!(p.exposed_headers[1], "cache-control");
}
