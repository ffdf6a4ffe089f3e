use mason_registry_api::{CacheControl, QueryParams};

#[test]
fn should_parse_query_flags() {
    let query: QueryParams = QueryParams::parse("do_something=1&do_something_else=true&do&not=false");

    assert!(query.has_flag("do_something"));
    assert!(query.has_flag("do_something_else"));
    assert!(query.has_flag("do"));
    assert!(!query.has_flag("do_nothing"));
    assert!(!query.has_flag("not"));
}

#[test]
fn repeated_parameter_keeps_last_value() {
    let query = QueryParams::parse("a=1&b=2&a=3");
    assert_eq!(query.get("a").map(|s| s.as_str()), Some("3"));
    assert_eq!(query.get("b").map(|s| s.as_str()), Some("2"));
    assert_eq!(query.get("c"), None);
}

#[test]
fn query_values_are_decoded() {
    let query = QueryParams::parse("owner=mason%2Dorg&name=a+b&flag=");
    assert_eq!(query.get("owner").map(|s| s.as_str()), Some("mason-org"));
    assert_eq!(query.get("name").map(|s| s.as_str()), Some("a b"));
    assert!(query.has_flag("flag"));
    assert!(!query.has_flag("owner"));
}

#[test]
fn query_from_pairs_keeps_last_value() {
    let pairs = vec![
        ("x".to_string(), "true".to_string()),
        ("x".to_string(), "no".to_string()),
    ];
    let query = QueryParams::from_pairs(&pairs);
    assert!(!query.has_flag("x"));
    assert_eq!(query.get("x").map(|s| s.as_str()), Some("no"));
}

#[test]
fn cache_control_headers() {
    assert_eq!(CacheControl::NoStore.get_header(), "no-store");
    assert_eq!(
        CacheControl::PublicShort.get_header(),
        "max-age=0, s-maxage=60, stale-while-revalidate=120"
    );
    assert_eq!(CacheControl::PublicMedium.get_header(), "max-age=0, s-maxage=900");
    assert_eq!(CacheControl::PublicLong.get_header(), "max-age=0, s-maxage=86400");
}
