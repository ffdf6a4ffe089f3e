use mason_registry_api::badges::{Badge, BadgeColor};
use mason_registry_api::errors::{ApiError, CoreError, RequestFailure};
use mason_registry_api::github::errors::GitHubError;
use mason_registry_api::vercel::{err_json, json_response, method_not_allowed, ok_json, redirect};
use mason_registry_api::CacheControl;

#[test]
fn badge_has_first_schema_version() {
    let badge = Badge::new("renovate".to_string(), "just now".to_string(), BadgeColor::Brightgreen);
    assert_eq!(badge.schema_version, 1);
    assert_eq!(badge.label, "renovate");
    assert_eq!(badge.message, "just now");
    assert_eq!(badge.color, BadgeColor::Brightgreen);
}

#[test]
fn json_response_heads() {
    let head = ok_json(CacheControl::PublicLong);
    assert_eq!(head.status, 200);
    assert_eq!(head.headers.get("content-type").map(|s| s.as_str()), Some("application/json"));
    assert_eq!(
        head.headers.get("cache-control").map(|s| s.as_str()),
        Some("max-age=0, s-maxage=86400")
    );
    assert_eq!(json_response(418, CacheControl::NoStore).status, 418);
}

#[test]
fn error_response_is_never_cached() {
    let error = GitHubError::from_failure(RequestFailure { status: Some(404) });
    let (head, body) = err_json(&error);
    assert_eq!(head.status, 404);
    assert_eq!(head.headers.get("cache-control").map(|s| s.as_str()), Some("no-store"));
    assert_eq!(
        body.message,
        "The requested resource was not found when interfacing with GitHub's API."
    );
}

#[test]
fn redirect_and_method_heads() {
    let head = redirect("https://example.com/", CacheControl::PublicShort);
    assert_eq!(head.status, 307);
    assert_eq!(head.headers.get("location").map(|s| s.as_str()), Some("https://example.com/"));
    let head = method_not_allowed();
    assert_eq!(head.status, 405);
    assert_eq!(head.headers.get("location"), None);
}

#[test]
fn url_errors_are_bad_requests() {
    let error = CoreError::from(url::ParseError::EmptyHost);
    assert_eq!(error.status_code(), 400);
    assert_eq!(error.message(), "empty host");
}
