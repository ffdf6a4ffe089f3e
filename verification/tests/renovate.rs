use chrono::{DateTime, ParseError};
use mason_registry_api::badges::BadgeColor;
use mason_registry_api::errors::{ApiError, RequestFailure};
use mason_registry_api::renovate::client::spec::{Job, JobResult};
use mason_registry_api::renovate::client::{client_headers, RenovateEndpoint};
use mason_registry_api::renovate::errors::RenovateError;
use mason_registry_api::renovate::manager::{Duration, RelativeTimestamp, RenovateManager};
use mason_registry_api::github::GitHubRepo;
use mason_registry_api::http::client::HttpEndpoint;

type Manager = RenovateManager<()>;

#[test]
fn should_use_correct_temporal_unit() -> Result<(), ParseError> {
    assert_eq!(
        RelativeTimestamp::InMinutes(Duration::minutes(42)),
        Manager::get_relative_timestamp(
            &DateTime::parse_from_rfc3339("2023-04-10T12:55:00Z")?.naive_utc(),
            &DateTime::parse_from_rfc3339("2023-04-10T13:37:00Z")?.naive_utc(),
        )
    );
    assert_eq!(
        RelativeTimestamp::InMinutes(Duration::minutes(59)),
        Manager::get_relative_timestamp(
            &DateTime::parse_from_rfc3339("2023-04-10T12:38:00Z")?.naive_utc(),
            &DateTime::parse_from_rfc3339("2023-04-10T13:37:00Z")?.naive_utc(),
        )
    );
    assert_eq!(
        RelativeTimestamp::InHours(Duration::hours(1)),
        Manager::get_relative_timestamp(
            &DateTime::parse_from_rfc3339("2023-04-10T12:37:00Z")?.naive_utc(),
            &DateTime::parse_from_rfc3339("2023-04-10T13:37:00Z")?.naive_utc(),
        )
    );
    assert_eq!(
        RelativeTimestamp::InHours(Duration::hours(8760)),
        Manager::get_relative_timestamp(
            &DateTime::parse_from_rfc3339("2022-04-10T13:37:00Z")?.naive_utc(),
            &DateTime::parse_from_rfc3339("2023-04-10T13:37:00Z")?.naive_utc(),
        )
    );
    Ok(())
}

#[test]
fn should_account_clock_skew() -> Result<(), ParseError> {
    assert_eq!(
        RelativeTimestamp::InMinutes(Duration::seconds(0)),
        Manager::get_relative_timestamp(
            &DateTime::parse_from_rfc3339("2023-04-10T14:37:00Z")?.naive_utc(),
            &DateTime::parse_from_rfc3339("2023-04-10T13:37:00Z")?.naive_utc(),
        )
    );
    Ok(())
}

#[test]
fn should_provide_relative_timestamp() {
    assert_eq!(
        "just now",
        &RelativeTimestamp::InMinutes(Duration::seconds(5)).to_string()
    );
    assert_eq!(
        "1 minute ago",
        &RelativeTimestamp::InMinutes(Duration::minutes(1)).to_string()
    );
    assert_eq!(
        "1 minute ago",
        &RelativeTimestamp::InMinutes(Duration::seconds(100)).to_string()
    );
    assert_eq!(
        "2 minutes ago",
        &RelativeTimestamp::InMinutes(Duration::seconds(150)).to_string()
    );
    assert_eq!(
        "2 minutes ago",
        &RelativeTimestamp::InMinutes(Duration::minutes(2)).to_string()
    );
    assert_eq!(
        "50 minutes ago",
        &RelativeTimestamp::InMinutes(Duration::minutes(50)).to_string()
    );

    assert_eq!(
        "1 hour ago",
        &RelativeTimestamp::InHours(Duration::minutes(100)).to_string()
    );
    assert_eq!(
        "1 hour ago",
        &RelativeTimestamp::InHours(Duration::hours(1)).to_string()
    );
    assert_eq!(
        "2 hours ago",
        &RelativeTimestamp::InHours(Duration::minutes(150)).to_string()
    );
    assert_eq!(
        "2 hours ago",
        &RelativeTimestamp::InHours(Duration::hours(2)).to_string()
    );
    assert_eq!(
        "100 hours ago",
        &RelativeTimestamp::InHours(Duration::hours(100)).to_string()
    );
}

#[test]
fn relative_timestamp_from_seconds() {
    assert_eq!(RelativeTimestamp::from_seconds(-30), RelativeTimestamp::InMinutes(Duration::seconds(0)));
    assert_eq!(RelativeTimestamp::from_seconds(3599), RelativeTimestamp::InMinutes(Duration::seconds(3599)));
    assert_eq!(RelativeTimestamp::from_seconds(3600), RelativeTimestamp::InHours(Duration::seconds(3600)));
    assert_eq!(RelativeTimestamp::from_seconds(-30).to_string(), "just now");
    assert_eq!(RelativeTimestamp::from_seconds(7 * 3600 + 59).to_string(), "7 hours ago");
    assert_eq!(RelativeTimestamp::InMinutes(Duration::seconds(-120)).to_string(), "-2 minutes ago");
    assert_eq!(Duration::seconds(-150).num_minutes(), -2);
    assert_eq!(Duration::seconds(-7201).num_hours(), -2);
}

fn job(ended: &str, result: &str) -> Job {
    Job { ended: ended.to_string(), job_id: 1, result: JobResult::from_text(result) }
}

#[test]
fn job_result_from_text() {
    assert_eq!(JobResult::from_text("done"), JobResult::Done);
    assert_eq!(JobResult::from_text("failed"), JobResult::Other("failed".to_string()));
}

#[test]
fn badge_tells_age_of_last_done_job() {
    let now = DateTime::parse_from_rfc3339("2023-04-10T13:37:00Z").unwrap().naive_utc();
    let jobs = vec![
        job("2023-04-10T10:00:00Z", "done"),
        job("2023-04-10T13:30:00Z", "done"),
        job("2023-04-10T13:36:00Z", "failed"),
    ];
    let badge = Manager::badge_from_jobs(&jobs, &now, BadgeColor::Blue).unwrap();
    assert_eq!(badge.schema_version, 1);
    assert_eq!(badge.label, "renovate");
    assert_eq!(badge.message, "7 minutes ago");
    assert_eq!(badge.color, BadgeColor::Blue);
}

#[test]
fn badge_without_done_job_is_not_found() {
    let now = DateTime::parse_from_rfc3339("2023-04-10T13:37:00Z").unwrap().naive_utc();
    let jobs = vec![job("2023-04-10T10:00:00Z", "failed")];
    let err = Manager::badge_from_jobs(&jobs, &now, BadgeColor::Green).unwrap_err();
    assert!(matches!(err, RenovateError::ResourceNotFound { source: None }));
    assert_eq!(err.status_code(), 404);
    let err = Manager::get_badge(&vec![], BadgeColor::Green).unwrap_err();
    assert!(matches!(err, RenovateError::ResourceNotFound { source: None }));
}

#[test]
fn badge_with_bad_timestamp_is_internal_error() {
    let now = DateTime::parse_from_rfc3339("2023-04-10T13:37:00Z").unwrap().naive_utc();
    let jobs = vec![job("2023-04-10T10:00:00Z", "done"), job("yesterday", "done")];
    let err = Manager::badge_from_jobs(&jobs, &now, BadgeColor::Green).unwrap_err();
    assert!(matches!(err, RenovateError::InternalError));
    assert_eq!(err.status_code(), 500);
    assert_eq!(err.message(), "API had internal error.");
}

#[test]
fn badge_as_of_now_for_old_job() {
    let jobs = vec![job("2001-01-01T00:00:00Z", "done")];
    let badge = Manager::get_badge(&jobs, BadgeColor::Red).unwrap();
    assert!(badge.message.ends_with(" hours ago"));
}

#[test]
fn badge_reads_offset_timestamps() {
    let now = DateTime::parse_from_rfc3339("2023-04-10T13:37:00Z").unwrap().naive_utc();
    let jobs = vec![job("2023-04-10T15:35:00+02:00", "done")];
    let badge = Manager::badge_from_jobs(&jobs, &now, BadgeColor::Blue).unwrap();
    assert_eq!(badge.message, "2 minutes ago");
}

#[test]
fn renovate_errors_by_status() {
    let err = RenovateError::from_failure(RequestFailure { status: Some(503) });
    assert_eq!(err.status_code(), 502);
    assert_eq!(err.message(), "Renovate API had a server error. Some(503)");
    let err = RenovateError::from_failure(RequestFailure { status: None });
    assert_eq!(err.status_code(), 500);
    assert_eq!(err.message(), "Network error. None");
}

#[test]
fn renovate_endpoint_and_headers() {
    let repo = GitHubRepo::new("mason-org".to_string(), "mason-registry".to_string());
    assert_eq!(
        RenovateEndpoint::GitHubJobs(&repo).as_full_url(),
        "https://v1.renovateapi.com/github/repos/mason-org/mason-registry/jobs"
    );
    let headers = client_headers("s3cr3t");
    assert_eq!(headers.get("authorization").map(|s| s.as_str()), Some("Bearer s3cr3t"));
}

#[test]
fn relative_timestamp_keeps_sub_second_part() -> Result<(), ParseError> {
    let span = Manager::get_relative_timestamp(
        &DateTime::parse_from_rfc3339("2023-04-10T12:55:00.5Z")?.naive_utc(),
        &DateTime::parse_from_rfc3339("2023-04-10T13:37:00Z")?.naive_utc(),
    );
    assert_eq!(span, RelativeTimestamp::InMinutes(Duration { secs: 2519, nanos: 500_000_000 }));
    assert_eq!(span.to_string(), "41 minutes ago");
    assert_eq!(
        Manager::get_relative_timestamp(
            &DateTime::parse_from_rfc3339("2023-04-10T13:37:00.5Z")?.naive_utc(),
            &DateTime::parse_from_rfc3339("2023-04-10T13:37:00Z")?.naive_utc(),
        ),
        RelativeTimestamp::InMinutes(Duration::seconds(0))
    );
    assert_eq!(
        RelativeTimestamp::from_duration(Duration { secs: 0, nanos: -1 }),
        RelativeTimestamp::InMinutes(Duration::seconds(0))
    );
    Ok(())
}
