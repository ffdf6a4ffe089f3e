use mason_registry_api::errors::{ApiError, RequestFailure};
use mason_registry_api::github::client::graphql::sponsors::{self, SponsorsQuery};
use mason_registry_api::github::client::graphql::tags::{self, TagsQuery};
use mason_registry_api::github::client::graphql::PageInfo;
use mason_registry_api::github::client::{
    client_headers, GitHubApiEndpoint, GitHubPagination, GitHubResponse, Paginator,
};
use mason_registry_api::github::errors::GitHubError;
use mason_registry_api::github::{GitHubRefId, GitHubRepo, GitHubTag};
use mason_registry_api::http::client::{request_headers, HttpEndpoint};
use mason_registry_api::json::{DecodeError, JsonValue};
use mason_registry_api::{CacheControl, QueryParams};

fn repo() -> GitHubRepo {
    GitHubRepo::new("sumneko".to_string(), "vscode-lua".to_string())
}

#[test]
fn repo_from_query_and_text() {
    let query = QueryParams::parse("owner=sumneko&name=vscode-lua");
    let r = GitHubRepo::from_query(&query);
    assert_eq!(r.owner, "sumneko");
    assert_eq!(r.name, "vscode-lua");
    assert_eq!(r.to_string(), "sumneko/vscode-lua");
}

#[test]
fn registry_repo_is_cached_briefly() {
    let registry = GitHubRepo::new("mason-org".to_string(), "mason-registry".to_string());
    assert_eq!(CacheControl::from(registry), CacheControl::PublicShort);
    assert_eq!(CacheControl::from(repo()), CacheControl::PublicMedium);
    let other = GitHubRepo::new("mason-org".to_string(), "mason.nvim".to_string());
    assert_eq!(CacheControl::from(other), CacheControl::PublicMedium);
}

#[test]
fn github_endpoints() {
    let r = repo();
    let tag = GitHubTag::from_str("v3.5.6");
    assert_eq!(tag.to_string(), "v3.5.6");
    assert_eq!(tag.get_ref_endpoint(), "tags/v3.5.6");
    assert_eq!(GitHubApiEndpoint::GraphQL.as_full_url(), "https://api.github.com/graphql");
    assert_eq!(
        GitHubApiEndpoint::Releases(&r).as_full_url(),
        "https://api.github.com/repos/sumneko/vscode-lua/releases"
    );
    assert_eq!(
        GitHubApiEndpoint::LatestRelease(&r).as_full_url(),
        "https://api.github.com/repos/sumneko/vscode-lua/releases/latest"
    );
    assert_eq!(
        GitHubApiEndpoint::ReleaseTag(&r, &tag).as_full_url(),
        "https://api.github.com/repos/sumneko/vscode-lua/releases/tags/v3.5.6"
    );
    assert_eq!(
        GitHubApiEndpoint::git_ref(&r, &tag).as_full_url(),
        "https://api.github.com/repos/sumneko/vscode-lua/git/ref/tags/v3.5.6"
    );
    assert_eq!(
        GitHubApiEndpoint::Link("https://example.com/x?page=2".to_string()).as_full_url(),
        "https://example.com/x?page=2"
    );
}

#[test]
fn pagination_query() {
    let q = GitHubPagination { page: 2, per_page: GitHubPagination::MAX_PAGE_LIMIT }.query();
    assert_eq!(q, vec![("page", 2), ("per_page", 100)]);
}

#[test]
fn client_headers_override_defaults() {
    let custom = client_headers("abc");
    let headers = request_headers(&Some(custom));
    assert_eq!(
        headers.get("accept").map(|s| s.as_str()),
        Some("application/vnd.github.v3+json; q=1.0, application/json; q=0.8")
    );
    assert_eq!(headers.get("authorization").map(|s| s.as_str()), Some("Bearer abc"));
    assert_eq!(
        headers.get("user-agent").map(|s| s.as_str()),
        Some("mason-registry-api (+https://github.com/mason-org/mason-registry-api)")
    );
    let plain = request_headers(&None);
    assert_eq!(plain.get("accept").map(|s| s.as_str()), Some("application/json"));
    assert_eq!(plain.get("authorization"), None);
}

#[test]
fn paginator_follows_next_links() {
    let mut pages: Paginator<u32> = Paginator::new();
    let first = GitHubResponse {
        data: vec![1, 2],
        link_header: Some(
            r#"<https://api.github.com/repositories/41986369/contributors?page=2>; rel="next", <https://api.github.com/repositories/41986369/contributors?page=14>; rel="last""#
                .to_string(),
        ),
    };
    let next = pages.accept_page(first, true);
    assert_eq!(
        next.as_deref(),
        Some("https://api.github.com/repositories/41986369/contributors?page=2")
    );
    let second = GitHubResponse {
        data: vec![3],
        link_header: Some(r#"<https://api.github.com/x?page=1>; rel="prev""#.to_string()),
    };
    assert_eq!(pages.accept_page(second, true), None);
    let third = GitHubResponse {
        data: vec![4],
        link_header: Some(r#"<https://api.github.com/x?page=4>; rel="next""#.to_string()),
    };
    assert_eq!(pages.accept_page(third, false), None);
    assert_eq!(pages.into_data(), vec![1, 2, 3, 4]);
}

#[test]
fn response_next_link() {
    let no_header: GitHubResponse<()> = GitHubResponse { data: (), link_header: None };
    assert_eq!(no_header.next_link(), None);
    let bad: GitHubResponse<()> =
        GitHubResponse { data: (), link_header: Some("<not a uri>; rel=next; x".to_string()) };
    assert_eq!(bad.next_link(), None);
    let both: GitHubResponse<()> = GitHubResponse {
        data: (),
        link_header: Some(
            "<https://api.github.com/x?page=1>; rel=\"prev\", <https://api.github.com/x?page=3>; rel=\"next\""
                .to_string(),
        ),
    };
    assert_eq!(both.next_link(), Some("https://api.github.com/x?page=3".to_string()));
    let prev_only: GitHubResponse<()> = GitHubResponse {
        data: (),
        link_header: Some("<https://api.github.com/x?page=1>; rel=\"prev\"".to_string()),
    };
    assert_eq!(prev_only.next_link(), None);
}

#[test]
fn github_errors_by_status() {
    let e = GitHubError::from_failure(RequestFailure { status: Some(404) });
    assert!(matches!(e, GitHubError::ResourceNotFound { source: Some(_) }));
    assert_eq!(e.status_code(), 404);
    assert_eq!(
        e.message(),
        "The requested resource was not found when interfacing with GitHub's API."
    );
    let e = GitHubError::from_failure(RequestFailure { status: Some(500) });
    assert_eq!(e.status_code(), 502);
    assert_eq!(e.message(), "GitHub's API had a server error. Some(500)");
    let e = GitHubError::from_failure(RequestFailure { status: Some(403) });
    assert_eq!(e.status_code(), 500);
    assert_eq!(e.message(), "Client error. Some(403)");
    let e = GitHubError::from_failure(RequestFailure { status: Some(302) });
    assert!(matches!(e, GitHubError::NetworkError { .. }));
    assert_eq!(e.message(), "Network error. Some(302)");
}

fn s(text: &str) -> JsonValue {
    JsonValue::String(text.to_string())
}

fn obj(entries: Vec<(&str, JsonValue)>) -> JsonValue {
    JsonValue::Object(entries.into_iter().map(|(k, v)| (k.to_string(), v)).collect())
}

fn page_info() -> JsonValue {
    obj(vec![
        ("startCursor", s("a")),
        ("endCursor", JsonValue::Null),
        ("hasNextPage", JsonValue::Bool(true)),
        ("hasPreviousPage", JsonValue::Bool(false)),
    ])
}

#[test]
fn page_info_from_json() {
    let p = PageInfo::from_json(&page_info()).unwrap();
    assert_eq!(p.start_cursor.as_deref(), Some("a"));
    assert_eq!(p.end_cursor, None);
    assert!(p.has_next_page);
    assert!(!p.has_previous_page);
    let missing_flag = obj(vec![("hasNextPage", JsonValue::Bool(true))]);
    assert!(PageInfo::from_json(&missing_flag).is_none());
    let as_array = JsonValue::Array(vec![
        JsonValue::Null,
        s("z"),
        JsonValue::Bool(false),
        JsonValue::Bool(true),
    ]);
    let p = PageInfo::from_json(&as_array).unwrap();
    assert_eq!(p.end_cursor.as_deref(), Some("z"));
}

#[test]
fn tags_query_from_json() {
    let response = obj(vec![(
        "data",
        obj(vec![(
            "repository",
            obj(vec![(
                "refs",
                obj(vec![
                    ("pageInfo", page_info()),
                    (
                        "nodes",
                        JsonValue::Array(vec![
                            obj(vec![("name", s("v3.5.6"))]),
                            obj(vec![("name", s("v3.5.5")), ("extra", JsonValue::Null)]),
                        ]),
                    ),
                ]),
            )]),
        )]),
    )]);
    let q = TagsQuery::from_json(&response).unwrap();
    let names: Vec<&str> = q.tags.iter().map(|t| t.name.as_str()).collect();
    assert_eq!(names, vec!["v3.5.6", "v3.5.5"]);
    assert!(q.page_info.has_next_page);
}

#[test]
fn tags_query_errors() {
    assert_eq!(TagsQuery::from_json(&s("x")).unwrap_err(), DecodeError::NotAnObject);
    assert_eq!(
        TagsQuery::from_json(&obj(vec![])).unwrap_err(),
        DecodeError::MissingField("data key missing.")
    );
    assert_eq!(
        TagsQuery::from_json(&obj(vec![("data", obj(vec![]))])).unwrap_err(),
        DecodeError::MissingField("repository key missing.")
    );
    let refs_without_nodes = obj(vec![(
        "data",
        obj(vec![("repository", obj(vec![("refs", obj(vec![("pageInfo", page_info())]))]))]),
    )]);
    assert_eq!(
        TagsQuery::from_json(&refs_without_nodes).unwrap_err(),
        DecodeError::MissingField("nodes key missing.")
    );
    let bad_nodes = obj(vec![(
        "data",
        obj(vec![(
            "repository",
            obj(vec![(
                "refs",
                obj(vec![("pageInfo", page_info()), ("nodes", JsonValue::Array(vec![s("v1")]))]),
            )]),
        )]),
    )]);
    assert_eq!(
        TagsQuery::from_json(&bad_nodes).unwrap_err(),
        DecodeError::Custom("Failed to deserialize tags.")
    );
}

#[test]
fn sponsors_query_from_json() {
    let sponsor = obj(vec![
        ("login", s("octocat")),
        ("avatarUrl", s("https://avatars/1")),
        ("url", s("https://github.com/octocat")),
    ]);
    let response = obj(vec![(
        "data",
        obj(vec![(
            "user",
            obj(vec![(
                "sponsors",
                obj(vec![("nodes", JsonValue::Array(vec![sponsor])), ("pageInfo", page_info())]),
            )]),
        )]),
    )]);
    let q = SponsorsQuery::from_json(&response).unwrap();
    assert_eq!(q.sponsors.len(), 1);
    assert_eq!(q.sponsors[0].login, "octocat");
    assert_eq!(q.sponsors[0].avatar_url, "https://avatars/1");
    let no_user = obj(vec![("data", obj(vec![("viewer", obj(vec![]))]))]);
    assert_eq!(
        SponsorsQuery::from_json(&no_user).unwrap_err(),
        DecodeError::MissingField("user key missing.")
    );
    let bad_page = obj(vec![(
        "data",
        obj(vec![(
            "user",
            obj(vec![(
                "sponsors",
                obj(vec![("nodes", JsonValue::Array(vec![])), ("pageInfo", s("x"))]),
            )]),
        )]),
    )]);
    assert_eq!(
        SponsorsQuery::from_json(&bad_page).unwrap_err(),
        DecodeError::Custom("Failed to deserialize pageInfo.")
    );
}

#[test]
fn graphql_requests() {
    let r = tags::request(&repo(), 10, Some("cursor".to_string()));
    assert_eq!(r.query, tags::QUERY);
    assert_eq!(r.variables.owner, "sumneko");
    assert_eq!(r.variables.name, "vscode-lua");
    assert_eq!(r.variables.first, 10);
    assert_eq!(r.variables.after.as_deref(), Some("cursor"));
    let r = sponsors::request("williamboman".to_string(), 5, None);
    assert_eq!(r.query, sponsors::QUERY);
    assert_eq!(r.variables.login, "williamboman");
    assert_eq!(r.variables.after, None);
}
