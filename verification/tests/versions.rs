use mason_registry_api::crates::api::CrateResponse;
use mason_registry_api::crates::errors::{CratesApiFailure, CratesError};
use mason_registry_api::crates::manager::CratesManager;
use mason_registry_api::crates::CrateInfo;
use mason_registry_api::errors::{ApiError, RequestFailure};
use mason_registry_api::golang::client::{parse_versions_list, GolangEndpoint};
use mason_registry_api::golang::errors::GolangError;
use mason_registry_api::golang::manager::GolangManager;
use mason_registry_api::golang::GolangPackage;
use mason_registry_api::http::client::HttpEndpoint;
use mason_registry_api::npm::client::{client_headers, NpmEndpoint};
use mason_registry_api::npm::NpmPackage;
use mason_registry_api::openvsx::api::OpenVSXExtensionResponse;
use mason_registry_api::openvsx::client::spec::{OpenVSXExtensionDto, OpenVSXExtensionVersionsDto};
use mason_registry_api::openvsx::client::{versions_query, OpenVSXEndpoint};
use mason_registry_api::openvsx::errors::OpenVSXError;
use mason_registry_api::openvsx::manager::{OpenVSXManager, VersionsPager};
use mason_registry_api::openvsx::OpenVSXExtension;
use mason_registry_api::packagist::errors::PackagistError;
use mason_registry_api::packagist::manager::PackagistManager;
use mason_registry_api::packagist::PackagistPackageDto;
use mason_registry_api::rubygems::errors::RubyGemsError;
use mason_registry_api::rubygems::manager::RubyGemsManager;
use mason_registry_api::rubygems::RubyGemVersionDto;
use mason_registry_api::semver_sort::semver_sort_desc;
use mason_registry_api::QueryParams;

fn strings(items: &[&str]) -> Vec<String> {
    items.iter().map(|s| s.to_string()).collect()
}

#[test]
fn versions_sorted_newest_first() {
    let sorted = semver_sort_desc(&strings(&["1.0.0", "v2.0.0", "1.10.0", "1.2.0", "0.9.0"]));
    assert_eq!(sorted, strings(&["v2.0.0", "1.10.0", "1.2.0", "1.0.0", "0.9.0"]));
}

#[test]
fn prerelease_sorts_below_release() {
    let sorted = semver_sort_desc(&strings(&["1.0.0-rc.1", "1.0.0", "1.0.0-alpha"]));
    assert_eq!(sorted, strings(&["1.0.0", "1.0.0-rc.1", "1.0.0-alpha"]));
}

#[test]
fn unparsable_versions_stay_in_the_list() {
    let input = strings(&["latest", "1.0.0", "2.0.0"]);
    let sorted = semver_sort_desc(&input);
    assert_eq!(sorted.len(), 3);
    assert!(sorted.contains(&"latest".to_string()));
    let pos1 = sorted.iter().position(|v| v == "1.0.0").unwrap();
    let pos2 = sorted.iter().position(|v| v == "2.0.0").unwrap();
    assert!(pos2 < pos1);
    assert_eq!(semver_sort_desc(&vec![]), Vec::<String>::new());
}

#[test]
fn golang_versions() {
    let listed = parse_versions_list("v1.0.0\nv1.2.0\n\nv1.1.0\n");
    assert_eq!(listed, strings(&["v1.0.0", "v1.2.0", "v1.1.0"]));
    assert_eq!(parse_versions_list(""), Vec::<String>::new());
    let manager = GolangManager::new(());
    let _client: &() = manager.get_client();
    assert_eq!(
        GolangManager::<()>::get_all_versions(&listed),
        strings(&["v1.2.0", "v1.1.0", "v1.0.0"])
    );
    let pkg = GolangPackage { name: "golang.org/x/tools/gopls".to_string() };
    assert_eq!(
        GolangEndpoint::VersionsList(&pkg).as_full_url(),
        "https://proxy.golang.org/golang.org/x/tools/gopls/@v/list"
    );
    let e = GolangError::from_failure(RequestFailure { status: Some(410) });
    assert_eq!(e.status_code(), 500);
    assert_eq!(e.message(), "Client error. Some(410)");
}

#[test]
fn npm_packages() {
    let scoped = NpmPackage::from_query(&QueryParams::parse("scope=%40elm-tooling&package=elm-language-server"));
    assert_eq!(scoped.scope.as_deref(), Some("@elm-tooling"));
    assert_eq!(
        NpmEndpoint::Package(&scoped).as_full_url(),
        "https://registry.npmjs.com/@elm-tooling/elm-language-server"
    );
    let plain = NpmPackage::from_query(&QueryParams::parse("scope=_&package=typescript"));
    assert_eq!(plain.scope, None);
    assert_eq!(NpmEndpoint::Package(&plain).as_full_url(), "https://registry.npmjs.com/typescript");
    assert_eq!(
        client_headers().get("accept").map(|s| s.as_str()),
        Some("application/vnd.npm.install-v1+json; q=1.0, application/json; q=0.8")
    );
}

#[test]
fn openvsx_endpoints_and_response() {
    let ext = OpenVSXExtension::from_query(&QueryParams::parse("namespace=redhat&extension=java"));
    assert_eq!(OpenVSXEndpoint::Extension(&ext).as_full_url(), "https://open-vsx.org/api/redhat/java");
    assert_eq!(
        OpenVSXEndpoint::ExtensionVersions(&ext).as_full_url(),
        "https://open-vsx.org/api/redhat/java/versions"
    );
    assert_eq!(versions_query(50, 100), vec![("size", 50), ("offset", 100)]);
    let response = OpenVSXExtensionResponse::from_dto(OpenVSXExtensionDto {
        namespace: "redhat".to_string(),
        name: "java".to_string(),
        version: "1.2.3".to_string(),
    });
    assert_eq!(response.name, "redhat/java");
    assert_eq!(response.version, "1.2.3");
    let e = OpenVSXError::from_failure(RequestFailure { status: Some(404) });
    assert_eq!(e.status_code(), 404);
    let _m = OpenVSXManager::new(());
}

fn page(versions: &[&str], total: u64) -> OpenVSXExtensionVersionsDto {
    OpenVSXExtensionVersionsDto {
        versions: versions.iter().map(|v| (v.to_string(), format!("https://x/{v}"))).collect(),
        total_size: total,
    }
}

#[test]
fn openvsx_pages_until_total() {
    let mut pager = VersionsPager::new();
    assert_eq!(pager.next_request(), Some((50, 0)));
    pager.accept_page(page(&["1.0.0", "3.0.0"], 120));
    assert_eq!(pager.next_request(), Some((50, 50)));
    pager.accept_page(page(&["2.0.0"], 120));
    assert_eq!(pager.next_request(), Some((50, 100)));
    assert!(pager.can_advance());
    pager.accept_page(page(&["0.1.0"], 120));
    assert_eq!(pager.next_request(), None);
    assert_eq!(pager.into_sorted_versions(), strings(&["3.0.0", "2.0.0", "1.0.0", "0.1.0"]));
}

#[test]
fn openvsx_single_page() {
    let mut pager = VersionsPager::new();
    pager.accept_page(page(&[], 0));
    assert_eq!(pager.next_request(), None);
    assert_eq!(pager.into_sorted_versions(), Vec::<String>::new());
}

fn crate_info() -> CrateInfo {
    CrateInfo {
        name: "taplo-cli".to_string(),
        max_version: "0.9.0".to_string(),
        versions: strings(&["0.9.0", "0.8.1", "0.8.0"]),
    }
}

#[test]
fn crates_versions() {
    assert_eq!(
        CratesManager::<()>::get_all_crate_versions(crate_info()),
        strings(&["0.9.0", "0.8.1", "0.8.0"])
    );
    let found = CratesManager::<()>::get_crate_version(crate_info(), "0.8.1").unwrap();
    assert_eq!(found.name, "taplo-cli");
    let missing = CratesManager::<()>::get_crate_version(crate_info(), "1.0.0").unwrap_err();
    assert!(matches!(missing, CratesError::ResourceNotFound { source: None }));
    let response = CrateResponse::from_info(crate_info());
    assert_eq!(response.name, "taplo-cli");
    assert_eq!(response.version, "0.9.0");
    let _m = CratesManager::new(());
}

#[test]
fn crates_errors() {
    let e = CratesError::from_api_failure(CratesApiFailure::NotFound);
    assert_eq!(e.status_code(), 404);
    let e = CratesError::from_api_failure(CratesApiFailure::PermissionDenied);
    assert!(matches!(e, CratesError::ClientError { source: None }));
    assert_eq!(e.message(), "Client error.");
    let e = CratesError::from_api_failure(CratesApiFailure::JsonDecode);
    assert_eq!(e.status_code(), 502);
    assert_eq!(e.message(), "Crate registry API had a server error.");
    let e = CratesError::from_api_failure(CratesApiFailure::Http(RequestFailure { status: Some(500) }));
    assert!(matches!(e, CratesError::NetworkError { source: Some(_) }));
    let e = CratesError::from_failure(RequestFailure { status: Some(599) });
    assert_eq!(e.status_code(), 502);
}

fn dto(v: &str) -> PackagistPackageDto {
    PackagistPackageDto { version: v.to_string() }
}

fn packages() -> Vec<(String, Vec<PackagistPackageDto>)> {
    vec![
        ("other/pkg".to_string(), vec![dto("9.9.9")]),
        ("vendor/pkg".to_string(), vec![dto("2.0.0"), dto("1.0.0"), dto("1.0.0")]),
    ]
}

#[test]
fn packagist_versions() {
    type M = PackagistManager<()>;
    assert_eq!(M::get_package(packages(), "vendor/pkg").unwrap().version, "2.0.0");
    assert_eq!(M::get_package_version(packages(), "vendor/pkg", "1.0.0").unwrap().version, "1.0.0");
    assert!(matches!(
        M::get_package_version(packages(), "vendor/pkg", "3.0.0"),
        Err(PackagistError::ResourceNotFound { source: None })
    ));
    assert_eq!(
        M::get_all_package_versions(packages(), "vendor/pkg").unwrap(),
        strings(&["2.0.0", "1.0.0", "1.0.0"])
    );
    assert!(matches!(
        M::resolve_package_versions(packages(), "missing/pkg"),
        Err(PackagistError::ResourceNotFound { source: None })
    ));
    let empty = vec![("vendor/pkg".to_string(), vec![])];
    assert!(M::get_package(empty, "vendor/pkg").is_err());
    let _m = PackagistManager::new(());
}

fn gem(v: &str, pre: bool) -> RubyGemVersionDto {
    RubyGemVersionDto { version: v.to_string(), prerelease: pre }
}

#[test]
fn rubygems_versions() {
    type M = RubyGemsManager<()>;
    let versions = vec![gem("2.0.0.rc1", true), gem("1.1.0", false), gem("1.0.0", false)];
    assert_eq!(M::get_all_gem_versions(&versions), strings(&["1.1.0", "1.0.0"]));
    assert!(M::get_gem_version(versions, "1.0.0").unwrap().version == "1.0.0");
    let err = M::get_gem_version(vec![gem("1.0.0", false)], "9").unwrap_err();
    assert!(matches!(err, RubyGemsError::ResourceNotFound { source: None }));
    assert_eq!(err.status_code(), 404);
    let _m = RubyGemsManager::new(());
}

#[test]
fn listings_come_newest_first() {
    let ascending = CrateInfo {
        name: "taplo-cli".to_string(),
        max_version: "0.10.0".to_string(),
        versions: strings(&["0.1.0", "0.10.0", "0.2.0"]),
    };
    assert_eq!(
        CratesManager::<()>::get_all_crate_versions(ascending),
        strings(&["0.10.0", "0.2.0", "0.1.0"])
    );
    let gems = vec![gem("1.0.0", false), gem("1.2.0.pre", true), gem("1.10.0", false), gem("1.2.0", false)];
    assert_eq!(
        RubyGemsManager::<()>::get_all_gem_versions(&gems),
        strings(&["1.10.0", "1.2.0", "1.0.0"])
    );
    let packages = vec![("vendor/pkg".to_string(), vec![dto("v1.0.0"), dto("v1.1.0"), dto("v2.0.0")])];
    assert_eq!(
        PackagistManager::<()>::get_all_package_versions(packages, "vendor/pkg").unwrap(),
        strings(&["v2.0.0", "v1.1.0", "v1.0.0"])
    );
}

#[test]
fn sort_keeps_order_of_equal_versions() {
    assert_eq!(
        semver_sort_desc(&strings(&["1.0.0", "v2.0.0", "v1.0.0"])),
        strings(&["v2.0.0", "1.0.0", "v1.0.0"])
    );
    assert_eq!(semver_sort_desc(&strings(&["b", "1.0.0", "a"])), strings(&["b", "1.0.0", "a"]));
}
