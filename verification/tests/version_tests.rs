//! Version parsing, ordering, and latest-version resolution.

use package_cache::pkg::VersionlessPackageSpec;
use package_cache::resolve::{
    determine_latest_version, index_result, IndexFetchOutcome, VersionEvidence,
};
use package_cache::version::{latest_in_index, latest_of_names, parse_version, PackageInfo, PackageVersion};

fn v(major: u32, minor: u32, patch: u32) -> PackageVersion {
    PackageVersion { major, minor, patch }
}

#[test]
fn parse_version_accepts_three_components() {
    assert_eq!(parse_version("1.2.0"), Some(v(1, 2, 0)));
    assert_eq!(parse_version("0.0.0"), Some(v(0, 0, 0)));
    assert_eq!(parse_version("4294967295.1.2"), Some(v(u32::MAX, 1, 2)));
    assert_eq!(parse_version("007.1.2"), Some(v(7, 1, 2)));
}

#[test]
fn parse_version_rejects_everything_else() {
    assert_eq!(parse_version(""), None);
    assert_eq!(parse_version("1.2"), None);
    assert_eq!(parse_version("1.2.3.4"), None);
    assert_eq!(parse_version("a.b.c"), None);
    assert_eq!(parse_version("1..2"), None);
    assert_eq!(parse_version("1.2."), None);
    assert_eq!(parse_version(".1.2"), None);
    assert_eq!(parse_version("1.2.x"), None);
    assert_eq!(parse_version("4294967296.0.0"), None);
    assert_eq!(parse_version("1.2.0 "), None);
}

#[test]
fn version_order_is_lexicographic() {
    assert!(v(1, 0, 0).le(&v(1, 2, 0)));
    assert!(v(1, 2, 0).le(&v(1, 2, 0)));
    assert!(!v(1, 2, 1).le(&v(1, 2, 0)));
    assert!(v(0, 9, 9).le(&v(1, 0, 0)));
    assert!(!v(2, 0, 0).le(&v(1, 9, 9)));
}

#[test]
fn version_renders_as_dotted_decimal() {
    assert_eq!(v(1, 2, 0).to_version_string(), "1.2.0");
    assert_eq!(v(0, 10, 305).to_version_string(), "0.10.305");
}

fn sample_index() -> Vec<PackageInfo> {
    vec![
        PackageInfo { name: "a".to_string(), version: v(1, 0, 0) },
        PackageInfo { name: "a".to_string(), version: v(1, 2, 0) },
        PackageInfo { name: "b".to_string(), version: v(9, 0, 0) },
    ]
}

#[test]
fn latest_in_index_takes_maximum_of_matching_names() {
    assert_eq!(latest_in_index(&sample_index(), "a"), Some(v(1, 2, 0)));
    assert_eq!(latest_in_index(&sample_index(), "b"), Some(v(9, 0, 0)));
    assert_eq!(latest_in_index(&sample_index(), "c"), None);
}

#[test]
fn determine_latest_version_for_preview_uses_the_index() {
    let spec = VersionlessPackageSpec {
        namespace: "preview".to_string(),
        name: "a".to_string(),
    };
    let r = determine_latest_version(
        &spec,
        VersionEvidence::RemoteIndex(IndexFetchOutcome::Parsed(sample_index())),
    );
    assert_eq!(r, Ok(v(1, 2, 0)));
}

#[test]
fn determine_latest_version_reports_a_missing_name() {
    let spec = VersionlessPackageSpec {
        namespace: "preview".to_string(),
        name: "zzz".to_string(),
    };
    let r = determine_latest_version(
        &spec,
        VersionEvidence::RemoteIndex(IndexFetchOutcome::Parsed(sample_index())),
    );
    assert_eq!(r, Err("failed to find package @preview/zzz".to_string()));
}

#[test]
fn determine_latest_version_reports_index_failures() {
    let spec = VersionlessPackageSpec {
        namespace: "preview".to_string(),
        name: "a".to_string(),
    };
    let r = determine_latest_version(
        &spec,
        VersionEvidence::RemoteIndex(IndexFetchOutcome::Status {
            code: 404,
            message: "status code 404".to_string(),
        }),
    );
    assert_eq!(r, Err("failed to fetch package index (not found)".to_string()));
}

#[test]
fn determine_latest_version_for_other_namespaces_scans_local_names() {
    let spec = VersionlessPackageSpec {
        namespace: "local".to_string(),
        name: "mypkg".to_string(),
    };
    let names = vec!["0.1.0".to_string(), "0.2.0".to_string(), "0.1.5".to_string()];
    let r = determine_latest_version(&spec, VersionEvidence::LocalVersionNames(names));
    assert_eq!(r, Ok(v(0, 2, 0)));
}

#[test]
fn determine_latest_version_ignores_unparsable_directory_names() {
    let spec = VersionlessPackageSpec {
        namespace: "local".to_string(),
        name: "mypkg".to_string(),
    };
    let names = vec!["notes".to_string(), "0.1.0".to_string(), "v2".to_string()];
    let r = determine_latest_version(&spec, VersionEvidence::LocalVersionNames(names));
    assert_eq!(r, Ok(v(0, 1, 0)));
}

#[test]
fn determine_latest_version_asks_for_a_version_when_nothing_is_installed() {
    let spec = VersionlessPackageSpec {
        namespace: "local".to_string(),
        name: "mypkg".to_string(),
    };
    let r = determine_latest_version(&spec, VersionEvidence::LocalVersionNames(vec![]));
    assert_eq!(r, Err("please specify the desired version".to_string()));
}

#[test]
fn latest_of_names_takes_maximum_of_parsable_names() {
    let names = vec!["0.1.0".to_string(), "0.2.0".to_string(), "0.1.5".to_string()];
    assert_eq!(latest_of_names(&names), Some(v(0, 2, 0)));
    assert_eq!(latest_of_names(&vec!["junk".to_string()]), None);
}

#[test]
fn index_result_messages_are_exact() {
    assert_eq!(
        index_result(IndexFetchOutcome::Status { code: 404, message: "s".to_string() }),
        Err("failed to fetch package index (not found)".to_string())
    );
    assert_eq!(
        index_result(IndexFetchOutcome::Status { code: 500, message: "status code 500".to_string() }),
        Err("failed to fetch package index (status code 500)".to_string())
    );
    assert_eq!(
        index_result(IndexFetchOutcome::Transport { message: "connection refused".to_string() }),
        Err("failed to fetch package index (connection refused)".to_string())
    );
    assert_eq!(
        index_result(IndexFetchOutcome::Malformed { message: "bad json".to_string() }),
        Err("failed to parse package index: bad json".to_string())
    );
}
