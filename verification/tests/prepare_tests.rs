//! The acquisition state machine, driven through simulated runs.

use package_cache::mirror::{configured_mirrors, MirrorConfiguration};
use package_cache::pkg::{PackageError, PackageSpec};
use package_cache::prepare::{
    downloading_message, prepare_package, Action, Event, FetchOutcome, PreparePackage, Roots, Step,
    UnpackOutcome,
};
use package_cache::version::PackageVersion;
use std::io::Write;

fn spec(namespace: &str, name: &str) -> PackageSpec {
    PackageSpec {
        namespace: namespace.to_string(),
        name: name.to_string(),
        version: PackageVersion { major: 1, minor: 2, patch: 0 },
    }
}

fn roots() -> Roots {
    Roots { data: Some("/data".to_string()), cache: Some("/cache".to_string()) }
}

fn start(namespace: &str) -> (PreparePackage, Step) {
    prepare_package(spec(namespace, "example"), MirrorConfiguration::default(), roots())
}

fn stat_path(step: &Step) -> &str {
    match step {
        Step::Act(Action::Stat(p)) => p.as_str(),
        _ => panic!("expected a stat action"),
    }
}

#[test]
fn existing_data_path_wins_unconditionally() {
    let (mut m, step) = start("preview");
    assert_eq!(stat_path(&step), "/data/typst/packages/preview/example/1.2.0");
    match m.on_event(Event::Stat(true)) {
        Step::Done(Ok(path)) => {
            assert_eq!(path, "/data/typst/packages/preview/example/1.2.0");
        },
        _ => panic!("expected the data path"),
    }
}

#[test]
fn existing_cache_path_is_returned_without_fetching() {
    let (mut m, step) = start("preview");
    assert_eq!(stat_path(&step), "/data/typst/packages/preview/example/1.2.0");
    let step = m.on_event(Event::Stat(false));
    assert_eq!(stat_path(&step), "/cache/typst/packages/preview/example/1.2.0");
    match m.on_event(Event::Stat(true)) {
        Step::Done(Ok(path)) => {
            assert_eq!(path, "/cache/typst/packages/preview/example/1.2.0");
        },
        _ => panic!("expected the cache path"),
    }
}

#[test]
fn unregistered_namespace_is_not_found_without_any_fetch() {
    let (mut m, step) = start("local");
    assert!(matches!(step, Step::Act(Action::Stat(_))));
    let step = m.on_event(Event::Stat(false));
    assert!(matches!(step, Step::Act(Action::Stat(_))));
    match m.on_event(Event::Stat(false)) {
        Step::Done(Err(PackageError::NotFound(s))) => {
            assert_eq!(s.namespace, "local");
            assert_eq!(s.name, "example");
        },
        _ => panic!("expected NotFound without a fetch"),
    }
}

#[test]
fn missing_cache_root_is_not_found() {
    let (mut m, step) = prepare_package(
        spec("preview", "example"),
        MirrorConfiguration::default(),
        Roots { data: Some("/data".to_string()), cache: None },
    );
    assert!(matches!(step, Step::Act(Action::Stat(_))));
    match m.on_event(Event::Stat(false)) {
        Step::Done(Err(PackageError::NotFound(_))) => {},
        _ => panic!("expected NotFound"),
    }
}

fn drive_to_fetch(namespace: &str) -> (PreparePackage, String) {
    let (mut m, _) = start(namespace);
    let _ = m.on_event(Event::Stat(false));
    match m.on_event(Event::Stat(false)) {
        Step::Act(Action::Fetch(url)) => (m, url),
        _ => panic!("expected a fetch action"),
    }
}

#[test]
fn fetch_uses_the_default_template() {
    let (_, url) = drive_to_fetch("preview");
    assert_eq!(url, "https://packages.typst.org/preview/example-1.2.0.tar.gz");
}

#[test]
fn fetch_uses_an_overriding_template() {
    let mirrors = configured_mirrors(vec![(
        "preview".to_string(),
        "https://mirror.local/p/$name/$version.tar.gz".to_string(),
    )]);
    let (mut m, _) = prepare_package(spec("preview", "example"), mirrors, roots());
    let _ = m.on_event(Event::Stat(false));
    match m.on_event(Event::Stat(false)) {
        Step::Act(Action::Fetch(url)) => {
            assert_eq!(url, "https://mirror.local/p/example/1.2.0.tar.gz");
        },
        _ => panic!("expected a fetch action"),
    }
}

#[test]
fn archive_404_is_not_found() {
    let (mut m, _) = drive_to_fetch("preview");
    match m.on_event(Event::Fetch(FetchOutcome::Status {
        code: 404,
        message: "status code 404".to_string(),
    })) {
        Step::Done(Err(PackageError::NotFound(s))) => {
            assert_eq!(s.namespace, "preview");
        },
        _ => panic!("a 404 must be NotFound, not NetworkFailed"),
    }
}

#[test]
fn other_statuses_and_transport_failures_are_network_failed() {
    let (mut m, _) = drive_to_fetch("preview");
    match m.on_event(Event::Fetch(FetchOutcome::Status {
        code: 500,
        message: "status code 500".to_string(),
    })) {
        Step::Done(Err(PackageError::NetworkFailed(Some(msg)))) => {
            assert_eq!(msg, "status code 500");
        },
        _ => panic!("a non-404 status must be NetworkFailed"),
    }
    let (mut m, _) = drive_to_fetch("preview");
    match m.on_event(Event::Fetch(FetchOutcome::Transport {
        message: "connection refused".to_string(),
    })) {
        Step::Done(Err(PackageError::NetworkFailed(Some(msg)))) => {
            assert_eq!(msg, "connection refused");
        },
        _ => panic!("a transport failure must be NetworkFailed"),
    }
}

#[test]
fn a_corrupt_body_is_a_malformed_archive() {
    let (mut m, _) = drive_to_fetch("preview");
    match m.on_event(Event::Fetch(FetchOutcome::Bytes(vec![0, 1, 2, 3]))) {
        Step::Done(Err(PackageError::MalformedArchive(Some(_)))) => {},
        _ => panic!("garbage bytes must be MalformedArchive"),
    }
}

fn gzip_of(payload: &[u8]) -> Vec<u8> {
    let mut encoder = flate2::write::GzEncoder::new(Vec::new(), flate2::Compression::default());
    encoder.write_all(payload).unwrap();
    encoder.finish().unwrap()
}

#[test]
fn a_valid_body_is_decompressed_and_handed_to_unpack() {
    let payload = b"tar-shaped payload";
    let (mut m, _) = drive_to_fetch("preview");
    match m.on_event(Event::Fetch(FetchOutcome::Bytes(gzip_of(payload)))) {
        Step::Act(Action::Unpack { dir, bytes }) => {
            assert_eq!(dir, "/cache/typst/packages/preview/example/1.2.0");
            assert_eq!(bytes, payload);
        },
        _ => panic!("expected an unpack action"),
    }
}

#[test]
fn a_successful_unpack_yields_the_cache_path() {
    let (mut m, _) = drive_to_fetch("preview");
    let step = m.on_event(Event::Fetch(FetchOutcome::Bytes(gzip_of(b"content"))));
    assert!(matches!(step, Step::Act(Action::Unpack { .. })));
    let step = m.on_event(Event::Unpack(UnpackOutcome::Unpacked));
    assert_eq!(stat_path(&step), "/cache/typst/packages/preview/example/1.2.0");
    match m.on_event(Event::Stat(true)) {
        Step::Done(Ok(path)) => {
            assert_eq!(path, "/cache/typst/packages/preview/example/1.2.0");
        },
        _ => panic!("expected the populated cache path"),
    }
}

#[test]
fn a_failed_unpack_is_a_malformed_archive() {
    let (mut m, _) = drive_to_fetch("preview");
    let _ = m.on_event(Event::Fetch(FetchOutcome::Bytes(gzip_of(b"content"))));
    match m.on_event(Event::Unpack(UnpackOutcome::Failed("truncated entry".to_string()))) {
        Step::Done(Err(PackageError::MalformedArchive(Some(msg)))) => {
            assert_eq!(msg, "truncated entry");
        },
        _ => panic!("a failed unpack must be MalformedArchive"),
    }
}

#[test]
fn preview_gets_a_second_attempt_when_the_cache_stays_empty() {
    let (mut m, _) = drive_to_fetch("preview");
    let _ = m.on_event(Event::Fetch(FetchOutcome::Bytes(gzip_of(b"content"))));
    let _ = m.on_event(Event::Unpack(UnpackOutcome::Unpacked));
    match m.on_event(Event::Stat(false)) {
        Step::Act(Action::Fetch(url)) => {
            assert_eq!(url, "https://packages.typst.org/preview/example-1.2.0.tar.gz");
        },
        _ => panic!("expected the second fetch attempt"),
    }
    let _ = m.on_event(Event::Fetch(FetchOutcome::Bytes(gzip_of(b"content"))));
    let _ = m.on_event(Event::Unpack(UnpackOutcome::Unpacked));
    match m.on_event(Event::Stat(false)) {
        Step::Done(Err(PackageError::NotFound(_))) => {},
        _ => panic!("expected NotFound after the second attempt"),
    }
}

#[test]
fn registered_non_preview_namespace_gets_no_second_attempt() {
    let mirrors = configured_mirrors(vec![(
        "extra".to_string(),
        "https://mirror.local/e/$name/$version.tar.gz".to_string(),
    )]);
    let (mut m, _) = prepare_package(spec("extra", "example"), mirrors, roots());
    let _ = m.on_event(Event::Stat(false));
    let step = m.on_event(Event::Stat(false));
    assert!(matches!(step, Step::Act(Action::Fetch(_))));
    let _ = m.on_event(Event::Fetch(FetchOutcome::Bytes(gzip_of(b"content"))));
    let _ = m.on_event(Event::Unpack(UnpackOutcome::Unpacked));
    match m.on_event(Event::Stat(false)) {
        Step::Done(Err(PackageError::NotFound(_))) => {},
        _ => panic!("expected NotFound without a second attempt"),
    }
}

#[test]
fn the_advisory_line_names_the_coordinate() {
    assert_eq!(
        downloading_message(&spec("preview", "example")),
        "downloading @preview/example:1.2.0"
    );
}
