use manifest_resolver::assets::AssetManager;
use manifest_resolver::downloads::DownloadManager;
use manifest_resolver::json::{member, same_text, signed_of, text_of, unsigned_of, Json};
use manifest_resolver::libraries::{parse_os, LibraryManager, OS};
use manifest_resolver::pipeline::{stage_name, step, Event, Phase, Pipeline, Progress, Request, Stage};
use manifest_resolver::versions::{parse_version_type, Version, VersionManager, VersionType};
use manifest_resolver::FetchError;

fn s(text: &str) -> Json {
    Json::Str(text.to_string())
}

fn obj(entries: Vec<(&str, Json)>) -> Json {
    Json::Object(entries.into_iter().map(|(k, v)| (k.to_string(), v)).collect())
}

fn version_entry(id: &str, kind: &str, url: &str) -> Json {
    obj(vec![
        ("id", s(id)),
        ("type", s(kind)),
        ("url", s(url)),
        ("time", s("2024-01-01T00:00:00+00:00")),
        ("releaseTime", s("2023-12-31T00:00:00+00:00")),
        ("sha1", s("abc")),
        ("complianceLevel", Json::UInt(1)),
    ])
}

fn manifest(release: &str, snapshot: &str, versions: Vec<Json>) -> Json {
    obj(vec![
        ("latest", obj(vec![("release", s(release)), ("snapshot", s(snapshot))])),
        ("versions", Json::Array(versions)),
    ])
}

fn empty_versions() -> VersionManager {
    VersionManager { versions: None, latest: None }
}

fn ids(m: &VersionManager) -> Vec<String> {
    m.versions.as_ref().unwrap().iter().map(|v| v.id.clone()).collect()
}

fn descriptor() -> Json {
    obj(vec![
        (
            "assetIndex",
            obj(vec![
                ("id", s("17")),
                ("sha1", s("idxsha")),
                ("size", Json::UInt(4500)),
                ("totalSize", Json::UInt(700000)),
                ("url", s("http://host/indexes/17.json")),
            ]),
        ),
        (
            "libraries",
            Json::Array(vec![obj(vec![
                ("name", s("lib-a")),
                (
                    "downloads",
                    obj(vec![(
                        "artifact",
                        obj(vec![
                            ("path", s("a.jar")),
                            ("sha1", s("x")),
                            ("size", Json::UInt(10)),
                            ("url", s("http://host/a.jar")),
                        ]),
                    )]),
                ),
                (
                    "rules",
                    Json::Array(vec![obj(vec![("action", s("allow")), ("os", obj(vec![("name", s("linux"))]))])]),
                ),
            ])]),
        ),
    ])
}

fn asset_index() -> Json {
    obj(vec![(
        "objects",
        obj(vec![
            ("icons/icon.png", obj(vec![("hash", s("h1")), ("size", Json::UInt(12))])),
            ("lang/en.json", obj(vec![("hash", s("h2")), ("size", Json::UInt(34))])),
        ]),
    )])
}

#[test]
fn unknown_types_are_dropped_in_order() {
    let doc = manifest(
        "1.0",
        "s1",
        vec![
            version_entry("a", "release", "u1"),
            version_entry("b", "pending", "u2"),
            version_entry("c", "old_alpha", "u3"),
            version_entry("d", "", "u4"),
            version_entry("e", "old_beta", "u5"),
        ],
    );
    let mut m = empty_versions();
    m.parse_versions(&doc);
    assert_eq!(ids(&m), vec!["a", "c", "e"]);
    let types: Vec<VersionType> = m.versions.as_ref().unwrap().iter().map(|v| v.version_type).collect();
    assert_eq!(types, vec![VersionType::Release, VersionType::OldAlpha, VersionType::OldBeta]);
}

#[test]
fn manifest_without_known_types_gives_empty_catalog() {
    let doc = manifest("1.0", "s1", vec![version_entry("a", "beta", "u1")]);
    let mut m = empty_versions();
    m.parse_versions(&doc);
    assert_eq!(m.versions.as_ref().unwrap().len(), 0);
}

#[test]
fn round_trip_manifest() {
    let doc = manifest(
        "1.20",
        "24w01a",
        vec![
            version_entry("1.20", "release", "http://host/1.20.json"),
            version_entry("24w01a", "snapshot", "http://host/24w01a.json"),
            version_entry("weird", "experiment", "http://host/weird.json"),
        ],
    );
    let mut m = empty_versions();
    assert!(m.populate(&Ok(doc)));
    assert_eq!(ids(&m), vec!["1.20", "24w01a"]);
    let latest = m.latest.as_ref().unwrap();
    assert_eq!(latest.release, "1.20");
    assert_eq!(latest.snapshot, "24w01a");
    let v = m.get_version("1.20").unwrap();
    assert_eq!(v.url, "http://host/1.20.json");
    assert_eq!(v.time, "2024-01-01T00:00:00+00:00");
    assert_eq!(v.release_time, "2023-12-31T00:00:00+00:00");
    assert_eq!(v.sha1, "abc");
    assert_eq!(v.compliance_level, 1);
}

#[test]
fn lookup_returns_first_of_duplicates() {
    let doc = manifest(
        "x",
        "y",
        vec![
            version_entry("dup", "release", "first"),
            version_entry("other", "snapshot", "o"),
            version_entry("dup", "snapshot", "second"),
        ],
    );
    let mut m = empty_versions();
    m.parse_versions(&doc);
    let v = m.get_version("dup").unwrap();
    assert_eq!(v.url, "first");
    assert_eq!(v.version_type, VersionType::Release);
    assert!(m.get_version("missing").is_none());
}

#[test]
fn lookup_in_empty_catalog() {
    let mut m = empty_versions();
    assert!(m.get_version("1.0").is_none());
    m.parse_versions(&manifest("", "", vec![]));
    assert!(m.get_version("1.0").is_none());
}

#[test]
fn missing_fields_read_as_defaults() {
    let doc = obj(vec![(
        "versions",
        Json::Array(vec![obj(vec![("type", s("release")), ("complianceLevel", s("high"))])]),
    )]);
    let mut m = empty_versions();
    assert!(m.populate(&Ok(doc)));
    let latest = m.latest.as_ref().unwrap();
    assert_eq!(latest.release, "");
    assert_eq!(latest.snapshot, "");
    let v = &m.versions.as_ref().unwrap()[0];
    assert_eq!(v.id, "");
    assert_eq!(v.url, "");
    assert_eq!(v.compliance_level, 0);
}

#[test]
fn compliance_level_keeps_low_byte() {
    let doc = manifest("", "", vec![obj(vec![("type", s("release")), ("complianceLevel", Json::UInt(258))])]);
    let mut m = empty_versions();
    m.parse_versions(&doc);
    assert_eq!(m.versions.as_ref().unwrap()[0].compliance_level, 2);
}

#[test]
fn failed_manifest_fetch_changes_nothing() {
    let mut m = empty_versions();
    assert!(!m.populate(&Err(FetchError::Transport)));
    assert!(m.versions.is_none());
    assert!(m.latest.is_none());
}

#[test]
fn version_equality_is_structural() {
    let doc = manifest("", "", vec![version_entry("a", "release", "u"), version_entry("a", "release", "u")]);
    let mut m = empty_versions();
    m.parse_versions(&doc);
    let list: &Vec<Version> = m.versions.as_ref().unwrap();
    assert!(list[0] == list[1]);
    let doc2 = manifest("", "", vec![version_entry("a", "snapshot", "u")]);
    let mut m2 = empty_versions();
    m2.parse_versions(&doc2);
    assert!(list[0] != m2.versions.as_ref().unwrap()[0]);
}

#[test]
fn version_type_tags() {
    assert_eq!(parse_version_type("snapshot"), Some(VersionType::Snapshot));
    assert_eq!(parse_version_type("release"), Some(VersionType::Release));
    assert_eq!(parse_version_type("old_beta"), Some(VersionType::OldBeta));
    assert_eq!(parse_version_type("old_alpha"), Some(VersionType::OldAlpha));
    assert_eq!(parse_version_type("Release"), None);
}

#[test]
fn asset_index_is_read() {
    let mut a = AssetManager { asset_index: None };
    assert!(a.populate(&Ok(descriptor())));
    let idx = a.get_asset_index().as_ref().unwrap();
    assert_eq!(idx.id, "17");
    assert_eq!(idx.sha1, "idxsha");
    assert_eq!(idx.size, 4500);
    assert_eq!(idx.total_size, 700000);
    assert_eq!(idx.url, "http://host/indexes/17.json");
}

#[test]
fn missing_asset_index_gives_defaults() {
    let mut a = AssetManager { asset_index: None };
    a.parse_asset_index(&obj(vec![("libraries", Json::Array(vec![]))]));
    let idx = a.get_asset_index().as_ref().unwrap();
    assert_eq!(idx.id, "");
    assert_eq!(idx.sha1, "");
    assert_eq!(idx.size, 0);
    assert_eq!(idx.total_size, 0);
    assert_eq!(idx.url, "");
}

#[test]
fn library_with_linux_rule() {
    let mut l = LibraryManager { libraries: None };
    assert!(l.populate(&Ok(descriptor())));
    let libs = l.get_libraries().as_ref().unwrap();
    assert_eq!(libs.len(), 1);
    assert_eq!(libs[0].name, "lib-a");
    assert_eq!(libs[0].artifact.path, "a.jar");
    assert_eq!(libs[0].artifact.sha1, "x");
    assert_eq!(libs[0].artifact.size, 10);
    assert_eq!(libs[0].artifact.url, "http://host/a.jar");
    let rules = libs[0].rules.as_ref().unwrap();
    assert_eq!(rules.len(), 1);
    assert_eq!(rules[0].action, "allow");
    assert_eq!(rules[0].os, OS::Linux);
}

#[test]
fn unknown_platforms_mean_no_rules() {
    let doc = obj(vec![(
        "libraries",
        Json::Array(vec![
            obj(vec![
                ("name", s("lib-b")),
                (
                    "rules",
                    Json::Array(vec![
                        obj(vec![("action", s("allow")), ("os", obj(vec![("name", s("solaris"))]))]),
                        obj(vec![("action", s("disallow"))]),
                    ]),
                ),
            ]),
            obj(vec![("name", s("lib-c")), ("rules", Json::Array(vec![]))]),
            obj(vec![
                ("name", s("lib-d")),
                (
                    "rules",
                    Json::Array(vec![
                        obj(vec![("action", s("allow")), ("os", obj(vec![("name", s("beos"))]))]),
                        obj(vec![("action", s("disallow")), ("os", obj(vec![("name", s("osx"))]))]),
                        obj(vec![("action", s("allow")), ("os", obj(vec![("name", s("windows"))]))]),
                    ]),
                ),
            ]),
        ]),
    )]);
    let mut l = LibraryManager { libraries: None };
    l.parse_libraries(&doc);
    let libs = l.get_libraries().as_ref().unwrap();
    assert_eq!(libs.len(), 3);
    assert!(libs[0].rules.is_none());
    assert!(libs[1].rules.is_none());
    assert_eq!(libs[0].artifact.path, "");
    assert_eq!(libs[0].artifact.size, 0);
    let rules = libs[2].rules.as_ref().unwrap();
    assert_eq!(rules.len(), 2);
    assert_eq!(rules[0].action, "disallow");
    assert_eq!(rules[0].os, OS::MacOS);
    assert_eq!(rules[1].os, OS::Windows);
}

#[test]
fn platform_names() {
    assert_eq!(parse_os("windows"), Some(OS::Windows));
    assert_eq!(parse_os("linux"), Some(OS::Linux));
    assert_eq!(parse_os("osx"), Some(OS::MacOS));
    assert_eq!(parse_os("macos"), None);
}

#[test]
fn missing_libraries_give_empty_list() {
    let mut l = LibraryManager { libraries: None };
    l.parse_libraries(&obj(vec![("libraries", s("none"))]));
    assert_eq!(l.get_libraries().as_ref().unwrap().len(), 0);
}

#[test]
fn objects_are_flattened() {
    let mut d = DownloadManager { objects: None, failed_downloads: None };
    assert!(d.populate(&Ok(asset_index())));
    let objects = d.get_objects().as_ref().unwrap();
    assert_eq!(objects.len(), 2);
    assert_eq!(objects[0].name, "icons/icon.png");
    assert_eq!(objects[0].hash, "h1");
    assert_eq!(objects[0].size, 12);
    assert_eq!(objects[1].name, "lang/en.json");
    assert_eq!(objects[1].size, 34);
    assert!(d.failed_downloads.is_none());
}

#[test]
fn object_sizes_read_as_signed() {
    let doc = obj(vec![(
        "objects",
        obj(vec![
            ("neg", obj(vec![("size", Json::NegInt(-5))])),
            ("huge", obj(vec![("hash", Json::UInt(3)), ("size", Json::UInt(u64::MAX))])),
            ("frac", obj(vec![("size", Json::Decimal)])),
        ]),
    )]);
    let mut d = DownloadManager { objects: None, failed_downloads: None };
    d.parse_objects(&doc);
    let objects = d.get_objects().as_ref().unwrap();
    assert_eq!(objects[0].size, -5);
    assert_eq!(objects[1].size, 0);
    assert_eq!(objects[1].hash, "");
    assert_eq!(objects[2].size, 0);
}

#[test]
fn missing_objects_give_empty_list() {
    let mut d = DownloadManager { objects: None, failed_downloads: None };
    d.parse_objects(&obj(vec![]));
    assert_eq!(d.get_objects().as_ref().unwrap().len(), 0);
    assert!(!d.populate(&Err(FetchError::Decode)));
    assert_eq!(d.get_objects().as_ref().unwrap().len(), 0);
}

#[test]
fn failures_are_recorded() {
    let mut d = DownloadManager { objects: None, failed_downloads: None };
    d.record_failure("a".to_string());
    d.record_failure("b".to_string());
    assert_eq!(d.failed_downloads, Some(vec!["a".to_string(), "b".to_string()]));
}

#[test]
fn member_takes_first_key() {
    let doc = obj(vec![("k", s("one")), ("k", s("two"))]);
    assert_eq!(text_of(member(Some(&doc), "k")), "one");
    assert!(member(Some(&doc), "z").is_none());
    assert!(member(Some(&s("k")), "k").is_none());
    assert!(member(None, "k").is_none());
}

#[test]
fn scalar_defaults() {
    assert_eq!(text_of(Some(&Json::UInt(1))), "");
    assert_eq!(unsigned_of(Some(&Json::NegInt(-1))), 0);
    assert_eq!(unsigned_of(Some(&Json::UInt(7))), 7);
    assert_eq!(signed_of(Some(&Json::UInt(7))), 7);
    assert_eq!(signed_of(Some(&Json::Bool(true))), 0);
    assert_eq!(signed_of(None), 0);
    assert!(same_text("ab", "ab"));
    assert!(!same_text("ab", "abc"));
}

fn descriptor_request(p: &Pipeline) -> String {
    match p.request() {
        Request::FetchDescriptor(u) => u,
        _ => panic!("expected a descriptor request"),
    }
}

fn selected_pipeline() -> Pipeline {
    let mut p = Pipeline::new();
    let doc = manifest(
        "1.20",
        "s",
        vec![version_entry("s", "snapshot", "http://host/s.json"), version_entry("1.20", "release", "http://host/1.20.json")],
    );
    p.on_manifest(&Ok(doc));
    p
}

#[test]
fn full_run_succeeds() {
    let mut p = Pipeline::new();
    assert!(matches!(p.request(), Request::FetchManifest));
    p = selected_pipeline();
    assert_eq!(descriptor_request(&p), "http://host/1.20.json");
    p.on_asset_index(&Ok(descriptor()));
    p.on_libraries(&Ok(descriptor()));
    assert_eq!(p.phase, Phase::DescriptorsResolved);
    match p.request() {
        Request::FetchObjects(u) => assert_eq!(u, "http://host/indexes/17.json"),
        _ => panic!("expected an objects request"),
    }
    p.on_objects(&Ok(asset_index()));
    assert_eq!(p.phase, Phase::Done);
    assert!(matches!(p.request(), Request::Finished));
    assert_eq!(p.failed_stage(), None);
    assert_eq!(p.downloads.get_objects().as_ref().unwrap().len(), 2);
}

#[test]
fn descriptor_stages_in_either_order_agree() {
    let mut first = selected_pipeline();
    first.on_asset_index(&Ok(descriptor()));
    first.on_libraries(&Ok(descriptor()));
    let mut second = selected_pipeline();
    second.on_libraries(&Ok(descriptor()));
    second.on_asset_index(&Ok(descriptor()));
    assert_eq!(first.phase, second.phase);
    let a1 = first.assets.get_asset_index().as_ref().unwrap();
    let a2 = second.assets.get_asset_index().as_ref().unwrap();
    assert_eq!((&a1.id, &a1.sha1, a1.size, a1.total_size, &a1.url), (&a2.id, &a2.sha1, a2.size, a2.total_size, &a2.url));
    let l1 = first.libraries.get_libraries().as_ref().unwrap();
    let l2 = second.libraries.get_libraries().as_ref().unwrap();
    assert_eq!(l1.len(), l2.len());
    assert_eq!(l1[0].name, l2[0].name);
    assert_eq!(l1[0].artifact.url, l2[0].artifact.url);
    assert_eq!(l1[0].rules.as_ref().unwrap()[0].os, l2[0].rules.as_ref().unwrap()[0].os);
    let mut third = selected_pipeline();
    third.on_libraries(&Err(FetchError::Transport));
    assert!(matches!(third.phase, Phase::VersionSelected { .. }));
    third.on_asset_index(&Ok(descriptor()));
    assert_eq!(third.failed_stage(), Some(Stage::Libraries));
}

#[test]
fn manifest_failure_stops_everything() {
    let mut p = Pipeline::new();
    p.on_manifest(&Err(FetchError::Transport));
    assert_eq!(p.failed_stage(), Some(Stage::Manifest));
    assert!(matches!(p.request(), Request::Abort(Stage::Manifest)));
    assert_eq!(stage_name(Stage::Manifest), "manifest");
    p.on_asset_index(&Ok(descriptor()));
    p.on_libraries(&Ok(descriptor()));
    p.on_objects(&Ok(asset_index()));
    p.on_manifest(&Ok(manifest("", "", vec![])));
    assert_eq!(p.failed_stage(), Some(Stage::Manifest));
    assert!(p.assets.asset_index.is_none());
    assert!(p.libraries.libraries.is_none());
    assert!(p.downloads.objects.is_none());
    assert!(p.versions.versions.is_none());
}

#[test]
fn missing_release_fails_version_stage() {
    let mut p = Pipeline::new();
    p.on_manifest(&Ok(manifest("2.0", "s", vec![version_entry("1.0", "release", "u")])));
    assert_eq!(p.failed_stage(), Some(Stage::Version));
    assert_eq!(stage_name(Stage::Version), "version");
}

#[test]
fn both_descriptor_failures_report_asset_index() {
    let mut p = selected_pipeline();
    p.on_asset_index(&Err(FetchError::Decode));
    p.on_libraries(&Err(FetchError::Transport));
    assert_eq!(p.failed_stage(), Some(Stage::AssetIndex));
    assert!(matches!(p.request(), Request::Abort(Stage::AssetIndex)));
    assert_eq!(stage_name(Stage::AssetIndex), "asset_index");
}

#[test]
fn objects_failure_is_reported() {
    let mut p = selected_pipeline();
    p.on_asset_index(&Ok(descriptor()));
    p.on_libraries(&Ok(descriptor()));
    p.on_objects(&Err(FetchError::Transport));
    assert_eq!(p.failed_stage(), Some(Stage::Objects));
    assert_eq!(stage_name(Stage::Objects), "objects");
    assert_eq!(stage_name(Stage::Libraries), "libraries");
}

#[test]
fn step_ignores_unexpected_events() {
    assert_eq!(step(Phase::Init, Event::Objects { fetched: true }), Phase::Init);
    assert_eq!(
        step(
            Phase::VersionSelected { asset_index: Progress::Succeeded, libraries: Progress::Pending },
            Event::AssetIndex { fetched: false }
        ),
        Phase::VersionSelected { asset_index: Progress::Succeeded, libraries: Progress::Pending }
    );
    assert_eq!(
        step(Phase::Init, Event::Manifest { fetched: true, found: true }),
        Phase::VersionSelected { asset_index: Progress::Pending, libraries: Progress::Pending }
    );
}
