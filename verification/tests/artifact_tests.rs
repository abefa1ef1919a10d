use tauri_release::artifacts::{
    build_manifest, count_release_artifacts, destination_for, ensure_platform_artifacts,
    is_release_artifact, plan_copies, CopyCandidate,
};
use tauri_release::checksums::{checksum_contents, checksum_path, is_checksum_file, sha256_hex};
use tauri_release::config::ArtifactConfig;
use tauri_release::error::ReleaseError;
use tauri_release::util::HostStyle;

fn names(v: &[&str]) -> Vec<String> {
    v.iter().map(|s| s.to_string()).collect()
}

fn cand(path: &str, relative: &str, name: Option<&str>) -> CopyCandidate {
    CopyCandidate {
        path: path.to_string(),
        relative: relative.to_string(),
        file_name: name.map(|n| n.to_string()),
        is_file: true,
        inside_out: false,
    }
}

#[test]
fn artifact_names() {
    let c = ArtifactConfig::default();
    assert!(is_release_artifact("app_1.0_amd64.AppImage", &c));
    assert!(is_release_artifact("APP.DEB", &c));
    assert!(is_release_artifact("app-universal-release.apk", &c));
    assert!(is_release_artifact("bundle-aab", &c));
    assert!(is_release_artifact("latest.json", &c));
    assert!(is_release_artifact("app.msi.sig", &c));
    assert!(!is_release_artifact("notes.txt", &c));
    assert!(!is_release_artifact("deb", &c));
    assert!(!is_release_artifact("", &c));
    assert!(!is_release_artifact("libapp.so", &c));
}

#[test]
fn extensions_ignore_leading_dots_and_case() {
    let c = ArtifactConfig {
        include_extensions: vec!["..TXT".to_string()],
        include_files: vec!["Exact.Name".to_string()],
        keep_relative_paths: false,
        allow_empty: false,
    };
    assert!(is_release_artifact("readme.txt", &c));
    assert!(is_release_artifact("README-TXT", &c));
    assert!(!is_release_artifact("readme.md", &c));
    assert!(is_release_artifact("Exact.Name", &c));
    assert!(!is_release_artifact("exact.name", &c));
}

#[test]
fn counting_artifacts() {
    let c = ArtifactConfig::default();
    assert_eq!(count_release_artifacts(&names(&["a.deb", "b.txt", "c.rpm", "latest.json"]), &c), 3);
    assert_eq!(count_release_artifacts(&names(&[]), &c), 0);
}

#[test]
fn empty_platforms_fail_unless_allowed() {
    assert_eq!(ensure_platform_artifacts("linux", 2, false).unwrap(), 2);
    assert_eq!(ensure_platform_artifacts("linux", 0, true).unwrap(), 0);
    let err = ensure_platform_artifacts("android", 0, false).unwrap_err();
    assert!(matches!(err, ReleaseError::NoArtifacts { .. }));
    assert!(err.message().starts_with("no release artifacts were collected for android."));
}

#[test]
fn destinations() {
    let mut c = ArtifactConfig::default();
    assert_eq!(
        destination_for("/src/x/app.deb", "x/app.deb", &Some("app.deb".to_string()), "/out", &c, HostStyle::Posix).unwrap(),
        "/out/app.deb"
    );
    let err = destination_for("/src/..", "..", &None, "/out", &c, HostStyle::Posix).unwrap_err();
    assert!(matches!(err, ReleaseError::MissingFileName { .. }));
    c.keep_relative_paths = true;
    assert_eq!(
        destination_for("/src/x/app.deb", "x/app.deb", &Some("app.deb".to_string()), "/out", &c, HostStyle::Posix).unwrap(),
        "/out/x/app.deb"
    );
}

#[test]
fn copy_plan_skips_and_copies() {
    let c = ArtifactConfig::default();
    let mut dir = cand("/s/sub", "sub", Some("sub"));
    dir.is_file = false;
    let mut inside = cand("/s/out/y.rpm", "out/y.rpm", Some("y.rpm"));
    inside.inside_out = true;
    let cands = vec![
        dir,
        cand("/s/notes.txt", "notes.txt", Some("notes.txt")),
        cand("/s/a/x.deb", "a/x.deb", Some("x.deb")),
        inside,
        cand("/s/b/z.rpm", "b/z.rpm", Some("z.rpm")),
    ];
    let plan = plan_copies(&cands, "/o", &c, &vec![], HostStyle::Posix, false);
    assert!(plan.error.is_none());
    assert_eq!(plan.copies.len(), 2);
    assert_eq!(plan.copies[0].source, "/s/a/x.deb");
    assert_eq!(plan.copies[0].destination, "/o/x.deb");
    assert_eq!(plan.copies[1].destination, "/o/z.rpm");
}

#[test]
fn copy_plan_stops_at_collision() {
    let c = ArtifactConfig::default();
    let cands = vec![
        cand("/s/a/x.deb", "a/x.deb", Some("x.deb")),
        cand("/s/b/x.deb", "b/x.deb", Some("x.deb")),
        cand("/s/c/w.deb", "c/w.deb", Some("w.deb")),
    ];
    let plan = plan_copies(&cands, "/o", &c, &vec![], HostStyle::Posix, false);
    assert_eq!(plan.copies.len(), 1);
    let err = plan.error.unwrap();
    assert_eq!(
        err.message(),
        "artifact collision: /s/b/x.deb would overwrite /o/x.deb. Enable artifacts.keep_relative_paths or make artifact names unique."
    );
    let plan = plan_copies(&cands[2..].to_vec(), "/o", &c, &vec!["/o/w.deb".to_string()], HostStyle::Posix, false);
    assert_eq!(plan.copies.len(), 0);
    assert!(matches!(plan.error, Some(ReleaseError::ArtifactCollision { .. })));
}

#[test]
fn copy_plan_with_relative_paths_never_collides_on_names() {
    let mut c = ArtifactConfig::default();
    c.keep_relative_paths = true;
    let cands = vec![
        cand("/s/a/x.deb", "a/x.deb", Some("x.deb")),
        cand("/s/b/x.deb", "b/x.deb", Some("x.deb")),
    ];
    let plan = plan_copies(&cands, "/o", &c, &vec![], HostStyle::Posix, false);
    assert!(plan.error.is_none());
    assert_eq!(plan.copies[0].destination, "/o/a/x.deb");
    assert_eq!(plan.copies[1].destination, "/o/b/x.deb");
}

#[test]
fn manifest_lists_sorted_artifacts_without_checksums() {
    let files = vec![
        ("linux/b.deb".to_string(), 10u64),
        ("linux/b.deb.sha256".to_string(), 1u64),
        ("android/a.apk".to_string(), 20u64),
        ("linux\\c.msi".to_string(), 30u64),
        ("summary.json".to_string(), 5u64),
        ("notes/.sha256".to_string(), 2u64),
    ];
    let m = build_manifest("App".to_string(), "1.0.0".to_string(), &files, HostStyle::Windows);
    assert_eq!(m.app, "App");
    assert_eq!(m.version, "1.0.0");
    let got: Vec<(String, String, u64)> =
        m.artifacts.iter().map(|a| (a.platform.clone(), a.file.clone(), a.size_bytes)).collect();
    let expected: Vec<(String, String, u64)> = vec![
        ("android", "android/a.apk", 20),
        ("linux", "linux/b.deb", 10),
        ("linux", "linux/c.msi", 30),
        ("notes", "notes/.sha256", 2),
        ("summary.json", "summary.json", 5),
    ]
    .into_iter()
    .map(|(p, f, s)| (p.to_string(), f.to_string(), s))
    .collect();
    assert_eq!(got, expected);
}

#[test]
fn sha256_of_known_inputs() {
    assert_eq!(sha256_hex(b"abc"), "ba7816bf8f01cfea414140de5dae2223b00361a396177a9cb410ff61f20015ad");
    assert_eq!(sha256_hex(b""), "e3b0c44298fc1c149afbf4c8996fb92427ae41e4649b934ca495991b7852b855");
}

#[test]
fn checksum_file_contents_and_paths() {
    assert_eq!(
        checksum_contents(&Some("app.deb".to_string()), b"abc"),
        "ba7816bf8f01cfea414140de5dae2223b00361a396177a9cb410ff61f20015ad  app.deb\n"
    );
    assert_eq!(
        checksum_contents(&None, b""),
        "e3b0c44298fc1c149afbf4c8996fb92427ae41e4649b934ca495991b7852b855  artifact\n"
    );
    assert_eq!(checksum_path("/o/linux/app.deb"), "/o/linux/app.deb.sha256");
    assert_eq!(checksum_path("/o/linux/noext"), "/o/linux/noext.sha256");
}

#[test]
fn checksum_files_are_recognized() {
    assert!(is_checksum_file("/o/app.deb.sha256", HostStyle::Windows));
    assert!(is_checksum_file("C:\\o\\app.deb.sha256", HostStyle::Windows));
    assert!(!is_checksum_file("/o/.sha256", HostStyle::Windows));
    assert!(!is_checksum_file("/o/app.deb", HostStyle::Windows));
    assert!(is_checksum_file(&checksum_path("/o/linux/app.deb"), HostStyle::Windows));
}

#[test]
fn checksum_files_by_host_style() {
    assert!(is_checksum_file("dir/x\\.sha256", HostStyle::Posix));
    assert!(!is_checksum_file("dir\\.sha256", HostStyle::Windows));
    assert!(!is_checksum_file("dir/.sha256", HostStyle::Posix));
}

#[test]
fn posix_manifest_keeps_backslashes_in_names() {
    let files = vec![("linux\\c.msi".to_string(), 30u64), ("linux/d.deb".to_string(), 4u64)];
    let m = build_manifest("App".to_string(), "1".to_string(), &files, HostStyle::Posix);
    assert_eq!(m.artifacts[0].platform, "linux\\c.msi");
    assert_eq!(m.artifacts[0].file, "linux/c.msi");
    assert_eq!(m.artifacts[1].platform, "linux");
    assert_eq!(m.artifacts[1].file, "linux/d.deb");
}

#[test]
fn manifest_does_not_depend_on_walk_order() {
    let a = vec![
        ("linux/b.deb".to_string(), 10u64),
        ("android/a.apk".to_string(), 20u64),
        ("linux/b.deb.sha256".to_string(), 1u64),
        ("ios/z.ipa".to_string(), 3u64),
    ];
    let mut b = a.clone();
    b.reverse();
    let ma = build_manifest("App".to_string(), "1".to_string(), &a, HostStyle::Posix);
    let mb = build_manifest("App".to_string(), "1".to_string(), &b, HostStyle::Posix);
    let view = |m: &tauri_release::artifacts::ReleaseManifest| -> Vec<(String, String, u64)> {
        m.artifacts.iter().map(|x| (x.platform.clone(), x.file.clone(), x.size_bytes)).collect()
    };
    assert_eq!(view(&ma), view(&mb));
    let files: Vec<String> = ma.artifacts.iter().map(|x| x.file.clone()).collect();
    assert!(files.windows(2).all(|w| w[0] < w[1]));
}

#[test]
fn a_second_checksum_run_changes_nothing() {
    let mut dir: std::collections::BTreeMap<String, Vec<u8>> = std::collections::BTreeMap::new();
    dir.insert("/o/linux/a.deb".to_string(), b"deb".to_vec());
    dir.insert("/o/linux/latest.json".to_string(), b"{}".to_vec());
    let run = |d: &std::collections::BTreeMap<String, Vec<u8>>| {
        let mut next = d.clone();
        for (path, data) in d {
            if is_checksum_file(path, HostStyle::Posix) {
                continue;
            }
            let name = path.rsplit('/').next().map(|n| n.to_string());
            next.insert(checksum_path(path), checksum_contents(&name, data).into_bytes());
        }
        next
    };
    let once = run(&dir);
    assert_eq!(once.len(), 4);
    assert_eq!(once["/o/linux/a.deb"], b"deb".to_vec());
    assert_eq!(run(&once), once);
}

#[test]
fn case_insensitive_file_systems_collide_on_case() {
    let c = ArtifactConfig::default();
    let cands = vec![
        cand("/s/a/App.apk", "a/App.apk", Some("App.apk")),
        cand("/s/b/app.apk", "b/app.apk", Some("app.apk")),
    ];
    let plan = plan_copies(&cands, "/o", &c, &vec![], HostStyle::Posix, false);
    assert!(plan.error.is_none());
    assert_eq!(plan.copies.len(), 2);
    let plan = plan_copies(&cands, "/o", &c, &vec![], HostStyle::Posix, true);
    assert_eq!(plan.copies.len(), 1);
    assert!(matches!(plan.error, Some(ReleaseError::ArtifactCollision { .. })));
    let plan = plan_copies(&cands[1..].to_vec(), "/o", &c, &vec!["/o/APP.APK".to_string()], HostStyle::Posix, true);
    assert!(matches!(plan.error, Some(ReleaseError::ArtifactCollision { .. })));
}

#[test]
fn equal_manifest_paths_keep_the_walk_order() {
    let a = vec![("x\\b".to_string(), 1u64), ("x/b".to_string(), 2u64)];
    let m = build_manifest("App".to_string(), "1".to_string(), &a, HostStyle::Posix);
    assert_eq!(m.artifacts[0].size_bytes, 1);
    assert_eq!(m.artifacts[1].size_bytes, 2);
    let b = vec![("x/b".to_string(), 2u64), ("x\\b".to_string(), 1u64)];
    let m = build_manifest("App".to_string(), "1".to_string(), &b, HostStyle::Posix);
    assert_eq!(m.artifacts[0].size_bytes, 2);
    assert_eq!(m.artifacts[1].size_bytes, 1);
}
