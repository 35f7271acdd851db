use mktcb::config::{ComponentConfig, Config, ToolchainConfig};
use mktcb::engine::{Action, Event};
use mktcb::error::Error;
use mktcb::linux::{self, Linux};
use mktcb::version::Version;

fn config(config_file: Option<&str>) -> Config {
    Config {
        build_dir: "/w/build".to_string(),
        lib_dir: "/w/lib".to_string(),
        download_dir: "/w/download".to_string(),
        toolchain: ToolchainConfig {
            url: "https://example.org/tc/gcc-arm-10.tar.xz".to_string(),
            linux_arch: "arm".to_string(),
            uboot_arch: "arm".to_string(),
            debian_arch: "armhf".to_string(),
            cross_compile: "bin/arm-none-eabi-".to_string(),
        },
        linux: ComponentConfig {
            version: "5.4".to_string(),
            config: config_file.map(|s| s.to_string()),
        },
        uboot: ComponentConfig { version: "2020.01".to_string(), config: None },
        target_name: "Board".to_string(),
        target: "board".to_string(),
        jobs: 4,
    }
}

fn kernel() -> Linux {
    linux::new(&config(Some("/w/lib/configs/linux/5.4/board.config"))).unwrap()
}

fn expect_inspect(a: Action) {
    match a {
        Action::Inspect { marker, source } => {
            assert_eq!(marker, "/w/download/linux-5.4.version");
            assert_eq!(source, "/w/download/linux-5.4");
        }
        other => panic!("unexpected {:?}", other),
    }
}

fn expect_probe(a: Action, url: &str) {
    match a {
        Action::Probe { url: u } => assert_eq!(u, url),
        other => panic!("unexpected {:?}", other),
    }
}

const BASE: &str = "https://cdn.kernel.org/pub/linux/kernel/v5.x/";

#[test]
fn new_composes_paths_and_urls() {
    let l = kernel();
    assert_eq!(l.version, Version { maj: 5, min: 4, mic: 0 });
    assert_eq!(l.version_file, "/w/download/linux-5.4.version");
    assert_eq!(l.source_dir, "/w/download/linux-5.4");
    assert_eq!(l.build_dir, "/w/build/linux-5.4-board");
    assert_eq!(l.pkg_dir, "/w/build/packages");
    assert_eq!(l.patches_dir, "/w/lib/patches/linux");
    assert_eq!(l.base_url, BASE);
    assert_eq!(l.arch, "arm");
    assert_eq!(l.jobs, 4);
}

#[test]
fn new_rejects_a_bad_series() {
    let mut c = config(None);
    c.linux.version = "five.4".to_string();
    assert!(matches!(linux::new(&c), Err(Error::InvalidVersionNumber { .. })));
}

#[test]
fn first_patch_url_is_not_incremental() {
    let l = kernel();
    let (url, file) = l.get_next_patch_url().unwrap();
    assert_eq!(file, "patch-5.4.1.xz");
    assert_eq!(url, format!("{}patch-5.4.1.xz", BASE));
}

#[test]
fn later_patch_urls_are_incremental() {
    let mut l = kernel();
    l.version.mic = 1;
    let (url, file) = l.get_next_patch_url().unwrap();
    assert_eq!(file, "patch-5.4.1-2.xz");
    assert_eq!(url, format!("{}incr/patch-5.4.1-2.xz", BASE));
    l.version.mic = 9;
    let (url, file) = l.get_next_patch_url().unwrap();
    assert_eq!(file, "patch-5.4.9-10.xz");
    assert_eq!(url, format!("{}incr/patch-5.4.9-10.xz", BASE));
}

#[test]
fn next_patch_at_the_micro_limit() {
    let mut l = kernel();
    l.version.mic = usize::MAX;
    let (url, file) = l.get_next_patch_url().unwrap();
    let expected = format!("patch-5.4.{}-{}.xz", usize::MAX, usize::MAX as u128 + 1);
    assert_eq!(file, expected);
    assert_eq!(url, format!("{}incr/{}", BASE, expected));
}

#[test]
fn upstream_patch_past_the_micro_limit_is_refused() {
    let mut l = kernel();
    l.fetch(Event::Start);
    l.fetch(Event::Inspected { marker_exists: true, source_exists: true });
    let text = format!("5.4.{}", usize::MAX);
    l.fetch(Event::Text { text: text.clone() });
    assert!(matches!(
        l.fetch(Event::Code { code: 200 }),
        Action::Finish { result: Err(Error::VersionOverflow { version }) } if version == text
    ));
    l.fetch(Event::Start);
    l.fetch(Event::Inspected { marker_exists: true, source_exists: true });
    l.fetch(Event::Text { text });
    assert!(matches!(l.fetch(Event::Code { code: 404 }), Action::Finish { result: Ok(()) }));
}

#[test]
fn load_version_keeps_the_version_on_a_bad_marker() {
    let mut l = kernel();
    assert!(l.load_version(Some("x.y")).is_err());
    assert_eq!(l.version, Version { maj: 5, min: 4, mic: 0 });
    assert_eq!(l.load_version(None), Err(Error::LinuxNotFetched));
    assert_eq!(l.load_version(Some("5.4.7")), Ok(()));
    assert_eq!(l.version, Version { maj: 5, min: 4, mic: 7 });
}

#[test]
fn fresh_fetch() {
    let mut l = kernel();
    expect_inspect(l.fetch(Event::Start));
    match l.fetch(Event::Inspected { marker_exists: false, source_exists: false }) {
        Action::CreateDir { path } => assert_eq!(path, "/w/download"),
        other => panic!("unexpected {:?}", other),
    }
    match l.fetch(Event::Done) {
        Action::Download { url, path } => {
            assert_eq!(url, format!("{}linux-5.4.tar.xz", BASE));
            assert_eq!(path, "/w/download/linux-5.4.tar.xz");
        }
        other => panic!("unexpected {:?}", other),
    }
    match l.fetch(Event::Code { code: 200 }) {
        Action::Untar { archive, dir } => {
            assert_eq!(archive, "/w/download/linux-5.4.tar.xz");
            assert_eq!(dir, "/w/download/linux-5.4");
        }
        other => panic!("unexpected {:?}", other),
    }
    assert!(matches!(l.fetch(Event::Done), Action::EnterGuard));
    match l.fetch(Event::Done) {
        Action::CopyConfig { build_dir, from, to } => {
            assert_eq!(build_dir, "/w/build/linux-5.4-board");
            assert_eq!(from.as_deref(), Some("/w/lib/configs/linux/5.4/board.config"));
            assert_eq!(to, "/w/build/linux-5.4-board/.config");
        }
        other => panic!("unexpected {:?}", other),
    }
    match l.fetch(Event::Done) {
        Action::ListPatches { dir } => assert_eq!(dir, "/w/lib/patches/linux/5.4"),
        other => panic!("unexpected {:?}", other),
    }
    match l.fetch(Event::Listing { files: None }) {
        Action::WriteMarker { path, text } => {
            assert_eq!(path, "/w/download/linux-5.4.version");
            assert_eq!(text, "5.4.0");
        }
        other => panic!("unexpected {:?}", other),
    }
    assert!(matches!(l.fetch(Event::Done), Action::ReleaseGuard));
    expect_probe(l.fetch(Event::Done), &format!("{}patch-5.4.1.xz", BASE));
    assert!(matches!(l.fetch(Event::Code { code: 404 }), Action::Finish { result: Ok(()) }));
    assert!(!l.run.guard_held);
}

#[test]
fn incremental_update_to_5_4_2() {
    let mut l = kernel();
    expect_inspect(l.fetch(Event::Start));
    assert!(matches!(
        l.fetch(Event::Inspected { marker_exists: true, source_exists: true }),
        Action::ReadMarker { .. }
    ));
    expect_probe(l.fetch(Event::Text { text: "5.4.0".to_string() }), &format!("{}patch-5.4.1.xz", BASE));
    let mut applied = Vec::new();
    for (expected_url, file, next_text) in [
        (format!("{}patch-5.4.1.xz", BASE), "patch-5.4.1", "5.4.1"),
        (format!("{}incr/patch-5.4.1-2.xz", BASE), "patch-5.4.1-2", "5.4.2"),
    ] {
        match l.fetch(Event::Code { code: 200 }) {
            Action::Download { url, path } => {
                assert_eq!(url, expected_url);
                assert_eq!(path, format!("/w/download/{}.xz", file));
            }
            other => panic!("unexpected {:?}", other),
        }
        match l.fetch(Event::Code { code: 200 }) {
            Action::Decompress { path, out } => {
                assert_eq!(path, format!("/w/download/{}.xz", file));
                assert_eq!(out, format!("/w/download/{}", file));
            }
            other => panic!("unexpected {:?}", other),
        }
        assert!(matches!(l.fetch(Event::Done), Action::EnterGuard));
        match l.fetch(Event::Done) {
            Action::ApplyDiff { dir, diff } => {
                assert_eq!(dir, "/w/download/linux-5.4");
                applied.push(diff);
            }
            other => panic!("unexpected {:?}", other),
        }
        match l.fetch(Event::Done) {
            Action::ListPatches { dir } => assert_eq!(dir, format!("/w/lib/patches/linux/{}", next_text)),
            other => panic!("unexpected {:?}", other),
        }
        match l.fetch(Event::Listing { files: Some(vec![]) }) {
            Action::WriteMarker { text, .. } => assert_eq!(text, next_text),
            other => panic!("unexpected {:?}", other),
        }
        assert!(matches!(l.fetch(Event::Done), Action::ReleaseGuard));
        match l.fetch(Event::Done) {
            Action::Probe { .. } => {}
            other => panic!("unexpected {:?}", other),
        }
    }
    assert_eq!(applied, vec!["/w/download/patch-5.4.1", "/w/download/patch-5.4.1-2"]);
    assert!(matches!(l.fetch(Event::Code { code: 404 }), Action::Finish { result: Ok(()) }));
    assert_eq!(l.version, Version { maj: 5, min: 4, mic: 2 });
}

#[test]
fn local_patches_follow_upstream_in_sorted_order() {
    let mut l = kernel();
    l.fetch(Event::Start);
    l.fetch(Event::Inspected { marker_exists: true, source_exists: true });
    l.fetch(Event::Text { text: "5.4.0".to_string() });
    l.fetch(Event::Code { code: 226 });
    l.fetch(Event::Code { code: 200 });
    l.fetch(Event::Done);
    match l.fetch(Event::Done) {
        Action::ApplyDiff { diff, .. } => assert_eq!(diff, "/w/download/patch-5.4.1"),
        other => panic!("unexpected {:?}", other),
    }
    l.fetch(Event::Done);
    let files = vec!["/p/5.4.1/b.diff".to_string(), "/p/5.4.1/a.diff".to_string()];
    match l.fetch(Event::Listing { files: Some(files) }) {
        Action::ApplyDiff { diff, .. } => assert_eq!(diff, "/p/5.4.1/a.diff"),
        other => panic!("unexpected {:?}", other),
    }
    match l.fetch(Event::Done) {
        Action::ApplyDiff { diff, .. } => assert_eq!(diff, "/p/5.4.1/b.diff"),
        other => panic!("unexpected {:?}", other),
    }
    match l.fetch(Event::Done) {
        Action::WriteMarker { text, .. } => assert_eq!(text, "5.4.1"),
        other => panic!("unexpected {:?}", other),
    }
}

#[test]
fn corrupt_tree_is_refused_before_any_request() {
    let mut l = kernel();
    expect_inspect(l.fetch(Event::Start));
    match l.fetch(Event::Inspected { marker_exists: false, source_exists: true }) {
        Action::Finish { result: Err(e) } => assert_eq!(
            e,
            Error::CorruptedSourceDir {
                dir: "/w/download/linux-5.4".to_string(),
                version_file: "/w/download/linux-5.4.version".to_string()
            }
        ),
        other => panic!("unexpected {:?}", other),
    }
}

#[test]
fn second_fetch_without_update_only_probes() {
    let mut l = kernel();
    expect_inspect(l.fetch(Event::Start));
    assert!(matches!(
        l.fetch(Event::Inspected { marker_exists: true, source_exists: true }),
        Action::ReadMarker { .. }
    ));
    expect_probe(
        l.fetch(Event::Text { text: "5.4.2\n".to_string() }),
        &format!("{}incr/patch-5.4.2-3.xz", BASE),
    );
    assert!(matches!(l.fetch(Event::Code { code: 404 }), Action::Finish { result: Ok(()) }));
    expect_inspect(l.fetch(Event::Start));
    l.fetch(Event::Inspected { marker_exists: true, source_exists: true });
    l.fetch(Event::Text { text: "5.4.2\n".to_string() });
    assert!(matches!(l.fetch(Event::NoAnswer), Action::Finish { result: Ok(()) }));
}

#[test]
fn empty_and_absent_patch_dirs_agree() {
    for files in [None, Some(vec![])] {
        let mut l = kernel();
        l.fetch(Event::Start);
        l.fetch(Event::Inspected { marker_exists: false, source_exists: false });
        l.fetch(Event::Done);
        l.fetch(Event::Code { code: 200 });
        l.fetch(Event::Done);
        l.fetch(Event::Done);
        l.fetch(Event::Done);
        match l.fetch(Event::Listing { files }) {
            Action::WriteMarker { text, .. } => assert_eq!(text, "5.4.0"),
            other => panic!("unexpected {:?}", other),
        }
    }
}

#[test]
fn failed_download_is_fatal() {
    let mut l = kernel();
    l.fetch(Event::Start);
    l.fetch(Event::Inspected { marker_exists: false, source_exists: false });
    l.fetch(Event::Done);
    match l.fetch(Event::Code { code: 404 }) {
        Action::Finish { result: Err(Error::DownloadError { code, url }) } => {
            assert_eq!(code, 404);
            assert_eq!(url, format!("{}linux-5.4.tar.xz", BASE));
        }
        other => panic!("unexpected {:?}", other),
    }
}

#[test]
fn failure_inside_guard_releases_it_first() {
    let mut l = kernel();
    l.fetch(Event::Start);
    l.fetch(Event::Inspected { marker_exists: true, source_exists: true });
    l.fetch(Event::Text { text: "5.4.0".to_string() });
    l.fetch(Event::Code { code: 200 });
    l.fetch(Event::Code { code: 200 });
    l.fetch(Event::Done);
    l.fetch(Event::Done);
    let e = Error::PatchFailed { path: "/w/download/linux-5.4".to_string() };
    assert!(matches!(l.fetch(Event::Failed { error: e }), Action::ReleaseGuard));
    match l.fetch(Event::Done) {
        Action::Finish { result: Err(e) } => {
            assert_eq!(e, Error::PatchFailed { path: "/w/download/linux-5.4".to_string() })
        }
        other => panic!("unexpected {:?}", other),
    }
    assert!(!l.run.guard_held);
}

#[test]
fn bad_marker_is_fatal() {
    let mut l = kernel();
    l.fetch(Event::Start);
    l.fetch(Event::Inspected { marker_exists: true, source_exists: true });
    assert!(matches!(
        l.fetch(Event::Text { text: "5.4.".to_string() }),
        Action::Finish { result: Err(Error::InvalidVersionNumber { .. }) }
    ));
}

#[test]
fn unexpected_event_is_an_error() {
    let mut l = kernel();
    assert!(matches!(
        l.fetch(Event::Done),
        Action::Finish { result: Err(Error::UnexpectedEvent) }
    ));
}

#[test]
fn check_update_without_marker_reports_an_update() {
    let mut l = kernel();
    expect_inspect(l.check_update(Event::Start));
    assert!(matches!(
        l.check_update(Event::Inspected { marker_exists: false, source_exists: false }),
        Action::Report { available: true }
    ));
}

#[test]
fn check_update_with_nothing_to_do() {
    let mut l = kernel();
    l.check_update(Event::Start);
    l.check_update(Event::Inspected { marker_exists: true, source_exists: true });
    expect_probe(
        l.check_update(Event::Text { text: "5.4.2".to_string() }),
        &format!("{}incr/patch-5.4.2-3.xz", BASE),
    );
    assert!(matches!(l.check_update(Event::Code { code: 404 }), Action::Report { available: false }));
}

#[test]
fn check_update_codes() {
    for (code, available) in [(200, true), (226, true), (404, false), (500, false)] {
        let mut l = kernel();
        l.check_update(Event::Start);
        l.check_update(Event::Inspected { marker_exists: true, source_exists: true });
        l.check_update(Event::Text { text: "5.4.0".to_string() });
        match l.check_update(Event::Code { code }) {
            Action::Report { available: a } => assert_eq!(a, available),
            other => panic!("unexpected {:?}", other),
        }
    }
    let mut l = kernel();
    l.check_update(Event::Start);
    l.check_update(Event::Inspected { marker_exists: true, source_exists: true });
    l.check_update(Event::Text { text: "5.4.0".to_string() });
    assert!(matches!(l.check_update(Event::NoAnswer), Action::Report { available: false }));
}

#[test]
fn reconfigure_is_the_same_copy_each_time() {
    let l = kernel();
    for _ in 0..3 {
        match l.reconfigure() {
            Action::CopyConfig { build_dir, from, to } => {
                assert_eq!(build_dir, "/w/build/linux-5.4-board");
                assert_eq!(from.as_deref(), Some("/w/lib/configs/linux/5.4/board.config"));
                assert_eq!(to, "/w/build/linux-5.4-board/.config");
            }
            other => panic!("unexpected {:?}", other),
        }
    }
}

#[test]
fn save_config_needs_a_config_file() {
    let l = linux::new(&config(None)).unwrap();
    assert_eq!(l.save_config().err(), Some(Error::NoLinux));
    let l = kernel();
    match l.save_config() {
        Ok(Action::CopyConfig { from, to, .. }) => {
            assert_eq!(from.as_deref(), Some("/w/build/linux-5.4-board/.config"));
            assert_eq!(to, "/w/lib/configs/linux/5.4/board.config");
        }
        other => panic!("unexpected {:?}", other),
    }
}

#[test]
fn make_arguments() {
    let mut l = kernel();
    assert_eq!(l.make("all", "/tc/bin/arm-", None), Err(Error::LinuxNotFetched));
    let args = l.make("zImage", "/tc/bin/arm-", Some("5.4.3\n")).unwrap();
    assert_eq!(
        args,
        vec![
            "-C",
            "/w/download/linux-5.4",
            "-j4",
            "O=/w/build/linux-5.4-board",
            "ARCH=arm",
            "CROSS_COMPILE=/tc/bin/arm-",
            "--",
            "zImage"
        ]
    );
    assert_eq!(l.version, Version { maj: 5, min: 4, mic: 3 });
}

#[test]
fn path_helpers() {
    let v = Version { maj: 5, min: 10, mic: 7 };
    assert_eq!(linux::make_version_dir("/d", &v), "/d/linux-5.10");
    assert_eq!(linux::make_build_dir("/b", &v, "board"), "/b/linux-5.10-board");
    assert_eq!(linux::make_patches_dir("/lib"), "/lib/patches/linux");
}
