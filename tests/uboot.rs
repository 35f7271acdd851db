use mktcb::config::{ComponentConfig, Config, ToolchainConfig};
use mktcb::engine::{Action, Event};
use mktcb::error::Error;
use mktcb::toolchain;
use mktcb::uboot;

fn config() -> Config {
    Config {
        build_dir: "/w/build".to_string(),
        lib_dir: "/w/lib".to_string(),
        download_dir: "/w/download".to_string(),
        toolchain: ToolchainConfig {
            url: "https://example.org/tc/gcc-arm-10.tar.xz".to_string(),
            linux_arch: "arm".to_string(),
            uboot_arch: "arm".to_string(),
            debian_arch: "armhf".to_string(),
            cross_compile: "bin/arm-none-eabi-".to_string(),
        },
        linux: ComponentConfig { version: "5.4".to_string(), config: None },
        uboot: ComponentConfig { version: "2020.01".to_string(), config: Some("/cfg".to_string()) },
        target_name: "Board".to_string(),
        target: "board".to_string(),
        jobs: 2,
    }
}

#[test]
fn uboot_paths() {
    let u = uboot::new(&config()).unwrap();
    assert_eq!(u.url, "ftp://ftp.denx.de/pub/u-boot/u-boot-2020.01.tar.bz2");
    assert_eq!(u.source_dir, "/w/download/u-boot-2020.01");
    assert_eq!(u.build_dir, "/w/build/u-boot-2020.01");
    assert_eq!(u.version_file, "/w/download/u-boot-2020.01.version");
    assert_eq!(u.patches_dir, "/w/lib/patches/uboot/2020.01");
    assert_eq!(uboot::make_version_dir("/d", "v1"), "/d/u-boot-v1");
    assert_eq!(uboot::make_patches_dir("/l", "v1"), "/l/patches/uboot/v1");
}

#[test]
fn uboot_fresh_fetch() {
    let mut u = uboot::new(&config()).unwrap();
    assert!(matches!(u.fetch(Event::Start), Action::Inspect { .. }));
    assert!(matches!(
        u.fetch(Event::Inspected { marker_exists: false, source_exists: false }),
        Action::CreateDir { .. }
    ));
    match u.fetch(Event::Done) {
        Action::Download { url, path } => {
            assert_eq!(url, "ftp://ftp.denx.de/pub/u-boot/u-boot-2020.01.tar.bz2");
            assert_eq!(path, "/w/download/u-boot-2020.01.tar.bz2");
        }
        other => panic!("unexpected {:?}", other),
    }
    match u.fetch(Event::Code { code: 226 }) {
        Action::Untar { dir, .. } => assert_eq!(dir, "/w/download/u-boot-2020.01"),
        other => panic!("unexpected {:?}", other),
    }
    assert!(matches!(u.fetch(Event::Done), Action::EnterGuard));
    match u.fetch(Event::Done) {
        Action::CopyConfig { from, to, .. } => {
            assert_eq!(from.as_deref(), Some("/cfg"));
            assert_eq!(to, "/w/build/u-boot-2020.01/.config");
        }
        other => panic!("unexpected {:?}", other),
    }
    assert!(u.run.guard_held);
    match u.fetch(Event::Done) {
        Action::ListPatches { dir } => assert_eq!(dir, "/w/lib/patches/uboot/2020.01"),
        other => panic!("unexpected {:?}", other),
    }
    match u.fetch(Event::Listing { files: Some(vec!["/p/1.diff".to_string()]) }) {
        Action::ApplyDiff { dir, diff } => {
            assert_eq!(dir, "/w/download/u-boot-2020.01");
            assert_eq!(diff, "/p/1.diff");
        }
        other => panic!("unexpected {:?}", other),
    }
    match u.fetch(Event::Done) {
        Action::WriteMarker { text, .. } => assert_eq!(text, "2020.01"),
        other => panic!("unexpected {:?}", other),
    }
    assert!(matches!(u.fetch(Event::Done), Action::ReleaseGuard));
    assert!(matches!(u.fetch(Event::Done), Action::Finish { result: Ok(()) }));
}

#[test]
fn uboot_present_tree_is_kept() {
    let mut u = uboot::new(&config()).unwrap();
    u.fetch(Event::Start);
    assert!(matches!(
        u.fetch(Event::Inspected { marker_exists: true, source_exists: true }),
        Action::Finish { result: Ok(()) }
    ));
}

#[test]
fn uboot_corrupt_tree_is_refused() {
    let mut u = uboot::new(&config()).unwrap();
    u.fetch(Event::Start);
    assert!(matches!(
        u.fetch(Event::Inspected { marker_exists: false, source_exists: true }),
        Action::Finish { result: Err(Error::CorruptedSourceDir { .. }) }
    ));
}

#[test]
fn uboot_make_arguments() {
    let u = uboot::new(&config()).unwrap();
    assert_eq!(
        u.make("all", "/tc/arm-"),
        vec![
            "O=/w/build/u-boot-2020.01",
            "ARCH=arm",
            "CROSS_COMPILE=/tc/arm-",
            "-C",
            "/w/download/u-boot-2020.01",
            "-j2",
            "--",
            "all"
        ]
    );
}

#[test]
fn toolchain_paths() {
    let t = toolchain::new(&config()).unwrap();
    assert_eq!(t.archive, "/w/download/gcc-arm-10.tar.xz");
    assert_eq!(t.target_dir, "/w/download/gcc-arm-10");
    assert_eq!(t.cross_compile, "/w/download/gcc-arm-10/bin/arm-none-eabi-");
    assert!(t.fetch(true).unwrap().is_empty());
    let plan = t.fetch(false).unwrap();
    assert_eq!(plan.len(), 3);
    assert!(matches!(&plan[0], Action::CreateDir { path } if path == "/w/download"));
    assert!(matches!(&plan[1], Action::Download { url, path }
        if url == "https://example.org/tc/gcc-arm-10.tar.xz" && path == "/w/download/gcc-arm-10.tar.xz"));
    assert!(matches!(&plan[2], Action::Untar { dir, .. } if dir == "/w/download/gcc-arm-10"));
}

#[test]
fn toolchain_with_bad_url() {
    let mut c = config();
    c.toolchain.url = "not a url".to_string();
    assert!(matches!(toolchain::new(&c), Err(Error::InvalidToolchainURL)));
}

#[test]
fn toolchain_url_is_normalized() {
    let mut c = config();
    c.toolchain.url = "HTTPS://Example.ORG/tc/./gcc-arm-10.tar.xz".to_string();
    let t = toolchain::new(&c).unwrap();
    assert_eq!(t.url, "https://example.org/tc/gcc-arm-10.tar.xz");
    assert_eq!(t.archive, "/w/download/gcc-arm-10.tar.xz");
}
