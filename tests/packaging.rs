use mktcb::config::{ComponentConfig, Config, ToolchainConfig};
use mktcb::linux;
use mktcb::packaging::{meta_control, package_listing, package_paths};

fn kernel() -> linux::Linux {
    let c = Config {
        build_dir: "/w/build".to_string(),
        lib_dir: "/w/lib".to_string(),
        download_dir: "/w/download".to_string(),
        toolchain: ToolchainConfig {
            url: "https://example.org/tc.tar.xz".to_string(),
            linux_arch: "arm".to_string(),
            uboot_arch: "arm".to_string(),
            debian_arch: "armhf".to_string(),
            cross_compile: "arm-".to_string(),
        },
        linux: ComponentConfig { version: "5.4".to_string(), config: None },
        uboot: ComponentConfig { version: "2020.01".to_string(), config: None },
        target_name: "Board".to_string(),
        target: "board".to_string(),
        jobs: 1,
    };
    linux::new(&c).unwrap()
}

#[test]
fn packaging_writes_two_packages() {
    let mut l = kernel();
    l.version.mic = 2;
    let (image, meta) = package_paths(&l, "armhf");
    assert_eq!(image, "/w/build/packages/linux-image-5.4.2_1_armhf.deb");
    assert_eq!(meta, "/w/build/packages/linux-image-5.4-board.deb");
    assert_eq!(
        package_listing(&vec![image, meta]),
        "/w/build/packages/linux-image-5.4.2_1_armhf.deb\n/w/build/packages/linux-image-5.4-board.deb\n"
    );
    assert_eq!(package_listing(&vec![]), "");
}

#[test]
fn meta_package_control() {
    let mut l = kernel();
    l.version.mic = 2;
    assert_eq!(
        meta_control(&l, "a@b", "armhf"),
        "Package: linux-image-5.4-board\nVersion: 5.4.2\nArchitecture: armhf\nMaintainer: a@b\n\
         Depends: linux-image-5.4.2\nDescription: Linux kernel for Board\n"
    );
}
