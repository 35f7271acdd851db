//! The configuration of a run: the target and toolchain descriptors, the
//! directories, and the build parallelism.

use vstd::prelude::*;

use crate::error::Error;
use crate::paths::{join_path2, join_spec, with_ext_spec, with_extension};
use crate::text::{parse_usize, parse_usize_spec};

verus! {

/// Everything a run needs to know about its target.
#[derive(Debug)]
pub struct Config {
    pub build_dir: String,
    pub lib_dir: String,
    pub download_dir: String,
    pub toolchain: ToolchainConfig,
    pub linux: ComponentConfig,
    pub uboot: ComponentConfig,
    /// Pretty name of the target.
    pub target_name: String,
    /// Stem of the target descriptor's file name.
    pub target: String,
    pub jobs: usize,
}

/// A toolchain descriptor.
#[derive(Debug)]
pub struct ToolchainConfig {
    pub url: String,
    pub linux_arch: String,
    pub uboot_arch: String,
    pub debian_arch: String,
    pub cross_compile: String,
}

/// The descriptor of one component (kernel or boot loader): its version
/// series and the name of its pre-canned build configuration, if any.
#[derive(Debug)]
pub struct ComponentConfig {
    pub version: String,
    pub config: Option<String>,
}

/// A target descriptor as the library holds it.
#[derive(Debug)]
pub struct TargetConfig {
    pub toolchain: String,
    pub name: String,
    pub linux: ComponentConfig,
    pub uboot: ComponentConfig,
}

/// `<library>/<dir>/<name>.toml`.
pub open spec fn descriptor_path_spec(library: Seq<char>, dir: Seq<char>, name: Seq<char>) -> Seq<
    char,
> {
    with_ext_spec(join_spec(join_spec(library, dir), name), "toml"@)
}

/// The path of the descriptor of `target`: `<library>/targets/<target>.toml`.
pub fn target_config_path(library: &str, target: &str) -> (r: String)
    ensures
        r@ == descriptor_path_spec(library@, "targets"@, target@),
{
    let p = join_path2(library, "targets", target);
    with_extension(p.as_str(), "toml")
}

/// The path of the descriptor of `toolchain`:
/// `<library>/toolchains/<toolchain>.toml`.
pub fn toolchain_config_path(library: &str, toolchain: &str) -> (r: String)
    ensures
        r@ == descriptor_path_spec(library@, "toolchains"@, toolchain@),
{
    let p = join_path2(library, "toolchains", toolchain);
    with_extension(p.as_str(), "toml")
}

/// Where the build configuration named by `item` lies:
/// `<library>/configs/<comp>/<version>/<config>`, when `item` names one.
pub fn make_config_path(library: &str, comp: &str, item: &ComponentConfig) -> (r: Option<String>)
    ensures
        match item.config {
            None => r is None,
            Some(c) => r is Some && r->0@ == join_spec(
                join_spec(join_spec(join_spec(library@, "configs"@), comp@), item.version@),
                c@,
            ),
        },
{
    match &item.config {
        Some(cfg) => {
            let p = join_path2(library, "configs", comp);
            let p = join_path2(p.as_str(), item.version.as_str(), cfg.as_str());
            Some(p)
        },
        None => None,
    }
}

/// The number of build jobs: the value given, which must be a positive
/// number, or else the number of CPUs plus 2 (saturating).
pub fn resolve_jobs(value: Option<&str>, cpus: usize) -> (r: Result<usize, Error>)
    ensures
        match value {
            None => r == Ok::<usize, Error>(
                if cpus <= usize::MAX - 2 {
                    (cpus + 2) as usize
                } else {
                    usize::MAX
                },
            ),
            Some(v) => match parse_usize_spec(v@) {
                None => match r {
                    Err(Error::InvalidJobNumber { value: t }) => t@ == v@,
                    _ => false,
                },
                Some(n) => if n == 0 {
                    r == Err::<usize, Error>(Error::ZeroJob)
                } else {
                    r == Ok::<usize, Error>(n as usize)
                },
            },
        },
{
    match value {
        Some(v) => match parse_usize(v) {
            Some(n) => {
                if n == 0 {
                    Err(Error::ZeroJob)
                } else {
                    Ok(n)
                }
            },
            None => Err(Error::InvalidJobNumber { value: String::from_str(v) }),
        },
        None => Ok(cpus.saturating_add(2)),
    }
}

/// Relies on `num_cpus::get`: the number of logical CPUs available, which
/// its documentation says is always at least 1.
#[verifier::external_body]
fn cpu_count() -> (r: usize)
    ensures
        r >= 1,
{
    num_cpus::get()
}

/// The number of build jobs for the value given on the command line, if
/// any; without one, the number of CPUs of this machine plus 2.
pub fn jobs_setting(value: Option<&str>) -> (r: Result<usize, Error>)
    ensures
        value is None ==> (r matches Ok(n) && n >= 3),
        value is Some ==> match parse_usize_spec(value->0@) {
            None => r matches Err(Error::InvalidJobNumber { .. }),
            Some(n) => if n == 0 {
                r == Err::<usize, Error>(Error::ZeroJob)
            } else {
                r == Ok::<usize, Error>(n as usize)
            },
        },
{
    match value {
        Some(_) => resolve_jobs(value, 0),
        None => {
            let cpus = cpu_count();
            resolve_jobs(None, cpus)
        },
    }
}

} // verus!
