//! The kernel source-tree lifecycle: the paths and URLs of a kernel series,
//! and the machines that fetch it, keep it current and check for updates.

use vstd::prelude::*;

use crate::config::Config;
use crate::download::{code_ok, download_result, probe_found};
use crate::engine::{is_mutating, sort_texts, sorted_texts, Action, Event};
use crate::error::Error;
use crate::paths::{join_path, join_spec, strip_ext_spec, strip_extension};
use crate::text::{dec, render_decimal, trim_end, trim_end_spec};
use crate::urls::{
    join_url, last_segment, parse_url, url_joined, url_last_segment, url_parsed,
};
use crate::version::{
    make_version, patch_dir_spec, render_spec, short_spec, version_spec, Version,
};

verus! {

/// Where a fetch stands between two events.
#[derive(Debug, Clone, Copy, PartialEq, Eq, Structural)]
pub enum FetchPhase {
    Idle,
    Inspecting,
    ReadingMarker,
    CreatingDownloadDir,
    DownloadingArchive,
    Untarring,
    GuardingBase,
    CopyingConfig,
    Listing,
    ApplyingLocal,
    WritingMarker,
    Releasing,
    Probing,
    DownloadingPatch,
    Decompressing,
    GuardingIncr,
    ApplyingUpstream,
    Aborting,
}

/// Where an update check stands between two events.
#[derive(Debug, Clone, Copy, PartialEq, Eq, Structural)]
pub enum CheckPhase {
    Idle,
    Inspecting,
    ReadingMarker,
    Probing,
}

/// The state of the operation in progress.
pub struct Run {
    pub phase: FetchPhase,
    pub check_phase: CheckPhase,
    /// The interrupt guard is held.
    pub guard_held: bool,
    /// The URL being fetched.
    pub url: String,
    /// The file being fetched or decompressed into.
    pub path: String,
    /// The local patches of the current version, in order.
    pub queue: Vec<String>,
    /// How many of `queue` have been handed out.
    pub pos: usize,
    /// The failure that a release of the guard precedes.
    pub abort: Option<Error>,
    /// What the marker on disk records, as far as this run knows.
    pub marker: Ghost<Option<Version>>,
    /// The version that the source tree holds, as far as this run knows.
    pub tree: Ghost<Option<Version>>,
}

/// A kernel series of a target, with the operation in progress on it.
pub struct Linux {
    /// The version in memory: the series at first, then what the marker
    /// records and each upstream patch brings.
    pub version: Version,
    pub version_file: String,
    pub download_dir: String,
    pub source_dir: String,
    pub patches_dir: String,
    pub build_dir: String,
    pub pkg_dir: String,
    pub config: Option<String>,
    pub base_url: String,
    pub target: String,
    pub arch: String,
    pub name: String,
    pub jobs: usize,
    pub run: Run,
}

/// `linux-M.N`.
pub open spec fn tree_name_spec(v: Version) -> Seq<char> {
    "linux-"@ + short_spec(v)
}

/// `<base>/linux-M.N`.
pub open spec fn version_dir_spec(base: Seq<char>, v: Version) -> Seq<char> {
    join_spec(base, tree_name_spec(v))
}

/// `<base>/linux-M.N-<target>`.
pub open spec fn build_dir_spec(base: Seq<char>, v: Version, target: Seq<char>) -> Seq<char> {
    join_spec(base, tree_name_spec(v) + "-"@ + target)
}

/// `<library>/patches/linux`.
pub open spec fn patches_dir_spec(library: Seq<char>) -> Seq<char> {
    join_spec(join_spec(library, "patches"@), "linux"@)
}

/// The upstream directory of a major series.
pub open spec fn base_url_text(v: Version) -> Seq<char> {
    "https://cdn.kernel.org/pub/linux/kernel/v"@ + dec(v.maj as nat) + ".x/"@
}

/// The base archive of a series: `linux-M.N.tar.xz`.
pub open spec fn archive_name_spec(v: Version) -> Seq<char> {
    tree_name_spec(v) + ".tar.xz"@
}

/// The file of the upstream patch that follows `v`: `patch-M.N.1.xz` from
/// micro 0, `patch-M.N.P-Q.xz` (Q = P + 1) after.
pub open spec fn next_patch_file_spec(v: Version) -> Seq<char> {
    if v.mic == 0 {
        "patch-"@ + short_spec(v) + ".1.xz"@
    } else {
        "patch-"@ + render_spec(v) + "-"@ + dec(v.mic as nat + 1) + ".xz"@
    }
}

/// The URL of the upstream patch that follows `v`: the file itself under
/// `base` from micro 0, under `base`'s `incr/` after.
pub open spec fn next_patch_url_spec(base: Seq<char>, v: Version) -> Option<Seq<char>> {
    if v.mic == 0 {
        url_joined(base, next_patch_file_spec(v))
    } else {
        match url_joined(base, "incr/"@) {
            Some(b) => url_joined(b, next_patch_file_spec(v)),
            None => None,
        }
    }
}

/// The marker's text read as a version: white space at its end is ignored.
pub open spec fn marker_spec(text: Seq<char>) -> Option<Version> {
    version_spec(trim_end_spec(text))
}

/// A failure to read a version.
pub open spec fn is_version_error(e: Error) -> bool {
    e matches Error::InvalidVersionFormat { .. } || e matches Error::InvalidVersionNumber { .. }
}

/// Compose a path involving a given Linux version: `<base>/linux-M.N`.
pub fn make_version_dir(base_dir: &str, version: &Version) -> (r: String)
    ensures
        r@ == version_dir_spec(base_dir@, *version),
{
    let mut name = String::from_str("linux-");
    let short = version.render_short();
    name.append(short.as_str());
    proof {
        reveal_strlit("linux-");
    }
    assert(name@ =~= tree_name_spec(*version));
    join_path(base_dir, name.as_str())
}

/// Compose the build directory of a target: `<base>/linux-M.N-<target>`.
pub fn make_build_dir(base_dir: &str, version: &Version, target: &str) -> (r: String)
    ensures
        r@ == build_dir_spec(base_dir@, *version, target@),
{
    let mut name = String::from_str("linux-");
    let short = version.render_short();
    name.append(short.as_str());
    name.append("-");
    name.append(target);
    proof {
        reveal_strlit("linux-");
        reveal_strlit("-");
    }
    assert(name@ =~= tree_name_spec(*version) + "-"@ + target@);
    join_path(base_dir, name.as_str())
}

/// The local patches of the kernel: `<library>/patches/linux`.
pub fn make_patches_dir(base_dir: &str) -> (r: String)
    ensures
        r@ == patches_dir_spec(base_dir@),
{
    let p = join_path(base_dir, "patches");
    join_path(p.as_str(), "linux")
}

/// Reads the marker's text.
pub fn parse_marker(text: &str) -> (r: Result<Version, Error>)
    ensures
        match r {
            Ok(v) => marker_spec(text@) == Some(v),
            Err(e) => marker_spec(text@) is None && is_version_error(e),
        },
{
    let t = trim_end(text);
    make_version(t.as_str())
}

/// The kernel series of `config`, with nothing in progress.
pub fn new(config: &Config) -> (r: Result<Linux, Error>)
    ensures
        match r {
            Ok(l) => {
                &&& version_spec(config.linux.version@) == Some(l.version)
                &&& url_parsed(base_url_text(l.version)) == Some(l.base_url@)
                &&& l.version_file@ == join_spec(
                    config.download_dir@,
                    tree_name_spec(l.version) + ".version"@,
                )
                &&& l.download_dir@ == config.download_dir@
                &&& l.source_dir@ == version_dir_spec(config.download_dir@, l.version)
                &&& l.build_dir@ == build_dir_spec(config.build_dir@, l.version, config.target@)
                &&& l.pkg_dir@ == join_spec(config.build_dir@, "packages"@)
                &&& l.patches_dir@ == patches_dir_spec(config.lib_dir@)
                &&& l.config == config.linux.config
                &&& l.jobs == config.jobs
                &&& l.arch@ == config.toolchain.linux_arch@
                &&& l.target@ == config.target@
                &&& l.name@ == config.target_name@
                &&& idle(l)
            },
            Err(Error::InvalidLinuxURL) => version_spec(config.linux.version@) matches Some(v)
                && url_parsed(base_url_text(v)) is None,
            Err(e) => version_spec(config.linux.version@) is None && is_version_error(e),
        },
{
    let version = make_version(config.linux.version.as_str())?;
    let mut vname = String::from_str("linux-");
    let short = version.render_short();
    vname.append(short.as_str());
    vname.append(".version");
    proof {
        reveal_strlit("linux-");
        reveal_strlit(".version");
    }
    assert(vname@ =~= tree_name_spec(version) + ".version"@);
    let version_file = join_path(config.download_dir.as_str(), vname.as_str());
    let pkg_dir = join_path(config.build_dir.as_str(), "packages");
    let mut url = String::from_str("https://cdn.kernel.org/pub/linux/kernel/v");
    let maj = render_decimal(version.maj as u128);
    url.append(maj.as_str());
    url.append(".x/");
    proof {
        reveal_strlit("https://cdn.kernel.org/pub/linux/kernel/v");
        reveal_strlit(".x/");
    }
    assert(url@ =~= base_url_text(version));
    let base_url = match parse_url(url.as_str()) {
        Ok(u) => u,
        Err(_) => return Err(Error::InvalidLinuxURL),
    };
    let config_path = match &config.linux.config {
        Some(c) => Some(c.clone()),
        None => None,
    };
    Ok(Linux {
        version,
        version_file,
        download_dir: config.download_dir.clone(),
        source_dir: make_version_dir(config.download_dir.as_str(), &version),
        patches_dir: make_patches_dir(config.lib_dir.as_str()),
        build_dir: make_build_dir(config.build_dir.as_str(), &version, config.target.as_str()),
        pkg_dir,
        config: config_path,
        base_url,
        target: config.target.clone(),
        arch: config.toolchain.linux_arch.clone(),
        name: config.target_name.clone(),
        jobs: config.jobs,
        run: Run {
            phase: FetchPhase::Idle,
            check_phase: CheckPhase::Idle,
            guard_held: false,
            url: String::new(),
            path: String::new(),
            queue: Vec::new(),
            pos: 0,
            abort: None,
            marker: Ghost(None),
            tree: Ghost(None),
        },
    })
}

/// Nothing is in progress.
pub open spec fn idle(l: Linux) -> bool {
    &&& l.version.maj >= 1
    &&& l.run.phase == FetchPhase::Idle
    &&& l.run.check_phase == CheckPhase::Idle
    &&& !l.run.guard_held
    &&& l.run.pos <= l.run.queue@.len()
    &&& l.run.abort is None
}

impl Linux {
    /// The URL and the file name of the upstream patch that follows the
    /// version in memory.
    pub fn get_next_patch_url(&self) -> (r: Result<(String, String), Error>)
        ensures
            match r {
                Ok((u, f)) => f@ == next_patch_file_spec(self.version) && next_patch_url_spec(
                    self.base_url@,
                    self.version,
                ) == Some(u@),
                Err(Error::InvalidLinuxURL) => next_patch_url_spec(self.base_url@, self.version)
                    is None,
                Err(_) => false,
            },
    {
        let v = self.version;
        let mut file = String::from_str("patch-");
        proof {
            reveal_strlit("patch-");
            reveal_strlit(".1.xz");
            reveal_strlit("-");
            reveal_strlit(".xz");
            reveal_strlit("incr/");
        }
        if v.mic == 0 {
            let short = v.render_short();
            file.append(short.as_str());
            file.append(".1.xz");
            assert(file@ =~= next_patch_file_spec(v));
            match join_url(self.base_url.as_str(), file.as_str()) {
                Ok(u) => Ok((u, file)),
                Err(_) => Err(Error::InvalidLinuxURL),
            }
        } else {
            let full = v.render();
            file.append(full.as_str());
            file.append("-");
            let next = render_decimal(v.mic as u128 + 1);
            file.append(next.as_str());
            file.append(".xz");
            assert(file@ =~= next_patch_file_spec(v));
            let incr = match join_url(self.base_url.as_str(), "incr/") {
                Ok(b) => b,
                Err(_) => return Err(Error::InvalidLinuxURL),
            };
            match join_url(incr.as_str(), file.as_str()) {
                Ok(u) => Ok((u, file)),
                Err(_) => Err(Error::InvalidLinuxURL),
            }
        }
    }

    /// Takes the version from the marker's text; `None` when there is no
    /// marker, which means the sources were never fetched.
    pub fn load_version(&mut self, marker_text: Option<&str>) -> (r: Result<(), Error>)
        ensures
            match marker_text {
                None => r == Err::<(), Error>(Error::LinuxNotFetched) && final(self).version == old(self).version,
                Some(t) => match marker_spec(t@) {
                    Some(v) => r == Ok::<(), Error>(()) && final(self).version == v,
                    None => (r matches Err(e) && is_version_error(e)) && final(self).version == old(
                        self,
                    ).version,
                },
            },
            final(self).run == old(self).run,
            same_setup(*old(self), *final(self)),
    {
        match marker_text {
            None => Err(Error::LinuxNotFetched),
            Some(t) => {
                let v = parse_marker(t)?;
                self.version = v;
                Ok(())
            },
        }
    }
}

/// The fields that no operation changes are the same in `s` and `t`.
pub open spec fn same_setup(s: Linux, t: Linux) -> bool {
    &&& t.version_file == s.version_file
    &&& t.download_dir == s.download_dir
    &&& t.source_dir == s.source_dir
    &&& t.patches_dir == s.patches_dir
    &&& t.build_dir == s.build_dir
    &&& t.pkg_dir == s.pkg_dir
    &&& t.config == s.config
    &&& t.base_url == s.base_url
    &&& t.target == s.target
    &&& t.arch == s.arch
    &&& t.name == s.name
    &&& t.jobs == s.jobs
}


/// The invariant of a fetch between two events: the guard is held exactly
/// in the phases that change the tree, and the marker and the tree are
/// known to agree wherever upstream is probed or a patch is prepared.
pub open spec fn fetch_wf(l: Linux) -> bool {
    let p = l.run.phase;
    &&& l.version.maj >= 1
    &&& l.run.pos <= l.run.queue@.len()
    &&& l.run.guard_held == (p == FetchPhase::CopyingConfig || p == FetchPhase::Listing || p
        == FetchPhase::ApplyingLocal || p == FetchPhase::WritingMarker || p
        == FetchPhase::Releasing || p == FetchPhase::ApplyingUpstream || p
        == FetchPhase::Aborting)
    &&& (p == FetchPhase::Aborting) == (l.run.abort is Some)
    &&& (p == FetchPhase::Probing || p == FetchPhase::Releasing || p
        == FetchPhase::DownloadingPatch || p == FetchPhase::Decompressing || p
        == FetchPhase::GuardingIncr || p == FetchPhase::ApplyingUpstream) ==> l.run.marker@
        == Some(l.version) && l.run.tree@ == Some(l.version)
    &&& (p == FetchPhase::DownloadingPatch || p == FetchPhase::Decompressing || p
        == FetchPhase::GuardingIncr || p == FetchPhase::ApplyingUpstream) ==> l.version.mic
        < usize::MAX
    &&& (p == FetchPhase::GuardingBase || p == FetchPhase::CopyingConfig || p
        == FetchPhase::Listing || p == FetchPhase::ApplyingLocal || p
        == FetchPhase::WritingMarker) ==> l.run.tree@ == Some(l.version)
}

/// Whether a fetch in phase `p` expects the event `ev`.
pub open spec fn fetch_expects(p: FetchPhase, ev: Event) -> bool {
    match ev {
        Event::Start => p == FetchPhase::Idle,
        Event::Inspected { .. } => p == FetchPhase::Inspecting,
        Event::Text { .. } => p == FetchPhase::ReadingMarker,
        Event::Done => p == FetchPhase::CreatingDownloadDir || p == FetchPhase::Untarring || p
            == FetchPhase::GuardingBase || p == FetchPhase::CopyingConfig || p
            == FetchPhase::ApplyingLocal || p == FetchPhase::WritingMarker || p
            == FetchPhase::Releasing || p == FetchPhase::Decompressing || p
            == FetchPhase::GuardingIncr || p == FetchPhase::ApplyingUpstream || p
            == FetchPhase::Aborting,
        Event::Code { .. } => p == FetchPhase::DownloadingArchive || p == FetchPhase::Probing || p
            == FetchPhase::DownloadingPatch,
        Event::NoAnswer => p == FetchPhase::Probing,
        Event::Listing { .. } => p == FetchPhase::Listing,
        Event::Failed { .. } => p != FetchPhase::Idle,
    }
}

/// The run of `t` is over with `res`, and `a` says so.
pub open spec fn finished(t: Linux, a: Action, res: Result<(), Error>) -> bool {
    &&& t.run.phase == FetchPhase::Idle
    &&& !t.run.guard_held
    &&& t.run.abort is None
    &&& a == Action::Finish { result: res }
}

/// The run of `t` is over with a failed download of `url` that ended
/// with `code`.
pub open spec fn download_failed(t: Linux, a: Action, code: u32, url: Seq<char>) -> bool {
    &&& t.run.phase == FetchPhase::Idle
    &&& !t.run.guard_held
    &&& t.run.abort is None
    &&& a matches Action::Finish { result: Err(Error::DownloadError { code: c, url: u }) } && c
        == code && u@ == url
}

/// The version and what is known of the disk are those of `s`.
pub open spec fn same_knowledge(s: Linux, t: Linux) -> bool {
    &&& t.version == s.version
    &&& t.run.marker == s.run.marker
    &&& t.run.tree == s.run.tree
}

/// The run fails with `e`: at once outside the guard; inside it, after
/// releasing the guard.
pub open spec fn fails_spec(s: Linux, t: Linux, a: Action, e: Error) -> bool {
    &&& same_knowledge(s, t)
    &&& if s.run.guard_held {
        &&& a == Action::ReleaseGuard
        &&& t.run.phase == FetchPhase::Aborting
        &&& t.run.guard_held
        &&& t.run.abort == Some(e)
    } else {
        finished(t, a, Err(e))
    }
}

/// After the version in memory is settled, the next upstream patch is
/// probed for.
pub open spec fn probes_next(t: Linux, a: Action) -> bool {
    match next_patch_url_spec(t.base_url@, t.version) {
        None => finished(t, a, Err(Error::InvalidLinuxURL)),
        Some(u) => {
            &&& t.run.phase == FetchPhase::Probing
            &&& t.run.url@ == u
            &&& t.run.path@ == join_spec(t.download_dir@, next_patch_file_spec(t.version))
            &&& a matches Action::Probe { url } && url@ == u
        },
    }
}

/// The local patch directory of `v`: `<patches>/M.N` at micro 0, else
/// `<patches>/M.N.P`.
pub open spec fn local_dir_spec(l: Linux, v: Version) -> Seq<char> {
    join_spec(l.patches_dir@, patch_dir_spec(v))
}

/// The step of a fetch from `s` on the event `ev`, to `t`, asking for `a`.
pub open spec fn fetch_spec(s: Linux, ev: Event, t: Linux, a: Action) -> bool {
    &&& same_setup(s, t)
    &&& t.run.check_phase == s.run.check_phase
    &&& fetch_wf(t)
    &&& if !fetch_expects(s.run.phase, ev) {
        fails_spec(s, t, a, Error::UnexpectedEvent)
    } else {
        match ev {
            Event::Failed { error } => if s.run.phase == FetchPhase::Aborting {
                same_knowledge(s, t) && finished(t, a, Err(s.run.abort->0))
            } else {
                fails_spec(s, t, a, error)
            },
            Event::Start => {
                &&& same_knowledge(s, t)
                &&& t.run.phase == FetchPhase::Inspecting
                &&& a == Action::Inspect { marker: s.version_file, source: s.source_dir }
            },
            Event::Inspected { marker_exists, source_exists } => if marker_exists {
                &&& same_knowledge(s, t)
                &&& t.run.phase == FetchPhase::ReadingMarker
                &&& a == Action::ReadMarker { path: s.version_file }
            } else if source_exists {
                &&& same_knowledge(s, t)
                &&& finished(
                    t,
                    a,
                    Err(Error::CorruptedSourceDir { dir: s.source_dir, version_file: s.version_file }),
                )
            } else {
                &&& t.version == Version { mic: 0, ..s.version }
                &&& t.run.marker == s.run.marker
                &&& t.run.tree == s.run.tree
                &&& match url_joined(s.base_url@, archive_name_spec(s.version)) {
                    None => finished(t, a, Err(Error::InvalidLinuxURL)),
                    Some(u) => {
                        &&& t.run.phase == FetchPhase::CreatingDownloadDir
                        &&& t.run.url@ == u
                        &&& a == Action::CreateDir { path: s.download_dir }
                    },
                }
            },
            Event::Text { text } => match marker_spec(text@) {
                None => {
                    &&& same_knowledge(s, t)
                    &&& t.run.phase == FetchPhase::Idle
                    &&& !t.run.guard_held
                    &&& a matches Action::Finish { result: Err(e) } && is_version_error(e)
                },
                Some(v) => {
                    &&& t.version == v
                    &&& t.run.marker@ == Some(v)
                    &&& t.run.tree@ == Some(v)
                    &&& probes_next(t, a)
                },
            },
            Event::Done => match s.run.phase {
                FetchPhase::CreatingDownloadDir => {
                    &&& same_knowledge(s, t)
                    &&& match url_last_segment(s.run.url@) {
                        None => finished(t, a, Err(Error::URLExtractError { url: s.run.url })),
                        Some(seg) => {
                            &&& t.run.phase == FetchPhase::DownloadingArchive
                            &&& t.run.url == s.run.url
                            &&& t.run.path@ == join_spec(s.download_dir@, seg)
                            &&& a == Action::Download { url: s.run.url, path: t.run.path }
                        },
                    }
                },
                FetchPhase::Untarring => {
                    let dir = strip_ext_spec(strip_ext_spec(s.run.path@));
                    if dir == s.source_dir@ {
                        &&& t.version == s.version
                        &&& t.run.marker == s.run.marker
                        &&& t.run.tree@ == Some(s.version)
                        &&& t.run.phase == FetchPhase::GuardingBase
                        &&& a == Action::EnterGuard
                    } else {
                        &&& same_knowledge(s, t)
                        &&& finished(
                            t,
                            a,
                            Err(Error::UnexpectedUntar { arch: s.run.path, dir: s.source_dir }),
                        )
                    }
                },
                FetchPhase::GuardingBase => {
                    &&& same_knowledge(s, t)
                    &&& t.run.phase == FetchPhase::CopyingConfig
                    &&& a matches Action::CopyConfig { build_dir, from, to } && build_dir
                        == s.build_dir && from == s.config && to@ == join_spec(
                        s.build_dir@,
                        ".config"@,
                    )
                },
                FetchPhase::CopyingConfig => {
                    &&& same_knowledge(s, t)
                    &&& t.run.phase == FetchPhase::Listing
                    &&& a matches Action::ListPatches { dir } && dir@ == local_dir_spec(s, s.version)
                },
                FetchPhase::ApplyingLocal => {
                    &&& same_knowledge(s, t)
                    &&& t.run.queue == s.run.queue
                    &&& t.run.pos == if s.run.pos < s.run.queue@.len() {
                        s.run.pos + 1
                    } else {
                        s.run.pos as int
                    }
                    &&& (if s.run.pos < s.run.queue@.len() {
                        &&& t.run.phase == FetchPhase::ApplyingLocal
                        &&& a == Action::ApplyDiff { dir: s.source_dir, diff: s.run.queue@[s.run.pos as int] }
                    } else {
                        &&& t.run.phase == FetchPhase::WritingMarker
                        &&& a matches Action::WriteMarker { path, text } && path == s.version_file
                            && text@ == render_spec(s.version)
                    })
                },
                FetchPhase::WritingMarker => {
                    &&& t.version == s.version
                    &&& t.run.tree == s.run.tree
                    &&& t.run.marker@ == Some(s.version)
                    &&& t.run.phase == FetchPhase::Releasing
                    &&& a == Action::ReleaseGuard
                },
                FetchPhase::Releasing => {
                    &&& same_knowledge(s, t)
                    &&& probes_next(t, a)
                },
                FetchPhase::Decompressing => {
                    &&& same_knowledge(s, t)
                    &&& t.run.path == s.run.path
                    &&& t.run.phase == FetchPhase::GuardingIncr
                    &&& a == Action::EnterGuard
                },
                FetchPhase::GuardingIncr => {
                    &&& same_knowledge(s, t)
                    &&& t.run.phase == FetchPhase::ApplyingUpstream
                    &&& a == Action::ApplyDiff { dir: s.source_dir, diff: s.run.path }
                },
                FetchPhase::ApplyingUpstream => {
                    let v = Version { mic: (s.version.mic + 1) as usize, ..s.version };
                    &&& t.version == v
                    &&& t.run.marker == s.run.marker
                    &&& t.run.tree@ == Some(v)
                    &&& t.run.phase == FetchPhase::Listing
                    &&& a matches Action::ListPatches { dir } && dir@ == local_dir_spec(s, v)
                },
                _ => {
                    &&& same_knowledge(s, t)
                    &&& finished(t, a, Err(s.run.abort->0))
                },
            },
            Event::Code { code } => match s.run.phase {
                FetchPhase::DownloadingArchive => {
                    &&& same_knowledge(s, t)
                    &&& if code_ok(code) {
                        &&& t.run.phase == FetchPhase::Untarring
                        &&& t.run.path == s.run.path
                        &&& a matches Action::Untar { archive, dir } && archive == s.run.path
                            && dir@ == strip_ext_spec(strip_ext_spec(s.run.path@))
                    } else {
                        download_failed(t, a, code, s.run.url@)
                    }
                },
                FetchPhase::Probing => {
                    &&& same_knowledge(s, t)
                    &&& if code_ok(code) && s.version.mic == usize::MAX {
                        &&& t.run.phase == FetchPhase::Idle
                        &&& !t.run.guard_held
                        &&& t.run.abort is None
                        &&& a matches Action::Finish {
                            result: Err(Error::VersionOverflow { version }),
                        } && version@ == render_spec(s.version)
                    } else if code_ok(code) {
                        &&& t.run.phase == FetchPhase::DownloadingPatch
                        &&& t.run.url == s.run.url
                        &&& t.run.path == s.run.path
                        &&& a == Action::Download { url: s.run.url, path: s.run.path }
                    } else {
                        finished(t, a, Ok(()))
                    }
                },
                _ => {
                    &&& same_knowledge(s, t)
                    &&& if code_ok(code) {
                        &&& t.run.phase == FetchPhase::Decompressing
                        &&& t.run.path@ == strip_ext_spec(s.run.path@)
                        &&& a matches Action::Decompress { path, out } && path == s.run.path
                            && out@ == strip_ext_spec(s.run.path@)
                    } else {
                        download_failed(t, a, code, s.run.url@)
                    }
                },
            },
            Event::NoAnswer => same_knowledge(s, t) && finished(t, a, Ok(())),
            Event::Listing { files } => {
                &&& same_knowledge(s, t)
                &&& t.run.queue@.to_multiset() == (match files {
                    Some(f) => f@,
                    None => Seq::<String>::empty(),
                }).to_multiset()
                &&& sorted_texts(t.run.queue@)
                &&& if t.run.queue@.len() > 0 {
                    &&& t.run.pos == 1
                    &&& t.run.phase == FetchPhase::ApplyingLocal
                    &&& a == Action::ApplyDiff { dir: s.source_dir, diff: t.run.queue@[0] }
                } else {
                    &&& t.run.pos == 0
                    &&& t.run.phase == FetchPhase::WritingMarker
                    &&& a matches Action::WriteMarker { path, text } && path == s.version_file
                        && text@ == render_spec(s.version)
                }
            },
        }
    }
}


impl Linux {
    /// Ends the run with `result`; the guard is not held.
    fn finish(&mut self, result: Result<(), Error>) -> (a: Action)
        requires
            old(self).version.maj >= 1,
            !old(self).run.guard_held,
            old(self).run.pos <= old(self).run.queue@.len(),
        ensures
            finished(*final(self), a, result),
            same_setup(*old(self), *final(self)),
            same_knowledge(*old(self), *final(self)),
            final(self).run.check_phase == old(self).run.check_phase,
            fetch_wf(*final(self)),
    {
        self.run.phase = FetchPhase::Idle;
        self.run.abort = None;
        Action::Finish { result }
    }

    /// Fails the run with `e`, releasing the guard first if it is held.
    fn fail(&mut self, e: Error) -> (a: Action)
        requires
            fetch_wf(*old(self)),
        ensures
            fails_spec(*old(self), *final(self), a, e),
            same_setup(*old(self), *final(self)),
            final(self).run.check_phase == old(self).run.check_phase,
            fetch_wf(*final(self)),
    {
        if self.run.guard_held {
            self.run.phase = FetchPhase::Aborting;
            self.run.abort = Some(e);
            Action::ReleaseGuard
        } else {
            self.finish(Err(e))
        }
    }

    /// Probes for the upstream patch that follows the version in memory.
    fn probe_next(&mut self) -> (a: Action)
        requires
            old(self).version.maj >= 1,
            !old(self).run.guard_held,
            old(self).run.pos <= old(self).run.queue@.len(),
            old(self).run.marker@ == Some(old(self).version),
            old(self).run.tree@ == Some(old(self).version),
        ensures
            probes_next(*final(self), a),
            same_setup(*old(self), *final(self)),
            same_knowledge(*old(self), *final(self)),
            final(self).run.check_phase == old(self).run.check_phase,
            fetch_wf(*final(self)),
    {
        match self.get_next_patch_url() {
            Ok((url, file)) => {
                let path = join_path(self.download_dir.as_str(), file.as_str());
                self.run.phase = FetchPhase::Probing;
                self.run.url = url.clone();
                self.run.path = path;
                self.run.abort = None;
                Action::Probe { url }
            },
            Err(e) => self.finish(Err(e)),
        }
    }

    /// Hands out the next local patch, or the marker once none is left.
    fn next_local(&mut self) -> (a: Action)
        requires
            old(self).version.maj >= 1,
            old(self).run.guard_held,
            old(self).run.pos <= old(self).run.queue@.len(),
            old(self).run.tree@ == Some(old(self).version),
            old(self).run.abort is None,
        ensures
            same_setup(*old(self), *final(self)),
            same_knowledge(*old(self), *final(self)),
            final(self).run.check_phase == old(self).run.check_phase,
            final(self).run.queue == old(self).run.queue,
            final(self).run.guard_held,
            fetch_wf(*final(self)),
            if old(self).run.pos < old(self).run.queue@.len() {
                &&& final(self).run.pos == old(self).run.pos + 1
                &&& final(self).run.phase == FetchPhase::ApplyingLocal
                &&& a == Action::ApplyDiff {
                    dir: old(self).source_dir,
                    diff: old(self).run.queue@[old(self).run.pos as int],
                }
            } else {
                &&& final(self).run.pos == old(self).run.pos
                &&& final(self).run.phase == FetchPhase::WritingMarker
                &&& a matches Action::WriteMarker { path, text } && path == old(self).version_file
                    && text@ == render_spec(old(self).version)
            },
    {
        if self.run.pos < self.run.queue.len() {
            let diff = self.run.queue[self.run.pos].clone();
            self.run.pos = self.run.pos + 1;
            self.run.phase = FetchPhase::ApplyingLocal;
            Action::ApplyDiff { dir: self.source_dir.clone(), diff }
        } else {
            self.run.phase = FetchPhase::WritingMarker;
            Action::WriteMarker { path: self.version_file.clone(), text: self.version.render() }
        }
    }

    /// Asks for the local patches of the version in memory.
    fn list_local(&mut self) -> (a: Action)
        ensures
            a matches Action::ListPatches { dir } && dir@ == local_dir_spec(*old(self), old(self).version),
            final(self).run.phase == FetchPhase::Listing,
            final(self).version == old(self).version,
            final(self).run.marker == old(self).run.marker,
            final(self).run.tree == old(self).run.tree,
            final(self).run.guard_held == old(self).run.guard_held,
            final(self).run.queue == old(self).run.queue,
            final(self).run.pos == old(self).run.pos,
            final(self).run.abort == old(self).run.abort,
            final(self).run.check_phase == old(self).run.check_phase,
            same_setup(*old(self), *final(self)),
    {
        let name = self.version.patch_dir_name();
        let dir = join_path(self.patches_dir.as_str(), name.as_str());
        self.run.phase = FetchPhase::Listing;
        Action::ListPatches { dir }
    }

    fn on_inspected(&mut self, marker_exists: bool, source_exists: bool) -> (a: Action)
        requires
            fetch_wf(*old(self)),
            old(self).run.phase == FetchPhase::Inspecting,
        ensures
            fetch_spec(
                *old(self),
                Event::Inspected { marker_exists, source_exists },
                *final(self),
                a,
            ),
    {
        if marker_exists {
            self.run.phase = FetchPhase::ReadingMarker;
            Action::ReadMarker { path: self.version_file.clone() }
        } else if source_exists {
            let e = Error::CorruptedSourceDir {
                dir: self.source_dir.clone(),
                version_file: self.version_file.clone(),
            };
            self.finish(Err(e))
        } else {
            self.version.mic = 0;
            let mut arch = String::from_str("linux-");
            let short = self.version.render_short();
            arch.append(short.as_str());
            arch.append(".tar.xz");
            proof {
                reveal_strlit("linux-");
                reveal_strlit(".tar.xz");
            }
            assert(arch@ =~= archive_name_spec(old(self).version));
            match join_url(self.base_url.as_str(), arch.as_str()) {
                Ok(u) => {
                    self.run.url = u;
                    self.run.phase = FetchPhase::CreatingDownloadDir;
                    Action::CreateDir { path: self.download_dir.clone() }
                },
                Err(_) => self.finish(Err(Error::InvalidLinuxURL)),
            }
        }
    }

    fn on_text(&mut self, text: String) -> (a: Action)
        requires
            fetch_wf(*old(self)),
            old(self).run.phase == FetchPhase::ReadingMarker,
        ensures
            fetch_spec(*old(self), Event::Text { text }, *final(self), a),
    {
        match parse_marker(text.as_str()) {
            Ok(v) => {
                self.version = v;
                self.run.marker = Ghost(Some(v));
                self.run.tree = Ghost(Some(v));
                self.probe_next()
            },
            Err(e) => self.finish(Err(e)),
        }
    }

    fn on_dir_created(&mut self) -> (a: Action)
        requires
            fetch_wf(*old(self)),
            old(self).run.phase == FetchPhase::CreatingDownloadDir,
        ensures
            fetch_spec(*old(self), Event::Done, *final(self), a),
    {
        match last_segment(self.run.url.as_str()) {
            Some(seg) => {
                let path = join_path(self.download_dir.as_str(), seg.as_str());
                self.run.path = path.clone();
                self.run.phase = FetchPhase::DownloadingArchive;
                Action::Download { url: self.run.url.clone(), path }
            },
            None => {
                let e = Error::URLExtractError { url: self.run.url.clone() };
                self.finish(Err(e))
            },
        }
    }

    fn on_untarred(&mut self) -> (a: Action)
        requires
            fetch_wf(*old(self)),
            old(self).run.phase == FetchPhase::Untarring,
        ensures
            fetch_spec(*old(self), Event::Done, *final(self), a),
    {
        let once = strip_extension(self.run.path.as_str());
        let dir = strip_extension(once.as_str());
        if dir == self.source_dir {
            self.run.tree = Ghost(Some(self.version));
            self.run.phase = FetchPhase::GuardingBase;
            Action::EnterGuard
        } else {
            let e = Error::UnexpectedUntar { arch: self.run.path.clone(), dir: self.source_dir.clone() };
            self.finish(Err(e))
        }
    }

    fn on_code(&mut self, code: u32) -> (a: Action)
        requires
            fetch_wf(*old(self)),
            old(self).run.phase == FetchPhase::DownloadingArchive || old(self).run.phase
                == FetchPhase::Probing || old(self).run.phase == FetchPhase::DownloadingPatch,
        ensures
            fetch_spec(*old(self), Event::Code { code }, *final(self), a),
    {
        match self.run.phase {
            FetchPhase::Probing => {
                if probe_found(code) && self.version.mic == usize::MAX {
                    let e = Error::VersionOverflow { version: self.version.render() };
                    self.finish(Err(e))
                } else if probe_found(code) {
                    self.run.phase = FetchPhase::DownloadingPatch;
                    Action::Download { url: self.run.url.clone(), path: self.run.path.clone() }
                } else {
                    self.finish(Ok(()))
                }
            },
            FetchPhase::DownloadingArchive => {
                match download_result(self.run.url.as_str(), code) {
                    Ok(()) => {
                        let once = strip_extension(self.run.path.as_str());
                        let dir = strip_extension(once.as_str());
                        self.run.phase = FetchPhase::Untarring;
                        Action::Untar { archive: self.run.path.clone(), dir }
                    },
                    Err(e) => self.finish(Err(e)),
                }
            },
            _ => {
                match download_result(self.run.url.as_str(), code) {
                    Ok(()) => {
                        let out = strip_extension(self.run.path.as_str());
                        let path = self.run.path.clone();
                        self.run.path = out.clone();
                        self.run.phase = FetchPhase::Decompressing;
                        Action::Decompress { path, out }
                    },
                    Err(e) => self.finish(Err(e)),
                }
            },
        }
    }

    fn on_listing(&mut self, files: Option<Vec<String>>) -> (a: Action)
        requires
            fetch_wf(*old(self)),
            old(self).run.phase == FetchPhase::Listing,
        ensures
            fetch_spec(*old(self), Event::Listing { files }, *final(self), a),
    {
        let mut queue = match files {
            Some(f) => f,
            None => Vec::new(),
        };
        sort_texts(&mut queue);
        self.run.queue = queue;
        self.run.pos = 0;
        self.next_local()
    }

    fn on_done(&mut self) -> (a: Action)
        requires
            fetch_wf(*old(self)),
            fetch_expects(old(self).run.phase, Event::Done),
        ensures
            fetch_spec(*old(self), Event::Done, *final(self), a),
    {
        match self.run.phase {
            FetchPhase::CreatingDownloadDir => self.on_dir_created(),
            FetchPhase::Untarring => self.on_untarred(),
            FetchPhase::GuardingBase => {
                self.run.guard_held = true;
                let to = join_path(self.build_dir.as_str(), ".config");
                let from = match &self.config {
                    Some(c) => Some(c.clone()),
                    None => None,
                };
                self.run.phase = FetchPhase::CopyingConfig;
                Action::CopyConfig { build_dir: self.build_dir.clone(), from, to }
            },
            FetchPhase::CopyingConfig => self.list_local(),
            FetchPhase::ApplyingLocal => self.next_local(),
            FetchPhase::WritingMarker => {
                self.run.marker = Ghost(Some(self.version));
                self.run.phase = FetchPhase::Releasing;
                Action::ReleaseGuard
            },
            FetchPhase::Releasing => {
                self.run.guard_held = false;
                self.probe_next()
            },
            FetchPhase::Decompressing => {
                self.run.phase = FetchPhase::GuardingIncr;
                Action::EnterGuard
            },
            FetchPhase::GuardingIncr => {
                self.run.guard_held = true;
                self.run.phase = FetchPhase::ApplyingUpstream;
                Action::ApplyDiff { dir: self.source_dir.clone(), diff: self.run.path.clone() }
            },
            FetchPhase::ApplyingUpstream => {
                self.version.mic = self.version.mic + 1;
                self.run.tree = Ghost(Some(self.version));
                self.list_local()
            },
            _ => self.finish_abort(),
        }
    }

    /// Ends an aborted run once the guard is released.
    fn finish_abort(&mut self) -> (a: Action)
        requires
            fetch_wf(*old(self)),
            old(self).run.phase == FetchPhase::Aborting,
        ensures
            same_setup(*old(self), *final(self)),
            same_knowledge(*old(self), *final(self)),
            final(self).run.check_phase == old(self).run.check_phase,
            finished(*final(self), a, Err(old(self).run.abort->0)),
            fetch_wf(*final(self)),
    {
        let e = self.run.abort.take();
        self.run.guard_held = false;
        match e {
            Some(e) => self.finish(Err(e)),
            None => self.finish(Err(Error::UnexpectedEvent)),
        }
    }

    /// One step of a fetch: takes the outcome of the last action (or
    /// `Start`) and returns the next action. The tree is brought to the
    /// latest upstream point release of its series, with the local patches
    /// of every version applied after its upstream patch and the marker
    /// written last, all inside the interrupt guard.
    pub fn fetch(&mut self, ev: Event) -> (a: Action)
        requires
            fetch_wf(*old(self)),
        ensures
            fetch_spec(*old(self), ev, *final(self), a),
    {
        if !self.expects(&ev) {
            return self.fail(Error::UnexpectedEvent);
        }
        match ev {
            Event::Start => {
                self.run.phase = FetchPhase::Inspecting;
                Action::Inspect { marker: self.version_file.clone(), source: self.source_dir.clone() }
            },
            Event::Inspected { marker_exists, source_exists } => self.on_inspected(
                marker_exists,
                source_exists,
            ),
            Event::Text { text } => self.on_text(text),
            Event::Done => self.on_done(),
            Event::Code { code } => self.on_code(code),
            Event::NoAnswer => self.finish(Ok(())),
            Event::Listing { files } => self.on_listing(files),
            Event::Failed { error } => {
                if self.run.phase == FetchPhase::Aborting {
                    self.finish_abort()
                } else {
                    self.fail(error)
                }
            },
        }
    }

    /// Whether the fetch in progress expects `ev` now.
    fn expects(&self, ev: &Event) -> (r: bool)
        ensures
            r == fetch_expects(self.run.phase, *ev),
    {
        let p = self.run.phase;
        match ev {
            Event::Start => p == FetchPhase::Idle,
            Event::Inspected { .. } => p == FetchPhase::Inspecting,
            Event::Text { .. } => p == FetchPhase::ReadingMarker,
            Event::Done => p == FetchPhase::CreatingDownloadDir || p == FetchPhase::Untarring || p
                == FetchPhase::GuardingBase || p == FetchPhase::CopyingConfig || p
                == FetchPhase::ApplyingLocal || p == FetchPhase::WritingMarker || p
                == FetchPhase::Releasing || p == FetchPhase::Decompressing || p
                == FetchPhase::GuardingIncr || p == FetchPhase::ApplyingUpstream || p
                == FetchPhase::Aborting,
            Event::Code { .. } => p == FetchPhase::DownloadingArchive || p == FetchPhase::Probing
                || p == FetchPhase::DownloadingPatch,
            Event::NoAnswer => p == FetchPhase::Probing,
            Event::Listing { .. } => p == FetchPhase::Listing,
            Event::Failed { .. } => p != FetchPhase::Idle,
        }
    }
}


/// The step of an update check from `s` on the event `ev`, to `t`, asking
/// for `a`. A tree without marker can always be advanced; otherwise the
/// upstream patch that follows the marker's version is probed for.
pub open spec fn check_spec(s: Linux, ev: Event, t: Linux, a: Action) -> bool {
    &&& same_setup(s, t)
    &&& t.run.phase == s.run.phase
    &&& t.run.guard_held == s.run.guard_held
    &&& t.run.pos == s.run.pos
    &&& t.run.queue == s.run.queue
    &&& t.run.abort == s.run.abort
    &&& match (s.run.check_phase, ev) {
        (CheckPhase::Idle, Event::Start) => {
            &&& t.version == s.version
            &&& t.run.check_phase == CheckPhase::Inspecting
            &&& a == Action::Inspect { marker: s.version_file, source: s.source_dir }
        },
        (CheckPhase::Inspecting, Event::Inspected { marker_exists, .. }) => {
            &&& t.version == s.version
            &&& if marker_exists {
                &&& t.run.check_phase == CheckPhase::ReadingMarker
                &&& a == Action::ReadMarker { path: s.version_file }
            } else {
                &&& t.run.check_phase == CheckPhase::Idle
                &&& a == Action::Report { available: true }
            }
        },
        (CheckPhase::ReadingMarker, Event::Text { text }) => match marker_spec(text@) {
            None => {
                &&& t.version == s.version
                &&& t.run.check_phase == CheckPhase::Idle
                &&& a matches Action::Finish { result: Err(e) } && is_version_error(e)
            },
            Some(v) => {
                &&& t.version == v
                &&& match next_patch_url_spec(s.base_url@, v) {
                    None => {
                        &&& t.run.check_phase == CheckPhase::Idle
                        &&& a == Action::Finish { result: Err(Error::InvalidLinuxURL) }
                    },
                    Some(u) => {
                        &&& t.run.check_phase == CheckPhase::Probing
                        &&& a matches Action::Probe { url } && url@ == u
                    },
                }
            },
        },
        (CheckPhase::Probing, Event::Code { code }) => {
            &&& t.version == s.version
            &&& t.run.check_phase == CheckPhase::Idle
            &&& a == Action::Report { available: code_ok(code) }
        },
        (CheckPhase::Probing, Event::NoAnswer) => {
            &&& t.version == s.version
            &&& t.run.check_phase == CheckPhase::Idle
            &&& a == Action::Report { available: false }
        },
        (p, Event::Failed { error }) => {
            &&& t.version == s.version
            &&& t.run.check_phase == CheckPhase::Idle
            &&& a == Action::Finish {
                result: Err(if p == CheckPhase::Idle {
                    Error::UnexpectedEvent
                } else {
                    error
                }),
            }
        },
        _ => {
            &&& t.version == s.version
            &&& t.run.check_phase == CheckPhase::Idle
            &&& a == Action::Finish { result: Err(Error::UnexpectedEvent) }
        },
    }
}

impl Linux {
    /// One step of an update check: takes the outcome of the last action
    /// (or `Start`) and returns the next action, ending with
    /// [`Action::Report`] or a failure. It asks for nothing that changes a
    /// file.
    pub fn check_update(&mut self, ev: Event) -> (a: Action)
        ensures
            check_spec(*old(self), ev, *final(self), a),
            !is_mutating(a),
    {
        let p = self.run.check_phase;
        match ev {
            Event::Start if p == CheckPhase::Idle => {
                self.run.check_phase = CheckPhase::Inspecting;
                Action::Inspect { marker: self.version_file.clone(), source: self.source_dir.clone() }
            },
            Event::Inspected { marker_exists, .. } if p == CheckPhase::Inspecting => {
                if marker_exists {
                    self.run.check_phase = CheckPhase::ReadingMarker;
                    Action::ReadMarker { path: self.version_file.clone() }
                } else {
                    self.run.check_phase = CheckPhase::Idle;
                    Action::Report { available: true }
                }
            },
            Event::Text { text } if p == CheckPhase::ReadingMarker => {
                self.run.check_phase = CheckPhase::Idle;
                match parse_marker(text.as_str()) {
                    Ok(v) => {
                        self.version = v;
                        match self.get_next_patch_url() {
                            Ok((url, _)) => {
                                self.run.check_phase = CheckPhase::Probing;
                                Action::Probe { url }
                            },
                            Err(e) => Action::Finish { result: Err(e) },
                        }
                    },
                    Err(e) => Action::Finish { result: Err(e) },
                }
            },
            Event::Code { code } if p == CheckPhase::Probing => {
                self.run.check_phase = CheckPhase::Idle;
                Action::Report { available: probe_found(code) }
            },
            Event::NoAnswer if p == CheckPhase::Probing => {
                self.run.check_phase = CheckPhase::Idle;
                Action::Report { available: false }
            },
            Event::Failed { error } => {
                self.run.check_phase = CheckPhase::Idle;
                if p == CheckPhase::Idle {
                    Action::Finish { result: Err(Error::UnexpectedEvent) }
                } else {
                    Action::Finish { result: Err(error) }
                }
            },
            _ => {
                self.run.check_phase = CheckPhase::Idle;
                Action::Finish { result: Err(Error::UnexpectedEvent) }
            },
        }
    }

    /// Copies the target's build configuration, if any, into the build
    /// tree as `.config`.
    pub fn reconfigure(&self) -> (a: Action)
        ensures
            a matches Action::CopyConfig { build_dir, from, to } && build_dir == self.build_dir
                && from == self.config && to@ == join_spec(self.build_dir@, ".config"@),
    {
        let to = join_path(self.build_dir.as_str(), ".config");
        let from = match &self.config {
            Some(c) => Some(c.clone()),
            None => None,
        };
        Action::CopyConfig { build_dir: self.build_dir.clone(), from, to }
    }

    /// Takes the build tree's `.config` back as the target's configuration;
    /// a target without a configuration file has nowhere to take it.
    pub fn save_config(&self) -> (r: Result<Action, Error>)
        ensures
            match self.config {
                None => r == Err::<Action, Error>(Error::NoLinux),
                Some(c) => r matches Ok(Action::CopyConfig { build_dir, from: Some(f), to })
                    && build_dir == self.build_dir && f@ == join_spec(self.build_dir@, ".config"@)
                    && to == c,
            },
    {
        match &self.config {
            None => Err(Error::NoLinux),
            Some(c) => {
                let from = join_path(self.build_dir.as_str(), ".config");
                Ok(Action::CopyConfig { build_dir: self.build_dir.clone(), from: Some(from), to: c.clone() })
            },
        }
    }

    /// The arguments of the build driver for `make_target`, once the
    /// version is taken from the marker's text (`None`: never fetched).
    pub fn make(&mut self, make_target: &str, cross_compile: &str, marker_text: Option<&str>) -> (r:
        Result<Vec<String>, Error>)
        ensures
            match marker_text {
                None => r == Err::<Vec<String>, Error>(Error::LinuxNotFetched),
                Some(t) => match marker_spec(t@) {
                    None => r matches Err(e) && is_version_error(e),
                    Some(v) => final(self).version == v && (r matches Ok(args) && make_args_spec(
                        args@,
                        *final(self),
                        cross_compile@,
                        make_target@,
                    )),
                },
            },
            final(self).run == old(self).run,
            same_setup(*old(self), *final(self)),
    {
        self.load_version(marker_text)?;
        Ok(self.get_make_cmd(make_target, cross_compile))
    }

    /// `-C <source> -j<jobs> O=<build> ARCH=<arch> CROSS_COMPILE=<cc> -- <target>`.
    fn get_make_cmd(&self, make_target: &str, cross_compile: &str) -> (r: Vec<String>)
        ensures
            make_args_spec(r@, *self, cross_compile@, make_target@),
    {
        proof {
            reveal_strlit("-C");
            reveal_strlit("-j");
            reveal_strlit("O=");
            reveal_strlit("ARCH=");
            reveal_strlit("CROSS_COMPILE=");
            reveal_strlit("--");
        }
        let mut args: Vec<String> = Vec::new();
        args.push(String::from_str("-C"));
        args.push(self.source_dir.clone());
        let mut j = String::from_str("-j");
        let n = render_decimal(self.jobs as u128);
        j.append(n.as_str());
        args.push(j);
        let mut o = String::from_str("O=");
        o.append(self.build_dir.as_str());
        args.push(o);
        let mut arch = String::from_str("ARCH=");
        arch.append(self.arch.as_str());
        args.push(arch);
        let mut cc = String::from_str("CROSS_COMPILE=");
        cc.append(cross_compile);
        args.push(cc);
        args.push(String::from_str("--"));
        args.push(String::from_str(make_target));
        args
    }
}

/// The arguments of the build driver.
pub open spec fn make_args_spec(args: Seq<String>, l: Linux, cc: Seq<char>, target: Seq<char>) -> bool {
    &&& args.len() == 8
    &&& args[0]@ == "-C"@
    &&& args[1]@ == l.source_dir@
    &&& args[2]@ == "-j"@ + dec(l.jobs as nat)
    &&& args[3]@ == "O="@ + l.build_dir@
    &&& args[4]@ == "ARCH="@ + l.arch@
    &&& args[5]@ == "CROSS_COMPILE="@ + cc
    &&& args[6]@ == "--"@
    &&& args[7]@ == target
}

} // verus!
