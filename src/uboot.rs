//! The boot-loader source tree: fetched once from its release archive, with
//! the local patches of its version applied inside the interrupt guard.

use vstd::prelude::*;

use crate::config::Config;
use crate::download::{code_ok, download_result};
use crate::engine::{sort_texts, sorted_texts, Action, Event};
use crate::error::Error;
use crate::paths::{join_path, join_spec, strip_ext_spec, strip_extension};
use crate::text::{dec, render_decimal};
use crate::urls::{last_segment, parse_url, url_last_segment, url_parsed};

verus! {

/// Where a boot-loader fetch stands between two events.
#[derive(Debug, Clone, Copy, PartialEq, Eq, Structural)]
pub enum UbootPhase {
    Idle,
    Inspecting,
    CreatingDownloadDir,
    DownloadingArchive,
    Untarring,
    Guarding,
    CopyingConfig,
    Listing,
    ApplyingLocal,
    WritingMarker,
    Releasing,
    Aborting,
}

/// The state of the boot-loader fetch in progress.
pub struct UbootRun {
    pub phase: UbootPhase,
    pub guard_held: bool,
    /// The archive being fetched.
    pub path: String,
    pub queue: Vec<String>,
    pub pos: usize,
    pub abort: Option<Error>,
}

/// The boot loader of a target, with the fetch in progress on it.
pub struct Uboot {
    pub download_dir: String,
    pub source_dir: String,
    pub build_dir: String,
    pub patches_dir: String,
    pub version: String,
    pub version_file: String,
    pub config: Option<String>,
    pub url: String,
    pub arch: String,
    pub jobs: usize,
    pub run: UbootRun,
}

/// `u-boot-<version>`.
pub open spec fn uboot_name_spec(version: Seq<char>) -> Seq<char> {
    "u-boot-"@ + version
}

/// The release archive of a version.
pub open spec fn uboot_url_text(version: Seq<char>) -> Seq<char> {
    "ftp://ftp.denx.de/pub/u-boot/u-boot-"@ + version + ".tar.bz2"@
}

/// Compose a path involving a given U-Boot version: `<base>/u-boot-<v>`.
pub fn make_version_dir(base_dir: &str, version: &str) -> (r: String)
    ensures
        r@ == join_spec(base_dir@, uboot_name_spec(version@)),
{
    let mut name = String::from_str("u-boot-");
    name.append(version);
    proof {
        reveal_strlit("u-boot-");
    }
    join_path(base_dir, name.as_str())
}

/// The local patches of a U-Boot version: `<library>/patches/uboot/<v>`.
pub fn make_patches_dir(base_dir: &str, version: &str) -> (r: String)
    ensures
        r@ == join_spec(join_spec(join_spec(base_dir@, "patches"@), "uboot"@), version@),
{
    let p = join_path(base_dir, "patches");
    let p = join_path(p.as_str(), "uboot");
    join_path(p.as_str(), version)
}

/// Nothing is in progress.
pub open spec fn uboot_idle(u: Uboot) -> bool {
    &&& u.run.phase == UbootPhase::Idle
    &&& !u.run.guard_held
    &&& u.run.pos <= u.run.queue@.len()
    &&& u.run.abort is None
}

/// The boot loader of `config`, with nothing in progress.
pub fn new(config: &Config) -> (r: Result<Uboot, Error>)
    ensures
        match url_parsed(uboot_url_text(config.uboot.version@)) {
            None => r == Err::<Uboot, Error>(Error::InvalidUbootURL),
            Some(u) => r matches Ok(b) && {
                &&& b.url@ == u
                &&& b.version@ == config.uboot.version@
                &&& b.version_file@ == join_spec(
                    config.download_dir@,
                    uboot_name_spec(config.uboot.version@) + ".version"@,
                )
                &&& b.download_dir@ == config.download_dir@
                &&& b.source_dir@ == join_spec(config.download_dir@, uboot_name_spec(b.version@))
                &&& b.build_dir@ == join_spec(config.build_dir@, uboot_name_spec(b.version@))
                &&& b.patches_dir@ == join_spec(
                    join_spec(join_spec(config.lib_dir@, "patches"@), "uboot"@),
                    b.version@,
                )
                &&& b.config == config.uboot.config
                &&& b.arch@ == config.toolchain.uboot_arch@
                &&& b.jobs == config.jobs
                &&& uboot_idle(b)
            },
        },
{
    let version = config.uboot.version.clone();
    let mut url = String::from_str("ftp://ftp.denx.de/pub/u-boot/u-boot-");
    url.append(version.as_str());
    url.append(".tar.bz2");
    let mut vname = String::from_str("u-boot-");
    vname.append(version.as_str());
    vname.append(".version");
    proof {
        reveal_strlit("ftp://ftp.denx.de/pub/u-boot/u-boot-");
        reveal_strlit(".tar.bz2");
        reveal_strlit("u-boot-");
        reveal_strlit(".version");
    }
    assert(url@ =~= uboot_url_text(version@));
    assert(vname@ =~= uboot_name_spec(version@) + ".version"@);
    let url = match parse_url(url.as_str()) {
        Ok(u) => u,
        Err(_) => return Err(Error::InvalidUbootURL),
    };
    let config_path = match &config.uboot.config {
        Some(c) => Some(c.clone()),
        None => None,
    };
    Ok(Uboot {
        download_dir: config.download_dir.clone(),
        source_dir: make_version_dir(config.download_dir.as_str(), version.as_str()),
        build_dir: make_version_dir(config.build_dir.as_str(), version.as_str()),
        patches_dir: make_patches_dir(config.lib_dir.as_str(), version.as_str()),
        version_file: join_path(config.download_dir.as_str(), vname.as_str()),
        url,
        config: config_path,
        version,
        arch: config.toolchain.uboot_arch.clone(),
        jobs: config.jobs,
        run: UbootRun {
            phase: UbootPhase::Idle,
            guard_held: false,
            path: String::new(),
            queue: Vec::new(),
            pos: 0,
            abort: None,
        },
    })
}

/// The guard is held exactly in the phases that change the tree.
pub open spec fn uboot_wf(u: Uboot) -> bool {
    let p = u.run.phase;
    &&& u.run.pos <= u.run.queue@.len()
    &&& u.run.guard_held == (p == UbootPhase::CopyingConfig || p == UbootPhase::Listing || p
        == UbootPhase::ApplyingLocal || p
        == UbootPhase::WritingMarker || p == UbootPhase::Releasing || p == UbootPhase::Aborting)
    &&& (p == UbootPhase::Aborting) == (u.run.abort is Some)
}

/// The fields that the fetch does not change are the same in `s` and `t`.
pub open spec fn uboot_same_setup(s: Uboot, t: Uboot) -> bool {
    &&& t.download_dir == s.download_dir
    &&& t.source_dir == s.source_dir
    &&& t.build_dir == s.build_dir
    &&& t.patches_dir == s.patches_dir
    &&& t.version == s.version
    &&& t.version_file == s.version_file
    &&& t.config == s.config
    &&& t.url == s.url
    &&& t.arch == s.arch
    &&& t.jobs == s.jobs
}

/// Whether a boot-loader fetch in phase `p` expects the event `ev`.
pub open spec fn uboot_expects(p: UbootPhase, ev: Event) -> bool {
    match ev {
        Event::Start => p == UbootPhase::Idle,
        Event::Inspected { .. } => p == UbootPhase::Inspecting,
        Event::Done => p == UbootPhase::CreatingDownloadDir || p == UbootPhase::Untarring || p
            == UbootPhase::CopyingConfig || p == UbootPhase::Guarding || p
            == UbootPhase::ApplyingLocal || p == UbootPhase::WritingMarker || p
            == UbootPhase::Releasing || p == UbootPhase::Aborting,
        Event::Code { .. } => p == UbootPhase::DownloadingArchive,
        Event::Listing { .. } => p == UbootPhase::Listing,
        Event::Failed { .. } => p != UbootPhase::Idle,
        _ => false,
    }
}

/// The fetch of `t` is over with `res`, and `a` says so.
pub open spec fn uboot_finished(t: Uboot, a: Action, res: Result<(), Error>) -> bool {
    &&& t.run.phase == UbootPhase::Idle
    &&& !t.run.guard_held
    &&& t.run.abort is None
    &&& a == Action::Finish { result: res }
}

/// The fetch fails with `e`, releasing the guard first if it is held.
pub open spec fn uboot_fails(s: Uboot, t: Uboot, a: Action, e: Error) -> bool {
    if s.run.guard_held {
        &&& a == Action::ReleaseGuard
        &&& t.run.phase == UbootPhase::Aborting
        &&& t.run.guard_held
        &&& t.run.abort == Some(e)
    } else {
        uboot_finished(t, a, Err(e))
    }
}

/// After the local patches handed out so far in `s`, the next one is
/// applied, or the marker is written once none is left.
pub open spec fn uboot_next_local(s: Uboot, t: Uboot, a: Action) -> bool {
    &&& t.run.queue == s.run.queue
    &&& if s.run.pos < s.run.queue@.len() {
        &&& t.run.pos == s.run.pos + 1
        &&& t.run.phase == UbootPhase::ApplyingLocal
        &&& a == Action::ApplyDiff { dir: s.source_dir, diff: s.run.queue@[s.run.pos as int] }
    } else {
        &&& t.run.pos == s.run.pos
        &&& t.run.phase == UbootPhase::WritingMarker
        &&& a == Action::WriteMarker { path: s.version_file, text: s.version }
    }
}

/// The step of a boot-loader fetch from `s` on `ev`, to `t`, asking for `a`.
pub open spec fn uboot_fetch_spec(s: Uboot, ev: Event, t: Uboot, a: Action) -> bool {
    &&& uboot_same_setup(s, t)
    &&& uboot_wf(t)
    &&& if !uboot_expects(s.run.phase, ev) {
        uboot_fails(s, t, a, Error::UnexpectedEvent)
    } else {
        match ev {
            Event::Failed { error } => if s.run.phase == UbootPhase::Aborting {
                uboot_finished(t, a, Err(s.run.abort->0))
            } else {
                uboot_fails(s, t, a, error)
            },
            Event::Start => {
                &&& t.run.phase == UbootPhase::Inspecting
                &&& a == Action::Inspect { marker: s.version_file, source: s.source_dir }
            },
            Event::Inspected { marker_exists, source_exists } => if marker_exists {
                uboot_finished(t, a, Ok(()))
            } else if source_exists {
                uboot_finished(
                    t,
                    a,
                    Err(Error::CorruptedSourceDir { dir: s.source_dir, version_file: s.version_file }),
                )
            } else {
                &&& t.run.phase == UbootPhase::CreatingDownloadDir
                &&& a == Action::CreateDir { path: s.download_dir }
            },
            Event::Code { code } => if code_ok(code) {
                &&& t.run.phase == UbootPhase::Untarring
                &&& t.run.path == s.run.path
                &&& a matches Action::Untar { archive, dir } && archive == s.run.path && dir@
                    == strip_ext_spec(strip_ext_spec(s.run.path@))
            } else {
                &&& t.run.phase == UbootPhase::Idle
                &&& !t.run.guard_held
                &&& a matches Action::Finish {
                    result: Err(Error::DownloadError { code: c, url: u }),
                } && c == code && u@ == s.url@
            },
            Event::Listing { files } => {
                &&& t.run.queue@.to_multiset() == (match files {
                    Some(f) => f@,
                    None => Seq::<String>::empty(),
                }).to_multiset()
                &&& sorted_texts(t.run.queue@)
                &&& if t.run.queue@.len() > 0 {
                    &&& t.run.pos == 1
                    &&& t.run.phase == UbootPhase::ApplyingLocal
                    &&& a == Action::ApplyDiff { dir: s.source_dir, diff: t.run.queue@[0] }
                } else {
                    &&& t.run.pos == 0
                    &&& t.run.phase == UbootPhase::WritingMarker
                    &&& a == Action::WriteMarker { path: s.version_file, text: s.version }
                }
            },
            _ => match s.run.phase {
                UbootPhase::CreatingDownloadDir => match url_last_segment(s.url@) {
                    None => uboot_finished(t, a, Err(Error::URLExtractError { url: s.url })),
                    Some(seg) => {
                        &&& t.run.phase == UbootPhase::DownloadingArchive
                        &&& t.run.path@ == join_spec(s.download_dir@, seg)
                        &&& a == Action::Download { url: s.url, path: t.run.path }
                    },
                },
                UbootPhase::Untarring => if strip_ext_spec(strip_ext_spec(s.run.path@))
                    == s.source_dir@ {
                    &&& t.run.phase == UbootPhase::Guarding
                    &&& a == Action::EnterGuard
                } else {
                    uboot_finished(
                        t,
                        a,
                        Err(Error::UnexpectedUntar { arch: s.run.path, dir: s.source_dir }),
                    )
                },
                UbootPhase::Guarding => {
                    &&& t.run.phase == UbootPhase::CopyingConfig
                    &&& a matches Action::CopyConfig { build_dir, from, to } && build_dir
                        == s.build_dir && from == s.config && to@ == join_spec(
                        s.build_dir@,
                        ".config"@,
                    )
                },
                UbootPhase::CopyingConfig => {
                    &&& t.run.phase == UbootPhase::Listing
                    &&& a == Action::ListPatches { dir: s.patches_dir }
                },
                UbootPhase::ApplyingLocal => uboot_next_local(s, t, a),
                UbootPhase::WritingMarker => {
                    &&& t.run.phase == UbootPhase::Releasing
                    &&& a == Action::ReleaseGuard
                },
                UbootPhase::Releasing => uboot_finished(t, a, Ok(())),
                _ => uboot_finished(t, a, Err(s.run.abort->0)),
            },
        }
    }
}

impl Uboot {
    fn finish(&mut self, result: Result<(), Error>) -> (a: Action)
        requires
            old(self).run.pos <= old(self).run.queue@.len(),
        ensures
            uboot_finished(*final(self), a, result),
            uboot_same_setup(*old(self), *final(self)),
            uboot_wf(*final(self)),
    {
        self.run.phase = UbootPhase::Idle;
        self.run.guard_held = false;
        self.run.abort = None;
        Action::Finish { result }
    }

    fn fail(&mut self, e: Error) -> (a: Action)
        requires
            uboot_wf(*old(self)),
        ensures
            uboot_fails(*old(self), *final(self), a, e),
            uboot_same_setup(*old(self), *final(self)),
            uboot_wf(*final(self)),
    {
        if self.run.guard_held {
            self.run.phase = UbootPhase::Aborting;
            self.run.abort = Some(e);
            Action::ReleaseGuard
        } else {
            self.finish(Err(e))
        }
    }

    fn next_local(&mut self) -> (a: Action)
        requires
            old(self).run.guard_held,
            old(self).run.pos <= old(self).run.queue@.len(),
            old(self).run.abort is None,
        ensures
            uboot_next_local(*old(self), *final(self), a),
            uboot_same_setup(*old(self), *final(self)),
            uboot_wf(*final(self)),
    {
        if self.run.pos < self.run.queue.len() {
            let diff = self.run.queue[self.run.pos].clone();
            self.run.pos = self.run.pos + 1;
            self.run.phase = UbootPhase::ApplyingLocal;
            Action::ApplyDiff { dir: self.source_dir.clone(), diff }
        } else {
            self.run.phase = UbootPhase::WritingMarker;
            Action::WriteMarker { path: self.version_file.clone(), text: self.version.clone() }
        }
    }

    fn expects(&self, ev: &Event) -> (r: bool)
        ensures
            r == uboot_expects(self.run.phase, *ev),
    {
        let p = self.run.phase;
        match ev {
            Event::Start => p == UbootPhase::Idle,
            Event::Inspected { .. } => p == UbootPhase::Inspecting,
            Event::Done => p == UbootPhase::CreatingDownloadDir || p == UbootPhase::Untarring || p
                == UbootPhase::CopyingConfig || p == UbootPhase::Guarding || p
                == UbootPhase::ApplyingLocal || p == UbootPhase::WritingMarker || p
                == UbootPhase::Releasing || p == UbootPhase::Aborting,
            Event::Code { .. } => p == UbootPhase::DownloadingArchive,
            Event::Listing { .. } => p == UbootPhase::Listing,
            Event::Failed { .. } => p != UbootPhase::Idle,
            _ => false,
        }
    }

    fn on_done(&mut self) -> (a: Action)
        requires
            uboot_wf(*old(self)),
            uboot_expects(old(self).run.phase, Event::Done),
        ensures
            uboot_fetch_spec(*old(self), Event::Done, *final(self), a),
    {
        match self.run.phase {
            UbootPhase::CreatingDownloadDir => match last_segment(self.url.as_str()) {
                Some(seg) => {
                    let path = join_path(self.download_dir.as_str(), seg.as_str());
                    self.run.path = path.clone();
                    self.run.phase = UbootPhase::DownloadingArchive;
                    Action::Download { url: self.url.clone(), path }
                },
                None => {
                    let e = Error::URLExtractError { url: self.url.clone() };
                    self.finish(Err(e))
                },
            },
            UbootPhase::Untarring => {
                let once = strip_extension(self.run.path.as_str());
                let dir = strip_extension(once.as_str());
                if dir == self.source_dir {
                    self.run.phase = UbootPhase::Guarding;
                    Action::EnterGuard
                } else {
                    let e = Error::UnexpectedUntar {
                        arch: self.run.path.clone(),
                        dir: self.source_dir.clone(),
                    };
                    self.finish(Err(e))
                }
            },
            UbootPhase::Guarding => {
                self.run.guard_held = true;
                let to = join_path(self.build_dir.as_str(), ".config");
                let from = match &self.config {
                    Some(c) => Some(c.clone()),
                    None => None,
                };
                self.run.phase = UbootPhase::CopyingConfig;
                Action::CopyConfig { build_dir: self.build_dir.clone(), from, to }
            },
            UbootPhase::CopyingConfig => {
                self.run.phase = UbootPhase::Listing;
                Action::ListPatches { dir: self.patches_dir.clone() }
            },
            UbootPhase::ApplyingLocal => self.next_local(),
            UbootPhase::WritingMarker => {
                self.run.phase = UbootPhase::Releasing;
                Action::ReleaseGuard
            },
            UbootPhase::Releasing => self.finish(Ok(())),
            _ => {
                let e = self.run.abort.take();
                match e {
                    Some(e) => self.finish(Err(e)),
                    None => self.finish(Err(Error::UnexpectedEvent)),
                }
            },
        }
    }

    /// One step of the boot-loader fetch: takes the outcome of the last
    /// action (or `Start`) and returns the next one. A tree with its marker
    /// is left as it is; a missing one is downloaded, then configured,
    /// patched and marked inside the interrupt guard.
    pub fn fetch(&mut self, ev: Event) -> (a: Action)
        requires
            uboot_wf(*old(self)),
        ensures
            uboot_fetch_spec(*old(self), ev, *final(self), a),
    {
        if !self.expects(&ev) {
            return self.fail(Error::UnexpectedEvent);
        }
        match ev {
            Event::Start => {
                self.run.phase = UbootPhase::Inspecting;
                Action::Inspect { marker: self.version_file.clone(), source: self.source_dir.clone() }
            },
            Event::Inspected { marker_exists, source_exists } => {
                if marker_exists {
                    self.finish(Ok(()))
                } else if source_exists {
                    let e = Error::CorruptedSourceDir {
                        dir: self.source_dir.clone(),
                        version_file: self.version_file.clone(),
                    };
                    self.finish(Err(e))
                } else {
                    self.run.phase = UbootPhase::CreatingDownloadDir;
                    Action::CreateDir { path: self.download_dir.clone() }
                }
            },
            Event::Code { code } => {
                match download_result(self.url.as_str(), code) {
                    Ok(()) => {
                        let once = strip_extension(self.run.path.as_str());
                        let dir = strip_extension(once.as_str());
                        self.run.phase = UbootPhase::Untarring;
                        Action::Untar { archive: self.run.path.clone(), dir }
                    },
                    Err(e) => self.finish(Err(e)),
                }
            },
            Event::Listing { files } => {
                let mut queue = match files {
                    Some(f) => f,
                    None => Vec::new(),
                };
                sort_texts(&mut queue);
                self.run.queue = queue;
                self.run.pos = 0;
                self.next_local()
            },
            Event::Failed { error } => {
                if self.run.phase == UbootPhase::Aborting {
                    let e = self.run.abort.take();
                    match e {
                        Some(e) => self.finish(Err(e)),
                        None => self.finish(Err(Error::UnexpectedEvent)),
                    }
                } else {
                    self.fail(error)
                }
            },
            _ => self.on_done(),
        }
    }

    /// The arguments of the build driver for `make_target`:
    /// `O=<build> ARCH=<arch> CROSS_COMPILE=<cc> -C <source> -j<jobs> -- <target>`.
    pub fn make(&self, make_target: &str, cross_compile: &str) -> (r: Vec<String>)
        ensures
            r@.len() == 8,
            r@[0]@ == "O="@ + self.build_dir@,
            r@[1]@ == "ARCH="@ + self.arch@,
            r@[2]@ == "CROSS_COMPILE="@ + cross_compile@,
            r@[3]@ == "-C"@,
            r@[4]@ == self.source_dir@,
            r@[5]@ == "-j"@ + dec(self.jobs as nat),
            r@[6]@ == "--"@,
            r@[7]@ == make_target@,
    {
        proof {
            reveal_strlit("-C");
            reveal_strlit("-j");
            reveal_strlit("O=");
            reveal_strlit("ARCH=");
            reveal_strlit("CROSS_COMPILE=");
            reveal_strlit("--");
        }
        let mut args: Vec<String> = Vec::new();
        let mut o = String::from_str("O=");
        o.append(self.build_dir.as_str());
        args.push(o);
        let mut arch = String::from_str("ARCH=");
        arch.append(self.arch.as_str());
        args.push(arch);
        let mut cc = String::from_str("CROSS_COMPILE=");
        cc.append(cross_compile);
        args.push(cc);
        args.push(String::from_str("-C"));
        args.push(self.source_dir.clone());
        let mut j = String::from_str("-j");
        let n = render_decimal(self.jobs as u128);
        j.append(n.as_str());
        args.push(j);
        args.push(String::from_str("--"));
        args.push(String::from_str(make_target));
        args
    }

    /// Copies the target's boot-loader configuration, if any, into the
    /// build tree as `.config`.
    pub fn reconfigure(&self) -> (a: Action)
        ensures
            a matches Action::CopyConfig { build_dir, from, to } && build_dir == self.build_dir
                && from == self.config && to@ == join_spec(self.build_dir@, ".config"@),
    {
        let to = join_path(self.build_dir.as_str(), ".config");
        let from = match &self.config {
            Some(c) => Some(c.clone()),
            None => None,
        };
        Action::CopyConfig { build_dir: self.build_dir.clone(), from, to }
    }
}

/// The boot-loader tree, its configuration and its marker are changed only
/// inside the interrupt guard, the marker is written last, and a fetch never
/// ends with the guard held.
pub proof fn lemma_uboot_guarded(s: Uboot, ev: Event, t: Uboot, a: Action)
    requires
        uboot_wf(s),
        uboot_fetch_spec(s, ev, t, a),
    ensures
        (a is ApplyDiff || a is WriteMarker || a is CopyConfig) ==> t.run.guard_held,
        a is WriteMarker ==> t.run.phase == UbootPhase::WritingMarker,
        a is Finish ==> !t.run.guard_held,
{
}

/// After the marker is written, the next step releases the guard.
pub proof fn lemma_uboot_release_after_marker(t: Uboot, t2: Uboot, a2: Action)
    requires
        uboot_wf(t),
        t.run.phase == UbootPhase::WritingMarker,
        uboot_fetch_spec(t, Event::Done, t2, a2),
    ensures
        a2 == Action::ReleaseGuard,
{
}

} // verus!
