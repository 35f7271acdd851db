//! Kernel packages: the names of the package files, the control file of
//! the meta-package that follows a series, and the list of what was built.

use vstd::prelude::*;

use crate::linux::Linux;
use crate::paths::{join_path, join_spec};
use crate::version::{render_spec, short_spec};

verus! {

/// `linux-image-<V>_1_<arch>.deb`, the kernel package of version V.
pub open spec fn image_package_spec(l: Linux, arch: Seq<char>) -> Seq<char> {
    "linux-image-"@ + render_spec(l.version) + "_1_"@ + arch + ".deb"@
}

/// `linux-image-<M>.<N>-<target>`, the meta-package of the series.
pub open spec fn meta_name_spec(l: Linux) -> Seq<char> {
    "linux-image-"@ + short_spec(l.version) + "-"@ + l.target@
}

/// The control file of the meta-package: it depends on the kernel package
/// of the version in memory.
pub open spec fn meta_control_spec(l: Linux, maintainer: Seq<char>, arch: Seq<char>) -> Seq<char> {
    "Package: "@ + meta_name_spec(l) + "\nVersion: "@ + render_spec(l.version)
        + "\nArchitecture: "@ + arch + "\nMaintainer: "@ + maintainer + "\nDepends: linux-image-"@
        + render_spec(l.version) + "\nDescription: Linux kernel for "@ + l.name@ + "\n"@
}

/// The texts of `paths`, each followed by a new line.
pub open spec fn lines_spec(paths: Seq<String>) -> Seq<char>
    decreases paths.len(),
{
    if paths.len() == 0 {
        Seq::empty()
    } else {
        lines_spec(paths.drop_last()) + paths.last()@ + "\n"@
    }
}

/// The package files that packaging the kernel leaves under the packaging
/// directory: the kernel package, then the meta-package.
pub fn package_paths(l: &Linux, debian_arch: &str) -> (r: (String, String))
    ensures
        r.0@ == join_spec(l.pkg_dir@, image_package_spec(*l, debian_arch@)),
        r.1@ == join_spec(l.pkg_dir@, meta_name_spec(*l) + ".deb"@),
{
    let image = image_package_name(l, debian_arch);
    let mut meta = meta_package_name(l);
    meta.append(".deb");
    proof {
        reveal_strlit(".deb");
    }
    (join_path(l.pkg_dir.as_str(), image.as_str()), join_path(l.pkg_dir.as_str(), meta.as_str()))
}

/// `linux-image-<V>_1_<arch>.deb`.
pub fn image_package_name(l: &Linux, debian_arch: &str) -> (r: String)
    ensures
        r@ == image_package_spec(*l, debian_arch@),
{
    let mut s = String::from_str("linux-image-");
    let v = l.version.render();
    s.append(v.as_str());
    s.append("_1_");
    s.append(debian_arch);
    s.append(".deb");
    proof {
        reveal_strlit("linux-image-");
        reveal_strlit("_1_");
        reveal_strlit(".deb");
    }
    assert(s@ =~= image_package_spec(*l, debian_arch@));
    s
}

/// `linux-image-<M>.<N>-<target>`.
pub fn meta_package_name(l: &Linux) -> (r: String)
    ensures
        r@ == meta_name_spec(*l),
{
    let mut s = String::from_str("linux-image-");
    let v = l.version.render_short();
    s.append(v.as_str());
    s.append("-");
    s.append(l.target.as_str());
    proof {
        reveal_strlit("linux-image-");
        reveal_strlit("-");
    }
    assert(s@ =~= meta_name_spec(*l));
    s
}

/// The control file of the meta-package.
pub fn meta_control(l: &Linux, maintainer: &str, debian_arch: &str) -> (r: String)
    ensures
        r@ == meta_control_spec(*l, maintainer@, debian_arch@),
{
    let v = l.version.render();
    let name = meta_package_name(l);
    let mut s = String::from_str("Package: ");
    s.append(name.as_str());
    s.append("\nVersion: ");
    s.append(v.as_str());
    s.append("\nArchitecture: ");
    s.append(debian_arch);
    s.append("\nMaintainer: ");
    s.append(maintainer);
    s.append("\nDepends: linux-image-");
    s.append(v.as_str());
    s.append("\nDescription: Linux kernel for ");
    s.append(l.name.as_str());
    s.append("\n");
    assert(s@ =~= meta_control_spec(*l, maintainer@, debian_arch@));
    s
}

/// The list of built packages: one path per line.
pub fn package_listing(paths: &Vec<String>) -> (r: String)
    ensures
        r@ == lines_spec(paths@),
{
    let mut s = String::new();
    let mut i: usize = 0;
    while i < paths.len()
        invariant
            i <= paths@.len(),
            s@ == lines_spec(paths@.subrange(0, i as int)),
        decreases paths@.len() - i,
    {
        s.append(paths[i].as_str());
        s.append("\n");
        assert(paths@.subrange(0, i + 1).drop_last() =~= paths@.subrange(0, i as int));
        i = i + 1;
    }
    assert(paths@.subrange(0, paths@.len() as int) =~= paths@);
    s
}

} // verus!
