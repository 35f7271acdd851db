//! The vocabulary shared by the lifecycle machines: the actions they ask
//! the caller to carry out, the events the caller reports back, and the
//! effect of those actions on the files they touch.

use vstd::prelude::*;

use crate::error::Error;

verus! {

/// One step of outside work that a machine asks for. The caller performs
/// it and reports the outcome as an [`Event`].
#[derive(Debug)]
pub enum Action {
    /// Report whether the marker file and the source directory exist.
    Inspect { marker: String, source: String },
    /// Read the marker file and report its text.
    ReadMarker { path: String },
    /// Create the directory `path` and its parents.
    CreateDir { path: String },
    /// Download `url` into `path`, creating or truncating it; report the
    /// final response code.
    Download { url: String, path: String },
    /// Extract the archive next to itself; it must yield the directory `dir`.
    Untar { archive: String, dir: String },
    /// Ask whether `url` is present; report the response code, or that no
    /// answer came.
    Probe { url: String },
    /// Decompress the xz file `path` into `out`.
    Decompress { path: String, out: String },
    /// Enter the interrupt guard.
    EnterGuard,
    /// Create `build_dir`, then copy the file `from`, if any, to `to`.
    CopyConfig { build_dir: String, from: Option<String>, to: String },
    /// Report the regular files of the directory `dir`, or that it is absent.
    ListPatches { dir: String },
    /// Apply the diff in `diff` to the tree `dir` (stripping one leading
    /// path component).
    ApplyDiff { dir: String, diff: String },
    /// Create or truncate the marker `path` and write `text` to it.
    WriteMarker { path: String, text: String },
    /// Release the interrupt guard.
    ReleaseGuard,
    /// The check is over: whether an update is available.
    Report { available: bool },
    /// The operation is over, with this result.
    Finish { result: Result<(), Error> },
}

/// The outcome of the last [`Action`].
#[derive(Debug)]
pub enum Event {
    /// Begin the operation.
    Start,
    /// What [`Action::Inspect`] found.
    Inspected { marker_exists: bool, source_exists: bool },
    /// The text that [`Action::ReadMarker`] read.
    Text { text: String },
    /// The action succeeded.
    Done,
    /// A response arrived with this code.
    Code { code: u32 },
    /// No response arrived.
    NoAnswer,
    /// The regular files that [`Action::ListPatches`] found, or `None` when
    /// the directory is absent.
    Listing { files: Option<Vec<String>> },
    /// The action failed.
    Failed { error: Error },
}

/// An action that changes a file or a directory.
pub open spec fn is_mutating(a: Action) -> bool {
    match a {
        Action::CreateDir { .. } | Action::Download { .. } | Action::Untar { .. }
        | Action::Decompress { .. } | Action::CopyConfig { .. } | Action::ApplyDiff { .. }
        | Action::WriteMarker { .. } => true,
        _ => false,
    }
}

/// An action that changes the source tree or its marker.
pub open spec fn touches_tree(a: Action) -> bool {
    match a {
        Action::ApplyDiff { .. } | Action::WriteMarker { .. } | Action::CopyConfig { .. } => true,
        _ => false,
    }
}

/// Whether `a` orders text before or equal to `b`, character by character.
pub open spec fn text_le(a: Seq<char>, b: Seq<char>) -> bool
    decreases a.len(),
{
    if a.len() == 0 {
        true
    } else if b.len() == 0 {
        false
    } else if a[0] != b[0] {
        a[0] < b[0]
    } else {
        text_le(a.drop_first(), b.drop_first())
    }
}

/// The texts of `v` are in order.
pub open spec fn sorted_texts(v: Seq<String>) -> bool {
    forall|i: int, j: int| 0 <= i < j < v.len() ==> text_le(#[trigger] v[i]@, #[trigger] v[j]@)
}

/// Relies on `slice::sort` for `String`: the same texts, in ascending order
/// (`String` orders by bytes, which for UTF-8 is the order of characters).
#[verifier::external_body]
pub(crate) fn sort_texts(v: &mut Vec<String>)
    ensures
        final(v)@.to_multiset() == old(v)@.to_multiset(),
        final(v)@.len() == old(v)@.len(),
        sorted_texts(final(v)@),
{
    v.sort()
}

/// The contents of the files, by path, after copying `from`, if there is
/// one, onto `to`.
pub open spec fn copy_effect(
    files: Map<Seq<char>, Seq<u8>>,
    from: Option<Seq<char>>,
    to: Seq<char>,
) -> Map<Seq<char>, Seq<u8>> {
    match from {
        Some(f) => if files.contains_key(f) {
            files.insert(to, files[f])
        } else {
            files
        },
        None => files,
    }
}

/// The contents of the files after copying `n` times.
pub open spec fn copy_effect_n(
    files: Map<Seq<char>, Seq<u8>>,
    from: Option<Seq<char>>,
    to: Seq<char>,
    n: nat,
) -> Map<Seq<char>, Seq<u8>>
    decreases n,
{
    if n == 0 {
        files
    } else {
        copy_effect(copy_effect_n(files, from, to, (n - 1) as nat), from, to)
    }
}

proof fn lemma_copy_twice(files: Map<Seq<char>, Seq<u8>>, from: Option<Seq<char>>, to: Seq<char>)
    ensures
        copy_effect(copy_effect(files, from, to), from, to) == copy_effect(files, from, to),
{
    if let Some(f) = from {
        if files.contains_key(f) {
            let once = files.insert(to, files[f]);
            if f == to {
                assert(once =~= files);
            }
            assert(once.contains_key(f));
            assert(once[f] == files[f]);
            assert(once.insert(to, once[f]) =~= once);
        }
    }
}

/// Copying a configuration N times (N at least 1) leaves every file as
/// copying it once does.
pub proof fn lemma_copy_idempotent(
    files: Map<Seq<char>, Seq<u8>>,
    from: Option<Seq<char>>,
    to: Seq<char>,
    n: nat,
)
    requires
        n >= 1,
    ensures
        copy_effect_n(files, from, to, n) == copy_effect(files, from, to),
    decreases n,
{
    if n > 1 {
        lemma_copy_idempotent(files, from, to, (n - 1) as nat);
        lemma_copy_twice(files, from, to);
    } else {
        assert(copy_effect_n(files, from, to, 0) == files);
    }
}

} // verus!
