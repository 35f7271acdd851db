//! Laws of the lifecycle machines, proved from their step relations.

use vstd::prelude::*;

use crate::download::code_ok;
use crate::engine::{is_mutating, touches_tree, Action, Event};
use crate::error::Error;
use crate::linux::{
    check_spec, fetch_spec, fetch_wf, marker_spec, next_patch_file_spec, next_patch_url_spec,
    FetchPhase, Linux,
};
use crate::text::{dec, is_digit, is_space, lemma_dec_digits, trim_end_spec};
use crate::urls::url_joined;
use crate::version::{lemma_version_round_trip, render_spec, short_spec, Version};

verus! {

/// A fetch that ends successfully leaves the marker recording the version
/// in memory, which is the version the tree holds, that is, the highest
/// upstream micro revision applied.
pub proof fn lemma_fetch_success_marker(s: Linux, ev: Event, t: Linux, a: Action)
    requires
        fetch_wf(s),
        fetch_spec(s, ev, t, a),
        a == (Action::Finish { result: Ok(()) }),
    ensures
        t.run.marker@ == Some(t.version),
        t.run.tree@ == Some(t.version),
{
}

/// Every fetch starts by inspecting the disk and, right after, either
/// fails with `CorruptedSourceDir` (the source directory exists without
/// a marker) and does nothing else, or goes on from a consistent state.
pub proof fn lemma_fetch_starts_consistent(
    s0: Linux,
    a1: Action,
    s1: Linux,
    marker_exists: bool,
    source_exists: bool,
    a2: Action,
    s2: Linux,
)
    requires
        fetch_wf(s0),
        s0.run.phase == FetchPhase::Idle,
        fetch_spec(s0, Event::Start, s1, a1),
        fetch_spec(s1, Event::Inspected { marker_exists, source_exists }, s2, a2),
    ensures
        a1 is Inspect,
        (a2 matches Action::Finish { result: Err(Error::CorruptedSourceDir { .. }) }) <==> (
        !marker_exists && source_exists),
        !marker_exists && source_exists ==> s2.run.phase == FetchPhase::Idle,
        marker_exists ==> a2 is ReadMarker,
        !marker_exists && !source_exists ==> (a2 is CreateDir || a2 == Action::Finish {
            result: Err::<(), Error>(Error::InvalidLinuxURL),
        }),
{
}

/// A fetch that finds the marker and no newer upstream patch only
/// inspects, reads the marker and probes, then succeeds: it changes no
/// file, and the marker keeps recording what it recorded.
pub proof fn lemma_fetch_without_update(
    s0: Linux,
    a1: Action,
    s1: Linux,
    source_exists: bool,
    a2: Action,
    s2: Linux,
    text: String,
    a3: Action,
    s3: Linux,
    code: u32,
    a4: Action,
    s4: Linux,
)
    requires
        fetch_wf(s0),
        s0.run.phase == FetchPhase::Idle,
        fetch_spec(s0, Event::Start, s1, a1),
        fetch_spec(s1, Event::Inspected { marker_exists: true, source_exists }, s2, a2),
        fetch_spec(s2, Event::Text { text }, s3, a3),
        a3 is Probe,
        fetch_spec(s3, Event::Code { code }, s4, a4),
        !code_ok(code),
    ensures
        !is_mutating(a1),
        !is_mutating(a2),
        !is_mutating(a3),
        !is_mutating(a4),
        a4 == (Action::Finish { result: Ok(()) }),
        marker_spec(text@) == Some(s4.version),
        s4.run.marker@ == Some(s4.version),
{
}

/// The same with a probe that got no answer.
pub proof fn lemma_fetch_without_answer(s3: Linux, a4: Action, s4: Linux)
    requires
        fetch_wf(s3),
        s3.run.phase == FetchPhase::Probing,
        fetch_spec(s3, Event::NoAnswer, s4, a4),
    ensures
        !is_mutating(a4),
        a4 == (Action::Finish { result: Ok(()) }),
        s4.run.marker@ == Some(s4.version),
{
}

/// The tree and its marker are changed only inside the interrupt guard,
/// and a run never ends with the guard held.
pub proof fn lemma_guarded_mutation(s: Linux, ev: Event, t: Linux, a: Action)
    requires
        fetch_wf(s),
        fetch_spec(s, ev, t, a),
    ensures
        touches_tree(a) ==> t.run.guard_held,
        a is Finish ==> !t.run.guard_held,
{
}

/// The marker is written with the version the tree holds, and once it is
/// written the next step releases the guard: nothing follows the marker
/// inside a guarded section.
pub proof fn lemma_marker_written_last(
    s: Linux,
    ev: Event,
    t: Linux,
    a: Action,
    t2: Linux,
    a2: Action,
)
    requires
        fetch_wf(s),
        fetch_spec(s, ev, t, a),
        a is WriteMarker,
        fetch_spec(t, Event::Done, t2, a2),
    ensures
        t.run.phase == FetchPhase::WritingMarker,
        t.run.tree@ == Some(t.version),
        a->WriteMarker_text@ == render_spec(t.version),
        marker_spec(a->WriteMarker_text@) == Some(t.version),
        a2 == Action::ReleaseGuard,
        t2.run.marker@ == Some(t.version),
{
    lemma_marker_reads_back(t.version);
}

/// The text written to a marker reads back as the version it records.
pub proof fn lemma_marker_reads_back(v: Version)
    requires
        v.maj >= 1,
    ensures
        marker_spec(render_spec(v)) == Some(v),
{
    let r = render_spec(v);
    lemma_dec_digits(v.mic as nat);
    let d = dec(v.mic as nat);
    assert(r.last() == d.last());
    assert(is_digit(d[d.len() - 1]));
    assert(!is_space(r.last()));
    assert(trim_end_spec(r) == r);
    lemma_version_round_trip(v);
}

/// An absent directory of local patches and an empty one lead to the same
/// step, and neither is an error: the marker is written next.
pub proof fn lemma_empty_patch_dir(
    s: Linux,
    files: Vec<String>,
    t1: Linux,
    a1: Action,
    t2: Linux,
    a2: Action,
)
    requires
        fetch_wf(s),
        s.run.phase == FetchPhase::Listing,
        files@.len() == 0,
        fetch_spec(s, Event::Listing { files: None }, t1, a1),
        fetch_spec(s, Event::Listing { files: Some(files) }, t2, a2),
    ensures
        t1.run.phase == FetchPhase::WritingMarker,
        t2.run.phase == FetchPhase::WritingMarker,
        a1 is WriteMarker && a2 is WriteMarker,
        a1->WriteMarker_path == a2->WriteMarker_path,
        a1->WriteMarker_text@ == a2->WriteMarker_text@,
        t1.run.queue@.len() == 0 && t2.run.queue@.len() == 0,
{
    files@.to_multiset_ensures();
    Seq::<String>::empty().to_multiset_ensures();
    t1.run.queue@.to_multiset_ensures();
    t2.run.queue@.to_multiset_ensures();
}

/// An update check never asks for anything that changes a file.
pub proof fn lemma_check_read_only(s: Linux, ev: Event, t: Linux, a: Action)
    requires
        check_spec(s, ev, t, a),
    ensures
        !is_mutating(a),
        t.run.phase == s.run.phase,
{
}

/// From micro 0 the next upstream patch is `patch-M.N.1.xz`, directly
/// under the series' directory, not under `incr/`.
pub proof fn lemma_first_patch(base: Seq<char>, v: Version)
    requires
        v.mic == 0,
    ensures
        next_patch_file_spec(v) == "patch-"@ + short_spec(v) + ".1.xz"@,
        next_patch_url_spec(base, v) == url_joined(base, next_patch_file_spec(v)),
{
}

/// From micro P > 0 the next upstream patch is `incr/patch-M.N.P-Q.xz`
/// with Q = P + 1.
pub proof fn lemma_incremental_patch(base: Seq<char>, v: Version)
    requires
        v.mic > 0,
    ensures
        next_patch_file_spec(v) == "patch-"@ + render_spec(v) + "-"@ + dec(v.mic as nat + 1)
            + ".xz"@,
        next_patch_url_spec(base, v) == match url_joined(base, "incr/"@) {
            Some(b) => url_joined(b, next_patch_file_spec(v)),
            None => None,
        },
{
}

} // verus!
