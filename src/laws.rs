//! Properties of resolution that span several steps.

use vstd::prelude::*;
use crate::release::{is_stale, lemma_stale_of_members, names_of};
use crate::resolver::{start, step, Answer, InstallPlan, Phase, Query, RumdlExtension};

verus! {

/// A resolution with a cached path first asks only whether that path is a regular
/// file; when it is, that path is the result, the state stays as it was, and the
/// settings, the search path and the network are never consulted.
pub proof fn lemma_cache_short_circuits(
    s0: RumdlExtension,
    ph: Phase,
    q: Query,
    s1: RumdlExtension,
    ph1: Phase,
    q1: Query,
)
    requires
        s0.cached_binary_path is Some,
        start(s0, ph, q),
        step(s0, ph, Answer::IsFile(true), s1, ph1, q1),
    ensures
        q == Query::IsFile(s0.cached_binary_path->Some_0),
        q1 == Query::Resolved(s0.cached_binary_path->Some_0),
        ph1 == Phase::Finished,
        s1 == s0,
{
}

/// A non-empty configured path is the result as it stands, with no check that a
/// file exists there; it is cached and marked as a system binary.
pub proof fn lemma_override_trusted(
    s0: RumdlExtension,
    p: String,
    s1: RumdlExtension,
    ph1: Phase,
    q: Query,
)
    requires
        p@.len() > 0,
        step(s0, Phase::ReadingOverride, Answer::Override(Ok(Some(p))), s1, ph1, q),
    ensures
        q == Query::Resolved(p),
        ph1 == Phase::Finished,
        s1.cached_binary_path == Some(p),
        s1.use_system_binary,
{
}

/// Once a resolution has returned `p`, the next one starts by asking whether `p` is a
/// regular file, and while it still is, returns `p` again with no other query: in
/// particular no second release fetch or download.
pub proof fn lemma_resolution_repeats(
    s0: RumdlExtension,
    ph: Phase,
    a: Answer,
    s1: RumdlExtension,
    p: String,
    ph2: Phase,
    q2: Query,
    s3: RumdlExtension,
    ph3: Phase,
    q3: Query,
)
    requires
        step(s0, ph, a, s1, Phase::Finished, Query::Resolved(p)),
        start(s1, ph2, q2),
        step(s1, ph2, Answer::IsFile(true), s3, ph3, q3),
    ensures
        s1.cached_binary_path == Some(p),
        q2 == Query::IsFile(p),
        q3 == Query::Resolved(p),
        ph3 == Phase::Finished,
        s3 == s1,
{
}

/// When the planned binary already is a regular file, it is the result at once:
/// no download, no change of permissions and no cleanup is asked for.
pub proof fn lemma_present_binary_not_downloaded(
    s0: RumdlExtension,
    plan: InstallPlan,
    s1: RumdlExtension,
    ph1: Phase,
    q: Query,
)
    requires
        step(s0, Phase::CheckingInstall(plan), Answer::IsFile(true), s1, ph1, q),
    ensures
        q == Query::Resolved(plan.binary_path),
        ph1 == Phase::Finished,
        s1.cached_binary_path == Some(plan.binary_path),
        !s1.use_system_binary,
{
}

/// Cleanup asks to remove exactly the listed install directories whose names differ
/// from the new one, and the resolution then succeeds with the new binary whichever
/// of those removals failed.
pub proof fn lemma_cleanup_best_effort(
    s0: RumdlExtension,
    plan: InstallPlan,
    entries: Vec<String>,
    s1: RumdlExtension,
    ph1: Phase,
    q1: Query,
    failed: Vec<String>,
    s2: RumdlExtension,
    ph2: Phase,
    q2: Query,
)
    requires
        step(s0, Phase::ListingWorkingDir(plan), Answer::Listed(Ok(entries)), s1, ph1, q1),
        step(s1, ph1, Answer::Removed(failed), s2, ph2, q2),
    ensures
        q1 is RemoveDirs,
        forall|x: Seq<char>|
            names_of(q1->RemoveDirs_0@).contains(x) <==> (names_of(entries@).contains(x)
                && is_stale(x, plan.version_dir@)),
        q2 == Query::Resolved(plan.binary_path),
        ph2 == Phase::Finished,
        s2.cached_binary_path == Some(plan.binary_path),
        !s2.use_system_binary,
{
    assert forall|x: Seq<char>|
        names_of(q1->RemoveDirs_0@).contains(x) <==> (names_of(entries@).contains(x)
            && is_stale(x, plan.version_dir@)) by {
        lemma_stale_of_members(names_of(entries@), plan.version_dir@, x);
    }
}

} // verus!
