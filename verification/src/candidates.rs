//! Enumeration of candidate data directories.
//!
//! The environment itself (working directory, executable location, marker
//! probes on their ancestors) is read by the caller and handed in as plain
//! values; the precedence, the build-subtree exclusion and the
//! deduplication are decided here.

use vstd::prelude::*;

use crate::path::FsPath;

verus! {

/// One ancestor directory, with the result of probing it for the project
/// markers: a known top-level file and a known subdirectory.
pub struct AncestorProbe {
    pub path: FsPath,
    pub has_marker_file: bool,
    pub has_marker_dir: bool,
}

impl AncestorProbe {
    /// An ancestor is the project root when both markers are present.
    pub open spec fn is_root_spec(&self) -> bool {
        self.has_marker_file && self.has_marker_dir
    }
}

/// Everything the candidate enumeration reads from the environment.
/// A source that could not be read contributes `None` (non-fatal).
pub struct EnvironmentProbe {
    pub cwd: Option<FsPath>,
    pub exe_dir: Option<FsPath>,
    pub cwd_ancestors: Vec<AncestorProbe>,
    pub exe_ancestors: Vec<AncestorProbe>,
}

/// The first probed ancestor that satisfies the root markers.
pub open spec fn first_root(probes: Seq<AncestorProbe>) -> Option<Seq<Seq<char>>>
    decreases probes.len(),
{
    if probes.len() == 0 {
        None
    } else if probes[0].is_root_spec() {
        Some(probes[0].path@)
    } else {
        first_root(probes.drop_first())
    }
}

/// The detected project root: the first marker-satisfying ancestor of the
/// working directory, else of the executable directory.
pub open spec fn project_root_spec(
    cwd_ancestors: Seq<AncestorProbe>,
    exe_ancestors: Seq<AncestorProbe>,
) -> Option<Seq<Seq<char>>> {
    if first_root(cwd_ancestors) is Some {
        first_root(cwd_ancestors)
    } else {
        first_root(exe_ancestors)
    }
}

pub open spec fn opt_path_view(p: Option<&FsPath>) -> Option<Seq<Seq<char>>> {
    match p {
        Some(path) => Some(path@),
        None => None,
    }
}

pub open spec fn opt_stored_view(p: Option<FsPath>) -> Option<Seq<Seq<char>>> {
    match p {
        Some(path) => Some(path@),
        None => None,
    }
}

/// A candidate is excluded when it lies inside the project's own build
/// subtree, so that a source-controlled path is never used as the live data
/// directory.
pub open spec fn excluded_candidate(
    candidate: Seq<Seq<char>>,
    project_root: Option<Seq<Seq<char>>>,
) -> bool {
    match project_root {
        Some(root) => root.push("src-tauri"@).is_prefix_of(candidate),
        None => false,
    }
}

/// Whether an equal path was already admitted.
pub open spec fn already_seen(candidate: Seq<Seq<char>>, seen: Seq<Seq<Seq<char>>>) -> bool {
    exists|i: int| 0 <= i < seen.len() && seen[i] == candidate
}

/// The admitted list after offering one candidate: unchanged when the
/// candidate is excluded or a duplicate, extended by it otherwise.
pub open spec fn admit_candidate(
    seen: Seq<Seq<Seq<char>>>,
    candidate: Seq<Seq<char>>,
    project_root: Option<Seq<Seq<char>>>,
) -> Seq<Seq<Seq<char>>> {
    if excluded_candidate(candidate, project_root) || already_seen(candidate, seen) {
        seen
    } else {
        seen.push(candidate)
    }
}

/// The full ordered candidate list: project-root-derived, then
/// executable-derived, then working-directory-derived, each joined with the
/// data subdirectory, filtered and deduplicated.
pub open spec fn candidates_spec(
    project_root: Option<Seq<Seq<char>>>,
    exe_dir: Option<Seq<Seq<char>>>,
    cwd: Option<Seq<Seq<char>>>,
) -> Seq<Seq<Seq<char>>> {
    let s0 = Seq::<Seq<Seq<char>>>::empty();
    let s1 = match project_root {
        Some(root) => admit_candidate(s0, root.push("data"@), project_root),
        None => s0,
    };
    let s2 = match exe_dir {
        Some(exe) => admit_candidate(s1, exe.push("data"@), project_root),
        None => s1,
    };
    match cwd {
        Some(dir) => admit_candidate(s2, dir.push("data"@), project_root),
        None => s2,
    }
}

/// Whether this ancestor satisfies both project-root markers.
pub fn is_project_root(probe: &AncestorProbe) -> (r: bool)
    ensures
        r == probe.is_root_spec(),
{
    probe.has_marker_file && probe.has_marker_dir
}

proof fn lemma_first_root_skip(probes: Seq<AncestorProbe>, i: int)
    requires
        0 <= i <= probes.len(),
        forall|j: int| 0 <= j < i ==> !(#[trigger] probes[j]).is_root_spec(),
    ensures
        first_root(probes) == first_root(probes.skip(i)),
    decreases i,
{
    if i > 0 {
        assert(probes.drop_first() =~= probes.skip(1));
        lemma_first_root_skip(probes.skip(1), i - 1);
        assert(probes.skip(1).skip(i - 1) =~= probes.skip(i));
    } else {
        assert(probes.skip(0) =~= probes);
    }
}

fn scan_for_root(probes: &Vec<AncestorProbe>) -> (r: Option<FsPath>)
    ensures
        r is Some <==> first_root(probes@) is Some,
        r matches Some(p) ==> Some(p@) == first_root(probes@),
{
    let mut i: usize = 0;
    while i < probes.len()
        invariant
            i <= probes.len(),
            forall|j: int| 0 <= j < i ==> !(#[trigger] probes@[j]).is_root_spec(),
        decreases probes.len() - i,
    {
        if is_project_root(&probes[i]) {
            proof {
                lemma_first_root_skip(probes@, i as int);
                assert(probes@.skip(i as int)[0] == probes@[i as int]);
            }
            return Some(probes[i].path.duplicate());
        }
        i = i + 1;
    }
    proof {
        lemma_first_root_skip(probes@, probes@.len() as int);
        assert(probes@.skip(probes@.len() as int) =~= Seq::<AncestorProbe>::empty());
    }
    None
}

/// The detected project root, preferring the working-directory walk over the
/// executable-directory walk; `None` when no ancestor satisfies the markers.
pub fn find_project_root(
    cwd_ancestors: &Vec<AncestorProbe>,
    exe_ancestors: &Vec<AncestorProbe>,
) -> (r: Option<FsPath>)
    ensures
        r is Some <==> project_root_spec(cwd_ancestors@, exe_ancestors@) is Some,
        r matches Some(p) ==> Some(p@) == project_root_spec(cwd_ancestors@, exe_ancestors@),
{
    match scan_for_root(cwd_ancestors) {
        Some(root) => Some(root),
        None => scan_for_root(exe_ancestors),
    }
}

/// Offers one candidate: rejects it when it lies in the build subtree or
/// repeats an admitted path, and otherwise admits it and returns it.
pub fn register_candidate(
    candidate: FsPath,
    seen: &mut Vec<FsPath>,
    project_root: Option<&FsPath>,
) -> (r: Option<FsPath>)
    ensures
        final(seen).deep_view() == admit_candidate(
            old(seen).deep_view(),
            candidate@,
            opt_path_view(project_root),
        ),
        r matches Some(c) ==> c@ == candidate@,
        r is None <==> (excluded_candidate(candidate@, opt_path_view(project_root))
            || already_seen(candidate@, old(seen).deep_view())),
{
    match project_root {
        Some(root) => {
            let build_subtree = root.join("src-tauri");
            if candidate.starts_with(&build_subtree) {
                return None;
            }
        },
        None => {},
    }
    let mut i: usize = 0;
    while i < seen.len()
        invariant
            i <= seen.len(),
            forall|j: int| 0 <= j < i ==> seen.deep_view()[j] != candidate@,
        decreases seen.len() - i,
    {
        if seen[i].path_eq(&candidate) {
            proof {
                assert(seen.deep_view()[i as int] == candidate@);
            }
            return None;
        }
        proof {
            assert(seen.deep_view()[i as int] == seen@[i as int]@);
        }
        i = i + 1;
    }
    let ghost pre = seen.deep_view();
    let admitted = candidate.duplicate();
    seen.push(admitted);
    proof {
        assert(!already_seen(candidate@, pre));
        assert forall|j: int| 0 <= j < pre.len() + 1 implies seen.deep_view()[j] == pre.push(
            candidate@,
        )[j] by {
            assert(seen.deep_view()[j] == seen@[j]@);
            if j < pre.len() {
                assert(seen@[j] == old(seen)@[j]);
                assert(pre[j] == old(seen)@[j]@);
            }
        }
        assert(seen.deep_view() =~= pre.push(candidate@));
    }
    Some(candidate)
}

/// The ordered, deduplicated candidate list for the given environment.
pub fn collect_candidate_data_dirs(env: &EnvironmentProbe) -> (r: Vec<FsPath>)
    ensures
        r.deep_view() == candidates_spec(
            project_root_spec(env.cwd_ancestors@, env.exe_ancestors@),
            opt_stored_view(env.exe_dir),
            opt_stored_view(env.cwd),
        ),
{
    let mut candidates: Vec<FsPath> = Vec::new();
    proof {
        assert(candidates.deep_view() =~= Seq::<Seq<Seq<char>>>::empty());
    }
    let project_root = find_project_root(&env.cwd_ancestors, &env.exe_ancestors);
    match &project_root {
        Some(root) => {
            let c = root.join("data");
            let _ = register_candidate(c, &mut candidates, project_root.as_ref());
        },
        None => {},
    }
    match &env.exe_dir {
        Some(exe) => {
            let c = exe.join("data");
            let _ = register_candidate(c, &mut candidates, project_root.as_ref());
        },
        None => {},
    }
    match &env.cwd {
        Some(dir) => {
            let c = dir.join("data");
            let _ = register_candidate(c, &mut candidates, project_root.as_ref());
        },
        None => {},
    }
    candidates
}

/// No path appears twice in an admitted list.
pub open spec fn distinct_paths(s: Seq<Seq<Seq<char>>>) -> bool {
    forall|i: int, j: int| 0 <= i < j < s.len() ==> s[i] != s[j]
}

proof fn lemma_admit_preserves_distinct(
    seen: Seq<Seq<Seq<char>>>,
    candidate: Seq<Seq<char>>,
    project_root: Option<Seq<Seq<char>>>,
)
    requires
        distinct_paths(seen),
    ensures
        distinct_paths(admit_candidate(seen, candidate, project_root)),
{
    let out = admit_candidate(seen, candidate, project_root);
    if out != seen {
        assert(!already_seen(candidate, seen));
        assert forall|i: int, j: int| 0 <= i < j < out.len() implies out[i] != out[j] by {
            if j < seen.len() {
                assert(seen[i] != seen[j]);
            } else {
                assert(out[j] == candidate);
                assert(out[i] == seen[i]);
            }
        }
    }
}

/// Candidate deduplication: however the environment sources overlap (for
/// example, the project-root-derived and working-directory-derived candidates
/// resolving to the same absolute path), the emitted candidate list never
/// repeats a path, so each directory is attempted at most once.
pub proof fn lemma_candidates_deduplicated(
    project_root: Option<Seq<Seq<char>>>,
    exe_dir: Option<Seq<Seq<char>>>,
    cwd: Option<Seq<Seq<char>>>,
)
    ensures
        distinct_paths(candidates_spec(project_root, exe_dir, cwd)),
{
    let s0 = Seq::<Seq<Seq<char>>>::empty();
    assert(distinct_paths(s0));
    let s1 = match project_root {
        Some(root) => admit_candidate(s0, root.push("data"@), project_root),
        None => s0,
    };
    match project_root {
        Some(root) => lemma_admit_preserves_distinct(s0, root.push("data"@), project_root),
        None => {},
    }
    let s2 = match exe_dir {
        Some(exe) => admit_candidate(s1, exe.push("data"@), project_root),
        None => s1,
    };
    match exe_dir {
        Some(exe) => lemma_admit_preserves_distinct(s1, exe.push("data"@), project_root),
        None => {},
    }
    match cwd {
        Some(dir) => lemma_admit_preserves_distinct(s2, dir.push("data"@), project_root),
        None => {},
    }
}

} // verus!
