//! Resolution of the active data directory.
//!
//! The locator is a step machine: it hands the caller one filesystem action
//! at a time (`Prepare` a directory, fetch the system fallback base) and the
//! caller reports each outcome back. All decisions between the steps — the
//! candidate order, recording the first failure, escalating to the system
//! fallback, caching the chosen directory for the rest of the process — are
//! made and verified here. The spec transition functions below are the
//! machine's full meaning; each executable method returns exactly what its
//! spec transition says.

use vstd::prelude::*;

use crate::candidates::opt_stored_view;
use crate::error::StorageError;
use crate::path::{rendered_path, FsPath};
use crate::state::StorageState;

verus! {

/// The outcome of resolution: the directory every later operation targets.
pub struct ResolvedLocation {
    pub active_directory: FsPath,
    pub is_fallback: bool,
    pub original_candidate: Option<FsPath>,
    pub advisory_message: Option<String>,
}

/// What the locator asks the caller to do next.
pub enum LocateAction {
    /// Run the directory initializer on this directory.
    Prepare { directory: FsPath },
    /// Determine the system-provided per-application data directory.
    NeedFallbackBase,
    /// Resolution is complete and cached.
    Done { resolved: ResolvedLocation },
    /// Resolution failed; nothing was cached.
    Fail { error: StorageError },
}

/// The reported outcome of preparing one directory.
pub enum PrepareOutcome {
    Ready,
    Failed { reason: String },
}

/// Where an in-flight resolution stands.
pub enum LocatePhase {
    /// Awaiting the initializer's outcome for `candidates[next_index]`.
    Candidates,
    /// All candidates failed; awaiting the system fallback base.
    AwaitFallbackBase,
    /// Awaiting the initializer's outcome for the fallback directory.
    FallbackPrepare { dir: FsPath },
}

/// The first preferred candidate that failed, kept for diagnostics.
pub struct FailedCandidate {
    pub path: FsPath,
    pub reason: String,
}

pub struct PendingResolution {
    pub candidates: Vec<FsPath>,
    pub next_index: usize,
    pub first_failure: Option<FailedCandidate>,
    pub phase: LocatePhase,
}

/// The locator: the cached state plus any in-flight resolution.
pub struct StorageLocator {
    pub state: StorageState,
    pub pending: Option<PendingResolution>,
}

// ---------------------------------------------------------------------------
// The machine's mathematical model.
// ---------------------------------------------------------------------------

pub struct ResolvedModel {
    pub active_directory: Seq<Seq<char>>,
    pub is_fallback: bool,
    pub original_candidate: Option<Seq<Seq<char>>>,
    pub has_advisory: bool,
}

pub enum ErrorModel {
    LocationUnavailable,
    Io,
}

pub enum ActionModel {
    Prepare { directory: Seq<Seq<char>> },
    NeedFallbackBase,
    Done { resolved: ResolvedModel },
    Fail { error: ErrorModel },
}

pub enum PhaseModel {
    Candidates,
    AwaitFallbackBase,
    FallbackPrepare { dir: Seq<Seq<char>> },
}

pub struct PendingModel {
    pub candidates: Seq<Seq<Seq<char>>>,
    pub next_index: int,
    pub first_failure: Option<Seq<Seq<char>>>,
    pub phase: PhaseModel,
}

pub struct LocatorModel {
    pub cached_dir: Option<Seq<Seq<char>>>,
    pub cached_fallback: bool,
    pub cached_original: Option<Seq<Seq<char>>>,
    pub pending: Option<PendingModel>,
}

impl ResolvedLocation {
    pub open spec fn model(&self) -> ResolvedModel {
        ResolvedModel {
            active_directory: self.active_directory@,
            is_fallback: self.is_fallback,
            original_candidate: opt_stored_view(self.original_candidate),
            has_advisory: self.advisory_message is Some,
        }
    }
}

pub open spec fn error_model(e: StorageError) -> ErrorModel {
    match e {
        StorageError::LocationUnavailable => ErrorModel::LocationUnavailable,
        StorageError::IoFailure(_) => ErrorModel::Io,
        StorageError::InvalidDocumentShape => ErrorModel::Io,
    }
}

impl LocateAction {
    pub open spec fn model(&self) -> ActionModel {
        match self {
            LocateAction::Prepare { directory } => ActionModel::Prepare { directory: directory@ },
            LocateAction::NeedFallbackBase => ActionModel::NeedFallbackBase,
            LocateAction::Done { resolved } => ActionModel::Done { resolved: resolved.model() },
            LocateAction::Fail { error } => ActionModel::Fail { error: error_model(*error) },
        }
    }
}

impl LocatePhase {
    pub open spec fn model(&self) -> PhaseModel {
        match self {
            LocatePhase::Candidates => PhaseModel::Candidates,
            LocatePhase::AwaitFallbackBase => PhaseModel::AwaitFallbackBase,
            LocatePhase::FallbackPrepare { dir } => PhaseModel::FallbackPrepare { dir: dir@ },
        }
    }
}

impl PendingResolution {
    pub open spec fn model(&self) -> PendingModel {
        PendingModel {
            candidates: self.candidates.deep_view(),
            next_index: self.next_index as int,
            first_failure: match self.first_failure {
                Some(f) => Some(f.path@),
                None => None,
            },
            phase: self.phase.model(),
        }
    }
}

impl StorageLocator {
    pub open spec fn model(&self) -> LocatorModel {
        LocatorModel {
            cached_dir: opt_stored_view(self.state.data_dir),
            cached_fallback: self.state.using_fallback,
            cached_original: opt_stored_view(self.state.fallback_dir),
            pending: match self.pending {
                Some(p) => Some(p.model()),
                None => None,
            },
        }
    }

    pub open spec fn wf(&self) -> bool {
        match self.pending {
            Some(p) => {
                &&& self.state.data_dir is None
                &&& p.next_index <= p.candidates.len()
                &&& (p.phase is Candidates ==> p.next_index < p.candidates.len())
                &&& (!(p.phase is Candidates) ==> p.next_index == p.candidates.len())
            },
            None => true,
        }
    }
}

/// Starting a resolution: answer from the cache when there is one; otherwise
/// open a fresh attempt on the given candidates.
pub open spec fn spec_begin(m: LocatorModel, candidates: Seq<Seq<Seq<char>>>) -> (LocatorModel,
    ActionModel) {
    match m.cached_dir {
        Some(dir) => (
            m,
            ActionModel::Done {
                resolved: ResolvedModel {
                    active_directory: dir,
                    is_fallback: m.cached_fallback,
                    original_candidate: m.cached_original,
                    has_advisory: false,
                },
            },
        ),
        None => {
            if candidates.len() == 0 {
                let p = PendingModel {
                    candidates,
                    next_index: 0,
                    first_failure: None,
                    phase: PhaseModel::AwaitFallbackBase,
                };
                (LocatorModel { pending: Some(p), ..m }, ActionModel::NeedFallbackBase)
            } else {
                let p = PendingModel {
                    candidates,
                    next_index: 0,
                    first_failure: None,
                    phase: PhaseModel::Candidates,
                };
                (
                    LocatorModel { pending: Some(p), ..m },
                    ActionModel::Prepare { directory: candidates[0] },
                )
            }
        },
    }
}

/// Reacting to a prepare outcome: a ready candidate is cached and returned;
/// a failed one is recorded (first failure only) and the next candidate, or
/// the fallback escalation, follows. A ready fallback directory is cached
/// with the diagnostic context; a failed one is fatal.
pub open spec fn spec_outcome(m: LocatorModel, ok: bool) -> (LocatorModel, ActionModel) {
    match m.pending {
        None => (m, ActionModel::Fail { error: ErrorModel::Io }),
        Some(p) => match p.phase {
            PhaseModel::Candidates => {
                if !(0 <= p.next_index < p.candidates.len()) {
                    (m, ActionModel::Fail { error: ErrorModel::Io })
                } else if ok {
                    let active = p.candidates[p.next_index];
                    (
                        LocatorModel {
                            cached_dir: Some(active),
                            cached_fallback: false,
                            cached_original: None,
                            pending: None,
                        },
                        ActionModel::Done {
                            resolved: ResolvedModel {
                                active_directory: active,
                                is_fallback: false,
                                original_candidate: None,
                                has_advisory: false,
                            },
                        },
                    )
                } else {
                    let ff = if p.next_index == 0 {
                        Some(p.candidates[0])
                    } else {
                        p.first_failure
                    };
                    let next = p.next_index + 1;
                    if next < p.candidates.len() {
                        (
                            LocatorModel {
                                pending: Some(
                                    PendingModel {
                                        candidates: p.candidates,
                                        next_index: next,
                                        first_failure: ff,
                                        phase: PhaseModel::Candidates,
                                    },
                                ),
                                ..m
                            },
                            ActionModel::Prepare { directory: p.candidates[next] },
                        )
                    } else {
                        (
                            LocatorModel {
                                pending: Some(
                                    PendingModel {
                                        candidates: p.candidates,
                                        next_index: next,
                                        first_failure: ff,
                                        phase: PhaseModel::AwaitFallbackBase,
                                    },
                                ),
                                ..m
                            },
                            ActionModel::NeedFallbackBase,
                        )
                    }
                }
            },
            PhaseModel::AwaitFallbackBase => (m, ActionModel::Fail { error: ErrorModel::Io }),
            PhaseModel::FallbackPrepare { dir } => {
                if ok {
                    (
                        LocatorModel {
                            cached_dir: Some(dir),
                            cached_fallback: true,
                            cached_original: p.first_failure,
                            pending: None,
                        },
                        ActionModel::Done {
                            resolved: ResolvedModel {
                                active_directory: dir,
                                is_fallback: true,
                                original_candidate: p.first_failure,
                                has_advisory: p.first_failure is Some,
                            },
                        },
                    )
                } else {
                    (LocatorModel { pending: None, ..m }, ActionModel::Fail { error: ErrorModel::Io })
                }
            },
        },
    }
}

/// Reacting to the system fallback base: absence is the one fatal condition;
/// otherwise the fallback directory is the base joined with the data
/// subdirectory, and it is prepared next.
pub open spec fn spec_fallback_base(m: LocatorModel, base: Option<Seq<Seq<char>>>) -> (LocatorModel,
    ActionModel) {
    match m.pending {
        None => (m, ActionModel::Fail { error: ErrorModel::Io }),
        Some(p) => {
            if !(p.phase is AwaitFallbackBase) {
                (m, ActionModel::Fail { error: ErrorModel::Io })
            } else {
                match base {
                    None => (
                        LocatorModel { pending: None, ..m },
                        ActionModel::Fail { error: ErrorModel::LocationUnavailable },
                    ),
                    Some(b) => {
                        let dir = b.push("data"@);
                        (
                            LocatorModel {
                                pending: Some(
                                    PendingModel {
                                        candidates: p.candidates,
                                        next_index: p.next_index,
                                        first_failure: p.first_failure,
                                        phase: PhaseModel::FallbackPrepare { dir },
                                    },
                                ),
                                ..m
                            },
                            ActionModel::Prepare { directory: dir },
                        )
                    },
                }
            }
        },
    }
}

/// The machine after feeding it a whole sequence of prepare outcomes, with
/// the action the last outcome produced.
pub open spec fn run_outcomes(m: LocatorModel, outcomes: Seq<bool>) -> (LocatorModel, ActionModel)
    decreases outcomes.len(),
{
    if outcomes.len() == 0 {
        (m, ActionModel::NeedFallbackBase)
    } else {
        let next = spec_outcome(m, outcomes[0]);
        if outcomes.len() == 1 {
            next
        } else {
            run_outcomes(next.0, outcomes.drop_first())
        }
    }
}

pub open spec fn done_resolved(a: ActionModel) -> ResolvedModel
    recommends
        a is Done,
{
    match a {
        ActionModel::Done { resolved } => resolved,
        _ => arbitrary(),
    }
}

proof fn lemma_candidate_run(m: LocatorModel, outcomes: Seq<bool>, i: int)
    requires
        m.pending is Some,
        m.pending->Some_0.phase is Candidates,
        0 <= m.pending->Some_0.next_index,
        0 <= i,
        outcomes.len() == i + 1,
        m.pending->Some_0.next_index + i < m.pending->Some_0.candidates.len(),
        forall|j: int| 0 <= j < i ==> !outcomes[j],
        outcomes[i],
    ensures
        ({
            let p = m.pending->Some_0;
            let end = run_outcomes(m, outcomes);
            &&& end.1 == ActionModel::Done {
                resolved: ResolvedModel {
                    active_directory: p.candidates[p.next_index + i],
                    is_fallback: false,
                    original_candidate: None,
                    has_advisory: false,
                },
            }
            &&& end.0.cached_dir == Some(p.candidates[p.next_index + i])
            &&& end.0.cached_fallback == false
        }),
    decreases i,
{
    let p = m.pending->Some_0;
    if i == 0 {
        assert(outcomes[0]);
    } else {
        assert(!outcomes[0]);
        let next = spec_outcome(m, outcomes[0]);
        let rest = outcomes.drop_first();
        assert(rest.len() == i);
        assert(forall|j: int| 0 <= j < i - 1 ==> !rest[j]);
        assert(rest[i - 1] == outcomes[i]);
        lemma_candidate_run(next.0, rest, i - 1);
    }
}

/// For any candidate sequence where at least one candidate can be prepared,
/// resolution returns the first such candidate, in precedence order, with
/// `is_fallback` false, and caches it.
pub proof fn lemma_first_writable_candidate_wins(
    m: LocatorModel,
    candidates: Seq<Seq<Seq<char>>>,
    outcomes: Seq<bool>,
    i: int,
)
    requires
        m.cached_dir is None,
        0 <= i < candidates.len(),
        outcomes.len() == i + 1,
        forall|j: int| 0 <= j < i ==> !outcomes[j],
        outcomes[i],
    ensures
        ({
            let started = spec_begin(m, candidates);
            let end = run_outcomes(started.0, outcomes);
            &&& end.1 == ActionModel::Done {
                resolved: ResolvedModel {
                    active_directory: candidates[i],
                    is_fallback: false,
                    original_candidate: None,
                    has_advisory: false,
                },
            }
            &&& end.0.cached_dir == Some(candidates[i])
        }),
{
    let started = spec_begin(m, candidates);
    lemma_candidate_run(started.0, outcomes, i);
}

proof fn lemma_all_fail_run(m: LocatorModel, outcomes: Seq<bool>)
    requires
        m.pending is Some,
        m.pending->Some_0.phase is Candidates,
        0 <= m.pending->Some_0.next_index < m.pending->Some_0.candidates.len(),
        outcomes.len() == m.pending->Some_0.candidates.len() - m.pending->Some_0.next_index,
        forall|j: int| 0 <= j < outcomes.len() ==> !outcomes[j],
    ensures
        ({
            let p = m.pending->Some_0;
            let end = run_outcomes(m, outcomes);
            &&& end.1 == ActionModel::NeedFallbackBase
            &&& end.0.cached_dir == m.cached_dir
            &&& end.0.cached_fallback == m.cached_fallback
            &&& end.0.cached_original == m.cached_original
            &&& end.0.pending is Some
            &&& end.0.pending->Some_0.candidates == p.candidates
            &&& end.0.pending->Some_0.next_index == p.candidates.len()
            &&& end.0.pending->Some_0.phase is AwaitFallbackBase
            &&& end.0.pending->Some_0.first_failure == (if p.next_index == 0 {
                Some(p.candidates[0])
            } else {
                p.first_failure
            })
        }),
    decreases outcomes.len(),
{
    let next = spec_outcome(m, outcomes[0]);
    if outcomes.len() > 1 {
        let rest = outcomes.drop_first();
        assert(forall|j: int| 0 <= j < rest.len() ==> !rest[j]);
        lemma_all_fail_run(next.0, rest);
    }
}

/// If every preferred candidate fails but the system fallback base exists and
/// the fallback directory can be prepared, resolution returns the fallback
/// directory with `is_fallback` true and `original_candidate` the first
/// candidate that was attempted.
pub proof fn lemma_fallback_after_exhaustion(
    m: LocatorModel,
    candidates: Seq<Seq<Seq<char>>>,
    outcomes: Seq<bool>,
    base: Seq<Seq<char>>,
)
    requires
        m.cached_dir is None,
        candidates.len() > 0,
        outcomes.len() == candidates.len(),
        forall|j: int| 0 <= j < outcomes.len() ==> !outcomes[j],
    ensures
        ({
            let started = spec_begin(m, candidates);
            let exhausted = run_outcomes(started.0, outcomes);
            let based = spec_fallback_base(exhausted.0, Some(base));
            let end = spec_outcome(based.0, true);
            &&& exhausted.1 == ActionModel::NeedFallbackBase
            &&& based.1 == ActionModel::Prepare { directory: base.push("data"@) }
            &&& end.1 == ActionModel::Done {
                resolved: ResolvedModel {
                    active_directory: base.push("data"@),
                    is_fallback: true,
                    original_candidate: Some(candidates[0]),
                    has_advisory: true,
                },
            }
            &&& end.0.cached_dir == Some(base.push("data"@))
        }),
{
    let started = spec_begin(m, candidates);
    lemma_all_fail_run(started.0, outcomes);
}

/// Resolution is idempotent within a process: once a resolution has
/// completed, a later attempt answers from the cache with the identical
/// active directory and fallback flag, whatever candidates it is offered and
/// however the filesystem may have changed in between, and it leaves the
/// locator unchanged.
pub proof fn lemma_resolution_idempotent(m: LocatorModel, ok: bool, candidates: Seq<Seq<Seq<char>>>)
    requires
        spec_outcome(m, ok).1 is Done,
    ensures
        ({
            let completed = spec_outcome(m, ok);
            let again = spec_begin(completed.0, candidates);
            &&& again.0 == completed.0
            &&& again.1 is Done
            &&& done_resolved(again.1).active_directory == done_resolved(
                completed.1,
            ).active_directory
            &&& done_resolved(again.1).is_fallback == done_resolved(completed.1).is_fallback
            &&& done_resolved(again.1).original_candidate == done_resolved(
                completed.1,
            ).original_candidate
        }),
{
}

/// A locator that already holds a cached directory answers every resolution
/// from the cache, identically each time, without changing itself.
pub proof fn lemma_cached_begin_stable(
    m: LocatorModel,
    first: Seq<Seq<Seq<char>>>,
    second: Seq<Seq<Seq<char>>>,
)
    requires
        m.cached_dir is Some,
    ensures
        spec_begin(m, first).0 == m,
        spec_begin(m, first).1 == spec_begin(m, second).1,
        spec_begin(m, first).1 is Done,
        done_resolved(spec_begin(m, first).1).active_directory == m.cached_dir->Some_0,
{
}

/// The advisory text shown when the fallback is in use: which candidate
/// failed, why, and where the fallback lives.
pub open spec fn advisory_spec(
    failed: Seq<Seq<char>>,
    reason: Seq<char>,
    fallback: Seq<Seq<char>>,
) -> Seq<char> {
    "preferred directory "@ + rendered_path(failed) + " was not writable: "@ + reason
        + "; using system data directory "@ + rendered_path(fallback)
}

fn render_advisory(failed: &FsPath, reason: &str, fallback: &FsPath) -> (r: String)
    ensures
        r@ == advisory_spec(failed@, reason@, fallback@),
{
    let mut out = "preferred directory ".to_owned();
    let failed_text = failed.display_string();
    out.push_str(failed_text.as_str());
    out.push_str(" was not writable: ");
    out.push_str(reason);
    out.push_str("; using system data directory ");
    let fallback_text = fallback.display_string();
    out.push_str(fallback_text.as_str());
    out
}

impl StorageLocator {
    /// A locator with nothing resolved yet.
    pub fn new() -> (r: StorageLocator)
        ensures
            r.wf(),
            r.model() == (LocatorModel {
                cached_dir: None,
                cached_fallback: false,
                cached_original: None,
                pending: None,
            }),
    {
        StorageLocator { state: StorageState::new(), pending: None }
    }

    /// Starts (or answers from cache) a resolution over the given candidates.
    pub fn resolve_begin(&mut self, candidates: Vec<FsPath>) -> (r: LocateAction)
        requires
            old(self).wf(),
        ensures
            final(self).wf(),
            final(self).model() == spec_begin(old(self).model(), candidates.deep_view()).0,
            r.model() == spec_begin(old(self).model(), candidates.deep_view()).1,
    {
        if self.state.data_dir.is_some() {
            let active = match &self.state.data_dir {
                Some(d) => d.duplicate(),
                None => unreached(),
            };
            let original = match &self.state.fallback_dir {
                Some(d) => Some(d.duplicate()),
                None => None,
            };
            let resolved = ResolvedLocation {
                active_directory: active,
                is_fallback: self.state.using_fallback,
                original_candidate: original,
                advisory_message: None,
            };
            return LocateAction::Done { resolved };
        }
        if candidates.len() == 0 {
            self.pending = Some(
                PendingResolution {
                    candidates,
                    next_index: 0,
                    first_failure: None,
                    phase: LocatePhase::AwaitFallbackBase,
                },
            );
            proof {
                assert(final(self).model().pending->Some_0.candidates =~~= spec_begin(
                    old(self).model(),
                    candidates.deep_view(),
                ).0.pending->Some_0.candidates);
            }
            LocateAction::NeedFallbackBase
        } else {
            let first = candidates[0].duplicate();
            self.pending = Some(
                PendingResolution {
                    candidates,
                    next_index: 0,
                    first_failure: None,
                    phase: LocatePhase::Candidates,
                },
            );
            LocateAction::Prepare { directory: first }
        }
    }

    /// Feeds back the outcome of the most recently requested `Prepare`.
    pub fn resolve_outcome(&mut self, outcome: PrepareOutcome) -> (r: LocateAction)
        requires
            old(self).wf(),
            old(self).pending matches Some(p) && !(p.phase is AwaitFallbackBase),
        ensures
            final(self).wf(),
            final(self).model() == spec_outcome(old(self).model(), outcome is Ready).0,
            r.model() == spec_outcome(old(self).model(), outcome is Ready).1,
            r matches LocateAction::Done { resolved } ==> (resolved.advisory_message matches Some(
                msg,
            ) ==> {
                &&& old(self).pending->Some_0.first_failure matches Some(f)
                &&& old(self).pending->Some_0.phase matches LocatePhase::FallbackPrepare { dir }
                &&& msg@ == advisory_spec(f.path@, f.reason@, dir@)
            }),
    {
        let p = match self.pending.take() {
            Some(p) => p,
            None => unreached(),
        };
        match p.phase {
            LocatePhase::Candidates => {
                let i = p.next_index;
                match outcome {
                    PrepareOutcome::Ready => {
                        let active = p.candidates[i].duplicate();
                        self.state.set(active.duplicate(), false, None);
                        LocateAction::Done {
                            resolved: ResolvedLocation {
                                active_directory: active,
                                is_fallback: false,
                                original_candidate: None,
                                advisory_message: None,
                            },
                        }
                    },
                    PrepareOutcome::Failed { reason } => {
                        let first_failure = if i == 0 {
                            Some(FailedCandidate { path: p.candidates[0].duplicate(), reason })
                        } else {
                            p.first_failure
                        };
                        let next = i + 1;
                        if next < p.candidates.len() {
                            let dir = p.candidates[next].duplicate();
                            self.pending = Some(
                                PendingResolution {
                                    candidates: p.candidates,
                                    next_index: next,
                                    first_failure,
                                    phase: LocatePhase::Candidates,
                                },
                            );
                            LocateAction::Prepare { directory: dir }
                        } else {
                            self.pending = Some(
                                PendingResolution {
                                    candidates: p.candidates,
                                    next_index: next,
                                    first_failure,
                                    phase: LocatePhase::AwaitFallbackBase,
                                },
                            );
                            LocateAction::NeedFallbackBase
                        }
                    },
                }
            },
            LocatePhase::AwaitFallbackBase => unreached(),
            LocatePhase::FallbackPrepare { dir } => {
                match outcome {
                    PrepareOutcome::Ready => {
                        let original = match &p.first_failure {
                            Some(f) => Some(f.path.duplicate()),
                            None => None,
                        };
                        let advisory = match &p.first_failure {
                            Some(f) => Some(
                                render_advisory(&f.path, f.reason.as_str(), &dir),
                            ),
                            None => None,
                        };
                        let original_for_state = match &p.first_failure {
                            Some(f) => Some(f.path.duplicate()),
                            None => None,
                        };
                        self.state.set(dir.duplicate(), true, original_for_state);
                        LocateAction::Done {
                            resolved: ResolvedLocation {
                                active_directory: dir,
                                is_fallback: true,
                                original_candidate: original,
                                advisory_message: advisory,
                            },
                        }
                    },
                    PrepareOutcome::Failed { reason } => {
                        LocateAction::Fail { error: StorageError::IoFailure(reason) }
                    },
                }
            },
        }
    }

    /// Feeds back the system fallback base (or its absence).
    pub fn resolve_fallback_base(&mut self, base: Option<FsPath>) -> (r: LocateAction)
        requires
            old(self).wf(),
            old(self).pending matches Some(p) && p.phase is AwaitFallbackBase,
        ensures
            final(self).wf(),
            final(self).model() == spec_fallback_base(
                old(self).model(),
                opt_stored_view(base),
            ).0,
            r.model() == spec_fallback_base(old(self).model(), opt_stored_view(base)).1,
    {
        let p = match self.pending.take() {
            Some(p) => p,
            None => unreached(),
        };
        match base {
            None => LocateAction::Fail { error: StorageError::LocationUnavailable },
            Some(b) => {
                let dir = b.join("data");
                let action_dir = dir.duplicate();
                self.pending = Some(
                    PendingResolution {
                        candidates: p.candidates,
                        next_index: p.next_index,
                        first_failure: p.first_failure,
                        phase: LocatePhase::FallbackPrepare { dir },
                    },
                );
                LocateAction::Prepare { directory: action_dir }
            },
        }
    }
}

} // verus!
