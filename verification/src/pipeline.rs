//! The bootstrap pipeline as a strictly sequential state machine. Each phase
//! is one fallible operation performed outside; the machine decides, from the
//! phase and the operation's outcome, what happens next. Any failure heads for
//! the terminal `Aborted` state, but a staged artifact is always released
//! first: over every run, the staged file is cleaned up exactly once, whether
//! the run succeeds or fails.

use vstd::prelude::*;

verus! {

/// The operation the pipeline is currently waiting on, or a terminal state.
#[derive(PartialEq, Eq, Structural, Clone, Copy, Debug)]
pub enum PipelinePhase {
    /// Fetch the configuration document from the endpoint.
    FetchConfig,
    /// Decode the response body as the untagged envelope.
    DecodeEnvelope,
    /// Extract and validate the nested download URL.
    ExtractUrl,
    /// Download the installer artifact from that URL.
    DownloadArtifact,
    /// Stage the downloaded bytes in a temporary file.
    StageArtifact,
    /// Report the staged path and wait for the user's acknowledgment.
    AwaitUserAck,
    /// Remove the staged file.
    Cleanup,
    /// Terminal: the run completed and the staged file was released.
    Done,
    /// Terminal: the run failed; any staged file was released first.
    Aborted,
}

/// One pipeline run's control state: the current phase, whether an artifact
/// has been staged, whether it has been cleaned up, and whether a fatal
/// failure has been recorded.
#[derive(PartialEq, Eq, Structural, Clone, Copy, Debug)]
pub struct PipelineState {
    pub phase: PipelinePhase,
    pub staged: bool,
    pub cleaned: bool,
    pub failed: bool,
}

/// The outcome of the operation a phase asked for.
#[derive(PartialEq, Eq, Structural, Clone, Copy, Debug)]
pub enum StepOutcome {
    Succeeded,
    Failed,
}

/// The state a fresh run starts in.
pub open spec fn spec_init() -> PipelineState {
    PipelineState { phase: PipelinePhase::FetchConfig, staged: false, cleaned: false, failed: false }
}

/// A state from which the run makes no further step.
pub open spec fn is_terminal(s: PipelineState) -> bool {
    s.phase is Done || s.phase is Aborted
}

/// The invariant every reachable state satisfies: cleanup happens only to a
/// staged artifact and at most once, a failure before staging never reaches
/// the cleanup phase, and no run terminates leaving a staged artifact behind.
pub open spec fn wf(s: PipelineState) -> bool {
    &&& s.cleaned ==> s.staged
    &&& s.phase is Cleanup ==> s.staged && !s.cleaned
    &&& is_terminal(s) && s.staged ==> s.cleaned
    &&& (s.phase is FetchConfig || s.phase is DecodeEnvelope || s.phase is ExtractUrl
        || s.phase is DownloadArtifact || s.phase is StageArtifact) ==> !s.staged && !s.cleaned
    &&& s.phase is AwaitUserAck ==> s.staged && !s.cleaned
    &&& s.phase is Done ==> !s.failed && s.staged && s.cleaned
}

/// Where a failing step sends the run: straight to `Aborted`, except that a
/// staged, not yet released artifact is released first.
pub open spec fn spec_abort(s: PipelineState) -> PipelineState {
    if s.staged && !s.cleaned {
        PipelineState { phase: PipelinePhase::Cleanup, failed: true, ..s }
    } else {
        PipelineState { phase: PipelinePhase::Aborted, failed: true, ..s }
    }
}

/// The transition function of the pipeline, phase by phase. The user
/// acknowledgment is a pass-through pause (a line or end of input both count
/// as success and continue to cleanup), but a genuine read failure aborts like
/// any other step, releasing the staged artifact first. A cleanup failure is
/// non-fatal: either outcome marks the artifact released and terminates with
/// the recorded result.
pub open spec fn spec_advance(s: PipelineState, o: StepOutcome) -> PipelineState {
    match s.phase {
        PipelinePhase::FetchConfig => match o {
            StepOutcome::Succeeded => PipelineState { phase: PipelinePhase::DecodeEnvelope, ..s },
            StepOutcome::Failed => spec_abort(s),
        },
        PipelinePhase::DecodeEnvelope => match o {
            StepOutcome::Succeeded => PipelineState { phase: PipelinePhase::ExtractUrl, ..s },
            StepOutcome::Failed => spec_abort(s),
        },
        PipelinePhase::ExtractUrl => match o {
            StepOutcome::Succeeded => PipelineState { phase: PipelinePhase::DownloadArtifact, ..s },
            StepOutcome::Failed => spec_abort(s),
        },
        PipelinePhase::DownloadArtifact => match o {
            StepOutcome::Succeeded => PipelineState { phase: PipelinePhase::StageArtifact, ..s },
            StepOutcome::Failed => spec_abort(s),
        },
        PipelinePhase::StageArtifact => match o {
            StepOutcome::Succeeded => PipelineState {
                phase: PipelinePhase::AwaitUserAck,
                staged: true,
                ..s
            },
            StepOutcome::Failed => spec_abort(s),
        },
        PipelinePhase::AwaitUserAck => match o {
            StepOutcome::Succeeded => PipelineState { phase: PipelinePhase::Cleanup, ..s },
            StepOutcome::Failed => spec_abort(s),
        },
        PipelinePhase::Cleanup => PipelineState {
            phase: if s.failed {
                PipelinePhase::Aborted
            } else {
                PipelinePhase::Done
            },
            cleaned: true,
            ..s
        },
        PipelinePhase::Done => s,
        PipelinePhase::Aborted => s,
    }
}

/// The state a fresh run starts in.
pub fn init() -> (r: PipelineState)
    ensures
        r == spec_init(),
        wf(r),
{
    PipelineState { phase: PipelinePhase::FetchConfig, staged: false, cleaned: false, failed: false }
}

/// Make one transition from `s` on outcome `o`, exactly as `spec_advance`
/// says.
pub fn advance(s: PipelineState, o: StepOutcome) -> (r: PipelineState)
    ensures
        r == spec_advance(s, o),
        wf(s) ==> wf(r),
{
    match s.phase {
        PipelinePhase::FetchConfig => match o {
            StepOutcome::Succeeded => PipelineState { phase: PipelinePhase::DecodeEnvelope, ..s },
            StepOutcome::Failed => abort(s),
        },
        PipelinePhase::DecodeEnvelope => match o {
            StepOutcome::Succeeded => PipelineState { phase: PipelinePhase::ExtractUrl, ..s },
            StepOutcome::Failed => abort(s),
        },
        PipelinePhase::ExtractUrl => match o {
            StepOutcome::Succeeded => PipelineState { phase: PipelinePhase::DownloadArtifact, ..s },
            StepOutcome::Failed => abort(s),
        },
        PipelinePhase::DownloadArtifact => match o {
            StepOutcome::Succeeded => PipelineState { phase: PipelinePhase::StageArtifact, ..s },
            StepOutcome::Failed => abort(s),
        },
        PipelinePhase::StageArtifact => match o {
            StepOutcome::Succeeded => PipelineState {
                phase: PipelinePhase::AwaitUserAck,
                staged: true,
                ..s
            },
            StepOutcome::Failed => abort(s),
        },
        PipelinePhase::AwaitUserAck => match o {
            StepOutcome::Succeeded => PipelineState { phase: PipelinePhase::Cleanup, ..s },
            StepOutcome::Failed => abort(s),
        },
        PipelinePhase::Cleanup => PipelineState {
            phase: if s.failed {
                PipelinePhase::Aborted
            } else {
                PipelinePhase::Done
            },
            cleaned: true,
            ..s
        },
        PipelinePhase::Done => s,
        PipelinePhase::Aborted => s,
    }
}

/// Where a failing step sends the run, exactly as `spec_abort` says.
fn abort(s: PipelineState) -> (r: PipelineState)
    ensures
        r == spec_abort(s),
{
    if s.staged && !s.cleaned {
        PipelineState { phase: PipelinePhase::Cleanup, failed: true, ..s }
    } else {
        PipelineState { phase: PipelinePhase::Aborted, failed: true, ..s }
    }
}

/// The state after running `outcomes` in order from `s`.
pub open spec fn spec_run(s: PipelineState, outcomes: Seq<StepOutcome>) -> PipelineState
    decreases outcomes.len(),
{
    if outcomes.len() == 0 {
        s
    } else {
        spec_run(spec_advance(s, outcomes[0]), outcomes.skip(1))
    }
}

/// Every transition preserves the invariant.
pub proof fn lemma_advance_preserves_wf(s: PipelineState, o: StepOutcome)
    requires
        wf(s),
    ensures
        wf(spec_advance(s, o)),
{
}

/// Once the staged artifact has been released, no later step releases it
/// again: the cleanup phase is never re-entered, so deletion fires at most
/// once in any run.
pub proof fn lemma_cleanup_at_most_once(s: PipelineState, o: StepOutcome)
    requires
        wf(s),
        s.cleaned,
    ensures
        spec_advance(s, o).cleaned,
        !(spec_advance(s, o).phase is Cleanup),
{
}

/// No run leaks the staged file: a terminal state reached from any reachable
/// state has the artifact released whenever one was staged, on the success
/// path and on every failure path alike.
pub proof fn lemma_terminal_releases_artifact(s: PipelineState)
    requires
        wf(s),
        is_terminal(s),
    ensures
        s.staged ==> s.cleaned,
{
}

/// The whole-run form: starting from any state satisfying the invariant (in
/// particular from the initial state), after any sequence of outcomes the
/// invariant still holds; if the run has terminated, a staged artifact has
/// been released.
pub proof fn lemma_run_no_leak(s: PipelineState, outcomes: Seq<StepOutcome>)
    requires
        wf(s),
    ensures
        wf(spec_run(s, outcomes)),
        is_terminal(spec_run(s, outcomes)) && spec_run(s, outcomes).staged ==> spec_run(
            s,
            outcomes,
        ).cleaned,
    decreases outcomes.len(),
{
    if outcomes.len() > 0 {
        lemma_advance_preserves_wf(s, outcomes[0]);
        lemma_run_no_leak(spec_advance(s, outcomes[0]), outcomes.skip(1));
    }
}

} // verus!
