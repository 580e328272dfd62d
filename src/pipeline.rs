//! The remote build pipeline: transfer, remote build, optional copy-back of
//! the artifacts and optional copy-back of the lockfile, in this order, each
//! attempted at most once.
//!
//! The decisions are a state machine: the caller runs the invocation of each
//! requested stage, reports how the process ended, and receives the next step.
use vstd::prelude::*;

verus! {

/// Exit status when the sources could not be transferred.
pub const EXIT_TRANSFER_FAILED: i32 = -4;

/// Exit status when the remote command could not be started.
pub const EXIT_REMOTE_NOT_STARTED: i32 = -5;

/// Exit status when the artifacts could not be copied back.
pub const EXIT_COPY_BACK_FAILED: i32 = -6;

/// Exit status when the lockfile could not be copied back.
pub const EXIT_COPY_LOCK_FAILED: i32 = -7;

/// A stage of the pipeline.
#[derive(Clone, Copy, Debug, PartialEq, Eq, Structural)]
pub enum Stage {
    Transfer,
    RemoteExecute,
    CopyArtifacts,
    CopyLock,
}

/// How the process of a stage ended.
#[derive(Clone, Copy, Debug, PartialEq, Eq, Structural)]
pub enum Outcome {
    /// The process could not be started.
    NotStarted,
    /// The process exited, with its exit code if it had one.
    Exited(Option<i32>),
}

/// What the caller does next.
#[derive(Clone, Copy, Debug, PartialEq, Eq, Structural)]
pub enum Step {
    /// Run the invocation of this stage and report its outcome.
    Run(Stage),
    /// End the process with this status.
    Exit(i32),
}

/// Where the pipeline stands; the remote build's status is kept once known.
#[derive(Clone, Copy, Debug, PartialEq, Eq, Structural)]
pub enum PipelineState {
    Transferring,
    Building,
    CopyingArtifacts { build_status: i32 },
    CopyingLock { build_status: i32 },
    Done { status: i32 },
}

/// Which optional stages run.
#[derive(Clone, Copy, Debug, PartialEq, Eq, Structural)]
pub struct StagePlan {
    pub copy_artifacts: bool,
    pub copy_lock: bool,
}

/// Whether a transport process ended successfully.
pub open spec fn succeeded(o: Outcome) -> bool {
    o == Outcome::Exited(Some(0i32))
}

/// The status that the remote build hands on: its exit code, or 1 where it
/// has none.
pub open spec fn build_status_of(code: Option<i32>) -> i32 {
    match code {
        Some(c) => c,
        None => 1i32,
    }
}

/// What follows once the artifacts are dealt with.
pub open spec fn after_artifacts(plan: StagePlan, status: i32) -> (PipelineState, Step) {
    if plan.copy_lock {
        (PipelineState::CopyingLock { build_status: status }, Step::Run(Stage::CopyLock))
    } else {
        (PipelineState::Done { status }, Step::Exit(status))
    }
}

/// What follows the remote build, whatever its status.
pub open spec fn after_build(plan: StagePlan, status: i32) -> (PipelineState, Step) {
    if plan.copy_artifacts {
        (PipelineState::CopyingArtifacts { build_status: status }, Step::Run(Stage::CopyArtifacts))
    } else {
        after_artifacts(plan, status)
    }
}

/// Ends the run with `status`.
pub open spec fn finish(status: i32) -> (PipelineState, Step) {
    (PipelineState::Done { status }, Step::Exit(status))
}

/// The transition taken on the outcome of the running stage. A transport
/// failure ends the run with the stage's own status; a failed remote build
/// does not stop the copy-back stages, and its status ends the run.
pub open spec fn next_step(plan: StagePlan, state: PipelineState, o: Outcome) -> (
    PipelineState,
    Step,
) {
    match state {
        PipelineState::Transferring => {
            if succeeded(o) {
                (PipelineState::Building, Step::Run(Stage::RemoteExecute))
            } else {
                finish(EXIT_TRANSFER_FAILED)
            }
        },
        PipelineState::Building => match o {
            Outcome::NotStarted => finish(EXIT_REMOTE_NOT_STARTED),
            Outcome::Exited(code) => after_build(plan, build_status_of(code)),
        },
        PipelineState::CopyingArtifacts { build_status } => {
            if succeeded(o) {
                after_artifacts(plan, build_status)
            } else {
                finish(EXIT_COPY_BACK_FAILED)
            }
        },
        PipelineState::CopyingLock { build_status } => {
            if succeeded(o) {
                finish(build_status)
            } else {
                finish(EXIT_COPY_LOCK_FAILED)
            }
        },
        PipelineState::Done { status } => finish(status),
    }
}

/// The first step of every run: transfer the sources.
pub fn start() -> (r: (PipelineState, Step))
    ensures
        r == (PipelineState::Transferring, Step::Run(Stage::Transfer)),
{
    (PipelineState::Transferring, Step::Run(Stage::Transfer))
}

fn is_success(o: Outcome) -> (r: bool)
    ensures
        r == succeeded(o),
{
    match o {
        Outcome::Exited(Some(c)) => c == 0,
        _ => false,
    }
}

/// Takes the transition on the outcome of the running stage.
pub fn advance(plan: StagePlan, state: PipelineState, o: Outcome) -> (r: (PipelineState, Step))
    ensures
        r == next_step(plan, state, o),
{
    match state {
        PipelineState::Transferring => {
            if is_success(o) {
                (PipelineState::Building, Step::Run(Stage::RemoteExecute))
            } else {
                (
                    PipelineState::Done { status: EXIT_TRANSFER_FAILED },
                    Step::Exit(EXIT_TRANSFER_FAILED),
                )
            }
        },
        PipelineState::Building => match o {
            Outcome::NotStarted => (
                PipelineState::Done { status: EXIT_REMOTE_NOT_STARTED },
                Step::Exit(EXIT_REMOTE_NOT_STARTED),
            ),
            Outcome::Exited(code) => {
                let status = match code {
                    Some(c) => c,
                    None => 1,
                };
                if plan.copy_artifacts {
                    (
                        PipelineState::CopyingArtifacts { build_status: status },
                        Step::Run(Stage::CopyArtifacts),
                    )
                } else if plan.copy_lock {
                    (
                        PipelineState::CopyingLock { build_status: status },
                        Step::Run(Stage::CopyLock),
                    )
                } else {
                    (PipelineState::Done { status }, Step::Exit(status))
                }
            },
        },
        PipelineState::CopyingArtifacts { build_status } => {
            if !is_success(o) {
                (
                    PipelineState::Done { status: EXIT_COPY_BACK_FAILED },
                    Step::Exit(EXIT_COPY_BACK_FAILED),
                )
            } else if plan.copy_lock {
                (PipelineState::CopyingLock { build_status }, Step::Run(Stage::CopyLock))
            } else {
                (PipelineState::Done { status: build_status }, Step::Exit(build_status))
            }
        },
        PipelineState::CopyingLock { build_status } => {
            if is_success(o) {
                (PipelineState::Done { status: build_status }, Step::Exit(build_status))
            } else {
                (
                    PipelineState::Done { status: EXIT_COPY_LOCK_FAILED },
                    Step::Exit(EXIT_COPY_LOCK_FAILED),
                )
            }
        },
        PipelineState::Done { status } => (PipelineState::Done { status }, Step::Exit(status)),
    }
}

/// Without copy-back, the artifact stage is never run; without the lockfile,
/// the lockfile stage is never run, from any state and on any outcome.
pub proof fn lemma_skipped_stages_never_run(plan: StagePlan, state: PipelineState, o: Outcome)
    ensures
        !plan.copy_artifacts ==> next_step(plan, state, o).1 != Step::Run(Stage::CopyArtifacts),
        !plan.copy_lock ==> next_step(plan, state, o).1 != Step::Run(Stage::CopyLock),
{
}

/// A failed remote build still runs both requested copy-back stages, and when
/// they succeed the run ends with the build's own status.
pub proof fn lemma_failed_build_still_copies_back(plan: StagePlan, code: Option<i32>)
    requires
        plan.copy_artifacts,
        plan.copy_lock,
        code != Some(0i32),
    ensures
        ({
            let status = build_status_of(code);
            let s1 = next_step(plan, PipelineState::Building, Outcome::Exited(code));
            let s2 = next_step(plan, s1.0, Outcome::Exited(Some(0i32)));
            let s3 = next_step(plan, s2.0, Outcome::Exited(Some(0i32)));
            &&& status != 0
            &&& s1.1 == Step::Run(Stage::CopyArtifacts)
            &&& s2.1 == Step::Run(Stage::CopyLock)
            &&& s3.1 == Step::Exit(status)
        }),
{
}

} // verus!
