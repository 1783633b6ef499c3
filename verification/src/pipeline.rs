//! The staged pipeline of one dependency build, as a state machine.
//!
//! Stages run in strict order — download, extract, prepare the build
//! directory, configure, compile, install — and every stage's failure moves
//! the run to the failed terminal state after cleanup of the downloaded
//! archive and the extracted source tree. The machine here tracks both the
//! stage and a model of which artifacts of the run exist, so the cleanup
//! guarantee is a theorem rather than a convention. The embedding program
//! performs the actions the machine asks for and reports each outcome.

use vstd::prelude::*;

verus! {

/// One stage of a pipeline run. `Installed` and `Failed` are terminal;
/// every other stage names the work that has completed so far.
#[derive(Debug, Clone, Copy, PartialEq, Eq, Structural)]
pub enum Stage {
    Idle,
    Downloaded,
    Extracted,
    BuildDirPrepared,
    Configured,
    Compiled,
    Installed,
    Failed,
}

/// The outside work that moves a run out of its current stage.
#[derive(Debug, Clone, Copy, PartialEq, Eq, Structural)]
pub enum StageAction {
    Download,
    Extract,
    PrepareBuildDir,
    Configure,
    Compile,
    Install,
}

/// Transient state of one pipeline run: the stage reached and which
/// artifacts of the run currently exist in the scratch directory. Created
/// fresh per run; never shared across dependencies.
#[derive(Debug, Clone, Copy, PartialEq, Eq, Structural)]
pub struct PipelineState {
    pub stage: Stage,
    pub archive_present: bool,
    pub source_present: bool,
    pub build_dir_prepared: bool,
}

/// The state a run starts from: nothing done, nothing on disk.
pub open spec fn initial_state() -> PipelineState {
    PipelineState {
        stage: Stage::Idle,
        archive_present: false,
        source_present: false,
        build_dir_prepared: false,
    }
}

/// The transition relation. Success moves to the next stage in order and
/// records the artifact the stage produced; failure at any stage performs
/// the cleanup — the archive and the source tree (with the build directory
/// inside it) are deleted — and ends the run in `Failed`. The terminal
/// states absorb.
pub open spec fn spec_advance(s: PipelineState, succeeded: bool) -> PipelineState {
    if s.stage is Installed || s.stage is Failed {
        s
    } else if !succeeded {
        PipelineState {
            stage: Stage::Failed,
            archive_present: false,
            source_present: false,
            build_dir_prepared: false,
        }
    } else {
        match s.stage {
            Stage::Idle => PipelineState { stage: Stage::Downloaded, archive_present: true, ..s },
            Stage::Downloaded => PipelineState {
                stage: Stage::Extracted,
                source_present: true,
                ..s
            },
            Stage::Extracted => PipelineState {
                stage: Stage::BuildDirPrepared,
                build_dir_prepared: true,
                ..s
            },
            Stage::BuildDirPrepared => PipelineState { stage: Stage::Configured, ..s },
            Stage::Configured => PipelineState { stage: Stage::Compiled, ..s },
            Stage::Compiled => PipelineState { stage: Stage::Installed, ..s },
            _ => s,
        }
    }
}

impl PipelineState {
    /// Starts a fresh run.
    pub fn new() -> (r: PipelineState)
        ensures
            r == initial_state(),
    {
        PipelineState {
            stage: Stage::Idle,
            archive_present: false,
            source_present: false,
            build_dir_prepared: false,
        }
    }

    /// The work to perform next, or `None` once the run is over.
    pub fn next_action(&self) -> (r: Option<StageAction>)
        ensures
            r == (match self.stage {
                Stage::Idle => Some(StageAction::Download),
                Stage::Downloaded => Some(StageAction::Extract),
                Stage::Extracted => Some(StageAction::PrepareBuildDir),
                Stage::BuildDirPrepared => Some(StageAction::Configure),
                Stage::Configured => Some(StageAction::Compile),
                Stage::Compiled => Some(StageAction::Install),
                Stage::Installed => None::<StageAction>,
                Stage::Failed => None::<StageAction>,
            }),
    {
        match self.stage {
            Stage::Idle => Some(StageAction::Download),
            Stage::Downloaded => Some(StageAction::Extract),
            Stage::Extracted => Some(StageAction::PrepareBuildDir),
            Stage::BuildDirPrepared => Some(StageAction::Configure),
            Stage::Configured => Some(StageAction::Compile),
            Stage::Compiled => Some(StageAction::Install),
            Stage::Installed => None,
            Stage::Failed => None,
        }
    }

    /// Records the outcome of the action last asked for.
    pub fn advance(&mut self, succeeded: bool)
        ensures
            *final(self) == spec_advance(*old(self), succeeded),
    {
        if matches!(self.stage, Stage::Installed) || matches!(self.stage, Stage::Failed) {
            return ;
        }
        if !succeeded {
            self.stage = Stage::Failed;
            self.archive_present = false;
            self.source_present = false;
            self.build_dir_prepared = false;
            return ;
        }
        match self.stage {
            Stage::Idle => {
                self.stage = Stage::Downloaded;
                self.archive_present = true;
            },
            Stage::Downloaded => {
                self.stage = Stage::Extracted;
                self.source_present = true;
            },
            Stage::Extracted => {
                self.stage = Stage::BuildDirPrepared;
                self.build_dir_prepared = true;
            },
            Stage::BuildDirPrepared => {
                self.stage = Stage::Configured;
            },
            Stage::Configured => {
                self.stage = Stage::Compiled;
            },
            Stage::Compiled => {
                self.stage = Stage::Installed;
            },
            _ => {},
        }
    }

    /// The run is over, for better or worse.
    pub fn is_terminal(&self) -> (r: bool)
        ensures
            r == (self.stage is Installed || self.stage is Failed),
    {
        matches!(self.stage, Stage::Installed) || matches!(self.stage, Stage::Failed)
    }
}

/// The state reached after a sequence of stage outcomes, starting fresh.
pub open spec fn run_result(outcomes: Seq<bool>) -> PipelineState
    decreases outcomes.len(),
{
    if outcomes.len() == 0 {
        initial_state()
    } else {
        spec_advance(run_result(outcomes.drop_last()), outcomes.last())
    }
}

/// What holds of every reachable state: each completed stage's artifact is
/// on disk, and a failed run has nothing left on disk.
pub open spec fn state_invariant(s: PipelineState) -> bool {
    match s.stage {
        Stage::Idle => !s.archive_present && !s.source_present && !s.build_dir_prepared,
        Stage::Downloaded => s.archive_present && !s.source_present && !s.build_dir_prepared,
        Stage::Extracted => s.archive_present && s.source_present && !s.build_dir_prepared,
        Stage::BuildDirPrepared => s.archive_present && s.source_present && s.build_dir_prepared,
        Stage::Configured => s.archive_present && s.source_present && s.build_dir_prepared,
        Stage::Compiled => s.archive_present && s.source_present && s.build_dir_prepared,
        Stage::Installed => s.archive_present && s.source_present && s.build_dir_prepared,
        Stage::Failed => !s.archive_present && !s.source_present && !s.build_dir_prepared,
    }
}

/// One transition preserves the reachable-state invariant.
pub proof fn lemma_advance_preserves_invariant(s: PipelineState, succeeded: bool)
    requires
        state_invariant(s),
    ensures
        state_invariant(spec_advance(s, succeeded)),
{
}

/// The cleanup postcondition. Whatever the outcomes — in particular a
/// failure during configure, compile or install — a run that ended in
/// `Failed` has neither the archive nor the extracted source tree on disk,
/// while a run that reached `Installed` still has its populated build
/// directory (and the archive and source tree it was built from).
pub proof fn lemma_cleanup_postcondition(outcomes: Seq<bool>)
    ensures
        state_invariant(run_result(outcomes)),
        run_result(outcomes).stage is Failed ==> !run_result(outcomes).archive_present
            && !run_result(outcomes).source_present && !run_result(outcomes).build_dir_prepared,
        run_result(outcomes).stage is Installed ==> run_result(outcomes).build_dir_prepared
            && run_result(outcomes).archive_present && run_result(outcomes).source_present,
    decreases outcomes.len(),
{
    if outcomes.len() > 0 {
        lemma_cleanup_postcondition(outcomes.drop_last());
        lemma_advance_preserves_invariant(run_result(outcomes.drop_last()), outcomes.last());
    }
}

/// Failure is sticky: once a run has failed, no later outcome revives it or
/// puts an artifact back.
pub proof fn lemma_failed_is_terminal(s: PipelineState, succeeded: bool)
    requires
        s.stage is Failed,
    ensures
        spec_advance(s, succeeded) == s,
{
}

} // verus!
