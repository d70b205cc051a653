//! Pipeline orchestration: the ordered stage sequence (preprocess, compile,
//! assemble/link), intermediate-artifact lifecycle, failure propagation, and
//! mode-gated early termination.
//!
//! The controller is a state machine. It never touches the filesystem or
//! launches a process itself: [`Pipeline::next_action`] says what should
//! happen next (invoke a stage, remove a superseded intermediate, report the
//! final artifact, or fail), the caller performs it and reports the outcome
//! through [`Pipeline::on_stage_exit`] or [`Pipeline::on_removed`]. The ghost
//! [`Model`] tracks, alongside the control state, the set of artifacts the
//! pipeline has created and not yet removed.

use vstd::prelude::*;
use crate::mode::PipelineMode;
use crate::mode::spec_stop_after;
use crate::mode::stop_after;
use crate::namer::replace_extension;
use crate::namer::strip_extension;
use crate::namer::strip_ext_spec;
use crate::namer::with_ext_spec;

verus! {

/// One ordered step of the build pipeline.
#[derive(Clone, Copy, Debug, PartialEq, Eq, Structural)]
pub enum Stage {
    Preprocess,
    Compile,
    AssembleLink,
}

/// Why a pipeline run ended without a final artifact.
#[derive(Clone, Copy, Debug, PartialEq, Eq, Structural)]
pub enum PipelineError {
    /// More than one mutually-exclusive mode flag was supplied; no stage ran.
    Config,
    /// The named stage's external process exited non-zero or could not be
    /// launched; the pipeline halted there.
    StageFailure(Stage),
    /// A superseded intermediate artifact could not be removed; the run
    /// aborted rather than continue past an unacknowledged cleanup.
    Filesystem,
}

/// The control state of a pipeline run.
#[derive(Clone, Copy, Debug, PartialEq, Eq, Structural)]
pub enum Status {
    /// The named stage is due to run next.
    Run(Stage),
    /// The named stage succeeded; its input artifact awaits removal.
    Cleanup(Stage),
    /// The run stopped at the requested stop point; its artifact is ready.
    Done,
    /// The run ended in the recorded error. Terminal: nothing further runs.
    Failed(PipelineError),
}

/// What the caller must do next on the pipeline's behalf.
#[derive(Debug)]
pub enum Action {
    /// Launch the stage's external process on `input`, writing `output`, and
    /// report its exit through [`Pipeline::on_stage_exit`].
    Invoke { stage: Stage, input: String, output: String },
    /// Remove the superseded intermediate at `path` and report the outcome
    /// through [`Pipeline::on_removed`].
    Remove { path: String },
    /// The run succeeded; `artifact` is the stop point's artifact.
    Report { artifact: String },
    /// The run failed; nothing further should be done.
    Fail { error: PipelineError },
}

/// The mathematical state of a pipeline run: the input name and mode it was
/// started with, its control state, and the set of artifact names the
/// pipeline has created and not yet removed.
#[verifier::ext_equal]
pub ghost struct Model {
    pub input: Seq<char>,
    pub mode: PipelineMode,
    pub status: Status,
    pub files: Set<Seq<char>>,
}

impl Model {
    /// A fresh run: the first stage is due and no artifact exists yet.
    pub open spec fn init(input: Seq<char>, mode: PipelineMode) -> Model {
        Model {
            input,
            mode,
            status: Status::Run(Stage::Preprocess),
            files: Set::empty(),
        }
    }

    /// The input name with its final extension stripped: the base from which
    /// every artifact name of this run is derived.
    pub open spec fn stem(self) -> Seq<char> {
        strip_ext_spec(self.input)
    }

    /// The artifact a stage produces: `.i` for the preprocessed output, `.s`
    /// for the assembly output, the bare stem for the final executable.
    pub open spec fn artifact(self, stage: Stage) -> Seq<char> {
        match stage {
            Stage::Preprocess => with_ext_spec(self.stem(), seq!['i']),
            Stage::Compile => with_ext_spec(self.stem(), seq!['s']),
            Stage::AssembleLink => self.stem(),
        }
    }

    /// The artifact a stage consumes: the original input for the first
    /// stage, the previous stage's artifact afterwards.
    pub open spec fn stage_input(self, stage: Stage) -> Seq<char> {
        match stage {
            Stage::Preprocess => self.input,
            Stage::Compile => self.artifact(Stage::Preprocess),
            Stage::AssembleLink => self.artifact(Stage::Compile),
        }
    }

    /// The artifact of the mode's stop point: what a successful run reports.
    pub open spec fn final_artifact(self) -> Seq<char> {
        self.artifact(spec_stop_after(self.mode))
    }

    /// The state after the awaited stage exits. On success the stage's
    /// artifact now exists; the run then stops at the stop point, removes the
    /// consumed intermediate (never the caller's original input), or advances.
    /// On failure the run ends naming the stage, with nothing removed.
    pub open spec fn step_exit(self, success: bool) -> Model {
        match self.status {
            Status::Run(stage) => {
                if success {
                    let with_out = Model { files: self.files.insert(self.artifact(stage)), ..self };
                    match stage {
                        Stage::Preprocess => {
                            if spec_stop_after(self.mode) == Stage::Preprocess {
                                Model { status: Status::Done, ..with_out }
                            } else {
                                Model { status: Status::Run(Stage::Compile), ..with_out }
                            }
                        },
                        _ => Model { status: Status::Cleanup(stage), ..with_out },
                    }
                } else {
                    Model { status: Status::Failed(PipelineError::StageFailure(stage)), ..self }
                }
            },
            _ => self,
        }
    }

    /// The state after the awaited removal of a superseded intermediate. On
    /// success the run stops at the stop point or advances to the next
    /// stage; on failure it ends with a filesystem error, removing nothing.
    pub open spec fn step_removed(self, success: bool) -> Model {
        match self.status {
            Status::Cleanup(stage) => {
                if success {
                    let cleaned = Model {
                        files: self.files.remove(self.stage_input(stage)),
                        ..self
                    };
                    if spec_stop_after(self.mode) == stage {
                        Model { status: Status::Done, ..cleaned }
                    } else {
                        match stage {
                            Stage::Compile => Model {
                                status: Status::Run(Stage::AssembleLink),
                                ..cleaned
                            },
                            _ => Model { status: Status::Done, ..cleaned },
                        }
                    }
                } else {
                    Model { status: Status::Failed(PipelineError::Filesystem), ..self }
                }
            },
            _ => self,
        }
    }
}

/// A single pipeline run over one input file in one mode.
pub struct Pipeline {
    input: String,
    mode: PipelineMode,
    status: Status,
    files: Ghost<Set<Seq<char>>>,
}

impl View for Pipeline {
    type V = Model;

    closed spec fn view(&self) -> Model {
        Model { input: self.input@, mode: self.mode, status: self.status, files: self.files@ }
    }
}

impl Pipeline {
    /// Starts a run: the first stage is due and no artifact exists yet.
    pub fn new(input: String, mode: PipelineMode) -> (p: Pipeline)
        ensures
            p@ == Model::init(input@, mode),
    {
        let p = Pipeline {
            input,
            mode,
            status: Status::Run(Stage::Preprocess),
            files: Ghost(Set::empty()),
        };
        proof {
            assert(p@ =~= Model::init(p.input@, p.mode));
        }
        p
    }

    /// The run's current control state.
    pub fn status(&self) -> (s: Status)
        ensures
            s == self@.status,
    {
        self.status
    }

    /// The name of the artifact `stage` produces for this run's input.
    pub fn artifact_path(&self, stage: Stage) -> (r: String)
        ensures
            r@ == self@.artifact(stage),
    {
        match stage {
            Stage::Preprocess => {
                let r = replace_extension(self.input.as_str(), "i");
                proof {
                    reveal_strlit("i");
                    assert(r@ =~= self@.artifact(stage));
                }
                r
            },
            Stage::Compile => {
                let r = replace_extension(self.input.as_str(), "s");
                proof {
                    reveal_strlit("s");
                    assert(r@ =~= self@.artifact(stage));
                }
                r
            },
            Stage::AssembleLink => strip_extension(self.input.as_str()),
        }
    }

    /// The name of the artifact `stage` consumes for this run's input.
    pub fn stage_input_path(&self, stage: Stage) -> (r: String)
        ensures
            r@ == self@.stage_input(stage),
    {
        match stage {
            Stage::Preprocess => self.input.clone(),
            Stage::Compile => self.artifact_path(Stage::Preprocess),
            Stage::AssembleLink => self.artifact_path(Stage::Compile),
        }
    }

    /// What the caller must do next: run the due stage, remove the
    /// superseded intermediate, report the stop point's artifact, or surface
    /// the recorded error.
    pub fn next_action(&self) -> (a: Action)
        ensures
            match self@.status {
                Status::Run(stage) => a matches Action::Invoke { stage: st, input, output }
                    && st == stage && input@ == self@.stage_input(stage) && output@
                    == self@.artifact(stage),
                Status::Cleanup(stage) => a matches Action::Remove { path } && path@
                    == self@.stage_input(stage),
                Status::Done => a matches Action::Report { artifact } && artifact@
                    == self@.final_artifact(),
                Status::Failed(e) => a matches Action::Fail { error } && error == e,
            },
    {
        match self.status {
            Status::Run(stage) => Action::Invoke {
                stage,
                input: self.stage_input_path(stage),
                output: self.artifact_path(stage),
            },
            Status::Cleanup(stage) => Action::Remove { path: self.stage_input_path(stage) },
            Status::Done => Action::Report { artifact: self.artifact_path(stop_after(self.mode)) },
            Status::Failed(e) => Action::Fail { error: e },
        }
    }

    /// Records the exit of the stage the run is waiting on: `success` is
    /// whether its external process exited with status zero.
    pub fn on_stage_exit(&mut self, success: bool)
        requires
            old(self)@.status is Run,
        ensures
            final(self)@ == old(self)@.step_exit(success),
    {
        match self.status {
            Status::Run(stage) => {
                if success {
                    let ghost out = self@.artifact(stage);
                    self.files = Ghost(self.files@.insert(out));
                    match stage {
                        Stage::Preprocess => {
                            if stop_after(self.mode) == Stage::Preprocess {
                                self.status = Status::Done;
                            } else {
                                self.status = Status::Run(Stage::Compile);
                            }
                        },
                        _ => {
                            self.status = Status::Cleanup(stage);
                        },
                    }
                } else {
                    self.status = Status::Failed(PipelineError::StageFailure(stage));
                }
            },
            _ => {},
        }
        proof {
            assert(self@ =~= old(self)@.step_exit(success));
        }
    }

    /// Records the outcome of the removal the run is waiting on.
    pub fn on_removed(&mut self, success: bool)
        requires
            old(self)@.status is Cleanup,
        ensures
            final(self)@ == old(self)@.step_removed(success),
    {
        match self.status {
            Status::Cleanup(stage) => {
                if success {
                    let ghost target = self@.stage_input(stage);
                    self.files = Ghost(self.files@.remove(target));
                    if stop_after(self.mode) == stage {
                        self.status = Status::Done;
                    } else {
                        match stage {
                            Stage::Compile => {
                                self.status = Status::Run(Stage::AssembleLink);
                            },
                            _ => {
                                self.status = Status::Done;
                            },
                        }
                    }
                } else {
                    self.status = Status::Failed(PipelineError::Filesystem);
                }
            },
            _ => {},
        }
        proof {
            assert(self@ =~= old(self)@.step_removed(success));
        }
    }
}

/// The three artifact names of one run are pairwise distinct: `.i`, `.s`,
/// and the bare stem never collide.
pub proof fn lemma_artifacts_distinct(m: Model)
    ensures
        m.artifact(Stage::Preprocess) != m.artifact(Stage::Compile),
        m.artifact(Stage::Preprocess) != m.artifact(Stage::AssembleLink),
        m.artifact(Stage::Compile) != m.artifact(Stage::AssembleLink),
{
    let stem = m.stem();
    let k = stem.len() as int + 1;
    assert(m.artifact(Stage::Preprocess)[k] == 'i');
    assert(m.artifact(Stage::Compile)[k] == 's');
    assert(m.artifact(Stage::Preprocess).len() == stem.len() + 2);
    assert(m.artifact(Stage::AssembleLink).len() == stem.len());
}

/// Law: a full-mode run in which every stage and every removal succeeds ends
/// in `Done` with exactly one artifact, the final executable; the
/// preprocessed (`.i`) and assembly (`.s`) intermediates no longer exist.
pub proof fn lemma_full_run_cleans_intermediates(input: Seq<char>)
    ensures
        ({
            let m0 = Model::init(input, PipelineMode::Full);
            let mf = m0.step_exit(true).step_exit(true).step_removed(true).step_exit(
                true,
            ).step_removed(true);
            &&& mf.status == Status::Done
            &&& mf.files =~= set![m0.artifact(Stage::AssembleLink)]
            &&& !mf.files.contains(m0.artifact(Stage::Preprocess))
            &&& !mf.files.contains(m0.artifact(Stage::Compile))
            &&& mf.final_artifact() == m0.artifact(Stage::AssembleLink)
        }),
{
    let m0 = Model::init(input, PipelineMode::Full);
    lemma_artifacts_distinct(m0);
    let pre = m0.artifact(Stage::Preprocess);
    let asmf = m0.artifact(Stage::Compile);
    let exe = m0.artifact(Stage::AssembleLink);
    let m1 = m0.step_exit(true);
    assert(m1.status == Status::Run(Stage::Compile));
    assert(m1.files =~= set![pre]);
    let m2 = m1.step_exit(true);
    assert(m2.status == Status::Cleanup(Stage::Compile));
    assert(m2.files =~= set![pre, asmf]);
    let m3 = m2.step_removed(true);
    assert(m3.status == Status::Run(Stage::AssembleLink));
    assert(m3.files =~= set![asmf]);
    let m4 = m3.step_exit(true);
    assert(m4.status == Status::Cleanup(Stage::AssembleLink));
    assert(m4.files =~= set![asmf, exe]);
    let m5 = m4.step_removed(true);
    assert(m5.status == Status::Done);
    assert(m5.files =~= set![exe]);
}

/// Law: a codegen-only run in which both stages and the one removal succeed
/// halts after the compile stage: the run is done (the assemble/link stage is
/// never due), the `.s` artifact is the reported result and the only file
/// retained, and the `.i` intermediate no longer exists.
pub proof fn lemma_codegen_only_stops_after_compile(input: Seq<char>)
    ensures
        ({
            let m0 = Model::init(input, PipelineMode::CodegenOnly);
            let mf = m0.step_exit(true).step_exit(true).step_removed(true);
            &&& mf.status == Status::Done
            &&& mf.files =~= set![m0.artifact(Stage::Compile)]
            &&& !mf.files.contains(m0.artifact(Stage::Preprocess))
            &&& mf.final_artifact() == m0.artifact(Stage::Compile)
        }),
{
    let m0 = Model::init(input, PipelineMode::CodegenOnly);
    lemma_artifacts_distinct(m0);
    let pre = m0.artifact(Stage::Preprocess);
    let asmf = m0.artifact(Stage::Compile);
    let m1 = m0.step_exit(true);
    assert(m1.status == Status::Run(Stage::Compile));
    assert(m1.files =~= set![pre]);
    let m2 = m1.step_exit(true);
    assert(m2.status == Status::Cleanup(Stage::Compile));
    assert(m2.files =~= set![pre, asmf]);
    let m3 = m2.step_removed(true);
    assert(m3.status == Status::Done);
    assert(m3.files =~= set![asmf]);
}

/// Law: in every mode, if the first stage's external process fails, the run
/// ends naming the preprocess stage and no artifact exists: in particular no
/// `.s` file and no final executable were produced.
pub proof fn lemma_preprocess_failure_produces_nothing(input: Seq<char>, mode: PipelineMode)
    ensures
        ({
            let m0 = Model::init(input, mode);
            let mf = m0.step_exit(false);
            &&& mf.status == Status::Failed(PipelineError::StageFailure(Stage::Preprocess))
            &&& mf.files =~= Set::<Seq<char>>::empty()
            &&& !mf.files.contains(m0.artifact(Stage::Compile))
            &&& !mf.files.contains(m0.artifact(Stage::AssembleLink))
        }),
{
}

/// Law: in a full-mode run, if the assemble/link stage fails, the run ends
/// naming that stage and the `.s` intermediate is retained on disk for
/// inspection.
pub proof fn lemma_link_failure_retains_assembly(input: Seq<char>)
    ensures
        ({
            let m0 = Model::init(input, PipelineMode::Full);
            let mf = m0.step_exit(true).step_exit(true).step_removed(true).step_exit(false);
            &&& mf.status == Status::Failed(PipelineError::StageFailure(Stage::AssembleLink))
            &&& mf.files.contains(m0.artifact(Stage::Compile))
        }),
{
    let m0 = Model::init(input, PipelineMode::Full);
    lemma_artifacts_distinct(m0);
    let pre = m0.artifact(Stage::Preprocess);
    let asmf = m0.artifact(Stage::Compile);
    let m3 = m0.step_exit(true).step_exit(true).step_removed(true);
    assert(m3.status == Status::Run(Stage::AssembleLink));
    assert(m3.files =~= set![asmf]);
}

impl PipelineError {
    /// A human-readable description of the error.
    pub fn describe(&self) -> (s: String)
        ensures
            s@ == match *self {
                PipelineError::Config => "Conflicting compiler mode options"@,
                PipelineError::StageFailure(Stage::Preprocess) => "Failed to preprocess file"@,
                PipelineError::StageFailure(Stage::Compile) => "Failed to compile file"@,
                PipelineError::StageFailure(Stage::AssembleLink) => "Failed to assemble file"@,
                PipelineError::Filesystem => "Failed to remove intermediate file"@,
            },
    {
        match self {
            PipelineError::Config => "Conflicting compiler mode options".to_owned(),
            PipelineError::StageFailure(Stage::Preprocess) => "Failed to preprocess file".to_owned(),
            PipelineError::StageFailure(Stage::Compile) => "Failed to compile file".to_owned(),
            PipelineError::StageFailure(Stage::AssembleLink) => "Failed to assemble file".to_owned(),
            PipelineError::Filesystem => "Failed to remove intermediate file".to_owned(),
        }
    }
}

} // verus!
