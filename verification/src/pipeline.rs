//! The staged build pipeline, as a state machine.
//!
//! The library decides; the caller performs. Each state names the outside
//! work to perform next ([`Pipeline::next_action`]); the caller does it
//! (front end, native toolchain, file system) and reports what happened as
//! a [`BuildEvent`], and [`Pipeline::step`] decides what follows. The
//! artifact model in [`Artifacts`] tracks, from the reported events, which
//! files of the run stand on disk.

use vstd::prelude::*;

verus! {

/// Final report of one pipeline run.
#[derive(Clone, Copy, Debug, PartialEq, Eq, Structural)]
pub enum BuildResult {
    /// The binary stands at the output path.
    Success,
    /// The source could not be read, or the intermediate representation
    /// could not be written.
    IoError,
    /// The parse stage reported diagnostics.
    SyntaxError,
    /// The semantic analysis stage reported diagnostics.
    SemanticError,
    /// The lowering stage reported diagnostics.
    LoweringError,
    /// The native code generator exited with a failure.
    CodegenError,
    /// The native linker exited with a failure.
    LinkError,
}

/// The stage a pipeline run waits on next.
#[derive(Clone, Copy, Debug, PartialEq, Eq, Structural)]
pub enum Stage {
    AwaitSource,
    AwaitTokens,
    AwaitSyntax,
    AwaitAnalysis,
    AwaitLowering,
    AwaitIrWrite,
    AwaitCodegen,
    AwaitLink,
    AwaitCleanup,
    Finished(BuildResult),
}

/// What the caller reports for the stage just performed. The artifact
/// flags mean that the named file now fully stands on disk (or, for
/// `Cleaned`, was removed).
#[derive(Clone, Copy, Debug, PartialEq, Eq, Structural)]
pub enum BuildEvent {
    /// The source file was read (`ok`), or could not be (`!ok`).
    SourceRead { ok: bool },
    /// The lexer produced its tokens; no diagnostics gate stands here.
    Lexed,
    /// The parser ran; `clean` says its diagnostics were empty.
    Parsed { clean: bool },
    /// Semantic analysis ran; `clean` says its diagnostics were empty.
    Analyzed { clean: bool },
    /// Lowering ran; `clean` says its diagnostics were empty.
    Lowered { clean: bool },
    /// The intermediate representation was persisted (`ok`), or not.
    IrWritten { ok: bool },
    /// The native code generator exited; on success its output stands on
    /// disk at the assembly path.
    CodegenExited { success: bool },
    /// The native linker exited; on success the binary stands at the
    /// output path.
    LinkExited { success: bool },
    /// Cleanup ran; each flag says whether that intermediate was removed
    /// (a failed removal is a warning, not a failure).
    Cleaned { ir_removed: bool, assembly_removed: bool },
}

/// The outside work the caller must perform next.
#[derive(Clone, Copy, Debug, PartialEq, Eq, Structural)]
pub enum BuildAction {
    ReadSource,
    RunLex,
    RunParse,
    RunAnalyze,
    RunLower,
    WriteIr,
    RunCodegen,
    RunLink,
    RemoveIntermediates,
}

/// Which artifacts of the run stand on disk, per the reported events.
#[derive(Clone, Copy, Debug, PartialEq, Eq, Structural)]
pub struct Artifacts {
    pub ir: bool,
    pub assembly: bool,
    pub output: bool,
}

/// One pipeline run: the awaited stage and the artifact model.
#[derive(Clone, Copy, Debug, PartialEq, Eq, Structural)]
pub struct Pipeline {
    pub stage: Stage,
    pub arts: Artifacts,
}

impl Pipeline {
    /// The state a run starts in: nothing done, nothing on disk.
    pub open spec fn spec_init() -> Pipeline {
        Pipeline {
            stage: Stage::AwaitSource,
            arts: Artifacts { ir: false, assembly: false, output: false },
        }
    }

    /// Starts a run.
    pub fn init() -> (r: Pipeline)
        ensures
            r == Pipeline::spec_init(),
    {
        Pipeline {
            stage: Stage::AwaitSource,
            arts: Artifacts { ir: false, assembly: false, output: false },
        }
    }

    /// Whether the event reports on the stage this run waits for.
    pub open spec fn expects(self, ev: BuildEvent) -> bool {
        match (self.stage, ev) {
            (Stage::AwaitSource, BuildEvent::SourceRead { .. }) => true,
            (Stage::AwaitTokens, BuildEvent::Lexed) => true,
            (Stage::AwaitSyntax, BuildEvent::Parsed { .. }) => true,
            (Stage::AwaitAnalysis, BuildEvent::Analyzed { .. }) => true,
            (Stage::AwaitLowering, BuildEvent::Lowered { .. }) => true,
            (Stage::AwaitIrWrite, BuildEvent::IrWritten { .. }) => true,
            (Stage::AwaitCodegen, BuildEvent::CodegenExited { .. }) => true,
            (Stage::AwaitLink, BuildEvent::LinkExited { .. }) => true,
            (Stage::AwaitCleanup, BuildEvent::Cleaned { .. }) => true,
            _ => false,
        }
    }

    /// The run after one reported event. An event for another stage
    /// changes nothing. Every diagnostics gate is a hard stop, and a
    /// failed native-generate exit is terminal exactly as a failed link
    /// is; intermediate artifacts are kept on every failure for
    /// inspection, and removed only by the cleanup that follows a
    /// successful link.
    pub open spec fn spec_step(self, ev: BuildEvent) -> Pipeline {
        if !self.expects(ev) {
            self
        } else {
            match ev {
                BuildEvent::SourceRead { ok } => if ok {
                    Pipeline { stage: Stage::AwaitTokens, ..self }
                } else {
                    Pipeline { stage: Stage::Finished(BuildResult::IoError), ..self }
                },
                BuildEvent::Lexed => Pipeline { stage: Stage::AwaitSyntax, ..self },
                BuildEvent::Parsed { clean } => if clean {
                    Pipeline { stage: Stage::AwaitAnalysis, ..self }
                } else {
                    Pipeline { stage: Stage::Finished(BuildResult::SyntaxError), ..self }
                },
                BuildEvent::Analyzed { clean } => if clean {
                    Pipeline { stage: Stage::AwaitLowering, ..self }
                } else {
                    Pipeline { stage: Stage::Finished(BuildResult::SemanticError), ..self }
                },
                BuildEvent::Lowered { clean } => if clean {
                    Pipeline { stage: Stage::AwaitIrWrite, ..self }
                } else {
                    Pipeline { stage: Stage::Finished(BuildResult::LoweringError), ..self }
                },
                BuildEvent::IrWritten { ok } => if ok {
                    Pipeline {
                        stage: Stage::AwaitCodegen,
                        arts: Artifacts { ir: true, ..self.arts },
                    }
                } else {
                    Pipeline { stage: Stage::Finished(BuildResult::IoError), ..self }
                },
                BuildEvent::CodegenExited { success } => if success {
                    Pipeline { stage: Stage::AwaitLink, arts: Artifacts { assembly: true, ..self.arts } }
                } else {
                    Pipeline { stage: Stage::Finished(BuildResult::CodegenError), ..self }
                },
                BuildEvent::LinkExited { success } => if success {
                    Pipeline {
                        stage: Stage::AwaitCleanup,
                        arts: Artifacts { output: true, ..self.arts },
                    }
                } else {
                    Pipeline { stage: Stage::Finished(BuildResult::LinkError), ..self }
                },
                BuildEvent::Cleaned { ir_removed, assembly_removed } => Pipeline {
                    stage: Stage::Finished(BuildResult::Success),
                    arts: Artifacts {
                        ir: self.arts.ir && !ir_removed,
                        assembly: self.arts.assembly && !assembly_removed,
                        output: self.arts.output,
                    },
                },
            }
        }
    }

    /// Performs one step of the run.
    pub fn step(&self, ev: &BuildEvent) -> (r: Pipeline)
        ensures
            r == self.spec_step(*ev),
    {
        if !self.check_expects(ev) {
            return *self;
        }
        match *ev {
            BuildEvent::SourceRead { ok } => if ok {
                Pipeline { stage: Stage::AwaitTokens, ..*self }
            } else {
                Pipeline { stage: Stage::Finished(BuildResult::IoError), ..*self }
            },
            BuildEvent::Lexed => Pipeline { stage: Stage::AwaitSyntax, ..*self },
            BuildEvent::Parsed { clean } => if clean {
                Pipeline { stage: Stage::AwaitAnalysis, ..*self }
            } else {
                Pipeline { stage: Stage::Finished(BuildResult::SyntaxError), ..*self }
            },
            BuildEvent::Analyzed { clean } => if clean {
                Pipeline { stage: Stage::AwaitLowering, ..*self }
            } else {
                Pipeline { stage: Stage::Finished(BuildResult::SemanticError), ..*self }
            },
            BuildEvent::Lowered { clean } => if clean {
                Pipeline { stage: Stage::AwaitIrWrite, ..*self }
            } else {
                Pipeline { stage: Stage::Finished(BuildResult::LoweringError), ..*self }
            },
            BuildEvent::IrWritten { ok } => if ok {
                Pipeline { stage: Stage::AwaitCodegen, arts: Artifacts { ir: true, ..self.arts } }
            } else {
                Pipeline { stage: Stage::Finished(BuildResult::IoError), ..*self }
            },
            BuildEvent::CodegenExited { success } => if success {
                Pipeline { stage: Stage::AwaitLink, arts: Artifacts { assembly: true, ..self.arts } }
            } else {
                Pipeline { stage: Stage::Finished(BuildResult::CodegenError), ..*self }
            },
            BuildEvent::LinkExited { success } => if success {
                Pipeline {
                    stage: Stage::AwaitCleanup,
                    arts: Artifacts { output: true, ..self.arts },
                }
            } else {
                Pipeline { stage: Stage::Finished(BuildResult::LinkError), ..*self }
            },
            BuildEvent::Cleaned { ir_removed, assembly_removed } => Pipeline {
                stage: Stage::Finished(BuildResult::Success),
                arts: Artifacts {
                    ir: self.arts.ir && !ir_removed,
                    assembly: self.arts.assembly && !assembly_removed,
                    output: self.arts.output,
                },
            },
        }
    }

    /// Whether the event reports on the awaited stage.
    pub fn check_expects(&self, ev: &BuildEvent) -> (r: bool)
        ensures
            r == self.expects(*ev),
    {
        match (self.stage, ev) {
            (Stage::AwaitSource, BuildEvent::SourceRead { .. }) => true,
            (Stage::AwaitTokens, BuildEvent::Lexed) => true,
            (Stage::AwaitSyntax, BuildEvent::Parsed { .. }) => true,
            (Stage::AwaitAnalysis, BuildEvent::Analyzed { .. }) => true,
            (Stage::AwaitLowering, BuildEvent::Lowered { .. }) => true,
            (Stage::AwaitIrWrite, BuildEvent::IrWritten { .. }) => true,
            (Stage::AwaitCodegen, BuildEvent::CodegenExited { .. }) => true,
            (Stage::AwaitLink, BuildEvent::LinkExited { .. }) => true,
            (Stage::AwaitCleanup, BuildEvent::Cleaned { .. }) => true,
            _ => false,
        }
    }

    /// The outside work to perform next; `None` once the run is finished.
    pub open spec fn spec_action(self) -> Option<BuildAction> {
        match self.stage {
            Stage::AwaitSource => Some(BuildAction::ReadSource),
            Stage::AwaitTokens => Some(BuildAction::RunLex),
            Stage::AwaitSyntax => Some(BuildAction::RunParse),
            Stage::AwaitAnalysis => Some(BuildAction::RunAnalyze),
            Stage::AwaitLowering => Some(BuildAction::RunLower),
            Stage::AwaitIrWrite => Some(BuildAction::WriteIr),
            Stage::AwaitCodegen => Some(BuildAction::RunCodegen),
            Stage::AwaitLink => Some(BuildAction::RunLink),
            Stage::AwaitCleanup => Some(BuildAction::RemoveIntermediates),
            Stage::Finished(_) => None,
        }
    }

    /// The outside work to perform next; `None` once the run is finished.
    pub fn next_action(&self) -> (r: Option<BuildAction>)
        ensures
            r == self.spec_action(),
    {
        match self.stage {
            Stage::AwaitSource => Some(BuildAction::ReadSource),
            Stage::AwaitTokens => Some(BuildAction::RunLex),
            Stage::AwaitSyntax => Some(BuildAction::RunParse),
            Stage::AwaitAnalysis => Some(BuildAction::RunAnalyze),
            Stage::AwaitLowering => Some(BuildAction::RunLower),
            Stage::AwaitIrWrite => Some(BuildAction::WriteIr),
            Stage::AwaitCodegen => Some(BuildAction::RunCodegen),
            Stage::AwaitLink => Some(BuildAction::RunLink),
            Stage::AwaitCleanup => Some(BuildAction::RemoveIntermediates),
            Stage::Finished(_) => None,
        }
    }

    /// The run's report, once it is finished.
    pub fn result(&self) -> (r: Option<BuildResult>)
        ensures
            match self.stage {
                Stage::Finished(b) => r == Some(b),
                _ => r is None,
            },
    {
        match self.stage {
            Stage::Finished(b) => Some(b),
            _ => None,
        }
    }

    /// How far the run has come; steps only move forward.
    pub open spec fn rank(self) -> int {
        match self.stage {
            Stage::AwaitSource => 0,
            Stage::AwaitTokens => 1,
            Stage::AwaitSyntax => 2,
            Stage::AwaitAnalysis => 3,
            Stage::AwaitLowering => 4,
            Stage::AwaitIrWrite => 5,
            Stage::AwaitCodegen => 6,
            Stage::AwaitLink => 7,
            Stage::AwaitCleanup => 8,
            Stage::Finished(_) => 9,
        }
    }

    /// The artifact lifecycle: what stands on disk at each stage. Before
    /// the intermediate representation is written nothing does; from then
    /// on, each failure keeps what was already written, and only a fully
    /// successful run reaches cleanup.
    pub open spec fn inv(self) -> bool {
        match self.stage {
            Stage::AwaitSource | Stage::AwaitTokens | Stage::AwaitSyntax | Stage::AwaitAnalysis
                | Stage::AwaitLowering | Stage::AwaitIrWrite => self.arts == Artifacts {
                ir: false,
                assembly: false,
                output: false,
            },
            Stage::AwaitCodegen => self.arts == Artifacts { ir: true, assembly: false, output: false },
            Stage::AwaitLink => self.arts == Artifacts { ir: true, assembly: true, output: false },
            Stage::AwaitCleanup => self.arts == Artifacts { ir: true, assembly: true, output: true },
            Stage::Finished(b) => match b {
                BuildResult::Success => self.arts.output,
                BuildResult::IoError => self.arts == Artifacts {
                    ir: false,
                    assembly: false,
                    output: false,
                },
                BuildResult::SyntaxError | BuildResult::SemanticError
                    | BuildResult::LoweringError => self.arts == Artifacts {
                    ir: false,
                    assembly: false,
                    output: false,
                },
                BuildResult::CodegenError => self.arts == Artifacts {
                    ir: true,
                    assembly: false,
                    output: false,
                },
                BuildResult::LinkError => self.arts == Artifacts {
                    ir: true,
                    assembly: true,
                    output: false,
                },
            },
        }
    }
}

/// The intermediate artifact paths of a run, derived deterministically
/// from the output path: the fixed intermediate-representation and
/// assembly suffixes appended.
pub fn artifact_paths(output_path: &str) -> (r: (String, String))
    ensures
        r.0@ == output_path@ + ".ll"@,
        r.1@ == output_path@ + ".s"@,
{
    let mut ir_path: String = output_path.to_owned();
    ir_path.append(".ll");
    let mut assembly_path: String = output_path.to_owned();
    assembly_path.append(".s");
    (ir_path, assembly_path)
}

/// The run after a whole sequence of reported events.
pub open spec fn run_events(p: Pipeline, evs: Seq<BuildEvent>) -> Pipeline
    decreases evs.len(),
{
    if evs.len() == 0 {
        p
    } else {
        run_events(p.spec_step(evs[0]), evs.drop_first())
    }
}

/// Whether each event of the sequence reports on the stage then awaited.
pub open spec fn valid_from(p: Pipeline, evs: Seq<BuildEvent>) -> bool
    decreases evs.len(),
{
    evs.len() == 0 || (p.expects(evs[0]) && valid_from(p.spec_step(evs[0]), evs.drop_first()))
}

/// The state the run has after the first `i` events.
pub open spec fn state_at(p: Pipeline, evs: Seq<BuildEvent>, i: int) -> Pipeline {
    run_events(p, evs.take(i))
}

/// Every step preserves the artifact lifecycle.
pub proof fn lemma_step_inv(p: Pipeline, ev: BuildEvent)
    requires
        p.inv(),
    ensures
        p.spec_step(ev).inv(),
{
}

/// An expected event moves the run strictly forward.
pub proof fn lemma_step_rank(p: Pipeline, ev: BuildEvent)
    requires
        p.expects(ev),
    ensures
        p.spec_step(ev).rank() > p.rank(),
{
}

/// The artifact lifecycle holds after any sequence of reported events.
pub proof fn lemma_run_inv(p: Pipeline, evs: Seq<BuildEvent>)
    requires
        p.inv(),
    ensures
        run_events(p, evs).inv(),
    decreases evs.len(),
{
    if evs.len() > 0 {
        lemma_step_inv(p, evs[0]);
        lemma_run_inv(p.spec_step(evs[0]), evs.drop_first());
    }
}

/// Running `i + 1` events is running `i` and stepping once more.
pub proof fn lemma_run_snoc(p: Pipeline, evs: Seq<BuildEvent>, i: int)
    requires
        0 <= i < evs.len(),
    ensures
        run_events(p, evs.take(i + 1)) == run_events(p, evs.take(i)).spec_step(evs[i]),
    decreases i,
{
    if i == 0 {
        assert(evs.take(1) =~= seq![evs[0]]);
        assert(evs.take(0) =~= Seq::empty());
        assert(evs.take(1).drop_first() =~= Seq::empty());
        assert(evs.take(1)[0] == evs[0]);
        assert(run_events(p, evs.take(0)) == p);
        assert(run_events(p, evs.take(1)) == run_events(p.spec_step(evs[0]), evs.take(
            1,
        ).drop_first()));
        assert(run_events(p.spec_step(evs[0]), evs.take(1).drop_first()) == p.spec_step(evs[0]));
    } else {
        let q = p.spec_step(evs[0]);
        let rest = evs.drop_first();
        assert(evs.take(i + 1).drop_first() =~= rest.take(i));
        assert(evs.take(i).drop_first() =~= rest.take(i - 1));
        assert(evs.take(i + 1)[0] == evs[0]);
        assert(evs.take(i)[0] == evs[0]);
        lemma_run_snoc(q, rest, i - 1);
        assert(rest[i - 1] == evs[i]);
        assert(run_events(p, evs.take(i + 1)) == run_events(q, rest.take(i)));
        assert(run_events(q, rest.take(i)) == run_events(q, rest.take(i - 1)).spec_step(rest[i
            - 1]));
        assert(run_events(p, evs.take(i)) == run_events(q, rest.take(i - 1)));
    }
}

/// In a valid run, the event at `i` reports on the stage then awaited.
pub proof fn lemma_valid_at(p: Pipeline, evs: Seq<BuildEvent>, i: int)
    requires
        valid_from(p, evs),
        0 <= i < evs.len(),
    ensures
        state_at(p, evs, i).expects(evs[i]),
    decreases i,
{
    if i == 0 {
        assert(evs.take(0) =~= Seq::empty());
    } else {
        let q = p.spec_step(evs[0]);
        let rest = evs.drop_first();
        lemma_valid_at(q, rest, i - 1);
        assert(rest.take(i - 1) =~= evs.take(i).drop_first());
        assert(evs.take(i)[0] == evs[0]);
        assert(rest[i - 1] == evs[i]);
    }
}

/// A valid run moves strictly forward: a later state has a higher rank.
pub proof fn lemma_rank_strict(p: Pipeline, evs: Seq<BuildEvent>, i: int, j: int)
    requires
        valid_from(p, evs),
        0 <= i < j <= evs.len(),
    ensures
        state_at(p, evs, i).rank() < state_at(p, evs, j).rank(),
    decreases j - i,
{
    lemma_valid_at(p, evs, j - 1);
    lemma_step_rank(state_at(p, evs, j - 1), evs[j - 1]);
    lemma_run_snoc(p, evs, j - 1);
    if i < j - 1 {
        lemma_rank_strict(p, evs, i, j - 1);
    }
}

/// A run whose parse stage reported diagnostics halts at once with
/// `SyntaxError`: that event is the last one a valid run can hold, the
/// native code generator and linker were never invoked, and no artifact
/// was written.
pub proof fn lemma_parse_diagnostics_halt(evs: Seq<BuildEvent>, i: int)
    requires
        valid_from(Pipeline::spec_init(), evs),
        0 <= i < evs.len(),
        evs[i] == (BuildEvent::Parsed { clean: false }),
    ensures
        i == evs.len() - 1,
        run_events(Pipeline::spec_init(), evs).stage == Stage::Finished(BuildResult::SyntaxError),
        run_events(Pipeline::spec_init(), evs).arts == (Artifacts {
            ir: false,
            assembly: false,
            output: false,
        }),
        forall|j: int| #![trigger evs[j]]
            0 <= j < evs.len() ==> !(evs[j] matches BuildEvent::CodegenExited { .. }) && !(
            evs[j] matches BuildEvent::LinkExited { .. }) && !(
            evs[j] matches BuildEvent::IrWritten { .. }),
{
    let p0 = Pipeline::spec_init();
    lemma_valid_at(p0, evs, i);
    lemma_run_inv(p0, evs.take(i));
    if i + 1 < evs.len() {
        lemma_valid_at(p0, evs, i + 1);
        lemma_run_snoc(p0, evs, i);
        assert(false);
    }
    lemma_run_snoc(p0, evs, i);
    assert(evs.take(i + 1) =~= evs);
    assert forall|j: int| #![trigger evs[j]]
        0 <= j < evs.len() implies !(evs[j] matches BuildEvent::CodegenExited { .. }) && !(
    evs[j] matches BuildEvent::LinkExited { .. }) && !(
    evs[j] matches BuildEvent::IrWritten { .. }) by {
        lemma_valid_at(p0, evs, j);
        if j < i {
            lemma_rank_strict(p0, evs, j, i);
        }
    }
}

/// A run that succeeds through linking and whose cleanup removed both
/// intermediates leaves exactly the output binary on disk.
pub proof fn lemma_success_leaves_only_output(evs: Seq<BuildEvent>)
    requires
        valid_from(Pipeline::spec_init(), evs),
        evs.len() > 0,
        evs.last() == (BuildEvent::Cleaned { ir_removed: true, assembly_removed: true }),
    ensures
        run_events(Pipeline::spec_init(), evs).stage == Stage::Finished(BuildResult::Success),
        run_events(Pipeline::spec_init(), evs).arts == (Artifacts {
            ir: false,
            assembly: false,
            output: true,
        }),
{
    let p0 = Pipeline::spec_init();
    let n = evs.len() - 1;
    lemma_valid_at(p0, evs, n);
    lemma_run_inv(p0, evs.take(n));
    lemma_run_snoc(p0, evs, n);
    assert(evs.take(n + 1) =~= evs);
}

/// A run whose link step exited with a failure keeps both intermediates
/// on disk for inspection and produces no output binary.
pub proof fn lemma_link_failure_preserves_intermediates(evs: Seq<BuildEvent>)
    requires
        valid_from(Pipeline::spec_init(), evs),
        evs.len() > 0,
        evs.last() == (BuildEvent::LinkExited { success: false }),
    ensures
        run_events(Pipeline::spec_init(), evs).stage == Stage::Finished(BuildResult::LinkError),
        run_events(Pipeline::spec_init(), evs).arts == (Artifacts {
            ir: true,
            assembly: true,
            output: false,
        }),
{
    let p0 = Pipeline::spec_init();
    let n = evs.len() - 1;
    lemma_valid_at(p0, evs, n);
    lemma_run_inv(p0, evs.take(n));
    lemma_run_snoc(p0, evs, n);
    assert(evs.take(n + 1) =~= evs);
}

} // verus!
