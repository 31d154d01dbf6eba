use goofy::pipeline::{artifact_paths, Artifacts, BuildAction, BuildEvent, BuildResult, Pipeline};

#[test]
fn intermediate_paths_append_the_fixed_suffixes() {
    let (ir, assembly) = artifact_paths("target/release/app");
    assert_eq!(ir, "target/release/app.ll");
    assert_eq!(assembly, "target/release/app.s");
}

fn no_artifacts() -> Artifacts {
    Artifacts { ir: false, assembly: false, output: false }
}

#[test]
fn parse_diagnostics_halt_the_pipeline() {
    let p = Pipeline::init();
    assert_eq!(p.next_action(), Some(BuildAction::ReadSource));
    let p = p.step(&BuildEvent::SourceRead { ok: true });
    assert_eq!(p.next_action(), Some(BuildAction::RunLex));
    let p = p.step(&BuildEvent::Lexed);
    assert_eq!(p.next_action(), Some(BuildAction::RunParse));
    let p = p.step(&BuildEvent::Parsed { clean: false });
    assert_eq!(p.result(), Some(BuildResult::SyntaxError));
    assert_eq!(p.next_action(), None);
    assert_eq!(p.arts, no_artifacts());
}

#[test]
fn successful_run_leaves_only_the_output() {
    let p = Pipeline::init()
        .step(&BuildEvent::SourceRead { ok: true })
        .step(&BuildEvent::Lexed)
        .step(&BuildEvent::Parsed { clean: true })
        .step(&BuildEvent::Analyzed { clean: true })
        .step(&BuildEvent::Lowered { clean: true })
        .step(&BuildEvent::IrWritten { ok: true })
        .step(&BuildEvent::CodegenExited { success: true })
        .step(&BuildEvent::LinkExited { success: true })
        .step(&BuildEvent::Cleaned { ir_removed: true, assembly_removed: true });
    assert_eq!(p.result(), Some(BuildResult::Success));
    assert_eq!(p.arts, Artifacts { ir: false, assembly: false, output: true });
    assert_eq!(p.next_action(), None);
}

#[test]
fn link_failure_preserves_intermediates() {
    let p = Pipeline::init()
        .step(&BuildEvent::SourceRead { ok: true })
        .step(&BuildEvent::Lexed)
        .step(&BuildEvent::Parsed { clean: true })
        .step(&BuildEvent::Analyzed { clean: true })
        .step(&BuildEvent::Lowered { clean: true })
        .step(&BuildEvent::IrWritten { ok: true })
        .step(&BuildEvent::CodegenExited { success: true })
        .step(&BuildEvent::LinkExited { success: false });
    assert_eq!(p.result(), Some(BuildResult::LinkError));
    assert_eq!(p.arts, Artifacts { ir: true, assembly: true, output: false });
    assert_eq!(p.next_action(), None);
}

#[test]
fn codegen_failure_is_terminal() {
    let p = Pipeline::init()
        .step(&BuildEvent::SourceRead { ok: true })
        .step(&BuildEvent::Lexed)
        .step(&BuildEvent::Parsed { clean: true })
        .step(&BuildEvent::Analyzed { clean: true })
        .step(&BuildEvent::Lowered { clean: true })
        .step(&BuildEvent::IrWritten { ok: true })
        .step(&BuildEvent::CodegenExited { success: false });
    assert_eq!(p.result(), Some(BuildResult::CodegenError));
    assert_eq!(p.next_action(), None);
    assert_eq!(p.arts, Artifacts { ir: true, assembly: false, output: false });
}

#[test]
fn unreadable_source_aborts_before_any_artifact() {
    let p = Pipeline::init().step(&BuildEvent::SourceRead { ok: false });
    assert_eq!(p.result(), Some(BuildResult::IoError));
    assert_eq!(p.arts, no_artifacts());
}

#[test]
fn analysis_diagnostics_halt_the_pipeline() {
    let p = Pipeline::init()
        .step(&BuildEvent::SourceRead { ok: true })
        .step(&BuildEvent::Lexed)
        .step(&BuildEvent::Parsed { clean: true })
        .step(&BuildEvent::Analyzed { clean: false });
    assert_eq!(p.result(), Some(BuildResult::SemanticError));
    assert_eq!(p.arts, no_artifacts());
}

#[test]
fn lowering_diagnostics_halt_the_pipeline() {
    let p = Pipeline::init()
        .step(&BuildEvent::SourceRead { ok: true })
        .step(&BuildEvent::Lexed)
        .step(&BuildEvent::Parsed { clean: true })
        .step(&BuildEvent::Analyzed { clean: true })
        .step(&BuildEvent::Lowered { clean: false });
    assert_eq!(p.result(), Some(BuildResult::LoweringError));
    assert_eq!(p.arts, no_artifacts());
}

#[test]
fn failed_removal_is_a_warning_not_a_failure() {
    let p = Pipeline::init()
        .step(&BuildEvent::SourceRead { ok: true })
        .step(&BuildEvent::Lexed)
        .step(&BuildEvent::Parsed { clean: true })
        .step(&BuildEvent::Analyzed { clean: true })
        .step(&BuildEvent::Lowered { clean: true })
        .step(&BuildEvent::IrWritten { ok: true })
        .step(&BuildEvent::CodegenExited { success: true })
        .step(&BuildEvent::LinkExited { success: true })
        .step(&BuildEvent::Cleaned { ir_removed: false, assembly_removed: true });
    assert_eq!(p.result(), Some(BuildResult::Success));
    assert_eq!(p.arts, Artifacts { ir: true, assembly: false, output: true });
}

#[test]
fn an_event_for_another_stage_changes_nothing() {
    let p = Pipeline::init();
    let q = p.step(&BuildEvent::LinkExited { success: true });
    assert_eq!(q, p);
}
