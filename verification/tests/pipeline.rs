use tbcc::mode::PipelineMode;
use tbcc::pipeline::Action;
use tbcc::pipeline::Pipeline;
use tbcc::pipeline::PipelineError;
use tbcc::pipeline::Stage;
use tbcc::pipeline::Status;

fn expect_invoke(p: &Pipeline) -> (Stage, String, String) {
    match p.next_action() {
        Action::Invoke { stage, input, output } => (stage, input, output),
        other => panic!("expected an invoke action, got {:?}", other),
    }
}

fn expect_remove(p: &Pipeline) -> String {
    match p.next_action() {
        Action::Remove { path } => path,
        other => panic!("expected a remove action, got {:?}", other),
    }
}

fn expect_report(p: &Pipeline) -> String {
    match p.next_action() {
        Action::Report { artifact } => artifact,
        other => panic!("expected a report action, got {:?}", other),
    }
}

fn expect_fail(p: &Pipeline) -> PipelineError {
    match p.next_action() {
        Action::Fail { error } => error,
        other => panic!("expected a fail action, got {:?}", other),
    }
}

#[test]
fn full_run_produces_executable_and_cleans_intermediates() {
    let mut p = Pipeline::new("dir/prog.c".to_string(), PipelineMode::Full);

    let (stage, input, output) = expect_invoke(&p);
    assert_eq!(stage, Stage::Preprocess);
    assert_eq!(input, "dir/prog.c");
    assert_eq!(output, "dir/prog.i");
    p.on_stage_exit(true);

    let (stage, input, output) = expect_invoke(&p);
    assert_eq!(stage, Stage::Compile);
    assert_eq!(input, "dir/prog.i");
    assert_eq!(output, "dir/prog.s");
    p.on_stage_exit(true);

    assert_eq!(expect_remove(&p), "dir/prog.i");
    p.on_removed(true);

    let (stage, input, output) = expect_invoke(&p);
    assert_eq!(stage, Stage::AssembleLink);
    assert_eq!(input, "dir/prog.s");
    assert_eq!(output, "dir/prog");
    p.on_stage_exit(true);

    assert_eq!(expect_remove(&p), "dir/prog.s");
    p.on_removed(true);

    assert_eq!(p.status(), Status::Done);
    assert_eq!(expect_report(&p), "dir/prog");
}

#[test]
fn codegen_only_stops_after_compile_and_keeps_assembly() {
    let mut p = Pipeline::new("dir/prog.c".to_string(), PipelineMode::CodegenOnly);

    let (stage, _, _) = expect_invoke(&p);
    assert_eq!(stage, Stage::Preprocess);
    p.on_stage_exit(true);

    let (stage, _, output) = expect_invoke(&p);
    assert_eq!(stage, Stage::Compile);
    assert_eq!(output, "dir/prog.s");
    p.on_stage_exit(true);

    assert_eq!(expect_remove(&p), "dir/prog.i");
    p.on_removed(true);

    assert_eq!(p.status(), Status::Done);
    assert_eq!(expect_report(&p), "dir/prog.s");
}

#[test]
fn assemble_only_stops_after_compile() {
    let mut p = Pipeline::new("prog.c".to_string(), PipelineMode::AssembleOnly);
    p.on_stage_exit(true);
    p.on_stage_exit(true);
    assert_eq!(expect_remove(&p), "prog.i");
    p.on_removed(true);
    assert_eq!(expect_report(&p), "prog.s");
}

#[test]
fn lex_only_stops_after_preprocess_and_removes_nothing() {
    let mut p = Pipeline::new("prog.c".to_string(), PipelineMode::LexOnly);

    let (stage, _, output) = expect_invoke(&p);
    assert_eq!(stage, Stage::Preprocess);
    assert_eq!(output, "prog.i");
    p.on_stage_exit(true);

    assert_eq!(p.status(), Status::Done);
    assert_eq!(expect_report(&p), "prog.i");
}

#[test]
fn parse_only_stops_after_preprocess() {
    let mut p = Pipeline::new("prog.c".to_string(), PipelineMode::ParseOnly);
    p.on_stage_exit(true);
    assert_eq!(p.status(), Status::Done);
    assert_eq!(expect_report(&p), "prog.i");
}

#[test]
fn preprocess_failure_ends_the_run_naming_the_stage() {
    let mut p = Pipeline::new("dir/prog.c".to_string(), PipelineMode::Full);
    p.on_stage_exit(false);
    assert_eq!(p.status(), Status::Failed(PipelineError::StageFailure(Stage::Preprocess)));
    assert_eq!(expect_fail(&p), PipelineError::StageFailure(Stage::Preprocess));
}

#[test]
fn compile_failure_ends_the_run_naming_the_stage() {
    let mut p = Pipeline::new("prog.c".to_string(), PipelineMode::Full);
    p.on_stage_exit(true);
    p.on_stage_exit(false);
    assert_eq!(expect_fail(&p), PipelineError::StageFailure(Stage::Compile));
}

#[test]
fn link_failure_ends_the_run_after_assembly_was_kept() {
    let mut p = Pipeline::new("dir/prog.c".to_string(), PipelineMode::Full);
    p.on_stage_exit(true);
    p.on_stage_exit(true);
    assert_eq!(expect_remove(&p), "dir/prog.i");
    p.on_removed(true);

    let (stage, input, _) = expect_invoke(&p);
    assert_eq!(stage, Stage::AssembleLink);
    assert_eq!(input, "dir/prog.s");
    p.on_stage_exit(false);

    assert_eq!(p.status(), Status::Failed(PipelineError::StageFailure(Stage::AssembleLink)));
    assert_eq!(expect_fail(&p), PipelineError::StageFailure(Stage::AssembleLink));
}

#[test]
fn removal_failure_is_a_filesystem_error() {
    let mut p = Pipeline::new("prog.c".to_string(), PipelineMode::Full);
    p.on_stage_exit(true);
    p.on_stage_exit(true);
    assert_eq!(expect_remove(&p), "prog.i");
    p.on_removed(false);
    assert_eq!(expect_fail(&p), PipelineError::Filesystem);
}

#[test]
fn artifacts_stay_in_the_input_directory() {
    let p = Pipeline::new("dir.v2/prog.c".to_string(), PipelineMode::Full);
    let (_, input, output) = expect_invoke(&p);
    assert_eq!(input, "dir.v2/prog.c");
    assert_eq!(output, "dir.v2/prog.i");
}

#[test]
fn input_without_extension_still_derives_artifacts() {
    let p = Pipeline::new("prog".to_string(), PipelineMode::Full);
    let (_, input, output) = expect_invoke(&p);
    assert_eq!(input, "prog");
    assert_eq!(output, "prog.i");
}

#[test]
fn error_descriptions_name_the_failure() {
    assert_eq!(
        PipelineError::StageFailure(Stage::Preprocess).describe(),
        "Failed to preprocess file"
    );
    assert_eq!(PipelineError::StageFailure(Stage::Compile).describe(), "Failed to compile file");
    assert_eq!(
        PipelineError::StageFailure(Stage::AssembleLink).describe(),
        "Failed to assemble file"
    );
    assert_eq!(PipelineError::Config.describe(), "Conflicting compiler mode options");
    assert_eq!(PipelineError::Filesystem.describe(), "Failed to remove intermediate file");
}
