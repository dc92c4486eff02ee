use whiskey::artifact::Artifact;
use whiskey::diag::{Diagnostic, Severity, Stage, StageReport};
use whiskey::pipeline::{compile, Phase, PipelineRun};

fn diag(stage: Stage, message: &str) -> Diagnostic {
    Diagnostic { stage, severity: Severity::Error, message: String::from(message), offset: None }
}

fn artifact() -> Artifact {
    Artifact::from_bytes(vec![0x00, 0x61, 0x73, 0x6d])
}

#[test]
fn clean_run_hands_back_the_artifact() {
    let reports = vec![
        StageReport::Success,
        StageReport::Success,
        StageReport::Success,
        StageReport::Success,
    ];
    match compile(reports, Some(artifact())) {
        Ok(a) => assert_eq!(a.to_binary(), vec![0x00, 0x61, 0x73, 0x6d]),
        Err(_) => panic!("a clean run must hand back the artifact"),
    }
}

#[test]
fn fatal_preprocess_rejects_with_its_diagnostics() {
    let reports = vec![StageReport::Fatal(vec![diag(Stage::Preprocess, "bad token")])];
    match compile(reports, None) {
        Ok(_) => panic!("a fatal preprocessing report must yield failure"),
        Err(diags) => {
            assert_eq!(diags.len(), 1);
            assert_eq!(diags[0].stage, Stage::Preprocess);
            assert_eq!(diags[0].message, "bad token");
        },
    }
}

#[test]
fn fatal_parse_keeps_emission_order() {
    let reports = vec![
        StageReport::Recoverable(vec![diag(Stage::Preprocess, "odd directive")]),
        StageReport::Fatal(vec![diag(Stage::Parse, "unexpected brace")]),
    ];
    match compile(reports, None) {
        Ok(_) => panic!("a fatal parse report must yield failure"),
        Err(diags) => {
            assert_eq!(diags.len(), 2);
            assert_eq!(diags[0].stage, Stage::Preprocess);
            assert_eq!(diags[1].stage, Stage::Parse);
        },
    }
}

#[test]
fn check_diagnostics_withhold_the_artifact() {
    // Checking found an issue; generation still ran and produced bytes, but
    // the artifact must be withheld.
    let reports = vec![
        StageReport::Success,
        StageReport::Success,
        StageReport::Recoverable(vec![diag(Stage::Check, "type mismatch")]),
        StageReport::Success,
    ];
    match compile(reports, Some(artifact())) {
        Ok(_) => panic!("an unclean run must never hand back an artifact"),
        Err(diags) => {
            assert_eq!(diags.len(), 1);
            assert_eq!(diags[0].stage, Stage::Check);
        },
    }
}

#[test]
fn unresolved_identifier_gives_one_check_diagnostic() {
    // A source with one unresolvable identifier: checking reports exactly
    // one diagnostic, generation still runs, the verdict is failure.
    let reports = vec![
        StageReport::Success,
        StageReport::Success,
        StageReport::Recoverable(vec![diag(Stage::Check, "unresolved identifier")]),
        StageReport::Success,
    ];
    match compile(reports, Some(artifact())) {
        Ok(_) => panic!("the run was not clean"),
        Err(diags) => {
            assert_eq!(diags.len(), 1);
            assert_eq!(diags[0].stage, Stage::Check);
            assert_eq!(diags[0].severity, Severity::Error);
        },
    }
}

#[test]
fn generation_diagnostics_follow_check_diagnostics() {
    let reports = vec![
        StageReport::Success,
        StageReport::Success,
        StageReport::Recoverable(vec![diag(Stage::Check, "first")]),
        StageReport::Recoverable(vec![diag(Stage::Generate, "second")]),
    ];
    match compile(reports, None) {
        Ok(_) => panic!("an unclean run must yield failure"),
        Err(diags) => {
            assert_eq!(diags.len(), 2);
            assert_eq!(diags[0].message, "first");
            assert_eq!(diags[1].message, "second");
        },
    }
}

#[test]
fn missing_artifact_means_failure_even_when_quiet() {
    let reports = vec![
        StageReport::Success,
        StageReport::Success,
        StageReport::Success,
        StageReport::Success,
    ];
    match compile(reports, None) {
        Ok(_) => panic!("no artifact exists to hand back"),
        Err(diags) => assert_eq!(diags.len(), 0),
    }
}

#[test]
fn empty_transcript_is_failure() {
    match compile(Vec::new(), None) {
        Ok(_) => panic!("an unfinished run must not succeed"),
        Err(diags) => assert_eq!(diags.len(), 0),
    }
}

#[test]
fn driver_walks_the_stages_in_fixed_order() {
    let mut run = PipelineRun::new();
    assert_eq!(run.phase, Phase::Running(Stage::Preprocess));
    run.advance(StageReport::Success);
    assert_eq!(run.phase, Phase::Running(Stage::Parse));
    run.advance(StageReport::Success);
    assert_eq!(run.phase, Phase::Running(Stage::Check));
    run.advance(StageReport::Success);
    assert_eq!(run.phase, Phase::Running(Stage::Generate));
    run.advance(StageReport::Success);
    assert_eq!(run.phase, Phase::Done);
    assert!(!run.halted);
}

#[test]
fn recoverable_check_still_schedules_generation() {
    let mut run = PipelineRun::new();
    run.advance(StageReport::Success);
    run.advance(StageReport::Success);
    run.advance(StageReport::Recoverable(vec![diag(Stage::Check, "warning-grade issue")]));
    assert_eq!(run.phase, Phase::Running(Stage::Generate));
    assert!(!run.halted);
}

#[test]
fn fatal_report_halts_the_run() {
    let mut run = PipelineRun::new();
    run.advance(StageReport::Fatal(vec![diag(Stage::Preprocess, "cannot lex")]));
    assert_eq!(run.phase, Phase::Done);
    assert!(run.halted);
    match run.conclude(None) {
        Ok(_) => panic!("a halted run must not succeed"),
        Err(diags) => assert_eq!(diags.len(), 1),
    }
}
