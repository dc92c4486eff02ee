use whiskey::artifact::Artifact;
use whiskey::host::{execute, invoke_outcome, ExecutionIdentity, ExecutionOutcome, InvokeResult, SetupFault};

/// A minimal well-formed module: one exported no-op function named
/// "_start" and no linear memory, so the host's wiring phase binds nothing.
fn runnable_module() -> Vec<u8> {
    vec![
        0x00, 0x61, 0x73, 0x6d, 0x01, 0x00, 0x00, 0x00, // header: magic, version
        0x01, 0x04, 0x01, 0x60, 0x00, 0x00, // type section: () -> ()
        0x03, 0x02, 0x01, 0x00, // function section: one function of type 0
        0x07, 0x0a, 0x01, // export section: one export
        0x06, b'_', b's', b't', b'a', b'r', b't', 0x00, 0x00, // "_start" -> func 0
        0x0a, 0x04, 0x01, 0x02, 0x00, 0x0b, // code section: empty body
    ]
}

/// Like `runnable_module`, but the entry point hits unreachable code.
fn trapping_module() -> Vec<u8> {
    vec![
        0x00, 0x61, 0x73, 0x6d, 0x01, 0x00, 0x00, 0x00, //
        0x01, 0x04, 0x01, 0x60, 0x00, 0x00, //
        0x03, 0x02, 0x01, 0x00, //
        0x07, 0x0a, 0x01, //
        0x06, b'_', b's', b't', b'a', b'r', b't', 0x00, 0x00, //
        0x0a, 0x05, 0x01, 0x03, 0x00, 0x00, 0x0b, // body: unreachable
    ]
}

/// A well-formed module that exports nothing, in particular no entry point.
fn startless_module() -> Vec<u8> {
    vec![
        0x00, 0x61, 0x73, 0x6d, 0x01, 0x00, 0x00, 0x00, //
        0x01, 0x04, 0x01, 0x60, 0x00, 0x00, //
        0x03, 0x02, 0x01, 0x00, //
        0x0a, 0x04, 0x01, 0x02, 0x00, 0x0b, //
    ]
}

/// A well-formed module that imports a function nobody provides.
fn importing_module() -> Vec<u8> {
    vec![
        0x00, 0x61, 0x73, 0x6d, 0x01, 0x00, 0x00, 0x00, //
        0x01, 0x04, 0x01, 0x60, 0x00, 0x00, //
        0x02, 0x09, 0x01, // import section: one import
        0x03, b'e', b'n', b'v', 0x01, b'f', 0x00, 0x00, // "env"."f": func of type 0
    ]
}

#[test]
fn execute_runs_entry_to_exit_zero() {
    let artifact = Artifact::from_bytes(runnable_module());
    match execute(&artifact) {
        ExecutionOutcome::Exited(code) => assert_eq!(code, 0),
        other => panic!("expected a normal exit, got {:?}", other),
    }
}

#[test]
fn concurrent_style_runs_are_independent() {
    // Two runs of the same artifact get their own identity, store, context
    // and memory; each reports its own outcome.
    let artifact = Artifact::from_bytes(runnable_module());
    let first = execute(&artifact);
    let second = execute(&artifact);
    assert!(matches!(first, ExecutionOutcome::Exited(0)));
    assert!(matches!(second, ExecutionOutcome::Exited(0)));
}

#[test]
fn garbage_bytes_fail_setup_as_invalid_artifact() {
    let artifact = Artifact::from_bytes(vec![0xde, 0xad, 0xbe, 0xef]);
    match execute(&artifact) {
        ExecutionOutcome::SetupFailed(fault, _) => {
            assert_eq!(fault, SetupFault::InvalidArtifact)
        },
        other => panic!("expected a setup failure, got {:?}", other),
    }
}

#[test]
fn truncated_module_fails_setup_as_invalid_artifact() {
    let mut bytes = runnable_module();
    bytes.truncate(10);
    let artifact = Artifact::from_bytes(bytes);
    match execute(&artifact) {
        ExecutionOutcome::SetupFailed(fault, _) => {
            assert_eq!(fault, SetupFault::InvalidArtifact)
        },
        other => panic!("expected a setup failure, got {:?}", other),
    }
}

#[test]
fn unsatisfied_import_fails_instantiation() {
    let artifact = Artifact::from_bytes(importing_module());
    match execute(&artifact) {
        ExecutionOutcome::SetupFailed(fault, _) => {
            assert_eq!(fault, SetupFault::Instantiation)
        },
        other => panic!("expected a setup failure, got {:?}", other),
    }
}

#[test]
fn module_without_entry_point_fails_lookup() {
    let artifact = Artifact::from_bytes(startless_module());
    match execute(&artifact) {
        ExecutionOutcome::SetupFailed(fault, _) => {
            assert_eq!(fault, SetupFault::MissingEntryPoint)
        },
        other => panic!("expected a setup failure, got {:?}", other),
    }
}

#[test]
fn trapping_entry_reports_a_trap() {
    let artifact = Artifact::from_bytes(trapping_module());
    match execute(&artifact) {
        ExecutionOutcome::Trapped(message) => {
            assert!(!message.is_empty());
        },
        other => panic!("expected a trap, got {:?}", other),
    }
}

#[test]
fn invoke_outcome_maps_completion_to_exit_zero() {
    assert!(matches!(
        invoke_outcome(InvokeResult::Completed),
        ExecutionOutcome::Exited(0)
    ));
}

#[test]
fn invoke_outcome_keeps_requested_exit_code() {
    assert!(matches!(
        invoke_outcome(InvokeResult::Exit(7)),
        ExecutionOutcome::Exited(7)
    ));
}

#[test]
fn invoke_outcome_maps_fault_to_trap() {
    match invoke_outcome(InvokeResult::Fault(String::from("out of bounds"))) {
        ExecutionOutcome::Trapped(message) => assert_eq!(message, "out of bounds"),
        other => panic!("expected a trap, got {:?}", other),
    }
}

#[test]
fn fresh_identity_tokens_have_the_hyphenated_form() {
    let one = ExecutionIdentity::fresh();
    let another = ExecutionIdentity::fresh();
    assert_eq!(one.token.len(), 36);
    assert_eq!(another.token.len(), 36);
}
