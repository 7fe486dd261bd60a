use stone_node::error::NodeError;
use stone_node::outcome::ProcessOutcome;
use stone_node::report::{report, TaskResult};
use stone_node::request::ExecutionRequest;

fn outcome(code: Option<i32>, stdout: &[u8], stderr: &[u8]) -> ProcessOutcome {
    ProcessOutcome { code, stdout: stdout.to_vec(), stderr: stderr.to_vec() }
}

#[test]
fn only_exit_code_zero_is_success() {
    assert!(outcome(Some(0), b"", b"").success());
    assert!(outcome(Some(0), b"out", b"warnings").success());
    assert!(!outcome(Some(1), b"", b"").success());
    assert!(!outcome(Some(-1), b"", b"").success());
    assert!(!outcome(Some(i32::MAX), b"", b"").success());
    assert!(!outcome(Some(i32::MIN), b"", b"").success());
    assert!(!outcome(None, b"", b"").success());
}

#[test]
fn diagnostics_are_stdout_then_stderr() {
    assert_eq!(outcome(Some(1), b"out", b"err").diagnostics(), b"outerr".to_vec());
    assert_eq!(outcome(Some(1), b"", b"bad input").diagnostics(), b"bad input".to_vec());
    assert_eq!(outcome(None, b"only out", b"").diagnostics(), b"only out".to_vec());
    assert_eq!(outcome(Some(2), b"", b"").diagnostics(), Vec::<u8>::new());
}

#[test]
fn classify_accepts_a_clean_exit() {
    assert_eq!(outcome(Some(0), b"proof written", b"").classify(), Ok(()));
}

#[test]
fn classify_keeps_code_and_streams_of_a_failure() {
    assert_eq!(
        outcome(Some(1), b"partial", b"bad input").classify(),
        Err(NodeError::ExecutionFailure {
            code: Some(1),
            stdout: b"partial".to_vec(),
            stderr: b"bad input".to_vec(),
        })
    );
}

#[test]
fn classify_treats_abnormal_termination_as_failure() {
    assert_eq!(
        outcome(None, b"", b"killed").classify(),
        Err(NodeError::ExecutionFailure { code: None, stdout: vec![], stderr: b"killed".to_vec() })
    );
}

#[test]
fn exit_code_is_read_from_an_execution_failure_only() {
    let failure = NodeError::ExecutionFailure { code: Some(7), stdout: vec![], stderr: vec![] };
    assert_eq!(failure.exit_code(), Some(7));
    let killed = NodeError::ExecutionFailure { code: None, stdout: vec![], stderr: vec![] };
    assert_eq!(killed.exit_code(), None);
    assert_eq!(NodeError::SpawnError("not found".to_string()).exit_code(), None);
}

#[test]
fn prover_report_names_the_proof_file_only() {
    let request = ExecutionRequest::Prover {
        prover_path: "/workspace/prover".to_string(),
        data_dir: "/workspace/data".to_string(),
        program_name: "fib".to_string(),
    };
    assert_eq!(
        report(&request),
        TaskResult { inputs: vec![], outputs: vec!["/workspace/data/fib_proof.json".to_string()] }
    );
}

#[test]
fn verifier_report_is_empty() {
    let request = ExecutionRequest::Verifier {
        verifier_path: "/workspace/verifier".to_string(),
        in_file: "/workspace/data/fib_proof.json".to_string(),
    };
    assert_eq!(report(&request), TaskResult { inputs: vec![], outputs: vec![] });
}
