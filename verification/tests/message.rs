use stone_node::error::{ConfigFault, NodeError};
use stone_node::message::{decimal_string, status_string};
use stone_node::report::{standalone_notice, TaskResult};

fn failure(code: Option<i32>) -> NodeError {
    NodeError::ExecutionFailure { code, stdout: b"out".to_vec(), stderr: b"err".to_vec() }
}

#[test]
fn decimal_string_writes_plain_numerals() {
    assert_eq!(decimal_string(0), "0");
    assert_eq!(decimal_string(7), "7");
    assert_eq!(decimal_string(10), "10");
    assert_eq!(decimal_string(1234567890), "1234567890");
    assert_eq!(decimal_string(u64::MAX), "18446744073709551615");
}

#[test]
fn decimal_string_agrees_with_the_standard_formatting() {
    for n in (0..3000u64).chain([9_999, 10_000, 99_999, 100_000, 4_294_967_295, 4_294_967_296]) {
        assert_eq!(decimal_string(n), format!("{n}"));
    }
}

#[test]
fn status_string_reads_like_an_optional_code() {
    assert_eq!(status_string(None), "None");
    assert_eq!(status_string(Some(0)), "Some(0)");
    assert_eq!(status_string(Some(1)), "Some(1)");
    assert_eq!(status_string(Some(-1)), "Some(-1)");
    assert_eq!(status_string(Some(101)), "Some(101)");
    assert_eq!(status_string(Some(i32::MAX)), "Some(2147483647)");
    assert_eq!(status_string(Some(i32::MIN)), "Some(-2147483648)");
}

#[test]
fn status_string_agrees_with_the_standard_formatting() {
    for code in [None, Some(0), Some(9), Some(10), Some(-10), Some(255), Some(-255), Some(65_536)] {
        assert_eq!(status_string(code), format!("{code:?}"));
    }
}

#[test]
fn execution_failure_message_names_the_status() {
    assert_eq!(failure(Some(1)).message(), "error, status: Some(1)");
    assert_eq!(failure(Some(139)).message(), "error, status: Some(139)");
    assert_eq!(failure(None).message(), "error, status: None");
}

#[test]
fn spawn_error_message_is_the_reason() {
    let error = NodeError::SpawnError("No such file or directory (os error 2)".to_string());
    assert_eq!(error.message(), "No such file or directory (os error 2)");
}

#[test]
fn configuration_error_messages() {
    assert_eq!(
        NodeError::ConfigurationError(ConfigFault::PartialParameters).message(),
        "configuration error: standalone parameters are only partially specified"
    );
    assert_eq!(
        NodeError::ConfigurationError(ConfigFault::MissingArguments { required: 4, supplied: 3 })
            .message(),
        "configuration error: task carries 3 of 4 arguments"
    );
    assert_eq!(
        NodeError::ConfigurationError(ConfigFault::MissingArguments { required: 3, supplied: 0 })
            .message(),
        "configuration error: task carries 0 of 3 arguments"
    );
}

#[test]
fn standalone_notice_announces_the_proof_file() {
    let result =
        TaskResult { inputs: vec![], outputs: vec!["/workspace/data/fib_proof.json".to_string()] };
    assert_eq!(
        standalone_notice(&result),
        Some("stone proof file: /workspace/data/fib_proof.json".to_string())
    );
}

#[test]
fn standalone_notice_is_silent_without_outputs() {
    let result = TaskResult { inputs: vec!["in".to_string()], outputs: vec![] };
    assert_eq!(standalone_notice(&result), None);
}
