use stone_node::error::{ConfigFault, NodeError};
use stone_node::request::{arguments_needed, request_from_task, ExecutionRequest, Task, Tool};

fn task(args: &[&str]) -> Task {
    Task { args: args.iter().map(|a| a.to_string()).collect() }
}

#[test]
fn prover_task_resolves_executable_and_data_dir() {
    let request = request_from_task("/workspace", Tool::Prover, &task(&["", "prover", "data", "fib"]));
    assert_eq!(
        request,
        Ok(ExecutionRequest::Prover {
            prover_path: "/workspace/prover".to_string(),
            data_dir: "/workspace/data".to_string(),
            program_name: "fib".to_string(),
        })
    );
}

#[test]
fn verifier_task_resolves_executable_and_in_file() {
    let request =
        request_from_task("/workspace", Tool::Verifier, &task(&["x", "verifier", "data/fib_proof.json"]));
    assert_eq!(
        request,
        Ok(ExecutionRequest::Verifier {
            verifier_path: "/workspace/verifier".to_string(),
            in_file: "/workspace/data/fib_proof.json".to_string(),
        })
    );
}

#[test]
fn arguments_beyond_the_schema_are_ignored() {
    let request = request_from_task("/w", Tool::Verifier, &task(&["", "v", "f", "extra", "more"]));
    assert_eq!(
        request,
        Ok(ExecutionRequest::Verifier { verifier_path: "/w/v".to_string(), in_file: "/w/f".to_string() })
    );
}

#[test]
fn short_prover_task_is_a_configuration_error() {
    for supplied in 0..4usize {
        let args: Vec<&str> = ["", "prover", "data", "fib"][..supplied].to_vec();
        assert_eq!(
            request_from_task("/workspace", Tool::Prover, &task(&args)),
            Err(NodeError::ConfigurationError(ConfigFault::MissingArguments { required: 4, supplied }))
        );
    }
}

#[test]
fn short_verifier_task_is_a_configuration_error() {
    for supplied in 0..3usize {
        let args: Vec<&str> = ["", "verifier", "proof.json"][..supplied].to_vec();
        assert_eq!(
            request_from_task("/workspace", Tool::Verifier, &task(&args)),
            Err(NodeError::ConfigurationError(ConfigFault::MissingArguments { required: 3, supplied }))
        );
    }
}

#[test]
fn each_tool_reads_its_own_number_of_arguments() {
    assert_eq!(arguments_needed(Tool::Prover), 4);
    assert_eq!(arguments_needed(Tool::Verifier), 3);
}
