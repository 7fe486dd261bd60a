use stone_node::command::{build_command, CommandSpec};
use stone_node::request::{ExecutionRequest, Tool};

fn prover(path: &str, dir: &str, program: &str) -> ExecutionRequest {
    ExecutionRequest::Prover {
        prover_path: path.to_string(),
        data_dir: dir.to_string(),
        program_name: program.to_string(),
    }
}

#[test]
fn prover_command_has_five_flags_in_fixed_order() {
    let command = build_command(&prover("/workspace/cpu_air_prover", "/workspace/data", "fib"));
    assert_eq!(
        command,
        CommandSpec {
            program: "/workspace/cpu_air_prover".to_string(),
            args: vec![
                "--out-file=/workspace/data/fib_proof.json".to_string(),
                "--private_input_file=/workspace/data/fib_private_input.json".to_string(),
                "--public_input_file=/workspace/data/fib_public_input.json".to_string(),
                "--prover_config_file=/workspace/data/cpu_air_prover_config.json".to_string(),
                "--parameter_file=/workspace/data/cpu_air_params.json".to_string(),
            ],
        }
    );
}

#[test]
fn verifier_command_has_the_single_in_file_flag() {
    let request = ExecutionRequest::Verifier {
        verifier_path: "/workspace/cpu_air_verifier".to_string(),
        in_file: "/data/fib_proof.json".to_string(),
    };
    let command = build_command(&request);
    assert_eq!(command.program, "/workspace/cpu_air_verifier");
    assert_eq!(command.args, vec!["--in-file=/data/fib_proof.json".to_string()]);
}

#[test]
fn command_leaves_the_request_untouched() {
    let request = prover("p", "d", "n");
    let copy = request.clone();
    let _ = build_command(&request);
    assert_eq!(request, copy);
}

#[test]
fn command_is_built_without_validation() {
    let command = build_command(&prover("", "", ""));
    assert_eq!(command.program, "");
    assert_eq!(
        command.args,
        vec![
            "--out-file=/_proof.json".to_string(),
            "--private_input_file=/_private_input.json".to_string(),
            "--public_input_file=/_public_input.json".to_string(),
            "--prover_config_file=/cpu_air_prover_config.json".to_string(),
            "--parameter_file=/cpu_air_params.json".to_string(),
        ]
    );
}

#[test]
fn request_reports_its_tool() {
    assert_eq!(prover("p", "d", "n").tool(), Tool::Prover);
    let request = ExecutionRequest::Verifier { verifier_path: "v".to_string(), in_file: "f".to_string() };
    assert_eq!(request.tool(), Tool::Verifier);
}

#[test]
fn every_task_path_lies_under_the_root() {
    let task = stone_node::request::Task {
        args: vec!["".to_string(), "bin/prover".to_string(), "in".to_string(), "fib".to_string()],
    };
    let request = stone_node::request::request_from_task("/ws", Tool::Prover, &task).unwrap();
    let command = build_command(&request);
    assert!(command.program.starts_with("/ws/"));
    let flags = [
        "--out-file=",
        "--private_input_file=",
        "--public_input_file=",
        "--prover_config_file=",
        "--parameter_file=",
    ];
    assert_eq!(command.args.len(), flags.len());
    for (argument, flag) in command.args.iter().zip(flags) {
        assert!(argument.starts_with(flag));
        assert!(argument[flag.len()..].starts_with("/ws/"));
    }
}
