use stone_node::paths::{prover_paths, resolve};

#[test]
fn resolve_joins_root_and_name_with_one_slash() {
    assert_eq!(resolve("/workspace", "data"), "/workspace/data");
    assert_eq!(resolve("/workspace", "bin/cpu_air_prover"), "/workspace/bin/cpu_air_prover");
}

#[test]
fn resolve_keeps_every_character_of_both_parts() {
    assert_eq!(resolve("/workspace", "/data"), "/workspace//data");
    assert_eq!(resolve("", "x"), "/x");
    assert_eq!(resolve("/ws/", "é π"), "/ws//é π");
}

#[test]
fn resolve_of_an_empty_name_is_the_root_and_a_slash() {
    assert_eq!(resolve("/workspace", ""), "/workspace/");
    assert_eq!(resolve("", ""), "/");
}

#[test]
fn prover_paths_follow_the_naming_convention() {
    let paths = prover_paths("/workspace/data", "fib");
    assert_eq!(paths.out_file, "/workspace/data/fib_proof.json");
    assert_eq!(paths.private_input_file, "/workspace/data/fib_private_input.json");
    assert_eq!(paths.public_input_file, "/workspace/data/fib_public_input.json");
    assert_eq!(paths.prover_config_file, "/workspace/data/cpu_air_prover_config.json");
    assert_eq!(paths.parameter_file, "/workspace/data/cpu_air_params.json");
}

#[test]
fn prover_paths_with_empty_program_name() {
    let paths = prover_paths("d", "");
    assert_eq!(paths.out_file, "d/_proof.json");
    assert_eq!(paths.private_input_file, "d/_private_input.json");
    assert_eq!(paths.public_input_file, "d/_public_input.json");
    assert_eq!(paths.prover_config_file, "d/cpu_air_prover_config.json");
    assert_eq!(paths.parameter_file, "d/cpu_air_params.json");
}

#[test]
fn out_file_is_data_dir_slash_program_proof_json() {
    for (dir, program) in [("/a", "p"), ("rel/dir", "fibonacci"), ("", "x"), ("/deep/er/dir", "a_b")] {
        let expected = format!("{dir}/{program}_proof.json");
        assert_eq!(prover_paths(dir, program).out_file, expected);
    }
}
