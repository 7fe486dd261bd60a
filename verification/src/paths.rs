//! Path resolver: joins a workspace root with relative names and derives the
//! prover's artifact paths from a data directory and a program name.

use vstd::prelude::*;

verus! {

/// `root`, a slash, then `name`.
pub open spec fn joined(root: Seq<char>, name: Seq<char>) -> Seq<char> {
    root + "/"@ + name
}

/// The proof file the prover writes: `{data_dir}/{program}_proof.json`.
pub open spec fn proof_file(data_dir: Seq<char>, program: Seq<char>) -> Seq<char> {
    joined(data_dir, program + "_proof.json"@)
}

/// `{data_dir}/{program}_private_input.json`.
pub open spec fn private_input_file(data_dir: Seq<char>, program: Seq<char>) -> Seq<char> {
    joined(data_dir, program + "_private_input.json"@)
}

/// `{data_dir}/{program}_public_input.json`.
pub open spec fn public_input_file(data_dir: Seq<char>, program: Seq<char>) -> Seq<char> {
    joined(data_dir, program + "_public_input.json"@)
}

/// `{data_dir}/cpu_air_prover_config.json`.
pub open spec fn prover_config_file(data_dir: Seq<char>) -> Seq<char> {
    joined(data_dir, "cpu_air_prover_config.json"@)
}

/// `{data_dir}/cpu_air_params.json`.
pub open spec fn parameter_file(data_dir: Seq<char>) -> Seq<char> {
    joined(data_dir, "cpu_air_params.json"@)
}

/// The five paths the prover is pointed at.
#[derive(Debug, Clone, PartialEq, Eq)]
pub struct ProverPaths {
    pub out_file: String,
    pub private_input_file: String,
    pub public_input_file: String,
    pub prover_config_file: String,
    pub parameter_file: String,
}

/// Joins `root` and `name` with a single slash. Total: every pair of strings
/// has a joined path, an empty `name` included.
pub fn resolve(root: &str, name: &str) -> (path: String)
    ensures
        path@ == joined(root@, name@),
{
    let mut path = String::from_str(root);
    path.append("/");
    path.append(name);
    path
}

/// `prefix`, `stem`, then `suffix`, in one string.
fn concat3(prefix: &str, stem: &str, suffix: &str) -> (text: String)
    ensures
        text@ == prefix@ + stem@ + suffix@,
{
    let mut text = String::from_str(prefix);
    text.append(stem);
    text.append(suffix);
    text
}

/// Resolves `{program_name}{suffix}` inside `data_dir`.
fn program_file(data_dir: &str, program_name: &str, suffix: &str) -> (path: String)
    ensures
        path@ == joined(data_dir@, program_name@ + suffix@),
{
    let name = concat3("", program_name, suffix);
    proof {
        reveal_strlit("");
        assert(""@ + program_name@ =~= program_name@);
    }
    resolve(data_dir, name.as_str())
}

/// Derives the prover's five paths from its data directory and program name.
pub fn prover_paths(data_dir: &str, program_name: &str) -> (paths: ProverPaths)
    ensures
        paths.out_file@ == proof_file(data_dir@, program_name@),
        paths.private_input_file@ == private_input_file(data_dir@, program_name@),
        paths.public_input_file@ == public_input_file(data_dir@, program_name@),
        paths.prover_config_file@ == prover_config_file(data_dir@),
        paths.parameter_file@ == parameter_file(data_dir@),
{
    ProverPaths {
        out_file: program_file(data_dir, program_name, "_proof.json"),
        private_input_file: program_file(data_dir, program_name, "_private_input.json"),
        public_input_file: program_file(data_dir, program_name, "_public_input.json"),
        prover_config_file: resolve(data_dir, "cpu_air_prover_config.json"),
        parameter_file: resolve(data_dir, "cpu_air_params.json"),
    }
}

} // verus!
