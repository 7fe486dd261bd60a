//! Command builder: the executable and its ordered `flag=value` arguments.

use vstd::prelude::*;
use crate::paths::{
    parameter_file,
    private_input_file,
    proof_file,
    prover_config_file,
    prover_paths,
    public_input_file,
};
use crate::request::{ExecutionRequest, RequestView, Tool};
use crate::text::{lemma_texts_empty, lemma_texts_push, texts};

verus! {

/// An executable path and the arguments it is started with.
#[derive(Debug, Clone, PartialEq, Eq)]
pub struct CommandSpec {
    pub program: String,
    pub args: Vec<String>,
}

/// Mathematical reading of a [`CommandSpec`].
pub struct CommandView {
    pub program: Seq<char>,
    pub args: Seq<Seq<char>>,
}

impl View for CommandSpec {
    type V = CommandView;

    open spec fn view(&self) -> CommandView {
        CommandView { program: self.program@, args: texts(self.args@) }
    }
}

/// The prover's five arguments, in the order the tool expects them.
pub open spec fn prover_arguments(data_dir: Seq<char>, program: Seq<char>) -> Seq<Seq<char>> {
    seq![
        "--out-file="@ + proof_file(data_dir, program),
        "--private_input_file="@ + private_input_file(data_dir, program),
        "--public_input_file="@ + public_input_file(data_dir, program),
        "--prover_config_file="@ + prover_config_file(data_dir),
        "--parameter_file="@ + parameter_file(data_dir),
    ]
}

/// The verifier's single argument.
pub open spec fn verifier_arguments(in_file: Seq<char>) -> Seq<Seq<char>> {
    seq!["--in-file="@ + in_file]
}

/// The flags of a tool's schema, in the order the tool expects them.
pub open spec fn tool_flags(tool: Tool) -> Seq<Seq<char>> {
    match tool {
        Tool::Prover => seq![
            "--out-file="@,
            "--private_input_file="@,
            "--public_input_file="@,
            "--prover_config_file="@,
            "--parameter_file="@,
        ],
        Tool::Verifier => seq!["--in-file="@],
    }
}

/// The command that carries out `request`.
pub open spec fn command_for(request: RequestView) -> CommandView {
    match request {
        RequestView::Prover { prover_path, data_dir, program_name } => CommandView {
            program: prover_path,
            args: prover_arguments(data_dir, program_name),
        },
        RequestView::Verifier { verifier_path, in_file } => CommandView {
            program: verifier_path,
            args: verifier_arguments(in_file),
        },
    }
}

/// `flag` immediately followed by `value`.
fn flag_value(flag: &str, value: &str) -> (argument: String)
    ensures
        argument@ == flag@ + value@,
{
    let mut argument = String::from_str(flag);
    argument.append(value);
    argument
}

/// Appends `flag=value` to `args`.
fn push_flag(args: &mut Vec<String>, flag: &str, value: &str)
    ensures
        texts(final(args)@) == texts(old(args)@).push(flag@ + value@),
{
    let argument = flag_value(flag, value);
    proof {
        lemma_texts_push(args@, argument);
    }
    args.push(argument);
}

/// Builds the command for `request`: the request's executable, and the
/// tool's flags in their fixed order, each followed by its resolved path.
pub fn build_command(request: &ExecutionRequest) -> (command: CommandSpec)
    ensures
        command@ == command_for(request@),
{
    let mut args: Vec<String> = Vec::new();
    proof {
        lemma_texts_empty();
    }
    match request {
        ExecutionRequest::Prover { prover_path, data_dir, program_name } => {
            let paths = prover_paths(data_dir.as_str(), program_name.as_str());
            push_flag(&mut args, "--out-file=", paths.out_file.as_str());
            push_flag(&mut args, "--private_input_file=", paths.private_input_file.as_str());
            push_flag(&mut args, "--public_input_file=", paths.public_input_file.as_str());
            push_flag(&mut args, "--prover_config_file=", paths.prover_config_file.as_str());
            push_flag(&mut args, "--parameter_file=", paths.parameter_file.as_str());
            proof {
                assert(texts(args@) =~= prover_arguments(data_dir@, program_name@));
            }
            CommandSpec { program: prover_path.clone(), args }
        },
        ExecutionRequest::Verifier { verifier_path, in_file } => {
            push_flag(&mut args, "--in-file=", in_file.as_str());
            proof {
                assert(texts(args@) =~= verifier_arguments(in_file@));
            }
            CommandSpec { program: verifier_path.clone(), args }
        },
    }
}

} // verus!
