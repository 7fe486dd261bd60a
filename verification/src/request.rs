//! Execution requests and their extraction from a task's positional arguments.

use vstd::prelude::*;
use crate::error::{ConfigFault, ErrorView, NodeError};
use crate::paths::{joined, resolve};
use crate::text::texts;

verus! {

/// The two tools a node can wrap.
#[derive(Debug, Clone, Copy, PartialEq, Eq)]
pub enum Tool {
    Prover,
    Verifier,
}

/// The resolved configuration of one run, fixed before the process starts.
#[derive(Debug, Clone, PartialEq, Eq)]
pub enum ExecutionRequest {
    Prover { prover_path: String, data_dir: String, program_name: String },
    Verifier { verifier_path: String, in_file: String },
}

/// Mathematical reading of an [`ExecutionRequest`].
pub enum RequestView {
    Prover { prover_path: Seq<char>, data_dir: Seq<char>, program_name: Seq<char> },
    Verifier { verifier_path: Seq<char>, in_file: Seq<char> },
}

impl View for ExecutionRequest {
    type V = RequestView;

    open spec fn view(&self) -> RequestView {
        match *self {
            ExecutionRequest::Prover { prover_path, data_dir, program_name } => RequestView::Prover {
                prover_path: prover_path@,
                data_dir: data_dir@,
                program_name: program_name@,
            },
            ExecutionRequest::Verifier { verifier_path, in_file } => RequestView::Verifier {
                verifier_path: verifier_path@,
                in_file: in_file@,
            },
        }
    }
}

impl ExecutionRequest {
    /// The tool this request is for.
    pub fn tool(&self) -> (tool: Tool)
        ensures
            tool == tool_of(self@),
    {
        match self {
            ExecutionRequest::Prover { .. } => Tool::Prover,
            ExecutionRequest::Verifier { .. } => Tool::Verifier,
        }
    }
}

/// The tool a request is for.
pub open spec fn tool_of(request: RequestView) -> Tool {
    match request {
        RequestView::Prover { .. } => Tool::Prover,
        RequestView::Verifier { .. } => Tool::Verifier,
    }
}

/// A unit of work from the orchestrator: positional string arguments.
/// Argument 0 is unused, argument 1 names the executable, the rest are the
/// tool's own.
#[derive(Debug, Clone, PartialEq, Eq)]
pub struct Task {
    pub args: Vec<String>,
}

impl View for Task {
    type V = Seq<Seq<char>>;

    open spec fn view(&self) -> Seq<Seq<char>> {
        texts(self.args@)
    }
}

/// How many positional arguments a tool reads from a task, the unused
/// argument 0 included.
pub open spec fn required_args(tool: Tool) -> nat {
    match tool {
        Tool::Prover => 4,
        Tool::Verifier => 3,
    }
}

/// The request a task stands for under `root`, or the configuration error
/// for a task that is too short. The executable and the tool's input
/// location are resolved under `root`; the prover's program name is a bare
/// name and is kept as given.
pub open spec fn task_request(root: Seq<char>, tool: Tool, args: Seq<Seq<char>>) -> Result<
    RequestView,
    ErrorView,
> {
    if args.len() < required_args(tool) {
        Err(
            ErrorView::ConfigurationError(
                ConfigFault::MissingArguments {
                    required: required_args(tool) as usize,
                    supplied: args.len() as usize,
                },
            ),
        )
    } else {
        match tool {
            Tool::Prover => Ok(
                RequestView::Prover {
                    prover_path: joined(root, args[1]),
                    data_dir: joined(root, args[2]),
                    program_name: args[3],
                },
            ),
            Tool::Verifier => Ok(
                RequestView::Verifier {
                    verifier_path: joined(root, args[1]),
                    in_file: joined(root, args[2]),
                },
            ),
        }
    }
}

/// Mathematical reading of the outcome of an extraction.
pub open spec fn request_result_view(result: Result<ExecutionRequest, NodeError>) -> Result<
    RequestView,
    ErrorView,
> {
    match result {
        Ok(request) => Ok(request@),
        Err(error) => Err(error@),
    }
}

/// The number of arguments `tool` reads from a task.
pub fn arguments_needed(tool: Tool) -> (count: usize)
    ensures
        count == required_args(tool),
{
    match tool {
        Tool::Prover => 4,
        Tool::Verifier => 3,
    }
}

/// Extracts the request that `task` stands for, resolving paths under `root`.
/// A task with too few arguments is a configuration error; no index that the
/// task lacks is ever read.
pub fn request_from_task(root: &str, tool: Tool, task: &Task) -> (result: Result<
    ExecutionRequest,
    NodeError,
>)
    ensures
        request_result_view(result) == task_request(root@, tool, task@),
{
    let needed: usize = arguments_needed(tool);
    let supplied: usize = task.args.len();
    if supplied < needed {
        return Err(
            NodeError::ConfigurationError(
                ConfigFault::MissingArguments { required: needed, supplied },
            ),
        );
    }
    let executable = resolve(root, task.args[1].as_str());
    let location = resolve(root, task.args[2].as_str());
    match tool {
        Tool::Prover => Ok(
            ExecutionRequest::Prover {
                prover_path: executable,
                data_dir: location,
                program_name: task.args[3].clone(),
            },
        ),
        Tool::Verifier => Ok(
            ExecutionRequest::Verifier { verifier_path: executable, in_file: location },
        ),
    }
}

} // verus!
