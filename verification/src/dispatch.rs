//! Entry dispatcher: choosing between standalone and task-driven mode.

use vstd::prelude::*;
use crate::error::{ConfigFault, ErrorView, NodeError};
use crate::request::{ExecutionRequest, RequestView};

verus! {

/// The prover's standalone parameters, each present or absent.
#[derive(Debug, Clone, PartialEq, Eq)]
pub struct ProverArgs {
    pub prover_path: Option<String>,
    pub data_dir: Option<String>,
    pub program_name: Option<String>,
}

/// The verifier's standalone parameters, each present or absent.
#[derive(Debug, Clone, PartialEq, Eq)]
pub struct VerifierArgs {
    pub verifier_path: Option<String>,
    pub in_file: Option<String>,
}

/// How one invocation of the node runs.
#[derive(Debug, Clone, PartialEq, Eq)]
pub enum ExecutionMode {
    /// Run the given request directly.
    Standalone(ExecutionRequest),
    /// Take a task from the orchestrator.
    TaskDriven,
}

/// Mathematical reading of an [`ExecutionMode`].
pub enum ModeView {
    Standalone(RequestView),
    TaskDriven,
}

impl View for ExecutionMode {
    type V = ModeView;

    open spec fn view(&self) -> ModeView {
        match *self {
            ExecutionMode::Standalone(request) => ModeView::Standalone(request@),
            ExecutionMode::TaskDriven => ModeView::TaskDriven,
        }
    }
}

/// Mathematical reading of an optional string.
pub open spec fn optional_text(value: Option<String>) -> Option<Seq<char>> {
    match value {
        Some(text) => Some(text@),
        None => None,
    }
}

/// Mathematical reading of the outcome of a mode selection.
pub open spec fn mode_result_view(result: Result<ExecutionMode, NodeError>) -> Result<
    ModeView,
    ErrorView,
> {
    match result {
        Ok(mode) => Ok(mode@),
        Err(error) => Err(error@),
    }
}

/// The error for parameters that are neither all present nor all absent.
pub open spec fn partial_parameters() -> ErrorView {
    ErrorView::ConfigurationError(ConfigFault::PartialParameters)
}

/// The prover's mode: task-driven when no parameter is given, standalone
/// when all three are, a configuration error otherwise.
pub open spec fn prover_mode(
    prover_path: Option<Seq<char>>,
    data_dir: Option<Seq<char>>,
    program_name: Option<Seq<char>>,
) -> Result<ModeView, ErrorView> {
    match (prover_path, data_dir, program_name) {
        (None, None, None) => Ok(ModeView::TaskDriven),
        (Some(prover_path), Some(data_dir), Some(program_name)) => Ok(
            ModeView::Standalone(RequestView::Prover { prover_path, data_dir, program_name }),
        ),
        _ => Err(partial_parameters()),
    }
}

/// The verifier's mode: task-driven when no parameter is given, standalone
/// when both are, a configuration error otherwise.
pub open spec fn verifier_mode(
    verifier_path: Option<Seq<char>>,
    in_file: Option<Seq<char>>,
) -> Result<ModeView, ErrorView> {
    match (verifier_path, in_file) {
        (None, None) => Ok(ModeView::TaskDriven),
        (Some(verifier_path), Some(in_file)) => Ok(
            ModeView::Standalone(RequestView::Verifier { verifier_path, in_file }),
        ),
        _ => Err(partial_parameters()),
    }
}

/// Selects the prover's mode from its standalone parameters.
pub fn select_prover_mode(args: ProverArgs) -> (result: Result<ExecutionMode, NodeError>)
    ensures
        mode_result_view(result) == prover_mode(
            optional_text(args.prover_path),
            optional_text(args.data_dir),
            optional_text(args.program_name),
        ),
{
    match (args.prover_path, args.data_dir, args.program_name) {
        (None, None, None) => Ok(ExecutionMode::TaskDriven),
        (Some(prover_path), Some(data_dir), Some(program_name)) => Ok(
            ExecutionMode::Standalone(
                ExecutionRequest::Prover { prover_path, data_dir, program_name },
            ),
        ),
        _ => Err(NodeError::ConfigurationError(ConfigFault::PartialParameters)),
    }
}

/// Selects the verifier's mode from its standalone parameters.
pub fn select_verifier_mode(args: VerifierArgs) -> (result: Result<ExecutionMode, NodeError>)
    ensures
        mode_result_view(result) == verifier_mode(
            optional_text(args.verifier_path),
            optional_text(args.in_file),
        ),
{
    match (args.verifier_path, args.in_file) {
        (None, None) => Ok(ExecutionMode::TaskDriven),
        (Some(verifier_path), Some(in_file)) => Ok(
            ExecutionMode::Standalone(ExecutionRequest::Verifier { verifier_path, in_file }),
        ),
        _ => Err(NodeError::ConfigurationError(ConfigFault::PartialParameters)),
    }
}

} // verus!
