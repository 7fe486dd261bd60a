//! The classified errors a node invocation can end with.

use vstd::prelude::*;

verus! {

/// What was wrong with the configuration of an invocation.
#[derive(Debug, Clone, Copy, PartialEq, Eq)]
pub enum ConfigFault {
    /// Some, but not all, of the standalone parameters were supplied.
    PartialParameters,
    /// The task carried fewer arguments than the tool reads.
    MissingArguments { required: usize, supplied: usize },
}

/// A terminal failure of one invocation.
#[derive(Debug, Clone, PartialEq, Eq)]
pub enum NodeError {
    /// The invocation was misconfigured; nothing was spawned.
    ConfigurationError(ConfigFault),
    /// The executable could not be started; carries the reason as text.
    SpawnError(String),
    /// The executable ran and did not exit with status zero.
    ExecutionFailure { code: Option<i32>, stdout: Vec<u8>, stderr: Vec<u8> },
}

/// Mathematical reading of a [`NodeError`].
pub enum ErrorView {
    ConfigurationError(ConfigFault),
    SpawnError(Seq<char>),
    ExecutionFailure { code: Option<i32>, stdout: Seq<u8>, stderr: Seq<u8> },
}

impl View for NodeError {
    type V = ErrorView;

    open spec fn view(&self) -> ErrorView {
        match *self {
            NodeError::ConfigurationError(fault) => ErrorView::ConfigurationError(fault),
            NodeError::SpawnError(reason) => ErrorView::SpawnError(reason@),
            NodeError::ExecutionFailure { code, stdout, stderr } => ErrorView::ExecutionFailure {
                code,
                stdout: stdout@,
                stderr: stderr@,
            },
        }
    }
}

impl NodeError {
    /// The exit code carried by an execution failure, if the process reported one.
    pub fn exit_code(&self) -> (code: Option<i32>)
        ensures
            code == match self@ {
                ErrorView::ExecutionFailure { code, .. } => code,
                _ => None,
            },
    {
        match self {
            NodeError::ExecutionFailure { code, .. } => *code,
            _ => None,
        }
    }
}

} // verus!
