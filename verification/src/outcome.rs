//! Process outcomes and their classification.

use vstd::prelude::*;
use crate::error::{ErrorView, NodeError};

verus! {

/// What a finished process left behind: its exit code, absent when it was
/// terminated abnormally, and the bytes captured from its two streams.
#[derive(Debug, Clone, PartialEq, Eq)]
pub struct ProcessOutcome {
    pub code: Option<i32>,
    pub stdout: Vec<u8>,
    pub stderr: Vec<u8>,
}

/// Mathematical reading of a [`ProcessOutcome`].
pub struct OutcomeView {
    pub code: Option<i32>,
    pub stdout: Seq<u8>,
    pub stderr: Seq<u8>,
}

impl View for ProcessOutcome {
    type V = OutcomeView;

    open spec fn view(&self) -> OutcomeView {
        OutcomeView { code: self.code, stdout: self.stdout@, stderr: self.stderr@ }
    }
}

/// A run succeeded exactly when the process ended normally with code zero.
pub open spec fn succeeded(outcome: OutcomeView) -> bool {
    outcome.code == Some(0i32)
}

/// The bytes replayed for a failed run: captured standard output, then
/// captured standard error.
pub open spec fn diagnostics_of(outcome: OutcomeView) -> Seq<u8> {
    outcome.stdout + outcome.stderr
}

/// The error a failed run is classified as.
pub open spec fn failure_of(outcome: OutcomeView) -> ErrorView {
    ErrorView::ExecutionFailure {
        code: outcome.code,
        stdout: outcome.stdout,
        stderr: outcome.stderr,
    }
}

/// The classification of an outcome: nothing to report on success, the
/// execution failure otherwise.
pub open spec fn classification(outcome: OutcomeView) -> Result<(), ErrorView> {
    if succeeded(outcome) {
        Ok(())
    } else {
        Err(failure_of(outcome))
    }
}

/// Mathematical reading of a classification.
pub open spec fn classify_result_view(result: Result<(), NodeError>) -> Result<(), ErrorView> {
    match result {
        Ok(()) => Ok(()),
        Err(error) => Err(error@),
    }
}

/// Appends every byte of `source` to `target`.
fn append_bytes(target: &mut Vec<u8>, source: &Vec<u8>)
    ensures
        final(target)@ == old(target)@ + source@,
{
    let mut i: usize = 0;
    while i < source.len()
        invariant
            i <= source.len(),
            target@ == old(target)@ + source@.subrange(0, i as int),
        decreases source.len() - i,
    {
        target.push(source[i]);
        i += 1;
        proof {
            assert(target@ =~= old(target)@ + source@.subrange(0, i as int));
        }
    }
    proof {
        assert(source@.subrange(0, i as int) =~= source@);
    }
}

impl ProcessOutcome {
    /// Whether the process ended normally with exit code zero.
    pub fn success(&self) -> (ok: bool)
        ensures
            ok == succeeded(self@),
    {
        match self.code {
            Some(code) => code == 0,
            None => false,
        }
    }

    /// The captured output to replay when the run failed.
    pub fn diagnostics(&self) -> (bytes: Vec<u8>)
        ensures
            bytes@ == diagnostics_of(self@),
    {
        let mut bytes: Vec<u8> = Vec::new();
        append_bytes(&mut bytes, &self.stdout);
        append_bytes(&mut bytes, &self.stderr);
        proof {
            assert(bytes@ =~= diagnostics_of(self@));
        }
        bytes
    }

    /// Classifies the outcome. A failure keeps the exit code and both
    /// captured streams.
    pub fn classify(self) -> (result: Result<(), NodeError>)
        ensures
            classify_result_view(result) == classification(self@),
    {
        if self.success() {
            Ok(())
        } else {
            Err(
                NodeError::ExecutionFailure {
                    code: self.code,
                    stdout: self.stdout,
                    stderr: self.stderr,
                },
            )
        }
    }
}

} // verus!
