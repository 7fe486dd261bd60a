//! Result reporter: the artifacts a successful run declares.

use vstd::prelude::*;
use crate::paths::{proof_file, prover_paths};
use crate::request::{ExecutionRequest, RequestView};
use crate::text::{lemma_texts_empty, lemma_texts_push, texts};

verus! {

/// The outcome handed back to the orchestrator after a successful run.
#[derive(Debug, Clone, PartialEq, Eq)]
pub struct TaskResult {
    pub inputs: Vec<String>,
    pub outputs: Vec<String>,
}

/// Mathematical reading of a [`TaskResult`].
pub struct ResultView {
    pub inputs: Seq<Seq<char>>,
    pub outputs: Seq<Seq<char>>,
}

impl View for TaskResult {
    type V = ResultView;

    open spec fn view(&self) -> ResultView {
        ResultView { inputs: texts(self.inputs@), outputs: texts(self.outputs@) }
    }
}

/// The artifacts a tool produces for `request`: the prover its proof file,
/// the verifier nothing.
pub open spec fn produced(request: RequestView) -> Seq<Seq<char>> {
    match request {
        RequestView::Prover { data_dir, program_name, .. } => seq![
            proof_file(data_dir, program_name),
        ],
        RequestView::Verifier { .. } => Seq::empty(),
    }
}

/// The result of a successful run of `request`. No inputs are declared.
pub open spec fn report_for(request: RequestView) -> ResultView {
    ResultView { inputs: Seq::empty(), outputs: produced(request) }
}

/// Builds the result of a successful run of `request`.
pub fn report(request: &ExecutionRequest) -> (result: TaskResult)
    ensures
        result@ == report_for(request@),
{
    let inputs: Vec<String> = Vec::new();
    let mut outputs: Vec<String> = Vec::new();
    proof {
        lemma_texts_empty();
    }
    match request {
        ExecutionRequest::Prover { data_dir, program_name, .. } => {
            let paths = prover_paths(data_dir.as_str(), program_name.as_str());
            proof {
                lemma_texts_push(outputs@, paths.out_file);
            }
            outputs.push(paths.out_file);
            proof {
                assert(texts(outputs@) =~= produced(request@));
            }
        },
        ExecutionRequest::Verifier { .. } => {},
    }
    TaskResult { inputs, outputs }
}

/// What a standalone run tells the operator on success: the first produced
/// artifact, announced as the proof file, or nothing when none was produced.
pub open spec fn notice_for(result: ResultView) -> Option<Seq<char>> {
    if result.outputs.len() > 0 {
        Some("stone proof file: "@ + result.outputs[0])
    } else {
        None
    }
}

/// Mathematical reading of an optional notice.
pub open spec fn notice_view(notice: Option<String>) -> Option<Seq<char>> {
    match notice {
        Some(text) => Some(text@),
        None => None,
    }
}

/// The line a standalone run prints on success, if any.
pub fn standalone_notice(result: &TaskResult) -> (notice: Option<String>)
    ensures
        notice_view(notice) == notice_for(result@),
{
    if result.outputs.len() > 0 {
        let mut text = String::from_str("stone proof file: ");
        text.append(result.outputs[0].as_str());
        Some(text)
    } else {
        None
    }
}

} // verus!
