//! The pipeline of one invocation as a state machine. The caller performs
//! each action the machine asks for and hands back what happened as the
//! next event; the machine decides everything else.

use vstd::prelude::*;
use crate::command::{build_command, command_for, CommandSpec, CommandView};
use crate::error::{ErrorView, NodeError};
use crate::outcome::{diagnostics_of, failure_of, succeeded, OutcomeView, ProcessOutcome};
use crate::report::{report, report_for, ResultView, TaskResult};
use crate::request::{
    request_from_task,
    task_request,
    ExecutionRequest,
    RequestView,
    Task,
    Tool,
};

verus! {

/// Where an invocation stands.
#[derive(Debug, Clone, PartialEq, Eq)]
pub enum State {
    /// Nothing has happened yet.
    Ready,
    /// The process for this request was asked for and has not ended.
    Running(ExecutionRequest),
    /// The run failed; its captured output is being replayed, after which
    /// this error is raised.
    Replaying(NodeError),
    /// The invocation is over.
    Finished,
}

/// What the caller tells the machine.
#[derive(Debug, Clone, PartialEq, Eq)]
pub enum Event {
    /// The direct caller supplied a complete request.
    Direct(ExecutionRequest),
    /// The orchestrator supplied a task for `tool`, to be resolved under `root`.
    TaskReceived { root: String, tool: Tool, task: Task },
    /// The process ended.
    Exited(ProcessOutcome),
    /// The process could not be started; carries the reason as text.
    SpawnFailed(String),
    /// The requested replay has been written out.
    Replayed,
}

/// What the machine asks the caller to do next.
#[derive(Debug, Clone, PartialEq, Eq)]
pub enum Action {
    /// Start this command and wait for it to end.
    Spawn(CommandSpec),
    /// Write these bytes to standard output.
    Replay(Vec<u8>),
    /// Hand this result to whoever asked for the run.
    Report(TaskResult),
    /// Surface this error to whoever asked for the run.
    Raise(NodeError),
    /// The event does not apply in this state; do nothing.
    Nothing,
}

/// Mathematical reading of a [`State`].
pub enum StateView {
    Ready,
    Running(RequestView),
    Replaying(ErrorView),
    Finished,
}

/// Mathematical reading of an [`Event`].
pub enum EventView {
    Direct(RequestView),
    TaskReceived { root: Seq<char>, tool: Tool, args: Seq<Seq<char>> },
    Exited(OutcomeView),
    SpawnFailed(Seq<char>),
    Replayed,
}

/// Mathematical reading of an [`Action`].
pub enum ActionView {
    Spawn(CommandView),
    Replay(Seq<u8>),
    Report(ResultView),
    Raise(ErrorView),
    Nothing,
}

impl View for State {
    type V = StateView;

    open spec fn view(&self) -> StateView {
        match *self {
            State::Ready => StateView::Ready,
            State::Running(request) => StateView::Running(request@),
            State::Replaying(error) => StateView::Replaying(error@),
            State::Finished => StateView::Finished,
        }
    }
}

impl View for Event {
    type V = EventView;

    open spec fn view(&self) -> EventView {
        match *self {
            Event::Direct(request) => EventView::Direct(request@),
            Event::TaskReceived { root, tool, task } => EventView::TaskReceived {
                root: root@,
                tool,
                args: task@,
            },
            Event::Exited(outcome) => EventView::Exited(outcome@),
            Event::SpawnFailed(reason) => EventView::SpawnFailed(reason@),
            Event::Replayed => EventView::Replayed,
        }
    }
}

impl View for Action {
    type V = ActionView;

    open spec fn view(&self) -> ActionView {
        match *self {
            Action::Spawn(command) => ActionView::Spawn(command@),
            Action::Replay(bytes) => ActionView::Replay(bytes@),
            Action::Report(result) => ActionView::Report(result@),
            Action::Raise(error) => ActionView::Raise(error@),
            Action::Nothing => ActionView::Nothing,
        }
    }
}

/// The states the machine can be in: a pending replay always belongs to an
/// execution failure.
pub open spec fn well_formed(state: StateView) -> bool {
    state matches StateView::Replaying(error) ==> error is ExecutionFailure
}

/// A resolved request is answered by spawning its command.
pub open spec fn launch(request: RequestView) -> (StateView, ActionView) {
    (StateView::Running(request), ActionView::Spawn(command_for(request)))
}

/// The machine's single step: the state that follows `state` on `event`,
/// and the action to perform.
///
/// * From `Ready`, a direct request is launched as given; a task is first
///   resolved, and a task that is too short raises its configuration error
///   at once.
/// * From `Running`, a successful exit reports the tool's result; any other
///   exit asks for the captured output to be replayed and keeps the
///   execution failure for afterwards; a failed spawn raises a spawn error.
/// * From `Replaying`, the end of the replay raises the kept error.
/// * Every other event leaves the state as it is and asks for nothing.
pub open spec fn transition(state: StateView, event: EventView) -> (StateView, ActionView) {
    match (state, event) {
        (StateView::Ready, EventView::Direct(request)) => launch(request),
        (StateView::Ready, EventView::TaskReceived { root, tool, args }) => match task_request(
            root,
            tool,
            args,
        ) {
            Ok(request) => launch(request),
            Err(error) => (StateView::Finished, ActionView::Raise(error)),
        },
        (StateView::Running(request), EventView::Exited(outcome)) => if succeeded(outcome) {
            (StateView::Finished, ActionView::Report(report_for(request)))
        } else {
            (
                StateView::Replaying(failure_of(outcome)),
                ActionView::Replay(diagnostics_of(outcome)),
            )
        },
        (StateView::Running(_), EventView::SpawnFailed(reason)) => (
            StateView::Finished,
            ActionView::Raise(ErrorView::SpawnError(reason)),
        ),
        (StateView::Replaying(error), EventView::Replayed) => (
            StateView::Finished,
            ActionView::Raise(error),
        ),
        _ => (state, ActionView::Nothing),
    }
}

/// The actions the machine asks for, one per event, when it starts in
/// `state` and is fed `events` in order.
pub open spec fn run(state: StateView, events: Seq<EventView>) -> Seq<ActionView>
    decreases events.len(),
{
    if events.len() == 0 {
        Seq::empty()
    } else {
        let step = transition(state, events[0]);
        seq![step.1] + run(step.0, events.drop_first())
    }
}

/// Launches `request`.
fn start(request: ExecutionRequest) -> (next: (State, Action))
    ensures
        (next.0@, next.1@) == launch(request@),
{
    let command = build_command(&request);
    (State::Running(request), Action::Spawn(command))
}

/// Advances the pipeline by one event.
pub fn step(state: State, event: Event) -> (next: (State, Action))
    ensures
        (next.0@, next.1@) == transition(state@, event@),
        well_formed(state@) ==> well_formed(next.0@),
{
    match state {
        State::Ready => match event {
            Event::Direct(request) => start(request),
            Event::TaskReceived { root, tool, task } => match request_from_task(
                root.as_str(),
                tool,
                &task,
            ) {
                Ok(request) => start(request),
                Err(error) => (State::Finished, Action::Raise(error)),
            },
            _ => (State::Ready, Action::Nothing),
        },
        State::Running(request) => match event {
            Event::Exited(outcome) => {
                if outcome.success() {
                    (State::Finished, Action::Report(report(&request)))
                } else {
                    let bytes = outcome.diagnostics();
                    let error = NodeError::ExecutionFailure {
                        code: outcome.code,
                        stdout: outcome.stdout,
                        stderr: outcome.stderr,
                    };
                    (State::Replaying(error), Action::Replay(bytes))
                }
            },
            Event::SpawnFailed(reason) => (
                State::Finished,
                Action::Raise(NodeError::SpawnError(reason)),
            ),
            _ => (State::Running(request), Action::Nothing),
        },
        State::Replaying(error) => match event {
            Event::Replayed => (State::Finished, Action::Raise(error)),
            _ => (State::Replaying(error), Action::Nothing),
        },
        State::Finished => (State::Finished, Action::Nothing),
    }
}

} // verus!
