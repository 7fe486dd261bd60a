//! What holds of every invocation, proved over the pipeline's transition
//! function.

use vstd::prelude::*;
use crate::command::{command_for, tool_flags};
use crate::error::{ConfigFault, ErrorView};
use crate::outcome::{failure_of, succeeded, OutcomeView};
use crate::pipeline::{run, transition, well_formed, ActionView, EventView, StateView};
use crate::paths::joined;
use crate::report::ResultView;
use crate::request::{required_args, task_request, tool_of, RequestView, Tool};

verus! {

/// An action that ends an invocation: a result or an error.
pub open spec fn is_terminal(action: ActionView) -> bool {
    action is Report || action is Raise
}

/// Every action is `Nothing`.
pub open spec fn all_nothing(actions: Seq<ActionView>) -> bool {
    forall|i: int| 0 <= i < actions.len() ==> #[trigger] actions[i] == ActionView::Nothing
}

/// No action asks for a process.
pub open spec fn never_spawns(actions: Seq<ActionView>) -> bool {
    forall|i: int| 0 <= i < actions.len() ==> !(#[trigger] actions[i] is Spawn)
}

/// At most one action asks for a process.
pub open spec fn spawns_at_most_once(actions: Seq<ActionView>) -> bool {
    forall|i: int, j: int|
        0 <= i < j < actions.len() && #[trigger] actions[i] is Spawn ==> !(
        #[trigger] actions[j] is Spawn)
}

/// Nothing is asked for after a result or an error.
pub open spec fn ends_once(actions: Seq<ActionView>) -> bool {
    forall|i: int, j: int|
        0 <= i < j < actions.len() && is_terminal(#[trigger] actions[i])
            ==> #[trigger] actions[j] == ActionView::Nothing
}

/// Feeding one event and then `later` is one transition followed by the run
/// on `later` from the state reached.
proof fn lemma_run_unfold(state: StateView, first: EventView, later: Seq<EventView>)
    ensures
        run(state, seq![first] + later) == seq![transition(state, first).1] + run(
            transition(state, first).0,
            later,
        ),
{
    let events = seq![first] + later;
    assert(events.drop_first() =~= later);
    assert(events[0] == first);
}

/// The machine answers every event with exactly one action.
pub proof fn lemma_run_len(state: StateView, events: Seq<EventView>)
    ensures
        run(state, events).len() == events.len(),
    decreases events.len(),
{
    if events.len() > 0 {
        lemma_run_len(transition(state, events[0]).0, events.drop_first());
    }
}

/// Once finished, the machine asks for nothing more.
pub proof fn lemma_finished_is_silent(events: Seq<EventView>)
    ensures
        all_nothing(run(StateView::Finished, events)),
    decreases events.len(),
{
    let actions = run(StateView::Finished, events);
    lemma_run_len(StateView::Finished, events);
    if events.len() > 0 {
        let rest = events.drop_first();
        lemma_finished_is_silent(rest);
        lemma_run_len(StateView::Finished, rest);
        assert forall|i: int| 0 <= i < actions.len() implies #[trigger] actions[i]
            == ActionView::Nothing by {
            if i > 0 {
                assert(actions[i] == run(StateView::Finished, rest)[i - 1]);
            }
        }
    }
}

/// While a replay is pending the machine asks for nothing, except that it
/// raises the kept error in answer to the end of the replay.
pub proof fn lemma_replaying_only_raises(error: ErrorView, events: Seq<EventView>)
    ensures
        forall|i: int|
            0 <= i < events.len() ==> {
                let action = #[trigger] run(StateView::Replaying(error), events)[i];
                ||| action == ActionView::Nothing
                ||| (action == ActionView::Raise(error) && events[i] == EventView::Replayed)
            },
    decreases events.len(),
{
    let state = StateView::Replaying(error);
    lemma_run_len(state, events);
    if events.len() > 0 {
        let rest = events.drop_first();
        let next = transition(state, events[0]).0;
        lemma_run_len(next, rest);
        if next == StateView::Finished {
            lemma_finished_is_silent(rest);
        } else {
            lemma_replaying_only_raises(error, rest);
        }
        assert forall|i: int| 0 <= i < events.len() implies {
            let action = #[trigger] run(state, events)[i];
            ||| action == ActionView::Nothing
            ||| (action == ActionView::Raise(error) && events[i] == EventView::Replayed)
        } by {
            if i > 0 {
                assert(run(state, events)[i] == run(next, rest)[i - 1]);
                assert(events[i] == rest[i - 1]);
            }
        }
    }
}

/// A run that asks for nothing at all at most spawns once and ends once.
proof fn lemma_silence(actions: Seq<ActionView>)
    requires
        all_nothing(actions),
    ensures
        never_spawns(actions),
        spawns_at_most_once(actions),
        ends_once(actions),
{
}

/// What holds of a run carries over when one more action is put in front,
/// provided that action fits: it is no spawn, or none follows it; it is no
/// result or error, or only silence follows it.
proof fn lemma_prepend(first: ActionView, rest: Seq<ActionView>)
    requires
        spawns_at_most_once(rest),
        ends_once(rest),
        first is Spawn ==> never_spawns(rest),
        is_terminal(first) ==> all_nothing(rest),
    ensures
        spawns_at_most_once(seq![first] + rest),
        ends_once(seq![first] + rest),
        !(first is Spawn) && never_spawns(rest) ==> never_spawns(seq![first] + rest),
{
    let actions = seq![first] + rest;
    assert forall|i: int| 0 < i < actions.len() implies #[trigger] actions[i] == rest[i - 1] by {}
    assert forall|i: int, j: int|
        0 <= i < j < actions.len() && #[trigger] actions[i] is Spawn implies !(
    #[trigger] actions[j] is Spawn) by {
        assert(actions[j] == rest[j - 1]);
        if i > 0 {
            assert(actions[i] == rest[i - 1]);
        }
    }
    assert forall|i: int, j: int|
        0 <= i < j < actions.len() && is_terminal(
            #[trigger] actions[i],
        ) implies #[trigger] actions[j] == ActionView::Nothing by {
        assert(actions[j] == rest[j - 1]);
        if i > 0 {
            assert(actions[i] == rest[i - 1]);
        }
    }
    if !(first is Spawn) && never_spawns(rest) {
        assert forall|i: int| 0 <= i < actions.len() implies !(#[trigger] actions[i] is Spawn) by {
            if i > 0 {
                assert(actions[i] == rest[i - 1]);
            }
        }
    }
}

/// Once a replay is pending no process is asked for, and nothing follows
/// the error.
proof fn lemma_replaying_winds_down(error: ErrorView, events: Seq<EventView>)
    ensures
        never_spawns(run(StateView::Replaying(error), events)),
        spawns_at_most_once(run(StateView::Replaying(error), events)),
        ends_once(run(StateView::Replaying(error), events)),
    decreases events.len(),
{
    let state = StateView::Replaying(error);
    if events.len() == 0 {
        lemma_silence(run(state, events));
    } else {
        let rest = events.drop_first();
        let next = transition(state, events[0]);
        if next.0 == StateView::Finished {
            lemma_finished_is_silent(rest);
            lemma_silence(run(StateView::Finished, rest));
        } else {
            lemma_replaying_winds_down(error, rest);
        }
        lemma_prepend(next.1, run(next.0, rest));
    }
}

/// While the process runs no second one is asked for, and nothing follows
/// the result or the error.
proof fn lemma_running_winds_down(request: RequestView, events: Seq<EventView>)
    ensures
        never_spawns(run(StateView::Running(request), events)),
        spawns_at_most_once(run(StateView::Running(request), events)),
        ends_once(run(StateView::Running(request), events)),
    decreases events.len(),
{
    let state = StateView::Running(request);
    if events.len() == 0 {
        lemma_silence(run(state, events));
    } else {
        let rest = events.drop_first();
        let next = transition(state, events[0]);
        match next.0 {
            StateView::Finished => {
                lemma_finished_is_silent(rest);
                lemma_silence(run(StateView::Finished, rest));
            },
            StateView::Replaying(error) => {
                lemma_replaying_winds_down(error, rest);
            },
            _ => {
                lemma_running_winds_down(request, rest);
            },
        }
        lemma_prepend(next.1, run(next.0, rest));
    }
}

/// Every step keeps the machine well formed, and the machine starts so:
/// an error waiting behind a replay is always an execution failure.
pub proof fn transition_keeps_well_formed(state: StateView, event: EventView)
    requires
        well_formed(state),
    ensures
        well_formed(StateView::Ready),
        well_formed(transition(state, event).0),
{
}

/// One invocation is one attempt: whatever events arrive, at most one
/// process is ever asked for, and once a result has been reported or an
/// error raised, nothing more is asked for. There is no retry.
pub proof fn invocation_is_single_shot(events: Seq<EventView>)
    ensures
        spawns_at_most_once(run(StateView::Ready, events)),
        ends_once(run(StateView::Ready, events)),
    decreases events.len(),
{
    let state = StateView::Ready;
    if events.len() == 0 {
        lemma_silence(run(state, events));
    } else {
        let rest = events.drop_first();
        let next = transition(state, events[0]);
        match next.0 {
            StateView::Finished => {
                lemma_finished_is_silent(rest);
                lemma_silence(run(StateView::Finished, rest));
            },
            StateView::Running(request) => {
                lemma_running_winds_down(request, rest);
            },
            _ => {
                invocation_is_single_shot(rest);
            },
        }
        lemma_prepend(next.1, run(next.0, rest));
    }
}

/// A sequence is a prefix of itself followed by anything, and skipping it
/// leaves what followed.
proof fn lemma_concat_prefix(head: Seq<char>, tail: Seq<char>)
    ensures
        head.is_prefix_of(head + tail),
        (head + tail).skip(head.len() as int) == tail,
{
    assert((head + tail).subrange(0, head.len() as int) =~= head);
    assert((head + tail).skip(head.len() as int) =~= tail);
}

/// A path joined under `root` begins with `root` and a slash.
proof fn lemma_joined_prefix(root: Seq<char>, name: Seq<char>)
    ensures
        (root + "/"@).is_prefix_of(joined(root, name)),
{
    lemma_concat_prefix(root + "/"@, name);
}

/// A path joined under a directory that lies under `base` lies under `base`.
proof fn lemma_joined_keeps_base(base: Seq<char>, dir: Seq<char>, name: Seq<char>)
    requires
        base.is_prefix_of(dir),
    ensures
        base.is_prefix_of(joined(dir, name)),
{
    assert(joined(dir, name).subrange(0, base.len() as int) =~= dir.subrange(
        0,
        base.len() as int,
    ));
}

/// The command of every request follows its tool's schema: one argument per
/// flag, in the schema's order, each beginning with its flag.
pub proof fn command_follows_schema(request: RequestView)
    ensures
        ({
            let flags = tool_flags(tool_of(request));
            let arguments = command_for(request).args;
            &&& arguments.len() == flags.len()
            &&& forall|i: int|
                0 <= i < flags.len() ==> (#[trigger] flags[i]).is_prefix_of(arguments[i])
        }),
{
    let flags = tool_flags(tool_of(request));
    match request {
        RequestView::Prover { data_dir, program_name, .. } => {
            lemma_concat_prefix(flags[0], crate::paths::proof_file(data_dir, program_name));
            lemma_concat_prefix(flags[1], crate::paths::private_input_file(data_dir, program_name));
            lemma_concat_prefix(flags[2], crate::paths::public_input_file(data_dir, program_name));
            lemma_concat_prefix(flags[3], crate::paths::prover_config_file(data_dir));
            lemma_concat_prefix(flags[4], crate::paths::parameter_file(data_dir));
        },
        RequestView::Verifier { in_file, .. } => {
            lemma_concat_prefix(flags[0], in_file);
        },
    }
}

/// For a task that carries enough arguments, everything handed to the
/// process lies under the workspace root: the executable's path begins with
/// the root and a slash, and so does the path that follows each flag.
pub proof fn task_paths_are_rooted(root: Seq<char>, tool: Tool, args: Seq<Seq<char>>)
    requires
        args.len() >= required_args(tool),
    ensures
        task_request(root, tool, args) is Ok,
        ({
            let request = task_request(root, tool, args)->Ok_0;
            let command = command_for(request);
            let flags = tool_flags(tool);
            let base = root + "/"@;
            &&& tool_of(request) == tool
            &&& base.is_prefix_of(command.program)
            &&& command.args.len() == flags.len()
            &&& forall|i: int|
                0 <= i < flags.len() ==> base.is_prefix_of(
                    (#[trigger] command.args[i]).skip(flags[i].len() as int),
                )
        }),
{
    let request = task_request(root, tool, args)->Ok_0;
    let command = command_for(request);
    let flags = tool_flags(tool);
    let base = root + "/"@;
    lemma_joined_prefix(root, args[1]);
    lemma_joined_prefix(root, args[2]);
    match request {
        RequestView::Prover { data_dir, program_name, .. } => {
            lemma_joined_keeps_base(base, data_dir, program_name + "_proof.json"@);
            lemma_joined_keeps_base(base, data_dir, program_name + "_private_input.json"@);
            lemma_joined_keeps_base(base, data_dir, program_name + "_public_input.json"@);
            lemma_joined_keeps_base(base, data_dir, "cpu_air_prover_config.json"@);
            lemma_joined_keeps_base(base, data_dir, "cpu_air_params.json"@);
            lemma_concat_prefix(flags[0], crate::paths::proof_file(data_dir, program_name));
            lemma_concat_prefix(flags[1], crate::paths::private_input_file(data_dir, program_name));
            lemma_concat_prefix(flags[2], crate::paths::public_input_file(data_dir, program_name));
            lemma_concat_prefix(flags[3], crate::paths::prover_config_file(data_dir));
            lemma_concat_prefix(flags[4], crate::paths::parameter_file(data_dir));
        },
        RequestView::Verifier { in_file, .. } => {
            lemma_concat_prefix(flags[0], in_file);
        },
    }
}

/// For every prover request, the first argument of the command names the
/// out-file `{data_dir}/{program_name}_proof.json`, and a successful run
/// reports exactly that one path as its output, with no inputs.
pub proof fn prover_success_reports_proof_file(
    prover_path: Seq<char>,
    data_dir: Seq<char>,
    program_name: Seq<char>,
    outcome: OutcomeView,
)
    requires
        succeeded(outcome),
    ensures
        ({
            let request = RequestView::Prover { prover_path, data_dir, program_name };
            let out_file = data_dir + "/"@ + program_name + "_proof.json"@;
            &&& command_for(request).args[0] == "--out-file="@ + out_file
            &&& transition(StateView::Running(request), EventView::Exited(outcome)) == (
                StateView::Finished,
                ActionView::Report(ResultView { inputs: Seq::empty(), outputs: seq![out_file] }),
            )
        }),
{
    let request = RequestView::Prover { prover_path, data_dir, program_name };
    let out_file = data_dir + "/"@ + program_name + "_proof.json"@;
    assert(out_file =~= crate::paths::proof_file(data_dir, program_name));
    assert(crate::report::produced(request) =~= seq![out_file]);
}

/// For every verifier request, a successful run reports no outputs and no
/// inputs.
pub proof fn verifier_success_reports_nothing(
    verifier_path: Seq<char>,
    in_file: Seq<char>,
    outcome: OutcomeView,
)
    requires
        succeeded(outcome),
    ensures
        transition(
            StateView::Running(RequestView::Verifier { verifier_path, in_file }),
            EventView::Exited(outcome),
        ) == (
            StateView::Finished,
            ActionView::Report(ResultView { inputs: Seq::empty(), outputs: Seq::empty() }),
        ),
{
}

/// When the process does not exit with status zero, the machine keeps an
/// execution failure that carries the exit code and both captured streams,
/// and whatever events follow, it never reports a result: the only error it
/// raises is that failure.
pub proof fn failed_exit_never_reports(
    request: RequestView,
    outcome: OutcomeView,
    later: Seq<EventView>,
)
    requires
        outcome.code != Some(0i32),
    ensures
        ({
            let events = seq![EventView::Exited(outcome)] + later;
            let actions = run(StateView::Running(request), events);
            let failure = ErrorView::ExecutionFailure {
                code: outcome.code,
                stdout: outcome.stdout,
                stderr: outcome.stderr,
            };
            &&& actions.len() == events.len()
            &&& transition(StateView::Running(request), events[0]).0 == StateView::Replaying(
                failure,
            )
            &&& forall|i: int| 0 <= i < actions.len() ==> !(#[trigger] actions[i] is Report)
            &&& forall|i: int|
                0 <= i < actions.len() && #[trigger] actions[i] is Raise ==> actions[i]
                    == ActionView::Raise(failure)
        }),
{
    let first = EventView::Exited(outcome);
    let events = seq![first] + later;
    let state = StateView::Running(request);
    let failure = failure_of(outcome);
    lemma_run_unfold(state, first, later);
    lemma_run_len(state, events);
    lemma_run_len(StateView::Replaying(failure), later);
    lemma_replaying_only_raises(failure, later);
    let actions = run(state, events);
    assert forall|i: int| 0 <= i < actions.len() implies !(#[trigger] actions[i] is Report) && (
    actions[i] is Raise ==> actions[i] == ActionView::Raise(failure)) by {
        if i > 0 {
            assert(actions[i] == run(StateView::Replaying(failure), later)[i - 1]);
        }
    }
}

/// A task with fewer arguments than its tool reads is answered at once with
/// a configuration error that says how many were needed and how many came,
/// and whatever events follow, no process is ever asked for.
pub proof fn short_task_is_refused_before_spawn(
    root: Seq<char>,
    tool: Tool,
    args: Seq<Seq<char>>,
    later: Seq<EventView>,
)
    requires
        args.len() < required_args(tool),
    ensures
        ({
            let events = seq![EventView::TaskReceived { root, tool, args }] + later;
            let actions = run(StateView::Ready, events);
            &&& actions.len() == events.len()
            &&& actions[0] == ActionView::Raise(
                ErrorView::ConfigurationError(
                    ConfigFault::MissingArguments {
                        required: required_args(tool) as usize,
                        supplied: args.len() as usize,
                    },
                ),
            )
            &&& forall|i: int| 0 <= i < actions.len() ==> !(#[trigger] actions[i] is Spawn)
        }),
{
    let first = EventView::TaskReceived { root, tool, args };
    let events = seq![first] + later;
    lemma_run_unfold(StateView::Ready, first, later);
    lemma_run_len(StateView::Ready, events);
    lemma_run_len(StateView::Finished, later);
    lemma_finished_is_silent(later);
    let actions = run(StateView::Ready, events);
    assert forall|i: int| 0 <= i < actions.len() implies !(#[trigger] actions[i] is Spawn) by {
        if i > 0 {
            assert(actions[i] == run(StateView::Finished, later)[i - 1]);
        }
    }
}

/// When the process fails, the first thing the machine asks for is the
/// replay of the captured standard output followed by the captured standard
/// error; the failure is raised only later, in answer to the event that says
/// the replay has been written.
pub proof fn diagnostics_precede_failure(
    request: RequestView,
    outcome: OutcomeView,
    later: Seq<EventView>,
)
    requires
        !succeeded(outcome),
    ensures
        ({
            let events = seq![EventView::Exited(outcome)] + later;
            let actions = run(StateView::Running(request), events);
            &&& actions.len() == events.len()
            &&& actions[0] == ActionView::Replay(outcome.stdout + outcome.stderr)
            &&& forall|j: int|
                0 <= j < actions.len() && #[trigger] actions[j] is Raise ==> j > 0 && events[j]
                    == EventView::Replayed
        }),
{
    let first = EventView::Exited(outcome);
    let events = seq![first] + later;
    let state = StateView::Running(request);
    let failure = failure_of(outcome);
    lemma_run_unfold(state, first, later);
    lemma_run_len(state, events);
    lemma_run_len(StateView::Replaying(failure), later);
    lemma_replaying_only_raises(failure, later);
    let actions = run(state, events);
    assert forall|j: int| 0 <= j < actions.len() && #[trigger] actions[j] is Raise implies j > 0
        && events[j] == EventView::Replayed by {
        if j > 0 {
            assert(actions[j] == run(StateView::Replaying(failure), later)[j - 1]);
            assert(events[j] == later[j - 1]);
        }
    }
}

} // verus!
