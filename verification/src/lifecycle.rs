//! The four operations as protocols over the container runtime's command
//! line. An operation starts with an invocation; each outcome that the
//! invoker hands back gives the next invocation or the operation's
//! result. The library decides, the caller performs: nothing here starts
//! a process.

use crate::commands::{
    info_call, list_all, list_call, probe, probe_call, remove_call, remove_container, report,
    run_call, run_container, stop_call, stop_container,
};
use crate::envelope::{
    failure_text, lemma_failure_text_not_empty, Failure, FailureView, Operation, OperationResult,
    OperationResultView,
};
use crate::info::{
    default_info, lacks_every_key, lemma_missing_keys_give_defaults, parse_info, report_of,
};
use crate::json::json_parsed;
use crate::listing::{listing_of, parse_listing};
use crate::process::{Invocation, InvocationView, OutcomeView, ProcessOutcome};
use crate::text::{lines, lines_of, trim, trimmed};
use vstd::prelude::*;

verus! {

/// Where an operation stands: which invocation is under way, and what the
/// steps after it need.
#[derive(Clone, Debug, PartialEq, Eq)]
pub enum Protocol {
    /// A launch has asked which containers publish the host port.
    LaunchProbe { image: String, host_port: u16, container_port: u16 },
    /// A launch is stopping the containers in its way; `pending` are those
    /// for which no stop has been sent yet.
    LaunchClear { image: String, host_port: u16, container_port: u16, pending: Vec<String> },
    /// A launch has sent the run request.
    LaunchRun,
    /// A stop has sent the stop request.
    StopHalt { container_id: String },
    /// A stop has sent the remove request.
    StopRemove,
    /// A listing has sent its query.
    List,
    /// A report has sent its query.
    Info,
}

/// A state as mathematical values.
pub enum ProtocolView {
    LaunchProbe { image: Seq<char>, host_port: u16, container_port: u16 },
    LaunchClear { image: Seq<char>, host_port: u16, container_port: u16, pending: Seq<Seq<char>> },
    LaunchRun,
    StopHalt { container_id: Seq<char> },
    StopRemove,
    List,
    Info,
}

impl View for Protocol {
    type V = ProtocolView;

    open spec fn view(&self) -> ProtocolView {
        match self {
            Protocol::LaunchProbe {
                image,
                host_port,
                container_port,
            } => ProtocolView::LaunchProbe {
                image: image@,
                host_port: *host_port,
                container_port: *container_port,
            },
            Protocol::LaunchClear {
                image,
                host_port,
                container_port,
                pending,
            } => ProtocolView::LaunchClear {
                image: image@,
                host_port: *host_port,
                container_port: *container_port,
                pending: pending.deep_view(),
            },
            Protocol::LaunchRun => ProtocolView::LaunchRun,
            Protocol::StopHalt { container_id } => ProtocolView::StopHalt {
                container_id: container_id@,
            },
            Protocol::StopRemove => ProtocolView::StopRemove,
            Protocol::List => ProtocolView::List,
            Protocol::Info => ProtocolView::Info,
        }
    }
}

/// What an outcome leads to: the next invocation, with the state in which
/// its outcome is awaited, or the result of the operation.
#[derive(Clone, Debug, PartialEq, Eq)]
pub enum Step {
    Next(Protocol, Invocation),
    Done(OperationResult),
}

/// A step as mathematical values.
pub enum StepView {
    Next(ProtocolView, InvocationView),
    Done(OperationResultView),
}

impl View for Step {
    type V = StepView;

    open spec fn view(&self) -> StepView {
        match self {
            Step::Next(state, call) => StepView::Next(state@, call@),
            Step::Done(result) => StepView::Done(result@),
        }
    }
}

/// The judgement on an invocation whose success matters: the standard
/// output of a program that reported success, and the failure otherwise.
pub open spec fn verdict(outcome: OutcomeView) -> Result<Seq<char>, FailureView> {
    match outcome {
        OutcomeView::Exited { success, stdout, stderr } => if success {
            Ok(stdout)
        } else {
            Err(FailureView::Runtime(stderr))
        },
        OutcomeView::SpawnFailed { description } => Err(FailureView::Spawn(description)),
    }
}

/// The identifiers that the answer to the probe names: every line of the
/// standard output, trimmed, whatever the exit status. A probe that could
/// not be started names none.
pub open spec fn conflicting_ids(outcome: OutcomeView) -> Seq<Seq<char>> {
    match outcome {
        OutcomeView::Exited { stdout, .. } => {
            let found = lines_of(stdout);
            Seq::new(found.len(), |i: int| trimmed(found[i]))
        },
        OutcomeView::SpawnFailed { .. } => Seq::empty(),
    }
}

/// The step of a launch that still has `pending` to stop: the stop of the
/// first of them, or the run request where none is left.
pub open spec fn clear_or_run(
    image: Seq<char>,
    host_port: u16,
    container_port: u16,
    pending: Seq<Seq<char>>,
) -> StepView {
    if pending.len() > 0 {
        StepView::Next(
            ProtocolView::LaunchClear {
                image,
                host_port,
                container_port,
                pending: pending.drop_first(),
            },
            stop_call(pending.first()),
        )
    } else {
        StepView::Next(ProtocolView::LaunchRun, run_call(image, host_port, container_port))
    }
}

/// The result of a launch, from the outcome of its run request.
pub open spec fn launch_result(outcome: OutcomeView) -> OperationResultView {
    match verdict(outcome) {
        Ok(stdout) => OperationResultView::launched(trimmed(stdout)),
        Err(failure) => OperationResultView::failed(failure_text(Operation::Launch, failure)),
    }
}

/// The result of a listing, from the outcome of its query.
pub open spec fn list_result(outcome: OutcomeView) -> OperationResultView {
    match verdict(outcome) {
        Ok(stdout) => OperationResultView::listed(listing_of(stdout)),
        Err(failure) => OperationResultView::failed(failure_text(Operation::List, failure)),
    }
}

/// The result of a report, from the outcome of its query.
pub open spec fn info_result(outcome: OutcomeView) -> OperationResultView {
    match verdict(outcome) {
        Ok(stdout) => match report_of(stdout) {
            Ok(info) => OperationResultView::informed(info),
            Err(failure) => OperationResultView::failed(failure_text(Operation::Info, failure)),
        },
        Err(failure) => OperationResultView::failed(failure_text(Operation::Info, failure)),
    }
}

/// What `outcome` leads to in `state`.
///
/// A launch stops every container that the probe named, one after the
/// other, and then sends the run request; neither a failed probe nor a
/// failed stop keeps it from going on. A stop sends the remove request if
/// and only if the stop request succeeded, and succeeds whatever becomes of
/// the removal.
pub open spec fn step_of(state: ProtocolView, outcome: OutcomeView) -> StepView {
    match state {
        ProtocolView::LaunchProbe { image, host_port, container_port } => clear_or_run(
            image,
            host_port,
            container_port,
            conflicting_ids(outcome),
        ),
        ProtocolView::LaunchClear { image, host_port, container_port, pending } => clear_or_run(
            image,
            host_port,
            container_port,
            pending,
        ),
        ProtocolView::LaunchRun => StepView::Done(launch_result(outcome)),
        ProtocolView::StopHalt { container_id } => match verdict(outcome) {
            Ok(_) => StepView::Next(ProtocolView::StopRemove, remove_call(container_id)),
            Err(failure) => StepView::Done(
                OperationResultView::failed(failure_text(Operation::Stop, failure)),
            ),
        },
        ProtocolView::StopRemove => StepView::Done(OperationResultView::done()),
        ProtocolView::List => StepView::Done(list_result(outcome)),
        ProtocolView::Info => StepView::Done(info_result(outcome)),
    }
}

/// Starts a launch of `image` with `host_port` mapped to `container_port`.
pub fn launch(image: String, host_port: u16, container_port: u16) -> (start: (Protocol, Invocation))
    ensures
        start.0@ == (ProtocolView::LaunchProbe { image: image@, host_port, container_port }),
        start.1@ == probe_call(host_port),
{
    (Protocol::LaunchProbe { image, host_port, container_port }, probe(host_port))
}

/// Starts a stop of the container `container_id`.
pub fn stop(container_id: String) -> (start: (Protocol, Invocation))
    ensures
        start.0@ == (ProtocolView::StopHalt { container_id: container_id@ }),
        start.1@ == stop_call(container_id@),
{
    let call = stop_container(container_id.as_str());
    (Protocol::StopHalt { container_id }, call)
}

/// Starts a listing of all containers.
pub fn list_containers() -> (start: (Protocol, Invocation))
    ensures
        start.0@ == ProtocolView::List,
        start.1@ == list_call(),
{
    (Protocol::List, list_all())
}

/// Starts a report on the runtime.
pub fn system_info() -> (start: (Protocol, Invocation))
    ensures
        start.0@ == ProtocolView::Info,
        start.1@ == info_call(),
{
    (Protocol::Info, report())
}

fn judge(outcome: ProcessOutcome) -> (judged: Result<String, Failure>)
    ensures
        match verdict(outcome@) {
            Ok(stdout) => judged matches Ok(text) && text@ == stdout,
            Err(failure) => judged matches Err(found) && found@ == failure,
        },
{
    match outcome {
        ProcessOutcome::Exited { success, stdout, stderr } => if success {
            Ok(stdout)
        } else {
            Err(Failure::Runtime(stderr))
        },
        ProcessOutcome::SpawnFailed { description } => Err(Failure::Spawn(description)),
    }
}

fn named_ids(outcome: &ProcessOutcome) -> (ids: Vec<String>)
    ensures
        ids.deep_view() == conflicting_ids(outcome@),
{
    let mut ids: Vec<String> = Vec::new();
    match outcome {
        ProcessOutcome::Exited { success: _, stdout, stderr: _ } => {
            let found = lines(stdout.as_str());
            let mut i: usize = 0;
            while i < found.len()
                invariant
                    i <= found.len(),
                    found.deep_view() == lines_of(stdout@),
                    ids.deep_view() == Seq::new(i as nat, |k: int| trimmed(found.deep_view()[k])),
                decreases found.len() - i,
            {
                let ghost before = ids.deep_view();
                ids.push(trim(found[i].as_str()));
                assert(ids.deep_view() == before.push(trimmed(found.deep_view()[i as int])));
                i += 1;
            }
            assert(ids.deep_view() == conflicting_ids(outcome@));
        },
        ProcessOutcome::SpawnFailed { description: _ } => {
            assert(ids.deep_view() == Seq::<Seq<char>>::empty());
        },
    }
    ids
}

fn next_clear_or_run(
    image: String,
    host_port: u16,
    container_port: u16,
    pending: Vec<String>,
) -> (step: Step)
    ensures
        step@ == clear_or_run(image@, host_port, container_port, pending.deep_view()),
{
    let mut pending = pending;
    if pending.len() > 0 {
        let ghost all = pending.deep_view();
        let id = pending.remove(0);
        assert(pending.deep_view() == all.drop_first());
        let call = stop_container(id.as_str());
        Step::Next(Protocol::LaunchClear { image, host_port, container_port, pending }, call)
    } else {
        let call = run_container(image.as_str(), host_port, container_port);
        Step::Next(Protocol::LaunchRun, call)
    }
}

impl Protocol {
    /// Takes the outcome of the invocation under way and gives the next
    /// one, or the result of the operation.
    pub fn advance(self, outcome: ProcessOutcome) -> (step: Step)
        ensures
            step@ == step_of(self@, outcome@),
            step matches Step::Done(result) ==> result@.well_formed(),
    {
        match self {
            Protocol::LaunchProbe { image, host_port, container_port } => {
                let ids = named_ids(&outcome);
                next_clear_or_run(image, host_port, container_port, ids)
            },
            Protocol::LaunchClear {
                image,
                host_port,
                container_port,
                pending,
            } => next_clear_or_run(image, host_port, container_port, pending),
            Protocol::LaunchRun => match judge(outcome) {
                Ok(stdout) => Step::Done(OperationResult::launched(trim(stdout.as_str()))),
                Err(failure) => Step::Done(OperationResult::failed(Operation::Launch, failure)),
            },
            Protocol::StopHalt { container_id } => match judge(outcome) {
                Ok(_) => Step::Next(Protocol::StopRemove, remove_container(container_id.as_str())),
                Err(failure) => Step::Done(OperationResult::failed(Operation::Stop, failure)),
            },
            Protocol::StopRemove => Step::Done(OperationResult::done()),
            Protocol::List => match judge(outcome) {
                Ok(stdout) => Step::Done(OperationResult::listed(parse_listing(stdout.as_str()))),
                Err(failure) => Step::Done(OperationResult::failed(Operation::List, failure)),
            },
            Protocol::Info => match judge(outcome) {
                Ok(stdout) => match parse_info(stdout.as_str()) {
                    Ok(info) => Step::Done(OperationResult::informed(info)),
                    Err(failure) => Step::Done(OperationResult::failed(Operation::Info, failure)),
                },
                Err(failure) => Step::Done(OperationResult::failed(Operation::Info, failure)),
            },
        }
    }
}

/// What an operation does when the invoker hands back `outcomes` one after
/// the other, from the state `state` in which `call` is under way: the
/// invocations it sends, in order, and its result where the outcomes
/// reach one. Outcomes after the result are not looked at.
pub open spec fn run_of(state: ProtocolView, call: InvocationView, outcomes: Seq<OutcomeView>) -> (
    Seq<InvocationView>,
    Option<OperationResultView>,
)
    decreases outcomes.len(),
{
    if outcomes.len() == 0 {
        (seq![call], None)
    } else {
        match step_of(state, outcomes.first()) {
            StepView::Done(result) => (seq![call], Some(result)),
            StepView::Next(next, sent) => {
                let rest = run_of(next, sent, outcomes.drop_first());
                (seq![call] + rest.0, rest.1)
            },
        }
    }
}

/// The stop requests for `ids`, in order.
pub open spec fn stop_calls(ids: Seq<Seq<char>>) -> Seq<InvocationView> {
    Seq::new(ids.len(), |i: int| stop_call(ids[i]))
}

/// Every result that a step gives is well formed.
pub proof fn lemma_results_well_formed(state: ProtocolView, outcome: OutcomeView)
    ensures
        step_of(state, outcome) matches StepView::Done(result) ==> result.well_formed(),
{
    match verdict(outcome) {
        Ok(_) => {
            lemma_failure_text_not_empty(Operation::Info, FailureView::MalformedInfo);
        },
        Err(failure) => {
            lemma_failure_text_not_empty(Operation::Launch, failure);
            lemma_failure_text_not_empty(Operation::Stop, failure);
            lemma_failure_text_not_empty(Operation::List, failure);
            lemma_failure_text_not_empty(Operation::Info, failure);
        },
    }
}

/// A program that reported a failure and wrote to its standard error has
/// that text, unchanged, as the error of the operation.
pub proof fn lemma_failure_reports_stderr(stdout: Seq<char>, stderr: Seq<char>)
    requires
        stderr.len() > 0,
    ensures
        ({
            let outcome = OutcomeView::Exited { success: false, stdout, stderr };
            &&& launch_result(outcome) == OperationResultView::failed(stderr)
            &&& list_result(outcome) == OperationResultView::failed(stderr)
            &&& info_result(outcome) == OperationResultView::failed(stderr)
            &&& forall|id: Seq<char>|
                #[trigger] step_of(ProtocolView::StopHalt { container_id: id }, outcome)
                    == StepView::Done(OperationResultView::failed(stderr))
        }),
{
}

proof fn lemma_clearing_run(
    image: Seq<char>,
    host_port: u16,
    container_port: u16,
    pending: Seq<Seq<char>>,
    state: ProtocolView,
    call: InvocationView,
    outcomes: Seq<OutcomeView>,
)
    requires
        outcomes.len() >= pending.len() + 2,
        step_of(state, outcomes.first()) == clear_or_run(image, host_port, container_port, pending),
    ensures
        run_of(state, call, outcomes).0 == seq![call] + stop_calls(pending) + seq![
            run_call(image, host_port, container_port),
        ],
        run_of(state, call, outcomes).1 == Some(launch_result(outcomes[pending.len() as int + 1])),
    decreases pending.len(),
{
    let rest = outcomes.drop_first();
    let run = run_call(image, host_port, container_port);
    if pending.len() > 0 {
        let next = ProtocolView::LaunchClear {
            image,
            host_port,
            container_port,
            pending: pending.drop_first(),
        };
        let sent = stop_call(pending.first());
        let later = pending.drop_first();
        lemma_clearing_run(image, host_port, container_port, later, next, sent, rest);
        assert(rest[pending.len() as int] == outcomes[pending.len() as int + 1]);
        assert(seq![sent] + stop_calls(later) == stop_calls(pending));
        assert(seq![call] + (seq![sent] + stop_calls(later) + seq![run]) == seq![call]
            + stop_calls(pending) + seq![run]);
    } else {
        assert(rest.first() == outcomes[1]);
        assert(run_of(ProtocolView::LaunchRun, run, rest) == (
            seq![run],
            Some(launch_result(outcomes[1])),
        ));
        assert(seq![call] + seq![run] == seq![call] + stop_calls(pending) + seq![run]);
    }
}

/// A launch sends the probe, then one stop request for each container that
/// the answer to the probe names, in that order, then the run request, and
/// nothing else. Its result is that of the run request alone: what became
/// of the probe and of the stop requests does not enter it.
pub proof fn lemma_launch_run(
    image: Seq<char>,
    host_port: u16,
    container_port: u16,
    outcomes: Seq<OutcomeView>,
)
    requires
        outcomes.len() >= 1,
        outcomes.len() >= conflicting_ids(outcomes.first()).len() + 2,
    ensures
        ({
            let ids = conflicting_ids(outcomes.first());
            let run = run_of(
                ProtocolView::LaunchProbe { image, host_port, container_port },
                probe_call(host_port),
                outcomes,
            );
            &&& run.0 == seq![probe_call(host_port)] + stop_calls(ids) + seq![
                run_call(image, host_port, container_port),
            ]
            &&& run.1 == Some(launch_result(outcomes[ids.len() as int + 1]))
        }),
{
    lemma_clearing_run(
        image,
        host_port,
        container_port,
        conflicting_ids(outcomes.first()),
        ProtocolView::LaunchProbe { image, host_port, container_port },
        probe_call(host_port),
        outcomes,
    );
}

/// A launch whose run request ends in failure, with a word on its standard
/// error, fails with that text as its error and names no container.
pub proof fn lemma_launch_run_failed(
    image: Seq<char>,
    host_port: u16,
    container_port: u16,
    outcomes: Seq<OutcomeView>,
)
    requires
        outcomes.len() >= 1,
        outcomes.len() == conflicting_ids(outcomes.first()).len() + 2,
        outcomes.last() matches OutcomeView::Exited { success, stderr, .. } && !success
            && stderr.len() > 0,
    ensures
        ({
            let run = run_of(
                ProtocolView::LaunchProbe { image, host_port, container_port },
                probe_call(host_port),
                outcomes,
            );
            &&& run.1 is Some
            &&& !run.1.unwrap().success
            &&& run.1.unwrap().container_id is None
            &&& run.1.unwrap().error == Some(outcomes.last()->stderr)
        }),
{
    lemma_launch_run(image, host_port, container_port, outcomes);
}

/// A stop whose stop request fails ends there with that failure: the
/// remove request is never sent.
pub proof fn lemma_stop_run_failed(container_id: Seq<char>, outcomes: Seq<OutcomeView>)
    requires
        outcomes.len() >= 1,
        verdict(outcomes.first()) is Err,
    ensures
        run_of(
            ProtocolView::StopHalt { container_id },
            stop_call(container_id),
            outcomes,
        ) == (
            seq![stop_call(container_id)],
            Some(
                OperationResultView::failed(
                    failure_text(Operation::Stop, verdict(outcomes.first())->Err_0),
                ),
            ),
        ),
{
}

/// A stop whose stop request succeeds sends the remove request and then
/// succeeds, whatever becomes of the removal.
pub proof fn lemma_stop_run_succeeded(container_id: Seq<char>, outcomes: Seq<OutcomeView>)
    requires
        outcomes.len() >= 2,
        verdict(outcomes.first()) is Ok,
    ensures
        run_of(
            ProtocolView::StopHalt { container_id },
            stop_call(container_id),
            outcomes,
        ) == (
            seq![stop_call(container_id), remove_call(container_id)],
            Some(OperationResultView::done()),
        ),
{
    let rest = outcomes.drop_first();
    assert(run_of(ProtocolView::StopRemove, remove_call(container_id), rest) == (
        seq![remove_call(container_id)],
        Some(OperationResultView::done()),
    ));
    assert(seq![stop_call(container_id)] + seq![remove_call(container_id)] == seq![
        stop_call(container_id),
        remove_call(container_id),
    ]);
}

/// A listing and a report send their one query and end with its outcome.
pub proof fn lemma_query_run(outcomes: Seq<OutcomeView>)
    requires
        outcomes.len() >= 1,
    ensures
        run_of(ProtocolView::List, list_call(), outcomes) == (
            seq![list_call()],
            Some(list_result(outcomes.first())),
        ),
        run_of(ProtocolView::Info, info_call(), outcomes) == (
            seq![info_call()],
            Some(info_result(outcomes.first())),
        ),
{
}

/// A report whose query succeeded with a text that is not JSON fails as
/// malformed, and fails in no other case once the query has succeeded.
pub proof fn lemma_report_not_json(stdout: Seq<char>, stderr: Seq<char>)
    ensures
        ({
            let result = info_result(OutcomeView::Exited { success: true, stdout, stderr });
            &&& json_parsed(stdout) is None ==> result == OperationResultView::failed(
                "Failed to parse Docker info JSON"@,
            )
            &&& json_parsed(stdout) is Some ==> result.success && result.info is Some
        }),
{
}

/// A report whose query succeeded with a JSON text that has none of the
/// nine keys succeeds with the default in every field.
pub proof fn lemma_report_without_keys(stdout: Seq<char>, stderr: Seq<char>)
    ensures
        ({
            let result = info_result(OutcomeView::Exited { success: true, stdout, stderr });
            json_parsed(stdout) matches Some(doc) && lacks_every_key(doc) ==> result
                == OperationResultView::informed(default_info())
        }),
{
    match json_parsed(stdout) {
        Some(doc) => {
            if lacks_every_key(doc) {
                lemma_missing_keys_give_defaults(doc);
            }
        },
        None => {},
    }
}

} // verus!
