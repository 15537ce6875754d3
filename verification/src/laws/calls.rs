//! What the functions of the library give, from what they are given.

use vstd::prelude::*;

use crate::conclusion::{conclusion, failure_message, Conclusion, FailureReason};
use crate::engine::{outcome_of, run, Ending, RunAction, RunEvent, RunState};
use crate::error::{error_chain, Cause, RunError};
use crate::laws::record::{
    law_failure_is_the_roots, law_outcome_has_the_stated_status,
    law_record_without_a_status_is_unfinished, law_status_is_one_of_three_words,
    law_unlisted_root_has_no_failure, states_a_status,
};
use crate::laws::report::{
    law_chain_is_the_error_and_its_causes, law_groups_join_as_the_whole,
    law_one_part_joined_is_itself, law_shortfall_is_worded,
};
use crate::plan::{
    hook_layers, host_call, plan, run_observers, spec_run_id, CancelReason, DaytonaSandboxKind,
    Execution, HookLayer, HostCall, Install, LostSandbox, Platform, RecordId, Retention, RunPlan,
    RunRequest, Wire,
};
use crate::provider::{backend, SandboxBackend, SandboxProviderKind};
use crate::receipt::{write_receipt, ReceiptEvent, ReceiptState};
use crate::record::{
    check_resumable, inspect, outcome, parse_status, Access, InvocationId, Reading, RunInspection,
    RunOutcome, RunStatus, StoredState,
};
use crate::text::{join, joined, texts};

verus! {

/// The parts joined begin with the first and, where there are more, go on
/// with the separator and the others joined.
pub proof fn law_join_goes_part_by_part(parts: Vec<String>, separator: &str, whole: String)
    requires
        call_ensures(join, (&parts, separator), whole),
    ensures
        parts@.len() == 0 ==> whole@.len() == 0,
        parts@.len() == 1 ==> whole@ == parts@[0]@,
        parts@.len() > 1 ==> whole@ == parts@[0]@ + separator@ + joined(
            texts(parts@.skip(1)),
            separator@,
        ),
{
    if parts@.len() > 1 {
        let first = seq![parts@[0]@];
        let others = texts(parts@.skip(1));
        assert(texts(parts@) =~= first + others);
        law_groups_join_as_the_whole(first, others, separator@);
        law_one_part_joined_is_itself(parts@[0]@, separator@);
    }
}

/// A served name gives its provider, and any other name a provider of
/// another kind that goes by it.
pub proof fn law_name_gives_its_provider(name: String, provider: SandboxProviderKind)
    requires
        call_ensures(SandboxProviderKind::from_name, (name,), provider),
    ensures
        provider is Local <==> name@ == "local"@,
        provider is Docker <==> name@ == "docker"@,
        provider is Daytona <==> name@ == "daytona"@,
        provider matches SandboxProviderKind::Other(own) ==> own@ == name@,
{
    reveal_strlit("local");
    reveal_strlit("docker");
    reveal_strlit("daytona");
    assert("local"@.len() != "docker"@.len() && "local"@.len() != "daytona"@.len()
        && "docker"@.len() != "daytona"@.len());
}

/// A provider prints the name that it goes by.
pub proof fn law_provider_prints_its_name(provider: SandboxProviderKind, name: String)
    requires
        call_ensures(SandboxProviderKind::name, (&provider,), name),
    ensures
        provider is Local ==> name@ == "local"@,
        provider is Docker ==> name@ == "docker"@,
        provider is Daytona ==> name@ == "daytona"@,
        provider matches SandboxProviderKind::Other(own) ==> name@ == own@,
{
}

/// A copy of a provider is that provider.
pub proof fn law_provider_is_copied_as_it_is(
    provider: SandboxProviderKind,
    copy: SandboxProviderKind,
)
    requires
        call_ensures(<SandboxProviderKind as Clone>::clone, (&provider,), copy),
    ensures
        copy@ == provider@,
{
}

/// Each provider kind is given its own backend, and another kind none.
pub proof fn law_provider_is_given_its_backend(
    provider: SandboxProviderKind,
    given: Option<SandboxBackend>,
)
    requires
        call_ensures(backend, (&provider,), given),
    ensures
        provider is Local ==> given == Some(SandboxBackend::Host),
        provider is Docker ==> given == Some(SandboxBackend::Docker),
        provider is Daytona ==> given == Some(SandboxBackend::Daytona),
        provider is Other ==> given is None,
{
}

/// A word is read as the status that it states, and as none if it states
/// none.
pub proof fn law_word_is_read_as_its_status(word: String, status: Option<RunStatus>)
    requires
        call_ensures(parse_status, (&word,), status),
    ensures
        status == Some(RunStatus::Success) <==> word@ == "success"@,
        status == Some(RunStatus::Failed) <==> word@ == "failed"@,
        status == Some(RunStatus::Cancelled) <==> word@ == "cancelled"@,
{
    law_status_is_one_of_three_words(word@);
}

/// What was read of an opened record is kept, and so is why it could not be.
pub proof fn law_reading_keeps_what_was_read<T>(read: Result<T, Cause>, reading: Reading<T>)
    requires
        call_ensures(Reading::<T>::of_opened, (read,), reading),
    ensures
        read matches Ok(said) ==> reading == Reading::Read(said),
        read matches Err(cause) ==> reading == Reading::<T>::NotRead(cause),
{
}

/// The outcome of a record that states a status: the status, completeness and
/// reasons are the record's own, and the failure is that of the first listed
/// invocation that is the root.
pub proof fn law_outcome_is_what_the_record_says(
    inspection: RunInspection,
    host_error: Option<String>,
    given: Result<RunOutcome, RunError>,
)
    requires
        states_a_status(inspection),
        call_ensures(outcome, (inspection, host_error), given),
    ensures
        given matches Ok(said) && {
            &&& said.status == RunStatus::Success <==> inspection.status->0@ == "success"@
            &&& said.status == RunStatus::Failed <==> inspection.status->0@ == "failed"@
            &&& said.status == RunStatus::Cancelled <==> inspection.status->0@ == "cancelled"@
            &&& said.complete == inspection.complete
            &&& texts(said.incomplete@) == texts(inspection.incomplete@)
        },
        forall|i: int|
            0 <= i < inspection.invocations@.len() && (
            #[trigger] inspection.invocations@[i]).invocation == inspection.root && (forall|j: int|
                0 <= j < i ==> (#[trigger] inspection.invocations@[j]).invocation
                    != inspection.root) ==> match inspection.invocations@[i].result {
                Some(result) => match result.failure {
                    Some(message) => given->Ok_0.failure is Some && given->Ok_0.failure->0@
                        == message@,
                    None => given->Ok_0.failure is None,
                },
                None => given->Ok_0.failure is None,
            },
        (forall|j: int|
            0 <= j < inspection.invocations@.len() ==> (
            #[trigger] inspection.invocations@[j]).invocation != inspection.root)
            ==> given->Ok_0.failure is None,
{
    let said = match host_error {
        Some(error) => Some(error@),
        None => None,
    };
    law_outcome_has_the_stated_status(inspection, said);
    let invocations = inspection.invocations@;
    assert forall|i: int|
        0 <= i < invocations.len() && (#[trigger] invocations[i]).invocation == inspection.root && (
        forall|j: int|
            0 <= j < i ==> (#[trigger] invocations[j]).invocation
                != inspection.root) implies match invocations[i].result {
        Some(result) => match result.failure {
            Some(message) => given->Ok_0.failure is Some && given->Ok_0.failure->0@ == message@,
            None => given->Ok_0.failure is None,
        },
        None => given->Ok_0.failure is None,
    } by {
        law_failure_is_the_roots(inspection, said, i);
    }
    if forall|j: int|
        0 <= j < invocations.len() ==> (#[trigger] invocations[j]).invocation != inspection.root {
        law_unlisted_root_has_no_failure(inspection, said);
    }
}

/// The outcome of a record that states no status is that the run is
/// unfinished, for the record's own reasons and then the host's error.
pub proof fn law_unfinished_run_is_given_its_reasons(
    inspection: RunInspection,
    host_error: Option<String>,
    given: Result<RunOutcome, RunError>,
)
    requires
        !states_a_status(inspection),
        call_ensures(outcome, (inspection, host_error), given),
    ensures
        given matches Err(RunError::Unfinished(reasons)) && {
            let own = inspection.incomplete@;
            &&& reasons@.len() == own.len() + (if host_error is Some {
                1int
            } else {
                0int
            })
            &&& forall|i: int| 0 <= i < own.len() ==> (#[trigger] reasons@[i])@ == own[i]@
            &&& host_error matches Some(error) ==> reasons@.last()@ == error@
        },
{
    let said = match host_error {
        Some(error) => Some(error@),
        None => None,
    };
    law_record_without_a_status_is_unfinished(inspection, said);
    if let Err(RunError::Unfinished(reasons)) = given {
        let seen = texts(reasons@);
        assert forall|i: int| 0 <= i < inspection.incomplete@.len() implies (
        #[trigger] reasons@[i])@ == inspection.incomplete@[i]@ by {
            assert(seen[i] == reasons@[i]@);
        }
    }
}

/// A resume is let go if and only if the stored state was read and declares
/// the root invocation at some place; else the error says why not.
pub proof fn law_resume_is_checked_for_its_root(
    reading: Reading<StoredState>,
    checked: Result<(), RunError>,
)
    requires
        call_ensures(check_resumable, (reading,), checked),
    ensures
        checked is Ok <==> (reading matches Reading::Read(state) && exists|i: int|
            0 <= i < state.invocations@.len() && #[trigger] state.invocations@[i]
                == InvocationId::Root),
        reading matches Reading::NotOpened(cause) ==> (checked matches Err(RunError::Open(own))
            && own@ == cause@),
        reading matches Reading::NotRead(cause) ==> (checked matches Err(RunError::Read(own))
            && own@ == cause@),
        reading is Read && checked is Err ==> (checked matches Err(error)
            && error is NothingToResume),
{
    if let Reading::Read(state) = reading {
        assert(state@ == state.invocations@);
        if exists|i: int|
            0 <= i < state.invocations@.len() && #[trigger] state.invocations@[i]
                == InvocationId::Root {
            let i = choose|i: int|
                0 <= i < state.invocations@.len() && #[trigger] state.invocations@[i]
                    == InvocationId::Root;
            assert(state@[i] == InvocationId::Root);
        }
    }
}

/// An inspection that was read is given as it is; else the error says whether
/// the record could not be opened or not be inspected.
pub proof fn law_inspection_is_given_as_it_is(
    reading: Reading<RunInspection>,
    inspected: Result<RunInspection, RunError>,
)
    requires
        call_ensures(inspect, (reading,), inspected),
    ensures
        reading matches Reading::Read(inspection) ==> inspected == Ok::<RunInspection, RunError>(
            inspection,
        ),
        reading matches Reading::NotOpened(cause) ==> inspected == Err::<RunInspection, RunError>(
            RunError::Open(cause),
        ),
        reading matches Reading::NotRead(cause) ==> inspected == Err::<RunInspection, RunError>(
            RunError::Inspect(cause),
        ),
{
}

/// An error's message is that of its kind, with what it carries.
pub proof fn law_message_is_of_its_kind(error: RunError, message: String)
    requires
        call_ensures(RunError::message, (&error,), message),
    ensures
        error matches RunError::UnsupportedProvider { provider } ==> message@
            == "the run's sandbox provider `"@ + provider@.name()
            + "` is not one Petri serves"@,
        error is Open ==> message@ == "the run's record could not be opened"@,
        error is Read ==> message@ == "the run's record could not be read"@,
        error is NothingToResume ==> message@
            == "the run's record has no root invocation, so there is nothing to resume"@,
        error is Inspect ==> message@ == "the run's record could not be inspected"@,
        error matches RunError::Unfinished(reasons) ==> message@
            == "the run ended without recording a status; the record says: "@ + joined(
            texts(reasons@),
            "; "@,
        ),
{
}

/// An error of the store or the host is the source of the error that carries
/// it; no other error has one.
pub proof fn law_source_is_what_the_error_carries(error: RunError, source: Option<&Cause>)
    requires
        call_ensures(RunError::source, (&error,), source),
    ensures
        error matches RunError::Open(cause) ==> source is Some && source->0@ == cause@,
        error matches RunError::Read(cause) ==> source is Some && source->0@ == cause@,
        error matches RunError::Inspect(cause) ==> source is Some && source->0@ == cause@,
        error is UnsupportedProvider || error is NothingToResume || error is Unfinished
            ==> source is None,
{
    if let Some(cause) = source {
        assert(cause@.len() > 0);
    }
    if let RunError::Open(cause) = error {
        assert(cause@.len() > 0);
    }
    if let RunError::Read(cause) = error {
        assert(cause@.len() > 0);
    }
    if let RunError::Inspect(cause) = error {
        assert(cause@.len() > 0);
    }
}

/// The line of an error is its message and, after a colon, its causes; of an
/// error without causes it is the message alone.
pub proof fn law_line_is_message_and_causes(error: RunError, message: String, line: String)
    requires
        call_ensures(RunError::message, (&error,), message),
        call_ensures(error_chain, (&error,), line),
    ensures
        error matches RunError::Open(cause) ==> line@ == message@ + ": "@ + joined(cause@, ": "@),
        error matches RunError::Read(cause) ==> line@ == message@ + ": "@ + joined(cause@, ": "@),
        error matches RunError::Inspect(cause) ==> line@ == message@ + ": "@ + joined(
            cause@,
            ": "@,
        ),
        error is UnsupportedProvider || error is NothingToResume || error is Unfinished ==> line@
            == message@,
{
    law_chain_is_the_error_and_its_causes(error@);
    if let RunError::Open(cause) = error {
        assert(cause@.len() > 0);
    }
    if let RunError::Read(cause) = error {
        assert(cause@.len() > 0);
    }
    if let RunError::Inspect(cause) = error {
        assert(cause@.len() > 0);
    }
}

/// What is said of a run that did not succeed: a cancelled run that it was
/// cancelled, another its failure or, without one, what its status comes to,
/// and after it in brackets each reason that the record is not whole.
pub proof fn law_failure_is_worded(given: RunOutcome, message: String)
    requires
        call_ensures(failure_message, (&given,), message),
    ensures
        ({
            let reasons = if given.complete {
                Seq::<char>::empty()
            } else {
                " (record incomplete: "@ + joined(texts(given.incomplete@), "; "@) + ")"@
            };
            &&& given.status == RunStatus::Cancelled ==> message@ == "the run was cancelled"@
                + reasons
            &&& given.status != RunStatus::Cancelled ==> (given.failure matches Some(failure)
                ==> message@ == failure@ + reasons)
            &&& given.status == RunStatus::Failed && given.failure is None ==> message@
                == "the run failed"@ + reasons
            &&& given.status == RunStatus::Success && given.failure is None && !given.complete
                ==> message@ == "the run's record is incomplete"@ + reasons
        }),
{
    law_shortfall_is_worded(given@);
    if given.complete {
        assert("the run was cancelled"@ + Seq::<char>::empty() =~= "the run was cancelled"@);
        assert("the run failed"@ + Seq::<char>::empty() =~= "the run failed"@);
        if let Some(failure) = given.failure {
            assert(failure@ + Seq::<char>::empty() =~= failure@);
        }
    }
}

/// A run is concluded as a success if and only if it returned a whole outcome
/// of success; a cancelled run is concluded as cancelled, everything else as
/// a workflow error, each with its words.
pub proof fn law_result_is_concluded(
    result: Result<RunOutcome, RunError>,
    concluded: Conclusion,
    words: String,
)
    requires
        call_ensures(conclusion, (&result,), concluded),
        match result {
            Ok(given) => call_ensures(failure_message, (&given,), words),
            Err(error) => call_ensures(error_chain, (&error,), words),
        },
    ensures
        concluded is Succeeded <==> (result matches Ok(given) && given.status
            == RunStatus::Success && given.complete),
        concluded matches Conclusion::Failed { reason, message } ==> {
            &&& message@ == words@
            &&& reason == FailureReason::Cancelled <==> (result matches Ok(given)
                && given.status == RunStatus::Cancelled)
        },
{
}

/// Whether a plan is put together as the request asks: all that is set,
/// installed and wired, with the request's own handles.
pub open spec fn is_planned_by<'a, P: Platform>(
    made: RunPlan<'a, P>,
    request: RunRequest<P>,
) -> bool {
    &&& made.options.backend == SandboxBackend::Host <==> request.provider is Local
    &&& made.options.backend == SandboxBackend::Docker <==> request.provider is Docker
    &&& made.options.backend == SandboxBackend::Daytona <==> request.provider is Daytona
    &&& made.options.run_key@ == request.run_id@
    &&& made.options.retention == Retention::Always
    &&& made.options.lost_sandbox == Some(LostSandbox::Replace) <==> request.hooks is Some && !(
    request.provider is Local)
    &&& made.options.lost_sandbox is None <==> request.hooks is None || request.provider is Local
    &&& made.options.daytona is Some <==> request.provider is Daytona
    &&& made.options.daytona matches Some(daytona) ==> daytona.kind
        == DaytonaSandboxKind::Container && daytona.disk_mb == 10240
    &&& made.resumed <==> request.execution is Resume
    &&& made.runtime.flag
    &&& *made.options.run_dir == request.run_dir
    &&& *made.runtime.spec == request.runtime
    &&& *made.runtime.store == request.store
    &&& made.runtime.secrets is Some <==> request.secrets is Some
    &&& made.runtime.secrets matches Some(secrets) ==> *secrets == request.secrets->0
    &&& made.runtime.blobs is Some <==> request.blobs is Some
    &&& made.runtime.blobs matches Some(blobs) ==> *blobs == request.blobs->0
    &&& made.installs@ == seq![Install::Store, Install::Options] + (match request.secrets {
        Some(_) => seq![Install::Secrets],
        None => seq![],
    }) + (match request.blobs {
        Some(_) => seq![Install::Blobs],
        None => seq![],
    }) + seq![Install::Hooks, Install::LiveTurns]
    &&& made.wiring@ == (match request.hooks {
        Some(_) => seq![Wire::Dispatcher, Wire::Hooks],
        None => seq![Wire::Dispatcher],
    }) + seq![Wire::Controls, Wire::CancelTask(CancelReason::Control)]
}

/// A plan that is the one of the request and passes its handles on is put
/// together as the request asks.
proof fn lemma_is_planned_by<'a, P: Platform>(made: RunPlan<'a, P>, request: RunRequest<P>)
    requires
        request@.plan() matches Ok(own) && own == made@,
        made.passes_on(request),
    ensures
        is_planned_by(made, request),
{
    assert(made.installs@ =~= seq![Install::Store, Install::Options] + (match request.secrets {
        Some(_) => seq![Install::Secrets],
        None => seq![],
    }) + (match request.blobs {
        Some(_) => seq![Install::Blobs],
        None => seq![],
    }) + seq![Install::Hooks, Install::LiveTurns]);
    assert(made.wiring@ =~= (match request.hooks {
        Some(_) => seq![Wire::Dispatcher, Wire::Hooks],
        None => seq![Wire::Dispatcher],
    }) + seq![Wire::Controls, Wire::CancelTask(CancelReason::Control)]);
}

/// A plan is made for every provider but one of another kind, with the
/// provider's backend and with what the request has.
pub proof fn law_plan_is_by_the_request<'a, P: Platform>(
    request: RunRequest<P>,
    planned: Result<RunPlan<'a, P>, RunError>,
)
    requires
        call_ensures(plan::<P>, (&request,), planned),
    ensures
        planned is Err <==> request.provider is Other,
        planned matches Err(error) ==> (error matches RunError::UnsupportedProvider { provider }
            && provider@ == request.provider@),
        planned matches Ok(made) ==> is_planned_by(made, request),
{
    if let Ok(made) = planned {
        lemma_is_planned_by(made, request);
    }
}

/// A run begins with its plan, by its id and with the hooks that the request
/// has: a start at the host, a resume with the opening of its record; and a
/// run that cannot be planned does not begin.
pub proof fn law_run_begins_with_its_plan<'a, P: Platform>(
    request: RunRequest<P>,
    begun: Result<(RunPlan<'a, P>, RunState), RunError>,
)
    requires
        call_ensures(run::<P>, (&request,), begun),
    ensures
        begun is Err <==> request.provider is Other,
        begun matches Err(error) ==> (error matches RunError::UnsupportedProvider { provider }
            && provider@ == request.provider@),
        begun matches Ok((made, state)) ==> {
            &&& is_planned_by(made, request)
            &&& match request.execution {
                Execution::Start(_) => state matches RunState::Host { run, resumed } && !resumed
                    && run.run_key@ == request.run_id@ && run.hooks == request.hooks is Some,
                Execution::Resume => state matches RunState::OpenForResume(run) && run.run_key@
                    == request.run_id@ && run.hooks == request.hooks is Some,
            }
        },
{
    if let Ok((made, _)) = begun {
        lemma_is_planned_by(made, request);
    }
}

/// The reading of a record alone opens it under the run's id, without hooks
/// and without a host error.
pub proof fn law_outcome_of_opens_the_record(run_id: &str, state: RunState)
    requires
        call_ensures(outcome_of, (run_id,), state),
    ensures
        state matches RunState::OpenRecord(ending) && ending.run.run_key@ == run_id@
            && !ending.run.hooks && ending.host_error is None,
{
}

/// The layers of hooks lie innermost first: the runtime's own, or where the
/// platform's have none to wrap the layer of no hooks, then the platform's
/// where the run has them, then the pause gate.
pub proof fn law_layers_lie_in_order(local: bool, hooks: bool, layers: Vec<HookLayer>)
    requires
        call_ensures(hook_layers, (local, hooks), layers),
    ensures
        local && hooks ==> layers@ == seq![
            HookLayer::Local,
            HookLayer::Checkpoint,
            HookLayer::PauseGate,
        ],
        local && !hooks ==> layers@ == seq![HookLayer::Local, HookLayer::PauseGate],
        !local && hooks ==> layers@ == seq![
            HookLayer::NoHooks,
            HookLayer::Checkpoint,
            HookLayer::PauseGate,
        ],
        !local && !hooks ==> layers@ == seq![HookLayer::PauseGate],
{
}

/// The observers are the caller's in their order, then the controls', then
/// the dispatcher, each once.
pub proof fn law_observers_are_in_order<O>(
    callers: Vec<O>,
    controls: O,
    dispatcher: O,
    observers: Vec<O>,
)
    requires
        call_ensures(run_observers::<O>, (callers, controls, dispatcher), observers),
    ensures
        observers@.len() == callers@.len() + 2,
        forall|i: int| 0 <= i < callers@.len() ==> #[trigger] observers@[i] == callers@[i],
        observers@[callers@.len() as int] == controls,
        observers@.last() == dispatcher,
{
}

/// A start calls the host with the graphs that admission let through, a
/// resume with nothing added to the records, and both with the observers.
pub proof fn law_host_is_called_as_entered<G, C, A, O>(
    execution: Execution<G, C>,
    observers: Vec<O>,
    call: HostCall<G, C, A, O>,
)
    requires
        call_ensures(host_call::<G, C, A, O>, (execution, observers), call),
    ensures
        execution matches Execution::Start(graphs) ==> (call matches HostCall::Start {
            graph,
            children,
            observers: observing,
        } && graph == graphs.graph && children == graphs.children && observing@ == observers@),
        execution is Resume ==> (call matches HostCall::Resume { additions, observers: observing }
            && additions@.len() == 0 && observing@ == observers@),
{
}

/// The platform's records go by the id that the run key names, and by a fresh
/// one only where it names none.
pub proof fn law_records_go_by_the_named_id<I, E>(parsed: Result<I, E>, id: RecordId<I>)
    requires
        call_ensures(spec_run_id::<I, E>, (parsed,), id),
    ensures
        parsed matches Ok(named) ==> (id matches RecordId::Named(own) && own == named),
        parsed is Err ==> id is Fresh,
{
}

/// The writing of a receipt goes from its encoding to its directory to its
/// bytes, ends with them or where a step before fails, and stays where it is
/// at an event that tells of another step.
pub proof fn law_receipt_is_taken_further(
    state: ReceiptState,
    event: ReceiptEvent,
    next: Option<ReceiptState>,
)
    requires
        call_ensures(write_receipt, (state, event), next),
    ensures
        match (state, event) {
            (ReceiptState::Encode, ReceiptEvent::Encoded(Some(encoded))) => next matches Some(
                ReceiptState::CreateDir(bytes),
            ) && bytes@ == encoded@,
            (ReceiptState::Encode, ReceiptEvent::Encoded(None)) => next is None,
            (ReceiptState::CreateDir(encoded), ReceiptEvent::DirCreated(done)) => if done {
                next matches Some(ReceiptState::Write(bytes)) && bytes@ == encoded@
            } else {
                next is None
            },
            (ReceiptState::Write(_), ReceiptEvent::Written(_)) => next is None,
            _ => next is Some && next->0@ == state@,
        },
{
}

/// Each step of a run asks for its one action, with what the step holds.
pub proof fn law_step_asks_for_its_action<'a>(state: RunState, action: RunAction<'a>)
    requires
        call_ensures(RunState::action, (&state,), action),
    ensures
        match state {
            RunState::OpenForResume(run) => action matches RunAction::OpenRecord {
                run_key,
                access,
            } && run_key@ == run.run_key@ && access == Access::Read,
            RunState::ReadState(_) => action is ReadState,
            RunState::Host { resumed, .. } => if resumed {
                action is ResumeHost
            } else {
                action is StartHost
            },
            RunState::StopCancelTask(_) => action is StopCancelTask,
            RunState::ShutDownDispatcher(_) => action is ShutDownDispatcher,
            RunState::Receipt(ReceiptState::Encode, _) => action is EncodeReceipt,
            RunState::Receipt(ReceiptState::CreateDir(_), _) => action is CreateRunDir,
            RunState::Receipt(ReceiptState::Write(bytes), _) => (
            action matches RunAction::WriteReceipt(writing) && writing@ == bytes@),
            RunState::OpenRecord(ending) => action matches RunAction::OpenRecord {
                run_key,
                access,
            } && run_key@ == ending.run.run_key@ && access == Access::Read,
            RunState::InspectRecord(_) => action is InspectRecord,
            RunState::AskCheckpoint(_) => action is AskCheckpoint,
            RunState::Done(_) => action is Report,
        },
{
}

/// The host's error stays with the run from where the host ended, and the
/// run's key and hooks with it, until the record is inspected.
pub proof fn law_step_keeps_run_and_host_error(state: RunState, event: RunEvent, next: RunState)
    requires
        call_ensures(RunState::step, (state, event), next),
    ensures
        match (state, event) {
            (RunState::Host { run, .. }, RunEvent::HostEnded(error)) => {
                &&& next matches RunState::StopCancelTask(ending)
                &&& ending.run@ == run@
                &&& ending.host_error is Some <==> error is Some
                &&& error is Some ==> ending.host_error->0@ == error->0@
            },
            (RunState::StopCancelTask(ending), RunEvent::CancelTaskStopped) => (
            next matches RunState::ShutDownDispatcher(kept) && kept@ == ending@),
            (RunState::ShutDownDispatcher(ending), RunEvent::DispatcherDown) => (
            next matches RunState::Receipt(receipt, kept) && receipt is Encode && kept@
                == ending@),
            (RunState::Receipt(_, ending), RunEvent::Receipt(_)) => match next {
                RunState::Receipt(_, kept) => kept@ == ending@,
                RunState::OpenRecord(kept) => kept@ == ending@,
                _ => false,
            },
            (RunState::OpenRecord(ending), RunEvent::Opened(Ok(_))) => (
            next matches RunState::InspectRecord(kept) && kept@ == ending@),
            _ => true,
        },
{
}

/// A step of the receipt goes where the writing of a receipt goes, and to the
/// record once nothing is left to do for it.
pub proof fn law_step_writes_the_receipt(
    receipt: ReceiptState,
    ending: Ending,
    event: ReceiptEvent,
    next: RunState,
    left: Option<ReceiptState>,
)
    requires
        call_ensures(
            RunState::step,
            (RunState::Receipt(receipt, ending), RunEvent::Receipt(event)),
            next,
        ),
        call_ensures(write_receipt, (receipt, event), left),
    ensures
        match left {
            Some(more) => next matches RunState::Receipt(kept, _) && kept@ == more@,
            None => next is OpenRecord,
        },
{
}

/// An event that does not tell what came of the action that was to be done
/// leaves the run where it is.
pub proof fn law_step_stays_at_a_stray_event(state: RunState, event: RunEvent, next: RunState)
    requires
        call_ensures(RunState::step, (state, event), next),
    ensures
        match (state, event) {
            (RunState::OpenForResume(_), RunEvent::Opened(_)) => true,
            (RunState::ReadState(_), RunEvent::StateRead(_)) => true,
            (RunState::Host { .. }, RunEvent::HostEnded(_)) => true,
            (RunState::StopCancelTask(_), RunEvent::CancelTaskStopped) => true,
            (RunState::ShutDownDispatcher(_), RunEvent::DispatcherDown) => true,
            (RunState::Receipt(_, _), RunEvent::Receipt(_)) => true,
            (RunState::OpenRecord(_), RunEvent::Opened(_)) => true,
            (RunState::InspectRecord(_), RunEvent::Inspected(_)) => true,
            (RunState::AskCheckpoint(_), RunEvent::Checkpoint(_)) => true,
            _ => next@ == state@,
        },
{
}

/// A step of a resume: an opened record is read, a stored state that lets it
/// go leads to the host, and every other ends the run with its error.
pub proof fn law_step_resumes_or_refuses(
    state: RunState,
    event: RunEvent,
    next: RunState,
    checked: Result<(), RunError>,
)
    requires
        call_ensures(RunState::step, (state, event), next),
        event matches RunEvent::StateRead(read) ==> call_ensures(
            check_resumable,
            (match read {
                Ok(stored) => Reading::Read(stored),
                Err(cause) => Reading::NotRead(cause),
            },),
            checked,
        ),
    ensures
        match (state, event) {
            (RunState::OpenForResume(run), RunEvent::Opened(Ok(_))) => (
            next matches RunState::ReadState(kept) && kept@ == run@),
            (RunState::OpenForResume(_), RunEvent::Opened(Err(cause))) => (
            next matches RunState::Done(Err(RunError::Open(own))) && own@ == cause@),
            (RunState::ReadState(run), RunEvent::StateRead(_)) => match checked {
                Ok(_) => next matches RunState::Host { run: kept, resumed } && resumed && kept@
                    == run@,
                Err(refusal) => next matches RunState::Done(Err(error)) && error@ == refusal@,
            },
            _ => true,
        },
{
}

/// A step from an inspected record: an outcome that it supports is reported
/// as it is, after the question for a failed checkpoint where the run has
/// hooks, and an error ends the run.
pub proof fn law_step_reports_the_inspection(
    state: RunState,
    event: RunEvent,
    next: RunState,
    given: Result<RunOutcome, RunError>,
)
    requires
        call_ensures(RunState::step, (state, event), next),
        state matches RunState::InspectRecord(ending) ==> (
        event matches RunEvent::Inspected(Ok(inspection)) ==> call_ensures(
            outcome,
            (inspection, ending.host_error),
            given,
        )),
    ensures
        match (state, event) {
            (RunState::OpenRecord(_), RunEvent::Opened(Err(cause))) => (
            next matches RunState::Done(Err(RunError::Open(own))) && own@ == cause@),
            (RunState::InspectRecord(_), RunEvent::Inspected(Err(cause))) => (
            next matches RunState::Done(Err(RunError::Inspect(own))) && own@ == cause@),
            (RunState::InspectRecord(ending), RunEvent::Inspected(Ok(_))) => match given {
                Ok(said) => if ending.run.hooks {
                    next matches RunState::AskCheckpoint(kept) && kept@ == said@
                } else {
                    next matches RunState::Done(Ok(kept)) && kept@ == said@
                },
                Err(why) => next matches RunState::Done(Err(error)) && error@ == why@,
            },
            _ => true,
        },
{
}

/// A step from the question for a failed checkpoint: one that the hooks know
/// of makes the run a failure with what it says, and else the outcome stays.
pub proof fn law_step_reports_a_failed_checkpoint(
    state: RunState,
    event: RunEvent,
    next: RunState,
)
    requires
        call_ensures(RunState::step, (state, event), next),
    ensures
        match (state, event) {
            (RunState::AskCheckpoint(given), RunEvent::Checkpoint(Some(failure))) => {
                &&& next matches RunState::Done(Ok(reported))
                &&& reported.status == RunStatus::Failed
                &&& reported.failure is Some
                &&& reported.failure->0@ == failure@
                &&& reported.complete == given.complete
                &&& texts(reported.incomplete@) == texts(given.incomplete@)
            },
            (RunState::AskCheckpoint(given), RunEvent::Checkpoint(None)) => (
            next matches RunState::Done(Ok(reported)) && reported@ == given@),
            (RunState::Done(_), _) => next@ == state@,
            _ => true,
        },
{
}

/// A run gives its result if and only if it is over, and else itself.
pub proof fn law_run_gives_its_result(
    state: RunState,
    given: Result<Result<RunOutcome, RunError>, RunState>,
)
    requires
        call_ensures(RunState::result, (state,), given),
    ensures
        state matches RunState::Done(result) ==> (given matches Ok(own) && own == result),
        !(state is Done) ==> (given matches Err(own) && own == state),
{
}

} // verus!
