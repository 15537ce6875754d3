//! What each value of the engine stands for, field by field: nothing that a
//! value holds is lost or changed in what is said of it.

use vstd::prelude::*;

use crate::conclusion::{Conclusion, ConclusionView};
use crate::engine::{
    Ending, RunAction, RunActionView, RunContext, RunEvent, RunEventView, RunState, RunStateView,
};
use crate::error::{Cause, RunError, RunErrorView};
use crate::plan::{Execution, Platform, RunOptions, RunPlan, RunRequest};
use crate::provider::{ProviderView, SandboxProviderKind};
use crate::receipt::{ReceiptEvent, ReceiptEventView, ReceiptState, ReceiptStateView};
use crate::record::{
    optional_text, result_view, InvocationRecord, Reading, ReadingView, RunInspection, RunOutcome,
    StoredState,
};
use crate::text::texts;

verus! {

/// A list of strings stands for their texts, one for one and in order.
pub proof fn law_texts_are_one_for_one(list: Seq<String>)
    ensures
        texts(list).len() == list.len(),
        forall|i: int| 0 <= i < list.len() ==> #[trigger] texts(list)[i] == list[i]@,
{
}

/// An optional string stands for its text where there is one.
pub proof fn law_optional_text_is_the_text(text: Option<String>)
    ensures
        text is None ==> optional_text(text) is None,
        text matches Some(said) ==> optional_text(text) == Some(said@),
{
}

/// A provider stands for its kind, and another one for its name.
pub proof fn law_provider_is_seen_by_its_kind(provider: SandboxProviderKind)
    ensures
        provider is Local ==> provider@ == ProviderView::Local,
        provider is Docker ==> provider@ == ProviderView::Docker,
        provider is Daytona ==> provider@ == ProviderView::Daytona,
        provider matches SandboxProviderKind::Other(name) ==> provider@ == ProviderView::Other(
            name@,
        ),
{
}

/// An error of the store or the host stands for what it says, followed by
/// what the error under it stands for.
pub proof fn law_cause_is_seen_with_those_under_it(cause: Cause)
    ensures
        cause@.len() > 0,
        cause@[0] == cause.message@,
        cause.source is None ==> cause@.len() == 1,
        cause.source matches Some(source) ==> cause@.skip(1) == source@,
{
    if let Some(source) = cause.source {
        assert(cause@.skip(1) =~= source@);
    }
}

/// A run error stands for its kind with what it carries.
pub proof fn law_run_error_is_seen_whole(error: RunError)
    ensures
        error matches RunError::UnsupportedProvider { provider } ==> error@ == (
        RunErrorView::UnsupportedProvider { provider: provider@ }),
        error matches RunError::Open(cause) ==> error@ == RunErrorView::Open(cause@),
        error matches RunError::Read(cause) ==> error@ == RunErrorView::Read(cause@),
        error is NothingToResume ==> error@ == RunErrorView::NothingToResume,
        error matches RunError::Inspect(cause) ==> error@ == RunErrorView::Inspect(cause@),
        error matches RunError::Unfinished(reasons) ==> error@ == RunErrorView::Unfinished(
            texts(reasons@),
        ),
{
}

/// The stored state stands for every invocation that it declares.
pub proof fn law_stored_state_is_seen_whole(state: StoredState)
    ensures
        state@ == state.invocations@,
{
}

/// A record of an invocation stands for the invocation and its result.
pub proof fn law_invocation_is_seen_whole(record: InvocationRecord)
    ensures
        record@.invocation == record.invocation,
        record.result is None ==> record@.result is None,
        record.result matches Some(result) ==> (record@.result matches Some(failure) && match
        result.failure {
            Some(message) => failure == Some(message@),
            None => failure is None,
        }),
{
}

/// An inspection stands for all that it found.
pub proof fn law_inspection_is_seen_whole(inspection: RunInspection)
    ensures
        inspection.status is None ==> inspection@.status is None,
        inspection.status matches Some(word) ==> inspection@.status == Some(word@),
        inspection@.root == inspection.root,
        inspection@.invocations.len() == inspection.invocations@.len(),
        forall|i: int|
            0 <= i < inspection.invocations@.len() ==> #[trigger] inspection@.invocations[i]
                == inspection.invocations@[i]@,
        inspection@.complete == inspection.complete,
        inspection@.incomplete == texts(inspection.incomplete@),
{
}

/// A reading stands for what came of it.
pub proof fn law_reading_is_seen_whole<T: View>(reading: Reading<T>)
    ensures
        reading matches Reading::NotOpened(cause) ==> reading@ == ReadingView::<T::V>::NotOpened(
            cause@,
        ),
        reading matches Reading::NotRead(cause) ==> reading@ == ReadingView::<T::V>::NotRead(
            cause@,
        ),
        reading matches Reading::Read(said) ==> reading@ == ReadingView::Read(said@),
{
}

/// An outcome stands for all that it says.
pub proof fn law_outcome_is_seen_whole(outcome: RunOutcome)
    ensures
        outcome@.status == outcome.status,
        outcome.failure is None ==> outcome@.failure is None,
        outcome.failure matches Some(message) ==> outcome@.failure == Some(message@),
        outcome@.complete == outcome.complete,
        outcome@.incomplete == texts(outcome.incomplete@),
{
}

/// A result stands for its outcome or its error.
pub proof fn law_result_is_seen_whole(result: Result<RunOutcome, RunError>)
    ensures
        result matches Ok(outcome) ==> (result_view(result) matches Ok(seen) && seen == outcome@),
        result matches Err(error) ==> (result_view(result) matches Err(seen) && seen == error@),
{
}

/// A conclusion stands for its kind, its reason and its message.
pub proof fn law_conclusion_is_seen_whole(conclusion: Conclusion)
    ensures
        conclusion is Succeeded ==> conclusion@ == ConclusionView::Succeeded,
        conclusion matches Conclusion::Failed { reason, message } ==> conclusion@ == (
        ConclusionView::Failed { reason, message: message@ }),
{
}

/// A request stands for its run id, its provider, how it is entered and
/// which of the optional parts it has.
pub proof fn law_request_is_seen_by_what_it_has<P: Platform>(request: RunRequest<P>)
    ensures
        request@.run_id == request.run_id@,
        request@.provider == request.provider@,
        request@.resume <==> request.execution == Execution::<P::Graph, P::Children>::Resume,
        request@.secrets <==> request.secrets is Some,
        request@.blobs <==> request.blobs is Some,
        request@.hooks <==> request.hooks is Some,
{
}

/// The options of a run stand for what they set.
pub proof fn law_options_are_seen_whole<'a, D>(options: RunOptions<'a, D>)
    ensures
        options@.run_key == options.run_key@,
        options@.retention == options.retention,
        options@.backend == options.backend,
        options@.lost_sandbox == options.lost_sandbox,
        options@.daytona == options.daytona,
{
}

/// A plan stands for how the run is put together.
pub proof fn law_plan_is_seen_whole<'a, P: Platform>(plan: RunPlan<'a, P>)
    ensures
        plan@.runtime_flag == plan.runtime.flag,
        plan@.options == plan.options@,
        plan@.resumed == plan.resumed,
        plan@.installs == plan.installs@,
        plan@.wiring == plan.wiring@,
{
}

/// A plan that passes on a request's handles holds the request's own run
/// directory, runtime and store, and its secrets and blob table where it has
/// them.
pub proof fn law_plan_holds_the_requests_handles<'a, P: Platform>(
    plan: RunPlan<'a, P>,
    request: RunRequest<P>,
)
    ensures
        plan.passes_on(request) ==> {
            &&& *plan.options.run_dir == request.run_dir
            &&& *plan.runtime.spec == request.runtime
            &&& *plan.runtime.store == request.store
            &&& plan.runtime.secrets is Some <==> request.secrets is Some
            &&& plan.runtime.secrets matches Some(secrets) ==> *secrets == request.secrets->0
            &&& plan.runtime.blobs is Some <==> request.blobs is Some
            &&& plan.runtime.blobs matches Some(blobs) ==> *blobs == request.blobs->0
        },
{
}

/// The state of a receipt stands for its step and its bytes.
pub proof fn law_receipt_state_is_seen_whole(state: ReceiptState)
    ensures
        state is Encode ==> state@ == ReceiptStateView::Encode,
        state matches ReceiptState::CreateDir(bytes) ==> state@ == ReceiptStateView::CreateDir(
            bytes@,
        ),
        state matches ReceiptState::Write(bytes) ==> state@ == ReceiptStateView::Write(bytes@),
{
}

/// What came of a receipt stands for which step it tells of and how it went.
pub proof fn law_receipt_event_is_seen_whole(event: ReceiptEvent)
    ensures
        event matches ReceiptEvent::Encoded(encoded) ==> (event@ matches ReceiptEventView::Encoded(
            seen,
        ) && match encoded {
            Some(bytes) => seen == Some(bytes@),
            None => seen is None,
        }),
        event matches ReceiptEvent::DirCreated(done) ==> event@ == ReceiptEventView::DirCreated(
            done,
        ),
        event matches ReceiptEvent::Written(done) ==> event@ == ReceiptEventView::Written(done),
{
}

/// A run's context stands for its key and whether it has hooks.
pub proof fn law_context_is_seen_whole(run: RunContext)
    ensures
        run@.run_key == run.run_key@,
        run@.hooks == run.hooks,
{
}

/// An ending stands for its run and the host's error.
pub proof fn law_ending_is_seen_whole(ending: Ending)
    ensures
        ending@.run == ending.run@,
        ending.host_error is None ==> ending@.host_error is None,
        ending.host_error matches Some(error) ==> ending@.host_error == Some(error@),
{
}

/// The state of a run stands for how far the run is and what it holds.
pub proof fn law_state_is_seen_whole(state: RunState)
    ensures
        state matches RunState::OpenForResume(run) ==> state@ == RunStateView::OpenForResume(run@),
        state matches RunState::ReadState(run) ==> state@ == RunStateView::ReadState(run@),
        state matches RunState::Host { run, resumed } ==> state@ == (RunStateView::Host {
            run: run@,
            resumed,
        }),
        state matches RunState::StopCancelTask(ending) ==> state@ == RunStateView::StopCancelTask(
            ending@,
        ),
        state matches RunState::ShutDownDispatcher(ending) ==> state@
            == RunStateView::ShutDownDispatcher(ending@),
        state matches RunState::Receipt(receipt, ending) ==> state@ == RunStateView::Receipt(
            receipt@,
            ending@,
        ),
        state matches RunState::OpenRecord(ending) ==> state@ == RunStateView::OpenRecord(ending@),
        state matches RunState::InspectRecord(ending) ==> state@ == RunStateView::InspectRecord(
            ending@,
        ),
        state matches RunState::AskCheckpoint(outcome) ==> state@ == RunStateView::AskCheckpoint(
            outcome@,
        ),
        state matches RunState::Done(result) ==> state@ == RunStateView::Done(result_view(result)),
{
}

/// An action stands for what is to be done, and with what.
pub proof fn law_action_is_seen_whole<'a>(action: RunAction<'a>)
    ensures
        action matches RunAction::OpenRecord { run_key, access } ==> action@ == (
        RunActionView::OpenRecord { run_key: run_key@, access }),
        action is ReadState ==> action@ == RunActionView::ReadState,
        action is StartHost ==> action@ == RunActionView::StartHost,
        action is ResumeHost ==> action@ == RunActionView::ResumeHost,
        action is StopCancelTask ==> action@ == RunActionView::StopCancelTask,
        action is ShutDownDispatcher ==> action@ == RunActionView::ShutDownDispatcher,
        action is EncodeReceipt ==> action@ == RunActionView::EncodeReceipt,
        action is CreateRunDir ==> action@ == RunActionView::CreateRunDir,
        action matches RunAction::WriteReceipt(bytes) ==> action@ == RunActionView::WriteReceipt(
            bytes@,
        ),
        action is InspectRecord ==> action@ == RunActionView::InspectRecord,
        action is AskCheckpoint ==> action@ == RunActionView::AskCheckpoint,
        action is Report ==> action@ == RunActionView::Report,
{
}

/// An event stands for what came of which action.
pub proof fn law_event_is_seen_whole(event: RunEvent)
    ensures
        event matches RunEvent::Opened(opened) ==> (event@ matches RunEventView::Opened(seen)
            && match opened {
            Ok(_) => seen is Ok,
            Err(cause) => seen matches Err(causes) && causes == cause@,
        }),
        event matches RunEvent::StateRead(read) ==> (event@ matches RunEventView::StateRead(seen)
            && match read {
            Ok(state) => seen matches Ok(declared) && declared == state@,
            Err(cause) => seen matches Err(causes) && causes == cause@,
        }),
        event matches RunEvent::HostEnded(error) ==> (event@ matches RunEventView::HostEnded(seen)
            && match error {
            Some(message) => seen == Some(message@),
            None => seen is None,
        }),
        event is CancelTaskStopped ==> event@ == RunEventView::CancelTaskStopped,
        event is DispatcherDown ==> event@ == RunEventView::DispatcherDown,
        event matches RunEvent::Receipt(receipt) ==> event@ == RunEventView::Receipt(receipt@),
        event matches RunEvent::Inspected(inspected) ==> (event@ matches RunEventView::Inspected(
            seen,
        ) && match inspected {
            Ok(inspection) => seen matches Ok(found) && found == inspection@,
            Err(cause) => seen matches Err(causes) && causes == cause@,
        }),
        event matches RunEvent::Checkpoint(failure) ==> (event@ matches RunEventView::Checkpoint(
            seen,
        ) && match failure {
            Some(message) => seen == Some(message@),
            None => seen is None,
        }),
{
}

} // verus!
