//! How a run goes from its request to its result, step by step.

use vstd::prelude::*;

use crate::engine::{
    ContextView, EndingView, RunActionView, RunEventView, RunStateView,
};
use crate::error::RunErrorView;
use crate::laws::{
    after_all, all_answer, law_result_is_final, law_run_ends, law_run_reports_its_record,
    lemma_after_all_in_turn, lemma_answered_at, reports_the_record,
};
use crate::laws::record::{law_status_is_one_of_three_words, states_a_status};
use crate::plan::{Platform, RunRequest};
use crate::receipt::{ReceiptEventView, ReceiptStateView};
use crate::record::{
    Access, InvocationId, OutcomeView, Reading, RunInspection, RunStatus, StoredState,
};

verus! {

/// Where the requested run begins.
pub open spec fn begun<P: Platform>(request: RunRequest<P>) -> RunStateView {
    RunStateView::beginning(request@.context(), request@.resume)
}

/// A requested run begins by its id and with the hooks that the request has:
/// a start at the host, a resume with the opening of its record.
pub proof fn law_run_begins_as_requested<P: Platform>(request: RunRequest<P>)
    ensures
        request.execution is Start ==> (begun(request) matches RunStateView::Host { run, resumed }
            && !resumed && run.run_key == request.run_id@ && run.hooks == request.hooks is Some),
        request.execution is Resume ==> (begun(request) matches RunStateView::OpenForResume(run)
            && run.run_key == request.run_id@ && run.hooks == request.hooks is Some),
{
}

/// A record read alone is opened under its key, as that of a run without
/// hooks and without a host error.
pub proof fn law_record_alone_begins_at_its_opening(run_key: Seq<char>)
    ensures
        RunStateView::record_alone(run_key) matches RunStateView::OpenRecord(ending)
            && ending.run.run_key == run_key && !ending.run.hooks && ending.host_error is None,
{
}

/// Each step of a run has its one action, with what the step holds.
pub proof fn law_each_step_has_its_action(
    run: ContextView,
    ending: EndingView,
    bytes: Seq<u8>,
    outcome: OutcomeView,
    result: Result<OutcomeView, RunErrorView>,
)
    ensures
        RunStateView::OpenForResume(run).action() == (RunActionView::OpenRecord {
            run_key: run.run_key,
            access: Access::Read,
        }),
        RunStateView::ReadState(run).action() == RunActionView::ReadState,
        (RunStateView::Host { run, resumed: false }).action() == RunActionView::StartHost,
        (RunStateView::Host { run, resumed: true }).action() == RunActionView::ResumeHost,
        RunStateView::StopCancelTask(ending).action() == RunActionView::StopCancelTask,
        RunStateView::ShutDownDispatcher(ending).action() == RunActionView::ShutDownDispatcher,
        RunStateView::Receipt(ReceiptStateView::Encode, ending).action()
            == RunActionView::EncodeReceipt,
        RunStateView::Receipt(ReceiptStateView::CreateDir(bytes), ending).action()
            == RunActionView::CreateRunDir,
        RunStateView::Receipt(ReceiptStateView::Write(bytes), ending).action()
            == RunActionView::WriteReceipt(bytes),
        RunStateView::OpenRecord(ending).action() == (RunActionView::OpenRecord {
            run_key: ending.run.run_key,
            access: Access::Read,
        }),
        RunStateView::InspectRecord(ending).action() == RunActionView::InspectRecord,
        RunStateView::AskCheckpoint(outcome).action() == RunActionView::AskCheckpoint,
        RunStateView::Done(result).action() == RunActionView::Report,
{
}

/// An event answers a run if and only if it tells what came of the action
/// that was to be done.
pub proof fn law_event_answers_its_action(state: RunStateView, event: RunEventView)
    ensures
        state.answered_by(event) <==> match state.action() {
            RunActionView::OpenRecord { .. } => event is Opened,
            RunActionView::ReadState => event is StateRead,
            RunActionView::StartHost => event is HostEnded,
            RunActionView::ResumeHost => event is HostEnded,
            RunActionView::StopCancelTask => event is CancelTaskStopped,
            RunActionView::ShutDownDispatcher => event is DispatcherDown,
            RunActionView::EncodeReceipt => event matches RunEventView::Receipt(receipt)
                && receipt is Encoded,
            RunActionView::CreateRunDir => event matches RunEventView::Receipt(receipt)
                && receipt is DirCreated,
            RunActionView::WriteReceipt(_) => event matches RunEventView::Receipt(receipt)
                && receipt is Written,
            RunActionView::InspectRecord => event is Inspected,
            RunActionView::AskCheckpoint => event is Checkpoint,
            RunActionView::Report => false,
        },
{
}

/// A record that was opened is read; one that could not be ends the run with
/// the cause.
pub proof fn law_opened_record_is_read(
    run: ContextView,
    ending: EndingView,
    cause: Seq<Seq<char>>,
)
    ensures
        RunStateView::OpenForResume(run).after(RunEventView::Opened(Ok(())))
            == RunStateView::ReadState(run),
        RunStateView::OpenRecord(ending).after(RunEventView::Opened(Ok(())))
            == RunStateView::InspectRecord(ending),
        RunStateView::OpenForResume(run).after(RunEventView::Opened(Err(cause)))
            == RunStateView::Done(Err(RunErrorView::Open(cause))),
        RunStateView::OpenRecord(ending).after(RunEventView::Opened(Err(cause)))
            == RunStateView::Done(Err(RunErrorView::Open(cause))),
{
}

/// A resume whose stored state was read and declares the root invocation at
/// any place, among any number of others, goes to the host next.
pub proof fn law_declared_root_is_resumed(run: ContextView, state: StoredState, i: int)
    requires
        0 <= i < state.invocations@.len(),
        state.invocations@[i] == InvocationId::Root,
    ensures
        ({
            let next = RunStateView::ReadState(run).after(RunEventView::StateRead(Ok(state@)));
            &&& next.action() is ResumeHost
            &&& next == (RunStateView::Host { run, resumed: true })
        }),
{
    assert(state@[i] == InvocationId::Root);
}

/// A resume whose stored state declares no root invocation, or could not be
/// read, ends there, with an error that says which.
pub proof fn law_undeclared_root_is_not_resumed(
    run: ContextView,
    declared: Seq<InvocationId>,
    cause: Seq<Seq<char>>,
)
    requires
        forall|i: int| 0 <= i < declared.len() ==> declared[i] != InvocationId::Root,
    ensures
        RunStateView::ReadState(run).after(RunEventView::StateRead(Ok(declared)))
            == RunStateView::Done(Err(RunErrorView::NothingToResume)),
        RunStateView::ReadState(run).after(RunEventView::StateRead(Err(cause)))
            == RunStateView::Done(Err(RunErrorView::Read(cause))),
{
}

/// Once the host has ended, the cancel task is stopped, then the dispatcher
/// is shut down, then the receipt is encoded, with the run and what the host
/// said kept all along.
pub proof fn law_ended_run_is_wound_up_in_order(
    run: ContextView,
    resumed: bool,
    host_error: Option<Seq<char>>,
)
    ensures
        ({
            let ending = EndingView { run, host_error };
            let stop = (RunStateView::Host { run, resumed }).after(
                RunEventView::HostEnded(host_error),
            );
            let shut_down = stop.after(RunEventView::CancelTaskStopped);
            let receipt = shut_down.after(RunEventView::DispatcherDown);
            &&& stop == RunStateView::StopCancelTask(ending)
            &&& shut_down == RunStateView::ShutDownDispatcher(ending)
            &&& receipt == RunStateView::Receipt(ReceiptStateView::Encode, ending)
        }),
{
}

/// A receipt is written as the bytes that it was encoded as, once the run
/// directory is there.
pub proof fn law_receipt_is_written_as_encoded(ending: EndingView, bytes: Seq<u8>, written: bool)
    ensures
        ({
            let encode = RunStateView::Receipt(ReceiptStateView::Encode, ending);
            let create = encode.after(
                RunEventView::Receipt(ReceiptEventView::Encoded(Some(bytes))),
            );
            let write = create.after(RunEventView::Receipt(ReceiptEventView::DirCreated(true)));
            let done = write.after(RunEventView::Receipt(ReceiptEventView::Written(written)));
            &&& create.action() == RunActionView::CreateRunDir
            &&& write.action() == RunActionView::WriteReceipt(bytes)
            &&& done == RunStateView::OpenRecord(ending)
        }),
{
}

/// A receipt that could not be encoded, or has no directory to go to, is
/// given up, and the run goes on to its record.
pub proof fn law_receipt_is_given_up(ending: EndingView, bytes: Seq<u8>)
    ensures
        RunStateView::Receipt(ReceiptStateView::Encode, ending).after(
            RunEventView::Receipt(ReceiptEventView::Encoded(None)),
        ) == RunStateView::OpenRecord(ending),
        RunStateView::Receipt(ReceiptStateView::CreateDir(bytes), ending).after(
            RunEventView::Receipt(ReceiptEventView::DirCreated(false)),
        ) == RunStateView::OpenRecord(ending),
{
}

/// The writing of a receipt alone goes from its encoding to its directory to
/// its bytes, ends where a step fails, and stays where it is at an event that
/// tells of another step.
pub proof fn law_receipt_goes_step_by_step(bytes: Seq<u8>, done: bool)
    ensures
        ReceiptStateView::Encode.after(ReceiptEventView::Encoded(Some(bytes))) == Some(
            ReceiptStateView::CreateDir(bytes),
        ),
        ReceiptStateView::Encode.after(ReceiptEventView::Encoded(None)) is None,
        ReceiptStateView::Encode.after(ReceiptEventView::DirCreated(done)) == Some(
            ReceiptStateView::Encode,
        ),
        ReceiptStateView::Encode.after(ReceiptEventView::Written(done)) == Some(
            ReceiptStateView::Encode,
        ),
        ReceiptStateView::CreateDir(bytes).after(ReceiptEventView::DirCreated(true)) == Some(
            ReceiptStateView::Write(bytes),
        ),
        ReceiptStateView::CreateDir(bytes).after(ReceiptEventView::DirCreated(false)) is None,
        ReceiptStateView::CreateDir(bytes).after(ReceiptEventView::Written(done)) == Some(
            ReceiptStateView::CreateDir(bytes),
        ),
        forall|encoded: Option<Seq<u8>>| #[trigger]
            ReceiptStateView::CreateDir(bytes).after(ReceiptEventView::Encoded(encoded)) == Some(
                ReceiptStateView::CreateDir(bytes),
            ),
        ReceiptStateView::Write(bytes).after(ReceiptEventView::Written(done)) is None,
        ReceiptStateView::Write(bytes).after(ReceiptEventView::DirCreated(done)) == Some(
            ReceiptStateView::Write(bytes),
        ),
        forall|encoded: Option<Seq<u8>>| #[trigger]
            ReceiptStateView::Write(bytes).after(ReceiptEventView::Encoded(encoded)) == Some(
                ReceiptStateView::Write(bytes),
            ),
{
}

/// A record that supports an outcome leads to the question for a failed
/// checkpoint if the run has hooks, and else to its report as it is; one that
/// supports none ends the run with the error.
pub proof fn law_inspected_run_is_asked_or_reported(
    ending: EndingView,
    reading: Reading<RunInspection>,
)
    requires
        !(reading is NotOpened),
    ensures
        ({
            let said = reading@.outcome(ending.host_error);
            let next = match reading {
                Reading::Read(inspection) => RunStateView::InspectRecord(ending).after(
                    RunEventView::Inspected(Ok(inspection@)),
                ),
                Reading::NotRead(cause) => RunStateView::InspectRecord(ending).after(
                    RunEventView::Inspected(Err(cause@)),
                ),
                Reading::NotOpened(_) => arbitrary(),
            };
            &&& said matches Ok(outcome) ==> (ending.run.hooks ==> next
                == RunStateView::AskCheckpoint(outcome)) && (!ending.run.hooks ==> next
                == RunStateView::Done(said))
            &&& said is Err ==> next == RunStateView::Done(said)
        }),
{
}

/// The answer of the hooks ends the run: a failed checkpoint as a failure
/// with what it says, the rest of the outcome as the record has it.
pub proof fn law_hooks_answer_ends_the_run(outcome: OutcomeView, failure: Option<Seq<char>>)
    ensures
        RunStateView::AskCheckpoint(outcome).after(
            RunEventView::Checkpoint(failure),
        ) matches RunStateView::Done(Ok(reported)) && {
            &&& reported.complete == outcome.complete
            &&& reported.incomplete == outcome.incomplete
            &&& failure is Some ==> reported.status == RunStatus::Failed && reported.failure
                == failure
            &&& failure is None ==> reported == outcome
        },
{
}

/// Whether the run is in this context, as far as it still is in one, and asks
/// for a failed checkpoint only with hooks.
spec fn is_of(state: RunStateView, run: ContextView) -> bool {
    match state {
        RunStateView::OpenForResume(of) => of == run,
        RunStateView::ReadState(of) => of == run,
        RunStateView::Host { run: of, .. } => of == run,
        RunStateView::StopCancelTask(ending) => ending.run == run,
        RunStateView::ShutDownDispatcher(ending) => ending.run == run,
        RunStateView::Receipt(_, ending) => ending.run == run,
        RunStateView::OpenRecord(ending) => ending.run == run,
        RunStateView::InspectRecord(ending) => ending.run == run,
        RunStateView::AskCheckpoint(_) => run.hooks,
        RunStateView::Done(_) => true,
    }
}

/// A run stays in its context.
proof fn lemma_stays_in_its_context(
    state: RunStateView,
    events: Seq<RunEventView>,
    run: ContextView,
)
    requires
        is_of(state, run),
    ensures
        is_of(after_all(state, events), run),
    decreases events.len(),
{
    if events.len() > 0 {
        lemma_stays_in_its_context(state.after(events[0]), events.drop_first(), run);
    }
}

/// Whatever events led there, a requested run whose record was inspected and
/// supports an outcome asks for a failed checkpoint next if and only if the
/// request has the platform's hooks.
pub proof fn law_checkpoint_is_asked_for_where_the_request_has_hooks<P: Platform>(
    request: RunRequest<P>,
    events: Seq<RunEventView>,
    inspection: RunInspection,
)
    requires
        after_all(begun(request), events).action() is InspectRecord,
    ensures
        ({
            let next = after_all(begun(request), events).after(
                RunEventView::Inspected(Ok(inspection@)),
            );
            &&& next.action() is AskCheckpoint <==> request.hooks is Some
                && states_a_status(inspection)
            &&& states_a_status(inspection) && request.hooks is None ==> (
            next matches RunStateView::Done(result) && result is Ok)
        }),
{
    lemma_stays_in_its_context(begun(request), events, request@.context());
    if let Some(word) = inspection.status {
        law_status_is_one_of_three_words(word@);
    }
}

/// A requested run never asks for a failed checkpoint where the request has
/// no hooks.
pub proof fn law_run_without_hooks_asks_for_no_checkpoint<P: Platform>(
    request: RunRequest<P>,
    events: Seq<RunEventView>,
)
    requires
        request.hooks is None,
    ensures
        !(after_all(begun(request), events).action() is AskCheckpoint),
{
    lemma_stays_in_its_context(begun(request), events, request@.context());
}

/// From a request with hooks, a run that ends with an outcome ends with what
/// the hooks said of a failed checkpoint, whatever events answered its
/// actions; and if they knew of one, the result is a failure with what it
/// says.
pub proof fn law_failed_checkpoint_is_the_requested_runs_result<P: Platform>(
    request: RunRequest<P>,
    events: Seq<RunEventView>,
)
    requires
        request.hooks is Some,
        all_answer(begun(request), events),
        after_all(begun(request), events) matches RunStateView::Done(result) && result is Ok,
    ensures
        events.len() > 0,
        events.last() matches RunEventView::Checkpoint(failure) && (failure is Some ==> (after_all(
            begun(request),
            events,
        ) matches RunStateView::Done(Ok(outcome)) && outcome.status == RunStatus::Failed
            && outcome.failure == failure)),
{
    let n = events.len() as int;
    assert(n > 0);
    let before = after_all(begun(request), events.take(n - 1));
    let last = seq![events[n - 1]];
    lemma_stays_in_its_context(begun(request), events.take(n - 1), request@.context());
    lemma_answered_at(begun(request), events, n - 1);
    assert(events =~= events.take(n - 1) + last);
    lemma_after_all_in_turn(begun(request), events.take(n - 1), last);
    assert(after_all(before.after(last[0]), last.drop_first()) == before.after(last[0]));
}

/// A requested run that ends with an outcome reports its record: what the
/// host said is the answer of the host, and hooks are those of the request.
pub proof fn law_requested_run_reports_its_record<P: Platform>(
    request: RunRequest<P>,
    events: Seq<RunEventView>,
)
    requires
        all_answer(begun(request), events),
        after_all(begun(request), events) matches RunStateView::Done(result) && result is Ok,
    ensures
        ({
            let at_host: int = if request.execution is Resume {
                2
            } else {
                0
            };
            &&& events.len() > at_host + 4
            &&& events[at_host] matches RunEventView::HostEnded(host_error)
            &&& after_all(begun(request), events) matches RunStateView::Done(result)
            &&& reports_the_record(
                EndingView {
                    run: ContextView {
                        run_key: request.run_id@,
                        hooks: request.hooks is Some,
                    },
                    host_error,
                },
                events.skip(at_host),
                result,
            )
        }),
{
    let run = ContextView { run_key: request.run_id@, hooks: request.hooks is Some };
    if request.execution is Resume {
        let opened = begun(request).after(events[0]);
        let reading = events.drop_first();
        assert(after_all(opened, reading) == after_all(begun(request), events));
        assert(all_answer(opened, reading));
        law_run_ends(opened, reading);
        if let RunStateView::Done(result) = opened {
            law_result_is_final(result, reading);
        }
        assert(opened == RunStateView::ReadState(run));
        let read = opened.after(reading[0]);
        let hosted = reading.drop_first();
        assert(after_all(read, hosted) == after_all(opened, reading));
        assert(all_answer(read, hosted));
        if let RunStateView::Done(result) = read {
            law_result_is_final(result, hosted);
        }
        assert(read == (RunStateView::Host { run, resumed: true }));
        assert(events.skip(2) =~= hosted);
        law_run_reports_its_record(run, true, hosted);
    } else {
        assert(events.skip(0) =~= events);
        law_run_reports_its_record(run, false, events);
    }
}

} // verus!
