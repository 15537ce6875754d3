//! Executing a run: what is to be done next, from what came of the last
//! thing that was done.

use vstd::prelude::*;

use crate::error::{Cause, RunError, RunErrorView};
use crate::plan::{plan, PlanView, Platform, RequestView, RunPlan, RunRequest};
use crate::receipt::{
    write_receipt, ReceiptEvent, ReceiptEventView, ReceiptState, ReceiptStateView,
};
use crate::record::{
    check_resumable, inspect, optional_text, outcome, read_back, result_view, Access,
    InspectionView, InvocationId, OutcomeView, Reading, RunInspection, RunOutcome,
    RunStatus, StoredState, RECORD_ACCESS,
};

verus! {

/// What stays the same of a run throughout.
#[derive(Debug)]
pub struct RunContext {
    /// The key that the run's record goes by in the store.
    pub run_key: String,
    /// Whether the run has the platform's own hooks.
    pub hooks: bool,
}

/// What a run that left the host still has to report.
#[derive(Debug)]
pub struct Ending {
    pub run: RunContext,
    /// What the host's error said, when it ended with one.
    pub host_error: Option<String>,
}

/// How far a run has come.
#[derive(Debug)]
pub enum RunState {
    /// The record of a run to resume is to be opened.
    OpenForResume(RunContext),
    /// The stored state of a run to resume is to be read.
    ReadState(RunContext),
    /// The host is to run the admitted graphs to their end, or to continue
    /// the run from its records.
    Host { run: RunContext, resumed: bool },
    /// The task that waits for a cancellation is to be stopped.
    StopCancelTask(Ending),
    /// The interview dispatcher is to be shut down.
    ShutDownDispatcher(Ending),
    /// The interview receipt is to be written.
    Receipt(ReceiptState, Ending),
    /// The record is to be opened, to be read back.
    OpenRecord(Ending),
    /// The opened record is to be inspected.
    InspectRecord(Ending),
    /// The platform's hooks are to be asked for a failed checkpoint.
    AskCheckpoint(RunOutcome),
    /// The run is over.
    Done(Result<RunOutcome, RunError>),
}

/// What is to be done next for a run.
#[derive(Debug)]
pub enum RunAction<'a> {
    /// Open the run's record under this key and with this access.
    OpenRecord { run_key: &'a String, access: Access },
    /// Read the stored state of the opened record.
    ReadState,
    /// Run the admitted graphs through the host, by its one call.
    StartHost,
    /// Continue the run from its records through the host, by its one call.
    ResumeHost,
    /// Stop the task that waits for a cancellation.
    StopCancelTask,
    /// Shut the interview dispatcher down, which gives the receipt.
    ShutDownDispatcher,
    /// Encode the receipt.
    EncodeReceipt,
    /// Create the run directory.
    CreateRunDir,
    /// Write these bytes as the receipt.
    WriteReceipt(&'a Vec<u8>),
    /// Inspect the opened record.
    InspectRecord,
    /// Ask the platform's hooks for a failed checkpoint.
    AskCheckpoint,
    /// Report the result: nothing is left to do.
    Report,
}

/// What came of the last thing that was done for a run.
#[derive(Debug)]
pub enum RunEvent {
    /// The record was opened, or could not be.
    Opened(Result<(), Cause>),
    /// The stored state was read, or could not be.
    StateRead(Result<StoredState, Cause>),
    /// The host ended, with what its error said if it ended with one.
    HostEnded(Option<String>),
    /// No task waits for a cancellation any more.
    CancelTaskStopped,
    /// The interview dispatcher is down.
    DispatcherDown,
    /// Something came of the receipt.
    Receipt(ReceiptEvent),
    /// The record was inspected, or could not be.
    Inspected(Result<RunInspection, Cause>),
    /// The failed checkpoint that the platform's hooks know of, if any.
    Checkpoint(Option<String>),
}

/// What a [`RunContext`] stands for.
#[verifier::ext_equal]
pub struct ContextView {
    pub run_key: Seq<char>,
    pub hooks: bool,
}

/// What an [`Ending`] stands for.
#[verifier::ext_equal]
pub struct EndingView {
    pub run: ContextView,
    pub host_error: Option<Seq<char>>,
}

/// What a [`RunState`] stands for.
#[verifier::ext_equal]
pub enum RunStateView {
    OpenForResume(ContextView),
    ReadState(ContextView),
    Host { run: ContextView, resumed: bool },
    StopCancelTask(EndingView),
    ShutDownDispatcher(EndingView),
    Receipt(ReceiptStateView, EndingView),
    OpenRecord(EndingView),
    InspectRecord(EndingView),
    AskCheckpoint(OutcomeView),
    Done(Result<OutcomeView, RunErrorView>),
}

/// What a [`RunAction`] stands for.
#[verifier::ext_equal]
pub enum RunActionView {
    OpenRecord { run_key: Seq<char>, access: Access },
    ReadState,
    StartHost,
    ResumeHost,
    StopCancelTask,
    ShutDownDispatcher,
    EncodeReceipt,
    CreateRunDir,
    WriteReceipt(Seq<u8>),
    InspectRecord,
    AskCheckpoint,
    Report,
}

/// What a [`RunEvent`] stands for.
pub enum RunEventView {
    Opened(Result<(), Seq<Seq<char>>>),
    StateRead(Result<Seq<InvocationId>, Seq<Seq<char>>>),
    HostEnded(Option<Seq<char>>),
    CancelTaskStopped,
    DispatcherDown,
    Receipt(ReceiptEventView),
    Inspected(Result<InspectionView, Seq<Seq<char>>>),
    Checkpoint(Option<Seq<char>>),
}

impl View for RunContext {
    type V = ContextView;

    open spec fn view(&self) -> ContextView {
        ContextView { run_key: self.run_key@, hooks: self.hooks }
    }
}

impl View for Ending {
    type V = EndingView;

    open spec fn view(&self) -> EndingView {
        EndingView { run: self.run@, host_error: optional_text(self.host_error) }
    }
}

impl View for RunState {
    type V = RunStateView;

    open spec fn view(&self) -> RunStateView {
        match self {
            RunState::OpenForResume(run) => RunStateView::OpenForResume(run@),
            RunState::ReadState(run) => RunStateView::ReadState(run@),
            RunState::Host { run, resumed } => RunStateView::Host { run: run@, resumed: *resumed },
            RunState::StopCancelTask(ending) => RunStateView::StopCancelTask(ending@),
            RunState::ShutDownDispatcher(ending) => RunStateView::ShutDownDispatcher(ending@),
            RunState::Receipt(receipt, ending) => RunStateView::Receipt(receipt@, ending@),
            RunState::OpenRecord(ending) => RunStateView::OpenRecord(ending@),
            RunState::InspectRecord(ending) => RunStateView::InspectRecord(ending@),
            RunState::AskCheckpoint(outcome) => RunStateView::AskCheckpoint(outcome@),
            RunState::Done(result) => RunStateView::Done(result_view(*result)),
        }
    }
}

impl<'a> View for RunAction<'a> {
    type V = RunActionView;

    open spec fn view(&self) -> RunActionView {
        match self {
            RunAction::OpenRecord { run_key, access } => RunActionView::OpenRecord {
                run_key: run_key@,
                access: *access,
            },
            RunAction::ReadState => RunActionView::ReadState,
            RunAction::StartHost => RunActionView::StartHost,
            RunAction::ResumeHost => RunActionView::ResumeHost,
            RunAction::StopCancelTask => RunActionView::StopCancelTask,
            RunAction::ShutDownDispatcher => RunActionView::ShutDownDispatcher,
            RunAction::EncodeReceipt => RunActionView::EncodeReceipt,
            RunAction::CreateRunDir => RunActionView::CreateRunDir,
            RunAction::WriteReceipt(bytes) => RunActionView::WriteReceipt(bytes@),
            RunAction::InspectRecord => RunActionView::InspectRecord,
            RunAction::AskCheckpoint => RunActionView::AskCheckpoint,
            RunAction::Report => RunActionView::Report,
        }
    }
}

impl View for RunEvent {
    type V = RunEventView;

    open spec fn view(&self) -> RunEventView {
        match self {
            RunEvent::Opened(Ok(_)) => RunEventView::Opened(Ok(())),
            RunEvent::Opened(Err(cause)) => RunEventView::Opened(Err(cause@)),
            RunEvent::StateRead(Ok(state)) => RunEventView::StateRead(Ok(state@)),
            RunEvent::StateRead(Err(cause)) => RunEventView::StateRead(Err(cause@)),
            RunEvent::HostEnded(error) => RunEventView::HostEnded(optional_text(*error)),
            RunEvent::CancelTaskStopped => RunEventView::CancelTaskStopped,
            RunEvent::DispatcherDown => RunEventView::DispatcherDown,
            RunEvent::Receipt(event) => RunEventView::Receipt(event@),
            RunEvent::Inspected(Ok(inspection)) => RunEventView::Inspected(Ok(inspection@)),
            RunEvent::Inspected(Err(cause)) => RunEventView::Inspected(Err(cause@)),
            RunEvent::Checkpoint(failure) => RunEventView::Checkpoint(optional_text(*failure)),
        }
    }
}

impl OutcomeView {
    /// The outcome once the platform's hooks were asked for a failed
    /// checkpoint, which cancelled the run if there was one: what is reported
    /// is the checkpoint's failure, not a cancellation.
    pub open spec fn with_checkpoint(self, failure: Option<Seq<char>>) -> OutcomeView {
        match failure {
            Some(_) => OutcomeView { status: RunStatus::Failed, failure, ..self },
            None => self,
        }
    }
}

impl RequestView {
    /// What stays the same of the requested run throughout.
    pub open spec fn context(self) -> ContextView {
        ContextView { run_key: self.run_id, hooks: self.hooks }
    }
}

impl RunStateView {
    /// Where a run begins: a fresh one at the host, a resumed one at its
    /// record.
    pub open spec fn beginning(run: ContextView, resumed: bool) -> RunStateView {
        if resumed {
            RunStateView::OpenForResume(run)
        } else {
            RunStateView::Host { run, resumed: false }
        }
    }

    /// Where the reading of a record alone begins: as for a run without hooks
    /// that the host ended without an error.
    pub open spec fn record_alone(run_key: Seq<char>) -> RunStateView {
        RunStateView::OpenRecord(
            EndingView { run: ContextView { run_key, hooks: false }, host_error: None },
        )
    }

    /// What is to be done next.
    pub open spec fn action(self) -> RunActionView {
        match self {
            RunStateView::OpenForResume(run) => RunActionView::OpenRecord {
                run_key: run.run_key,
                access: Access::Read,
            },
            RunStateView::ReadState(_) => RunActionView::ReadState,
            RunStateView::Host { resumed, .. } => if resumed {
                RunActionView::ResumeHost
            } else {
                RunActionView::StartHost
            },
            RunStateView::StopCancelTask(_) => RunActionView::StopCancelTask,
            RunStateView::ShutDownDispatcher(_) => RunActionView::ShutDownDispatcher,
            RunStateView::Receipt(receipt, _) => match receipt {
                ReceiptStateView::Encode => RunActionView::EncodeReceipt,
                ReceiptStateView::CreateDir(_) => RunActionView::CreateRunDir,
                ReceiptStateView::Write(bytes) => RunActionView::WriteReceipt(bytes),
            },
            RunStateView::OpenRecord(ending) => RunActionView::OpenRecord {
                run_key: ending.run.run_key,
                access: Access::Read,
            },
            RunStateView::InspectRecord(_) => RunActionView::InspectRecord,
            RunStateView::AskCheckpoint(_) => RunActionView::AskCheckpoint,
            RunStateView::Done(_) => RunActionView::Report,
        }
    }

    /// Whether the event tells what came of the thing to be done.
    pub open spec fn answered_by(self, event: RunEventView) -> bool {
        match self {
            RunStateView::OpenForResume(_) => event is Opened,
            RunStateView::ReadState(_) => event is StateRead,
            RunStateView::Host { .. } => event is HostEnded,
            RunStateView::StopCancelTask(_) => event is CancelTaskStopped,
            RunStateView::ShutDownDispatcher(_) => event is DispatcherDown,
            RunStateView::Receipt(receipt, _) => event matches RunEventView::Receipt(event)
                && receipt.answered_by(event),
            RunStateView::OpenRecord(_) => event is Opened,
            RunStateView::InspectRecord(_) => event is Inspected,
            RunStateView::AskCheckpoint(_) => event is Checkpoint,
            RunStateView::Done(_) => false,
        }
    }

    /// Where the run is after the event. An event that answers nothing
    /// changes nothing.
    pub open spec fn after(self, event: RunEventView) -> RunStateView {
        match (self, event) {
            (RunStateView::OpenForResume(run), RunEventView::Opened(opened)) => match opened {
                Ok(_) => RunStateView::ReadState(run),
                Err(cause) => RunStateView::Done(Err(RunErrorView::Open(cause))),
            },
            (RunStateView::ReadState(run), RunEventView::StateRead(read)) => {
                match read_back(read).refusal() {
                    None => RunStateView::Host { run, resumed: true },
                    Some(error) => RunStateView::Done(Err(error)),
                }
            },
            (
                RunStateView::Host { run, .. },
                RunEventView::HostEnded(host_error),
            ) => RunStateView::StopCancelTask(EndingView { run, host_error }),
            (
                RunStateView::StopCancelTask(ending),
                RunEventView::CancelTaskStopped,
            ) => RunStateView::ShutDownDispatcher(ending),
            (
                RunStateView::ShutDownDispatcher(ending),
                RunEventView::DispatcherDown,
            ) => RunStateView::Receipt(ReceiptStateView::Encode, ending),
            (RunStateView::Receipt(receipt, ending), RunEventView::Receipt(event)) => {
                match receipt.after(event) {
                    Some(left) => RunStateView::Receipt(left, ending),
                    None => RunStateView::OpenRecord(ending),
                }
            },
            (RunStateView::OpenRecord(ending), RunEventView::Opened(opened)) => match opened {
                Ok(_) => RunStateView::InspectRecord(ending),
                Err(cause) => RunStateView::Done(Err(RunErrorView::Open(cause))),
            },
            (RunStateView::InspectRecord(ending), RunEventView::Inspected(inspected)) => {
                match read_back(inspected).outcome(ending.host_error) {
                    Ok(outcome) => if ending.run.hooks {
                        RunStateView::AskCheckpoint(outcome)
                    } else {
                        RunStateView::Done(Ok(outcome))
                    },
                    Err(error) => RunStateView::Done(Err(error)),
                }
            },
            (
                RunStateView::AskCheckpoint(outcome),
                RunEventView::Checkpoint(failure),
            ) => RunStateView::Done(Ok(outcome.with_checkpoint(failure))),
            _ => self,
        }
    }
}

/// Reports a failed checkpoint, if there was one, in place of what the
/// record says of the run: the failed checkpoint is what cancelled it.
fn with_checkpoint(outcome: RunOutcome, failure: Option<String>) -> (reported: RunOutcome)
    ensures
        reported@ == outcome@.with_checkpoint(optional_text(failure)),
{
    match failure {
        Some(failure) => RunOutcome {
            status: RunStatus::Failed,
            failure: Some(failure),
            complete: outcome.complete,
            incomplete: outcome.incomplete,
        },
        None => outcome,
    }
}

/// Where a run is after its record was read back.
fn after_inspection(ending: Ending, reading: Reading<RunInspection>) -> (next: RunState)
    ensures
        next@ == match reading@.outcome(optional_text(ending.host_error)) {
            Ok(outcome) => if ending.run.hooks {
                RunStateView::AskCheckpoint(outcome)
            } else {
                RunStateView::Done(Ok(outcome))
            },
            Err(error) => RunStateView::Done(Err(error)),
        },
{
    let inspection: RunInspection = match inspect(reading) {
        Ok(inspection) => inspection,
        Err(error) => {
            return RunState::Done(Err(error));
        },
    };
    match outcome(inspection, ending.host_error) {
        Ok(outcome) => if ending.run.hooks {
            RunState::AskCheckpoint(outcome)
        } else {
            RunState::Done(Ok(outcome))
        },
        Err(error) => RunState::Done(Err(error)),
    }
}

/// Where a run to resume is after its record was read.
fn after_resume_check(run: RunContext, reading: Reading<StoredState>) -> (next: RunState)
    ensures
        next@ == match reading@.refusal() {
            None => RunStateView::Host { run: run@, resumed: true },
            Some(error) => RunStateView::Done(Err(error)),
        },
{
    match check_resumable(reading) {
        Ok(()) => RunState::Host { run, resumed: true },
        Err(error) => RunState::Done(Err(error)),
    }
}

impl RunState {
    /// What is to be done next.
    pub fn action(&self) -> (action: RunAction<'_>)
        ensures
            action@ == self@.action(),
    {
        match self {
            RunState::OpenForResume(run) => RunAction::OpenRecord {
                run_key: &run.run_key,
                access: RECORD_ACCESS,
            },
            RunState::ReadState(_) => RunAction::ReadState,
            RunState::Host { resumed, .. } => if *resumed {
                RunAction::ResumeHost
            } else {
                RunAction::StartHost
            },
            RunState::StopCancelTask(_) => RunAction::StopCancelTask,
            RunState::ShutDownDispatcher(_) => RunAction::ShutDownDispatcher,
            RunState::Receipt(receipt, _) => match receipt {
                ReceiptState::Encode => RunAction::EncodeReceipt,
                ReceiptState::CreateDir(_) => RunAction::CreateRunDir,
                ReceiptState::Write(bytes) => RunAction::WriteReceipt(bytes),
            },
            RunState::OpenRecord(ending) => RunAction::OpenRecord {
                run_key: &ending.run.run_key,
                access: RECORD_ACCESS,
            },
            RunState::InspectRecord(_) => RunAction::InspectRecord,
            RunState::AskCheckpoint(_) => RunAction::AskCheckpoint,
            RunState::Done(_) => RunAction::Report,
        }
    }

    /// Takes the run one event further. An event that does not answer what
    /// was to be done leaves the run where it is.
    pub fn step(self, event: RunEvent) -> (next: RunState)
        ensures
            next@ == self@.after(event@),
    {
        match (self, event) {
            (RunState::OpenForResume(run), RunEvent::Opened(opened)) => match opened {
                Ok(()) => RunState::ReadState(run),
                Err(cause) => after_resume_check(run, Reading::NotOpened(cause)),
            },
            (RunState::ReadState(run), RunEvent::StateRead(read)) => after_resume_check(
                run,
                Reading::of_opened(read),
            ),
            (RunState::Host { run, .. }, RunEvent::HostEnded(host_error)) =>
                RunState::StopCancelTask(Ending { run, host_error }),
            (RunState::StopCancelTask(ending), RunEvent::CancelTaskStopped) =>
                RunState::ShutDownDispatcher(ending),
            (RunState::ShutDownDispatcher(ending), RunEvent::DispatcherDown) => RunState::Receipt(
                ReceiptState::Encode,
                ending,
            ),
            (RunState::Receipt(receipt, ending), RunEvent::Receipt(event)) => {
                match write_receipt(receipt, event) {
                    Some(left) => RunState::Receipt(left, ending),
                    None => RunState::OpenRecord(ending),
                }
            },
            (RunState::OpenRecord(ending), RunEvent::Opened(opened)) => match opened {
                Ok(()) => RunState::InspectRecord(ending),
                Err(cause) => after_inspection(ending, Reading::NotOpened(cause)),
            },
            (RunState::InspectRecord(ending), RunEvent::Inspected(inspected)) => after_inspection(
                ending,
                Reading::of_opened(inspected),
            ),
            (RunState::AskCheckpoint(outcome), RunEvent::Checkpoint(failure)) => RunState::Done(
                Ok(with_checkpoint(outcome, failure)),
            ),
            (state, _) => state,
        }
    }

    /// The run's result, once the run is over; until then the run itself.
    pub fn result(self) -> (result: Result<Result<RunOutcome, RunError>, RunState>)
        ensures
            result == match self {
                RunState::Done(result) => Ok(result),
                _ => Err(self),
            },
    {
        match self {
            RunState::Done(result) => Ok(result),
            state => Err(state),
        }
    }
}

/// Begins a run: how it is put together, and where it begins. A run whose
/// provider no backend serves is refused before anything is done for it.
pub fn run<'a, P: Platform>(request: &'a RunRequest<P>) -> (begun: Result<
    (RunPlan<'a, P>, RunState),
    RunError,
>)
    ensures
        match begun {
            Ok((plan, state)) => {
                &&& request@.plan() == Ok::<PlanView, RunErrorView>(plan@)
                &&& plan.passes_on(*request)
                &&& state@ == RunStateView::beginning(request@.context(), request@.resume)
            },
            Err(error) => request@.plan() == Err::<PlanView, RunErrorView>(error@),
        },
{
    match plan(request) {
        Ok(plan) => {
            let run: RunContext = RunContext {
                run_key: plan.options.run_key.clone(),
                hooks: request.hooks.is_some(),
            };
            let state: RunState = if plan.resumed {
                RunState::OpenForResume(run)
            } else {
                RunState::Host { run, resumed: false }
            };
            Ok((plan, state))
        },
        Err(error) => Err(error),
    }
}

/// Begins the reading of what a run's record says: the same derivation that a
/// run ends with, for a caller that only holds the store. The record is opened
/// once, under the run's id and without its lease, and inspected.
pub fn outcome_of(run_id: &str) -> (state: RunState)
    ensures
        state@ == RunStateView::record_alone(run_id@),
        state@.action() == (RunActionView::OpenRecord { run_key: run_id@, access: Access::Read }),
        forall|cause: Seq<Seq<char>>| #[trigger]
            state@.after(RunEventView::Opened(Err(cause))) == RunStateView::Done(
                Err(RunErrorView::Open(cause)),
            ),
        state@.after(RunEventView::Opened(Ok(()))).action() is InspectRecord,
        forall|inspected: Result<InspectionView, Seq<Seq<char>>>| #[trigger]
            state@.after(RunEventView::Opened(Ok(()))).after(RunEventView::Inspected(inspected))
                == RunStateView::Done(read_back(inspected).outcome(None)),
{
    RunState::OpenRecord(
        Ending {
            run: RunContext { run_key: run_id.to_string(), hooks: false },
            host_error: None,
        },
    )
}

} // verus!
