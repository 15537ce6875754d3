use fabro_petri::conclusion::{conclusion, Conclusion, FailureReason};
use fabro_petri::engine::{outcome_of, RunAction, RunContext, RunEvent, RunState};
use fabro_petri::error::{Cause, RunError};
use fabro_petri::receipt::{write_receipt, ReceiptEvent, ReceiptState};
use fabro_petri::record::{
    Access, InvocationId, InvocationRecord, InvocationResult, RunInspection, RunOutcome, RunStatus,
    StoredState,
};

fn cause(message: &str) -> Cause {
    Cause {
        message: message.to_string(),
        source: None,
    }
}

fn inspected(status: Option<&str>) -> RunEvent {
    RunEvent::Inspected(Ok(RunInspection {
        status: status.map(ToOwned::to_owned),
        root: InvocationId::Root,
        invocations: Vec::new(),
        complete: true,
        incomplete: Vec::new(),
    }))
}

fn after_all(state: RunState, events: Vec<RunEvent>) -> RunState {
    let mut state = state;
    for event in events {
        state = state.step(event);
    }
    state
}

fn result(state: RunState) -> Result<RunOutcome, RunError> {
    match state.result() {
        Ok(result) => result,
        Err(state) => panic!("{state:?}"),
    }
}

fn through_the_host(host_error: Option<&str>) -> Vec<RunEvent> {
    vec![
        RunEvent::HostEnded(host_error.map(ToOwned::to_owned)),
        RunEvent::CancelTaskStopped,
        RunEvent::DispatcherDown,
        RunEvent::Receipt(ReceiptEvent::Encoded(Some(vec![7, 8]))),
        RunEvent::Receipt(ReceiptEvent::DirCreated(true)),
        RunEvent::Receipt(ReceiptEvent::Written(true)),
        RunEvent::Opened(Ok(())),
    ]
}

fn context(hooks: bool) -> RunContext {
    RunContext {
        run_key: "run-7".to_string(),
        hooks,
    }
}

fn start(hooks: bool) -> RunState {
    RunState::Host {
        run: context(hooks),
        resumed: false,
    }
}

fn opening(state: &RunState) -> (&str, Access) {
    match state.action() {
        RunAction::OpenRecord { run_key, access } => (run_key, access),
        other => panic!("{other:?}"),
    }
}

#[test]
fn a_start_goes_through_each_action_in_order() {
    let mut state = start(true);
    assert!(matches!(state.action(), RunAction::StartHost));
    state = state.step(RunEvent::HostEnded(None));
    assert!(matches!(state.action(), RunAction::StopCancelTask));
    state = state.step(RunEvent::CancelTaskStopped);
    assert!(matches!(state.action(), RunAction::ShutDownDispatcher));
    state = state.step(RunEvent::DispatcherDown);
    assert!(matches!(state.action(), RunAction::EncodeReceipt));
    state = state.step(RunEvent::Receipt(ReceiptEvent::Encoded(Some(vec![7, 8]))));
    assert!(matches!(state.action(), RunAction::CreateRunDir));
    state = state.step(RunEvent::Receipt(ReceiptEvent::DirCreated(true)));
    match state.action() {
        RunAction::WriteReceipt(bytes) => assert_eq!(bytes, &vec![7, 8]),
        other => panic!("{other:?}"),
    }
    state = state.step(RunEvent::Receipt(ReceiptEvent::Written(true)));
    assert_eq!(opening(&state), ("run-7", Access::Read));
    state = state.step(RunEvent::Opened(Ok(())));
    assert!(matches!(state.action(), RunAction::InspectRecord));
    state = state.step(inspected(Some("success")));
    assert!(matches!(state.action(), RunAction::AskCheckpoint));
    state = state.step(RunEvent::Checkpoint(None));
    assert!(matches!(state.action(), RunAction::Report));
    assert_eq!(conclusion(&result(state)), Conclusion::Succeeded);
}

#[test]
fn a_run_without_hooks_is_not_asked_for_a_checkpoint() {
    let state = after_all(start(false), through_the_host(None)).step(inspected(Some("cancelled")));
    assert_eq!(result(state).unwrap().status, RunStatus::Cancelled);
}

#[test]
fn a_failed_checkpoint_is_reported_in_place_of_the_cancellation() {
    let state = after_all(start(true), through_the_host(None))
        .step(inspected(Some("cancelled")))
        .step(RunEvent::Checkpoint(Some("checkpoint_failed".to_string())));
    let reported = result(state);
    assert_eq!(reported.as_ref().unwrap().status, RunStatus::Failed);
    assert_eq!(
        conclusion(&reported),
        Conclusion::Failed {
            reason: FailureReason::WorkflowError,
            message: "checkpoint_failed".to_string(),
        }
    );
}

#[test]
fn a_run_without_a_status_says_the_host_error() {
    let state = after_all(start(true), through_the_host(Some("host broke"))).step(inspected(None));
    assert_eq!(
        conclusion(&result(state)),
        Conclusion::Failed {
            reason: FailureReason::WorkflowError,
            message: "the run ended without recording a status; the record says: host broke"
                .to_string(),
        }
    );
}

#[test]
fn a_record_that_cannot_be_read_back_ends_the_run() {
    let mut events = through_the_host(None);
    events.pop();
    let state = after_all(start(true), events).step(RunEvent::Opened(Err(cause("locked"))));
    assert!(matches!(result(state), Err(RunError::Open(_))));
    let state = after_all(start(true), through_the_host(None))
        .step(RunEvent::Inspected(Err(cause("torn"))));
    assert!(matches!(result(state), Err(RunError::Inspect(_))));
}

#[test]
fn a_resume_goes_to_the_host_once_its_root_is_read() {
    let state = RunState::OpenForResume(context(false));
    assert_eq!(opening(&state), ("run-7", Access::Read));
    let state = state.step(RunEvent::Opened(Ok(())));
    assert!(matches!(state.action(), RunAction::ReadState));
    let state = state.step(RunEvent::StateRead(Ok(StoredState {
        invocations: vec![InvocationId::Root],
    })));
    assert!(matches!(state.action(), RunAction::ResumeHost));
    let state = after_all(state, through_the_host(None)).step(inspected(Some("success")));
    assert_eq!(result(state).unwrap().status, RunStatus::Success);
}

#[test]
fn a_refused_resume_never_reaches_the_host() {
    let empty = RunEvent::StateRead(Ok(StoredState {
        invocations: Vec::new(),
    }));
    let state = RunState::ReadState(context(true)).step(empty);
    assert!(matches!(state.action(), RunAction::Report));
    let state = after_all(state, through_the_host(None));
    assert!(matches!(result(state), Err(RunError::NothingToResume)));
    let state =
        RunState::OpenForResume(context(true)).step(RunEvent::Opened(Err(cause("locked"))));
    assert!(matches!(result(state), Err(RunError::Open(_))));
    let state =
        RunState::ReadState(context(true)).step(RunEvent::StateRead(Err(cause("torn"))));
    assert!(matches!(result(state), Err(RunError::Read(_))));
}

#[test]
fn the_host_is_not_entered_again() {
    let state = start(true).step(RunEvent::HostEnded(None));
    let state = state.step(RunEvent::HostEnded(Some("again".to_string())));
    assert!(matches!(state.action(), RunAction::StopCancelTask));
    let state = state.step(RunEvent::StateRead(Ok(StoredState {
        invocations: vec![InvocationId::Root],
    })));
    assert!(matches!(state.action(), RunAction::StopCancelTask));
}

#[test]
fn a_record_alone_is_opened_once_for_reading() {
    let state = outcome_of("run-9");
    assert_eq!(opening(&state), ("run-9", Access::Read));
    let state = state.step(RunEvent::Opened(Ok(())));
    assert!(matches!(state.action(), RunAction::InspectRecord));
    let state = state.step(RunEvent::Inspected(Ok(RunInspection {
        status: Some("failed".to_string()),
        root: InvocationId::Root,
        invocations: vec![InvocationRecord {
            invocation: InvocationId::Root,
            result: Some(InvocationResult {
                failure: Some("step broke".to_string()),
            }),
        }],
        complete: true,
        incomplete: Vec::new(),
    })));
    assert!(matches!(state.action(), RunAction::Report));
    let said = result(state).unwrap();
    assert_eq!(said.status, RunStatus::Failed);
    assert_eq!(said.failure, Some("step broke".to_string()));
}

#[test]
fn a_record_alone_fails_by_where_it_failed() {
    let state = outcome_of("run-9").step(RunEvent::Opened(Err(cause("locked"))));
    assert!(matches!(result(state), Err(RunError::Open(_))));
    let state = outcome_of("run-9")
        .step(RunEvent::Opened(Ok(())))
        .step(RunEvent::Inspected(Err(cause("torn"))));
    assert!(matches!(result(state), Err(RunError::Inspect(_))));
    let state = outcome_of("run-9")
        .step(RunEvent::Opened(Ok(())))
        .step(inspected(None));
    assert!(matches!(result(state), Err(RunError::Unfinished(_))));
}

#[test]
fn a_receipt_has_no_say_in_the_result() {
    for failed_at in 0..4 {
        let mut events = vec![
            RunEvent::HostEnded(None),
            RunEvent::CancelTaskStopped,
            RunEvent::DispatcherDown,
        ];
        let bytes = if failed_at == 0 { None } else { Some(vec![7]) };
        events.push(RunEvent::Receipt(ReceiptEvent::Encoded(bytes)));
        if failed_at > 0 {
            events.push(RunEvent::Receipt(ReceiptEvent::DirCreated(failed_at > 1)));
        }
        if failed_at > 1 {
            events.push(RunEvent::Receipt(ReceiptEvent::Written(failed_at > 2)));
        }
        let state = after_all(start(false), events);
        assert_eq!(opening(&state), ("run-7", Access::Read));
        let state = state.step(RunEvent::Opened(Ok(()))).step(inspected(Some("success")));
        assert_eq!(conclusion(&result(state)), Conclusion::Succeeded);
    }
}

#[test]
fn a_receipt_is_written_as_it_was_encoded() {
    let state = write_receipt(
        ReceiptState::Encode,
        ReceiptEvent::Encoded(Some(vec![1, 2, 3])),
    )
    .unwrap();
    let state = write_receipt(state, ReceiptEvent::DirCreated(true)).unwrap();
    match &state {
        ReceiptState::Write(bytes) => assert_eq!(bytes, &vec![1, 2, 3]),
        other => panic!("{other:?}"),
    }
    assert!(write_receipt(state, ReceiptEvent::Written(false)).is_none());
    assert!(write_receipt(ReceiptState::Encode, ReceiptEvent::Encoded(None)).is_none());
    assert!(
        write_receipt(ReceiptState::CreateDir(vec![1]), ReceiptEvent::DirCreated(false)).is_none()
    );
    assert!(matches!(
        write_receipt(ReceiptState::Encode, ReceiptEvent::Written(true)),
        Some(ReceiptState::Encode)
    ));
}

#[test]
fn a_stray_event_changes_nothing() {
    let state = start(true).step(RunEvent::DispatcherDown);
    assert!(matches!(state.action(), RunAction::StartHost));
    assert!(state.result().is_err());
    let done = RunState::Done(Err(RunError::NothingToResume)).step(RunEvent::HostEnded(None));
    assert!(matches!(result(done), Err(RunError::NothingToResume)));
}
