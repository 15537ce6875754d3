use fabro_petri::error::{Cause, RunError};
use fabro_petri::record::{
    check_resumable, inspect, outcome, parse_status, Access, InvocationId, InvocationRecord,
    InvocationResult, Reading, RunInspection, RunStatus, StoredState, RECORD_ACCESS,
};

fn cause(message: &str) -> Cause {
    Cause {
        message: message.to_string(),
        source: None,
    }
}

fn record(invocation: InvocationId, failure: Option<&str>) -> InvocationRecord {
    InvocationRecord {
        invocation,
        result: Some(InvocationResult {
            failure: failure.map(ToOwned::to_owned),
        }),
    }
}

fn inspection(status: Option<&str>, invocations: Vec<InvocationRecord>) -> RunInspection {
    RunInspection {
        status: status.map(ToOwned::to_owned),
        root: InvocationId::Root,
        invocations,
        complete: false,
        incomplete: vec!["no finish".to_string()],
    }
}

#[test]
fn each_status_word_is_read() {
    assert_eq!(parse_status(&"success".to_string()), Some(RunStatus::Success));
    assert_eq!(parse_status(&"failed".to_string()), Some(RunStatus::Failed));
    assert_eq!(
        parse_status(&"cancelled".to_string()),
        Some(RunStatus::Cancelled)
    );
    assert_eq!(parse_status(&"Success".to_string()), None);
    assert_eq!(parse_status(&String::new()), None);
}

#[test]
fn the_outcome_is_what_the_record_says() {
    let said = outcome(
        inspection(
            Some("failed"),
            vec![
                record(InvocationId::Child(1), Some("child broke")),
                record(InvocationId::Root, Some("step broke")),
                record(InvocationId::Root, Some("again")),
            ],
        ),
        None,
    )
    .unwrap();
    assert_eq!(said.status, RunStatus::Failed);
    assert_eq!(said.failure, Some("step broke".to_string()));
    assert!(!said.complete);
    assert_eq!(said.incomplete, vec!["no finish".to_string()]);
}

#[test]
fn only_the_root_failure_counts() {
    let said = outcome(
        inspection(
            Some("success"),
            vec![
                record(InvocationId::Child(1), Some("child broke")),
                record(InvocationId::Root, None),
            ],
        ),
        None,
    )
    .unwrap();
    assert_eq!(said.status, RunStatus::Success);
    assert_eq!(said.failure, None);
    let pending = InvocationRecord {
        invocation: InvocationId::Root,
        result: None,
    };
    let said = outcome(inspection(Some("cancelled"), vec![pending]), None).unwrap();
    assert_eq!(said.status, RunStatus::Cancelled);
    assert_eq!(said.failure, None);
}

#[test]
fn the_root_is_the_one_that_the_record_names() {
    let mut inspected = inspection(
        Some("failed"),
        vec![
            record(InvocationId::Root, Some("not asked for")),
            record(InvocationId::Child(4), Some("asked for")),
        ],
    );
    inspected.root = InvocationId::Child(4);
    assert_eq!(
        outcome(inspected, None).unwrap().failure,
        Some("asked for".to_string())
    );
}

#[test]
fn a_recorded_status_outweighs_the_host_error() {
    let said = outcome(
        inspection(Some("success"), Vec::new()),
        Some("host broke".to_string()),
    )
    .unwrap();
    assert_eq!(said.status, RunStatus::Success);
}

#[test]
fn a_record_without_a_status_is_unfinished() {
    match outcome(inspection(None, Vec::new()), Some("host broke".to_string())) {
        Err(RunError::Unfinished(reasons)) => assert_eq!(
            reasons,
            vec!["no finish".to_string(), "host broke".to_string()]
        ),
        other => panic!("{other:?}"),
    }
    match outcome(inspection(Some("running"), Vec::new()), None) {
        Err(RunError::Unfinished(reasons)) => {
            assert_eq!(reasons, vec!["no finish".to_string()])
        }
        other => panic!("{other:?}"),
    }
}

#[test]
fn a_record_with_its_root_can_be_resumed() {
    let state = StoredState {
        invocations: vec![InvocationId::Child(3), InvocationId::Root],
    };
    assert!(check_resumable(Reading::Read(state)).is_ok());
}

#[test]
fn a_record_without_a_root_cannot_be_resumed() {
    let state = StoredState {
        invocations: vec![InvocationId::Child(3)],
    };
    assert!(matches!(
        check_resumable(Reading::Read(state)),
        Err(RunError::NothingToResume)
    ));
    let state = StoredState {
        invocations: Vec::new(),
    };
    assert!(matches!(
        check_resumable(Reading::Read(state)),
        Err(RunError::NothingToResume)
    ));
}

#[test]
fn a_record_that_cannot_be_read_cannot_be_resumed() {
    match check_resumable(Reading::NotOpened(cause("locked"))) {
        Err(RunError::Open(error)) => assert_eq!(error.message, "locked"),
        other => panic!("{other:?}"),
    }
    match check_resumable(Reading::NotRead(cause("torn"))) {
        Err(RunError::Read(error)) => assert_eq!(error.message, "torn"),
        other => panic!("{other:?}"),
    }
}

#[test]
fn an_inspection_fails_by_where_it_failed() {
    match inspect(Reading::NotOpened(cause("locked"))) {
        Err(RunError::Open(error)) => assert_eq!(error.message, "locked"),
        other => panic!("{other:?}"),
    }
    match inspect(Reading::NotRead(cause("torn"))) {
        Err(RunError::Inspect(error)) => assert_eq!(error.message, "torn"),
        other => panic!("{other:?}"),
    }
    let inspected = inspect(Reading::Read(inspection(Some("failed"), Vec::new()))).unwrap();
    assert_eq!(inspected.status, Some("failed".to_string()));
}

#[test]
fn reading_from_an_opened_record_keeps_what_came_of_it() {
    assert!(matches!(Reading::of_opened(Ok(7)), Reading::Read(7)));
    match Reading::<u8>::of_opened(Err(cause("torn"))) {
        Reading::NotRead(error) => assert_eq!(error.message, "torn"),
        other => panic!("{other:?}"),
    }
}

#[test]
fn a_record_is_opened_without_its_lease() {
    assert_eq!(RECORD_ACCESS, Access::Read);
    assert_ne!(RECORD_ACCESS, Access::Lease);
}
