use fabro_petri::conclusion::{conclusion, failure_message, Conclusion, FailureReason};
use fabro_petri::error::{error_chain, Cause, RunError};
use fabro_petri::provider::SandboxProviderKind;
use fabro_petri::record::{RunOutcome, RunStatus};
use fabro_petri::text::join;

fn outcome_with(status: RunStatus, failure: Option<&str>, complete: bool) -> RunOutcome {
    RunOutcome {
        status,
        failure: failure.map(ToOwned::to_owned),
        complete,
        incomplete: if complete {
            Vec::new()
        } else {
            vec!["execution 0 did not finish".to_string()]
        },
    }
}

fn cause(messages: &[&str]) -> Cause {
    Cause {
        message: messages[0].to_string(),
        source: if messages.len() > 1 {
            Some(Box::new(cause(&messages[1..])))
        } else {
            None
        },
    }
}

#[test]
fn a_whole_successful_record_concludes_succeeded() {
    assert_eq!(
        conclusion(&Ok(outcome_with(RunStatus::Success, None, true))),
        Conclusion::Succeeded
    );
}

#[test]
fn a_cancelled_record_concludes_cancelled() {
    assert_eq!(
        conclusion(&Ok(outcome_with(RunStatus::Cancelled, None, true))),
        Conclusion::Failed {
            reason: FailureReason::Cancelled,
            message: "the run was cancelled".to_string(),
        }
    );
}

#[test]
fn a_failed_record_carries_the_root_failure_and_the_incomplete_reasons() {
    assert_eq!(
        conclusion(&Ok(outcome_with(
            RunStatus::Failed,
            Some("step `say` failed"),
            false
        ))),
        Conclusion::Failed {
            reason: FailureReason::WorkflowError,
            message: "step `say` failed (record incomplete: execution 0 did not finish)"
                .to_string(),
        }
    );
}

#[test]
fn a_host_error_concludes_with_its_chain() {
    let error = RunError::Unfinished(vec!["no status".to_string()]);
    assert_eq!(
        conclusion(&Err(error)),
        Conclusion::Failed {
            reason: FailureReason::WorkflowError,
            message: "the run ended without recording a status; the record says: no status"
                .to_string(),
        }
    );
}

#[test]
fn an_incomplete_success_is_a_workflow_error() {
    assert_eq!(
        conclusion(&Ok(outcome_with(RunStatus::Success, None, false))),
        Conclusion::Failed {
            reason: FailureReason::WorkflowError,
            message:
                "the run's record is incomplete (record incomplete: execution 0 did not finish)"
                    .to_string(),
        }
    );
}

#[test]
fn a_failure_without_a_message_says_that_the_run_failed() {
    assert_eq!(
        conclusion(&Ok(outcome_with(RunStatus::Failed, None, true))),
        Conclusion::Failed {
            reason: FailureReason::WorkflowError,
            message: "the run failed".to_string(),
        }
    );
}

#[test]
fn a_cancellation_outweighs_the_root_failure() {
    assert_eq!(
        failure_message(&outcome_with(RunStatus::Cancelled, Some("killed"), false)),
        "the run was cancelled (record incomplete: execution 0 did not finish)"
    );
}

#[test]
fn an_incomplete_success_keeps_the_root_failure() {
    assert_eq!(
        failure_message(&outcome_with(RunStatus::Success, Some("late"), false)),
        "late (record incomplete: execution 0 did not finish)"
    );
}

#[test]
fn every_incomplete_reason_is_said() {
    let mut outcome = outcome_with(RunStatus::Failed, None, false);
    outcome.incomplete = vec!["a".to_string(), "b".to_string(), "c".to_string()];
    assert_eq!(
        failure_message(&outcome),
        "the run failed (record incomplete: a; b; c)"
    );
}

#[test]
fn each_error_says_what_it_is() {
    assert_eq!(
        RunError::UnsupportedProvider {
            provider: SandboxProviderKind::Other("firecracker".to_string()),
        }
        .message(),
        "the run's sandbox provider `firecracker` is not one Petri serves"
    );
    assert_eq!(
        RunError::Open(cause(&["locked"])).message(),
        "the run's record could not be opened"
    );
    assert_eq!(
        RunError::Read(cause(&["torn"])).message(),
        "the run's record could not be read"
    );
    assert_eq!(
        RunError::NothingToResume.message(),
        "the run's record has no root invocation, so there is nothing to resume"
    );
    assert_eq!(
        RunError::Inspect(cause(&["torn"])).message(),
        "the run's record could not be inspected"
    );
    assert_eq!(
        RunError::Unfinished(Vec::new()).message(),
        "the run ended without recording a status; the record says: "
    );
    assert_eq!(
        RunError::Unfinished(vec!["a".to_string(), "b".to_string()]).message(),
        "the run ended without recording a status; the record says: a; b"
    );
}

#[test]
fn the_chain_says_every_cause_in_order() {
    assert_eq!(
        error_chain(&RunError::Open(cause(&["no store", "refused", "port closed"]))),
        "the run's record could not be opened: no store: refused: port closed"
    );
    assert_eq!(
        error_chain(&RunError::Read(cause(&["torn"]))),
        "the run's record could not be read: torn"
    );
    assert_eq!(
        error_chain(&RunError::Inspect(cause(&["bad log", "byte 7"]))),
        "the run's record could not be inspected: bad log: byte 7"
    );
    assert_eq!(
        error_chain(&RunError::NothingToResume),
        "the run's record has no root invocation, so there is nothing to resume"
    );
}

#[test]
fn an_error_gives_the_one_under_it() {
    assert!(RunError::NothingToResume.source().is_none());
    let error = RunError::Inspect(cause(&["bad log", "byte 7"]));
    assert_eq!(error.source().unwrap().message, "bad log");
}

#[test]
fn joining_puts_the_separator_between_neighbours() {
    assert_eq!(join(&Vec::new(), ", "), "");
    assert_eq!(join(&vec!["a".to_string()], ", "), "a");
    assert_eq!(
        join(&vec!["a".to_string(), String::new(), "c".to_string()], ", "),
        "a, , c"
    );
}
