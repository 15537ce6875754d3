//! How a finished run is reported to the platform.

use vstd::prelude::*;
use vstd::string::*;

use crate::error::{error_chain, RunError, RunErrorView};
use crate::record::{result_view, OutcomeView, RunOutcome, RunStatus};
use crate::text::{join, joined};

verus! {

/// Why a run is reported as failed.
#[derive(Clone, Copy, Debug, PartialEq, Eq, Structural)]
pub enum FailureReason {
    Cancelled,
    WorkflowError,
}

/// How the run is reported: what the platform's read side records as the
/// run's terminal event.
#[derive(Clone, Debug, PartialEq, Eq)]
pub enum Conclusion {
    /// The record says the run succeeded and is whole.
    Succeeded,
    /// Anything else: the record says the run failed or was cancelled, the
    /// record is incomplete, or the run could not be executed at all.
    Failed { reason: FailureReason, message: String },
}

/// What a [`Conclusion`] stands for, its message as text.
#[verifier::ext_equal]
pub enum ConclusionView {
    Succeeded,
    Failed { reason: FailureReason, message: Seq<char> },
}

impl View for Conclusion {
    type V = ConclusionView;

    open spec fn view(&self) -> ConclusionView {
        match self {
            Conclusion::Succeeded => ConclusionView::Succeeded,
            Conclusion::Failed { reason, message } => ConclusionView::Failed {
                reason: *reason,
                message: message@,
            },
        }
    }
}

impl OutcomeView {
    /// Whether the record says that the run succeeded and is whole.
    pub open spec fn succeeded(self) -> bool {
        self.status == RunStatus::Success && self.complete
    }

    /// What is said of the run itself, before anything on its record. A
    /// cancellation is said to be one whatever the root invocation says.
    pub open spec fn headline(self) -> Seq<char> {
        if self.status == RunStatus::Cancelled {
            "the run was cancelled"@
        } else {
            match self.failure {
                Some(failure) => failure,
                None => if self.status == RunStatus::Failed {
                    "the run failed"@
                } else {
                    "the run's record is incomplete"@
                },
            }
        }
    }

    /// What is said of the record: nothing of a whole one, and of another
    /// each reason that it is not whole.
    pub open spec fn shortfall(self) -> Seq<char> {
        if self.complete {
            Seq::empty()
        } else {
            " (record incomplete: "@ + joined(self.incomplete, "; "@) + ")"@
        }
    }

    /// The failure of a run whose record says it did not succeed.
    pub open spec fn failure_message(self) -> Seq<char> {
        self.headline() + self.shortfall()
    }
}

/// How a run's result is reported: a success only where the record says so
/// and is whole, a cancellation by its own reason, everything else as a
/// workflow error.
pub open spec fn conclusion_of(result: Result<OutcomeView, RunErrorView>) -> ConclusionView {
    match result {
        Ok(outcome) => if outcome.succeeded() {
            ConclusionView::Succeeded
        } else {
            ConclusionView::Failed {
                reason: if outcome.status == RunStatus::Cancelled {
                    FailureReason::Cancelled
                } else {
                    FailureReason::WorkflowError
                },
                message: outcome.failure_message(),
            }
        },
        Err(error) => ConclusionView::Failed {
            reason: FailureReason::WorkflowError,
            message: error.chain(),
        },
    }
}

/// The failure of a run whose record says it did not succeed.
pub fn failure_message(outcome: &RunOutcome) -> (message: String)
    ensures
        message@ == outcome@.failure_message(),
{
    let mut message: String = match (&outcome.status, &outcome.failure) {
        (RunStatus::Cancelled, _) => "the run was cancelled".to_string(),
        (_, Some(failure)) => failure.clone(),
        (RunStatus::Failed, None) => "the run failed".to_string(),
        (RunStatus::Success, None) => "the run's record is incomplete".to_string(),
    };
    assert(message@ == outcome@.headline());
    if !outcome.complete {
        message.append(" (record incomplete: ");
        message.append(join(&outcome.incomplete, "; ").as_str());
        message.append(")");
    }
    assert(message@ =~= outcome@.headline() + outcome@.shortfall());
    message
}

/// How the platform is told what a run returned. A cancelled run is a
/// failure with the cancelled reason; every other shortfall is a workflow
/// error whose message says what the record, or the host, said.
#[must_use]
pub fn conclusion(result: &Result<RunOutcome, RunError>) -> (conclusion: Conclusion)
    ensures
        conclusion@ == conclusion_of(result_view(*result)),
{
    match result {
        Ok(outcome) => {
            if outcome.status == RunStatus::Success && outcome.complete {
                return Conclusion::Succeeded;
            }
            let reason: FailureReason = match outcome.status {
                RunStatus::Cancelled => FailureReason::Cancelled,
                RunStatus::Success | RunStatus::Failed => FailureReason::WorkflowError,
            };
            Conclusion::Failed { reason, message: failure_message(outcome) }
        },
        Err(error) => Conclusion::Failed {
            reason: FailureReason::WorkflowError,
            message: error_chain(error),
        },
    }
}

} // verus!
