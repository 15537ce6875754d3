//! How what a run returned reads.

use vstd::prelude::*;

use crate::conclusion::{conclusion_of, ConclusionView, FailureReason};
use crate::error::RunErrorView;
use crate::provider::ProviderView;
use crate::record::{OutcomeView, RunStatus};
use crate::text::joined;

verus! {

/// Nothing joined is nothing.
pub proof fn law_nothing_joined_is_empty(parts: Seq<Seq<char>>, separator: Seq<char>)
    requires
        parts.len() == 0,
    ensures
        joined(parts, separator).len() == 0,
{
}

/// One part joined is that part.
pub proof fn law_one_part_joined_is_itself(part: Seq<char>, separator: Seq<char>)
    ensures
        joined(seq![part], separator) == part,
{
}

/// Parts can be joined in two groups, with one separator between the groups.
pub proof fn law_groups_join_as_the_whole(
    first: Seq<Seq<char>>,
    second: Seq<Seq<char>>,
    separator: Seq<char>,
)
    requires
        first.len() > 0,
        second.len() > 0,
    ensures
        joined(first + second, separator) == joined(first, separator) + separator + joined(
            second,
            separator,
        ),
    decreases second.len(),
{
    let whole = first + second;
    assert(whole.last() == second.last());
    if second.len() == 1 {
        assert(whole.drop_last() =~= first);
    } else {
        assert(whole.drop_last() =~= first + second.drop_last());
        law_groups_join_as_the_whole(first, second.drop_last(), separator);
    }
}

/// Each error says what it is.
pub proof fn law_each_error_says_what_it_is(error: RunErrorView)
    ensures
        error matches RunErrorView::UnsupportedProvider { provider } ==> error.message()
            == "the run's sandbox provider `"@ + provider.name() + "` is not one Petri serves"@,
        error is Open ==> error.message() == "the run's record could not be opened"@,
        error is Read ==> error.message() == "the run's record could not be read"@,
        error is NothingToResume ==> error.message()
            == "the run's record has no root invocation, so there is nothing to resume"@,
        error is Inspect ==> error.message() == "the run's record could not be inspected"@,
        error matches RunErrorView::Unfinished(reasons) ==> error.message()
            == "the run ended without recording a status; the record says: "@ + joined(
            reasons,
            "; "@,
        ),
{
}

/// Each provider goes by its name.
pub proof fn law_each_provider_goes_by_its_name(provider: ProviderView)
    ensures
        provider is Local ==> provider.name() == "local"@,
        provider is Docker ==> provider.name() == "docker"@,
        provider is Daytona ==> provider.name() == "daytona"@,
        provider matches ProviderView::Other(name) ==> provider.name() == name,
{
}

/// A provider is canonical unless it is of another kind and goes by one of
/// the served names.
pub proof fn law_only_an_alias_is_not_canonical(provider: ProviderView)
    ensures
        !provider.canonical() <==> (provider matches ProviderView::Other(name) && (name
            == "local"@ || name == "docker"@ || name == "daytona"@)),
{
}

/// Only an error of the store or the host has causes, and they are what it
/// carries.
pub proof fn law_causes_are_what_the_error_carries(error: RunErrorView)
    ensures
        error matches RunErrorView::Open(cause) ==> error.causes() == cause,
        error matches RunErrorView::Read(cause) ==> error.causes() == cause,
        error matches RunErrorView::Inspect(cause) ==> error.causes() == cause,
        error is UnsupportedProvider || error is NothingToResume || error is Unfinished
            ==> error.causes().len() == 0,
{
}

/// The chain of an error is what the error says, and after a colon what its
/// causes say, in order, with a colon between each two.
pub proof fn law_chain_is_the_error_and_its_causes(error: RunErrorView)
    ensures
        error.causes().len() == 0 ==> error.chain() == error.message(),
        error.causes().len() > 0 ==> error.chain() == error.message() + ": "@ + joined(
            error.causes(),
            ": "@,
        ),
{
    let own = seq![error.message()];
    law_one_part_joined_is_itself(error.message(), ": "@);
    if error.causes().len() == 0 {
        assert(own + error.causes() =~= own);
    } else {
        law_groups_join_as_the_whole(own, error.causes(), ": "@);
    }
}

/// What a run that did not succeed is said to have come to: a cancelled run
/// that it was cancelled, another what its root failure says, and without one
/// that it failed, or that its record is incomplete. Where the record is not
/// whole, every reason follows in brackets.
pub proof fn law_shortfall_is_worded(outcome: OutcomeView)
    ensures
        ({
            let reasons = " (record incomplete: "@ + joined(outcome.incomplete, "; "@) + ")"@;
            let said = outcome.failure_message();
            &&& outcome.status == RunStatus::Cancelled && outcome.complete ==> said
                == "the run was cancelled"@
            &&& outcome.status == RunStatus::Cancelled && !outcome.complete ==> said
                == "the run was cancelled"@ + reasons
            &&& outcome.status != RunStatus::Cancelled && outcome.complete ==> (
            outcome.failure matches Some(failure) ==> said == failure)
            &&& outcome.status != RunStatus::Cancelled && !outcome.complete ==> (
            outcome.failure matches Some(failure) ==> said == failure + reasons)
            &&& outcome.status == RunStatus::Failed && outcome.failure is None && outcome.complete
                ==> said == "the run failed"@
            &&& outcome.status == RunStatus::Failed && outcome.failure is None
                && !outcome.complete ==> said == "the run failed"@ + reasons
            &&& outcome.status == RunStatus::Success && outcome.failure is None
                && !outcome.complete ==> said == "the run's record is incomplete"@ + reasons
        }),
{
    if outcome.complete {
        assert(outcome.failure_message() =~= outcome.headline());
    }
}

/// A run that did not succeed is concluded with what it is said to have come
/// to, a cancelled one as cancelled and another as a workflow error; a run
/// that could not be executed or read is concluded as a workflow error with
/// the chain of its error.
pub proof fn law_failure_is_concluded_with_its_reason(result: Result<OutcomeView, RunErrorView>)
    ensures
        result matches Err(error) ==> conclusion_of(result) == (ConclusionView::Failed {
            reason: FailureReason::WorkflowError,
            message: error.chain(),
        }),
        result matches Ok(outcome) ==> {
            &&& outcome.status == RunStatus::Cancelled ==> conclusion_of(result) == (
            ConclusionView::Failed {
                reason: FailureReason::Cancelled,
                message: outcome.failure_message(),
            })
            &&& outcome.status == RunStatus::Failed ==> conclusion_of(result) == (
            ConclusionView::Failed {
                reason: FailureReason::WorkflowError,
                message: outcome.failure_message(),
            })
            &&& outcome.status == RunStatus::Success && !outcome.complete ==> conclusion_of(result)
                == (ConclusionView::Failed {
                reason: FailureReason::WorkflowError,
                message: outcome.failure_message(),
            })
            &&& outcome.status == RunStatus::Success && outcome.complete ==> conclusion_of(result)
                == ConclusionView::Succeeded
        },
{
}

/// A failed checkpoint replaces the status and the failure of an outcome and
/// nothing else; without one the outcome stays as it is.
pub proof fn law_checkpoint_replaces_status_and_failure(
    outcome: OutcomeView,
    checkpoint: Option<Seq<char>>,
)
    ensures
        outcome.with_checkpoint(checkpoint).complete == outcome.complete,
        outcome.with_checkpoint(checkpoint).incomplete == outcome.incomplete,
        checkpoint is Some ==> outcome.with_checkpoint(checkpoint).status == RunStatus::Failed
            && outcome.with_checkpoint(checkpoint).failure == checkpoint,
        checkpoint is None ==> outcome.with_checkpoint(checkpoint).status == outcome.status
            && outcome.with_checkpoint(checkpoint).failure == outcome.failure,
{
}

} // verus!
