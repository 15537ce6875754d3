//! What a record supports, from what stands in it.

use vstd::prelude::*;

use crate::conclusion::conclusion_of;
use crate::engine::{EndingView, RunEventView, RunStateView};
use crate::error::RunErrorView;
use crate::record::{
    first_invocation, read_back, status_of_word, InspectionView, InvocationId, InvocationView,
    OutcomeView, Reading, ReadingView, RunInspection, RunStatus, StoredState,
};
use crate::text::texts;

verus! {

/// A run states its status by one of three words, each for one status, and
/// by no other.
pub proof fn law_status_is_one_of_three_words(word: Seq<char>)
    ensures
        word == "success"@ ==> status_of_word(word) == Some(RunStatus::Success),
        word == "failed"@ ==> status_of_word(word) == Some(RunStatus::Failed),
        word == "cancelled"@ ==> status_of_word(word) == Some(RunStatus::Cancelled),
        word != "success"@ && word != "failed"@ && word != "cancelled"@ ==> status_of_word(
            word,
        ) is None,
{
    reveal_strlit("success");
    reveal_strlit("failed");
    reveal_strlit("cancelled");
    assert("success"@.len() != "failed"@.len() && "success"@.len() != "cancelled"@.len()
        && "failed"@.len() != "cancelled"@.len());
}

/// Whether an inspection found one of the three words for a status.
pub open spec fn states_a_status(inspection: RunInspection) -> bool {
    inspection.status matches Some(word) && (word@ == "success"@ || word@ == "failed"@ || word@
        == "cancelled"@)
}

/// A record that states a status supports an outcome with that status,
/// whatever else stands in it and whatever the host said.
pub proof fn law_outcome_has_the_stated_status(
    inspection: RunInspection,
    host_error: Option<Seq<char>>,
)
    requires
        states_a_status(inspection),
    ensures
        inspection@.outcome(host_error) matches Ok(outcome) && ({
            let word = inspection.status->0@;
            &&& outcome.status == RunStatus::Success <==> word == "success"@
            &&& outcome.status == RunStatus::Failed <==> word == "failed"@
            &&& outcome.status == RunStatus::Cancelled <==> word == "cancelled"@
        }),
{
    law_status_is_one_of_three_words(inspection.status->0@);
}

/// The outcome of a record that states a status is complete if and only if
/// the inspection says that the record is, and its reasons are those of the
/// inspection.
pub proof fn law_outcome_is_as_complete_as_the_record(
    inspection: RunInspection,
    host_error: Option<Seq<char>>,
)
    requires
        states_a_status(inspection),
    ensures
        inspection@.outcome(host_error) matches Ok(outcome) && outcome.complete
            == inspection.complete && outcome.incomplete == texts(inspection.incomplete@),
{
    law_status_is_one_of_three_words(inspection.status->0@);
}

/// A record that states success and is whole is concluded as a success,
/// whatever invocations it lists and whatever the host said.
pub proof fn law_whole_success_is_concluded_as_one(
    inspection: RunInspection,
    host_error: Option<Seq<char>>,
)
    requires
        inspection.status is Some,
        inspection.status->0@ == "success"@,
        inspection.complete,
    ensures
        conclusion_of(inspection@.outcome(host_error)) is Succeeded,
{
    law_outcome_has_the_stated_status(inspection, host_error);
    law_outcome_is_as_complete_as_the_record(inspection, host_error);
}

/// A run whose record states success and is whole ends as a success, unless
/// the platform's hooks, which are asked where the run has them, know of a
/// failed checkpoint.
pub proof fn law_run_with_a_whole_success_succeeds(ending: EndingView, inspection: RunInspection)
    requires
        inspection.status is Some,
        inspection.status->0@ == "success"@,
        inspection.complete,
    ensures
        ({
            let inspected = RunStateView::InspectRecord(ending).after(
                RunEventView::Inspected(Ok(inspection@)),
            );
            let ended = if ending.run.hooks {
                inspected.after(RunEventView::Checkpoint(None))
            } else {
                inspected
            };
            ended matches RunStateView::Done(result) && conclusion_of(result) is Succeeded
        }),
{
    law_whole_success_is_concluded_as_one(inspection, ending.host_error);
}

/// The first of the invocations with a number is found where it stands.
proof fn lemma_first_is_found(invocations: Seq<InvocationView>, invocation: InvocationId, i: int)
    requires
        0 <= i < invocations.len(),
        invocations[i].invocation == invocation,
        forall|j: int| 0 <= j < i ==> (#[trigger] invocations[j]).invocation != invocation,
    ensures
        first_invocation(invocations, invocation) == Some(invocations[i]),
    decreases invocations.len(),
{
    if i > 0 {
        let rest = invocations.drop_first();
        assert(invocations[0].invocation != invocation);
        assert forall|j: int| 0 <= j < i - 1 implies (#[trigger] rest[j]).invocation
            != invocation by {
            assert(rest[j] == invocations[j + 1]);
        }
        lemma_first_is_found(rest, invocation, i - 1);
    }
}

/// Where no invocation is the one looked for, none is found.
proof fn lemma_none_is_found(invocations: Seq<InvocationView>, invocation: InvocationId)
    requires
        forall|j: int|
            0 <= j < invocations.len() ==> (#[trigger] invocations[j]).invocation != invocation,
    ensures
        first_invocation(invocations, invocation) is None,
    decreases invocations.len(),
{
    if invocations.len() > 0 {
        let rest = invocations.drop_first();
        assert(invocations[0].invocation != invocation);
        assert forall|j: int| 0 <= j < rest.len() implies (#[trigger] rest[j]).invocation
            != invocation by {
            assert(rest[j] == invocations[j + 1]);
        }
        lemma_none_is_found(rest, invocation);
    }
}

/// The failure of an outcome is that of the root invocation: of the result of
/// the first listed invocation that is the root, whatever the others are, and
/// none where that one has no result or did not fail.
pub proof fn law_failure_is_the_roots(
    inspection: RunInspection,
    host_error: Option<Seq<char>>,
    i: int,
)
    requires
        states_a_status(inspection),
        0 <= i < inspection.invocations@.len(),
        inspection.invocations@[i].invocation == inspection.root,
        forall|j: int|
            0 <= j < i ==> (#[trigger] inspection.invocations@[j]).invocation != inspection.root,
    ensures
        inspection@.outcome(host_error) matches Ok(outcome) && match
        inspection.invocations@[i].result {
            Some(result) => match result.failure {
                Some(message) => outcome.failure == Some(message@),
                None => outcome.failure is None,
            },
            None => outcome.failure is None,
        },
{
    law_status_is_one_of_three_words(inspection.status->0@);
    let seen = inspection@.invocations;
    assert forall|j: int| 0 <= j < i implies (#[trigger] seen[j]).invocation
        != inspection.root by {
        assert(seen[j] == inspection.invocations@[j]@);
    }
    assert(seen[i] == inspection.invocations@[i]@);
    lemma_first_is_found(seen, inspection.root, i);
}

/// An outcome has no failure where the root invocation is not listed.
pub proof fn law_unlisted_root_has_no_failure(
    inspection: RunInspection,
    host_error: Option<Seq<char>>,
)
    requires
        states_a_status(inspection),
        forall|j: int|
            0 <= j < inspection.invocations@.len() ==> (
            #[trigger] inspection.invocations@[j]).invocation != inspection.root,
    ensures
        inspection@.outcome(host_error) matches Ok(outcome) && outcome.failure is None,
{
    law_status_is_one_of_three_words(inspection.status->0@);
    let seen = inspection@.invocations;
    assert forall|j: int| 0 <= j < seen.len() implies (#[trigger] seen[j]).invocation
        != inspection.root by {
        assert(seen[j] == inspection.invocations@[j]@);
    }
    lemma_none_is_found(seen, inspection.root);
}

/// A record that states no status supports no outcome: the run is unfinished,
/// for each reason that the record is incomplete, in order, and after those
/// for what the host's error said, if there is one.
pub proof fn law_record_without_a_status_is_unfinished(
    inspection: RunInspection,
    host_error: Option<Seq<char>>,
)
    requires
        !states_a_status(inspection),
    ensures
        inspection@.outcome(host_error) matches Err(RunErrorView::Unfinished(reasons)) && ({
            let own = inspection.incomplete@;
            &&& forall|i: int| 0 <= i < own.len() ==> #[trigger] reasons[i] == own[i]@
            &&& host_error is None ==> reasons.len() == own.len()
            &&& host_error matches Some(error) ==> reasons.len() == own.len() + 1 && reasons.last()
                == error
        }),
{
    if let Some(word) = inspection.status {
        law_status_is_one_of_three_words(word@);
    }
}

/// A record that cannot be opened, or not be inspected, supports no outcome:
/// the error says which, and carries the cause.
pub proof fn law_unread_record_supports_no_outcome(
    reading: Reading<RunInspection>,
    host_error: Option<Seq<char>>,
)
    ensures
        reading matches Reading::NotOpened(cause) ==> reading@.outcome(host_error) == Err::<
            OutcomeView,
            RunErrorView,
        >(RunErrorView::Open(cause@)),
        reading matches Reading::NotRead(cause) ==> reading@.outcome(host_error) == Err::<
            OutcomeView,
            RunErrorView,
        >(RunErrorView::Inspect(cause@)),
        reading matches Reading::Read(inspection) ==> reading@.outcome(host_error)
            == inspection@.outcome(host_error),
{
}

/// A resume is let go where the stored state declares the root invocation at
/// any place, among any number of others.
pub proof fn law_declared_root_can_be_resumed(state: StoredState, i: int)
    requires
        0 <= i < state.invocations@.len(),
        state.invocations@[i] == InvocationId::Root,
    ensures
        Reading::Read(state)@.refusal() is None,
{
    assert(state@[i] == InvocationId::Root);
}

/// A resume is refused where the stored state declares no root invocation, or
/// could not be read, or the record not be opened: the error says which, and
/// carries the cause.
pub proof fn law_undeclared_root_cannot_be_resumed(reading: Reading<StoredState>)
    ensures
        reading matches Reading::NotOpened(cause) ==> reading@.refusal() == Some(
            RunErrorView::Open(cause@),
        ),
        reading matches Reading::NotRead(cause) ==> reading@.refusal() == Some(
            RunErrorView::Read(cause@),
        ),
        reading matches Reading::Read(state) ==> (forall|i: int|
            0 <= i < state.invocations@.len() ==> state.invocations@[i] != InvocationId::Root)
            ==> reading@.refusal() == Some(RunErrorView::NothingToResume),
{
    if let Reading::Read(state) = reading {
        if state@.contains(InvocationId::Root) {
            let i = choose|i: int| 0 <= i < state@.len() && state@[i] == InvocationId::Root;
            assert(state.invocations@[i] == InvocationId::Root);
        }
    }
}

/// What came of reading an opened record is what was read, or that it could
/// not be.
pub proof fn law_opened_record_is_read_or_not<V>(read: Result<V, Seq<Seq<char>>>)
    ensures
        read matches Ok(said) ==> read_back(read) == ReadingView::Read(said),
        read matches Err(cause) ==> read_back(read) == ReadingView::<V>::NotRead(cause),
{
}

} // verus!
