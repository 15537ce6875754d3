//! What holds of every run, whatever the store, the host and the hooks do.

use vstd::prelude::*;

pub mod calls;
pub mod plan;
pub mod record;
pub mod report;
pub mod steps;
pub mod views;

use crate::conclusion::{conclusion_of, ConclusionView, FailureReason};
use crate::engine::{ContextView, EndingView, RunActionView, RunEventView, RunStateView};
use crate::error::RunErrorView;
use crate::plan::{
    hook_stack, only_if, CancelReason, DaytonaSandboxKind, HookLayer, Install, LostSandbox, PlanView,
    RequestView, Retention, Wire, DAYTONA_DISK_MB,
};
use crate::provider::{ProviderView, SandboxBackend};
use crate::receipt::ReceiptStateView;
use crate::record::{
    read_back, Access, InspectionView, InvocationId, OutcomeView, ReadingView, RunStatus,
};
use crate::text::joined;

verus! {

/// Whether the text holds the part as one piece.
pub open spec fn says(text: Seq<char>, part: Seq<char>) -> bool {
    exists|from: int, to: int|
        0 <= from <= to <= text.len() && #[trigger] text.subrange(from, to) == part
}

/// A text says what a piece of it says.
proof fn lemma_says_more(before: Seq<char>, text: Seq<char>, after: Seq<char>, part: Seq<char>)
    requires
        says(text, part),
    ensures
        says(before + text + after, part),
{
    let (from, to) = choose|from: int, to: int|
        0 <= from <= to <= text.len() && #[trigger] text.subrange(from, to) == part;
    let whole = before + text + after;
    assert(whole.subrange(before.len() + from, before.len() + to) =~= part);
}

/// A text says itself.
proof fn lemma_says_itself(text: Seq<char>)
    ensures
        says(text, text),
{
    assert(text.subrange(0, text.len() as int) =~= text);
}

/// Joined parts say each part.
proof fn lemma_joined_says_each(parts: Seq<Seq<char>>, separator: Seq<char>, i: int)
    requires
        0 <= i < parts.len(),
    ensures
        says(joined(parts, separator), parts[i]),
    decreases parts.len(),
{
    let nothing = Seq::<char>::empty();
    lemma_says_itself(parts[i]);
    if parts.len() > 1 {
        let init = joined(parts.drop_last(), separator);
        if i == parts.len() - 1 {
            lemma_says_more(init + separator, parts[i], nothing, parts[i]);
            assert(init + separator + parts[i] + nothing =~= joined(parts, separator));
        } else {
            lemma_joined_says_each(parts.drop_last(), separator, i);
            lemma_says_more(nothing, init, separator + parts.last(), parts[i]);
            assert(nothing + init + (separator + parts.last()) =~= joined(parts, separator));
        }
    }
}

/// Joined parts hold no character that neither a part nor the separator
/// holds.
proof fn lemma_joined_adds_nothing(parts: Seq<Seq<char>>, separator: Seq<char>, c: char)
    requires
        !separator.contains(c),
        forall|i: int| 0 <= i < parts.len() ==> !(#[trigger] parts[i]).contains(c),
    ensures
        !joined(parts, separator).contains(c),
    decreases parts.len(),
{
    if parts.len() > 1 {
        let init = parts.drop_last();
        assert forall|i: int| 0 <= i < init.len() implies !(#[trigger] init[i]).contains(c) by {
            assert(init[i] == parts[i]);
        }
        lemma_joined_adds_nothing(init, separator, c);
        let whole = joined(parts, separator);
        let head = joined(init, separator);
        assert forall|k: int| 0 <= k < whole.len() implies whole[k] != c by {
            if k < head.len() {
                assert(head.contains(whole[k]));
            } else if k < head.len() + separator.len() {
                assert(separator.contains(whole[k]));
            } else {
                assert(parts[parts.len() - 1].contains(whole[k]));
            }
        }
    } else if parts.len() == 1 {
        assert(!parts[0].contains(c));
    }
}

/// The chain of an error says what the error says.
pub proof fn law_chain_says_the_error(error: RunErrorView)
    ensures
        says(error.chain(), error.message()),
{
    lemma_joined_says_each(seq![error.message()] + error.causes(), ": "@, 0);
}

/// The chain of an error says what every cause under it says.
pub proof fn law_chain_says_every_cause(error: RunErrorView, i: int)
    requires
        0 <= i < error.causes().len(),
    ensures
        says(error.chain(), error.causes()[i]),
{
    lemma_joined_says_each(seq![error.message()] + error.causes(), ": "@, i + 1);
}

/// The chain of an error is one line, if what the error and each cause under
/// it says is one line.
pub proof fn law_chain_is_one_line(error: RunErrorView)
    requires
        !error.message().contains('\n'),
        forall|i: int|
            0 <= i < error.causes().len() ==> !(#[trigger] error.causes()[i]).contains('\n'),
    ensures
        !error.chain().contains('\n'),
{
    reveal_strlit(": ");
    lemma_joined_adds_nothing(seq![error.message()] + error.causes(), ": "@, '\n');
}

/// The failure message of an outcome whose record is not whole says each
/// reason that it is not.
pub proof fn law_failure_says_every_reason(outcome: OutcomeView, i: int)
    requires
        !outcome.complete,
        0 <= i < outcome.incomplete.len(),
    ensures
        says(outcome.failure_message(), outcome.incomplete[i]),
{
    let reasons = joined(outcome.incomplete, "; "@);
    lemma_joined_says_each(outcome.incomplete, "; "@, i);
    let before = outcome.headline() + " (record incomplete: "@;
    lemma_says_more(before, reasons, ")"@, outcome.incomplete[i]);
    assert(before + reasons + ")"@ =~= outcome.failure_message());
}

/// The failure message of a run that was not cancelled says what the root
/// invocation's failure says.
pub proof fn law_failure_says_the_root_failure(outcome: OutcomeView)
    requires
        outcome.status != RunStatus::Cancelled,
        outcome.failure is Some,
    ensures
        says(outcome.failure_message(), outcome.failure->0),
{
    let nothing = Seq::<char>::empty();
    lemma_says_itself(outcome.headline());
    lemma_says_more(nothing, outcome.headline(), outcome.shortfall(), outcome.failure->0);
    assert(nothing + outcome.headline() + outcome.shortfall() =~= outcome.failure_message());
}

/// A run is reported as a success if and only if its record says that it
/// succeeded and is whole.
pub proof fn law_success_is_a_whole_record(result: Result<OutcomeView, RunErrorView>)
    ensures
        conclusion_of(result) is Succeeded <==> (result matches Ok(outcome) && outcome.status
            == RunStatus::Success && outcome.complete),
{
}

/// A run is reported as cancelled if and only if its record says that it was
/// cancelled; every other failure is a workflow error.
pub proof fn law_cancelled_is_a_cancelled_record(result: Result<OutcomeView, RunErrorView>)
    ensures
        conclusion_of(result) matches ConclusionView::Failed { reason, .. } ==> (reason
            == FailureReason::Cancelled <==> (result matches Ok(outcome) && outcome.status
            == RunStatus::Cancelled)),
        (result matches Ok(outcome) && outcome.status == RunStatus::Cancelled)
            ==> conclusion_of(result) is Failed,
{
}

/// A run with a failed checkpoint is reported as a workflow error with the
/// checkpoint's failure, whatever its record says, a cancellation included.
pub proof fn law_failed_checkpoint_is_reported(outcome: OutcomeView, failure: Seq<char>)
    ensures
        conclusion_of(Ok(outcome.with_checkpoint(Some(failure)))) == (ConclusionView::Failed {
            reason: FailureReason::WorkflowError,
            message: failure + outcome.shortfall(),
        }),
{
}

/// Once the record states a status, the host's error has no say in the
/// outcome.
pub proof fn law_recorded_status_outweighs_the_host(
    inspection: InspectionView,
    host_error: Option<Seq<char>>,
)
    requires
        inspection.recorded_status() is Some,
    ensures
        inspection.outcome(host_error) == inspection.outcome(None),
        inspection.outcome(host_error) matches Ok(outcome) && Some(outcome.status)
            == inspection.recorded_status(),
{
}

/// A run whose record states no status is reported as a workflow error that
/// says what the host's error said.
pub proof fn law_unfinished_run_says_the_host_error(
    inspection: InspectionView,
    host_error: Seq<char>,
)
    requires
        inspection.recorded_status() is None,
    ensures
        conclusion_of(inspection.outcome(Some(host_error))) matches ConclusionView::Failed {
            reason,
            message,
        } && reason == FailureReason::WorkflowError && says(message, host_error),
{
    let nothing = Seq::<char>::empty();
    let reasons = inspection.incomplete.push(host_error);
    let error = RunErrorView::Unfinished(reasons);
    let text = joined(reasons, "; "@);
    lemma_joined_says_each(reasons, "; "@, reasons.len() - 1);
    let lead = "the run ended without recording a status; the record says: "@;
    lemma_says_more(lead, text, nothing, host_error);
    assert(lead + text + nothing =~= error.message());
    assert(error.chain() =~= error.message()) by {
        assert(seq![error.message()] + error.causes() =~= seq![error.message()]);
    }
}

/// A request is refused if and only if no backend serves its provider, and
/// then for that provider.
pub proof fn law_only_an_unserved_provider_is_refused(request: RequestView)
    ensures
        request.plan() is Err <==> request.provider is Other,
        request.plan() matches Err(error) ==> error == (RunErrorView::UnsupportedProvider {
            provider: request.provider,
        }),
{
}

/// Providers that are what their names name are equal if they go by one name.
pub proof fn law_provider_is_known_by_its_name(one: ProviderView, other: ProviderView)
    requires
        one.canonical(),
        other.canonical(),
        one.name() == other.name(),
    ensures
        one == other,
{
    reveal_strlit("local");
    reveal_strlit("docker");
    reveal_strlit("daytona");
    assert("local"@.len() != "docker"@.len() && "docker"@.len() != "daytona"@.len());
}

/// A provider that is what its name names has a backend if and only if its
/// name is one of the served ones.
pub proof fn law_served_providers_are_served_by_name(provider: ProviderView)
    requires
        provider.canonical(),
    ensures
        provider.backend() is Some <==> (provider.name() == "local"@ || provider.name()
            == "docker"@ || provider.name() == "daytona"@),
{
}

/// A run is put together alike whether it starts or resumes: with the same
/// options, installs and wiring.
pub proof fn law_start_and_resume_are_put_together_alike(start: RequestView, resume: RequestView)
    requires
        !start.resume,
        resume == (RequestView { resume: true, ..start }),
    ensures
        resume.plan() == match start.plan() {
            Ok(plan) => Ok(PlanView { resumed: true, ..plan }),
            Err(error) => Err(error),
        },
{
}

/// Every planned run goes by its run id and keeps its workspaces.
pub proof fn law_run_key_is_the_run_id(request: RequestView)
    ensures
        request.plan() matches Ok(plan) ==> plan.options.run_key == request.run_id
            && plan.options.retention == Retention::Always,
{
}

/// A lost sandbox is replaced if and only if the run has the platform's
/// hooks, which restore it, and its sandboxes are not on the host.
pub proof fn law_lost_sandbox_is_replaced_where_it_is_restored(request: RequestView)
    ensures
        request.plan() matches Ok(plan) ==> (plan.options.lost_sandbox == Some(
            LostSandbox::Replace,
        ) <==> request.hooks && plan.options.backend != SandboxBackend::Host),
{
}

/// Daytona options are set if and only if the sandboxes are on Daytona, and
/// then for a container within the entry tier's disk.
pub proof fn law_daytona_sandboxes_fit_the_entry_tier(request: RequestView)
    ensures
        request.plan() matches Ok(plan) ==> match plan.options.daytona {
            Some(daytona) => {
                &&& plan.options.backend == SandboxBackend::Daytona
                &&& daytona.kind == DaytonaSandboxKind::Container
                &&& daytona.disk_mb == DAYTONA_DISK_MB
            },
            None => plan.options.backend != SandboxBackend::Daytona,
        },
{
}

/// The runtime of every planned run is built with the flag set and gets the
/// run's store, options, hooks and live turns, and a source of secrets and a blob table if and only if the
/// request has them.
pub proof fn law_runtime_gets_what_the_request_has(request: RequestView)
    ensures
        request.plan() matches Ok(plan) ==> {
            &&& plan.runtime_flag
            &&& plan.installs.contains(Install::Store)
            &&& plan.installs.contains(Install::Options)
            &&& plan.installs.contains(Install::Hooks)
            &&& plan.installs.contains(Install::LiveTurns)
            &&& plan.installs.contains(Install::Secrets) <==> request.secrets
            &&& plan.installs.contains(Install::Blobs) <==> request.blobs
        },
{
    let installs = request.installs();
    assert(installs[0] == Install::Store);
    assert(installs[1] == Install::Options);
    assert(installs[installs.len() - 2] == Install::Hooks);
    assert(installs[installs.len() - 1] == Install::LiveTurns);
    if request.secrets {
        assert(installs[2] == Install::Secrets);
    }
    if request.blobs {
        assert(installs[installs.len() - 3] == Install::Blobs);
    }
}

/// The dispatcher, the controls and the cancel task of every planned run are
/// wired to its coordinator, and the platform's hooks if and only if the run
/// has them.
pub proof fn law_every_run_can_be_asked_controlled_and_cancelled(request: RequestView)
    ensures
        request.plan() matches Ok(plan) ==> {
            &&& plan.wiring.contains(Wire::Dispatcher)
            &&& plan.wiring.contains(Wire::Controls)
            &&& plan.wiring.contains(Wire::CancelTask(CancelReason::Control))
            &&& plan.wiring.contains(Wire::Hooks) <==> request.hooks
        },
{
    let wiring = request.wiring();
    assert(wiring[0] == Wire::Dispatcher);
    assert(wiring[wiring.len() - 2] == Wire::Controls);
    assert(wiring[wiring.len() - 1] == Wire::CancelTask(CancelReason::Control));
    if request.hooks {
        assert(wiring[1] == Wire::Hooks);
    }
}

/// The cancel task of every planned run cancels the root invocation for a
/// control's sake, and there is no cancel task for another reason.
pub proof fn law_run_is_cancelled_for_a_control(request: RequestView, reason: CancelReason)
    ensures
        request.plan() matches Ok(plan) ==> (plan.wiring.contains(Wire::CancelTask(reason))
            <==> reason == CancelReason::Control),
{
    let wiring = request.wiring();
    assert(wiring[wiring.len() - 1] == Wire::CancelTask(CancelReason::Control));
}

/// The pause gate lies over every other layer of hooks, and there is one.
pub proof fn law_pause_gate_is_outermost(local: bool, hooks: bool)
    ensures
        hook_stack(local, hooks).len() > 0,
        hook_stack(local, hooks).last() == HookLayer::PauseGate,
        forall|i: int|
            0 <= i < hook_stack(local, hooks).len() - 1 ==> hook_stack(local, hooks)[i]
                != HookLayer::PauseGate,
{
}

/// The platform's hooks always wrap another layer: the runtime's own where
/// it installed some, and otherwise the layer of no hooks.
pub proof fn law_checkpoint_hooks_wrap_a_layer(local: bool)
    ensures
        hook_stack(local, true).len() == 3,
        hook_stack(local, true)[1] == HookLayer::Checkpoint,
        hook_stack(local, true)[0] == if local {
            HookLayer::Local
        } else {
            HookLayer::NoHooks
        },
{
}

/// Where a run is after the events, in order.
pub open spec fn after_all(state: RunStateView, events: Seq<RunEventView>) -> RunStateView
    decreases events.len(),
{
    if events.len() == 0 {
        state
    } else {
        after_all(state.after(events[0]), events.drop_first())
    }
}

/// Whether each event tells what came of the thing that was to be done.
pub open spec fn all_answer(state: RunStateView, events: Seq<RunEventView>) -> bool
    decreases events.len(),
{
    events.len() > 0 ==> state.answered_by(events[0]) && all_answer(
        state.after(events[0]),
        events.drop_first(),
    )
}

/// How many things are still to be done for a run at most.
pub open spec fn rank(state: RunStateView) -> nat {
    match state {
        RunStateView::Done(_) => 0,
        RunStateView::AskCheckpoint(_) => 1,
        RunStateView::InspectRecord(_) => 2,
        RunStateView::OpenRecord(_) => 3,
        RunStateView::Receipt(receipt, _) => 3 + receipt.rank(),
        RunStateView::ShutDownDispatcher(_) => 7,
        RunStateView::StopCancelTask(_) => 8,
        RunStateView::Host { .. } => 9,
        RunStateView::ReadState(_) => 10,
        RunStateView::OpenForResume(_) => 11,
    }
}

/// A run ends: each answered action brings it closer, so that after as many
/// answers as its rank it is over, and it is never asked for more.
pub proof fn law_run_ends(state: RunStateView, events: Seq<RunEventView>)
    requires
        all_answer(state, events),
    ensures
        events.len() + rank(after_all(state, events)) <= rank(state),
        events.len() == rank(state) ==> after_all(state, events) is Done,
    decreases events.len(),
{
    if events.len() > 0 {
        assert(rank(state.after(events[0])) < rank(state));
        law_run_ends(state.after(events[0]), events.drop_first());
    }
}

/// There is something to be done for a run if and only if it is not over.
pub proof fn law_only_a_finished_run_is_reported(state: RunStateView)
    ensures
        state.action() is Report <==> state is Done,
{
}

/// A run that is over stays as it ended.
pub proof fn law_result_is_final(
    result: Result<OutcomeView, RunErrorView>,
    events: Seq<RunEventView>,
)
    ensures
        after_all(RunStateView::Done(result), events) == RunStateView::Done(result),
    decreases events.len(),
{
    if events.len() > 0 {
        law_result_is_final(result, events.drop_first());
    }
}

/// An event that answers nothing changes nothing.
pub proof fn law_stray_event_changes_nothing(state: RunStateView, event: RunEventView)
    requires
        !state.answered_by(event),
    ensures
        state.after(event) == state,
{
}

/// What is to be done for a run after the first `i` of the events.
pub open spec fn action_at(
    state: RunStateView,
    events: Seq<RunEventView>,
    i: int,
) -> RunActionView {
    after_all(state, events.take(i)).action()
}

/// A resume that is refused ends with the refusal, and the host is never
/// asked to continue the run.
pub proof fn law_refused_resume_never_reaches_the_host(
    run: ContextView,
    reading: ReadingView<Seq<InvocationId>>,
    rest: Seq<RunEventView>,
)
    requires
        reading.refusal() is Some,
    ensures
        after_all(
            RunStateView::beginning(run, true),
            reading_events(reading, |read| RunEventView::StateRead(read)) + rest,
        ) == RunStateView::Done(Err(reading.refusal()->0)),
{
    let answer = |read| RunEventView::StateRead(read);
    let events = reading_events(reading, answer) + rest;
    let begun = RunStateView::beginning(run, true);
    if reading is NotOpened {
        assert(events.drop_first() =~= rest);
    } else {
        let read = events.drop_first();
        assert(read.drop_first() =~= rest);
        assert(after_all(begun.after(events[0]), read) == after_all(
            begun.after(events[0]).after(read[0]),
            rest,
        ));
    }
    law_result_is_final(Err(reading.refusal()->0), rest);
}

/// The answers by which a record comes to be read so: that of its opening
/// and, where it was opened, that of the reading.
pub open spec fn reading_events<V>(
    reading: ReadingView<V>,
    answer: spec_fn(Result<V, Seq<Seq<char>>>) -> RunEventView,
) -> Seq<RunEventView> {
    match reading {
        ReadingView::NotOpened(cause) => seq![RunEventView::Opened(Err(cause))],
        ReadingView::NotRead(cause) => seq![RunEventView::Opened(Ok(())), answer(Err(cause))],
        ReadingView::Read(said) => seq![RunEventView::Opened(Ok(())), answer(Ok(said))],
    }
}

/// The host continues a run only after the run's record was read and
/// declares the root invocation.
pub proof fn law_only_a_checked_run_is_resumed(state: RunStateView, event: RunEventView)
    requires
        state.action() !is ResumeHost,
        state.after(event).action() is ResumeHost,
    ensures
        event matches RunEventView::StateRead(Ok(declared)) && declared.contains(
            InvocationId::Root,
        ),
{
}

/// A run that the host continued ends as one that the host started, given
/// the same answers.
pub proof fn law_resume_ends_as_a_start(run: ContextView, events: Seq<RunEventView>)
    requires
        all_answer(RunStateView::Host { run, resumed: false }, events),
        events.len() > 0,
    ensures
        all_answer(RunStateView::Host { run, resumed: true }, events),
        after_all(RunStateView::Host { run, resumed: true }, events) == after_all(
            RunStateView::Host { run, resumed: false },
            events,
        ),
{
}

/// Whether the host has ended a run, or the run ended without it.
pub open spec fn past_the_host(state: RunStateView) -> bool {
    !(state is OpenForResume || state is ReadState || state is Host)
}

/// Once the host has ended a run, no events bring the run back to the host
/// or to the check of a resume.
pub proof fn law_host_is_left_for_good(state: RunStateView, events: Seq<RunEventView>)
    requires
        past_the_host(state),
    ensures
        past_the_host(after_all(state, events)),
        after_all(state, events).action() !is StartHost,
        after_all(state, events).action() !is ResumeHost,
        after_all(state, events).action() !is ReadState,
    decreases events.len(),
{
    if events.len() > 0 {
        law_host_is_left_for_good(state.after(events[0]), events.drop_first());
    }
}

/// The host is entered at most once in a run whose every action is answered.
pub proof fn law_host_is_entered_at_most_once(
    state: RunStateView,
    events: Seq<RunEventView>,
    i: int,
    j: int,
)
    requires
        all_answer(state, events),
        0 <= i < j <= events.len(),
        action_at(state, events, i) is StartHost || action_at(state, events, i) is ResumeHost,
    ensures
        action_at(state, events, j) !is StartHost,
        action_at(state, events, j) !is ResumeHost,
{
    lemma_answered_at(state, events, i);
    let host = after_all(state, events.take(i));
    let left = host.after(events[i]);
    let between = events.subrange(i + 1, j);
    assert(events.take(j) =~= events.take(i) + (seq![events[i]] + between));
    lemma_after_all_in_turn(state, events.take(i), seq![events[i]] + between);
    assert((seq![events[i]] + between).drop_first() =~= between);
    law_host_is_left_for_good(left, between);
}

/// What holds of answered events as a whole holds of each: it answers what
/// was to be done after those before it.
pub(crate) proof fn lemma_answered_at(state: RunStateView, events: Seq<RunEventView>, i: int)
    requires
        all_answer(state, events),
        0 <= i < events.len(),
    ensures
        after_all(state, events.take(i)).answered_by(events[i]),
    decreases i,
{
    if i > 0 {
        lemma_answered_at(state.after(events[0]), events.drop_first(), i - 1);
        assert(events.take(i).drop_first() =~= events.drop_first().take(i - 1));
    } else {
        assert(events.take(0) =~= Seq::empty());
    }
}

/// The host starts only a run that is requested as a start, and continues
/// only one that is requested as a resume.
pub proof fn law_host_is_entered_as_requested(request: RequestView, events: Seq<RunEventView>)
    ensures
        after_all(
            RunStateView::beginning(request.context(), request.resume),
            events,
        ).action() is StartHost ==> !request.resume,
        after_all(
            RunStateView::beginning(request.context(), request.resume),
            events,
        ).action() is ResumeHost ==> request.resume,
{
    lemma_entered_one_way(
        RunStateView::beginning(request.context(), request.resume),
        events,
        request.resume,
    );
}

/// Whether the host, if it is still to be entered, is entered this way.
spec fn enters(state: RunStateView, resumed: bool) -> bool {
    match state {
        RunStateView::OpenForResume(_) => resumed,
        RunStateView::ReadState(_) => resumed,
        RunStateView::Host { resumed: way, .. } => way == resumed,
        _ => true,
    }
}

/// The way in which the host is entered stays the same.
proof fn lemma_entered_one_way(state: RunStateView, events: Seq<RunEventView>, resumed: bool)
    requires
        enters(state, resumed),
    ensures
        enters(after_all(state, events), resumed),
    decreases events.len(),
{
    if events.len() > 0 {
        lemma_entered_one_way(state.after(events[0]), events.drop_first(), resumed);
    }
}

/// What a run is refused for as a resume ends only a run that was resumed.
pub proof fn law_only_a_resumed_run_is_refused_its_resume(
    run: ContextView,
    resumed: bool,
    events: Seq<RunEventView>,
)
    requires
        after_all(RunStateView::beginning(run, resumed), events) matches RunStateView::Done(
            Err(error),
        ) && (error is NothingToResume || error is Read),
    ensures
        resumed,
{
    if !resumed {
        lemma_never_refused_from_the_host(RunStateView::beginning(run, resumed), events);
    }
}

/// Whether the run can no longer end with a refusal of its resume.
spec fn beyond_refusal(state: RunStateView) -> bool {
    match state {
        RunStateView::OpenForResume(_) => false,
        RunStateView::ReadState(_) => false,
        RunStateView::Done(Err(error)) => !(error is NothingToResume || error is Read),
        _ => true,
    }
}

/// A run at the host, or past it, does not end with a refusal of its resume.
proof fn lemma_never_refused_from_the_host(state: RunStateView, events: Seq<RunEventView>)
    requires
        beyond_refusal(state),
    ensures
        beyond_refusal(after_all(state, events)),
    decreases events.len(),
{
    if events.len() > 0 {
        lemma_never_refused_from_the_host(state.after(events[0]), events.drop_first());
    }
}

/// A run that has begun does not end for its provider: an unserved one is
/// refused before anything is done for the run.
pub proof fn law_begun_run_does_not_end_for_its_provider(
    run: ContextView,
    resumed: bool,
    events: Seq<RunEventView>,
)
    ensures
        !(after_all(RunStateView::beginning(run, resumed), events) matches RunStateView::Done(
            Err(error),
        ) && error is UnsupportedProvider),
{
    lemma_provider_is_no_end(RunStateView::beginning(run, resumed), events);
}

/// Whether the run ended for its provider.
spec fn ended_for_its_provider(state: RunStateView) -> bool {
    state matches RunStateView::Done(Err(error)) && error is UnsupportedProvider
}

/// A run that did not end for its provider does not come to.
proof fn lemma_provider_is_no_end(state: RunStateView, events: Seq<RunEventView>)
    requires
        !ended_for_its_provider(state),
    ensures
        !ended_for_its_provider(after_all(state, events)),
    decreases events.len(),
{
    if events.len() > 0 {
        lemma_provider_is_no_end(state.after(events[0]), events.drop_first());
    }
}

/// Whether the run goes by the key, as far as it still goes by one.
spec fn goes_by(state: RunStateView, run_key: Seq<char>) -> bool {
    match state {
        RunStateView::OpenForResume(run) => run.run_key == run_key,
        RunStateView::ReadState(run) => run.run_key == run_key,
        RunStateView::Host { run, .. } => run.run_key == run_key,
        RunStateView::StopCancelTask(ending) => ending.run.run_key == run_key,
        RunStateView::ShutDownDispatcher(ending) => ending.run.run_key == run_key,
        RunStateView::Receipt(_, ending) => ending.run.run_key == run_key,
        RunStateView::OpenRecord(ending) => ending.run.run_key == run_key,
        RunStateView::InspectRecord(ending) => ending.run.run_key == run_key,
        RunStateView::AskCheckpoint(_) => true,
        RunStateView::Done(_) => true,
    }
}

/// A run goes by one key throughout.
proof fn lemma_goes_by_one_key(state: RunStateView, events: Seq<RunEventView>, run_key: Seq<char>)
    requires
        goes_by(state, run_key),
    ensures
        goes_by(after_all(state, events), run_key),
    decreases events.len(),
{
    if events.len() > 0 {
        lemma_goes_by_one_key(state.after(events[0]), events.drop_first(), run_key);
    }
}

/// Whenever a run's record is opened, it is under the key that the plan gives
/// the run, and for reading only: without the run's lease.
pub proof fn law_record_is_opened_by_the_run_key_for_reading(
    request: RequestView,
    events: Seq<RunEventView>,
)
    ensures
        request.plan() matches Ok(plan) ==> (after_all(
            RunStateView::beginning(request.context(), request.resume),
            events,
        ).action() matches RunActionView::OpenRecord { run_key, access } ==> run_key
            == plan.options.run_key && access == Access::Read),
{
    lemma_goes_by_one_key(
        RunStateView::beginning(request.context(), request.resume),
        events,
        request.run_id,
    );
}

/// A record is read or inspected only right after it was opened.
pub proof fn law_only_an_opened_record_is_read(state: RunStateView, event: RunEventView)
    requires
        state.action() !is ReadState,
        state.action() !is InspectRecord,
        state.after(event).action() is ReadState || state.after(event).action() is InspectRecord,
    ensures
        state.action() is OpenRecord,
        event matches RunEventView::Opened(opened) && opened is Ok,
{
}

/// Events one after the other.
pub(crate) proof fn lemma_after_all_in_turn(
    state: RunStateView,
    first: Seq<RunEventView>,
    rest: Seq<RunEventView>,
)
    ensures
        after_all(state, first + rest) == after_all(after_all(state, first), rest),
    decreases first.len(),
{
    if first.len() == 0 {
        assert(first + rest =~= rest);
    } else {
        assert((first + rest).drop_first() =~= first.drop_first() + rest);
        lemma_after_all_in_turn(state.after(first[0]), first.drop_first(), rest);
    }
}

/// What is left to do falls from each answered action to the next.
proof fn lemma_rank_falls(state: RunStateView, events: Seq<RunEventView>, i: int, j: int)
    requires
        all_answer(state, events),
        0 <= i < j <= events.len(),
    ensures
        rank(after_all(state, events.take(j))) < rank(after_all(state, events.take(i))),
    decreases j,
{
    let before = after_all(state, events.take(j - 1));
    let last = seq![events[j - 1]];
    lemma_answered_at(state, events, j - 1);
    assert(events.take(j) =~= events.take(j - 1) + last);
    lemma_after_all_in_turn(state, events.take(j - 1), last);
    assert(after_all(before.after(last[0]), last.drop_first()) == before.after(last[0]));
    if i < j - 1 {
        lemma_rank_falls(state, events, i, j - 1);
    }
}

/// A run opens its record once, to read it back; a second opening there is
/// only in a resumed run, whose first action is to open its record.
pub proof fn law_record_is_opened_twice_only_to_resume(
    run: ContextView,
    resumed: bool,
    events: Seq<RunEventView>,
    i: int,
    j: int,
)
    requires
        all_answer(RunStateView::beginning(run, resumed), events),
        0 <= i < j <= events.len(),
        action_at(RunStateView::beginning(run, resumed), events, i) is OpenRecord,
        action_at(RunStateView::beginning(run, resumed), events, j) is OpenRecord,
    ensures
        resumed,
        i == 0,
{
    let begun = RunStateView::beginning(run, resumed);
    lemma_rank_falls(begun, events, i, j);
    if i > 0 {
        lemma_rank_falls(begun, events, 0, i);
    }
    assert(events.take(0) =~= Seq::empty());
}

/// Whatever comes of the receipt, the run goes on to its record with what it
/// has to report unchanged.
proof fn lemma_receipt_keeps_the_ending(
    receipt: ReceiptStateView,
    ending: EndingView,
    events: Seq<RunEventView>,
)
    requires
        all_answer(RunStateView::Receipt(receipt, ending), events),
        after_all(RunStateView::Receipt(receipt, ending), events) is OpenRecord,
    ensures
        after_all(RunStateView::Receipt(receipt, ending), events) == RunStateView::OpenRecord(
            ending,
        ),
    decreases events.len(),
{
    if events.len() > 0 {
        let next = RunStateView::Receipt(receipt, ending).after(events[0]);
        if let RunStateView::Receipt(left, _) = next {
            lemma_receipt_keeps_the_ending(left, ending, events.drop_first());
        } else {
            assert(next == RunStateView::OpenRecord(ending));
            law_run_ends(next, events.drop_first());
        }
    }
}

/// A receipt that cannot be encoded or written has no say in a run's result:
/// whatever came of the receipt, the same rest gives the same end.
pub proof fn law_receipt_has_no_say(
    ending: EndingView,
    one: Seq<RunEventView>,
    other: Seq<RunEventView>,
    rest: Seq<RunEventView>,
)
    requires
        ({
            let state = RunStateView::Receipt(ReceiptStateView::Encode, ending);
            &&& all_answer(state, one)
            &&& all_answer(state, other)
            &&& after_all(state, one) is OpenRecord
            &&& after_all(state, other) is OpenRecord
        }),
    ensures
        after_all(RunStateView::Receipt(ReceiptStateView::Encode, ending), one + rest) == after_all(
            RunStateView::Receipt(ReceiptStateView::Encode, ending),
            other + rest,
        ),
{
    let state = RunStateView::Receipt(ReceiptStateView::Encode, ending);
    lemma_receipt_keeps_the_ending(ReceiptStateView::Encode, ending, one);
    lemma_receipt_keeps_the_ending(ReceiptStateView::Encode, ending, other);
    lemma_after_all_in_turn(state, one, rest);
    lemma_after_all_in_turn(state, other, rest);
}

/// Whether the result is what the last of the events make it: that the record
/// could not be opened, or what it supports, and under the platform's hooks
/// what they then said of a failed checkpoint.
pub open spec fn reports_the_record(
    ending: EndingView,
    events: Seq<RunEventView>,
    result: Result<OutcomeView, RunErrorView>,
) -> bool {
    &&& events.len() > 0
    &&& match events.last() {
        RunEventView::Opened(opened) => {
            &&& opened matches Err(cause)
            &&& result == Err::<OutcomeView, RunErrorView>(RunErrorView::Open(cause))
        },
        RunEventView::Inspected(inspected) => {
            &&& events.len() > 1
            &&& events[events.len() - 2] matches RunEventView::Opened(opened)
            &&& opened is Ok
            &&& result == read_back(inspected).outcome(ending.host_error)
            &&& !(ending.run.hooks && result is Ok)
        },
        RunEventView::Checkpoint(failure) => {
            &&& ending.run.hooks
            &&& events.len() > 2
            &&& events[events.len() - 3] matches RunEventView::Opened(opened)
            &&& opened is Ok
            &&& events[events.len() - 2] matches RunEventView::Inspected(inspected)
            &&& read_back(inspected).outcome(ending.host_error) matches Ok(outcome)
            &&& result == Ok::<OutcomeView, RunErrorView>(outcome.with_checkpoint(failure))
        },
        _ => false,
    }
}

/// A run at the opening of its record reports its record.
proof fn lemma_record_reports(ending: EndingView, events: Seq<RunEventView>)
    requires
        all_answer(RunStateView::OpenRecord(ending), events),
        after_all(RunStateView::OpenRecord(ending), events) is Done,
    ensures
        after_all(RunStateView::OpenRecord(ending), events) matches RunStateView::Done(result)
            && reports_the_record(ending, events, result),
{
    let opened = RunStateView::OpenRecord(ending).after(events[0]);
    let inspecting = events.drop_first();
    law_run_ends(opened, inspecting);
    if opened is InspectRecord {
        assert(inspecting.len() > 0);
        assert(inspecting[0] == events[1]);
        assert(all_answer(opened, inspecting));
        let inspected = opened.after(inspecting[0]);
        let asking = inspecting.drop_first();
        law_run_ends(inspected, asking);
        if inspected is AskCheckpoint {
            assert(asking.len() > 0);
            assert(asking[0] == events[2]);
            assert(asking.drop_first().len() == 0);
            assert(after_all(inspected.after(asking[0]), asking.drop_first()) == inspected.after(
                asking[0],
            ));
        } else {
            assert(after_all(inspected, asking) == inspected);
        }
    } else {
        assert(after_all(opened, inspecting) == opened);
    }
}

/// A run at its receipt reports its record.
proof fn lemma_receipt_reports(
    receipt: ReceiptStateView,
    ending: EndingView,
    events: Seq<RunEventView>,
)
    requires
        all_answer(RunStateView::Receipt(receipt, ending), events),
        after_all(RunStateView::Receipt(receipt, ending), events) is Done,
    ensures
        events.len() > 1,
        events[0] is Receipt,
        after_all(RunStateView::Receipt(receipt, ending), events) matches RunStateView::Done(result)
            && reports_the_record(ending, events, result),
    decreases events.len(),
{
    let next = RunStateView::Receipt(receipt, ending).after(events[0]);
    let rest = events.drop_first();
    if let RunStateView::Receipt(left, _) = next {
        lemma_receipt_reports(left, ending, rest);
    } else {
        lemma_record_reports(ending, rest);
    }
}

/// A run that the host took on reports what its durable record says, and not
/// before the task that waits for a cancellation is stopped, the interview
/// dispatcher is down and the receipt was seen to.
pub proof fn law_run_reports_its_record(
    run: ContextView,
    resumed: bool,
    events: Seq<RunEventView>,
)
    requires
        all_answer(RunStateView::Host { run, resumed }, events),
        after_all(RunStateView::Host { run, resumed }, events) is Done,
    ensures
        events.len() > 4,
        events[1] is CancelTaskStopped,
        events[2] is DispatcherDown,
        events[3] is Receipt,
        events[0] matches RunEventView::HostEnded(host_error) && (after_all(
            RunStateView::Host { run, resumed },
            events,
        ) matches RunStateView::Done(result) && reports_the_record(
            EndingView { run, host_error },
            events,
            result,
        )),
{
    let host = RunStateView::Host { run, resumed };
    let ending = EndingView { run, host_error: events[0]->HostEnded_0 };
    let stop = RunStateView::StopCancelTask(ending);
    let shut_down = RunStateView::ShutDownDispatcher(ending);
    let stopping = events.drop_first();
    assert(all_answer(stop, stopping) && after_all(stop, stopping) == after_all(host, events));
    let shutting_down = stopping.drop_first();
    assert(all_answer(shut_down, shutting_down) && after_all(shut_down, shutting_down) == after_all(
        stop,
        stopping,
    ));
    let receipt = shutting_down.drop_first();
    lemma_receipt_reports(ReceiptStateView::Encode, ending, receipt);
    assert(receipt.last() == events.last());
    assert(receipt[receipt.len() - 2] == events[events.len() - 2]);
    assert(receipt.len() > 2 ==> receipt[receipt.len() - 3] == events[events.len() - 3]);
}

/// A run that the host took on is reported as a success only if its record
/// states success and is whole, and the platform's hooks, where the run has
/// them, know of no failed checkpoint.
pub proof fn law_success_is_by_the_record(
    ending: EndingView,
    events: Seq<RunEventView>,
    result: Result<OutcomeView, RunErrorView>,
)
    requires
        reports_the_record(ending, events, result),
        conclusion_of(result) is Succeeded,
    ensures
        ending.run.hooks ==> events.last() == RunEventView::Checkpoint(None),
        events[if ending.run.hooks {
            events.len() - 2
        } else {
            events.len() - 1
        }] matches RunEventView::Inspected(Ok(inspection)) && inspection.recorded_status() == Some(
            RunStatus::Success,
        ) && inspection.complete,
{
}

/// To read a record alone, it is opened once, under the run's id and for
/// reading only, and inspected where it was opened; nothing else is done, so
/// no lease is taken and nothing is added to the record.
pub proof fn law_record_alone_is_opened_once_for_reading(
    run_id: Seq<char>,
    events: Seq<RunEventView>,
    i: int,
)
    requires
        all_answer(RunStateView::record_alone(run_id), events),
        0 <= i <= events.len(),
    ensures
        match action_at(RunStateView::record_alone(run_id), events, i) {
            RunActionView::OpenRecord { run_key, access } => i == 0 && run_key == run_id && access
                == Access::Read,
            RunActionView::InspectRecord => i == 1 && (events[0] matches RunEventView::Opened(
                opened,
            ) && opened is Ok),
            RunActionView::Report => i > 0,
            _ => false,
        },
{
    let opening = RunStateView::record_alone(run_id);
    if i == 0 {
        assert(events.take(0) =~= Seq::empty());
    } else {
        let opened = opening.after(events[0]);
        let first = events.take(i);
        let rest = first.drop_first();
        assert(first[0] == events[0]);
        if opened is Done {
            law_result_is_final(opened->Done_0, rest);
        } else if i > 1 {
            let second = events.drop_first();
            assert(all_answer(opened, second));
            assert(opened.answered_by(second[0]));
            assert(rest[0] == second[0]);
            assert(after_all(opened, rest) == after_all(opened.after(rest[0]), rest.drop_first()));
            law_result_is_final(opened.after(rest[0])->Done_0, rest.drop_first());
        } else {
            assert(after_all(opened, rest) == opened);
        }
    }
}

/// Reading a record alone gives what the record supports, by how it was read.
pub proof fn law_record_alone_says_what_the_record_supports(
    run_id: Seq<char>,
    reading: ReadingView<InspectionView>,
)
    ensures
        after_all(
            RunStateView::record_alone(run_id),
            reading_events(reading, |read| RunEventView::Inspected(read)),
        ) == RunStateView::Done(reading.outcome(None)),
{
    let events = reading_events(reading, |read| RunEventView::Inspected(read));
    let opening = RunStateView::record_alone(run_id);
    let rest = events.drop_first();
    if reading !is NotOpened {
        assert(rest[0] == events[1]);
        assert(after_all(opening.after(events[0]), rest) == after_all(
            opening.after(events[0]).after(rest[0]),
            rest.drop_first(),
        ));
    }
}

/// Whether the events are what a store answers whose record stays as it is:
/// to the same action always the same.
pub open spec fn answered_by_store(
    state: RunStateView,
    events: Seq<RunEventView>,
    store: spec_fn(RunActionView) -> RunEventView,
) -> bool
    decreases events.len(),
{
    events.len() > 0 ==> events[0] == store(state.action()) && answered_by_store(
        state.after(events[0]),
        events.drop_first(),
        store,
    )
}

/// Read alone a second time, a record that stays as it is says the same
/// again.
pub proof fn law_untouched_record_says_the_same_again(
    run_id: Seq<char>,
    store: spec_fn(RunActionView) -> RunEventView,
    first: Seq<RunEventView>,
    second: Seq<RunEventView>,
)
    requires
        answered_by_store(RunStateView::record_alone(run_id), first, store),
        answered_by_store(RunStateView::record_alone(run_id), second, store),
        after_all(RunStateView::record_alone(run_id), first) is Done,
        after_all(RunStateView::record_alone(run_id), second) is Done,
    ensures
        after_all(RunStateView::record_alone(run_id), first) == after_all(
            RunStateView::record_alone(run_id),
            second,
        ),
{
    lemma_same_answers_same_end(RunStateView::record_alone(run_id), store, first, second);
}

/// The same answers lead to the same end.
proof fn lemma_same_answers_same_end(
    state: RunStateView,
    store: spec_fn(RunActionView) -> RunEventView,
    first: Seq<RunEventView>,
    second: Seq<RunEventView>,
)
    requires
        answered_by_store(state, first, store),
        answered_by_store(state, second, store),
        after_all(state, first) is Done,
        after_all(state, second) is Done,
    ensures
        after_all(state, first) == after_all(state, second),
    decreases first.len(),
{
    if let RunStateView::Done(result) = state {
        law_result_is_final(result, first);
        law_result_is_final(result, second);
    } else {
        lemma_same_answers_same_end(
            state.after(first[0]),
            store,
            first.drop_first(),
            second.drop_first(),
        );
    }
}

/// Reading a record alone gives what the run itself reported, unless the run
/// had a failed checkpoint, or a host error and no recorded status.
pub proof fn law_record_alone_says_what_the_run_reported(
    ending: EndingView,
    reading: ReadingView<InspectionView>,
)
    requires
        ending.host_error is None || !(reading matches ReadingView::Read(inspection)
            && inspection.recorded_status() is None),
    ensures
        after_all(
            RunStateView::OpenRecord(ending),
            reading_events(reading, |read| RunEventView::Inspected(read)) + only_if(
                ending.run.hooks && reading.outcome(None) is Ok,
                RunEventView::Checkpoint(None),
            ),
        ) == after_all(
            RunStateView::record_alone(ending.run.run_key),
            reading_events(reading, |read| RunEventView::Inspected(read)),
        ),
{
    law_record_alone_says_what_the_record_supports(ending.run.run_key, reading);
    let asked = ending.run.hooks && reading.outcome(None) is Ok;
    let checkpoint = only_if(asked, RunEventView::Checkpoint(None));
    let read = reading_events(reading, |read| RunEventView::Inspected(read));
    let opening = RunStateView::OpenRecord(ending);
    lemma_after_all_in_turn(opening, read, checkpoint);
    let rest = read.drop_first();
    if reading !is NotOpened {
        assert(rest[0] == read[1]);
        assert(after_all(opening.after(read[0]), rest) == after_all(
            opening.after(read[0]).after(rest[0]),
            rest.drop_first(),
        ));
    }
    if asked {
        let asking = after_all(opening, read);
        assert(after_all(asking, checkpoint) == after_all(
            asking.after(checkpoint[0]),
            checkpoint.drop_first(),
        ));
    }
}

} // verus!
