//! What a run's durable record says, and the outcome it supports.

use vstd::prelude::*;

use crate::error::{Cause, RunError, RunErrorView};
use crate::text::texts;

verus! {

/// An invocation within its run.
#[derive(Clone, Copy, Debug, PartialEq, Eq, Structural)]
pub enum InvocationId {
    /// The root invocation, which every run that got under way declares.
    Root,
    /// Any other invocation, by its number.
    Child(u64),
}

/// The state stored for a run: the invocations that its record declares.
#[derive(Debug)]
pub struct StoredState {
    pub invocations: Vec<InvocationId>,
}

/// How an invocation ended: the message of its failure, when it failed.
#[derive(Debug)]
pub struct InvocationResult {
    pub failure: Option<String>,
}

/// One invocation of an inspected run, with its result once it has one.
#[derive(Debug)]
pub struct InvocationRecord {
    pub invocation: InvocationId,
    pub result: Option<InvocationResult>,
}

/// A run's record as an inspection found it.
#[derive(Debug)]
pub struct RunInspection {
    /// The word that the run recorded as its status.
    pub status: Option<String>,
    /// The run's root invocation.
    pub root: InvocationId,
    pub invocations: Vec<InvocationRecord>,
    /// Whether the record is whole.
    pub complete: bool,
    /// Every reason `complete` is false.
    pub incomplete: Vec<String>,
}

/// What the handle of an opened record may do.
#[derive(Clone, Copy, Debug, PartialEq, Eq, Structural)]
pub enum Access {
    /// Read the record, without holding the run's lease.
    Read,
    /// Add to the record, holding the run's lease.
    Lease,
}

/// The access of every opening of a run's record. What a run reports is read
/// back, so no opening takes the lease from whoever executes the run.
pub const RECORD_ACCESS: Access = Access::Read;

/// What came of opening a run's record and reading something from it.
#[derive(Debug)]
pub enum Reading<T> {
    /// The record could not be opened.
    NotOpened(Cause),
    /// The record was opened and could not be read.
    NotRead(Cause),
    /// The record was opened and says this.
    Read(T),
}

/// The recorded status of a finished run.
#[derive(Clone, Copy, Debug, PartialEq, Eq, Structural)]
pub enum RunStatus {
    Success,
    Failed,
    Cancelled,
}

/// What the durable record says about the run once it ended.
#[derive(Clone, Debug)]
pub struct RunOutcome {
    pub status: RunStatus,
    /// The root invocation's failure message, when it failed.
    pub failure: Option<String>,
    /// Whether the record is whole: the run recorded its finish and every
    /// log replays byte for byte.
    pub complete: bool,
    /// Every reason `complete` is false.
    pub incomplete: Vec<String>,
}

/// What an [`InvocationRecord`] stands for: the failure message, if any, of
/// the result, if any.
pub struct InvocationView {
    pub invocation: InvocationId,
    pub result: Option<Option<Seq<char>>>,
}

/// What a [`Reading`] stands for: each cause as its messages, outermost
/// first.
pub enum ReadingView<V> {
    NotOpened(Seq<Seq<char>>),
    NotRead(Seq<Seq<char>>),
    Read(V),
}

/// What a [`RunInspection`] stands for, its strings as text.
pub struct InspectionView {
    pub status: Option<Seq<char>>,
    pub root: InvocationId,
    pub invocations: Seq<InvocationView>,
    pub complete: bool,
    pub incomplete: Seq<Seq<char>>,
}

/// What a [`RunOutcome`] stands for, its strings as text.
#[verifier::ext_equal]
pub struct OutcomeView {
    pub status: RunStatus,
    pub failure: Option<Seq<char>>,
    pub complete: bool,
    pub incomplete: Seq<Seq<char>>,
}

/// The text of an optional string.
pub open spec fn optional_text(text: Option<String>) -> Option<Seq<char>> {
    match text {
        Some(text) => Some(text@),
        None => None,
    }
}

impl View for StoredState {
    type V = Seq<InvocationId>;

    open spec fn view(&self) -> Seq<InvocationId> {
        self.invocations@
    }
}

impl View for InvocationRecord {
    type V = InvocationView;

    open spec fn view(&self) -> InvocationView {
        InvocationView {
            invocation: self.invocation,
            result: match self.result {
                Some(result) => Some(optional_text(result.failure)),
                None => None,
            },
        }
    }
}

impl View for RunInspection {
    type V = InspectionView;

    open spec fn view(&self) -> InspectionView {
        InspectionView {
            status: optional_text(self.status),
            root: self.root,
            invocations: self.invocations@.map_values(|record: InvocationRecord| record@),
            complete: self.complete,
            incomplete: texts(self.incomplete@),
        }
    }
}

impl<T> Reading<T> {
    /// What came of reading from a record that was opened.
    pub fn of_opened(read: Result<T, Cause>) -> (reading: Self)
        ensures
            reading == match read {
                Ok(said) => Reading::Read(said),
                Err(cause) => Reading::NotRead(cause),
            },
    {
        match read {
            Ok(said) => Reading::Read(said),
            Err(cause) => Reading::NotRead(cause),
        }
    }
}

impl<T: View> View for Reading<T> {
    type V = ReadingView<T::V>;

    open spec fn view(&self) -> ReadingView<T::V> {
        match self {
            Reading::NotOpened(cause) => ReadingView::NotOpened(cause@),
            Reading::NotRead(cause) => ReadingView::NotRead(cause@),
            Reading::Read(said) => ReadingView::Read(said@),
        }
    }
}

impl View for RunOutcome {
    type V = OutcomeView;

    open spec fn view(&self) -> OutcomeView {
        OutcomeView {
            status: self.status,
            failure: optional_text(self.failure),
            complete: self.complete,
            incomplete: texts(self.incomplete@),
        }
    }
}

/// What a finished run gave its caller.
pub open spec fn result_view(result: Result<RunOutcome, RunError>) -> Result<
    OutcomeView,
    RunErrorView,
> {
    match result {
        Ok(outcome) => Ok(outcome@),
        Err(error) => Err(error@),
    }
}

/// The status that a recorded word means; `None` for every other word.
pub open spec fn status_of_word(word: Seq<char>) -> Option<RunStatus> {
    if word == "success"@ {
        Some(RunStatus::Success)
    } else if word == "failed"@ {
        Some(RunStatus::Failed)
    } else if word == "cancelled"@ {
        Some(RunStatus::Cancelled)
    } else {
        None
    }
}

/// The first record of the given invocation.
pub open spec fn first_invocation(
    invocations: Seq<InvocationView>,
    invocation: InvocationId,
) -> Option<InvocationView>
    decreases invocations.len(),
{
    if invocations.len() == 0 {
        None
    } else if invocations[0].invocation == invocation {
        Some(invocations[0])
    } else {
        first_invocation(invocations.drop_first(), invocation)
    }
}

impl InspectionView {
    /// The status that the record states, if it states one.
    pub open spec fn recorded_status(self) -> Option<RunStatus> {
        match self.status {
            Some(word) => status_of_word(word),
            None => None,
        }
    }

    /// The failure message of the root invocation's result, if the root is
    /// among the invocations and has a result that failed.
    pub open spec fn root_failure(self) -> Option<Seq<char>> {
        match first_invocation(self.invocations, self.root) {
            Some(record) => match record.result {
                Some(failure) => failure,
                None => None,
            },
            None => None,
        }
    }

    /// The outcome that the record supports. A record without a status is
    /// unfinished, for the reasons it is incomplete and then the host error.
    pub open spec fn outcome(self, host_error: Option<Seq<char>>) -> Result<
        OutcomeView,
        RunErrorView,
    > {
        match self.recorded_status() {
            Some(status) => Ok(
                OutcomeView {
                    status,
                    failure: self.root_failure(),
                    complete: self.complete,
                    incomplete: self.incomplete,
                },
            ),
            None => Err(
                RunErrorView::Unfinished(
                    match host_error {
                        Some(error) => self.incomplete.push(error),
                        None => self.incomplete,
                    },
                ),
            ),
        }
    }
}

/// What came of reading from a record that was opened.
pub open spec fn read_back<V>(read: Result<V, Seq<Seq<char>>>) -> ReadingView<V> {
    match read {
        Ok(said) => ReadingView::Read(said),
        Err(cause) => ReadingView::NotRead(cause),
    }
}

impl ReadingView<InspectionView> {
    /// The outcome that the record supports, where it could be inspected.
    pub open spec fn outcome(self, host_error: Option<Seq<char>>) -> Result<
        OutcomeView,
        RunErrorView,
    > {
        match self {
            ReadingView::NotOpened(cause) => Err(RunErrorView::Open(cause)),
            ReadingView::NotRead(cause) => Err(RunErrorView::Inspect(cause)),
            ReadingView::Read(inspection) => inspection.outcome(host_error),
        }
    }
}

impl ReadingView<Seq<InvocationId>> {
    /// Why a run whose stored state was read so cannot be resumed; `None`
    /// where it can.
    pub open spec fn refusal(self) -> Option<RunErrorView> {
        match self {
            ReadingView::NotOpened(cause) => Some(RunErrorView::Open(cause)),
            ReadingView::NotRead(cause) => Some(RunErrorView::Read(cause)),
            ReadingView::Read(declared) => if declared.contains(InvocationId::Root) {
                None
            } else {
                Some(RunErrorView::NothingToResume)
            },
        }
    }
}

/// Reads a recorded status word.
pub fn parse_status(word: &String) -> (status: Option<RunStatus>)
    ensures
        status == status_of_word(word@),
{
    if *word == "success".to_string() {
        Some(RunStatus::Success)
    } else if *word == "failed".to_string() {
        Some(RunStatus::Failed)
    } else if *word == "cancelled".to_string() {
        Some(RunStatus::Cancelled)
    } else {
        None
    }
}

/// The failure message of the root invocation, when it failed.
fn root_failure(inspection: &RunInspection) -> (failure: Option<String>)
    ensures
        optional_text(failure) == inspection@.root_failure(),
{
    let ghost records = inspection@.invocations;
    let mut i: usize = 0;
    assert(records.skip(0) =~= records);
    while i < inspection.invocations.len()
        invariant
            i <= inspection.invocations.len(),
            records == inspection@.invocations,
            first_invocation(records, inspection.root) == first_invocation(
                records.skip(i as int),
                inspection.root,
            ),
        decreases inspection.invocations.len() - i,
    {
        let record: &InvocationRecord = &inspection.invocations[i];
        assert(records.skip(i as int)[0] == record@);
        if record.invocation == inspection.root {
            return match &record.result {
                Some(result) => result.failure.clone(),
                None => None,
            };
        }
        assert(records.skip(i as int).drop_first() =~= records.skip(i + 1));
        i += 1;
    }
    None
}

/// The outcome the record supports. A run whose record has no status is
/// unfinished: the host error, when there is one, says why.
pub fn outcome(inspection: RunInspection, host_error: Option<String>) -> (outcome: Result<
    RunOutcome,
    RunError,
>)
    ensures
        result_view(outcome) == inspection@.outcome(optional_text(host_error)),
{
    let status: Option<RunStatus> = match &inspection.status {
        Some(word) => parse_status(word),
        None => None,
    };
    match status {
        Some(status) => {
            let failure: Option<String> = root_failure(&inspection);
            Ok(
                RunOutcome {
                    status,
                    failure,
                    complete: inspection.complete,
                    incomplete: inspection.incomplete,
                },
            )
        },
        None => {
            let mut reasons: Vec<String> = inspection.incomplete;
            if let Some(error) = host_error {
                let ghost before = reasons@;
                reasons.push(error);
                assert(texts(reasons@) =~= texts(before).push(error@));
            }
            Err(RunError::Unfinished(reasons))
        },
    }
}

/// Whether the stored state declares the root invocation.
fn declares_root(state: &StoredState) -> (declared: bool)
    ensures
        declared == state@.contains(InvocationId::Root),
{
    let mut i: usize = 0;
    while i < state.invocations.len()
        invariant
            i <= state.invocations.len(),
            forall|j: int| 0 <= j < i ==> state@[j] != InvocationId::Root,
        decreases state.invocations.len() - i,
    {
        if state.invocations[i] == InvocationId::Root {
            assert(state@[i as int] == InvocationId::Root);
            return true;
        }
        i += 1;
    }
    false
}

/// Refuses a resume that the host would not survive: one of a run whose
/// record cannot be read, or declares no root invocation because the run was
/// created in the store and nothing more.
pub fn check_resumable(reading: Reading<StoredState>) -> (checked: Result<(), RunError>)
    ensures
        reading@.refusal() == match checked {
            Ok(_) => None,
            Err(error) => Some(error@),
        },
{
    match reading {
        Reading::NotOpened(cause) => Err(RunError::Open(cause)),
        Reading::NotRead(cause) => Err(RunError::Read(cause)),
        Reading::Read(state) => if declares_root(&state) {
            Ok(())
        } else {
            Err(RunError::NothingToResume)
        },
    }
}

/// What the inspection of a run's record found.
pub fn inspect(reading: Reading<RunInspection>) -> (inspected: Result<RunInspection, RunError>)
    ensures
        inspected == match reading {
            Reading::NotOpened(cause) => Err(RunError::Open(cause)),
            Reading::NotRead(cause) => Err(RunError::Inspect(cause)),
            Reading::Read(inspection) => Ok(inspection),
        },
{
    match reading {
        Reading::NotOpened(cause) => Err(RunError::Open(cause)),
        Reading::NotRead(cause) => Err(RunError::Inspect(cause)),
        Reading::Read(inspection) => Ok(inspection),
    }
}

} // verus!
