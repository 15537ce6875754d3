//! Writing the interview receipt beside a run.

use vstd::prelude::*;

verus! {

/// How far the writing of a receipt has come.
#[derive(Debug)]
pub enum ReceiptState {
    /// The receipt is to be encoded.
    Encode,
    /// The run directory is to be created, for these bytes.
    CreateDir(Vec<u8>),
    /// These bytes are to be written.
    Write(Vec<u8>),
}

/// What came of the last thing that was done for a receipt.
#[derive(Debug)]
pub enum ReceiptEvent {
    /// The receipt was encoded as these bytes, or could not be.
    Encoded(Option<Vec<u8>>),
    /// Whether the run directory is there.
    DirCreated(bool),
    /// Whether the bytes were written.
    Written(bool),
}

/// What a [`ReceiptState`] stands for.
#[verifier::ext_equal]
pub enum ReceiptStateView {
    Encode,
    CreateDir(Seq<u8>),
    Write(Seq<u8>),
}

/// What a [`ReceiptEvent`] stands for.
#[verifier::ext_equal]
pub enum ReceiptEventView {
    Encoded(Option<Seq<u8>>),
    DirCreated(bool),
    Written(bool),
}

impl View for ReceiptState {
    type V = ReceiptStateView;

    open spec fn view(&self) -> ReceiptStateView {
        match self {
            ReceiptState::Encode => ReceiptStateView::Encode,
            ReceiptState::CreateDir(bytes) => ReceiptStateView::CreateDir(bytes@),
            ReceiptState::Write(bytes) => ReceiptStateView::Write(bytes@),
        }
    }
}

impl View for ReceiptEvent {
    type V = ReceiptEventView;

    open spec fn view(&self) -> ReceiptEventView {
        match self {
            ReceiptEvent::Encoded(Some(bytes)) => ReceiptEventView::Encoded(Some(bytes@)),
            ReceiptEvent::Encoded(None) => ReceiptEventView::Encoded(None),
            ReceiptEvent::DirCreated(done) => ReceiptEventView::DirCreated(*done),
            ReceiptEvent::Written(done) => ReceiptEventView::Written(*done),
        }
    }
}

impl ReceiptStateView {
    /// Whether the event tells what came of the thing to be done.
    pub open spec fn answered_by(self, event: ReceiptEventView) -> bool {
        match self {
            ReceiptStateView::Encode => event is Encoded,
            ReceiptStateView::CreateDir(_) => event is DirCreated,
            ReceiptStateView::Write(_) => event is Written,
        }
    }

    /// What is left to do after the event, if anything is. A receipt that
    /// cannot be encoded, or that has no directory to go to, is given up; an
    /// event that answers nothing changes nothing.
    pub open spec fn after(self, event: ReceiptEventView) -> Option<ReceiptStateView> {
        match (self, event) {
            (ReceiptStateView::Encode, ReceiptEventView::Encoded(Some(bytes))) => Some(
                ReceiptStateView::CreateDir(bytes),
            ),
            (ReceiptStateView::CreateDir(bytes), ReceiptEventView::DirCreated(true)) => Some(
                ReceiptStateView::Write(bytes),
            ),
            _ => if self.answered_by(event) {
                None
            } else {
                Some(self)
            },
        }
    }

    /// How many things are still to be done at most.
    pub open spec fn rank(self) -> nat {
        match self {
            ReceiptStateView::Encode => 3,
            ReceiptStateView::CreateDir(_) => 2,
            ReceiptStateView::Write(_) => 1,
        }
    }
}

/// Takes the writing of a receipt one event further; `None` when nothing is
/// left to do. A receipt that cannot be written is given up: the run's record
/// does not depend on it.
pub fn write_receipt(state: ReceiptState, event: ReceiptEvent) -> (next: Option<ReceiptState>)
    ensures
        state@.after(event@) == match next {
            Some(next) => Some(next@),
            None => None,
        },
{
    match (state, event) {
        (ReceiptState::Encode, ReceiptEvent::Encoded(Some(bytes))) => Some(
            ReceiptState::CreateDir(bytes),
        ),
        (ReceiptState::CreateDir(bytes), ReceiptEvent::DirCreated(true)) => Some(
            ReceiptState::Write(bytes),
        ),
        (ReceiptState::Encode, ReceiptEvent::Encoded(None)) => None,
        (ReceiptState::CreateDir(_), ReceiptEvent::DirCreated(false)) => None,
        (ReceiptState::Write(_), ReceiptEvent::Written(_)) => None,
        (state, _) => Some(state),
    }
}

} // verus!
