//! Why a run could not be executed or its outcome read, and how that reads.

use vstd::prelude::*;
use vstd::string::*;

use crate::provider::{ProviderView, SandboxProviderKind};
use crate::text::{join, joined, texts};

verus! {

/// An error of the store or the host: what it says, and the error under it.
#[derive(Debug)]
pub struct Cause {
    pub message: String,
    pub source: Option<Box<Cause>>,
}

impl Cause {
    /// What the error says, then what each error under it says, outermost
    /// first.
    pub open spec fn messages(self) -> Seq<Seq<char>>
        decreases self,
    {
        match self.source {
            Some(source) => seq![self.message@] + source.messages(),
            None => seq![self.message@],
        }
    }
}

impl View for Cause {
    type V = Seq<Seq<char>>;

    open spec fn view(&self) -> Seq<Seq<char>> {
        self.messages()
    }
}

/// Why the run could not be executed or its outcome read.
#[derive(Debug)]
pub enum RunError {
    /// The run's sandbox provider is not one that a backend serves.
    UnsupportedProvider { provider: SandboxProviderKind },
    /// The run's record could not be opened.
    Open(Cause),
    /// The run's record could not be read.
    Read(Cause),
    /// The run's record has no root invocation.
    NothingToResume,
    /// The run's record could not be inspected.
    Inspect(Cause),
    /// The run ended without recording a status, for these reasons.
    Unfinished(Vec<String>),
}

/// What a [`RunError`] stands for: each cause as its messages, outermost
/// first.
#[verifier::ext_equal]
pub enum RunErrorView {
    UnsupportedProvider { provider: ProviderView },
    Open(Seq<Seq<char>>),
    Read(Seq<Seq<char>>),
    NothingToResume,
    Inspect(Seq<Seq<char>>),
    Unfinished(Seq<Seq<char>>),
}

impl View for RunError {
    type V = RunErrorView;

    open spec fn view(&self) -> RunErrorView {
        match self {
            RunError::UnsupportedProvider { provider } => RunErrorView::UnsupportedProvider {
                provider: provider@,
            },
            RunError::Open(cause) => RunErrorView::Open(cause@),
            RunError::Read(cause) => RunErrorView::Read(cause@),
            RunError::NothingToResume => RunErrorView::NothingToResume,
            RunError::Inspect(cause) => RunErrorView::Inspect(cause@),
            RunError::Unfinished(reasons) => RunErrorView::Unfinished(texts(reasons@)),
        }
    }
}

impl RunErrorView {
    /// What the error itself says, without its causes.
    pub open spec fn message(self) -> Seq<char> {
        match self {
            RunErrorView::UnsupportedProvider { provider } => "the run's sandbox provider `"@
                + provider.name() + "` is not one Petri serves"@,
            RunErrorView::Open(_) => "the run's record could not be opened"@,
            RunErrorView::Read(_) => "the run's record could not be read"@,
            RunErrorView::NothingToResume =>
                "the run's record has no root invocation, so there is nothing to resume"@,
            RunErrorView::Inspect(_) => "the run's record could not be inspected"@,
            RunErrorView::Unfinished(reasons) =>
                "the run ended without recording a status; the record says: "@ + joined(
                reasons,
                "; "@,
            ),
        }
    }

    /// What the errors under this one say, outermost first.
    pub open spec fn causes(self) -> Seq<Seq<char>> {
        match self {
            RunErrorView::Open(cause) => cause,
            RunErrorView::Read(cause) => cause,
            RunErrorView::Inspect(cause) => cause,
            _ => Seq::empty(),
        }
    }

    /// The error and every cause under it, as one text.
    pub open spec fn chain(self) -> Seq<char> {
        joined(seq![self.message()] + self.causes(), ": "@)
    }
}

impl RunError {
    /// What the error itself says, without its causes.
    pub fn message(&self) -> (message: String)
        ensures
            message@ == self@.message(),
    {
        match self {
            RunError::UnsupportedProvider { provider } => {
                let mut message = "the run's sandbox provider `".to_string();
                message.append(provider.name().as_str());
                message.append("` is not one Petri serves");
                message
            },
            RunError::Open(_) => "the run's record could not be opened".to_string(),
            RunError::Read(_) => "the run's record could not be read".to_string(),
            RunError::NothingToResume =>
                "the run's record has no root invocation, so there is nothing to resume".to_string(),
            RunError::Inspect(_) => "the run's record could not be inspected".to_string(),
            RunError::Unfinished(reasons) => {
                let mut message =
                    "the run ended without recording a status; the record says: ".to_string();
                message.append(join(reasons, "; ").as_str());
                message
            },
        }
    }

    /// The error directly under this one.
    pub fn source(&self) -> (source: Option<&Cause>)
        ensures
            self@.causes() == match source {
                Some(cause) => cause@,
                None => Seq::empty(),
            },
    {
        match self {
            RunError::Open(cause) => Some(cause),
            RunError::Read(cause) => Some(cause),
            RunError::Inspect(cause) => Some(cause),
            _ => None,
        }
    }
}

/// The error and every cause under it, as one line.
pub fn error_chain(error: &RunError) -> (chain: String)
    ensures
        chain@ == error@.chain(),
{
    let mut parts: Vec<String> = Vec::new();
    parts.push(error.message());
    let mut cause: Option<&Cause> = error.source();
    let ghost whole = seq![error@.message()] + error@.causes();
    assert(texts(parts@) =~= seq![error@.message()]);
    while cause.is_some()
        invariant
            whole == texts(parts@) + match cause {
                Some(under) => under@,
                None => Seq::empty(),
            },
        decreases cause,
    {
        let next: &Cause = cause.unwrap();
        let ghost before = texts(parts@);
        parts.push(next.message.clone());
        assert(texts(parts@) =~= before + seq![next.message@]);
        cause = match &next.source {
            Some(source) => Some(&**source),
            None => None,
        };
        assert(whole =~= texts(parts@) + match cause {
            Some(under) => under@,
            None => Seq::empty(),
        });
    }
    assert(whole =~= texts(parts@));
    join(&parts, ": ")
}

} // verus!
