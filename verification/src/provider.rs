//! The sandbox providers of the platform and the backends that serve them.

use vstd::prelude::*;

verus! {

/// The sandbox provider that the platform resolved for a run's environment.
#[derive(Debug, PartialEq, Eq)]
pub enum SandboxProviderKind {
    Local,
    Docker,
    Daytona,
    /// A provider of any other kind, by the name it goes by.
    Other(String),
}

/// What a [`SandboxProviderKind`] stands for, its name as text.
pub enum ProviderView {
    Local,
    Docker,
    Daytona,
    Other(Seq<char>),
}

/// Where the runtime puts a run's sandboxes.
#[derive(Clone, Copy, Debug, PartialEq, Eq, Structural)]
pub enum SandboxBackend {
    Host,
    Docker,
    Daytona,
}

impl View for SandboxProviderKind {
    type V = ProviderView;

    open spec fn view(&self) -> ProviderView {
        match self {
            SandboxProviderKind::Local => ProviderView::Local,
            SandboxProviderKind::Docker => ProviderView::Docker,
            SandboxProviderKind::Daytona => ProviderView::Daytona,
            SandboxProviderKind::Other(name) => ProviderView::Other(name@),
        }
    }
}

impl ProviderView {
    /// The name of the provider, as messages print it.
    pub open spec fn name(self) -> Seq<char> {
        match self {
            ProviderView::Local => "local"@,
            ProviderView::Docker => "docker"@,
            ProviderView::Daytona => "daytona"@,
            ProviderView::Other(name) => name,
        }
    }

    /// Whether the provider is the one that its name names: one of another
    /// kind goes by none of the served names.
    pub open spec fn canonical(self) -> bool {
        self matches ProviderView::Other(name) ==> name != "local"@ && name != "docker"@ && name
            != "daytona"@
    }

    /// The backend that serves the provider; `None` when no backend does.
    pub open spec fn backend(self) -> Option<SandboxBackend> {
        match self {
            ProviderView::Local => Some(SandboxBackend::Host),
            ProviderView::Docker => Some(SandboxBackend::Docker),
            ProviderView::Daytona => Some(SandboxBackend::Daytona),
            ProviderView::Other(_) => None,
        }
    }
}

impl Clone for SandboxProviderKind {
    fn clone(&self) -> (copy: Self)
        ensures
            copy == *self,
    {
        match self {
            SandboxProviderKind::Local => SandboxProviderKind::Local,
            SandboxProviderKind::Docker => SandboxProviderKind::Docker,
            SandboxProviderKind::Daytona => SandboxProviderKind::Daytona,
            SandboxProviderKind::Other(name) => SandboxProviderKind::Other(name.clone()),
        }
    }
}

impl SandboxProviderKind {
    /// The provider that goes by the name: of another kind only if the name
    /// is none of the served ones.
    pub fn from_name(name: String) -> (provider: Self)
        ensures
            provider@.name() == name@,
            provider@.canonical(),
    {
        if name == "local".to_string() {
            SandboxProviderKind::Local
        } else if name == "docker".to_string() {
            SandboxProviderKind::Docker
        } else if name == "daytona".to_string() {
            SandboxProviderKind::Daytona
        } else {
            SandboxProviderKind::Other(name)
        }
    }

    /// The name of the provider, as messages print it.
    pub fn name(&self) -> (name: String)
        ensures
            name@ == self@.name(),
    {
        match self {
            SandboxProviderKind::Local => "local".to_string(),
            SandboxProviderKind::Docker => "docker".to_string(),
            SandboxProviderKind::Daytona => "daytona".to_string(),
            SandboxProviderKind::Other(name) => name.clone(),
        }
    }
}

/// The sandbox backend for the provider kind; `None` for a kind that no
/// backend serves.
pub fn backend(provider: &SandboxProviderKind) -> (backend: Option<SandboxBackend>)
    ensures
        backend == provider@.backend(),
{
    match provider {
        SandboxProviderKind::Local => Some(SandboxBackend::Host),
        SandboxProviderKind::Docker => Some(SandboxBackend::Docker),
        SandboxProviderKind::Daytona => Some(SandboxBackend::Daytona),
        SandboxProviderKind::Other(_) => None,
    }
}

} // verus!
