//! How a run is put together: the options it runs with, what is installed in
//! its runtime, and what is wired to its coordinator.

use vstd::prelude::*;

use crate::error::{RunError, RunErrorView};
use crate::provider::{backend, ProviderView, SandboxBackend, SandboxProviderKind};

verus! {

/// The handles of the platform around a run. The engine passes them on and
/// looks into none of them.
pub trait Platform {
    /// Where the run's workspaces, step output and blobs live.
    type RunDir;

    /// A run's graph, as admission let it through.
    type Graph;

    /// The graphs of a run's children, as admission let them through.
    type Children;

    /// The store of the run's durable record.
    type Store;

    /// What the runtime is built from.
    type Runtime;

    /// What fires to cancel a run.
    type Cancel;

    /// The run's pause, unpause and steer controls.
    type Controls;

    /// Where the run's questions go.
    type Interviewer;

    /// An observer of every record.
    type Observer;

    /// Where references to secrets resolve from.
    type Secrets;

    /// Where offloaded stage values go.
    type Blobs;

    /// What the platform's own hooks are built from.
    type Hooks;
}

/// The graphs that admission let through: the run's own and its children's.
#[derive(Debug)]
pub struct AdmittedGraphs<G, C> {
    pub graph: G,
    pub children: C,
}

/// How the run is entered: fresh, from the admitted graphs, or continued
/// from its records.
#[derive(Debug)]
pub enum Execution<G, C> {
    /// Run the admitted graphs from the start; the run must not exist in
    /// the store yet.
    Start(AdmittedGraphs<G, C>),
    /// Continue the run from its records; the run must exist in the store
    /// with its root invocation declared.
    Resume,
}

/// One run to execute.
pub struct RunRequest<P: Platform> {
    /// The platform's run id, which becomes the run key: the run's identity
    /// in the store and the label on every sandbox of the run.
    pub run_id: String,
    /// Where the run's workspaces, step output and blobs live.
    pub run_dir: P::RunDir,
    pub execution: Execution<P::Graph, P::Children>,
    /// The run's durable record.
    pub store: P::Store,
    pub runtime: P::Runtime,
    /// The sandbox provider resolved for the run's environment.
    pub provider: SandboxProviderKind,
    /// Fires to cancel the run.
    pub cancel: P::Cancel,
    /// The run's pause, unpause and steer controls.
    pub controls: P::Controls,
    /// Where the run's questions go.
    pub interviewer: P::Interviewer,
    /// The caller's observers of every record, registered ahead of the
    /// interview dispatcher.
    pub observers: Vec<P::Observer>,
    /// Where references to secrets resolve from; `None` leaves every secret
    /// unknown.
    pub secrets: Option<P::Secrets>,
    /// Where offloaded stage values go; `None` keeps the runtime's local
    /// store under the run directory.
    pub blobs: Option<P::Blobs>,
    /// The platform's hooks: the checkpoint commit and its record. `None`
    /// runs with the runtime's local hook service alone.
    pub hooks: Option<P::Hooks>,
}

/// What the plan of a run depends on.
pub struct RequestView {
    pub run_id: Seq<char>,
    pub provider: ProviderView,
    /// Whether the run is continued from its records.
    pub resume: bool,
    /// Whether the run has a source of secrets.
    pub secrets: bool,
    /// Whether the run has a blob table.
    pub blobs: bool,
    /// Whether the run has the platform's own hooks.
    pub hooks: bool,
}

impl<P: Platform> View for RunRequest<P> {
    type V = RequestView;

    open spec fn view(&self) -> RequestView {
        RequestView {
            run_id: self.run_id@,
            provider: self.provider@,
            resume: self.execution is Resume,
            secrets: self.secrets is Some,
            blobs: self.blobs is Some,
            hooks: self.hooks is Some,
        }
    }
}

/// When the runtime keeps a run's workspaces after their scope is released.
#[derive(Clone, Copy, Debug, PartialEq, Eq, Structural)]
pub enum Retention {
    Always,
    OnFailure,
    Never,
}

/// The retention of every run. The platform's lifecycle settings say whether
/// a sandbox keeps running after the run and whether deleting the run may
/// remove it; none asks for a sandbox to be removed when the run ends.
pub const RETENTION: Retention = Retention::Always;

/// Why a run's root invocation is cancelled.
#[derive(Clone, Copy, Debug, PartialEq, Eq, Structural)]
pub enum CancelReason {
    /// A control of the run asked for it.
    Control,
    /// Something within the run asked for it.
    Internal,
}

/// The reason for which the cancel task of every run cancels the root
/// invocation: the caller's token fired.
pub const CANCEL_REASON: CancelReason = CancelReason::Control;

/// What becomes of a lease whose sandbox is gone.
#[derive(Clone, Copy, Debug, PartialEq, Eq, Structural)]
pub enum LostSandbox {
    /// The run fails.
    Fail,
    /// The lease gets a fresh sandbox.
    Replace,
}

/// What a Daytona sandbox runs as.
#[derive(Clone, Copy, Debug, PartialEq, Eq, Structural)]
pub enum DaytonaSandboxKind {
    LinuxVm,
    Container,
}

/// The disk of a Daytona sandbox, in MiB: what the entry tier allows.
pub const DAYTONA_DISK_MB: u64 = 10 * 1024;

/// What a run sets for its Daytona sandboxes; their other resources stay at
/// the runtime's defaults.
#[derive(Clone, Copy, Debug, PartialEq, Eq, Structural)]
pub struct DaytonaOptions {
    pub kind: DaytonaSandboxKind,
    pub disk_mb: u64,
}

/// The options a run sets on its runtime.
#[derive(Debug)]
pub struct RunOptions<'a, D> {
    pub run_dir: &'a D,
    pub run_key: String,
    pub retention: Retention,
    pub backend: SandboxBackend,
    /// `None` leaves the runtime's default.
    pub lost_sandbox: Option<LostSandbox>,
    /// `None` leaves the runtime's defaults.
    pub daytona: Option<DaytonaOptions>,
}

/// One thing that is installed in a run's runtime.
#[derive(Clone, Copy, Debug, PartialEq, Eq, Structural)]
pub enum Install {
    /// The run's durable record.
    Store,
    /// The run's options.
    Options,
    /// The source of secrets.
    Secrets,
    /// The blob table, as the store of offloaded values.
    Blobs,
    /// The layers of hooks, one over the other.
    Hooks,
    /// The set of live turns, which an interrupt can reach.
    LiveTurns,
}

/// One layer of a run's hooks.
#[derive(Clone, Copy, Debug, PartialEq, Eq, Structural)]
pub enum HookLayer {
    /// The hooks that the runtime installed itself.
    Local,
    /// No hooks at all: what the platform's hooks wrap when the runtime
    /// installed none.
    NoHooks,
    /// The platform's hooks: the checkpoint commit and its record.
    Checkpoint,
    /// The pause gate of the run's controls.
    PauseGate,
}

/// One thing that is wired to a run's coordinator once the host hands it out.
#[derive(Clone, Copy, Debug, PartialEq, Eq, Structural)]
pub enum Wire {
    /// The interview dispatcher.
    Dispatcher,
    /// The platform's hooks.
    Hooks,
    /// The run's controls.
    Controls,
    /// The task that cancels the root invocation, for this reason, when the
    /// run is cancelled.
    CancelTask(CancelReason),
}

/// The flag with which every runtime is built from its spec.
pub const RUNTIME_FLAG: bool = true;

/// What a run's runtime is put together from, beside its options and hooks.
pub struct RuntimeParts<'a, P: Platform> {
    /// What the runtime is built from.
    pub spec: &'a P::Runtime,
    /// The flag with which it is built.
    pub flag: bool,
    /// The store of the run's durable record.
    pub store: &'a P::Store,
    /// The source of secrets, if the run has one.
    pub secrets: Option<&'a P::Secrets>,
    /// The blob table, if the run has one.
    pub blobs: Option<&'a P::Blobs>,
}

/// How a run is put together.
pub struct RunPlan<'a, P: Platform> {
    pub runtime: RuntimeParts<'a, P>,
    pub options: RunOptions<'a, P::RunDir>,
    /// Whether the run is continued from its records.
    pub resumed: bool,
    /// What is installed in the runtime, in order.
    pub installs: Vec<Install>,
    /// What is wired to the coordinator, in order.
    pub wiring: Vec<Wire>,
}

/// The one call by which the host is entered, with what it is given.
#[derive(Debug)]
pub enum HostCall<G, C, A, O> {
    /// Run the admitted graphs, under the observers.
    Start { graph: G, children: C, observers: Vec<O> },
    /// Continue the run from its records, with what is added to them, under
    /// the observers.
    Resume { additions: Vec<A>, observers: Vec<O> },
}

/// What [`RunOptions`] stand for, beside the run directory.
#[verifier::ext_equal]
pub struct OptionsView {
    pub run_key: Seq<char>,
    pub retention: Retention,
    pub backend: SandboxBackend,
    pub lost_sandbox: Option<LostSandbox>,
    pub daytona: Option<DaytonaOptions>,
}

/// What a [`RunPlan`] stands for, beside the handles that it passes on.
#[verifier::ext_equal]
pub struct PlanView {
    pub runtime_flag: bool,
    pub options: OptionsView,
    pub resumed: bool,
    pub installs: Seq<Install>,
    pub wiring: Seq<Wire>,
}

impl<'a, D> View for RunOptions<'a, D> {
    type V = OptionsView;

    open spec fn view(&self) -> OptionsView {
        OptionsView {
            run_key: self.run_key@,
            retention: self.retention,
            backend: self.backend,
            lost_sandbox: self.lost_sandbox,
            daytona: self.daytona,
        }
    }
}

impl<'a, P: Platform> RunPlan<'a, P> {
    /// Whether the handles that the plan passes on are the request's own.
    pub open spec fn passes_on(self, request: RunRequest<P>) -> bool {
        &&& *self.options.run_dir == request.run_dir
        &&& *self.runtime.spec == request.runtime
        &&& *self.runtime.store == request.store
        &&& self.runtime.secrets == match request.secrets {
            Some(secrets) => Some(&secrets),
            None => None,
        }
        &&& self.runtime.blobs == match request.blobs {
            Some(blobs) => Some(&blobs),
            None => None,
        }
    }
}

impl<'a, P: Platform> View for RunPlan<'a, P> {
    type V = PlanView;

    open spec fn view(&self) -> PlanView {
        PlanView {
            runtime_flag: self.runtime.flag,
            options: self.options@,
            resumed: self.resumed,
            installs: self.installs@,
            wiring: self.wiring@,
        }
    }
}

/// The item alone if the condition holds, else nothing.
pub open spec fn only_if<T>(condition: bool, item: T) -> Seq<T> {
    if condition {
        seq![item]
    } else {
        Seq::empty()
    }
}

impl RequestView {
    /// The options of the run on a backend. The platform's hooks restore a
    /// sandbox workspace from its snapshots, so with them a lost sandbox is
    /// replaced, except on the host, which has none.
    pub open spec fn options(self, backend: SandboxBackend) -> OptionsView {
        OptionsView {
            run_key: self.run_id,
            retention: Retention::Always,
            backend,
            lost_sandbox: if self.hooks && backend != SandboxBackend::Host {
                Some(LostSandbox::Replace)
            } else {
                None
            },
            daytona: if backend == SandboxBackend::Daytona {
                Some(
                    DaytonaOptions {
                        kind: DaytonaSandboxKind::Container,
                        disk_mb: 10240,
                    },
                )
            } else {
                None
            },
        }
    }

    /// What is installed in the runtime, in order.
    pub open spec fn installs(self) -> Seq<Install> {
        seq![Install::Store, Install::Options] + only_if(self.secrets, Install::Secrets) + only_if(
            self.blobs,
            Install::Blobs,
        ) + seq![Install::Hooks, Install::LiveTurns]
    }

    /// What is wired to the coordinator, in order.
    pub open spec fn wiring(self) -> Seq<Wire> {
        seq![Wire::Dispatcher] + only_if(self.hooks, Wire::Hooks) + seq![
            Wire::Controls,
            Wire::CancelTask(CancelReason::Control),
        ]
    }

    /// How the run is put together; an error when no backend serves its
    /// provider.
    pub open spec fn plan(self) -> Result<PlanView, RunErrorView> {
        match self.provider.backend() {
            Some(backend) => Ok(
                PlanView {
                    runtime_flag: true,
                    options: self.options(backend),
                    resumed: self.resume,
                    installs: self.installs(),
                    wiring: self.wiring(),
                },
            ),
            None => Err(RunErrorView::UnsupportedProvider { provider: self.provider }),
        }
    }
}

/// The layers of hooks, innermost first: what the runtime installed, the
/// platform's hooks over it, and the pause gate over all, so that a held
/// attempt runs none of them until it is let go.
pub open spec fn hook_stack(local: bool, hooks: bool) -> Seq<HookLayer> {
    (if local {
        seq![HookLayer::Local]
    } else {
        only_if(hooks, HookLayer::NoHooks)
    }) + only_if(hooks, HookLayer::Checkpoint) + seq![HookLayer::PauseGate]
}

/// The options of the run on a backend.
fn options<'a, P: Platform>(request: &'a RunRequest<P>, backend: SandboxBackend) -> (options:
    RunOptions<'a, P::RunDir>)
    ensures
        options@ == request@.options(backend),
        *options.run_dir == request.run_dir,
{
    let lost_sandbox: Option<LostSandbox> = if request.hooks.is_some() && backend
        != SandboxBackend::Host {
        Some(LostSandbox::Replace)
    } else {
        None
    };
    // The entry tier has no VM runners in any region and caps the disk of a
    // sandbox, which the runtime's defaults exceed.
    let daytona: Option<DaytonaOptions> = if backend == SandboxBackend::Daytona {
        Some(DaytonaOptions { kind: DaytonaSandboxKind::Container, disk_mb: DAYTONA_DISK_MB })
    } else {
        None
    };
    RunOptions {
        run_dir: &request.run_dir,
        run_key: request.run_id.clone(),
        retention: RETENTION,
        backend,
        lost_sandbox,
        daytona,
    }
}

/// Plans a run: an error when no backend serves its provider.
pub fn plan<'a, P: Platform>(request: &'a RunRequest<P>) -> (planned: Result<
    RunPlan<'a, P>,
    RunError,
>)
    ensures
        match planned {
            Ok(plan) => request@.plan() == Ok::<PlanView, RunErrorView>(plan@)
                && plan.passes_on(*request),
            Err(error) => request@.plan() == Err::<PlanView, RunErrorView>(error@),
        },
{
    let backend: SandboxBackend = match backend(&request.provider) {
        Some(backend) => backend,
        None => {
            return Err(RunError::UnsupportedProvider { provider: request.provider.clone() });
        },
    };
    let resumed: bool = match &request.execution {
        Execution::Resume => true,
        Execution::Start(_) => false,
    };
    let mut installs: Vec<Install> = Vec::new();
    installs.push(Install::Store);
    installs.push(Install::Options);
    if request.secrets.is_some() {
        installs.push(Install::Secrets);
    }
    if request.blobs.is_some() {
        installs.push(Install::Blobs);
    }
    installs.push(Install::Hooks);
    installs.push(Install::LiveTurns);
    let mut wiring: Vec<Wire> = Vec::new();
    wiring.push(Wire::Dispatcher);
    if request.hooks.is_some() {
        wiring.push(Wire::Hooks);
    }
    wiring.push(Wire::Controls);
    wiring.push(Wire::CancelTask(CANCEL_REASON));
    assert(installs@ =~= request@.installs());
    assert(wiring@ =~= request@.wiring());
    let runtime: RuntimeParts<'a, P> = RuntimeParts {
        spec: &request.runtime,
        flag: RUNTIME_FLAG,
        store: &request.store,
        secrets: request.secrets.as_ref(),
        blobs: request.blobs.as_ref(),
    };
    Ok(RunPlan { runtime, options: options(request, backend), resumed, installs, wiring })
}

/// The layers of a run's hooks, innermost first, given whether the runtime
/// installed hooks of its own and whether the run has the platform's.
pub fn hook_layers(local: bool, hooks: bool) -> (layers: Vec<HookLayer>)
    ensures
        layers@ == hook_stack(local, hooks),
{
    let mut layers: Vec<HookLayer> = Vec::new();
    if local {
        layers.push(HookLayer::Local);
    } else if hooks {
        layers.push(HookLayer::NoHooks);
    }
    if hooks {
        layers.push(HookLayer::Checkpoint);
    }
    layers.push(HookLayer::PauseGate);
    assert(layers@ =~= hook_stack(local, hooks));
    layers
}

/// The observers of a run, in the order they are registered: the caller's,
/// the controls', and the interview dispatcher.
pub fn run_observers<O>(callers: Vec<O>, controls: O, dispatcher: O) -> (observers: Vec<O>)
    ensures
        observers@ == callers@.push(controls).push(dispatcher),
{
    let mut observers: Vec<O> = callers;
    observers.push(controls);
    observers.push(dispatcher);
    observers
}

/// The call by which the host is entered: a start hands over the admitted
/// graphs, a resume adds nothing to the run's records, and both are observed
/// alike.
pub fn host_call<G, C, A, O>(execution: Execution<G, C>, observers: Vec<O>) -> (call: HostCall<
    G,
    C,
    A,
    O,
>)
    ensures
        match execution {
            Execution::Start(graphs) => call == (HostCall::<G, C, A, O>::Start {
                graph: graphs.graph,
                children: graphs.children,
                observers,
            }),
            Execution::Resume => {
                &&& call matches HostCall::Resume { additions, observers: observing }
                &&& additions@ == Seq::<A>::empty()
                &&& observing == observers
            },
        },
{
    match execution {
        Execution::Start(graphs) => HostCall::Start {
            graph: graphs.graph,
            children: graphs.children,
            observers,
        },
        Execution::Resume => HostCall::Resume { additions: Vec::new(), observers },
    }
}

/// The run id that the platform's records of a run go by.
#[derive(Debug, PartialEq, Eq)]
pub enum RecordId<I> {
    /// The id that the run key names.
    Named(I),
    /// A fresh id, for a run key that names none.
    Fresh,
}

/// The id for the platform's records, from what reading the run key as a run
/// id gave. A key that is no run id still gets hooks, under a fresh id.
pub fn spec_run_id<I, E>(parsed: Result<I, E>) -> (id: RecordId<I>)
    ensures
        id == match parsed {
            Ok(named) => RecordId::Named(named),
            Err(_) => RecordId::Fresh,
        },
{
    match parsed {
        Ok(named) => RecordId::Named(named),
        Err(_) => RecordId::Fresh,
    }
}

} // verus!
