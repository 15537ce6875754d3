//! How a requested run is put together, from what stands in the request.

use vstd::prelude::*;

use crate::error::RunErrorView;
use crate::plan::{
    hook_stack, CancelReason, DaytonaOptions, DaytonaSandboxKind, Execution, HookLayer, Install,
    LostSandbox, Platform, Retention, RunRequest, Wire,
};
use crate::provider::{SandboxBackend, SandboxProviderKind};

verus! {

/// The run's sandboxes are where its provider has them: on the host for the
/// local provider, in Docker for Docker, on Daytona for Daytona, whatever
/// else the request has; and any other provider is refused by its name.
pub proof fn law_backend_is_the_providers<P: Platform>(request: RunRequest<P>)
    ensures
        request.provider is Local ==> (request@.plan() matches Ok(plan) && plan.options.backend
            == SandboxBackend::Host),
        request.provider is Docker ==> (request@.plan() matches Ok(plan) && plan.options.backend
            == SandboxBackend::Docker),
        request.provider is Daytona ==> (request@.plan() matches Ok(plan) && plan.options.backend
            == SandboxBackend::Daytona),
        request.provider matches SandboxProviderKind::Other(name) ==> (
        request@.plan() matches Err(RunErrorView::UnsupportedProvider { provider })
            && provider.name() == name@),
{
}

/// Each provider kind has its backend.
pub proof fn law_each_kind_has_its_backend(provider: SandboxProviderKind)
    ensures
        provider is Local ==> provider@.backend() == Some(SandboxBackend::Host),
        provider is Docker ==> provider@.backend() == Some(SandboxBackend::Docker),
        provider is Daytona ==> provider@.backend() == Some(SandboxBackend::Daytona),
        provider is Other ==> provider@.backend() is None,
{
}

/// What every planned run sets, and nothing else: the run goes by its id,
/// keeps its workspaces, replaces a lost sandbox where its hooks restore one,
/// sizes a Daytona container for the entry tier, and is resumed as requested.
pub proof fn law_options_are_by_the_request<P: Platform>(request: RunRequest<P>)
    requires
        !(request.provider is Other),
    ensures
        request@.plan() matches Ok(plan) && {
            &&& plan.runtime_flag == true
            &&& plan.options.run_key == request.run_id@
            &&& plan.options.retention == Retention::Always
            &&& request.hooks is Some && !(request.provider is Local) ==> plan.options.lost_sandbox
                == Some(LostSandbox::Replace)
            &&& request.hooks is None || request.provider is Local
                ==> plan.options.lost_sandbox is None
            &&& request.provider is Daytona ==> plan.options.daytona == Some(
                DaytonaOptions { kind: DaytonaSandboxKind::Container, disk_mb: 10240 },
            )
            &&& !(request.provider is Daytona) ==> plan.options.daytona is None
            &&& plan.resumed <==> request.execution is Resume
        },
{
}

/// The parts of a run are installed in this order: the store, the options,
/// the secrets and the blob table where the request has them, the hooks, the
/// live turns.
pub proof fn law_parts_are_installed_in_order<P: Platform>(request: RunRequest<P>)
    requires
        !(request.provider is Other),
    ensures
        request@.plan() matches Ok(plan) && {
            &&& request.secrets is None && request.blobs is None ==> plan.installs == seq![
                Install::Store,
                Install::Options,
                Install::Hooks,
                Install::LiveTurns,
            ]
            &&& request.secrets is Some && request.blobs is None ==> plan.installs == seq![
                Install::Store,
                Install::Options,
                Install::Secrets,
                Install::Hooks,
                Install::LiveTurns,
            ]
            &&& request.secrets is None && request.blobs is Some ==> plan.installs == seq![
                Install::Store,
                Install::Options,
                Install::Blobs,
                Install::Hooks,
                Install::LiveTurns,
            ]
            &&& request.secrets is Some && request.blobs is Some ==> plan.installs == seq![
                Install::Store,
                Install::Options,
                Install::Secrets,
                Install::Blobs,
                Install::Hooks,
                Install::LiveTurns,
            ]
        },
{
}

/// The coordinator is wired in this order: the dispatcher, the platform's
/// hooks where the request has them, the controls, the cancel task.
pub proof fn law_coordinator_is_wired_in_order<P: Platform>(request: RunRequest<P>)
    requires
        !(request.provider is Other),
    ensures
        request@.plan() matches Ok(plan) && {
            &&& request.hooks is None ==> plan.wiring == seq![
                Wire::Dispatcher,
                Wire::Controls,
                Wire::CancelTask(CancelReason::Control),
            ]
            &&& request.hooks is Some ==> plan.wiring == seq![
                Wire::Dispatcher,
                Wire::Hooks,
                Wire::Controls,
                Wire::CancelTask(CancelReason::Control),
            ]
        },
{
}

/// The hooks lie in this order, innermost first: the runtime's own, or where
/// the platform's have none to wrap the layer of no hooks, then the
/// platform's where the run has them, then the pause gate.
pub proof fn law_hooks_lie_in_order()
    ensures
        hook_stack(false, false) == seq![HookLayer::PauseGate],
        hook_stack(true, false) == seq![HookLayer::Local, HookLayer::PauseGate],
        hook_stack(false, true) == seq![
            HookLayer::NoHooks,
            HookLayer::Checkpoint,
            HookLayer::PauseGate,
        ],
        hook_stack(true, true) == seq![
            HookLayer::Local,
            HookLayer::Checkpoint,
            HookLayer::PauseGate,
        ],
{
}

} // verus!
