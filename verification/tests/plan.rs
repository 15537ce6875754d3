use fabro_petri::engine::{run, RunAction};
use fabro_petri::error::RunError;
use fabro_petri::plan::{
    hook_layers, host_call, plan, run_observers, spec_run_id, AdmittedGraphs, CancelReason,
    DaytonaOptions, DaytonaSandboxKind, Execution, HostCall,
    HookLayer, Install, LostSandbox, Platform, RecordId, Retention, RunRequest, Wire,
    CANCEL_REASON, DAYTONA_DISK_MB, RETENTION, RUNTIME_FLAG,
};
use fabro_petri::provider::{backend, SandboxBackend, SandboxProviderKind};

struct Bench;

impl Platform for Bench {
    type RunDir = String;
    type Graph = u8;
    type Children = Vec<u8>;
    type Store = u8;
    type Runtime = u8;
    type Cancel = ();
    type Controls = ();
    type Interviewer = ();
    type Observer = u8;
    type Secrets = u8;
    type Blobs = u8;
    type Hooks = ();
}

fn start() -> Execution<u8, Vec<u8>> {
    Execution::Start(AdmittedGraphs {
        graph: 1,
        children: vec![2, 3],
    })
}

fn request(
    provider: SandboxProviderKind,
    execution: Execution<u8, Vec<u8>>,
    full: bool,
) -> RunRequest<Bench> {
    RunRequest {
        run_id: "run-7".to_string(),
        run_dir: "/runs/7".to_string(),
        execution,
        store: 3,
        runtime: 4,
        provider,
        cancel: (),
        controls: (),
        interviewer: (),
        observers: vec![1, 2],
        secrets: if full { Some(5) } else { None },
        blobs: if full { Some(6) } else { None },
        hooks: if full { Some(()) } else { None },
    }
}

#[test]
fn each_served_provider_has_its_backend() {
    assert_eq!(
        backend(&SandboxProviderKind::Local),
        Some(SandboxBackend::Host)
    );
    assert_eq!(
        backend(&SandboxProviderKind::Docker),
        Some(SandboxBackend::Docker)
    );
    assert_eq!(
        backend(&SandboxProviderKind::Daytona),
        Some(SandboxBackend::Daytona)
    );
    assert_eq!(
        backend(&SandboxProviderKind::Other("firecracker".to_string())),
        None
    );
}

#[test]
fn a_provider_goes_by_its_name() {
    assert_eq!(SandboxProviderKind::Local.name(), "local");
    assert_eq!(SandboxProviderKind::Docker.name(), "docker");
    assert_eq!(SandboxProviderKind::Daytona.name(), "daytona");
    let other = SandboxProviderKind::Other("firecracker".to_string());
    assert_eq!(other.clone().name(), "firecracker");
    assert_eq!(other.clone(), other);
}

#[test]
fn an_unserved_provider_is_refused() {
    let provider = SandboxProviderKind::Other("firecracker".to_string());
    let request = request(provider.clone(), start(), true);
    match run(&request) {
        Err(RunError::UnsupportedProvider { provider: refused }) => assert_eq!(refused, provider),
        Err(other) => panic!("{other:?}"),
        Ok(_) => panic!("the run was not refused"),
    }
}

#[test]
fn a_bare_run_on_the_host_leaves_the_defaults() {
    let request = request(SandboxProviderKind::Local, start(), false);
    let planned = plan(&request).unwrap();
    assert_eq!(planned.options.run_dir, "/runs/7");
    assert!(planned.runtime.flag);
    assert_eq!(planned.runtime.flag, RUNTIME_FLAG);
    assert_eq!(planned.runtime.spec, &4);
    assert_eq!(planned.runtime.store, &3);
    assert_eq!(planned.runtime.secrets, None);
    assert_eq!(planned.runtime.blobs, None);
    assert_eq!(planned.options.run_key, "run-7");
    assert_eq!(planned.options.retention, Retention::Always);
    assert_eq!(planned.options.retention, RETENTION);
    assert_eq!(planned.options.backend, SandboxBackend::Host);
    assert_eq!(planned.options.lost_sandbox, None);
    assert_eq!(planned.options.daytona, None);
    assert!(!planned.resumed);
    assert_eq!(
        planned.installs,
        vec![
            Install::Store,
            Install::Options,
            Install::Hooks,
            Install::LiveTurns
        ]
    );
    assert_eq!(
        planned.wiring,
        vec![Wire::Dispatcher, Wire::Controls, Wire::CancelTask(CancelReason::Control)]
    );
}

#[test]
fn a_full_run_installs_everything_in_order() {
    let request = request(SandboxProviderKind::Docker, start(), true);
    let planned = plan(&request).unwrap();
    assert_eq!(planned.options.backend, SandboxBackend::Docker);
    assert_eq!(planned.options.lost_sandbox, Some(LostSandbox::Replace));
    assert_eq!(planned.options.daytona, None);
    assert!(planned.runtime.flag);
    assert_eq!(planned.runtime.secrets, Some(&5));
    assert_eq!(planned.runtime.blobs, Some(&6));
    assert_eq!(
        planned.installs,
        vec![
            Install::Store,
            Install::Options,
            Install::Secrets,
            Install::Blobs,
            Install::Hooks,
            Install::LiveTurns
        ]
    );
    assert_eq!(
        planned.wiring,
        vec![
            Wire::Dispatcher,
            Wire::Hooks,
            Wire::Controls,
            Wire::CancelTask(CancelReason::Control)
        ]
    );
}

#[test]
fn a_lost_sandbox_is_replaced_only_where_hooks_restore_it() {
    let on_host = request(SandboxProviderKind::Local, start(), true);
    assert_eq!(plan(&on_host).unwrap().options.lost_sandbox, None);
    let bare = request(SandboxProviderKind::Docker, start(), false);
    assert_eq!(plan(&bare).unwrap().options.lost_sandbox, None);
    let restored = request(SandboxProviderKind::Daytona, start(), true);
    assert_eq!(
        plan(&restored).unwrap().options.lost_sandbox,
        Some(LostSandbox::Replace)
    );
}

#[test]
fn a_daytona_sandbox_is_a_container_within_the_entry_tier() {
    let request = request(SandboxProviderKind::Daytona, start(), false);
    assert_eq!(
        plan(&request).unwrap().options.daytona,
        Some(DaytonaOptions {
            kind: DaytonaSandboxKind::Container,
            disk_mb: 10240,
        })
    );
    assert_eq!(DAYTONA_DISK_MB, 10240);
}

#[test]
fn a_resume_is_put_together_as_a_start() {
    let start = request(SandboxProviderKind::Daytona, start(), true);
    let resume = request(SandboxProviderKind::Daytona, Execution::Resume, true);
    let (started, at_start) = run(&start).unwrap();
    let (resumed, at_resume) = run(&resume).unwrap();
    assert!(!started.resumed);
    assert!(resumed.resumed);
    assert_eq!(started.options.run_key, resumed.options.run_key);
    assert_eq!(started.options.daytona, resumed.options.daytona);
    assert_eq!(started.installs, resumed.installs);
    assert_eq!(started.wiring, resumed.wiring);
    assert!(matches!(at_start.action(), RunAction::StartHost));
    assert!(matches!(at_resume.action(), RunAction::OpenRecord { .. }));
}

#[test]
fn the_pause_gate_lies_over_every_layer() {
    assert_eq!(hook_layers(false, false), vec![HookLayer::PauseGate]);
    assert_eq!(
        hook_layers(true, false),
        vec![HookLayer::Local, HookLayer::PauseGate]
    );
    assert_eq!(
        hook_layers(false, true),
        vec![
            HookLayer::NoHooks,
            HookLayer::Checkpoint,
            HookLayer::PauseGate
        ]
    );
    assert_eq!(
        hook_layers(true, true),
        vec![
            HookLayer::Local,
            HookLayer::Checkpoint,
            HookLayer::PauseGate
        ]
    );
}

#[test]
fn the_callers_observers_come_before_the_dispatcher() {
    assert_eq!(run_observers(vec![1, 2], 8, 9), vec![1, 2, 8, 9]);
    assert_eq!(run_observers(Vec::new(), 8, 9), vec![8, 9]);
}

#[test]
fn a_key_that_is_no_run_id_gets_a_fresh_one() {
    assert_eq!(spec_run_id("41".parse::<u32>()), RecordId::Named(41));
    assert_eq!(spec_run_id("bare".parse::<u32>()), RecordId::Fresh);
}

#[test]
fn a_run_is_cancelled_for_a_control() {
    assert_eq!(CANCEL_REASON, CancelReason::Control);
    let request = request(SandboxProviderKind::Local, Execution::Resume, false);
    let planned = plan(&request).unwrap();
    assert_eq!(
        planned.wiring.last(),
        Some(&Wire::CancelTask(CancelReason::Control))
    );
    assert!(!planned
        .wiring
        .contains(&Wire::CancelTask(CancelReason::Internal)));
}

#[test]
fn a_start_hands_the_host_the_admitted_graphs() {
    let call: HostCall<u8, Vec<u8>, u8, u8> = host_call(start(), vec![8, 9]);
    match call {
        HostCall::Start {
            graph,
            children,
            observers,
        } => {
            assert_eq!(graph, 1);
            assert_eq!(children, vec![2, 3]);
            assert_eq!(observers, vec![8, 9]);
        }
        other => panic!("{other:?}"),
    }
}

#[test]
fn a_resume_adds_nothing_to_the_records() {
    let call: HostCall<u8, Vec<u8>, u8, u8> = host_call(Execution::Resume, vec![8, 9]);
    match call {
        HostCall::Resume {
            additions,
            observers,
        } => {
            assert!(additions.is_empty());
            assert_eq!(observers, vec![8, 9]);
        }
        other => panic!("{other:?}"),
    }
}

#[test]
fn a_provider_is_known_by_its_name() {
    for (name, provider) in [
        ("local", SandboxProviderKind::Local),
        ("docker", SandboxProviderKind::Docker),
        ("daytona", SandboxProviderKind::Daytona),
        (
            "firecracker",
            SandboxProviderKind::Other("firecracker".to_string()),
        ),
        ("Docker", SandboxProviderKind::Other("Docker".to_string())),
    ] {
        assert_eq!(SandboxProviderKind::from_name(name.to_string()), provider);
        assert_eq!(SandboxProviderKind::from_name(provider.name()), provider);
    }
}
