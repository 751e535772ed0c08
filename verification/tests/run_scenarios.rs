use trigger_command::abi::{AbiVariant, ResolutionPolicy};
use trigger_command::config::{CliArgs, CommandTrigger, CommandTriggerConfig, GuestDescriptor};
use trigger_command::entry::EntryProbe;
use trigger_command::errors::{GuestFailureKind, InvocationOutcome, TriggerError};
use trigger_command::machine::{HostAction, HostEvent, Phase, RunMachine};

fn descriptor(id: &str, hint: Option<AbiVariant>) -> GuestDescriptor {
    GuestDescriptor { identifier: String::from(id), abi_hint: hint }
}

#[test]
fn echo_module_guest_runs_start_once() {
    let configs = vec![CommandTriggerConfig { component: String::from("echo") }];
    let cli = CliArgs { guest_args: vec![String::from("a"), String::from("b")] };
    let trigger = CommandTrigger::new(configs, cli).unwrap();
    assert_eq!(trigger.ignored_components(), 0);
    assert_eq!(trigger.selected().id, "echo");

    let (mut m, a0) = trigger.start_run(None, ResolutionPolicy::PreferComponentThenModule);
    assert_eq!(a0, HostAction::TryLoad(AbiVariant::ComponentV2));

    let a1 = m.step(HostEvent::LoadFailed(String::from("not a component")));
    assert_eq!(a1, HostAction::TryLoad(AbiVariant::ModulePreview1));

    let a2 = m.step(HostEvent::LoadSucceeded(11));
    assert_eq!(a2, HostAction::BuildContext);
    let ctx = m.context.as_ref().unwrap();
    assert_eq!(ctx.abi, AbiVariant::ModulePreview1);
    assert_eq!(ctx.argv, vec!["echo", "a", "b"]);
    assert!(ctx.capabilities.cli_arguments);
    assert!(!ctx.capabilities.filesystem);
    assert!(!ctx.capabilities.environment);

    let a3 = m.step(HostEvent::ContextBuilt);
    assert_eq!(a3, HostAction::Instantiate);

    let a4 = m.step(HostEvent::Instantiated(12));
    assert_eq!(a4, HostAction::ProbeEntry(EntryProbe::ModuleDefaultStart));

    // No unmarked start export; the named `_start` fallback exists.
    let a5 = m.step(HostEvent::ProbeAbsent);
    assert_eq!(a5, HostAction::ProbeEntry(EntryProbe::ModuleNamedStart));
    let a6 = m.step(HostEvent::ProbeFound);
    assert_eq!(a6, HostAction::Invoke(AbiVariant::ModulePreview1));

    let a7 = m.step(HostEvent::GuestCompleted);
    assert_eq!(a7, HostAction::Report);
    assert_eq!(m.phase, Phase::Finished);
    assert!(matches!(m.outcome, Some(InvocationOutcome::Success)));
    // The instance still carries the context the guest observed.
    let inst = m.instance.as_ref().unwrap();
    assert_eq!(inst.abi, AbiVariant::ModulePreview1);
    assert_eq!(inst.context.argv[0], "echo");
}

#[test]
fn broken_guest_reports_both_load_failures() {
    let (mut m, a0) = RunMachine::start(
        descriptor("broken", None),
        ResolutionPolicy::PreferComponentThenModule,
        Vec::new(),
    );
    assert_eq!(a0, HostAction::TryLoad(AbiVariant::ComponentV2));
    let a1 = m.step(HostEvent::LoadFailed(String::from("bad component bytes")));
    assert_eq!(a1, HostAction::TryLoad(AbiVariant::ModulePreview1));
    let a2 = m.step(HostEvent::LoadFailed(String::from("bad module bytes")));
    assert_eq!(a2, HostAction::Report);
    match m.outcome {
        Some(InvocationOutcome::Failure(TriggerError::ArtifactLoad { guest, causes })) => {
            assert_eq!(guest, "broken");
            assert_eq!(causes.len(), 2);
            assert_eq!(causes[0].abi, AbiVariant::ComponentV2);
            assert_eq!(causes[0].detail, "bad component bytes");
            assert_eq!(causes[1].abi, AbiVariant::ModulePreview1);
            assert_eq!(causes[1].detail, "bad module bytes");
        },
        ref other => panic!("wrong outcome: {:?}", other),
    }
}

#[test]
fn component_guest_probes_in_order_and_invokes_once() {
    let (mut m, a0) = RunMachine::start(
        descriptor("svc", None),
        ResolutionPolicy::PreferComponentThenModule,
        vec![String::from("-x"), String::from("9lives")],
    );
    assert_eq!(a0, HostAction::TryLoad(AbiVariant::ComponentV2));
    assert_eq!(m.step(HostEvent::LoadSucceeded(1)), HostAction::BuildContext);
    assert_eq!(m.context.as_ref().unwrap().argv, vec!["svc", "-x", "9lives"]);
    assert_eq!(m.step(HostEvent::ContextBuilt), HostAction::Instantiate);
    assert_eq!(
        m.step(HostEvent::Instantiated(2)),
        HostAction::ProbeEntry(EntryProbe::ComponentRunInterface)
    );
    assert_eq!(
        m.step(HostEvent::ProbeFound),
        HostAction::ProbeEntry(EntryProbe::ComponentRunFunction)
    );
    assert_eq!(
        m.step(HostEvent::ProbeFound),
        HostAction::ProbeEntry(EntryProbe::ComponentTypedFunction)
    );
    assert_eq!(m.step(HostEvent::ProbeFound), HostAction::Invoke(AbiVariant::ComponentV2));
    assert_eq!(m.step(HostEvent::GuestCompleted), HostAction::Report);
    assert!(matches!(m.outcome, Some(InvocationOutcome::Success)));
}

#[test]
fn component_without_run_export_is_entry_point_not_found() {
    let (mut m, _) = RunMachine::start(
        descriptor("plain", Some(AbiVariant::ComponentV2)),
        ResolutionPolicy::PreferComponentThenModule,
        Vec::new(),
    );
    assert_eq!(m.step(HostEvent::LoadSucceeded(3)), HostAction::BuildContext);
    assert_eq!(m.step(HostEvent::ContextBuilt), HostAction::Instantiate);
    assert_eq!(
        m.step(HostEvent::Instantiated(4)),
        HostAction::ProbeEntry(EntryProbe::ComponentRunInterface)
    );
    assert_eq!(m.step(HostEvent::ProbeAbsent), HostAction::Report);
    match m.outcome {
        Some(InvocationOutcome::Failure(TriggerError::EntryPointNotFound {
            guest,
            abi,
            missing,
        })) => {
            assert_eq!(guest, "plain");
            assert_eq!(abi, AbiVariant::ComponentV2);
            assert_eq!(missing, vec![EntryProbe::ComponentRunInterface]);
        },
        ref other => panic!("wrong outcome: {:?}", other),
    }
}

#[test]
fn module_without_any_start_is_entry_point_not_found() {
    let (mut m, _) = RunMachine::start(
        descriptor("lib_only", Some(AbiVariant::ModulePreview1)),
        ResolutionPolicy::PreferModuleThenComponent,
        Vec::new(),
    );
    assert_eq!(m.step(HostEvent::LoadSucceeded(5)), HostAction::BuildContext);
    assert_eq!(m.step(HostEvent::ContextBuilt), HostAction::Instantiate);
    assert_eq!(
        m.step(HostEvent::Instantiated(6)),
        HostAction::ProbeEntry(EntryProbe::ModuleDefaultStart)
    );
    assert_eq!(
        m.step(HostEvent::ProbeAbsent),
        HostAction::ProbeEntry(EntryProbe::ModuleNamedStart)
    );
    assert_eq!(m.step(HostEvent::ProbeAbsent), HostAction::Report);
    match m.outcome {
        Some(InvocationOutcome::Failure(TriggerError::EntryPointNotFound {
            guest,
            abi,
            missing,
        })) => {
            assert_eq!(guest, "lib_only");
            assert_eq!(abi, AbiVariant::ModulePreview1);
            assert_eq!(
                missing,
                vec![EntryProbe::ModuleDefaultStart, EntryProbe::ModuleNamedStart]
            );
        },
        ref other => panic!("wrong outcome: {:?}", other),
    }
}

#[test]
fn hinted_abi_skips_probing_and_surfaces_its_failure() {
    let (mut m, a0) = RunMachine::start(
        descriptor("hinted", Some(AbiVariant::ComponentV2)),
        ResolutionPolicy::PreferModuleThenComponent,
        Vec::new(),
    );
    // The hint wins over the policy: only the hinted variant is attempted.
    assert_eq!(a0, HostAction::TryLoad(AbiVariant::ComponentV2));
    assert_eq!(m.step(HostEvent::LoadFailed(String::from("no such form"))), HostAction::Report);
    match m.outcome {
        Some(InvocationOutcome::Failure(TriggerError::ArtifactLoad { guest, causes })) => {
            assert_eq!(guest, "hinted");
            assert_eq!(causes.len(), 1);
            assert_eq!(causes[0].abi, AbiVariant::ComponentV2);
            assert_eq!(causes[0].detail, "no such form");
        },
        ref other => panic!("wrong outcome: {:?}", other),
    }
}

#[test]
fn resolution_is_idempotent_over_unchanged_store() {
    // The same guest, twice, over the same (unchanged) load outcomes: the
    // resolved ABI tag is the same both times.
    let mut tags: Vec<AbiVariant> = Vec::new();
    for _ in 0..2 {
        let (mut m, _) = RunMachine::start(
            descriptor("stable", None),
            ResolutionPolicy::PreferComponentThenModule,
            Vec::new(),
        );
        m.step(HostEvent::LoadFailed(String::from("not a component")));
        m.step(HostEvent::LoadSucceeded(21));
        tags.push(m.handle.unwrap().abi);
    }
    assert_eq!(tags[0], tags[1]);
    assert_eq!(tags[0], AbiVariant::ModulePreview1);
}

#[test]
fn context_rejection_is_context_build_error() {
    let (mut m, _) = RunMachine::start(
        descriptor("g", Some(AbiVariant::ComponentV2)),
        ResolutionPolicy::PreferComponentThenModule,
        Vec::new(),
    );
    m.step(HostEvent::LoadSucceeded(1));
    assert_eq!(m.step(HostEvent::ContextRejected(String::from("argv rejected"))), HostAction::Report);
    match m.outcome {
        Some(InvocationOutcome::Failure(TriggerError::ContextBuild { guest, detail })) => {
            assert_eq!(guest, "g");
            assert_eq!(detail, "argv rejected");
        },
        ref other => panic!("wrong outcome: {:?}", other),
    }
}

#[test]
fn instantiation_rejection_is_instantiation_error() {
    let (mut m, _) = RunMachine::start(
        descriptor("g", Some(AbiVariant::ComponentV2)),
        ResolutionPolicy::PreferComponentThenModule,
        Vec::new(),
    );
    m.step(HostEvent::LoadSucceeded(1));
    m.step(HostEvent::ContextBuilt);
    assert_eq!(
        m.step(HostEvent::InstantiationFailed(String::from("missing import"))),
        HostAction::Report
    );
    match m.outcome {
        Some(InvocationOutcome::Failure(TriggerError::Instantiation { guest, detail })) => {
            assert_eq!(guest, "g");
            assert_eq!(detail, "missing import");
        },
        ref other => panic!("wrong outcome: {:?}", other),
    }
}

#[test]
fn guest_reported_failure_and_trap_are_distinguished() {
    for (trap, expected_kind) in [(false, GuestFailureKind::Reported), (true, GuestFailureKind::Trapped)] {
        let (mut m, _) = RunMachine::start(
            descriptor("g", Some(AbiVariant::ModulePreview1)),
            ResolutionPolicy::PreferComponentThenModule,
            Vec::new(),
        );
        m.step(HostEvent::LoadSucceeded(1));
        m.step(HostEvent::ContextBuilt);
        m.step(HostEvent::Instantiated(2));
        m.step(HostEvent::ProbeFound);
        let ev = if trap {
            HostEvent::GuestTrapped(String::from("unreachable executed"))
        } else {
            HostEvent::GuestReportedFailure(String::from("run returned error"))
        };
        assert_eq!(m.step(ev), HostAction::Report);
        match m.outcome {
            Some(InvocationOutcome::Failure(TriggerError::GuestExecution { guest, kind, .. })) => {
                assert_eq!(guest, "g");
                assert_eq!(kind, expected_kind);
            },
            ref other => panic!("wrong outcome: {:?}", other),
        }
    }
}
