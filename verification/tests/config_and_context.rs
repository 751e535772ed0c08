use trigger_command::abi::{probe_plan, AbiVariant, ResolutionPolicy};
use trigger_command::config::{CliArgs, CommandTrigger, CommandTriggerConfig};
use trigger_command::context::{build_context, effective_argv, CapabilitySet};
use trigger_command::entry::EntryProbe;
use trigger_command::errors::TriggerError;

#[test]
fn effective_argv_preserves_order_and_content() {
    let id = String::from("echo");
    let args = vec![
        String::from("-x"),
        String::from("9lives"),
        String::from(""),
        String::from("--"),
        String::from("a b"),
    ];
    let argv = effective_argv(&id, &args);
    assert_eq!(argv, vec!["echo", "-x", "9lives", "", "--", "a b"]);
}

#[test]
fn effective_argv_of_no_arguments_is_identifier_alone() {
    let id = String::from("solo");
    let argv = effective_argv(&id, &Vec::new());
    assert_eq!(argv, vec!["solo"]);
}

#[test]
fn built_context_grants_minimal_capabilities() {
    let id = String::from("g");
    let ctx = build_context(AbiVariant::ComponentV2, &id, &vec![String::from("a")]);
    assert_eq!(ctx.abi, AbiVariant::ComponentV2);
    assert_eq!(ctx.argv, vec!["g", "a"]);
    assert_eq!(ctx.capabilities, CapabilitySet::minimal());
    assert!(ctx.capabilities.cli_arguments);
    assert!(!ctx.capabilities.filesystem);
    assert!(!ctx.capabilities.environment);
}

#[test]
fn probe_plan_follows_policy_without_hint() {
    assert_eq!(
        probe_plan(None, ResolutionPolicy::PreferComponentThenModule),
        vec![AbiVariant::ComponentV2, AbiVariant::ModulePreview1]
    );
    assert_eq!(
        probe_plan(None, ResolutionPolicy::PreferModuleThenComponent),
        vec![AbiVariant::ModulePreview1, AbiVariant::ComponentV2]
    );
}

#[test]
fn probe_plan_with_hint_has_single_attempt() {
    for policy in [
        ResolutionPolicy::PreferComponentThenModule,
        ResolutionPolicy::PreferModuleThenComponent,
    ] {
        assert_eq!(
            probe_plan(Some(AbiVariant::ComponentV2), policy),
            vec![AbiVariant::ComponentV2]
        );
        assert_eq!(
            probe_plan(Some(AbiVariant::ModulePreview1), policy),
            vec![AbiVariant::ModulePreview1]
        );
    }
}

#[test]
fn entry_probe_export_names() {
    assert_eq!(
        EntryProbe::ComponentRunInterface.export_name(),
        Some("wasi:cli/run@0.2.0")
    );
    assert_eq!(EntryProbe::ComponentRunFunction.export_name(), Some("run"));
    assert_eq!(EntryProbe::ComponentTypedFunction.export_name(), None);
    assert_eq!(EntryProbe::ModuleDefaultStart.export_name(), None);
    assert_eq!(EntryProbe::ModuleNamedStart.export_name(), Some("_start"));
}

#[test]
fn trigger_without_components_is_refused() {
    let r = CommandTrigger::new(Vec::new(), CliArgs { guest_args: Vec::new() });
    assert!(matches!(r, Err(TriggerError::NoGuestConfigured)));
}

#[test]
fn trigger_selects_first_component_and_counts_ignored() {
    let configs = vec![
        CommandTriggerConfig { component: String::from("first") },
        CommandTriggerConfig { component: String::from("second") },
        CommandTriggerConfig { component: String::from("third") },
    ];
    let trigger = CommandTrigger::new(configs, CliArgs { guest_args: Vec::new() }).unwrap();
    assert_eq!(trigger.selected().id, "first");
    assert_eq!(trigger.ignored_components(), 2);
}

#[test]
fn trigger_type_is_command() {
    assert_eq!(CommandTrigger::trigger_type(), "command");
}
