//! Trigger configuration: the guest components an application configures, the
//! invocation arguments the command line supplies, and the selection of the
//! single guest a run executes.

use vstd::prelude::*;
use crate::abi::{AbiVariant, ResolutionPolicy};
use crate::errors::TriggerError;
use crate::machine::{HostAction, RunMachine};

verus! {

/// One configured guest component, by identifier.
#[derive(Clone, Debug)]
pub struct Component {
    pub id: String,
}

/// The invocation arguments supplied on the command line, already split and
/// de-quoted by the caller; passed through to the guest verbatim.
#[derive(Clone, Debug)]
pub struct CliArgs {
    pub guest_args: Vec<String>,
}

/// The per-trigger-instance configuration: which component the trigger runs.
#[derive(Clone, Debug)]
pub struct CommandTriggerConfig {
    pub component: String,
}

/// The guest a run targets: its identifier, and an optional configured ABI
/// hint. With a hint, resolution loads only that variant; without one, it
/// probes both in the policy's order.
#[derive(Clone, Debug)]
pub struct GuestDescriptor {
    pub identifier: String,
    pub abi_hint: Option<AbiVariant>,
}

/// The command trigger: the configured components and the invocation
/// arguments. Exactly one guest is run; when several components are
/// configured, the first is selected and the rest are ignored (the host
/// should warn — see [`CommandTrigger::ignored_components`]).
pub struct CommandTrigger {
    components: Vec<Component>,
    config: CliArgs,
}

/// The trigger kind this core implements, as named in application manifests.
pub open spec fn spec_trigger_type() -> Seq<char> {
    "command"@
}

impl CommandTrigger {
    /// The name under which an application's manifest configures this trigger.
    pub fn trigger_type() -> (s: &'static str)
        ensures
            s@ == spec_trigger_type(),
    {
        "command"
    }

    /// The configured components, first one selected.
    pub closed spec fn components_view(&self) -> Seq<Component> {
        self.components@
    }

    /// The invocation arguments the trigger was built with.
    pub closed spec fn args_view(&self) -> Seq<String> {
        self.config.guest_args@
    }

    /// A trigger always holds at least one component: construction fails
    /// otherwise.
    pub open spec fn wf(&self) -> bool {
        self.components_view().len() >= 1
    }

    /// Builds the trigger from the per-instance configurations. Fails if and
    /// only if no component is configured; otherwise keeps every configured
    /// component, in order, with its identifier intact.
    pub fn new(configs: Vec<CommandTriggerConfig>, cli_args: CliArgs) -> (r: Result<
        CommandTrigger,
        TriggerError,
    >)
        ensures
            r is Ok <==> configs@.len() > 0,
            r matches Err(e) ==> e is NoGuestConfigured,
            r matches Ok(t) ==> {
                &&& t.wf()
                &&& t.components_view().len() == configs@.len()
                &&& (forall|i: int|
                    0 <= i < configs@.len() ==> #[trigger] t.components_view()[i].id
                        == configs@[i].component)
                &&& t.args_view() == cli_args.guest_args@
            },
    {
        let mut components: Vec<Component> = Vec::new();
        let mut i: usize = 0;
        while i < configs.len()
            invariant
                i <= configs@.len(),
                components@.len() == i,
                forall|j: int|
                    0 <= j < i ==> #[trigger] components@[j].id == configs@[j].component,
            decreases configs@.len() - i,
        {
            components.push(Component { id: configs[i].component.clone() });
            i = i + 1;
        }
        if components.len() == 0 {
            return Err(TriggerError::NoGuestConfigured);
        }
        Ok(CommandTrigger { components, config: cli_args })
    }

    /// The selected guest: the first configured component.
    pub fn selected(&self) -> (c: &Component)
        requires
            self.wf(),
        ensures
            *c == self.components_view()[0],
    {
        &self.components[0]
    }

    /// How many configured components the run ignores (all but the first).
    /// A nonzero count deserves a warning at the host.
    pub fn ignored_components(&self) -> (n: usize)
        requires
            self.wf(),
        ensures
            n == self.components_view().len() - 1,
    {
        self.components.len() - 1
    }

    /// Starts one run of the selected guest: resolution begins with the first
    /// load attempt of the probe plan for `abi_hint` and `policy`, and the
    /// invocation arguments are carried into the machine verbatim.
    pub fn start_run(&self, abi_hint: Option<AbiVariant>, policy: ResolutionPolicy) -> (r: (
        RunMachine,
        HostAction,
    ))
        requires
            self.wf(),
        ensures
            crate::machine::start_rel(
                self.components_view()[0].id,
                abi_hint,
                policy,
                self.args_view(),
                r.0,
                r.1,
            ),
    {
        let descriptor = GuestDescriptor {
            identifier: self.components[0].id.clone(),
            abi_hint,
        };
        let args = clone_args(&self.config.guest_args);
        RunMachine::start(descriptor, policy, args)
    }
}

/// Clones an argument vector; every element keeps its exact contents.
fn clone_args(v: &Vec<String>) -> (r: Vec<String>)
    ensures
        r@ == v@,
{
    let r = v.clone();
    proof {
        assert forall|i: int| 0 <= i < v@.len() implies r@[i] == v@[i] by {
            assert(cloned::<String>(v@[i], r@[i]));
        }
        assert(r@ =~= v@);
    }
    r
}

} // verus!
