//! Run-wide guarantees, proved over whole sequences of machine steps: phases
//! only advance; context build, instantiation and entry-point invocation each
//! happen at most once per run; a guest loadable under neither ABI fails with
//! both causes; an explicit hint is never fallen back from; a missing entry
//! point fails without any repeated work; and resolution depends on the load
//! outcomes alone.

use vstd::prelude::*;
use crate::abi::{AbiVariant, ResolutionPolicy, spec_probe_plan};
use crate::context::spec_effective_argv;
use crate::entry::EntryProbe;
use crate::errors::{InvocationOutcome, LoadFailure, TriggerError};
use crate::machine::{HostAction, HostEvent, Phase, RunMachine, step_rel};

verus! {

/// Phases in the order a run passes through them.
pub open spec fn phase_rank(p: Phase) -> int {
    match p {
        Phase::Loading => 0,
        Phase::Building => 1,
        Phase::Instantiating => 2,
        Phase::Locating => 3,
        Phase::Invoking => 4,
        Phase::Finished => 5,
    }
}

/// Step `i` of a recorded run: feeding `events[i]` to `states[i]` yields
/// `states[i + 1]` and `actions[i]`.
pub open spec fn trace_step(
    states: Seq<RunMachine>,
    events: Seq<HostEvent>,
    actions: Seq<HostAction>,
    i: int,
) -> bool {
    step_rel(states[i], events[i], states[i + 1], actions[i])
}

/// `states`, `events` and `actions` record one run driven step by step.
pub open spec fn is_trace(
    states: Seq<RunMachine>,
    events: Seq<HostEvent>,
    actions: Seq<HostAction>,
) -> bool {
    &&& states.len() == events.len() + 1
    &&& actions.len() == events.len()
    &&& (forall|i: int| 0 <= i < events.len() ==> #[trigger] trace_step(states, events, actions, i))
}

/// A single step never moves a run backwards.
pub proof fn lemma_step_rank_monotone(pre: RunMachine, e: HostEvent, post: RunMachine, a: HostAction)
    requires
        step_rel(pre, e, post, a),
    ensures
        phase_rank(post.phase) >= phase_rank(pre.phase),
{
}

/// Along a whole run, phases only advance.
pub proof fn lemma_rank_chain(
    states: Seq<RunMachine>,
    events: Seq<HostEvent>,
    actions: Seq<HostAction>,
    i: int,
    j: int,
)
    requires
        is_trace(states, events, actions),
        0 <= i <= j < states.len(),
    ensures
        phase_rank(states[i].phase) <= phase_rank(states[j].phase),
    decreases j - i,
{
    if i < j {
        lemma_rank_chain(states, events, actions, i, j - 1);
        assert(trace_step(states, events, actions, j - 1));
        lemma_step_rank_monotone(states[j - 1], events[j - 1], states[j], actions[j - 1]);
    }
}

/// The once-only actions: each is emitted exactly on the step from one fixed
/// phase to the next — wiring the context leaves `Loading`, instantiating
/// leaves `Building`, invoking leaves `Locating`.
pub open spec fn unique_edge(a: HostAction) -> Option<(int, int)> {
    match a {
        HostAction::BuildContext => Some((phase_rank(Phase::Loading), phase_rank(Phase::Building))),
        HostAction::Instantiate => Some(
            (phase_rank(Phase::Building), phase_rank(Phase::Instantiating)),
        ),
        HostAction::Invoke(_) => Some((phase_rank(Phase::Locating), phase_rank(Phase::Invoking))),
        _ => None,
    }
}

pub proof fn lemma_unique_edge(pre: RunMachine, e: HostEvent, post: RunMachine, a: HostAction)
    requires
        step_rel(pre, e, post, a),
        unique_edge(a) is Some,
    ensures
        phase_rank(pre.phase) == unique_edge(a).unwrap().0,
        phase_rank(post.phase) == unique_edge(a).unwrap().1,
        unique_edge(a).unwrap().1 == unique_edge(a).unwrap().0 + 1,
{
}

/// No run wires a context twice, instantiates twice, or invokes an entry
/// point twice: a later action in a trace never repeats an earlier once-only
/// action.
pub proof fn lemma_action_at_most_once(
    states: Seq<RunMachine>,
    events: Seq<HostEvent>,
    actions: Seq<HostAction>,
    i: int,
    j: int,
)
    requires
        is_trace(states, events, actions),
        0 <= i < j < actions.len(),
        unique_edge(actions[i]) is Some,
    ensures
        unique_edge(actions[j]) != unique_edge(actions[i]),
{
    if unique_edge(actions[j]) == unique_edge(actions[i]) {
        assert(trace_step(states, events, actions, i));
        assert(trace_step(states, events, actions, j));
        lemma_unique_edge(states[i], events[i], states[i + 1], actions[i]);
        lemma_unique_edge(states[j], events[j], states[j + 1], actions[j]);
        lemma_rank_chain(states, events, actions, i + 1, j);
    }
}

/// The entry point is invoked at most once per run, whatever the events: once
/// an invocation has started there is no retry, under either ABI.
pub proof fn lemma_invoke_at_most_once(
    states: Seq<RunMachine>,
    events: Seq<HostEvent>,
    actions: Seq<HostAction>,
    i: int,
    j: int,
)
    requires
        is_trace(states, events, actions),
        0 <= i < j < actions.len(),
        actions[i] matches HostAction::Invoke(_),
    ensures
        !(actions[j] matches HostAction::Invoke(_)),
{
    if actions[j] matches HostAction::Invoke(_) {
        lemma_action_at_most_once(states, events, actions, i, j);
    }
}

/// Whenever a run asks the host to wire an execution context, the pending
/// context injects exactly the guest identifier followed by the caller's
/// invocation arguments, in order and verbatim — whatever ABI resolution
/// chose, and whatever the arguments look like.
pub proof fn lemma_injected_argv(pre: RunMachine, e: HostEvent, post: RunMachine, a: HostAction)
    requires
        step_rel(pre, e, post, a),
        a == HostAction::BuildContext,
    ensures
        post.context matches Some(c) && {
            &&& c.argv@ == spec_effective_argv(post.identifier, post.guest_args@)
            &&& c.argv@[0] == post.identifier
            &&& (forall|i: int|
                0 <= i < post.guest_args@.len() ==> c.argv@[i + 1] == post.guest_args@[i])
        },
{
}

/// A guest resolvable only as a flat module is located through the start
/// probes and its start function is invoked exactly once, with the guest
/// identifier as argument zero of the injected argv. The run: the preferred
/// component load fails, the module load succeeds, the context and instance
/// come up, the unmarked start export is absent, the named one is found, and
/// the guest completes.
pub proof fn lemma_module_only_guest_runs_start(
    states: Seq<RunMachine>,
    events: Seq<HostEvent>,
    actions: Seq<HostAction>,
    component_load_error: String,
    module_handle: u64,
    instance_id: u64,
)
    requires
        is_trace(states, events, actions),
        states[0].phase == Phase::Loading,
        states[0].next_attempt == 0,
        states[0].abi_hint is None,
        states[0].policy == ResolutionPolicy::PreferComponentThenModule,
        events == seq![
            HostEvent::LoadFailed(component_load_error),
            HostEvent::LoadSucceeded(module_handle),
            HostEvent::ContextBuilt,
            HostEvent::Instantiated(instance_id),
            HostEvent::ProbeAbsent,
            HostEvent::ProbeFound,
            HostEvent::GuestCompleted,
        ],
    ensures
        actions == seq![
            HostAction::TryLoad(AbiVariant::ModulePreview1),
            HostAction::BuildContext,
            HostAction::Instantiate,
            HostAction::ProbeEntry(EntryProbe::ModuleDefaultStart),
            HostAction::ProbeEntry(EntryProbe::ModuleNamedStart),
            HostAction::Invoke(AbiVariant::ModulePreview1),
            HostAction::Report,
        ],
        forall|k: int|
            0 <= k < actions.len() ==> ((#[trigger] actions[k]) matches HostAction::Invoke(_) <==> k
                == 5),
        states[7].outcome == Some(InvocationOutcome::Success),
        states[2].context matches Some(c) && c.argv@ == spec_effective_argv(
            states[0].identifier,
            states[0].guest_args@,
        ) && c.argv@[0] == states[0].identifier,
{
    assert(trace_step(states, events, actions, 0));
    assert(trace_step(states, events, actions, 1));
    assert(trace_step(states, events, actions, 2));
    assert(trace_step(states, events, actions, 3));
    assert(trace_step(states, events, actions, 4));
    assert(trace_step(states, events, actions, 5));
    assert(trace_step(states, events, actions, 6));
    assert(states[0].plan@ == seq![AbiVariant::ComponentV2, AbiVariant::ModulePreview1]);
    assert(states[1].phase == Phase::Loading && states[1].next_attempt == 1);
    assert(states[2].phase == Phase::Building);
    assert(states[2].handle == Some(
        crate::machine::PreInstantiationHandle {
            abi: AbiVariant::ModulePreview1,
            token: module_handle,
        },
    ));
    assert(states[3].phase == Phase::Instantiating);
    assert(states[4].phase == Phase::Locating && states[4].next_probe == 0);
    assert(states[5].phase == Phase::Locating && states[5].next_probe == 1);
    assert(states[6].phase == Phase::Invoking);
    assert(states[7].phase == Phase::Finished);
    assert(actions =~= seq![
        HostAction::TryLoad(AbiVariant::ModulePreview1),
        HostAction::BuildContext,
        HostAction::Instantiate,
        HostAction::ProbeEntry(EntryProbe::ModuleDefaultStart),
        HostAction::ProbeEntry(EntryProbe::ModuleNamedStart),
        HostAction::Invoke(AbiVariant::ModulePreview1),
        HostAction::Report,
    ]);
}

/// A guest resolvable as a component has its structured run export located,
/// typed, and invoked exactly once, with no guest-observable retry.
pub proof fn lemma_component_guest_runs_once(
    states: Seq<RunMachine>,
    events: Seq<HostEvent>,
    actions: Seq<HostAction>,
    component_handle: u64,
    instance_id: u64,
)
    requires
        is_trace(states, events, actions),
        states[0].phase == Phase::Loading,
        states[0].next_attempt == 0,
        states[0].abi_hint is None,
        states[0].policy == ResolutionPolicy::PreferComponentThenModule,
        events == seq![
            HostEvent::LoadSucceeded(component_handle),
            HostEvent::ContextBuilt,
            HostEvent::Instantiated(instance_id),
            HostEvent::ProbeFound,
            HostEvent::ProbeFound,
            HostEvent::ProbeFound,
            HostEvent::GuestCompleted,
        ],
    ensures
        actions == seq![
            HostAction::BuildContext,
            HostAction::Instantiate,
            HostAction::ProbeEntry(EntryProbe::ComponentRunInterface),
            HostAction::ProbeEntry(EntryProbe::ComponentRunFunction),
            HostAction::ProbeEntry(EntryProbe::ComponentTypedFunction),
            HostAction::Invoke(AbiVariant::ComponentV2),
            HostAction::Report,
        ],
        forall|k: int|
            0 <= k < actions.len() ==> ((#[trigger] actions[k]) matches HostAction::Invoke(_) <==> k
                == 5),
        states[7].outcome == Some(InvocationOutcome::Success),
{
    assert(trace_step(states, events, actions, 0));
    assert(trace_step(states, events, actions, 1));
    assert(trace_step(states, events, actions, 2));
    assert(trace_step(states, events, actions, 3));
    assert(trace_step(states, events, actions, 4));
    assert(trace_step(states, events, actions, 5));
    assert(trace_step(states, events, actions, 6));
    assert(states[0].plan@ == seq![AbiVariant::ComponentV2, AbiVariant::ModulePreview1]);
    assert(states[1].phase == Phase::Building);
    assert(states[2].phase == Phase::Instantiating);
    assert(states[3].phase == Phase::Locating && states[3].next_probe == 0);
    assert(states[4].phase == Phase::Locating && states[4].next_probe == 1);
    assert(states[5].phase == Phase::Locating && states[5].next_probe == 2);
    assert(states[6].phase == Phase::Invoking);
    assert(states[7].phase == Phase::Finished);
    assert(actions =~= seq![
        HostAction::BuildContext,
        HostAction::Instantiate,
        HostAction::ProbeEntry(EntryProbe::ComponentRunInterface),
        HostAction::ProbeEntry(EntryProbe::ComponentRunFunction),
        HostAction::ProbeEntry(EntryProbe::ComponentTypedFunction),
        HostAction::Invoke(AbiVariant::ComponentV2),
        HostAction::Report,
    ]);
}

/// A guest loadable under neither ABI fails with one combined diagnostic that
/// keeps both load-path causes, in attempt order, under distinct ABI tags.
pub proof fn lemma_unresolvable_reports_both_causes(
    states: Seq<RunMachine>,
    events: Seq<HostEvent>,
    actions: Seq<HostAction>,
    first_error: String,
    second_error: String,
)
    requires
        is_trace(states, events, actions),
        states[0].phase == Phase::Loading,
        states[0].next_attempt == 0,
        states[0].abi_hint is None,
        events == seq![HostEvent::LoadFailed(first_error), HostEvent::LoadFailed(second_error)],
    ensures
        states[2].phase == Phase::Finished,
        states[2].outcome matches Some(
            InvocationOutcome::Failure(TriggerError::ArtifactLoad { guest, causes }),
        ) && {
            &&& guest == states[0].identifier
            &&& causes@.len() == 2
            &&& causes@[0].abi == spec_probe_plan(None, states[0].policy)[0]
            &&& causes@[1].abi == spec_probe_plan(None, states[0].policy)[1]
            &&& causes@[0].detail == first_error
            &&& causes@[1].detail == second_error
            &&& causes@[0].abi != causes@[1].abi
        },
        actions[1] == HostAction::Report,
{
    assert(trace_step(states, events, actions, 0));
    assert(trace_step(states, events, actions, 1));
    crate::abi::lemma_probe_plan_shape(None, states[0].policy);
    assert(states[1].phase == Phase::Loading && states[1].next_attempt == 1);
    assert(states[1].failures@ == Seq::<LoadFailure>::empty().push(
        LoadFailure { abi: states[0].plan@[0], detail: first_error },
    ));
}

/// A component artifact that loads but lacks the command-run export fails
/// with `EntryPointNotFound`, and neither the context build nor the
/// instantiation is repeated: the whole run makes each exactly once and never
/// invokes.
pub proof fn lemma_missing_entry_point_not_retried(
    states: Seq<RunMachine>,
    events: Seq<HostEvent>,
    actions: Seq<HostAction>,
    component_handle: u64,
    instance_id: u64,
)
    requires
        is_trace(states, events, actions),
        states[0].phase == Phase::Loading,
        states[0].next_attempt == 0,
        states[0].abi_hint == Some(AbiVariant::ComponentV2),
        events == seq![
            HostEvent::LoadSucceeded(component_handle),
            HostEvent::ContextBuilt,
            HostEvent::Instantiated(instance_id),
            HostEvent::ProbeAbsent,
        ],
    ensures
        actions == seq![
            HostAction::BuildContext,
            HostAction::Instantiate,
            HostAction::ProbeEntry(EntryProbe::ComponentRunInterface),
            HostAction::Report,
        ],
        states[4].outcome matches Some(
            InvocationOutcome::Failure(TriggerError::EntryPointNotFound { guest, abi, missing }),
        ) && {
            &&& guest == states[0].identifier
            &&& abi == AbiVariant::ComponentV2
            &&& missing@ == seq![EntryProbe::ComponentRunInterface]
        },
        forall|k: int| 0 <= k < actions.len() ==> !((#[trigger] actions[k]) matches HostAction::Invoke(_)),
{
    assert(trace_step(states, events, actions, 0));
    assert(trace_step(states, events, actions, 1));
    assert(trace_step(states, events, actions, 2));
    assert(trace_step(states, events, actions, 3));
    assert(states[0].plan@ == seq![AbiVariant::ComponentV2]);
    assert(states[1].phase == Phase::Building);
    assert(states[2].phase == Phase::Instantiating);
    assert(states[3].phase == Phase::Locating && states[3].next_probe == 0);
    assert(states[4].phase == Phase::Finished);
    assert(actions =~= seq![
        HostAction::BuildContext,
        HostAction::Instantiate,
        HostAction::ProbeEntry(EntryProbe::ComponentRunInterface),
        HostAction::Report,
    ]);
}

/// With an explicit ABI hint there is no fallback: only the hinted variant is
/// attempted, and its load failure is surfaced directly as the single cause.
pub proof fn lemma_hint_skips_fallback(
    pre: RunMachine,
    e: HostEvent,
    post: RunMachine,
    a: HostAction,
    msg: String,
)
    requires
        step_rel(pre, e, post, a),
        pre.phase == Phase::Loading,
        pre.next_attempt == 0,
        pre.failures@ == Seq::<LoadFailure>::empty(),
        pre.abi_hint matches Some(_),
        e == HostEvent::LoadFailed(msg),
    ensures
        post.phase == Phase::Finished,
        a == HostAction::Report,
        post.outcome matches Some(
            InvocationOutcome::Failure(TriggerError::ArtifactLoad { guest, causes }),
        ) && {
            &&& guest == pre.identifier
            &&& causes@.len() == 1
            &&& causes@[0].abi == pre.abi_hint.unwrap()
            &&& causes@[0].detail == msg
        },
{
}

/// While load attempts keep failing, a run stays in `Loading`, advancing one
/// attempt per failure and keeping its hint and policy.
proof fn lemma_loading_prefix(
    states: Seq<RunMachine>,
    events: Seq<HostEvent>,
    actions: Seq<HostAction>,
    j: int,
)
    requires
        is_trace(states, events, actions),
        0 <= j < events.len(),
        states[0].phase == Phase::Loading,
        states[0].next_attempt == 0,
        forall|i: int| 0 <= i < j ==> (#[trigger] events[i]) matches HostEvent::LoadFailed(_),
    ensures
        states[j].phase == Phase::Loading,
        states[j].next_attempt == j,
        states[j].abi_hint == states[0].abi_hint,
        states[j].policy == states[0].policy,
    decreases j,
{
    if j > 0 {
        lemma_loading_prefix(states, events, actions, j - 1);
        assert(trace_step(states, events, actions, j - 1));
        if states[j].phase == Phase::Finished {
            assert(trace_step(states, events, actions, j));
            assert(false);
        }
    }
}

/// Resolution is idempotent over an unchanged artifact store: two runs of the
/// same guest, configured with the same hint and policy, whose load attempts
/// fail and succeed at the same points, resolve handles with the same ABI
/// tag — whatever else (arguments, handle ids, messages) differs.
pub proof fn lemma_resolution_idempotent(
    states1: Seq<RunMachine>,
    events1: Seq<HostEvent>,
    actions1: Seq<HostAction>,
    states2: Seq<RunMachine>,
    events2: Seq<HostEvent>,
    actions2: Seq<HostAction>,
    j: int,
)
    requires
        is_trace(states1, events1, actions1),
        is_trace(states2, events2, actions2),
        states1[0].phase == Phase::Loading,
        states1[0].next_attempt == 0,
        states2[0].phase == Phase::Loading,
        states2[0].next_attempt == 0,
        states1[0].abi_hint == states2[0].abi_hint,
        states1[0].policy == states2[0].policy,
        0 <= j < events1.len(),
        j < events2.len(),
        forall|i: int| 0 <= i < j ==> (#[trigger] events1[i]) matches HostEvent::LoadFailed(_),
        forall|i: int| 0 <= i < j ==> (#[trigger] events2[i]) matches HostEvent::LoadFailed(_),
        events1[j] matches HostEvent::LoadSucceeded(_),
        events2[j] matches HostEvent::LoadSucceeded(_),
    ensures
        states1[j + 1].handle is Some,
        states2[j + 1].handle is Some,
        states1[j + 1].handle.unwrap().abi == states2[j + 1].handle.unwrap().abi,
{
    lemma_loading_prefix(states1, events1, actions1, j);
    lemma_loading_prefix(states2, events2, actions2, j);
    assert(trace_step(states1, events1, actions1, j));
    assert(trace_step(states2, events2, actions2, j));
    assert(states1[j].plan@ == spec_probe_plan(states1[0].abi_hint, states1[0].policy));
    assert(states2[j].plan@ == spec_probe_plan(states1[0].abi_hint, states1[0].policy));
}

} // verus!
