//! The run core, as an event-driven machine. A run is strictly sequential:
//! resolve the artifact, build the execution context, instantiate, locate the
//! entry point, invoke it exactly once. The work between decisions — loading
//! bytes, wiring a store, linking, running guest code — belongs to the
//! sandbox engine at the host. The machine tells the host what to do next
//! ([`HostAction`]), the host reports what it observed ([`HostEvent`]), and
//! every decision in between is verified here.

use vstd::prelude::*;
use crate::abi::{AbiVariant, ResolutionPolicy, spec_probe_plan, probe_plan, lemma_probe_plan_shape};
use crate::config::GuestDescriptor;
use crate::context::{ExecutionContext, build_context};
use crate::entry::{
    EntryProbe, spec_probe_sequence, probes_are_conjunctive, probe_count, conjunctive_probes,
    probe_at,
};
use crate::errors::{GuestFailureKind, InvocationOutcome, LoadFailure, TriggerError};

verus! {

/// A loaded but not yet instantiated artifact: its ABI tag and the host's
/// handle id for it.
#[derive(Clone, Copy, Debug, PartialEq, Eq, Structural)]
pub struct PreInstantiationHandle {
    pub abi: AbiVariant,
    pub token: u64,
}

/// A live guest instance, paired with the execution context it was built
/// from. Its ABI tag always matches the handle it came from.
pub struct LiveInstance {
    pub abi: AbiVariant,
    pub token: u64,
    pub context: ExecutionContext,
}

/// Where a run stands. Phases only ever advance.
#[derive(Clone, Copy, Debug, PartialEq, Eq, Structural)]
pub enum Phase {
    /// A load attempt is outstanding.
    Loading,
    /// The artifact resolved; the host is wiring the execution context.
    Building,
    /// The host is instantiating (the first suspension point).
    Instantiating,
    /// An entry-point probe is outstanding on the live instance.
    Locating,
    /// The entry point is being invoked (the second suspension point).
    Invoking,
    /// The run is over; the outcome is recorded.
    Finished,
}

/// What the host must do next.
#[derive(Clone, Copy, Debug, PartialEq, Eq, Structural)]
pub enum HostAction {
    /// Ask the artifact store for the guest in this ABI's form.
    TryLoad(AbiVariant),
    /// Wire the machine's pending execution context (argv and capability
    /// grants) into a fresh sandbox store.
    BuildContext,
    /// Instantiate the loaded artifact in the built store, asynchronously.
    Instantiate,
    /// Make this entry-point lookup on the live instance.
    ProbeEntry(EntryProbe),
    /// Invoke the located entry point, once, with no call-time arguments,
    /// and await its completion.
    Invoke(AbiVariant),
    /// The run is over: report the recorded outcome upward.
    Report,
}

/// What the host observed when performing the requested action.
#[derive(Clone, Debug)]
pub enum HostEvent {
    /// The load attempt produced a handle, known to the host by this id.
    LoadSucceeded(u64),
    /// The load attempt failed with this message.
    LoadFailed(String),
    /// The context wiring was accepted.
    ContextBuilt,
    /// The sandbox rejected the capability or argument wiring.
    ContextRejected(String),
    /// Instantiation produced a live instance, known by this id.
    Instantiated(u64),
    /// The sandbox rejected instantiation.
    InstantiationFailed(String),
    /// The probed entry point exists (and, for the typing probe, has the
    /// expected type).
    ProbeFound,
    /// The probed entry point is absent (or mistyped).
    ProbeAbsent,
    /// The guest ran to completion successfully.
    GuestCompleted,
    /// The guest ran and reported a failure result.
    GuestReportedFailure(String),
    /// The guest trapped while running.
    GuestTrapped(String),
}

/// One run of one guest. All state is exclusively owned: nothing is shared
/// with any other in-flight invocation.
pub struct RunMachine {
    /// The guest identifier, fixed for the run.
    pub identifier: String,
    /// The caller's invocation arguments, fixed for the run.
    pub guest_args: Vec<String>,
    /// The configured ABI hint, if any.
    pub abi_hint: Option<AbiVariant>,
    /// The configured probing order.
    pub policy: ResolutionPolicy,
    /// The load attempts, in order; determined by hint and policy.
    pub plan: Vec<AbiVariant>,
    pub phase: Phase,
    /// While `Loading`: the index of the outstanding attempt in `plan`.
    pub next_attempt: usize,
    /// While `Locating`: the index of the outstanding probe.
    pub next_probe: usize,
    /// The load failures seen so far, one per failed attempt.
    pub failures: Vec<LoadFailure>,
    /// Set once an attempt succeeds.
    pub handle: Option<PreInstantiationHandle>,
    /// Set while the context is being wired; moves into the instance.
    pub context: Option<ExecutionContext>,
    /// Set once instantiation succeeds.
    pub instance: Option<LiveInstance>,
    /// Set exactly when the run is finished.
    pub outcome: Option<InvocationOutcome>,
}

impl RunMachine {
    /// The machine's internal invariant. Among other things: the plan is the
    /// probe plan of the hint and policy; the ABI tags of handle, context and
    /// instance agree at every stage; and from `Building` on, the pending
    /// context carries exactly the effective argv and the minimal capability
    /// set.
    pub open spec fn wf(&self) -> bool {
        &&& self.plan@ == spec_probe_plan(self.abi_hint, self.policy)
        &&& 1 <= self.plan@.len() <= 2
        &&& match self.phase {
            Phase::Loading => {
                &&& self.next_attempt < self.plan@.len()
                &&& self.failures@.len() == self.next_attempt
                &&& (forall|i: int|
                    0 <= i < self.next_attempt ==> #[trigger] self.failures@[i].abi
                        == self.plan@[i])
                &&& self.handle is None
                &&& self.context is None
                &&& self.instance is None
                &&& self.outcome is None
            },
            Phase::Building => {
                &&& (self.handle matches Some(h) && (self.context matches Some(c) && c.wf_for(
                    h.abi,
                    self.identifier,
                    self.guest_args@,
                )))
                &&& self.instance is None
                &&& self.outcome is None
            },
            Phase::Instantiating => {
                &&& (self.handle matches Some(h) && (self.context matches Some(c) && c.wf_for(
                    h.abi,
                    self.identifier,
                    self.guest_args@,
                )))
                &&& self.instance is None
                &&& self.outcome is None
            },
            Phase::Locating => {
                &&& (self.handle matches Some(h) && (self.instance matches Some(inst) && {
                    &&& inst.abi == h.abi
                    &&& inst.context.wf_for(inst.abi, self.identifier, self.guest_args@)
                }))
                &&& self.next_probe < spec_probe_sequence(self.handle.unwrap().abi).len()
                &&& self.context is None
                &&& self.outcome is None
            },
            Phase::Invoking => {
                &&& (self.handle matches Some(h) && (self.instance matches Some(inst) && {
                    &&& inst.abi == h.abi
                    &&& inst.context.wf_for(inst.abi, self.identifier, self.guest_args@)
                }))
                &&& self.context is None
                &&& self.outcome is None
            },
            Phase::Finished => self.outcome is Some,
        }
    }

    /// Which events answer the current phase's outstanding action. The host
    /// drives the machine strictly in sequence, so anything else is a
    /// protocol error on the host's side.
    pub open spec fn accepts(&self, e: HostEvent) -> bool {
        match (self.phase, e) {
            (Phase::Loading, HostEvent::LoadSucceeded(_)) => true,
            (Phase::Loading, HostEvent::LoadFailed(_)) => true,
            (Phase::Building, HostEvent::ContextBuilt) => true,
            (Phase::Building, HostEvent::ContextRejected(_)) => true,
            (Phase::Instantiating, HostEvent::Instantiated(_)) => true,
            (Phase::Instantiating, HostEvent::InstantiationFailed(_)) => true,
            (Phase::Locating, HostEvent::ProbeFound) => true,
            (Phase::Locating, HostEvent::ProbeAbsent) => true,
            (Phase::Invoking, HostEvent::GuestCompleted) => true,
            (Phase::Invoking, HostEvent::GuestReportedFailure(_)) => true,
            (Phase::Invoking, HostEvent::GuestTrapped(_)) => true,
            _ => false,
        }
    }
}

/// What starting a run establishes: a well-formed machine in `Loading`, with
/// no attempt decided yet, carrying the guest identifier and the invocation
/// arguments verbatim, and the first action of the probe plan emitted.
pub open spec fn start_rel(
    identifier: String,
    abi_hint: Option<AbiVariant>,
    policy: ResolutionPolicy,
    guest_args: Seq<String>,
    m: RunMachine,
    a: HostAction,
) -> bool {
    &&& m.wf()
    &&& m.identifier == identifier
    &&& m.guest_args@ == guest_args
    &&& m.abi_hint == abi_hint
    &&& m.policy == policy
    &&& m.phase == Phase::Loading
    &&& m.next_attempt == 0
    &&& m.failures@ == Seq::<LoadFailure>::empty()
    &&& a == HostAction::TryLoad(spec_probe_plan(abi_hint, policy)[0])
}

/// Everything one step changes and emits, as a relation between the machine
/// before and after: the fixed fields are kept, the emitted action and the
/// run's course (phase, attempt and probe indices, handle, recorded failures
/// and outcome) are determined by the machine before the step and the event.
pub open spec fn step_rel(pre: RunMachine, e: HostEvent, post: RunMachine, a: HostAction) -> bool {
    &&& pre.wf()
    &&& pre.accepts(e)
    &&& post.wf()
    &&& post.identifier == pre.identifier
    &&& post.guest_args == pre.guest_args
    &&& post.abi_hint == pre.abi_hint
    &&& post.policy == pre.policy
    &&& post.plan == pre.plan
    &&& match (pre.phase, e) {
        (Phase::Loading, HostEvent::LoadSucceeded(tok)) => {
            &&& post.phase == Phase::Building
            &&& post.handle == Some(
                PreInstantiationHandle { abi: pre.plan@[pre.next_attempt as int], token: tok },
            )
            &&& (post.context matches Some(c) && c.wf_for(
                pre.plan@[pre.next_attempt as int],
                pre.identifier,
                pre.guest_args@,
            ))
            &&& post.failures == pre.failures
            &&& a == HostAction::BuildContext
        },
        (Phase::Loading, HostEvent::LoadFailed(msg)) => {
            let tried = LoadFailure { abi: pre.plan@[pre.next_attempt as int], detail: msg };
            if pre.next_attempt + 1 < pre.plan@.len() {
                &&& post.phase == Phase::Loading
                &&& post.next_attempt == pre.next_attempt + 1
                &&& post.failures@ == pre.failures@.push(tried)
                &&& a == HostAction::TryLoad(pre.plan@[pre.next_attempt + 1])
            } else {
                &&& post.phase == Phase::Finished
                &&& (post.outcome matches Some(
                    InvocationOutcome::Failure(TriggerError::ArtifactLoad { guest, causes }),
                ) && guest == pre.identifier && causes@ == pre.failures@.push(tried))
                &&& a == HostAction::Report
            }
        },
        (Phase::Building, HostEvent::ContextBuilt) => {
            &&& post.phase == Phase::Instantiating
            &&& post.handle == pre.handle
            &&& post.context == pre.context
            &&& a == HostAction::Instantiate
        },
        (Phase::Building, HostEvent::ContextRejected(msg)) => {
            &&& post.phase == Phase::Finished
            &&& (post.outcome matches Some(
                InvocationOutcome::Failure(TriggerError::ContextBuild { guest, detail }),
            ) && guest == pre.identifier && detail == msg)
            &&& a == HostAction::Report
        },
        (Phase::Instantiating, HostEvent::Instantiated(tok)) => {
            &&& post.phase == Phase::Locating
            &&& post.next_probe == 0
            &&& post.handle == pre.handle
            &&& (post.instance matches Some(inst) && {
                &&& inst.abi == pre.handle.unwrap().abi
                &&& inst.token == tok
                &&& pre.context == Some(inst.context)
            })
            &&& a == HostAction::ProbeEntry(spec_probe_sequence(pre.handle.unwrap().abi)[0])
        },
        (Phase::Instantiating, HostEvent::InstantiationFailed(msg)) => {
            &&& post.phase == Phase::Finished
            &&& (post.outcome matches Some(
                InvocationOutcome::Failure(TriggerError::Instantiation { guest, detail }),
            ) && guest == pre.identifier && detail == msg)
            &&& a == HostAction::Report
        },
        (Phase::Locating, HostEvent::ProbeFound) => {
            let abi = pre.handle.unwrap().abi;
            let probes = spec_probe_sequence(abi);
            if probes_are_conjunctive(abi) && pre.next_probe + 1 < probes.len() {
                &&& post.phase == Phase::Locating
                &&& post.next_probe == pre.next_probe + 1
                &&& post.handle == pre.handle
                &&& post.instance == pre.instance
                &&& a == HostAction::ProbeEntry(probes[pre.next_probe + 1])
            } else {
                &&& post.phase == Phase::Invoking
                &&& post.handle == pre.handle
                &&& post.instance == pre.instance
                &&& a == HostAction::Invoke(abi)
            }
        },
        (Phase::Locating, HostEvent::ProbeAbsent) => {
            let abi = pre.handle.unwrap().abi;
            let probes = spec_probe_sequence(abi);
            if !probes_are_conjunctive(abi) && pre.next_probe + 1 < probes.len() {
                &&& post.phase == Phase::Locating
                &&& post.next_probe == pre.next_probe + 1
                &&& post.handle == pre.handle
                &&& post.instance == pre.instance
                &&& a == HostAction::ProbeEntry(probes[pre.next_probe + 1])
            } else {
                &&& post.phase == Phase::Finished
                &&& (post.outcome matches Some(
                    InvocationOutcome::Failure(
                        TriggerError::EntryPointNotFound { guest, abi: failed_abi, missing },
                    ),
                ) && {
                    &&& guest == pre.identifier
                    &&& failed_abi == abi
                    &&& missing@ == (if probes_are_conjunctive(abi) {
                        seq![probes[pre.next_probe as int]]
                    } else {
                        probes
                    })
                })
                &&& a == HostAction::Report
            }
        },
        (Phase::Invoking, HostEvent::GuestCompleted) => {
            &&& post.phase == Phase::Finished
            &&& post.outcome == Some(InvocationOutcome::Success)
            &&& a == HostAction::Report
        },
        (Phase::Invoking, HostEvent::GuestReportedFailure(msg)) => {
            &&& post.phase == Phase::Finished
            &&& (post.outcome matches Some(
                InvocationOutcome::Failure(TriggerError::GuestExecution { guest, kind, detail }),
            ) && guest == pre.identifier && kind == GuestFailureKind::Reported && detail == msg)
            &&& a == HostAction::Report
        },
        (Phase::Invoking, HostEvent::GuestTrapped(msg)) => {
            &&& post.phase == Phase::Finished
            &&& (post.outcome matches Some(
                InvocationOutcome::Failure(TriggerError::GuestExecution { guest, kind, detail }),
            ) && guest == pre.identifier && kind == GuestFailureKind::Trapped && detail == msg)
            &&& a == HostAction::Report
        },
        _ => false,
    }
}

impl RunMachine {
    /// Starts one run: the machine enters `Loading` and the host is asked to
    /// make the first load attempt of the probe plan.
    pub fn start(descriptor: GuestDescriptor, policy: ResolutionPolicy, guest_args: Vec<String>)
        -> (r: (RunMachine, HostAction))
        ensures
            start_rel(descriptor.identifier, descriptor.abi_hint, policy, guest_args@, r.0, r.1),
    {
        proof {
            lemma_probe_plan_shape(descriptor.abi_hint, policy);
        }
        let plan = probe_plan(descriptor.abi_hint, policy);
        let first = plan[0];
        let m = RunMachine {
            identifier: descriptor.identifier,
            guest_args,
            abi_hint: descriptor.abi_hint,
            policy,
            plan,
            phase: Phase::Loading,
            next_attempt: 0,
            next_probe: 0,
            failures: Vec::new(),
            handle: None,
            context: None,
            instance: None,
            outcome: None,
        };
        (m, HostAction::TryLoad(first))
    }

    /// Feeds the host's observation for the outstanding action into the
    /// machine and returns what the host must do next.
    pub fn step(&mut self, event: HostEvent) -> (a: HostAction)
        requires
            old(self).wf(),
            old(self).accepts(event),
        ensures
            step_rel(*old(self), event, *final(self), a),
    {
        match event {
            HostEvent::LoadSucceeded(tok) => {
                let abi = self.plan[self.next_attempt];
                let c = build_context(abi, &self.identifier, &self.guest_args);
                self.handle = Some(PreInstantiationHandle { abi, token: tok });
                self.context = Some(c);
                self.phase = Phase::Building;
                HostAction::BuildContext
            },
            HostEvent::LoadFailed(msg) => {
                let abi = self.plan[self.next_attempt];
                self.failures.push(LoadFailure { abi, detail: msg });
                if self.next_attempt + 1 < self.plan.len() {
                    self.next_attempt = self.next_attempt + 1;
                    HostAction::TryLoad(self.plan[self.next_attempt])
                } else {
                    let mut causes: Vec<LoadFailure> = Vec::new();
                    core::mem::swap(&mut causes, &mut self.failures);
                    self.outcome = Some(
                        InvocationOutcome::Failure(
                            TriggerError::ArtifactLoad { guest: self.identifier.clone(), causes },
                        ),
                    );
                    self.phase = Phase::Finished;
                    HostAction::Report
                }
            },
            HostEvent::ContextBuilt => {
                self.phase = Phase::Instantiating;
                HostAction::Instantiate
            },
            HostEvent::ContextRejected(msg) => {
                self.outcome = Some(
                    InvocationOutcome::Failure(
                        TriggerError::ContextBuild {
                            guest: self.identifier.clone(),
                            detail: msg,
                        },
                    ),
                );
                self.phase = Phase::Finished;
                HostAction::Report
            },
            HostEvent::Instantiated(tok) => {
                let h = self.handle.unwrap();
                let c = self.context.take().unwrap();
                self.instance = Some(LiveInstance { abi: h.abi, token: tok, context: c });
                self.next_probe = 0;
                self.phase = Phase::Locating;
                HostAction::ProbeEntry(probe_at(h.abi, 0))
            },
            HostEvent::InstantiationFailed(msg) => {
                self.outcome = Some(
                    InvocationOutcome::Failure(
                        TriggerError::Instantiation {
                            guest: self.identifier.clone(),
                            detail: msg,
                        },
                    ),
                );
                self.phase = Phase::Finished;
                HostAction::Report
            },
            HostEvent::ProbeFound => {
                let abi = self.handle.unwrap().abi;
                if conjunctive_probes(abi) && self.next_probe + 1 < probe_count(abi) {
                    self.next_probe = self.next_probe + 1;
                    HostAction::ProbeEntry(probe_at(abi, self.next_probe))
                } else {
                    self.phase = Phase::Invoking;
                    HostAction::Invoke(abi)
                }
            },
            HostEvent::ProbeAbsent => {
                let abi = self.handle.unwrap().abi;
                if !conjunctive_probes(abi) && self.next_probe + 1 < probe_count(abi) {
                    self.next_probe = self.next_probe + 1;
                    HostAction::ProbeEntry(probe_at(abi, self.next_probe))
                } else {
                    let mut missing: Vec<EntryProbe> = Vec::new();
                    if conjunctive_probes(abi) {
                        missing.push(probe_at(abi, self.next_probe));
                    } else {
                        let mut k: usize = 0;
                        while k < probe_count(abi)
                            invariant
                                k <= spec_probe_sequence(abi).len(),
                                missing@ == spec_probe_sequence(abi).take(k as int),
                            decreases spec_probe_sequence(abi).len() - k,
                        {
                            missing.push(probe_at(abi, k));
                            proof {
                                assert(missing@ =~= spec_probe_sequence(abi).take(k + 1));
                            }
                            k = k + 1;
                        }
                        proof {
                            assert(spec_probe_sequence(abi).take(
                                spec_probe_sequence(abi).len() as int,
                            ) =~= spec_probe_sequence(abi));
                        }
                    }
                    proof {
                        assert(missing@ =~= (if probes_are_conjunctive(abi) {
                            seq![spec_probe_sequence(abi)[self.next_probe as int]]
                        } else {
                            spec_probe_sequence(abi)
                        }));
                    }
                    self.outcome = Some(
                        InvocationOutcome::Failure(
                            TriggerError::EntryPointNotFound {
                                guest: self.identifier.clone(),
                                abi,
                                missing,
                            },
                        ),
                    );
                    self.phase = Phase::Finished;
                    HostAction::Report
                }
            },
            HostEvent::GuestCompleted => {
                self.outcome = Some(InvocationOutcome::Success);
                self.phase = Phase::Finished;
                HostAction::Report
            },
            HostEvent::GuestReportedFailure(msg) => {
                self.outcome = Some(
                    InvocationOutcome::Failure(
                        TriggerError::GuestExecution {
                            guest: self.identifier.clone(),
                            kind: GuestFailureKind::Reported,
                            detail: msg,
                        },
                    ),
                );
                self.phase = Phase::Finished;
                HostAction::Report
            },
            HostEvent::GuestTrapped(msg) => {
                self.outcome = Some(
                    InvocationOutcome::Failure(
                        TriggerError::GuestExecution {
                            guest: self.identifier.clone(),
                            kind: GuestFailureKind::Trapped,
                            detail: msg,
                        },
                    ),
                );
                self.phase = Phase::Finished;
                HostAction::Report
            },
        }
    }
}

} // verus!
