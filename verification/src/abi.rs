//! The two calling conventions a guest artifact may use, and the order in
//! which resolution probes for them.

use vstd::prelude::*;

verus! {

/// The calling convention of a guest artifact.
#[derive(Clone, Copy, Debug, PartialEq, Eq, Structural)]
pub enum AbiVariant {
    /// Typed convention: the artifact exposes a structured command-run
    /// capability export.
    ComponentV2,
    /// Flat legacy convention: the artifact exposes a conventional start
    /// function.
    ModulePreview1,
}

/// The probing order used when the configuration carries no explicit ABI
/// hint. The order is a deployment policy, chosen by the caller, never a
/// hidden default.
#[derive(Clone, Copy, Debug, PartialEq, Eq, Structural)]
pub enum ResolutionPolicy {
    PreferComponentThenModule,
    PreferModuleThenComponent,
}

/// The ordered load attempts resolution makes for a guest. An explicit hint
/// skips probing entirely: only the hinted variant is attempted, and its
/// failure surfaces directly. Without a hint, both variants are attempted in
/// the policy's order.
pub open spec fn spec_probe_plan(hint: Option<AbiVariant>, policy: ResolutionPolicy) -> Seq<
    AbiVariant,
> {
    match hint {
        Some(abi) => seq![abi],
        None => match policy {
            ResolutionPolicy::PreferComponentThenModule => seq![
                AbiVariant::ComponentV2,
                AbiVariant::ModulePreview1,
            ],
            ResolutionPolicy::PreferModuleThenComponent => seq![
                AbiVariant::ModulePreview1,
                AbiVariant::ComponentV2,
            ],
        },
    }
}

/// A probe plan holds one attempt (hinted) or two (both variants, in policy
/// order), and never repeats a variant.
pub proof fn lemma_probe_plan_shape(hint: Option<AbiVariant>, policy: ResolutionPolicy)
    ensures
        1 <= spec_probe_plan(hint, policy).len() <= 2,
        spec_probe_plan(hint, policy).len() == 2 ==> spec_probe_plan(hint, policy)[0]
            != spec_probe_plan(hint, policy)[1],
{
}

pub fn probe_plan(hint: Option<AbiVariant>, policy: ResolutionPolicy) -> (plan: Vec<AbiVariant>)
    ensures
        plan@ == spec_probe_plan(hint, policy),
{
    let mut plan: Vec<AbiVariant> = Vec::new();
    match hint {
        Some(abi) => {
            plan.push(abi);
        },
        None => {
            match policy {
                ResolutionPolicy::PreferComponentThenModule => {
                    plan.push(AbiVariant::ComponentV2);
                    plan.push(AbiVariant::ModulePreview1);
                },
                ResolutionPolicy::PreferModuleThenComponent => {
                    plan.push(AbiVariant::ModulePreview1);
                    plan.push(AbiVariant::ComponentV2);
                },
            }
        },
    }
    proof {
        assert(plan@ =~= spec_probe_plan(hint, policy));
    }
    plan
}

} // verus!
