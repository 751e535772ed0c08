//! The execution context builder: the per-invocation sandbox state the host
//! must wire in before instantiating — the injected argv and the granted
//! capabilities.

use vstd::prelude::*;
use crate::abi::AbiVariant;

verus! {

/// The capability grants wired into a guest execution context. A command
/// guest gets the minimal fixed set: argument visibility and nothing more.
/// No guest-supplied policy ever expands it.
#[derive(Clone, Copy, Debug, PartialEq, Eq, Structural)]
pub struct CapabilitySet {
    /// The guest may read its injected argument vector.
    pub cli_arguments: bool,
    /// The guest may open host files.
    pub filesystem: bool,
    /// The guest may read host environment variables.
    pub environment: bool,
}

impl CapabilitySet {
    /// The minimal grant a command guest needs: argument visibility only.
    pub open spec fn spec_minimal() -> CapabilitySet {
        CapabilitySet { cli_arguments: true, filesystem: false, environment: false }
    }

    pub fn minimal() -> (c: CapabilitySet)
        ensures
            c == CapabilitySet::spec_minimal(),
    {
        CapabilitySet { cli_arguments: true, filesystem: false, environment: false }
    }
}

/// Single-use sandbox state for one instantiation: the ABI it was built for,
/// the argv to inject, and the capabilities to grant.
pub struct ExecutionContext {
    pub abi: AbiVariant,
    pub argv: Vec<String>,
    pub capabilities: CapabilitySet,
}

/// The argv a guest observes: the guest identifier as argument zero, then the
/// caller's invocation arguments, order and exact string contents preserved.
pub open spec fn spec_effective_argv(identifier: String, args: Seq<String>) -> Seq<String> {
    seq![identifier] + args
}

impl ExecutionContext {
    /// A context correctly built for `abi`, guest `identifier` and invocation
    /// arguments `args`: the tag matches, the argv is the effective argv, and
    /// the grants are the minimal fixed set.
    pub open spec fn wf_for(&self, abi: AbiVariant, identifier: String, args: Seq<String>) -> bool {
        &&& self.abi == abi
        &&& self.argv@ == spec_effective_argv(identifier, args)
        &&& self.capabilities == CapabilitySet::spec_minimal()
    }
}

/// Builds the argv for a guest: `identifier` first, then every caller
/// argument verbatim — no re-parsing, no hyphen handling, no reordering.
pub fn effective_argv(identifier: &String, args: &Vec<String>) -> (r: Vec<String>)
    ensures
        r@ == spec_effective_argv(*identifier, args@),
        r@.len() == args@.len() + 1,
        r@[0] == *identifier,
        forall|i: int| 0 <= i < args@.len() ==> r@[i + 1] == args@[i],
{
    let mut r: Vec<String> = Vec::new();
    r.push(identifier.clone());
    let mut i: usize = 0;
    while i < args.len()
        invariant
            i <= args@.len(),
            r@ == seq![*identifier] + args@.take(i as int),
        decreases args@.len() - i,
    {
        r.push(args[i].clone());
        proof {
            assert(r@ =~= seq![*identifier] + args@.take(i + 1));
        }
        i = i + 1;
    }
    proof {
        assert(args@.take(args@.len() as int) =~= args@);
    }
    r
}

/// Builds the execution context for one instantiation of `identifier` under
/// `abi`, injecting the effective argv and the minimal capability set.
pub fn build_context(abi: AbiVariant, identifier: &String, args: &Vec<String>) -> (c:
    ExecutionContext)
    ensures
        c.wf_for(abi, *identifier, args@),
{
    ExecutionContext { abi, argv: effective_argv(identifier, args), capabilities: CapabilitySet::minimal() }
}

} // verus!
