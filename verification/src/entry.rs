//! Entry-point location. Once an instance is live, the invoker looks up the
//! ABI-appropriate entry point through a short, fixed sequence of probes.

use vstd::prelude::*;
use crate::abi::AbiVariant;

verus! {

/// One lookup the host makes on a live instance while locating the entry
/// point.
#[derive(Clone, Copy, Debug, PartialEq, Eq, Structural)]
pub enum EntryProbe {
    /// Locate the structured command-run capability instance export.
    ComponentRunInterface,
    /// Locate the run function inside that capability instance.
    ComponentRunFunction,
    /// Obtain the run function at its expected type.
    ComponentTypedFunction,
    /// Locate the unmarked, default start export of a flat module.
    ModuleDefaultStart,
    /// Locate the conventionally named start export of a flat module.
    ModuleNamedStart,
}

/// The export name of the command-run capability on the component path.
pub open spec fn run_interface_name() -> Seq<char> {
    "wasi:cli/run@0.2.0"@
}

/// The name of the run function within the command-run capability.
pub open spec fn run_function_name() -> Seq<char> {
    "run"@
}

/// The named fallback for a flat module's start function.
pub open spec fn named_start_name() -> Seq<char> {
    "_start"@
}

/// The probes for an ABI, in the order they are made.
pub open spec fn spec_probe_sequence(abi: AbiVariant) -> Seq<EntryProbe> {
    match abi {
        AbiVariant::ComponentV2 => seq![
            EntryProbe::ComponentRunInterface,
            EntryProbe::ComponentRunFunction,
            EntryProbe::ComponentTypedFunction,
        ],
        AbiVariant::ModulePreview1 => seq![
            EntryProbe::ModuleDefaultStart,
            EntryProbe::ModuleNamedStart,
        ],
    }
}

/// On the component path every probe must succeed (the capability, the
/// function within it, and its typing). On the module path the probes are
/// fallbacks: the first one found wins.
pub open spec fn probes_are_conjunctive(abi: AbiVariant) -> bool {
    abi is ComponentV2
}

pub fn probe_count(abi: AbiVariant) -> (n: usize)
    ensures
        n == spec_probe_sequence(abi).len(),
{
    match abi {
        AbiVariant::ComponentV2 => 3,
        AbiVariant::ModulePreview1 => 2,
    }
}

pub fn conjunctive_probes(abi: AbiVariant) -> (b: bool)
    ensures
        b == probes_are_conjunctive(abi),
{
    match abi {
        AbiVariant::ComponentV2 => true,
        AbiVariant::ModulePreview1 => false,
    }
}

pub fn probe_at(abi: AbiVariant, k: usize) -> (p: EntryProbe)
    requires
        k < spec_probe_sequence(abi).len(),
    ensures
        p == spec_probe_sequence(abi)[k as int],
{
    match abi {
        AbiVariant::ComponentV2 => {
            if k == 0 {
                EntryProbe::ComponentRunInterface
            } else if k == 1 {
                EntryProbe::ComponentRunFunction
            } else {
                EntryProbe::ComponentTypedFunction
            }
        },
        AbiVariant::ModulePreview1 => {
            if k == 0 {
                EntryProbe::ModuleDefaultStart
            } else {
                EntryProbe::ModuleNamedStart
            }
        },
    }
}

impl EntryProbe {
    /// The export name the host must look up for this probe, or `None` where
    /// the probe is not a name lookup (the default start export is unmarked,
    /// and typing the run function is a type check, not a lookup).
    pub fn export_name(&self) -> (r: Option<&'static str>)
        ensures
            match *self {
                EntryProbe::ComponentRunInterface => (r matches Some(n) && n@
                    == run_interface_name()),
                EntryProbe::ComponentRunFunction => (r matches Some(n) && n@
                    == run_function_name()),
                EntryProbe::ComponentTypedFunction => r is None,
                EntryProbe::ModuleDefaultStart => r is None,
                EntryProbe::ModuleNamedStart => (r matches Some(n) && n@ == named_start_name()),
            },
    {
        match *self {
            EntryProbe::ComponentRunInterface => Some("wasi:cli/run@0.2.0"),
            EntryProbe::ComponentRunFunction => Some("run"),
            EntryProbe::ComponentTypedFunction => None,
            EntryProbe::ModuleDefaultStart => None,
            EntryProbe::ModuleNamedStart => Some("_start"),
        }
    }
}

} // verus!
