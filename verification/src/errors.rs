//! The failure taxonomy of a run. Every error carries the identifier of the
//! guest it concerns; where two load attempts both failed, both causes are
//! kept, never only the last one. Nothing here is retried: guest execution
//! may have had side effects, so the host reports the outcome upward instead.

use vstd::prelude::*;
use crate::abi::AbiVariant;
use crate::entry::EntryProbe;

verus! {

/// One failed load attempt: which ABI was tried and the loader's message.
#[derive(Clone, Debug)]
pub struct LoadFailure {
    pub abi: AbiVariant,
    pub detail: String,
}

/// How a guest that started running failed: it reported a failure result
/// through the run capability, or it trapped. Both are distinct from
/// engine-level faults before the guest ran.
#[derive(Clone, Copy, Debug, PartialEq, Eq, Structural)]
pub enum GuestFailureKind {
    Reported,
    Trapped,
}

/// Why a run failed.
#[derive(Clone, Debug)]
pub enum TriggerError {
    /// The trigger configuration names no guest at all.
    NoGuestConfigured,
    /// The artifact bytes were loadable under none of the attempted ABIs.
    /// `causes` keeps one entry per attempted load path.
    ArtifactLoad { guest: String, causes: Vec<LoadFailure> },
    /// The sandbox rejected the capability or argument wiring.
    ContextBuild { guest: String, detail: String },
    /// The sandbox failed to link or initialize the instance.
    Instantiation { guest: String, detail: String },
    /// The artifact loaded under its ABI but exposes no expected entry point;
    /// `missing` lists the probes that failed. A configuration-class error.
    EntryPointNotFound { guest: String, abi: AbiVariant, missing: Vec<EntryProbe> },
    /// The guest ran and reported failure or trapped.
    GuestExecution { guest: String, kind: GuestFailureKind, detail: String },
}

/// What one invocation came to: success, or a structured failure.
#[derive(Clone, Debug)]
pub enum InvocationOutcome {
    Success,
    Failure(TriggerError),
}

} // verus!
