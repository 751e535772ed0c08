//! Core of a command trigger: it resolves exactly one sandboxed guest
//! artifact, negotiates which of two calling conventions the artifact uses,
//! builds an execution context with the invocation arguments injected, and
//! drives one instantiation and one entry-point invocation to completion.
//!
//! The sandbox engine itself (loading bytes, linking, running guest code) is
//! an external collaborator. The decisions the core makes between those
//! engine steps are ordinary data-to-data functions, and they are what this
//! crate verifies: the host performs each requested [`machine::HostAction`],
//! reports the observed [`machine::HostEvent`], and the verified
//! [`machine::RunMachine`] decides what happens next.

pub mod abi;
pub mod config;
pub mod context;
pub mod entry;
pub mod errors;
pub mod laws;
pub mod machine;
