//! Rootless, filesystem-isolated sandboxes for a development workspace.
//!
//! The crate clones a child process into fresh user and mount namespaces,
//! maps the invoking user to root inside the child's user namespace, and
//! releases the child through a one-shot rendezvous only once the mapping
//! is committed, so the work handed to the sandbox always runs with full
//! capabilities in its namespaces.

pub mod container;
pub mod mapping;
pub mod outcome;
pub mod paths;
pub mod protocol;
pub mod rendezvous;
