//! Lifecycle rules for one ephemeral KubeVirt virtual machine instance that
//! serves as a GitHub Actions runner: what is handed to the runner inside the
//! machine, how the instance is composed from a template, how its phases are
//! followed to a terminal outcome, and in which order the cluster is asked to
//! look up, delete, create and watch it.

pub mod annotations;
pub mod bootstrap;
pub mod error;
pub mod json;
pub mod orchestrator;
pub mod outcome;
pub mod template;
pub mod tracker;
pub mod volume;
