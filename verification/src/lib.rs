//! Deployment pipeline and port-forward supervision for a local
//! Kubernetes-style development environment.
//!
//! The crate holds the decision logic of the tool: resolving credential
//! placeholders against an environment snapshot, building the argument lists
//! of the external cluster, chart and query tools, sequencing the per-workload
//! deployment steps, and driving the per-workload port-forward workers.
//! Running the external commands, the threads and the interrupt handler is
//! left to a thin unverified shell around this library.

use vstd::prelude::*;

pub mod cli;
pub mod env;
pub mod errors;
pub mod helm;
pub mod kubectl;
pub mod minikube;
pub mod model;
pub mod orchestrator;
pub mod outside;
pub mod strings;

verus! {

/// An argument list for one invocation of an external tool.
pub struct CommandSpec {
    /// Absolute path of the binary to invoke.
    pub program: String,
    /// Arguments handed to the binary, in order.
    pub args: Vec<String>,
}

impl CommandSpec {
    /// The sequence of argument views, for use in contracts.
    pub open spec fn args_view(&self) -> Seq<Seq<char>> {
        self.args@.map_values(|a: String| a@)
    }
}

} // verus!
