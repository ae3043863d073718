//! The command-line options, as plain data.  Parsing them off the process
//! arguments is the unverified shell's job; the library only consumes the
//! result.

use vstd::prelude::*;

verus! {

/// The parsed command line: the configuration file's location and the chosen
/// subcommand.
pub struct Options {
    pub config: String,
    pub subcommand: SubCommand,
}

/// What the user asked for.
pub enum SubCommand {
    /// Spin up the cluster and deploy the declared workloads.
    Up(Up),
    /// Shut the cluster down.
    Down,
}

/// The options of the `Up` subcommand.
pub struct Up {
    /// Skip the deployment batch and keep the cluster's latest state.
    pub no_deploy: bool,
}

} // verus!
