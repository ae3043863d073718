//! The cluster manager's side: the argument lists that start the cluster,
//! enable its addons, tear it down and probe whether it runs.

use vstd::prelude::*;

use crate::CommandSpec;
use crate::model::{self, Configuration, config_eq};
use crate::strings::{dec_rep, u64_to_string};

verus! {

/// The processor count handed to the cluster start, defaulting to 4.
pub open spec fn spec_cpus(m: Option<model::Minikube>) -> nat {
    match m {
        Some(mk) => match mk.cpus {
            Some(c) => c as nat,
            None => 4,
        },
        None => 4,
    }
}

/// The memory amount handed to the cluster start, defaulting to 8192.
pub open spec fn spec_memory(m: Option<model::Minikube>) -> nat {
    match m {
        Some(mk) => match mk.memory {
            Some(x) => x as nat,
            None => 8192,
        },
        None => 8192,
    }
}

/// The addons to enable after the cluster start.
pub open spec fn spec_addons(m: Option<model::Minikube>) -> Seq<String> {
    match m {
        Some(mk) => mk.addons@,
        None => Seq::empty(),
    }
}

/// The cluster start's arguments: `start --cpus <n> --memory <n>`.
pub open spec fn spec_start_args(m: Option<model::Minikube>) -> Seq<Seq<char>> {
    seq!["start"@, "--cpus"@, dec_rep(spec_cpus(m)), "--memory"@, dec_rep(spec_memory(m))]
}

/// One addon-enable invocation: `addons enable <addon>`.
pub open spec fn spec_addon_args(addon: Seq<char>) -> Seq<Seq<char>> {
    seq!["addons"@, "enable"@, addon]
}

/// The client of the cluster manager: it owns the configuration and the
/// manager's path, and builds each operation's argument list.
pub struct Minikube {
    pub configuration: Configuration,
    pub minikube_binary_path: String,
}

impl Minikube {
    /// A client over the given configuration and cluster-manager path.
    pub fn new(configuration: &Configuration, minikube_binary_path: &String) -> (r: Self)
        ensures
            config_eq(r.configuration, *configuration),
            r.minikube_binary_path@ == minikube_binary_path@,
    {
        Minikube {
            configuration: configuration.duplicate(),
            minikube_binary_path: minikube_binary_path.clone(),
        }
    }

    /// The bootstrap sequence: the start invocation with its processor and
    /// memory settings, then one addon-enable invocation per declared addon.
    pub fn start_commands(&self) -> (r: Vec<CommandSpec>)
        ensures
            r@.len() == 1 + spec_addons(self.configuration.minikube).len(),
            r@[0].program@ == self.minikube_binary_path@,
            r@[0].args_view() == spec_start_args(self.configuration.minikube),
            forall|i: int|
                1 <= i < r@.len() ==> {
                    &&& (#[trigger] r@[i]).program@ == self.minikube_binary_path@
                    &&& r@[i].args_view() == spec_addon_args(
                        spec_addons(self.configuration.minikube)[i - 1]@,
                    )
                },
    {
        let mut args: Vec<String> = Vec::new();
        args.push("start".to_owned());
        args.push("--cpus".to_owned());
        let cpus: u64 = match &self.configuration.minikube {
            Some(mk) => match mk.cpus {
                Some(c) => c as u64,
                None => 4,
            },
            None => 4,
        };
        args.push(u64_to_string(cpus));
        args.push("--memory".to_owned());
        let memory: u64 = match &self.configuration.minikube {
            Some(mk) => match mk.memory {
                Some(x) => x as u64,
                None => 8192,
            },
            None => 8192,
        };
        args.push(u64_to_string(memory));
        let start = CommandSpec { program: self.minikube_binary_path.clone(), args };
        proof {
            assert(start.args_view() =~= spec_start_args(self.configuration.minikube));
        }
        let mut commands: Vec<CommandSpec> = Vec::new();
        commands.push(start);
        match &self.configuration.minikube {
            Some(mk) => {
                let mut i: usize = 0;
                while i < mk.addons.len()
                    invariant
                        i <= mk.addons@.len(),
                        mk.addons@ == spec_addons(self.configuration.minikube),
                        commands@.len() == 1 + i,
                        commands@[0].program@ == self.minikube_binary_path@,
                        commands@[0].args_view() == spec_start_args(self.configuration.minikube),
                        forall|j: int|
                            1 <= j < commands@.len() ==> {
                                &&& (#[trigger] commands@[j]).program@
                                    == self.minikube_binary_path@
                                &&& commands@[j].args_view() == spec_addon_args(
                                    mk.addons@[j - 1]@,
                                )
                            },
                    decreases mk.addons@.len() - i,
                {
                    let mut addon_args: Vec<String> = Vec::new();
                    addon_args.push("addons".to_owned());
                    addon_args.push("enable".to_owned());
                    addon_args.push(mk.addons[i].clone());
                    let cmd = CommandSpec {
                        program: self.minikube_binary_path.clone(),
                        args: addon_args,
                    };
                    proof {
                        assert(cmd.args_view() =~= spec_addon_args(mk.addons@[i as int]@));
                    }
                    commands.push(cmd);
                    i = i + 1;
                }
                commands
            },
            None => commands,
        }
    }

    /// The teardown invocation: `delete`.
    pub fn cleanup_command(&self) -> (r: CommandSpec)
        ensures
            r.program@ == self.minikube_binary_path@,
            r.args_view() == seq!["delete"@],
    {
        let mut args: Vec<String> = Vec::new();
        args.push("delete".to_owned());
        let r = CommandSpec { program: self.minikube_binary_path.clone(), args };
        proof {
            assert(r.args_view() =~= seq!["delete"@]);
        }
        r
    }

    /// The liveness probe: `status`; the probe's exit status answers whether
    /// the cluster runs.
    pub fn status_command(&self) -> (r: CommandSpec)
        ensures
            r.program@ == self.minikube_binary_path@,
            r.args_view() == seq!["status"@],
    {
        let mut args: Vec<String> = Vec::new();
        args.push("status".to_owned());
        let r = CommandSpec { program: self.minikube_binary_path.clone(), args };
        proof {
            assert(r.args_view() =~= seq!["status"@]);
        }
        r
    }
}

} // verus!
