//! The fatal error kinds of the deployment pipeline.  Recoverable conditions
//! (a failed authentication, an unresolved namespace or service) are not
//! errors: they are ordinary results of the respective steps.

use vstd::prelude::*;

verus! {

/// A fatal error: it aborts the whole run.
#[derive(Debug)]
pub enum DeployError {
    /// A workload references a chart repository that the configuration does
    /// not define.
    ConfigReference { repo_ref: String },
    /// A credential placeholder names an environment variable that the
    /// snapshot does not hold.
    EnvVarMissing { name: String },
}

impl DeployError {
    /// The user-facing description of the error, with its remediation.
    pub fn message(&self) -> (r: String)
        ensures
            match self {
                DeployError::ConfigReference { repo_ref } => r@ == "Helm chart repo '"@
                    + repo_ref@ + "' not specified in config file. Please provide one."@,
                DeployError::EnvVarMissing { name } => r@ == "The env var '"@ + name@
                    + "' is not defined, please provide it via 'export "@ + name@
                    + "=\"<your-desired-value>\"'"@,
            },
    {
        match self {
            DeployError::ConfigReference { repo_ref } => {
                let mut out = "Helm chart repo '".to_owned();
                out.append(repo_ref.as_str());
                out.append("' not specified in config file. Please provide one.");
                out
            },
            DeployError::EnvVarMissing { name } => {
                let mut out = "The env var '".to_owned();
                out.append(name.as_str());
                out.append("' is not defined, please provide it via 'export ");
                out.append(name.as_str());
                out.append("=\"<your-desired-value>\"'");
                out
            },
        }
    }

    /// A field-for-field copy.
    pub fn duplicate(&self) -> (r: Self)
        ensures
            r == *self,
    {
        match self {
            DeployError::ConfigReference { repo_ref } => DeployError::ConfigReference {
                repo_ref: repo_ref.clone(),
            },
            DeployError::EnvVarMissing { name } => DeployError::EnvVarMissing {
                name: name.clone(),
            },
        }
    }
}

} // verus!
