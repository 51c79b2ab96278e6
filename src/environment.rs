//! The settings that a deployment supplies, and the build request they
//! describe for a project.

use vstd::prelude::*;

use crate::paths::{join, join_path};
use crate::process::{is_session_id, BuildDestinations, BuildPlatform, LogBehaviour, ProcessView, UnityProcess};

verus! {

/// The settings of a deployment, as plain values.
pub struct BuildEnvironment {
    /// The directory that holds the project checkouts.
    pub projects_root: String,
    /// Where the engine opens the projects, when that differs.
    pub projects_root_unity: Option<String>,
    /// The directory, relative to a project, under which session roots are made.
    pub telebuild_root: String,
    /// The log directory, relative to a session root.
    pub log_directory: String,
    pub unity_bin: String,
    pub build_entry: String,
    pub keystore_password: String,
    pub log_to_stdout: bool,
    pub destinations: BuildDestinations,
}

pub open spec fn spec_log_behaviour_for(log_to_stdout: bool) -> LogBehaviour {
    if log_to_stdout {
        LogBehaviour::StdoutFile
    } else {
        LogBehaviour::File
    }
}

/// Output goes to the log file, and also to the console when asked.
pub fn log_behaviour_for(log_to_stdout: bool) -> (r: LogBehaviour)
    ensures
        r == spec_log_behaviour_for(log_to_stdout),
{
    if log_to_stdout {
        LogBehaviour::StdoutFile
    } else {
        LogBehaviour::File
    }
}

impl BuildEnvironment {
    /// What the builder of `project_name` holds after `process_for`.
    pub open spec fn spec_process_for(&self, project_name: Seq<char>, p: ProcessView) -> bool {
        &&& p.bin_path == Some(self.unity_bin@)
        &&& p.platform == Some(BuildPlatform::AndroidDevelopment)
        &&& p.log_behavior == Some(spec_log_behaviour_for(self.log_to_stdout))
        &&& p.project_path == Some(join_path(self.projects_root@, project_name))
        &&& p.project_path_unity == (match self.projects_root_unity {
            Some(u) => Some(join_path(u@, project_name)),
            None => None,
        })
        &&& p.script_build_entry == Some(self.build_entry@)
        &&& p.keystore_password == Some(self.keystore_password@)
        &&& p.telebuild_root == Some(self.telebuild_root@)
        &&& p.log_directory == Some(self.log_directory@)
        &&& p.envs == Seq::<(Seq<char>, Seq<char>)>::empty()
        &&& is_session_id(p.uuid)
    }

    /// A builder, with a fresh identifier, for a development build of the
    /// project named `project_name`.
    pub fn process_for(&self, project_name: &str) -> (r: UnityProcess)
        ensures
            self.spec_process_for(project_name@, r@),
    {
        let mut process = UnityProcess::new();
        process.set_bin(self.unity_bin.clone()).set_log_behavior(
            log_behaviour_for(self.log_to_stdout),
        ).set_platform(BuildPlatform::AndroidDevelopment).set_project_path(
            join(self.projects_root.as_str(), project_name),
        ).set_build_entry(self.build_entry.clone()).set_keystore_password(
            self.keystore_password.clone(),
        ).set_telebuild_root(self.telebuild_root.clone()).set_log_directory(
            self.log_directory.clone(),
        );
        match &self.projects_root_unity {
            Some(u) => {
                process.set_project_path_unity(join(u.as_str(), project_name));
            },
            None => {},
        }
        process
    }
}

} // verus!
