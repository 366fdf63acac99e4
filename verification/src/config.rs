//! The project configuration kept in `.bones/bones.toml`, and the
//! command line of the `gitbones` tool.
use vstd::prelude::*;

verus! {

/// The `[data]` table: where the project is deployed.
pub struct Data {
    pub remote_name: String,
    pub project_name: String,
    pub host: String,
    pub port: String,
    pub git_dir: String,
    pub worktree: String,
    pub branch: String,
}

/// The `[permissions.defaults]` table: who owns the deployed files and
/// the modes they get.
pub struct PermissionDefaults {
    /// The SSH user that runs the deployment.
    pub deploy: String,
    /// The service user that owns the files once deployed.
    pub owner: String,
    pub group: String,
    /// Octal mode for directories, such as `"750"`.
    pub dir_mode: String,
    /// Octal mode for files, such as `"640"`.
    pub file_mode: String,
}

/// One `[[permissions.paths]]` entry: a mode for a path under the
/// worktree.
pub struct PathOverride {
    pub path: String,
    pub mode: String,
    pub recursive: bool,
    /// The `type` key: `"dir"` or `"file"` when given.
    pub path_type: Option<String>,
}

/// The `[permissions]` table.
pub struct Permissions {
    pub defaults: PermissionDefaults,
    pub paths: Vec<PathOverride>,
}

/// The whole of `bones.toml`.
pub struct BonesConfig {
    pub data: Data,
    pub permissions: Permissions,
}

/// A subcommand of `gitbones`.
pub enum Command {
    /// Set up gitbones in the current repository.
    Init,
    /// Check local and remote environment health; `local` skips the
    /// remote checks.
    Doctor { local: bool },
    /// Sync `.bones/` to the remote bare repository.
    Push,
    /// Re-run the deployment hooks without pushing.
    Redeploy,
    /// Print the version.
    Version,
}

/// The parsed command line of `gitbones`.
pub struct Cli {
    pub command: Command,
}

} // verus!
