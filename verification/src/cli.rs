//! The options of the `new-script` command, as plain values.

use vstd::prelude::*;

verus! {

/// What the user asked for.
#[derive(Debug, Clone, PartialEq, Eq)]
pub struct NewScriptArgs {
    /// Name of the new script, with or without the `.rs` extension.
    pub script_name: String,
    /// Leave the embedded manifest out.
    pub no_frontmatter: bool,
    /// Leave the shebang line out.
    pub no_shebang: bool,
    /// Replace the target file if it exists.
    pub overwrite: bool,
    /// Path of an existing single-file program to import.
    pub template: Option<String>,
    /// Drop the dependencies that the template does not use.
    pub prune_dependencies: bool,
    /// Write a shebang line for the stable toolchain.
    pub stable: bool,
    /// Do not pass `--quiet` in the shebang line.
    pub verbose_script: bool,
    /// Add a development profile tuned like a release build.
    pub release: bool,
}

/// The command line: `cargo new-script ...`.
#[derive(Debug, Clone, PartialEq, Eq)]
pub enum NewScriptCli {
    NewScript(NewScriptArgs),
}

impl NewScriptCli {
    /// The options of the one subcommand.
    pub fn args(self) -> (args: NewScriptArgs)
        ensures
            self == NewScriptCli::NewScript(args),
    {
        match self {
            NewScriptCli::NewScript(args) => args,
        }
    }
}

} // verus!
