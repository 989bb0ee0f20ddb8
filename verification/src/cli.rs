//! The command line of the `fusion` tool, as plain data. The application
//! parses arguments into these values.

use vstd::prelude::*;

verus! {

/// The parsed command line.
pub struct Cli {
    pub command: Commands,
}

/// The subcommands of `fusion`.
pub enum Commands {
    /// Create a new Fusion Framework project.
    Init {
        directory: Option<String>,
        lang: Option<String>,
        name: Option<String>,
        description: Option<String>,
    },
    /// Run a command declared in an environment file.
    Command {
        name: Option<String>,
        env: Option<String>,
        dev: bool,
        stage: bool,
        prod: bool,
    },
    /// Scaffold or manage publishable Fusion modules.
    Module { command: ModuleCommands },
    /// Add a module from GitHub into the current project.
    Add { github: Option<String> },
    /// Upgrade fusion to the latest release.
    Update,
}

/// The subcommands of `fusion module`.
pub enum ModuleCommands {
    /// Create a publishable Fusion module package.
    Init {
        directory: Option<String>,
        lang: Option<String>,
        name: Option<String>,
        description: Option<String>,
    },
}

} // verus!
