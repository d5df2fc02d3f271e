//! The command line: global flags and the subcommand, and which operation
//! a parsed command line runs.

use vstd::prelude::*;

verus! {

/// The parsed command line.
pub struct Cli {
    /// Show what would happen without making changes.
    pub dry_run: bool,
    /// Verbose output.
    pub verbose: bool,
    pub command: Commands,
}

/// The subcommands.
#[derive(Debug, Clone, Copy, PartialEq, Eq, Structural)]
pub enum Commands {
    /// Show what versions would be bumped (dry run).
    Check,
    /// Bump versions, update changelogs, create tags and push.
    Release,
    /// Generate/update CHANGELOG.md only.
    Changelog,
    /// Scaffold a ferrflow.toml configuration file.
    Init,
}

/// The operation a command line runs, with the flags that it takes.
#[derive(Debug, Clone, Copy, PartialEq, Eq, Structural)]
pub enum Operation {
    /// Check the monorepo, verbosely or not.
    Check { verbose: bool },
    /// Release, as a dry run or not, verbosely or not.
    Release { dry_run: bool, verbose: bool },
    /// Regenerate the changelog only, as a dry run or not.
    Changelog { dry_run: bool },
    /// Scaffold the configuration file.
    Init,
}

/// Which operation a command line runs: each subcommand gets the global
/// flags it uses (`check` the verbosity, `release` both, `changelog` the
/// dry-run flag, `init` none).
pub open spec fn operation_of(cli: Cli) -> Operation {
    match cli.command {
        Commands::Check => Operation::Check { verbose: cli.verbose },
        Commands::Release => Operation::Release { dry_run: cli.dry_run, verbose: cli.verbose },
        Commands::Changelog => Operation::Changelog { dry_run: cli.dry_run },
        Commands::Init => Operation::Init,
    }
}

impl Cli {
    /// The operation this command line runs.
    pub fn run(self) -> (res: Operation)
        ensures
            res == operation_of(self),
    {
        match self.command {
            Commands::Check => Operation::Check { verbose: self.verbose },
            Commands::Release => Operation::Release { dry_run: self.dry_run, verbose: self.verbose },
            Commands::Changelog => Operation::Changelog { dry_run: self.dry_run },
            Commands::Init => Operation::Init,
        }
    }
}

} // verus!
