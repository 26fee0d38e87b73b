use vstd::prelude::*;

verus! {

/// The parsed command line: what the user asked for.
#[derive(Debug)]
pub struct Cli {
    /// Arguments passed to `rails new`.
    pub args: Vec<String>,
    /// The Ruby version of the image (`latest` unless given).
    pub ruby_version: String,
    /// The Rails version to install, if one is pinned.
    pub rails_version: Option<String>,
    /// Whether the image is built without the engine's cache.
    pub rebuild: bool,
    /// A subcommand that replaces the run of `rails new`.
    pub command: Option<Commands>,
}

/// Subcommands.
#[derive(Debug, Clone, Copy, PartialEq, Eq, Structural)]
pub enum Commands {
    /// Prints `rails new --help`.
    RailsHelp,
}

/// The lifted view of an optional string.
pub open spec fn opt_string_view(o: Option<String>) -> Option<Seq<char>> {
    match o {
        Some(s) => Some(s@),
        None => None,
    }
}

impl Cli {
    /// Whether the user asked for the help of `rails new` instead of a run.
    pub open spec fn wants_help(&self) -> bool {
        match self.command {
            Some(Commands::RailsHelp) => true,
            None => false,
        }
    }

    /// The Rails version as an optional string slice.
    pub fn rails_version_str(&self) -> (r: Option<&str>)
        ensures
            match r {
                Some(s) => self.rails_version is Some && s@ == self.rails_version->Some_0@,
                None => self.rails_version is None,
            },
    {
        match &self.rails_version {
            Some(v) => Some(v.as_str()),
            None => None,
        }
    }

    /// Whether the user asked for the help of `rails new` instead of a run.
    pub fn is_help(&self) -> (r: bool)
        ensures
            r == self.wants_help(),
    {
        match self.command {
            Some(Commands::RailsHelp) => true,
            None => false,
        }
    }
}

} // verus!
