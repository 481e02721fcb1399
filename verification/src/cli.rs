use vstd::prelude::*;
use crate::resolve::text_view;

verus! {

/// The command line, parsed.
#[derive(Debug, Clone, PartialEq, Eq)]
pub struct Cli {
    pub command: Commands,
}

/// The two subcommands with their flags and arguments.
#[derive(Debug, Clone, PartialEq, Eq)]
pub enum Commands {
    /// Builds the project.
    Build {
        /// Whether to build with the release profile.
        release: bool,
        /// A path to the project, or the name of a package.
        package: Option<String>,
    },
    /// Builds the project, packs it and installs the archive.
    Pack {
        /// Whether to build with the release profile.
        release: bool,
        /// Whether to stop after packing, without installing the archive.
        no_copy: bool,
        /// A path to the project, or the name of a package.
        package: Option<String>,
        /// The directory to install into, in place of the default.
        destination_path: Option<String>,
    },
}

impl Commands {
    /// Whether the release profile was asked for.
    pub fn release(&self) -> (release: bool)
        ensures
            release == match *self {
                Commands::Build { release, .. } => release,
                Commands::Pack { release, .. } => release,
            },
    {
        match self {
            Commands::Build { release, .. } => *release,
            Commands::Pack { release, .. } => *release,
        }
    }

    /// The path-or-package argument.
    pub fn package(&self) -> (package: Option<String>)
        ensures
            text_view(package) == match *self {
                Commands::Build { package, .. } => text_view(package),
                Commands::Pack { package, .. } => text_view(package),
            },
    {
        match self {
            Commands::Build { package, .. } => match package {
                Some(p) => Some(p.clone()),
                None => None,
            },
            Commands::Pack { package, .. } => match package {
                Some(p) => Some(p.clone()),
                None => None,
            },
        }
    }

    /// Whether the command goes on, after the build, to pack the project:
    /// `Pack` always does.
    pub fn packs(&self) -> (packs: bool)
        ensures
            packs == match *self {
                Commands::Build { .. } => false,
                Commands::Pack { .. } => true,
            },
    {
        match self {
            Commands::Build { .. } => false,
            Commands::Pack { .. } => true,
        }
    }

    /// Whether the command installs the archive that it packed: `Pack` does
    /// unless it is told not to copy.
    pub fn installs(&self) -> (installs: bool)
        ensures
            installs == match *self {
                Commands::Build { .. } => false,
                Commands::Pack { no_copy, .. } => !no_copy,
            },
    {
        match self {
            Commands::Build { .. } => false,
            Commands::Pack { no_copy, .. } => !*no_copy,
        }
    }

    /// The directory to install into, where one was given.
    pub fn destination(&self) -> (destination: Option<String>)
        ensures
            text_view(destination) == match *self {
                Commands::Build { .. } => None,
                Commands::Pack { destination_path, .. } => text_view(destination_path),
            },
    {
        match self {
            Commands::Build { .. } => None,
            Commands::Pack { destination_path, .. } => match destination_path {
                Some(p) => Some(p.clone()),
                None => None,
            },
        }
    }
}

} // verus!
