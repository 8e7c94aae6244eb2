//! The command line's shape, after parsing.

use vstd::prelude::*;

verus! {

/// The program as cargo sees it: a single external subcommand.
#[derive(Debug)]
pub enum Cargo {
    /// Command to build plugins.
    Input(Input),
}

/// What follows the subcommand's name.
#[derive(Debug)]
pub struct Input {
    pub cmd: JKCommand,
    pub config: Vec<String>,
}

/// The three user flows.
#[derive(Debug)]
pub enum JKCommand {
    /// Build a plugin and package it.
    Build(Build),
    /// Copy a packaged plugin into the host's plugin directory.
    MV(MV),
    /// Build, package and install.
    Install(Install),
}

/// A resolved build request.
#[derive(Debug)]
pub struct Build {
    pub format: Format,
    /// Build artifacts in release mode, with optimizations.
    pub release: bool,
}

/// An install request for one packaged plugin.
#[derive(Debug)]
pub struct MV {
    /// The packaged plugin to install.
    pub src: String,
}

/// A build-and-install request.
#[derive(Debug)]
pub struct Install {
    /// Build artifacts in release mode, with optimizations.
    pub release: bool,
}

/// How the build reports the packaged plugin on standard output.
#[derive(Clone, Copy, Debug, PartialEq, Eq)]
pub enum Format {
    /// One JSON object holding the path.
    Json,
    /// Nothing is printed.
    Silent,
}

/// The operating system whose plugin format is produced. Paths are taken
/// apart and joined by the path rules of the system the library is built
/// for, so a plan is meant to be carried out where `Platform` is the
/// build's own; for the other platform it shows the steps, with paths
/// joined the local way.
#[derive(Clone, Copy, Debug, PartialEq, Eq)]
pub enum Platform {
    MacOs,
    Windows,
}

} // verus!
