//! Planning core of a build-and-package pipeline for host-application plugins.
//!
//! The library decides; its caller acts. Every function here maps plain
//! values (paths as strings, captured process output, exit statuses) to plain
//! values (command lines to launch, filesystem steps to perform, exit codes),
//! and each states in its contract exactly what it returns.

pub mod aex;
pub mod arguments;
pub mod artifact;
pub mod builder;
pub mod bundle;
pub mod command;
pub mod identity;
pub mod install;
pub mod json;
pub mod manifest;
pub mod metadata;
pub mod package;
pub mod paths;
pub mod pipeline;
pub mod runner;
pub mod steps;
pub mod text;
