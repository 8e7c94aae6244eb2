//! What goes into packaging and what comes out of it.

use vstd::prelude::*;
use crate::steps::{Step, StepView, steps_view};

verus! {

/// The freshly compiled shared library.
#[derive(Clone, Debug, PartialEq, Eq)]
pub struct BuildArtifact {
    pub path: String,
}

/// The installable unit: a bundle directory or a single renamed file.
#[derive(Clone, Debug, PartialEq, Eq)]
pub struct PackagedPlugin {
    pub path: String,
}

/// The steps that turn an artifact into a packaged plugin, and the plugin
/// that exists once all of them have succeeded.
#[derive(Clone, Debug, PartialEq, Eq)]
pub struct PackagePlan {
    pub steps: Vec<Step>,
    pub plugin: PackagedPlugin,
}

impl PackagePlan {
    /// The steps, by their views.
    pub open spec fn steps(&self) -> Seq<StepView> {
        steps_view(self.steps@)
    }

    /// The packaged plugin's path.
    pub open spec fn output(&self) -> Seq<char> {
        self.plugin.path@
    }
}

/// Why no packaging plan could be made.
#[derive(Clone, Copy, Debug, PartialEq, Eq)]
pub enum PackagingFailed {
    /// The reported artifact is not on disk.
    ArtifactMissing,
    /// The artifact's path names no containing directory.
    NoContainingDirectory,
    /// The metadata document could not be written.
    MetadataUnwritable,
    /// The build directory has no parent to run the per-architecture builds in.
    NoTargetDirectory,
    /// The artifact's path names no file.
    NoArtifactName,
    /// A rename of the plan failed: the target is locked or the source is
    /// missing.
    RenameFailed,
    /// Another step of the plan failed.
    StepFailed,
}

} // verus!
