//! The Windows packager: the host loads a plugin from one flat file, so
//! packaging is a single rename of the artifact.

use vstd::prelude::*;
use crate::artifact::{BuildArtifact, PackagePlan, PackagedPlugin, PackagingFailed};
use crate::identity::PluginIdentity;
use crate::paths::{join, joined, parent, parent_of};
use crate::steps::{Step, StepView, no_steps, push_step};
use crate::text::with_suffix;

verus! {

/// The artifact's new name: in its own directory, the plugin's name with the
/// host's extension.
pub open spec fn renamed_path(artifact: Seq<char>, name: Seq<char>) -> Seq<char> {
    joined(parent_of(artifact)->0, name + ".aex"@)
}

/// What `package` returns.
pub open spec fn package_meets(
    r: Result<PackagePlan, PackagingFailed>,
    artifact: Seq<char>,
    name: Seq<char>,
) -> bool {
    if parent_of(artifact) is None {
        r == Err::<PackagePlan, PackagingFailed>(PackagingFailed::NoContainingDirectory)
    } else {
        r is Ok && r->Ok_0.output() == renamed_path(artifact, name) && r->Ok_0.steps() == seq![
            StepView::Rename { from: artifact, to: renamed_path(artifact, name) },
        ]
    }
}

/// Plans the packaging of the artifact: one step, which renames it in place.
/// Nothing is copied, so once the step has succeeded the artifact exists
/// under its new name only.
pub fn package(artifact: &BuildArtifact, identity: &PluginIdentity) -> (r: Result<
    PackagePlan,
    PackagingFailed,
>)
    ensures
        package_meets(r, artifact.path@, identity.name()),
{
    let dir = match parent(artifact.path.as_str()) {
        Some(d) => d,
        None => {
            return Err(PackagingFailed::NoContainingDirectory);
        },
    };
    let to = join(dir.as_str(), with_suffix(identity.plugin_name(), ".aex").as_str());
    let mut plan = no_steps();
    push_step(&mut plan, Step::Rename { from: artifact.path.clone(), to: to.clone() });
    Ok(PackagePlan { steps: plan, plugin: PackagedPlugin { path: to } })
}

/// A plan never leaves two files behind: it has one step, which moves the
/// artifact to its new name and copies nothing.
pub proof fn package_is_one_rename(
    r: Result<PackagePlan, PackagingFailed>,
    artifact: Seq<char>,
    name: Seq<char>,
)
    requires
        package_meets(r, artifact, name),
        r is Ok,
    ensures
        r->Ok_0.steps().len() == 1,
        r->Ok_0.steps()[0] is Rename,
        r->Ok_0.steps()[0]->Rename_from == artifact,
        r->Ok_0.steps()[0]->Rename_to == r->Ok_0.output(),
{
}

} // verus!
