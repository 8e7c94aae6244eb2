//! The post-build dispatcher: picks the platform's packager.

use vstd::prelude::*;
use crate::aex::{package, package_meets};
use crate::artifact::{BuildArtifact, PackagePlan, PackagingFailed};
use crate::bundle::{assemble, assemble_meets};
use crate::command::{Build, Platform};
use crate::identity::PluginIdentity;

verus! {

/// What `post_build_process` returns. An artifact that is not on disk is
/// never packaged; one that is goes to the platform's packager.
pub open spec fn packaging_meets(
    r: Result<PackagePlan, PackagingFailed>,
    platform: Platform,
    release: bool,
    artifact: Seq<char>,
    on_disk: bool,
    package: Seq<char>,
    name: Seq<char>,
    identifier: Seq<char>,
) -> bool {
    if !on_disk {
        r == Err::<PackagePlan, PackagingFailed>(PackagingFailed::ArtifactMissing)
    } else {
        match platform {
            Platform::MacOs => assemble_meets(r, artifact, package, name, identifier, release),
            Platform::Windows => package_meets(r, artifact, name),
        }
    }
}

/// Plans the packaging of a built artifact for `platform`. `on_disk` says
/// whether the caller found the artifact at `filename`; where it did not,
/// no plan is made.
pub fn post_build_process(
    platform: Platform,
    build: &Build,
    filename: &str,
    on_disk: bool,
    package_name: &str,
    identity: &PluginIdentity,
) -> (r: Result<PackagePlan, PackagingFailed>)
    ensures
        packaging_meets(
            r,
            platform,
            build.release,
            filename@,
            on_disk,
            package_name@,
            identity.name(),
            identity.identifier(),
        ),
{
    if !on_disk {
        return Err(PackagingFailed::ArtifactMissing);
    }
    let artifact = BuildArtifact { path: String::from_str(filename) };
    match platform {
        Platform::MacOs => assemble(&artifact, package_name, identity, build.release),
        Platform::Windows => package(&artifact, identity),
    }
}

} // verus!
