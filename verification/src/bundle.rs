//! The macOS bundle assembler: from an artifact and an identity to the
//! ordered steps that build a signed bundle directory.

use vstd::prelude::*;
use crate::artifact::{BuildArtifact, PackagePlan, PackagedPlugin, PackagingFailed};
use crate::identity::PluginIdentity;
use crate::metadata::{info_entries, info_plist, plist_xml};
use crate::paths::{file_name, file_name_of, join, joined, parent, parent_of};
use crate::runner::{follows, Decision};
use crate::steps::{Step, StepView, no_args, no_steps, push_run, push_step, run_view, steps_view};
use crate::text::{
    hyphens_to_underscores, lowercased, push_text, texts, to_lowercase, underscored, with_suffix,
};

verus! {

/// The eight bytes of the legacy type and creator marker.
pub open spec fn pkg_info() -> Seq<u8> {
    seq![101u8, 70u8, 75u8, 84u8, 70u8, 88u8, 84u8, 67u8]
}

/// The directory that holds the artifact.
pub open spec fn build_dir(artifact: Seq<char>) -> Seq<char> {
    parent_of(artifact)->0
}

/// The directory above the build directory, under which each architecture
/// has an output directory of its own.
pub open spec fn target_dir(artifact: Seq<char>) -> Seq<char> {
    parent_of(build_dir(artifact))->0
}

/// The bundle's root: beside the artifact, named after the plugin.
pub open spec fn bundle_root(artifact: Seq<char>, name: Seq<char>) -> Seq<char> {
    joined(build_dir(artifact), name + ".plugin"@)
}

/// The bundle's resources area.
pub open spec fn resources_dir(artifact: Seq<char>, name: Seq<char>) -> Seq<char> {
    joined(bundle_root(artifact, name), "Contents/Resources"@)
}

/// The bundle's executable area.
pub open spec fn executable_dir(artifact: Seq<char>, name: Seq<char>) -> Seq<char> {
    joined(bundle_root(artifact, name), "Contents/MacOS"@)
}

/// Where the release build for `arch` puts its output.
pub open spec fn arch_dir(artifact: Seq<char>, arch: Seq<char>) -> Seq<char> {
    joined(joined(target_dir(artifact), arch), "release"@)
}

/// The library's base name as the toolchain derives it from the package's.
pub open spec fn binary_name(package: Seq<char>) -> Seq<char> {
    underscored(lowercased(package))
}

/// The ad-hoc signing of the bundle, with hardened runtime and secure
/// timestamp.
pub open spec fn sign_step(root: Seq<char>) -> StepView {
    run_view(
        "codesign"@,
        seq!["--options"@, "runtime"@, "--timestamp"@, "-strict"@, "--sign"@, "-"@, root],
        None,
    )
}

/// Installs the toolchain's support for `arch`.
pub open spec fn add_target_step(arch: Seq<char>) -> StepView {
    run_view("rustup"@, seq!["target"@, "add"@, arch], None)
}

/// Builds the library for `arch`, in release mode, from the target directory.
pub open spec fn arch_build_step(artifact: Seq<char>, arch: Seq<char>) -> StepView {
    run_view(
        "cargo"@,
        seq!["build"@, "--release"@, "--target"@, arch],
        Some(target_dir(artifact)),
    )
}

/// Merges the two architectures' libraries into one universal binary.
pub open spec fn merge_step(artifact: Seq<char>, name: Seq<char>) -> StepView {
    run_view(
        "lipo"@,
        seq![
            joined(arch_dir(artifact, "x86_64-apple-darwin"@), file_name_of(artifact)->0),
            joined(arch_dir(artifact, "aarch64-apple-darwin"@), file_name_of(artifact)->0),
            "-create"@,
            "-output"@,
            joined(executable_dir(artifact, name), name + ".dylib"@),
        ],
        None,
    )
}

/// The steps of a debug assembly.
pub open spec fn debug_steps(
    artifact: Seq<char>,
    package: Seq<char>,
    name: Seq<char>,
    plist: Seq<u8>,
) -> Seq<StepView> {
    seq![
        StepView::RemoveTree { path: bundle_root(artifact, name) },
        StepView::CreateDirs { path: resources_dir(artifact, name) },
        StepView::CreateDirs { path: executable_dir(artifact, name) },
        StepView::WriteFile {
            path: joined(bundle_root(artifact, name), "Contents/PkgInfo"@),
            contents: pkg_info(),
        },
        StepView::WriteFile {
            path: joined(bundle_root(artifact, name), "Contents/Info.plist"@),
            contents: plist,
        },
        StepView::CopyFile {
            from: joined(build_dir(artifact), package + ".rsrc"@),
            to: joined(resources_dir(artifact, name), name + ".rsrc"@),
        },
        StepView::CopyFile { from: artifact, to: joined(executable_dir(artifact, name), name) },
        sign_step(bundle_root(artifact, name)),
    ]
}

/// The steps of a release assembly.
pub open spec fn release_steps(
    artifact: Seq<char>,
    package: Seq<char>,
    name: Seq<char>,
    plist: Seq<u8>,
) -> Seq<StepView> {
    seq![
        StepView::RemoveTree { path: bundle_root(artifact, name) },
        StepView::CreateDirs { path: resources_dir(artifact, name) },
        StepView::CreateDirs { path: executable_dir(artifact, name) },
        StepView::WriteFile {
            path: joined(bundle_root(artifact, name), "Contents/PkgInfo"@),
            contents: pkg_info(),
        },
        StepView::WriteFile {
            path: joined(bundle_root(artifact, name), "Contents/Info.plist"@),
            contents: plist,
        },
        add_target_step("aarch64-apple-darwin"@),
        add_target_step("x86_64-apple-darwin"@),
        arch_build_step(artifact, "x86_64-apple-darwin"@),
        arch_build_step(artifact, "aarch64-apple-darwin"@),
        StepView::CopyFile {
            from: joined(
                arch_dir(artifact, "x86_64-apple-darwin"@),
                binary_name(package) + ".rsrc"@,
            ),
            to: joined(resources_dir(artifact, name), name + ".rsrc"@),
        },
        merge_step(artifact, name),
        StepView::Rename {
            from: joined(executable_dir(artifact, name), name + ".dylib"@),
            to: joined(executable_dir(artifact, name), name),
        },
        sign_step(bundle_root(artifact, name)),
    ]
}

/// The steps of an assembly, by mode.
pub open spec fn bundle_steps(
    artifact: Seq<char>,
    package: Seq<char>,
    name: Seq<char>,
    plist: Seq<u8>,
    release: bool,
) -> Seq<StepView> {
    if release {
        release_steps(artifact, package, name, plist)
    } else {
        debug_steps(artifact, package, name, plist)
    }
}

/// Why the artifact's path admits no assembly in the given mode, if it does
/// not. A debug assembly needs only the containing directory.
pub open spec fn layout_defect(artifact: Seq<char>, release: bool) -> Option<PackagingFailed> {
    if parent_of(artifact) is None {
        Some(PackagingFailed::NoContainingDirectory)
    } else if release && parent_of(build_dir(artifact)) is None {
        Some(PackagingFailed::NoTargetDirectory)
    } else if release && file_name_of(artifact) is None {
        Some(PackagingFailed::NoArtifactName)
    } else {
        None
    }
}

/// What an assembly with the given metadata document returns.
pub open spec fn assembly_meets(
    r: Result<PackagePlan, PackagingFailed>,
    artifact: Seq<char>,
    package: Seq<char>,
    name: Seq<char>,
    plist: Seq<u8>,
    release: bool,
) -> bool {
    match layout_defect(artifact, release) {
        Some(e) => r == Err::<PackagePlan, PackagingFailed>(e),
        None => r is Ok && r->Ok_0.steps() == bundle_steps(artifact, package, name, plist, release)
            && r->Ok_0.output() == bundle_root(artifact, name),
    }
}

fn marker_bytes() -> (r: Vec<u8>)
    ensures
        r@ == pkg_info(),
{
    let mut r: Vec<u8> = Vec::new();
    r.push(101u8);
    r.push(70u8);
    r.push(75u8);
    r.push(84u8);
    r.push(70u8);
    r.push(88u8);
    r.push(84u8);
    r.push(67u8);
    r
}

fn push_sign(plan: &mut Vec<Step>, root: &str)
    ensures
        steps_view(final(plan)@) == steps_view(old(plan)@).push(sign_step(root@)),
{
    let mut args = no_args();
    push_text(&mut args, "--options");
    push_text(&mut args, "runtime");
    push_text(&mut args, "--timestamp");
    push_text(&mut args, "-strict");
    push_text(&mut args, "--sign");
    push_text(&mut args, "-");
    push_text(&mut args, root);
    assert(texts(args@) =~= seq![
        "--options"@,
        "runtime"@,
        "--timestamp"@,
        "-strict"@,
        "--sign"@,
        "-"@,
        root@,
    ]);
    push_run(plan, "codesign", args, None);
}

fn push_add_target(plan: &mut Vec<Step>, arch: &str)
    ensures
        steps_view(final(plan)@) == steps_view(old(plan)@).push(add_target_step(arch@)),
{
    let mut args = no_args();
    push_text(&mut args, "target");
    push_text(&mut args, "add");
    push_text(&mut args, arch);
    assert(texts(args@) =~= seq!["target"@, "add"@, arch@]);
    push_run(plan, "rustup", args, None);
}

fn push_arch_build(plan: &mut Vec<Step>, target: &str, arch: &str)
    ensures
        steps_view(final(plan)@) == steps_view(old(plan)@).push(
            run_view(
                "cargo"@,
                seq!["build"@, "--release"@, "--target"@, arch@],
                Some(target@),
            ),
        ),
{
    let mut args = no_args();
    push_text(&mut args, "build");
    push_text(&mut args, "--release");
    push_text(&mut args, "--target");
    push_text(&mut args, arch);
    assert(texts(args@) =~= seq!["build"@, "--release"@, "--target"@, arch@]);
    push_run(plan, "cargo", args, Some(String::from_str(target)));
}

/// Appends the steps common to both modes: clear the stale bundle, create the
/// two areas, write the marker and the metadata.
fn push_skeleton(plan: &mut Vec<Step>, root: &str, resources: &str, executables: &str, plist: Vec<u8>)
    ensures
        steps_view(final(plan)@) == steps_view(old(plan)@).push(
            StepView::RemoveTree { path: root@ },
        ).push(StepView::CreateDirs { path: resources@ }).push(
            StepView::CreateDirs { path: executables@ },
        ).push(
            StepView::WriteFile { path: joined(root@, "Contents/PkgInfo"@), contents: pkg_info() },
        ).push(StepView::WriteFile { path: joined(root@, "Contents/Info.plist"@), contents: plist@ }),
{
    push_step(plan, Step::RemoveTree { path: String::from_str(root) });
    push_step(plan, Step::CreateDirs { path: String::from_str(resources) });
    push_step(plan, Step::CreateDirs { path: String::from_str(executables) });
    push_step(
        plan,
        Step::WriteFile { path: join(root, "Contents/PkgInfo"), contents: marker_bytes() },
    );
    push_step(plan, Step::WriteFile { path: join(root, "Contents/Info.plist"), contents: plist });
}

/// Plans the assembly of the bundle around a metadata document already
/// written: fails exactly where the artifact's path has a layout defect, and
/// otherwise returns the steps of the mode, in order, and the bundle's root.
pub fn assemble_with(
    artifact: &BuildArtifact,
    package_name: &str,
    identity: &PluginIdentity,
    release: bool,
    plist: Vec<u8>,
) -> (r: Result<PackagePlan, PackagingFailed>)
    ensures
        assembly_meets(r, artifact.path@, package_name@, identity.name(), plist@, release),
{
    let name = identity.plugin_name();
    let dir = match parent(artifact.path.as_str()) {
        Some(d) => d,
        None => {
            return Err(PackagingFailed::NoContainingDirectory);
        },
    };
    let root = join(dir.as_str(), with_suffix(name, ".plugin").as_str());
    let resources = join(root.as_str(), "Contents/Resources");
    let executables = join(root.as_str(), "Contents/MacOS");
    let resource_to = join(resources.as_str(), with_suffix(name, ".rsrc").as_str());
    let mut plan = no_steps();
    let ghost plist_view = plist@;
    if release {
        let target = match parent(dir.as_str()) {
            Some(t) => t,
            None => {
                return Err(PackagingFailed::NoTargetDirectory);
            },
        };
        let library = match file_name(artifact.path.as_str()) {
            Some(n) => n,
            None => {
                return Err(PackagingFailed::NoArtifactName);
            },
        };
        let x86_64 = "x86_64-apple-darwin";
        let aarch64 = "aarch64-apple-darwin";
        let x86_64_out = join(join(target.as_str(), x86_64).as_str(), "release");
        let aarch64_out = join(join(target.as_str(), aarch64).as_str(), "release");
        let binary = hyphens_to_underscores(to_lowercase(package_name).as_str());
        let merged = join(executables.as_str(), with_suffix(name, ".dylib").as_str());
        push_skeleton(&mut plan, root.as_str(), resources.as_str(), executables.as_str(), plist);
        push_add_target(&mut plan, aarch64);
        push_add_target(&mut plan, x86_64);
        push_arch_build(&mut plan, target.as_str(), x86_64);
        push_arch_build(&mut plan, target.as_str(), aarch64);
        push_step(
            &mut plan,
            Step::CopyFile {
                from: join(x86_64_out.as_str(), with_suffix(binary.as_str(), ".rsrc").as_str()),
                to: resource_to,
            },
        );
        let mut args = no_args();
        push_text(&mut args, join(x86_64_out.as_str(), library.as_str()).as_str());
        push_text(&mut args, join(aarch64_out.as_str(), library.as_str()).as_str());
        push_text(&mut args, "-create");
        push_text(&mut args, "-output");
        push_text(&mut args, merged.as_str());
        assert(texts(args@) =~= seq![
            joined(x86_64_out@, library@),
            joined(aarch64_out@, library@),
            "-create"@,
            "-output"@,
            merged@,
        ]);
        push_run(&mut plan, "lipo", args, None);
        push_step(&mut plan, Step::Rename { from: merged, to: join(executables.as_str(), name) });
        push_sign(&mut plan, root.as_str());
        assert(steps_view(plan@) =~= release_steps(
            artifact.path@,
            package_name@,
            identity.name(),
            plist_view,
        ));
    } else {
        push_skeleton(&mut plan, root.as_str(), resources.as_str(), executables.as_str(), plist);
        push_step(
            &mut plan,
            Step::CopyFile {
                from: join(dir.as_str(), with_suffix(package_name, ".rsrc").as_str()),
                to: resource_to,
            },
        );
        push_step(
            &mut plan,
            Step::CopyFile {
                from: artifact.path.clone(),
                to: join(executables.as_str(), name),
            },
        );
        push_sign(&mut plan, root.as_str());
        assert(steps_view(plan@) =~= debug_steps(
            artifact.path@,
            package_name@,
            identity.name(),
            plist_view,
        ));
    }
    Ok(PackagePlan { steps: plan, plugin: PackagedPlugin { path: root } })
}

/// What `assemble` returns: without a metadata document nothing is planned;
/// with one, what `assemble_with` returns for it.
pub open spec fn assemble_meets(
    r: Result<PackagePlan, PackagingFailed>,
    artifact: Seq<char>,
    package: Seq<char>,
    name: Seq<char>,
    identifier: Seq<char>,
    release: bool,
) -> bool {
    match plist_xml(info_entries(identifier)) {
        None => r == Err::<PackagePlan, PackagingFailed>(PackagingFailed::MetadataUnwritable),
        Some(plist) => assembly_meets(r, artifact, package, name, plist, release),
    }
}

/// Plans the assembly of the bundle for `identity`: writes the metadata
/// document that declares the bundle's type, signature and identifier, and
/// plans the steps around it.
pub fn assemble(
    artifact: &BuildArtifact,
    package_name: &str,
    identity: &PluginIdentity,
    release: bool,
) -> (r: Result<PackagePlan, PackagingFailed>)
    ensures
        assemble_meets(
            r,
            artifact.path@,
            package_name@,
            identity.name(),
            identity.identifier(),
            release,
        ),
{
    match info_plist(identity) {
        Some(plist) => assemble_with(artifact, package_name, identity, release, plist),
        None => Err(PackagingFailed::MetadataUnwritable),
    }
}

/// The marker is the package type followed by the signature, as the
/// metadata declares them, one byte for each character.
pub proof fn marker_is_type_then_signature()
    ensures
        pkg_info().len() == 8,
        forall|i: int| 0 <= i < 4 ==> #[trigger] pkg_info()[i] == "eFKT"@[i] as u8,
        forall|i: int| 0 <= i < 4 ==> #[trigger] pkg_info()[4 + i] == "FXTC"@[i] as u8,
{
    reveal_strlit("eFKT");
    reveal_strlit("FXTC");
    assert forall|i: int| 0 <= i < 4 implies #[trigger] pkg_info()[4 + i] == "FXTC"@[i] as u8 by {
        if i == 0 {
        } else if i == 1 {
        } else if i == 2 {
        } else {
        }
    }
}

/// Every assembly starts afresh: in either mode the first step clears the
/// bundle's root, and the last one signs it.
pub proof fn bundle_is_recreated(
    artifact: Seq<char>,
    package: Seq<char>,
    name: Seq<char>,
    plist: Seq<u8>,
    release: bool,
)
    ensures
        bundle_steps(artifact, package, name, plist, release).first() == (StepView::RemoveTree {
            path: bundle_root(artifact, name),
        }),
        bundle_steps(artifact, package, name, plist, release).last() == sign_step(
            bundle_root(artifact, name),
        ),
{
}

/// Assembly is repeatable: two plans made from the same inputs agree on
/// whether there is a plan, on every step of it, and on the bundle's root.
pub proof fn assembly_is_repeatable(
    first: Result<PackagePlan, PackagingFailed>,
    second: Result<PackagePlan, PackagingFailed>,
    artifact: Seq<char>,
    package: Seq<char>,
    name: Seq<char>,
    identifier: Seq<char>,
    release: bool,
)
    requires
        assemble_meets(first, artifact, package, name, identifier, release),
        assemble_meets(second, artifact, package, name, identifier, release),
    ensures
        first is Ok <==> second is Ok,
        first is Err ==> first->Err_0 == second->Err_0,
        first is Ok ==> first->Ok_0.steps() == second->Ok_0.steps() && first->Ok_0.output()
            == second->Ok_0.output(),
{
}

/// Where the build for x86-64 stands in a release assembly.
pub open spec fn x86_64_build_at() -> int {
    7
}

/// Where the build for ARM64 stands in a release assembly.
pub open spec fn arm64_build_at() -> int {
    8
}

/// Where the merge stands in a release assembly.
pub open spec fn merge_at() -> int {
    10
}

/// The merge waits for both builds: whenever the merge of a release
/// assembly is the step to perform, the builds for both architectures
/// have been performed and have succeeded.
pub proof fn merge_needs_both_builds(
    artifact: Seq<char>,
    package: Seq<char>,
    name: Seq<char>,
    plist: Seq<u8>,
    outcomes: Seq<bool>,
    next: Decision,
)
    requires
        follows(next, release_steps(artifact, package, name, plist).len(), outcomes),
        next is Perform,
        next->index == merge_at(),
    ensures
        release_steps(artifact, package, name, plist)[merge_at()] == merge_step(artifact, name),
        release_steps(artifact, package, name, plist)[x86_64_build_at()] == arch_build_step(
            artifact,
            "x86_64-apple-darwin"@,
        ),
        release_steps(artifact, package, name, plist)[arm64_build_at()] == arch_build_step(
            artifact,
            "aarch64-apple-darwin"@,
        ),
        outcomes[x86_64_build_at()],
        outcomes[arm64_build_at()],
{
}

} // verus!
