//! Which package of a workspace the working directory belongs to.

use vstd::prelude::*;
use crate::paths::{component_count, components, parent, parent_of, path_within, starts_with};
use crate::text::texts;

verus! {

/// The working directory lies in or below the directory of this manifest.
pub open spec fn encloses(manifest: Seq<char>, cwd: Seq<char>) -> bool {
    parent_of(manifest) is Some && path_within(cwd, parent_of(manifest)->0)
}

/// `i` is the package to use: its manifest's directory encloses the working
/// directory, no enclosing manifest lies deeper, and of those as deep it is
/// the last listed.
pub open spec fn is_chosen(manifests: Seq<Seq<char>>, cwd: Seq<char>, i: int) -> bool {
    &&& 0 <= i < manifests.len()
    &&& encloses(manifests[i], cwd)
    &&& forall|j: int|
        0 <= j < manifests.len() && encloses(#[trigger] manifests[j], cwd) ==> component_count(
            manifests[j],
        ) <= component_count(manifests[i])
    &&& forall|j: int|
        i < j < manifests.len() && encloses(#[trigger] manifests[j], cwd) ==> component_count(
            manifests[j],
        ) < component_count(manifests[i])
}

/// The index of the package that the working directory belongs to, among
/// the workspace's manifest paths: `None` exactly where no manifest's
/// directory encloses it.
pub fn package_for_cwd(cwd: &str, manifests: &Vec<String>) -> (r: Option<usize>)
    ensures
        r is Some ==> is_chosen(texts(manifests@), cwd@, r->0 as int),
        r is None ==> forall|j: int|
            0 <= j < manifests.len() ==> !encloses(#[trigger] texts(manifests@)[j], cwd@),
{
    let mut best: Option<usize> = None;
    let mut depth: usize = 0;
    let mut i: usize = 0;
    let ghost all = texts(manifests@);
    while i < manifests.len()
        invariant
            i <= manifests.len(),
            all == texts(manifests@),
            best is Some ==> is_chosen(all.subrange(0, i as int), cwd@, best->0 as int) && depth
                == component_count(all[best->0 as int]),
            best is None ==> forall|j: int| 0 <= j < i ==> !encloses(#[trigger] all[j], cwd@),
        decreases manifests.len() - i,
    {
        let manifest = manifests[i].as_str();
        let ghost before = all.subrange(0, i as int);
        let ghost after = all.subrange(0, i + 1);
        assert(forall|j: int| 0 <= j < i ==> before[j] == after[j]);
        assert(after[i as int] == all[i as int]);
        let inside = match parent(manifest) {
            Some(dir) => starts_with(cwd, dir.as_str()),
            None => false,
        };
        if inside {
            let d = components(manifest).len();
            let deeper = match best {
                Some(_) => d >= depth,
                None => true,
            };
            if deeper {
                best = Some(i);
                depth = d;
            }
        }
        i += 1;
        proof {
            if best is Some {
                let b = best->0 as int;
                assert forall|j: int|
                    0 <= j < after.len() && encloses(#[trigger] after[j], cwd@) implies component_count(
                    after[j],
                ) <= component_count(after[b]) by {
                    if j < i - 1 {
                        assert(before[j] == after[j]);
                    }
                }
                assert forall|j: int|
                    b < j < after.len() && encloses(#[trigger] after[j], cwd@) implies component_count(
                    after[j],
                ) < component_count(after[b]) by {
                    if j < i - 1 {
                        assert(before[j] == after[j]);
                    }
                }
            }
        }
    }
    assert(all.subrange(0, i as int) =~= all);
    best
}

/// At most one package is chosen.
pub proof fn chosen_is_unique(manifests: Seq<Seq<char>>, cwd: Seq<char>, i: int, j: int)
    requires
        is_chosen(manifests, cwd, i),
        is_chosen(manifests, cwd, j),
    ensures
        i == j,
{
    if i < j {
        assert(encloses(manifests[j], cwd));
        assert(encloses(manifests[i], cwd));
    } else if j < i {
        assert(encloses(manifests[i], cwd));
        assert(encloses(manifests[j], cwd));
    }
}

} // verus!
