//! Finding the directory that a name stands for.

use crate::config::Config;
use crate::error::RepomanError;
use crate::fleet::RepoState;
use crate::metadata::is_first_clone;
use crate::vault::Vault;
use vstd::prelude::*;

verus! {

/// Whether the metadata of a repository lists a clone named `name` whose
/// directory exists; of several clones of that name the first counts.
pub open spec fn has_live_clone(repo: RepoState, name: Seq<char>) -> bool {
    repo.metadata matches Some(m) && exists|j: int| #[trigger]
        is_first_clone(m.clones@, name, j) && repo.clone_exists(j)
}

/// Whether the repository at position `i` is the first with a clone named
/// `name` whose directory exists, and that clone is at position `j`.
pub open spec fn is_first_live(repos: Seq<RepoState>, name: Seq<char>, i: int, j: int) -> bool {
    &&& 0 <= i < repos.len()
    &&& repos[i].metadata matches Some(m) && is_first_clone(m.clones@, name, j)
    &&& repos[i].clone_exists(j)
    &&& forall|k: int| 0 <= k < i ==> !has_live_clone(#[trigger] repos[k], name)
}

/// The path of the directory that `target` stands for. It is looked for as
/// the mirror of the repository that `target` names or is an alias for,
/// then as the suffix of a clone in the metadata of the repositories, in
/// the order of the registry, then as the name of a clone directory; the
/// first that exists is taken. `pristine_exists` says so of the mirror of
/// the canonical name, `clone_dir_exists` of the clone directory named
/// `target`. It fails where none exists.
pub fn find_path(
    target: &str,
    vault: &Vault,
    repos: &Vec<RepoState>,
    pristine_exists: bool,
    clone_dir_exists: bool,
    config: &Config,
) -> (r: Result<String, RepomanError>)
    ensures
        pristine_exists ==> (r matches Ok(p) && p@ == config.pristine_path_of(
            vault.resolved(target@),
        )),
        !pristine_exists && (exists|i: int|
            0 <= i < repos@.len() && has_live_clone(#[trigger] repos@[i], target@)) ==> (r matches Ok(
            p,
        ) && exists|i: int, j: int| #[trigger]
            is_first_live(repos@, target@, i, j) && p == repos@[i].metadata->0.clones@[j].path),
        !pristine_exists && !(exists|i: int|
            0 <= i < repos@.len() && has_live_clone(#[trigger] repos@[i], target@))
            && clone_dir_exists ==> (r matches Ok(p) && p@ == config.clone_path_of(target@)),
        !pristine_exists && !(exists|i: int|
            0 <= i < repos@.len() && has_live_clone(#[trigger] repos@[i], target@))
            && !clone_dir_exists ==> (r matches Err(RepomanError::CloneNotFound(n)) && n@
            == target@),
{
    if pristine_exists {
        let resolved = vault.resolve_name(target);
        return Ok(config.pristine_path(resolved));
    }
    let mut i: usize = 0;
    while i < repos.len()
        invariant
            i <= repos.len(),
            !pristine_exists,
            forall|k: int| 0 <= k < i ==> !has_live_clone(#[trigger] repos@[k], target@),
        decreases repos.len() - i,
    {
        match &repos[i].metadata {
            Some(m) => {
                let mut j: usize = 0;
                let mut found = false;
                while j < m.clones.len() && !found
                    invariant
                        j <= m.clones.len(),
                        forall|k: int| 0 <= k < j ==> (#[trigger] m.clones@[k]).name@ != target@,
                        found ==> j < m.clones.len() && m.clones@[j as int].name@ == target@,
                    decreases m.clones.len() - j, (if found {
                        0int
                    } else {
                        1int
                    }),
                {
                    if m.clones[j].name.as_str().eq(target) {
                        found = true;
                    } else {
                        j += 1;
                    }
                }
                if found {
                    assert(is_first_clone(m.clones@, target@, j as int));
                    if repos[i].probe_exists(j) {
                        let path = m.clones[j].path.clone();
                        assert(is_first_live(repos@, target@, i as int, j as int));
                        assert(has_live_clone(repos@[i as int], target@));
                        return Ok(path);
                    }
                    assert(!has_live_clone(repos@[i as int], target@)) by {
                        if has_live_clone(repos@[i as int], target@) {
                            let j2 = choose|j2: int| #[trigger]
                                is_first_clone(m.clones@, target@, j2) && repos@[i as int].clone_exists(
                                    j2,
                                );
                            assert(j2 == j);
                        }
                    }
                } else {
                    assert(!has_live_clone(repos@[i as int], target@)) by {
                        if has_live_clone(repos@[i as int], target@) {
                            let j2 = choose|j2: int| #[trigger]
                                is_first_clone(m.clones@, target@, j2) && repos@[i as int].clone_exists(
                                    j2,
                                );
                            assert(m.clones@[j2].name@ != target@);
                        }
                    }
                }
            },
            None => {},
        }
        i += 1;
    }
    if clone_dir_exists {
        return Ok(config.clone_path(target));
    }
    Err(RepomanError::CloneNotFound(target.to_owned()))
}

} // verus!
