//! The removal of a repository with all that belongs to it.

use crate::aliases::aliases_of;
use crate::config::Config;
use crate::error::RepomanError;
use crate::metadata::Metadata;
use crate::text::views;
use crate::vault::{is_first_named, Vault};
use vstd::prelude::*;

verus! {

/// What the removal of a repository takes away on disk, and what it took
/// from the registry.
#[derive(Clone, Debug)]
pub struct RemovalPlan {
    /// The canonical name of the repository.
    pub canonical: String,
    /// The directories of its clones.
    pub clone_paths: Vec<String>,
    /// The directory of its mirror.
    pub pristine_path: String,
    /// The directory of its metadata.
    pub metadata_dir: String,
    /// The aliases that stood for it.
    pub removed_aliases: Vec<String>,
}

/// The paths of the clones that the metadata lists, where there is
/// metadata.
pub open spec fn listed_clone_paths(metadata: Option<&Metadata>) -> Seq<Seq<char>> {
    match metadata {
        Some(m) => Seq::new(m.clones@.len(), |i: int| m.clones@[i].path@),
        None => Seq::empty(),
    }
}

/// Removes the repository that `name` names or is an alias for from the
/// registry, with every alias that stands for it, and plans the removal of
/// what belongs to it on disk: the directory of every clone that its
/// metadata lists, the directory of its mirror, and the directory of its
/// metadata. `metadata` is that of the canonical name, where it could be
/// read. It fails where the registry does not hold the repository, and
/// then changes nothing.
pub fn remove_repo(name: &str, vault: &mut Vault, metadata: Option<&Metadata>, config: &Config) -> (r:
    Result<RemovalPlan, RepomanError>)
    ensures
        !old(vault).holds(old(vault).resolved(name@)) ==> (r matches Err(
            RepomanError::RepoNotInVault(n),
        ) && n@ == old(vault).resolved(name@)) && *final(vault) == *old(vault),
        old(vault).holds(old(vault).resolved(name@)) ==> (r matches Ok(plan) && {
            let canonical = old(vault).resolved(name@);
            &&& plan.canonical@ == canonical
            &&& views(plan.clone_paths@) == listed_clone_paths(metadata)
            &&& plan.pristine_path@ == config.pristine_path_of(canonical)
            &&& plan.metadata_dir@ == config.metadata_dir_of(canonical)
            &&& forall|k: Seq<char>|
                aliases_of(old(vault).aliases@, canonical).contains(k) <==> exists|i: int|
                    0 <= i < plan.removed_aliases@.len() && (#[trigger] plan.removed_aliases@[i])@
                        == k
            &&& forall|i: int, j: int|
                0 <= i < j < plan.removed_aliases@.len() ==> (#[trigger] plan.removed_aliases@[i])@
                    != (#[trigger] plan.removed_aliases@[j])@
            &&& final(vault).aliases@ == old(vault).aliases@.remove_keys(
                aliases_of(old(vault).aliases@, canonical),
            )
            &&& forall|k: Seq<char>| #[trigger]
                final(vault).aliases@.dom().contains(k) ==> final(vault).aliases@[k] != canonical
            &&& (old(vault).has_entry(canonical) ==> exists|i: int| #[trigger]
                is_first_named(old(vault).entries@, canonical, i) && final(vault).entries@ == old(vault).entries@.remove(i))
            &&& (!old(vault).has_entry(canonical) ==> final(vault).entries@ == old(vault).entries@)
            &&& (old(vault).names_distinct() ==> !final(vault).has_entry(canonical) && final(vault).names_distinct())
            &&& (old(vault).wf() ==> final(vault).wf())
        }),
{
    let canonical = vault.resolve_name(name).to_owned();
    if !vault.contains(canonical.as_str()) {
        return Err(RepomanError::RepoNotInVault(canonical));
    }
    let mut clone_paths: Vec<String> = Vec::new();
    match metadata {
        Some(m) => {
            let mut i: usize = 0;
            while i < m.clones.len()
                invariant
                    i <= m.clones.len(),
                    clone_paths@.len() == i,
                    forall|k: int|
                        0 <= k < i ==> (#[trigger] clone_paths@[k])@ == m.clones@[k].path@,
                decreases m.clones.len() - i,
            {
                clone_paths.push(m.clones[i].path.clone());
                i += 1;
            }
        },
        None => {},
    }
    assert(views(clone_paths@) =~= listed_clone_paths(metadata));
    let pristine_path = config.pristine_path(canonical.as_str());
    let metadata_dir = config.metadata_dir(canonical.as_str());
    let removed_aliases = vault.remove_aliases_for(canonical.as_str());
    let ghost middle = *vault;
    let removed_entry = vault.remove_entry(canonical.as_str());
    proof {
        let before = *old(vault);
        let after = *final(vault);
        if before.wf() {
            assert(after.aliases_resolve()) by {
                assert forall|k: Seq<char>| #[trigger]
                    after.aliases@.dom().contains(k) implies after.has_entry(after.aliases@[k]) by {
                    let t = after.aliases@[k];
                    assert(before.aliases@.dom().contains(k));
                    assert(before.has_entry(t));
                    assert(t != canonical@);
                    let a0 = choose|a: int|
                        0 <= a < before.entries@.len() && (#[trigger] before.entries@[a]).name@
                            == t;
                    if removed_entry is Some {
                        let i = choose|i: int| #[trigger]
                            is_first_named(before.entries@, canonical@, i) && after.entries@
                                == before.entries@.remove(i);
                        let a = if a0 < i {
                            a0
                        } else {
                            a0 - 1
                        };
                        assert(after.entries@[a] == before.entries@[a0]);
                    }
                }
            }
        }
    }
    Ok(RemovalPlan { canonical, clone_paths, pristine_path, metadata_dir, removed_aliases })
}

/// Removes the repository that `name` names or is an alias for, with
/// every alias that stands for it, and plans the removal of what belongs
/// to it on disk, as `remove_repo` does: the first entry of the canonical
/// name leaves the registry, exactly the aliases that stood for it leave
/// the alias table and are reported, and every other entry and alias
/// stays. It fails where the registry does not hold the repository, and
/// then changes nothing.
pub fn handle_remove(name: &str, vault: &mut Vault, metadata: Option<&Metadata>, config: &Config) -> (r:
    Result<RemovalPlan, RepomanError>)
    ensures
        !old(vault).holds(old(vault).resolved(name@)) ==> (r matches Err(
            RepomanError::RepoNotInVault(n),
        ) && n@ == old(vault).resolved(name@)) && *final(vault) == *old(vault),
        old(vault).holds(old(vault).resolved(name@)) ==> (r matches Ok(plan) && {
            let canonical = old(vault).resolved(name@);
            &&& plan.canonical@ == canonical
            &&& views(plan.clone_paths@) == listed_clone_paths(metadata)
            &&& plan.pristine_path@ == config.pristine_path_of(canonical)
            &&& plan.metadata_dir@ == config.metadata_dir_of(canonical)
            &&& forall|k: Seq<char>|
                aliases_of(old(vault).aliases@, canonical).contains(k) <==> exists|i: int|
                    0 <= i < plan.removed_aliases@.len() && (#[trigger] plan.removed_aliases@[i])@
                        == k
            &&& forall|i: int, j: int|
                0 <= i < j < plan.removed_aliases@.len() ==> (#[trigger] plan.removed_aliases@[i])@
                    != (#[trigger] plan.removed_aliases@[j])@
            &&& final(vault).aliases@ == old(vault).aliases@.remove_keys(
                aliases_of(old(vault).aliases@, canonical),
            )
            &&& forall|k: Seq<char>| #[trigger]
                final(vault).aliases@.dom().contains(k) ==> final(vault).aliases@[k] != canonical
            &&& (old(vault).has_entry(canonical) ==> exists|i: int| #[trigger]
                is_first_named(old(vault).entries@, canonical, i) && final(vault).entries@ == old(vault).entries@.remove(i))
            &&& (!old(vault).has_entry(canonical) ==> final(vault).entries@ == old(vault).entries@)
            &&& (old(vault).names_distinct() ==> !final(vault).has_entry(canonical) && final(vault).names_distinct())
            &&& (old(vault).wf() ==> final(vault).wf())
        }),
{
    remove_repo(name, vault, metadata, config)
}

} // verus!
