//! The destruction of clones and mirrors.

use crate::clock::Timestamp;
use crate::config::Config;
use crate::error::RepomanError;
use crate::fleet::RepoState;
use crate::metadata::{is_first_clone, CloneEntry, Metadata};
use crate::operations::gc::StaleClone;
use crate::text::{after_last_index, chars_of, find_after_last, text_of_range, views};
use crate::vault::Vault;
use vstd::prelude::*;

verus! {

/// Whether the repository at position `i` is the first whose metadata
/// lists a clone named `name`.
pub open spec fn is_first_owner(repos: Seq<RepoState>, name: Seq<char>, i: int) -> bool {
    &&& 0 <= i < repos.len()
    &&& repos[i].metadata matches Some(m) && m.has_clone(name)
    &&& forall|j: int|
        0 <= j < i ==> !((#[trigger] repos[j]).metadata matches Some(m) && m.has_clone(name))
}

/// Whether the metadata of some repository lists a clone named `name`.
pub open spec fn some_owner(repos: Seq<RepoState>, name: Seq<char>) -> bool {
    exists|i: int|
        0 <= i < repos.len() && ((#[trigger] repos[i]).metadata matches Some(m) && m.has_clone(
            name,
        ))
}

/// The position of the first repository whose metadata lists a clone named
/// `name`, or the number of repositories where there is none.
pub fn find_owner(repos: &Vec<RepoState>, name: &str) -> (i: usize)
    ensures
        i <= repos.len(),
        i < repos.len() ==> is_first_owner(repos@, name@, i as int),
        i == repos.len() ==> !some_owner(repos@, name@),
{
    let mut i: usize = 0;
    while i < repos.len()
        invariant
            i <= repos.len(),
            forall|j: int|
                0 <= j < i ==> !((#[trigger] repos@[j]).metadata matches Some(m) && m.has_clone(
                    name@,
                )),
        decreases repos.len() - i,
    {
        match &repos[i].metadata {
            Some(m) => {
                if m.get_clone(name).is_some() {
                    return i;
                }
            },
            None => {},
        }
        i += 1;
    }
    i
}

/// The repository and the suffix that the name of a clone directory points
/// to: what stands before its last hyphen and what stands behind it. A name
/// without a hyphen, or with nothing before its last one, points to none.
/// A repository whose own name holds a hyphen is found all the same; a
/// suffix that holds one is not.
pub open spec fn owner_hint(dir_name: Seq<char>) -> Option<(Seq<char>, Seq<char>)> {
    let k = after_last_index(dir_name, '-');
    if k >= 2 {
        Some((dir_name.take(k - 1), dir_name.skip(k)))
    } else {
        None
    }
}

/// The repository and the suffix that the name of a clone directory points
/// to.
pub fn split_clone_dir_name(dir_name: &str) -> (r: Option<(String, String)>)
    ensures
        r is Some <==> owner_hint(dir_name@) is Some,
        r matches Some(pair) ==> owner_hint(dir_name@) == Some((pair.0@, pair.1@)),
{
    let v = chars_of(dir_name);
    let k = find_after_last(&v, 0, v.len(), '-');
    assert(v@.subrange(0, v.len() as int) == v@);
    if k >= 2 {
        let owner = text_of_range(&v, 0, k - 1);
        let suffix = text_of_range(&v, k, v.len());
        assert(v@.subrange(0, k - 1) == v@.take(k - 1));
        assert(v@.subrange(k as int, v.len() as int) == v@.skip(k as int));
        Some((owner, suffix))
    } else {
        None
    }
}

/// How a clone is destroyed.
#[derive(Clone, Debug)]
pub enum CloneRemoval {
    /// The clone is listed in the metadata of a repository: its directory
    /// is removed where it exists, and then it is de-listed.
    Listed { repo_name: String, path: String, remove_dir: bool },
    /// The clone is a directory under the root of the clones. It is
    /// de-listed from the repository that its name points to, where that
    /// lists it, and then the directory is removed.
    Directory { path: String, owner: Option<(String, String)> },
}

/// Plans the destruction of the clone `clone_name`, which is a suffix or
/// the name of a directory. The first repository of the registry
/// whose metadata lists a clone of that name has it removed. Else the name
/// is that of a directory under the root of the clones, where
/// `clone_dir_exists` says that there is one. Else the clone is not found.
pub fn destroy_clone(
    clone_name: &str,
    repos: &Vec<RepoState>,
    clone_dir_exists: bool,
    config: &Config,
) -> (r: Result<CloneRemoval, RepomanError>)
    ensures
        some_owner(repos@, clone_name@) ==> (r matches Ok(
            CloneRemoval::Listed { repo_name, path, remove_dir },
        ) && exists|i: int, j: int| #[trigger]
            is_first_owner(repos@, clone_name@, i) && #[trigger] is_first_clone(
                repos@[i].metadata->0.clones@,
                clone_name@,
                j,
            ) && repo_name == repos@[i].entry.name && path == repos@[i].metadata->0.clones@[j].path
                && remove_dir == repos@[i].clone_exists(j)),
        !some_owner(repos@, clone_name@) && clone_dir_exists ==> (r matches Ok(
            CloneRemoval::Directory { path, owner },
        ) && path@ == config.clone_path_of(clone_name@) && match owner {
            Some(pair) => owner_hint(clone_name@) == Some((pair.0@, pair.1@)),
            None => owner_hint(clone_name@) is None,
        }),
        !some_owner(repos@, clone_name@) && !clone_dir_exists ==> (r matches Err(
            RepomanError::CloneNotFound(n),
        ) && n@ == clone_name@),
{
    let i = find_owner(repos, clone_name);
    if i < repos.len() {
        match &repos[i].metadata {
            Some(m) => {
                let j = clone_index(m, clone_name);
                let path = m.clones[j].path.clone();
                let remove_dir = repos[i].probe_exists(j);
                return Ok(
                    CloneRemoval::Listed {
                        repo_name: repos[i].entry.name.clone(),
                        path,
                        remove_dir,
                    },
                );
            },
            None => {},
        }
    }
    if clone_dir_exists {
        return Ok(
            CloneRemoval::Directory {
                path: config.clone_path(clone_name),
                owner: split_clone_dir_name(clone_name),
            },
        );
    }
    Err(RepomanError::CloneNotFound(clone_name.to_owned()))
}

/// The position of the first clone named `name` in metadata that lists one.
fn clone_index(metadata: &Metadata, name: &str) -> (j: usize)
    requires
        metadata.has_clone(name@),
    ensures
        is_first_clone(metadata.clones@, name@, j as int),
{
    let mut j: usize = 0;
    while j < metadata.clones.len()
        invariant
            j <= metadata.clones.len(),
            metadata.has_clone(name@),
            forall|k: int| 0 <= k < j ==> (#[trigger] metadata.clones@[k]).name@ != name@,
        decreases metadata.clones.len() - j,
    {
        if metadata.clones[j].name.as_str().eq(name) {
            return j;
        }
        j += 1;
    }
    proof {
        let k = choose|k: int|
            0 <= k < metadata.clones@.len() && (#[trigger] metadata.clones@[k]).name@ == name@;
        assert(metadata.clones@[k].name@ != name@);
    }
    j
}

/// A copy of a clone entry.
fn copy_clone(e: &CloneEntry) -> (r: CloneEntry)
    ensures
        r == *e,
{
    CloneEntry { name: e.name.clone(), path: e.path.clone(), created: e.created }
}

/// De-lists the clone `suffix` from the metadata of its repository at
/// `now`; `None` where the metadata does not list it, and nothing is to be
/// saved.
pub fn delist_clone(metadata: Metadata, suffix: &str, now: Timestamp) -> (r: Option<Metadata>)
    ensures
        r is Some <==> metadata.has_clone(suffix@),
        r matches Some(updated) ==> exists|j: int| #[trigger]
            is_first_clone(metadata.clones@, suffix@, j) && updated.clones@
                == metadata.clones@.remove(j) && updated == (Metadata {
                clones: updated.clones,
                last_updated: now,
                ..metadata
            }),
{
    let mut metadata = metadata;
    match metadata.remove_clone_at(suffix, now) {
        Some(_) => Some(metadata),
        None => None,
    }
}

/// Plans the destruction of the mirror of `pristine_name`: the path of the
/// directory to remove. The entry of the registry stays. It fails where
/// the registry does not hold the repository, and then where the mirror
/// does not exist.
pub fn destroy_pristine(pristine_name: &str, vault: &Vault, pristine_exists: bool, config: &Config) -> (r:
    Result<String, RepomanError>)
    ensures
        !vault.holds(pristine_name@) ==> (r matches Err(RepomanError::RepoNotInVault(n)) && n@
            == pristine_name@),
        vault.holds(pristine_name@) && !pristine_exists ==> (r matches Err(
            RepomanError::PristineNotFound(n),
        ) && n@ == pristine_name@),
        vault.holds(pristine_name@) && pristine_exists ==> (r matches Ok(path) && path@
            == config.pristine_path_of(pristine_name@)),
{
    if !vault.contains(pristine_name) {
        return Err(RepomanError::RepoNotInVault(pristine_name.to_owned()));
    }
    if !pristine_exists {
        return Err(RepomanError::PristineNotFound(pristine_name.to_owned()));
    }
    Ok(config.pristine_path(pristine_name))
}

/// What a target of a destruction turns out to be.
#[derive(Clone, Copy, Debug, PartialEq, Eq, Structural)]
pub enum DestroyRoute {
    /// The mirror of a repository.
    Pristine,
    /// A clone, by the name of its directory or by its suffix.
    Clone,
}

/// What `target` names. It is tried as a repository with a mirror, then as
/// a clone directory, then as the suffix of a clone listed in the metadata
/// of some repository; the first that fits decides. It fails where none
/// fits.
pub fn destroy_target(
    target: &str,
    vault: &Vault,
    pristine_exists: bool,
    clone_dir_exists: bool,
    repos: &Vec<RepoState>,
) -> (r: Result<DestroyRoute, RepomanError>)
    ensures
        vault.holds(target@) && pristine_exists ==> r == Ok::<DestroyRoute, RepomanError>(
            DestroyRoute::Pristine,
        ),
        !(vault.holds(target@) && pristine_exists) && (clone_dir_exists || some_owner(
            repos@,
            target@,
        )) ==> r == Ok::<DestroyRoute, RepomanError>(DestroyRoute::Clone),
        !(vault.holds(target@) && pristine_exists) && !clone_dir_exists && !some_owner(
            repos@,
            target@,
        ) ==> (r matches Err(RepomanError::CloneNotFound(n)) && n@ == target@),
{
    if vault.contains(target) && pristine_exists {
        return Ok(DestroyRoute::Pristine);
    }
    if clone_dir_exists {
        return Ok(DestroyRoute::Clone);
    }
    if find_owner(repos, target) < repos.len() {
        return Ok(DestroyRoute::Clone);
    }
    Err(RepomanError::CloneNotFound(target.to_owned()))
}

/// Begins the destruction of all clones of `pristine_name`: the metadata
/// whose clones are to be removed. It fails where the registry does not
/// hold the repository, and then where its metadata could not be read.
pub fn destroy_all_clones(
    pristine_name: &str,
    vault: &Vault,
    metadata: Result<Metadata, RepomanError>,
) -> (r: Result<Metadata, RepomanError>)
    ensures
        !vault.holds(pristine_name@) ==> (r matches Err(RepomanError::RepoNotInVault(n)) && n@
            == pristine_name@),
        vault.holds(pristine_name@) ==> r == metadata,
{
    if !vault.contains(pristine_name) {
        return Err(RepomanError::RepoNotInVault(pristine_name.to_owned()));
    }
    metadata
}

/// Whether the removal at position `i` failed. A position without a report
/// counts as failed: nothing is known to be gone.
pub open spec fn failed_at(failed: Seq<bool>, i: int) -> bool {
    i >= failed.len() || failed[i]
}

/// The clones among the first `n` whose removal failed, in their order.
pub open spec fn clones_left(clones: Seq<CloneEntry>, failed: Seq<bool>, n: int) -> Seq<CloneEntry>
    decreases n,
{
    if n <= 0 {
        Seq::empty()
    } else if failed_at(failed, n - 1) {
        clones_left(clones, failed, n - 1).push(clones[n - 1])
    } else {
        clones_left(clones, failed, n - 1)
    }
}

/// The paths of the clones among the first `n` whose removal did not fail,
/// in their order.
pub open spec fn clones_gone(clones: Seq<CloneEntry>, failed: Seq<bool>, n: int) -> Seq<Seq<char>>
    decreases n,
{
    if n <= 0 {
        Seq::empty()
    } else if !failed_at(failed, n - 1) {
        clones_gone(clones, failed, n - 1).push(clones[n - 1].path@)
    } else {
        clones_gone(clones, failed, n - 1)
    }
}

/// Concludes the destruction of all clones of a repository at `now`, given
/// for each clone of the metadata whether the removal of its directory
/// failed. A clone whose directory could not be removed stays listed; every
/// other one is de-listed and its path reported, whether its directory was
/// removed or was not there.
pub fn conclude_destroy_all_clones(metadata: Metadata, failed: &Vec<bool>, now: Timestamp) -> (r: (
    Metadata,
    Vec<String>,
))
    ensures
        r.0.clones@ == clones_left(metadata.clones@, failed@, metadata.clones@.len() as int),
        views(r.1@) == clones_gone(metadata.clones@, failed@, metadata.clones@.len() as int),
        r.1@.len() > 0 ==> r.0 == (Metadata { clones: r.0.clones, last_updated: now, ..metadata }),
        r.1@.len() == 0 ==> r.0 == (Metadata { clones: r.0.clones, ..metadata }),
{
    let mut left: Vec<CloneEntry> = Vec::new();
    let mut gone: Vec<String> = Vec::new();
    let mut n: usize = 0;
    assert(views(gone@) =~= Seq::<Seq<char>>::empty());
    while n < metadata.clones.len()
        invariant
            n <= metadata.clones.len(),
            left@ == clones_left(metadata.clones@, failed@, n as int),
            views(gone@) == clones_gone(metadata.clones@, failed@, n as int),
        decreases metadata.clones.len() - n,
    {
        if n >= failed.len() || failed[n] {
            left.push(copy_clone(&metadata.clones[n]));
        } else {
            let ghost before = views(gone@);
            gone.push(metadata.clones[n].path.clone());
            assert(views(gone@) =~= before.push(metadata.clones@[n as int].path@));
        }
        n += 1;
    }
    let mut metadata = metadata;
    metadata.clones = left;
    if gone.len() > 0 {
        metadata.last_updated = now;
    }
    (metadata, gone)
}

/// The stale clones among the first `n` whose removal did not fail, in
/// their order.
pub open spec fn stale_gone(stale: Seq<StaleClone>, failed: Seq<bool>, n: int) -> Seq<StaleClone>
    decreases n,
{
    if n <= 0 {
        Seq::empty()
    } else if !failed_at(failed, n - 1) {
        stale_gone(stale, failed, n - 1).push(stale[n - 1])
    } else {
        stale_gone(stale, failed, n - 1)
    }
}

/// Concludes the destruction of the stale clones `stale`, given for each
/// whether the removal of its directory failed: those to de-list and to
/// report as destroyed. One whose directory could not be removed is
/// neither.
pub fn destroy_stale_clones(stale: &Vec<StaleClone>, failed: &Vec<bool>) -> (r: Vec<StaleClone>)
    ensures
        r@ == stale_gone(stale@, failed@, stale@.len() as int),
{
    let mut r: Vec<StaleClone> = Vec::new();
    let mut n: usize = 0;
    while n < stale.len()
        invariant
            n <= stale.len(),
            r@ == stale_gone(stale@, failed@, n as int),
        decreases stale.len() - n,
    {
        if !(n >= failed.len() || failed[n]) {
            let sc = &stale[n];
            r.push(
                StaleClone {
                    repo_name: sc.repo_name.clone(),
                    clone_name: sc.clone_name.clone(),
                    path: sc.path.clone(),
                    days_old: sc.days_old,
                },
            );
        }
        n += 1;
    }
    r
}

/// What the destruction of all mirrors did.
#[derive(Clone, Debug)]
pub struct PristinesDestroyed {
    /// The paths of the mirrors removed.
    pub removed: Vec<String>,
    /// The repositories whose metadata is to forget the mirror.
    pub forget: Vec<String>,
}

/// The paths of the mirrors among the first `n` repositories that existed
/// and whose removal did not fail.
pub open spec fn mirrors_gone(repos: Seq<RepoState>, failed: Seq<bool>, config: Config, n: int) -> Seq<
    Seq<char>,
>
    decreases n,
{
    if n <= 0 {
        Seq::empty()
    } else if repos[n - 1].pristine_exists && !failed_at(failed, n - 1) {
        mirrors_gone(repos, failed, config, n - 1).push(
            config.pristine_path_of(repos[n - 1].entry.name@),
        )
    } else {
        mirrors_gone(repos, failed, config, n - 1)
    }
}

/// The names among the first `n` repositories that had no mirror, or whose
/// mirror was removed.
pub open spec fn mirrors_forgotten(repos: Seq<RepoState>, failed: Seq<bool>, n: int) -> Seq<
    Seq<char>,
>
    decreases n,
{
    if n <= 0 {
        Seq::empty()
    } else if !repos[n - 1].pristine_exists || !failed_at(failed, n - 1) {
        mirrors_forgotten(repos, failed, n - 1).push(repos[n - 1].entry.name@)
    } else {
        mirrors_forgotten(repos, failed, n - 1)
    }
}

/// Concludes the destruction of all mirrors, given for each repository
/// whether the removal of its mirror failed. A mirror that could not be
/// removed is passed over. Every other mirror that existed is reported as
/// removed, and the metadata of its repository, as that of every repository
/// without a mirror, is to forget the mirror. The entries of the registry
/// stay.
pub fn destroy_all_pristines(repos: &Vec<RepoState>, failed: &Vec<bool>, config: &Config) -> (r:
    PristinesDestroyed)
    ensures
        views(r.removed@) == mirrors_gone(repos@, failed@, *config, repos@.len() as int),
        views(r.forget@) == mirrors_forgotten(repos@, failed@, repos@.len() as int),
{
    let mut removed: Vec<String> = Vec::new();
    let mut forget: Vec<String> = Vec::new();
    let mut n: usize = 0;
    assert(views(removed@) =~= Seq::<Seq<char>>::empty());
    assert(views(forget@) =~= Seq::<Seq<char>>::empty());
    while n < repos.len()
        invariant
            n <= repos.len(),
            views(removed@) == mirrors_gone(repos@, failed@, *config, n as int),
            views(forget@) == mirrors_forgotten(repos@, failed@, n as int),
        decreases repos.len() - n,
    {
        let failure = n >= failed.len() || failed[n];
        let ghost removed_before = views(removed@);
        let ghost forget_before = views(forget@);
        if repos[n].pristine_exists {
            if !failure {
                let path = config.pristine_path(repos[n].entry.name.as_str());
                removed.push(path);
                forget.push(repos[n].entry.name.clone());
                assert(views(removed@) =~= removed_before.push(path@));
                assert(views(forget@) =~= forget_before.push(repos@[n as int].entry.name@));
            }
        } else {
            forget.push(repos[n].entry.name.clone());
            assert(views(forget@) =~= forget_before.push(repos@[n as int].entry.name@));
        }
        n += 1;
    }
    PristinesDestroyed { removed, forget }
}

/// What is to be destroyed.
#[derive(Clone, Debug, PartialEq, Eq)]
pub enum DestroyRequest {
    /// All clones of a repository.
    AllClones(String),
    /// All mirrors.
    AllPristines,
    /// The clones whose head commit is older than so many days.
    Stale(u64),
    /// A mirror or a clone, by name.
    Target(String),
}

/// What is to be destroyed, given what was asked for: all clones of a
/// repository before all mirrors, before the stale clones, before a target
/// by name; `None` where nothing was asked for.
pub fn handle_destroy(
    target: Option<String>,
    all_clones: Option<String>,
    all_pristines: bool,
    stale: Option<u64>,
) -> (r: Option<DestroyRequest>)
    ensures
        r == (match all_clones {
            Some(name) => Some(DestroyRequest::AllClones(name)),
            None => if all_pristines {
                Some(DestroyRequest::AllPristines)
            } else {
                match stale {
                    Some(days) => Some(DestroyRequest::Stale(days)),
                    None => match target {
                        Some(t) => Some(DestroyRequest::Target(t)),
                        None => None,
                    },
                }
            },
        }),
{
    match all_clones {
        Some(name) => Some(DestroyRequest::AllClones(name)),
        None => if all_pristines {
            Some(DestroyRequest::AllPristines)
        } else {
            match stale {
                Some(days) => Some(DestroyRequest::Stale(days)),
                None => match target {
                    Some(t) => Some(DestroyRequest::Target(t)),
                    None => None,
                },
            }
        },
    }
}

} // verus!
