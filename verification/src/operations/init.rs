//! The creation of mirrors.

use crate::config::Config;
use crate::error::{auth_failure, git_error_with_context, GitFailure, RepomanError};
use crate::fleet::RepoState;
use crate::metadata::Metadata;
use crate::text::{lowercase_of, views};
use crate::clock::Timestamp;
use crate::vault::Vault;
use vstd::prelude::*;

verus! {

/// What the creation of a mirror takes: the URL to clone from, the path to
/// clone to, and the metadata of the repository, which holds how to
/// authenticate.
#[derive(Clone, Debug)]
pub struct InitPlan {
    pub url: String,
    pub path: String,
    pub metadata: Metadata,
}

/// Prepares the creation of the mirror of `repo_name`. It fails, in this
/// order: where the registry does not hold the repository; where its
/// metadata could not be read, with the error of the reading; where the
/// metadata has no URL; where the mirror exists already.
pub fn init_pristine(
    repo_name: &str,
    vault: &Vault,
    metadata: Result<Metadata, RepomanError>,
    pristine_exists: bool,
    config: &Config,
) -> (r: Result<InitPlan, RepomanError>)
    ensures
        !vault.holds(repo_name@) ==> (r matches Err(RepomanError::RepoNotInVault(n)) && n@
            == repo_name@),
        vault.holds(repo_name@) ==> match metadata {
            Err(e) => r == Err::<InitPlan, RepomanError>(e),
            Ok(m) => if m.git_urls@.len() == 0 {
                r matches Err(RepomanError::InvalidRepoUrl(n)) && n@ == repo_name@
            } else if pristine_exists {
                r matches Err(RepomanError::PristineAlreadyExists(n)) && n@ == repo_name@
            } else {
                r matches Ok(plan) && plan.url == m.git_urls@[0] && plan.path@
                    == config.pristine_path_of(repo_name@) && plan.metadata == m
            },
        },
{
    if !vault.contains(repo_name) {
        return Err(RepomanError::RepoNotInVault(repo_name.to_owned()));
    }
    let metadata = match metadata {
        Ok(m) => m,
        Err(e) => {
            return Err(e);
        },
    };
    if metadata.git_urls.len() == 0 {
        return Err(RepomanError::InvalidRepoUrl(repo_name.to_owned()));
    }
    let url = metadata.git_urls[0].clone();
    if pristine_exists {
        return Err(RepomanError::PristineAlreadyExists(repo_name.to_owned()));
    }
    Ok(InitPlan { url, path: config.pristine_path(repo_name), metadata })
}

/// Concludes the creation of the mirror of `repo_name`, given what the
/// backend made of the clone. After a failure the metadata is dropped and
/// the error says whether the remote refused the credentials. After a
/// success the metadata records the mirror as created at `now`.
pub fn conclude_init(
    metadata: Metadata,
    outcome: Result<(), GitFailure>,
    repo_name: &str,
    now: Timestamp,
) -> (r: Result<Metadata, RepomanError>)
    ensures
        outcome is Ok ==> (r matches Ok(m) && m == (Metadata {
            pristine_created: Some(now),
            last_updated: now,
            ..metadata
        })),
        outcome matches Err(f) ==> (r matches Err(e) && if auth_failure(
            f.code,
            f.class,
            lowercase_of(f.message@),
        ) {
            e matches RepomanError::AuthenticationFailed(n) && n@ == repo_name@
        } else {
            e == RepomanError::GitError(f)
        }),
{
    match outcome {
        Err(f) => Err(git_error_with_context(f, repo_name)),
        Ok(()) => {
            let mut metadata = metadata;
            metadata.mark_pristine_created_at(now);
            Ok(metadata)
        },
    }
}

/// The names of the repositories among the first `n` that have no mirror,
/// in their order.
pub open spec fn without_mirror(repos: Seq<RepoState>, n: int) -> Seq<Seq<char>>
    decreases n,
{
    if n <= 0 {
        Seq::empty()
    } else if !repos[n - 1].pristine_exists {
        without_mirror(repos, n - 1).push(repos[n - 1].entry.name@)
    } else {
        without_mirror(repos, n - 1)
    }
}

/// The names of the repositories that have no mirror yet, in the order of
/// the registry.
pub fn get_uninitialized_repos(repos: &Vec<RepoState>) -> (r: Vec<String>)
    ensures
        views(r@) == without_mirror(repos@, repos@.len() as int),
{
    let mut r: Vec<String> = Vec::new();
    let mut n: usize = 0;
    assert(views(r@) =~= Seq::<Seq<char>>::empty());
    while n < repos.len()
        invariant
            n <= repos.len(),
            views(r@) == without_mirror(repos@, n as int),
        decreases repos.len() - n,
    {
        if !repos[n].pristine_exists {
            let ghost before = views(r@);
            r.push(repos[n].entry.name.clone());
            assert(views(r@) =~= before.push(repos@[n as int].entry.name@));
        }
        n += 1;
    }
    r
}

/// The label under which a failure to read the registry is reported by an
/// operation on all repositories.
pub open spec fn registry_label() -> Seq<char> {
    "vault"@
}

/// The names of all repositories among `repos`, in their order.
pub open spec fn all_names(repos: Seq<RepoState>) -> Seq<Seq<char>> {
    Seq::new(repos.len(), |i: int| repos[i].entry.name@)
}

/// The repositories to create a mirror for, where all are asked for: every
/// repository of the registry, in its order. Where the registry could not
/// be read, the one failure is reported under the label of the registry.
pub fn init_all_pristines(loaded: Result<&Vec<RepoState>, RepomanError>) -> (r: Result<
    Vec<String>,
    (String, RepomanError),
>)
    ensures
        loaded matches Err(e) ==> (r matches Err(pair) && pair.0@ == registry_label() && pair.1
            == e),
        loaded matches Ok(repos) ==> (r matches Ok(names) && views(names@) == all_names(repos@)),
{
    match loaded {
        Err(e) => Err(("vault".to_owned(), e)),
        Ok(repos) => {
            let mut names: Vec<String> = Vec::new();
            let mut n: usize = 0;
            while n < repos.len()
                invariant
                    n <= repos.len(),
                    names@.len() == n,
                    forall|k: int| 0 <= k < n ==> (#[trigger] names@[k])@ == repos@[k].entry.name@,
                decreases repos.len() - n,
            {
                names.push(repos[n].entry.name.clone());
                n += 1;
            }
            assert(views(names@) =~= all_names(repos@));
            Ok(names)
        },
    }
}

} // verus!
