//! The synchronisation of mirrors with their remotes.

use crate::clock::Timestamp;
use crate::config::Config;
use crate::error::{auth_failure, git_error_with_context, GitFailure, RepomanError};
use crate::fleet::RepoState;
use crate::metadata::Metadata;
use crate::text::{lowercase_of, views};
use crate::vault::Vault;
use vstd::prelude::*;

verus! {

/// Who asked for a synchronisation.
#[derive(Clone, Copy, Debug, PartialEq, Eq, Structural)]
pub enum SyncKind {
    /// The user.
    Manual,
    /// The agent.
    Auto,
}

impl SyncKind {
    /// The word under which the kind is recorded.
    pub open spec fn word(self) -> Seq<char> {
        match self {
            SyncKind::Manual => "manual"@,
            SyncKind::Auto => "auto"@,
        }
    }

    /// The word under which the kind is recorded.
    pub fn as_str(&self) -> (r: &'static str)
        ensures
            r@ == self.word(),
    {
        match self {
            SyncKind::Manual => "manual",
            SyncKind::Auto => "auto",
        }
    }
}

/// The name of the remote that a mirror is fetched from.
pub fn origin_name() -> (r: &'static str)
    ensures
        r@ == "origin"@,
{
    "origin"
}

/// What a mirror fetches: all branches and all tags, each onto itself.
pub fn mirror_refspecs() -> (r: Vec<String>)
    ensures
        r@.len() == 2,
        r@[0]@ == "refs/heads/*:refs/heads/*"@,
        r@[1]@ == "refs/tags/*:refs/tags/*"@,
{
    let mut r: Vec<String> = Vec::new();
    r.push("refs/heads/*:refs/heads/*".to_owned());
    r.push("refs/tags/*:refs/tags/*".to_owned());
    r
}

/// What the synchronisation of a mirror takes: the path of the mirror, the
/// URL to fetch from, and the metadata of the repository, which holds how
/// to authenticate.
#[derive(Clone, Debug)]
pub struct SyncPlan {
    pub path: String,
    pub url: String,
    pub metadata: Metadata,
}

/// Prepares the synchronisation of the mirror of `pristine_name`. It
/// fails, in this order: where the registry does not hold the repository;
/// where the mirror does not exist; where the metadata could not be read,
/// with the error of the reading; where the mirror could not be opened,
/// with the failure of the backend; where the metadata has no URL.
pub fn sync_pristine(
    pristine_name: &str,
    vault: &Vault,
    pristine_exists: bool,
    metadata: Result<Metadata, RepomanError>,
    opened: Result<(), GitFailure>,
    config: &Config,
) -> (r: Result<SyncPlan, RepomanError>)
    ensures
        !vault.holds(pristine_name@) ==> (r matches Err(RepomanError::RepoNotInVault(n)) && n@
            == pristine_name@),
        vault.holds(pristine_name@) && !pristine_exists ==> (r matches Err(
            RepomanError::PristineNotFound(n),
        ) && n@ == pristine_name@),
        vault.holds(pristine_name@) && pristine_exists ==> match metadata {
            Err(e) => r == Err::<SyncPlan, RepomanError>(e),
            Ok(m) => match opened {
                Err(f) => r == Err::<SyncPlan, RepomanError>(RepomanError::GitError(f)),
                Ok(_) => if m.git_urls@.len() == 0 {
                    r matches Err(RepomanError::InvalidRepoUrl(n)) && n@ == pristine_name@
                } else {
                    r matches Ok(plan) && plan.url == m.git_urls@[0] && plan.path@
                        == config.pristine_path_of(pristine_name@) && plan.metadata == m
                },
            },
        },
{
    if !vault.contains(pristine_name) {
        return Err(RepomanError::RepoNotInVault(pristine_name.to_owned()));
    }
    if !pristine_exists {
        return Err(RepomanError::PristineNotFound(pristine_name.to_owned()));
    }
    let metadata = match metadata {
        Ok(m) => m,
        Err(e) => {
            return Err(e);
        },
    };
    match opened {
        Ok(_) => {},
        Err(f) => {
            return Err(RepomanError::GitError(f));
        },
    }
    if metadata.git_urls.len() == 0 {
        return Err(RepomanError::InvalidRepoUrl(pristine_name.to_owned()));
    }
    let url = metadata.git_urls[0].clone();
    Ok(SyncPlan { path: config.pristine_path(pristine_name), url, metadata })
}

/// Concludes the synchronisation of the mirror of `pristine_name`, given
/// what the backend made of the fetch. After a failure the metadata is
/// dropped and the error says whether the remote refused the credentials.
/// After a success the metadata records the synchronisation at `now`, with
/// its kind.
pub fn conclude_sync(
    metadata: Metadata,
    outcome: Result<(), GitFailure>,
    kind: SyncKind,
    pristine_name: &str,
    now: Timestamp,
) -> (r: Result<Metadata, RepomanError>)
    ensures
        outcome is Ok ==> (r matches Ok(m) && (m.last_sync matches Some(info) && info.timestamp
            == now && info.sync_type@ == kind.word()) && m == (Metadata {
            last_sync: m.last_sync,
            last_updated: now,
            ..metadata
        })),
        outcome matches Err(f) ==> (r matches Err(e) && if auth_failure(
            f.code,
            f.class,
            lowercase_of(f.message@),
        ) {
            e matches RepomanError::AuthenticationFailed(n) && n@ == pristine_name@
        } else {
            e == RepomanError::GitError(f)
        }),
{
    match outcome {
        Err(f) => Err(git_error_with_context(f, pristine_name)),
        Ok(()) => {
            let mut metadata = metadata;
            metadata.mark_synced_at(kind.as_str(), now);
            Ok(metadata)
        },
    }
}

/// The names of the repositories among the first `n` that have a mirror,
/// in their order.
pub open spec fn with_mirror(repos: Seq<RepoState>, n: int) -> Seq<Seq<char>>
    decreases n,
{
    if n <= 0 {
        Seq::empty()
    } else if repos[n - 1].pristine_exists {
        with_mirror(repos, n - 1).push(repos[n - 1].entry.name@)
    } else {
        with_mirror(repos, n - 1)
    }
}

/// The names of the repositories that can be synchronised: those with a
/// mirror, in the order of the registry.
pub fn get_syncable_repos(repos: &Vec<RepoState>) -> (r: Vec<String>)
    ensures
        views(r@) == with_mirror(repos@, repos@.len() as int),
{
    let mut r: Vec<String> = Vec::new();
    let mut n: usize = 0;
    assert(views(r@) =~= Seq::<Seq<char>>::empty());
    while n < repos.len()
        invariant
            n <= repos.len(),
            views(r@) == with_mirror(repos@, n as int),
        decreases repos.len() - n,
    {
        if repos[n].pristine_exists {
            let ghost before = views(r@);
            r.push(repos[n].entry.name.clone());
            assert(views(r@) =~= before.push(repos@[n as int].entry.name@));
        }
        n += 1;
    }
    r
}

/// The repositories to synchronise, where all are asked for: every
/// repository with a mirror, in the order of the registry. Where the
/// registry could not be read, the one failure is reported under the label
/// of the registry.
pub fn sync_all_pristines(loaded: Result<&Vec<RepoState>, RepomanError>) -> (r: Result<
    Vec<String>,
    (String, RepomanError),
>)
    ensures
        loaded matches Err(e) ==> (r matches Err(pair) && pair.0@ == "vault"@ && pair.1 == e),
        loaded matches Ok(repos) ==> (r matches Ok(names) && views(names@) == with_mirror(
            repos@,
            repos@.len() as int,
        )),
{
    match loaded {
        Err(e) => Err(("vault".to_owned(), e)),
        Ok(repos) => Ok(get_syncable_repos(repos)),
    }
}

/// Records `tag` as the latest tag of a repository.
pub fn update_latest_tag(metadata: Metadata, tag: &str) -> (r: Metadata)
    ensures
        r.latest_tag matches Some(t) && t@ == tag@,
        r == (Metadata { latest_tag: r.latest_tag, ..metadata }),
{
    let mut metadata = metadata;
    metadata.set_latest_tag(tag);
    metadata
}

/// The tally of an operation on many repositories: one failure stops none
/// of the others, and each outcome is counted.
#[derive(Clone, Copy, Debug, PartialEq, Eq, Structural)]
pub struct Tally {
    pub successes: usize,
    pub failures: usize,
}

/// The number of outcomes among the first `n` that are successes.
pub open spec fn count_ok(outcomes: Seq<bool>, n: int) -> int
    decreases n,
{
    if n <= 0 {
        0
    } else if outcomes[n - 1] {
        count_ok(outcomes, n - 1) + 1
    } else {
        count_ok(outcomes, n - 1)
    }
}

/// The tally of the outcomes of an operation on many repositories: how
/// many succeeded and how many failed.
pub fn tally(outcomes: &Vec<bool>) -> (r: Tally)
    ensures
        r.successes == count_ok(outcomes@, outcomes@.len() as int),
        r.successes + r.failures == outcomes@.len(),
{
    let mut successes: usize = 0;
    let mut failures: usize = 0;
    let mut n: usize = 0;
    while n < outcomes.len()
        invariant
            n <= outcomes.len(),
            successes == count_ok(outcomes@, n as int),
            successes + failures == n,
        decreases outcomes.len() - n,
    {
        if outcomes[n] {
            successes += 1;
        } else {
            failures += 1;
        }
        n += 1;
    }
    Tally { successes, failures }
}

} // verus!
