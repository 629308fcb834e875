//! The registration of repositories.

use crate::aliases::has_key;
use crate::clock::Timestamp;
use crate::error::RepomanError;
use crate::metadata::{Metadata, DEFAULT_SYNC_INTERVAL};
use crate::sorting::{keeps_order_of, sort_by_key, sorted_by_key};
use crate::text::views;
use crate::vault::{extract_repo_name, repo_name_of, url_core, Vault};
use vstd::prelude::*;

verus! {

/// The URLs of the remotes named `name` among the first `n`, in their
/// order.
pub open spec fn urls_named(remotes: Seq<(String, String)>, name: Seq<char>, n: int) -> Seq<
    Seq<char>,
>
    decreases n,
{
    if n <= 0 {
        Seq::empty()
    } else if remotes[n - 1].0@ == name {
        urls_named(remotes, name, n - 1).push(remotes[n - 1].1@)
    } else {
        urls_named(remotes, name, n - 1)
    }
}

/// The URLs of the remotes not named `name` among the first `n`, in their
/// order.
pub open spec fn urls_not_named(remotes: Seq<(String, String)>, name: Seq<char>, n: int) -> Seq<
    Seq<char>,
>
    decreases n,
{
    if n <= 0 {
        Seq::empty()
    } else if remotes[n - 1].0@ != name {
        urls_not_named(remotes, name, n - 1).push(remotes[n - 1].1@)
    } else {
        urls_not_named(remotes, name, n - 1)
    }
}

/// The URLs of `remotes` with that of the first remote named `name` in
/// front, followed by those of the remotes of any other name, in their
/// order.
pub open spec fn default_first(remotes: Seq<(String, String)>, name: Seq<char>) -> Seq<Seq<char>> {
    let named = urls_named(remotes, name, remotes.len() as int);
    let others = urls_not_named(remotes, name, remotes.len() as int);
    if named.len() > 0 {
        seq![named[0]] + others
    } else {
        others
    }
}

/// The URLs of `remotes` with that of the first remote named `name` in
/// front.
fn arrange(remotes: &Vec<(String, String)>, name: &str) -> (r: Vec<String>)
    ensures
        views(r@) == default_first(remotes@, name@),
{
    let mut first: Option<String> = None;
    let mut others: Vec<String> = Vec::new();
    let mut n: usize = 0;
    assert(views(others@) =~= Seq::<Seq<char>>::empty());
    while n < remotes.len()
        invariant
            n <= remotes.len(),
            first is Some <==> urls_named(remotes@, name@, n as int).len() > 0,
            first matches Some(u) ==> u@ == urls_named(remotes@, name@, n as int)[0],
            views(others@) == urls_not_named(remotes@, name@, n as int),
        decreases remotes.len() - n,
    {
        if remotes[n].0.as_str().eq(name) {
            if first.is_none() {
                first = Some(remotes[n].1.clone());
            }
        } else {
            let ghost before = views(others@);
            others.push(remotes[n].1.clone());
            assert(views(others@) =~= before.push(remotes@[n as int].1@));
        }
        n += 1;
    }
    let mut r: Vec<String> = Vec::new();
    match first {
        Some(u) => {
            r.push(u);
        },
        None => {},
    }
    let ghost head = views(r@);
    let mut k: usize = 0;
    assert(views(r@) =~= head + views(others@).take(0));
    while k < others.len()
        invariant
            k <= others.len(),
            views(r@) == head + views(others@).take(k as int),
        decreases others.len() - k,
    {
        let ghost before = views(r@);
        r.push(others[k].clone());
        assert(views(r@) =~= before.push(others@[k as int]@));
        assert(views(others@).take(k + 1) =~= views(others@).take(k as int).push(
            others@[k as int]@,
        ));
        assert(views(r@) =~= head + views(others@).take(k + 1));
        k += 1;
    }
    assert(views(others@).take(others.len() as int) == views(others@));
    assert(views(r@) =~= default_first(remotes@, name@));
    r
}

/// The remote that is the default where neither the branch nor the
/// configuration names one: `origin` where there is such a remote, else
/// the first by name.
pub open spec fn falls_back_to_first(
    remotes: Seq<(String, String)>,
    branch_remote: Option<String>,
    push_default: Option<String>,
) -> bool {
    branch_remote is None && push_default is None && !has_key(remotes, "origin"@)
}

/// The URLs of the remotes of a repository, the default remote first. The
/// default is the remote that the current branch names, else the one that
/// the configuration names for pushing, else `origin` where there is such
/// a remote; the other remotes follow in the order given. Where none of
/// these names a remote, the remotes are put in the order of their names,
/// those of one name in the order given, and the first of them is the
/// default. It fails without remotes.
pub fn detect_current_repo_urls(
    remotes: Vec<(String, String)>,
    branch_remote: Option<String>,
    push_default: Option<String>,
) -> (r: Result<Vec<String>, RepomanError>)
    ensures
        remotes@.len() == 0 ==> r == Err::<Vec<String>, RepomanError>(
            RepomanError::NoRemotesFound,
        ),
        remotes@.len() > 0 ==> (r matches Ok(urls) && match branch_remote {
            Some(name) => views(urls@) == default_first(remotes@, name@),
            None => match push_default {
                Some(name) => views(urls@) == default_first(remotes@, name@),
                None => if has_key(remotes@, "origin"@) {
                    views(urls@) == default_first(remotes@, "origin"@)
                } else {
                    exists|sorted: Seq<(String, String)>| #[trigger]
                        sorted_by_key(sorted) && sorted.to_multiset() == remotes@.to_multiset()
                            && sorted.len() == remotes@.len() && keeps_order_of(sorted, remotes@)
                            && views(urls@) == default_first(
                            sorted,
                            sorted[0].0@,
                        )
                },
            },
        }),
{
    if remotes.len() == 0 {
        return Err(RepomanError::NoRemotesFound);
    }
    match branch_remote {
        Some(name) => {
            return Ok(arrange(&remotes, name.as_str()));
        },
        None => {},
    }
    match push_default {
        Some(name) => {
            return Ok(arrange(&remotes, name.as_str()));
        },
        None => {},
    }
    if has_remote(&remotes, "origin") {
        return Ok(arrange(&remotes, "origin"));
    }
    let sorted = sort_by_key(&remotes);
    let urls = arrange(&sorted, sorted[0].0.as_str());
    assert(sorted_by_key(sorted@));
    Ok(urls)
}

/// Whether some remote is named `name`.
fn has_remote(remotes: &Vec<(String, String)>, name: &str) -> (r: bool)
    ensures
        r == has_key(remotes@, name@),
{
    let mut n: usize = 0;
    while n < remotes.len()
        invariant
            n <= remotes.len(),
            forall|k: int| 0 <= k < n ==> (#[trigger] remotes@[k]).0@ != name@,
        decreases remotes.len() - n,
    {
        if remotes[n].0.as_str().eq(name) {
            return true;
        }
        n += 1;
    }
    false
}

/// Registers the repository with the remotes `urls` at `now`, the first of
/// which is the default: its name is taken from the default URL, the
/// registry gets an entry for it, and its metadata is made. It fails, in
/// this order, and then changes nothing: without a URL; where the default
/// URL gives no name; where the name, or what it is an alias for, is a
/// repository of the registry already.
pub fn add_repo(urls: Vec<String>, vault: &mut Vault, now: Timestamp) -> (r: Result<
    (String, Metadata),
    RepomanError,
>)
    ensures
        r is Err ==> *final(vault) == *old(vault),
        urls@.len() == 0 ==> r == Err::<(String, Metadata), RepomanError>(
            RepomanError::NoRemotesFound,
        ),
        urls@.len() > 0 && repo_name_of(urls@[0]@).len() == 0 ==> (r matches Err(
            RepomanError::InvalidRepoUrl(u),
        ) && u@ == url_core(urls@[0]@)),
        urls@.len() > 0 && repo_name_of(urls@[0]@).len() > 0 && old(vault).holds(
            repo_name_of(urls@[0]@),
        ) ==> (r matches Err(RepomanError::RepoAlreadyInVault(n)) && n@ == repo_name_of(
            urls@[0]@,
        )),
        urls@.len() > 0 && repo_name_of(urls@[0]@).len() > 0 && !old(vault).holds(
            repo_name_of(urls@[0]@),
        ) ==> (r matches Ok(pair) && pair.0@ == repo_name_of(urls@[0]@) && pair.1.git_urls == urls
            && pair.1.created_on == now && pair.1.is_fresh(Some(DEFAULT_SYNC_INTERVAL))
            && final(vault).aliases == old(vault).aliases && final(vault).entries@.len() == old(vault).entries@.len() + 1 && final(vault).entries@.drop_last() == old(vault).entries@
            && final(vault).entries@.last().name@ == pair.0@ && final(vault).entries@.last().url
            == urls@[0] && final(vault).entries@.last().added_date == now),
        r is Ok && old(vault).wf() ==> final(vault).wf(),
{
    if urls.len() == 0 {
        return Err(RepomanError::NoRemotesFound);
    }
    let repo_name = match extract_repo_name(urls[0].as_str()) {
        Ok(n) => n,
        Err(e) => {
            return Err(e);
        },
    };
    let default_url = urls[0].clone();
    match vault.add_entry_at(repo_name.clone(), default_url, now) {
        Ok(()) => {},
        Err(e) => {
            return Err(e);
        },
    }
    assert(final(vault).entries@.drop_last() == old(vault).entries@);
    let metadata = Metadata::new_at(urls, now);
    Ok((repo_name, metadata))
}

/// What is said after a repository was registered.
pub fn handle_add(repo_name: &str) -> (r: String)
    ensures
        r@ == "Repository '"@ + repo_name@ + "' added to vault"@,
{
    crate::text::concat3("Repository '", repo_name, "' added to vault")
}

} // verus!
