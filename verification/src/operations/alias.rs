//! Aliases for repositories.

use crate::aliases::{distinct_keys, map_of_pairs};
use crate::error::RepomanError;
use crate::sorting::{sort_by_key, sorted_by_key};
use crate::vault::Vault;
use vstd::prelude::*;

verus! {

/// Lets `alias` stand for the repository `repo_name` in the registry.
/// Fails exactly where the registry has no entry named `repo_name`, and
/// then changes nothing.
pub fn add_alias(alias: &str, repo_name: &str, vault: &mut Vault) -> (r: Result<(), RepomanError>)
    ensures
        r is Err <==> !old(vault).has_entry(repo_name@),
        r matches Err(e) ==> (e matches RepomanError::RepoNotInVault(n) && n@ == repo_name@)
            && *final(vault) == *old(vault),
        r is Ok ==> final(vault).aliases@ == old(vault).aliases@.insert(alias@, repo_name@)
            && final(vault).entries == old(vault).entries,
        r is Ok && old(vault).wf() ==> final(vault).wf(),
{
    vault.add_alias(alias.to_owned(), repo_name.to_owned())
}

/// Removes `alias` from the registry. Fails exactly where there is no such
/// alias.
pub fn remove_alias(alias: &str, vault: &mut Vault) -> (r: Result<(), RepomanError>)
    ensures
        r is Err <==> !old(vault).aliases@.dom().contains(alias@),
        r matches Err(e) ==> (e matches RepomanError::AliasNotFound(a) && a@ == alias@)
            && final(vault).aliases@ == old(vault).aliases@,
        r is Ok ==> final(vault).aliases@ == old(vault).aliases@.remove(alias@),
        final(vault).entries == old(vault).entries,
        old(vault).wf() ==> final(vault).wf(),
{
    vault.remove_alias(alias)
}

/// The aliases of the registry, each with the name it stands for, in the
/// order of the aliases.
pub fn list_aliases(vault: &Vault) -> (r: Vec<(String, String)>)
    ensures
        sorted_by_key(r@),
        distinct_keys(r@),
        map_of_pairs(r@) == vault.aliases@,
{
    let pairs = vault.aliases.to_pairs();
    sort_by_key(&pairs)
}

/// The lines that show the aliases `aliases`: that there are none, or a
/// heading and one line for each.
pub fn handle_alias_list(aliases: &Vec<(String, String)>) -> (lines: Vec<String>)
    ensures
        aliases@.len() == 0 ==> lines@.len() == 1 && lines@[0]@ == "No aliases defined"@,
        aliases@.len() > 0 ==> lines@.len() == aliases@.len() + 1 && lines@[0]@ == "Aliases:"@
            && forall|k: int|
            0 <= k < aliases@.len() ==> (#[trigger] lines@[k + 1])@ == "  "@ + aliases@[k].0@
                + " -> "@ + aliases@[k].1@,
{
    let mut lines: Vec<String> = Vec::new();
    if aliases.len() == 0 {
        lines.push("No aliases defined".to_owned());
        return lines;
    }
    lines.push("Aliases:".to_owned());
    let mut k: usize = 0;
    while k < aliases.len()
        invariant
            k <= aliases.len(),
            lines@.len() == k + 1,
            lines@[0]@ == "Aliases:"@,
            forall|j: int|
                0 <= j < k ==> (#[trigger] lines@[j + 1])@ == "  "@ + aliases@[j].0@ + " -> "@
                    + aliases@[j].1@,
        decreases aliases.len() - k,
    {
        let line = crate::text::concat5(
            "  ",
            aliases[k].0.as_str(),
            " -> ",
            aliases[k].1.as_str(),
            "",
        );
        proof {
            reveal_strlit("");
            assert(line@ =~= "  "@ + aliases@[k as int].0@ + " -> "@ + aliases@[k as int].1@);
        }
        lines.push(line);
        k += 1;
    }
    lines
}

/// What is said after an alias was set or removed.
pub fn handle_alias(name: &str, alias: &str, remove: bool) -> (r: String)
    ensures
        remove ==> r@ == "Alias '"@ + alias@ + "' removed"@,
        !remove ==> r@ == "Alias '"@ + alias@ + "' -> '"@ + name@ + "'"@,
{
    if remove {
        crate::text::concat3("Alias '", alias, "' removed")
    } else {
        crate::text::concat5("Alias '", alias, "' -> '", name, "'")
    }
}

} // verus!
