//! The registry: the repositories known by name, and the aliases for them.

use crate::aliases::{aliases_of, AliasTable};
use crate::clock::{current_time, Timestamp};
use crate::error::RepomanError;
use crate::text::{
    after_last, chars_of, contains_char, contains_text, copy_range, ends_with, find_after_last,
    has_substring, is_suffix, is_whitespace, lemma_after_last_concat, lemma_after_last_none,
    lemma_trimmed_clean, strip_suffix, text_of_range, trim_bounds, trimmed,
};
use vstd::prelude::*;

verus! {

/// A repository of the registry.
#[derive(Clone, Debug)]
pub struct VaultEntry {
    pub name: String,
    pub url: String,
    pub added_date: Timestamp,
}

/// The registry: its entries in the order in which they were added, and the
/// alias table.
#[derive(Debug)]
pub struct Vault {
    pub entries: Vec<VaultEntry>,
    pub aliases: AliasTable,
}

/// Whether `i` is the position of the first entry of `entries` named `name`.
pub open spec fn is_first_named(entries: Seq<VaultEntry>, name: Seq<char>, i: int) -> bool {
    &&& 0 <= i < entries.len()
    &&& entries[i].name@ == name
    &&& forall|j: int| 0 <= j < i ==> (#[trigger] entries[j]).name@ != name
}

/// Whether some entry of `entries` is named `name`.
pub open spec fn some_named(entries: Seq<VaultEntry>, name: Seq<char>) -> bool {
    exists|i: int| 0 <= i < entries.len() && (#[trigger] entries[i]).name@ == name
}

impl Default for Vault {
    /// The registry without repositories and without aliases.
    fn default() -> (r: Vault)
        ensures
            r.entries@.len() == 0,
            r.aliases@ == Map::<Seq<char>, Seq<char>>::empty(),
    {
        Vault { entries: Vec::new(), aliases: AliasTable::new() }
    }
}

impl Vault {
    /// Whether the registry has an entry named `name`.
    pub open spec fn has_entry(self, name: Seq<char>) -> bool {
        some_named(self.entries@, name)
    }

    /// The canonical name for `name`: what it stands for where it is an
    /// alias, and itself where it is none. One level, no chains.
    pub open spec fn resolved(self, name: Seq<char>) -> Seq<char> {
        if self.aliases@.dom().contains(name) {
            self.aliases@[name]
        } else {
            name
        }
    }

    /// Whether `name`, or what it is an alias for, is a repository of the
    /// registry.
    pub open spec fn holds(self, name: Seq<char>) -> bool {
        self.has_entry(self.resolved(name))
    }

    /// Whether no two entries have the same name.
    pub open spec fn names_distinct(self) -> bool {
        forall|i: int, j: int|
            0 <= i < j < self.entries.len() ==> (#[trigger] self.entries[i]).name@ != (
            #[trigger] self.entries[j]).name@
    }

    /// Whether every alias stands for a repository of the registry.
    pub open spec fn aliases_resolve(self) -> bool {
        forall|k: Seq<char>| #[trigger]
            self.aliases@.dom().contains(k) ==> self.has_entry(self.aliases@[k])
    }

    /// The registry is well formed: names are unique, and no alias is left
    /// without its repository.
    pub open spec fn wf(self) -> bool {
        self.names_distinct() && self.aliases_resolve()
    }

    /// The position of the first entry named `name`, or the number of
    /// entries where there is none.
    fn position(&self, name: &str) -> (i: usize)
        ensures
            i <= self.entries.len(),
            i < self.entries.len() ==> is_first_named(self.entries@, name@, i as int),
            i == self.entries.len() ==> !self.has_entry(name@),
    {
        let mut i: usize = 0;
        while i < self.entries.len()
            invariant
                i <= self.entries.len(),
                forall|j: int| 0 <= j < i ==> (#[trigger] self.entries@[j]).name@ != name@,
            decreases self.entries.len() - i,
        {
            if self.entries[i].name.as_str().eq(name) {
                return i;
            }
            i += 1;
        }
        i
    }

    /// Adds the repository `name` with its URL, as of `now`. Fails where
    /// `name`, or what it is an alias for, is already a repository.
    pub fn add_entry_at(&mut self, name: String, url: String, now: Timestamp) -> (r: Result<
        (),
        RepomanError,
    >)
        ensures
            r is Err <==> old(self).holds(name@),
            r matches Err(e) ==> (e matches RepomanError::RepoAlreadyInVault(n) && n == name)
                && *final(self) == *old(self),
            r is Ok ==> final(self).entries@ == old(self).entries@.push(
                VaultEntry { name, url, added_date: now },
            ) && final(self).aliases == old(self).aliases,
            r is Ok && old(self).wf() ==> final(self).wf(),
    {
        if self.contains(name.as_str()) {
            return Err(RepomanError::RepoAlreadyInVault(name));
        }
        let ghost before = *self;
        self.entries.push(VaultEntry { name, url, added_date: now });
        proof {
            let after = *self;
            let n = before.entries@.len() as int;
            assert forall|k: Seq<char>| before.has_entry(k) implies after.has_entry(k) by {
                let i = choose|i: int|
                    0 <= i < before.entries@.len() && (#[trigger] before.entries@[i]).name@ == k;
                assert(after.entries@[i].name@ == k);
            }
            if before.wf() {
                assert(!before.aliases@.dom().contains(name@));
                assert forall|i: int, j: int| 0 <= i < j < after.entries@.len() implies (
                #[trigger] after.entries@[i]).name@ != (#[trigger] after.entries@[j]).name@ by {
                    assert(after.entries@[i] == before.entries@[i]);
                    if j < n {
                        assert(after.entries@[j] == before.entries@[j]);
                    }
                }
            }
        }
        Ok(())
    }

    /// Adds the repository `name` with its URL, as of the current time.
    /// Fails where `name`, or what it is an alias for, is already a
    /// repository.
    pub fn add_entry(&mut self, name: String, url: String) -> (r: Result<(), RepomanError>)
        ensures
            r is Err <==> old(self).holds(name@),
            r matches Err(e) ==> (e matches RepomanError::RepoAlreadyInVault(n) && n == name)
                && *final(self) == *old(self),
            r is Ok ==> final(self).entries@.len() == old(self).entries@.len() + 1
                && final(self).entries@.drop_last() == old(self).entries@
                && final(self).entries@.last().name == name && final(self).entries@.last().url
                == url && final(self).aliases == old(self).aliases,
            r is Ok && old(self).wf() ==> final(self).wf(),
    {
        let now = current_time();
        let r = self.add_entry_at(name, url, now);
        proof {
            if r is Ok {
                assert(final(self).entries@.drop_last() == old(self).entries@);
            }
        }
        r
    }

    /// The canonical name for `name`: what it stands for where it is an
    /// alias, and itself where it is none.
    pub fn resolve_name<'a>(&'a self, name: &'a str) -> (r: &'a str)
        ensures
            r@ == self.resolved(name@),
    {
        match self.aliases.get(name) {
            Some(target) => target.as_str(),
            None => name,
        }
    }

    /// The entry of the repository that `name` names or is an alias for:
    /// the first with that name.
    pub fn get_entry(&self, name: &str) -> (r: Option<&VaultEntry>)
        ensures
            r is Some <==> self.holds(name@),
            r matches Some(e) ==> exists|i: int| #[trigger]
                is_first_named(self.entries@, self.resolved(name@), i) && *e == self.entries@[i],
    {
        let resolved = self.resolve_name(name);
        let i = self.position(resolved);
        if i < self.entries.len() {
            assert(is_first_named(self.entries@, self.resolved(name@), i as int));
            Some(&self.entries[i])
        } else {
            None
        }
    }

    /// The names of all repositories, in the order of the registry.
    pub fn get_all_names(&self) -> (r: Vec<&str>)
        ensures
            r@.len() == self.entries@.len(),
            forall|i: int| 0 <= i < r@.len() ==> (#[trigger] r@[i])@ == self.entries@[i].name@,
    {
        let mut r: Vec<&str> = Vec::new();
        let mut i: usize = 0;
        while i < self.entries.len()
            invariant
                i <= self.entries.len(),
                r@.len() == i,
                forall|k: int| 0 <= k < i ==> (#[trigger] r@[k])@ == self.entries@[k].name@,
            decreases self.entries.len() - i,
        {
            r.push(self.entries[i].name.as_str());
            i += 1;
        }
        r
    }

    /// Whether `name`, or what it is an alias for, is a repository of the
    /// registry.
    pub fn contains(&self, name: &str) -> (r: bool)
        ensures
            r == self.holds(name@),
    {
        let resolved = self.resolve_name(name);
        self.position(resolved) < self.entries.len()
    }

    /// Removes the first entry named `name` and returns it. Aliases are
    /// neither resolved nor touched.
    pub fn remove_entry(&mut self, name: &str) -> (r: Option<VaultEntry>)
        ensures
            r is Some <==> old(self).has_entry(name@),
            r is None ==> *final(self) == *old(self),
            r matches Some(e) ==> exists|i: int| #[trigger]
                is_first_named(old(self).entries@, name@, i) && e == old(self).entries@[i]
                    && final(self).entries@ == old(self).entries@.remove(i),
            final(self).aliases == old(self).aliases,
            old(self).names_distinct() ==> final(self).names_distinct() && !final(self).has_entry(
                name@,
            ),
    {
        let i = self.position(name);
        if i < self.entries.len() {
            let ghost before = self.entries@;
            let e = self.entries.remove(i);
            proof {
                let after = self.entries@;
                assert(is_first_named(before, name@, i as int));
                if old(self).names_distinct() {
                    lemma_remove_keeps_distinct(before, i as int);
                }
            }
            Some(e)
        } else {
            None
        }
    }

    /// Lets `alias` stand for the repository `repo_name`. Fails where no
    /// entry is named `repo_name`.
    pub fn add_alias(&mut self, alias: String, repo_name: String) -> (r: Result<(), RepomanError>)
        ensures
            r is Err <==> !old(self).has_entry(repo_name@),
            r matches Err(e) ==> (e matches RepomanError::RepoNotInVault(n) && n == repo_name)
                && *final(self) == *old(self),
            r is Ok ==> final(self).aliases@ == old(self).aliases@.insert(alias@, repo_name@)
                && final(self).entries == old(self).entries,
            r is Ok && old(self).wf() ==> final(self).wf(),
    {
        if self.position(repo_name.as_str()) >= self.entries.len() {
            return Err(RepomanError::RepoNotInVault(repo_name));
        }
        let previous = self.aliases.insert(alias, repo_name);
        Ok(())
    }

    /// Removes the alias `alias`. Fails where there is no such alias.
    pub fn remove_alias(&mut self, alias: &str) -> (r: Result<(), RepomanError>)
        ensures
            r is Err <==> !old(self).aliases@.dom().contains(alias@),
            r matches Err(e) ==> (e matches RepomanError::AliasNotFound(a) && a@ == alias@)
                && final(self).aliases@ == old(self).aliases@,
            r is Ok ==> final(self).aliases@ == old(self).aliases@.remove(alias@),
            final(self).entries == old(self).entries,
            old(self).wf() ==> final(self).wf(),
    {
        match self.aliases.remove(alias) {
            Some(_) => Ok(()),
            None => {
                assert(old(self).aliases@.remove(alias@) =~= old(self).aliases@);
                Err(RepomanError::AliasNotFound(alias.to_owned()))
            },
        }
    }

    /// The alias table.
    pub fn list_aliases(&self) -> (r: &AliasTable)
        ensures
            r == &self.aliases,
    {
        &self.aliases
    }

    /// Removes every alias that stands for `repo_name`, and returns those
    /// aliases, each once.
    pub fn remove_aliases_for(&mut self, repo_name: &str) -> (r: Vec<String>)
        ensures
            final(self).entries == old(self).entries,
            final(self).aliases@ == old(self).aliases@.remove_keys(
                aliases_of(old(self).aliases@, repo_name@),
            ),
            forall|k: Seq<char>|
                aliases_of(old(self).aliases@, repo_name@).contains(k) <==> exists|i: int|
                    0 <= i < r.len() && (#[trigger] r@[i])@ == k,
            forall|i: int, j: int| 0 <= i < j < r.len() ==> (#[trigger] r@[i])@ != (#[trigger] r@[j])@,
            forall|k: Seq<char>| #[trigger]
                final(self).aliases@.dom().contains(k) ==> final(self).aliases@[k] != repo_name@,
            old(self).aliases_resolve() ==> final(self).aliases_resolve(),
    {
        self.aliases.remove_targeting(repo_name)
    }
}

/// Taking an entry out of a list with distinct names leaves the names
/// distinct, and leaves none with the name taken out.
pub proof fn lemma_remove_keeps_distinct(entries: Seq<VaultEntry>, i: int)
    requires
        0 <= i < entries.len(),
        forall|a: int, b: int|
            0 <= a < b < entries.len() ==> (#[trigger] entries[a]).name@ != (
            #[trigger] entries[b]).name@,
    ensures
        forall|a: int, b: int|
            0 <= a < b < entries.remove(i).len() ==> (#[trigger] entries.remove(i)[a]).name@ != (
            #[trigger] entries.remove(i)[b]).name@,
        !some_named(entries.remove(i), entries[i].name@),
{
    let t = entries.remove(i);
    assert forall|a: int, b: int| 0 <= a < b < t.len() implies (#[trigger] t[a]).name@ != (
    #[trigger] t[b]).name@ by {
        let a0 = if a < i {
            a
        } else {
            a + 1
        };
        let b0 = if b < i {
            b
        } else {
            b + 1
        };
        assert(t[a] == entries[a0]);
        assert(t[b] == entries[b0]);
    }
    if some_named(t, entries[i].name@) {
        let a = choose|a: int| 0 <= a < t.len() && (#[trigger] t[a]).name@ == entries[i].name@;
        let a0 = if a < i {
            a
        } else {
            a + 1
        };
        assert(t[a] == entries[a0]);
        if a0 < i {
            assert(entries[a0].name@ != entries[i].name@);
        } else {
            assert(entries[i].name@ != entries[a0].name@);
        }
    }
}

/// The URL as name extraction reads it: trimmed, and without the endings
/// that are no part of the name.
pub open spec fn url_core(url: Seq<char>) -> Seq<char> {
    without_endings(trimmed(url))
}

/// A text without the endings that are no part of the name. Where it ends
/// with `.git`, that is removed, and then one `/` where one stands before
/// it. Where it ends with `/`, that is removed, and then one `.git` where
/// one stands before it. One `.git` at most is removed, so that a name
/// that itself ends with `.git` keeps it.
pub open spec fn without_endings(t: Seq<char>) -> Seq<char> {
    if is_suffix(".git"@, t) {
        strip_suffix(t.take(t.len() - 4), "/"@)
    } else if is_suffix("/"@, t) {
        strip_suffix(t.take(t.len() - 1), ".git"@)
    } else {
        t
    }
}

/// The length of `v` without the endings that name extraction removes.
fn length_without_endings(v: &Vec<char>) -> (end: usize)
    ensures
        end <= v.len(),
        v@.take(end as int) == without_endings(v@),
{
    let n: usize = v.len();
    assert(v@.take(n as int) == v@);
    let git = chars_of(".git");
    let slash = chars_of("/");
    proof {
        reveal_strlit(".git");
        reveal_strlit("/");
    }
    if ends_with(v, n, &git) {
        let end: usize = n - git.len();
        if ends_with(v, end, &slash) {
            assert(v@.take(end as int).take(end - 1) == v@.take(end - 1));
            end - slash.len()
        } else {
            end
        }
    } else if ends_with(v, n, &slash) {
        let end: usize = n - slash.len();
        if ends_with(v, end, &git) {
            assert(v@.take(end as int).take(end - 4) == v@.take(end - 4));
            end - git.len()
        } else {
            end
        }
    } else {
        n
    }
}

/// One `.git` at most is removed: behind a text `t`, the ending `.git`
/// leaves `t` without one slash at its end, the ending `.git/` leaves `t`,
/// and the ending `/` leaves `t` without one `.git` at its end. So `t`
/// keeps a `.git` of its own where `.git` or `.git/` follows it.
pub proof fn lemma_one_git_removed(t: Seq<char>)
    ensures
        without_endings(t + ".git"@) == strip_suffix(t, "/"@),
        without_endings(t + ".git/"@) == t,
        without_endings(t + "/"@) == strip_suffix(t, ".git"@),
{
    reveal_strlit(".git");
    reveal_strlit("/");
    reveal_strlit(".git/");
    let a = t + ".git"@;
    assert(a.skip(a.len() - 4) =~= ".git"@);
    assert(a.take(a.len() - 4) =~= t);
    let b = t + ".git/"@;
    assert(!is_suffix(".git"@, b)) by {
        if is_suffix(".git"@, b) {
            assert(b.skip(b.len() - 4)[3] == 't');
        }
    }
    assert(b.skip(b.len() - 1) =~= "/"@);
    assert(b.take(b.len() - 1) =~= a);
    let c = t + "/"@;
    assert(!is_suffix(".git"@, c)) by {
        if is_suffix(".git"@, c) {
            assert(c.skip(c.len() - 4)[3] == 't');
        }
    }
    assert(c.skip(c.len() - 1) =~= "/"@);
    assert(c.take(c.len() - 1) =~= t);
}

/// Whether a URL is of the form `user@host:path`: it holds a colon, and no
/// `://`.
pub open spec fn is_scp_like(u: Seq<char>) -> bool {
    u.contains(':') && !has_substring(u, "://"@)
}

/// The last segment of the path of a URL.
pub open spec fn final_segment(u: Seq<char>) -> Seq<char> {
    if is_scp_like(u) {
        after_last(after_last(u, ':'), '/')
    } else {
        after_last(u, '/')
    }
}

/// The repository name that a URL gives: the last segment of its path,
/// without `.git`.
pub open spec fn repo_name_of(url: Seq<char>) -> Seq<char> {
    final_segment(url_core(url))
}

/// The name of the repository at `url`: the last segment of its path,
/// without `.git`, whether or not a slash follows it. Fails where that
/// segment is empty.
pub fn extract_repo_name(url: &str) -> (r: Result<String, RepomanError>)
    ensures
        r is Ok <==> repo_name_of(url@).len() > 0,
        r matches Ok(name) ==> name@ == repo_name_of(url@),
        r matches Err(e) ==> (e matches RepomanError::InvalidRepoUrl(u) && u@ == url_core(url@)),
{
    let all = chars_of(url);
    let (from, to) = trim_bounds(&all);
    let v = copy_range(&all, from, to);
    let end = length_without_endings(&v);
    let ghost u = url_core(url@);
    assert(v@.take(end as int) == u);
    assert(v@.subrange(0, end as int) == u);
    let scheme = chars_of("://");
    let start: usize = if contains_char(&v, end, ':') && !contains_text(&v, end, &scheme) {
        let colon = find_after_last(&v, 0, end, ':');
        assert(v@.subrange(colon as int, end as int) == after_last(u, ':'));
        let s = find_after_last(&v, colon, end, '/');
        assert(v@.subrange(s as int, end as int) == after_last(after_last(u, ':'), '/'));
        s
    } else {
        let s = find_after_last(&v, 0, end, '/');
        assert(v@.subrange(s as int, end as int) == after_last(u, '/'));
        s
    };
    assert(v@.subrange(start as int, end as int) == repo_name_of(url@));
    if start < end {
        Ok(text_of_range(&v, start, end))
    } else {
        Err(RepomanError::InvalidRepoUrl(text_of_range(&v, 0, end)))
    }
}

/// Whether a URL is written without white space at its ends, does not end
/// with a slash, and does not end with `.git`: it is what name extraction
/// reads of itself.
pub open spec fn is_plain_url(u: Seq<char>) -> bool {
    &&& u.len() > 0
    &&& !is_whitespace(u[0])
    &&& !is_whitespace(u.last())
    &&& u.last() != '/'
    &&& !is_suffix(".git"@, u)
}

/// Whether `tail` is one of the endings that name extraction removes:
/// nothing, `.git`, one slash, or `.git` and a slash.
pub open spec fn is_url_ending(tail: Seq<char>) -> bool {
    tail.len() == 0 || tail == ".git"@ || tail == "/"@ || tail == ".git/"@
}

/// Name extraction reads a plain URL with `.git`, a slash or both at its
/// end as the plain URL.
pub proof fn lemma_url_core(u: Seq<char>, tail: Seq<char>)
    requires
        is_plain_url(u),
        is_url_ending(tail),
    ensures
        url_core(u + tail) == u,
{
    reveal_strlit(".git");
    reveal_strlit("/");
    reveal_strlit(".git/");
    let full = u + tail;
    assert(full[0] == u[0]);
    assert(!is_suffix("/"@, u)) by {
        if is_suffix("/"@, u) {
            assert(u.skip(u.len() - 1)[0] == '/');
        }
    }
    if tail == ".git/"@ {
        assert(full.last() == '/');
        lemma_trimmed_clean(full);
        assert(!is_suffix(".git"@, full)) by {
            if is_suffix(".git"@, full) {
                assert(full.skip(full.len() - 4)[3] == 't');
            }
        }
        assert(full.skip(full.len() - 1) =~= "/"@);
        let inner = u + ".git"@;
        assert(full.take(full.len() - 1) =~= inner);
        assert(inner.skip(inner.len() - 4) =~= ".git"@);
        assert(inner.take(inner.len() - 4) =~= u);
    } else if tail.len() == 0 {
        assert(full =~= u);
        lemma_trimmed_clean(u);
        assert(!is_suffix("/"@, u)) by {
            if is_suffix("/"@, u) {
                assert(u.skip(u.len() - 1)[0] == '/');
            }
        }
    } else if tail == ".git"@ {
        assert(full.last() == 't');
        lemma_trimmed_clean(full);
        assert(full.skip(full.len() - 4) =~= ".git"@);
        assert(full.take(full.len() - 4) =~= u);
        assert(!is_suffix("/"@, u)) by {
            if is_suffix("/"@, u) {
                assert(u.skip(u.len() - 1)[0] == '/');
            }
        }
    } else {
        assert(full.last() == '/');
        lemma_trimmed_clean(full);
        assert(!is_suffix(".git"@, full)) by {
            if is_suffix(".git"@, full) {
                assert(full.skip(full.len() - 4)[3] == 't');
            }
        }
        assert(full.skip(full.len() - 1) =~= "/"@);
        assert(full.take(full.len() - 1) =~= u);
    }
}

/// The name of a repository is the final segment of the path of its URL:
/// for a URL with a scheme or a path in the file system, made of `base`, a
/// slash and `name`, and with `.git`, a slash, both or nothing at its end,
/// name extraction gives `name`.
pub proof fn lemma_name_of_path_url(base: Seq<char>, name: Seq<char>, tail: Seq<char>)
    requires
        name.len() > 0,
        !name.contains('/'),
        is_plain_url(base + seq!['/'] + name),
        !is_scp_like(base + seq!['/'] + name),
        is_url_ending(tail),
    ensures
        repo_name_of(base + seq!['/'] + name + tail) == name,
{
    let u = base + seq!['/'] + name;
    lemma_url_core(u, tail);
    lemma_after_last_concat(base, '/', name);
}

/// The name of a repository is the final segment of the path of its URL:
/// for a URL of the form `user@host:path`, where the path is `name` alone
/// or `dir`, a slash and `name`, and with `.git`, a slash, both or nothing
/// at its end, name extraction gives `name`.
pub proof fn lemma_name_of_scp_url(host: Seq<char>, dir: Seq<char>, name: Seq<char>, tail: Seq<char>)
    requires
        name.len() > 0,
        !name.contains('/'),
        !name.contains(':'),
        !dir.contains(':'),
        is_url_ending(tail),
        is_plain_url(
            host + seq![':'] + (if dir.len() == 0 {
                name
            } else {
                dir + seq!['/'] + name
            }),
        ),
        !has_substring(
            host + seq![':'] + (if dir.len() == 0 {
                name
            } else {
                dir + seq!['/'] + name
            }),
            "://"@,
        ),
    ensures
        repo_name_of(
            host + seq![':'] + (if dir.len() == 0 {
                name
            } else {
                dir + seq!['/'] + name
            }) + tail,
        ) == name,
{
    let path = if dir.len() == 0 {
        name
    } else {
        dir + seq!['/'] + name
    };
    let u = host + seq![':'] + path;
    lemma_url_core(u, tail);
    assert(u[host.len() as int] == ':');
    assert(u.contains(':'));
    assert(!path.contains(':')) by {
        if path.contains(':') {
            let i = choose|i: int| 0 <= i < path.len() && path[i] == ':';
            if dir.len() > 0 {
                if i < dir.len() {
                    assert(dir[i] == ':');
                } else if i > dir.len() {
                    assert(name[i - dir.len() - 1] == ':');
                }
            }
        }
    }
    lemma_after_last_concat(host, ':', path);
    if dir.len() == 0 {
        lemma_after_last_none(name, '/');
    } else {
        lemma_after_last_concat(dir, '/', name);
    }
}

/// The name that extraction gives holds no slash, so that it names one
/// directory; and an empty URL has no name.
pub proof fn lemma_repo_name_is_segment(url: Seq<char>)
    ensures
        !repo_name_of(url).contains('/'),
        url.len() == 0 ==> repo_name_of(url).len() == 0,
{
    let u = url_core(url);
    crate::text::lemma_after_last(u, '/');
    crate::text::lemma_after_last(after_last(u, ':'), '/');
    if url.len() == 0 {
        reveal_strlit(".git");
        reveal_strlit("/");
        assert(trimmed(url).len() == 0);
        assert(u.len() == 0);
        crate::text::lemma_after_last(u, ':');
    }
}

} // verus!
