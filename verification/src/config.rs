//! Where things are kept: one root directory each for the registry and the
//! metadata, the mirrors, the clones, the plugins and the logs.

use crate::text::{chars_of, is_prefix, starts_with, text_of_range};
use vstd::prelude::*;

verus! {

/// The root directories.
#[derive(Clone, Debug)]
pub struct Config {
    pub vault_dir: String,
    pub pristines_dir: String,
    pub clones_dir: String,
    pub plugins_dir: String,
    pub logs_dir: String,
}

/// What `Path::join` of the standard library gives for a base and a path.
pub uninterp spec fn joined_path(base: Seq<char>, name: Seq<char>) -> Seq<char>;

/// `std::path::Path::join`: `name` adjoined to `base` as the platform's
/// paths are formed. The result is named, not spelled out.
#[verifier::external_body]
pub(crate) fn join_path(base: &str, name: &str) -> (r: String)
    ensures
        r@ == joined_path(base@, name@),
{
    std::path::Path::new(base).join(name).to_string_lossy().into_owned()
}

/// The directory of the library's own files under the home directory.
pub open spec fn state_root(home: Seq<char>) -> Seq<char> {
    joined_path(home, ".repoman"@)
}

/// A path with a leading `~` replaced by the home directory.
pub open spec fn tilde_expanded(path: Seq<char>, home: Seq<char>) -> Seq<char> {
    if is_prefix("~/"@, path) {
        joined_path(home, path.skip(2))
    } else if path == "~"@ {
        home
    } else {
        path
    }
}

/// Whether a path begins with the home directory's `~`, so that expanding
/// it takes the home directory.
pub open spec fn mentions_home(path: Seq<char>) -> bool {
    is_prefix("~/"@, path) || path == "~"@
}

/// Whether a path begins with the home directory's `~`.
pub fn path_mentions_home(path: &str) -> (r: bool)
    ensures
        r == mentions_home(path@),
{
    let v = chars_of(path);
    let tilde_slash = chars_of("~/");
    starts_with(&v, &tilde_slash) || path.eq("~")
}

/// A path with a leading `~` replaced by the home directory `home`.
pub fn expand_tilde(path: &str, home: &str) -> (r: String)
    ensures
        r@ == tilde_expanded(path@, home@),
{
    let v = chars_of(path);
    let tilde_slash = chars_of("~/");
    proof {
        reveal_strlit("~/");
    }
    if starts_with(&v, &tilde_slash) {
        let rest = text_of_range(&v, 2, v.len());
        assert(v@.subrange(2, v.len() as int) == path@.skip(2));
        join_path(home, rest.as_str())
    } else if path.eq("~") {
        home.to_owned()
    } else {
        path.to_owned()
    }
}

impl Config {
    /// The directories used where nothing is configured: all of them under
    /// `.repoman` in the home directory `home`.
    pub fn default_under(home: &str) -> (r: Config)
        ensures
            r.vault_dir@ == joined_path(state_root(home@), "vault"@),
            r.pristines_dir@ == joined_path(state_root(home@), "pristines"@),
            r.clones_dir@ == joined_path(state_root(home@), "clones"@),
            r.plugins_dir@ == joined_path(state_root(home@), "plugins"@),
            r.logs_dir@ == joined_path(state_root(home@), "logs"@),
    {
        let root = join_path(home, ".repoman");
        Config {
            vault_dir: join_path(root.as_str(), "vault"),
            pristines_dir: join_path(root.as_str(), "pristines"),
            clones_dir: join_path(root.as_str(), "clones"),
            plugins_dir: join_path(root.as_str(), "plugins"),
            logs_dir: join_path(root.as_str(), "logs"),
        }
    }

    /// The path of the mirror of the repository `name`.
    pub open spec fn pristine_path_of(self, name: Seq<char>) -> Seq<char> {
        joined_path(self.pristines_dir@, name)
    }

    /// The path of the clone directory `dir_name`.
    pub open spec fn clone_path_of(self, dir_name: Seq<char>) -> Seq<char> {
        joined_path(self.clones_dir@, dir_name)
    }

    /// The directory of the metadata of the repository `name`.
    pub open spec fn metadata_dir_of(self, name: Seq<char>) -> Seq<char> {
        joined_path(self.vault_dir@, name)
    }

    /// The path of the mirror of the repository `name`: its name under the
    /// root of the mirrors.
    pub fn pristine_path(&self, name: &str) -> (r: String)
        ensures
            r@ == self.pristine_path_of(name@),
    {
        join_path(self.pristines_dir.as_str(), name)
    }

    /// The path of the clone directory `dir_name`: its name under the root
    /// of the clones.
    pub fn clone_path(&self, dir_name: &str) -> (r: String)
        ensures
            r@ == self.clone_path_of(dir_name@),
    {
        join_path(self.clones_dir.as_str(), dir_name)
    }

    /// The directory of the metadata of the repository `name`: its name
    /// under the root of the registry.
    pub fn metadata_dir(&self, name: &str) -> (r: String)
        ensures
            r@ == self.metadata_dir_of(name@),
    {
        join_path(self.vault_dir.as_str(), name)
    }

    /// The file of the metadata of the repository `name`.
    pub fn metadata_path(&self, name: &str) -> (r: String)
        ensures
            r@ == joined_path(self.metadata_dir_of(name@), "metadata.json"@),
    {
        let dir = self.metadata_dir(name);
        join_path(dir.as_str(), "metadata.json")
    }

    /// The file of the registry.
    pub fn vault_path(&self) -> (r: String)
        ensures
            r@ == joined_path(self.vault_dir@, "vault.json"@),
    {
        join_path(self.vault_dir.as_str(), "vault.json")
    }
}

} // verus!
