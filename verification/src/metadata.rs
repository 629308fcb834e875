//! The record kept for each repository: its remotes, its clones, and when
//! it was last synchronised.

use crate::clock::{current_time, Timestamp};
use vstd::prelude::*;

verus! {

/// A clone of a repository: its suffix, its directory, and when it was made.
#[derive(Clone, Debug)]
pub struct CloneEntry {
    pub name: String,
    pub path: String,
    pub created: Timestamp,
}

/// When a repository was last synchronised, and whether by hand (`manual`)
/// or by the agent (`auto`).
#[derive(Clone, Debug)]
pub struct SyncInfo {
    pub timestamp: Timestamp,
    pub sync_type: String,
}

/// The commands that build a repository.
#[derive(Clone, Debug)]
pub struct BuildConfig {
    pub command: Option<String>,
    pub pre_build: Option<String>,
    pub post_build: Option<String>,
}

/// The commands to run before and after the steps of the lifecycle.
#[derive(Clone, Debug)]
pub struct HookConfig {
    pub pre_clone: Option<String>,
    pub post_clone: Option<String>,
    pub pre_build: Option<String>,
    pub post_build: Option<String>,
    pub pre_destroy: Option<String>,
    pub post_destroy: Option<String>,
}

/// How to authenticate against the remotes of a repository.
#[derive(Clone, Debug)]
pub struct AuthConfig {
    pub ssh_key_path: Option<String>,
    pub token_env_var: Option<String>,
}

/// The record of a repository.
#[derive(Clone, Debug)]
pub struct Metadata {
    /// The URLs of the remotes; the first is the default.
    pub git_urls: Vec<String>,
    pub created_on: Timestamp,
    pub last_updated: Timestamp,
    pub default_branch: Option<String>,
    pub tracked_branches: Vec<String>,
    pub clones: Vec<CloneEntry>,
    pub readme: Option<String>,
    /// Seconds between two synchronisations by the agent.
    pub sync_interval: Option<u64>,
    pub last_sync: Option<SyncInfo>,
    pub build_config: Option<BuildConfig>,
    pub hook_config: Option<HookConfig>,
    pub auth_config: Option<AuthConfig>,
    pub latest_tag: Option<String>,
    /// When the mirror was created, where one was last known to exist.
    pub pristine_created: Option<Timestamp>,
}

/// The interval between two synchronisations that a new record gets.
pub const DEFAULT_SYNC_INTERVAL: u64 = 3600;

impl Default for SyncInfo {
    /// A synchronisation at the epoch, of no kind.
    fn default() -> (r: SyncInfo)
        ensures
            r.timestamp@ == 0,
            r.sync_type@.len() == 0,
    {
        SyncInfo { timestamp: Timestamp::epoch(), sync_type: String::new() }
    }
}

impl Default for BuildConfig {
    /// No commands.
    fn default() -> (r: BuildConfig)
        ensures
            r == (BuildConfig { command: None, pre_build: None, post_build: None }),
    {
        BuildConfig { command: None, pre_build: None, post_build: None }
    }
}

impl Default for HookConfig {
    /// No commands.
    fn default() -> (r: HookConfig)
        ensures
            r == (HookConfig {
                pre_clone: None,
                post_clone: None,
                pre_build: None,
                post_build: None,
                pre_destroy: None,
                post_destroy: None,
            }),
    {
        HookConfig {
            pre_clone: None,
            post_clone: None,
            pre_build: None,
            post_build: None,
            pre_destroy: None,
            post_destroy: None,
        }
    }
}

impl Default for AuthConfig {
    /// Neither a key nor a token.
    fn default() -> (r: AuthConfig)
        ensures
            r == (AuthConfig { ssh_key_path: None, token_env_var: None }),
    {
        AuthConfig { ssh_key_path: None, token_env_var: None }
    }
}

/// Whether `i` is the position of the first clone of `clones` named `name`.
pub open spec fn is_first_clone(clones: Seq<CloneEntry>, name: Seq<char>, i: int) -> bool {
    &&& 0 <= i < clones.len()
    &&& clones[i].name@ == name
    &&& forall|j: int| 0 <= j < i ==> (#[trigger] clones[j]).name@ != name
}

/// Whether some clone of `clones` is named `name`.
pub open spec fn some_clone_named(clones: Seq<CloneEntry>, name: Seq<char>) -> bool {
    exists|i: int| 0 <= i < clones.len() && (#[trigger] clones[i]).name@ == name
}

/// Whether no two clones of `clones` have the same name.
pub open spec fn clone_names_distinct(clones: Seq<CloneEntry>) -> bool {
    forall|i: int, j: int|
        0 <= i < j < clones.len() ==> (#[trigger] clones[i]).name@ != (#[trigger] clones[j]).name@
}

impl Default for Metadata {
    /// A record without remotes and without an interval, as of the current
    /// time.
    fn default() -> (r: Metadata)
        ensures
            r.git_urls@.len() == 0,
            r.is_fresh(None),
    {
        let now = current_time();
        Metadata {
            git_urls: Vec::new(),
            created_on: now,
            last_updated: now,
            default_branch: None,
            tracked_branches: Vec::new(),
            clones: Vec::new(),
            readme: None,
            sync_interval: None,
            last_sync: None,
            build_config: None,
            hook_config: None,
            auth_config: None,
            latest_tag: None,
            pristine_created: None,
        }
    }
}

impl Metadata {
    /// Whether the record is that of a repository just registered, with
    /// the interval `interval`: no branches, no clones, no mirror, nothing
    /// configured, and never changed since it was created.
    pub open spec fn is_fresh(self, interval: Option<u64>) -> bool {
        &&& self.created_on == self.last_updated
        &&& self.default_branch is None
        &&& self.tracked_branches@.len() == 0
        &&& self.clones@.len() == 0
        &&& self.readme is None
        &&& self.sync_interval == interval
        &&& self.last_sync is None
        &&& self.build_config is None
        &&& self.hook_config is None
        &&& self.auth_config is None
        &&& self.latest_tag is None
        &&& self.pristine_created is None
    }

    /// Whether the record has a clone named `name`.
    pub open spec fn has_clone(self, name: Seq<char>) -> bool {
        some_clone_named(self.clones@, name)
    }

    /// The record of a repository with the remotes `urls`, the first of
    /// which is the default, as of `now`: no clones, no mirror, and the
    /// default interval.
    pub fn new_at(urls: Vec<String>, now: Timestamp) -> (r: Metadata)
        ensures
            r.git_urls == urls,
            r.created_on == now,
            r.is_fresh(Some(DEFAULT_SYNC_INTERVAL)),
    {
        Metadata {
            git_urls: urls,
            created_on: now,
            last_updated: now,
            default_branch: None,
            tracked_branches: Vec::new(),
            clones: Vec::new(),
            readme: None,
            sync_interval: Some(DEFAULT_SYNC_INTERVAL),
            last_sync: None,
            build_config: None,
            hook_config: None,
            auth_config: None,
            latest_tag: None,
            pristine_created: None,
        }
    }

    /// The record of a repository with the remotes `urls`, as of the
    /// current time.
    pub fn new(urls: Vec<String>) -> (r: Metadata)
        ensures
            r.git_urls == urls,
            r.is_fresh(Some(DEFAULT_SYNC_INTERVAL)),
    {
        Metadata::new_at(urls, current_time())
    }

    /// The default remote: the first URL, where there is one.
    pub fn default_url(&self) -> (r: Option<&str>)
        ensures
            r is Some <==> self.git_urls@.len() > 0,
            r matches Some(u) ==> u@ == self.git_urls@[0]@,
    {
        if self.git_urls.len() > 0 {
            Some(self.git_urls[0].as_str())
        } else {
            None
        }
    }

    /// Records `now` as the time of the last change.
    pub fn touch_at(&mut self, now: Timestamp)
        ensures
            *final(self) == (Metadata { last_updated: now, ..*old(self) }),
    {
        self.last_updated = now;
    }

    /// Records the current time as the time of the last change: a time
    /// that the clock gave, which is not before the epoch. Nothing else
    /// changes.
    pub fn touch(&mut self)
        ensures
            *final(self) == (Metadata { last_updated: final(self).last_updated, ..*old(self) }),
            final(self).last_updated@ >= 0,
    {
        self.touch_at(current_time());
    }

    /// Appends the clone `name` at `path`, made at `now`, and records the
    /// change.
    pub fn add_clone_at(&mut self, name: String, path: String, now: Timestamp)
        ensures
            final(self).clones@ == old(self).clones@.push(CloneEntry { name, path, created: now }),
            final(self).last_updated == now,
            *final(self) == (Metadata {
                clones: final(self).clones,
                last_updated: now,
                ..*old(self)
            }),
            clone_names_distinct(old(self).clones@) && !old(self).has_clone(name@)
                ==> clone_names_distinct(final(self).clones@),
    {
        let ghost before = self.clones@;
        self.clones.push(CloneEntry { name, path, created: now });
        self.last_updated = now;
        proof {
            let after = self.clones@;
            if clone_names_distinct(before) && !some_clone_named(before, name@) {
                assert forall|i: int, j: int| 0 <= i < j < after.len() implies (
                #[trigger] after[i]).name@ != (#[trigger] after[j]).name@ by {
                    assert(after[i] == before[i]);
                    if j < before.len() {
                        assert(after[j] == before[j]);
                    }
                }
            }
        }
    }

    /// Appends the clone `name` at `path`, made now, and records the change.
    pub fn add_clone(&mut self, name: String, path: String)
        ensures
            final(self).clones@.len() == old(self).clones@.len() + 1,
            final(self).clones@.drop_last() == old(self).clones@,
            final(self).clones@.last().name == name,
            final(self).clones@.last().path == path,
            final(self).clones@.last().created == final(self).last_updated,
            *final(self) == (Metadata {
                clones: final(self).clones,
                last_updated: final(self).last_updated,
                ..*old(self)
            }),
            clone_names_distinct(old(self).clones@) && !old(self).has_clone(name@)
                ==> clone_names_distinct(final(self).clones@),
    {
        self.add_clone_at(name, path, current_time());
        assert(final(self).clones@.drop_last() == old(self).clones@);
    }

    /// The position of the first clone named `name`, or the number of
    /// clones where there is none.
    fn clone_position(&self, name: &str) -> (i: usize)
        ensures
            i <= self.clones.len(),
            i < self.clones.len() ==> is_first_clone(self.clones@, name@, i as int),
            i == self.clones.len() ==> !self.has_clone(name@),
    {
        let mut i: usize = 0;
        while i < self.clones.len()
            invariant
                i <= self.clones.len(),
                forall|j: int| 0 <= j < i ==> (#[trigger] self.clones@[j]).name@ != name@,
            decreases self.clones.len() - i,
        {
            if self.clones[i].name.as_str().eq(name) {
                return i;
            }
            i += 1;
        }
        i
    }

    /// Removes the first clone named `name` and returns it; the change is
    /// recorded as of `now`. Without such a clone nothing changes.
    pub fn remove_clone_at(&mut self, name: &str, now: Timestamp) -> (r: Option<CloneEntry>)
        ensures
            r is Some <==> old(self).has_clone(name@),
            r is None ==> *final(self) == *old(self),
            r matches Some(e) ==> exists|i: int| #[trigger]
                is_first_clone(old(self).clones@, name@, i) && e == old(self).clones@[i]
                    && final(self).clones@ == old(self).clones@.remove(i),
            r is Some ==> *final(self) == (Metadata {
                clones: final(self).clones,
                last_updated: now,
                ..*old(self)
            }),
            clone_names_distinct(old(self).clones@) ==> clone_names_distinct(final(self).clones@)
                && !final(self).has_clone(name@),
    {
        let i = self.clone_position(name);
        if i < self.clones.len() {
            let ghost before = self.clones@;
            self.last_updated = now;
            let e = self.clones.remove(i);
            proof {
                assert(is_first_clone(before, name@, i as int));
                if clone_names_distinct(before) {
                    lemma_remove_keeps_clones_distinct(before, i as int);
                }
            }
            Some(e)
        } else {
            None
        }
    }

    /// Removes the first clone named `name` and returns it; the change is
    /// recorded as of now. Without such a clone nothing changes.
    pub fn remove_clone(&mut self, name: &str) -> (r: Option<CloneEntry>)
        ensures
            r is Some <==> old(self).has_clone(name@),
            r is None ==> *final(self) == *old(self),
            r matches Some(e) ==> exists|i: int| #[trigger]
                is_first_clone(old(self).clones@, name@, i) && e == old(self).clones@[i]
                    && final(self).clones@ == old(self).clones@.remove(i),
            r is Some ==> *final(self) == (Metadata {
                clones: final(self).clones,
                last_updated: final(self).last_updated,
                ..*old(self)
            }),
            clone_names_distinct(old(self).clones@) ==> clone_names_distinct(final(self).clones@)
                && !final(self).has_clone(name@),
    {
        self.remove_clone_at(name, current_time())
    }

    /// The first clone named `name`.
    pub fn get_clone(&self, name: &str) -> (r: Option<&CloneEntry>)
        ensures
            r is Some <==> self.has_clone(name@),
            r matches Some(e) ==> exists|i: int| #[trigger]
                is_first_clone(self.clones@, name@, i) && *e == self.clones@[i],
    {
        let i = self.clone_position(name);
        if i < self.clones.len() {
            assert(is_first_clone(self.clones@, name@, i as int));
            Some(&self.clones[i])
        } else {
            None
        }
    }

    /// Records a synchronisation of the kind `sync_type` at `now`.
    pub fn mark_synced_at(&mut self, sync_type: &str, now: Timestamp)
        ensures
            final(self).last_sync matches Some(info) && info.timestamp == now && info.sync_type@
                == sync_type@,
            *final(self) == (Metadata {
                last_sync: final(self).last_sync,
                last_updated: now,
                ..*old(self)
            }),
    {
        self.last_sync = Some(SyncInfo { timestamp: now, sync_type: sync_type.to_owned() });
        self.last_updated = now;
    }

    /// Records a synchronisation of the kind `sync_type` at the current
    /// time.
    pub fn mark_synced(&mut self, sync_type: &str)
        ensures
            final(self).last_sync matches Some(info) && info.timestamp == final(self).last_updated
                && info.sync_type@ == sync_type@,
            *final(self) == (Metadata {
                last_sync: final(self).last_sync,
                last_updated: final(self).last_updated,
                ..*old(self)
            }),
    {
        self.mark_synced_at(sync_type, current_time());
    }

    /// Records that the mirror was created at `now`.
    pub fn mark_pristine_created_at(&mut self, now: Timestamp)
        ensures
            *final(self) == (Metadata {
                pristine_created: Some(now),
                last_updated: now,
                ..*old(self)
            }),
    {
        self.pristine_created = Some(now);
        self.last_updated = now;
    }

    /// Records that the mirror was created at the current time.
    pub fn mark_pristine_created(&mut self)
        ensures
            final(self).pristine_created == Some(final(self).last_updated),
            *final(self) == (Metadata {
                pristine_created: final(self).pristine_created,
                last_updated: final(self).last_updated,
                ..*old(self)
            }),
    {
        self.mark_pristine_created_at(current_time());
    }

    /// Records that the mirror is gone. The time of the last change stays.
    pub fn clear_pristine_created(&mut self)
        ensures
            *final(self) == (Metadata { pristine_created: None, ..*old(self) }),
    {
        self.pristine_created = None;
    }

    /// Records `tag` as the latest tag seen. The time of the last change
    /// stays.
    pub fn set_latest_tag(&mut self, tag: &str)
        ensures
            final(self).latest_tag matches Some(t) && t@ == tag@,
            *final(self) == (Metadata { latest_tag: final(self).latest_tag, ..*old(self) }),
    {
        self.latest_tag = Some(tag.to_owned());
    }
}

/// Taking a clone out of a list with distinct names leaves the names
/// distinct, and leaves none with the name taken out.
pub proof fn lemma_remove_keeps_clones_distinct(clones: Seq<CloneEntry>, i: int)
    requires
        0 <= i < clones.len(),
        clone_names_distinct(clones),
    ensures
        clone_names_distinct(clones.remove(i)),
        !some_clone_named(clones.remove(i), clones[i].name@),
{
    let t = clones.remove(i);
    assert forall|a: int, b: int| 0 <= a < b < t.len() implies (#[trigger] t[a]).name@ != (
    #[trigger] t[b]).name@ by {
        let a0 = if a < i {
            a
        } else {
            a + 1
        };
        let b0 = if b < i {
            b
        } else {
            b + 1
        };
        assert(t[a] == clones[a0]);
        assert(t[b] == clones[b0]);
    }
    if some_clone_named(t, clones[i].name@) {
        let a = choose|a: int| 0 <= a < t.len() && (#[trigger] t[a]).name@ == clones[i].name@;
        let a0 = if a < i {
            a
        } else {
            a + 1
        };
        assert(t[a] == clones[a0]);
        if a0 < i {
            assert(clones[a0].name@ != clones[i].name@);
        } else {
            assert(clones[i].name@ != clones[a0].name@);
        }
    }
}

} // verus!
