//! The detailed status of one repository.

use crate::clock::{formatted_time, second_pattern};
use crate::error::RepomanError;
use crate::metadata::{Metadata, SyncInfo};
use crate::text::{decimal, push_decimal, trimmed_lines, trimmed_lines_of, views};
use crate::vault::{is_first_named, Vault};
use vstd::prelude::*;
use vstd::string::StringExecFns;

verus! {

/// What was found for a clone: the branch it is on, the files changed in
/// it, and how far it is ahead of and behind the mirror.
#[derive(Clone, Debug)]
pub struct CloneStatus {
    pub name: String,
    pub path: String,
    pub branch: Option<String>,
    pub dirty_files: usize,
    pub ahead: usize,
    pub behind: usize,
}

/// The detailed status of a repository.
#[derive(Clone, Debug)]
pub struct DetailedStatus {
    pub name: String,
    pub url: String,
    pub pristine_exists: bool,
    pub pristine_branches: Vec<String>,
    pub clones: Vec<CloneStatus>,
    pub latest_tag: Option<String>,
    pub last_sync: Option<String>,
    pub sync_interval: Option<u64>,
    pub alternates_ok: bool,
}

/// The paths that a file of alternates names: its lines, each without the
/// white space at its ends.
pub fn alternate_paths(content: &str) -> (r: Vec<String>)
    ensures
        views(r@) == trimmed_lines_of(content@),
{
    trimmed_lines(content)
}

/// Whether the back-references of the clones are sound, given for each
/// path that a file of alternates names whether it exists: all of them
/// must. Nothing is repaired.
pub fn alternates_healthy(exist: &Vec<bool>) -> (r: bool)
    ensures
        r == forall|i: int| 0 <= i < exist@.len() ==> #[trigger] exist@[i],
{
    let mut i: usize = 0;
    while i < exist.len()
        invariant
            i <= exist.len(),
            forall|k: int| 0 <= k < i ==> #[trigger] exist@[k],
        decreases exist.len() - i,
    {
        if !exist[i] {
            return false;
        }
        i += 1;
    }
    true
}

/// The last synchronisation as the status shows it: when, to the second,
/// and of what kind.
pub open spec fn sync_text(info: SyncInfo) -> Seq<char> {
    formatted_time(info.timestamp@, second_pattern()) + " ("@ + info.sync_type@ + ")"@
}

/// The last synchronisation as the status shows it.
pub fn last_sync_text(info: &SyncInfo) -> (r: String)
    ensures
        r@ == sync_text(*info),
{
    let mut s = info.timestamp.format_second();
    s.append(" (");
    s.append(info.sync_type.as_str());
    s.append(")");
    s
}

/// The detailed status of the repository that `name` names or is an alias
/// for, from its entry, its metadata and what was found on disk for its
/// mirror and its clones. It fails where the registry does not hold the
/// repository, and then where the metadata could not be read, with the
/// error of the reading.
pub fn get_detailed_status(
    name: &str,
    vault: &Vault,
    metadata: Result<Metadata, RepomanError>,
    pristine_exists: bool,
    pristine_branches: Vec<String>,
    clones: Vec<CloneStatus>,
    alternates_ok: bool,
) -> (r: Result<DetailedStatus, RepomanError>)
    ensures
        !vault.holds(vault.resolved(name@)) ==> (r matches Err(RepomanError::RepoNotInVault(n))
            && n@ == vault.resolved(name@)),
        vault.holds(vault.resolved(name@)) ==> match metadata {
            Err(e) => r == Err::<DetailedStatus, RepomanError>(e),
            Ok(m) => r matches Ok(status) && {
                &&& status.name@ == vault.resolved(name@)
                &&& exists|i: int| #[trigger]
                    is_first_named(vault.entries@, vault.resolved(vault.resolved(name@)), i)
                        && status.url == vault.entries@[i].url
                &&& status.pristine_exists == pristine_exists
                &&& status.pristine_branches == pristine_branches
                &&& status.clones == clones
                &&& status.latest_tag == m.latest_tag
                &&& match m.last_sync {
                    Some(info) => status.last_sync matches Some(t) && t@ == sync_text(info),
                    None => status.last_sync is None,
                }
                &&& status.sync_interval == m.sync_interval
                &&& status.alternates_ok == alternates_ok
            },
        },
{
    let resolved = vault.resolve_name(name);
    let url = match vault.get_entry(resolved) {
        Some(entry) => entry.url.clone(),
        None => {
            return Err(RepomanError::RepoNotInVault(resolved.to_owned()));
        },
    };
    let metadata = match metadata {
        Ok(m) => m,
        Err(e) => {
            return Err(e);
        },
    };
    let last_sync = match &metadata.last_sync {
        Some(info) => Some(last_sync_text(info)),
        None => None,
    };
    Ok(
        DetailedStatus {
            name: resolved.to_owned(),
            url,
            pristine_exists,
            pristine_branches,
            clones,
            latest_tag: metadata.latest_tag,
            last_sync,
            sync_interval: metadata.sync_interval,
            alternates_ok,
        },
    )
}

/// The branches of a mirror, with a comma and a space between them.
pub open spec fn joined_branches(branches: Seq<String>, n: int) -> Seq<char>
    decreases n,
{
    if n <= 0 {
        Seq::empty()
    } else if n == 1 {
        branches[0]@
    } else {
        joined_branches(branches, n - 1) + ", "@ + branches[n - 1]@
    }
}

/// The line for a clone: its name and its branch, the files changed in it
/// where there are any, and how far it is ahead and behind where it is
/// either.
pub open spec fn clone_status_line(c: CloneStatus) -> Seq<char> {
    let head = "    "@ + c.name@ + " on "@ + (match c.branch {
        Some(b) => b@,
        None => "detached"@,
    });
    let dirty = if c.dirty_files > 0 {
        head + " ("@ + decimal(c.dirty_files as nat) + " dirty)"@
    } else {
        head
    };
    let ahead_behind = if c.ahead > 0 || c.behind > 0 {
        dirty + " [+"@ + decimal(c.ahead as nat) + "/-"@ + decimal(c.behind as nat) + "]"@
    } else {
        dirty
    };
    ahead_behind + "\n"@
}

/// The text `acc` followed by the lines for the first `n` clones.
pub open spec fn with_status_lines(acc: Seq<char>, clones: Seq<CloneStatus>, n: int) -> Seq<char>
    decreases n,
{
    if n <= 0 {
        acc
    } else {
        with_status_lines(acc, clones, n - 1) + clone_status_line(clones[n - 1])
    }
}

/// The detailed status as text: the repository and its URL, whether it has
/// a mirror, the branches of the mirror, the latest tag, the last
/// synchronisation and the interval, each where known, the clones, and a
/// warning where the back-references of the clones are not sound.
pub open spec fn status_text(status: DetailedStatus) -> Seq<char> {
    let head = "Repository: "@ + status.name@ + "\n"@ + "  URL: "@ + status.url@ + "\n"@
        + "  Pristine: "@ + (if status.pristine_exists {
        "yes"@
    } else {
        "no"@
    }) + "\n"@;
    let branches = if status.pristine_branches@.len() > 0 {
        head + "  Branches: "@ + joined_branches(
            status.pristine_branches@,
            status.pristine_branches@.len() as int,
        ) + "\n"@
    } else {
        head
    };
    let tag = match status.latest_tag {
        Some(t) => branches + "  Latest tag: "@ + t@ + "\n"@,
        None => branches,
    };
    let synced = match status.last_sync {
        Some(t) => tag + "  Last sync: "@ + t@ + "\n"@,
        None => tag,
    };
    let interval = match status.sync_interval {
        Some(i) => synced + "  Sync interval: "@ + decimal(i as nat) + "s\n"@,
        None => synced,
    };
    let clones = if status.clones@.len() == 0 {
        interval + "  Clones: none\n"@
    } else {
        with_status_lines(
            interval + "  Clones ("@ + decimal(status.clones@.len()) + "):\n"@,
            status.clones@,
            status.clones@.len() as int,
        )
    };
    if status.alternates_ok {
        clones
    } else {
        clones + "  WARNING: alternates health check failed\n"@
    }
}

/// Appends the line for a clone to `s`.
fn push_clone_status(s: &mut String, c: &CloneStatus)
    ensures
        final(s)@ == old(s)@ + clone_status_line(*c),
{
    let mut line = "    ".to_owned();
    line.append(c.name.as_str());
    line.append(" on ");
    match &c.branch {
        Some(b) => {
            line.append(b.as_str());
        },
        None => {
            line.append("detached");
        },
    }
    if c.dirty_files > 0 {
        line.append(" (");
        push_decimal(&mut line, c.dirty_files as u64);
        line.append(" dirty)");
    }
    if c.ahead > 0 || c.behind > 0 {
        line.append(" [+");
        push_decimal(&mut line, c.ahead as u64);
        line.append("/-");
        push_decimal(&mut line, c.behind as u64);
        line.append("]");
    }
    line.append("\n");
    s.append(line.as_str());
}

impl DetailedStatus {
    /// The detailed status as text.
    pub fn to_text(&self) -> (r: String)
        ensures
            r@ == status_text(*self),
    {
        let mut s = "Repository: ".to_owned();
        s.append(self.name.as_str());
        s.append("\n");
        s.append("  URL: ");
        s.append(self.url.as_str());
        s.append("\n");
        s.append("  Pristine: ");
        if self.pristine_exists {
            s.append("yes");
        } else {
            s.append("no");
        }
        s.append("\n");
        if self.pristine_branches.len() > 0 {
            let mut joined = self.pristine_branches[0].clone();
            let mut i: usize = 1;
            while i < self.pristine_branches.len()
                invariant
                    1 <= i <= self.pristine_branches.len(),
                    joined@ == joined_branches(self.pristine_branches@, i as int),
                decreases self.pristine_branches.len() - i,
            {
                joined.append(", ");
                joined.append(self.pristine_branches[i].as_str());
                i += 1;
            }
            s.append("  Branches: ");
            s.append(joined.as_str());
            s.append("\n");
        }
        match &self.latest_tag {
            Some(t) => {
                s.append("  Latest tag: ");
                s.append(t.as_str());
                s.append("\n");
            },
            None => {},
        }
        match &self.last_sync {
            Some(t) => {
                s.append("  Last sync: ");
                s.append(t.as_str());
                s.append("\n");
            },
            None => {},
        }
        match self.sync_interval {
            Some(interval) => {
                s.append("  Sync interval: ");
                push_decimal(&mut s, interval);
                s.append("s\n");
            },
            None => {},
        }
        if self.clones.len() == 0 {
            s.append("  Clones: none\n");
        } else {
            s.append("  Clones (");
            push_decimal(&mut s, self.clones.len() as u64);
            s.append("):\n");
            let ghost start = s@;
            let mut i: usize = 0;
            while i < self.clones.len()
                invariant
                    i <= self.clones.len(),
                    s@ == with_status_lines(start, self.clones@, i as int),
                decreases self.clones.len() - i,
            {
                push_clone_status(&mut s, &self.clones[i]);
                i += 1;
            }
        }
        if !self.alternates_ok {
            s.append("  WARNING: alternates health check failed\n");
        }
        s
    }
}

/// What is shown as the status of a repository.
pub fn handle_status(status: &DetailedStatus) -> (r: String)
    ensures
        r@ == status_text(*status),
{
    status.to_text()
}

} // verus!
