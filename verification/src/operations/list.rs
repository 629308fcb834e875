//! The list of the repositories and what is shown of each.

use crate::clock::{formatted_time, minute_pattern, Timestamp};
use crate::config::Config;
use crate::fleet::RepoState;
use crate::metadata::CloneEntry;
use crate::text::{
    chars_of, decimal, padded, push_decimal, push_padded, push_repeated, repeated, text_of,
    text_of_range,
};
use vstd::prelude::*;
use vstd::string::StringExecFns;

verus! {

/// What is shown of a repository.
#[derive(Clone, Debug)]
pub struct RepoStatus {
    pub name: String,
    pub url: String,
    pub added_date: Timestamp,
    pub has_pristine: bool,
    pub pristine_path: Option<String>,
    pub pristine_created: Option<Timestamp>,
    pub clones: Vec<CloneEntry>,
    pub last_sync: Option<Timestamp>,
    pub default_branch: Option<String>,
    pub latest_tag: Option<String>,
}

/// Whether `status` is what is shown of the repository `repo`: its entry,
/// whether its mirror exists and where, and from its metadata, where that
/// could be read, the clones, the times and the names it records.
pub open spec fn shows(status: RepoStatus, repo: RepoState, config: Config) -> bool {
    &&& status.name == repo.entry.name
    &&& status.url == repo.entry.url
    &&& status.added_date == repo.entry.added_date
    &&& status.has_pristine == repo.pristine_exists
    &&& (repo.pristine_exists ==> (status.pristine_path matches Some(p) && p@
        == config.pristine_path_of(repo.entry.name@)))
    &&& (!repo.pristine_exists ==> status.pristine_path is None)
    &&& match repo.metadata {
        Some(m) => {
            &&& status.pristine_created == m.pristine_created
            &&& status.clones@ == m.clones@
            &&& status.last_sync == (match m.last_sync {
                Some(info) => Some(info.timestamp),
                None => None,
            })
            &&& status.default_branch == m.default_branch
            &&& status.latest_tag == m.latest_tag
        },
        None => {
            &&& status.pristine_created is None
            &&& status.clones@.len() == 0
            &&& status.last_sync is None
            &&& status.default_branch is None
            &&& status.latest_tag is None
        },
    }
}

/// A copy of a string that may be absent.
fn copy_text(s: &Option<String>) -> (r: Option<String>)
    ensures
        r == *s,
{
    match s {
        Some(t) => Some(t.clone()),
        None => None,
    }
}

/// What is shown of one repository.
fn status_of(repo: &RepoState, config: &Config) -> (r: RepoStatus)
    ensures
        shows(r, *repo, *config),
{
    let pristine_path = if repo.pristine_exists {
        Some(config.pristine_path(repo.entry.name.as_str()))
    } else {
        None
    };
    let mut clones: Vec<CloneEntry> = Vec::new();
    match &repo.metadata {
        Some(m) => {
            let mut i: usize = 0;
            while i < m.clones.len()
                invariant
                    i <= m.clones.len(),
                    clones@ == m.clones@.take(i as int),
                decreases m.clones.len() - i,
            {
                let e = &m.clones[i];
                clones.push(
                    CloneEntry { name: e.name.clone(), path: e.path.clone(), created: e.created },
                );
                assert(m.clones@.take(i + 1) == m.clones@.take(i as int).push(m.clones@[i as int]));
                i += 1;
            }
            assert(m.clones@.take(m.clones.len() as int) == m.clones@);
            RepoStatus {
                name: repo.entry.name.clone(),
                url: repo.entry.url.clone(),
                added_date: repo.entry.added_date,
                has_pristine: repo.pristine_exists,
                pristine_path,
                pristine_created: m.pristine_created,
                clones,
                last_sync: match &m.last_sync {
                    Some(info) => Some(info.timestamp),
                    None => None,
                },
                default_branch: copy_text(&m.default_branch),
                latest_tag: copy_text(&m.latest_tag),
            }
        },
        None => RepoStatus {
            name: repo.entry.name.clone(),
            url: repo.entry.url.clone(),
            added_date: repo.entry.added_date,
            has_pristine: repo.pristine_exists,
            pristine_path,
            pristine_created: None,
            clones,
            last_sync: None,
            default_branch: None,
            latest_tag: None,
        },
    }
}

/// What is shown of every repository of the registry, in its order.
pub fn list_all_repos(repos: &Vec<RepoState>, config: &Config) -> (r: Vec<RepoStatus>)
    ensures
        r@.len() == repos@.len(),
        forall|i: int| 0 <= i < r@.len() ==> shows(#[trigger] r@[i], repos@[i], *config),
{
    let mut r: Vec<RepoStatus> = Vec::new();
    let mut n: usize = 0;
    while n < repos.len()
        invariant
            n <= repos.len(),
            r@.len() == n,
            forall|i: int| 0 <= i < n ==> shows(#[trigger] r@[i], repos@[i], *config),
        decreases repos.len() - n,
    {
        r.push(status_of(&repos[n], config));
        n += 1;
    }
    r
}

/// A point in time as it is shown: to the minute.
pub open spec fn shown_time(t: Timestamp) -> Seq<char> {
    formatted_time(t@, minute_pattern())
}

/// The text `acc` followed by the lines for the first `n` clones: for each
/// its name and path, and when it was created.
pub open spec fn with_clone_lines(acc: Seq<char>, clones: Seq<CloneEntry>, n: int) -> Seq<char>
    decreases n,
{
    if n <= 0 {
        acc
    } else {
        with_clone_lines(acc, clones, n - 1) + "      - "@ + clones[n - 1].name@ + " ("@
            + clones[n - 1].path@ + ")\n"@ + "        Created: "@ + shown_time(
            clones[n - 1].created,
        ) + "\n"@
    }
}

/// What is shown of a repository in full: its name, its URL and when it
/// was added; whether it has a mirror, with its path and the time of its
/// creation; the last synchronisation, the default branch and the latest
/// tag, each where known; and its clones.
pub open spec fn repo_status_text(status: RepoStatus) -> Seq<char> {
    let head = "  "@ + status.name@ + " \n"@ + "    URL: "@ + status.url@ + "\n"@
        + "    Added: "@ + shown_time(status.added_date) + "\n"@;
    let mirror = if status.has_pristine {
        let a = head + "    Pristine: \u{2713} initialized\n"@;
        let b = match status.pristine_path {
            Some(p) => a + "      Path: "@ + p@ + "\n"@,
            None => a,
        };
        match status.pristine_created {
            Some(t) => b + "      Created: "@ + shown_time(t) + "\n"@,
            None => b,
        }
    } else {
        head + "    Pristine: \u{2717} not initialized\n"@
    };
    let synced = match status.last_sync {
        Some(t) => mirror + "    Last sync: "@ + shown_time(t) + "\n"@,
        None => mirror,
    };
    let branch = match status.default_branch {
        Some(b) => synced + "    Default branch: "@ + b@ + "\n"@,
        None => synced,
    };
    let tag = match status.latest_tag {
        Some(t) => branch + "    Latest tag: "@ + t@ + "\n"@,
        None => branch,
    };
    if status.clones@.len() == 0 {
        tag + "    Clones: none\n"@
    } else {
        with_clone_lines(
            tag + "    Clones: "@ + decimal(status.clones@.len()) + " total\n"@,
            status.clones@,
            status.clones@.len() as int,
        )
    }
}

/// What is shown of a repository in full.
pub fn format_repo_status(status: &RepoStatus) -> (r: String)
    ensures
        r@ == repo_status_text(*status),
{
    let mut s = "  ".to_owned();
    s.append(status.name.as_str());
    s.append(" \n");
    s.append("    URL: ");
    s.append(status.url.as_str());
    s.append("\n");
    s.append("    Added: ");
    s.append(status.added_date.format_minute().as_str());
    s.append("\n");
    if status.has_pristine {
        s.append("    Pristine: \u{2713} initialized\n");
        match &status.pristine_path {
            Some(p) => {
                s.append("      Path: ");
                s.append(p.as_str());
                s.append("\n");
            },
            None => {},
        }
        match &status.pristine_created {
            Some(t) => {
                s.append("      Created: ");
                s.append(t.format_minute().as_str());
                s.append("\n");
            },
            None => {},
        }
    } else {
        s.append("    Pristine: \u{2717} not initialized\n");
    }
    match &status.last_sync {
        Some(t) => {
            s.append("    Last sync: ");
            s.append(t.format_minute().as_str());
            s.append("\n");
        },
        None => {},
    }
    match &status.default_branch {
        Some(b) => {
            s.append("    Default branch: ");
            s.append(b.as_str());
            s.append("\n");
        },
        None => {},
    }
    match &status.latest_tag {
        Some(t) => {
            s.append("    Latest tag: ");
            s.append(t.as_str());
            s.append("\n");
        },
        None => {},
    }
    if status.clones.len() == 0 {
        s.append("    Clones: none\n");
    } else {
        s.append("    Clones: ");
        push_decimal(&mut s, status.clones.len() as u64);
        s.append(" total\n");
        let ghost start = s@;
        let mut i: usize = 0;
        while i < status.clones.len()
            invariant
                i <= status.clones.len(),
                s@ == with_clone_lines(start, status.clones@, i as int),
            decreases status.clones.len() - i,
        {
            let e = &status.clones[i];
            s.append("      - ");
            s.append(e.name.as_str());
            s.append(" (");
            s.append(e.path.as_str());
            s.append(")\n");
            s.append("        Created: ");
            s.append(e.created.format_minute().as_str());
            s.append("\n");
            i += 1;
        }
    }
    s
}

/// A text cut to `max_len` characters: the text itself where it is no
/// longer, else its first `max_len` less three characters and three dots
/// for the rest.
pub open spec fn truncated(s: Seq<char>, max_len: nat) -> Seq<char> {
    if s.len() <= max_len {
        s
    } else if max_len >= 3 {
        s.take(max_len - 3) + "..."@
    } else {
        "..."@
    }
}

/// A text cut to `max_len` characters, with three dots in place of what
/// was cut off.
pub fn truncate_string(s: &str, max_len: usize) -> (r: String)
    ensures
        r@ == truncated(s@, max_len as nat),
{
    let v = chars_of(s);
    if v.len() <= max_len {
        text_of(&v)
    } else {
        let keep: usize = if max_len >= 3 {
            max_len - 3
        } else {
            0
        };
        let mut r = text_of_range(&v, 0, keep);
        r.append("...");
        proof {
            assert(v@.subrange(0, keep as int) == v@.take(keep as int));
            if max_len < 3 {
                assert(v@.take(0) + "..."@ =~= "..."@);
            }
        }
        r
    }
}

/// The mark for a mirror that exists or does not.
pub open spec fn mirror_mark(has_pristine: bool) -> Seq<char> {
    if has_pristine {
        "\u{2713}"@
    } else {
        "\u{2717}"@
    }
}

/// The time of the last synchronisation as the table shows it.
pub open spec fn sync_cell(last_sync: Option<Timestamp>) -> Seq<char> {
    match last_sync {
        Some(t) => shown_time(t),
        None => "never"@,
    }
}

/// The width of the column of names.
pub const NAME_WIDTH: usize = 20;

/// The width of the column of mirrors.
pub const MIRROR_WIDTH: usize = 12;

/// The width of the column of clones.
pub const CLONES_WIDTH: usize = 8;

/// The width of the column of synchronisations.
pub const SYNC_WIDTH: usize = 20;

/// The length to which a name is cut.
pub const NAME_LIMIT: usize = 18;

/// The width of the rule under the heading.
pub const RULE_WIDTH: usize = 64;

/// A row of the table: four cells, each filled up to the width of its
/// column, with a space between them.
pub open spec fn table_row(a: Seq<char>, b: Seq<char>, c: Seq<char>, d: Seq<char>) -> Seq<char> {
    padded(a, NAME_WIDTH as nat) + " "@ + padded(b, MIRROR_WIDTH as nat) + " "@ + padded(
        c,
        CLONES_WIDTH as nat,
    ) + " "@ + padded(d, SYNC_WIDTH as nat) + "\n"@
}

/// The row of the table for a repository: its name cut to length, the mark
/// of its mirror, the number of its clones, and its last synchronisation.
pub open spec fn status_row(status: RepoStatus) -> Seq<char> {
    table_row(
        truncated(status.name@, NAME_LIMIT as nat),
        mirror_mark(status.has_pristine),
        decimal(status.clones@.len()),
        sync_cell(status.last_sync),
    )
}

/// The text `acc` followed by the rows for the first `n` repositories.
pub open spec fn with_rows(acc: Seq<char>, statuses: Seq<RepoStatus>, n: int) -> Seq<char>
    decreases n,
{
    if n <= 0 {
        acc
    } else {
        with_rows(acc, statuses, n - 1) + status_row(statuses[n - 1])
    }
}

/// The table of the repositories: a heading, a rule, and a row for each;
/// or, without repositories, a line that says so.
pub open spec fn summary_text(statuses: Seq<RepoStatus>) -> Seq<char> {
    if statuses.len() == 0 {
        "No repositories in vault.\n"@
    } else {
        with_rows(
            table_row("NAME"@, "PRISTINE"@, "CLONES"@, "LAST SYNC"@) + repeated(
                '-',
                RULE_WIDTH as nat,
            ) + "\n"@,
            statuses,
            statuses.len() as int,
        )
    }
}

/// Appends a row of the table to `s`.
fn push_row(s: &mut String, a: &str, b: &str, c: &str, d: &str)
    ensures
        final(s)@ == old(s)@ + table_row(a@, b@, c@, d@),
{
    push_padded(s, a, NAME_WIDTH);
    s.append(" ");
    push_padded(s, b, MIRROR_WIDTH);
    s.append(" ");
    push_padded(s, c, CLONES_WIDTH);
    s.append(" ");
    push_padded(s, d, SYNC_WIDTH);
    s.append("\n");
    assert(s@ =~= old(s)@ + table_row(a@, b@, c@, d@));
}

/// The table of the repositories.
pub fn format_summary(statuses: &Vec<RepoStatus>) -> (r: String)
    ensures
        r@ == summary_text(statuses@),
{
    if statuses.len() == 0 {
        return "No repositories in vault.\n".to_owned();
    }
    let mut s = String::new();
    push_row(&mut s, "NAME", "PRISTINE", "CLONES", "LAST SYNC");
    push_repeated(&mut s, '-', RULE_WIDTH);
    s.append("\n");
    let ghost start = s@;
    assert(start =~= table_row("NAME"@, "PRISTINE"@, "CLONES"@, "LAST SYNC"@) + repeated(
        '-',
        RULE_WIDTH as nat,
    ) + "\n"@);
    let mut i: usize = 0;
    while i < statuses.len()
        invariant
            i <= statuses.len(),
            s@ == with_rows(start, statuses@, i as int),
        decreases statuses.len() - i,
    {
        let status = &statuses[i];
        let name = truncate_string(status.name.as_str(), NAME_LIMIT);
        let mark = if status.has_pristine {
            "\u{2713}"
        } else {
            "\u{2717}"
        };
        let mut count = String::new();
        push_decimal(&mut count, status.clones.len() as u64);
        assert(count@ =~= decimal(status.clones@.len()));
        let last_sync = match &status.last_sync {
            Some(t) => t.format_minute(),
            None => "never".to_owned(),
        };
        push_row(&mut s, name.as_str(), mark, count.as_str(), last_sync.as_str());
        i += 1;
    }
    s
}

/// The lines that the list of repositories prints: the table, or for each
/// repository what is shown of it in full.
pub fn handle_list(verbose: bool, statuses: &Vec<RepoStatus>) -> (lines: Vec<String>)
    ensures
        !verbose ==> lines@.len() == 1 && lines@[0]@ == "\n"@ + summary_text(statuses@),
        verbose ==> lines@.len() == statuses@.len() + 1 && lines@[0]@
            == "\nRepository Details:\n"@ && forall|i: int|
            0 <= i < statuses@.len() ==> (#[trigger] lines@[i + 1])@ == repo_status_text(
                statuses@[i],
            ),
{
    let mut lines: Vec<String> = Vec::new();
    if verbose {
        lines.push("\nRepository Details:\n".to_owned());
        let mut i: usize = 0;
        while i < statuses.len()
            invariant
                i <= statuses.len(),
                lines@.len() == i + 1,
                lines@[0]@ == "\nRepository Details:\n"@,
                forall|k: int|
                    0 <= k < i ==> (#[trigger] lines@[k + 1])@ == repo_status_text(statuses@[k]),
            decreases statuses.len() - i,
        {
            lines.push(format_repo_status(&statuses[i]));
            i += 1;
        }
    } else {
        let mut s = "\n".to_owned();
        s.append(format_summary(statuses).as_str());
        lines.push(s);
    }
    lines
}

} // verus!
