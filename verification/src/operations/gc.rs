//! Stale clones and the compaction of mirrors.

use crate::clock::{representable, whole_units, Timestamp, NANOS_PER_SEC, SECS_PER_DAY};
use crate::config::Config;
use crate::fleet::RepoState;
use crate::metadata::CloneEntry;
use crate::text::{decimal, push_decimal, push_signed_decimal, signed_decimal};
use vstd::prelude::*;
use vstd::string::StringExecFns;

verus! {

/// A clone whose head commit is older than the threshold.
#[derive(Clone, Debug)]
pub struct StaleClone {
    pub repo_name: String,
    pub clone_name: String,
    pub path: String,
    pub days_old: i64,
}

/// What a run of the garbage collection found and did.
#[derive(Clone, Debug)]
pub struct GcReport {
    pub stale_clones: Vec<StaleClone>,
    pub pristines_gc_run: usize,
}

/// The nanoseconds of a day.
pub open spec fn nanos_per_day() -> int {
    SECS_PER_DAY * (NANOS_PER_SEC as int)
}

/// Whether a head commit made at the second `head_secs` is stale at `now`
/// under a threshold of `days` days: it lies within the calendar, and more
/// than `days` days before `now`.
pub open spec fn is_stale(head_secs: i64, now: Timestamp, days: u64) -> bool {
    representable(head_secs as int, 0) && head_secs * (NANOS_PER_SEC as int) < now@ - days
        * nanos_per_day()
}

/// The age in whole days at `now` of a head commit made at the second
/// `head_secs`.
pub open spec fn age_in_days(head_secs: i64, now: Timestamp) -> int {
    whole_units(now@ - head_secs * (NANOS_PER_SEC as int), nanos_per_day())
}

/// The age in days of a head commit made at the second `head_secs`, where
/// it is stale at `now` under a threshold of `days` days.
pub fn stale_age(head_secs: i64, now: Timestamp, days: u64) -> (r: Option<i64>)
    ensures
        r is Some <==> is_stale(head_secs, now, days),
        r matches Some(d) ==> d == age_in_days(head_secs, now),
{
    match Timestamp::from_secs(head_secs) {
        None => None,
        Some(head) => {
            let day: i128 = 86_400_000_000_000;
            let threshold: i128 = (days as i128) * day;
            let cutoff: i128 = now.total_nanos() - threshold;
            if head.total_nanos() < cutoff {
                Some(now.days_since(&head))
            } else {
                None
            }
        },
    }
}

/// A head commit exactly `days` days old is not stale, and one a second
/// older is.
pub proof fn lemma_staleness_boundary(head_secs: i64, now: Timestamp, days: u64)
    requires
        representable(head_secs as int, 0),
        representable(head_secs - 1, 0),
        now@ - days * nanos_per_day() == head_secs * (NANOS_PER_SEC as int),
    ensures
        !is_stale(head_secs, now, days),
        is_stale((head_secs - 1) as i64, now, days),
{
}

/// Whether the clone at position `i` of a repository is stale.
pub open spec fn clone_is_stale(repo: RepoState, i: int, now: Timestamp, days: u64) -> bool {
    &&& repo.metadata matches Some(m)
    &&& 0 <= i < m.clones@.len()
    &&& repo.clone_head_time(i) matches Some(t)
    &&& is_stale(t, now, days)
}

/// The positions of the stale clones among the first `n` clones of a
/// repository, in their order.
pub open spec fn stale_in_repo(repo: RepoState, now: Timestamp, days: u64, n: int) -> Seq<int>
    decreases n,
{
    if n <= 0 {
        Seq::empty()
    } else if clone_is_stale(repo, n - 1, now, days) {
        stale_in_repo(repo, now, days, n - 1).push(n - 1)
    } else {
        stale_in_repo(repo, now, days, n - 1)
    }
}

/// The number of clones recorded for a repository.
pub open spec fn clone_count(repo: RepoState) -> int {
    match repo.metadata {
        Some(m) => m.clones@.len() as int,
        None => 0,
    }
}

/// The stale clones among the first `n` repositories, each as the position
/// of its repository and its own position there, in the order of the
/// registry and of the metadata.
pub open spec fn stale_positions(repos: Seq<RepoState>, now: Timestamp, days: u64, n: int) -> Seq<
    (int, int),
>
    decreases n,
{
    if n <= 0 {
        Seq::empty()
    } else {
        stale_positions(repos, now, days, n - 1) + stale_in_repo(
            repos[n - 1],
            now,
            days,
            clone_count(repos[n - 1]),
        ).map_values(|i: int| (n - 1, i))
    }
}

/// Whether `found` describes the clone at position `i` of `repo` at `now`.
pub open spec fn describes(found: StaleClone, repo: RepoState, i: int, now: Timestamp) -> bool {
    &&& repo.metadata matches Some(m)
    &&& 0 <= i < m.clones@.len()
    &&& repo.clone_head_time(i) matches Some(t)
    &&& found.repo_name@ == repo.entry.name@
    &&& found.clone_name@ == m.clones@[i].name@
    &&& found.path@ == m.clones@[i].path@
    &&& found.days_old == age_in_days(t, now)
}

/// Whether `found` lists the clones at the positions `at`, in their order.
pub open spec fn lists_clones(
    found: Seq<StaleClone>,
    at: Seq<(int, int)>,
    repos: Seq<RepoState>,
    now: Timestamp,
) -> bool {
    &&& found.len() == at.len()
    &&& forall|k: int|
        0 <= k < found.len() ==> 0 <= (#[trigger] at[k]).0 < repos.len() && describes(
            found[k],
            repos[at[k].0],
            at[k].1,
            now,
        )
}

/// The clones whose head commit is more than `days` days older than `now`,
/// among those whose directory exists and holds a repository with a head
/// commit, in the order of the registry and of the metadata. A repository
/// without readable metadata has none.
pub fn find_stale_clones(days: u64, now: Timestamp, repos: &Vec<RepoState>) -> (r: Vec<StaleClone>)
    ensures
        lists_clones(r@, stale_positions(repos@, now, days, repos@.len() as int), repos@, now),
{
    let mut stale: Vec<StaleClone> = Vec::new();
    let mut n: usize = 0;
    while n < repos.len()
        invariant
            n <= repos.len(),
            lists_clones(stale@, stale_positions(repos@, now, days, n as int), repos@, now),
        decreases repos.len() - n,
    {
        let repo = &repos[n];
        let ghost done = stale_positions(repos@, now, days, n as int);
        match &repo.metadata {
            None => {
                assert(stale_in_repo(*repo, now, days, 0).map_values(|i: int| (n as int, i))
                    =~= Seq::<(int, int)>::empty());
                assert(stale_positions(repos@, now, days, n + 1) =~= done);
            },
            Some(m) => {
                let mut i: usize = 0;
                assert(stale_in_repo(*repo, now, days, 0).map_values(|i: int| (n as int, i))
                    =~= Seq::<(int, int)>::empty());
                assert(done + Seq::<(int, int)>::empty() =~= done);
                while i < m.clones.len()
                    invariant
                        i <= m.clones.len(),
                        n < repos.len(),
                        *repo == repos@[n as int],
                        repo.metadata == Some(*m),
                        done == stale_positions(repos@, now, days, n as int),
                        lists_clones(
                            stale@,
                            done + stale_in_repo(*repo, now, days, i as int).map_values(
                                |i: int| (n as int, i),
                            ),
                            repos@,
                            now,
                        ),
                    decreases m.clones.len() - i,
                {
                    let ghost before = stale_in_repo(*repo, now, days, i as int);
                    let ghost at = done + before.map_values(|i: int| (n as int, i));
                    match repo.probe_head_time(i) {
                        None => {},
                        Some(t) => {
                            match stale_age(t, now, days) {
                                None => {},
                                Some(days_old) => {
                                    let entry: &CloneEntry = &m.clones[i];
                                    stale.push(
                                        StaleClone {
                                            repo_name: repo.entry.name.clone(),
                                            clone_name: entry.name.clone(),
                                            path: entry.path.clone(),
                                            days_old,
                                        },
                                    );
                                    proof {
                                        let after = before.push(i as int);
                                        assert(after.map_values(|i: int| (n as int, i))
                                            =~= before.map_values(|i: int| (n as int, i)).push(
                                            (n as int, i as int),
                                        ));
                                        assert(done + after.map_values(|i: int| (n as int, i))
                                            =~= at.push((n as int, i as int)));
                                    }
                                },
                            }
                        },
                    }
                    i += 1;
                }
            },
        }
        n += 1;
    }
    stale
}

/// What a run of the garbage collection is to do.
#[derive(Clone, Debug)]
pub struct GcPlan {
    /// The stale clones; they are removed unless the run is a dry one.
    pub stale_clones: Vec<StaleClone>,
    /// Whether the stale clones are to be removed and de-listed.
    pub remove_stale: bool,
    /// The mirrors to compact: none in a dry run.
    pub compact: Vec<String>,
    /// The mirrors that a dry run counts in place of compacting them.
    pub counted: usize,
}

/// The paths of the mirrors that exist among the first `n` repositories.
pub open spec fn existing_mirrors(repos: Seq<RepoState>, config: Config, n: int) -> Seq<Seq<char>>
    decreases n,
{
    if n <= 0 {
        Seq::empty()
    } else if repos[n - 1].pristine_exists {
        existing_mirrors(repos, config, n - 1).push(
            config.pristine_path_of(repos[n - 1].entry.name@),
        )
    } else {
        existing_mirrors(repos, config, n - 1)
    }
}

/// The paths of the mirrors that exist, in the order of the registry.
pub fn gc_pristines(repos: &Vec<RepoState>, config: &Config) -> (r: Vec<String>)
    ensures
        crate::text::views(r@) == existing_mirrors(repos@, *config, repos@.len() as int),
{
    let mut r: Vec<String> = Vec::new();
    let mut n: usize = 0;
    assert(crate::text::views(r@) =~= Seq::<Seq<char>>::empty());
    while n < repos.len()
        invariant
            n <= repos.len(),
            crate::text::views(r@) == existing_mirrors(repos@, *config, n as int),
        decreases repos.len() - n,
    {
        if repos[n].pristine_exists {
            let ghost before = crate::text::views(r@);
            let path = config.pristine_path(repos[n].entry.name.as_str());
            r.push(path);
            assert(crate::text::views(r@) =~= before.push(path@));
        }
        n += 1;
    }
    r
}

/// The garbage collection at `now` with a threshold of `days` days. The
/// stale clones are found in any case. A dry run removes and compacts
/// nothing, and counts the mirrors that exist; any other run removes the
/// stale clones and compacts every mirror that exists.
pub fn run_gc(days: u64, dry_run: bool, now: Timestamp, repos: &Vec<RepoState>, config: &Config) -> (plan:
    GcPlan)
    ensures
        lists_clones(
            plan.stale_clones@,
            stale_positions(repos@, now, days, repos@.len() as int),
            repos@,
            now,
        ),
        plan.remove_stale == !dry_run,
        dry_run ==> plan.compact@.len() == 0 && plan.counted == existing_mirrors(
            repos@,
            *config,
            repos@.len() as int,
        ).len(),
        !dry_run ==> plan.counted == 0 && crate::text::views(plan.compact@) == existing_mirrors(
            repos@,
            *config,
            repos@.len() as int,
        ),
{
    let stale_clones = find_stale_clones(days, now, repos);
    let mirrors = gc_pristines(repos, config);
    if dry_run {
        let compact: Vec<String> = Vec::new();
        GcPlan { stale_clones, remove_stale: false, compact, counted: mirrors.len() }
    } else {
        GcPlan { stale_clones, remove_stale: true, compact: mirrors, counted: 0 }
    }
}

impl GcPlan {
    /// The report of the run, given how many of the mirrors to compact were
    /// compacted: the stale clones, and the mirrors counted or compacted.
    pub fn report(self, compacted: usize) -> (r: GcReport)
        ensures
            r.stale_clones == self.stale_clones,
            r.pristines_gc_run == (if self.remove_stale {
                compacted
            } else {
                self.counted
            }),
    {
        let pristines_gc_run = if self.remove_stale {
            compacted
        } else {
            self.counted
        };
        GcReport { stale_clones: self.stale_clones, pristines_gc_run }
    }
}

/// The line that reports one stale clone.
pub open spec fn stale_line(sc: StaleClone) -> Seq<char> {
    "  "@ + sc.clone_name@ + " ("@ + sc.repo_name@ + ") \u{2014} "@ + signed_decimal(
        sc.days_old as int,
    ) + " days old"@
}

/// What precedes every line of a dry run.
pub open spec fn run_prefix(dry_run: bool) -> Seq<char> {
    if dry_run {
        "[dry-run] "@
    } else {
        ""@
    }
}

/// The first line of the report of a run.
pub open spec fn gc_headline(count: nat, days: u64, dry_run: bool) -> Seq<char> {
    if count == 0 {
        run_prefix(dry_run) + "No stale clones found (threshold: "@ + decimal(days as nat)
            + " days)"@
    } else {
        run_prefix(dry_run) + "Stale clones ("@ + decimal(count) + "):"@
    }
}

/// The last line of the report of a run.
pub open spec fn gc_footline(compacted: nat, dry_run: bool) -> Seq<char> {
    run_prefix(dry_run) + "Pristines GC'd: "@ + decimal(compacted)
}

/// The lines that report a run of the garbage collection: the stale clones
/// or that there are none, each stale clone with its repository and its
/// age, and the number of mirrors.
pub fn handle_gc(report: &GcReport, days: u64, dry_run: bool) -> (lines: Vec<String>)
    ensures
        lines@.len() == report.stale_clones@.len() + 2,
        lines@[0]@ == gc_headline(report.stale_clones@.len(), days, dry_run),
        forall|k: int|
            0 <= k < report.stale_clones@.len() ==> (#[trigger] lines@[k + 1])@ == stale_line(
                report.stale_clones@[k],
            ),
        lines@.last()@ == gc_footline(report.pristines_gc_run as nat, dry_run),
{
    let prefix = if dry_run {
        "[dry-run] "
    } else {
        ""
    };
    let mut lines: Vec<String> = Vec::new();
    let mut head = prefix.to_owned();
    if report.stale_clones.len() == 0 {
        head.append("No stale clones found (threshold: ");
        push_decimal(&mut head, days);
        head.append(" days)");
    } else {
        head.append("Stale clones (");
        push_decimal(&mut head, report.stale_clones.len() as u64);
        head.append("):");
    }
    lines.push(head);
    let mut k: usize = 0;
    while k < report.stale_clones.len()
        invariant
            k <= report.stale_clones.len(),
            lines@.len() == k + 1,
            lines@[0]@ == gc_headline(report.stale_clones@.len(), days, dry_run),
            forall|j: int|
                0 <= j < k ==> (#[trigger] lines@[j + 1])@ == stale_line(report.stale_clones@[j]),
        decreases report.stale_clones.len() - k,
    {
        let sc = &report.stale_clones[k];
        let mut line = "  ".to_owned();
        line.append(sc.clone_name.as_str());
        line.append(" (");
        line.append(sc.repo_name.as_str());
        line.append(") \u{2014} ");
        push_signed_decimal(&mut line, sc.days_old);
        line.append(" days old");
        lines.push(line);
        k += 1;
    }
    let mut foot = prefix.to_owned();
    foot.append("Pristines GC'd: ");
    push_decimal(&mut foot, report.pristines_gc_run as u64);
    lines.push(foot);
    lines
}

} // verus!
