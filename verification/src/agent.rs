//! The agent: which repositories are due for a synchronisation, and how
//! long to sleep before looking again.

use crate::clock::{whole_units, Timestamp, NANOS_PER_SEC};
use crate::config::{join_path, joined_path, Config};
use crate::error::RepomanError;
use crate::fleet::RepoState;
use crate::text::{decimal, push_decimal};
use vstd::prelude::*;
use vstd::string::StringExecFns;

verus! {

/// The interval between two synchronisations of a repository that has none
/// of its own, and the sleep of a cycle in which no repository waits.
pub const DEFAULT_INTERVAL: u64 = 3600;

/// The file that holds the process id of the running agent.
pub fn pid_file_path(config: &Config) -> (r: String)
    ensures
        r@ == joined_path(config.logs_dir@, "agent.pid"@),
{
    join_path(config.logs_dir.as_str(), "agent.pid")
}

/// The file that the agent writes its log to.
pub fn log_file_path(config: &Config) -> (r: String)
    ensures
        r@ == joined_path(config.logs_dir@, "agent.log"@),
{
    join_path(config.logs_dir.as_str(), "agent.log")
}

/// What is said of the agent, given the process id under which it runs.
pub open spec fn agent_status_text(running: Option<u32>, config: Config) -> Seq<char> {
    match running {
        Some(pid) => "Agent is running (PID: "@ + decimal(pid as nat) + ")\nLog file: "@
            + joined_path(config.logs_dir@, "agent.log"@),
        None => "Agent is not running"@,
    }
}

/// What is said of the agent: that it is not running, or its process id
/// `running` and the file of its log.
pub fn get_agent_status(running: Option<u32>, config: &Config) -> (r: Result<String, RepomanError>)
    ensures
        r matches Ok(s) && s@ == agent_status_text(running, *config),
{
    match running {
        Some(pid) => {
            let mut s = "Agent is running (PID: ".to_owned();
            push_decimal(&mut s, pid as u64);
            s.append(")\nLog file: ");
            let log = log_file_path(config);
            s.append(log.as_str());
            Ok(s)
        },
        None => Ok("Agent is not running".to_owned()),
    }
}

/// What the agent is asked to do.
#[derive(Clone, Copy, Debug, PartialEq, Eq, Structural)]
pub enum AgentCommand {
    Start,
    Stop,
    Status,
    Run,
}

/// The command that a word names.
pub open spec fn command_of(action: Seq<char>) -> Option<AgentCommand> {
    if action == "start"@ {
        Some(AgentCommand::Start)
    } else if action == "stop"@ {
        Some(AgentCommand::Stop)
    } else if action == "status"@ {
        Some(AgentCommand::Status)
    } else if action == "run"@ {
        Some(AgentCommand::Run)
    } else {
        None
    }
}

/// The command that `action` names; any word but `start`, `stop`,
/// `status` and `run` is refused.
pub fn handle_agent(action: &str) -> (r: Result<AgentCommand, RepomanError>)
    ensures
        r matches Ok(c) ==> command_of(action@) == Some(c),
        r matches Err(e) ==> command_of(action@) is None && (e matches RepomanError::InvalidAgentAction(a)
            && a@ == action@),
{
    if action.eq("start") {
        Ok(AgentCommand::Start)
    } else if action.eq("stop") {
        Ok(AgentCommand::Stop)
    } else if action.eq("status") {
        Ok(AgentCommand::Status)
    } else if action.eq("run") {
        Ok(AgentCommand::Run)
    } else {
        Err(RepomanError::InvalidAgentAction(action.to_owned()))
    }
}

/// Whether the agent may be started: not while it runs under the process
/// id `running`.
pub fn start_agent(running: Option<u32>) -> (r: Result<(), RepomanError>)
    ensures
        running matches Some(pid) ==> r == Err::<(), RepomanError>(
            RepomanError::AgentAlreadyRunning(pid),
        ),
        running is None ==> r is Ok,
{
    match running {
        Some(pid) => Err(RepomanError::AgentAlreadyRunning(pid)),
        None => Ok(()),
    }
}

/// The process to stop: the one under which the agent runs, where it does.
pub fn stop_agent(running: Option<u32>) -> (r: Result<u32, RepomanError>)
    ensures
        running matches Some(pid) ==> r == Ok::<u32, RepomanError>(pid),
        running is None ==> r == Err::<u32, RepomanError>(RepomanError::AgentNotRunning),
{
    match running {
        Some(pid) => Ok(pid),
        None => Err(RepomanError::AgentNotRunning),
    }
}

/// What a cycle decides for one repository.
#[derive(Clone, Copy, Debug, PartialEq, Eq, Structural)]
pub enum SyncDecision {
    /// No mirror, or no readable metadata: the repository is passed over.
    Skip,
    /// The repository is to be synchronised in this cycle.
    Due,
    /// The repository is due in so many seconds.
    Wait(u64),
}

/// The interval between two synchronisations of a repository: its own, or
/// the default.
pub open spec fn effective_interval(sync_interval: Option<u64>, default_interval: u64) -> int {
    match sync_interval {
        Some(s) => s as int,
        None => default_interval as int,
    }
}

/// The whole seconds from `then` to `now`.
pub open spec fn elapsed_seconds(now: Timestamp, then: Timestamp) -> int {
    whole_units(now@ - then@, NANOS_PER_SEC as int)
}

/// The seconds left of an interval, not less than one, and not more than a
/// `u64` holds.
pub open spec fn remaining_seconds(interval: int, elapsed: int) -> u64 {
    if interval - elapsed < 1 {
        1
    } else if interval - elapsed > u64::MAX {
        u64::MAX
    } else {
        (interval - elapsed) as u64
    }
}

/// What a cycle at `now` decides for a repository.
pub open spec fn decision_of(repo: RepoState, now: Timestamp, default_interval: u64) -> SyncDecision {
    if !repo.pristine_exists {
        SyncDecision::Skip
    } else {
        match repo.metadata {
            None => SyncDecision::Skip,
            Some(m) => match m.last_sync {
                None => SyncDecision::Due,
                Some(info) => {
                    let elapsed = elapsed_seconds(now, info.timestamp);
                    let interval = effective_interval(m.sync_interval, default_interval);
                    if elapsed >= interval {
                        SyncDecision::Due
                    } else {
                        SyncDecision::Wait(remaining_seconds(interval, elapsed))
                    }
                },
            },
        }
    }
}

/// What a cycle at `now` decides for a repository: it is passed over
/// without a mirror or without metadata; it is due where it was never
/// synchronised, or its interval has passed since; else it waits for the
/// rest of the interval.
pub fn evaluate(repo: &RepoState, now: Timestamp, default_interval: u64) -> (r: SyncDecision)
    ensures
        r == decision_of(*repo, now, default_interval),
{
    if !repo.pristine_exists {
        return SyncDecision::Skip;
    }
    match &repo.metadata {
        None => SyncDecision::Skip,
        Some(m) => match &m.last_sync {
            None => SyncDecision::Due,
            Some(info) => {
                let elapsed: i64 = now.seconds_since(&info.timestamp);
                let interval: u64 = match m.sync_interval {
                    Some(s) => s,
                    None => default_interval,
                };
                if elapsed >= 0 && elapsed as u64 >= interval {
                    SyncDecision::Due
                } else {
                    let left: i128 = (interval as i128) - (elapsed as i128);
                    if left > u64::MAX as i128 {
                        SyncDecision::Wait(u64::MAX)
                    } else {
                        SyncDecision::Wait(left as u64)
                    }
                }
            },
        },
    }
}

/// A step of the agent's work on a repository that is due.
#[derive(Clone, Debug)]
pub enum AgentTask {
    /// Look for a new tag on the remote, and record it where there is one.
    CheckTag(String),
    /// Synchronise the mirror and bring the clones forward.
    Update(String),
}

/// What a cycle does: the tasks in their order, and the sleep after them.
#[derive(Clone, Debug)]
pub struct CyclePlan {
    pub tasks: Vec<AgentTask>,
    pub sleep_secs: u64,
}

/// The names of the repositories among the first `n` that are due, in
/// their order.
pub open spec fn due_names(repos: Seq<RepoState>, now: Timestamp, default_interval: u64, n: int) -> Seq<
    Seq<char>,
>
    decreases n,
{
    if n <= 0 {
        Seq::empty()
    } else if decision_of(repos[n - 1], now, default_interval) == SyncDecision::Due {
        due_names(repos, now, default_interval, n - 1).push(repos[n - 1].entry.name@)
    } else {
        due_names(repos, now, default_interval, n - 1)
    }
}

/// Whether `tasks` is the work on the repositories `names`: for each in
/// turn the check for a new tag, then the update.
pub open spec fn tasks_for(tasks: Seq<AgentTask>, names: Seq<Seq<char>>) -> bool {
    &&& tasks.len() == 2 * names.len()
    &&& forall|k: int|
        0 <= k < names.len() ==> (#[trigger] tasks[2 * k] matches AgentTask::CheckTag(n) && n@
            == names[k])
    &&& forall|k: int|
        0 <= k < names.len() ==> (#[trigger] tasks[2 * k + 1] matches AgentTask::Update(n) && n@
            == names[k])
}

/// Whether `sleep` is the sleep of a cycle with the decisions of `repos`:
/// the least of the waits, or the default where no repository waits.
pub open spec fn is_cycle_sleep(
    sleep: u64,
    repos: Seq<RepoState>,
    now: Timestamp,
    default_interval: u64,
) -> bool {
    if exists|i: int|
        0 <= i < repos.len() && #[trigger] decision_of(repos[i], now, default_interval) is Wait {
        &&& exists|i: int|
            0 <= i < repos.len() && #[trigger] decision_of(repos[i], now, default_interval)
                == SyncDecision::Wait(sleep)
        &&& forall|i: int|
            0 <= i < repos.len() ==> (#[trigger] decision_of(repos[i], now, default_interval) matches SyncDecision::Wait(
                w,
            ) ==> sleep <= w)
    } else {
        sleep == default_interval
    }
}

/// The cycle of the agent at `now`, on what was found for the repositories
/// of the registry; `None` where the registry could not be read. Every
/// repository that is due gets its tasks, in the order of the registry. The
/// sleep is the least time left among the repositories that wait, so that
/// the agent wakes no later than the first of them is due; where none
/// waits, it is the default.
pub fn plan_cycle(repos: Option<&Vec<RepoState>>, now: Timestamp, default_interval: u64) -> (plan:
    CyclePlan)
    ensures
        repos is None ==> plan.tasks@.len() == 0 && plan.sleep_secs == default_interval,
        repos matches Some(rs) ==> tasks_for(
            plan.tasks@,
            due_names(rs@, now, default_interval, rs@.len() as int),
        ) && is_cycle_sleep(plan.sleep_secs, rs@, now, default_interval),
{
    let mut tasks: Vec<AgentTask> = Vec::new();
    let rs = match repos {
        None => {
            return CyclePlan { tasks, sleep_secs: default_interval };
        },
        Some(rs) => rs,
    };
    let mut earliest: Option<u64> = None;
    let mut i: usize = 0;
    while i < rs.len()
        invariant
            i <= rs.len(),
            tasks_for(tasks@, due_names(rs@, now, default_interval, i as int)),
            earliest is None ==> forall|k: int|
                0 <= k < i ==> !(#[trigger] decision_of(rs@[k], now, default_interval) is Wait),
            earliest matches Some(e) ==> (exists|k: int|
                0 <= k < i && #[trigger] decision_of(rs@[k], now, default_interval)
                    == SyncDecision::Wait(e)) && (forall|k: int|
                0 <= k < i ==> (#[trigger] decision_of(rs@[k], now, default_interval) matches SyncDecision::Wait(
                    w,
                ) ==> e <= w)),
        decreases rs.len() - i,
    {
        let ghost names = due_names(rs@, now, default_interval, i as int);
        match evaluate(&rs[i], now, default_interval) {
            SyncDecision::Skip => {},
            SyncDecision::Due => {
                tasks.push(AgentTask::CheckTag(rs[i].entry.name.clone()));
                tasks.push(AgentTask::Update(rs[i].entry.name.clone()));
                proof {
                    let after = names.push(rs@[i as int].entry.name@);
                    assert forall|k: int| 0 <= k < after.len() implies (
                    #[trigger] tasks@[2 * k] matches AgentTask::CheckTag(n) && n@ == after[k]) by {
                        if k < names.len() {
                            assert(after[k] == names[k]);
                        }
                    }
                    assert forall|k: int| 0 <= k < after.len() implies (
                    #[trigger] tasks@[2 * k + 1] matches AgentTask::Update(n) && n@ == after[k]) by {
                        if k < names.len() {
                            assert(after[k] == names[k]);
                        }
                    }
                }
            },
            SyncDecision::Wait(w) => {
                match earliest {
                    None => {
                        earliest = Some(w);
                    },
                    Some(e) => {
                        if w < e {
                            earliest = Some(w);
                        }
                    },
                }
            },
        }
        i += 1;
    }
    let sleep_secs = match earliest {
        Some(e) => e,
        None => default_interval,
    };
    CyclePlan { tasks, sleep_secs }
}

/// The sleep of a cycle is no longer than the wait of any repository that
/// is not yet due, it is the wait of one of them where there is any, and it
/// is never less than a second unless the default is.
pub proof fn lemma_cycle_sleep(
    sleep: u64,
    repos: Seq<RepoState>,
    now: Timestamp,
    default_interval: u64,
    i: int,
)
    requires
        is_cycle_sleep(sleep, repos, now, default_interval),
        0 <= i < repos.len(),
    ensures
        decision_of(repos[i], now, default_interval) matches SyncDecision::Wait(w) ==> 1 <= sleep
            <= w,
        sleep >= 1 || sleep == default_interval,
{
    if exists|k: int|
        0 <= k < repos.len() && #[trigger] decision_of(repos[k], now, default_interval) is Wait {
        let k = choose|k: int|
            0 <= k < repos.len() && #[trigger] decision_of(repos[k], now, default_interval)
                == SyncDecision::Wait(sleep);
        assert(decision_of(repos[k], now, default_interval) == SyncDecision::Wait(sleep));
    }
}

} // verus!
