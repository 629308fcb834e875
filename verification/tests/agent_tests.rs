use repoman::agent::{
    evaluate, get_agent_status, handle_agent, log_file_path, pid_file_path, plan_cycle,
    start_agent, stop_agent, AgentCommand, AgentTask, SyncDecision, DEFAULT_INTERVAL,
};
use repoman::clock::Timestamp;
use repoman::config::Config;
use repoman::error::RepomanError;
use repoman::fleet::RepoState;
use repoman::metadata::Metadata;
use repoman::vault::VaultEntry;

fn test_config() -> Config {
    Config {
        vault_dir: "/base/vault".to_string(),
        pristines_dir: "/base/pristines".to_string(),
        clones_dir: "/base/clones".to_string(),
        plugins_dir: "/base/plugins".to_string(),
        logs_dir: "/base/logs".to_string(),
    }
}

fn at(secs: i64) -> Timestamp {
    Timestamp::new(secs, 0).unwrap()
}

fn repo(name: &str, mirror: bool, interval: Option<u64>, last_sync: Option<i64>) -> RepoState {
    let mut m = Metadata::new_at(vec!["url".to_string()], at(0));
    m.sync_interval = interval;
    if let Some(t) = last_sync {
        m.mark_synced_at("auto", at(t));
    }
    RepoState {
        entry: VaultEntry { name: name.to_string(), url: "url".to_string(), added_date: at(0) },
        pristine_exists: mirror,
        metadata: Some(m),
        clones: vec![],
    }
}

fn task_names(tasks: &[AgentTask]) -> Vec<String> {
    tasks
        .iter()
        .map(|t| match t {
            AgentTask::CheckTag(n) => format!("tag:{}", n),
            AgentTask::Update(n) => format!("update:{}", n),
        })
        .collect()
}

#[test]
fn test_agent_paths() {
    let config = test_config();
    assert_eq!(pid_file_path(&config), "/base/logs/agent.pid");
    assert_eq!(log_file_path(&config), "/base/logs/agent.log");
}

#[test]
fn test_get_agent_status() {
    let config = test_config();
    assert_eq!(get_agent_status(None, &config).unwrap(), "Agent is not running");
    assert_eq!(
        get_agent_status(Some(4242), &config).unwrap(),
        "Agent is running (PID: 4242)\nLog file: /base/logs/agent.log"
    );
}

#[test]
fn test_handle_agent_actions() {
    assert_eq!(handle_agent("start").unwrap(), AgentCommand::Start);
    assert_eq!(handle_agent("stop").unwrap(), AgentCommand::Stop);
    assert_eq!(handle_agent("status").unwrap(), AgentCommand::Status);
    assert_eq!(handle_agent("run").unwrap(), AgentCommand::Run);
    match handle_agent("restart") {
        Err(RepomanError::InvalidAgentAction(a)) => assert_eq!(a, "restart"),
        other => panic!("Expected InvalidAgentAction, got {:?}", other),
    }
    assert!(handle_agent("").is_err());
    assert!(handle_agent("Start").is_err());
}

#[test]
fn test_start_and_stop_agent() {
    assert!(start_agent(None).is_ok());
    assert_eq!(start_agent(Some(7)), Err(RepomanError::AgentAlreadyRunning(7)));
    assert_eq!(stop_agent(Some(7)), Ok(7));
    assert_eq!(stop_agent(None), Err(RepomanError::AgentNotRunning));
}

#[test]
fn test_evaluate_decides_by_the_interval() {
    let now = at(10_000);
    // passed over without a mirror or without metadata
    assert_eq!(evaluate(&repo("a", false, Some(60), None), now, 3600), SyncDecision::Skip);
    let mut no_meta = repo("a", true, Some(60), None);
    no_meta.metadata = None;
    assert_eq!(evaluate(&no_meta, now, 3600), SyncDecision::Skip);
    // never synchronised: due
    assert_eq!(evaluate(&repo("a", true, Some(60), None), now, 3600), SyncDecision::Due);
    // the interval has passed, to the second
    assert_eq!(evaluate(&repo("a", true, Some(60), Some(9_940)), now, 3600), SyncDecision::Due);
    assert_eq!(
        evaluate(&repo("a", true, Some(60), Some(9_941)), now, 3600),
        SyncDecision::Wait(1)
    );
    assert_eq!(
        evaluate(&repo("a", true, Some(60), Some(9_999)), now, 3600),
        SyncDecision::Wait(59)
    );
    // without an interval of its own the default counts
    assert_eq!(
        evaluate(&repo("a", true, None, Some(9_000)), now, 3600),
        SyncDecision::Wait(2_600)
    );
    assert_eq!(evaluate(&repo("a", true, None, Some(6_400)), now, 3600), SyncDecision::Due);
    // a synchronisation in the future waits the longer
    assert_eq!(
        evaluate(&repo("a", true, Some(60), Some(10_030)), now, 3600),
        SyncDecision::Wait(90)
    );
    // an interval of nothing is always due
    assert_eq!(evaluate(&repo("a", true, Some(0), Some(10_000)), now, 3600), SyncDecision::Due);
    // the greatest interval there is
    assert_eq!(
        evaluate(&repo("a", true, Some(u64::MAX), Some(9_000)), now, 3600),
        SyncDecision::Wait(u64::MAX - 1_000)
    );
    assert_eq!(
        evaluate(&repo("a", true, Some(u64::MAX), Some(11_000)), now, 3600),
        SyncDecision::Wait(u64::MAX)
    );
}

#[test]
fn test_evaluate_counts_whole_seconds() {
    let mut r = repo("a", true, Some(60), None);
    r.metadata.as_mut().unwrap().mark_synced_at("auto", Timestamp::new(100, 500_000_000).unwrap());
    // 59.9 seconds have passed: one second is left
    let now = Timestamp::new(160, 400_000_000).unwrap();
    assert_eq!(evaluate(&r, now, 3600), SyncDecision::Wait(1));
    let now = Timestamp::new(160, 500_000_000).unwrap();
    assert_eq!(evaluate(&r, now, 3600), SyncDecision::Due);
}

#[test]
fn test_plan_cycle_sleeps_until_the_first_is_due() {
    let now = at(10_000);
    let repos = vec![
        repo("due-never-synced", true, Some(60), None),
        repo("waits-500", true, Some(1_000), Some(9_500)),
        repo("no-mirror", false, Some(10), Some(0)),
        repo("waits-120", true, Some(7_200), Some(2_920)),
        repo("due-interval-passed", true, Some(100), Some(9_000)),
        repo("waits-7000", true, Some(7_200), Some(9_800)),
    ];
    let plan = plan_cycle(Some(&repos), now, DEFAULT_INTERVAL);
    assert_eq!(plan.sleep_secs, 120);
    assert_eq!(
        task_names(&plan.tasks),
        vec![
            "tag:due-never-synced",
            "update:due-never-synced",
            "tag:due-interval-passed",
            "update:due-interval-passed"
        ]
    );
}

#[test]
fn test_plan_cycle_may_sleep_longer_than_the_default() {
    let now = at(10_000);
    let repos = vec![repo("slow", true, Some(86_400), Some(9_900))];
    let plan = plan_cycle(Some(&repos), now, DEFAULT_INTERVAL);
    assert_eq!(plan.sleep_secs, 86_300);
    assert!(plan.tasks.is_empty());
}

#[test]
fn test_plan_cycle_defaults() {
    let now = at(10_000);
    // an empty registry
    let plan = plan_cycle(Some(&vec![]), now, DEFAULT_INTERVAL);
    assert_eq!(plan.sleep_secs, 3600);
    assert!(plan.tasks.is_empty());
    // a registry that could not be read
    let plan = plan_cycle(None, now, 77);
    assert_eq!(plan.sleep_secs, 77);
    assert!(plan.tasks.is_empty());
    // every repository due or passed over
    let repos = vec![repo("a", true, Some(60), None), repo("b", false, Some(60), Some(9_999))];
    let plan = plan_cycle(Some(&repos), now, 1234);
    assert_eq!(plan.sleep_secs, 1234);
    assert_eq!(task_names(&plan.tasks), vec!["tag:a", "update:a"]);
}
