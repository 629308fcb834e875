use repoman::clock::Timestamp;
use repoman::config::Config;
use repoman::fleet::{CloneProbe, RepoState};
use repoman::metadata::Metadata;
use repoman::operations::gc::{gc_pristines, handle_gc, stale_age};
use repoman::operations::{find_stale_clones, run_gc, GcReport, StaleClone};
use repoman::vault::VaultEntry;

const DAY: i64 = 86_400;

fn test_config() -> Config {
    Config {
        vault_dir: "/base/vault".to_string(),
        pristines_dir: "/base/pristines".to_string(),
        clones_dir: "/base/clones".to_string(),
        plugins_dir: "/base/plugins".to_string(),
        logs_dir: "/base/logs".to_string(),
    }
}

fn at(secs: i64) -> Timestamp {
    Timestamp::new(secs, 0).unwrap()
}

fn repo(name: &str, mirror: bool, clones: &[(&str, bool, Option<i64>)]) -> RepoState {
    let mut m = Metadata::new_at(vec!["url".to_string()], at(0));
    let mut probes = Vec::new();
    for (suffix, exists, head) in clones {
        m.add_clone_at(suffix.to_string(), format!("/base/clones/{}-{}", name, suffix), at(0));
        probes.push(CloneProbe { exists: *exists, head_time: *head });
    }
    RepoState {
        entry: VaultEntry { name: name.to_string(), url: "url".to_string(), added_date: at(0) },
        pristine_exists: mirror,
        metadata: Some(m),
        clones: probes,
    }
}

#[test]
fn test_staleness_boundary() {
    let now = at(100 * DAY);
    // exactly thirty days old: not stale
    assert_eq!(stale_age(70 * DAY, now, 30), None);
    // one second older: stale
    assert_eq!(stale_age(70 * DAY - 1, now, 30), Some(30));
    assert_eq!(stale_age(70 * DAY + 1, now, 30), None);
    // the fraction of the current second counts
    let later = Timestamp::new(100 * DAY, 1).unwrap();
    assert_eq!(stale_age(70 * DAY, later, 30), Some(30));
}

#[test]
fn test_stale_age_counts_whole_days() {
    let now = at(100 * DAY);
    assert_eq!(stale_age(0, now, 30), Some(100));
    assert_eq!(stale_age(1, now, 30), Some(99));
    assert_eq!(stale_age(100 * DAY - 1, now, 0), Some(0));
    assert_eq!(stale_age(100 * DAY, now, 0), None);
    // a head commit in the future is never stale
    assert_eq!(stale_age(200 * DAY, now, 0), None);
    // a threshold beyond all time, and a time outside the calendar
    assert_eq!(stale_age(0, now, u64::MAX), None);
    assert_eq!(stale_age(i64::MIN, now, 0), None);
    assert_eq!(stale_age(i64::MAX, now, 0), None);
}

#[test]
fn test_find_stale_clones() {
    let now = at(100 * DAY);
    let mut unreadable = repo("unreadable", true, &[("x", true, Some(0))]);
    unreadable.metadata = None;
    let mut short = repo("short", true, &[("p", true, Some(0)), ("q", true, Some(0))]);
    short.clones.truncate(1);
    let repos = vec![
        repo(
            "widget",
            true,
            &[
                ("old", true, Some(10 * DAY)),
                ("fresh", true, Some(90 * DAY)),
                ("gone", false, Some(0)),
                ("broken", true, None),
                ("edge", true, Some(70 * DAY)),
                ("older", true, Some(70 * DAY - 1)),
            ],
        ),
        unreadable,
        repo("gadget", false, &[("ancient", true, Some(-DAY))]),
        short,
    ];
    let stale = find_stale_clones(30, now, &repos);
    let found: Vec<(String, String, String, i64)> = stale
        .iter()
        .map(|s| (s.repo_name.clone(), s.clone_name.clone(), s.path.clone(), s.days_old))
        .collect();
    assert_eq!(
        found,
        vec![
            ("widget".to_string(), "old".to_string(), "/base/clones/widget-old".to_string(), 90),
            ("widget".to_string(), "older".to_string(), "/base/clones/widget-older".to_string(), 30),
            ("gadget".to_string(), "ancient".to_string(), "/base/clones/gadget-ancient".to_string(), 101),
            ("short".to_string(), "p".to_string(), "/base/clones/short-p".to_string(), 100),
        ]
    );
    assert!(find_stale_clones(30, now, &vec![]).is_empty());
}

#[test]
fn test_run_gc_dry_run_has_the_shape_of_a_real_run() {
    let now = at(100 * DAY);
    let config = test_config();
    let repos = vec![
        repo("widget", true, &[("old", true, Some(10 * DAY))]),
        repo("gadget", false, &[]),
        repo("gizmo", true, &[]),
    ];
    assert_eq!(
        gc_pristines(&repos, &config),
        vec!["/base/pristines/widget".to_string(), "/base/pristines/gizmo".to_string()]
    );

    let dry = run_gc(30, true, now, &repos, &config);
    assert!(!dry.remove_stale);
    assert!(dry.compact.is_empty());
    assert_eq!(dry.counted, 2);
    assert_eq!(dry.stale_clones.len(), 1);
    let report = dry.report(0);
    assert_eq!(report.pristines_gc_run, 2);
    assert_eq!(report.stale_clones.len(), 1);

    let real = run_gc(30, false, now, &repos, &config);
    assert!(real.remove_stale);
    assert_eq!(
        real.compact,
        vec!["/base/pristines/widget".to_string(), "/base/pristines/gizmo".to_string()]
    );
    assert_eq!(real.counted, 0);
    assert_eq!(real.stale_clones.len(), 1);
    let report = real.report(1);
    assert_eq!(report.pristines_gc_run, 1);
    assert_eq!(report.stale_clones[0].clone_name, "old");
}

#[test]
fn test_handle_gc_lines() {
    let none = GcReport { stale_clones: vec![], pristines_gc_run: 3 };
    assert_eq!(
        handle_gc(&none, 30, false),
        vec![
            "No stale clones found (threshold: 30 days)".to_string(),
            "Pristines GC'd: 3".to_string()
        ]
    );
    let some = GcReport {
        stale_clones: vec![
            StaleClone {
                repo_name: "widget".to_string(),
                clone_name: "abc123".to_string(),
                path: "/c/widget-abc123".to_string(),
                days_old: 45,
            },
            StaleClone {
                repo_name: "gadget".to_string(),
                clone_name: "x".to_string(),
                path: "/c/gadget-x".to_string(),
                days_old: -2,
            },
        ],
        pristines_gc_run: 0,
    };
    assert_eq!(
        handle_gc(&some, 7, true),
        vec![
            "[dry-run] Stale clones (2):".to_string(),
            "  abc123 (widget) \u{2014} 45 days old".to_string(),
            "  x (gadget) \u{2014} -2 days old".to_string(),
            "[dry-run] Pristines GC'd: 0".to_string()
        ]
    );
}
