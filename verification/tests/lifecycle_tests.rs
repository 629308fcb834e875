use repoman::clock::Timestamp;
use repoman::config::Config;
use repoman::error::{BackendClass, BackendCode, GitFailure, RepomanError};
use repoman::fleet::{CloneProbe, RepoState};
use repoman::metadata::Metadata;
use repoman::operations::clone_op::{
    admit_clone, branch_ref, checkout_branch, checkout_mode, clone_refspec, clone_target,
    conclude_clone, generate_clone_suffix, suffix_char, tracking_ref, CheckoutMode,
};
use repoman::operations::init::conclude_init;
use repoman::operations::progress::{Phase, ProgressMeter, TransferStats};
use repoman::operations::sync::{conclude_sync, mirror_refspecs, origin_name, tally, SyncKind};
use repoman::operations::update::{
    fast_forward_failed, fast_forward_note, outcome_line, reconcile, verdict, CloneOutcome,
    Inspection, MergeAnalysis, Reconciliation, SkipReason,
};
use repoman::operations::{
    clone_from_pristine, get_syncable_repos, get_uninitialized_repos, get_updatable_repos,
    init_all_pristines, init_pristine, list_clones, sync_all_pristines, sync_pristine,
    update_latest_tag, update_repo,
};
use repoman::vault::{Vault, VaultEntry};

fn test_config() -> Config {
    Config {
        vault_dir: "/base/vault".to_string(),
        pristines_dir: "/base/pristines".to_string(),
        clones_dir: "/base/clones".to_string(),
        plugins_dir: "/base/plugins".to_string(),
        logs_dir: "/base/logs".to_string(),
    }
}

fn at(secs: i64) -> Timestamp {
    Timestamp::new(secs, 0).unwrap()
}

fn vault_with(names: &[&str]) -> Vault {
    let mut vault = Vault::default();
    for n in names {
        vault.add_entry_at(n.to_string(), format!("https://example.com/{}.git", n), at(0)).unwrap();
    }
    vault
}

fn metadata() -> Metadata {
    Metadata::new_at(vec!["https://example.com/r.git".to_string(), "second".to_string()], at(0))
}

fn load_error() -> RepomanError {
    RepomanError::MetadataLoadError("r".to_string(), "File not found".to_string())
}

fn failure(code: BackendCode, class: BackendClass, message: &str) -> GitFailure {
    GitFailure { code, class, message: message.to_string() }
}

fn repo(name: &str, mirror: bool) -> RepoState {
    RepoState {
        entry: VaultEntry { name: name.to_string(), url: "url".to_string(), added_date: at(0) },
        pristine_exists: mirror,
        metadata: None,
        clones: vec![],
    }
}

#[test]
fn test_init_pristine_errors_in_order() {
    let config = test_config();
    let vault = vault_with(&["r"]);
    // unknown to the registry, whatever else holds
    match init_pristine("x", &vault, Err(load_error()), true, &config) {
        Err(RepomanError::RepoNotInVault(n)) => assert_eq!(n, "x"),
        other => panic!("Expected RepoNotInVault, got {:?}", other),
    }
    // unreadable metadata before an existing mirror
    assert_eq!(init_pristine("r", &vault, Err(load_error()), true, &config).unwrap_err(), load_error());
    // no URL before an existing mirror
    let mut empty = metadata();
    empty.git_urls.clear();
    match init_pristine("r", &vault, Ok(empty), true, &config) {
        Err(RepomanError::InvalidRepoUrl(n)) => assert_eq!(n, "r"),
        other => panic!("Expected InvalidRepoUrl, got {:?}", other),
    }
    match init_pristine("r", &vault, Ok(metadata()), true, &config) {
        Err(RepomanError::PristineAlreadyExists(n)) => assert_eq!(n, "r"),
        other => panic!("Expected PristineAlreadyExists, got {:?}", other),
    }
    let plan = init_pristine("r", &vault, Ok(metadata()), false, &config).unwrap();
    assert_eq!(plan.url, "https://example.com/r.git");
    assert_eq!(plan.path, "/base/pristines/r");
    assert_eq!(plan.metadata.git_urls.len(), 2);
}

#[test]
fn test_conclude_init() {
    let m = conclude_init(metadata(), Ok(()), "r", at(50)).unwrap();
    assert_eq!(m.pristine_created, Some(at(50)));
    assert_eq!(m.last_updated, at(50));
    assert_eq!(m.created_on, at(0));
    let f = failure(BackendCode::Other, BackendClass::Other, "could not resolve host");
    assert_eq!(
        conclude_init(metadata(), Err(f.clone()), "r", at(50)).unwrap_err(),
        RepomanError::GitError(f)
    );
    let f = failure(BackendCode::Auth, BackendClass::Other, "refused");
    assert_eq!(
        conclude_init(metadata(), Err(f), "r", at(50)).unwrap_err(),
        RepomanError::AuthenticationFailed("r".to_string())
    );
}

#[test]
fn test_lists_by_mirror() {
    let repos = vec![repo("a", true), repo("b", false), repo("c", true), repo("d", false)];
    assert_eq!(get_uninitialized_repos(&repos), vec!["b".to_string(), "d".to_string()]);
    assert_eq!(get_syncable_repos(&repos), vec!["a".to_string(), "c".to_string()]);
    assert_eq!(get_updatable_repos(&repos), vec!["a".to_string(), "c".to_string()]);
    assert_eq!(
        init_all_pristines(Ok(&repos)).unwrap(),
        vec!["a".to_string(), "b".to_string(), "c".to_string(), "d".to_string()]
    );
    assert_eq!(sync_all_pristines(Ok(&repos)).unwrap(), vec!["a".to_string(), "c".to_string()]);
    let e = RepomanError::VaultLoadError("broken".to_string());
    assert_eq!(init_all_pristines(Err(e.clone())).unwrap_err(), ("vault".to_string(), e.clone()));
    assert_eq!(sync_all_pristines(Err(e.clone())).unwrap_err(), ("vault".to_string(), e));
    assert!(get_uninitialized_repos(&vec![]).is_empty());
}

#[test]
fn test_sync_pristine_errors_in_order() {
    let config = test_config();
    let vault = vault_with(&["r"]);
    let f = failure(BackendCode::Other, BackendClass::Other, "not a repository");
    match sync_pristine("x", &vault, false, Err(load_error()), Err(f.clone()), &config) {
        Err(RepomanError::RepoNotInVault(n)) => assert_eq!(n, "x"),
        other => panic!("Expected RepoNotInVault, got {:?}", other),
    }
    match sync_pristine("r", &vault, false, Err(load_error()), Err(f.clone()), &config) {
        Err(RepomanError::PristineNotFound(n)) => assert_eq!(n, "r"),
        other => panic!("Expected PristineNotFound, got {:?}", other),
    }
    assert_eq!(
        sync_pristine("r", &vault, true, Err(load_error()), Err(f.clone()), &config).unwrap_err(),
        load_error()
    );
    let mut empty = metadata();
    empty.git_urls.clear();
    // a mirror that cannot be opened is reported as it is, also where it is a matter of credentials
    let auth = failure(BackendCode::Auth, BackendClass::Ssh, "authentication");
    assert_eq!(
        sync_pristine("r", &vault, true, Ok(empty.clone()), Err(auth.clone()), &config).unwrap_err(),
        RepomanError::GitError(auth)
    );
    match sync_pristine("r", &vault, true, Ok(empty), Ok(()), &config) {
        Err(RepomanError::InvalidRepoUrl(n)) => assert_eq!(n, "r"),
        other => panic!("Expected InvalidRepoUrl, got {:?}", other),
    }
    let plan = sync_pristine("r", &vault, true, Ok(metadata()), Ok(()), &config).unwrap();
    assert_eq!(plan.url, "https://example.com/r.git");
    assert_eq!(plan.path, "/base/pristines/r");
    assert_eq!(origin_name(), "origin");
    assert_eq!(
        mirror_refspecs(),
        vec!["refs/heads/*:refs/heads/*".to_string(), "refs/tags/*:refs/tags/*".to_string()]
    );
}

#[test]
fn test_conclude_sync_records_the_kind() {
    let m = conclude_sync(metadata(), Ok(()), SyncKind::Manual, "r", at(70)).unwrap();
    assert_eq!(m.last_sync.as_ref().unwrap().sync_type, "manual");
    assert_eq!(m.last_sync.as_ref().unwrap().timestamp, at(70));
    assert_eq!(m.last_updated, at(70));
    let m = conclude_sync(metadata(), Ok(()), SyncKind::Auto, "r", at(71)).unwrap();
    assert_eq!(m.last_sync.as_ref().unwrap().sync_type, "auto");
    let f = failure(BackendCode::Other, BackendClass::Other, "Permission DENIED (publickey)");
    assert_eq!(
        conclude_sync(metadata(), Err(f), SyncKind::Auto, "r", at(71)).unwrap_err(),
        RepomanError::AuthenticationFailed("r".to_string())
    );
    assert_eq!(SyncKind::Manual.as_str(), "manual");
    assert_eq!(SyncKind::Auto.as_str(), "auto");
}

#[test]
fn test_update_latest_tag() {
    let m = update_latest_tag(metadata(), "v1.2.3");
    assert_eq!(m.latest_tag.as_deref(), Some("v1.2.3"));
    assert_eq!(m.last_updated, at(0));
}

#[test]
fn test_tally_counts_every_outcome() {
    let t = tally(&vec![true, false, true, true, false]);
    assert_eq!((t.successes, t.failures), (3, 2));
    let t = tally(&vec![]);
    assert_eq!((t.successes, t.failures), (0, 0));
}

#[test]
fn test_progress_is_reported_in_steps() {
    let mut meter = ProgressMeter::new();
    let stats = |received: usize, indexed: usize, total: usize| TransferStats {
        received_objects: received,
        indexed_objects: indexed,
        total_objects: total,
        received_bytes: 1000,
    };
    // nothing before the number of objects is known
    assert_eq!(meter.observe(&stats(0, 0, 0)), None);
    assert_eq!(meter.observe(&stats(4, 0, 100)), None);
    let r = meter.observe(&stats(5, 0, 100)).unwrap();
    assert_eq!((r.phase, r.percent, r.done, r.total, r.bytes), (Phase::Receiving, 5, 5, 100, 1000));
    assert_eq!(meter.last_percent, 5);
    assert_eq!(meter.observe(&stats(9, 0, 100)), None);
    assert_eq!(meter.observe(&stats(29, 0, 100)).unwrap().percent, 29);
    assert_eq!(meter.observe(&stats(33, 0, 100)), None);
    // a third of three hundred is reported as thirty-three percent, not more
    assert_eq!(meter.observe(&stats(101, 0, 300)), None);
    assert_eq!(meter.observe(&stats(99, 0, 100)).unwrap().percent, 99);
    // a hundred percent is reported once, though it is no step further
    let r = meter.observe(&stats(100, 100, 100)).unwrap();
    assert_eq!((r.phase, r.percent), (Phase::Indexing, 100));
    assert_eq!(meter.observe(&stats(100, 100, 100)), None);
    // the phase follows the objects received
    let mut meter = ProgressMeter::new();
    let r = meter.observe(&stats(100, 50, 100)).unwrap();
    assert_eq!((r.phase, r.percent, r.done), (Phase::Indexing, 50, 50));
    // counters that a percentage cannot hold
    let mut meter = ProgressMeter::new();
    assert_eq!(meter.observe(&stats(1, usize::MAX, 1)).unwrap().percent, u32::MAX);
    assert_eq!(meter.observe(&stats(1, usize::MAX, 1)), None);
}

#[test]
fn test_generate_clone_suffix_shape() {
    for _ in 0..200 {
        let s = generate_clone_suffix();
        assert_eq!(s.chars().count(), 6);
        assert!(s.chars().all(|c| c.is_ascii_lowercase() || c.is_ascii_digit()));
    }
    assert_eq!(suffix_char(0), 'a');
    assert_eq!(suffix_char(25), 'z');
    assert_eq!(suffix_char(26), '0');
    assert_eq!(suffix_char(35), '9');
}

#[test]
fn test_clone_from_pristine() {
    let config = test_config();
    let vault = vault_with(&["widget"]);
    match clone_from_pristine("x", None, &vault, true, &config) {
        Err(RepomanError::RepoNotInVault(n)) => assert_eq!(n, "x"),
        other => panic!("Expected RepoNotInVault, got {:?}", other),
    }
    match clone_from_pristine("widget", Some("dev".to_string()), &vault, false, &config) {
        Err(RepomanError::PristineNotFound(n)) => assert_eq!(n, "widget"),
        other => panic!("Expected PristineNotFound, got {:?}", other),
    }
    let t = clone_from_pristine("widget", Some("dev".to_string()), &vault, true, &config).unwrap();
    assert_eq!(t.suffix, "dev");
    assert_eq!(t.dir_name, "widget-dev");
    assert_eq!(t.path, "/base/clones/widget-dev");
    let t = clone_from_pristine("widget", None, &vault, true, &config).unwrap();
    assert_eq!(t.suffix.len(), 6);
    assert_eq!(t.dir_name, format!("widget-{}", t.suffix));
    assert_eq!(t.path, format!("/base/clones/widget-{}", t.suffix));
}

#[test]
fn test_admit_clone_errors_in_order() {
    let config = test_config();
    let target = || clone_target("widget", "dev".to_string(), &config);
    let f = failure(BackendCode::Other, BackendClass::Other, "not a repository");
    match admit_clone("widget", target(), true, Err(load_error()), Err(f.clone()), Some("b"), false, &config) {
        Err(RepomanError::CloneAlreadyExists(n)) => assert_eq!(n, "widget-dev"),
        other => panic!("Expected CloneAlreadyExists, got {:?}", other),
    }
    assert_eq!(
        admit_clone("widget", target(), false, Err(load_error()), Err(f.clone()), Some("b"), false, &config)
            .unwrap_err(),
        load_error()
    );
    assert_eq!(
        admit_clone("widget", target(), false, Ok(metadata()), Err(f.clone()), Some("b"), false, &config)
            .unwrap_err(),
        RepomanError::GitError(f)
    );
    match admit_clone("widget", target(), false, Ok(metadata()), Ok(()), Some("b"), false, &config) {
        Err(RepomanError::BranchNotFound(b, p)) => {
            assert_eq!(b, "b");
            assert_eq!(p, "widget");
        }
        other => panic!("Expected BranchNotFound, got {:?}", other),
    }
    // without a branch asked for, none needs to exist
    let plan = admit_clone("widget", target(), false, Ok(metadata()), Ok(()), None, false, &config).unwrap();
    assert_eq!(plan.target.path, "/base/clones/widget-dev");
    assert_eq!(plan.alternates_dir, "/base/clones/widget-dev/.git/objects/info");
    assert_eq!(plan.alternates_file, "/base/clones/widget-dev/.git/objects/info/alternates");
    assert_eq!(plan.alternates_target, "/base/pristines/widget/objects");
    assert_eq!(plan.origin_url, "/base/pristines/widget");
    assert!(admit_clone("widget", target(), false, Ok(metadata()), Ok(()), Some("b"), true, &config).is_ok());
}

#[test]
fn test_checkout_names() {
    assert_eq!(checkout_branch(Some("dev"), Some("main")), "dev");
    assert_eq!(checkout_branch(None, Some("main")), "main");
    assert_eq!(checkout_branch(None, Some("refs/heads/trunk")), "trunk");
    assert_eq!(checkout_branch(None, Some("refs/heads/")), "");
    assert_eq!(checkout_branch(None, None), "main");
    assert_eq!(branch_ref("dev"), "refs/heads/dev");
    assert_eq!(tracking_ref("dev"), "refs/remotes/origin/dev");
    assert_eq!(clone_refspec(), "refs/heads/*:refs/remotes/origin/*");
    assert_eq!(checkout_mode(true), CheckoutMode::TrackingBranch);
    assert_eq!(checkout_mode(false), CheckoutMode::DetachedHead);
}

#[test]
fn test_conclude_clone_lists_the_clone() {
    let config = test_config();
    let target = clone_target("widget", "dev".to_string(), &config);
    let plan = admit_clone("widget", target, false, Ok(metadata()), Ok(()), None, false, &config).unwrap();
    let (m, path) = conclude_clone(plan, at(90));
    assert_eq!(path, "/base/clones/widget-dev");
    assert_eq!(list_clones(&m), vec!["dev".to_string()]);
    assert_eq!(m.clones[0].path, "/base/clones/widget-dev");
    assert_eq!(m.clones[0].created, at(90));
    assert_eq!(m.last_updated, at(90));
}

#[test]
fn test_update_repo_resolves_the_name() {
    let mut vault = vault_with(&["widget"]);
    vault.add_alias("w".to_string(), "widget".to_string()).unwrap();
    assert_eq!(update_repo("w", &vault, true).unwrap(), "widget");
    assert_eq!(update_repo("widget", &vault, true).unwrap(), "widget");
    match update_repo("w", &vault, false) {
        Err(RepomanError::PristineNotFound(n)) => assert_eq!(n, "widget"),
        other => panic!("Expected PristineNotFound, got {:?}", other),
    }
    match update_repo("x", &vault, true) {
        Err(RepomanError::RepoNotInVault(n)) => assert_eq!(n, "x"),
        other => panic!("Expected RepoNotInVault, got {:?}", other),
    }
}

#[test]
fn test_reconcile_policy() {
    let tips = |local: &str, remote: &str| Inspection::Tips {
        branch: "main".to_string(),
        local: local.to_string(),
        remote: remote.to_string(),
    };
    assert_eq!(reconcile(&tips("abc", "abc")), Reconciliation::Settled(CloneOutcome::UpToDate));
    assert_eq!(reconcile(&tips("abc", "def")), Reconciliation::Analyse);
    let skipped = |found: Inspection, reason: SkipReason| {
        assert_eq!(reconcile(&found), Reconciliation::Settled(CloneOutcome::Skipped(reason)));
    };
    skipped(Inspection::Missing, SkipReason::Missing);
    skipped(Inspection::Unopenable("e".to_string()), SkipReason::Unopenable);
    skipped(Inspection::NoOrigin("e".to_string()), SkipReason::NoOrigin);
    skipped(Inspection::FetchFailed("e".to_string()), SkipReason::FetchFailed);
    skipped(Inspection::NoHead, SkipReason::NoHead);
    skipped(Inspection::Unnamed, SkipReason::Unnamed);
    skipped(Inspection::Untracked { branch: "b".to_string() }, SkipReason::Untracked);
    skipped(Inspection::NoRemoteTip { branch: "b".to_string() }, SkipReason::NoRemoteTip);
    skipped(Inspection::NoLocalTip { branch: "b".to_string() }, SkipReason::NoLocalTip);

    let a = |fast_forward: bool, unborn: bool, up_to_date: bool| {
        Some(MergeAnalysis { fast_forward, unborn, up_to_date })
    };
    assert_eq!(verdict(a(true, false, false)), CloneOutcome::FastForward);
    assert_eq!(verdict(a(false, true, false)), CloneOutcome::FastForward);
    assert_eq!(verdict(a(true, false, true)), CloneOutcome::FastForward);
    assert_eq!(verdict(a(false, false, true)), CloneOutcome::UpToDate);
    assert_eq!(verdict(a(false, false, false)), CloneOutcome::Diverged);
    assert_eq!(verdict(None), CloneOutcome::Skipped(SkipReason::AnalysisFailed));
}

#[test]
fn test_update_messages() {
    assert_eq!(
        outcome_line("abc123", "main", CloneOutcome::UpToDate).unwrap(),
        "  Clone abc123 (main) already up-to-date"
    );
    assert_eq!(
        outcome_line("abc123", "main", CloneOutcome::FastForward).unwrap(),
        "  Clone abc123 (main) fast-forwarded"
    );
    assert_eq!(
        outcome_line("abc123", "main", CloneOutcome::Diverged).unwrap(),
        "  Clone abc123 (main) has diverged \u{2014} manual merge required"
    );
    assert_eq!(outcome_line("abc123", "main", CloneOutcome::Skipped(SkipReason::NoHead)), None);
    assert_eq!(fast_forward_note(), "repoman update: fast-forward");
    assert_eq!(
        fast_forward_failed("abc123", "locked"),
        RepomanError::FastForwardFailed("abc123".to_string(), "locked".to_string())
    );
}

#[test]
fn test_probes_beyond_the_list_count_as_missing() {
    let mut r = repo("a", true);
    r.clones = vec![CloneProbe { exists: true, head_time: Some(5) }, CloneProbe { exists: false, head_time: Some(6) }];
    assert!(r.probe_exists(0));
    assert!(!r.probe_exists(1));
    assert!(!r.probe_exists(2));
    assert_eq!(r.probe_head_time(0), Some(5));
    assert_eq!(r.probe_head_time(1), None);
    assert_eq!(r.probe_head_time(2), None);
}
