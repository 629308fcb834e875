use repoman::clock::Timestamp;
use repoman::config::{expand_tilde, path_mentions_home, Config};
use repoman::error::RepomanError;
use repoman::metadata::Metadata;
use repoman::operations::add::handle_add;
use repoman::operations::alias::{handle_alias, handle_alias_list};
use repoman::operations::remove::handle_remove;
use repoman::operations::{
    add_alias, add_repo, detect_current_repo_urls, list_aliases, remove_alias, remove_repo,
};
use repoman::vault::Vault;

fn test_config() -> Config {
    Config {
        vault_dir: "/base/vault".to_string(),
        pristines_dir: "/base/pristines".to_string(),
        clones_dir: "/base/clones".to_string(),
        plugins_dir: "/base/plugins".to_string(),
        logs_dir: "/base/logs".to_string(),
    }
}

fn at(secs: i64) -> Timestamp {
    Timestamp::new(secs, 0).unwrap()
}

fn setup_repo(vault: &mut Vault, name: &str) -> Metadata {
    vault
        .add_entry(name.to_string(), format!("https://example.com/{}.git", name))
        .unwrap();
    let mut metadata = Metadata::new(vec![format!("https://example.com/{}.git", name)]);
    metadata.mark_pristine_created();
    metadata
}

fn pairs(items: &[(&str, &str)]) -> Vec<(String, String)> {
    items.iter().map(|(a, b)| (a.to_string(), b.to_string())).collect()
}

#[test]
fn test_remove_full_cleanup() {
    let config = test_config();
    let mut vault = Vault::default();
    let mut metadata = setup_repo(&mut vault, "test-repo");

    // Add a clone
    metadata.add_clone("abc123".to_string(), "/base/clones/test-repo-abc123".to_string());

    // Add an alias
    vault.add_alias("tr".to_string(), "test-repo".to_string()).unwrap();

    // Remove
    let plan = remove_repo("test-repo", &mut vault, Some(&metadata), &config).unwrap();

    // Verify everything is to go
    assert_eq!(plan.canonical, "test-repo");
    assert_eq!(plan.pristine_path, "/base/pristines/test-repo");
    assert_eq!(plan.clone_paths, vec!["/base/clones/test-repo-abc123".to_string()]);
    assert_eq!(plan.metadata_dir, "/base/vault/test-repo");
    assert_eq!(plan.removed_aliases, vec!["tr".to_string()]);

    assert!(!vault.contains("test-repo"));
    assert!(!vault.aliases.contains_key("tr"));
}

#[test]
fn test_remove_not_in_vault() {
    let config = test_config();
    let mut vault = Vault::default();

    let result = remove_repo("nonexistent", &mut vault, None, &config);
    assert!(result.is_err());
    match result.unwrap_err() {
        RepomanError::RepoNotInVault(name) => assert_eq!(name, "nonexistent"),
        other => panic!("Expected RepoNotInVault, got {:?}", other),
    }
}

#[test]
fn test_remove_alias_cleanup() {
    let config = test_config();
    let mut vault = Vault::default();
    let metadata = setup_repo(&mut vault, "my-repo");

    vault.add_alias("mr".to_string(), "my-repo".to_string()).unwrap();
    vault.add_alias("myrepo".to_string(), "my-repo".to_string()).unwrap();

    remove_repo("my-repo", &mut vault, Some(&metadata), &config).unwrap();

    assert!(vault.aliases.is_empty());
}

#[test]
fn test_remove_via_alias() {
    let config = test_config();
    let mut vault = Vault::default();
    let metadata = setup_repo(&mut vault, "my-repo");

    vault.add_alias("mr".to_string(), "my-repo".to_string()).unwrap();

    // Remove using the alias
    let plan = remove_repo("mr", &mut vault, Some(&metadata), &config).unwrap();
    assert_eq!(plan.canonical, "my-repo");

    assert!(!vault.contains("my-repo"));
    assert!(vault.aliases.is_empty());
}

#[test]
fn test_remove_no_pristine_or_clones() {
    let config = test_config();

    // Add to vault but don't create pristine or clones
    let mut vault = Vault::default();
    vault.add_entry("bare-repo".to_string(), "url".to_string()).unwrap();

    // Should succeed without errors (best-effort removal)
    let plan = remove_repo("bare-repo", &mut vault, None, &config).unwrap();
    assert!(plan.clone_paths.is_empty());
    assert!(plan.removed_aliases.is_empty());

    assert!(!vault.contains("bare-repo"));
}

#[test]
fn test_remove_leaves_the_others() {
    let config = test_config();
    let mut vault = Vault::default();
    setup_repo(&mut vault, "a");
    setup_repo(&mut vault, "b");
    setup_repo(&mut vault, "c");
    vault.add_alias("x".to_string(), "a".to_string()).unwrap();
    vault.add_alias("y".to_string(), "b".to_string()).unwrap();
    vault.add_alias("z".to_string(), "b".to_string()).unwrap();
    let mut plan = handle_remove("y", &mut vault, None, &config).unwrap();
    plan.removed_aliases.sort();
    assert_eq!(plan.removed_aliases, vec!["y".to_string(), "z".to_string()]);
    assert_eq!(vault.get_all_names(), vec!["a", "c"]);
    assert_eq!(list_aliases(&vault), pairs(&[("x", "a")]));
    // a second removal finds nothing, and changes nothing
    assert!(handle_remove("y", &mut vault, None, &config).is_err());
    assert_eq!(vault.get_all_names(), vec!["a", "c"]);
}

#[test]
fn test_add_alias_needs_the_repository() {
    let mut vault = Vault::default();
    match add_alias("w", "widget", &mut vault) {
        Err(RepomanError::RepoNotInVault(n)) => assert_eq!(n, "widget"),
        other => panic!("Expected RepoNotInVault, got {:?}", other),
    }
    assert!(vault.aliases.is_empty());
    vault.add_entry("widget".to_string(), "url".to_string()).unwrap();
    add_alias("w", "widget", &mut vault).unwrap();
    assert_eq!(vault.resolve_name("w"), "widget");
    // an alias is no repository
    assert!(add_alias("ww", "w", &mut vault).is_err());
    remove_alias("w", &mut vault).unwrap();
    match remove_alias("w", &mut vault) {
        Err(RepomanError::AliasNotFound(a)) => assert_eq!(a, "w"),
        other => panic!("Expected AliasNotFound, got {:?}", other),
    }
}

#[test]
fn test_list_aliases_is_sorted() {
    let mut vault = Vault::default();
    vault.add_entry("widget".to_string(), "url".to_string()).unwrap();
    vault.add_entry("gadget".to_string(), "url".to_string()).unwrap();
    for (alias, name) in [("w", "widget"), ("g", "gadget"), ("wi", "widget"), ("G", "gadget"), ("a", "widget")] {
        add_alias(alias, name, &mut vault).unwrap();
    }
    assert_eq!(
        list_aliases(&vault),
        pairs(&[("G", "gadget"), ("a", "widget"), ("g", "gadget"), ("w", "widget"), ("wi", "widget")])
    );
    assert!(list_aliases(&Vault::default()).is_empty());
}

#[test]
fn test_alias_lines() {
    assert_eq!(handle_alias_list(&vec![]), vec!["No aliases defined".to_string()]);
    assert_eq!(
        handle_alias_list(&pairs(&[("g", "gadget"), ("w", "widget")])),
        vec!["Aliases:".to_string(), "  g -> gadget".to_string(), "  w -> widget".to_string()]
    );
    assert_eq!(handle_alias("widget", "w", false), "Alias 'w' -> 'widget'");
    assert_eq!(handle_alias("widget", "w", true), "Alias 'w' removed");
}

#[test]
fn test_add_repo() {
    let mut vault = Vault::default();
    let urls = vec!["git@example.com:acme/widget.git".to_string(), "https://mirror/widget".to_string()];
    let (name, metadata) = add_repo(urls.clone(), &mut vault, at(100)).unwrap();
    assert_eq!(name, "widget");
    assert_eq!(handle_add(&name), "Repository 'widget' added to vault");
    assert_eq!(metadata.git_urls, urls);
    assert_eq!(metadata.sync_interval, Some(3600));
    assert_eq!(metadata.created_on, at(100));
    assert_eq!(vault.entries.len(), 1);
    assert_eq!(vault.entries[0].name, "widget");
    assert_eq!(vault.entries[0].url, "git@example.com:acme/widget.git");
    assert_eq!(vault.entries[0].added_date, at(100));

    // a second repository of the same name, by another URL
    match add_repo(vec!["https://other/widget/".to_string()], &mut vault, at(101)) {
        Err(RepomanError::RepoAlreadyInVault(n)) => assert_eq!(n, "widget"),
        other => panic!("Expected RepoAlreadyInVault, got {:?}", other),
    }
    // a name that is an alias of a repository
    vault.add_alias("gadget".to_string(), "widget".to_string()).unwrap();
    match add_repo(vec!["https://other/gadget.git".to_string()], &mut vault, at(101)) {
        Err(RepomanError::RepoAlreadyInVault(n)) => assert_eq!(n, "gadget"),
        other => panic!("Expected RepoAlreadyInVault, got {:?}", other),
    }
    assert_eq!(add_repo(vec![], &mut vault, at(101)).unwrap_err(), RepomanError::NoRemotesFound);
    match add_repo(vec!["  ".to_string(), "https://other/x.git".to_string()], &mut vault, at(101)) {
        Err(RepomanError::InvalidRepoUrl(u)) => assert_eq!(u, ""),
        other => panic!("Expected InvalidRepoUrl, got {:?}", other),
    }
    assert_eq!(vault.entries.len(), 1);
}

#[test]
fn test_detect_current_repo_urls() {
    let remotes = || pairs(&[("upstream", "u-url"), ("origin", "o-url"), ("fork", "f-url")]);
    let urls = |items: &[&str]| -> Vec<String> { items.iter().map(|s| s.to_string()).collect() };
    // the remote of the branch before the one for pushing
    assert_eq!(
        detect_current_repo_urls(remotes(), Some("fork".to_string()), Some("upstream".to_string())).unwrap(),
        urls(&["f-url", "u-url", "o-url"])
    );
    assert_eq!(
        detect_current_repo_urls(remotes(), None, Some("upstream".to_string())).unwrap(),
        urls(&["u-url", "o-url", "f-url"])
    );
    // origin where nothing is configured
    assert_eq!(
        detect_current_repo_urls(remotes(), None, None).unwrap(),
        urls(&["o-url", "u-url", "f-url"])
    );
    // a configured remote that does not exist decides all the same
    assert_eq!(
        detect_current_repo_urls(remotes(), Some("gone".to_string()), None).unwrap(),
        urls(&["u-url", "o-url", "f-url"])
    );
    // without origin the remotes are sorted by name and the first is the default
    assert_eq!(
        detect_current_repo_urls(pairs(&[("upstream", "u-url"), ("fork", "f-url"), ("mirror", "m-url")]), None, None)
            .unwrap(),
        urls(&["f-url", "m-url", "u-url"])
    );
    assert_eq!(
        detect_current_repo_urls(vec![], Some("origin".to_string()), None).unwrap_err(),
        RepomanError::NoRemotesFound
    );
}

#[test]
fn test_config_paths() {
    let config = test_config();
    assert_eq!(config.pristine_path("widget"), "/base/pristines/widget");
    assert_eq!(config.clone_path("widget-abc123"), "/base/clones/widget-abc123");
    assert_eq!(config.metadata_dir("widget"), "/base/vault/widget");
    assert_eq!(config.metadata_path("widget"), "/base/vault/widget/metadata.json");
    assert_eq!(config.vault_path(), "/base/vault/vault.json");
    let d = Config::default_under("/home/u");
    assert_eq!(d.vault_dir, "/home/u/.repoman/vault");
    assert_eq!(d.pristines_dir, "/home/u/.repoman/pristines");
    assert_eq!(d.clones_dir, "/home/u/.repoman/clones");
    assert_eq!(d.plugins_dir, "/home/u/.repoman/plugins");
    assert_eq!(d.logs_dir, "/home/u/.repoman/logs");
}

#[test]
fn test_expand_tilde() {
    assert_eq!(expand_tilde("~/repos", "/home/u"), "/home/u/repos");
    assert_eq!(expand_tilde("~", "/home/u"), "/home/u");
    assert_eq!(expand_tilde("/abs/path", "/home/u"), "/abs/path");
    assert_eq!(expand_tilde("~other/x", "/home/u"), "~other/x");
    assert_eq!(expand_tilde("rel/~/x", "/home/u"), "rel/~/x");
    assert_eq!(expand_tilde("~/", "/home/u"), "/home/u/");
    assert!(path_mentions_home("~") && path_mentions_home("~/x"));
    assert!(!path_mentions_home("~x") && !path_mentions_home("") && !path_mentions_home("/x/~"));
}
