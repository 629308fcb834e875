use repoman::clock::Timestamp;
use repoman::error::RepomanError;
use repoman::vault::{extract_repo_name, Vault};

#[test]
fn test_extract_repo_name_https() {
    assert_eq!(
        extract_repo_name("https://github.com/user/repo.git").unwrap(),
        "repo"
    );
    assert_eq!(
        extract_repo_name("https://github.com/user/repo").unwrap(),
        "repo"
    );
}

#[test]
fn test_extract_repo_name_https_trailing_slash() {
    assert_eq!(
        extract_repo_name("https://github.com/user/repo/").unwrap(),
        "repo"
    );
}

#[test]
fn test_extract_repo_name_https_deep_path() {
    assert_eq!(
        extract_repo_name("https://gitlab.com/group/subgroup/repo.git").unwrap(),
        "repo"
    );
}

#[test]
fn test_extract_repo_name_ssh() {
    assert_eq!(
        extract_repo_name("git@github.com:user/repo.git").unwrap(),
        "repo"
    );
    assert_eq!(
        extract_repo_name("git@github.com:user/repo").unwrap(),
        "repo"
    );
}

#[test]
fn test_extract_repo_name_ssh_deep_path() {
    assert_eq!(
        extract_repo_name("git@gitlab.com:group/subgroup/repo.git").unwrap(),
        "repo"
    );
}

#[test]
fn test_extract_repo_name_local() {
    assert_eq!(extract_repo_name("/path/to/local/repo").unwrap(), "repo");
}

#[test]
fn test_extract_repo_name_local_trailing_slash() {
    assert_eq!(extract_repo_name("/path/to/local/repo/").unwrap(), "repo");
}

#[test]
fn test_extract_repo_name_with_whitespace() {
    assert_eq!(
        extract_repo_name("  https://github.com/user/repo.git  ").unwrap(),
        "repo"
    );
}

#[test]
fn test_extract_repo_name_invalid_empty() {
    assert!(extract_repo_name("").is_err());
}

#[test]
fn test_extract_repo_name_https_variants() {
    let test_cases = vec![
        ("https://github.com/user/repo.git", "repo"),
        ("https://github.com/user/repo", "repo"),
        ("https://github.com/user/repo/", "repo"),
        ("https://gitlab.com/group/subgroup/repo.git", "repo"),
        ("https://bitbucket.org/workspace/repo.git", "repo"),
    ];

    for (url, expected) in test_cases {
        let result = extract_repo_name(url).unwrap();
        assert_eq!(result, expected, "Failed for URL: {}", url);
    }
}

#[test]
fn test_extract_repo_name_ssh_variants() {
    let test_cases = vec![
        ("git@github.com:user/repo.git", "repo"),
        ("git@github.com:user/repo", "repo"),
        ("git@gitlab.com:group/subgroup/repo.git", "repo"),
        ("ssh://git@github.com/user/repo.git", "repo"),
    ];

    for (url, expected) in test_cases {
        let result = extract_repo_name(url).unwrap();
        assert_eq!(result, expected, "Failed for URL: {}", url);
    }
}

#[test]
fn test_extract_repo_name_local_paths() {
    let test_cases = vec![
        ("/path/to/repo", "repo"),
        ("/path/to/repo/", "repo"),
        ("./relative/path/repo", "repo"),
        ("../parent/repo", "repo"),
    ];

    for (url, expected) in test_cases {
        let result = extract_repo_name(url).unwrap();
        assert_eq!(result, expected, "Failed for path: {}", url);
    }
}

#[test]
fn test_extract_repo_name_error_holds_what_was_read() {
    match extract_repo_name("  https://  ") {
        Err(RepomanError::InvalidRepoUrl(u)) => assert_eq!(u, "https:/"),
        other => panic!("Expected InvalidRepoUrl, got {:?}", other),
    }
    match extract_repo_name("/") {
        Err(RepomanError::InvalidRepoUrl(u)) => assert_eq!(u, ""),
        other => panic!("Expected InvalidRepoUrl, got {:?}", other),
    }
    // the host is the last segment where nothing follows it
    assert_eq!(extract_repo_name("  https://example.com/  ").unwrap(), "example.com");
    match extract_repo_name("   ") {
        Err(RepomanError::InvalidRepoUrl(u)) => assert_eq!(u, ""),
        other => panic!("Expected InvalidRepoUrl, got {:?}", other),
    }
    match extract_repo_name("host:") {
        Err(RepomanError::InvalidRepoUrl(u)) => assert_eq!(u, "host:"),
        other => panic!("Expected InvalidRepoUrl, got {:?}", other),
    }
}

#[test]
fn test_extract_repo_name_edge_cases() {
    // `.git` is removed also where a slash follows it
    assert_eq!(extract_repo_name("https://h/u/r.git/").unwrap(), "r");
    assert_eq!(extract_repo_name("https://github.com/user/repo.git/").unwrap(), "repo");
    assert_eq!(extract_repo_name("git@github.com:user/repo.git/").unwrap(), "repo");
    assert_eq!(extract_repo_name("/path/to/local/repo.git/  ").unwrap(), "repo");
    assert_eq!(extract_repo_name("https://h/u/r/.git").unwrap(), "r");
    // one `.git` at most is removed: a name that ends with `.git` keeps it
    assert_eq!(extract_repo_name("https://h/u/r.git.git").unwrap(), "r.git");
    assert_eq!(extract_repo_name("https://h/u/r.git/.git").unwrap(), "r.git");
    assert_eq!(extract_repo_name("https://h/u/r.git.git/").unwrap(), "r.git");
    assert_eq!(extract_repo_name("git@h:u/r.git.git").unwrap(), "r.git");
    // one slash only is removed
    assert_eq!(extract_repo_name("https://h/u/r//").unwrap_err(), RepomanError::InvalidRepoUrl("https://h/u/r/".to_string()));
    assert_eq!(extract_repo_name(".git/").unwrap_err(), RepomanError::InvalidRepoUrl("".to_string()));
    // a bare name, and a name behind a colon
    assert_eq!(extract_repo_name("repo").unwrap(), "repo");
    assert_eq!(extract_repo_name("host:repo.git").unwrap(), "repo");
    // white space of other kinds at the ends
    assert_eq!(extract_repo_name("\t\nhttps://h/u/r.git\r\n").unwrap(), "r");
    assert_eq!(extract_repo_name("\u{3000}/a/b\u{a0}").unwrap(), "b");
    // a colon behind a scheme is part of the path
    assert_eq!(extract_repo_name("https://h:8080/u/r").unwrap(), "r");
    // letters outside ASCII
    assert_eq!(extract_repo_name("https://h/u/d\u{e9}p\u{f4}t.git").unwrap(), "d\u{e9}p\u{f4}t");
}

#[test]
fn test_vault_add_entry() {
    let vault_entry_name = "test-repo";
    let vault_entry_url = "https://github.com/user/test-repo.git";

    let mut vault = Vault::default();
    vault
        .add_entry(vault_entry_name.to_string(), vault_entry_url.to_string())
        .unwrap();

    assert_eq!(vault.entries.len(), 1);
    assert_eq!(vault.entries[0].name, vault_entry_name);
    assert_eq!(vault.entries[0].url, vault_entry_url);
}

#[test]
fn test_vault_add_duplicate_fails() {
    let mut vault = Vault::default();
    vault
        .add_entry("repo".to_string(), "url1".to_string())
        .unwrap();

    let result = vault.add_entry("repo".to_string(), "url2".to_string());
    assert!(result.is_err());
}

#[test]
fn test_vault_get_entry() {
    let mut vault = Vault::default();
    vault
        .add_entry("repo1".to_string(), "url1".to_string())
        .unwrap();
    vault
        .add_entry("repo2".to_string(), "url2".to_string())
        .unwrap();

    let entry = vault.get_entry("repo1");
    assert!(entry.is_some());
    assert_eq!(entry.unwrap().url, "url1");

    assert!(vault.get_entry("nonexistent").is_none());
}

#[test]
fn test_vault_contains() {
    let mut vault = Vault::default();
    vault
        .add_entry("repo".to_string(), "url".to_string())
        .unwrap();

    assert!(vault.contains("repo"));
    assert!(!vault.contains("other"));
}

#[test]
fn test_vault_get_all_names() {
    let mut vault = Vault::default();
    vault
        .add_entry("repo1".to_string(), "url1".to_string())
        .unwrap();
    vault
        .add_entry("repo2".to_string(), "url2".to_string())
        .unwrap();
    vault
        .add_entry("repo3".to_string(), "url3".to_string())
        .unwrap();

    let names = vault.get_all_names();
    assert_eq!(names.len(), 3);
    assert!(names.contains(&"repo1"));
    assert!(names.contains(&"repo2"));
    assert!(names.contains(&"repo3"));
}

#[test]
fn test_vault_remove_entry() {
    let mut vault = Vault::default();
    vault
        .add_entry("repo1".to_string(), "url1".to_string())
        .unwrap();
    vault
        .add_entry("repo2".to_string(), "url2".to_string())
        .unwrap();

    let removed = vault.remove_entry("repo1");
    assert!(removed.is_some());
    assert_eq!(removed.unwrap().name, "repo1");
    assert_eq!(vault.entries.len(), 1);
    assert!(!vault.contains("repo1"));
}

#[test]
fn test_vault_remove_nonexistent() {
    let mut vault = Vault::default();
    let removed = vault.remove_entry("nonexistent");
    assert!(removed.is_none());
}

#[test]
fn test_vault_remove_aliases_for() {
    let mut vault = Vault::default();
    vault
        .add_entry("repo1".to_string(), "url1".to_string())
        .unwrap();
    vault
        .add_entry("repo2".to_string(), "url2".to_string())
        .unwrap();
    vault.add_alias("r1".to_string(), "repo1".to_string()).unwrap();
    vault.add_alias("r1-short".to_string(), "repo1".to_string()).unwrap();
    vault.add_alias("r2".to_string(), "repo2".to_string()).unwrap();

    let removed = vault.remove_aliases_for("repo1");
    assert_eq!(removed.len(), 2);
    assert!(removed.contains(&"r1".to_string()));
    assert!(removed.contains(&"r1-short".to_string()));
    // repo2 alias should remain
    assert!(vault.aliases.contains_key("r2"));
    assert!(!vault.aliases.contains_key("r1"));
}

#[test]
fn test_vault_remove_aliases_for_none() {
    let mut vault = Vault::default();
    vault
        .add_entry("repo1".to_string(), "url1".to_string())
        .unwrap();
    let removed = vault.remove_aliases_for("repo1");
    assert!(removed.is_empty());
}

#[test]
fn test_vault_add_entry_at_records_the_time() {
    let mut vault = Vault::default();
    let now = Timestamp::new(1_700_000_000, 5).unwrap();
    vault.add_entry_at("a".to_string(), "u".to_string(), now).unwrap();
    assert_eq!(vault.entries[0].added_date, now);
    match vault.add_entry_at("a".to_string(), "v".to_string(), now) {
        Err(RepomanError::RepoAlreadyInVault(n)) => assert_eq!(n, "a"),
        other => panic!("Expected RepoAlreadyInVault, got {:?}", other),
    }
    assert_eq!(vault.entries.len(), 1);
    assert_eq!(vault.entries[0].url, "u");
}

#[test]
fn test_vault_alias_resolution_is_one_level() {
    let mut vault = Vault::default();
    vault.add_entry("a".to_string(), "ua".to_string()).unwrap();
    vault.add_entry("b".to_string(), "ub".to_string()).unwrap();
    vault.add_alias("x".to_string(), "a".to_string()).unwrap();
    vault.add_alias("y".to_string(), "b".to_string()).unwrap();
    assert_eq!(vault.resolve_name("x"), "a");
    assert_eq!(vault.resolve_name("a"), "a");
    assert_eq!(vault.resolve_name("unknown"), "unknown");
    assert!(vault.contains("x"));
    assert_eq!(vault.get_entry("y").unwrap().url, "ub");
    // an alias for a name that is itself an alias needs that name as a repository
    match vault.add_alias("z".to_string(), "x".to_string()) {
        Err(RepomanError::RepoNotInVault(n)) => assert_eq!(n, "x"),
        other => panic!("Expected RepoNotInVault, got {:?}", other),
    }
    // a name that is an alias of a repository cannot be added
    assert!(vault.add_entry("x".to_string(), "ux".to_string()).is_err());
    // an alias is replaced by a second one of the same name
    vault.add_alias("x".to_string(), "b".to_string()).unwrap();
    assert_eq!(vault.resolve_name("x"), "b");
    assert_eq!(vault.list_aliases().get("x").unwrap(), "b");
}

#[test]
fn test_vault_remove_alias() {
    let mut vault = Vault::default();
    vault.add_entry("a".to_string(), "ua".to_string()).unwrap();
    vault.add_alias("x".to_string(), "a".to_string()).unwrap();
    assert!(!vault.aliases.is_empty());
    vault.remove_alias("x").unwrap();
    assert!(vault.aliases.is_empty());
    match vault.remove_alias("x") {
        Err(RepomanError::AliasNotFound(a)) => assert_eq!(a, "x"),
        other => panic!("Expected AliasNotFound, got {:?}", other),
    }
}
