use repoman::error::{
    git_error_with_context, is_auth_error, is_auth_failure, BackendClass, BackendCode, ErrorKind,
    GitFailure, RepomanError, AUTH_HELP,
};

fn failure(code: BackendCode, class: BackendClass, message: &str) -> GitFailure {
    GitFailure { code, class, message: message.to_string() }
}

#[test]
fn test_is_auth_error_by_code_class_and_message() {
    assert!(is_auth_error(&failure(BackendCode::Auth, BackendClass::Other, "")));
    assert!(is_auth_error(&failure(BackendCode::Other, BackendClass::Ssh, "timed out")));
    assert!(is_auth_error(&failure(BackendCode::Other, BackendClass::Other, "remote authentication required")));
    assert!(is_auth_error(&failure(BackendCode::Other, BackendClass::Other, "no credentials")));
    assert!(is_auth_error(&failure(BackendCode::Other, BackendClass::Other, "permission denied")));
    assert!(!is_auth_error(&failure(BackendCode::Other, BackendClass::Other, "could not resolve host")));
    assert!(!is_auth_error(&failure(BackendCode::Other, BackendClass::Other, "")));
    assert!(!is_auth_error(&failure(BackendCode::Other, BackendClass::Other, "permission  denied")));
}

#[test]
fn test_is_auth_error_reads_the_message_in_lowercase() {
    assert!(is_auth_error(&failure(BackendCode::Other, BackendClass::Other, "AUTH failed")));
    assert!(is_auth_error(&failure(BackendCode::Other, BackendClass::Other, "Bad Credential")));
    assert!(is_auth_error(&failure(BackendCode::Other, BackendClass::Other, "Permission Denied (publickey)")));
    // the verdict on a message that is in lowercase already reads it as it is
    assert!(!is_auth_failure(BackendCode::Other, BackendClass::Other, "AUTH failed"));
    assert!(is_auth_failure(BackendCode::Other, BackendClass::Other, "auth failed"));
    assert!(is_auth_failure(BackendCode::Auth, BackendClass::Other, "AUTH failed"));
}

#[test]
fn test_git_error_with_context() {
    let f = failure(BackendCode::Other, BackendClass::Other, "Authentication required");
    assert_eq!(
        git_error_with_context(f, "widget"),
        RepomanError::AuthenticationFailed("widget".to_string())
    );
    let f = failure(BackendCode::Other, BackendClass::Other, "object not found");
    assert_eq!(git_error_with_context(f.clone(), "widget"), RepomanError::GitError(f));
}

#[test]
fn test_error_messages() {
    let s = |x: &str| x.to_string();
    let cases = vec![
        (RepomanError::RepoNotInVault(s("r")), s("Repository 'r' not found in vault")),
        (RepomanError::RepoAlreadyInVault(s("r")), s("Repository 'r' already exists in vault")),
        (RepomanError::PristineNotFound(s("r")), s("Pristine 'r' not found")),
        (RepomanError::PristineAlreadyExists(s("r")), s("Pristine 'r' already exists")),
        (RepomanError::CloneNotFound(s("c")), s("Clone 'c' not found")),
        (RepomanError::CloneAlreadyExists(s("c")), s("Clone 'c' already exists")),
        (RepomanError::NotAGitRepo(s("/tmp/x")), s("Not a git repository: /tmp/x")),
        (RepomanError::NoRemotesFound, s("No remotes found in repository")),
        (RepomanError::InvalidRepoUrl(s("u")), s("Could not extract repository name from URL: u")),
        (RepomanError::VaultLoadError(s("e")), s("Failed to load vault: e")),
        (RepomanError::VaultSaveError(s("e")), s("Failed to save vault: e")),
        (RepomanError::MetadataLoadError(s("r"), s("e")), s("Failed to load metadata for 'r': e")),
        (RepomanError::MetadataSaveError(s("r"), s("e")), s("Failed to save metadata for 'r': e")),
        (
            RepomanError::GitError(failure(BackendCode::Other, BackendClass::Other, "boom")),
            s("Git operation failed: boom"),
        ),
        (RepomanError::IoError(s("e")), s("IO error: e")),
        (RepomanError::JsonError(s("e")), s("JSON error: e")),
        (RepomanError::AgentAlreadyRunning(0), s("Agent is already running (PID: 0)")),
        (RepomanError::AgentAlreadyRunning(4294967295), s("Agent is already running (PID: 4294967295)")),
        (RepomanError::AgentNotRunning, s("Agent is not running")),
        (
            RepomanError::InvalidAgentAction(s("go")),
            s("Invalid agent action: go. Expected 'start', 'stop', or 'status'"),
        ),
        (RepomanError::AgentSpawnError(s("e")), s("Failed to spawn agent process: e")),
        (RepomanError::ConfigError(s("e")), s("Configuration error: e")),
        (RepomanError::AliasNotFound(s("a")), s("Alias 'a' not found")),
        (RepomanError::FastForwardFailed(s("c"), s("e")), s("Fast-forward failed for clone 'c': e")),
        (RepomanError::BranchNotFound(s("b"), s("r")), s("Branch 'b' not found in pristine 'r'")),
    ];
    for (error, expected) in cases {
        assert_eq!(error.message(), expected);
    }
}

#[test]
fn test_authentication_message_carries_the_guidance() {
    let m = RepomanError::AuthenticationFailed("widget".to_string()).message();
    assert!(m.starts_with("Authentication failed for 'widget'\n\nSSH authentication failed."));
    assert!(m.ends_with(AUTH_HELP));
    assert!(m.contains("ssh-add ~/.ssh/id_ed25519"));
    assert!(m.contains("keychain"));
    assert!(m.contains("gnome-keyring or kwallet"));
    assert!(m.contains("git config --global credential.helper cache"));
    assert_eq!(m.len(), "Authentication failed for 'widget'".len() + AUTH_HELP.len());
}

#[test]
fn test_error_kinds() {
    let s = |x: &str| x.to_string();
    assert_eq!(RepomanError::RepoNotInVault(s("r")).kind(), ErrorKind::NotFound);
    assert_eq!(RepomanError::PristineNotFound(s("r")).kind(), ErrorKind::NotFound);
    assert_eq!(RepomanError::CloneNotFound(s("r")).kind(), ErrorKind::NotFound);
    assert_eq!(RepomanError::BranchNotFound(s("b"), s("r")).kind(), ErrorKind::NotFound);
    assert_eq!(RepomanError::AliasNotFound(s("a")).kind(), ErrorKind::NotFound);
    assert_eq!(RepomanError::RepoAlreadyInVault(s("r")).kind(), ErrorKind::AlreadyExists);
    assert_eq!(RepomanError::PristineAlreadyExists(s("r")).kind(), ErrorKind::AlreadyExists);
    assert_eq!(RepomanError::CloneAlreadyExists(s("r")).kind(), ErrorKind::AlreadyExists);
    assert_eq!(RepomanError::InvalidRepoUrl(s("u")).kind(), ErrorKind::InvalidInput);
    assert_eq!(RepomanError::NoRemotesFound.kind(), ErrorKind::InvalidInput);
    assert_eq!(RepomanError::InvalidAgentAction(s("a")).kind(), ErrorKind::InvalidInput);
    assert_eq!(RepomanError::AuthenticationFailed(s("r")).kind(), ErrorKind::Authentication);
    assert_eq!(
        RepomanError::GitError(failure(BackendCode::Other, BackendClass::Other, "e")).kind(),
        ErrorKind::Backend
    );
    assert_eq!(RepomanError::VaultLoadError(s("e")).kind(), ErrorKind::Storage);
    assert_eq!(RepomanError::MetadataSaveError(s("r"), s("e")).kind(), ErrorKind::Storage);
    assert_eq!(RepomanError::IoError(s("e")).kind(), ErrorKind::Storage);
    assert_eq!(RepomanError::JsonError(s("e")).kind(), ErrorKind::Storage);
    assert_eq!(RepomanError::AgentAlreadyRunning(1).kind(), ErrorKind::ProcessControl);
    assert_eq!(RepomanError::AgentNotRunning.kind(), ErrorKind::ProcessControl);
    assert_eq!(RepomanError::AgentSpawnError(s("e")).kind(), ErrorKind::ProcessControl);
}
