//! The errors of the library, the failures that the version-control backend
//! reports, and the text shown to the user for each.

use crate::text::{
    chars_of, concat2, concat3, concat5, contains_text, decimal, has_substring, lowercase_of,
    push_decimal, to_lowercase,
};
use vstd::prelude::*;
use vstd::string::StringExecFns;

verus! {

/// What the backend gave as the code of a failure, as far as it matters here.
#[derive(Clone, Copy, Debug, PartialEq, Eq, Structural)]
pub enum BackendCode {
    /// The remote refused the credentials.
    Auth,
    /// Any other code.
    Other,
}

/// What the backend gave as the class of a failure, as far as it matters here.
#[derive(Clone, Copy, Debug, PartialEq, Eq, Structural)]
pub enum BackendClass {
    /// The failure arose in the SSH transport.
    Ssh,
    /// Any other class.
    Other,
}

/// A failure reported by the version-control backend.
#[derive(Clone, Debug, PartialEq, Eq)]
pub struct GitFailure {
    pub code: BackendCode,
    pub class: BackendClass,
    pub message: String,
}

/// The groups into which the errors fall.
#[derive(Clone, Copy, Debug, PartialEq, Eq, Structural)]
pub enum ErrorKind {
    NotFound,
    AlreadyExists,
    InvalidInput,
    Authentication,
    Backend,
    Storage,
    ProcessControl,
}

/// What can go wrong.
#[derive(Clone, Debug, PartialEq, Eq)]
pub enum RepomanError {
    RepoNotInVault(String),
    RepoAlreadyInVault(String),
    PristineNotFound(String),
    PristineAlreadyExists(String),
    CloneNotFound(String),
    CloneAlreadyExists(String),
    NotAGitRepo(String),
    NoRemotesFound,
    InvalidRepoUrl(String),
    VaultLoadError(String),
    VaultSaveError(String),
    MetadataLoadError(String, String),
    MetadataSaveError(String, String),
    AuthenticationFailed(String),
    GitError(GitFailure),
    IoError(String),
    JsonError(String),
    AgentAlreadyRunning(u32),
    AgentNotRunning,
    InvalidAgentAction(String),
    AgentSpawnError(String),
    ConfigError(String),
    AliasNotFound(String),
    FastForwardFailed(String, String),
    BranchNotFound(String, String),
}

/// The guidance that follows the message of an authentication failure.
pub const AUTH_HELP: &'static str = "\n\nSSH authentication failed. Your SSH key may not be loaded in the agent.\n\nTo fix this, try one of:\n\n  1. Load your key for this session:\n     $ ssh-add ~/.ssh/id_ed25519\n\n  2. Use 'keychain' for persistent key management (recommended):\n     $ sudo pacman -S keychain  # or apt install keychain\n     # Add to ~/.bashrc:\n     eval $(keychain --eval --quiet id_ed25519)\n\n  3. If using GNOME/KDE, ensure gnome-keyring or kwallet is configured\n     to unlock SSH keys on login.\n\n  4. For HTTPS repos, configure git credential helper:\n     $ git config --global credential.helper cache\n";

impl RepomanError {
    /// The group of the error.
    pub open spec fn kind_of(self) -> ErrorKind {
        match self {
            RepomanError::RepoNotInVault(_) => ErrorKind::NotFound,
            RepomanError::PristineNotFound(_) => ErrorKind::NotFound,
            RepomanError::CloneNotFound(_) => ErrorKind::NotFound,
            RepomanError::BranchNotFound(_, _) => ErrorKind::NotFound,
            RepomanError::AliasNotFound(_) => ErrorKind::NotFound,
            RepomanError::RepoAlreadyInVault(_) => ErrorKind::AlreadyExists,
            RepomanError::PristineAlreadyExists(_) => ErrorKind::AlreadyExists,
            RepomanError::CloneAlreadyExists(_) => ErrorKind::AlreadyExists,
            RepomanError::InvalidRepoUrl(_) => ErrorKind::InvalidInput,
            RepomanError::NoRemotesFound => ErrorKind::InvalidInput,
            RepomanError::InvalidAgentAction(_) => ErrorKind::InvalidInput,
            RepomanError::ConfigError(_) => ErrorKind::InvalidInput,
            RepomanError::AuthenticationFailed(_) => ErrorKind::Authentication,
            RepomanError::GitError(_) => ErrorKind::Backend,
            RepomanError::NotAGitRepo(_) => ErrorKind::Backend,
            RepomanError::FastForwardFailed(_, _) => ErrorKind::Backend,
            RepomanError::VaultLoadError(_) => ErrorKind::Storage,
            RepomanError::VaultSaveError(_) => ErrorKind::Storage,
            RepomanError::MetadataLoadError(_, _) => ErrorKind::Storage,
            RepomanError::MetadataSaveError(_, _) => ErrorKind::Storage,
            RepomanError::IoError(_) => ErrorKind::Storage,
            RepomanError::JsonError(_) => ErrorKind::Storage,
            RepomanError::AgentAlreadyRunning(_) => ErrorKind::ProcessControl,
            RepomanError::AgentNotRunning => ErrorKind::ProcessControl,
            RepomanError::AgentSpawnError(_) => ErrorKind::ProcessControl,
        }
    }

    /// The group of the error.
    pub fn kind(&self) -> (k: ErrorKind)
        ensures
            k == self.kind_of(),
    {
        match self {
            RepomanError::RepoNotInVault(_) => ErrorKind::NotFound,
            RepomanError::PristineNotFound(_) => ErrorKind::NotFound,
            RepomanError::CloneNotFound(_) => ErrorKind::NotFound,
            RepomanError::BranchNotFound(_, _) => ErrorKind::NotFound,
            RepomanError::AliasNotFound(_) => ErrorKind::NotFound,
            RepomanError::RepoAlreadyInVault(_) => ErrorKind::AlreadyExists,
            RepomanError::PristineAlreadyExists(_) => ErrorKind::AlreadyExists,
            RepomanError::CloneAlreadyExists(_) => ErrorKind::AlreadyExists,
            RepomanError::InvalidRepoUrl(_) => ErrorKind::InvalidInput,
            RepomanError::NoRemotesFound => ErrorKind::InvalidInput,
            RepomanError::InvalidAgentAction(_) => ErrorKind::InvalidInput,
            RepomanError::ConfigError(_) => ErrorKind::InvalidInput,
            RepomanError::AuthenticationFailed(_) => ErrorKind::Authentication,
            RepomanError::GitError(_) => ErrorKind::Backend,
            RepomanError::NotAGitRepo(_) => ErrorKind::Backend,
            RepomanError::FastForwardFailed(_, _) => ErrorKind::Backend,
            RepomanError::VaultLoadError(_) => ErrorKind::Storage,
            RepomanError::VaultSaveError(_) => ErrorKind::Storage,
            RepomanError::MetadataLoadError(_, _) => ErrorKind::Storage,
            RepomanError::MetadataSaveError(_, _) => ErrorKind::Storage,
            RepomanError::IoError(_) => ErrorKind::Storage,
            RepomanError::JsonError(_) => ErrorKind::Storage,
            RepomanError::AgentAlreadyRunning(_) => ErrorKind::ProcessControl,
            RepomanError::AgentNotRunning => ErrorKind::ProcessControl,
            RepomanError::AgentSpawnError(_) => ErrorKind::ProcessControl,
        }
    }

    /// The text shown for the error.
    pub open spec fn message_text(self) -> Seq<char> {
        match self {
            RepomanError::RepoNotInVault(n) => "Repository '"@ + n@ + "' not found in vault"@,
            RepomanError::RepoAlreadyInVault(n) => "Repository '"@ + n@
                + "' already exists in vault"@,
            RepomanError::PristineNotFound(n) => "Pristine '"@ + n@ + "' not found"@,
            RepomanError::PristineAlreadyExists(n) => "Pristine '"@ + n@ + "' already exists"@,
            RepomanError::CloneNotFound(n) => "Clone '"@ + n@ + "' not found"@,
            RepomanError::CloneAlreadyExists(n) => "Clone '"@ + n@ + "' already exists"@,
            RepomanError::NotAGitRepo(p) => "Not a git repository: "@ + p@,
            RepomanError::NoRemotesFound => "No remotes found in repository"@,
            RepomanError::InvalidRepoUrl(u) => "Could not extract repository name from URL: "@
                + u@,
            RepomanError::VaultLoadError(e) => "Failed to load vault: "@ + e@,
            RepomanError::VaultSaveError(e) => "Failed to save vault: "@ + e@,
            RepomanError::MetadataLoadError(n, e) => "Failed to load metadata for '"@ + n@ + "': "@
                + e@,
            RepomanError::MetadataSaveError(n, e) => "Failed to save metadata for '"@ + n@ + "': "@
                + e@,
            RepomanError::AuthenticationFailed(n) => "Authentication failed for '"@ + n@ + "'"@
                + AUTH_HELP@,
            RepomanError::GitError(f) => "Git operation failed: "@ + f.message@,
            RepomanError::IoError(e) => "IO error: "@ + e@,
            RepomanError::JsonError(e) => "JSON error: "@ + e@,
            RepomanError::AgentAlreadyRunning(pid) => "Agent is already running (PID: "@ + decimal(
                pid as nat,
            ) + ")"@,
            RepomanError::AgentNotRunning => "Agent is not running"@,
            RepomanError::InvalidAgentAction(a) => "Invalid agent action: "@ + a@
                + ". Expected 'start', 'stop', or 'status'"@,
            RepomanError::AgentSpawnError(e) => "Failed to spawn agent process: "@ + e@,
            RepomanError::ConfigError(e) => "Configuration error: "@ + e@,
            RepomanError::AliasNotFound(a) => "Alias '"@ + a@ + "' not found"@,
            RepomanError::FastForwardFailed(c, e) => "Fast-forward failed for clone '"@ + c@
                + "': "@ + e@,
            RepomanError::BranchNotFound(b, p) => "Branch '"@ + b@ + "' not found in pristine '"@
                + p@ + "'"@,
        }
    }

    /// The text shown for the error.
    pub fn message(&self) -> (s: String)
        ensures
            s@ == self.message_text(),
    {
        match self {
            RepomanError::RepoNotInVault(n) => concat3("Repository '", n, "' not found in vault"),
            RepomanError::RepoAlreadyInVault(n) => concat3(
                "Repository '",
                n,
                "' already exists in vault",
            ),
            RepomanError::PristineNotFound(n) => concat3("Pristine '", n, "' not found"),
            RepomanError::PristineAlreadyExists(n) => concat3("Pristine '", n, "' already exists"),
            RepomanError::CloneNotFound(n) => concat3("Clone '", n, "' not found"),
            RepomanError::CloneAlreadyExists(n) => concat3("Clone '", n, "' already exists"),
            RepomanError::NotAGitRepo(p) => concat2("Not a git repository: ", p),
            RepomanError::NoRemotesFound => "No remotes found in repository".to_owned(),
            RepomanError::InvalidRepoUrl(u) => concat2(
                "Could not extract repository name from URL: ",
                u,
            ),
            RepomanError::VaultLoadError(e) => concat2("Failed to load vault: ", e),
            RepomanError::VaultSaveError(e) => concat2("Failed to save vault: ", e),
            RepomanError::MetadataLoadError(n, e) => {
                let mut s = concat3("Failed to load metadata for '", n, "': ");
                s.append(e);
                s
            },
            RepomanError::MetadataSaveError(n, e) => {
                let mut s = concat3("Failed to save metadata for '", n, "': ");
                s.append(e);
                s
            },
            RepomanError::AuthenticationFailed(n) => {
                let mut s = concat3("Authentication failed for '", n, "'");
                s.append(AUTH_HELP);
                s
            },
            RepomanError::GitError(f) => concat2("Git operation failed: ", &f.message),
            RepomanError::IoError(e) => concat2("IO error: ", e),
            RepomanError::JsonError(e) => concat2("JSON error: ", e),
            RepomanError::AgentAlreadyRunning(pid) => {
                let mut s = "Agent is already running (PID: ".to_owned();
                push_decimal(&mut s, *pid as u64);
                s.append(")");
                s
            },
            RepomanError::AgentNotRunning => "Agent is not running".to_owned(),
            RepomanError::InvalidAgentAction(a) => concat3(
                "Invalid agent action: ",
                a,
                ". Expected 'start', 'stop', or 'status'",
            ),
            RepomanError::AgentSpawnError(e) => concat2("Failed to spawn agent process: ", e),
            RepomanError::ConfigError(e) => concat2("Configuration error: ", e),
            RepomanError::AliasNotFound(a) => concat3("Alias '", a, "' not found"),
            RepomanError::FastForwardFailed(c, e) => {
                let mut s = concat3("Fast-forward failed for clone '", c, "': ");
                s.append(e);
                s
            },
            RepomanError::BranchNotFound(b, p) => concat5(
                "Branch '",
                b,
                "' not found in pristine '",
                p,
                "'",
            ),
        }
    }
}

/// Whether a lowercased failure message speaks of authentication.
pub open spec fn speaks_of_auth(lowered: Seq<char>) -> bool {
    ||| has_substring(lowered, "auth"@)
    ||| has_substring(lowered, "credential"@)
    ||| has_substring(lowered, "permission denied"@)
}

/// Whether a failure of the backend is one of authentication, given its
/// message in lowercase.
pub open spec fn auth_failure(code: BackendCode, class: BackendClass, lowered: Seq<char>) -> bool {
    code == BackendCode::Auth || class == BackendClass::Ssh || speaks_of_auth(lowered)
}

/// Whether a failure of the backend is one of authentication, given its
/// message in lowercase.
pub fn is_auth_failure(code: BackendCode, class: BackendClass, lowered: &str) -> (r: bool)
    ensures
        r == auth_failure(code, class, lowered@),
{
    if code == BackendCode::Auth || class == BackendClass::Ssh {
        return true;
    }
    let v = chars_of(lowered);
    assert(v@.take(v.len() as int) == v@);
    let auth = chars_of("auth");
    let credential = chars_of("credential");
    let denied = chars_of("permission denied");
    contains_text(&v, v.len(), &auth) || contains_text(&v, v.len(), &credential) || contains_text(
        &v,
        v.len(),
        &denied,
    )
}

/// Whether a failure of the backend is one of authentication: its code says
/// so, it arose in the SSH transport, or its message in lowercase speaks of
/// it.
pub fn is_auth_error(err: &GitFailure) -> (r: bool)
    ensures
        r == auth_failure(err.code, err.class, lowercase_of(err.message@)),
{
    let lowered = to_lowercase(&err.message);
    is_auth_failure(err.code, err.class, &lowered)
}

/// The error for a failure of the backend met while working on `repo_name`:
/// an authentication failure names the repository, any other is passed on.
pub fn git_error_with_context(err: GitFailure, repo_name: &str) -> (r: RepomanError)
    ensures
        auth_failure(err.code, err.class, lowercase_of(err.message@)) ==> (r matches RepomanError::AuthenticationFailed(n)
            && n@ == repo_name@),
        !auth_failure(err.code, err.class, lowercase_of(err.message@)) ==> r
            == RepomanError::GitError(err),
{
    if is_auth_error(&err) {
        RepomanError::AuthenticationFailed(repo_name.to_owned())
    } else {
        RepomanError::GitError(err)
    }
}

} // verus!
