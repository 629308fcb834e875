//! The credentials offered to a remote: which one answers a challenge, and
//! the guard that lets a connection ask only once.

use crate::metadata::AuthConfig;
use vstd::prelude::*;

verus! {

/// What the backend asks for when a remote wants credentials: the kinds it
/// accepts, the user name that the URL gives, and the token found in the
/// environment variable that the repository names, where there is one.
#[derive(Clone, Debug)]
pub struct Challenge {
    pub ssh_key: bool,
    pub default: bool,
    pub user_pass_plaintext: bool,
    pub username: Option<String>,
    pub token: Option<String>,
}

/// A way to authenticate.
#[derive(Clone, Copy, Debug, PartialEq, Eq, Structural)]
pub enum Strategy {
    /// The SSH key at the path that the repository names.
    SshKeyFile,
    /// A key held by the SSH agent.
    SshAgent,
    /// The credentials of the environment.
    Default,
    /// The token, sent as the password of the user `git`.
    Token,
    /// The credential helper of the platform.
    Helper,
}

/// The credential to hand to the backend.
#[derive(Clone, Debug, PartialEq, Eq)]
pub enum Credential {
    SshKeyFile { username: String, key_path: String },
    SshAgent { username: String },
    Default,
    Token { username: String, token: String },
    Helper { username: String },
}

/// Why no credential is offered.
#[derive(Clone, Copy, Debug, PartialEq, Eq, Structural)]
pub enum Refusal {
    /// The connection has asked before: it is not answered again.
    Retried,
    /// No strategy applies to the kinds that the remote accepts.
    NoneApplies,
}

/// The strategy chain of one connection attempt.
#[derive(Clone, Debug)]
pub struct CredentialNegotiator {
    /// How often the connection has asked.
    pub attempts: u32,
    pub ssh_key_path: Option<String>,
    pub token_env_var: Option<String>,
}

/// The first strategy that applies to a challenge, in the order of
/// preference: the SSH key of the repository, else a key of the SSH agent,
/// both for a remote that accepts SSH keys and a URL with a user name; the
/// default credentials where the remote accepts them; for a remote that
/// accepts a user name and password, the token where one was found, else
/// the credential helper for a URL with a user name.
pub open spec fn strategy_for(has_key_path: bool, c: Challenge) -> Option<Strategy> {
    if c.ssh_key && c.username is Some {
        if has_key_path {
            Some(Strategy::SshKeyFile)
        } else {
            Some(Strategy::SshAgent)
        }
    } else if c.default {
        Some(Strategy::Default)
    } else if c.user_pass_plaintext && c.token is Some {
        Some(Strategy::Token)
    } else if c.user_pass_plaintext && c.username is Some {
        Some(Strategy::Helper)
    } else {
        None
    }
}

/// Whether a credential is the one that a strategy makes of a challenge.
pub open spec fn credential_matches(
    cred: Credential,
    strategy: Strategy,
    key_path: Option<String>,
    c: Challenge,
) -> bool {
    match strategy {
        Strategy::SshKeyFile => cred matches Credential::SshKeyFile { username, key_path: p }
            && Some(username) == c.username && Some(p) == key_path,
        Strategy::SshAgent => cred matches Credential::SshAgent { username } && Some(username)
            == c.username,
        Strategy::Default => cred == Credential::Default,
        Strategy::Token => cred matches Credential::Token { username, token } && username@
            == "git"@ && Some(token) == c.token,
        Strategy::Helper => cred matches Credential::Helper { username } && Some(username)
            == c.username,
    }
}

impl Refusal {
    /// The text of the refusal.
    pub fn message(&self) -> (r: &'static str)
        ensures
            *self == Refusal::Retried ==> r@ == "authentication failed"@,
            *self == Refusal::NoneApplies ==> r@ == "No valid credentials available"@,
    {
        match self {
            Refusal::Retried => "authentication failed",
            Refusal::NoneApplies => "No valid credentials available",
        }
    }
}

/// The strategy chain for a connection attempt on a repository with the
/// authentication settings `auth_config`. It has not been asked yet.
pub fn setup_credentials(auth_config: Option<&AuthConfig>) -> (r: CredentialNegotiator)
    ensures
        r.attempts == 0,
        auth_config matches Some(a) ==> r.ssh_key_path == a.ssh_key_path && r.token_env_var
            == a.token_env_var,
        auth_config is None ==> r.ssh_key_path is None && r.token_env_var is None,
{
    match auth_config {
        Some(a) => CredentialNegotiator {
            attempts: 0,
            ssh_key_path: a.ssh_key_path.clone(),
            token_env_var: a.token_env_var.clone(),
        },
        None => CredentialNegotiator { attempts: 0, ssh_key_path: None, token_env_var: None },
    }
}

impl CredentialNegotiator {
    /// The answer to a challenge, as a strategy: none to a connection that
    /// has asked before, else the first that applies.
    pub open spec fn answer_of(self, c: Challenge) -> Result<Strategy, Refusal> {
        if self.attempts > 0 {
            Err(Refusal::Retried)
        } else {
            match strategy_for(self.ssh_key_path is Some, c) {
                Some(s) => Ok(s),
                None => Err(Refusal::NoneApplies),
            }
        }
    }

    /// The negotiator after a challenge: it has been asked.
    pub open spec fn asked(self) -> CredentialNegotiator {
        if self.attempts > 0 {
            self
        } else {
            CredentialNegotiator { attempts: 1, ..self }
        }
    }

    /// The name of the environment variable to read the token from.
    pub fn token_variable(&self) -> (r: Option<&str>)
        ensures
            r is Some <==> self.token_env_var is Some,
            r matches Some(v) ==> v@ == self.token_env_var->0@,
    {
        match &self.token_env_var {
            Some(v) => Some(v.as_str()),
            None => None,
        }
    }

    /// Answers a challenge of the backend. The first challenge of a
    /// connection is answered with the first strategy that applies to it;
    /// every later one is refused, whatever it asks for, so that a remote
    /// that keeps asking cannot make the connection loop.
    pub fn respond(&mut self, challenge: &Challenge) -> (r: Result<Credential, Refusal>)
        ensures
            *final(self) == old(self).asked(),
            final(self).attempts > 0,
            r matches Err(e) ==> old(self).answer_of(*challenge) == Err::<Strategy, Refusal>(e),
            r matches Ok(cred) ==> (old(self).answer_of(*challenge) matches Ok(s)
                && credential_matches(cred, s, old(self).ssh_key_path, *challenge)),
    {
        if self.attempts > 0 {
            return Err(Refusal::Retried);
        }
        self.attempts = 1;
        if challenge.ssh_key {
            match (&self.ssh_key_path, &challenge.username) {
                (Some(key_path), Some(username)) => {
                    return Ok(
                        Credential::SshKeyFile {
                            username: username.clone(),
                            key_path: key_path.clone(),
                        },
                    );
                },
                (None, Some(username)) => {
                    return Ok(Credential::SshAgent { username: username.clone() });
                },
                _ => {},
            }
        }
        if challenge.default {
            return Ok(Credential::Default);
        }
        if challenge.user_pass_plaintext {
            match &challenge.token {
                Some(token) => {
                    return Ok(
                        Credential::Token { username: "git".to_owned(), token: token.clone() },
                    );
                },
                None => {},
            }
            match &challenge.username {
                Some(username) => {
                    return Ok(Credential::Helper { username: username.clone() });
                },
                None => {},
            }
        }
        Err(Refusal::NoneApplies)
    }
}

/// Within one connection a second challenge is always refused, whatever the
/// first one was and whatever the second asks for, also where a strategy
/// would apply to it.
pub proof fn lemma_second_challenge_refused(
    negotiator: CredentialNegotiator,
    first: Challenge,
    second: Challenge,
)
    ensures
        negotiator.asked().answer_of(second) == Err::<Strategy, Refusal>(Refusal::Retried),
        negotiator.asked().asked() == negotiator.asked(),
{
}

} // verus!
