use repoman::metadata::AuthConfig;
use repoman::operations::credentials::{
    setup_credentials, Challenge, Credential, CredentialNegotiator, Refusal,
};

fn challenge(ssh_key: bool, default: bool, user_pass: bool, username: Option<&str>, token: Option<&str>) -> Challenge {
    Challenge {
        ssh_key,
        default,
        user_pass_plaintext: user_pass,
        username: username.map(|s| s.to_string()),
        token: token.map(|s| s.to_string()),
    }
}

fn fresh(key: Option<&str>, var: Option<&str>) -> CredentialNegotiator {
    let auth = AuthConfig {
        ssh_key_path: key.map(|s| s.to_string()),
        token_env_var: var.map(|s| s.to_string()),
    };
    setup_credentials(Some(&auth))
}

#[test]
fn test_setup_credentials_takes_over_the_settings() {
    let n = fresh(Some("/k"), Some("TOKEN"));
    assert_eq!(n.attempts, 0);
    assert_eq!(n.ssh_key_path.as_deref(), Some("/k"));
    assert_eq!(n.token_variable(), Some("TOKEN"));
    let n = setup_credentials(None);
    assert_eq!(n.attempts, 0);
    assert!(n.ssh_key_path.is_none());
    assert_eq!(n.token_variable(), None);
}

#[test]
fn test_credentials_order_of_preference() {
    // the key of the repository before everything else
    let all = challenge(true, true, true, Some("git"), Some("secret"));
    assert_eq!(
        fresh(Some("/k"), Some("T")).respond(&all),
        Ok(Credential::SshKeyFile { username: "git".to_string(), key_path: "/k".to_string() })
    );
    // the agent where the repository names no key
    assert_eq!(
        fresh(None, Some("T")).respond(&all),
        Ok(Credential::SshAgent { username: "git".to_string() })
    );
    // the default credentials where no SSH key is accepted
    let no_ssh = challenge(false, true, true, Some("git"), Some("secret"));
    assert_eq!(fresh(Some("/k"), Some("T")).respond(&no_ssh), Ok(Credential::Default));
    // the token where nothing else is accepted
    let plain = challenge(false, false, true, Some("alice"), Some("secret"));
    assert_eq!(
        fresh(Some("/k"), Some("T")).respond(&plain),
        Ok(Credential::Token { username: "git".to_string(), token: "secret".to_string() })
    );
    // the helper as the last resort
    let no_token = challenge(false, false, true, Some("alice"), None);
    assert_eq!(
        fresh(Some("/k"), Some("T")).respond(&no_token),
        Ok(Credential::Helper { username: "alice".to_string() })
    );
}

#[test]
fn test_credentials_ssh_without_a_user_name_falls_through() {
    let c = challenge(true, true, false, None, None);
    assert_eq!(fresh(Some("/k"), None).respond(&c), Ok(Credential::Default));
    assert_eq!(fresh(None, None).respond(&c), Ok(Credential::Default));
    let c = challenge(true, false, true, None, Some("tok"));
    assert_eq!(
        fresh(None, None).respond(&c),
        Ok(Credential::Token { username: "git".to_string(), token: "tok".to_string() })
    );
}

#[test]
fn test_credentials_none_applies() {
    assert_eq!(
        fresh(Some("/k"), Some("T")).respond(&challenge(false, false, false, Some("git"), Some("s"))),
        Err(Refusal::NoneApplies)
    );
    assert_eq!(
        fresh(None, None).respond(&challenge(true, false, true, None, None)),
        Err(Refusal::NoneApplies)
    );
    assert_eq!(Refusal::NoneApplies.message(), "No valid credentials available");
    assert_eq!(Refusal::Retried.message(), "authentication failed");
}

#[test]
fn test_credentials_second_challenge_is_refused() {
    let all = challenge(true, true, true, Some("git"), Some("secret"));
    let mut n = fresh(Some("/k"), Some("T"));
    assert!(n.respond(&all).is_ok());
    assert_eq!(n.attempts, 1);
    // the same challenge would have been answered by a fresh negotiator
    assert_eq!(n.respond(&all), Err(Refusal::Retried));
    assert_eq!(n.respond(&challenge(false, true, false, None, None)), Err(Refusal::Retried));
    assert_eq!(n.attempts, 1);
    // also after a first challenge that no strategy applied to
    let mut n = fresh(None, None);
    assert_eq!(n.respond(&challenge(false, false, false, None, None)), Err(Refusal::NoneApplies));
    assert_eq!(n.respond(&all), Err(Refusal::Retried));
}
