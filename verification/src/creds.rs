//! The credential-resolution policy and the push stage's configuration rule.
//! When git's own credential helper yields nothing, authentication falls back
//! in a fixed order: the configured SSH key path, the key path from the
//! environment, a key under the user's home directory — or, over HTTPS, the
//! configured access token. The collaborator that talks to git performs the
//! actual calls; the choices are made here.

use vstd::prelude::*;
use crate::data::CloneMode;

verus! {

/// The credential to try after the platform helper has failed.
#[derive(Clone, Debug, PartialEq)]
pub enum CredFallback {
    /// Authenticate over SSH with the key at this path.
    SshKey { keypath: String },
    /// Authenticate over HTTPS with this access token.
    Token { token: String },
    /// No credential can be offered; the message says why.
    NoCredential { message: String },
}

/// The SSH key path to use: the configured path, else the environment's,
/// else `.ssh/id_rsa` under the home directory.
pub open spec fn ssh_key_choice(
    cfg_key: Option<Seq<char>>,
    env_key: Option<Seq<char>>,
    home: Seq<char>,
) -> Seq<char> {
    match cfg_key {
        Some(p) => p,
        None => match env_key {
            Some(k) => k,
            None => home + "/.ssh/id_rsa"@,
        },
    }
}

/// Resolves the SSH key path by the fixed fallback order.
pub fn ssh_key_path(cfg_key: &Option<String>, env_key: &Option<String>, home: &str) -> (r: String)
    ensures
        r@ == ssh_key_choice(cfg_key.deep_view(), env_key.deep_view(), home@),
{
    match cfg_key {
        Some(p) => p.clone(),
        None => match env_key {
            Some(k) => k.clone(),
            None => {
                let mut s = String::new();
                s.append(home);
                s.append("/.ssh/id_rsa");
                proof {
                    assert(s@ =~= home@ + "/.ssh/id_rsa"@);
                }
                s
            },
        },
    }
}

/// Chooses the credential to try once the platform helper has failed: over
/// SSH the resolved key path; over HTTPS the access token, if one is
/// configured; with no recognised mode, nothing.
pub fn fallback_credential(
    mode: &Option<CloneMode>,
    cfg_key: &Option<String>,
    token: &Option<String>,
    env_key: &Option<String>,
    home: &str,
) -> (r: CredFallback)
    ensures
        match mode {
            Some(CloneMode::Ssh) => r matches CredFallback::SshKey { keypath } && keypath@
                == ssh_key_choice(cfg_key.deep_view(), env_key.deep_view(), home@),
            Some(CloneMode::Https) => match token {
                Some(t) => r == CredFallback::Token { token: *t },
                None => r matches CredFallback::NoCredential { message } && message@
                    == "There is no access token configured for push :("@,
            },
            None => r matches CredFallback::NoCredential { message } && message@
                == "The URL was not recognised"@,
        },
{
    match mode {
        Some(CloneMode::Ssh) => CredFallback::SshKey {
            keypath: ssh_key_path(cfg_key, env_key, home),
        },
        Some(CloneMode::Https) => match token {
            Some(t) => CredFallback::Token { token: t.clone() },
            None => CredFallback::NoCredential {
                message: String::from_str("There is no access token configured for push :("),
            },
        },
        None => CredFallback::NoCredential {
            message: String::from_str("The URL was not recognised"),
        },
    }
}

/// What can stop a push before it is attempted.
#[derive(Clone, Copy, Debug, PartialEq, Eq, Structural)]
pub enum PushConfigError {
    /// The repository has a number of configured remotes other than one.
    WrongRemoteCount,
}

impl PushConfigError {
    /// A human-readable description of the error.
    pub fn message(&self) -> (r: String)
        ensures
            r@ == "We currently only support the repo having 1 remote"@,
    {
        String::from_str("We currently only support the repo having 1 remote")
    }
}

/// The push stage supports exactly one configured remote; any other count is
/// an unsupported configuration.
pub fn check_single_remote(remote_count: usize) -> (r: Result<(), PushConfigError>)
    ensures
        r is Ok <==> remote_count == 1,
        r is Err ==> r == Err::<(), PushConfigError>(PushConfigError::WrongRemoteCount),
{
    if remote_count == 1 {
        Ok(())
    } else {
        Err(PushConfigError::WrongRemoteCount)
    }
}

} // verus!
