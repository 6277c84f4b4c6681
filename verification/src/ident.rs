//! The credential that the daemon authenticates with: a key at a fixed
//! place below the user's home directory.

use vstd::prelude::*;
use vstd::string::*;

verus! {

/// Where the private key lies, from the home directory.
pub const KEY_FILE: &'static str = "/.ssh/id_ed25519";

/// A key-based credential.
#[derive(Debug, PartialEq, Eq)]
pub struct SshKey {
    /// The user to authenticate as.
    pub username: String,
    /// The path of the public key, where it is not derived from the private
    /// one.
    pub public_key: Option<String>,
    /// The path of the private key.
    pub private_key: String,
    /// The passphrase of the private key, where it has one.
    pub passphrase: Option<String>,
}

/// Why no credential can be given.
#[derive(Clone, Copy, Debug, PartialEq, Eq)]
pub enum CredentialError {
    /// The remote's URL names no user.
    MissingUsername,
    /// The home directory is not known.
    MissingHome,
}

/// The credential for a remote: the key `KEY_FILE` below the home
/// directory, for the user that the remote's URL names, without a separate
/// public key and without a passphrase.  It is the same for every remote.
/// A missing user is reported before a missing home directory.
pub fn credentials_callback(remote_url: &str, username: Option<&str>, home: Option<&str>) -> (r:
    Result<SshKey, CredentialError>)
    ensures
        match (username, home) {
            (None, _) => r == Err::<SshKey, CredentialError>(CredentialError::MissingUsername),
            (Some(_), None) => r == Err::<SshKey, CredentialError>(CredentialError::MissingHome),
            (Some(user), Some(dir)) => {
                &&& r matches Ok(key)
                &&& key.username@ == user@
                &&& key.public_key is None
                &&& key.private_key@ == dir@ + KEY_FILE@
                &&& key.passphrase is None
            },
        },
{
    match username {
        None => Err(CredentialError::MissingUsername),
        Some(user) => match home {
            None => Err(CredentialError::MissingHome),
            Some(dir) => {
                let mut private_key = String::from_str(dir);
                private_key.append(KEY_FILE);
                Ok(
                    SshKey {
                        username: String::from_str(user),
                        public_key: None,
                        private_key,
                        passphrase: None,
                    },
                )
            },
        },
    }
}

} // verus!
