//! Records of the connection store: groups, keys, sessions and port
//! forwards, each with the input that creates one and the input that
//! changes one. In an update, a field that is `None` is left as it is.

use vstd::prelude::*;

verus! {

/// A group of sessions.
#[derive(Debug, PartialEq, Eq)]
pub struct Group {
    pub id: String,
    pub name: String,
    pub color: Option<String>,
}

/// What creates a group.
#[derive(Debug, PartialEq, Eq)]
pub struct CreateGroup {
    pub name: String,
    pub color: Option<String>,
}

/// What changes a group.
#[derive(Debug, PartialEq, Eq)]
pub struct UpdateGroup {
    pub name: Option<String>,
    pub color: Option<String>,
}

/// A key pair known to the store. The private key stays in a file.
#[derive(Debug, PartialEq, Eq)]
pub struct SshKey {
    pub id: String,
    pub name: String,
    pub key_type: String,
    pub public_key: String,
    pub private_key_path: Option<String>,
    pub fingerprint: String,
    pub has_passphrase: bool,
    /// Seconds since the epoch.
    pub created_at: i64,
}

/// What creates a key.
#[derive(Debug, PartialEq, Eq)]
pub struct CreateSshKey {
    pub name: String,
    pub key_type: String,
    pub public_key: String,
    pub private_key_path: Option<String>,
    pub fingerprint: String,
    pub has_passphrase: bool,
}

/// What changes a key: only its name can change.
#[derive(Debug, PartialEq, Eq)]
pub struct UpdateSshKey {
    pub name: Option<String>,
}

/// The stored parameters of a session.
#[derive(Debug, PartialEq, Eq)]
pub struct Session {
    pub id: String,
    pub name: String,
    pub group_id: Option<String>,
    pub host: String,
    pub port: i64,
    pub username: String,
    pub auth_method: String,
    pub key_id: Option<String>,
    /// Seconds since the epoch.
    pub created_at: i64,
    /// Seconds since the epoch.
    pub updated_at: i64,
}

/// What creates a session.
#[derive(Debug, PartialEq, Eq)]
pub struct CreateSession {
    pub name: String,
    pub group_id: Option<String>,
    pub host: String,
    pub port: i64,
    pub username: String,
    pub auth_method: String,
    pub key_id: Option<String>,
}

/// What changes a session. For `group_id` and `key_id`, `Some(None)`
/// clears the reference.
#[derive(Debug, PartialEq, Eq)]
pub struct UpdateSession {
    pub name: Option<String>,
    pub group_id: Option<Option<String>>,
    pub host: Option<String>,
    pub port: Option<i64>,
    pub username: Option<String>,
    pub auth_method: Option<String>,
    pub key_id: Option<Option<String>>,
}

/// A port forward of a session.
#[derive(Debug, PartialEq, Eq)]
pub struct PortForward {
    pub id: String,
    pub session_id: String,
    pub name: String,
    pub forward_type: String,
    pub local_host: String,
    pub local_port: i64,
    pub remote_host: Option<String>,
    pub remote_port: Option<i64>,
}

/// What creates a port forward.
#[derive(Debug, PartialEq, Eq)]
pub struct CreatePortForward {
    pub session_id: String,
    pub name: String,
    pub forward_type: String,
    pub local_host: String,
    pub local_port: i64,
    pub remote_host: Option<String>,
    pub remote_port: Option<i64>,
}

/// What changes a port forward. For `remote_host`, `Some(None)` clears
/// the host.
#[derive(Debug, PartialEq, Eq)]
pub struct UpdatePortForward {
    pub name: Option<String>,
    pub forward_type: Option<String>,
    pub local_host: Option<String>,
    pub local_port: Option<i64>,
    pub remote_host: Option<Option<String>>,
    pub remote_port: Option<i64>,
}

} // verus!
