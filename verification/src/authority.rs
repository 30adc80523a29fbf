//! The execution backend of a window, and how to reconnect to a remote one.
use std::sync::Arc;
use vstd::prelude::*;

use crate::ids::AuthorityStamp;

verus! {

/// How far the user trusts the project of a window.
#[derive(Clone, Copy, Debug, PartialEq, Eq, Structural)]
pub enum TrustLevel {
    Blocked,
    Restricted,
    Trusted,
}

/// The channel to a remote host.
#[derive(Clone, Copy, Debug, PartialEq, Eq, Structural)]
pub struct RemoteChannel {
    pub id: Option<u64>,
    pub connected: bool,
}

/// The directory of a project. The canonical path, the last component, the
/// path as it is shown in quotes and whether it is absolute come from the host.
#[derive(Debug)]
pub struct WorkspaceRoot {
    pub path: String,
    pub quoted: String,
    pub canonical: String,
    pub name: String,
    pub absolute: bool,
}

/// The trust and environment scope of a session: trust is keyed by the
/// repository that owns the root, the environment by the exact root.
#[derive(Debug)]
pub struct SessionScope {
    pub root: Arc<WorkspaceRoot>,
    pub state_dir: String,
    pub trust_dir: String,
}

/// The backend that a window acts through.
#[derive(Debug)]
pub struct Authority {
    pub stamp: AuthorityStamp,
    pub display_label: String,
    pub trust: TrustLevel,
    pub env_active: bool,
    pub remote: Option<RemoteChannel>,
    /// The scope that a local backend was made for.
    pub scope: Option<Arc<SessionScope>>,
}

impl Authority {
    /// A copy of the handle. Both act through the same backend.
    pub fn duplicate(&self) -> (copy: Authority)
        ensures
            copy == *self,
    {
        Authority {
            stamp: self.stamp,
            display_label: self.display_label.clone(),
            trust: self.trust,
            env_active: self.env_active,
            remote: self.remote,
            scope: match &self.scope {
                Some(scope) => Some(scope.clone()),
                None => None,
            },
        }
    }

    /// Whether a remote channel is there and up.
    pub open spec fn is_connected(self) -> bool {
        self.remote is Some && self.remote->0.connected
    }
}

/// How to reach a remote host.
#[derive(Debug)]
pub enum RemoteTransport {
    /// A pod, by the name under which it is shown.
    Kubernetes {
        target: String,
        /// The environment that everything there starts with.
        base_env: Arc<Vec<(String, String)>>,
    },
    Ssh {
        user: Option<String>,
        host: String,
        port: Option<u16>,
        identity_file: Option<String>,
        remote_path: Option<String>,
        extra_args: Vec<String>,
    },
}

/// What a saved session claims about the tenant that it was connected to.
#[derive(Debug)]
pub enum IdentityClaim {
    /// Nothing is claimed.
    Absent,
    /// Something is claimed that is incomplete or malformed.
    Invalid,
    /// A complete, well-formed identity is claimed: the tenant that has to be
    /// found at the other end.
    Verified(Arc<TenantIdentity>),
}

/// The tenant at the other end of a connection.
#[derive(Debug)]
pub struct TenantIdentity {
    /// The digest of what anchors it.
    pub anchor: String,
    pub canonical_root: String,
}

/// A remote session as it is asked for or was saved.
#[derive(Debug)]
pub struct RemoteAgentSpec {
    pub transport: RemoteTransport,
    pub identity: IdentityClaim,
    /// Whether the session gets a window of its own.
    pub window: bool,
    pub label: Option<String>,
    pub command: Option<Arc<Vec<String>>>,
}

/// How to bring a session's backend back.
#[derive(Debug)]
pub enum AuthoritySpec {
    Local,
    RemoteAgent(Arc<RemoteAgentSpec>),
    /// A backend that a plugin described, and only that plugin can rebuild.
    Plugin(Arc<String>),
}

impl AuthoritySpec {
    /// A copy of the description.
    pub fn duplicate(&self) -> (copy: AuthoritySpec)
        ensures
            copy == *self,
    {
        match self {
            AuthoritySpec::Local => AuthoritySpec::Local,
            AuthoritySpec::RemoteAgent(spec) => AuthoritySpec::RemoteAgent(spec.clone()),
            AuthoritySpec::Plugin(payload) => AuthoritySpec::Plugin(payload.clone()),
        }
    }

    /// Whether the session acts on another machine.
    pub fn is_remote(&self) -> (remote: bool)
        ensures
            remote == (*self is RemoteAgent),
    {
        match self {
            AuthoritySpec::RemoteAgent(_) => true,
            _ => false,
        }
    }
}

/// The label of an SSH session: `ssh:target`, with the port where one is given.
pub open spec fn ssh_label(target: Seq<char>, port: Option<u16>) -> Seq<char> {
    match port {
        Some(port) => "ssh:"@ + target + ":"@ + crate::text::decimal_text(port as nat),
        None => "ssh:"@ + target,
    }
}

/// `user@host`, or `host` where no user is given or the user is empty.
pub open spec fn ssh_target(user: Option<String>, host: Seq<char>) -> Seq<char> {
    match user {
        Some(user) => if user@.len() == 0 {
            host
        } else {
            user@ + "@"@ + host
        },
        None => host,
    }
}

impl RemoteTransport {
    /// The user to log in as; an empty name is none.
    pub open spec fn spec_user(self) -> Option<String> {
        match self {
            RemoteTransport::Ssh { user: Some(user), .. } => if user@.len() > 0 {
                Some(user)
            } else {
                None
            },
            _ => None,
        }
    }

    /// The user to log in as; an empty name is none.
    pub fn login_user(&self) -> (user: Option<String>)
        ensures
            user == self.spec_user(),
    {
        match self {
            RemoteTransport::Ssh { user: Some(user), .. } => if user.as_str().is_empty() {
                None
            } else {
                Some(user.clone())
            },
            _ => None,
        }
    }

    /// The label under which the connection is shown while it is made.
    pub open spec fn spec_label(self) -> Seq<char> {
        match self {
            RemoteTransport::Kubernetes { target, .. } => target@,
            RemoteTransport::Ssh { user, host, port, .. } => ssh_label(
                ssh_target(user, host@),
                port,
            ),
        }
    }

    /// The label under which the connection is shown while it is made.
    pub fn label(&self) -> (label: String)
        ensures
            label@ == self.spec_label(),
    {
        match self {
            RemoteTransport::Kubernetes { target, .. } => target.clone(),
            RemoteTransport::Ssh { user, host, port, .. } => {
                let mut label = "ssh:".to_string();
                match user {
                    Some(user) => {
                        if !user.as_str().is_empty() {
                            label.append(user.as_str());
                            label.append("@");
                        }
                    },
                    None => {},
                }
                label.append(host.as_str());
                match port {
                    Some(port) => {
                        label.append(":");
                        let digits = crate::text::decimal(*port as u64);
                        label.append(digits.as_str());
                    },
                    None => {},
                }
                proof {
                    assert(label@ =~= self.spec_label());
                }
                label
            },
        }
    }
}

impl RemoteAgentSpec {
    /// The label of the window that the session gets: its own, or that of the
    /// connection where it has none.
    pub open spec fn spec_window_label(self) -> Seq<char> {
        match self.label {
            Some(label) => label@,
            None => self.transport.spec_label(),
        }
    }

    /// The label of the window that the session gets.
    pub fn window_label(&self) -> (label: String)
        ensures
            label@ == self.spec_window_label(),
    {
        match &self.label {
            Some(label) => label.clone(),
            None => self.transport.label(),
        }
    }
}

} // verus!
