//! Which side of the connection this process is.
//!
//! The role is fixed at process start from configuration and never
//! changes during a run; every piece of role-dependent behaviour takes
//! it as an explicit parameter rather than consulting ambient state.

use vstd::prelude::*;

verus! {

/// A process-wide fact: this process is the authority or a follower.
#[derive(Clone, Copy, Debug, PartialEq, Eq, Structural)]
pub enum NetworkRole {
    Server,
    Client,
}

/// Resolves whether the running instance is the authority (server) or a
/// follower (client).
#[derive(Clone, Copy, Debug, PartialEq, Eq, Structural)]
pub struct NetworkIdentity {
    pub role: NetworkRole,
}

impl NetworkIdentity {
    pub fn new(role: NetworkRole) -> (r: Self)
        ensures
            r.role == role,
    {
        NetworkIdentity { role }
    }

    pub fn is_server(&self) -> (r: bool)
        ensures
            r == (self.role == NetworkRole::Server),
    {
        matches!(self.role, NetworkRole::Server)
    }

    pub fn is_client(&self) -> (r: bool)
        ensures
            r == (self.role == NetworkRole::Client),
    {
        matches!(self.role, NetworkRole::Client)
    }
}

/// A process is a server or a client, never both and never neither.
pub proof fn lemma_role_exclusive(id: NetworkIdentity)
    ensures
        (id.role == NetworkRole::Server) <==> !(id.role == NetworkRole::Client),
{
}

} // verus!
