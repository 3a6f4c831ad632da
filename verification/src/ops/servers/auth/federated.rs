//! What a peer host must satisfy for operations on servers.

use vstd::prelude::*;
use crate::auth::{federated_rule, Requirement};
use crate::types::Uuid;

verus! {

/// Any peer.
pub fn create() -> (r: Requirement)
    ensures
        r == federated_rule(Requirement::Always),
{
    Requirement::Always.federated_only()
}

/// A peer acting for a member of the server.
pub fn get_with_channels(server_id: Uuid) -> (r: Requirement)
    ensures
        r == federated_rule(Requirement::ServerMember(server_id)),
{
    Requirement::ServerMember(server_id).federated_only()
}

/// A peer acting for an admin of the server.
pub fn delete(server_id: Uuid) -> (r: Requirement)
    ensures
        r == federated_rule(Requirement::ServerAdmin(server_id)),
{
    Requirement::ServerAdmin(server_id).federated_only()
}

} // verus!
