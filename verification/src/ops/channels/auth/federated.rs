//! What a peer host must satisfy for operations on channels.

use vstd::prelude::*;
use crate::auth::{federated_rule, Requirement};
use crate::types::Uuid;

verus! {

/// A peer acting for an admin of the server.
pub fn create(server_id: Uuid) -> (r: Requirement)
    ensures
        r == federated_rule(Requirement::ServerAdmin(server_id)),
{
    Requirement::ServerAdmin(server_id).federated_only()
}

/// Nobody: the list of all channels is not handed to peers.
pub fn get_all() -> (r: Requirement)
    ensures
        r == federated_rule(Requirement::Never),
{
    Requirement::Never.federated_only()
}

/// A peer acting for a member of the server.
pub fn get_by_server(server_id: Uuid) -> (r: Requirement)
    ensures
        r == federated_rule(Requirement::ServerMember(server_id)),
{
    Requirement::ServerMember(server_id).federated_only()
}

/// A peer acting for a member of the server.
pub fn get_by_id(server_id: Uuid) -> (r: Requirement)
    ensures
        r == federated_rule(Requirement::ServerMember(server_id)),
{
    Requirement::ServerMember(server_id).federated_only()
}

/// A peer acting for an admin of the server.
pub fn delete(server_id: Uuid) -> (r: Requirement)
    ensures
        r == federated_rule(Requirement::ServerAdmin(server_id)),
{
    Requirement::ServerAdmin(server_id).federated_only()
}

} // verus!
