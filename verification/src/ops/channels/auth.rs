//! What a client must satisfy for operations on channels.

use vstd::prelude::*;
use crate::auth::{client_rule, Requirement};
use crate::types::Uuid;

pub mod federated;

verus! {

/// An admin of the server, or a host admin.
pub fn create(server_id: Uuid) -> (r: Requirement)
    ensures
        r == client_rule(Requirement::ServerAdmin(server_id)),
{
    Requirement::ServerAdmin(server_id).or_admin().client_only()
}

/// A host admin.
pub fn get_all() -> (r: Requirement)
    ensures
        r == Requirement::ClientOnly(Box::new(Requirement::HostAdmin)),
{
    Requirement::HostAdmin.client_only()
}

/// A member of the server, or a host admin.
pub fn get_by_server(server_id: Uuid) -> (r: Requirement)
    ensures
        r == client_rule(Requirement::ServerMember(server_id)),
{
    Requirement::ServerMember(server_id).or_admin().client_only()
}

/// A member of the server, or a host admin.
pub fn get_by_id(server_id: Uuid) -> (r: Requirement)
    ensures
        r == client_rule(Requirement::ServerMember(server_id)),
{
    Requirement::ServerMember(server_id).or_admin().client_only()
}

/// An admin of the server, or a host admin.
pub fn delete(server_id: Uuid) -> (r: Requirement)
    ensures
        r == client_rule(Requirement::ServerAdmin(server_id)),
{
    Requirement::ServerAdmin(server_id).or_admin().client_only()
}

} // verus!
