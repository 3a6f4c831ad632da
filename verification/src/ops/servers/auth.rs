//! What a client must satisfy for operations on servers.

use vstd::prelude::*;
use crate::auth::{client_rule, Requirement};
use crate::types::Uuid;

pub mod federated;

verus! {

/// Any client.
pub fn create() -> (r: Requirement)
    ensures
        r == client_rule(Requirement::Always),
{
    Requirement::Always.or_admin().client_only()
}

/// A member of the server, or a host admin.
pub fn get_with_channels(server_id: Uuid) -> (r: Requirement)
    ensures
        r == client_rule(Requirement::ServerMember(server_id)),
{
    Requirement::ServerMember(server_id).or_admin().client_only()
}

/// An admin of the server, or a host admin.
pub fn delete(server_id: Uuid) -> (r: Requirement)
    ensures
        r == client_rule(Requirement::ServerAdmin(server_id)),
{
    Requirement::ServerAdmin(server_id).or_admin().client_only()
}

} // verus!
