//! What a peer host must satisfy for operations on messages.

use vstd::prelude::*;
use crate::auth::{federated_rule, Requirement};
use crate::ops::messages::auth::{delete_base, delete_base_spec};
use crate::types::Uuid;
use crate::types::message::Message;

verus! {

/// A peer acting for a member of the server.
pub fn create(server_id: Uuid) -> (r: Requirement)
    ensures
        r == federated_rule(Requirement::ServerMember(server_id)),
{
    Requirement::ServerMember(server_id).federated_only()
}

/// Nobody: the list of all messages is not handed to peers.
pub fn get_all() -> (r: Requirement)
    ensures
        r == federated_rule(Requirement::Never),
{
    Requirement::Never.federated_only()
}

/// A peer acting for a member of the server.
pub fn get_by_server(server_id: Uuid) -> (r: Requirement)
    ensures
        r == federated_rule(Requirement::ServerMember(server_id)),
{
    Requirement::ServerMember(server_id).federated_only()
}

/// A peer acting for a member of the server.
pub fn get_by_channel(server_id: Uuid) -> (r: Requirement)
    ensures
        r == federated_rule(Requirement::ServerMember(server_id)),
{
    Requirement::ServerMember(server_id).federated_only()
}

/// A peer acting for a member of the server.
pub fn get_by_id(server_id: Uuid) -> (r: Requirement)
    ensures
        r == federated_rule(Requirement::ServerMember(server_id)),
{
    Requirement::ServerMember(server_id).federated_only()
}

/// A peer acting for the author of the message or for an admin of the server.
pub fn delete(message: &Message, server_id: Uuid) -> (r: Requirement)
    ensures
        r == federated_rule(delete_base_spec(*message, server_id)),
{
    delete_base(message, server_id).federated_only()
}

} // verus!
