//! What a client must satisfy for operations on messages.

use vstd::prelude::*;
use crate::auth::{client_rule, Requirement};
use crate::types::Uuid;
use crate::types::message::Message;
use crate::types::user::user_ref_of;

pub mod federated;

verus! {

/// Who may delete a message, before what the transport adds: its author or
/// an admin of the server; an admin alone where it has no author.
pub open spec fn delete_base_spec(message: Message, server_id: Uuid) -> Requirement {
    match message.author {
        Some(author) => Requirement::Or(
            Box::new(Requirement::User(user_ref_of(author))),
            Box::new(Requirement::ServerAdmin(server_id)),
        ),
        None => Requirement::ServerAdmin(server_id),
    }
}

/// A member of the server, or a host admin.
pub fn create(server_id: Uuid) -> (r: Requirement)
    ensures
        r == client_rule(Requirement::ServerMember(server_id)),
{
    Requirement::ServerMember(server_id).or_admin().client_only()
}

/// A host admin.
pub fn get_all() -> (r: Requirement)
    ensures
        r == Requirement::ClientOnly(Box::new(Requirement::HostAdmin)),
{
    Requirement::HostAdmin.client_only()
}

/// A member of the server, or a host admin.
pub fn get_by_server(server_id: Uuid) -> (r: Requirement)
    ensures
        r == client_rule(Requirement::ServerMember(server_id)),
{
    Requirement::ServerMember(server_id).or_admin().client_only()
}

/// A member of the server, or a host admin.
pub fn get_by_channel(server_id: Uuid) -> (r: Requirement)
    ensures
        r == client_rule(Requirement::ServerMember(server_id)),
{
    Requirement::ServerMember(server_id).or_admin().client_only()
}

/// A member of the server, or a host admin.
pub fn get_by_id(server_id: Uuid) -> (r: Requirement)
    ensures
        r == client_rule(Requirement::ServerMember(server_id)),
{
    Requirement::ServerMember(server_id).or_admin().client_only()
}

/// Who may delete `message`, which the store gave: see `delete_base_spec`.
pub fn delete_base(message: &Message, server_id: Uuid) -> (r: Requirement)
    ensures
        r == delete_base_spec(*message, server_id),
{
    match &message.author {
        Some(author) => Requirement::User(author.as_ref()).or(Requirement::ServerAdmin(server_id)),
        None => Requirement::ServerAdmin(server_id),
    }
}

/// The author of the message, an admin of the server, or a host admin. The
/// message is looked up first, since the rule names its author.
pub fn delete(message: &Message, server_id: Uuid) -> (r: Requirement)
    ensures
        r == client_rule(delete_base_spec(*message, server_id)),
{
    delete_base(message, server_id).or_admin().client_only()
}

} // verus!
