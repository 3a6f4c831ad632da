//! What a client must satisfy for operations on memberships.

use vstd::prelude::*;
use crate::auth::{client_rule, Requirement};
use crate::types::Uuid;
use crate::types::user::UserRef;

pub mod federated;

verus! {

/// Any client.
pub fn create(_server_id: Uuid) -> (r: Requirement)
    ensures
        r == client_rule(Requirement::Always),
{
    Requirement::Always.or_admin().client_only()
}

/// The user, an admin of the server, or a host admin.
pub fn delete(server_id: Uuid, user_ref: UserRef) -> (r: Requirement)
    ensures
        r == client_rule(
            Requirement::Or(
                Box::new(Requirement::User(user_ref)),
                Box::new(Requirement::ServerAdmin(server_id)),
            ),
        ),
{
    Requirement::User(user_ref).or(Requirement::ServerAdmin(server_id)).or_admin().client_only()
}

} // verus!
