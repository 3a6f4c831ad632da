//! What a client must satisfy for operations on users.

use vstd::prelude::*;
use crate::auth::{client_rule, Requirement};
use crate::types::user::UserRef;

pub mod federated;

verus! {

/// Any client.
pub fn create() -> (r: Requirement)
    ensures
        r == Requirement::Client,
{
    Requirement::Client
}

/// The user, or a host admin.
pub fn delete(user_ref: UserRef) -> (r: Requirement)
    ensures
        r == client_rule(Requirement::User(user_ref)),
{
    Requirement::User(user_ref).or_admin().client_only()
}

} // verus!
