//! What a peer host must satisfy for operations on memberships.

use vstd::prelude::*;
use crate::auth::{federated_rule, Requirement};
use crate::types::Uuid;
use crate::types::user::UserRef;

verus! {

/// A peer acting for the user who joins.
pub fn create(_server_id: Uuid, user_ref: UserRef) -> (r: Requirement)
    ensures
        r == federated_rule(Requirement::FederatedUser(user_ref)),
{
    Requirement::FederatedUser(user_ref).federated_only()
}

/// A peer acting for the user who leaves.
pub fn delete(_server_id: Uuid, user_ref: UserRef) -> (r: Requirement)
    ensures
        r == federated_rule(Requirement::FederatedUser(user_ref)),
{
    Requirement::FederatedUser(user_ref).federated_only()
}

} // verus!
