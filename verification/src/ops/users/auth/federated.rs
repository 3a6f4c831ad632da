//! What a peer host must satisfy for operations on users.

use vstd::prelude::*;
use crate::auth::{federated_rule, Requirement};
use crate::types::user::UserRef;

verus! {

/// A peer acting for the user.
pub fn delete(user_ref: UserRef) -> (r: Requirement)
    ensures
        r == federated_rule(Requirement::FederatedUser(user_ref)),
{
    Requirement::FederatedUser(user_ref).federated_only()
}

} // verus!
