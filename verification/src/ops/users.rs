//! Operations on users.

use vstd::prelude::*;
use vstd::string::*;
use crate::auth::Session;
use crate::config::{local_host_spec, ServerConfig};
use crate::error::{is_check_result, is_refusal, ApiError, ApiResult, Refusal};
use crate::ops::{clone_host, is_placement, Dispatch, Operation};
use crate::ops::local::{LocalEffect, LocalFlow, LocalStep, StoreQuery};
use crate::text::str_eq;
use crate::types::user::{NewUser, User, UserRef};
use crate::types::ws::{ClientWsUpdate, FederationWsUpdate};
use crate::util::{api_url_spec, get_api_url, pad_host_spec, same_host};

pub mod auth;

verus! {

/// Creates a user. A user is created on this host always, so the work
/// starts at once: the store is asked to insert the user, and the flow waits
/// to tell every client of the user that the store hands back.
pub fn create(
    config: &ServerConfig,
    session: &Session,
    new_user: &NewUser,
) -> (r: LocalStep)
    ensures
        r.effect == LocalEffect::Ask(StoreQuery::InsertUser(*new_user)),
        r.next == LocalFlow::CreatingUser,
{
    LocalFlow::start(config, session, Operation::UsersCreate { new_user: new_user.clone() })
}

/// Lists all users. Open to anyone. Decides where the operation is carried out.
pub fn get_all(
    config: &ServerConfig,
    session: &Session,
    target_host: &Option<String>,
) -> (r: ApiResult<Dispatch>)
    ensures
        is_placement(
            r,
            (Operation::UsersGetAll { target_host: *target_host }).placement(
                local_host_spec(config.local_host_raw@, config.port),
                *session,
            ),
        ),
{
    let op = Operation::UsersGetAll { target_host: clone_host(target_host) };
    op.place(config, session)
}

/// Finds a user by reference, on the host that the reference names. Open to
/// anyone. Decides where the operation is carried out.
pub fn get_by_ref(
    config: &ServerConfig,
    session: &Session,
    user_ref: &UserRef,
) -> (r: ApiResult<Dispatch>)
    ensures
        is_placement(
            r,
            (Operation::UsersGetByRef { user_ref: *user_ref }).placement(
                local_host_spec(config.local_host_raw@, config.port),
                *session,
            ),
        ),
{
    let op = Operation::UsersGetByRef { user_ref: user_ref.clone() };
    op.place(config, session)
}

/// Deletes a user on its home host. This is done on this host always, so
/// the work starts at once: the store is asked for the user, and the flow
/// waits to check that this host is the user's home before anything is
/// deleted.
pub fn delete_home_user(
    config: &ServerConfig,
    session: &Session,
    user_ref: &UserRef,
) -> (r: LocalStep)
    ensures
        r.effect == LocalEffect::Ask(StoreQuery::UserByRef(*user_ref)),
        r.next == (LocalFlow::FindingHomeUser { user_ref: *user_ref }),
{
    LocalFlow::start(config, session, Operation::UsersDelete { user_ref: user_ref.clone() })
}

/// Deletes the record that this host keeps of a user of another host, at
/// the request of a peer. The request is refused, with the first refusal
/// that applies, unless the peer acts for this very user, the user is not a
/// local one, and the peer is the user's home host. Else the store is asked
/// to delete the record, and the flow waits to tell every client.
pub fn delete_remote_user_record(
    config: &ServerConfig,
    session: &Session,
    user_ref: &UserRef,
) -> (r: LocalStep)
    ensures
        match remote_deletion_refusal(
            local_host_spec(config.local_host_raw@, config.port),
            *session,
            *user_ref,
        ) {
            Some(refusal) => {
                &&& r.next is Finished
                &&& r.effect matches LocalEffect::Finish(Err(e)) && is_refusal(e, refusal)
            },
            None => {
                &&& r.effect == LocalEffect::Ask(StoreQuery::DeleteUser(*user_ref))
                &&& r.next == (LocalFlow::DeletingUserRecord { user_ref: *user_ref })
            },
        },
{
    LocalFlow::start(
        config,
        session,
        Operation::UsersDeleteRemoteRecord { user_ref: user_ref.clone() },
    )
}

/// Lists the hosts on which a user has memberships. Open to anyone. Decides
/// where the operation is carried out.
pub fn get_associated_hosts(
    config: &ServerConfig,
    session: &Session,
    user_ref: &UserRef,
    target_host: &Option<String>,
) -> (r: ApiResult<Dispatch>)
    ensures
        is_placement(
            r,
            (Operation::UsersGetAssociatedHosts {
                user_ref: *user_ref,
                target_host: *target_host,
            }).placement(
                local_host_spec(config.local_host_raw@, config.port),
                *session,
            ),
        ),
{
    let op = Operation::UsersGetAssociatedHosts {
        user_ref: user_ref.clone(),
        target_host: clone_host(target_host),
    };
    op.place(config, session)
}

/// Checks that `user`, who is to be deleted, has this host as home.
pub fn check_home_user(config: &ServerConfig, user: &User) -> (r: ApiResult<()>)
    ensures
        is_check_result(
            r,
            if pad_host_spec(user.host@) == pad_host_spec(
                local_host_spec(config.local_host_raw@, config.port),
            ) {
                None
            } else {
                Some(Refusal::BadRequest("Can only delete users from their home server"@))
            },
        ),
{
    if !same_host(user.host.as_str(), config.local_host().as_str()) {
        return Err(
            ApiError::BadRequest(String::from_str("Can only delete users from their home server")),
        );
    }
    Ok(())
}

/// What the deletion of the record of a user of another host is refused
/// with, the first that applies; `None` where it may go on.
pub open spec fn remote_deletion_refusal(
    local: Seq<char>,
    session: Session,
    user_ref: UserRef,
) -> Option<Refusal> {
    match session.user_ref {
        None => Some(Refusal::AuthError("User reference required for federated user deletion"@)),
        Some(acting) => if acting.name@ != user_ref.name@ || acting.host@ != user_ref.host@ {
            Some(
                Refusal::BadRequest(
                    "User identity in path does not match user reference in token"@,
                ),
            )
        } else if pad_host_spec(acting.host@) == pad_host_spec(local) {
            Some(Refusal::BadRequest("Cannot delete local users via federation"@))
        } else {
            match session.federation {
                None => Some(Refusal::AuthError("Federation claims required"@)),
                Some(claims) => if claims.iss@ != api_url_spec(acting.host@) {
                    Some(Refusal::AuthError("Only the home server can delete a user"@))
                } else {
                    None
                },
            }
        },
    }
}

/// Checks that the record of `user_ref` may be deleted at the request of a
/// peer: the peer acts for this very user, the user is not a local one, and
/// the peer is the user's home host.
pub fn check_remote_user_deletion(config: &ServerConfig, session: &Session, user_ref: &UserRef) -> (r:
    ApiResult<()>)
    ensures
        is_check_result(
            r,
            remote_deletion_refusal(
                local_host_spec(config.local_host_raw@, config.port),
                *session,
                *user_ref,
            ),
        ),
{
    let acting = match &session.user_ref {
        Some(u) => u,
        None => {
            return Err(
                ApiError::AuthError(
                    String::from_str("User reference required for federated user deletion"),
                ),
            );
        },
    };
    if !str_eq(acting.name.as_str(), user_ref.name.as_str()) || !str_eq(
        acting.host.as_str(),
        user_ref.host.as_str(),
    ) {
        return Err(
            ApiError::BadRequest(
                String::from_str("User identity in path does not match user reference in token"),
            ),
        );
    }
    if same_host(acting.host.as_str(), config.local_host().as_str()) {
        return Err(
            ApiError::BadRequest(String::from_str("Cannot delete local users via federation")),
        );
    }
    let expected_home_server_url = get_api_url(acting.host.as_str());
    let claims = match &session.federation {
        Some(c) => c,
        None => {
            return Err(ApiError::AuthError(String::from_str("Federation claims required")));
        },
    };
    if !str_eq(claims.iss.as_str(), expected_home_server_url.as_str()) {
        return Err(ApiError::AuthError(String::from_str("Only the home server can delete a user")));
    }
    Ok(())
}

/// The update that tells clients that `user` was created.
pub fn created(user: &User) -> (r: ClientWsUpdate)
    ensures
        r == ClientWsUpdate::UserUpserted(*user),
{
    ClientWsUpdate::UserUpserted(user.clone())
}

/// The update that tells clients that `user_ref` was deleted.
pub fn deleted(user_ref: &UserRef) -> (r: ClientWsUpdate)
    ensures
        r == (ClientWsUpdate::UserDeleted { user_ref: *user_ref }),
{
    ClientWsUpdate::UserDeleted { user_ref: user_ref.clone() }
}

/// The update that tells the hosts on which a user had memberships that the
/// user was deleted at home.
pub fn deleted_at_home(user_ref: &UserRef) -> (r: FederationWsUpdate)
    ensures
        r == (FederationWsUpdate::RemoteUserDeleted { user_ref: *user_ref }),
{
    FederationWsUpdate::RemoteUserDeleted { user_ref: user_ref.clone() }
}

} // verus!
