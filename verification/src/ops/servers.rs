//! Operations on servers.

use vstd::prelude::*;
use vstd::string::*;
use crate::auth::Session;
use crate::config::{local_host_spec, ServerConfig};
use crate::error::{ApiError, ApiResult};
use crate::ops::{clone_host, is_placement, Dispatch, Operation};
use crate::ops::fanout::ServerChange;
use crate::types::Uuid;
use crate::types::channel::Channel;
use crate::types::server::{
    NewServer, NewServerMembership, Server, ServerMembership, ServerRole, ServerWithChannels,
};
use crate::types::user::UserRef;
use crate::types::ws::{ClientWsUpdate, FederationWsUpdate};

pub mod auth;

verus! {

/// Creates a server; its creator becomes its admin. Decides where the operation is carried out.
pub fn create(
    config: &ServerConfig,
    session: &Session,
    new_server: &NewServer,
    target_host: &Option<String>,
) -> (r: ApiResult<Dispatch>)
    ensures
        is_placement(
            r,
            (Operation::ServersCreate {
                new_server: *new_server,
                target_host: *target_host,
            }).placement(
                local_host_spec(config.local_host_raw@, config.port),
                *session,
            ),
        ),
{
    let op = Operation::ServersCreate {
        new_server: new_server.clone(),
        target_host: clone_host(target_host),
    };
    op.place(config, session)
}

/// Lists all servers. Open to anyone. Decides where the operation is carried out.
pub fn get_all(
    config: &ServerConfig,
    session: &Session,
    target_host: &Option<String>,
) -> (r: ApiResult<Dispatch>)
    ensures
        is_placement(
            r,
            (Operation::ServersGetAll { target_host: *target_host }).placement(
                local_host_spec(config.local_host_raw@, config.port),
                *session,
            ),
        ),
{
    let op = Operation::ServersGetAll { target_host: clone_host(target_host) };
    op.place(config, session)
}

/// Gets a server. Open to anyone. Decides where the operation is carried out.
pub fn get_by_id(
    config: &ServerConfig,
    session: &Session,
    server_id: Uuid,
    target_host: &Option<String>,
) -> (r: ApiResult<Dispatch>)
    ensures
        is_placement(
            r,
            (Operation::ServersGetById { server_id, target_host: *target_host }).placement(
                local_host_spec(config.local_host_raw@, config.port),
                *session,
            ),
        ),
{
    let op = Operation::ServersGetById { server_id, target_host: clone_host(target_host) };
    op.place(config, session)
}

/// Gets a server with its channels. Decides where the operation is carried out.
pub fn get_with_channels(
    config: &ServerConfig,
    session: &Session,
    server_id: Uuid,
    target_host: &Option<String>,
) -> (r: ApiResult<Dispatch>)
    ensures
        is_placement(
            r,
            (Operation::ServersGetWithChannels { server_id, target_host: *target_host }).placement(
                local_host_spec(config.local_host_raw@, config.port),
                *session,
            ),
        ),
{
    let op = Operation::ServersGetWithChannels { server_id, target_host: clone_host(target_host) };
    op.place(config, session)
}

/// Deletes a server. Decides where the operation is carried out.
pub fn delete(
    config: &ServerConfig,
    session: &Session,
    server_id: Uuid,
    target_host: &Option<String>,
) -> (r: ApiResult<Dispatch>)
    ensures
        is_placement(
            r,
            (Operation::ServersDelete { server_id, target_host: *target_host }).placement(
                local_host_spec(config.local_host_raw@, config.port),
                *session,
            ),
        ),
{
    let op = Operation::ServersDelete { server_id, target_host: clone_host(target_host) };
    op.place(config, session)
}

/// The membership that makes the acting user the admin of the server that
/// was just created here. Fails where no user acts.
pub fn creator_membership(session: &Session, server: &Server) -> (r: ApiResult<NewServerMembership>)
    ensures
        match session.user_ref {
            Some(u) => r == Ok::<NewServerMembership, ApiError>(
                NewServerMembership {
                    user_ref: u,
                    server_id: server.id,
                    server_host: server.host,
                    role: ServerRole::Admin,
                },
            ),
            None => r matches Err(ApiError::Internal(m)) && m@
                == "Session missing user identity for server creation"@,
        },
{
    match &session.user_ref {
        Some(u) => Ok(
            NewServerMembership {
                user_ref: u.clone(),
                server_id: server.id,
                server_host: server.host.clone(),
                role: ServerRole::Admin,
            },
        ),
        None => Err(
            ApiError::Internal(
                String::from_str("Session missing user identity for server creation"),
            ),
        ),
    }
}

/// The mirror row to keep once a server was created on another host: the
/// creator is its admin since the server's creation.
pub fn creator_mirror(server: &Server, user_ref: UserRef) -> (r: ServerMembership)
    ensures
        r == (ServerMembership {
            server: *server,
            user_ref,
            role: ServerRole::Admin,
            joined_at: server.created_at,
            updated_at: server.updated_at,
            synced_at: Some(server.created_at),
        }),
{
    ServerMembership {
        server: server.clone(),
        user_ref,
        role: ServerRole::Admin,
        joined_at: server.created_at,
        updated_at: server.updated_at,
        synced_at: Some(server.created_at),
    }
}

/// A server with its channels.
pub fn with_channels(server: Server, channels: Vec<Channel>) -> (r: ServerWithChannels)
    ensures
        r == (ServerWithChannels { server, channels }),
{
    ServerWithChannels { server, channels }
}

/// The change to tell once `server` was created.
pub fn created(server: &Server) -> (r: ServerChange)
    ensures
        r == (ServerChange {
            server_id: server.id,
            client_update: ClientWsUpdate::ServerUpserted(*server),
            federation_update: FederationWsUpdate::ServerUpserted(*server),
        }),
{
    ServerChange {
        server_id: server.id,
        client_update: ClientWsUpdate::ServerUpserted(server.clone()),
        federation_update: FederationWsUpdate::ServerUpserted(server.clone()),
    }
}

/// The change to tell once the server `server_id` was deleted.
pub fn deleted(server_id: Uuid) -> (r: ServerChange)
    ensures
        r == (ServerChange {
            server_id,
            client_update: ClientWsUpdate::ServerDeleted { server_id },
            federation_update: FederationWsUpdate::ServerDeleted { server_id },
        }),
{
    ServerChange {
        server_id,
        client_update: ClientWsUpdate::ServerDeleted { server_id },
        federation_update: FederationWsUpdate::ServerDeleted { server_id },
    }
}

} // verus!
