//! Operations on channels.

use vstd::prelude::*;
use vstd::string::*;
use crate::auth::Session;
use crate::config::{local_host_spec, ServerConfig};
use crate::error::{is_check_result, ApiError, ApiResult, Refusal};
use crate::ops::{clone_host, is_placement, Dispatch, Operation};
use crate::ops::fanout::ServerChange;
use crate::types::Uuid;
use crate::types::channel::{Channel, NewChannel};
use crate::types::ws::{ClientWsUpdate, FederationWsUpdate};

pub mod auth;

verus! {

/// Creates a channel in a server. Decides where the operation is carried out.
pub fn create(
    config: &ServerConfig,
    session: &Session,
    server_id: Uuid,
    new_channel: &NewChannel,
    target_host: &Option<String>,
) -> (r: ApiResult<Dispatch>)
    ensures
        is_placement(
            r,
            (Operation::ChannelsCreate {
                server_id,
                new_channel: *new_channel,
                target_host: *target_host,
            }).placement(
                local_host_spec(config.local_host_raw@, config.port),
                *session,
            ),
        ),
{
    let op = Operation::ChannelsCreate {
        server_id,
        new_channel: new_channel.clone(),
        target_host: clone_host(target_host),
    };
    op.place(config, session)
}

/// Lists all channels. Decides where the operation is carried out.
pub fn get_all(
    config: &ServerConfig,
    session: &Session,
    target_host: &Option<String>,
) -> (r: ApiResult<Dispatch>)
    ensures
        is_placement(
            r,
            (Operation::ChannelsGetAll { target_host: *target_host }).placement(
                local_host_spec(config.local_host_raw@, config.port),
                *session,
            ),
        ),
{
    let op = Operation::ChannelsGetAll { target_host: clone_host(target_host) };
    op.place(config, session)
}

/// Lists the channels of a server. Decides where the operation is carried out.
pub fn get_by_server(
    config: &ServerConfig,
    session: &Session,
    server_id: Uuid,
    target_host: &Option<String>,
) -> (r: ApiResult<Dispatch>)
    ensures
        is_placement(
            r,
            (Operation::ChannelsGetByServer { server_id, target_host: *target_host }).placement(
                local_host_spec(config.local_host_raw@, config.port),
                *session,
            ),
        ),
{
    let op = Operation::ChannelsGetByServer { server_id, target_host: clone_host(target_host) };
    op.place(config, session)
}

/// Gets a channel of a server. Decides where the operation is carried out.
pub fn get_by_id(
    config: &ServerConfig,
    session: &Session,
    server_id: Uuid,
    channel_id: Uuid,
    target_host: &Option<String>,
) -> (r: ApiResult<Dispatch>)
    ensures
        is_placement(
            r,
            (Operation::ChannelsGetById {
                server_id,
                channel_id,
                target_host: *target_host,
            }).placement(
                local_host_spec(config.local_host_raw@, config.port),
                *session,
            ),
        ),
{
    let op = Operation::ChannelsGetById {
        server_id,
        channel_id,
        target_host: clone_host(target_host),
    };
    op.place(config, session)
}

/// Deletes a channel of a server. Decides where the operation is carried out.
pub fn delete(
    config: &ServerConfig,
    session: &Session,
    server_id: Uuid,
    channel_id: Uuid,
    target_host: &Option<String>,
) -> (r: ApiResult<Dispatch>)
    ensures
        is_placement(
            r,
            (Operation::ChannelsDelete {
                server_id,
                channel_id,
                target_host: *target_host,
            }).placement(
                local_host_spec(config.local_host_raw@, config.port),
                *session,
            ),
        ),
{
    let op = Operation::ChannelsDelete {
        server_id,
        channel_id,
        target_host: clone_host(target_host),
    };
    op.place(config, session)
}

/// Checks that `channel` belongs to the server that the path names. A
/// channel of another server is refused as not authorized, so that the
/// answer does not tell whether the channel exists.
pub fn check_in_server(channel: &Channel, server_id: Uuid) -> (r: ApiResult<()>)
    ensures
        is_check_result(
            r,
            if channel.server_id == server_id {
                None
            } else {
                Some(Refusal::AuthError("Channel not found in specified server"@))
            },
        ),
{
    if channel.server_id != server_id {
        return Err(ApiError::AuthError(String::from_str("Channel not found in specified server")));
    }
    Ok(())
}

/// The change to tell once `channel` was created.
pub fn created(channel: &Channel) -> (r: ServerChange)
    ensures
        r == (ServerChange {
            server_id: channel.server_id,
            client_update: ClientWsUpdate::ChannelUpserted(*channel),
            federation_update: FederationWsUpdate::ChannelUpserted(*channel),
        }),
{
    ServerChange {
        server_id: channel.server_id,
        client_update: ClientWsUpdate::ChannelUpserted(channel.clone()),
        federation_update: FederationWsUpdate::ChannelUpserted(channel.clone()),
    }
}

/// The change to tell once the channel `channel_id` of `server_id` was deleted.
pub fn deleted(server_id: Uuid, channel_id: Uuid) -> (r: ServerChange)
    ensures
        r == (ServerChange {
            server_id,
            client_update: ClientWsUpdate::ChannelDeleted { server_id, channel_id },
            federation_update: FederationWsUpdate::ChannelDeleted { server_id, channel_id },
        }),
{
    ServerChange {
        server_id,
        client_update: ClientWsUpdate::ChannelDeleted { server_id, channel_id },
        federation_update: FederationWsUpdate::ChannelDeleted { server_id, channel_id },
    }
}

} // verus!
