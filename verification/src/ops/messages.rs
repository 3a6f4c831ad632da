//! Operations on messages.

use vstd::prelude::*;
use vstd::string::*;
use crate::auth::Session;
use crate::config::{local_host_spec, ServerConfig};
use crate::error::{is_check_result, ApiError, ApiResult, Refusal};
use crate::ops::{clone_host, is_placement, Dispatch, Operation};
use crate::ops::fanout::ServerChange;
use crate::types::Uuid;
use crate::ops::channels::check_in_server;
use crate::types::channel::Channel;
use crate::types::message::{Message, NewMessage};
use crate::types::ws::{ClientWsUpdate, FederationWsUpdate};

pub mod auth;

verus! {

/// Creates a message in a channel. Decides where the operation is carried out.
pub fn create(
    config: &ServerConfig,
    session: &Session,
    server_id: Uuid,
    channel_id: Uuid,
    new_message: &NewMessage,
    target_host: &Option<String>,
) -> (r: ApiResult<Dispatch>)
    ensures
        is_placement(
            r,
            (Operation::MessagesCreate {
                server_id,
                channel_id,
                new_message: *new_message,
                target_host: *target_host,
            }).placement(
                local_host_spec(config.local_host_raw@, config.port),
                *session,
            ),
        ),
{
    let op = Operation::MessagesCreate {
        server_id,
        channel_id,
        new_message: new_message.clone(),
        target_host: clone_host(target_host),
    };
    op.place(config, session)
}

/// Lists all messages. Decides where the operation is carried out.
pub fn get_all(
    config: &ServerConfig,
    session: &Session,
    target_host: &Option<String>,
) -> (r: ApiResult<Dispatch>)
    ensures
        is_placement(
            r,
            (Operation::MessagesGetAll { target_host: *target_host }).placement(
                local_host_spec(config.local_host_raw@, config.port),
                *session,
            ),
        ),
{
    let op = Operation::MessagesGetAll { target_host: clone_host(target_host) };
    op.place(config, session)
}

/// Lists the messages of a server. Decides where the operation is carried out.
pub fn get_by_server(
    config: &ServerConfig,
    session: &Session,
    server_id: Uuid,
    target_host: &Option<String>,
) -> (r: ApiResult<Dispatch>)
    ensures
        is_placement(
            r,
            (Operation::MessagesGetByServer { server_id, target_host: *target_host }).placement(
                local_host_spec(config.local_host_raw@, config.port),
                *session,
            ),
        ),
{
    let op = Operation::MessagesGetByServer { server_id, target_host: clone_host(target_host) };
    op.place(config, session)
}

/// Lists the messages of a channel. Decides where the operation is carried out.
pub fn get_by_channel(
    config: &ServerConfig,
    session: &Session,
    server_id: Uuid,
    channel_id: Uuid,
    target_host: &Option<String>,
) -> (r: ApiResult<Dispatch>)
    ensures
        is_placement(
            r,
            (Operation::MessagesGetByChannel {
                server_id,
                channel_id,
                target_host: *target_host,
            }).placement(
                local_host_spec(config.local_host_raw@, config.port),
                *session,
            ),
        ),
{
    let op = Operation::MessagesGetByChannel {
        server_id,
        channel_id,
        target_host: clone_host(target_host),
    };
    op.place(config, session)
}

/// Gets a message of a channel. Decides where the operation is carried out.
pub fn get_by_id(
    config: &ServerConfig,
    session: &Session,
    server_id: Uuid,
    channel_id: Uuid,
    message_id: Uuid,
    target_host: &Option<String>,
) -> (r: ApiResult<Dispatch>)
    ensures
        is_placement(
            r,
            (Operation::MessagesGetById {
                server_id,
                channel_id,
                message_id,
                target_host: *target_host,
            }).placement(
                local_host_spec(config.local_host_raw@, config.port),
                *session,
            ),
        ),
{
    let op = Operation::MessagesGetById {
        server_id,
        channel_id,
        message_id,
        target_host: clone_host(target_host),
    };
    op.place(config, session)
}

/// Deletes a message of a channel. Decides where the operation is carried out.
pub fn delete(
    config: &ServerConfig,
    session: &Session,
    server_id: Uuid,
    channel_id: Uuid,
    message_id: Uuid,
    target_host: &Option<String>,
) -> (r: ApiResult<Dispatch>)
    ensures
        is_placement(
            r,
            (Operation::MessagesDelete {
                server_id,
                channel_id,
                message_id,
                target_host: *target_host,
            }).placement(
                local_host_spec(config.local_host_raw@, config.port),
                *session,
            ),
        ),
{
    let op = Operation::MessagesDelete {
        server_id,
        channel_id,
        message_id,
        target_host: clone_host(target_host),
    };
    op.place(config, session)
}

/// Checks that `message` belongs to the channel that the path names. A
/// message of another channel is refused as not authorized.
pub fn check_in_channel(message: &Message, channel_id: Uuid) -> (r: ApiResult<()>)
    ensures
        is_check_result(
            r,
            if message.channel_id == channel_id {
                None
            } else {
                Some(Refusal::AuthError("Message not found in specified channel"@))
            },
        ),
{
    if message.channel_id != channel_id {
        return Err(ApiError::AuthError(String::from_str("Message not found in specified channel")));
    }
    Ok(())
}

/// Checks that the channel of a message belongs to the server that the path names.
pub fn check_channel_in_server(channel: &Channel, server_id: Uuid) -> (r: ApiResult<()>)
    ensures
        is_check_result(
            r,
            if channel.server_id == server_id {
                None
            } else {
                Some(Refusal::AuthError("Message not found in specified server"@))
            },
        ),
{
    if channel.server_id != server_id {
        return Err(ApiError::AuthError(String::from_str("Message not found in specified server")));
    }
    Ok(())
}

/// Checks that `message` is in `channel`, which the path names, and that the
/// channel is in the server that the path names: the message first.
pub fn check_path(message: &Message, channel: &Channel, channel_id: Uuid, server_id: Uuid) -> (r:
    ApiResult<()>)
    ensures
        is_check_result(
            r,
            if message.channel_id != channel_id {
                Some(Refusal::AuthError("Message not found in specified channel"@))
            } else if channel.server_id != server_id {
                Some(Refusal::AuthError("Message not found in specified server"@))
            } else {
                None
            },
        ),
{
    match check_in_channel(message, channel_id) {
        Ok(()) => check_channel_in_server(channel, server_id),
        Err(e) => Err(e),
    }
}

/// Checks that the channel that a new message goes to belongs to the server
/// that the path names.
pub fn check_target_channel(channel: &Channel, server_id: Uuid) -> (r: ApiResult<()>)
    ensures
        is_check_result(
            r,
            if channel.server_id == server_id {
                None
            } else {
                Some(Refusal::AuthError("Channel not found in specified server"@))
            },
        ),
{
    check_in_server(channel, server_id)
}

/// The change to tell once `message` was created in a channel of `server_id`.
pub fn created(server_id: Uuid, message: &Message) -> (r: ServerChange)
    ensures
        r == (ServerChange {
            server_id,
            client_update: ClientWsUpdate::MessageUpserted(*message),
            federation_update: FederationWsUpdate::MessageUpserted(*message),
        }),
{
    ServerChange {
        server_id,
        client_update: ClientWsUpdate::MessageUpserted(message.clone()),
        federation_update: FederationWsUpdate::MessageUpserted(message.clone()),
    }
}

/// The change to tell once a message was deleted.
pub fn deleted(server_id: Uuid, channel_id: Uuid, message_id: Uuid) -> (r: ServerChange)
    ensures
        r == (ServerChange {
            server_id,
            client_update: ClientWsUpdate::MessageDeleted { server_id, channel_id, message_id },
            federation_update: FederationWsUpdate::MessageDeleted {
                server_id,
                channel_id,
                message_id,
            },
        }),
{
    ServerChange {
        server_id,
        client_update: ClientWsUpdate::MessageDeleted { server_id, channel_id, message_id },
        federation_update: FederationWsUpdate::MessageDeleted { server_id, channel_id, message_id },
    }
}

} // verus!
