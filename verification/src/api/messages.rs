//! The endpoints on messages.

use vstd::prelude::*;
use crate::api::{HttpRoute, STATUS_CREATED, STATUS_NO_CONTENT, STATUS_OK};
use crate::types::Uuid;
use crate::types::message::NewMessage;
use crate::types::ws::ClientWsRequest;
use crate::ws::handlers::client::{client_route, handle_client_request};

verus! {

/// The query of the endpoints on messages.
#[derive(Clone, Debug, PartialEq, Eq)]
pub struct MessageQueryParams {
    pub target_host: Option<String>,
}

/// `POST /servers/{server_id}/channels/{channel_id}/messages`
pub fn create(
    server_id: Uuid,
    channel_id: Uuid,
    params: MessageQueryParams,
    new_message: NewMessage,
) -> (r: HttpRoute)
    ensures
        r.success == STATUS_CREATED,
        r.route == client_route(
            ClientWsRequest::MessagesCreate {
                server_id,
                channel_id,
                new_message,
                target_host: params.target_host,
            },
        ),
{
    HttpRoute {
        route: handle_client_request(
            ClientWsRequest::MessagesCreate {
                server_id,
                channel_id,
                new_message,
                target_host: params.target_host,
            },
        ),
        success: STATUS_CREATED,
    }
}

/// `GET /messages`
pub fn get_all(params: MessageQueryParams) -> (r: HttpRoute)
    ensures
        r.success == STATUS_OK,
        r.route == client_route(
            ClientWsRequest::MessagesGetAll { target_host: params.target_host },
        ),
{
    HttpRoute {
        route: handle_client_request(
            ClientWsRequest::MessagesGetAll { target_host: params.target_host },
        ),
        success: STATUS_OK,
    }
}

/// `GET /servers/{server_id}/messages`
pub fn get_by_server(server_id: Uuid, params: MessageQueryParams) -> (r: HttpRoute)
    ensures
        r.success == STATUS_OK,
        r.route == client_route(
            ClientWsRequest::MessagesGetByServer { server_id, target_host: params.target_host },
        ),
{
    HttpRoute {
        route: handle_client_request(
            ClientWsRequest::MessagesGetByServer { server_id, target_host: params.target_host },
        ),
        success: STATUS_OK,
    }
}

/// `GET /servers/{server_id}/channels/{channel_id}/messages`
pub fn get_by_channel(
    server_id: Uuid,
    channel_id: Uuid,
    params: MessageQueryParams,
) -> (r: HttpRoute)
    ensures
        r.success == STATUS_OK,
        r.route == client_route(
            ClientWsRequest::MessagesGetByChannel {
                server_id,
                channel_id,
                target_host: params.target_host,
            },
        ),
{
    HttpRoute {
        route: handle_client_request(
            ClientWsRequest::MessagesGetByChannel {
                server_id,
                channel_id,
                target_host: params.target_host,
            },
        ),
        success: STATUS_OK,
    }
}

/// `GET /servers/{server_id}/channels/{channel_id}/messages/{message_id}`
pub fn get_by_id(
    server_id: Uuid,
    channel_id: Uuid,
    message_id: Uuid,
    params: MessageQueryParams,
) -> (r: HttpRoute)
    ensures
        r.success == STATUS_OK,
        r.route == client_route(
            ClientWsRequest::MessagesGetById {
                server_id,
                channel_id,
                message_id,
                target_host: params.target_host,
            },
        ),
{
    HttpRoute {
        route: handle_client_request(
            ClientWsRequest::MessagesGetById {
                server_id,
                channel_id,
                message_id,
                target_host: params.target_host,
            },
        ),
        success: STATUS_OK,
    }
}

/// `DELETE /servers/{server_id}/channels/{channel_id}/messages/{message_id}`
pub fn delete(
    server_id: Uuid,
    channel_id: Uuid,
    message_id: Uuid,
    params: MessageQueryParams,
) -> (r: HttpRoute)
    ensures
        r.success == STATUS_NO_CONTENT,
        r.route == client_route(
            ClientWsRequest::MessagesDelete {
                server_id,
                channel_id,
                message_id,
                target_host: params.target_host,
            },
        ),
{
    HttpRoute {
        route: handle_client_request(
            ClientWsRequest::MessagesDelete {
                server_id,
                channel_id,
                message_id,
                target_host: params.target_host,
            },
        ),
        success: STATUS_NO_CONTENT,
    }
}

} // verus!
