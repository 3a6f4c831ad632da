//! The endpoints on channels.

use vstd::prelude::*;
use crate::api::{HttpRoute, STATUS_CREATED, STATUS_NO_CONTENT, STATUS_OK};
use crate::types::Uuid;
use crate::types::channel::NewChannel;
use crate::types::ws::ClientWsRequest;
use crate::ws::handlers::client::{client_route, handle_client_request};

verus! {

/// The query of the endpoints on channels.
#[derive(Clone, Debug, PartialEq, Eq)]
pub struct ChannelQueryParams {
    pub target_host: Option<String>,
}

/// `POST /servers/{server_id}/channels`
pub fn create(
    server_id: Uuid,
    params: ChannelQueryParams,
    new_channel: NewChannel,
) -> (r: HttpRoute)
    ensures
        r.success == STATUS_CREATED,
        r.route == client_route(
            ClientWsRequest::ChannelsCreate {
                server_id,
                new_channel,
                target_host: params.target_host,
            },
        ),
{
    HttpRoute {
        route: handle_client_request(
            ClientWsRequest::ChannelsCreate {
                server_id,
                new_channel,
                target_host: params.target_host,
            },
        ),
        success: STATUS_CREATED,
    }
}

/// `GET /channels`
pub fn get_all(params: ChannelQueryParams) -> (r: HttpRoute)
    ensures
        r.success == STATUS_OK,
        r.route == client_route(
            ClientWsRequest::ChannelsGetAll { target_host: params.target_host },
        ),
{
    HttpRoute {
        route: handle_client_request(
            ClientWsRequest::ChannelsGetAll { target_host: params.target_host },
        ),
        success: STATUS_OK,
    }
}

/// `GET /servers/{server_id}/channels`
pub fn get_by_server(server_id: Uuid, params: ChannelQueryParams) -> (r: HttpRoute)
    ensures
        r.success == STATUS_OK,
        r.route == client_route(
            ClientWsRequest::ChannelsGetByServer { server_id, target_host: params.target_host },
        ),
{
    HttpRoute {
        route: handle_client_request(
            ClientWsRequest::ChannelsGetByServer { server_id, target_host: params.target_host },
        ),
        success: STATUS_OK,
    }
}

/// `GET /servers/{server_id}/channels/{channel_id}`
pub fn get_by_id(server_id: Uuid, channel_id: Uuid, params: ChannelQueryParams) -> (r: HttpRoute)
    ensures
        r.success == STATUS_OK,
        r.route == client_route(
            ClientWsRequest::ChannelsGetById {
                server_id,
                channel_id,
                target_host: params.target_host,
            },
        ),
{
    HttpRoute {
        route: handle_client_request(
            ClientWsRequest::ChannelsGetById {
                server_id,
                channel_id,
                target_host: params.target_host,
            },
        ),
        success: STATUS_OK,
    }
}

/// `DELETE /servers/{server_id}/channels/{channel_id}`
pub fn delete(server_id: Uuid, channel_id: Uuid, params: ChannelQueryParams) -> (r: HttpRoute)
    ensures
        r.success == STATUS_NO_CONTENT,
        r.route == client_route(
            ClientWsRequest::ChannelsDelete {
                server_id,
                channel_id,
                target_host: params.target_host,
            },
        ),
{
    HttpRoute {
        route: handle_client_request(
            ClientWsRequest::ChannelsDelete {
                server_id,
                channel_id,
                target_host: params.target_host,
            },
        ),
        success: STATUS_NO_CONTENT,
    }
}

} // verus!
