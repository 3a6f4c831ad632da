//! The endpoints on servers.

use vstd::prelude::*;
use crate::api::{HttpRoute, STATUS_CREATED, STATUS_NO_CONTENT, STATUS_OK};
use crate::types::Uuid;
use crate::types::server::NewServer;
use crate::types::ws::ClientWsRequest;
use crate::ws::handlers::client::{client_route, handle_client_request};

verus! {

/// The query of the endpoints on servers.
#[derive(Clone, Debug, PartialEq, Eq)]
pub struct ServerQueryParams {
    pub target_host: Option<String>,
}

/// `POST /servers`
pub fn create(params: ServerQueryParams, new_server: NewServer) -> (r: HttpRoute)
    ensures
        r.success == STATUS_CREATED,
        r.route == client_route(
            ClientWsRequest::ServersCreate { new_server, target_host: params.target_host },
        ),
{
    HttpRoute {
        route: handle_client_request(
            ClientWsRequest::ServersCreate { new_server, target_host: params.target_host },
        ),
        success: STATUS_CREATED,
    }
}

/// `GET /servers`
pub fn get_all(params: ServerQueryParams) -> (r: HttpRoute)
    ensures
        r.success == STATUS_OK,
        r.route == client_route(ClientWsRequest::ServersGetAll { target_host: params.target_host }),
{
    HttpRoute {
        route: handle_client_request(
            ClientWsRequest::ServersGetAll { target_host: params.target_host },
        ),
        success: STATUS_OK,
    }
}

/// `GET /servers/{server_id}`
pub fn get_by_id(server_id: Uuid, params: ServerQueryParams) -> (r: HttpRoute)
    ensures
        r.success == STATUS_OK,
        r.route == client_route(
            ClientWsRequest::ServersGetById { server_id, target_host: params.target_host },
        ),
{
    HttpRoute {
        route: handle_client_request(
            ClientWsRequest::ServersGetById { server_id, target_host: params.target_host },
        ),
        success: STATUS_OK,
    }
}

/// `GET /servers/{server_id}/with_channels`
pub fn get_with_channels(server_id: Uuid, params: ServerQueryParams) -> (r: HttpRoute)
    ensures
        r.success == STATUS_OK,
        r.route == client_route(
            ClientWsRequest::ServersGetWithChannels { server_id, target_host: params.target_host },
        ),
{
    HttpRoute {
        route: handle_client_request(
            ClientWsRequest::ServersGetWithChannels { server_id, target_host: params.target_host },
        ),
        success: STATUS_OK,
    }
}

/// `DELETE /servers/{server_id}`
pub fn delete(server_id: Uuid, params: ServerQueryParams) -> (r: HttpRoute)
    ensures
        r.success == STATUS_NO_CONTENT,
        r.route == client_route(
            ClientWsRequest::ServersDelete { server_id, target_host: params.target_host },
        ),
{
    HttpRoute {
        route: handle_client_request(
            ClientWsRequest::ServersDelete { server_id, target_host: params.target_host },
        ),
        success: STATUS_NO_CONTENT,
    }
}

} // verus!
