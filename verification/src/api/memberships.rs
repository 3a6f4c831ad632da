//! The endpoints on memberships.

use vstd::prelude::*;
use crate::api::{HttpRoute, STATUS_CREATED, STATUS_NO_CONTENT, STATUS_OK};
use crate::types::Uuid;
use crate::types::server::NewServerMembership;
use crate::types::user::UserRef;
use crate::types::ws::ClientWsRequest;
use crate::ws::handlers::client::{client_route, handle_client_request};

verus! {

/// The query of the endpoints on memberships.
#[derive(Clone, Debug, PartialEq, Eq)]
pub struct MembershipQueryParams {
    pub target_host: Option<String>,
}

/// `GET /servers/{server_id}/users`
pub fn get_members_by_server(server_id: Uuid, params: MembershipQueryParams) -> (r: HttpRoute)
    ensures
        r.success == STATUS_OK,
        r.route == client_route(
            ClientWsRequest::MembershipsGetMembersByServer {
                server_id,
                target_host: params.target_host,
            },
        ),
{
    HttpRoute {
        route: handle_client_request(
            ClientWsRequest::MembershipsGetMembersByServer {
                server_id,
                target_host: params.target_host,
            },
        ),
        success: STATUS_OK,
    }
}

/// `GET /servers/{server_id}/users/{host}/{name}`
pub fn get_by_user_and_server(
    server_id: Uuid,
    host: String,
    name: String,
    params: MembershipQueryParams,
) -> (r: HttpRoute)
    ensures
        r.success == STATUS_OK,
        r.route == client_route(
            ClientWsRequest::MembershipsGetByUserAndServer {
                server_id,
                user_ref: UserRef { name, host },
                target_host: params.target_host,
            },
        ),
{
    HttpRoute {
        route: handle_client_request(
            ClientWsRequest::MembershipsGetByUserAndServer {
                server_id,
                user_ref: UserRef::new(name, host),
                target_host: params.target_host,
            },
        ),
        success: STATUS_OK,
    }
}

/// `POST /servers/{server_id}/users`. The server in the path must be the server of the membership.
pub fn create(server_id: Uuid, new_membership: NewServerMembership) -> (r: HttpRoute)
    ensures
        r.success == STATUS_CREATED,
        r.route == client_route(ClientWsRequest::MembershipsCreate { server_id, new_membership }),
{
    HttpRoute {
        route: handle_client_request(
            ClientWsRequest::MembershipsCreate { server_id, new_membership },
        ),
        success: STATUS_CREATED,
    }
}

/// `GET /users/{host}/{name}/servers`
pub fn get_by_user(host: String, name: String) -> (r: HttpRoute)
    ensures
        r.success == STATUS_OK,
        r.route == client_route(
            ClientWsRequest::MembershipsGetByUser { user_ref: UserRef { name, host } },
        ),
{
    HttpRoute {
        route: handle_client_request(
            ClientWsRequest::MembershipsGetByUser { user_ref: UserRef::new(name, host) },
        ),
        success: STATUS_OK,
    }
}

/// `DELETE /servers/{server_id}/users/{host}/{name}`
pub fn delete(
    server_id: Uuid,
    host: String,
    name: String,
    params: MembershipQueryParams,
) -> (r: HttpRoute)
    ensures
        r.success == STATUS_NO_CONTENT,
        r.route == client_route(
            ClientWsRequest::MembershipsDelete {
                server_id,
                user_ref: UserRef { name, host },
                target_host: params.target_host,
            },
        ),
{
    HttpRoute {
        route: handle_client_request(
            ClientWsRequest::MembershipsDelete {
                server_id,
                user_ref: UserRef::new(name, host),
                target_host: params.target_host,
            },
        ),
        success: STATUS_NO_CONTENT,
    }
}

} // verus!
