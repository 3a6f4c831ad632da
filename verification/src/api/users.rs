//! The endpoints on users.

use vstd::prelude::*;
use crate::api::{HttpRoute, STATUS_CREATED, STATUS_NO_CONTENT, STATUS_OK};
use crate::types::user::{NewUser, UserRef};
use crate::types::ws::ClientWsRequest;
use crate::ws::handlers::client::{client_route, handle_client_request};

verus! {

/// The query of the endpoints on users.
#[derive(Clone, Debug, PartialEq, Eq)]
pub struct UserQueryParams {
    pub target_host: Option<String>,
}

/// `POST /users`
pub fn create(new_user: NewUser) -> (r: HttpRoute)
    ensures
        r.success == STATUS_CREATED,
        r.route == client_route(ClientWsRequest::UsersCreate(new_user)),
{
    HttpRoute {
        route: handle_client_request(ClientWsRequest::UsersCreate(new_user)),
        success: STATUS_CREATED,
    }
}

/// `GET /users`
pub fn get_all(params: UserQueryParams) -> (r: HttpRoute)
    ensures
        r.success == STATUS_OK,
        r.route == client_route(ClientWsRequest::UsersGetAll { target_host: params.target_host }),
{
    HttpRoute {
        route: handle_client_request(
            ClientWsRequest::UsersGetAll { target_host: params.target_host },
        ),
        success: STATUS_OK,
    }
}

/// `GET /users/{host}/{name}`
pub fn get_by_ref(host: String, name: String, params: UserQueryParams) -> (r: HttpRoute)
    ensures
        r.success == STATUS_OK,
        r.route == client_route(
            ClientWsRequest::UsersGetByRef {
                user_ref: UserRef { name, host },
                target_host: params.target_host,
            },
        ),
{
    HttpRoute {
        route: handle_client_request(
            ClientWsRequest::UsersGetByRef {
                user_ref: UserRef::new(name, host),
                target_host: params.target_host,
            },
        ),
        success: STATUS_OK,
    }
}

/// `GET /users/{host}/{name}/hosts`
pub fn get_associated_hosts(host: String, name: String, params: UserQueryParams) -> (r: HttpRoute)
    ensures
        r.success == STATUS_OK,
        r.route == client_route(
            ClientWsRequest::UsersGetAssociatedHosts {
                user_ref: UserRef { name, host },
                target_host: params.target_host,
            },
        ),
{
    HttpRoute {
        route: handle_client_request(
            ClientWsRequest::UsersGetAssociatedHosts {
                user_ref: UserRef::new(name, host),
                target_host: params.target_host,
            },
        ),
        success: STATUS_OK,
    }
}

/// `DELETE /users/{host}/{name}`
pub fn delete(host: String, name: String) -> (r: HttpRoute)
    ensures
        r.success == STATUS_NO_CONTENT,
        r.route == client_route(ClientWsRequest::UsersDelete { user_ref: UserRef { name, host } }),
{
    HttpRoute {
        route: handle_client_request(
            ClientWsRequest::UsersDelete { user_ref: UserRef::new(name, host) },
        ),
        success: STATUS_NO_CONTENT,
    }
}

} // verus!
