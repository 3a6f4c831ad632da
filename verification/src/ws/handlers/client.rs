//! The handler of client requests: which requirement and which operation
//! each request stands for.

use vstd::prelude::*;
use vstd::string::*;
use crate::auth::{client_rule, ClientAuth, Requirement};
use crate::config::{explicit_host_spec, ServerConfig};
use crate::error::{is_refusal, ApiError, ApiResult, Refusal};
use crate::ops::{channels, memberships, messages, servers, users, OpResult, Operation};
use crate::types::Uuid;
use crate::types::auth::{JwksResponse, OidcDiscoveryDocument, PublicJwk};
use crate::types::user::{parse_subject_spec, UserRef};
use crate::types::ws::{
    AuthTokenAccessRequest, ClientWsConnectionState, ClientWsReply, ClientWsRequest,
};
use crate::util::api_url_spec;
use crate::ws::client_manager::ClientWsManager;
use crate::ws::handlers::shared::{RequirementPlan, RouteRefusal};

verus! {

/// What a client request leads to.
#[derive(Debug, PartialEq, Eq)]
pub enum ClientRoute {
    /// The answer is `Ping`.
    Ping,
    /// The answer is the discovery document of this host.
    OidcDiscovery,
    /// The answer is the key set of this host.
    OidcJwks,
    /// The answer is the state of the connection.
    ConnectionState,
    /// The connection is to be authenticated with this access token.
    AccessToken(AuthTokenAccessRequest),
    /// The request is turned away.
    Refused(RouteRefusal),
    /// The operation is carried out once the requirement is met.
    Operate { requirement: RequirementPlan, operation: Operation },
}

/// What the client request `request` leads to.
pub open spec fn client_route(request: ClientWsRequest) -> ClientRoute {
    match request {
        ClientWsRequest::Ping => ClientRoute::Ping,
        ClientWsRequest::OidcDiscovery => ClientRoute::OidcDiscovery,
        ClientWsRequest::OidcJwks => ClientRoute::OidcJwks,
        ClientWsRequest::ConnectionState => ClientRoute::ConnectionState,
        ClientWsRequest::AuthTokenAccess(access) => ClientRoute::AccessToken(access),
        ClientWsRequest::AuthSignup(_) => ClientRoute::Refused(RouteRefusal::NotOverWebsocket),
        ClientWsRequest::AuthTokenPassword(_) => ClientRoute::Refused(
            RouteRefusal::NotOverWebsocket,
        ),
        ClientWsRequest::AuthTokenRefresh(_) => ClientRoute::Refused(
            RouteRefusal::NotOverWebsocket,
        ),
        ClientWsRequest::AuthUserinfo => ClientRoute::Refused(RouteRefusal::NotOverWebsocket),
        ClientWsRequest::AuthRegisterClient => ClientRoute::Refused(RouteRefusal::NotOverWebsocket),
        ClientWsRequest::UsersCreate(new_user) => ClientRoute::Operate {
            requirement: RequirementPlan::Rule(Requirement::Client),
            operation: Operation::UsersCreate { new_user },
        },
        ClientWsRequest::UsersGetAll { target_host } => ClientRoute::Operate {
            requirement: RequirementPlan::Open,
            operation: Operation::UsersGetAll { target_host },
        },
        ClientWsRequest::UsersGetByRef { user_ref, target_host } => ClientRoute::Operate {
            requirement: RequirementPlan::Open,
            operation: Operation::UsersGetByRef { user_ref },
        },
        ClientWsRequest::UsersGetAssociatedHosts { user_ref, target_host } => ClientRoute::Operate {
            requirement: RequirementPlan::Open,
            operation: Operation::UsersGetAssociatedHosts { user_ref, target_host },
        },
        ClientWsRequest::UsersDelete { user_ref } => ClientRoute::Operate {
            requirement: RequirementPlan::Rule(client_rule(Requirement::User(user_ref))),
            operation: Operation::UsersDelete { user_ref },
        },
        ClientWsRequest::MembershipsGetByUser { user_ref } => ClientRoute::Operate {
            requirement: RequirementPlan::Open,
            operation: Operation::MembershipsGetByUser { user_ref },
        },
        ClientWsRequest::MembershipsGetMembersByServer { server_id, target_host } => ClientRoute::Operate {
            requirement: RequirementPlan::Open,
            operation: Operation::MembershipsGetMembersByServer { server_id, target_host },
        },
        ClientWsRequest::MembershipsGetByUserAndServer { server_id, user_ref, target_host } => ClientRoute::Operate {
            requirement: RequirementPlan::Open,
            operation: Operation::MembershipsGetByUserAndServer {
                server_id,
                user_ref,
                target_host,
            },
        },
        ClientWsRequest::MembershipsCreate { server_id, new_membership } =>
            if server_id != new_membership.server_id {
                ClientRoute::Refused(RouteRefusal::ServerIdMismatch)
            } else {
                ClientRoute::Operate {
                    requirement: RequirementPlan::Rule(client_rule(Requirement::Always)),
                    operation: Operation::MembershipsCreate { new_membership },
                }
            },
        ClientWsRequest::MembershipsDelete { server_id, user_ref, target_host } => ClientRoute::Operate {
            requirement: RequirementPlan::Rule(
                client_rule(
                    Requirement::Or(
                        Box::new(Requirement::User(user_ref)),
                        Box::new(Requirement::ServerAdmin(server_id)),
                    ),
                ),
            ),
            operation: Operation::MembershipsDelete { server_id, user_ref, target_host },
        },
        ClientWsRequest::ServersCreate { new_server, target_host } => ClientRoute::Operate {
            requirement: RequirementPlan::Rule(client_rule(Requirement::Always)),
            operation: Operation::ServersCreate { new_server, target_host },
        },
        ClientWsRequest::ServersGetAll { target_host } => ClientRoute::Operate {
            requirement: RequirementPlan::Open,
            operation: Operation::ServersGetAll { target_host },
        },
        ClientWsRequest::ServersGetById { server_id, target_host } => ClientRoute::Operate {
            requirement: RequirementPlan::Open,
            operation: Operation::ServersGetById { server_id, target_host },
        },
        ClientWsRequest::ServersGetWithChannels { server_id, target_host } => ClientRoute::Operate {
            requirement: RequirementPlan::Rule(client_rule(Requirement::ServerMember(server_id))),
            operation: Operation::ServersGetWithChannels { server_id, target_host },
        },
        ClientWsRequest::ServersDelete { server_id, target_host } => ClientRoute::Operate {
            requirement: RequirementPlan::Rule(client_rule(Requirement::ServerAdmin(server_id))),
            operation: Operation::ServersDelete { server_id, target_host },
        },
        ClientWsRequest::ChannelsCreate { server_id, new_channel, target_host } => ClientRoute::Operate {
            requirement: RequirementPlan::Rule(client_rule(Requirement::ServerAdmin(server_id))),
            operation: Operation::ChannelsCreate { server_id, new_channel, target_host },
        },
        ClientWsRequest::ChannelsGetAll { target_host } => ClientRoute::Operate {
            requirement: RequirementPlan::Rule(
                Requirement::ClientOnly(Box::new(Requirement::HostAdmin)),
            ),
            operation: Operation::ChannelsGetAll { target_host },
        },
        ClientWsRequest::ChannelsGetByServer { server_id, target_host } => ClientRoute::Operate {
            requirement: RequirementPlan::Rule(client_rule(Requirement::ServerMember(server_id))),
            operation: Operation::ChannelsGetByServer { server_id, target_host },
        },
        ClientWsRequest::ChannelsGetById { server_id, channel_id, target_host } => ClientRoute::Operate {
            requirement: RequirementPlan::Rule(client_rule(Requirement::ServerMember(server_id))),
            operation: Operation::ChannelsGetById { server_id, channel_id, target_host },
        },
        ClientWsRequest::ChannelsDelete { server_id, channel_id, target_host } => ClientRoute::Operate {
            requirement: RequirementPlan::Rule(client_rule(Requirement::ServerAdmin(server_id))),
            operation: Operation::ChannelsDelete { server_id, channel_id, target_host },
        },
        ClientWsRequest::MessagesCreate { server_id, channel_id, new_message, target_host } => ClientRoute::Operate {
            requirement: RequirementPlan::Rule(client_rule(Requirement::ServerMember(server_id))),
            operation: Operation::MessagesCreate {
                server_id,
                channel_id,
                new_message,
                target_host,
            },
        },
        ClientWsRequest::MessagesGetAll { target_host } => ClientRoute::Operate {
            requirement: RequirementPlan::Rule(
                Requirement::ClientOnly(Box::new(Requirement::HostAdmin)),
            ),
            operation: Operation::MessagesGetAll { target_host },
        },
        ClientWsRequest::MessagesGetByServer { server_id, target_host } => ClientRoute::Operate {
            requirement: RequirementPlan::Rule(client_rule(Requirement::ServerMember(server_id))),
            operation: Operation::MessagesGetByServer { server_id, target_host },
        },
        ClientWsRequest::MessagesGetByChannel { server_id, channel_id, target_host } => ClientRoute::Operate {
            requirement: RequirementPlan::Rule(client_rule(Requirement::ServerMember(server_id))),
            operation: Operation::MessagesGetByChannel { server_id, channel_id, target_host },
        },
        ClientWsRequest::MessagesGetById { server_id, channel_id, message_id, target_host } => ClientRoute::Operate {
            requirement: RequirementPlan::Rule(client_rule(Requirement::ServerMember(server_id))),
            operation: Operation::MessagesGetById {
                server_id,
                channel_id,
                message_id,
                target_host,
            },
        },
        ClientWsRequest::MessagesDelete { server_id, channel_id, message_id, target_host } => ClientRoute::Operate {
            requirement: RequirementPlan::MessageDelete { server_id, message_id },
            operation: Operation::MessagesDelete { server_id, channel_id, message_id, target_host },
        },
    }
}

/// The reply that carries the result of an operation made for a client, if
/// the result is of the kind that the operation gives.
pub open spec fn client_reply_of(operation: Operation, result: OpResult) -> Option<ClientWsReply> {
    match (operation, result) {
        (Operation::UsersCreate { .. }, OpResult::User(u)) => Some(ClientWsReply::UsersCreate(u)),
        (Operation::UsersGetAll { .. }, OpResult::Users(u)) => Some(ClientWsReply::UsersGetAll(u)),
        (Operation::UsersGetByRef { .. }, OpResult::User(u)) => Some(
            ClientWsReply::UsersGetByRef(u),
        ),
        (Operation::UsersGetAssociatedHosts { .. }, OpResult::Hosts(h)) => Some(
            ClientWsReply::UsersGetAssociatedHosts(h),
        ),
        (Operation::UsersDelete { .. }, OpResult::Done) => Some(ClientWsReply::UsersDelete),
        (Operation::MembershipsGetByUser { .. }, OpResult::Memberships(m)) => Some(
            ClientWsReply::MembershipsGetByUser(m),
        ),
        (Operation::MembershipsGetMembersByServer { .. }, OpResult::Members(m)) => Some(
            ClientWsReply::MembershipsGetMembersByServer(m),
        ),
        (Operation::MembershipsGetByUserAndServer { .. }, OpResult::Member(m)) => Some(
            ClientWsReply::MembershipsGetByUserAndServer(m),
        ),
        (Operation::MembershipsCreate { .. }, OpResult::FullMembership(m)) => Some(
            ClientWsReply::MembershipsCreate(m),
        ),
        (Operation::MembershipsDelete { .. }, OpResult::Done) => Some(
            ClientWsReply::MembershipsDelete,
        ),
        (Operation::ServersCreate { .. }, OpResult::Server(s)) => Some(
            ClientWsReply::ServersCreate(s),
        ),
        (Operation::ServersGetAll { .. }, OpResult::Servers(s)) => Some(
            ClientWsReply::ServersGetAll(s),
        ),
        (Operation::ServersGetById { .. }, OpResult::Server(s)) => Some(
            ClientWsReply::ServersGetById(s),
        ),
        (Operation::ServersGetWithChannels { .. }, OpResult::ServerWithChannels(s)) => Some(
            ClientWsReply::ServersGetWithChannels(s),
        ),
        (Operation::ServersDelete { .. }, OpResult::Done) => Some(ClientWsReply::ServersDelete),
        (Operation::ChannelsCreate { .. }, OpResult::Channel(c)) => Some(
            ClientWsReply::ChannelsCreate(c),
        ),
        (Operation::ChannelsGetAll { .. }, OpResult::Channels(c)) => Some(
            ClientWsReply::ChannelsGetAll(c),
        ),
        (Operation::ChannelsGetByServer { .. }, OpResult::Channels(c)) => Some(
            ClientWsReply::ChannelsGetByServer(c),
        ),
        (Operation::ChannelsGetById { .. }, OpResult::Channel(c)) => Some(
            ClientWsReply::ChannelsGetById(c),
        ),
        (Operation::ChannelsDelete { .. }, OpResult::Done) => Some(ClientWsReply::ChannelsDelete),
        (Operation::MessagesCreate { .. }, OpResult::Message(m)) => Some(
            ClientWsReply::MessagesCreate(m),
        ),
        (Operation::MessagesGetAll { .. }, OpResult::Messages(m)) => Some(
            ClientWsReply::MessagesGetAll(m),
        ),
        (Operation::MessagesGetByServer { .. }, OpResult::Messages(m)) => Some(
            ClientWsReply::MessagesGetByServer(m),
        ),
        (Operation::MessagesGetByChannel { .. }, OpResult::Messages(m)) => Some(
            ClientWsReply::MessagesGetByChannel(m),
        ),
        (Operation::MessagesGetById { .. }, OpResult::Message(m)) => Some(
            ClientWsReply::MessagesGetById(m),
        ),
        (Operation::MessagesDelete { .. }, OpResult::Done) => Some(ClientWsReply::MessagesDelete),
        _ => None,
    }
}

/// Decides what a client request leads to: an answer at once, a refusal, or
/// an operation with the requirement that guards it.
pub fn handle_client_request(request: ClientWsRequest) -> (r: ClientRoute)
    ensures
        r == client_route(request),
{
    match request {
        ClientWsRequest::Ping => ClientRoute::Ping,
        ClientWsRequest::OidcDiscovery => ClientRoute::OidcDiscovery,
        ClientWsRequest::OidcJwks => ClientRoute::OidcJwks,
        ClientWsRequest::ConnectionState => ClientRoute::ConnectionState,
        ClientWsRequest::AuthTokenAccess(access) => ClientRoute::AccessToken(access),
        ClientWsRequest::AuthSignup(_)
        | ClientWsRequest::AuthTokenPassword(_)
        | ClientWsRequest::AuthTokenRefresh(_)
        | ClientWsRequest::AuthUserinfo
        | ClientWsRequest::AuthRegisterClient => ClientRoute::Refused(
            RouteRefusal::NotOverWebsocket,
        ),
        ClientWsRequest::UsersCreate(new_user) => ClientRoute::Operate {
            requirement: RequirementPlan::Rule(users::auth::create()),
            operation: Operation::UsersCreate { new_user },
        },
        ClientWsRequest::UsersGetAll { target_host } => ClientRoute::Operate {
            requirement: RequirementPlan::Open,
            operation: Operation::UsersGetAll { target_host },
        },
        ClientWsRequest::UsersGetByRef { user_ref, target_host } => ClientRoute::Operate {
            requirement: RequirementPlan::Open,
            operation: Operation::UsersGetByRef { user_ref },
        },
        ClientWsRequest::UsersGetAssociatedHosts { user_ref, target_host } => ClientRoute::Operate {
            requirement: RequirementPlan::Open,
            operation: Operation::UsersGetAssociatedHosts { user_ref, target_host },
        },
        ClientWsRequest::UsersDelete { user_ref } => ClientRoute::Operate {
            requirement: RequirementPlan::Rule(users::auth::delete(user_ref.clone())),
            operation: Operation::UsersDelete { user_ref },
        },
        ClientWsRequest::MembershipsGetByUser { user_ref } => ClientRoute::Operate {
            requirement: RequirementPlan::Open,
            operation: Operation::MembershipsGetByUser { user_ref },
        },
        ClientWsRequest::MembershipsGetMembersByServer { server_id, target_host } => ClientRoute::Operate {
            requirement: RequirementPlan::Open,
            operation: Operation::MembershipsGetMembersByServer { server_id, target_host },
        },
        ClientWsRequest::MembershipsGetByUserAndServer { server_id, user_ref, target_host } => ClientRoute::Operate {
            requirement: RequirementPlan::Open,
            operation: Operation::MembershipsGetByUserAndServer {
                server_id,
                user_ref,
                target_host,
            },
        },
        ClientWsRequest::MembershipsCreate { server_id, new_membership } =>
            if server_id != new_membership.server_id {
                ClientRoute::Refused(RouteRefusal::ServerIdMismatch)
            } else {
                ClientRoute::Operate {
                    requirement: RequirementPlan::Rule(memberships::auth::create(server_id)),
                    operation: Operation::MembershipsCreate { new_membership },
                }
            },
        ClientWsRequest::MembershipsDelete { server_id, user_ref, target_host } => ClientRoute::Operate {
            requirement: RequirementPlan::Rule(
                memberships::auth::delete(server_id, user_ref.clone()),
            ),
            operation: Operation::MembershipsDelete { server_id, user_ref, target_host },
        },
        ClientWsRequest::ServersCreate { new_server, target_host } => ClientRoute::Operate {
            requirement: RequirementPlan::Rule(servers::auth::create()),
            operation: Operation::ServersCreate { new_server, target_host },
        },
        ClientWsRequest::ServersGetAll { target_host } => ClientRoute::Operate {
            requirement: RequirementPlan::Open,
            operation: Operation::ServersGetAll { target_host },
        },
        ClientWsRequest::ServersGetById { server_id, target_host } => ClientRoute::Operate {
            requirement: RequirementPlan::Open,
            operation: Operation::ServersGetById { server_id, target_host },
        },
        ClientWsRequest::ServersGetWithChannels { server_id, target_host } => ClientRoute::Operate {
            requirement: RequirementPlan::Rule(servers::auth::get_with_channels(server_id)),
            operation: Operation::ServersGetWithChannels { server_id, target_host },
        },
        ClientWsRequest::ServersDelete { server_id, target_host } => ClientRoute::Operate {
            requirement: RequirementPlan::Rule(servers::auth::delete(server_id)),
            operation: Operation::ServersDelete { server_id, target_host },
        },
        ClientWsRequest::ChannelsCreate { server_id, new_channel, target_host } => ClientRoute::Operate {
            requirement: RequirementPlan::Rule(channels::auth::create(server_id)),
            operation: Operation::ChannelsCreate { server_id, new_channel, target_host },
        },
        ClientWsRequest::ChannelsGetAll { target_host } => ClientRoute::Operate {
            requirement: RequirementPlan::Rule(channels::auth::get_all()),
            operation: Operation::ChannelsGetAll { target_host },
        },
        ClientWsRequest::ChannelsGetByServer { server_id, target_host } => ClientRoute::Operate {
            requirement: RequirementPlan::Rule(channels::auth::get_by_server(server_id)),
            operation: Operation::ChannelsGetByServer { server_id, target_host },
        },
        ClientWsRequest::ChannelsGetById { server_id, channel_id, target_host } => ClientRoute::Operate {
            requirement: RequirementPlan::Rule(channels::auth::get_by_id(server_id)),
            operation: Operation::ChannelsGetById { server_id, channel_id, target_host },
        },
        ClientWsRequest::ChannelsDelete { server_id, channel_id, target_host } => ClientRoute::Operate {
            requirement: RequirementPlan::Rule(channels::auth::delete(server_id)),
            operation: Operation::ChannelsDelete { server_id, channel_id, target_host },
        },
        ClientWsRequest::MessagesCreate { server_id, channel_id, new_message, target_host } => ClientRoute::Operate {
            requirement: RequirementPlan::Rule(messages::auth::create(server_id)),
            operation: Operation::MessagesCreate {
                server_id,
                channel_id,
                new_message,
                target_host,
            },
        },
        ClientWsRequest::MessagesGetAll { target_host } => ClientRoute::Operate {
            requirement: RequirementPlan::Rule(messages::auth::get_all()),
            operation: Operation::MessagesGetAll { target_host },
        },
        ClientWsRequest::MessagesGetByServer { server_id, target_host } => ClientRoute::Operate {
            requirement: RequirementPlan::Rule(messages::auth::get_by_server(server_id)),
            operation: Operation::MessagesGetByServer { server_id, target_host },
        },
        ClientWsRequest::MessagesGetByChannel { server_id, channel_id, target_host } => ClientRoute::Operate {
            requirement: RequirementPlan::Rule(messages::auth::get_by_channel(server_id)),
            operation: Operation::MessagesGetByChannel { server_id, channel_id, target_host },
        },
        ClientWsRequest::MessagesGetById { server_id, channel_id, message_id, target_host } => ClientRoute::Operate {
            requirement: RequirementPlan::Rule(messages::auth::get_by_id(server_id)),
            operation: Operation::MessagesGetById {
                server_id,
                channel_id,
                message_id,
                target_host,
            },
        },
        ClientWsRequest::MessagesDelete { server_id, channel_id, message_id, target_host } => ClientRoute::Operate {
            requirement: RequirementPlan::MessageDelete { server_id, message_id },
            operation: Operation::MessagesDelete { server_id, channel_id, message_id, target_host },
        },
    }
}

/// The reply that carries `result` to the client that asked for `operation`.
/// A result of another kind than the operation gives is an internal error.
pub fn client_reply(operation: &Operation, result: OpResult) -> (r: ApiResult<ClientWsReply>)
    ensures
        match client_reply_of(*operation, result) {
            Some(reply) => r == Ok::<ClientWsReply, ApiError>(reply),
            None => r matches Err(e) && is_refusal(
                e,
                Refusal::Internal("Operation gave a result of another kind"@),
            ),
        },
{
    let reply = match (operation, result) {
        (Operation::UsersCreate { .. }, OpResult::User(u)) => Some(ClientWsReply::UsersCreate(u)),
        (Operation::UsersGetAll { .. }, OpResult::Users(u)) => Some(ClientWsReply::UsersGetAll(u)),
        (Operation::UsersGetByRef { .. }, OpResult::User(u)) => Some(
            ClientWsReply::UsersGetByRef(u),
        ),
        (Operation::UsersGetAssociatedHosts { .. }, OpResult::Hosts(h)) => Some(
            ClientWsReply::UsersGetAssociatedHosts(h),
        ),
        (Operation::UsersDelete { .. }, OpResult::Done) => Some(ClientWsReply::UsersDelete),
        (Operation::MembershipsGetByUser { .. }, OpResult::Memberships(m)) => Some(
            ClientWsReply::MembershipsGetByUser(m),
        ),
        (Operation::MembershipsGetMembersByServer { .. }, OpResult::Members(m)) => Some(
            ClientWsReply::MembershipsGetMembersByServer(m),
        ),
        (Operation::MembershipsGetByUserAndServer { .. }, OpResult::Member(m)) => Some(
            ClientWsReply::MembershipsGetByUserAndServer(m),
        ),
        (Operation::MembershipsCreate { .. }, OpResult::FullMembership(m)) => Some(
            ClientWsReply::MembershipsCreate(m),
        ),
        (Operation::MembershipsDelete { .. }, OpResult::Done) => Some(
            ClientWsReply::MembershipsDelete,
        ),
        (Operation::ServersCreate { .. }, OpResult::Server(s)) => Some(
            ClientWsReply::ServersCreate(s),
        ),
        (Operation::ServersGetAll { .. }, OpResult::Servers(s)) => Some(
            ClientWsReply::ServersGetAll(s),
        ),
        (Operation::ServersGetById { .. }, OpResult::Server(s)) => Some(
            ClientWsReply::ServersGetById(s),
        ),
        (Operation::ServersGetWithChannels { .. }, OpResult::ServerWithChannels(s)) => Some(
            ClientWsReply::ServersGetWithChannels(s),
        ),
        (Operation::ServersDelete { .. }, OpResult::Done) => Some(ClientWsReply::ServersDelete),
        (Operation::ChannelsCreate { .. }, OpResult::Channel(c)) => Some(
            ClientWsReply::ChannelsCreate(c),
        ),
        (Operation::ChannelsGetAll { .. }, OpResult::Channels(c)) => Some(
            ClientWsReply::ChannelsGetAll(c),
        ),
        (Operation::ChannelsGetByServer { .. }, OpResult::Channels(c)) => Some(
            ClientWsReply::ChannelsGetByServer(c),
        ),
        (Operation::ChannelsGetById { .. }, OpResult::Channel(c)) => Some(
            ClientWsReply::ChannelsGetById(c),
        ),
        (Operation::ChannelsDelete { .. }, OpResult::Done) => Some(ClientWsReply::ChannelsDelete),
        (Operation::MessagesCreate { .. }, OpResult::Message(m)) => Some(
            ClientWsReply::MessagesCreate(m),
        ),
        (Operation::MessagesGetAll { .. }, OpResult::Messages(m)) => Some(
            ClientWsReply::MessagesGetAll(m),
        ),
        (Operation::MessagesGetByServer { .. }, OpResult::Messages(m)) => Some(
            ClientWsReply::MessagesGetByServer(m),
        ),
        (Operation::MessagesGetByChannel { .. }, OpResult::Messages(m)) => Some(
            ClientWsReply::MessagesGetByChannel(m),
        ),
        (Operation::MessagesGetById { .. }, OpResult::Message(m)) => Some(
            ClientWsReply::MessagesGetById(m),
        ),
        (Operation::MessagesDelete { .. }, OpResult::Done) => Some(ClientWsReply::MessagesDelete),
        _ => None,
    };
    match reply {
        Some(reply) => Ok(reply),
        None => Err(
            ApiError::Internal(String::from_str("Operation gave a result of another kind")),
        ),
    }
}

/// The discovery document of the host that `config` describes.
pub fn discovery_document(config: &ServerConfig) -> (r: OidcDiscoveryDocument)
    ensures
        r.issuer@ == api_url_spec(explicit_host_spec(config.local_host_raw@, config.port)),
        r.jwks_uri@ == r.issuer@ + "/.well-known/jwks.json"@,
        r.token_endpoint@ == r.issuer@ + "/auth/token"@,
        r.userinfo_endpoint@ == r.issuer@ + "/auth/userinfo"@,
        r.grant_types_supported@.len() == 2,
        r.grant_types_supported@[0]@ == "password"@,
        r.grant_types_supported@[1]@ == "refresh_token"@,
        r.response_types_supported@.len() == 0,
        r.scopes_supported@.len() == 0,
        r.token_endpoint_auth_methods_supported@.len() == 1,
        r.token_endpoint_auth_methods_supported@[0]@ == "none"@,
{
    let issuer = config.api_url();
    let mut grant_types_supported: Vec<String> = Vec::new();
    grant_types_supported.push(String::from_str("password"));
    grant_types_supported.push(String::from_str("refresh_token"));
    let mut token_endpoint_auth_methods_supported: Vec<String> = Vec::new();
    token_endpoint_auth_methods_supported.push(String::from_str("none"));
    OidcDiscoveryDocument {
        jwks_uri: issuer.clone().concat("/.well-known/jwks.json"),
        token_endpoint: issuer.clone().concat("/auth/token"),
        userinfo_endpoint: issuer.clone().concat("/auth/userinfo"),
        issuer,
        grant_types_supported,
        response_types_supported: Vec::new(),
        scopes_supported: Vec::new(),
        token_endpoint_auth_methods_supported,
    }
}

/// The key set that publishes `public_jwk`.
pub fn jwks_response(public_jwk: &PublicJwk) -> (r: JwksResponse)
    ensures
        r.keys@ == seq![*public_jwk],
{
    let mut keys: Vec<PublicJwk> = Vec::new();
    keys.push(public_jwk.clone());
    JwksResponse { keys }
}

/// The state of the connection `conn_id`: authenticated as a user, or not.
pub fn connection_state(manager: &ClientWsManager, conn_id: Uuid) -> (r: ClientWsConnectionState)
    requires
        manager.wf(),
    ensures
        r == (if manager@.dom().contains(conn_id) && manager@[conn_id].user_ref.is_some() {
            ClientWsConnectionState::Authenticated {
                user_ref: manager@[conn_id].user_ref.unwrap(),
            }
        } else {
            ClientWsConnectionState::Unauthenticated
        }),
{
    match manager.authenticated_user_ref(conn_id) {
        Some(user_ref) => ClientWsConnectionState::Authenticated { user_ref },
        None => ClientWsConnectionState::Unauthenticated,
    }
}

/// Binds the connection `conn_id` to the user whom the verified access
/// token `auth` names. Fails where the subject of the token names no user,
/// and where the connection is not registered.
pub fn authenticate_with_token(manager: &mut ClientWsManager, conn_id: Uuid, auth: &ClientAuth) -> (r:
    ApiResult<ClientWsReply>)
    requires
        old(manager).wf(),
    ensures
        final(manager).wf(),
        match parse_subject_spec(auth.claims.sub@) {
            None => {
                &&& final(manager)@ == old(manager)@
                &&& r matches Err(e) && is_refusal(
                    e,
                    Refusal::AuthError("Invalid token subject (expected name@host)"@),
                )
            },
            Some(user) => if old(manager)@.dom().contains(conn_id) {
                &&& r matches Ok(
                    ClientWsReply::AuthTokenAccess(
                        ClientWsConnectionState::Authenticated { user_ref },
                    ),
                ) && user_ref@ == user
                &&& final(manager)@.dom() == old(manager)@.dom()
                &&& final(manager)@[conn_id].user_ref.is_some()
                &&& final(manager)@[conn_id].user_ref.unwrap()@ == user
            } else {
                &&& final(manager)@ == old(manager)@
                &&& r matches Err(e) && is_refusal(
                    e,
                    Refusal::Internal("Client websocket connection not registered"@),
                )
            },
        },
{
    let user_ref = match UserRef::parse_subject(auth.claims.sub.as_str()) {
        Some(u) => u,
        None => {
            return Err(
                ApiError::AuthError(String::from_str("Invalid token subject (expected name@host)")),
            );
        },
    };
    let authenticated = manager.authenticate_connection(conn_id, user_ref.clone());
    if !authenticated {
        return Err(
            ApiError::Internal(String::from_str("Client websocket connection not registered")),
        );
    }
    Ok(ClientWsReply::AuthTokenAccess(ClientWsConnectionState::Authenticated { user_ref }))
}

} // verus!
