//! The handler of what peers send: requests, and the updates that are
//! passed on to the clients of this host.

use vstd::prelude::*;
use vstd::string::*;
use crate::auth::{federated_rule, Requirement};
use crate::config::{is_remote_spec, local_host_spec, ServerConfig};
use crate::error::{is_refusal, ApiError, ApiResult, Refusal};
use crate::ops::{channels, memberships, messages, servers, users, OpResult, Operation};
use crate::util::{pad_host_spec, same_host};
use crate::types::Uuid;
use crate::types::user::UserRef;
use crate::types::ws::{
    ClientWsUpdate, FederationWsConnectionState, FederationWsReply, FederationWsRequest,
    FederationWsUpdate,
};
use crate::ws::client_manager::ClientWsManager;
use crate::ws::federation_manager::FederationWsManager;
use crate::ws::handlers::shared::{RequirementPlan, RouteRefusal};
use crate::ws::pools::{all_ids, client_targets_of_any, is_one_of, is_send_round};

verus! {

/// What a federation request leads to.
#[derive(Debug, PartialEq, Eq)]
pub enum FederationRoute {
    /// The answer is the state of the connection.
    ConnectionState,
    /// The request is turned away.
    Refused(RouteRefusal),
    /// The operation is carried out on this host once the requirement is
    /// met by the peer, acting for `acting_for`.
    Operate { requirement: RequirementPlan, acting_for: Option<UserRef>, operation: Operation },
}

/// What the request `request` of a peer leads to on the host `local`, where
/// the envelope names `delegated_user_ref` as the user it is made for. A
/// request that names a user in its body is authorized for that user.
pub open spec fn federation_route(
    local: Seq<char>,
    delegated_user_ref: Option<UserRef>,
    request: FederationWsRequest,
) -> FederationRoute {
    match request {
        FederationWsRequest::ConnectionState => FederationRoute::ConnectionState,
        FederationWsRequest::UsersGetAll => FederationRoute::Operate {
            requirement: RequirementPlan::Open,
            acting_for: delegated_user_ref,
            operation: Operation::UsersGetAll { target_host: None },
        },
        FederationWsRequest::UsersGetByRef { user_ref } => FederationRoute::Operate {
            requirement: RequirementPlan::Open,
            acting_for: delegated_user_ref,
            operation: Operation::UsersGetByRef { user_ref },
        },
        FederationWsRequest::UsersGetAssociatedHosts { user_ref } => FederationRoute::Operate {
            requirement: RequirementPlan::Open,
            acting_for: delegated_user_ref,
            operation: Operation::UsersGetAssociatedHosts { user_ref, target_host: None },
        },
        FederationWsRequest::UsersDelete { user_ref } => FederationRoute::Operate {
            requirement: RequirementPlan::Rule(
                federated_rule(Requirement::FederatedUser(user_ref)),
            ),
            acting_for: Some(user_ref),
            operation: Operation::UsersDeleteRemoteRecord { user_ref },
        },
        FederationWsRequest::MembershipsCreate { server_id, new_membership } =>
            if server_id != new_membership.server_id {
                FederationRoute::Refused(RouteRefusal::ServerIdMismatch)
            } else if !is_remote_spec(local, Some(new_membership.user_ref.host@)) {
                FederationRoute::Refused(RouteRefusal::UserHostIsLocal)
            } else {
                FederationRoute::Operate {
                    requirement: RequirementPlan::Rule(
                        federated_rule(Requirement::FederatedUser(new_membership.user_ref)),
                    ),
                    acting_for: Some(new_membership.user_ref),
                    operation: Operation::MembershipsCreate { new_membership },
                }
            },
        FederationWsRequest::MembershipsGetByUser { user_ref } => FederationRoute::Operate {
            requirement: RequirementPlan::Open,
            acting_for: delegated_user_ref,
            operation: Operation::MembershipsGetByUser { user_ref },
        },
        FederationWsRequest::MembershipsDelete { server_id, user_ref } => FederationRoute::Operate {
            requirement: RequirementPlan::Rule(
                federated_rule(Requirement::FederatedUser(user_ref)),
            ),
            acting_for: Some(user_ref),
            operation: Operation::MembershipsDelete { server_id, user_ref, target_host: None },
        },
        FederationWsRequest::MembershipsGetMembersByServer { server_id } => FederationRoute::Operate {
            requirement: RequirementPlan::Open,
            acting_for: delegated_user_ref,
            operation: Operation::MembershipsGetMembersByServer { server_id, target_host: None },
        },
        FederationWsRequest::MembershipsGetByUserAndServer { server_id, user_ref } => FederationRoute::Operate {
            requirement: RequirementPlan::Open,
            acting_for: delegated_user_ref,
            operation: Operation::MembershipsGetByUserAndServer {
                server_id,
                user_ref,
                target_host: None,
            },
        },
        FederationWsRequest::ServersCreate(new_server) => FederationRoute::Operate {
            requirement: RequirementPlan::Rule(federated_rule(Requirement::Always)),
            acting_for: delegated_user_ref,
            operation: Operation::ServersCreate { new_server, target_host: None },
        },
        FederationWsRequest::ServersDelete { server_id } => FederationRoute::Operate {
            requirement: RequirementPlan::Rule(federated_rule(Requirement::ServerAdmin(server_id))),
            acting_for: delegated_user_ref,
            operation: Operation::ServersDelete { server_id, target_host: None },
        },
        FederationWsRequest::ServersGetAll => FederationRoute::Operate {
            requirement: RequirementPlan::Open,
            acting_for: delegated_user_ref,
            operation: Operation::ServersGetAll { target_host: None },
        },
        FederationWsRequest::ServersGetById { server_id } => FederationRoute::Operate {
            requirement: RequirementPlan::Open,
            acting_for: delegated_user_ref,
            operation: Operation::ServersGetById { server_id, target_host: None },
        },
        FederationWsRequest::ServersGetWithChannels { server_id } => FederationRoute::Operate {
            requirement: RequirementPlan::Rule(
                federated_rule(Requirement::ServerMember(server_id)),
            ),
            acting_for: delegated_user_ref,
            operation: Operation::ServersGetWithChannels { server_id, target_host: None },
        },
        FederationWsRequest::ChannelsCreate { server_id, new_channel } => FederationRoute::Operate {
            requirement: RequirementPlan::Rule(federated_rule(Requirement::ServerAdmin(server_id))),
            acting_for: delegated_user_ref,
            operation: Operation::ChannelsCreate { server_id, new_channel, target_host: None },
        },
        FederationWsRequest::ChannelsGetAll => FederationRoute::Operate {
            requirement: RequirementPlan::Rule(federated_rule(Requirement::Never)),
            acting_for: delegated_user_ref,
            operation: Operation::ChannelsGetAll { target_host: None },
        },
        FederationWsRequest::ChannelsGetByServer { server_id } => FederationRoute::Operate {
            requirement: RequirementPlan::Rule(
                federated_rule(Requirement::ServerMember(server_id)),
            ),
            acting_for: delegated_user_ref,
            operation: Operation::ChannelsGetByServer { server_id, target_host: None },
        },
        FederationWsRequest::ChannelsGetById { server_id, channel_id } => FederationRoute::Operate {
            requirement: RequirementPlan::Rule(
                federated_rule(Requirement::ServerMember(server_id)),
            ),
            acting_for: delegated_user_ref,
            operation: Operation::ChannelsGetById { server_id, channel_id, target_host: None },
        },
        FederationWsRequest::ChannelsDelete { server_id, channel_id } => FederationRoute::Operate {
            requirement: RequirementPlan::Rule(federated_rule(Requirement::ServerAdmin(server_id))),
            acting_for: delegated_user_ref,
            operation: Operation::ChannelsDelete { server_id, channel_id, target_host: None },
        },
        FederationWsRequest::MessagesCreate { server_id, channel_id, new_message } => FederationRoute::Operate {
            requirement: RequirementPlan::Rule(
                federated_rule(Requirement::ServerMember(server_id)),
            ),
            acting_for: delegated_user_ref,
            operation: Operation::MessagesCreate {
                server_id,
                channel_id,
                new_message,
                target_host: None,
            },
        },
        FederationWsRequest::MessagesGetAll => FederationRoute::Operate {
            requirement: RequirementPlan::Rule(federated_rule(Requirement::Never)),
            acting_for: delegated_user_ref,
            operation: Operation::MessagesGetAll { target_host: None },
        },
        FederationWsRequest::MessagesGetByServer { server_id } => FederationRoute::Operate {
            requirement: RequirementPlan::Rule(
                federated_rule(Requirement::ServerMember(server_id)),
            ),
            acting_for: delegated_user_ref,
            operation: Operation::MessagesGetByServer { server_id, target_host: None },
        },
        FederationWsRequest::MessagesGetByChannel { server_id, channel_id } => FederationRoute::Operate {
            requirement: RequirementPlan::Rule(
                federated_rule(Requirement::ServerMember(server_id)),
            ),
            acting_for: delegated_user_ref,
            operation: Operation::MessagesGetByChannel { server_id, channel_id, target_host: None },
        },
        FederationWsRequest::MessagesGetById { server_id, channel_id, message_id } => FederationRoute::Operate {
            requirement: RequirementPlan::Rule(
                federated_rule(Requirement::ServerMember(server_id)),
            ),
            acting_for: delegated_user_ref,
            operation: Operation::MessagesGetById {
                server_id,
                channel_id,
                message_id,
                target_host: None,
            },
        },
        FederationWsRequest::MessagesDelete { server_id, channel_id, message_id } => FederationRoute::Operate {
            requirement: RequirementPlan::MessageDelete { server_id, message_id },
            acting_for: delegated_user_ref,
            operation: Operation::MessagesDelete {
                server_id,
                channel_id,
                message_id,
                target_host: None,
            },
        },
    }
}

/// The reply that carries the result of an operation made for a peer, if the
/// result is of the kind that the operation gives.
pub open spec fn federation_reply_of(operation: Operation, result: OpResult) -> Option<
    FederationWsReply,
> {
    match (operation, result) {
        (Operation::UsersGetAll { .. }, OpResult::Users(u)) => Some(
            FederationWsReply::UsersGetAll(u),
        ),
        (Operation::UsersGetByRef { .. }, OpResult::User(u)) => Some(
            FederationWsReply::UsersGetByRef(u),
        ),
        (Operation::UsersGetAssociatedHosts { .. }, OpResult::Hosts(h)) => Some(
            FederationWsReply::UsersGetAssociatedHosts(h),
        ),
        (Operation::UsersDeleteRemoteRecord { .. }, OpResult::Done) => Some(
            FederationWsReply::UsersDelete,
        ),
        (Operation::MembershipsCreate { .. }, OpResult::FullMembership(m)) => Some(
            FederationWsReply::MembershipsCreate(m),
        ),
        (Operation::MembershipsGetByUser { .. }, OpResult::Memberships(m)) => Some(
            FederationWsReply::MembershipsGetByUser(m),
        ),
        (Operation::MembershipsDelete { .. }, OpResult::Done) => Some(
            FederationWsReply::MembershipsDelete,
        ),
        (Operation::MembershipsGetMembersByServer { .. }, OpResult::Members(m)) => Some(
            FederationWsReply::MembershipsGetMembersByServer(m),
        ),
        (Operation::MembershipsGetByUserAndServer { .. }, OpResult::Member(m)) => Some(
            FederationWsReply::MembershipsGetByUserAndServer(m),
        ),
        (Operation::ServersCreate { .. }, OpResult::Server(s)) => Some(
            FederationWsReply::ServersCreate(s),
        ),
        (Operation::ServersDelete { .. }, OpResult::Done) => Some(FederationWsReply::ServersDelete),
        (Operation::ServersGetAll { .. }, OpResult::Servers(s)) => Some(
            FederationWsReply::ServersGetAll(s),
        ),
        (Operation::ServersGetById { .. }, OpResult::Server(s)) => Some(
            FederationWsReply::ServersGetById(s),
        ),
        (Operation::ServersGetWithChannels { .. }, OpResult::ServerWithChannels(s)) => Some(
            FederationWsReply::ServersGetWithChannels(s),
        ),
        (Operation::ChannelsCreate { .. }, OpResult::Channel(c)) => Some(
            FederationWsReply::ChannelsCreate(c),
        ),
        (Operation::ChannelsGetAll { .. }, OpResult::Channels(c)) => Some(
            FederationWsReply::ChannelsGetAll(c),
        ),
        (Operation::ChannelsGetByServer { .. }, OpResult::Channels(c)) => Some(
            FederationWsReply::ChannelsGetByServer(c),
        ),
        (Operation::ChannelsGetById { .. }, OpResult::Channel(c)) => Some(
            FederationWsReply::ChannelsGetById(c),
        ),
        (Operation::ChannelsDelete { .. }, OpResult::Done) => Some(
            FederationWsReply::ChannelsDelete,
        ),
        (Operation::MessagesCreate { .. }, OpResult::Message(m)) => Some(
            FederationWsReply::MessagesCreate(m),
        ),
        (Operation::MessagesGetAll { .. }, OpResult::Messages(m)) => Some(
            FederationWsReply::MessagesGetAll(m),
        ),
        (Operation::MessagesGetByServer { .. }, OpResult::Messages(m)) => Some(
            FederationWsReply::MessagesGetByServer(m),
        ),
        (Operation::MessagesGetByChannel { .. }, OpResult::Messages(m)) => Some(
            FederationWsReply::MessagesGetByChannel(m),
        ),
        (Operation::MessagesGetById { .. }, OpResult::Message(m)) => Some(
            FederationWsReply::MessagesGetById(m),
        ),
        (Operation::MessagesDelete { .. }, OpResult::Done) => Some(
            FederationWsReply::MessagesDelete,
        ),
        _ => None,
    }
}

/// Decides what a request of a peer leads to: an answer at once, a refusal,
/// or an operation on this host with the requirement that guards it.
pub fn handle_federation_request(
    config: &ServerConfig,
    delegated_user_ref: Option<UserRef>,
    request: FederationWsRequest,
) -> (r: FederationRoute)
    ensures
        r == federation_route(
            local_host_spec(config.local_host_raw@, config.port),
            delegated_user_ref,
            request,
        ),
{
    match request {
        FederationWsRequest::ConnectionState => FederationRoute::ConnectionState,
        FederationWsRequest::UsersGetAll => FederationRoute::Operate {
            requirement: RequirementPlan::Open,
            acting_for: delegated_user_ref,
            operation: Operation::UsersGetAll { target_host: None },
        },
        FederationWsRequest::UsersGetByRef { user_ref } => FederationRoute::Operate {
            requirement: RequirementPlan::Open,
            acting_for: delegated_user_ref,
            operation: Operation::UsersGetByRef { user_ref },
        },
        FederationWsRequest::UsersGetAssociatedHosts { user_ref } => FederationRoute::Operate {
            requirement: RequirementPlan::Open,
            acting_for: delegated_user_ref,
            operation: Operation::UsersGetAssociatedHosts { user_ref, target_host: None },
        },
        FederationWsRequest::UsersDelete { user_ref } => FederationRoute::Operate {
            requirement: RequirementPlan::Rule(users::auth::federated::delete(user_ref.clone())),
            acting_for: Some(user_ref.clone()),
            operation: Operation::UsersDeleteRemoteRecord { user_ref },
        },
        FederationWsRequest::MembershipsCreate { server_id, new_membership } =>
            if server_id != new_membership.server_id {
                FederationRoute::Refused(RouteRefusal::ServerIdMismatch)
            } else if !config.is_remote_host(Some(new_membership.user_ref.host.as_str())) {
                FederationRoute::Refused(RouteRefusal::UserHostIsLocal)
            } else {
                FederationRoute::Operate {
                    requirement: RequirementPlan::Rule(
                        memberships::auth::federated::create(
                            server_id,
                            new_membership.user_ref.clone(),
                        ),
                    ),
                    acting_for: Some(new_membership.user_ref.clone()),
                    operation: Operation::MembershipsCreate { new_membership },
                }
            },
        FederationWsRequest::MembershipsGetByUser { user_ref } => FederationRoute::Operate {
            requirement: RequirementPlan::Open,
            acting_for: delegated_user_ref,
            operation: Operation::MembershipsGetByUser { user_ref },
        },
        FederationWsRequest::MembershipsDelete { server_id, user_ref } => FederationRoute::Operate {
            requirement: RequirementPlan::Rule(
                memberships::auth::federated::delete(server_id, user_ref.clone()),
            ),
            acting_for: Some(user_ref.clone()),
            operation: Operation::MembershipsDelete { server_id, user_ref, target_host: None },
        },
        FederationWsRequest::MembershipsGetMembersByServer { server_id } => FederationRoute::Operate {
            requirement: RequirementPlan::Open,
            acting_for: delegated_user_ref,
            operation: Operation::MembershipsGetMembersByServer { server_id, target_host: None },
        },
        FederationWsRequest::MembershipsGetByUserAndServer { server_id, user_ref } => FederationRoute::Operate {
            requirement: RequirementPlan::Open,
            acting_for: delegated_user_ref,
            operation: Operation::MembershipsGetByUserAndServer {
                server_id,
                user_ref,
                target_host: None,
            },
        },
        FederationWsRequest::ServersCreate(new_server) => FederationRoute::Operate {
            requirement: RequirementPlan::Rule(servers::auth::federated::create()),
            acting_for: delegated_user_ref,
            operation: Operation::ServersCreate { new_server, target_host: None },
        },
        FederationWsRequest::ServersDelete { server_id } => FederationRoute::Operate {
            requirement: RequirementPlan::Rule(servers::auth::federated::delete(server_id)),
            acting_for: delegated_user_ref,
            operation: Operation::ServersDelete { server_id, target_host: None },
        },
        FederationWsRequest::ServersGetAll => FederationRoute::Operate {
            requirement: RequirementPlan::Open,
            acting_for: delegated_user_ref,
            operation: Operation::ServersGetAll { target_host: None },
        },
        FederationWsRequest::ServersGetById { server_id } => FederationRoute::Operate {
            requirement: RequirementPlan::Open,
            acting_for: delegated_user_ref,
            operation: Operation::ServersGetById { server_id, target_host: None },
        },
        FederationWsRequest::ServersGetWithChannels { server_id } => FederationRoute::Operate {
            requirement: RequirementPlan::Rule(
                servers::auth::federated::get_with_channels(server_id),
            ),
            acting_for: delegated_user_ref,
            operation: Operation::ServersGetWithChannels { server_id, target_host: None },
        },
        FederationWsRequest::ChannelsCreate { server_id, new_channel } => FederationRoute::Operate {
            requirement: RequirementPlan::Rule(channels::auth::federated::create(server_id)),
            acting_for: delegated_user_ref,
            operation: Operation::ChannelsCreate { server_id, new_channel, target_host: None },
        },
        FederationWsRequest::ChannelsGetAll => FederationRoute::Operate {
            requirement: RequirementPlan::Rule(channels::auth::federated::get_all()),
            acting_for: delegated_user_ref,
            operation: Operation::ChannelsGetAll { target_host: None },
        },
        FederationWsRequest::ChannelsGetByServer { server_id } => FederationRoute::Operate {
            requirement: RequirementPlan::Rule(channels::auth::federated::get_by_server(server_id)),
            acting_for: delegated_user_ref,
            operation: Operation::ChannelsGetByServer { server_id, target_host: None },
        },
        FederationWsRequest::ChannelsGetById { server_id, channel_id } => FederationRoute::Operate {
            requirement: RequirementPlan::Rule(channels::auth::federated::get_by_id(server_id)),
            acting_for: delegated_user_ref,
            operation: Operation::ChannelsGetById { server_id, channel_id, target_host: None },
        },
        FederationWsRequest::ChannelsDelete { server_id, channel_id } => FederationRoute::Operate {
            requirement: RequirementPlan::Rule(channels::auth::federated::delete(server_id)),
            acting_for: delegated_user_ref,
            operation: Operation::ChannelsDelete { server_id, channel_id, target_host: None },
        },
        FederationWsRequest::MessagesCreate { server_id, channel_id, new_message } => FederationRoute::Operate {
            requirement: RequirementPlan::Rule(messages::auth::federated::create(server_id)),
            acting_for: delegated_user_ref,
            operation: Operation::MessagesCreate {
                server_id,
                channel_id,
                new_message,
                target_host: None,
            },
        },
        FederationWsRequest::MessagesGetAll => FederationRoute::Operate {
            requirement: RequirementPlan::Rule(messages::auth::federated::get_all()),
            acting_for: delegated_user_ref,
            operation: Operation::MessagesGetAll { target_host: None },
        },
        FederationWsRequest::MessagesGetByServer { server_id } => FederationRoute::Operate {
            requirement: RequirementPlan::Rule(messages::auth::federated::get_by_server(server_id)),
            acting_for: delegated_user_ref,
            operation: Operation::MessagesGetByServer { server_id, target_host: None },
        },
        FederationWsRequest::MessagesGetByChannel { server_id, channel_id } => FederationRoute::Operate {
            requirement: RequirementPlan::Rule(
                messages::auth::federated::get_by_channel(server_id),
            ),
            acting_for: delegated_user_ref,
            operation: Operation::MessagesGetByChannel { server_id, channel_id, target_host: None },
        },
        FederationWsRequest::MessagesGetById { server_id, channel_id, message_id } => FederationRoute::Operate {
            requirement: RequirementPlan::Rule(messages::auth::federated::get_by_id(server_id)),
            acting_for: delegated_user_ref,
            operation: Operation::MessagesGetById {
                server_id,
                channel_id,
                message_id,
                target_host: None,
            },
        },
        FederationWsRequest::MessagesDelete { server_id, channel_id, message_id } => FederationRoute::Operate {
            requirement: RequirementPlan::MessageDelete { server_id, message_id },
            acting_for: delegated_user_ref,
            operation: Operation::MessagesDelete {
                server_id,
                channel_id,
                message_id,
                target_host: None,
            },
        },
    }
}

/// The reply that carries `result` to the peer that asked for `operation`.
/// A result of another kind than the operation gives is an internal error.
pub fn federation_reply(operation: &Operation, result: OpResult) -> (r: ApiResult<
    FederationWsReply,
>)
    ensures
        match federation_reply_of(*operation, result) {
            Some(reply) => r == Ok::<FederationWsReply, ApiError>(reply),
            None => r matches Err(e) && is_refusal(
                e,
                Refusal::Internal("Operation gave a result of another kind"@),
            ),
        },
{
    let reply = match (operation, result) {
        (Operation::UsersGetAll { .. }, OpResult::Users(u)) => Some(
            FederationWsReply::UsersGetAll(u),
        ),
        (Operation::UsersGetByRef { .. }, OpResult::User(u)) => Some(
            FederationWsReply::UsersGetByRef(u),
        ),
        (Operation::UsersGetAssociatedHosts { .. }, OpResult::Hosts(h)) => Some(
            FederationWsReply::UsersGetAssociatedHosts(h),
        ),
        (Operation::UsersDeleteRemoteRecord { .. }, OpResult::Done) => Some(
            FederationWsReply::UsersDelete,
        ),
        (Operation::MembershipsCreate { .. }, OpResult::FullMembership(m)) => Some(
            FederationWsReply::MembershipsCreate(m),
        ),
        (Operation::MembershipsGetByUser { .. }, OpResult::Memberships(m)) => Some(
            FederationWsReply::MembershipsGetByUser(m),
        ),
        (Operation::MembershipsDelete { .. }, OpResult::Done) => Some(
            FederationWsReply::MembershipsDelete,
        ),
        (Operation::MembershipsGetMembersByServer { .. }, OpResult::Members(m)) => Some(
            FederationWsReply::MembershipsGetMembersByServer(m),
        ),
        (Operation::MembershipsGetByUserAndServer { .. }, OpResult::Member(m)) => Some(
            FederationWsReply::MembershipsGetByUserAndServer(m),
        ),
        (Operation::ServersCreate { .. }, OpResult::Server(s)) => Some(
            FederationWsReply::ServersCreate(s),
        ),
        (Operation::ServersDelete { .. }, OpResult::Done) => Some(FederationWsReply::ServersDelete),
        (Operation::ServersGetAll { .. }, OpResult::Servers(s)) => Some(
            FederationWsReply::ServersGetAll(s),
        ),
        (Operation::ServersGetById { .. }, OpResult::Server(s)) => Some(
            FederationWsReply::ServersGetById(s),
        ),
        (Operation::ServersGetWithChannels { .. }, OpResult::ServerWithChannels(s)) => Some(
            FederationWsReply::ServersGetWithChannels(s),
        ),
        (Operation::ChannelsCreate { .. }, OpResult::Channel(c)) => Some(
            FederationWsReply::ChannelsCreate(c),
        ),
        (Operation::ChannelsGetAll { .. }, OpResult::Channels(c)) => Some(
            FederationWsReply::ChannelsGetAll(c),
        ),
        (Operation::ChannelsGetByServer { .. }, OpResult::Channels(c)) => Some(
            FederationWsReply::ChannelsGetByServer(c),
        ),
        (Operation::ChannelsGetById { .. }, OpResult::Channel(c)) => Some(
            FederationWsReply::ChannelsGetById(c),
        ),
        (Operation::ChannelsDelete { .. }, OpResult::Done) => Some(
            FederationWsReply::ChannelsDelete,
        ),
        (Operation::MessagesCreate { .. }, OpResult::Message(m)) => Some(
            FederationWsReply::MessagesCreate(m),
        ),
        (Operation::MessagesGetAll { .. }, OpResult::Messages(m)) => Some(
            FederationWsReply::MessagesGetAll(m),
        ),
        (Operation::MessagesGetByServer { .. }, OpResult::Messages(m)) => Some(
            FederationWsReply::MessagesGetByServer(m),
        ),
        (Operation::MessagesGetByChannel { .. }, OpResult::Messages(m)) => Some(
            FederationWsReply::MessagesGetByChannel(m),
        ),
        (Operation::MessagesGetById { .. }, OpResult::Message(m)) => Some(
            FederationWsReply::MessagesGetById(m),
        ),
        (Operation::MessagesDelete { .. }, OpResult::Done) => Some(
            FederationWsReply::MessagesDelete,
        ),
        _ => None,
    };
    match reply {
        Some(reply) => Ok(reply),
        None => Err(
            ApiError::Internal(String::from_str("Operation gave a result of another kind")),
        ),
    }
}

/// The state of the connection `conn_id`: authenticated as a host, or not.
pub fn connection_state(manager: &FederationWsManager, conn_id: Uuid) -> (r:
    FederationWsConnectionState)
    requires
        manager.wf(),
    ensures
        r == (if manager.pool@.dom().contains(conn_id) && manager.pool@[conn_id].host.is_some() {
            FederationWsConnectionState::Authenticated {
                host: manager.pool@[conn_id].host.unwrap(),
            }
        } else {
            FederationWsConnectionState::Unauthenticated
        }),
{
    match manager.authenticated_host(conn_id) {
        Some(host) => FederationWsConnectionState::Authenticated { host },
        None => FederationWsConnectionState::Unauthenticated,
    }
}

/// Whose clients are to hear of an update that a peer sent.
#[derive(Clone, Copy, Debug, PartialEq, Eq, Structural)]
pub enum UpdateAudience {
    /// The users of this host with a mirrored membership on this server.
    Server(Uuid),
    /// The same for the server of this channel, which is looked up first.
    ServerOfChannel(Uuid),
    /// Every client of this host.
    Everyone,
}

/// The update that tells clients what the update `update` of a peer says.
pub open spec fn client_update_of(update: FederationWsUpdate) -> ClientWsUpdate {
    match update {
        FederationWsUpdate::MembershipUpserted(m) => ClientWsUpdate::MembershipUpserted(m),
        FederationWsUpdate::MembershipDeleted { server_id, user_ref } => {
            ClientWsUpdate::MembershipDeleted { server_id, user_ref }
        },
        FederationWsUpdate::ServerUpserted(s) => ClientWsUpdate::ServerUpserted(s),
        FederationWsUpdate::ServerDeleted { server_id } => ClientWsUpdate::ServerDeleted {
            server_id,
        },
        FederationWsUpdate::ChannelUpserted(c) => ClientWsUpdate::ChannelUpserted(c),
        FederationWsUpdate::ChannelDeleted { server_id, channel_id } => {
            ClientWsUpdate::ChannelDeleted { server_id, channel_id }
        },
        FederationWsUpdate::MessageUpserted(m) => ClientWsUpdate::MessageUpserted(m),
        FederationWsUpdate::MessageDeleted { server_id, channel_id, message_id } => {
            ClientWsUpdate::MessageDeleted { server_id, channel_id, message_id }
        },
        FederationWsUpdate::RemoteUserDeleted { user_ref } => ClientWsUpdate::UserDeleted {
            user_ref,
        },
    }
}

/// Whose clients are to hear of the update `update` of a peer.
pub open spec fn audience_of(update: FederationWsUpdate) -> UpdateAudience {
    match update {
        FederationWsUpdate::MembershipUpserted(m) => UpdateAudience::Server(m.server.id),
        FederationWsUpdate::MembershipDeleted { server_id, .. } => UpdateAudience::Server(
            server_id,
        ),
        FederationWsUpdate::ServerUpserted(s) => UpdateAudience::Server(s.id),
        FederationWsUpdate::ServerDeleted { server_id } => UpdateAudience::Server(server_id),
        FederationWsUpdate::ChannelUpserted(c) => UpdateAudience::Server(c.server_id),
        FederationWsUpdate::ChannelDeleted { server_id, .. } => UpdateAudience::Server(server_id),
        FederationWsUpdate::MessageUpserted(m) => UpdateAudience::ServerOfChannel(m.channel_id),
        FederationWsUpdate::MessageDeleted { server_id, .. } => UpdateAudience::Server(server_id),
        FederationWsUpdate::RemoteUserDeleted { .. } => UpdateAudience::Everyone,
    }
}

/// The users whose clients hear of `update`, from `local_users`, the users
/// of this host with a mirrored membership on the server of the update: a
/// user of this host who left a server hears of it too.
pub open spec fn update_recipients(
    local: Seq<char>,
    update: FederationWsUpdate,
    local_users: Seq<UserRef>,
) -> Seq<UserRef> {
    match update {
        FederationWsUpdate::MembershipDeleted { server_id, user_ref } => if pad_host_spec(
            user_ref.host@,
        ) == pad_host_spec(local) && !memberships::has_user(local_users, user_ref) {
            local_users.push(user_ref)
        } else {
            local_users
        },
        _ => local_users,
    }
}

/// Whose clients are to hear of `update`; the caller looks the users up.
pub fn update_audience(update: &FederationWsUpdate) -> (r: UpdateAudience)
    ensures
        r == audience_of(*update),
{
    match update {
        FederationWsUpdate::MembershipUpserted(m) => UpdateAudience::Server(m.server.id),
        FederationWsUpdate::MembershipDeleted { server_id, .. } => UpdateAudience::Server(
            *server_id,
        ),
        FederationWsUpdate::ServerUpserted(s) => UpdateAudience::Server(s.id),
        FederationWsUpdate::ServerDeleted { server_id } => UpdateAudience::Server(*server_id),
        FederationWsUpdate::ChannelUpserted(c) => UpdateAudience::Server(c.server_id),
        FederationWsUpdate::ChannelDeleted { server_id, .. } => UpdateAudience::Server(*server_id),
        FederationWsUpdate::MessageUpserted(m) => UpdateAudience::ServerOfChannel(m.channel_id),
        FederationWsUpdate::MessageDeleted { server_id, .. } => UpdateAudience::Server(*server_id),
        FederationWsUpdate::RemoteUserDeleted { .. } => UpdateAudience::Everyone,
    }
}

/// The update for clients that says what `update` says.
pub fn to_client_update(update: FederationWsUpdate) -> (r: ClientWsUpdate)
    ensures
        r == client_update_of(update),
{
    match update {
        FederationWsUpdate::MembershipUpserted(m) => ClientWsUpdate::MembershipUpserted(m),
        FederationWsUpdate::MembershipDeleted { server_id, user_ref } => {
            ClientWsUpdate::MembershipDeleted { server_id, user_ref }
        },
        FederationWsUpdate::ServerUpserted(s) => ClientWsUpdate::ServerUpserted(s),
        FederationWsUpdate::ServerDeleted { server_id } => ClientWsUpdate::ServerDeleted {
            server_id,
        },
        FederationWsUpdate::ChannelUpserted(c) => ClientWsUpdate::ChannelUpserted(c),
        FederationWsUpdate::ChannelDeleted { server_id, channel_id } => {
            ClientWsUpdate::ChannelDeleted { server_id, channel_id }
        },
        FederationWsUpdate::MessageUpserted(m) => ClientWsUpdate::MessageUpserted(m),
        FederationWsUpdate::MessageDeleted { server_id, channel_id, message_id } => {
            ClientWsUpdate::MessageDeleted { server_id, channel_id, message_id }
        },
        FederationWsUpdate::RemoteUserDeleted { user_ref } => ClientWsUpdate::UserDeleted {
            user_ref,
        },
    }
}

/// Passes an update of a peer on to the clients of this host: to every
/// client where the update is for everyone, else once to each connection of
/// the recipients. `local_users` are the users that the routing index gave
/// for the audience of the update.
pub fn handle_federation_update(
    config: &ServerConfig,
    client_ws_manager: &mut ClientWsManager,
    update: FederationWsUpdate,
    local_users: Vec<UserRef>,
) -> (sent: usize)
    requires
        old(client_ws_manager).wf(),
    ensures
        final(client_ws_manager).wf(),
        is_send_round(
            old(client_ws_manager)@,
            final(client_ws_manager)@,
            if audience_of(update) is Everyone {
                all_ids(old(client_ws_manager).pool.table.slots@)
            } else {
                client_targets_of_any(
                    old(client_ws_manager).pool.table.slots@,
                    update_recipients(
                        local_host_spec(config.local_host_raw@, config.port),
                        update,
                        local_users@,
                    ),
                )
            },
            sent,
        ),
{
    let mut targets = local_users;
    match &update {
        FederationWsUpdate::MembershipDeleted { user_ref, .. } => {
            if same_host(user_ref.host.as_str(), config.local_host().as_str()) && !is_one_of(
                user_ref,
                &targets,
            ) {
                targets.push(user_ref.clone());
            }
        },
        FederationWsUpdate::RemoteUserDeleted { .. } => {
            return client_ws_manager.broadcast_update(to_client_update(update));
        },
        _ => {},
    }
    client_ws_manager.send_update_to_users(&targets, to_client_update(update))
}

} // verus!
