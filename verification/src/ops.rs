//! The domain operations and the locality rule that places each of them.
//!
//! An operation names what is to be done and, where it can be done on
//! another host, the host. The rule is: with no target host, or with a
//! target whose padded form is that of the local host, the operation is
//! carried out on the local store; else it is handed to the target host as a
//! federation request, made on behalf of the acting user unless the operation
//! is open to anyone. The reply is then read back as the operation's result.

use vstd::prelude::*;
use vstd::string::*;
use crate::auth::Session;
use crate::config::{is_remote_spec, local_host_spec, ServerConfig};
use crate::error::{ApiError, ApiResult};
use crate::types::Uuid;
use crate::types::channel::{Channel, NewChannel};
use crate::types::message::{Message, NewMessage};
use crate::types::server::{
    FullServerMembership, NewServer, NewServerMembership, Server, ServerMember, ServerMembership,
    ServerWithChannels,
};
use crate::types::user::{NewUser, User, UserRef};
use crate::types::ws::{FederationWsReply, FederationWsRequest};

pub mod channels;
pub mod fanout;
pub mod federation;
pub mod local;
pub mod memberships;
pub mod messages;
pub mod servers;
pub mod users;

verus! {

/// A domain operation with its inputs.
#[derive(Clone, Debug, PartialEq, Eq)]
pub enum Operation {
    UsersCreate { new_user: NewUser },
    UsersGetAll { target_host: Option<String> },
    UsersGetByRef { user_ref: UserRef },
    UsersGetAssociatedHosts { user_ref: UserRef, target_host: Option<String> },
    UsersDelete { user_ref: UserRef },
    UsersDeleteRemoteRecord { user_ref: UserRef },
    MembershipsGetByUser { user_ref: UserRef },
    MembershipsGetMembersByServer { server_id: Uuid, target_host: Option<String> },
    MembershipsGetByUserAndServer { server_id: Uuid, user_ref: UserRef, target_host: Option<String> },
    MembershipsCreate { new_membership: NewServerMembership },
    MembershipsDelete { server_id: Uuid, user_ref: UserRef, target_host: Option<String> },
    ServersCreate { new_server: NewServer, target_host: Option<String> },
    ServersGetAll { target_host: Option<String> },
    ServersGetById { server_id: Uuid, target_host: Option<String> },
    ServersGetWithChannels { server_id: Uuid, target_host: Option<String> },
    ServersDelete { server_id: Uuid, target_host: Option<String> },
    ChannelsCreate { server_id: Uuid, new_channel: NewChannel, target_host: Option<String> },
    ChannelsGetAll { target_host: Option<String> },
    ChannelsGetByServer { server_id: Uuid, target_host: Option<String> },
    ChannelsGetById { server_id: Uuid, channel_id: Uuid, target_host: Option<String> },
    ChannelsDelete { server_id: Uuid, channel_id: Uuid, target_host: Option<String> },
    MessagesCreate {
        server_id: Uuid,
        channel_id: Uuid,
        new_message: NewMessage,
        target_host: Option<String>,
    },
    MessagesGetAll { target_host: Option<String> },
    MessagesGetByServer { server_id: Uuid, target_host: Option<String> },
    MessagesGetByChannel { server_id: Uuid, channel_id: Uuid, target_host: Option<String> },
    MessagesGetById {
        server_id: Uuid,
        channel_id: Uuid,
        message_id: Uuid,
        target_host: Option<String>,
    },
    MessagesDelete {
        server_id: Uuid,
        channel_id: Uuid,
        message_id: Uuid,
        target_host: Option<String>,
    },
}

/// What an operation gives.
#[derive(Clone, Debug, PartialEq, Eq)]
pub enum OpResult {
    Done,
    User(User),
    Users(Vec<User>),
    Hosts(Vec<String>),
    Memberships(Vec<ServerMembership>),
    Members(Vec<ServerMember>),
    Member(ServerMember),
    FullMembership(FullServerMembership),
    Server(Server),
    Servers(Vec<Server>),
    ServerWithChannels(ServerWithChannels),
    Channel(Channel),
    Channels(Vec<Channel>),
    Message(Message),
    Messages(Vec<Message>),
}

/// A federation request to make in place of local work.
#[derive(Clone, Debug, PartialEq, Eq)]
pub struct RemoteCall {
    /// The host that is to carry the operation out.
    pub host: String,
    /// The user on whose behalf the request is made, if any.
    pub delegated_user_ref: Option<UserRef>,
    pub request: FederationWsRequest,
}

/// Where an operation is carried out.
#[derive(Clone, Debug, PartialEq, Eq)]
pub enum Dispatch {
    /// On the local store.
    Local,
    /// On another host, by this request.
    Remote(RemoteCall),
}

/// Where an operation is placed, as a value of the model.
pub enum Placement {
    Local,
    Remote { host: Seq<char>, delegated_user_ref: Option<UserRef>, request: FederationWsRequest },
    Internal(Seq<char>),
    BadRequest(Seq<char>),
    AuthError(Seq<char>),
}

/// The text of the option.
pub open spec fn text_of(host: Option<String>) -> Option<Seq<char>> {
    match host {
        Some(h) => Some(h@),
        None => None,
    }
}

impl Operation {
    /// The host that decides where the operation is carried out: the target
    /// host that it names; for a lookup of a user, the user's host; for a new
    /// membership, the host of the server. `None` for what is local always.
    pub open spec fn target(self) -> Option<Seq<char>> {
        match self {
            Operation::UsersCreate { .. } => None,
            Operation::UsersGetAll { target_host } => text_of(target_host),
            Operation::UsersGetByRef { user_ref } => Some(user_ref.host@),
            Operation::UsersGetAssociatedHosts { target_host, .. } => text_of(target_host),
            Operation::UsersDelete { .. } => None,
            Operation::UsersDeleteRemoteRecord { .. } => None,
            Operation::MembershipsGetByUser { .. } => None,
            Operation::MembershipsGetMembersByServer { target_host, .. } => text_of(target_host),
            Operation::MembershipsGetByUserAndServer { target_host, .. } => text_of(target_host),
            Operation::MembershipsCreate { new_membership } => Some(new_membership.server_host@),
            Operation::MembershipsDelete { target_host, .. } => text_of(target_host),
            Operation::ServersCreate { target_host, .. } => text_of(target_host),
            Operation::ServersGetAll { target_host } => text_of(target_host),
            Operation::ServersGetById { target_host, .. } => text_of(target_host),
            Operation::ServersGetWithChannels { target_host, .. } => text_of(target_host),
            Operation::ServersDelete { target_host, .. } => text_of(target_host),
            Operation::ChannelsCreate { target_host, .. } => text_of(target_host),
            Operation::ChannelsGetAll { target_host } => text_of(target_host),
            Operation::ChannelsGetByServer { target_host, .. } => text_of(target_host),
            Operation::ChannelsGetById { target_host, .. } => text_of(target_host),
            Operation::ChannelsDelete { target_host, .. } => text_of(target_host),
            Operation::MessagesCreate { target_host, .. } => text_of(target_host),
            Operation::MessagesGetAll { target_host } => text_of(target_host),
            Operation::MessagesGetByServer { target_host, .. } => text_of(target_host),
            Operation::MessagesGetByChannel { target_host, .. } => text_of(target_host),
            Operation::MessagesGetById { target_host, .. } => text_of(target_host),
            Operation::MessagesDelete { target_host, .. } => text_of(target_host),
        }
    }

    /// Whether the operation may be handed to another host without a user:
    /// the reads that are open to anyone.
    pub open spec fn is_public_anonymous(self) -> bool {
        match self {
            Operation::UsersGetAll { .. } => true,
            Operation::UsersGetByRef { .. } => true,
            Operation::UsersGetAssociatedHosts { .. } => true,
            Operation::MembershipsGetMembersByServer { .. } => true,
            Operation::MembershipsGetByUserAndServer { .. } => true,
            Operation::ServersGetAll { .. } => true,
            Operation::ServersGetById { .. } => true,
            _ => false,
        }
    }

    /// The name of the operation, as error texts give it.
    pub open spec fn name(self) -> Seq<char> {
        match self {
            Operation::UsersCreate { .. } => "users.create"@,
            Operation::UsersGetAll { .. } => "users.get_all"@,
            Operation::UsersGetByRef { .. } => "users.get_by_ref"@,
            Operation::UsersGetAssociatedHosts { .. } => "users.get_associated_hosts"@,
            Operation::UsersDelete { .. } => "users.delete"@,
            Operation::UsersDeleteRemoteRecord { .. } => "users.delete"@,
            Operation::MembershipsGetByUser { .. } => "memberships.get_by_user"@,
            Operation::MembershipsGetMembersByServer { .. } => "memberships.get_members_by_server"@,
            Operation::MembershipsGetByUserAndServer { .. } => "memberships.get_by_user_and_server"@,
            Operation::MembershipsCreate { .. } => "memberships.create"@,
            Operation::MembershipsDelete { .. } => "memberships.delete"@,
            Operation::ServersCreate { .. } => "servers.create"@,
            Operation::ServersGetAll { .. } => "servers.get_all"@,
            Operation::ServersGetById { .. } => "servers.get_by_id"@,
            Operation::ServersGetWithChannels { .. } => "servers.get_with_channels"@,
            Operation::ServersDelete { .. } => "servers.delete"@,
            Operation::ChannelsCreate { .. } => "channels.create"@,
            Operation::ChannelsGetAll { .. } => "channels.get_all"@,
            Operation::ChannelsGetByServer { .. } => "channels.get_by_server"@,
            Operation::ChannelsGetById { .. } => "channels.get_by_id"@,
            Operation::ChannelsDelete { .. } => "channels.delete"@,
            Operation::MessagesCreate { .. } => "messages.create"@,
            Operation::MessagesGetAll { .. } => "messages.get_all"@,
            Operation::MessagesGetByServer { .. } => "messages.get_by_server"@,
            Operation::MessagesGetByChannel { .. } => "messages.get_by_channel"@,
            Operation::MessagesGetById { .. } => "messages.get_by_id"@,
            Operation::MessagesDelete { .. } => "messages.delete"@,
        }
    }

    /// What the operation is called in the text that asks for a user.
    pub open spec fn purpose(self) -> Seq<char> {
        match self {
            Operation::ServersCreate { .. } => "server creation"@,
            Operation::ServersGetWithChannels { .. } => "server fetching"@,
            Operation::ServersDelete { .. } => "server deletion"@,
            Operation::ChannelsCreate { .. } => "channel creation"@,
            Operation::ChannelsGetAll { .. } => "channel fetching"@,
            Operation::ChannelsGetByServer { .. } => "channel fetching"@,
            Operation::ChannelsGetById { .. } => "channel fetching"@,
            Operation::ChannelsDelete { .. } => "channel deletion"@,
            Operation::MessagesCreate { .. } => "message creation"@,
            Operation::MessagesGetAll { .. } => "message fetching"@,
            Operation::MessagesGetByServer { .. } => "message fetching"@,
            Operation::MessagesGetByChannel { .. } => "message fetching"@,
            Operation::MessagesGetById { .. } => "message fetching"@,
            Operation::MessagesDelete { .. } => "message deletion"@,
            _ => Seq::empty(),
        }
    }

    /// The request that hands the operation to another host. Operations that
    /// are local always have none.
    pub open spec fn federation_request(self) -> Option<FederationWsRequest> {
        match self {
            Operation::UsersCreate { .. } => None,
            Operation::UsersGetAll { .. } => Some(FederationWsRequest::UsersGetAll),
            Operation::UsersGetByRef { user_ref } => Some(
                FederationWsRequest::UsersGetByRef { user_ref },
            ),
            Operation::UsersGetAssociatedHosts { user_ref, .. } => Some(
                FederationWsRequest::UsersGetAssociatedHosts { user_ref },
            ),
            Operation::UsersDelete { .. } => None,
            Operation::UsersDeleteRemoteRecord { .. } => None,
            Operation::MembershipsGetByUser { .. } => None,
            Operation::MembershipsGetMembersByServer { server_id, .. } => Some(
                FederationWsRequest::MembershipsGetMembersByServer { server_id },
            ),
            Operation::MembershipsGetByUserAndServer { server_id, user_ref, .. } => Some(
                FederationWsRequest::MembershipsGetByUserAndServer { server_id, user_ref },
            ),
            Operation::MembershipsCreate { new_membership } => Some(
                FederationWsRequest::MembershipsCreate {
                    server_id: new_membership.server_id,
                    new_membership,
                },
            ),
            Operation::MembershipsDelete { server_id, user_ref, .. } => Some(
                FederationWsRequest::MembershipsDelete { server_id, user_ref },
            ),
            Operation::ServersCreate { new_server, .. } => Some(
                FederationWsRequest::ServersCreate(new_server),
            ),
            Operation::ServersGetAll { .. } => Some(FederationWsRequest::ServersGetAll),
            Operation::ServersGetById { server_id, .. } => Some(
                FederationWsRequest::ServersGetById { server_id },
            ),
            Operation::ServersGetWithChannels { server_id, .. } => Some(
                FederationWsRequest::ServersGetWithChannels { server_id },
            ),
            Operation::ServersDelete { server_id, .. } => Some(
                FederationWsRequest::ServersDelete { server_id },
            ),
            Operation::ChannelsCreate { server_id, new_channel, .. } => Some(
                FederationWsRequest::ChannelsCreate { server_id, new_channel },
            ),
            Operation::ChannelsGetAll { .. } => Some(FederationWsRequest::ChannelsGetAll),
            Operation::ChannelsGetByServer { server_id, .. } => Some(
                FederationWsRequest::ChannelsGetByServer { server_id },
            ),
            Operation::ChannelsGetById { server_id, channel_id, .. } => Some(
                FederationWsRequest::ChannelsGetById { server_id, channel_id },
            ),
            Operation::ChannelsDelete { server_id, channel_id, .. } => Some(
                FederationWsRequest::ChannelsDelete { server_id, channel_id },
            ),
            Operation::MessagesCreate { server_id, channel_id, new_message, .. } => Some(
                FederationWsRequest::MessagesCreate { server_id, channel_id, new_message },
            ),
            Operation::MessagesGetAll { .. } => Some(FederationWsRequest::MessagesGetAll),
            Operation::MessagesGetByServer { server_id, .. } => Some(
                FederationWsRequest::MessagesGetByServer { server_id },
            ),
            Operation::MessagesGetByChannel { server_id, channel_id, .. } => Some(
                FederationWsRequest::MessagesGetByChannel { server_id, channel_id },
            ),
            Operation::MessagesGetById { server_id, channel_id, message_id, .. } => Some(
                FederationWsRequest::MessagesGetById { server_id, channel_id, message_id },
            ),
            Operation::MessagesDelete { server_id, channel_id, message_id, .. } => Some(
                FederationWsRequest::MessagesDelete { server_id, channel_id, message_id },
            ),
        }
    }

    /// What is checked of an operation before its target is looked at.
    /// Leaving a server is for the acting user alone.
    pub open spec fn refusal(self, session: Session) -> Option<Placement> {
        match self {
            Operation::MembershipsDelete { user_ref, .. } => match session.user_ref {
                None => Some(Placement::AuthError("User reference required for leaving server"@)),
                Some(u) => if u@ != user_ref@ {
                    Some(
                        Placement::BadRequest(
                            "User identity in path does not match authenticated user"@,
                        ),
                    )
                } else {
                    None
                },
            },
            _ => None,
        }
    }

    /// The placement on another host: the request, the user it is made for,
    /// and what it fails with where a user is needed and none acts.
    pub open spec fn remote_placement(self, local: Seq<char>, session: Session) -> Placement {
        let host = self.target().unwrap();
        let request = self.federation_request().unwrap();
        match self {
            Operation::MembershipsCreate { new_membership } => if is_remote_spec(
                local,
                Some(new_membership.user_ref.host@),
            ) {
                Placement::BadRequest("User host in membership does not match local host"@)
            } else {
                Placement::Remote {
                    host,
                    delegated_user_ref: Some(new_membership.user_ref),
                    request,
                }
            },
            Operation::MembershipsDelete { user_ref, .. } => Placement::Remote {
                host,
                delegated_user_ref: Some(user_ref),
                request,
            },
            _ => if self.is_public_anonymous() {
                Placement::Remote { host, delegated_user_ref: None, request }
            } else {
                match session.user_ref {
                    Some(u) => Placement::Remote { host, delegated_user_ref: Some(u), request },
                    None => Placement::Internal(
                        "User reference required for federated "@ + self.purpose(),
                    ),
                }
            },
        }
    }

    /// Where this operation is placed on the host `local`.
    pub open spec fn placement(self, local: Seq<char>, session: Session) -> Placement {
        match self.refusal(session) {
            Some(refused) => refused,
            None => if is_remote_spec(local, self.target()) {
                self.remote_placement(local, session)
            } else {
                Placement::Local
            },
        }
    }

    /// The result that a reply to this operation carries, if it is the reply
    /// that the operation expects.
    pub open spec fn expected_result(self, reply: FederationWsReply) -> Option<OpResult> {
        match (self, reply) {
            (Operation::UsersGetAll { .. }, FederationWsReply::UsersGetAll(users)) => Some(
                OpResult::Users(users),
            ),
            (Operation::UsersGetByRef { .. }, FederationWsReply::UsersGetByRef(user)) => Some(
                OpResult::User(user),
            ),
            (
                Operation::UsersGetAssociatedHosts { .. },
                FederationWsReply::UsersGetAssociatedHosts(hosts),
            ) => Some(OpResult::Hosts(hosts)),
            (
                Operation::MembershipsGetMembersByServer { .. },
                FederationWsReply::MembershipsGetMembersByServer(members),
            ) => Some(OpResult::Members(members)),
            (
                Operation::MembershipsGetByUserAndServer { .. },
                FederationWsReply::MembershipsGetByUserAndServer(member),
            ) => Some(OpResult::Member(member)),
            (
                Operation::MembershipsCreate { .. },
                FederationWsReply::MembershipsCreate(membership),
            ) => Some(OpResult::FullMembership(membership)),
            (Operation::MembershipsDelete { .. }, FederationWsReply::MembershipsDelete) => Some(
                OpResult::Done,
            ),
            (Operation::ServersCreate { .. }, FederationWsReply::ServersCreate(server)) => Some(
                OpResult::Server(server),
            ),
            (Operation::ServersGetAll { .. }, FederationWsReply::ServersGetAll(servers)) => Some(
                OpResult::Servers(servers),
            ),
            (Operation::ServersGetById { .. }, FederationWsReply::ServersGetById(server)) => Some(
                OpResult::Server(server),
            ),
            (
                Operation::ServersGetWithChannels { .. },
                FederationWsReply::ServersGetWithChannels(s),
            ) => Some(OpResult::ServerWithChannels(s)),
            (Operation::ServersDelete { .. }, FederationWsReply::ServersDelete) => Some(
                OpResult::Done,
            ),
            (Operation::ChannelsCreate { .. }, FederationWsReply::ChannelsCreate(channel)) => Some(
                OpResult::Channel(channel),
            ),
            (Operation::ChannelsGetAll { .. }, FederationWsReply::ChannelsGetAll(channels)) => Some(
                OpResult::Channels(channels),
            ),
            (
                Operation::ChannelsGetByServer { .. },
                FederationWsReply::ChannelsGetByServer(channels),
            ) => Some(OpResult::Channels(channels)),
            (Operation::ChannelsGetById { .. }, FederationWsReply::ChannelsGetById(channel)) => Some(
                OpResult::Channel(channel),
            ),
            (Operation::ChannelsDelete { .. }, FederationWsReply::ChannelsDelete) => Some(
                OpResult::Done,
            ),
            (Operation::MessagesCreate { .. }, FederationWsReply::MessagesCreate(message)) => Some(
                OpResult::Message(message),
            ),
            (Operation::MessagesGetAll { .. }, FederationWsReply::MessagesGetAll(messages)) => Some(
                OpResult::Messages(messages),
            ),
            (
                Operation::MessagesGetByServer { .. },
                FederationWsReply::MessagesGetByServer(messages),
            ) => Some(OpResult::Messages(messages)),
            (
                Operation::MessagesGetByChannel { .. },
                FederationWsReply::MessagesGetByChannel(messages),
            ) => Some(OpResult::Messages(messages)),
            (Operation::MessagesGetById { .. }, FederationWsReply::MessagesGetById(message)) => Some(
                OpResult::Message(message),
            ),
            (Operation::MessagesDelete { .. }, FederationWsReply::MessagesDelete) => Some(
                OpResult::Done,
            ),
            _ => None,
        }
    }
}

/// Whether the answer `r` is the placement `placement`.
pub open spec fn is_placement(r: ApiResult<Dispatch>, placement: Placement) -> bool {
    match placement {
        Placement::Local => r == Ok::<Dispatch, ApiError>(Dispatch::Local),
        Placement::Remote { host, delegated_user_ref, request } => r matches Ok(Dispatch::Remote(call))
            && call.host@ == host && call.delegated_user_ref == delegated_user_ref && call.request
            == request,
        Placement::Internal(m) => r matches Err(ApiError::Internal(text)) && text@ == m,
        Placement::BadRequest(m) => r matches Err(ApiError::BadRequest(text)) && text@ == m,
        Placement::AuthError(m) => r matches Err(ApiError::AuthError(text)) && text@ == m,
    }
}

/// Whether `r` reads `reply` as the result of `op`: the reply that the
/// operation expects gives its result, any other is an internal error that
/// names the host and the operation.
pub open spec fn is_reply_reading(
    op: Operation,
    host: Seq<char>,
    reply: FederationWsReply,
    r: ApiResult<OpResult>,
) -> bool {
    match op.expected_result(reply) {
        Some(result) => r == Ok::<OpResult, ApiError>(result),
        None => r matches Err(ApiError::Internal(text)) && text@
            == "Unexpected federation reply from "@ + host + " for "@ + op.name(),
    }
}

/// A copy of an optional host.
pub fn clone_host(host: &Option<String>) -> (r: Option<String>)
    ensures
        r == *host,
{
    match host {
        Some(h) => Some(h.clone()),
        None => None,
    }
}

/// The text of an optional host.
pub fn opt_str(host: &Option<String>) -> (r: Option<&str>)
    ensures
        r.is_some() == host.is_some(),
        r.is_some() ==> r.unwrap()@ == host.unwrap()@,
{
    match host {
        Some(h) => Some(h.as_str()),
        None => None,
    }
}

/// The placement of an operation that is open to anyone: remote work needs no user.
fn route_anonymous(config: &ServerConfig, target: Option<&str>, request: FederationWsRequest) -> (r:
    ApiResult<Dispatch>)
    ensures
        is_placement(
            r,
            if is_remote_spec(
                local_host_spec(config.local_host_raw@, config.port),
                match target {
                    Some(h) => Some(h@),
                    None => None,
                },
            ) {
                Placement::Remote { host: target.unwrap()@, delegated_user_ref: None, request }
            } else {
                Placement::Local
            },
        ),
{
    if !config.is_remote_host(target) {
        return Ok(Dispatch::Local);
    }
    match target {
        Some(host) => Ok(
            Dispatch::Remote(
                RemoteCall { host: String::from_str(host), delegated_user_ref: None, request },
            ),
        ),
        None => Ok(Dispatch::Local),
    }
}

/// The placement of an operation that is made on behalf of the acting user.
fn route_delegated(
    config: &ServerConfig,
    session: &Session,
    target: Option<&str>,
    purpose: &str,
    request: FederationWsRequest,
) -> (r: ApiResult<Dispatch>)
    ensures
        is_placement(
            r,
            if is_remote_spec(
                local_host_spec(config.local_host_raw@, config.port),
                match target {
                    Some(h) => Some(h@),
                    None => None,
                },
            ) {
                match session.user_ref {
                    Some(u) => Placement::Remote {
                        host: target.unwrap()@,
                        delegated_user_ref: Some(u),
                        request,
                    },
                    None => Placement::Internal("User reference required for federated "@ + purpose@),
                }
            } else {
                Placement::Local
            },
        ),
{
    if !config.is_remote_host(target) {
        return Ok(Dispatch::Local);
    }
    match target {
        Some(host) => match &session.user_ref {
            Some(u) => Ok(
                Dispatch::Remote(
                    RemoteCall {
                        host: String::from_str(host),
                        delegated_user_ref: Some(u.clone()),
                        request,
                    },
                ),
            ),
            None => Err(
                ApiError::Internal(
                    String::from_str("User reference required for federated ").concat(purpose),
                ),
            ),
        },
        None => Ok(Dispatch::Local),
    }
}

impl Operation {
    /// The name of the operation.
    pub fn name_text(&self) -> (r: &'static str)
        ensures
            r@ == self.name(),
    {
        match self {
            Operation::UsersCreate { .. } => "users.create",
            Operation::UsersGetAll { .. } => "users.get_all",
            Operation::UsersGetByRef { .. } => "users.get_by_ref",
            Operation::UsersGetAssociatedHosts { .. } => "users.get_associated_hosts",
            Operation::UsersDelete { .. } => "users.delete",
            Operation::UsersDeleteRemoteRecord { .. } => "users.delete",
            Operation::MembershipsGetByUser { .. } => "memberships.get_by_user",
            Operation::MembershipsGetMembersByServer { .. } => "memberships.get_members_by_server",
            Operation::MembershipsGetByUserAndServer { .. } => "memberships.get_by_user_and_server",
            Operation::MembershipsCreate { .. } => "memberships.create",
            Operation::MembershipsDelete { .. } => "memberships.delete",
            Operation::ServersCreate { .. } => "servers.create",
            Operation::ServersGetAll { .. } => "servers.get_all",
            Operation::ServersGetById { .. } => "servers.get_by_id",
            Operation::ServersGetWithChannels { .. } => "servers.get_with_channels",
            Operation::ServersDelete { .. } => "servers.delete",
            Operation::ChannelsCreate { .. } => "channels.create",
            Operation::ChannelsGetAll { .. } => "channels.get_all",
            Operation::ChannelsGetByServer { .. } => "channels.get_by_server",
            Operation::ChannelsGetById { .. } => "channels.get_by_id",
            Operation::ChannelsDelete { .. } => "channels.delete",
            Operation::MessagesCreate { .. } => "messages.create",
            Operation::MessagesGetAll { .. } => "messages.get_all",
            Operation::MessagesGetByServer { .. } => "messages.get_by_server",
            Operation::MessagesGetByChannel { .. } => "messages.get_by_channel",
            Operation::MessagesGetById { .. } => "messages.get_by_id",
            Operation::MessagesDelete { .. } => "messages.delete",
        }
    }

    /// Decides where this operation is carried out. With
    /// no target, or a target that is the local host, it is local and no
    /// request to another host is made up.
    pub fn place(&self, config: &ServerConfig, session: &Session) -> (r: ApiResult<Dispatch>)
        ensures
            is_placement(
                r,
                self.placement(local_host_spec(config.local_host_raw@, config.port), *session),
            ),
    {
        match self {
            Operation::UsersCreate { .. } => Ok(Dispatch::Local),
            Operation::UsersGetAll { target_host } => route_anonymous(
                config,
                opt_str(target_host),
                FederationWsRequest::UsersGetAll,
            ),
            Operation::UsersGetByRef { user_ref } => route_anonymous(
                config,
                Some(user_ref.host.as_str()),
                FederationWsRequest::UsersGetByRef { user_ref: user_ref.clone() },
            ),
            Operation::UsersGetAssociatedHosts { user_ref, target_host } => route_anonymous(
                config,
                opt_str(target_host),
                FederationWsRequest::UsersGetAssociatedHosts { user_ref: user_ref.clone() },
            ),
            Operation::UsersDelete { .. } => Ok(Dispatch::Local),
            Operation::UsersDeleteRemoteRecord { .. } => Ok(Dispatch::Local),
            Operation::MembershipsGetByUser { .. } => Ok(Dispatch::Local),
            Operation::MembershipsGetMembersByServer { server_id, target_host } => route_anonymous(
                config,
                opt_str(target_host),
                FederationWsRequest::MembershipsGetMembersByServer { server_id: *server_id },
            ),
            Operation::MembershipsGetByUserAndServer {
                server_id,
                user_ref,
                target_host,
            } => route_anonymous(
                config,
                opt_str(target_host),
                FederationWsRequest::MembershipsGetByUserAndServer {
                    server_id: *server_id,
                    user_ref: user_ref.clone(),
                },
            ),
            Operation::MembershipsCreate { new_membership } => {
                if !config.is_remote_host(Some(new_membership.server_host.as_str())) {
                    return Ok(Dispatch::Local);
                }
                if config.is_remote_host(Some(new_membership.user_ref.host.as_str())) {
                    return Err(
                        ApiError::BadRequest(
                            String::from_str("User host in membership does not match local host"),
                        ),
                    );
                }
                Ok(
                    Dispatch::Remote(
                        RemoteCall {
                            host: new_membership.server_host.clone(),
                            delegated_user_ref: Some(new_membership.user_ref.clone()),
                            request: FederationWsRequest::MembershipsCreate {
                                server_id: new_membership.server_id,
                                new_membership: new_membership.clone(),
                            },
                        },
                    ),
                )
            },
            Operation::MembershipsDelete { server_id, user_ref, target_host } => {
                match &session.user_ref {
                    None => {
                        return Err(
                            ApiError::AuthError(
                                String::from_str("User reference required for leaving server"),
                            ),
                        );
                    },
                    Some(u) => {
                        if !(u == user_ref) {
                            return Err(
                                ApiError::BadRequest(
                                    String::from_str(
                                        "User identity in path does not match authenticated user",
                                    ),
                                ),
                            );
                        }
                    },
                }
                let target = opt_str(target_host);
                if !config.is_remote_host(target) {
                    return Ok(Dispatch::Local);
                }
                match target {
                    Some(host) => Ok(
                        Dispatch::Remote(
                            RemoteCall {
                                host: String::from_str(host),
                                delegated_user_ref: Some(user_ref.clone()),
                                request: FederationWsRequest::MembershipsDelete {
                                    server_id: *server_id,
                                    user_ref: user_ref.clone(),
                                },
                            },
                        ),
                    ),
                    None => Ok(Dispatch::Local),
                }
            },
            Operation::ServersCreate { new_server, target_host } => route_delegated(
                config,
                session,
                opt_str(target_host),
                "server creation",
                FederationWsRequest::ServersCreate(new_server.clone()),
            ),
            Operation::ServersGetAll { target_host } => route_anonymous(
                config,
                opt_str(target_host),
                FederationWsRequest::ServersGetAll,
            ),
            Operation::ServersGetById { server_id, target_host } => route_anonymous(
                config,
                opt_str(target_host),
                FederationWsRequest::ServersGetById { server_id: *server_id },
            ),
            Operation::ServersGetWithChannels { server_id, target_host } => route_delegated(
                config,
                session,
                opt_str(target_host),
                "server fetching",
                FederationWsRequest::ServersGetWithChannels { server_id: *server_id },
            ),
            Operation::ServersDelete { server_id, target_host } => route_delegated(
                config,
                session,
                opt_str(target_host),
                "server deletion",
                FederationWsRequest::ServersDelete { server_id: *server_id },
            ),
            Operation::ChannelsCreate { server_id, new_channel, target_host } => route_delegated(
                config,
                session,
                opt_str(target_host),
                "channel creation",
                FederationWsRequest::ChannelsCreate {
                    server_id: *server_id,
                    new_channel: new_channel.clone(),
                },
            ),
            Operation::ChannelsGetAll { target_host } => route_delegated(
                config,
                session,
                opt_str(target_host),
                "channel fetching",
                FederationWsRequest::ChannelsGetAll,
            ),
            Operation::ChannelsGetByServer { server_id, target_host } => route_delegated(
                config,
                session,
                opt_str(target_host),
                "channel fetching",
                FederationWsRequest::ChannelsGetByServer { server_id: *server_id },
            ),
            Operation::ChannelsGetById { server_id, channel_id, target_host } => route_delegated(
                config,
                session,
                opt_str(target_host),
                "channel fetching",
                FederationWsRequest::ChannelsGetById {
                    server_id: *server_id,
                    channel_id: *channel_id,
                },
            ),
            Operation::ChannelsDelete { server_id, channel_id, target_host } => route_delegated(
                config,
                session,
                opt_str(target_host),
                "channel deletion",
                FederationWsRequest::ChannelsDelete {
                    server_id: *server_id,
                    channel_id: *channel_id,
                },
            ),
            Operation::MessagesCreate {
                server_id,
                channel_id,
                new_message,
                target_host,
            } => route_delegated(
                config,
                session,
                opt_str(target_host),
                "message creation",
                FederationWsRequest::MessagesCreate {
                    server_id: *server_id,
                    channel_id: *channel_id,
                    new_message: new_message.clone(),
                },
            ),
            Operation::MessagesGetAll { target_host } => route_delegated(
                config,
                session,
                opt_str(target_host),
                "message fetching",
                FederationWsRequest::MessagesGetAll,
            ),
            Operation::MessagesGetByServer { server_id, target_host } => route_delegated(
                config,
                session,
                opt_str(target_host),
                "message fetching",
                FederationWsRequest::MessagesGetByServer { server_id: *server_id },
            ),
            Operation::MessagesGetByChannel { server_id, channel_id, target_host } => route_delegated(
                config,
                session,
                opt_str(target_host),
                "message fetching",
                FederationWsRequest::MessagesGetByChannel {
                    server_id: *server_id,
                    channel_id: *channel_id,
                },
            ),
            Operation::MessagesGetById {
                server_id,
                channel_id,
                message_id,
                target_host,
            } => route_delegated(
                config,
                session,
                opt_str(target_host),
                "message fetching",
                FederationWsRequest::MessagesGetById {
                    server_id: *server_id,
                    channel_id: *channel_id,
                    message_id: *message_id,
                },
            ),
            Operation::MessagesDelete {
                server_id,
                channel_id,
                message_id,
                target_host,
            } => route_delegated(
                config,
                session,
                opt_str(target_host),
                "message deletion",
                FederationWsRequest::MessagesDelete {
                    server_id: *server_id,
                    channel_id: *channel_id,
                    message_id: *message_id,
                },
            ),
        }
    }

    /// Reads the reply of `host` as the result of this operation.
    pub fn read_reply(&self, host: &str, reply: FederationWsReply) -> (r: ApiResult<OpResult>)
        ensures
            is_reply_reading(*self, host@, reply, r),
    {
        let read = match (self, reply) {
            (Operation::UsersGetAll { .. }, FederationWsReply::UsersGetAll(users)) => Some(
                OpResult::Users(users),
            ),
            (Operation::UsersGetByRef { .. }, FederationWsReply::UsersGetByRef(user)) => Some(
                OpResult::User(user),
            ),
            (
                Operation::UsersGetAssociatedHosts { .. },
                FederationWsReply::UsersGetAssociatedHosts(hosts),
            ) => Some(OpResult::Hosts(hosts)),
            (
                Operation::MembershipsGetMembersByServer { .. },
                FederationWsReply::MembershipsGetMembersByServer(members),
            ) => Some(OpResult::Members(members)),
            (
                Operation::MembershipsGetByUserAndServer { .. },
                FederationWsReply::MembershipsGetByUserAndServer(member),
            ) => Some(OpResult::Member(member)),
            (
                Operation::MembershipsCreate { .. },
                FederationWsReply::MembershipsCreate(membership),
            ) => Some(OpResult::FullMembership(membership)),
            (Operation::MembershipsDelete { .. }, FederationWsReply::MembershipsDelete) => Some(
                OpResult::Done,
            ),
            (Operation::ServersCreate { .. }, FederationWsReply::ServersCreate(server)) => Some(
                OpResult::Server(server),
            ),
            (Operation::ServersGetAll { .. }, FederationWsReply::ServersGetAll(servers)) => Some(
                OpResult::Servers(servers),
            ),
            (Operation::ServersGetById { .. }, FederationWsReply::ServersGetById(server)) => Some(
                OpResult::Server(server),
            ),
            (
                Operation::ServersGetWithChannels { .. },
                FederationWsReply::ServersGetWithChannels(s),
            ) => Some(OpResult::ServerWithChannels(s)),
            (Operation::ServersDelete { .. }, FederationWsReply::ServersDelete) => Some(
                OpResult::Done,
            ),
            (Operation::ChannelsCreate { .. }, FederationWsReply::ChannelsCreate(channel)) => Some(
                OpResult::Channel(channel),
            ),
            (Operation::ChannelsGetAll { .. }, FederationWsReply::ChannelsGetAll(channels)) => Some(
                OpResult::Channels(channels),
            ),
            (
                Operation::ChannelsGetByServer { .. },
                FederationWsReply::ChannelsGetByServer(channels),
            ) => Some(OpResult::Channels(channels)),
            (Operation::ChannelsGetById { .. }, FederationWsReply::ChannelsGetById(channel)) => Some(
                OpResult::Channel(channel),
            ),
            (Operation::ChannelsDelete { .. }, FederationWsReply::ChannelsDelete) => Some(
                OpResult::Done,
            ),
            (Operation::MessagesCreate { .. }, FederationWsReply::MessagesCreate(message)) => Some(
                OpResult::Message(message),
            ),
            (Operation::MessagesGetAll { .. }, FederationWsReply::MessagesGetAll(messages)) => Some(
                OpResult::Messages(messages),
            ),
            (
                Operation::MessagesGetByServer { .. },
                FederationWsReply::MessagesGetByServer(messages),
            ) => Some(OpResult::Messages(messages)),
            (
                Operation::MessagesGetByChannel { .. },
                FederationWsReply::MessagesGetByChannel(messages),
            ) => Some(OpResult::Messages(messages)),
            (Operation::MessagesGetById { .. }, FederationWsReply::MessagesGetById(message)) => Some(
                OpResult::Message(message),
            ),
            (Operation::MessagesDelete { .. }, FederationWsReply::MessagesDelete) => Some(
                OpResult::Done,
            ),
            _ => None,
        };
        match read {
            Some(result) => Ok(result),
            None => Err(
                ApiError::Internal(
                    String::from_str("Unexpected federation reply from ").concat(host).concat(
                        " for ",
                    ).concat(self.name_text()),
                ),
            ),
        }
    }
}

/// An operation whose target is the local host, or that names no target, is
/// never handed to another host: no federation request is made up.
pub proof fn lemma_local_target_stays_local(op: Operation, local: Seq<char>, session: Session)
    requires
        !is_remote_spec(local, op.target()),
    ensures
        !(op.placement(local, session) is Remote),
        op.refusal(session).is_none() ==> op.placement(local, session) is Local,
{
}

/// An acting user is asked for only where the operation is not open to
/// anyone: an open read is handed on without a user.
pub proof fn lemma_public_operations_need_no_user(
    op: Operation,
    local: Seq<char>,
    session: Session,
)
    requires
        op.is_public_anonymous(),
        is_remote_spec(local, op.target()),
    ensures
        op.placement(local, session) matches Placement::Remote { delegated_user_ref, .. }
            && delegated_user_ref.is_none(),
{
}

} // verus!
