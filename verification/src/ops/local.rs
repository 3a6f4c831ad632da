//! The course of an operation on the local store.
//!
//! An operation that is carried out here asks the store for one thing
//! after another. The flow says what to ask next and what the answer leads
//! to: a check of the path that the request named, the next statement, the
//! change to tell, the result. A failure of the store ends the flow with
//! that failure. A change is told only once the store has made it.

use vstd::prelude::*;
use vstd::string::*;
use crate::auth::Session;
use crate::config::{local_host_spec, ServerConfig};
use crate::error::{is_refusal, ApiError, ApiResult, Refusal};
use crate::ops::{channels, memberships, messages, servers, users, OpResult, Operation, RemoteCall};
use crate::ops::fanout::{resolve_targets, ServerChange, ServerFanoutTargets};
use crate::ops::memberships::has_user;
use crate::ops::users::remote_deletion_refusal;
use crate::types::Uuid;
use crate::util::pad_host_spec;
use crate::types::channel::{Channel, NewChannel};
use crate::types::message::{Message, NewMessage};
use crate::types::server::{
    FullServerMembership, NewServer, NewServerMembership, Server, ServerMember, ServerMembership,
    ServerRole, ServerWithChannels,
};
use crate::types::user::{NewUser, User, UserRef};
use crate::types::ws::{
    ClientWsUpdate, FederationWsReply, FederationWsRequest, FederationWsUpdate,
};
use crate::ws::error::{api_error_of_request_error, FederationRequestError};
use crate::ws::routing::{is_remote_hosts_of, local_members};

verus! {

/// A statement on the store.
#[derive(Debug, PartialEq, Eq)]
pub enum StoreQuery {
    InsertUser(NewUser),
    AllUsers,
    /// The user with this reference; there must be one.
    UserByRef(UserRef),
    /// The user with this reference, if there is one.
    FindUser(UserRef),
    DeleteUser(UserRef),
    /// A record for this user, unless there is one.
    EnsureUser(UserRef),
    /// The record of a user of another host, written or renewed.
    UpsertRemoteUser(User),
    AssociatedHosts(UserRef),
    /// The hosts of the mirrored servers that this user is a member of.
    RemoteServerHosts(UserRef),
    InsertServer(NewServer),
    AllServers,
    ServerById(Uuid),
    DeleteServer(Uuid),
    InsertChannel { server_id: Uuid, new_channel: NewChannel },
    AllChannels,
    ChannelsByServer(Uuid),
    ChannelById(Uuid),
    DeleteChannel(Uuid),
    InsertMessage { channel_id: Uuid, new_message: NewMessage },
    AllMessages,
    MessagesByServer(Uuid),
    MessagesByChannel(Uuid),
    MessageById(Uuid),
    DeleteMessage(Uuid),
    /// A native membership, written; the member comes back.
    InsertMembership(NewServerMembership),
    /// The native membership of this user in this server, with the server.
    MembershipOf { server_id: Uuid, user_ref: UserRef },
    /// The native member that this user is in this server.
    MemberOf { server_id: Uuid, user_ref: UserRef },
    MembersByServer(Uuid),
    /// The memberships of this user, native and mirrored.
    MembershipsByUser(UserRef),
    DeleteMembership { server_id: Uuid, user_ref: UserRef },
    /// The references of the native members of this server.
    MemberRefs(Uuid),
}

/// What the store answered.
#[derive(Debug, PartialEq, Eq)]
pub enum StoreAnswer {
    Done,
    User(User),
    MaybeUser(Option<User>),
    Users(Vec<User>),
    Hosts(Vec<String>),
    Server(Server),
    Servers(Vec<Server>),
    Channel(Channel),
    Channels(Vec<Channel>),
    Message(Message),
    Messages(Vec<Message>),
    Member(ServerMember),
    Members(Vec<ServerMember>),
    Membership(ServerMembership),
    Memberships(Vec<ServerMembership>),
    UserRefs(Vec<UserRef>),
}

/// What a local flow waits for.
#[derive(Debug, PartialEq, Eq)]
pub enum LocalFlow {
    /// The answer that is the result.
    Reading,
    /// The user that was created.
    CreatingUser,
    /// The user who is to be deleted at home.
    FindingHomeUser { user_ref: UserRef },
    /// The hosts that are to hear of the deletion.
    ListingForeignHosts { user_ref: UserRef },
    /// The deletion of the user at home.
    DeletingHomeUser { user_ref: UserRef, foreign_hosts: Vec<String> },
    /// The deletion of the record of a user of another host.
    DeletingUserRecord { user_ref: UserRef },
    /// The server that was created.
    CreatingServer { creator: Option<UserRef> },
    /// The record of the creator of a server.
    EnsuringCreator { server: Server, membership: NewServerMembership },
    /// The membership of the creator of a server.
    JoiningCreator { server: Server },
    /// The server to hand back with its channels.
    FetchingServer { server_id: Uuid },
    /// The channels of the server to hand back.
    FetchingChannels { server: Server },
    /// A deletion, after which a change is told.
    Removing { change: ServerChange },
    /// The members of the server on which a change is told.
    Telling { change: ServerChange, result: OpResult },
    /// The channel that was created.
    CreatingChannel { server_id: Uuid },
    /// The channel to hand back, once it is checked against the path.
    CheckingChannel { server_id: Uuid },
    /// The channel to delete, once it is checked against the path.
    CheckingChannelToDelete { server_id: Uuid, channel_id: Uuid },
    /// The channel that a new message goes to.
    CheckingTargetChannel { server_id: Uuid, channel_id: Uuid, new_message: NewMessage },
    /// The message that was created.
    CreatingMessage { server_id: Uuid },
    /// The message to hand back or to delete.
    CheckingMessage { server_id: Uuid, channel_id: Uuid, delete: bool },
    /// The channel of the message to hand back or to delete.
    CheckingMessageChannel { server_id: Uuid, message: Message, delete: bool },
    /// The record of the acting user, before a user of another host joins.
    FindingJoiningUser { new_membership: NewServerMembership },
    /// The record of the joining user, from the user's home host.
    FetchingRemoteUser { new_membership: NewServerMembership },
    /// The record of the joining user, written here.
    KeepingRemoteUser { new_membership: NewServerMembership },
    /// The membership that is written.
    WritingMembership { new_membership: NewServerMembership },
    /// The membership that was written, with its server.
    ReadingMembership { member: ServerMember, server_id: Uuid },
    /// The members of the server that a user leaves.
    ListingToLeave { server_id: Uuid, user_ref: UserRef },
    /// The membership that is to end.
    CheckingMember { server_id: Uuid, user_ref: UserRef, targets: ServerFanoutTargets },
    /// The deletion of the membership.
    Leaving { server_id: Uuid, user_ref: UserRef, targets: ServerFanoutTargets },
    /// Nothing: the flow is over.
    Finished,
}

/// What a local flow needs next.
#[derive(Debug, PartialEq, Eq)]
pub enum LocalEffect {
    /// The answer of the store to this statement.
    Ask(StoreQuery),
    /// The reply to this request to another host.
    CallRemote(RemoteCall),
    /// The change is told to the targets; then this is the result.
    Tell { targets: ServerFanoutTargets, change: ServerChange, result: OpResult },
    /// Every client is told, and these hosts where there is an update for
    /// them; then this is the result.
    Announce {
        update: ClientWsUpdate,
        hosts: Vec<String>,
        federation_update: Option<FederationWsUpdate>,
        result: OpResult,
    },
    /// Nothing: this is the result.
    Finish(ApiResult<OpResult>),
}

/// What a local flow is handed.
#[derive(Debug, PartialEq, Eq)]
pub enum LocalEvent {
    Answer(ApiResult<StoreAnswer>),
    RemoteDone(Result<FederationWsReply, FederationRequestError>),
}

/// A step of a local flow.
#[derive(Debug, PartialEq, Eq)]
pub struct LocalStep {
    pub next: LocalFlow,
    pub effect: LocalEffect,
}

/// A step of a local flow, as a value of the model.
pub enum Turn {
    /// The store is asked, and the flow waits for the answer.
    Ask(StoreQuery, LocalFlow),
    /// Another host is asked, and the flow waits for the reply.
    Call(RemoteCall, LocalFlow),
    /// The change is told to those who follow the server with these
    /// members; the flow is over.
    TellMembers { members: Seq<UserRef>, change: ServerChange, result: OpResult },
    /// The change is told to these targets; the flow is over.
    TellTargets { targets: ServerFanoutTargets, change: ServerChange, result: OpResult },
    /// Every client is told, and these hosts; the flow is over.
    Announce {
        update: ClientWsUpdate,
        hosts: Seq<String>,
        federation_update: Option<FederationWsUpdate>,
        result: OpResult,
    },
    /// The flow is over with this result.
    Done(OpResult),
    /// The flow is over with this error, as it came.
    Failed(ApiError),
    /// The flow is over with a failure of a request to this host.
    Unreached(FederationRequestError, Seq<char>),
    /// The flow is over with this refusal.
    Refused(Refusal),
}

/// Whether `step` is the turn `turn` on the host `local`.
pub open spec fn is_turn(step: LocalStep, local: Seq<char>, turn: Turn) -> bool {
    match turn {
        Turn::Ask(query, next) => step.next == next && step.effect == LocalEffect::Ask(query),
        Turn::Call(call, next) => step.next == next && step.effect == LocalEffect::CallRemote(call),
        Turn::TellMembers { members, change, result } => {
            &&& step.next is Finished
            &&& step.effect matches LocalEffect::Tell { targets, change: c, result: r }
            &&& c == change
            &&& r == result
            &&& targets.local_users@ == local_members(members, local)
            &&& is_remote_hosts_of(targets.remote_hosts@, members, local)
        },
        Turn::TellTargets { targets, change, result } => step.next is Finished && step.effect == (
        LocalEffect::Tell { targets, change, result }),
        Turn::Announce { update, hosts, federation_update, result } => {
            &&& step.next is Finished
            &&& step.effect matches LocalEffect::Announce {
                update: u,
                hosts: h,
                federation_update: f,
                result: r,
            }
            &&& u == update
            &&& h@ == hosts
            &&& f == federation_update
            &&& r == result
        },
        Turn::Done(result) => step.next is Finished && step.effect == LocalEffect::Finish(
            Ok::<OpResult, ApiError>(result),
        ),
        Turn::Failed(error) => step.next is Finished && step.effect == LocalEffect::Finish(
            Err::<OpResult, ApiError>(error),
        ),
        Turn::Unreached(failure, host) => {
            &&& step.next is Finished
            &&& step.effect matches LocalEffect::Finish(Err(e)) && api_error_of_request_error(
                failure,
                host,
                e,
            )
        },
        Turn::Refused(refusal) => {
            &&& step.next is Finished
            &&& step.effect matches LocalEffect::Finish(Err(e)) && is_refusal(e, refusal)
        },
    }
}

/// The refusal of an answer of a kind that the flow did not wait for.
pub open spec fn out_of_turn() -> Turn {
    Turn::Refused(Refusal::Internal("Operation was handed what it did not wait for"@))
}

/// The first turn of `operation` on the local store.
pub open spec fn first_turn(local: Seq<char>, session: Session, operation: Operation) -> Turn {
    match operation {
        Operation::UsersCreate { new_user } => Turn::Ask(
            StoreQuery::InsertUser(new_user),
            LocalFlow::CreatingUser,
        ),
        Operation::UsersGetAll { .. } => Turn::Ask(StoreQuery::AllUsers, LocalFlow::Reading),
        Operation::UsersGetByRef { user_ref } => Turn::Ask(
            StoreQuery::UserByRef(user_ref),
            LocalFlow::Reading,
        ),
        Operation::UsersGetAssociatedHosts { user_ref, .. } => Turn::Ask(
            StoreQuery::AssociatedHosts(user_ref),
            LocalFlow::Reading,
        ),
        Operation::UsersDelete { user_ref } => Turn::Ask(
            StoreQuery::UserByRef(user_ref),
            LocalFlow::FindingHomeUser { user_ref },
        ),
        Operation::UsersDeleteRemoteRecord { user_ref } => match remote_deletion_refusal(
            local,
            session,
            user_ref,
        ) {
            Some(refusal) => Turn::Refused(refusal),
            None => Turn::Ask(
                StoreQuery::DeleteUser(user_ref),
                LocalFlow::DeletingUserRecord { user_ref },
            ),
        },
        Operation::MembershipsGetByUser { user_ref } => Turn::Ask(
            StoreQuery::MembershipsByUser(user_ref),
            LocalFlow::Reading,
        ),
        Operation::MembershipsGetMembersByServer { server_id, .. } => Turn::Ask(
            StoreQuery::MembersByServer(server_id),
            LocalFlow::Reading,
        ),
        Operation::MembershipsGetByUserAndServer { server_id, user_ref, .. } => Turn::Ask(
            StoreQuery::MemberOf { server_id, user_ref },
            LocalFlow::Reading,
        ),
        Operation::MembershipsCreate { new_membership } => if pad_host_spec(
            new_membership.user_ref.host@,
        ) != pad_host_spec(local) {
            Turn::Ask(
                StoreQuery::FindUser(new_membership.user_ref),
                LocalFlow::FindingJoiningUser { new_membership },
            )
        } else {
            Turn::Ask(
                StoreQuery::InsertMembership(new_membership),
                LocalFlow::WritingMembership { new_membership },
            )
        },
        Operation::MembershipsDelete { server_id, user_ref, .. } => Turn::Ask(
            StoreQuery::MemberRefs(server_id),
            LocalFlow::ListingToLeave { server_id, user_ref },
        ),
        Operation::ServersCreate { new_server, .. } => Turn::Ask(
            StoreQuery::InsertServer(new_server),
            LocalFlow::CreatingServer { creator: session.user_ref },
        ),
        Operation::ServersGetAll { .. } => Turn::Ask(StoreQuery::AllServers, LocalFlow::Reading),
        Operation::ServersGetById { server_id, .. } => Turn::Ask(
            StoreQuery::ServerById(server_id),
            LocalFlow::Reading,
        ),
        Operation::ServersGetWithChannels { server_id, .. } => Turn::Ask(
            StoreQuery::ServerById(server_id),
            LocalFlow::FetchingServer { server_id },
        ),
        Operation::ServersDelete { server_id, .. } => Turn::Ask(
            StoreQuery::DeleteServer(server_id),
            LocalFlow::Removing {
                change: ServerChange {
                    server_id,
                    client_update: ClientWsUpdate::ServerDeleted { server_id },
                    federation_update: FederationWsUpdate::ServerDeleted { server_id },
                },
            },
        ),
        Operation::ChannelsCreate { server_id, new_channel, .. } => Turn::Ask(
            StoreQuery::InsertChannel { server_id, new_channel },
            LocalFlow::CreatingChannel { server_id },
        ),
        Operation::ChannelsGetAll { .. } => Turn::Ask(StoreQuery::AllChannels, LocalFlow::Reading),
        Operation::ChannelsGetByServer { server_id, .. } => Turn::Ask(
            StoreQuery::ChannelsByServer(server_id),
            LocalFlow::Reading,
        ),
        Operation::ChannelsGetById { server_id, channel_id, .. } => Turn::Ask(
            StoreQuery::ChannelById(channel_id),
            LocalFlow::CheckingChannel { server_id },
        ),
        Operation::ChannelsDelete { server_id, channel_id, .. } => Turn::Ask(
            StoreQuery::ChannelById(channel_id),
            LocalFlow::CheckingChannelToDelete { server_id, channel_id },
        ),
        Operation::MessagesCreate { server_id, channel_id, new_message, .. } => Turn::Ask(
            StoreQuery::ChannelById(channel_id),
            LocalFlow::CheckingTargetChannel { server_id, channel_id, new_message },
        ),
        Operation::MessagesGetAll { .. } => Turn::Ask(StoreQuery::AllMessages, LocalFlow::Reading),
        Operation::MessagesGetByServer { server_id, .. } => Turn::Ask(
            StoreQuery::MessagesByServer(server_id),
            LocalFlow::Reading,
        ),
        Operation::MessagesGetByChannel { channel_id, .. } => Turn::Ask(
            StoreQuery::MessagesByChannel(channel_id),
            LocalFlow::Reading,
        ),
        Operation::MessagesGetById { server_id, channel_id, message_id, .. } => Turn::Ask(
            StoreQuery::MessageById(message_id),
            LocalFlow::CheckingMessage { server_id, channel_id, delete: false },
        ),
        Operation::MessagesDelete { server_id, channel_id, message_id, .. } => Turn::Ask(
            StoreQuery::MessageById(message_id),
            LocalFlow::CheckingMessage { server_id, channel_id, delete: true },
        ),
    }
}

/// The result that an answer is, where the answer itself is the result.
pub open spec fn result_of(answer: StoreAnswer) -> Option<OpResult> {
    match answer {
        StoreAnswer::Done => Some(OpResult::Done),
        StoreAnswer::User(u) => Some(OpResult::User(u)),
        StoreAnswer::MaybeUser(_) => None,
        StoreAnswer::Users(u) => Some(OpResult::Users(u)),
        StoreAnswer::Hosts(h) => Some(OpResult::Hosts(h)),
        StoreAnswer::Server(s) => Some(OpResult::Server(s)),
        StoreAnswer::Servers(s) => Some(OpResult::Servers(s)),
        StoreAnswer::Channel(c) => Some(OpResult::Channel(c)),
        StoreAnswer::Channels(c) => Some(OpResult::Channels(c)),
        StoreAnswer::Message(m) => Some(OpResult::Message(m)),
        StoreAnswer::Messages(m) => Some(OpResult::Messages(m)),
        StoreAnswer::Member(m) => Some(OpResult::Member(m)),
        StoreAnswer::Members(m) => Some(OpResult::Members(m)),
        StoreAnswer::Membership(_) => None,
        StoreAnswer::Memberships(m) => Some(OpResult::Memberships(m)),
        StoreAnswer::UserRefs(_) => None,
    }
}

/// The request that asks the home host of a joining user for the user's record.
pub open spec fn user_lookup_call(new_membership: NewServerMembership) -> RemoteCall {
    RemoteCall {
        host: new_membership.user_ref.host,
        delegated_user_ref: None,
        request: FederationWsRequest::UsersGetByRef { user_ref: new_membership.user_ref },
    }
}

/// The change that tells that `channel` was created.
pub open spec fn channel_created(channel: Channel) -> ServerChange {
    ServerChange {
        server_id: channel.server_id,
        client_update: ClientWsUpdate::ChannelUpserted(channel),
        federation_update: FederationWsUpdate::ChannelUpserted(channel),
    }
}

/// The change that tells that a channel was deleted.
pub open spec fn channel_deleted(server_id: Uuid, channel_id: Uuid) -> ServerChange {
    ServerChange {
        server_id,
        client_update: ClientWsUpdate::ChannelDeleted { server_id, channel_id },
        federation_update: FederationWsUpdate::ChannelDeleted { server_id, channel_id },
    }
}

/// The change that tells that `message` was created on `server_id`.
pub open spec fn message_created(server_id: Uuid, message: Message) -> ServerChange {
    ServerChange {
        server_id,
        client_update: ClientWsUpdate::MessageUpserted(message),
        federation_update: FederationWsUpdate::MessageUpserted(message),
    }
}

/// The change that tells that a message was deleted.
pub open spec fn message_deleted(server_id: Uuid, channel_id: Uuid, message_id: Uuid) -> ServerChange {
    ServerChange {
        server_id,
        client_update: ClientWsUpdate::MessageDeleted { server_id, channel_id, message_id },
        federation_update: FederationWsUpdate::MessageDeleted { server_id, channel_id, message_id },
    }
}

/// The change that tells that `server` was created.
pub open spec fn server_created(server: Server) -> ServerChange {
    ServerChange {
        server_id: server.id,
        client_update: ClientWsUpdate::ServerUpserted(server),
        federation_update: FederationWsUpdate::ServerUpserted(server),
    }
}

/// The change that tells that `membership` was written.
pub open spec fn membership_created(membership: FullServerMembership) -> ServerChange {
    ServerChange {
        server_id: membership.server.id,
        client_update: ClientWsUpdate::MembershipUpserted(membership),
        federation_update: FederationWsUpdate::MembershipUpserted(membership),
    }
}

/// The change that tells that `user_ref` left `server_id`.
pub open spec fn membership_deleted(server_id: Uuid, user_ref: UserRef) -> ServerChange {
    ServerChange {
        server_id,
        client_update: ClientWsUpdate::MembershipDeleted { server_id, user_ref },
        federation_update: FederationWsUpdate::MembershipDeleted { server_id, user_ref },
    }
}

/// Whether `targets` are those of a server with the members `members` once
/// `user_ref` leaves it: the leaving user hears of it too, and the user's
/// host where that is another host.
pub open spec fn is_leave_targets(
    targets: ServerFanoutTargets,
    local: Seq<char>,
    members: Seq<UserRef>,
    user_ref: UserRef,
) -> bool {
    exists|before: ServerFanoutTargets|
        {
            &&& before.local_users@ == local_members(members, local)
            &&& #[trigger] is_remote_hosts_of(before.remote_hosts@, members, local)
            &&& targets.local_users@ == (if has_user(before.local_users@, user_ref) {
                before.local_users@
            } else {
                before.local_users@.push(user_ref)
            })
            &&& targets.remote_hosts@ == (if pad_host_spec(user_ref.host@) != pad_host_spec(local) {
                before.remote_hosts@.push(user_ref.host)
            } else {
                before.remote_hosts@
            })
        }
}

/// What the answer `answer` of the store leads to in the flow `flow`.
pub open spec fn answer_turn(local: Seq<char>, flow: LocalFlow, answer: StoreAnswer) -> Turn {
    match (flow, answer) {
        (LocalFlow::Reading, answer) => match result_of(answer) {
            Some(result) => Turn::Done(result),
            None => out_of_turn(),
        },
        (LocalFlow::CreatingUser, StoreAnswer::User(user)) => Turn::Announce {
            update: ClientWsUpdate::UserUpserted(user),
            hosts: Seq::empty(),
            federation_update: None,
            result: OpResult::User(user),
        },
        (LocalFlow::FindingHomeUser { user_ref }, StoreAnswer::User(user)) => if pad_host_spec(
            user.host@,
        ) == pad_host_spec(local) {
            Turn::Ask(
                StoreQuery::RemoteServerHosts(user_ref),
                LocalFlow::ListingForeignHosts { user_ref },
            )
        } else {
            Turn::Refused(Refusal::BadRequest("Can only delete users from their home server"@))
        },
        (LocalFlow::ListingForeignHosts { user_ref }, StoreAnswer::Hosts(foreign_hosts)) => {
            Turn::Ask(
                StoreQuery::DeleteUser(user_ref),
                LocalFlow::DeletingHomeUser { user_ref, foreign_hosts },
            )
        },
        (LocalFlow::DeletingHomeUser { user_ref, foreign_hosts }, StoreAnswer::Done) => {
            Turn::Announce {
                update: ClientWsUpdate::UserDeleted { user_ref },
                hosts: foreign_hosts@,
                federation_update: Some(FederationWsUpdate::RemoteUserDeleted { user_ref }),
                result: OpResult::Done,
            }
        },
        (LocalFlow::DeletingUserRecord { user_ref }, StoreAnswer::Done) => Turn::Announce {
            update: ClientWsUpdate::UserDeleted { user_ref },
            hosts: Seq::empty(),
            federation_update: None,
            result: OpResult::Done,
        },
        (LocalFlow::CreatingServer { creator }, StoreAnswer::Server(server)) => match creator {
            Some(user_ref) => Turn::Ask(
                StoreQuery::EnsureUser(user_ref),
                LocalFlow::EnsuringCreator {
                    server,
                    membership: NewServerMembership {
                        user_ref,
                        server_id: server.id,
                        server_host: server.host,
                        role: ServerRole::Admin,
                    },
                },
            ),
            None => Turn::Refused(
                Refusal::Internal("Session missing user identity for server creation"@),
            ),
        },
        (LocalFlow::EnsuringCreator { server, membership }, StoreAnswer::Done) => Turn::Ask(
            StoreQuery::InsertMembership(membership),
            LocalFlow::JoiningCreator { server },
        ),
        (LocalFlow::JoiningCreator { server }, StoreAnswer::Member(_)) => Turn::Ask(
            StoreQuery::MemberRefs(server.id),
            LocalFlow::Telling { change: server_created(server), result: OpResult::Server(server) },
        ),
        (LocalFlow::FetchingServer { server_id }, StoreAnswer::Server(server)) => Turn::Ask(
            StoreQuery::ChannelsByServer(server_id),
            LocalFlow::FetchingChannels { server },
        ),
        (LocalFlow::FetchingChannels { server }, StoreAnswer::Channels(channels)) => Turn::Done(
            OpResult::ServerWithChannels(ServerWithChannels { server, channels }),
        ),
        (LocalFlow::Removing { change }, StoreAnswer::Done) => Turn::Ask(
            StoreQuery::MemberRefs(change.server_id),
            LocalFlow::Telling { change, result: OpResult::Done },
        ),
        (LocalFlow::Telling { change, result }, StoreAnswer::UserRefs(members)) => {
            Turn::TellMembers { members: members@, change, result }
        },
        (LocalFlow::CreatingChannel { server_id }, StoreAnswer::Channel(channel)) => Turn::Ask(
            StoreQuery::MemberRefs(server_id),
            LocalFlow::Telling {
                change: channel_created(channel),
                result: OpResult::Channel(channel),
            },
        ),
        (LocalFlow::CheckingChannel { server_id }, StoreAnswer::Channel(channel)) => {
            if channel.server_id == server_id {
                Turn::Done(OpResult::Channel(channel))
            } else {
                Turn::Refused(Refusal::AuthError("Channel not found in specified server"@))
            }
        },
        (
            LocalFlow::CheckingChannelToDelete { server_id, channel_id },
            StoreAnswer::Channel(channel),
        ) => if channel.server_id == server_id {
            Turn::Ask(
                StoreQuery::DeleteChannel(channel_id),
                LocalFlow::Removing { change: channel_deleted(server_id, channel_id) },
            )
        } else {
            Turn::Refused(Refusal::AuthError("Channel not found in specified server"@))
        },
        (
            LocalFlow::CheckingTargetChannel { server_id, channel_id, new_message },
            StoreAnswer::Channel(channel),
        ) => if channel.server_id == server_id {
            Turn::Ask(
                StoreQuery::InsertMessage { channel_id, new_message },
                LocalFlow::CreatingMessage { server_id },
            )
        } else {
            Turn::Refused(Refusal::AuthError("Channel not found in specified server"@))
        },
        (LocalFlow::CreatingMessage { server_id }, StoreAnswer::Message(message)) => Turn::Ask(
            StoreQuery::MemberRefs(server_id),
            LocalFlow::Telling {
                change: message_created(server_id, message),
                result: OpResult::Message(message),
            },
        ),
        (
            LocalFlow::CheckingMessage { server_id, channel_id, delete },
            StoreAnswer::Message(message),
        ) => if message.channel_id == channel_id {
            Turn::Ask(
                StoreQuery::ChannelById(channel_id),
                LocalFlow::CheckingMessageChannel { server_id, message, delete },
            )
        } else {
            Turn::Refused(Refusal::AuthError("Message not found in specified channel"@))
        },
        (
            LocalFlow::CheckingMessageChannel { server_id, message, delete },
            StoreAnswer::Channel(channel),
        ) => if channel.server_id != server_id {
            Turn::Refused(Refusal::AuthError("Message not found in specified server"@))
        } else if delete {
            Turn::Ask(
                StoreQuery::DeleteMessage(message.id),
                LocalFlow::Removing {
                    change: message_deleted(server_id, message.channel_id, message.id),
                },
            )
        } else {
            Turn::Done(OpResult::Message(message))
        },
        (LocalFlow::FindingJoiningUser { new_membership }, StoreAnswer::MaybeUser(found)) => {
            match found {
                Some(_) => Turn::Ask(
                    StoreQuery::InsertMembership(new_membership),
                    LocalFlow::WritingMembership { new_membership },
                ),
                None => Turn::Call(
                    user_lookup_call(new_membership),
                    LocalFlow::FetchingRemoteUser { new_membership },
                ),
            }
        },
        (LocalFlow::KeepingRemoteUser { new_membership }, StoreAnswer::Done) => Turn::Ask(
            StoreQuery::InsertMembership(new_membership),
            LocalFlow::WritingMembership { new_membership },
        ),
        (LocalFlow::WritingMembership { new_membership }, StoreAnswer::Member(member)) => {
            Turn::Ask(
                StoreQuery::MembershipOf {
                    server_id: new_membership.server_id,
                    user_ref: new_membership.user_ref,
                },
                LocalFlow::ReadingMembership { member, server_id: new_membership.server_id },
            )
        },
        (
            LocalFlow::ReadingMembership { member, server_id },
            StoreAnswer::Membership(membership),
        ) => {
            let full = FullServerMembership {
                server: membership.server,
                user: member.user,
                role: membership.role,
                joined_at: membership.joined_at,
                updated_at: membership.updated_at,
                synced_at: membership.synced_at,
            };
            Turn::Ask(
                StoreQuery::MemberRefs(server_id),
                LocalFlow::Telling {
                    change: ServerChange { server_id, ..membership_created(full) },
                    result: OpResult::FullMembership(full),
                },
            )
        },
        (LocalFlow::CheckingMember { server_id, user_ref, targets }, StoreAnswer::Member(_)) => {
            Turn::Ask(
                StoreQuery::DeleteMembership { server_id, user_ref },
                LocalFlow::Leaving { server_id, user_ref, targets },
            )
        },
        (LocalFlow::Leaving { server_id, user_ref, targets }, StoreAnswer::Done) => {
            Turn::TellTargets {
                targets,
                change: membership_deleted(server_id, user_ref),
                result: OpResult::Done,
            }
        },
        _ => out_of_turn(),
    }
}

/// Whether `step` is what the flow `flow` does with the event `event`. A
/// failure of the store ends the flow with that failure. The members of a
/// server that a user leaves lead to the check of the membership, with the
/// targets of the change.
pub open spec fn advances_local(
    step: LocalStep,
    local: Seq<char>,
    flow: LocalFlow,
    event: LocalEvent,
) -> bool {
    match (flow, event) {
        (LocalFlow::Finished, _) => is_turn(step, local, out_of_turn()),
        (LocalFlow::FetchingRemoteUser { new_membership }, LocalEvent::RemoteDone(answer)) => {
            match answer {
                Err(failure) => is_turn(
                    step,
                    local,
                    Turn::Unreached(failure, new_membership.user_ref.host@),
                ),
                Ok(FederationWsReply::UsersGetByRef(user)) => is_turn(
                    step,
                    local,
                    Turn::Ask(
                        StoreQuery::UpsertRemoteUser(user),
                        LocalFlow::KeepingRemoteUser { new_membership },
                    ),
                ),
                Ok(_) => is_turn(
                    step,
                    local,
                    Turn::Refused(
                        Refusal::Internal(
                            "Unexpected federation reply from "@ + new_membership.user_ref.host@
                                + " for users.get_by_ref"@,
                        ),
                    ),
                ),
            }
        },
        (_, LocalEvent::RemoteDone(_)) => is_turn(step, local, out_of_turn()),
        (LocalFlow::FetchingRemoteUser { .. }, LocalEvent::Answer(_)) => is_turn(
            step,
            local,
            out_of_turn(),
        ),
        (_, LocalEvent::Answer(Err(error))) => is_turn(step, local, Turn::Failed(error)),
        (
            LocalFlow::ListingToLeave { server_id, user_ref },
            LocalEvent::Answer(Ok(StoreAnswer::UserRefs(members))),
        ) => {
            &&& step.effect == LocalEffect::Ask(StoreQuery::MemberOf { server_id, user_ref })
            &&& step.next matches LocalFlow::CheckingMember {
                server_id: s,
                user_ref: u,
                targets,
            }
            &&& s == server_id
            &&& u == user_ref
            &&& is_leave_targets(targets, local, members@, user_ref)
        },
        (LocalFlow::ListingToLeave { .. }, LocalEvent::Answer(Ok(_))) => is_turn(
            step,
            local,
            out_of_turn(),
        ),
        (flow, LocalEvent::Answer(Ok(answer))) => is_turn(
            step,
            local,
            answer_turn(local, flow, answer),
        ),
    }
}

fn ask(query: StoreQuery, next: LocalFlow) -> (r: LocalStep)
    ensures
        r == (LocalStep { next, effect: LocalEffect::Ask(query) }),
{
    LocalStep { next, effect: LocalEffect::Ask(query) }
}

fn end(result: ApiResult<OpResult>) -> (r: LocalStep)
    ensures
        r.next is Finished,
        r.effect == LocalEffect::Finish(result),
{
    LocalStep { next: LocalFlow::Finished, effect: LocalEffect::Finish(result) }
}

fn refuse_out_of_turn() -> (r: LocalStep)
    ensures
        forall|local: Seq<char>| is_turn(r, local, out_of_turn()),
{
    end(Err(ApiError::Internal(String::from_str("Operation was handed what it did not wait for"))))
}

fn announce(
    update: ClientWsUpdate,
    hosts: Vec<String>,
    federation_update: Option<FederationWsUpdate>,
    result: OpResult,
) -> (r: LocalStep)
    ensures
        r.next is Finished,
        r.effect == (LocalEffect::Announce { update, hosts, federation_update, result }),
{
    LocalStep {
        next: LocalFlow::Finished,
        effect: LocalEffect::Announce { update, hosts, federation_update, result },
    }
}

fn tell(config: &ServerConfig, members: &Vec<UserRef>, change: ServerChange, result: OpResult) -> (r:
    LocalStep)
    ensures
        is_turn(
            r,
            local_host_spec(config.local_host_raw@, config.port),
            Turn::TellMembers { members: members@, change, result },
        ),
{
    let targets = resolve_targets(config, members);
    LocalStep { next: LocalFlow::Finished, effect: LocalEffect::Tell { targets, change, result } }
}

fn insert_membership(new_membership: NewServerMembership) -> (r: LocalStep)
    ensures
        r == (LocalStep {
            next: LocalFlow::WritingMembership { new_membership },
            effect: LocalEffect::Ask(StoreQuery::InsertMembership(new_membership)),
        }),
{
    let query = StoreQuery::InsertMembership(new_membership.clone());
    ask(query, LocalFlow::WritingMembership { new_membership })
}

fn lookup_joining_user(new_membership: NewServerMembership) -> (r: LocalStep)
    ensures
        r == (LocalStep {
            next: LocalFlow::FetchingRemoteUser { new_membership },
            effect: LocalEffect::CallRemote(user_lookup_call(new_membership)),
        }),
{
    let call = memberships::remote_user_lookup(&new_membership);
    LocalStep {
        next: LocalFlow::FetchingRemoteUser { new_membership },
        effect: LocalEffect::CallRemote(call),
    }
}

fn read_answer(answer: StoreAnswer) -> (r: Option<OpResult>)
    ensures
        r == result_of(answer),
{
    match answer {
        StoreAnswer::Done => Some(OpResult::Done),
        StoreAnswer::User(u) => Some(OpResult::User(u)),
        StoreAnswer::MaybeUser(_) => None,
        StoreAnswer::Users(u) => Some(OpResult::Users(u)),
        StoreAnswer::Hosts(h) => Some(OpResult::Hosts(h)),
        StoreAnswer::Server(s) => Some(OpResult::Server(s)),
        StoreAnswer::Servers(s) => Some(OpResult::Servers(s)),
        StoreAnswer::Channel(c) => Some(OpResult::Channel(c)),
        StoreAnswer::Channels(c) => Some(OpResult::Channels(c)),
        StoreAnswer::Message(m) => Some(OpResult::Message(m)),
        StoreAnswer::Messages(m) => Some(OpResult::Messages(m)),
        StoreAnswer::Member(m) => Some(OpResult::Member(m)),
        StoreAnswer::Members(m) => Some(OpResult::Members(m)),
        StoreAnswer::Membership(_) => None,
        StoreAnswer::Memberships(m) => Some(OpResult::Memberships(m)),
        StoreAnswer::UserRefs(_) => None,
    }
}

fn on_answer(config: &ServerConfig, flow: LocalFlow, answer: StoreAnswer) -> (r: LocalStep)
    requires
        !(flow is Finished),
        !(flow is FetchingRemoteUser),
        !(flow is ListingToLeave),
    ensures
        is_turn(
            r,
            local_host_spec(config.local_host_raw@, config.port),
            answer_turn(local_host_spec(config.local_host_raw@, config.port), flow, answer),
        ),
{
    match (flow, answer) {
        (LocalFlow::Reading, answer) => match read_answer(answer) {
            Some(result) => end(Ok(result)),
            None => refuse_out_of_turn(),
        },
        (LocalFlow::CreatingUser, StoreAnswer::User(user)) => {
            let update = users::created(&user);
            announce(update, Vec::new(), None, OpResult::User(user))
        },
        (LocalFlow::FindingHomeUser { user_ref }, StoreAnswer::User(user)) => {
            match users::check_home_user(config, &user) {
                Ok(()) => ask(
                    StoreQuery::RemoteServerHosts(user_ref.clone()),
                    LocalFlow::ListingForeignHosts { user_ref },
                ),
                Err(e) => end(Err(e)),
            }
        },
        (LocalFlow::ListingForeignHosts { user_ref }, StoreAnswer::Hosts(foreign_hosts)) => ask(
            StoreQuery::DeleteUser(user_ref.clone()),
            LocalFlow::DeletingHomeUser { user_ref, foreign_hosts },
        ),
        (LocalFlow::DeletingHomeUser { user_ref, foreign_hosts }, StoreAnswer::Done) => {
            let update = users::deleted(&user_ref);
            let federation_update = users::deleted_at_home(&user_ref);
            announce(update, foreign_hosts, Some(federation_update), OpResult::Done)
        },
        (LocalFlow::DeletingUserRecord { user_ref }, StoreAnswer::Done) => {
            let update = users::deleted(&user_ref);
            announce(update, Vec::new(), None, OpResult::Done)
        },
        (LocalFlow::CreatingServer { creator }, StoreAnswer::Server(server)) => match creator {
            Some(user_ref) => {
                let membership = NewServerMembership {
                    user_ref: user_ref.clone(),
                    server_id: server.id,
                    server_host: server.host.clone(),
                    role: ServerRole::Admin,
                };
                ask(
                    StoreQuery::EnsureUser(user_ref),
                    LocalFlow::EnsuringCreator { server, membership },
                )
            },
            None => end(
                Err(
                    ApiError::Internal(
                        String::from_str("Session missing user identity for server creation"),
                    ),
                ),
            ),
        },
        (LocalFlow::EnsuringCreator { server, membership }, StoreAnswer::Done) => ask(
            StoreQuery::InsertMembership(membership),
            LocalFlow::JoiningCreator { server },
        ),
        (LocalFlow::JoiningCreator { server }, StoreAnswer::Member(_)) => {
            let change = servers::created(&server);
            ask(
                StoreQuery::MemberRefs(server.id),
                LocalFlow::Telling { change, result: OpResult::Server(server) },
            )
        },
        (LocalFlow::FetchingServer { server_id }, StoreAnswer::Server(server)) => ask(
            StoreQuery::ChannelsByServer(server_id),
            LocalFlow::FetchingChannels { server },
        ),
        (LocalFlow::FetchingChannels { server }, StoreAnswer::Channels(channels)) => end(
            Ok(OpResult::ServerWithChannels(servers::with_channels(server, channels))),
        ),
        (LocalFlow::Removing { change }, StoreAnswer::Done) => ask(
            StoreQuery::MemberRefs(change.server_id),
            LocalFlow::Telling { change, result: OpResult::Done },
        ),
        (LocalFlow::Telling { change, result }, StoreAnswer::UserRefs(members)) => tell(
            config,
            &members,
            change,
            result,
        ),
        (LocalFlow::CreatingChannel { server_id }, StoreAnswer::Channel(channel)) => {
            let change = channels::created(&channel);
            ask(
                StoreQuery::MemberRefs(server_id),
                LocalFlow::Telling { change, result: OpResult::Channel(channel) },
            )
        },
        (LocalFlow::CheckingChannel { server_id }, StoreAnswer::Channel(channel)) => {
            match channels::check_in_server(&channel, server_id) {
                Ok(()) => end(Ok(OpResult::Channel(channel))),
                Err(e) => end(Err(e)),
            }
        },
        (
            LocalFlow::CheckingChannelToDelete { server_id, channel_id },
            StoreAnswer::Channel(channel),
        ) => match channels::check_in_server(&channel, server_id) {
            Ok(()) => ask(
                StoreQuery::DeleteChannel(channel_id),
                LocalFlow::Removing { change: channels::deleted(server_id, channel_id) },
            ),
            Err(e) => end(Err(e)),
        },
        (
            LocalFlow::CheckingTargetChannel { server_id, channel_id, new_message },
            StoreAnswer::Channel(channel),
        ) => match messages::check_target_channel(&channel, server_id) {
            Ok(()) => ask(
                StoreQuery::InsertMessage { channel_id, new_message },
                LocalFlow::CreatingMessage { server_id },
            ),
            Err(e) => end(Err(e)),
        },
        (LocalFlow::CreatingMessage { server_id }, StoreAnswer::Message(message)) => {
            let change = messages::created(server_id, &message);
            ask(
                StoreQuery::MemberRefs(server_id),
                LocalFlow::Telling { change, result: OpResult::Message(message) },
            )
        },
        (
            LocalFlow::CheckingMessage { server_id, channel_id, delete },
            StoreAnswer::Message(message),
        ) => match messages::check_in_channel(&message, channel_id) {
            Ok(()) => ask(
                StoreQuery::ChannelById(channel_id),
                LocalFlow::CheckingMessageChannel { server_id, message, delete },
            ),
            Err(e) => end(Err(e)),
        },
        (
            LocalFlow::CheckingMessageChannel { server_id, message, delete },
            StoreAnswer::Channel(channel),
        ) => match messages::check_channel_in_server(&channel, server_id) {
            Ok(()) => {
                if delete {
                    ask(
                        StoreQuery::DeleteMessage(message.id),
                        LocalFlow::Removing {
                            change: messages::deleted(server_id, message.channel_id, message.id),
                        },
                    )
                } else {
                    end(Ok(OpResult::Message(message)))
                }
            },
            Err(e) => end(Err(e)),
        },
        (LocalFlow::FindingJoiningUser { new_membership }, StoreAnswer::MaybeUser(found)) => {
            match found {
                Some(_) => insert_membership(new_membership),
                None => lookup_joining_user(new_membership),
            }
        },
        (LocalFlow::KeepingRemoteUser { new_membership }, StoreAnswer::Done) => insert_membership(
            new_membership,
        ),
        (LocalFlow::WritingMembership { new_membership }, StoreAnswer::Member(member)) => ask(
            StoreQuery::MembershipOf {
                server_id: new_membership.server_id,
                user_ref: new_membership.user_ref,
            },
            LocalFlow::ReadingMembership { member, server_id: new_membership.server_id },
        ),
        (
            LocalFlow::ReadingMembership { member, server_id },
            StoreAnswer::Membership(membership),
        ) => {
            let full = memberships::written_membership(membership, member);
            let told = memberships::created(&full);
            let change = ServerChange {
                server_id,
                client_update: told.client_update,
                federation_update: told.federation_update,
            };
            ask(
                StoreQuery::MemberRefs(server_id),
                LocalFlow::Telling { change, result: OpResult::FullMembership(full) },
            )
        },
        (LocalFlow::CheckingMember { server_id, user_ref, targets }, StoreAnswer::Member(_)) => {
            ask(
                StoreQuery::DeleteMembership { server_id, user_ref: user_ref.clone() },
                LocalFlow::Leaving { server_id, user_ref, targets },
            )
        },
        (LocalFlow::Leaving { server_id, user_ref, targets }, StoreAnswer::Done) => {
            let change = memberships::deleted(server_id, &user_ref);
            LocalStep {
                next: LocalFlow::Finished,
                effect: LocalEffect::Tell { targets, change, result: OpResult::Done },
            }
        },
        _ => refuse_out_of_turn(),
    }
}

impl LocalFlow {
    /// Starts `operation` on the local store, for the session `session`.
    pub fn start(config: &ServerConfig, session: &Session, operation: Operation) -> (r: LocalStep)
        ensures
            is_turn(
                r,
                local_host_spec(config.local_host_raw@, config.port),
                first_turn(
                    local_host_spec(config.local_host_raw@, config.port),
                    *session,
                    operation,
                ),
            ),
    {
        match operation {
            Operation::UsersCreate { new_user } => ask(
                StoreQuery::InsertUser(new_user),
                LocalFlow::CreatingUser,
            ),
            Operation::UsersGetAll { .. } => ask(StoreQuery::AllUsers, LocalFlow::Reading),
            Operation::UsersGetByRef { user_ref } => ask(
                StoreQuery::UserByRef(user_ref),
                LocalFlow::Reading,
            ),
            Operation::UsersGetAssociatedHosts { user_ref, .. } => ask(
                StoreQuery::AssociatedHosts(user_ref),
                LocalFlow::Reading,
            ),
            Operation::UsersDelete { user_ref } => ask(
                StoreQuery::UserByRef(user_ref.clone()),
                LocalFlow::FindingHomeUser { user_ref },
            ),
            Operation::UsersDeleteRemoteRecord { user_ref } => {
                match users::check_remote_user_deletion(config, session, &user_ref) {
                    Ok(()) => ask(
                        StoreQuery::DeleteUser(user_ref.clone()),
                        LocalFlow::DeletingUserRecord { user_ref },
                    ),
                    Err(e) => end(Err(e)),
                }
            },
            Operation::MembershipsGetByUser { user_ref } => ask(
                StoreQuery::MembershipsByUser(user_ref),
                LocalFlow::Reading,
            ),
            Operation::MembershipsGetMembersByServer { server_id, .. } => ask(
                StoreQuery::MembersByServer(server_id),
                LocalFlow::Reading,
            ),
            Operation::MembershipsGetByUserAndServer { server_id, user_ref, .. } => ask(
                StoreQuery::MemberOf { server_id, user_ref },
                LocalFlow::Reading,
            ),
            Operation::MembershipsCreate { new_membership } => {
                if memberships::is_for_remote_user(config, &new_membership) {
                    ask(
                        StoreQuery::FindUser(new_membership.user_ref.clone()),
                        LocalFlow::FindingJoiningUser { new_membership },
                    )
                } else {
                    insert_membership(new_membership)
                }
            },
            Operation::MembershipsDelete { server_id, user_ref, .. } => ask(
                StoreQuery::MemberRefs(server_id),
                LocalFlow::ListingToLeave { server_id, user_ref },
            ),
            Operation::ServersCreate { new_server, .. } => {
                let creator = match &session.user_ref {
                    Some(u) => Some(u.clone()),
                    None => None,
                };
                ask(StoreQuery::InsertServer(new_server), LocalFlow::CreatingServer { creator })
            },
            Operation::ServersGetAll { .. } => ask(StoreQuery::AllServers, LocalFlow::Reading),
            Operation::ServersGetById { server_id, .. } => ask(
                StoreQuery::ServerById(server_id),
                LocalFlow::Reading,
            ),
            Operation::ServersGetWithChannels { server_id, .. } => ask(
                StoreQuery::ServerById(server_id),
                LocalFlow::FetchingServer { server_id },
            ),
            Operation::ServersDelete { server_id, .. } => ask(
                StoreQuery::DeleteServer(server_id),
                LocalFlow::Removing { change: servers::deleted(server_id) },
            ),
            Operation::ChannelsCreate { server_id, new_channel, .. } => ask(
                StoreQuery::InsertChannel { server_id, new_channel },
                LocalFlow::CreatingChannel { server_id },
            ),
            Operation::ChannelsGetAll { .. } => ask(StoreQuery::AllChannels, LocalFlow::Reading),
            Operation::ChannelsGetByServer { server_id, .. } => ask(
                StoreQuery::ChannelsByServer(server_id),
                LocalFlow::Reading,
            ),
            Operation::ChannelsGetById { server_id, channel_id, .. } => ask(
                StoreQuery::ChannelById(channel_id),
                LocalFlow::CheckingChannel { server_id },
            ),
            Operation::ChannelsDelete { server_id, channel_id, .. } => ask(
                StoreQuery::ChannelById(channel_id),
                LocalFlow::CheckingChannelToDelete { server_id, channel_id },
            ),
            Operation::MessagesCreate { server_id, channel_id, new_message, .. } => ask(
                StoreQuery::ChannelById(channel_id),
                LocalFlow::CheckingTargetChannel { server_id, channel_id, new_message },
            ),
            Operation::MessagesGetAll { .. } => ask(StoreQuery::AllMessages, LocalFlow::Reading),
            Operation::MessagesGetByServer { server_id, .. } => ask(
                StoreQuery::MessagesByServer(server_id),
                LocalFlow::Reading,
            ),
            Operation::MessagesGetByChannel { channel_id, .. } => ask(
                StoreQuery::MessagesByChannel(channel_id),
                LocalFlow::Reading,
            ),
            Operation::MessagesGetById { server_id, channel_id, message_id, .. } => ask(
                StoreQuery::MessageById(message_id),
                LocalFlow::CheckingMessage { server_id, channel_id, delete: false },
            ),
            Operation::MessagesDelete { server_id, channel_id, message_id, .. } => ask(
                StoreQuery::MessageById(message_id),
                LocalFlow::CheckingMessage { server_id, channel_id, delete: true },
            ),
        }
    }

    /// Hands the flow what it waited for.
    pub fn step(self, config: &ServerConfig, event: LocalEvent) -> (r: LocalStep)
        ensures
            advances_local(r, local_host_spec(config.local_host_raw@, config.port), self, event),
    {
        match (self, event) {
            (LocalFlow::Finished, _) => refuse_out_of_turn(),
            (LocalFlow::FetchingRemoteUser { new_membership }, LocalEvent::RemoteDone(answer)) => {
                match answer {
                    Err(failure) => end(
                        Err(failure.into_api_error(new_membership.user_ref.host.as_str())),
                    ),
                    Ok(FederationWsReply::UsersGetByRef(user)) => ask(
                        StoreQuery::UpsertRemoteUser(user),
                        LocalFlow::KeepingRemoteUser { new_membership },
                    ),
                    Ok(_) => end(
                        Err(
                            ApiError::Internal(
                                String::from_str("Unexpected federation reply from ").concat(
                                    new_membership.user_ref.host.as_str(),
                                ).concat(" for users.get_by_ref"),
                            ),
                        ),
                    ),
                }
            },
            (_, LocalEvent::RemoteDone(_)) => refuse_out_of_turn(),
            (LocalFlow::FetchingRemoteUser { .. }, LocalEvent::Answer(_)) => refuse_out_of_turn(),
            (_, LocalEvent::Answer(Err(error))) => end(Err(error)),
            (
                LocalFlow::ListingToLeave { server_id, user_ref },
                LocalEvent::Answer(Ok(StoreAnswer::UserRefs(members))),
            ) => {
                let before = resolve_targets(config, &members);
                let targets = memberships::leave_targets(config, before, &user_ref);
                ask(
                    StoreQuery::MemberOf { server_id, user_ref: user_ref.clone() },
                    LocalFlow::CheckingMember { server_id, user_ref, targets },
                )
            },
            (LocalFlow::ListingToLeave { .. }, LocalEvent::Answer(Ok(_))) => refuse_out_of_turn(),
            (flow, LocalEvent::Answer(Ok(answer))) => on_answer(config, flow, answer),
        }
    }
}

/// A change is told only by a flow that waited for the store to make it:
/// what is told comes out of the states that follow a write or a deletion.
pub proof fn lemma_told_after_the_store(local: Seq<char>, flow: LocalFlow, answer: StoreAnswer)
    requires
        answer_turn(local, flow, answer) is TellMembers || answer_turn(local, flow, answer)
            is TellTargets,
    ensures
        flow is Telling || flow is Leaving,
{
}

/// A path that names a channel of another server, or a message of another
/// channel, is refused as not authorized, whatever the store holds.
pub proof fn lemma_forged_path_is_unauthorized(
    local: Seq<char>,
    server_id: Uuid,
    channel_id: Uuid,
    channel: Channel,
    message: Message,
    delete: bool,
)
    ensures
        channel.server_id != server_id ==> answer_turn(
            local,
            LocalFlow::CheckingChannel { server_id },
            StoreAnswer::Channel(channel),
        ) is Refused && answer_turn(
            local,
            LocalFlow::CheckingChannelToDelete { server_id, channel_id },
            StoreAnswer::Channel(channel),
        ) is Refused,
        message.channel_id != channel_id ==> answer_turn(
            local,
            LocalFlow::CheckingMessage { server_id, channel_id, delete },
            StoreAnswer::Message(message),
        ) is Refused,
{
}

} // verus!
