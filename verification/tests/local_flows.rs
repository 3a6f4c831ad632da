use runelink::auth::{ClientAuth, FederationAuth, Principal, Session};
use runelink::config::ServerConfig;
use runelink::error::ApiError;
use runelink::ops::fanout::ServerFanoutTargets;
use runelink::ops::local::{LocalEffect, LocalEvent, LocalFlow, LocalStep, StoreAnswer, StoreQuery};
use runelink::ops::{OpResult, Operation, RemoteCall};
use runelink::types::auth::{ClientAccessClaims, FederationClaims};
use runelink::types::channel::Channel;
use runelink::types::message::{Message, NewMessage};
use runelink::types::server::{
    FullServerMembership, NewServer, NewServerMembership, Server, ServerMember, ServerMembership,
    ServerRole, ServerWithChannels,
};
use runelink::types::user::{NewUser, User, UserRef, UserRole};
use runelink::types::ws::{
    ClientWsUpdate, FederationWsReply, FederationWsRequest, FederationWsUpdate,
};
use runelink::ws::error::FederationRequestError;

fn config() -> ServerConfig {
    ServerConfig {
        local_host_raw: "h1".into(),
        database_url: "db".into(),
        port: 7000,
        key_dir: "/k".into(),
    }
}

fn user_ref(name: &str, host: &str) -> UserRef {
    UserRef::new(name.to_string(), host.to_string())
}

fn user(name: &str, host: &str) -> User {
    User {
        name: name.into(),
        host: host.into(),
        role: UserRole::User,
        created_at: 1,
        updated_at: 2,
        synced_at: None,
    }
}

fn server(id: u128) -> Server {
    Server { id, host: "h1".into(), title: "g".into(), description: None, created_at: 10, updated_at: 20 }
}

fn channel(id: u128, server_id: u128) -> Channel {
    Channel { id, server_id, title: "c".into(), description: None, created_at: 1, updated_at: 2 }
}

fn message(id: u128, channel_id: u128) -> Message {
    Message { id, channel_id, author: None, body: "hi".into(), created_at: 1, updated_at: 2 }
}

fn member(name: &str, host: &str) -> ServerMember {
    ServerMember { user: user(name, host), role: ServerRole::Member, joined_at: 3, updated_at: 4 }
}

fn session(sub: &str) -> Session {
    Session::new(Principal::Client(ClientAuth {
        claims: ClientAccessClaims {
            iss: "http://h1:7000".into(),
            sub: sub.into(),
            aud: vec!["http://h1:7000".into()],
            exp: 2,
            iat: 1,
            scope: "openid".into(),
            client_id: "c".into(),
        },
    }))
}

fn peer_session(delegated: Option<UserRef>) -> Session {
    Session::new(Principal::Federation(FederationAuth {
        claims: FederationClaims {
            iss: "http://h2:7000".into(),
            sub: "http://h2:7000".into(),
            aud: vec!["http://h1:7000".into()],
            exp: 2,
            iat: 1,
            user_ref: delegated,
        },
    }))
}

fn answer(step: LocalStep, a: StoreAnswer) -> LocalStep {
    step.next.step(&config(), LocalEvent::Answer(Ok(a)))
}

fn refused(step: &LocalStep, text: &str) -> bool {
    step.next == LocalFlow::Finished
        && matches!(&step.effect, LocalEffect::Finish(Err(ApiError::AuthError(m))) if m == text)
}

#[test]
fn reads_hand_back_what_the_store_answers() {
    let s = session("alice@h1");
    let step = LocalFlow::start(&config(), &s, Operation::UsersGetAll { target_host: None });
    assert_eq!(step.effect, LocalEffect::Ask(StoreQuery::AllUsers));
    let step = answer(step, StoreAnswer::Users(vec![user("a", "h1")]));
    assert_eq!(step.effect, LocalEffect::Finish(Ok(OpResult::Users(vec![user("a", "h1")]))));
    assert_eq!(step.next, LocalFlow::Finished);
    let cases = [
        (
            Operation::UsersGetByRef { user_ref: user_ref("a", "h1") },
            StoreQuery::UserByRef(user_ref("a", "h1")),
        ),
        (
            Operation::UsersGetAssociatedHosts { user_ref: user_ref("a", "h1"), target_host: None },
            StoreQuery::AssociatedHosts(user_ref("a", "h1")),
        ),
        (
            Operation::MembershipsGetByUser { user_ref: user_ref("a", "h1") },
            StoreQuery::MembershipsByUser(user_ref("a", "h1")),
        ),
        (
            Operation::MembershipsGetMembersByServer { server_id: 1, target_host: None },
            StoreQuery::MembersByServer(1),
        ),
        (
            Operation::MembershipsGetByUserAndServer {
                server_id: 1,
                user_ref: user_ref("a", "h1"),
                target_host: None,
            },
            StoreQuery::MemberOf { server_id: 1, user_ref: user_ref("a", "h1") },
        ),
        (Operation::ServersGetAll { target_host: None }, StoreQuery::AllServers),
        (Operation::ServersGetById { server_id: 1, target_host: None }, StoreQuery::ServerById(1)),
        (Operation::ChannelsGetAll { target_host: None }, StoreQuery::AllChannels),
        (
            Operation::ChannelsGetByServer { server_id: 1, target_host: None },
            StoreQuery::ChannelsByServer(1),
        ),
        (Operation::MessagesGetAll { target_host: None }, StoreQuery::AllMessages),
        (
            Operation::MessagesGetByServer { server_id: 1, target_host: None },
            StoreQuery::MessagesByServer(1),
        ),
        (
            Operation::MessagesGetByChannel { server_id: 1, channel_id: 2, target_host: None },
            StoreQuery::MessagesByChannel(2),
        ),
    ];
    for (operation, query) in cases {
        let step = LocalFlow::start(&config(), &s, operation);
        assert_eq!(step.effect, LocalEffect::Ask(query));
        assert_eq!(step.next, LocalFlow::Reading);
    }
}

#[test]
fn a_channel_of_another_server_is_not_handed_back() {
    let s = session("alice@h1");
    let get = Operation::ChannelsGetById { server_id: 1, channel_id: 2, target_host: None };
    let step = LocalFlow::start(&config(), &s, get.clone());
    assert_eq!(step.effect, LocalEffect::Ask(StoreQuery::ChannelById(2)));
    let step = answer(step, StoreAnswer::Channel(channel(2, 1)));
    assert_eq!(step.effect, LocalEffect::Finish(Ok(OpResult::Channel(channel(2, 1)))));
    let step = answer(LocalFlow::start(&config(), &s, get), StoreAnswer::Channel(channel(2, 9)));
    assert!(refused(&step, "Channel not found in specified server"));
}

#[test]
fn a_channel_is_deleted_after_its_path_is_checked() {
    let s = session("alice@h1");
    let delete = Operation::ChannelsDelete { server_id: 1, channel_id: 2, target_host: None };
    let step = answer(LocalFlow::start(&config(), &s, delete.clone()), StoreAnswer::Channel(channel(2, 9)));
    assert!(refused(&step, "Channel not found in specified server"));
    let step = answer(LocalFlow::start(&config(), &s, delete), StoreAnswer::Channel(channel(2, 1)));
    assert_eq!(step.effect, LocalEffect::Ask(StoreQuery::DeleteChannel(2)));
    let step = answer(step, StoreAnswer::Done);
    assert_eq!(step.effect, LocalEffect::Ask(StoreQuery::MemberRefs(1)));
    let step = answer(
        step,
        StoreAnswer::UserRefs(vec![user_ref("alice", "h1"), user_ref("bob", "h2")]),
    );
    let LocalEffect::Tell { targets, change, result } = step.effect else { panic!("not told") };
    assert_eq!(targets.local_users, vec![user_ref("alice", "h1")]);
    assert_eq!(targets.remote_hosts, vec!["h2".to_string()]);
    assert_eq!(change.server_id, 1);
    assert_eq!(
        change.client_update,
        ClientWsUpdate::ChannelDeleted { server_id: 1, channel_id: 2 }
    );
    assert_eq!(
        change.federation_update,
        FederationWsUpdate::ChannelDeleted { server_id: 1, channel_id: 2 }
    );
    assert_eq!(result, OpResult::Done);
}

#[test]
fn a_message_is_created_in_a_channel_of_its_server() {
    let s = session("alice@h1");
    let new_message = NewMessage { author: user_ref("alice", "h1"), body: "hi".into() };
    let create = Operation::MessagesCreate {
        server_id: 1,
        channel_id: 2,
        new_message: new_message.clone(),
        target_host: None,
    };
    let step = LocalFlow::start(&config(), &s, create.clone());
    assert_eq!(step.effect, LocalEffect::Ask(StoreQuery::ChannelById(2)));
    let forged = answer(step, StoreAnswer::Channel(channel(2, 9)));
    assert!(refused(&forged, "Channel not found in specified server"));
    let step = answer(LocalFlow::start(&config(), &s, create), StoreAnswer::Channel(channel(2, 1)));
    assert_eq!(
        step.effect,
        LocalEffect::Ask(StoreQuery::InsertMessage { channel_id: 2, new_message })
    );
    let step = answer(step, StoreAnswer::Message(message(3, 2)));
    assert_eq!(step.effect, LocalEffect::Ask(StoreQuery::MemberRefs(1)));
    let step = answer(step, StoreAnswer::UserRefs(vec![]));
    let LocalEffect::Tell { targets, change, result } = step.effect else { panic!("not told") };
    assert!(targets.local_users.is_empty() && targets.remote_hosts.is_empty());
    assert_eq!(change.client_update, ClientWsUpdate::MessageUpserted(message(3, 2)));
    assert_eq!(change.federation_update, FederationWsUpdate::MessageUpserted(message(3, 2)));
    assert_eq!(result, OpResult::Message(message(3, 2)));
}

#[test]
fn a_message_is_checked_against_channel_and_server() {
    let s = session("alice@h1");
    let get = Operation::MessagesGetById { server_id: 1, channel_id: 2, message_id: 3, target_host: None };
    let step = LocalFlow::start(&config(), &s, get.clone());
    assert_eq!(step.effect, LocalEffect::Ask(StoreQuery::MessageById(3)));
    let forged = answer(step, StoreAnswer::Message(message(3, 9)));
    assert!(refused(&forged, "Message not found in specified channel"));
    let step = answer(LocalFlow::start(&config(), &s, get.clone()), StoreAnswer::Message(message(3, 2)));
    assert_eq!(step.effect, LocalEffect::Ask(StoreQuery::ChannelById(2)));
    let forged = answer(step, StoreAnswer::Channel(channel(2, 9)));
    assert!(refused(&forged, "Message not found in specified server"));
    let step = answer(LocalFlow::start(&config(), &s, get), StoreAnswer::Message(message(3, 2)));
    let step = answer(step, StoreAnswer::Channel(channel(2, 1)));
    assert_eq!(step.effect, LocalEffect::Finish(Ok(OpResult::Message(message(3, 2)))));

    let delete =
        Operation::MessagesDelete { server_id: 1, channel_id: 2, message_id: 3, target_host: None };
    let step = answer(LocalFlow::start(&config(), &s, delete), StoreAnswer::Message(message(3, 2)));
    let step = answer(step, StoreAnswer::Channel(channel(2, 1)));
    assert_eq!(step.effect, LocalEffect::Ask(StoreQuery::DeleteMessage(3)));
    let step = answer(step, StoreAnswer::Done);
    let step = answer(step, StoreAnswer::UserRefs(vec![user_ref("alice", "h1")]));
    let LocalEffect::Tell { change, result, .. } = step.effect else { panic!("not told") };
    assert_eq!(
        change.client_update,
        ClientWsUpdate::MessageDeleted { server_id: 1, channel_id: 2, message_id: 3 }
    );
    assert_eq!(result, OpResult::Done);
}

#[test]
fn a_server_is_created_with_its_creator_as_admin() {
    let s = session("alice@h1");
    let create = Operation::ServersCreate {
        new_server: NewServer { title: "g1".into(), description: None },
        target_host: None,
    };
    let step = LocalFlow::start(&config(), &s, create.clone());
    assert_eq!(
        step.effect,
        LocalEffect::Ask(StoreQuery::InsertServer(NewServer { title: "g1".into(), description: None }))
    );
    let step = answer(step, StoreAnswer::Server(server(5)));
    assert_eq!(step.effect, LocalEffect::Ask(StoreQuery::EnsureUser(user_ref("alice", "h1"))));
    let step = answer(step, StoreAnswer::Done);
    assert_eq!(
        step.effect,
        LocalEffect::Ask(StoreQuery::InsertMembership(NewServerMembership {
            user_ref: user_ref("alice", "h1"),
            server_id: 5,
            server_host: "h1".into(),
            role: ServerRole::Admin,
        }))
    );
    let step = answer(step, StoreAnswer::Member(member("alice", "h1")));
    assert_eq!(step.effect, LocalEffect::Ask(StoreQuery::MemberRefs(5)));
    let step = answer(step, StoreAnswer::UserRefs(vec![user_ref("alice", "h1")]));
    let LocalEffect::Tell { targets, change, result } = step.effect else { panic!("not told") };
    assert_eq!(targets.local_users, vec![user_ref("alice", "h1")]);
    assert_eq!(change.client_update, ClientWsUpdate::ServerUpserted(server(5)));
    assert_eq!(result, OpResult::Server(server(5)));

    let anonymous = Session { user_ref: None, federation: None, user: None, memberships: vec![] };
    let step = answer(LocalFlow::start(&config(), &anonymous, create), StoreAnswer::Server(server(5)));
    assert_eq!(
        step.effect,
        LocalEffect::Finish(Err(ApiError::Internal(
            "Session missing user identity for server creation".into()
        )))
    );
}

#[test]
fn a_server_is_fetched_with_its_channels_and_deleted() {
    let s = session("alice@h1");
    let get = Operation::ServersGetWithChannels { server_id: 5, target_host: None };
    let step = answer(LocalFlow::start(&config(), &s, get), StoreAnswer::Server(server(5)));
    assert_eq!(step.effect, LocalEffect::Ask(StoreQuery::ChannelsByServer(5)));
    let step = answer(step, StoreAnswer::Channels(vec![channel(2, 5)]));
    assert_eq!(
        step.effect,
        LocalEffect::Finish(Ok(OpResult::ServerWithChannels(ServerWithChannels {
            server: server(5),
            channels: vec![channel(2, 5)],
        })))
    );
    let delete = Operation::ServersDelete { server_id: 5, target_host: None };
    let step = LocalFlow::start(&config(), &s, delete);
    assert_eq!(step.effect, LocalEffect::Ask(StoreQuery::DeleteServer(5)));
    let step = answer(step, StoreAnswer::Done);
    assert_eq!(step.effect, LocalEffect::Ask(StoreQuery::MemberRefs(5)));
    let step = answer(step, StoreAnswer::UserRefs(vec![]));
    assert!(matches!(
        step.effect,
        LocalEffect::Tell { result: OpResult::Done, change, .. }
            if change.client_update == ClientWsUpdate::ServerDeleted { server_id: 5 }
    ));
}

#[test]
fn users_are_created_and_deleted_with_an_announcement() {
    let s = session("admin@h1");
    let new_user = NewUser { name: "n".into(), host: "h1".into(), role: UserRole::User };
    let step = LocalFlow::start(&config(), &s, Operation::UsersCreate { new_user: new_user.clone() });
    assert_eq!(step.effect, LocalEffect::Ask(StoreQuery::InsertUser(new_user)));
    let step = answer(step, StoreAnswer::User(user("n", "h1")));
    assert_eq!(
        step.effect,
        LocalEffect::Announce {
            update: ClientWsUpdate::UserUpserted(user("n", "h1")),
            hosts: vec![],
            federation_update: None,
            result: OpResult::User(user("n", "h1")),
        }
    );
    let delete = Operation::UsersDelete { user_ref: user_ref("n", "h1") };
    let step = LocalFlow::start(&config(), &s, delete.clone());
    assert_eq!(step.effect, LocalEffect::Ask(StoreQuery::UserByRef(user_ref("n", "h1"))));
    let foreign = answer(step, StoreAnswer::User(user("n", "h2")));
    assert_eq!(
        foreign.effect,
        LocalEffect::Finish(Err(ApiError::BadRequest(
            "Can only delete users from their home server".into()
        )))
    );
    let step = answer(LocalFlow::start(&config(), &s, delete), StoreAnswer::User(user("n", "h1")));
    assert_eq!(step.effect, LocalEffect::Ask(StoreQuery::RemoteServerHosts(user_ref("n", "h1"))));
    let step = answer(step, StoreAnswer::Hosts(vec!["h2".into(), "h3".into()]));
    assert_eq!(step.effect, LocalEffect::Ask(StoreQuery::DeleteUser(user_ref("n", "h1"))));
    let step = answer(step, StoreAnswer::Done);
    assert_eq!(
        step.effect,
        LocalEffect::Announce {
            update: ClientWsUpdate::UserDeleted { user_ref: user_ref("n", "h1") },
            hosts: vec!["h2".into(), "h3".into()],
            federation_update: Some(FederationWsUpdate::RemoteUserDeleted {
                user_ref: user_ref("n", "h1")
            }),
            result: OpResult::Done,
        }
    );
}

#[test]
fn the_record_of_a_remote_user_is_deleted_for_its_home_host_only() {
    let bob = user_ref("bob", "h2");
    let op = Operation::UsersDeleteRemoteRecord { user_ref: bob.clone() };
    let step = LocalFlow::start(&config(), &peer_session(Some(bob.clone())), op.clone());
    assert_eq!(step.effect, LocalEffect::Ask(StoreQuery::DeleteUser(bob.clone())));
    let step = answer(step, StoreAnswer::Done);
    assert_eq!(
        step.effect,
        LocalEffect::Announce {
            update: ClientWsUpdate::UserDeleted { user_ref: bob.clone() },
            hosts: vec![],
            federation_update: None,
            result: OpResult::Done,
        }
    );
    let step = LocalFlow::start(&config(), &peer_session(None), op.clone());
    assert!(refused(&step, "User reference required for federated user deletion"));
    let step = LocalFlow::start(&config(), &session("bob@h2"), op);
    assert!(refused(&step, "Federation claims required"));
}

#[test]
fn a_local_user_joins_a_local_server() {
    let s = session("alice@h1");
    let new_membership = NewServerMembership {
        user_ref: user_ref("alice", "h1"),
        server_id: 5,
        server_host: "h1".into(),
        role: ServerRole::Member,
    };
    let op = Operation::MembershipsCreate { new_membership: new_membership.clone() };
    let step = LocalFlow::start(&config(), &s, op);
    assert_eq!(step.effect, LocalEffect::Ask(StoreQuery::InsertMembership(new_membership)));
    let step = answer(step, StoreAnswer::Member(member("alice", "h1")));
    assert_eq!(
        step.effect,
        LocalEffect::Ask(StoreQuery::MembershipOf { server_id: 5, user_ref: user_ref("alice", "h1") })
    );
    let membership = ServerMembership {
        server: server(5),
        user_ref: user_ref("alice", "h1"),
        role: ServerRole::Member,
        joined_at: 7,
        updated_at: 8,
        synced_at: None,
    };
    let step = answer(step, StoreAnswer::Membership(membership));
    assert_eq!(step.effect, LocalEffect::Ask(StoreQuery::MemberRefs(5)));
    let step = answer(step, StoreAnswer::UserRefs(vec![user_ref("alice", "h1")]));
    let full = FullServerMembership {
        server: server(5),
        user: user("alice", "h1"),
        role: ServerRole::Member,
        joined_at: 7,
        updated_at: 8,
        synced_at: None,
    };
    let LocalEffect::Tell { change, result, .. } = step.effect else { panic!("not told") };
    assert_eq!(change.client_update, ClientWsUpdate::MembershipUpserted(full.clone()));
    assert_eq!(change.federation_update, FederationWsUpdate::MembershipUpserted(full.clone()));
    assert_eq!(result, OpResult::FullMembership(full));
}

#[test]
fn a_user_of_another_host_is_made_known_before_joining() {
    let bob = user_ref("bob", "h2");
    let new_membership = NewServerMembership {
        user_ref: bob.clone(),
        server_id: 5,
        server_host: "h1".into(),
        role: ServerRole::Member,
    };
    let op = Operation::MembershipsCreate { new_membership: new_membership.clone() };
    let lookup = LocalEffect::CallRemote(RemoteCall {
        host: "h2".into(),
        delegated_user_ref: None,
        request: FederationWsRequest::UsersGetByRef { user_ref: bob.clone() },
    });
    let step = LocalFlow::start(&config(), &peer_session(Some(bob.clone())), op.clone());
    assert_eq!(step.effect, LocalEffect::Ask(StoreQuery::FindUser(bob.clone())));
    let known = answer(step, StoreAnswer::MaybeUser(Some(user("bob", "h2"))));
    assert_eq!(known.effect, LocalEffect::Ask(StoreQuery::InsertMembership(new_membership.clone())));

    let step = LocalFlow::start(&config(), &peer_session(Some(bob.clone())), op.clone());
    let step = answer(step, StoreAnswer::MaybeUser(None));
    assert_eq!(step.effect, lookup);
    let fetched = step.next.step(
        &config(),
        LocalEvent::RemoteDone(Ok(FederationWsReply::UsersGetByRef(user("bob", "h2")))),
    );
    assert_eq!(fetched.effect, LocalEffect::Ask(StoreQuery::UpsertRemoteUser(user("bob", "h2"))));
    let step = answer(fetched, StoreAnswer::Done);
    assert_eq!(step.effect, LocalEffect::Ask(StoreQuery::InsertMembership(new_membership.clone())));

    let unknown = |s: &Session| {
        let step = LocalFlow::start(&config(), s, op.clone());
        assert_eq!(step.effect, LocalEffect::Ask(StoreQuery::FindUser(bob.clone())));
        answer(step, StoreAnswer::MaybeUser(None))
    };
    let step = unknown(&peer_session(None));
    assert_eq!(step.effect, lookup);
    let wrong =
        step.next.step(&config(), LocalEvent::RemoteDone(Ok(FederationWsReply::UsersDelete)));
    assert_eq!(
        wrong.effect,
        LocalEffect::Finish(Err(ApiError::Internal(
            "Unexpected federation reply from h2 for users.get_by_ref".into()
        )))
    );
    let step = unknown(&peer_session(None));
    let down = step.next.step(
        &config(),
        LocalEvent::RemoteDone(Err(FederationRequestError::HostUnavailable { host: "h2:7000".into() })),
    );
    assert_eq!(
        down.effect,
        LocalEffect::Finish(Err(ApiError::Internal(
            "No active federation websocket connection for host h2".into()
        )))
    );
    // It is the joining user who must be known, whoever acts.
    let mut acting = session("alice@h1");
    acting.record_user(Some(user("alice", "h1")));
    assert_eq!(unknown(&acting).effect, lookup);
    let mut without_user = peer_session(Some(bob.clone()));
    without_user.record_user(None);
    assert_eq!(unknown(&without_user).effect, lookup);
    // A user of this host under another name of the host needs no lookup.
    let local = NewServerMembership { user_ref: user_ref("carol", "h1:7000"), ..new_membership };
    let step = LocalFlow::start(
        &config(),
        &session("carol@h1"),
        Operation::MembershipsCreate { new_membership: local.clone() },
    );
    assert_eq!(step.effect, LocalEffect::Ask(StoreQuery::InsertMembership(local)));
}

#[test]
fn a_user_leaves_a_local_server() {
    let s = session("alice@h1");
    let op = Operation::MembershipsDelete {
        server_id: 5,
        user_ref: user_ref("bob", "h2"),
        target_host: None,
    };
    let step = LocalFlow::start(&config(), &s, op);
    assert_eq!(step.effect, LocalEffect::Ask(StoreQuery::MemberRefs(5)));
    let step = answer(
        step,
        StoreAnswer::UserRefs(vec![user_ref("alice", "h1"), user_ref("carol", "h3")]),
    );
    assert_eq!(
        step.effect,
        LocalEffect::Ask(StoreQuery::MemberOf { server_id: 5, user_ref: user_ref("bob", "h2") })
    );
    let step = answer(step, StoreAnswer::Member(member("bob", "h2")));
    assert_eq!(
        step.effect,
        LocalEffect::Ask(StoreQuery::DeleteMembership {
            server_id: 5,
            user_ref: user_ref("bob", "h2")
        })
    );
    let step = answer(step, StoreAnswer::Done);
    assert_eq!(
        step.effect,
        LocalEffect::Tell {
            targets: ServerFanoutTargets {
                local_users: vec![user_ref("alice", "h1"), user_ref("bob", "h2")],
                remote_hosts: vec!["h3".to_string(), "h2".to_string()],
            },
            change: runelink::ops::memberships::deleted(5, &user_ref("bob", "h2")),
            result: OpResult::Done,
        }
    );
}

#[test]
fn a_membership_that_does_not_exist_is_not_deleted() {
    let s = session("alice@h1");
    let op = Operation::MembershipsDelete {
        server_id: 5,
        user_ref: user_ref("alice", "h1"),
        target_host: None,
    };
    let step = answer(LocalFlow::start(&config(), &s, op), StoreAnswer::UserRefs(vec![]));
    let step = step.next.step(&config(), LocalEvent::Answer(Err(ApiError::NotFound)));
    assert_eq!(step.effect, LocalEffect::Finish(Err(ApiError::NotFound)));
    assert_eq!(step.next, LocalFlow::Finished);
}

#[test]
fn operations_without_a_target_start_on_the_store() {
    let s = session("alice@h1");
    let new_user = NewUser { name: "n".into(), host: "h9".into(), role: UserRole::User };
    let step = runelink::ops::users::create(&config(), &s, &new_user);
    assert_eq!(step.effect, LocalEffect::Ask(StoreQuery::InsertUser(new_user.clone())));
    assert_eq!(step.next, LocalFlow::CreatingUser);
    let other = NewUser { name: "m".into(), ..new_user };
    let step = runelink::ops::users::create(&config(), &peer_session(None), &other);
    assert_eq!(step.effect, LocalEffect::Ask(StoreQuery::InsertUser(other)));

    let x = user_ref("x", "h9");
    let step = runelink::ops::users::delete_home_user(&config(), &s, &x);
    assert_eq!(step.effect, LocalEffect::Ask(StoreQuery::UserByRef(x.clone())));
    assert_eq!(step.next, LocalFlow::FindingHomeUser { user_ref: x.clone() });
    let step = answer(step, StoreAnswer::User(user("x", "h9")));
    assert!(matches!(
        &step.effect,
        LocalEffect::Finish(Err(ApiError::BadRequest(m)))
            if m == "Can only delete users from their home server"
    ));

    let step = runelink::ops::memberships::get_by_user(&config(), &peer_session(None), &x);
    assert_eq!(step.effect, LocalEffect::Ask(StoreQuery::MembershipsByUser(x)));
    assert_eq!(step.next, LocalFlow::Reading);
    let step = answer(step, StoreAnswer::Memberships(vec![]));
    assert_eq!(step.effect, LocalEffect::Finish(Ok(OpResult::Memberships(vec![]))));
}

#[test]
fn deleting_the_record_of_a_remote_user_is_refused_unless_its_home_host_asks() {
    let bob = user_ref("bob", "h2");
    let delete = |s: &Session, u: &UserRef| {
        runelink::ops::users::delete_remote_user_record(&config(), s, u)
    };
    let bad = |step: &LocalStep, text: &str| {
        step.next == LocalFlow::Finished
            && matches!(&step.effect, LocalEffect::Finish(Err(ApiError::BadRequest(m))) if m == text)
    };
    let step = delete(&peer_session(Some(bob.clone())), &bob);
    assert_eq!(step.effect, LocalEffect::Ask(StoreQuery::DeleteUser(bob.clone())));
    assert_eq!(step.next, LocalFlow::DeletingUserRecord { user_ref: bob.clone() });

    assert!(refused(
        &delete(&peer_session(None), &bob),
        "User reference required for federated user deletion"
    ));
    assert!(bad(
        &delete(&peer_session(Some(user_ref("eve", "h2"))), &bob),
        "User identity in path does not match user reference in token"
    ));
    assert!(bad(
        &delete(&peer_session(Some(bob.clone())), &user_ref("bob", "h3")),
        "User identity in path does not match user reference in token"
    ));
    let alice = user_ref("alice", "h1");
    assert!(bad(
        &delete(&peer_session(Some(alice.clone())), &alice),
        "Cannot delete local users via federation"
    ));
    assert!(refused(&delete(&session("bob@h2"), &bob), "Federation claims required"));
    let carol = user_ref("carol", "h3");
    assert!(refused(
        &delete(&peer_session(Some(carol.clone())), &carol),
        "Only the home server can delete a user"
    ));
}
