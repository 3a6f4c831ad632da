use runelink::auth::{ClientAuth, FederationAuth, Principal, Session};
use runelink::config::ServerConfig;
use runelink::error::ApiError;
use runelink::ops::fanout::{
    announce, fanout_update, resolve_server_targets, resolve_targets, ServerChange,
    ServerFanoutTargets,
};
use runelink::ops::federation::{request_failed, REQUEST_TIMEOUT_SECS};
use runelink::ops::{
    channels, memberships, messages, servers, users, Dispatch, OpResult, Operation, RemoteCall,
};
use runelink::types::auth::{ClientAccessClaims, FederationClaims};
use runelink::types::channel::{Channel, NewChannel};
use runelink::types::message::{Message, NewMessage};
use runelink::types::server::{
    FullServerMembership, NewServer, NewServerMembership, Server, ServerMember, ServerMembership,
    ServerRole,
};
use runelink::types::user::{User, UserRef, UserRole};
use runelink::types::ws::{
    ClientWsEnvelope, ClientWsUpdate, FederationWsEnvelope, FederationWsReply,
    FederationWsRequest, FederationWsUpdate,
};
use runelink::ws::client_manager::ClientWsManager;
use runelink::ws::error::FederationRequestError;
use runelink::ws::federation_manager::FederationWsManager;
use runelink::ws::routing::RoutingIndex;
use tokio::sync::mpsc::{unbounded_channel, UnboundedReceiver};

fn config() -> ServerConfig {
    ServerConfig {
        local_host_raw: "h1".into(),
        database_url: "db".into(),
        port: 7000,
        key_dir: "/k".into(),
    }
}

fn user_ref(name: &str, host: &str) -> UserRef {
    UserRef::new(name.to_string(), host.to_string())
}

fn user(name: &str, host: &str) -> User {
    User {
        name: name.into(),
        host: host.into(),
        role: UserRole::User,
        created_at: 1,
        updated_at: 2,
        synced_at: None,
    }
}

fn server(id: u128, host: &str) -> Server {
    Server {
        id,
        host: host.into(),
        title: "g".into(),
        description: None,
        created_at: 10,
        updated_at: 20,
    }
}

fn channel(id: u128, server_id: u128) -> Channel {
    Channel {
        id,
        server_id,
        title: "c".into(),
        description: Some("d".into()),
        created_at: 1,
        updated_at: 2,
    }
}

fn message(id: u128, channel_id: u128) -> Message {
    Message {
        id,
        channel_id,
        author: Some(user("alice", "h1")),
        body: "hi".into(),
        created_at: 1,
        updated_at: 2,
    }
}

fn client_session(sub: &str) -> Session {
    Session::new(Principal::Client(ClientAuth {
        claims: ClientAccessClaims {
            iss: "http://h1:7000".into(),
            sub: sub.into(),
            aud: vec!["http://h1:7000".into()],
            exp: 2,
            iat: 1,
            scope: "openid".into(),
            client_id: "c".into(),
        },
    }))
}

fn peer_session(iss: &str, delegated: Option<UserRef>) -> Session {
    Session::new(Principal::Federation(FederationAuth {
        claims: FederationClaims {
            iss: iss.into(),
            sub: iss.into(),
            aud: vec!["http://h1:7000".into()],
            exp: 2,
            iat: 1,
            user_ref: delegated,
        },
    }))
}

fn nobody() -> Session {
    Session { user_ref: None, federation: None, user: None, memberships: Vec::new() }
}

fn received<T>(rx: &mut UnboundedReceiver<T>) -> Vec<T> {
    let mut all = Vec::new();
    while let Ok(x) = rx.try_recv() {
        all.push(x);
    }
    all
}

#[test]
fn an_operation_without_a_target_is_local() {
    let s = client_session("alice@h1");
    assert_eq!(channels::get_all(&config(), &s, &None), Ok(Dispatch::Local));
    assert_eq!(
        messages::create(
            &config(),
            &s,
            1,
            2,
            &NewMessage { author: user_ref("alice", "h1"), body: "b".into() },
            &None
        ),
        Ok(Dispatch::Local)
    );
    assert_eq!(users::get_all(&config(), &nobody(), &None), Ok(Dispatch::Local));
}

#[test]
fn an_operation_on_the_local_host_makes_no_federation_request() {
    let s = client_session("alice@h1");
    for target in ["h1", "h1:7000"] {
        let target = Some(target.to_string());
        assert_eq!(channels::delete(&config(), &s, 1, 2, &target), Ok(Dispatch::Local));
        assert_eq!(servers::get_by_id(&config(), &nobody(), 1, &target), Ok(Dispatch::Local));
        assert_eq!(messages::get_by_id(&config(), &s, 1, 2, 3, &target), Ok(Dispatch::Local));
        assert_eq!(
            memberships::delete(&config(), &s, 1, &user_ref("alice", "h1"), &target),
            Ok(Dispatch::Local)
        );
    }
    assert_eq!(
        users::get_by_ref(&config(), &nobody(), &user_ref("alice", "h1:7000")),
        Ok(Dispatch::Local)
    );
}

#[test]
fn an_operation_on_another_host_is_handed_over_for_the_acting_user() {
    let s = client_session("alice@h1");
    let target = Some("h2".to_string());
    let new_message = NewMessage { author: user_ref("alice", "h1"), body: "b".into() };
    assert_eq!(
        messages::create(&config(), &s, 1, 2, &new_message, &target),
        Ok(Dispatch::Remote(RemoteCall {
            host: "h2".into(),
            delegated_user_ref: Some(user_ref("alice", "h1")),
            request: FederationWsRequest::MessagesCreate {
                server_id: 1,
                channel_id: 2,
                new_message: new_message.clone()
            },
        }))
    );
    assert_eq!(
        channels::create(
            &config(),
            &s,
            1,
            &NewChannel { title: "t".into(), description: None },
            &target
        ),
        Ok(Dispatch::Remote(RemoteCall {
            host: "h2".into(),
            delegated_user_ref: Some(user_ref("alice", "h1")),
            request: FederationWsRequest::ChannelsCreate {
                server_id: 1,
                new_channel: NewChannel { title: "t".into(), description: None }
            },
        }))
    );
    assert_eq!(
        servers::delete(&config(), &s, 5, &target),
        Ok(Dispatch::Remote(RemoteCall {
            host: "h2".into(),
            delegated_user_ref: Some(user_ref("alice", "h1")),
            request: FederationWsRequest::ServersDelete { server_id: 5 },
        }))
    );
}

#[test]
fn a_remote_operation_without_an_acting_user_is_refused() {
    let target = Some("h2".to_string());
    assert_eq!(
        messages::get_all(&config(), &nobody(), &target),
        Err(ApiError::Internal("User reference required for federated message fetching".into()))
    );
    assert_eq!(
        channels::delete(&config(), &nobody(), 1, 2, &target),
        Err(ApiError::Internal("User reference required for federated channel deletion".into()))
    );
    assert_eq!(
        servers::create(
            &config(),
            &nobody(),
            &NewServer { title: "t".into(), description: None },
            &target
        ),
        Err(ApiError::Internal("User reference required for federated server creation".into()))
    );
    assert_eq!(
        servers::get_with_channels(&config(), &nobody(), 1, &target),
        Err(ApiError::Internal("User reference required for federated server fetching".into()))
    );
}

#[test]
fn open_reads_are_handed_over_without_a_user() {
    let target = Some("h2:9000".to_string());
    let s = client_session("alice@h1");
    assert_eq!(
        users::get_all(&config(), &s, &target),
        Ok(Dispatch::Remote(RemoteCall {
            host: "h2:9000".into(),
            delegated_user_ref: None,
            request: FederationWsRequest::UsersGetAll,
        }))
    );
    assert_eq!(
        users::get_by_ref(&config(), &nobody(), &user_ref("bob", "h2")),
        Ok(Dispatch::Remote(RemoteCall {
            host: "h2".into(),
            delegated_user_ref: None,
            request: FederationWsRequest::UsersGetByRef { user_ref: user_ref("bob", "h2") },
        }))
    );
    assert!(matches!(
        users::get_associated_hosts(&config(), &nobody(), &user_ref("bob", "h2"), &target),
        Ok(Dispatch::Remote(RemoteCall { delegated_user_ref: None, .. }))
    ));
    assert!(matches!(
        memberships::get_members_by_server(&config(), &nobody(), 1, &target),
        Ok(Dispatch::Remote(RemoteCall { delegated_user_ref: None, .. }))
    ));
    assert!(matches!(
        memberships::get_member_by_user_and_server(
            &config(),
            &nobody(),
            1,
            &user_ref("bob", "h2"),
            &target
        ),
        Ok(Dispatch::Remote(RemoteCall { delegated_user_ref: None, .. }))
    ));
    assert!(matches!(
        servers::get_all(&config(), &nobody(), &target),
        Ok(Dispatch::Remote(RemoteCall { delegated_user_ref: None, .. }))
    ));
    assert!(matches!(
        servers::get_by_id(&config(), &nobody(), 1, &target),
        Ok(Dispatch::Remote(RemoteCall { delegated_user_ref: None, .. }))
    ));
}

#[test]
fn a_membership_is_created_where_its_server_lives() {
    let s = client_session("alice@h1");
    let on_h2 = NewServerMembership {
        user_ref: user_ref("alice", "h1"),
        server_id: 9,
        server_host: "h2".into(),
        role: ServerRole::Member,
    };
    assert_eq!(
        memberships::create(&config(), &s, &on_h2),
        Ok(Dispatch::Remote(RemoteCall {
            host: "h2".into(),
            delegated_user_ref: Some(user_ref("alice", "h1")),
            request: FederationWsRequest::MembershipsCreate {
                server_id: 9,
                new_membership: on_h2.clone()
            },
        }))
    );
    let foreign_user = NewServerMembership { user_ref: user_ref("bob", "h2"), ..on_h2.clone() };
    assert_eq!(
        memberships::create(&config(), &s, &foreign_user),
        Err(ApiError::BadRequest("User host in membership does not match local host".into()))
    );
    let here = NewServerMembership { server_host: "h1:7000".into(), ..foreign_user };
    assert_eq!(memberships::create(&config(), &s, &here), Ok(Dispatch::Local));
    assert!(memberships::is_for_remote_user(&config(), &here));
    assert!(!memberships::is_for_remote_user(&config(), &on_h2));
    assert_eq!(
        memberships::remote_user_lookup(&here),
        RemoteCall {
            host: "h2".into(),
            delegated_user_ref: None,
            request: FederationWsRequest::UsersGetByRef { user_ref: user_ref("bob", "h2") },
        }
    );
}

#[test]
fn only_the_acting_user_leaves_a_server() {
    let target = Some("h2".to_string());
    assert_eq!(
        memberships::delete(&config(), &nobody(), 1, &user_ref("alice", "h1"), &None),
        Err(ApiError::AuthError("User reference required for leaving server".into()))
    );
    assert_eq!(
        memberships::delete(&config(), &client_session("bob@h1"), 1, &user_ref("alice", "h1"), &None),
        Err(ApiError::BadRequest(
            "User identity in path does not match authenticated user".into()
        ))
    );
    assert_eq!(
        memberships::delete(
            &config(),
            &client_session("alice@h1"),
            1,
            &user_ref("alice", "h1"),
            &target
        ),
        Ok(Dispatch::Remote(RemoteCall {
            host: "h2".into(),
            delegated_user_ref: Some(user_ref("alice", "h1")),
            request: FederationWsRequest::MembershipsDelete {
                server_id: 1,
                user_ref: user_ref("alice", "h1")
            },
        }))
    );
}

#[test]
fn a_reply_is_read_as_the_result_of_its_operation() {
    let op = Operation::MessagesCreate {
        server_id: 1,
        channel_id: 2,
        new_message: NewMessage { author: user_ref("alice", "h1"), body: "b".into() },
        target_host: Some("h2".into()),
    };
    assert_eq!(
        op.read_reply("h2", FederationWsReply::MessagesCreate(message(3, 2))),
        Ok(OpResult::Message(message(3, 2)))
    );
    assert_eq!(
        op.read_reply("h2", FederationWsReply::MessagesDelete),
        Err(ApiError::Internal("Unexpected federation reply from h2 for messages.create".into()))
    );
    assert_eq!(
        op.read_reply("h2", FederationWsReply::MessagesGetById(message(3, 2))),
        Err(ApiError::Internal("Unexpected federation reply from h2 for messages.create".into()))
    );
    let list = Operation::MembershipsGetMembersByServer { server_id: 1, target_host: None };
    assert_eq!(
        list.read_reply("h3", FederationWsReply::MembershipsGetMembersByServer(Vec::new())),
        Ok(OpResult::Members(Vec::new()))
    );
    assert_eq!(
        list.read_reply("h3", FederationWsReply::ServersDelete),
        Err(ApiError::Internal(
            "Unexpected federation reply from h3 for memberships.get_members_by_server".into()
        ))
    );
    let local_only = Operation::UsersDelete { user_ref: user_ref("a", "h") };
    assert!(local_only.read_reply("h3", FederationWsReply::UsersDelete).is_err());
    assert_eq!(local_only.name_text(), "users.delete");
    assert_eq!(REQUEST_TIMEOUT_SECS, 10);
    assert_eq!(
        request_failed(FederationRequestError::ChannelClosed { request_id: 1 }, "h2"),
        ApiError::Internal("Federation websocket reply channel closed for host h2".into())
    );
}

#[test]
fn forged_paths_are_refused_as_unauthorized() {
    assert_eq!(channels::check_in_server(&channel(2, 1), 1), Ok(()));
    assert_eq!(
        channels::check_in_server(&channel(2, 1), 9),
        Err(ApiError::AuthError("Channel not found in specified server".into()))
    );
    assert_eq!(messages::check_in_channel(&message(3, 2), 2), Ok(()));
    assert_eq!(
        messages::check_in_channel(&message(3, 2), 9),
        Err(ApiError::AuthError("Message not found in specified channel".into()))
    );
    assert_eq!(
        messages::check_channel_in_server(&channel(2, 1), 9),
        Err(ApiError::AuthError("Message not found in specified server".into()))
    );
    assert_eq!(messages::check_path(&message(3, 2), &channel(2, 1), 2, 1), Ok(()));
    assert_eq!(
        messages::check_path(&message(3, 2), &channel(2, 1), 8, 9),
        Err(ApiError::AuthError("Message not found in specified channel".into()))
    );
    assert_eq!(
        messages::check_path(&message(3, 2), &channel(2, 1), 2, 9),
        Err(ApiError::AuthError("Message not found in specified server".into()))
    );
    assert_eq!(
        messages::check_target_channel(&channel(2, 1), 9),
        Err(ApiError::AuthError("Channel not found in specified server".into()))
    );
}

#[test]
fn changes_are_told_to_clients_and_to_peers() {
    assert_eq!(
        channels::created(&channel(2, 1)),
        ServerChange {
            server_id: 1,
            client_update: ClientWsUpdate::ChannelUpserted(channel(2, 1)),
            federation_update: FederationWsUpdate::ChannelUpserted(channel(2, 1)),
        }
    );
    assert_eq!(
        channels::deleted(1, 2).client_update,
        ClientWsUpdate::ChannelDeleted { server_id: 1, channel_id: 2 }
    );
    assert_eq!(
        messages::created(1, &message(3, 2)).federation_update,
        FederationWsUpdate::MessageUpserted(message(3, 2))
    );
    assert_eq!(
        messages::deleted(1, 2, 3).federation_update,
        FederationWsUpdate::MessageDeleted { server_id: 1, channel_id: 2, message_id: 3 }
    );
    assert_eq!(servers::created(&server(1, "h1")).server_id, 1);
    assert_eq!(
        servers::deleted(1).client_update,
        ClientWsUpdate::ServerDeleted { server_id: 1 }
    );
    assert_eq!(users::created(&user("a", "h1")), ClientWsUpdate::UserUpserted(user("a", "h1")));
    assert_eq!(
        users::deleted(&user_ref("a", "h1")),
        ClientWsUpdate::UserDeleted { user_ref: user_ref("a", "h1") }
    );
    assert_eq!(
        users::deleted_at_home(&user_ref("a", "h1")),
        FederationWsUpdate::RemoteUserDeleted { user_ref: user_ref("a", "h1") }
    );
    assert_eq!(
        memberships::deleted(1, &user_ref("a", "h1")).client_update,
        ClientWsUpdate::MembershipDeleted { server_id: 1, user_ref: user_ref("a", "h1") }
    );
}

#[test]
fn the_creator_of_a_server_becomes_its_admin() {
    let s = client_session("alice@h1");
    assert_eq!(
        servers::creator_membership(&s, &server(5, "h1")),
        Ok(NewServerMembership {
            user_ref: user_ref("alice", "h1"),
            server_id: 5,
            server_host: "h1".into(),
            role: ServerRole::Admin,
        })
    );
    assert_eq!(
        servers::creator_membership(&nobody(), &server(5, "h1")),
        Err(ApiError::Internal("Session missing user identity for server creation".into()))
    );
    assert_eq!(
        servers::creator_mirror(&server(5, "h2"), user_ref("alice", "h1")),
        ServerMembership {
            server: server(5, "h2"),
            user_ref: user_ref("alice", "h1"),
            role: ServerRole::Admin,
            joined_at: 10,
            updated_at: 20,
            synced_at: Some(10),
        }
    );
    let with = servers::with_channels(server(5, "h1"), vec![channel(2, 5)]);
    assert_eq!(with.server, server(5, "h1"));
    assert_eq!(with.channels, vec![channel(2, 5)]);
}

#[test]
fn a_written_membership_joins_membership_and_member() {
    let membership = ServerMembership {
        server: server(5, "h1"),
        user_ref: user_ref("bob", "h2"),
        role: ServerRole::Member,
        joined_at: 3,
        updated_at: 4,
        synced_at: None,
    };
    let member = ServerMember {
        user: user("bob", "h2"),
        role: ServerRole::Admin,
        joined_at: 30,
        updated_at: 40,
    };
    let full = memberships::written_membership(membership.clone(), member.clone());
    assert_eq!(
        full,
        FullServerMembership {
            server: server(5, "h1"),
            user: user("bob", "h2"),
            role: ServerRole::Member,
            joined_at: 3,
            updated_at: 4,
            synced_at: None,
        }
    );
    assert_eq!(memberships::created(&full).server_id, 5);
    assert_eq!(ServerMembership::from(full.clone()), membership);
    assert_eq!(membership.clone().as_full(user("bob", "h2")), full);
    assert_eq!(
        ServerMember::from(full),
        ServerMember { user: user("bob", "h2"), role: ServerRole::Member, joined_at: 3, updated_at: 4 }
    );
}

#[test]
fn a_membership_made_full_and_brought_back_is_the_same() {
    let membership = ServerMembership {
        server: server(5, "h1"),
        user_ref: user_ref("someone", "else"),
        role: ServerRole::Admin,
        joined_at: 3,
        updated_at: 4,
        synced_at: Some(9),
    };
    let back = ServerMembership::from(membership.clone().as_full(user("bob", "h2")));
    assert_eq!(back, ServerMembership { user_ref: user_ref("bob", "h2"), ..membership });
}

#[test]
fn the_deletion_of_a_home_user_is_checked() {
    assert_eq!(users::check_home_user(&config(), &user("alice", "h1")), Ok(()));
    assert_eq!(
        users::check_home_user(&config(), &user("bob", "h2")),
        Err(ApiError::BadRequest("Can only delete users from their home server".into()))
    );
    assert_eq!(users::check_home_user(&config(), &user("alice", "h1:7000")), Ok(()));
    assert_eq!(
        users::check_home_user(&config(), &user("alice", "h1:7001")),
        Err(ApiError::BadRequest("Can only delete users from their home server".into()))
    );
}

#[test]
fn the_deletion_of_a_remote_user_record_is_checked() {
    let bob = user_ref("bob", "h2");
    let check = |s: &Session, u: &UserRef| users::check_remote_user_deletion(&config(), s, u);
    assert_eq!(check(&peer_session("http://h2:7000", Some(bob.clone())), &bob), Ok(()));
    assert_eq!(
        check(&peer_session("http://h2:7000", None), &bob),
        Err(ApiError::AuthError("User reference required for federated user deletion".into()))
    );
    assert_eq!(
        check(&peer_session("http://h2:7000", Some(user_ref("eve", "h2"))), &bob),
        Err(ApiError::BadRequest(
            "User identity in path does not match user reference in token".into()
        ))
    );
    assert_eq!(
        check(
            &peer_session("http://h2:7000", Some(user_ref("alice", "h1"))),
            &user_ref("alice", "h1")
        ),
        Err(ApiError::BadRequest("Cannot delete local users via federation".into()))
    );
    assert_eq!(
        check(&client_session("bob@h2"), &bob),
        Err(ApiError::AuthError("Federation claims required".into()))
    );
    assert_eq!(
        check(&peer_session("http://h3:7000", Some(bob.clone())), &bob),
        Err(ApiError::AuthError("Only the home server can delete a user".into()))
    );
}

#[test]
fn the_routing_index_finds_local_users_and_remote_hosts() {
    let index = RoutingIndex::new(config());
    let members = vec![
        user_ref("zed", "h3"),
        user_ref("alice", "h1"),
        user_ref("bob", "h2"),
        user_ref("carol", "h3"),
        user_ref("dave", "h1"),
        user_ref("erin", "h1:7000"),
    ];
    assert_eq!(
        index.hosts_for_server(&members),
        vec!["h2".to_string(), "h3".to_string()]
    );
    assert_eq!(
        index.users_for_local_server(&members),
        vec![user_ref("alice", "h1"), user_ref("dave", "h1"), user_ref("erin", "h1:7000")]
    );
    assert!(index.hosts_for_server(&Vec::new()).is_empty());
    assert!(index.users_for_local_server(&Vec::new()).is_empty());
    let targets = resolve_server_targets(&index, &members);
    assert_eq!(targets.local_users.len(), 3);
    assert_eq!(targets.remote_hosts.len(), 2);
    assert_eq!(resolve_targets(&config(), &members), targets);
    assert_eq!(ServerFanoutTargets::default().local_users.len(), 0);
}

#[test]
fn a_leaving_user_and_its_host_hear_of_it() {
    let targets = ServerFanoutTargets {
        local_users: vec![user_ref("alice", "h1")],
        remote_hosts: vec!["h3".to_string()],
    };
    let t = memberships::leave_targets(&config(), targets.clone(), &user_ref("alice", "h1"));
    assert_eq!(t, targets);
    let t = memberships::leave_targets(&config(), targets.clone(), &user_ref("bob", "h2"));
    assert_eq!(t.local_users, vec![user_ref("alice", "h1"), user_ref("bob", "h2")]);
    assert_eq!(t.remote_hosts, vec!["h3".to_string(), "h2".to_string()]);
    let t = memberships::leave_targets(&config(), targets, &user_ref("dave", "h1"));
    assert_eq!(t.local_users, vec![user_ref("alice", "h1"), user_ref("dave", "h1")]);
    assert_eq!(t.remote_hosts, vec!["h3".to_string()]);
}

#[test]
fn a_change_reaches_each_connection_of_each_local_member_and_each_remote_host_once() {
    let mut clients = ClientWsManager::new();
    let mut peers = FederationWsManager::new();
    let (a1, mut alice_1) = unbounded_channel();
    let (a2, mut alice_2) = unbounded_channel();
    let (b, mut bob) = unbounded_channel();
    let (m, mut mallory) = unbounded_channel();
    let c1 = clients.register_connection(a1);
    let c2 = clients.register_connection(a2);
    let c3 = clients.register_connection(b);
    let c4 = clients.register_connection(m);
    clients.authenticate_connection(c1, user_ref("alice", "h1"));
    clients.authenticate_connection(c2, user_ref("alice", "h1"));
    clients.authenticate_connection(c3, user_ref("bob", "h1"));
    clients.authenticate_connection(c4, user_ref("mallory", "h1"));
    let (peer_b, mut heard_b) = unbounded_channel();
    let (peer_c, mut heard_c) = unbounded_channel();
    let conn_b = peers.register_connection(peer_b);
    let conn_c = peers.register_connection(peer_c);
    peers.authenticate_connection(conn_b, "h2".to_string());
    peers.authenticate_connection(conn_c, "h3".to_string());
    let members = vec![
        user_ref("alice", "h1"),
        user_ref("bob", "h1"),
        user_ref("carol", "h2"),
        user_ref("dan", "h2"),
        user_ref("erin", "h4"),
    ];
    let targets = resolve_targets(&config(), &members);
    let change = channels::created(&channel(2, 1));
    fanout_update(
        &mut clients,
        &mut peers,
        targets,
        change.client_update.clone(),
        change.federation_update.clone(),
    );
    for rx in [&mut alice_1, &mut alice_2, &mut bob] {
        let got = received(rx);
        assert_eq!(got.len(), 1);
        assert!(matches!(
            &got[0],
            ClientWsEnvelope::Update { update, .. } if *update == change.client_update
        ));
    }
    assert_eq!(received(&mut mallory).len(), 0);
    let got = received(&mut heard_b);
    assert_eq!(got.len(), 1);
    assert!(matches!(
        &got[0],
        FederationWsEnvelope::Update { update, .. } if *update == change.federation_update
    ));
    assert_eq!(received(&mut heard_c).len(), 0);
}

#[test]
fn an_announcement_reaches_every_client_and_the_named_hosts() {
    let mut clients = ClientWsManager::new();
    let mut peers = FederationWsManager::new();
    let (a, mut alice) = unbounded_channel();
    let (g, mut guest) = unbounded_channel();
    let c1 = clients.register_connection(a);
    clients.register_connection(g);
    clients.authenticate_connection(c1, user_ref("alice", "h1"));
    let (peer_b, mut heard_b) = unbounded_channel();
    let (peer_c, mut heard_c) = unbounded_channel();
    let conn_b = peers.register_connection(peer_b);
    let conn_c = peers.register_connection(peer_c);
    peers.authenticate_connection(conn_b, "h2".to_string());
    peers.authenticate_connection(conn_c, "h3".to_string());
    announce(
        &mut clients,
        &mut peers,
        users::deleted(&user_ref("zed", "h1")),
        &vec!["h3".to_string()],
        Some(users::deleted_at_home(&user_ref("zed", "h1"))),
    );
    assert_eq!(received(&mut alice).len(), 1);
    assert_eq!(received(&mut guest).len(), 1);
    assert_eq!(received(&mut heard_b).len(), 0);
    assert_eq!(received(&mut heard_c).len(), 1);
    announce(&mut clients, &mut peers, users::created(&user("n", "h1")), &vec!["h3".to_string()], None);
    assert_eq!(received(&mut alice).len(), 1);
    assert_eq!(received(&mut heard_c).len(), 0);
}
