use runelink::auth::{ClientAuth, FederationAuth, Principal};
use runelink::cli::context::{expiry, needs_refresh};
use runelink::cli::select::{
    get_channel_selection_with_inputs, move_selection, non_member_servers, Movement,
    SelectionPlan,
};
use runelink::cli::target_host_for;
use runelink::config::ServerConfig;
use runelink::error::{ApiError, ClientError};
use runelink::queries::memberships::{
    check_deleted, delete_local, delete_remote, get_by_user, get_local_user_refs_by_server,
    get_member_by_user_and_server, get_members_by_server, ServerMemberRow, ServerMembershipRow,
};
use runelink::requests;
use runelink::requests::generic::{authorization, check_status, unreadable_body};
use runelink::types::auth::{ClientAccessClaims, FederationClaims};
use runelink::types::message::Message;
use runelink::types::server::{
    NewServerMembership, Server, ServerMember, ServerMembership, ServerRole,
};
use runelink::types::user::{User, UserRef, UserRole};
use runelink::types::ws::{ClientWsEnvelope, FederationWsEnvelope};
use runelink::ws::client_manager::ClientWsManager;
use runelink::ws::federation_manager::FederationWsManager;
use runelink::ws::socket_loops::{
    after_incoming, after_outbound, open_client_socket, open_federation_socket, recv_event,
    FederationIncomingEvent, FrameKind, IncomingStep, LoopStep, Outbound, SocketReceived,
};
use tokio::sync::mpsc::unbounded_channel;

fn user_ref(name: &str, host: &str) -> UserRef {
    UserRef::new(name.to_string(), host.to_string())
}

fn user(name: &str, host: &str) -> User {
    User {
        name: name.into(),
        host: host.into(),
        role: UserRole::User,
        created_at: 1,
        updated_at: 2,
        synced_at: None,
    }
}

fn server(id: u128) -> Server {
    Server { id, host: "h1".into(), title: "g".into(), description: None, created_at: 10, updated_at: 20 }
}

const SID: u128 = 0x0123456789abcdef0123456789abcdef;
const SID_TEXT: &str = "01234567-89ab-cdef-0123-456789abcdef";

#[test]
fn requests_go_to_the_urls_of_the_api() {
    let base = "http://h1:7000";
    assert_eq!(
        requests::channels::create(base, SID, None),
        format!("{base}/servers/{SID_TEXT}/channels")
    );
    assert_eq!(
        requests::channels::create(base, SID, Some("h2")),
        format!("{base}/servers/{SID_TEXT}/channels?target_host=h2")
    );
    assert_eq!(requests::channels::fetch_all(base, Some("h2")), format!("{base}/channels?target_host=h2"));
    assert_eq!(
        requests::channels::fetch_by_id(base, SID, 1, None),
        format!("{base}/servers/{SID_TEXT}/channels/00000000-0000-0000-0000-000000000001")
    );
    assert_eq!(
        requests::channels::delete(base, 2, 1, None),
        requests::channels::fetch_by_id(base, 2, 1, None)
    );
    assert_eq!(
        requests::channels::fetch_by_server(base, SID, None),
        format!("{base}/servers/{SID_TEXT}/channels")
    );
    assert_eq!(
        requests::messages::create(base, SID, 1, Some("h2:9")),
        format!(
            "{base}/servers/{SID_TEXT}/channels/00000000-0000-0000-0000-000000000001/messages?target_host=h2:9"
        )
    );
    assert_eq!(requests::messages::fetch_all(base, None), format!("{base}/messages"));
    assert_eq!(
        requests::messages::fetch_by_server(base, SID, None),
        format!("{base}/servers/{SID_TEXT}/messages")
    );
    assert_eq!(
        requests::messages::fetch_by_channel(base, SID, 1, None),
        requests::messages::create(base, SID, 1, None)
    );
    assert_eq!(
        requests::messages::fetch_by_id(base, 0, 0, 255, None),
        format!(
            "{base}/servers/{z}/channels/{z}/messages/00000000-0000-0000-0000-0000000000ff",
            z = "00000000-0000-0000-0000-000000000000"
        )
    );
    assert_eq!(
        requests::messages::delete(base, 0, 0, 255, Some("x")),
        format!("{}?target_host=x", requests::messages::fetch_by_id(base, 0, 0, 255, None))
    );
    assert_eq!(
        requests::memberships::fetch_by_user(base, &user_ref("alice", "h1")),
        format!("{base}/users/h1/alice/servers")
    );
    assert_eq!(
        requests::memberships::fetch_members_by_server(base, SID, None),
        format!("{base}/servers/{SID_TEXT}/users")
    );
    assert_eq!(
        requests::memberships::fetch_member_by_user_and_server(
            base,
            SID,
            &user_ref("bob", "h2"),
            Some("h2")
        ),
        format!("{base}/servers/{SID_TEXT}/users/h2/bob?target_host=h2")
    );
    assert_eq!(
        requests::memberships::create(
            base,
            &NewServerMembership {
                user_ref: user_ref("alice", "h1"),
                server_id: SID,
                server_host: "h2".into(),
                role: ServerRole::Member,
            }
        ),
        format!("{base}/servers/{SID_TEXT}/users")
    );
    assert_eq!(
        requests::memberships::delete(base, SID, &user_ref("bob", "h2"), None),
        format!("{base}/servers/{SID_TEXT}/users/h2/bob")
    );
    assert_eq!(requests::servers::create(base, Some("h2")), format!("{base}/servers?target_host=h2"));
    assert_eq!(requests::servers::fetch_all(base, None), format!("{base}/servers"));
    assert_eq!(requests::servers::fetch_by_id(base, SID, None), format!("{base}/servers/{SID_TEXT}"));
    assert_eq!(
        requests::servers::fetch_with_channels(base, SID, None),
        format!("{base}/servers/{SID_TEXT}/with_channels")
    );
    assert_eq!(
        requests::servers::delete(base, SID, Some("h2")),
        format!("{base}/servers/{SID_TEXT}?target_host=h2")
    );
    assert_eq!(requests::users::create(base), format!("{base}/users"));
    assert_eq!(requests::users::fetch_all(base, Some("h2")), format!("{base}/users?target_host=h2"));
    assert_eq!(
        requests::users::fetch_by_ref(base, &user_ref("bob", "h2")),
        format!("{base}/users/h2/bob")
    );
    assert_eq!(
        requests::users::delete(base, &user_ref("bob", "h2")),
        format!("{base}/users/h2/bob")
    );
    assert_eq!(
        requests::users::fetch_associated_hosts(base, &user_ref("bob", "h2"), None),
        format!("{base}/users/h2/bob/hosts")
    );
}

#[test]
fn the_servers_of_a_user_are_those_of_its_memberships() {
    let membership = |id: u128| ServerMembership {
        server: server(id),
        user_ref: user_ref("alice", "h1"),
        role: ServerRole::Member,
        joined_at: 0,
        updated_at: 0,
        synced_at: None,
    };
    assert_eq!(
        requests::servers::fetch_by_user(vec![membership(3), membership(1)]),
        vec![server(3), server(1)]
    );
    assert!(requests::servers::fetch_by_user(Vec::new()).is_empty());
}

#[test]
fn a_status_outside_the_200s_is_an_error() {
    assert_eq!(check_status(200, "b".into()), Ok("b".to_string()));
    assert_eq!(check_status(299, "b".into()), Ok("b".to_string()));
    assert_eq!(check_status(199, "b".into()), Err(ClientError::Status(199, "b".into())));
    assert_eq!(check_status(300, "b".into()), Err(ClientError::Status(300, "b".into())));
    assert_eq!(check_status(404, "gone".into()), Err(ClientError::Status(404, "gone".into())));
    assert_eq!(authorization("t"), "Bearer t");
    assert_eq!(unreadable_body("eof"), "Failed to get error message body: eof");
    assert_eq!(ClientError::Status(500, "x".into()).to_string(), "status 500: x");
    assert_eq!(ClientError::Transport("down".into()).to_string(), "down");
}

#[test]
fn the_choice_in_a_list_stays_within_the_list() {
    assert_eq!(move_selection(0, 3, Movement::Up), 0);
    assert_eq!(move_selection(2, 3, Movement::Up), 1);
    assert_eq!(move_selection(0, 3, Movement::Down), 1);
    assert_eq!(move_selection(2, 3, Movement::Down), 2);
    assert_eq!(move_selection(1, 3, Movement::First), 0);
    assert_eq!(move_selection(1, 3, Movement::Last), 2);
    assert_eq!(move_selection(0, 1, Movement::Down), 0);
    assert_eq!(move_selection(0, 1, Movement::Last), 0);
}

#[test]
fn servers_already_joined_are_not_on_offer() {
    let all = vec![server(1), server(2), server(3)];
    assert_eq!(non_member_servers(&all, &vec![server(2)]), vec![server(1), server(3)]);
    assert_eq!(non_member_servers(&all, &Vec::new()), all);
    assert!(non_member_servers(&all, &all).is_empty());
    assert!(non_member_servers(&Vec::new(), &all).is_empty());
}

#[test]
fn what_the_command_line_named_decides_what_is_chosen() {
    assert_eq!(
        get_channel_selection_with_inputs(Some(2), Some(1)),
        SelectionPlan::Done { server_id: 1, channel_id: 2 }
    );
    assert_eq!(get_channel_selection_with_inputs(Some(2), None), SelectionPlan::MissingServer);
    assert_eq!(
        get_channel_selection_with_inputs(None, Some(1)),
        SelectionPlan::Channel { server_id: 1 }
    );
    assert_eq!(get_channel_selection_with_inputs(None, None), SelectionPlan::ServerAndChannel);
    assert_eq!(target_host_for("h2", "h1"), Some("h2"));
    assert_eq!(target_host_for("h1", "h1"), None);
    assert_eq!(target_host_for("h1:7000", "h1"), Some("h1:7000"));
}

#[test]
fn a_token_is_renewed_a_minute_before_it_expires() {
    assert!(needs_refresh(false, None, 0));
    assert!(needs_refresh(false, Some(1_000_000), 0));
    assert!(!needs_refresh(true, None, 0));
    assert!(!needs_refresh(true, Some(161), 100));
    assert!(needs_refresh(true, Some(160), 100));
    assert!(needs_refresh(true, Some(99), 100));
    assert!(needs_refresh(true, Some(i64::MAX), i64::MAX - 10));
    assert_eq!(expiry(100, 3600), 3700);
}

#[test]
fn rows_are_read_into_members() {
    let row = |u: Option<User>| ServerMemberRow {
        user: u,
        role: ServerRole::Admin,
        created_at: 3,
        updated_at: 4,
    };
    let alice = ServerMember { user: user("alice", "h1"), role: ServerRole::Admin, joined_at: 3, updated_at: 4 };
    assert_eq!(ServerMember::try_from(row(Some(user("alice", "h1")))), Ok(alice.clone()));
    assert_eq!(ServerMember::try_from(row(None)), Err(ApiError::Unknown("User is null".into())));
    assert_eq!(
        get_members_by_server(&vec![row(Some(user("alice", "h1"))), row(Some(user("bob", "h2")))])
            .map(|m| m.len()),
        Ok(2)
    );
    assert_eq!(
        get_members_by_server(&vec![row(Some(user("alice", "h1"))), row(None)]),
        Err(ApiError::Unknown("User is null".into()))
    );
    assert_eq!(get_members_by_server(&Vec::new()), Ok(Vec::new()));
    assert_eq!(
        get_local_user_refs_by_server(&vec![alice.clone()]),
        vec![user_ref("alice", "h1")]
    );
    assert_eq!(
        get_member_by_user_and_server(Ok(alice.clone()), None),
        Some(Ok(alice.clone()))
    );
    assert_eq!(
        get_member_by_user_and_server(Err(ApiError::NotFound), Some(Ok(alice.clone()))),
        Some(Ok(alice))
    );
    assert_eq!(get_member_by_user_and_server(Err(ApiError::NotFound), None), None);
    assert_eq!(
        get_member_by_user_and_server(Err(ApiError::NotFound), Some(Err(ApiError::NotFound))),
        Some(Err(ApiError::NotFound))
    );
    assert_eq!(check_deleted(1), Ok(()));
    assert_eq!(check_deleted(0), Err(ApiError::NotFound));
    assert_eq!(delete_local(0), Err(ApiError::NotFound));
    assert_eq!(delete_remote(2), Ok(()));
}

#[test]
fn rows_are_read_into_memberships() {
    let config = ServerConfig {
        local_host_raw: "h1".into(),
        database_url: "db".into(),
        port: 7001,
        key_dir: "/k".into(),
    };
    let row = ServerMembershipRow {
        server_id: Some(5),
        server_title: Some("g".into()),
        server_description: None,
        server_host_from_db: None,
        server_created_at: Some(1),
        server_updated_at: Some(2),
        user_name: Some("alice".into()),
        user_host: Some("h1".into()),
        role: Some(ServerRole::Member),
        created_at: Some(3),
        updated_at: Some(4),
        synced_at: None,
    };
    assert_eq!(
        row.clone().try_into_server_membership(&config),
        Ok(ServerMembership {
            server: Server {
                id: 5,
                host: "h1:7001".into(),
                title: "g".into(),
                description: None,
                created_at: 1,
                updated_at: 2,
            },
            user_ref: user_ref("alice", "h1"),
            role: ServerRole::Member,
            joined_at: 3,
            updated_at: 4,
            synced_at: None,
        })
    );
    let mirrored = ServerMembershipRow {
        server_host_from_db: Some("h2".into()),
        synced_at: Some(9),
        server_description: Some("d".into()),
        ..row.clone()
    };
    let m = mirrored.try_into_server_membership(&config).unwrap();
    assert_eq!(m.server.host, "h2");
    assert_eq!(m.synced_at, Some(9));
    assert_eq!(m.server.description, Some("d".to_string()));
    let broken = [
        ServerMembershipRow { server_id: None, ..row.clone() },
        ServerMembershipRow { server_title: None, ..row.clone() },
        ServerMembershipRow { user_host: None, ..row.clone() },
        ServerMembershipRow { role: None, ..row.clone() },
        ServerMembershipRow { updated_at: None, ..row },
    ];
    for b in broken {
        assert_eq!(
            b.try_into_server_membership(&config),
            Err(ApiError::Unknown("Sqlx conversion error".into()))
        );
    }
}

#[test]
fn memberships_of_a_user_are_read_in_order() {
    let config = ServerConfig {
        local_host_raw: "h1".into(),
        database_url: "db".into(),
        port: 7000,
        key_dir: "/k".into(),
    };
    let native = ServerMembershipRow {
        server_id: Some(5),
        server_title: Some("a".into()),
        server_description: None,
        server_host_from_db: None,
        server_created_at: Some(1),
        server_updated_at: Some(2),
        user_name: Some("alice".into()),
        user_host: Some("h1".into()),
        role: Some(ServerRole::Admin),
        created_at: Some(3),
        updated_at: Some(4),
        synced_at: None,
    };
    let mirrored = ServerMembershipRow {
        server_id: Some(6),
        server_title: Some("b".into()),
        server_host_from_db: Some("h2".into()),
        role: Some(ServerRole::Member),
        synced_at: Some(9),
        ..native.clone()
    };
    assert_eq!(get_by_user(&Vec::new(), &config), Ok(Vec::new()));
    let read = get_by_user(&vec![native.clone(), mirrored.clone()], &config).unwrap();
    assert_eq!(read.len(), 2);
    assert_eq!((read[0].server.id, read[0].server.host.as_str()), (5, "h1"));
    assert_eq!(read[0].role, ServerRole::Admin);
    assert_eq!(read[0].synced_at, None);
    assert_eq!((read[1].server.id, read[1].server.host.as_str()), (6, "h2"));
    assert_eq!(read[1].role, ServerRole::Member);
    assert_eq!(read[1].synced_at, Some(9));
    assert_eq!(read[1].user_ref, user_ref("alice", "h1"));
    let broken = ServerMembershipRow { server_created_at: None, ..mirrored };
    assert_eq!(
        get_by_user(&vec![native, broken], &config),
        Err(ApiError::Unknown("Sqlx conversion error".into()))
    );
}

#[test]
fn frames_are_told_apart() {
    let frame = |kind: FrameKind| SocketReceived::Message { kind, text: "t".into() };
    assert_eq!(recv_event(frame(FrameKind::Text)), FederationIncomingEvent::Text("t".into()));
    assert_eq!(recv_event(frame(FrameKind::Close)), FederationIncomingEvent::Closed);
    for kind in [FrameKind::Binary, FrameKind::Ping, FrameKind::Pong, FrameKind::Frame] {
        assert_eq!(recv_event(frame(kind)), FederationIncomingEvent::Ignored);
    }
    assert_eq!(recv_event(SocketReceived::End), FederationIncomingEvent::Closed);
    assert_eq!(
        recv_event(SocketReceived::Failed("reset".into())),
        FederationIncomingEvent::Error("reset".into())
    );
    assert_eq!(
        after_incoming(FederationIncomingEvent::Text("t".into())),
        IncomingStep::Handle("t".into())
    );
    assert_eq!(after_incoming(FederationIncomingEvent::Ignored), IncomingStep::Continue);
    assert_eq!(after_incoming(FederationIncomingEvent::Closed), IncomingStep::Stop);
    assert_eq!(after_incoming(FederationIncomingEvent::Error("e".into())), IncomingStep::Stop);
    assert_eq!(after_outbound(Outbound::Sent), LoopStep::Continue);
    assert_eq!(after_outbound(Outbound::NotSerialized), LoopStep::Continue);
    assert_eq!(after_outbound(Outbound::SendFailed), LoopStep::Stop);
    assert_eq!(after_outbound(Outbound::ChannelClosed), LoopStep::Stop);
}

fn client(sub: &str) -> Principal {
    Principal::Client(ClientAuth {
        claims: ClientAccessClaims {
            iss: "http://h1:7000".into(),
            sub: sub.into(),
            aud: vec!["http://h1:7000".into()],
            exp: 2,
            iat: 1,
            scope: "openid".into(),
            client_id: "c".into(),
        },
    })
}

fn peer(iss: &str) -> Principal {
    Principal::Federation(FederationAuth {
        claims: FederationClaims {
            iss: iss.into(),
            sub: iss.into(),
            aud: vec!["http://h1:7000".into()],
            exp: 2,
            iat: 1,
            user_ref: None,
        },
    })
}

#[test]
fn an_inbound_socket_is_bound_to_whom_its_token_names() {
    let mut clients = ClientWsManager::new();
    let (tx, _rx) = unbounded_channel::<ClientWsEnvelope>();
    let conn = open_client_socket(&mut clients, tx, Some(client("alice@h1")));
    assert_eq!(clients.authenticated_user_ref(conn), Some(user_ref("alice", "h1")));
    let (tx, _rx) = unbounded_channel::<ClientWsEnvelope>();
    let anonymous = open_client_socket(&mut clients, tx, None);
    assert_eq!(clients.authenticated_user_ref(anonymous), None);
    let (tx, _rx) = unbounded_channel::<ClientWsEnvelope>();
    let odd = open_client_socket(&mut clients, tx, Some(client("no-host")));
    assert_eq!(clients.authenticated_user_ref(odd), None);
    let (tx, _rx) = unbounded_channel::<ClientWsEnvelope>();
    let wrong = open_client_socket(&mut clients, tx, Some(peer("http://h2:7000")));
    assert_eq!(clients.authenticated_user_ref(wrong), None);

    let mut peers = FederationWsManager::new();
    let (tx, _rx) = unbounded_channel::<FederationWsEnvelope>();
    let first = open_federation_socket(&mut peers, tx, Some(peer("http://h2:7000/")));
    assert_eq!(peers.authenticated_host(first), Some("h2".to_string()));
    let (tx, _rx) = unbounded_channel::<FederationWsEnvelope>();
    let second = open_federation_socket(&mut peers, tx, Some(peer("http://h2:7000")));
    assert_eq!(peers.authenticated_host(second), Some("h2".to_string()));
    assert_eq!(peers.authenticated_host(first), None);
    assert!(peers.ensure_connection("h2"));
    let (tx, _rx) = unbounded_channel::<FederationWsEnvelope>();
    let unknown = open_federation_socket(&mut peers, tx, Some(client("alice@h1")));
    assert_eq!(peers.authenticated_host(unknown), None);
}

#[test]
fn messages_and_servers_are_shown_in_one_line() {
    let m = Message {
        id: 1,
        channel_id: 2,
        author: Some(user("alice", "h1")),
        body: "hello".into(),
        created_at: 0,
        updated_at: 0,
    };
    assert_eq!(m.to_string(), "alice: hello");
    assert_eq!(Message { author: None, ..m }.to_string(), "anon: hello");
    assert_eq!(server(1).to_string(), "g");
    assert_eq!(Server { description: Some("d".into()), ..server(1) }.to_string(), "g - d");
    assert_eq!(server(1).verbose(), "g (00000000-0000-0000-0000-000000000001)");
    assert_eq!(
        Server { id: 0x0123456789abcdef_0123456789abcdef, ..server(1) }.verbose(),
        "g (01234567-89ab-cdef-0123-456789abcdef)"
    );
}
