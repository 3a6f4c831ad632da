use runelink::api;
use runelink::auth::{ClientAuth, FederationAuth, Principal, Requirement, Session};
use runelink::config::ServerConfig;
use runelink::error::ApiError;
use runelink::ops::local::{LocalEffect, LocalEvent, LocalFlow, StoreAnswer, StoreQuery};
use runelink::ops::{OpResult, Operation, RemoteCall};
use runelink::types::auth::{ClientAccessClaims, FederationClaims, SignupRequest};
use runelink::types::channel::{Channel, NewChannel};
use runelink::types::message::{Message, NewMessage};
use runelink::types::server::{
    FullServerMembership, NewServer, NewServerMembership, Server, ServerMember, ServerMembership,
    ServerRole,
};
use runelink::types::user::{User, UserRef, UserRole};
use runelink::types::ws::{
    AuthTokenAccessRequest, ClientWsConnectionState, ClientWsEnvelope, ClientWsReply, ClientWsRequest, ClientWsUpdate,
    FederationWsConnectionState, FederationWsEnvelope, FederationWsReply, FederationWsRequest,
    FederationWsUpdate, WsError,
};
use runelink::ws::client_manager::ClientWsManager;
use runelink::ws::error::FederationRequestError;
use runelink::ws::federation_manager::FederationWsManager;
use runelink::ws::handlers::client::{
    authenticate_with_token, client_reply, connection_state, discovery_document,
    handle_client_request, jwks_response, ClientRoute,
};
use runelink::ws::handlers::federation::{
    federation_reply, handle_federation_request, handle_federation_update, to_client_update,
    update_audience, FederationRoute, UpdateAudience,
};
use runelink::ws::handlers::flow::{Flow, FlowEffect, FlowEvent, MirrorPlan};
use runelink::ws::handlers::shared::{
    authorize_client, authorize_federation, RequirementPlan, RouteRefusal,
};
use runelink::ws::handlers::{
    answer_client_request, answer_federation_request, handle_client_message,
    handle_federation_message, ClientMessage, FederationMessage,
};
use tokio::sync::mpsc::{unbounded_channel, UnboundedReceiver};
use tokio::sync::oneshot;

fn config() -> ServerConfig {
    ServerConfig {
        local_host_raw: "h1".into(),
        database_url: "db".into(),
        port: 7000,
        key_dir: "/k".into(),
    }
}

fn user_ref(name: &str, host: &str) -> UserRef {
    UserRef::new(name.to_string(), host.to_string())
}

fn user(name: &str, host: &str, role: UserRole) -> User {
    User { name: name.into(), host: host.into(), role, created_at: 1, updated_at: 2, synced_at: None }
}

fn server(id: u128, host: &str) -> Server {
    Server { id, host: host.into(), title: "g".into(), description: None, created_at: 10, updated_at: 20 }
}

fn channel(id: u128, server_id: u128) -> Channel {
    Channel { id, server_id, title: "c1".into(), description: None, created_at: 1, updated_at: 2 }
}

fn message(id: u128, channel_id: u128, author: Option<User>) -> Message {
    Message { id, channel_id, author, body: "hi".into(), created_at: 1, updated_at: 2 }
}

fn member(name: &str, host: &str, role: ServerRole) -> ServerMember {
    ServerMember { user: user(name, host, UserRole::User), role, joined_at: 0, updated_at: 0 }
}

fn client(sub: &str) -> Principal {
    Principal::Client(ClientAuth {
        claims: ClientAccessClaims {
            iss: "http://h1:7000".into(),
            sub: sub.into(),
            aud: vec!["http://h1:7000".into()],
            exp: 2,
            iat: 1,
            scope: "openid".into(),
            client_id: "c".into(),
        },
    })
}

fn peer(delegated: Option<UserRef>) -> Principal {
    Principal::Federation(FederationAuth {
        claims: FederationClaims {
            iss: "http://h2:7000".into(),
            sub: "http://h2:7000".into(),
            aud: vec!["http://h1:7000".into()],
            exp: 2,
            iat: 1,
            user_ref: delegated,
        },
    })
}

fn received<T>(rx: &mut UnboundedReceiver<T>) -> Vec<T> {
    let mut all = Vec::new();
    while let Ok(x) = rx.try_recv() {
        all.push(x);
    }
    all
}

#[test]
fn client_requests_lead_to_their_operations() {
    assert!(handle_client_request(ClientWsRequest::Ping) == ClientRoute::Ping);
    assert!(handle_client_request(ClientWsRequest::OidcDiscovery) == ClientRoute::OidcDiscovery);
    assert!(handle_client_request(ClientWsRequest::OidcJwks) == ClientRoute::OidcJwks);
    assert!(handle_client_request(ClientWsRequest::ConnectionState) == ClientRoute::ConnectionState);
    assert!(
        handle_client_request(ClientWsRequest::AuthTokenAccess(AuthTokenAccessRequest {
            access_token: "t".into()
        })) == ClientRoute::AccessToken(AuthTokenAccessRequest { access_token: "t".into() })
    );
    assert!(
        handle_client_request(ClientWsRequest::ChannelsCreate {
            server_id: 1,
            new_channel: NewChannel { title: "c1".into(), description: None },
            target_host: Some("h2".into()),
        }) == ClientRoute::Operate {
            requirement: RequirementPlan::Rule(runelink::ops::channels::auth::create(1)),
            operation: Operation::ChannelsCreate {
                server_id: 1,
                new_channel: NewChannel { title: "c1".into(), description: None },
                target_host: Some("h2".into()),
            },
        }
    );
    assert!(
        handle_client_request(ClientWsRequest::UsersGetByRef {
            user_ref: user_ref("bob", "h2"),
            target_host: Some("h9".into()),
        }) == ClientRoute::Operate {
            requirement: RequirementPlan::Open,
            operation: Operation::UsersGetByRef { user_ref: user_ref("bob", "h2") },
        }
    );
    assert!(
        handle_client_request(ClientWsRequest::MessagesDelete {
            server_id: 1,
            channel_id: 2,
            message_id: 3,
            target_host: None,
        }) == ClientRoute::Operate {
            requirement: RequirementPlan::MessageDelete { server_id: 1, message_id: 3 },
            operation: Operation::MessagesDelete {
                server_id: 1,
                channel_id: 2,
                message_id: 3,
                target_host: None,
            },
        }
    );
    assert!(
        handle_client_request(ClientWsRequest::UsersDelete { user_ref: user_ref("a", "h1") })
            == ClientRoute::Operate {
                requirement: RequirementPlan::Rule(runelink::ops::users::auth::delete(user_ref(
                    "a", "h1"
                ))),
                operation: Operation::UsersDelete { user_ref: user_ref("a", "h1") },
            }
    );
}

#[test]
fn account_operations_are_not_served_over_the_websocket() {
    let refused = ClientRoute::Refused(RouteRefusal::NotOverWebsocket);
    assert!(
        handle_client_request(ClientWsRequest::AuthSignup(SignupRequest {
            name: "a".into(),
            password: "p".into()
        })) == refused
    );
    assert!(handle_client_request(ClientWsRequest::AuthUserinfo) == refused);
    assert!(handle_client_request(ClientWsRequest::AuthRegisterClient) == refused);
    assert_eq!(
        RouteRefusal::NotOverWebsocket.into_api_error(),
        ApiError::BadRequest("This auth operation is not implemented over websocket".into())
    );
    assert_eq!(
        RouteRefusal::ServerIdMismatch.into_api_error(),
        ApiError::BadRequest("Server ID in path does not match server ID in membership".into())
    );
    assert_eq!(
        RouteRefusal::UserHostIsLocal.into_api_error(),
        ApiError::BadRequest("User host in membership should not match local host".into())
    );
}

#[test]
fn a_membership_must_name_the_server_of_its_path() {
    let new_membership = NewServerMembership {
        user_ref: user_ref("alice", "h1"),
        server_id: 9,
        server_host: "h2".into(),
        role: ServerRole::Member,
    };
    assert!(
        handle_client_request(ClientWsRequest::MembershipsCreate {
            server_id: 8,
            new_membership: new_membership.clone(),
        }) == ClientRoute::Refused(RouteRefusal::ServerIdMismatch)
    );
    assert!(matches!(
        handle_client_request(ClientWsRequest::MembershipsCreate {
            server_id: 9,
            new_membership: new_membership.clone(),
        }),
        ClientRoute::Operate { requirement: RequirementPlan::Rule(_), .. }
    ));
    assert_eq!(
        handle_federation_request(
            &config(),
            None,
            FederationWsRequest::MembershipsCreate {
                server_id: 8,
                new_membership: new_membership.clone()
            }
        ),
        FederationRoute::Refused(RouteRefusal::ServerIdMismatch)
    );
    assert_eq!(
        handle_federation_request(
            &config(),
            None,
            FederationWsRequest::MembershipsCreate {
                server_id: 9,
                new_membership: new_membership.clone()
            }
        ),
        FederationRoute::Refused(RouteRefusal::UserHostIsLocal)
    );
    let for_bob = NewServerMembership { user_ref: user_ref("bob", "h2"), ..new_membership };
    assert_eq!(
        handle_federation_request(
            &config(),
            Some(user_ref("eve", "h2")),
            FederationWsRequest::MembershipsCreate { server_id: 9, new_membership: for_bob.clone() }
        ),
        FederationRoute::Operate {
            requirement: RequirementPlan::Rule(Requirement::FederatedOnly(Box::new(
                Requirement::FederatedUser(user_ref("bob", "h2"))
            ))),
            acting_for: Some(user_ref("bob", "h2")),
            operation: Operation::MembershipsCreate { new_membership: for_bob },
        }
    );
}

#[test]
fn federation_requests_lead_to_operations_on_this_host() {
    assert_eq!(
        handle_federation_request(&config(), None, FederationWsRequest::ConnectionState),
        FederationRoute::ConnectionState
    );
    assert_eq!(
        handle_federation_request(
            &config(),
            Some(user_ref("bob", "h2")),
            FederationWsRequest::MessagesCreate {
                server_id: 1,
                channel_id: 2,
                new_message: NewMessage { author: user_ref("bob", "h2"), body: "b".into() },
            }
        ),
        FederationRoute::Operate {
            requirement: RequirementPlan::Rule(Requirement::FederatedOnly(Box::new(
                Requirement::ServerMember(1)
            ))),
            acting_for: Some(user_ref("bob", "h2")),
            operation: Operation::MessagesCreate {
                server_id: 1,
                channel_id: 2,
                new_message: NewMessage { author: user_ref("bob", "h2"), body: "b".into() },
                target_host: None,
            },
        }
    );
    assert_eq!(
        handle_federation_request(&config(), None, FederationWsRequest::ChannelsGetAll),
        FederationRoute::Operate {
            requirement: RequirementPlan::Rule(Requirement::FederatedOnly(Box::new(
                Requirement::Never
            ))),
            acting_for: None,
            operation: Operation::ChannelsGetAll { target_host: None },
        }
    );
    assert_eq!(
        handle_federation_request(
            &config(),
            None,
            FederationWsRequest::UsersDelete { user_ref: user_ref("bob", "h2") }
        ),
        FederationRoute::Operate {
            requirement: RequirementPlan::Rule(Requirement::FederatedOnly(Box::new(
                Requirement::FederatedUser(user_ref("bob", "h2"))
            ))),
            acting_for: Some(user_ref("bob", "h2")),
            operation: Operation::UsersDeleteRemoteRecord { user_ref: user_ref("bob", "h2") },
        }
    );
    assert_eq!(
        handle_federation_request(&config(), None, FederationWsRequest::ServersGetAll),
        FederationRoute::Operate {
            requirement: RequirementPlan::Open,
            acting_for: None,
            operation: Operation::ServersGetAll { target_host: None },
        }
    );
}

#[test]
fn results_are_wrapped_in_the_reply_of_their_request() {
    let op = Operation::ChannelsCreate {
        server_id: 1,
        new_channel: NewChannel { title: "c1".into(), description: None },
        target_host: None,
    };
    assert!(
        client_reply(&op, OpResult::Channel(channel(2, 1)))
            == Ok(ClientWsReply::ChannelsCreate(channel(2, 1)))
    );
    assert!(
        client_reply(&op, OpResult::Done)
            == Err(ApiError::Internal("Operation gave a result of another kind".into()))
    );
    assert_eq!(
        federation_reply(&op, OpResult::Channel(channel(2, 1))),
        Ok(FederationWsReply::ChannelsCreate(channel(2, 1)))
    );
    let delete = Operation::UsersDeleteRemoteRecord { user_ref: user_ref("b", "h2") };
    assert_eq!(federation_reply(&delete, OpResult::Done), Ok(FederationWsReply::UsersDelete));
    assert!(client_reply(&delete, OpResult::Done).is_err());
    let get = Operation::ChannelsGetById { server_id: 1, channel_id: 2, target_host: None };
    assert!(
        client_reply(&get, OpResult::Channel(channel(2, 1)))
            == Ok(ClientWsReply::ChannelsGetById(channel(2, 1)))
    );
    assert_eq!(
        federation_reply(&get, OpResult::Channels(vec![])),
        Err(ApiError::Internal("Operation gave a result of another kind".into()))
    );
}

#[test]
fn the_discovery_document_names_the_endpoints() {
    let doc = discovery_document(&config());
    assert_eq!(doc.issuer, "http://h1:7000");
    assert_eq!(doc.jwks_uri, "http://h1:7000/.well-known/jwks.json");
    assert_eq!(doc.token_endpoint, "http://h1:7000/auth/token");
    assert_eq!(doc.userinfo_endpoint, "http://h1:7000/auth/userinfo");
    assert_eq!(doc.grant_types_supported, vec!["password".to_string(), "refresh_token".to_string()]);
    assert!(doc.response_types_supported.is_empty());
    assert!(doc.scopes_supported.is_empty());
    assert_eq!(doc.token_endpoint_auth_methods_supported, vec!["none".to_string()]);
    assert_eq!(api::auth::discovery(&config()), doc);
    let jwk = runelink::types::auth::PublicJwk::from_ed25519_bytes(&[1, 2, 3], "primary".into());
    assert_eq!(jwks_response(&jwk).keys, vec![jwk]);
}

#[test]
fn a_connection_is_authenticated_with_an_access_token() {
    let mut manager = ClientWsManager::new();
    let (tx, _rx) = unbounded_channel();
    let conn = manager.register_connection(tx);
    assert_eq!(connection_state(&manager, conn), ClientWsConnectionState::Unauthenticated);
    assert_eq!(
        authorize_client(&config(), &manager, conn),
        Err(ApiError::AuthError("Client websocket connection is not authenticated".into()))
    );
    let Principal::Client(auth) = client("alice@h1") else { unreachable!() };
    assert!(
        authenticate_with_token(&mut manager, conn, &auth)
            == Ok(ClientWsReply::AuthTokenAccess(ClientWsConnectionState::Authenticated {
                user_ref: user_ref("alice", "h1")
            }))
    );
    assert_eq!(
        connection_state(&manager, conn),
        ClientWsConnectionState::Authenticated { user_ref: user_ref("alice", "h1") }
    );
    let Principal::Client(bad) = client("nobody") else { unreachable!() };
    assert!(
        authenticate_with_token(&mut manager, conn, &bad)
            == Err(ApiError::AuthError("Invalid token subject (expected name@host)".into()))
    );
    assert!(
        authenticate_with_token(&mut manager, conn.wrapping_add(1), &auth)
            == Err(ApiError::Internal("Client websocket connection not registered".into()))
    );
    match authorize_client(&config(), &manager, conn) {
        Ok(Principal::Client(auth)) => {
            assert_eq!(auth.claims.iss, "http://h1:7000");
            assert_eq!(auth.claims.aud, vec!["http://h1:7000".to_string()]);
            assert_eq!(auth.claims.sub, "alice@h1");
            assert_eq!(auth.claims.client_id, "ws");
            assert_eq!(auth.claims.scope, "openid");
            assert_eq!(auth.claims.exp - auth.claims.iat, 3600);
        }
        other => panic!("unexpected {:?}", other),
    }
}

#[test]
fn a_federation_connection_stands_for_its_host() {
    let mut manager = FederationWsManager::new();
    let (tx, _rx) = unbounded_channel();
    let conn = manager.register_connection(tx);
    assert_eq!(
        runelink::ws::handlers::federation::connection_state(&manager, conn),
        FederationWsConnectionState::Unauthenticated
    );
    assert_eq!(
        authorize_federation(&config(), &manager, conn, None),
        Err(ApiError::AuthError("Federation websocket connection is not authenticated".into()))
    );
    manager.authenticate_connection(conn, "h2".to_string());
    assert_eq!(
        runelink::ws::handlers::federation::connection_state(&manager, conn),
        FederationWsConnectionState::Authenticated { host: "h2".into() }
    );
    match authorize_federation(&config(), &manager, conn, Some(user_ref("bob", "h2"))) {
        Ok(Principal::Federation(auth)) => {
            assert_eq!(auth.claims.iss, "http://h2:7000");
            assert_eq!(auth.claims.sub, "http://h2:7000");
            assert_eq!(auth.claims.aud, vec!["http://h1:7000".to_string()]);
            assert_eq!(auth.claims.user_ref, Some(user_ref("bob", "h2")));
            assert_eq!(auth.claims.exp - auth.claims.iat, 3600);
        }
        other => panic!("unexpected {:?}", other),
    }
    assert!(matches!(
        authorize_federation(&config(), &manager, conn, None),
        Ok(Principal::Federation(auth)) if auth.claims.user_ref.is_none()
    ));
}

#[test]
fn envelopes_are_told_apart() {
    let request = ClientWsEnvelope::Request { request_id: 4, request: ClientWsRequest::Ping };
    assert!(
        handle_client_message(request)
            == ClientMessage::Request { request_id: 4, request: ClientWsRequest::Ping }
    );
    let update = ClientWsEnvelope::Update {
        event_id: 1,
        update: ClientWsUpdate::ServerDeleted { server_id: 1 },
    };
    assert!(handle_client_message(update) == ClientMessage::Ignored);
    let reply =
        ClientWsEnvelope::Reply { request_id: 1, event_id: 2, reply: ClientWsReply::Ping };
    assert!(handle_client_message(reply) == ClientMessage::Ignored);

    let mut manager = FederationWsManager::new();
    assert_eq!(
        handle_federation_message(
            &mut manager,
            FederationWsEnvelope::Request {
                request_id: 4,
                event_id: 5,
                delegated_user_ref: Some(user_ref("bob", "h2")),
                request: FederationWsRequest::UsersGetAll,
            }
        ),
        FederationMessage::Request {
            request_id: 4,
            delegated_user_ref: Some(user_ref("bob", "h2")),
            request: FederationWsRequest::UsersGetAll,
        }
    );
    assert_eq!(
        handle_federation_message(
            &mut manager,
            FederationWsEnvelope::Update {
                event_id: 5,
                update: FederationWsUpdate::ServerDeleted { server_id: 1 },
            }
        ),
        FederationMessage::Update(FederationWsUpdate::ServerDeleted { server_id: 1 })
    );
    assert_eq!(
        handle_federation_message(
            &mut manager,
            FederationWsEnvelope::Reply {
                request_id: 4,
                event_id: 5,
                reply: FederationWsReply::UsersDelete,
            }
        ),
        FederationMessage::Response { resolved: false }
    );
    let (tx, _rx) = unbounded_channel();
    manager.adopt_dialed_connection("h2".to_string(), tx);
    let (waiter, mut reply_rx) = oneshot::channel();
    let id = manager
        .send_request_to_host("h2", None, FederationWsRequest::UsersGetAll, waiter)
        .unwrap();
    assert_eq!(
        handle_federation_message(
            &mut manager,
            FederationWsEnvelope::Reply {
                request_id: id,
                event_id: 5,
                reply: FederationWsReply::UsersGetAll(vec![]),
            }
        ),
        FederationMessage::Response { resolved: true }
    );
    assert_eq!(reply_rx.try_recv().unwrap(), Ok(FederationWsReply::UsersGetAll(vec![])));
}

#[test]
fn the_outcome_of_a_request_is_sent_back() {
    let mut clients = ClientWsManager::new();
    let (tx, mut rx) = unbounded_channel();
    let conn = clients.register_connection(tx);
    assert!(answer_client_request(&mut clients, conn, 7, Ok(ClientWsReply::Ping)));
    assert!(answer_client_request(&mut clients, conn, 8, Err(ApiError::NotFound)));
    assert!(!answer_client_request(&mut clients, conn + 1, 8, Err(ApiError::NotFound)));
    let got = received(&mut rx);
    assert!(matches!(
        &got[0],
        ClientWsEnvelope::Reply { request_id: 7, reply: ClientWsReply::Ping, .. }
    ));
    assert!(matches!(
        &got[1],
        ClientWsEnvelope::Error { request_id: Some(8), error, .. }
            if *error == WsError {
                code: "not_found".into(),
                message: "Resource not found".into(),
                details: None
            }
    ));
    let mut peers = FederationWsManager::new();
    let (tx, mut rx) = unbounded_channel();
    let conn = peers.register_connection(tx);
    assert!(answer_federation_request(&mut peers, conn, 7, Ok(FederationWsReply::UsersDelete)));
    assert!(answer_federation_request(
        &mut peers,
        conn,
        8,
        Err(ApiError::AuthError("Not a member of this server".into()))
    ));
    let got = received(&mut rx);
    assert!(matches!(&got[0], FederationWsEnvelope::Reply { request_id: 7, .. }));
    assert!(matches!(
        &got[1],
        FederationWsEnvelope::Error { request_id: Some(8), error, .. }
            if error.code == "auth_error" && error.message == "Unauthorized: Not a member of this server"
    ));
}

#[test]
fn updates_of_peers_are_passed_on_to_clients() {
    let m = message(3, 2, None);
    assert_eq!(
        to_client_update(FederationWsUpdate::MessageUpserted(m.clone())),
        ClientWsUpdate::MessageUpserted(m.clone())
    );
    assert_eq!(
        to_client_update(FederationWsUpdate::RemoteUserDeleted { user_ref: user_ref("b", "h2") }),
        ClientWsUpdate::UserDeleted { user_ref: user_ref("b", "h2") }
    );
    assert_eq!(
        to_client_update(FederationWsUpdate::ChannelDeleted { server_id: 1, channel_id: 2 }),
        ClientWsUpdate::ChannelDeleted { server_id: 1, channel_id: 2 }
    );
    assert_eq!(
        update_audience(&FederationWsUpdate::MessageUpserted(m)),
        UpdateAudience::ServerOfChannel(2)
    );
    assert_eq!(
        update_audience(&FederationWsUpdate::ChannelUpserted(channel(2, 1))),
        UpdateAudience::Server(1)
    );
    assert_eq!(
        update_audience(&FederationWsUpdate::ServerUpserted(server(9, "h2"))),
        UpdateAudience::Server(9)
    );
    assert_eq!(
        update_audience(&FederationWsUpdate::RemoteUserDeleted { user_ref: user_ref("b", "h2") }),
        UpdateAudience::Everyone
    );
}

#[test]
fn an_update_of_a_peer_reaches_the_local_members_of_its_server() {
    let mut clients = ClientWsManager::new();
    let (a, mut alice) = unbounded_channel();
    let (c, mut carol) = unbounded_channel();
    let (g, mut guest) = unbounded_channel();
    let ca = clients.register_connection(a);
    let cc = clients.register_connection(c);
    clients.register_connection(g);
    clients.authenticate_connection(ca, user_ref("alice", "h1"));
    clients.authenticate_connection(cc, user_ref("carol", "h1"));
    let update = FederationWsUpdate::MessageUpserted(message(3, 2, None));
    let sent =
        handle_federation_update(&config(), &mut clients, update, vec![user_ref("alice", "h1")]);
    assert_eq!(sent, 1);
    let got = received(&mut alice);
    assert_eq!(got.len(), 1);
    assert!(matches!(
        &got[0],
        ClientWsEnvelope::Update { update: ClientWsUpdate::MessageUpserted(m), .. } if m.id == 3
    ));
    assert!(received(&mut carol).is_empty());
    let left = FederationWsUpdate::MembershipDeleted { server_id: 9, user_ref: user_ref("carol", "h1") };
    assert_eq!(
        handle_federation_update(&config(), &mut clients, left, vec![user_ref("alice", "h1")]),
        2
    );
    assert_eq!(received(&mut carol).len(), 1);
    let foreign =
        FederationWsUpdate::MembershipDeleted { server_id: 9, user_ref: user_ref("bob", "h2") };
    assert_eq!(
        handle_federation_update(&config(), &mut clients, foreign, vec![user_ref("alice", "h1")]),
        1
    );
    assert!(received(&mut guest).is_empty());
    let gone = FederationWsUpdate::RemoteUserDeleted { user_ref: user_ref("bob", "h2") };
    assert_eq!(handle_federation_update(&config(), &mut clients, gone, Vec::new()), 3);
    assert_eq!(received(&mut guest).len(), 1);
}

fn create_channel_op(target: Option<&str>) -> Operation {
    Operation::ChannelsCreate {
        server_id: 1,
        new_channel: NewChannel { title: "c1".into(), description: None },
        target_host: target.map(|t| t.to_string()),
    }
}

#[test]
fn a_local_channel_is_created_and_told() {
    let rule = RequirementPlan::Rule(runelink::ops::channels::auth::create(1));
    let step = Flow::start(&config(), Ok(client("alice@h1")), true, rule, create_channel_op(None));
    assert_eq!(
        step.effect,
        FlowEffect::LookupMembership { server_id: 1, user_ref: user_ref("alice", "h1") }
    );
    let step = step.next.step(
        &config(),
        FlowEvent::Membership {
            server_id: 1,
            member: Some(member("alice", "h1", ServerRole::Admin)),
        },
    );
    let FlowEffect::RunLocal { operation, session } = step.effect else {
        panic!("unexpected {:?}", step.effect)
    };
    assert_eq!(step.next, Flow::Local);
    assert_eq!(operation, create_channel_op(None));
    let local = LocalFlow::start(&config(), &session, operation);
    assert_eq!(
        local.effect,
        LocalEffect::Ask(StoreQuery::InsertChannel {
            server_id: 1,
            new_channel: NewChannel { title: "c1".into(), description: None }
        })
    );
    let local = local
        .next
        .step(&config(), LocalEvent::Answer(Ok(StoreAnswer::Channel(channel(2, 1)))));
    assert_eq!(local.effect, LocalEffect::Ask(StoreQuery::MemberRefs(1)));
    let local = local.next.step(
        &config(),
        LocalEvent::Answer(Ok(StoreAnswer::UserRefs(vec![user_ref("alice", "h1")]))),
    );
    assert_eq!(local.next, LocalFlow::Finished);
    let LocalEffect::Tell { targets, change, result } = local.effect else {
        panic!("unexpected {:?}", local.effect)
    };
    assert_eq!(targets.local_users, vec![user_ref("alice", "h1")]);
    assert!(targets.remote_hosts.is_empty());
    assert_eq!(change.client_update, ClientWsUpdate::ChannelUpserted(channel(2, 1)));
    assert_eq!(result, OpResult::Channel(channel(2, 1)));

    let mut clients = ClientWsManager::new();
    let mut peers = FederationWsManager::new();
    let (tx, mut alice) = unbounded_channel();
    let conn = clients.register_connection(tx);
    clients.authenticate_connection(conn, user_ref("alice", "h1"));
    let (ptx, mut h2) = unbounded_channel();
    let pconn = peers.register_connection(ptx);
    peers.authenticate_connection(pconn, "h2".to_string());
    runelink::ops::fanout::tell_change(&mut clients, &mut peers, targets, change);
    let got = received(&mut alice);
    assert_eq!(got.len(), 1);
    assert!(matches!(
        &got[0],
        ClientWsEnvelope::Update { update: ClientWsUpdate::ChannelUpserted(c), .. }
            if *c == channel(2, 1)
    ));
    assert!(received(&mut h2).is_empty());

    let done = step.next.step(&config(), FlowEvent::LocalDone(Ok(result)));
    assert_eq!(done.next, Flow::Finished);
    assert_eq!(done.effect, FlowEffect::Finish(Ok(OpResult::Channel(channel(2, 1)))));
    assert_eq!(api::channels::create(
        1,
        api::channels::ChannelQueryParams { target_host: None },
        NewChannel { title: "c1".into(), description: None }
    ).success, 201);
}

#[test]
fn a_user_who_is_neither_member_nor_admin_is_denied() {
    let op = Operation::ServersGetWithChannels { server_id: 2, target_host: None };
    let rule = RequirementPlan::Rule(runelink::ops::servers::auth::get_with_channels(2));
    let step = Flow::start(&config(), Ok(client("alice@h1")), true, rule, op);
    assert!(matches!(step.effect, FlowEffect::LookupMembership { server_id: 2, .. }));
    let step = step.next.step(&config(), FlowEvent::Membership { server_id: 2, member: None });
    assert_eq!(step.effect, FlowEffect::LookupUser(user_ref("alice", "h1")));
    let step = step
        .next
        .step(&config(), FlowEvent::User(Some(user("alice", "h1", UserRole::User))));
    assert_eq!(step.next, Flow::Finished);
    let FlowEffect::Finish(Err(error)) = step.effect else { panic!("unexpected {:?}", step.effect) };
    assert_eq!(error, ApiError::AuthError("Host admin privileges required".into()));
    assert_eq!(error.status_code(), 401);
    assert!(error.to_string().starts_with("Unauthorized: "));
}

#[test]
fn a_membership_on_another_host_is_created_there_and_mirrored_here() {
    let new_membership = NewServerMembership {
        user_ref: user_ref("alice", "h1"),
        server_id: 2,
        server_host: "h2".into(),
        role: ServerRole::Member,
    };
    let route = handle_client_request(ClientWsRequest::MembershipsCreate {
        server_id: 2,
        new_membership: new_membership.clone(),
    });
    let ClientRoute::Operate { requirement, operation } = route else { panic!("no operation") };
    let step = Flow::start(&config(), Ok(client("alice@h1")), true, requirement, operation);
    assert_eq!(
        step.effect,
        FlowEffect::CallRemote(RemoteCall {
            host: "h2".into(),
            delegated_user_ref: Some(user_ref("alice", "h1")),
            request: FederationWsRequest::MembershipsCreate {
                server_id: 2,
                new_membership: new_membership.clone()
            },
        })
    );
    let full = FullServerMembership {
        server: server(2, "h2"),
        user: user("alice", "h1", UserRole::User),
        role: ServerRole::Member,
        joined_at: 5,
        updated_at: 6,
        synced_at: None,
    };
    let step = step
        .next
        .step(&config(), FlowEvent::RemoteDone(Ok(FederationWsReply::MembershipsCreate(full.clone()))));
    assert_eq!(
        step.effect,
        FlowEffect::Mirror(MirrorPlan::MembershipCreated {
            membership: ServerMembership::from(full.clone()),
            server: server(2, "h2"),
        })
    );
    let mirror = ServerMembership { synced_at: Some(99), ..ServerMembership::from(full.clone()) };
    let step = step.next.step(&config(), FlowEvent::Mirrored(Ok(Some(mirror))));
    assert_eq!(
        step.effect,
        FlowEffect::Finish(Ok(OpResult::FullMembership(FullServerMembership {
            synced_at: Some(99),
            ..full
        })))
    );
    assert_eq!(api::memberships::create(2, new_membership).success, 201);
}

#[test]
fn a_request_that_times_out_fails_and_writes_nothing() {
    let op = Operation::MessagesCreate {
        server_id: 2,
        channel_id: 3,
        new_message: NewMessage { author: user_ref("alice", "h1"), body: "hello".into() },
        target_host: Some("h2".into()),
    };
    let step = Flow::start(
        &config(),
        Ok(client("alice@h1")),
        true,
        RequirementPlan::Rule(Requirement::Always),
        op,
    );
    assert!(matches!(step.effect, FlowEffect::CallRemote(_)));
    let step = step.next.step(
        &config(),
        FlowEvent::RemoteDone(Err(FederationRequestError::Timeout {
            host: "h2:7000".into(),
            request_id: 1,
        })),
    );
    assert_eq!(step.next, Flow::Finished);
    let FlowEffect::Finish(Err(error)) = step.effect else { panic!("unexpected {:?}", step.effect) };
    assert_eq!(error.status_code(), 500);
    assert!(error.to_string().contains("Timed out"));
}

#[test]
fn a_server_created_on_another_host_is_mirrored_with_its_creator() {
    let op = Operation::ServersCreate {
        new_server: NewServer { title: "g".into(), description: None },
        target_host: Some("h2".into()),
    };
    let step = Flow::start(
        &config(),
        Ok(client("alice@h1")),
        true,
        RequirementPlan::Rule(runelink::ops::servers::auth::create()),
        op,
    );
    assert!(matches!(step.effect, FlowEffect::CallRemote(_)));
    let step = step.next.step(
        &config(),
        FlowEvent::RemoteDone(Ok(FederationWsReply::ServersCreate(server(2, "h2")))),
    );
    assert_eq!(
        step.effect,
        FlowEffect::Mirror(MirrorPlan::ServerCreated {
            server: server(2, "h2"),
            membership: ServerMembership {
                server: server(2, "h2"),
                user_ref: user_ref("alice", "h1"),
                role: ServerRole::Admin,
                joined_at: 10,
                updated_at: 20,
                synced_at: Some(10),
            },
        })
    );
    let failed = step.next.step(&config(), FlowEvent::Mirrored(Err(ApiError::UniqueViolation)));
    assert_eq!(failed.effect, FlowEffect::Finish(Err(ApiError::UniqueViolation)));
}

#[test]
fn leaving_a_server_on_another_host_drops_the_mirror_row() {
    let op = Operation::MembershipsDelete {
        server_id: 2,
        user_ref: user_ref("alice", "h1"),
        target_host: Some("h2".into()),
    };
    let step = Flow::start(
        &config(),
        Ok(client("alice@h1")),
        true,
        RequirementPlan::Rule(Requirement::Always),
        op,
    );
    let step = step
        .next
        .step(&config(), FlowEvent::RemoteDone(Ok(FederationWsReply::MembershipsDelete)));
    assert_eq!(
        step.effect,
        FlowEffect::Mirror(MirrorPlan::MembershipDeleted {
            server_id: 2,
            user_ref: user_ref("alice", "h1")
        })
    );
    let step = step.next.step(&config(), FlowEvent::Mirrored(Err(ApiError::NotFound)));
    assert_eq!(step.effect, FlowEffect::Finish(Ok(OpResult::Done)));
}

#[test]
fn the_rule_for_deleting_a_message_comes_from_the_message() {
    let op = Operation::MessagesDelete {
        server_id: 1,
        channel_id: 2,
        message_id: 3,
        target_host: None,
    };
    let plan = RequirementPlan::MessageDelete { server_id: 1, message_id: 3 };
    let step = Flow::start(&config(), Ok(client("alice@h1")), true, plan, op.clone());
    assert_eq!(step.effect, FlowEffect::LookupMessage { message_id: 3 });
    let by_alice = message(3, 2, Some(user("alice", "h1", UserRole::User)));
    let granted = step.next.step(&config(), FlowEvent::Message(Ok(by_alice.clone())));
    assert!(matches!(granted.effect, FlowEffect::RunLocal { .. }));

    let plan = RequirementPlan::MessageDelete { server_id: 1, message_id: 3 };
    let step = Flow::start(&config(), Ok(client("mallory@h1")), true, plan, op.clone());
    let asked = step.next.step(&config(), FlowEvent::Message(Ok(by_alice.clone())));
    assert!(matches!(asked.effect, FlowEffect::LookupMembership { server_id: 1, .. }));

    let plan = RequirementPlan::MessageDelete { server_id: 1, message_id: 3 };
    let step = Flow::start(&config(), Ok(client("alice@h1")), true, plan, op.clone());
    let missing = step.next.step(&config(), FlowEvent::Message(Err(ApiError::NotFound)));
    assert_eq!(missing.effect, FlowEffect::Finish(Err(ApiError::NotFound)));

    let plan = RequirementPlan::MessageDelete { server_id: 1, message_id: 3 };
    let step = Flow::start(&config(), Ok(peer(Some(user_ref("alice", "h1")))), false, plan, op);
    let by_peer = step.next.step(&config(), FlowEvent::Message(Ok(by_alice)));
    assert!(matches!(by_peer.effect, FlowEffect::LookupMembership { server_id: 1, .. }));
}

#[test]
fn a_flow_refuses_what_it_did_not_wait_for() {
    let step = Flow::start(
        &config(),
        Ok(client("alice@h1")),
        true,
        RequirementPlan::Open,
        Operation::ServersGetAll { target_host: None },
    );
    assert!(matches!(step.effect, FlowEffect::RunLocal { .. }));
    let wrong = step.next.step(&config(), FlowEvent::User(None));
    assert_eq!(
        wrong.effect,
        FlowEffect::Finish(Err(ApiError::Internal(
            "Request was handed what it did not wait for".into()
        )))
    );
    let unknown = Flow::start(
        &config(),
        Err(ApiError::AuthError("Client websocket connection is not authenticated".into())),
        true,
        RequirementPlan::Rule(Requirement::Always),
        Operation::ServersGetAll { target_host: None },
    );
    assert_eq!(
        unknown.effect,
        FlowEffect::Finish(Err(ApiError::AuthError(
            "Client websocket connection is not authenticated".into()
        )))
    );
    assert_eq!(unknown.next, Flow::Finished);
    let session = Session::new(client("alice@h1"));
    let over = LocalFlow::Finished.step(&config(), LocalEvent::Answer(Ok(StoreAnswer::Done)));
    assert_eq!(
        over.effect,
        LocalEffect::Finish(Err(ApiError::Internal(
            "Operation was handed what it did not wait for".into()
        )))
    );
    let read = LocalFlow::start(&config(), &session, Operation::UsersGetAll { target_host: None });
    let wrong = read.next.step(&config(), LocalEvent::Answer(Ok(StoreAnswer::UserRefs(vec![]))));
    assert!(matches!(wrong.effect, LocalEffect::Finish(Err(ApiError::Internal(_)))));
    let read = LocalFlow::start(&config(), &session, Operation::UsersGetAll { target_host: None });
    let failed = read.next.step(&config(), LocalEvent::Answer(Err(ApiError::NotFound)));
    assert_eq!(failed.effect, LocalEffect::Finish(Err(ApiError::NotFound)));
}

#[test]
fn a_store_failure_during_a_lookup_ends_the_request_with_it() {
    let rule = || RequirementPlan::Rule(runelink::ops::servers::auth::get_with_channels(2));
    let op = || Operation::ServersGetWithChannels { server_id: 2, target_host: None };
    let down = || ApiError::DbConnectionError("pool closed".into());
    let step = Flow::start(&config(), Ok(client("alice@h1")), true, rule(), op());
    assert!(matches!(step.effect, FlowEffect::LookupMembership { server_id: 2, .. }));
    let failed = step.next.step(&config(), FlowEvent::LookupFailed(down()));
    assert_eq!(failed.next, Flow::Finished);
    assert_eq!(failed.effect, FlowEffect::Finish(Err(down())));

    let step = Flow::start(&config(), Ok(client("alice@h1")), true, rule(), op());
    let step = step.next.step(&config(), FlowEvent::Membership { server_id: 2, member: None });
    assert_eq!(step.effect, FlowEffect::LookupUser(user_ref("alice", "h1")));
    let failed = step.next.step(&config(), FlowEvent::LookupFailed(down()));
    assert_eq!(failed.next, Flow::Finished);
    assert_eq!(failed.effect, FlowEffect::Finish(Err(down())));
}
