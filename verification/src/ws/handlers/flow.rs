//! The course of one request, from what it leads to until its result.
//!
//! The work of a request waits on the store and on other hosts. The flow
//! decides between the waits: whenever it needs something it says what, and
//! is handed the answer. It looks up what the requirement needs and no more,
//! carries the operation out only once the requirement is met, places it on
//! the local store or on another host, reads the reply of the other host,
//! and has the mirror rows written that a remote change calls for.

use vstd::prelude::*;
use vstd::string::*;
use crate::auth::{
    authorize, decide, AuthStep, Decision, Principal, Requirement, Session,
};
use crate::config::{local_host_spec, ServerConfig};
use crate::error::{is_refusal, ApiError, ApiResult, Refusal};
use crate::ops::{
    Dispatch, OpResult, Operation, Placement, RemoteCall,
};
use crate::ops::messages::auth::{delete as client_delete_rule, delete_base_spec};
use crate::ops::messages::auth::federated::delete as federated_delete_rule;
use crate::ops::servers::creator_mirror;
use crate::auth::{client_rule, federated_rule};
use crate::types::Uuid;
use crate::types::message::Message;
use crate::types::server::{
    full_membership_of, Server, ServerMember, ServerMembership, ServerRole,
};
use crate::types::user::{User, UserRef};
use crate::types::ws::FederationWsReply;
use crate::ws::error::{api_error_of_request_error, FederationRequestError};
use crate::ws::handlers::shared::RequirementPlan;

verus! {

/// The mirror rows to write after a change on another host.
#[derive(Debug, PartialEq, Eq)]
pub enum MirrorPlan {
    /// A server was created there: the server is mirrored, with the
    /// membership that makes its creator its admin.
    ServerCreated { server: Server, membership: ServerMembership },
    /// A membership was created there: its server is mirrored, and the
    /// membership itself; the mirrored membership is handed back.
    MembershipCreated { membership: ServerMembership, server: Server },
    /// A membership ended there: its mirror row is deleted, if there is one.
    /// A failure to delete it is passed over.
    MembershipDeleted { server_id: Uuid, user_ref: UserRef },
}

/// What a flow waits for.
#[derive(Debug, PartialEq, Eq)]
pub enum Flow {
    /// The message whose author the rule for its deletion names.
    AwaitingMessage {
        principal: ApiResult<Principal>,
        for_client: bool,
        server_id: Uuid,
        operation: Operation,
    },
    /// A lookup that the requirement needs.
    Authorizing { session: Session, requirement: Requirement, operation: Operation },
    /// The result of the operation on the local store.
    Local,
    /// The reply of the host that the operation was handed to.
    Remote { operation: Operation, user_ref: Option<UserRef>, host: String },
    /// The mirror rows of a server that was created on another host.
    MirroringServer { server: Server },
    /// The mirror rows of a membership that was created on another host.
    MirroringMembership { user: User },
    /// The deletion of the mirror row of a membership that ended.
    MirroringDeletion,
    /// Nothing: the flow is over.
    Finished,
}

/// What a flow needs next.
#[derive(Debug, PartialEq, Eq)]
pub enum FlowEffect {
    /// The message with this identifier, from the store.
    LookupMessage { message_id: Uuid },
    /// The record of this user, from the store.
    LookupUser(UserRef),
    /// The membership of this user in this server, from the store.
    LookupMembership { server_id: Uuid, user_ref: UserRef },
    /// The operation, carried out on the local store for this session.
    RunLocal { operation: Operation, session: Session },
    /// The reply to this request to another host.
    CallRemote(RemoteCall),
    /// These mirror rows, written.
    Mirror(MirrorPlan),
    /// Nothing: this is the result of the request.
    Finish(ApiResult<OpResult>),
}

/// What a flow is handed.
#[derive(Debug, PartialEq, Eq)]
pub enum FlowEvent {
    Message(ApiResult<Message>),
    User(Option<User>),
    Membership { server_id: Uuid, member: Option<ServerMember> },
    /// The store failed while a user or a membership was looked up.
    LookupFailed(ApiError),
    LocalDone(ApiResult<OpResult>),
    RemoteDone(Result<FederationWsReply, FederationRequestError>),
    Mirrored(ApiResult<Option<ServerMembership>>),
}

/// A step of a flow: what it waits for from now on, and what it needs.
#[derive(Debug, PartialEq, Eq)]
pub struct FlowStep {
    pub next: Flow,
    pub effect: FlowEffect,
}

/// Whether `step` ends the flow with the refusal `refusal`.
pub open spec fn ends_refused(step: FlowStep, refusal: Refusal) -> bool {
    &&& step.next is Finished
    &&& step.effect matches FlowEffect::Finish(Err(e)) && is_refusal(e, refusal)
}

/// Whether `step` ends the flow with the error `error`.
pub open spec fn ends_with_error(step: FlowStep, error: ApiError) -> bool {
    step.next is Finished && step.effect == FlowEffect::Finish(Err::<OpResult, ApiError>(error))
}

/// Whether `step` places `operation` as the locality rule says, for the
/// session `session` on the host `local`.
pub open spec fn places(step: FlowStep, local: Seq<char>, session: Session, operation: Operation) -> bool {
    match operation.placement(local, session) {
        Placement::Local => step.next is Local && step.effect == (FlowEffect::RunLocal {
            operation,
            session,
        }),
        Placement::Remote { host, delegated_user_ref, request } => {
            &&& step.next matches Flow::Remote { operation: kept, user_ref, host: h }
            &&& kept == operation
            &&& user_ref == session.user_ref
            &&& h@ == host
            &&& step.effect matches FlowEffect::CallRemote(call)
            &&& call.host@ == host
            &&& call.delegated_user_ref == delegated_user_ref
            &&& call.request == request
        },
        Placement::Internal(m) => ends_refused(step, Refusal::Internal(m)),
        Placement::BadRequest(m) => ends_refused(step, Refusal::BadRequest(m)),
        Placement::AuthError(m) => ends_refused(step, Refusal::AuthError(m)),
    }
}

/// Whether `step` is what authorizing leads to, from what `session` holds:
/// the operation is placed once the requirement is met, the flow ends
/// unauthorized where it is not met, and else the lookup is asked for that
/// the decision needs.
pub open spec fn authorizes(
    step: FlowStep,
    local: Seq<char>,
    session: Session,
    requirement: Requirement,
    operation: Operation,
) -> bool {
    match decide(requirement, session) {
        Decision::Granted => places(step, local, session, operation),
        Decision::Denied(reason) => ends_refused(step, Refusal::AuthError(reason)),
        Decision::NeedUser => {
            &&& step.next == (Flow::Authorizing { session, requirement, operation })
            &&& step.effect matches FlowEffect::LookupUser(u)
            &&& Some(u) == session.user_ref
        },
        Decision::NeedMembership(server_id) => {
            &&& step.next == (Flow::Authorizing { session, requirement, operation })
            &&& step.effect matches FlowEffect::LookupMembership { server_id: s, user_ref: u }
            &&& s == server_id
            &&& Some(u) == session.user_ref
        },
    }
}

/// Whether `session` is the fresh session of `principal`.
pub open spec fn is_session_of(session: Session, principal: Principal) -> bool {
    &&& session.user.is_none()
    &&& session.memberships@.len() == 0
    &&& match principal {
        Principal::Client(auth) => {
            &&& session.federation.is_none()
            &&& session.acting_user() == crate::types::user::parse_subject_spec(auth.claims.sub@)
        },
        Principal::Federation(auth) => {
            &&& session.federation == Some(auth.claims)
            &&& session.user_ref == auth.claims.user_ref
        },
    }
}

/// Whether `step` begins to authorize `principal` for `requirement`: a
/// principal that could not be established ends the flow with its error.
pub open spec fn begins(
    step: FlowStep,
    local: Seq<char>,
    principal: ApiResult<Principal>,
    requirement: Requirement,
    operation: Operation,
) -> bool {
    match principal {
        Ok(p) => exists|session: Session|
            is_session_of(session, p) && #[trigger] authorizes(
                step,
                local,
                session,
                requirement,
                operation,
            ),
        Err(e) => ends_with_error(step, e),
    }
}

fn finish(result: ApiResult<OpResult>) -> (r: FlowStep)
    ensures
        r.next is Finished,
        r.effect == FlowEffect::Finish(result),
{
    FlowStep { next: Flow::Finished, effect: FlowEffect::Finish(result) }
}

fn place(config: &ServerConfig, session: Session, operation: Operation) -> (r: FlowStep)
    ensures
        places(r, local_host_spec(config.local_host_raw@, config.port), session, operation),
{
    match operation.place(config, &session) {
        Ok(Dispatch::Local) => FlowStep {
            next: Flow::Local,
            effect: FlowEffect::RunLocal { operation, session },
        },
        Ok(Dispatch::Remote(call)) => FlowStep {
            next: Flow::Remote { operation, user_ref: session.user_ref, host: call.host.clone() },
            effect: FlowEffect::CallRemote(call),
        },
        Err(e) => finish(Err(e)),
    }
}

fn go_on(config: &ServerConfig, session: Session, requirement: Requirement, operation: Operation) -> (r:
    FlowStep)
    ensures
        authorizes(
            r,
            local_host_spec(config.local_host_raw@, config.port),
            session,
            requirement,
            operation,
        ),
{
    match authorize(&session, &requirement) {
        AuthStep::Granted => place(config, session, operation),
        AuthStep::Denied(reason) => finish(Err(ApiError::AuthError(reason))),
        AuthStep::NeedUser(user_ref) => FlowStep {
            next: Flow::Authorizing { session, requirement, operation },
            effect: FlowEffect::LookupUser(user_ref),
        },
        AuthStep::NeedMembership { server_id, user_ref } => FlowStep {
            next: Flow::Authorizing { session, requirement, operation },
            effect: FlowEffect::LookupMembership { server_id, user_ref },
        },
    }
}

fn begin(
    config: &ServerConfig,
    principal: ApiResult<Principal>,
    requirement: Requirement,
    operation: Operation,
) -> (r: FlowStep)
    ensures
        begins(
            r,
            local_host_spec(config.local_host_raw@, config.port),
            principal,
            requirement,
            operation,
        ),
{
    match principal {
        Ok(p) => {
            let session = Session::new(p);
            go_on(config, session, requirement, operation)
        },
        Err(e) => finish(Err(e)),
    }
}

/// What the start of a request leads to, where its requirement is
/// arrived at as `plan` says.
pub open spec fn starts(
    step: FlowStep,
    local: Seq<char>,
    principal: ApiResult<Principal>,
    for_client: bool,
    plan: RequirementPlan,
    operation: Operation,
) -> bool {
    match plan {
        RequirementPlan::Open => exists|session: Session|
            session.user_ref.is_none() && session.federation.is_none() && #[trigger] places(
                step,
                local,
                session,
                operation,
            ),
        RequirementPlan::Rule(requirement) => begins(step, local, principal, requirement, operation),
        RequirementPlan::MessageDelete { server_id, message_id } => {
            &&& step.next == (Flow::AwaitingMessage { principal, for_client, server_id, operation })
            &&& step.effect == (FlowEffect::LookupMessage { message_id })
        },
    }
}

/// The rule for deleting `message` from a server, for a client or for a peer.
pub open spec fn delete_rule(for_client: bool, message: Message, server_id: Uuid) -> Requirement {
    if for_client {
        client_rule(delete_base_spec(message, server_id))
    } else {
        federated_rule(delete_base_spec(message, server_id))
    }
}

/// What a flow does with what it is handed.
pub open spec fn advances(step: FlowStep, local: Seq<char>, flow: Flow, event: FlowEvent) -> bool {
    match (flow, event) {
        (
            Flow::AwaitingMessage { principal, for_client, server_id, operation },
            FlowEvent::Message(found),
        ) => match found {
            Ok(message) => begins(
                step,
                local,
                principal,
                delete_rule(for_client, message, server_id),
                operation,
            ),
            Err(e) => ends_with_error(step, e),
        },
        (Flow::Authorizing { .. }, FlowEvent::LookupFailed(e)) => ends_with_error(step, e),
        (Flow::Authorizing { session, requirement, operation }, FlowEvent::User(user)) => {
            exists|known: Session|
                {
                    &&& known.user == (if session.user.is_some() {
                        session.user
                    } else {
                        Some(user)
                    })
                    &&& known.user_ref == session.user_ref
                    &&& known.federation == session.federation
                    &&& known.memberships == session.memberships
                    &&& #[trigger] authorizes(step, local, known, requirement, operation)
                }
        },
        (
            Flow::Authorizing { session, requirement, operation },
            FlowEvent::Membership { server_id, member },
        ) => {
            exists|known: Session|
                {
                    &&& known.user == session.user
                    &&& known.user_ref == session.user_ref
                    &&& known.federation == session.federation
                    &&& known.memberships@ == session.memberships@.push(
                        crate::auth::MembershipLookup { server_id, member },
                    )
                    &&& #[trigger] authorizes(step, local, known, requirement, operation)
                }
        },
        (Flow::Local, FlowEvent::LocalDone(result)) => {
            step.next is Finished && step.effect == FlowEffect::Finish(result)
        },
        (Flow::Remote { operation, user_ref, host }, FlowEvent::RemoteDone(answer)) => match answer {
            Err(failure) => {
                &&& step.next is Finished
                &&& step.effect matches FlowEffect::Finish(Err(e)) && api_error_of_request_error(
                    failure,
                    host@,
                    e,
                )
            },
            Ok(reply) => match operation.expected_result(reply) {
                None => ends_refused(
                    step,
                    Refusal::Internal(
                        "Unexpected federation reply from "@ + host@ + " for "@ + operation.name(),
                    ),
                ),
                Some(result) => reads_remote(step, operation, user_ref, result),
            },
        },
        (Flow::MirroringServer { server }, FlowEvent::Mirrored(written)) => match written {
            Ok(_) => step.next is Finished && step.effect == FlowEffect::Finish(
                Ok::<OpResult, ApiError>(OpResult::Server(server)),
            ),
            Err(e) => ends_with_error(step, e),
        },
        (Flow::MirroringMembership { user }, FlowEvent::Mirrored(written)) => match written {
            Ok(Some(mirror)) => step.next is Finished && step.effect == FlowEffect::Finish(
                Ok::<OpResult, ApiError>(OpResult::FullMembership(full_membership_of(mirror, user))),
            ),
            Ok(None) => ends_refused(step, Refusal::Internal("Mirrored membership is missing"@)),
            Err(e) => ends_with_error(step, e),
        },
        (Flow::MirroringDeletion, FlowEvent::Mirrored(_)) => {
            step.next is Finished && step.effect == FlowEffect::Finish(
                Ok::<OpResult, ApiError>(OpResult::Done),
            )
        },
        _ => ends_refused(step, Refusal::Internal("Request was handed what it did not wait for"@)),
    }
}

/// What the result of an operation on another host leads to: where the
/// change there calls for mirror rows they are written first; else the
/// result is that of the request.
pub open spec fn reads_remote(
    step: FlowStep,
    operation: Operation,
    user_ref: Option<UserRef>,
    result: OpResult,
) -> bool {
    match (operation, result) {
        (Operation::ServersCreate { .. }, OpResult::Server(server)) => match user_ref {
            Some(creator) => {
                &&& step.next == (Flow::MirroringServer { server })
                &&& step.effect == FlowEffect::Mirror(
                    MirrorPlan::ServerCreated {
                        server,
                        membership: ServerMembership {
                            server,
                            user_ref: creator,
                            role: ServerRole::Admin,
                            joined_at: server.created_at,
                            updated_at: server.updated_at,
                            synced_at: Some(server.created_at),
                        },
                    },
                )
            },
            None => ends_refused(
                step,
                Refusal::Internal("User reference required for federated server creation"@),
            ),
        },
        (Operation::MembershipsCreate { .. }, OpResult::FullMembership(full)) => {
            &&& step.next == (Flow::MirroringMembership { user: full.user })
            &&& step.effect == FlowEffect::Mirror(
                MirrorPlan::MembershipCreated {
                    membership: crate::types::server::membership_of(full),
                    server: full.server,
                },
            )
        },
        (Operation::MembershipsDelete { server_id, user_ref: leaving, .. }, OpResult::Done) => {
            &&& step.next is MirroringDeletion
            &&& step.effect == FlowEffect::Mirror(
                MirrorPlan::MembershipDeleted { server_id, user_ref: leaving },
            )
        },
        _ => step.next is Finished && step.effect == FlowEffect::Finish(
            Ok::<OpResult, ApiError>(result),
        ),
    }
}

fn read_remote(operation: Operation, user_ref: Option<UserRef>, result: OpResult) -> (r: FlowStep)
    ensures
        reads_remote(r, operation, user_ref, result),
{
    match (operation, result) {
        (Operation::ServersCreate { .. }, OpResult::Server(server)) => match user_ref {
            Some(creator) => {
                let membership = creator_mirror(&server, creator);
                FlowStep {
                    next: Flow::MirroringServer { server: server.clone() },
                    effect: FlowEffect::Mirror(MirrorPlan::ServerCreated { server, membership }),
                }
            },
            None => finish(
                Err(
                    ApiError::Internal(
                        String::from_str("User reference required for federated server creation"),
                    ),
                ),
            ),
        },
        (Operation::MembershipsCreate { .. }, OpResult::FullMembership(full)) => {
            let user = full.user.clone();
            let server = full.server.clone();
            let membership = ServerMembership::from(full);
            FlowStep {
                next: Flow::MirroringMembership { user },
                effect: FlowEffect::Mirror(MirrorPlan::MembershipCreated { membership, server }),
            }
        },
        (Operation::MembershipsDelete { server_id, user_ref: leaving, .. }, OpResult::Done) => {
            FlowStep {
                next: Flow::MirroringDeletion,
                effect: FlowEffect::Mirror(
                    MirrorPlan::MembershipDeleted { server_id, user_ref: leaving },
                ),
            }
        },
        (_, result) => finish(Ok(result)),
    }
}

impl Flow {
    /// Starts the flow of a request that leads to `operation` under the
    /// requirement that `plan` names. `principal` is who makes the request,
    /// or why that could not be established; `for_client` says on which
    /// transport the request came.
    pub fn start(
        config: &ServerConfig,
        principal: ApiResult<Principal>,
        for_client: bool,
        plan: RequirementPlan,
        operation: Operation,
    ) -> (r: FlowStep)
        ensures
            starts(
                r,
                local_host_spec(config.local_host_raw@, config.port),
                principal,
                for_client,
                plan,
                operation,
            ),
    {
        match plan {
            RequirementPlan::Open => {
                let session = Session {
                    user_ref: None,
                    federation: None,
                    user: None,
                    memberships: Vec::new(),
                };
                place(config, session, operation)
            },
            RequirementPlan::Rule(requirement) => begin(config, principal, requirement, operation),
            RequirementPlan::MessageDelete { server_id, message_id } => FlowStep {
                next: Flow::AwaitingMessage { principal, for_client, server_id, operation },
                effect: FlowEffect::LookupMessage { message_id },
            },
        }
    }

    /// Hands the flow what it waited for. What it is handed out of turn
    /// ends it with an internal error.
    pub fn step(self, config: &ServerConfig, event: FlowEvent) -> (r: FlowStep)
        ensures
            advances(r, local_host_spec(config.local_host_raw@, config.port), self, event),
    {
        match (self, event) {
            (
                Flow::AwaitingMessage { principal, for_client, server_id, operation },
                FlowEvent::Message(found),
            ) => match found {
                Ok(message) => {
                    let requirement = if for_client {
                        client_delete_rule(&message, server_id)
                    } else {
                        federated_delete_rule(&message, server_id)
                    };
                    begin(config, principal, requirement, operation)
                },
                Err(e) => finish(Err(e)),
            },
            (Flow::Authorizing { .. }, FlowEvent::LookupFailed(e)) => finish(Err(e)),
            (Flow::Authorizing { session, requirement, operation }, FlowEvent::User(user)) => {
                let mut session = session;
                session.record_user(user);
                go_on(config, session, requirement, operation)
            },
            (
                Flow::Authorizing { session, requirement, operation },
                FlowEvent::Membership { server_id, member },
            ) => {
                let mut session = session;
                session.record_membership(server_id, member);
                go_on(config, session, requirement, operation)
            },
            (Flow::Local, FlowEvent::LocalDone(result)) => finish(result),
            (Flow::Remote { operation, user_ref, host }, FlowEvent::RemoteDone(answer)) => {
                match answer {
                    Err(failure) => finish(Err(failure.into_api_error(host.as_str()))),
                    Ok(reply) => match operation.read_reply(host.as_str(), reply) {
                        Ok(result) => read_remote(operation, user_ref, result),
                        Err(e) => finish(Err(e)),
                    },
                }
            },
            (Flow::MirroringServer { server }, FlowEvent::Mirrored(written)) => match written {
                Ok(_) => finish(Ok(OpResult::Server(server))),
                Err(e) => finish(Err(e)),
            },
            (Flow::MirroringMembership { user }, FlowEvent::Mirrored(written)) => match written {
                Ok(Some(mirror)) => finish(Ok(OpResult::FullMembership(mirror.as_full(user)))),
                Ok(None) => finish(
                    Err(ApiError::Internal(String::from_str("Mirrored membership is missing"))),
                ),
                Err(e) => finish(Err(e)),
            },
            (Flow::MirroringDeletion, FlowEvent::Mirrored(_)) => finish(Ok(OpResult::Done)),
            _ => finish(
                Err(
                    ApiError::Internal(
                        String::from_str("Request was handed what it did not wait for"),
                    ),
                ),
            ),
        }
    }
}

/// An operation reaches the store or another host only once its
/// requirement is met: authorizing hands nothing on before.
pub proof fn lemma_nothing_runs_unauthorized(
    step: FlowStep,
    local: Seq<char>,
    session: Session,
    requirement: Requirement,
    operation: Operation,
)
    requires
        authorizes(step, local, session, requirement, operation),
        step.effect is RunLocal || step.effect is CallRemote,
    ensures
        decide(requirement, session) is Granted,
{
}

/// An operation whose target is the local host is never handed to another
/// host: placing it asks for no federation request.
pub proof fn lemma_local_target_makes_no_call(
    step: FlowStep,
    local: Seq<char>,
    session: Session,
    operation: Operation,
)
    requires
        places(step, local, session, operation),
        !crate::config::is_remote_spec(local, operation.target()),
    ensures
        !(step.effect is CallRemote),
        !(step.next is Remote),
{
}

} // verus!
